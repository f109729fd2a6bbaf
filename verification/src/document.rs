//! Parsed Hurl files and parse errors, which come from `hurl_core` and are
//! carried through as they are, and the HTML formatter of `hurl_core`, which
//! is called here. It is not verified: this module states what the rest of
//! the crate takes for granted of it.

use vstd::prelude::*;

verus! {

/// A parsed Hurl file, `hurl_core::ast::HurlFile`. Nothing in this crate
/// looks inside one.
#[verifier::external_type_specification]
#[verifier::external_body]
pub struct ExHurlFile(hurl_core::ast::HurlFile);

/// The error of the parser, `hurl_core::parser::Error`. The driver, which
/// calls the parser, hands one in, and it is handed back in the report.
/// Nothing in this crate looks inside one.
#[verifier::external_type_specification]
#[verifier::external_body]
pub struct ExParseError(hurl_core::parser::Error);

/// What `hurl_core::format::format_html` returns for a document.
pub uninterp spec fn html_of(document: hurl_core::ast::HurlFile, standalone: bool) -> Seq<char>;

/// `hurl_core::format::format_html` writes the document as HTML, as a
/// complete page where `standalone` is set and as one `pre` element where
/// it is not. Assumed here: it returns for every document, and what it
/// returns depends on the document and the flag alone.
pub assume_specification[ hurl_core::format::format_html ](
    hurl_file: &hurl_core::ast::HurlFile,
    standalone: bool,
) -> (html: String)
    ensures
        html@ == html_of(*hurl_file, standalone),
;

} // verus!
