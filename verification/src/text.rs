//! What is written: text that ends with a line terminator.

use vstd::prelude::*;
use vstd::string::*;
use vstd::utf8::*;

verus! {

/// The line terminator.
pub open spec fn newline() -> char {
    '\n'
}

/// Whether the text ends with a line terminator.
pub open spec fn terminated(text: Seq<char>) -> bool {
    text.len() > 0 && text.last() == newline()
}

/// The text as it is written: unchanged where it already ends with a line
/// terminator, else with one appended.
pub open spec fn normalized(text: Seq<char>) -> Seq<char> {
    if terminated(text) {
        text
    } else {
        text.push(newline())
    }
}

/// The number of line terminators the text ends with.
pub open spec fn trailing_newlines(text: Seq<char>) -> nat
    decreases text.len(),
{
    if terminated(text) {
        1 + trailing_newlines(text.drop_last())
    } else {
        0
    }
}

/// The pieces put one after another, in order.
pub open spec fn joined(pieces: Seq<Seq<char>>) -> Seq<char>
    decreases pieces.len(),
{
    if pieces.len() == 0 {
        Seq::empty()
    } else {
        joined(pieces.drop_last()) + pieces.last()
    }
}

/// The last byte of an encoded scalar is a line feed only for the line feed
/// itself: a longer encoding ends with a continuation byte.
proof fn last_byte_of_scalar(scalar: u32)
    requires
        is_scalar(scalar),
    ensures
        encode_scalar(scalar).len() > 0,
        encode_scalar(scalar).last() == 10u8 <==> scalar == 10u32,
{
    if has_width_1_encoding(scalar) {
        assert(leading_byte_width_1(scalar) == 10u8 <==> scalar == 10u32) by (bit_vector)
            requires
                scalar <= 0x7F,
        ;
    } else {
        assert(last_continuation_byte(scalar) != 10u8) by (bit_vector);
    }
}

/// The UTF-8 encoding of a text ends with the byte 10 exactly when the text
/// ends with a line terminator.
proof fn last_byte_of_encoding(text: Seq<char>)
    ensures
        encode_utf8(text).len() == 0 <==> text.len() == 0,
        text.len() > 0 ==> (encode_utf8(text).last() == 10u8 <==> text.last() == newline()),
    decreases text.len(),
{
    if text.len() > 0 {
        let head = text[0] as u32;
        let rest = text.drop_first();
        char_is_scalar(text[0]);
        last_byte_of_scalar(head);
        last_byte_of_encoding(rest);
        assert(head == 10u32 <==> text[0] == newline()) by {
            char_u32_cast(text[0], head);
            char_u32_cast(newline(), 10u32);
        }
    }
}

/// Whether the text ends with a line terminator.
pub fn ends_with_newline(text: &str) -> (ends: bool)
    ensures
        ends == terminated(text@),
{
    let bytes = text.as_bytes();
    let count = bytes.len();
    proof {
        last_byte_of_encoding(text@);
    }
    count > 0 && bytes[count - 1] == 10u8
}

/// The text as it is written, with the one line terminator it ends with:
/// a copy of a text that ends with one, any other with one appended.
pub fn normalize(text: &str) -> (written: String)
    ensures
        written@ == normalized(text@),
{
    if ends_with_newline(text) {
        text.to_owned()
    } else {
        proof {
            reveal_strlit("\n");
        }
        text.to_owned().concat("\n")
    }
}

/// Written text ends with a line terminator, and with exactly one where
/// the text ended with none or one. Text that already ends with a
/// terminator is written unchanged, so normalizing twice changes nothing
/// more.
pub proof fn written_text_ends_with_one_newline(text: Seq<char>)
    ensures
        terminated(normalized(text)),
        terminated(text) ==> normalized(text) == text,
        !terminated(text) ==> normalized(text) == text + seq![newline()],
        trailing_newlines(text) <= 1 ==> trailing_newlines(normalized(text)) == 1,
        trailing_newlines(normalized(text)) == if trailing_newlines(text) == 0 {
            1
        } else {
            trailing_newlines(text)
        },
        normalized(normalized(text)) == normalized(text),
{
    if !terminated(text) {
        let written = text.push(newline());
        assert(written.drop_last() =~= text);
    }
}

/// Joining one more piece appends it.
pub proof fn joined_push(pieces: Seq<Seq<char>>, piece: Seq<char>)
    ensures
        joined(pieces.push(piece)) == joined(pieces) + piece,
{
    assert(pieces.push(piece).drop_last() =~= pieces);
}

} // verus!
