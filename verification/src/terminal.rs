//! The terminal that the user is shown messages on.

use vstd::prelude::*;

verus! {

/// `colored::control::set_override` stores, in the setting that `colored`
/// keeps for the whole process, that text is colored or not whatever the
/// environment says of the terminal. It returns nothing, and nothing is
/// stated of it here.
pub assume_specification[ colored::control::set_override ](override_colorize: bool);

/// Turns colors on for everything that is printed through `colored`.
pub fn init_colored() {
    colored::control::set_override(true);
}

} // verus!
