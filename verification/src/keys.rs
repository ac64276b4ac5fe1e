//! Key codes, taken from the WebDriver client.

use vstd::prelude::*;

verus! {

/// The keys that submit a form, as the text to send to an element.
///
/// Trusted: `thirtyfour::Keys::value` gives for `Keys::Enter` the character
/// U+E007, which the WebDriver protocol reserves for the Enter key. The result
/// is the string of that one character.
#[verifier::external_body]
pub(crate) fn enter_keys() -> (keys: String)
    ensures
        keys@ == seq!['\u{e007}'],
{
    thirtyfour::Keys::Enter.value().to_string()
}

} // verus!
