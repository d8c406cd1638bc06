//! Defaults applied to the answers of the pass-through calls.

use vstd::prelude::*;
use vstd::string::*;

verus! {

/// The completion text of a chat answer: `choices[0].message.content` when
/// present, else "No response".
pub open spec fn response_text_spec(content: Option<String>) -> Seq<char> {
    match content {
        Some(s) => s@,
        None => "No response"@,
    }
}

/// Picks the completion text out of a chat answer.
pub fn response_text(content: &Option<String>) -> (r: String)
    ensures
        r@ == response_text_spec(*content),
{
    match content {
        Some(s) => String::from_str(s.as_str()),
        None => String::from_str("No response"),
    }
}

/// Status of a download whose answer could not be read.
pub fn queued_status() -> (r: String)
    ensures
        r@ == "queued"@,
{
    String::from_str("queued")
}

} // verus!
