//! Structural rendering of values, and what stands in a record where a
//! value could not be rendered.

use core::fmt::Write;
use vstd::prelude::*;
use vstd::string::*;

verus! {

/// The text that stands in a record for a value whose rendering failed.
pub open spec fn unrendered() -> Seq<char> {
    "<unrendered>"@
}

/// The text under which a rendering goes into a record: the rendering
/// itself, or [`unrendered`] where there is none.
pub open spec fn shown(rendering: Option<Seq<char>>) -> Seq<char> {
    match rendering {
        Some(text) => text,
        None => unrendered(),
    }
}

/// The text under which `rendering` goes into a record.
pub fn show(rendering: Option<String>) -> (text: String)
    ensures
        text@ == shown(rendering.deep_view()),
{
    match rendering {
        Some(text) => text,
        None => String::from_str("<unrendered>"),
    }
}

/// What `std`'s `{:?}` formatting writes for `value`, gathered in a
/// `String` by `write!`; `None` where the formatting reported an error.
///
/// Trusted, and nothing is claimed of the result: what a `Debug`
/// implementation writes, and whether it reports an error, is its own
/// affair. Writing to a `String` adds no failure of its own, so an error is
/// handed back as `None` and never raised. The value is only borrowed, so it
/// is the same value afterwards.
#[verifier::external_body]
pub(crate) fn debug_text<T: core::fmt::Debug>(value: &T) -> (text: Option<String>) {
    let mut text = String::new();
    match write!(text, "{:?}", value) {
        Ok(_) => Some(text),
        Err(_) => None,
    }
}

} // verus!
