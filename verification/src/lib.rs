//! A compile-time code generator for single-field "newtype" wrappers.
//!
//! The crate parses a restricted grammar of type declarations, given as a
//! sequence of lexical tokens, into a [`parse::BoilParse`] record, and then
//! renders a fixed catalog of trait and method implementations that make the
//! wrapper interchangeable with its wrapped payload: reference conversion,
//! ownership conversion, smart-pointer projection, and result adaptation.
//!
//! The host compiler supplies the tokens and compiles the rendered text; this
//! crate itself only turns tokens into text.

pub mod laws;
pub mod parse;
pub mod render;
pub mod token;

use vstd::prelude::*;

use crate::token::{Token, spec_token_text, str_eq, token_text};

verus! {

/// Whether the invocation's attribute arguments carry the modifier `scoped`:
/// a token whose text is `scoped`, anywhere among them. Scoped mode omits the
/// pointer-indirection accessors from the rendered catalog.
pub fn is_scoped(attr: &Vec<Token>) -> (r: bool)
    ensures
        r == exists|k: int|
            0 <= k < attr@.len() && spec_token_text(#[trigger] attr@[k]) == "scoped"@,
{
    let mut k: usize = 0;
    while k < attr.len()
        invariant
            k <= attr.len(),
            forall|m: int| 0 <= m < k ==> spec_token_text(#[trigger] attr@[m]) != "scoped"@,
        decreases attr.len() - k,
    {
        let t = token_text(&attr[k]);
        if str_eq(t.as_str(), "scoped") {
            return true;
        }
        k = k + 1;
    }
    false
}

/// The shape of a wrapper that the sized catalog is rendered for: a tuple
/// struct with exactly one payload field and no added layout. This struct is
/// not real API; it stands in the documentation as the sample declaration
/// `struct Example(pub u8);`.
pub struct Example(pub u8);

/// The payload shape that unsized mode is for: an existential/trait-object
/// type, which cannot be held by value.
pub trait ExamplePayload {
}

/// The shape of a wrapper in unsized mode: the payload is an
/// existential/trait-object type and cannot be held by value, so the sample
/// holds it behind a heap allocation here.
pub struct ExampleUnsized(pub Box<dyn ExamplePayload>);

} // verus!
