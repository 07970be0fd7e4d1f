//! The expanded source as text.

use crate::orchestrator::{Event, EventModel};
use proc_macro2::TokenStream;
use vstd::prelude::*;

verus! {

/// `proc_macro2::TokenStream`, a sequence of Rust tokens. Nothing is known of
/// what a value of it holds but the text it is rendered as.
#[verifier::external_type_specification]
#[verifier::external_body]
pub struct ExTokenStream(proc_macro2::TokenStream);

/// The text that `to_string` gives for a token stream.
pub uninterp spec fn token_text(tokens: TokenStream) -> Seq<char>;

/// Calls `to_string` on a `proc_macro2::TokenStream`. Outside a procedural
/// macro, which is where this library runs, it writes the stream's tokens one
/// after the other as Rust source text, with a space between two that are not
/// joint. The text depends on the tokens alone; the contract gives it its
/// name and claims no more of it.
#[verifier::external_body]
fn render_tokens(tokens: &TokenStream) -> (text: String)
    ensures
        text@ == token_text(*tokens),
{
    tokens.to_string()
}

/// Renders the resolved source, given as tokens, and reports it as the
/// outcome of the rendering.
pub fn serialized(tokens: &TokenStream) -> (event: Event)
    ensures
        event@ == (EventModel::Serialized { text: token_text(*tokens) }),
{
    Event::Serialized { text: render_tokens(tokens) }
}

} // verus!
