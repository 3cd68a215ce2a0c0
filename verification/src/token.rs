//! Identifiers for the sources registered with an event loop.

use vstd::prelude::*;

verus! {

/// Names one source registered with an event loop.
///
/// A token owns nothing. It is a plain key: the loop hands back the token that
/// a source was registered under, and the handler uses it to find the source
/// again. Two tokens are equal exactly when their numbers are.
#[derive(Clone, Copy, Debug, PartialEq, Eq, Structural, Hash)]
pub struct Token(pub usize);

} // verus!
