//! Fresh identifiers for objects that are tracked by identity (layers,
//! sprites).  The identifier text is random; nothing in the library
//! depends on which text comes back, only on comparisons between stored
//! identifiers.

use vstd::prelude::*;

verus! {

/// Relies on nanoid::format with the URL-safe 64-symbol alphabet and the
/// default random source: it returns one character per requested symbol,
/// so the identifier always has exactly 21 characters.  Which characters
/// come back is random and is left unspecified.
#[verifier::external_body]
pub fn fresh_id() -> (r: String)
    ensures
        r@.len() == 21,
{
    nanoid::format(nanoid::rngs::default, &nanoid::alphabet::SAFE, 21)
}

} // verus!
