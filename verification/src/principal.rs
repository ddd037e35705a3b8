//! Caller identities.
//!
//! An identity is a `candid::Principal`. The rules never look inside one:
//! they store it, hand it back, and compare two of them.

use candid::Principal;
use vstd::prelude::*;

verus! {

/// `candid::Principal`, taken as a value of which nothing is known but
/// whether it is the same as another.
#[verifier::external_type_specification]
#[verifier::external_body]
pub struct ExPrincipal(Principal);

/// `Principal`'s `==`, which it derives over its length and its zero-padded
/// bytes: the comparison holds of two principals exactly when they are the
/// same value.
pub assume_specification[ <Principal as PartialEq>::eq ](a: &Principal, b: &Principal) -> (same:
    bool)
    ensures
        same == (*a == *b),
;

} // verus!
