//! The Soroban types that run through the library. A value of either is
//! carried from the caller into a record or a key and never looked into.

use vstd::prelude::*;

verus! {

/// `soroban_sdk::Address`, the identity of an account or a contract.
#[verifier::external_type_specification]
#[verifier::external_body]
pub struct ExAddress(soroban_sdk::Address);

/// `soroban_sdk::String`, a string held by the host: the name of a loop.
#[verifier::external_type_specification]
#[verifier::external_body]
pub struct ExString(soroban_sdk::String);

/// `Clone::clone` of `soroban_sdk::Address`: the copy names the same
/// identity as the address it was made from.
pub assume_specification[ <soroban_sdk::Address as Clone>::clone ](
    address: &soroban_sdk::Address,
) -> (copy: soroban_sdk::Address)
    ensures
        copy == *address,
;

} // verus!
