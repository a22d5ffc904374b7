use candid::Principal;
use vstd::prelude::*;

verus! {

/// `candid::Principal`, the identity of a caller or of a canister. Its bytes are
/// never inspected here: a principal is only carried, stored and compared.
#[verifier::external_type_specification]
#[verifier::external_body]
pub struct ExPrincipal(candid::Principal);

/// `Principal` is `Copy`, and its `clone` is the derived one: the clone is the
/// principal itself.
pub assume_specification[ <Principal as Clone>::clone ](principal: &Principal) -> (copy: Principal)
    ensures
        copy == *principal,
;

/// Calls `Principal`'s `==`. That impl is derived over the type's two fields (the
/// length and the zero-padded byte array), so it holds exactly when the two
/// principals are the same value.
#[verifier::external_body]
pub(crate) fn same_principal(a: &Principal, b: &Principal) -> (same: bool)
    ensures
        same == (*a == *b),
{
    a == b
}

/// The textual form of a principal, as `Principal::to_text` gives it.
pub uninterp spec fn principal_text(principal: Principal) -> Seq<char>;

/// Calls `Principal::to_text`, which computes the textual form from the
/// principal's bytes alone: a checksum, a base-32 encoding and dashes.
#[verifier::external_body]
pub(crate) fn text_of(principal: &Principal) -> (text: String)
    ensures
        text@ == principal_text(*principal),
{
    principal.to_text()
}

} // verus!
