//! Outside types that the library carries through its records and results.

use vstd::prelude::*;

verus! {

/// Identifiers of every stored record (`uuid::Uuid`), carried through unread.
#[verifier::external_type_specification]
#[verifier::external_body]
pub struct ExUuid(uuid::Uuid);

/// `<uuid::Uuid as Clone>::clone`: `Uuid` derives `Clone` and `Copy`, so a
/// clone is the same identifier.
pub assume_specification[ <uuid::Uuid as Clone>::clone ](u: &uuid::Uuid) -> (r: uuid::Uuid)
    ensures
        r == *u,
;

/// The error type of the platform's fallible start-up and shutdown steps
/// (`anyhow::Error`), carried through unread.
#[verifier::external_type_specification]
#[verifier::external_body]
pub struct ExAnyhowError(anyhow::Error);

} // verus!
