use frame_support::sp_runtime::traits::BadOrigin;
use vstd::prelude::*;

use crate::error::Error;

verus! {

/// `sp_runtime::traits::BadOrigin`, the rejection that the runtime's origin
/// guards return. It is a unit struct; nothing is claimed of it and values of
/// it are only carried.
#[verifier::external_type_specification]
#[verifier::external_body]
pub struct ExBadOrigin(frame_support::sp_runtime::traits::BadOrigin);

/// An account of the ledger.
pub type AccountId = u64;

/// A transaction's origin as the runtime's guard for signed-or-root origins
/// reports it: `Ok(Some(account))` for a signed transaction, `Ok(None)` for
/// the root origin, which stands for no account, and `Err(_)` for an origin
/// that the guard rejects.
pub type Origin = Result<Option<AccountId>, BadOrigin>;

/// The account on whose behalf a transaction with this origin acts, if any.
pub open spec fn signer(origin: Origin) -> Option<AccountId> {
    match origin {
        Ok(Some(who)) => Some(who),
        _ => None,
    }
}

/// Turns the guard's outcome into the caller's account. The root origin and
/// a rejected origin name no account: both fail with
/// [`Error::AuthenticationFailed`].
pub fn authenticate(origin: Origin) -> (result: Result<AccountId, Error>)
    ensures
        result == match signer(origin) {
            Some(who) => Ok::<AccountId, Error>(who),
            None => Err(Error::AuthenticationFailed),
        },
{
    match origin {
        Ok(Some(who)) => Ok(who),
        _ => Err(Error::AuthenticationFailed),
    }
}

} // verus!
