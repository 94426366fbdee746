use vstd::prelude::*;

use crate::origin::AccountId;

verus! {

/// What a successful operation announces.
#[derive(Clone, Copy, Debug, PartialEq, Eq, Structural)]
pub enum Event {
    /// A club came into being: its identifier and the account that created it.
    ClubCreated(u32, AccountId),
    /// The account joined a club.
    MemberAdded(AccountId),
    /// The account left a club.
    MemberRemoved(AccountId),
}

} // verus!
