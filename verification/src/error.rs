use vstd::prelude::*;

verus! {

/// Why an operation was refused. A refused operation changes nothing and
/// emits no event.
#[derive(Clone, Copy, Debug, PartialEq, Eq, Structural)]
pub enum Error {
    /// The origin carries no authenticated account.
    AuthenticationFailed,
    /// No club was ever created under the given identifier.
    ClubNotFound,
    /// The caller already belongs to the club.
    MemberAlreadyExists,
    /// The caller does not belong to the club.
    MemberNotFound,
    /// Every club identifier has been handed out.
    IdAllocationExhausted,
}

} // verus!
