use vstd::prelude::*;

use crate::club::{Club, ClubView};
use crate::error::Error;
use crate::event::Event;
use crate::origin::{authenticate, signer, AccountId, Origin};

verus! {

/// What is stored under an identifier, as the contracts see it.
pub open spec fn stored(slot: Option<Club>) -> Option<ClubView> {
    match slot {
        Some(club) => Some(club@),
        None => None,
    }
}

/// Whether a club may be created under `next_club_id`, and for whom. The
/// origin is judged first; the last identifier of all is never handed out,
/// so that the one after a fresh club's always exists.
pub open spec fn may_create(origin: Origin, next_club_id: u32) -> Result<AccountId, Error> {
    match signer(origin) {
        None => Err(Error::AuthenticationFailed),
        Some(who) => if next_club_id == u32::MAX {
            Err(Error::IdAllocationExhausted)
        } else {
            Ok(who)
        },
    }
}

/// Whether the caller may join the club stored in `slot`, and who the caller
/// is. The origin is judged first, then whether the club exists, then
/// whether the caller belongs to it already.
pub open spec fn may_join(origin: Origin, slot: Option<ClubView>) -> Result<AccountId, Error> {
    match signer(origin) {
        None => Err(Error::AuthenticationFailed),
        Some(who) => match slot {
            None => Err(Error::ClubNotFound),
            Some(club) => if club.members.contains(who) {
                Err(Error::MemberAlreadyExists)
            } else {
                Ok(who)
            },
        },
    }
}

/// Whether the caller may leave `club`, and who the caller is. The origin is
/// judged first, then whether the caller belongs to the club.
pub open spec fn may_leave(origin: Origin, club: ClubView) -> Result<AccountId, Error> {
    match signer(origin) {
        None => Err(Error::AuthenticationFailed),
        Some(who) => if club.members.contains(who) {
            Ok(who)
        } else {
            Err(Error::MemberNotFound)
        },
    }
}

/// Decides the creation of a club, given the next free identifier. On
/// success it yields the record to store, the next free identifier from then
/// on, and the event to emit.
pub fn create_club(origin: Origin, next_club_id: u32) -> (result: Result<
    (Club, u32, Event),
    Error,
>)
    ensures
        match may_create(origin, next_club_id) {
            Ok(who) => {
                &&& result matches Ok((club, next, event))
                &&& club@ == ClubView::empty(next_club_id)
                &&& club.wf()
                &&& next == next_club_id + 1
                &&& event == Event::ClubCreated(next_club_id, who)
            },
            Err(error) => result matches Err(e) && e == error,
        },
{
    let who = match authenticate(origin) {
        Ok(who) => who,
        Err(error) => return Err(error),
    };
    match next_club_id.checked_add(1) {
        Some(next) => Ok((Club::new(next_club_id), next, Event::ClubCreated(next_club_id, who))),
        None => Err(Error::IdAllocationExhausted),
    }
}

/// Decides the caller's joining of the club read from the store, `None`
/// where no club is stored. On success it yields the record to store in its
/// place and the event to emit.
pub fn add_member(origin: Origin, slot: Option<Club>) -> (result: Result<(Club, Event), Error>)
    ensures
        match may_join(origin, stored(slot)) {
            Ok(who) => {
                &&& result matches Ok((club, event))
                &&& club@ == stored(slot).unwrap().joined(who)
                &&& club.wf()
                &&& event == Event::MemberAdded(who)
            },
            Err(error) => result matches Err(e) && e == error,
        },
{
    let who = match authenticate(origin) {
        Ok(who) => who,
        Err(error) => return Err(error),
    };
    let mut club = match slot {
        Some(club) => club,
        None => return Err(Error::ClubNotFound),
    };
    if club.is_member(who) {
        return Err(Error::MemberAlreadyExists);
    }
    club.enroll(who);
    Ok((club, Event::MemberAdded(who)))
}

/// Decides the caller's leaving of the club read from the store. On success
/// it yields the record to store in its place and the event to emit.
pub fn remove_member(origin: Origin, club: Club) -> (result: Result<(Club, Event), Error>)
    ensures
        match may_leave(origin, club@) {
            Ok(who) => {
                &&& result matches Ok((rest, event))
                &&& rest@ == club@.left(who)
                &&& rest.wf()
                &&& !rest@.members.contains(who)
                &&& event == Event::MemberRemoved(who)
            },
            Err(error) => result matches Err(e) && e == error,
        },
{
    let who = match authenticate(origin) {
        Ok(who) => who,
        Err(error) => return Err(error),
    };
    let mut club = club;
    if club.withdraw(who) {
        Ok((club, Event::MemberRemoved(who)))
    } else {
        Err(Error::MemberNotFound)
    }
}

} // verus!
