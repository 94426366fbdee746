use vstd::prelude::*;

use crate::club::{ClubView, FIRST_CLUB_ID};
use crate::error::Error;
use crate::event::Event;
use crate::origin::{AccountId, Origin};
use crate::store::{consistent, fetch};
use crate::transition::{may_create, may_join, may_leave};

verus! {

/// The state of the ledger that the membership operations work on: the clubs
/// by identifier, and the identifier that the next club will get.
#[verifier::ext_equal]
pub struct Registry {
    /// The clubs that were created, by identifier.
    pub clubs: Map<u32, ClubView>,
    /// The identifier that the next club will get.
    pub next_club_id: u32,
}

/// What one operation leaves behind: the state after it, and what it
/// answered. `Ok` carries the one event that the operation emits; an
/// operation that answers `Err` emits none.
#[verifier::ext_equal]
pub struct Outcome {
    /// The state after the operation.
    pub after: Registry,
    /// What the operation answered.
    pub result: Result<Event, Error>,
}

impl Outcome {
    /// The events that the operation emitted: the one that `Ok` carries, or
    /// none.
    pub open spec fn emitted(self) -> Seq<Event> {
        match self.result {
            Ok(event) => seq![event],
            Err(_) => Seq::empty(),
        }
    }
}

impl Registry {
    /// The state before any operation: no club, and the first identifier free.
    pub open spec fn init() -> Registry {
        Registry { clubs: Map::empty(), next_club_id: FIRST_CLUB_ID }
    }

    /// A state is well formed when its records are [`consistent`] and every
    /// club's identifier lies from the first one up to, and not including,
    /// the next free one.
    pub open spec fn wf(self) -> bool {
        &&& consistent(self.clubs)
        &&& forall|club_id: u32| #[trigger]
            self.clubs.contains_key(club_id) ==> FIRST_CLUB_ID <= club_id < self.next_club_id
        &&& FIRST_CLUB_ID <= self.next_club_id
    }

    /// The record stored under `club_id`, if a club was created under it.
    pub open spec fn slot(self, club_id: u32) -> Option<ClubView> {
        if self.clubs.contains_key(club_id) {
            Some(self.clubs[club_id])
        } else {
            None
        }
    }

    /// The member list that a read of `club_id` shows: empty where no club
    /// was created under it.
    pub open spec fn members(self, club_id: u32) -> Seq<AccountId> {
        fetch(self.clubs, club_id).members
    }

    /// The state with `club` stored under `club_id` in place of what was
    /// there.
    pub open spec fn with_club(self, club_id: u32, club: ClubView) -> Registry {
        Registry { clubs: self.clubs.insert(club_id, club), ..self }
    }

    /// Creating a club: the caller's new, empty club gets the next free
    /// identifier, and the one after it becomes the next free one.
    pub open spec fn create_club(self, origin: Origin) -> Outcome {
        match may_create(origin, self.next_club_id) {
            Ok(who) => Outcome {
                after: Registry {
                    next_club_id: (self.next_club_id + 1) as u32,
                    ..self.with_club(self.next_club_id, ClubView::empty(self.next_club_id))
                },
                result: Ok(Event::ClubCreated(self.next_club_id, who)),
            },
            Err(error) => Outcome { after: self, result: Err(error) },
        }
    }

    /// Adding the caller to the club `club_id`: the caller goes to the end of
    /// its member list.
    pub open spec fn add_member(self, origin: Origin, club_id: u32) -> Outcome {
        match may_join(origin, self.slot(club_id)) {
            Ok(who) => Outcome {
                after: self.with_club(club_id, self.clubs[club_id].joined(who)),
                result: Ok(Event::MemberAdded(who)),
            },
            Err(error) => Outcome { after: self, result: Err(error) },
        }
    }

    /// Removing the caller from the club `club_id`: the caller's place in its
    /// member list is taken out.
    pub open spec fn remove_member(self, origin: Origin, club_id: u32) -> Outcome {
        match may_leave(origin, fetch(self.clubs, club_id)) {
            Ok(who) => Outcome {
                after: self.with_club(club_id, self.clubs[club_id].left(who)),
                result: Ok(Event::MemberRemoved(who)),
            },
            Err(error) => Outcome { after: self, result: Err(error) },
        }
    }
}

} // verus!
