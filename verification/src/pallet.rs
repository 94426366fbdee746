use vstd::prelude::*;

use crate::club::{Club, FIRST_CLUB_ID};
use crate::error::Error;
use crate::event::Event;
use crate::origin::Origin;
use crate::registry::Registry;
use crate::store::{fetch, ClubStore};
use crate::transition;

verus! {

/// The membership service: the club store and the next free club identifier,
/// with the three operations that change them. Its view is the [`Registry`],
/// which is always well formed.
///
/// Each operation reads the record it needs, lets [`transition`] decide, and
/// on success writes one record back in one step. A refused operation writes
/// nothing.
pub struct Pallet {
    clubs: ClubStore,
    next_club_id: u32,
}

impl View for Pallet {
    type V = Registry;

    closed spec fn view(&self) -> Registry {
        Registry { clubs: self.clubs@, next_club_id: self.next_club_id }
    }
}

impl Pallet {
    /// Every service keeps its state well formed.
    #[verifier::type_invariant]
    spec fn inv(&self) -> bool {
        self@.wf()
    }

    /// A service in the initial state.
    pub fn new() -> (pallet: Pallet)
        ensures
            pallet@ == Registry::init(),
    {
        Pallet { clubs: ClubStore::new(), next_club_id: FIRST_CLUB_ID }
    }

    /// The identifier that the next club will get.
    pub fn next_club_id(&self) -> (club_id: u32)
        ensures
            club_id == self@.next_club_id,
            self@.wf(),
    {
        proof {
            use_type_invariant(self);
        }
        self.next_club_id
    }

    /// The club store, to read.
    pub fn clubs(&self) -> (clubs: &ClubStore)
        ensures
            clubs@ == self@.clubs,
            self@.wf(),
    {
        proof {
            use_type_invariant(self);
        }
        &self.clubs
    }

    /// Reads the club stored under `club_id`; the default club where none is.
    pub fn club_members(&self, club_id: u32) -> (club: Club)
        ensures
            club@ == fetch(self@.clubs, club_id),
            club.wf(),
            self@.wf(),
    {
        proof {
            use_type_invariant(self);
        }
        self.clubs.get(club_id)
    }

    /// Stores `club` under `club_id`, and makes `next_club_id` the next free
    /// identifier.
    fn write(&mut self, club_id: u32, club: Club, next_club_id: u32)
        requires
            club@.id == club_id,
            FIRST_CLUB_ID <= club_id < next_club_id,
            old(self)@.next_club_id <= next_club_id,
        ensures
            final(self)@ == (Registry { next_club_id, ..old(self)@.with_club(club_id, club@) }),
    {
        proof {
            use_type_invariant(&*self);
        }
        let mut clubs = ClubStore::new();
        std::mem::swap(&mut clubs, &mut self.clubs);
        clubs.put(club_id, club);
        self.next_club_id = next_club_id;
        self.clubs = clubs;
    }

    /// Creates an empty club under a fresh identifier on behalf of the
    /// caller.
    pub fn create_club(&mut self, origin: Origin) -> (result: Result<Event, Error>)
        ensures
            old(self)@.wf(),
            final(self)@.wf(),
            final(self)@ == old(self)@.create_club(origin).after,
            result == old(self)@.create_club(origin).result,
    {
        proof {
            use_type_invariant(&*self);
        }
        match transition::create_club(origin, self.next_club_id) {
            Ok((club, next_club_id, event)) => {
                self.write(self.next_club_id, club, next_club_id);
                Ok(event)
            },
            Err(error) => Err(error),
        }
    }

    /// Adds the caller to the club `club_id`.
    pub fn add_member(&mut self, origin: Origin, club_id: u32) -> (result: Result<Event, Error>)
        ensures
            old(self)@.wf(),
            final(self)@.wf(),
            final(self)@ == old(self)@.add_member(origin, club_id).after,
            result == old(self)@.add_member(origin, club_id).result,
    {
        proof {
            use_type_invariant(&*self);
        }
        let slot = if self.clubs.contains(club_id) {
            Some(self.clubs.get(club_id))
        } else {
            None
        };
        match transition::add_member(origin, slot) {
            Ok((club, event)) => {
                self.write(club_id, club, self.next_club_id);
                Ok(event)
            },
            Err(error) => Err(error),
        }
    }

    /// Removes the caller from the club `club_id`.
    pub fn remove_member(&mut self, origin: Origin, club_id: u32) -> (result: Result<
        Event,
        Error,
    >)
        ensures
            old(self)@.wf(),
            final(self)@.wf(),
            final(self)@ == old(self)@.remove_member(origin, club_id).after,
            result == old(self)@.remove_member(origin, club_id).result,
    {
        proof {
            use_type_invariant(&*self);
        }
        match transition::remove_member(origin, self.clubs.get(club_id)) {
            Ok((club, event)) => {
                self.write(club_id, club, self.next_club_id);
                Ok(event)
            },
            Err(error) => Err(error),
        }
    }
}

} // verus!
