use std::collections::BTreeMap;
use vstd::prelude::*;

use crate::club::{Club, ClubView, FIRST_CLUB_ID};

verus! {

/// The record that a read of `club_id` yields from the mapping `clubs`: the
/// stored club, or a club without members under the first identifier where
/// nothing is stored.
pub open spec fn fetch(clubs: Map<u32, ClubView>, club_id: u32) -> ClubView {
    if clubs.contains_key(club_id) {
        clubs[club_id]
    } else {
        ClubView::empty(FIRST_CLUB_ID)
    }
}

/// Whether every record of `clubs` is stored under its own identifier and
/// holds no account twice.
pub open spec fn consistent(clubs: Map<u32, ClubView>) -> bool {
    forall|club_id: u32| #[trigger]
        clubs.contains_key(club_id) ==> clubs[club_id].id == club_id
            && clubs[club_id].members.no_duplicates()
}

/// The mapping from club identifier to club record. Its view is that mapping.
/// Only the registry writes it.
pub struct ClubStore {
    clubs: BTreeMap<u32, Club>,
}

/// The records that a map of clubs holds.
spec fn records(clubs: Map<u32, Club>) -> Map<u32, ClubView> {
    clubs.map_values(|club: Club| club@)
}

impl View for ClubStore {
    type V = Map<u32, ClubView>;

    closed spec fn view(&self) -> Map<u32, ClubView> {
        records(self.clubs@)
    }
}

impl ClubStore {
    /// Every store keeps its records [`consistent`].
    #[verifier::type_invariant]
    spec fn inv(&self) -> bool {
        consistent(self@)
    }

    /// A store that holds no club.
    pub fn new() -> (store: ClubStore)
        ensures
            store@ == Map::<u32, ClubView>::empty(),
    {
        ClubStore { clubs: BTreeMap::new() }
    }

    /// Whether a club is stored under `club_id`.
    pub fn contains(&self, club_id: u32) -> (found: bool)
        ensures
            found == self@.contains_key(club_id),
            consistent(self@),
    {
        broadcast use vstd::laws_cmp::group_laws_cmp;

        proof {
            use_type_invariant(self);
        }
        self.clubs.contains_key(&club_id)
    }

    /// Reads the club stored under `club_id`. The read never fails: where no
    /// club is stored it yields the default club.
    pub fn get(&self, club_id: u32) -> (club: Club)
        ensures
            club@ == fetch(self@, club_id),
            club.wf(),
            consistent(self@),
    {
        broadcast use vstd::laws_cmp::group_laws_cmp;

        proof {
            use_type_invariant(self);
        }
        match self.clubs.get(&club_id) {
            Some(club) => club.clone(),
            None => Club::default(),
        }
    }

    /// Replaces whatever is stored under `club_id` by `club`, in one step.
    pub(crate) fn put(&mut self, club_id: u32, club: Club)
        requires
            club@.id == club_id,
        ensures
            final(self)@ == old(self)@.insert(club_id, club@),
            consistent(final(self)@),
    {
        broadcast use vstd::laws_cmp::group_laws_cmp;

        proof {
            use_type_invariant(&*self);
            use_type_invariant(&club);
        }
        let mut clubs = BTreeMap::new();
        std::mem::swap(&mut clubs, &mut self.clubs);
        clubs.insert(club_id, club);
        assert(records(clubs@) =~= old(self)@.insert(club_id, club@));
        self.clubs = clubs;
    }
}

} // verus!
