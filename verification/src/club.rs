use vstd::prelude::*;

use crate::origin::AccountId;

verus! {

/// The identifier of the club that [`Club::default`] describes, and the first
/// identifier that a registry hands out.
pub const FIRST_CLUB_ID: u32 = 1;

/// What a club is to the contracts: its identifier and its member list.
#[verifier::ext_equal]
pub struct ClubView {
    /// The identifier under which the club is stored.
    pub id: u32,
    /// The members, in the order in which they joined.
    pub members: Seq<AccountId>,
}

impl ClubView {
    /// A club without members.
    pub open spec fn empty(id: u32) -> ClubView {
        ClubView { id, members: Seq::empty() }
    }

    /// The club after `who` joined at the end of the list.
    pub open spec fn joined(self, who: AccountId) -> ClubView {
        ClubView { members: self.members.push(who), ..self }
    }

    /// The club after the first place at which `who` stands was taken out.
    /// Where no account occurs twice, that is the only such place.
    pub open spec fn left(self, who: AccountId) -> ClubView {
        ClubView { members: self.members.remove_value(who), ..self }
    }
}

/// A group of accounts: an identifier and the members in the order in which
/// they joined.
#[derive(Debug, PartialEq, Eq)]
pub struct Club {
    id: u32,
    members: Vec<AccountId>,
}

impl View for Club {
    type V = ClubView;

    closed spec fn view(&self) -> ClubView {
        ClubView { id: self.id, members: self.members@ }
    }
}

/// The first position below `end` at which `who` stands in `list`.
fn find(list: &Vec<AccountId>, end: usize, who: AccountId) -> (at: Option<usize>)
    requires
        end <= list.len(),
    ensures
        match at {
            Some(i) => {
                &&& i < end
                &&& list[i as int] == who
                &&& forall|j: int| 0 <= j < i ==> list[j] != who
            },
            None => forall|j: int| 0 <= j < end ==> list[j] != who,
        },
{
    let mut i: usize = 0;
    while i < end
        invariant
            i <= end <= list.len(),
            forall|j: int| 0 <= j < i ==> list[j] != who,
        decreases end - i,
    {
        if list[i] == who {
            return Some(i);
        }
        i += 1;
    }
    None
}

impl Club {
    /// A club is well formed when no account occurs twice in its member list.
    /// Every club is.
    pub open spec fn wf(&self) -> bool {
        self@.members.no_duplicates()
    }

    #[verifier::type_invariant]
    pub(crate) open spec fn inv(&self) -> bool {
        self.wf()
    }

    /// A club without members.
    pub fn new(id: u32) -> (club: Club)
        ensures
            club@ == ClubView::empty(id),
            club.wf(),
    {
        Club { id, members: Vec::new() }
    }

    /// The identifier under which the club is stored.
    pub fn id(&self) -> (id: u32)
        ensures
            id == self@.id,
    {
        self.id
    }

    /// Rebuilds a club from a stored record. A record in which an account
    /// occurs twice is no club: it gives `None`.
    pub fn with_members(id: u32, members: Vec<AccountId>) -> (club: Option<Club>)
        ensures
            match club {
                Some(c) => c@ == (ClubView { id, members: members@ }) && c.wf(),
                None => !members@.no_duplicates(),
            },
    {
        let mut i: usize = 0;
        while i < members.len()
            invariant
                i <= members.len(),
                forall|j: int, k: int| 0 <= j < k < i ==> members[j] != members[k],
            decreases members.len() - i,
        {
            if find(&members, i, members[i]).is_some() {
                return None;
            }
            i += 1;
        }
        Some(Club { id, members })
    }

    /// The members, in the order in which they joined.
    pub fn members(&self) -> (members: &Vec<AccountId>)
        ensures
            members@ == self@.members,
            self.wf(),
    {
        proof {
            use_type_invariant(self);
        }
        &self.members
    }

    /// Whether `who` belongs to the club.
    pub fn is_member(&self, who: AccountId) -> (found: bool)
        ensures
            found == self@.members.contains(who),
            self.wf(),
    {
        proof {
            use_type_invariant(self);
        }
        find(&self.members, self.members.len(), who).is_some()
    }

    /// Appends an account that does not belong to the club yet.
    pub(crate) fn enroll(&mut self, who: AccountId)
        requires
            !old(self)@.members.contains(who),
        ensures
            final(self)@ == old(self)@.joined(who),
            final(self).wf(),
    {
        proof {
            use_type_invariant(&*self);
        }
        let mut members = Vec::new();
        std::mem::swap(&mut members, &mut self.members);
        members.push(who);
        self.members = members;
    }

    /// Takes out the one place at which `who` stands, if there is one, and
    /// says whether there was.
    pub(crate) fn withdraw(&mut self, who: AccountId) -> (found: bool)
        ensures
            found == old(self)@.members.contains(who),
            final(self)@ == old(self)@.left(who),
            final(self).wf(),
            !final(self)@.members.contains(who),
    {
        proof {
            use_type_invariant(&*self);
            self@.members.index_of_first_ensures(who);
        }
        match find(&self.members, self.members.len(), who) {
            Some(i) => {
                let mut members = Vec::new();
                std::mem::swap(&mut members, &mut self.members);
                members.remove(i);
                self.members = members;
                true
            },
            None => false,
        }
    }
}

impl Default for Club {
    /// The club that a read of an absent identifier yields: no members, and
    /// the first identifier.
    fn default() -> (club: Club)
        ensures
            club@ == ClubView::empty(FIRST_CLUB_ID),
            club.wf(),
    {
        Club::new(FIRST_CLUB_ID)
    }
}

impl Clone for Club {
    fn clone(&self) -> (club: Club)
        ensures
            club@ == self@,
            club.wf(),
    {
        proof {
            use_type_invariant(self);
        }
        Club { id: self.id, members: self.members.clone() }
    }
}

} // verus!
