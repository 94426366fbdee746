use vstd::prelude::*;

use crate::club::ClubView;
use crate::error::Error;
use crate::event::Event;
use crate::origin::{signer, AccountId, Origin};
use crate::registry::{Outcome, Registry};

verus! {

/// Taking `who` out of a list that holds no account twice leaves a list of
/// the same kind without `who`, shorter by one if `who` stood in it.
pub proof fn lemma_left_list(list: Seq<AccountId>, who: AccountId)
    requires
        list.no_duplicates(),
    ensures
        list.remove_value(who).no_duplicates(),
        !list.remove_value(who).contains(who),
        list.contains(who) ==> list.remove_value(who).len() == list.len() - 1,
        !list.contains(who) ==> list.remove_value(who) == list,
{
    list.index_of_first_ensures(who);
}

/// Appending `who` to a list in which it does not stand and taking it out
/// again gives the list back.
pub proof fn lemma_joined_then_left(list: Seq<AccountId>, who: AccountId)
    requires
        !list.contains(who),
    ensures
        list.push(who).remove_value(who) == list,
{
    let longer = list.push(who);
    longer.index_of_first_ensures(who);
    assert(longer[list.len() as int] == who);
    let at = longer.index_of_first(who).unwrap();
    assert(at == list.len()) by {
        if at < list.len() {
            assert(list[at] == who);
        }
    }
    assert(longer.remove(at) =~= list);
}

/// The initial state is well formed, and every operation keeps a well-formed
/// state well formed: no club ever holds an account twice, and no club's
/// identifier reaches the next free one.
pub proof fn operations_keep_well_formed(registry: Registry, origin: Origin, club_id: u32)
    requires
        registry.wf(),
    ensures
        Registry::init().wf(),
        registry.create_club(origin).after.wf(),
        registry.add_member(origin, club_id).after.wf(),
        registry.remove_member(origin, club_id).after.wf(),
{
    if let Some(who) = signer(origin) {
        lemma_left_list(registry.members(club_id), who);
    }
}

/// A created club gets an identifier under which no club is stored, so
/// creating a club overwrites none.
pub proof fn created_club_is_fresh(registry: Registry, origin: Origin)
    requires
        registry.wf(),
    ensures
        !registry.clubs.contains_key(registry.next_club_id),
        registry.create_club(origin).result matches Ok(Event::ClubCreated(club_id, _)) ==> {
            &&& club_id == registry.next_club_id
            &&& registry.create_club(origin).after.slot(club_id) == Some(
                ClubView::empty(club_id),
            )
        },
{
}

/// Adding twice is adding once. A second `add_member` with the same origin
/// on the same club leaves the state as the first call left it, with no
/// account twice in the club's list. Where the caller is authenticated and
/// the club exists, the caller is in that list and the second call fails
/// with `MemberAlreadyExists`.
pub proof fn add_member_is_idempotent(registry: Registry, origin: Origin, club_id: u32)
    requires
        registry.wf(),
    ensures
        ({
            let once = registry.add_member(origin, club_id);
            let twice = once.after.add_member(origin, club_id);
            &&& twice.after == once.after
            &&& once.after.members(club_id).no_duplicates()
            &&& signer(origin) is Some && registry.clubs.contains_key(club_id) ==> (
                once.after.members(club_id).contains(signer(origin).unwrap())
                    && twice.result == Err::<Event, Error>(Error::MemberAlreadyExists))
        }),
{
    if let Some(who) = signer(origin) {
        let list = registry.members(club_id);
        assert(list.push(who)[list.len() as int] == who);
    }
}

/// Adding undoes by removing. Where the caller does not belong to the club
/// already, `add_member` followed by `remove_member` by the same caller on
/// the same club gives back the state from before, the club's member list
/// with it.
pub proof fn add_then_remove_restores(registry: Registry, origin: Origin, club_id: u32)
    requires
        registry.wf(),
        signer(origin) matches Some(who) ==> !registry.members(club_id).contains(who),
    ensures
        registry.add_member(origin, club_id).after.remove_member(origin, club_id).after
            == registry,
        registry.add_member(origin, club_id).after.remove_member(origin, club_id).after.members(
            club_id,
        ) == registry.members(club_id),
{
    if let Some(who) = signer(origin) {
        let list = registry.members(club_id);
        if registry.clubs.contains_key(club_id) {
            lemma_joined_then_left(list, who);
            assert(list.push(who)[list.len() as int] == who);
            assert(registry.clubs.insert(club_id, registry.clubs[club_id]) =~= registry.clubs);
        }
    }
}

/// Removing an account that is not there does nothing. Where the caller is
/// authenticated and does not belong to the club, `remove_member` fails with
/// `MemberNotFound`, leaves the state unchanged and emits no event.
pub proof fn remove_of_non_member_changes_nothing(
    registry: Registry,
    origin: Origin,
    club_id: u32,
)
    requires
        signer(origin) matches Some(who) && !registry.members(club_id).contains(who),
    ensures
        registry.remove_member(origin, club_id) == (Outcome {
            after: registry,
            result: Err(Error::MemberNotFound),
        }),
        registry.remove_member(origin, club_id).emitted() == Seq::<Event>::empty(),
{
}

/// An operation on one club leaves every other club alone. `add_member` and
/// `remove_member` on `club_id` change neither the existence nor the record
/// of any `other` club.
pub proof fn member_operations_are_isolated(
    registry: Registry,
    origin: Origin,
    club_id: u32,
    other: u32,
)
    requires
        registry.wf(),
        other != club_id,
    ensures
        registry.add_member(origin, club_id).after.slot(other) == registry.slot(other),
        registry.add_member(origin, club_id).after.members(other) == registry.members(other),
        registry.remove_member(origin, club_id).after.slot(other) == registry.slot(other),
        registry.remove_member(origin, club_id).after.members(other) == registry.members(other),
{
}

/// `create_club` works on the club under the next free identifier and leaves
/// every other club alone: it changes neither the existence nor the record
/// of any `other` club, and so of no club that exists.
pub proof fn create_club_is_isolated(registry: Registry, origin: Origin, other: u32)
    requires
        registry.wf(),
        other != registry.next_club_id || registry.clubs.contains_key(other),
    ensures
        registry.create_club(origin).after.slot(other) == registry.slot(other),
        registry.create_club(origin).after.members(other) == registry.members(other),
{
}

/// Events and changes go together. An operation that succeeds changes the
/// state and emits exactly one event, of the operation's kind and carrying
/// the caller's account, which is the account that entered or left the list;
/// an operation that fails leaves the state unchanged and emits no event.
pub proof fn events_match_changes(registry: Registry, origin: Origin, club_id: u32)
    requires
        registry.wf(),
    ensures
        ({
            let created = registry.create_club(origin);
            if created.after != registry {
                &&& signer(origin) matches Some(who)
                &&& created.emitted() == seq![Event::ClubCreated(registry.next_club_id, who)]
                &&& created.after.slot(registry.next_club_id) == Some(
                    ClubView::empty(registry.next_club_id),
                )
            } else {
                &&& created.result is Err
                &&& created.emitted() == Seq::<Event>::empty()
            }
        }),
        ({
            let added = registry.add_member(origin, club_id);
            if added.after != registry {
                &&& signer(origin) matches Some(who)
                &&& added.emitted() == seq![Event::MemberAdded(who)]
                &&& added.after.members(club_id) == registry.members(club_id).push(who)
            } else {
                &&& added.result is Err
                &&& added.emitted() == Seq::<Event>::empty()
            }
        }),
        ({
            let removed = registry.remove_member(origin, club_id);
            if removed.after != registry {
                &&& signer(origin) matches Some(who)
                &&& removed.emitted() == seq![Event::MemberRemoved(who)]
                &&& registry.members(club_id).contains(who)
                &&& removed.after.members(club_id) == registry.members(club_id).remove_value(who)
                &&& !removed.after.members(club_id).contains(who)
            } else {
                &&& removed.result is Err
                &&& removed.emitted() == Seq::<Event>::empty()
            }
        }),
{
    if let Some(who) = signer(origin) {
        let list = registry.members(club_id);
        lemma_left_list(list, who);
    }
}

} // verus!
