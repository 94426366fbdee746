use club_membership::origin::authenticate;
use club_membership::transition::{add_member, create_club, remove_member};
use club_membership::{Club, Error, Event};
use frame_support::sp_runtime::traits::BadOrigin;

#[test]
fn authenticate_yields_the_signer() {
    assert_eq!(authenticate(Ok(Some(0))), Ok(0));
    assert_eq!(authenticate(Ok(Some(17))), Ok(17));
    assert_eq!(authenticate(Ok(Some(u64::MAX))), Ok(u64::MAX));
}

#[test]
fn authenticate_refuses_root_and_rejected_origins() {
    assert_eq!(authenticate(Ok(None)), Err(Error::AuthenticationFailed));
    assert_eq!(authenticate(Err(BadOrigin)), Err(Error::AuthenticationFailed));
}

#[test]
fn create_club_uses_the_next_free_identifier() {
    let (club, next, event) = create_club(Ok(Some(3)), 1).unwrap();
    assert_eq!(club.id(), 1);
    assert!(club.members().is_empty());
    assert_eq!(next, 2);
    assert_eq!(event, Event::ClubCreated(1, 3));

    let (club, next, event) = create_club(Ok(Some(4)), 70).unwrap();
    assert_eq!(club.id(), 70);
    assert!(club.members().is_empty());
    assert_eq!(next, 71);
    assert_eq!(event, Event::ClubCreated(70, 4));
}

#[test]
fn create_club_stops_at_the_last_identifier() {
    let (club, next, event) = create_club(Ok(Some(3)), u32::MAX - 1).unwrap();
    assert_eq!(club.id(), u32::MAX - 1);
    assert_eq!(next, u32::MAX);
    assert_eq!(event, Event::ClubCreated(u32::MAX - 1, 3));

    assert_eq!(create_club(Ok(Some(3)), u32::MAX), Err(Error::IdAllocationExhausted));
}

#[test]
fn create_club_judges_the_origin_first() {
    assert_eq!(create_club(Ok(None), u32::MAX), Err(Error::AuthenticationFailed));
    assert_eq!(create_club(Err(BadOrigin), 1), Err(Error::AuthenticationFailed));
}

#[test]
fn add_member_appends_the_caller() {
    let club = Club::with_members(4, vec![9, 8]).unwrap();
    let (club, event) = add_member(Ok(Some(7)), Some(club)).unwrap();
    assert_eq!(club.id(), 4);
    assert_eq!(club.members(), &vec![9, 8, 7]);
    assert_eq!(event, Event::MemberAdded(7));
}

#[test]
fn add_member_refusals() {
    let club = Club::with_members(4, vec![9, 8]).unwrap();
    assert_eq!(add_member(Ok(Some(8)), Some(club.clone())), Err(Error::MemberAlreadyExists));
    assert_eq!(add_member(Ok(Some(7)), None), Err(Error::ClubNotFound));
    assert_eq!(add_member(Ok(None), Some(club.clone())), Err(Error::AuthenticationFailed));
    assert_eq!(add_member(Err(BadOrigin), Some(club)), Err(Error::AuthenticationFailed));
    assert_eq!(add_member(Ok(None), None), Err(Error::AuthenticationFailed));
}

#[test]
fn remove_member_takes_the_caller_out() {
    let club = Club::with_members(4, vec![9, 8, 7]).unwrap();
    let (club, event) = remove_member(Ok(Some(8)), club).unwrap();
    assert_eq!(club.id(), 4);
    assert_eq!(club.members(), &vec![9, 7]);
    assert_eq!(event, Event::MemberRemoved(8));
}

#[test]
fn remove_member_refusals() {
    let club = Club::with_members(4, vec![9, 8]).unwrap();
    assert_eq!(remove_member(Ok(Some(7)), club.clone()), Err(Error::MemberNotFound));
    assert_eq!(remove_member(Ok(Some(7)), Club::default()), Err(Error::MemberNotFound));
    assert_eq!(remove_member(Ok(None), club.clone()), Err(Error::AuthenticationFailed));
    assert_eq!(remove_member(Err(BadOrigin), club), Err(Error::AuthenticationFailed));
}
