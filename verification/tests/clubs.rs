use club_membership::club::FIRST_CLUB_ID;
use club_membership::{Club, ClubStore};

#[test]
fn default_club_is_the_first_and_empty() {
    let club = Club::default();
    assert_eq!(FIRST_CLUB_ID, 1);
    assert_eq!(club.id(), 1);
    assert!(club.members().is_empty());
    assert_eq!(club, Club::new(1));
}

#[test]
fn new_club_has_its_identifier_and_no_members() {
    let club = Club::new(12);
    assert_eq!(club.id(), 12);
    assert!(club.members().is_empty());
    assert!(!club.is_member(0));
}

#[test]
fn with_members_keeps_identifier_and_order() {
    let club = Club::with_members(3, vec![30, 10, 20]).unwrap();
    assert_eq!(club.id(), 3);
    assert_eq!(club.members(), &vec![30, 10, 20]);
    assert!(club.is_member(10));
    assert!(club.is_member(20));
    assert!(club.is_member(30));
    assert!(!club.is_member(40));
}

#[test]
fn with_members_accepts_an_empty_list() {
    assert_eq!(Club::with_members(1, vec![]), Some(Club::default()));
}

#[test]
fn with_members_refuses_duplicates() {
    assert_eq!(Club::with_members(3, vec![1, 1]), None);
    assert_eq!(Club::with_members(3, vec![1, 2, 1]), None);
    assert_eq!(Club::with_members(3, vec![1, 2, 3, 4, 4]), None);
    assert_eq!(Club::with_members(3, vec![0, 2, 3, 4, 0]), None);
}

#[test]
fn clone_is_equal() {
    let club = Club::with_members(8, vec![5, 6]).unwrap();
    let copy = club.clone();
    assert_eq!(copy, club);
    assert_eq!(copy.id(), 8);
    assert_eq!(copy.members(), &vec![5, 6]);
}

#[test]
fn empty_store_reads_the_default_club() {
    let store = ClubStore::new();
    assert!(!store.contains(1));
    assert!(!store.contains(7));
    assert_eq!(store.get(1), Club::default());
    assert_eq!(store.get(7), Club::default());
}
