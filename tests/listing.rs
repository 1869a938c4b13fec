use listers::error::{Failure, Refusal, StoreError};
use listers::profile::{RelationshipStatus, SearchParams, User};
use listers::store::ConnectionStore;
use listers::workflow::Op;

fn user(id: u128, username: &str, name: Option<&str>) -> User {
    User::new(id, username, name)
}

fn ids(users: &[User]) -> Vec<u128> {
    users.iter().map(|u| u.id).collect()
}

/// User 1 connected, in order, to users 2..=n + 1.
fn hub(n: u128) -> ConnectionStore {
    let mut s = ConnectionStore::new();
    s.add_user(user(1, "hub", None)).unwrap();
    for id in 2..=n + 1 {
        s.add_user(user(id, &format!("user{}", id), None)).unwrap();
        s.execute(Op::Request, id, 1).unwrap();
        s.execute(Op::Accept, 1, id).unwrap();
    }
    s
}

#[test]
fn pages_are_consecutive_windows() {
    let s = hub(25);
    let p1 = s.list_connections(1, 1, 10, None);
    let p2 = s.list_connections(1, 2, 10, None);
    let p3 = s.list_connections(1, 3, 10, None);
    let p4 = s.list_connections(1, 4, 10, None);
    assert_eq!(ids(&p1), (2..=11).collect::<Vec<u128>>());
    assert_eq!(ids(&p2), (12..=21).collect::<Vec<u128>>());
    assert_eq!(ids(&p3), (22..=26).collect::<Vec<u128>>());
    assert!(p4.is_empty());
    for a in ids(&p1) {
        assert!(!ids(&p2).contains(&a));
    }
}

#[test]
fn listing_follows_connection_order() {
    let mut s = ConnectionStore::new();
    for (id, name) in [(1, "me"), (2, "b"), (3, "c"), (4, "d")] {
        s.add_user(user(id, name, None)).unwrap();
    }
    for other in [4, 2, 3] {
        s.execute(Op::Request, 1, other).unwrap();
        s.execute(Op::Accept, other, 1).unwrap();
    }
    assert_eq!(ids(&s.list_connections(1, 1, 10, None)), vec![4, 2, 3]);
    assert_eq!(ids(&s.list_connections(2, 1, 10, None)), vec![1]);
    s.execute(Op::Disconnect, 1, 2).unwrap();
    assert_eq!(ids(&s.list_connections(1, 1, 10, None)), vec![4, 3]);
    assert_eq!(ids(&s.list_connections(1, 1, 1, None)), vec![4]);
    assert_eq!(ids(&s.list_connections(1, 2, 1, None)), vec![3]);
}

#[test]
fn listing_filter_ignores_case() {
    let mut s = ConnectionStore::new();
    s.add_user(user(1, "me", None)).unwrap();
    s.add_user(user(2, "AliceW", Some("Alice Wong"))).unwrap();
    s.add_user(user(3, "bob", Some("Robert ALIson"))).unwrap();
    s.add_user(user(4, "carol", None)).unwrap();
    for other in [2, 3, 4] {
        s.execute(Op::Request, other, 1).unwrap();
        s.execute(Op::Accept, 1, other).unwrap();
    }
    assert_eq!(ids(&s.list_connections(1, 1, 10, Some("ali"))), vec![2, 3]);
    assert_eq!(ids(&s.list_connections(1, 1, 10, Some("CAROL"))), vec![4]);
    assert_eq!(ids(&s.list_connections(1, 1, 10, Some("zed"))), Vec::<u128>::new());
}

#[test]
fn search_users_in_creation_order() {
    let mut s = ConnectionStore::new();
    s.add_user(user(5, "Zed", None)).unwrap();
    s.add_user(user(3, "zebra", Some("Zoe"))).unwrap();
    s.add_user(user(9, "amy", Some("Amy Zhang"))).unwrap();
    s.add_user(user(1, "bob", None)).unwrap();
    assert_eq!(ids(&s.search_users("Z", 1, 10)), vec![5, 3, 9]);
    assert_eq!(ids(&s.search_users("z", 2, 2)), vec![9]);
    let p = SearchParams { q: String::from("ZE"), p: None };
    assert_eq!(ids(&s.search(&p, 10).unwrap()), vec![5, 3]);
}

#[test]
fn search_refuses_empty_query_and_page_zero() {
    let s = hub(3);
    let empty = SearchParams { q: String::new(), p: Some(1) };
    assert_eq!(s.search(&empty, 10).err(), Some(Failure::BadRequest(Refusal::EmptyQuery)));
    assert_eq!(s.search_listers(1, &empty, 10).err(), Some(Failure::BadRequest(Refusal::EmptyQuery)));
    let zero = SearchParams { q: String::from("user"), p: Some(0) };
    assert_eq!(s.search(&zero, 10).err(), Some(Failure::BadRequest(Refusal::InvalidPage)));
    assert_eq!(s.get_listers(1, 0, 10).err(), Some(Failure::BadRequest(Refusal::InvalidPage)));
    let ok = SearchParams { q: String::from("USER3"), p: None };
    assert_eq!(ids(&s.search_listers(1, &ok, 10).unwrap()), vec![3]);
    assert_eq!(ids(&s.get_listers(1, 1, 2).unwrap()), vec![2, 3]);
}

#[test]
fn listing_does_not_hide_the_caller() {
    // Search does not special-case the caller: their own record matches too.
    let s = hub(2);
    assert_eq!(ids(&s.search_users("hub", 1, 10)), vec![1]);
    assert_eq!(ids(&s.list_connections(1, 1, 10, None)), vec![2, 3]);
}

#[test]
fn add_user_refuses_taken_id() {
    let mut s = ConnectionStore::new();
    assert_eq!(s.add_user(user(1, "a", None)), Ok(()));
    assert_eq!(s.add_user(user(1, "b", None)), Err(StoreError::Conflict));
    assert_eq!(ids(&s.search_users("", 1, 10)), vec![1]);
}

#[test]
fn profile_shows_relationship() {
    let mut s = ConnectionStore::new();
    for id in 1..=4 {
        s.add_user(user(id, &format!("u{}", id), Some("N"))).unwrap();
    }
    s.execute(Op::Request, 1, 2).unwrap();
    s.execute(Op::Request, 3, 1).unwrap();
    s.execute(Op::Request, 1, 4).unwrap();
    s.execute(Op::Accept, 4, 1).unwrap();
    assert_eq!(s.relationship(1, 2), RelationshipStatus::RequestSent);
    assert_eq!(s.relationship(2, 1), RelationshipStatus::RequestReceived);
    assert_eq!(s.relationship(1, 3), RelationshipStatus::RequestReceived);
    assert_eq!(s.relationship(1, 4), RelationshipStatus::Connected);
    assert_eq!(s.relationship(2, 3), RelationshipStatus::Unrelated);
    let v = s.view_user_profile(1, 2).ok().unwrap();
    assert_eq!(v.id, 2);
    assert_eq!(v.username, "u2");
    assert_eq!(v.name.as_deref(), Some("N"));
    assert!(v.sent_connection && !v.connected && !v.received_connection);
    let v = s.view_user_profile(1, 4).ok().unwrap();
    assert!(v.connected && !v.sent_connection && !v.received_connection);
    assert_eq!(s.view_user_profile(1, 1).err(), Some(Failure::Forbidden));
    assert_eq!(s.view_user_profile(1, 99).err(), Some(Failure::NotFound));
}

#[test]
fn pending_requests_newest_first() {
    let mut s = ConnectionStore::new();
    for id in 1..=5 {
        s.add_user(user(id, &format!("u{}", id), None)).unwrap();
    }
    s.execute(Op::Request, 2, 1).unwrap();
    s.execute(Op::Request, 1, 3).unwrap();
    s.execute(Op::Request, 4, 1).unwrap();
    s.execute(Op::Request, 1, 5).unwrap();
    assert_eq!(ids(&s.get_received_requests(1)), vec![4, 2]);
    assert_eq!(ids(&s.get_sent_requests(1)), vec![5, 3]);
    assert_eq!(ids(&s.get_received_requests(3)), vec![1]);
    assert!(s.get_sent_requests(3).is_empty());
    s.execute(Op::Accept, 1, 4).unwrap();
    assert_eq!(ids(&s.get_received_requests(1)), vec![2]);
}
