use listers::error::{Failure, Refusal, StoreError};
use listers::store::ConnectionStore;
use listers::workflow::{Action, Event, Op, Session, Success};

const A: u128 = 1;
const B: u128 = 2;
const C: u128 = 3;

fn bad(r: Refusal) -> Result<Success, Failure> {
    Err(Failure::BadRequest(r))
}

#[test]
fn request_accept_disconnect_scenario() {
    let mut s = ConnectionStore::new();
    assert_eq!(s.execute(Op::Request, A, B), Ok(Success::RequestSent));
    assert!(s.request_exists(A, B));
    assert_eq!(s.execute(Op::Request, B, A), bad(Refusal::RequestAlreadyReceived));
    assert_eq!(s.execute(Op::Accept, B, A), Ok(Success::RequestAccepted));
    assert!(s.edge_exists(A, B));
    assert!(s.edge_exists(B, A));
    assert!(!s.request_exists(A, B));
    assert_eq!(s.execute(Op::Request, A, B), bad(Refusal::AlreadyConnected));
    assert_eq!(s.execute(Op::Disconnect, B, A), Ok(Success::Disconnected));
    assert!(!s.edge_exists(A, B));
    assert!(!s.edge_exists(B, A));
    assert_eq!(s.execute(Op::Request, A, B), Ok(Success::RequestSent));
}

#[test]
fn request_twice_is_refused() {
    let mut s = ConnectionStore::new();
    assert_eq!(s.execute(Op::Request, A, B), Ok(Success::RequestSent));
    assert_eq!(s.execute(Op::Request, A, B), bad(Refusal::RequestAlreadySent));
    assert!(s.request_exists(A, B));
    assert!(!s.request_exists(B, A));
}

#[test]
fn self_reference_is_refused() {
    let mut s = ConnectionStore::new();
    for op in [Op::Request, Op::Cancel, Op::Accept, Op::Reject, Op::Disconnect] {
        assert_eq!(s.execute(op, A, A), bad(Refusal::SelfReference));
    }
    assert!(!s.request_exists(A, A));
    assert!(!s.edge_exists(A, A));
}

#[test]
fn edges_stay_symmetric() {
    let mut s = ConnectionStore::new();
    s.execute(Op::Request, A, B).unwrap();
    s.execute(Op::Request, C, A).unwrap();
    s.execute(Op::Accept, B, A).unwrap();
    s.execute(Op::Accept, A, C).unwrap();
    s.execute(Op::Disconnect, A, B).unwrap();
    for x in [A, B, C] {
        for y in [A, B, C] {
            assert_eq!(s.edge_exists(x, y), s.edge_exists(y, x));
        }
    }
    assert!(s.edge_exists(A, C));
    assert!(!s.edge_exists(A, B));
}

#[test]
fn failed_accept_changes_nothing() {
    let mut s = ConnectionStore::new();
    s.execute(Op::Request, A, B).unwrap();
    // A cannot accept its own request.
    assert_eq!(s.execute(Op::Accept, A, B), bad(Refusal::NoRequestReceived));
    assert!(s.request_exists(A, B));
    assert!(!s.edge_exists(A, B));
    assert!(!s.edge_exists(B, A));
}

#[test]
fn failed_disconnect_changes_nothing() {
    let mut s = ConnectionStore::new();
    s.execute(Op::Request, A, B).unwrap();
    assert_eq!(s.execute(Op::Disconnect, A, B), bad(Refusal::NotConnected));
    assert!(s.request_exists(A, B));
    assert!(!s.edge_exists(A, B));
}

#[test]
fn accept_already_connected_is_refused() {
    let mut s = ConnectionStore::new();
    s.execute(Op::Request, A, B).unwrap();
    s.execute(Op::Accept, B, A).unwrap();
    assert_eq!(s.execute(Op::Accept, B, A), bad(Refusal::AlreadyConnected));
    assert_eq!(s.execute(Op::Request, B, A), bad(Refusal::AlreadyConnected));
}

#[test]
fn accept_second_write_fault_rolls_back() {
    let mut s = ConnectionStore::new();
    s.execute(Op::Request, A, B).unwrap();
    assert_eq!(s.execute_with_fault(Op::Accept, B, A, Some(1)), Err(Failure::ServerError));
    assert!(!s.edge_exists(A, B));
    assert!(!s.edge_exists(B, A));
    assert!(s.request_exists(A, B));
    assert_eq!(s.execute_with_fault(Op::Accept, B, A, Some(0)), Err(Failure::ServerError));
    assert!(!s.edge_exists(B, A));
    assert_eq!(s.execute(Op::Accept, B, A), Ok(Success::RequestAccepted));
}

#[test]
fn disconnect_second_write_fault_rolls_back() {
    let mut s = ConnectionStore::new();
    s.execute(Op::Request, A, B).unwrap();
    s.execute(Op::Accept, B, A).unwrap();
    assert_eq!(s.execute_with_fault(Op::Disconnect, A, B, Some(1)), Err(Failure::ServerError));
    assert!(s.edge_exists(A, B));
    assert!(s.edge_exists(B, A));
    assert_eq!(s.execute(Op::Disconnect, A, B), Ok(Success::Disconnected));
    assert!(!s.edge_exists(B, A));
}

#[test]
fn fault_past_the_last_write_is_harmless() {
    let mut s = ConnectionStore::new();
    assert_eq!(s.execute_with_fault(Op::Request, A, B, Some(1)), Ok(Success::RequestSent));
    assert_eq!(s.execute_with_fault(Op::Request, A, C, Some(0)), Err(Failure::ServerError));
    assert!(!s.request_exists(A, C));
}

#[test]
fn cancel_and_reject() {
    let mut s = ConnectionStore::new();
    assert_eq!(s.execute(Op::Cancel, A, B), bad(Refusal::NoRequestSent));
    assert_eq!(s.execute(Op::Reject, B, A), bad(Refusal::NoRequestReceived));
    s.execute(Op::Request, A, B).unwrap();
    assert_eq!(s.execute(Op::Reject, A, B), bad(Refusal::NoRequestReceived));
    assert_eq!(s.execute(Op::Cancel, B, A), bad(Refusal::NoRequestSent));
    assert_eq!(s.execute(Op::Cancel, A, B), Ok(Success::RequestDeleted));
    assert!(!s.request_exists(A, B));
    s.execute(Op::Request, A, B).unwrap();
    assert_eq!(s.execute(Op::Reject, B, A), Ok(Success::RequestRejected));
    assert!(!s.request_exists(A, B));
    assert!(!s.edge_exists(A, B));
}

#[test]
fn store_primitives() {
    let mut s = ConnectionStore::new();
    assert_eq!(s.insert_request(A, B), Ok(()));
    assert_eq!(s.insert_request(A, B), Err(StoreError::Conflict));
    assert_eq!(s.delete_request(A, B), Ok(()));
    assert_eq!(s.delete_request(A, B), Err(StoreError::NotFound));
    let mut tx = s.begin();
    assert_eq!(tx.insert_edge_pair(A, B), Ok(()));
    assert_eq!(tx.insert_edge_pair(B, A), Err(StoreError::Conflict));
    assert_eq!(tx.insert_edge_pair(C, C), Err(StoreError::Conflict));
    assert!(!s.edge_exists(A, B));
    s.commit(tx);
    assert!(s.edge_exists(A, B) && s.edge_exists(B, A));
    let mut tx = s.begin();
    assert_eq!(tx.delete_edge(A, B), 1);
    assert_eq!(tx.delete_edge(A, B), 0);
    drop(tx);
    assert!(s.edge_exists(A, B));
}

#[test]
fn session_steps_for_accept() {
    let mut session = Session::new(Op::Accept, A, B);
    assert!(matches!(session.step(Event::Start), Action::Begin));
    assert!(matches!(session.step(Event::Done), Action::CheckEdge(A, B)));
    assert!(matches!(session.step(Event::Found(false)), Action::CheckRequest(B, A)));
    assert!(matches!(session.step(Event::Found(true)), Action::InsertEdgePair(B, A)));
    assert!(matches!(session.step(Event::Done), Action::DeleteRequestInTx(B, A)));
    assert!(matches!(session.step(Event::Done), Action::Commit));
    assert!(matches!(
        session.step(Event::Done),
        Action::Finish(Ok(Success::RequestAccepted))
    ));
    assert!(session.is_finished());
}

#[test]
fn session_aborts_on_second_write_failure() {
    let mut session = Session::new(Op::Disconnect, A, B);
    assert!(matches!(session.step(Event::Start), Action::Begin));
    assert!(matches!(session.step(Event::Done), Action::CheckEdge(A, B)));
    assert!(matches!(session.step(Event::Found(true)), Action::DeleteEdgeInTx(A, B)));
    assert!(matches!(session.step(Event::Done), Action::DeleteEdgeInTx(B, A)));
    assert!(matches!(
        session.step(Event::Failed(StoreError::NotFound)),
        Action::Abort(Failure::ServerError)
    ));
    assert!(matches!(
        session.step(Event::Done),
        Action::Finish(Err(Failure::ServerError))
    ));
}

#[test]
fn session_maps_single_write_failures() {
    let mut session = Session::new(Op::Cancel, A, B);
    assert!(matches!(session.step(Event::Start), Action::CheckRequest(A, B)));
    assert!(matches!(session.step(Event::Found(true)), Action::DeleteRequest(A, B)));
    assert!(matches!(
        session.step(Event::Failed(StoreError::NotFound)),
        Action::Finish(Err(Failure::NotFound))
    ));
    let mut session = Session::new(Op::Request, A, B);
    session.step(Event::Start);
    session.step(Event::Found(false));
    session.step(Event::Found(false));
    assert!(matches!(session.step(Event::Found(false)), Action::InsertRequest(A, B)));
    assert!(matches!(
        session.step(Event::Failed(StoreError::Conflict)),
        Action::Finish(Err(Failure::BadRequest(Refusal::RequestAlreadySent)))
    ));
    let mut session = Session::new(Op::Reject, A, B);
    session.step(Event::Start);
    session.step(Event::Found(true));
    assert!(matches!(
        session.step(Event::Failed(StoreError::Storage)),
        Action::Finish(Err(Failure::ServerError))
    ));
}

#[test]
fn session_refuses_on_check() {
    let mut session = Session::new(Op::Request, A, B);
    session.step(Event::Start);
    session.step(Event::Found(false));
    assert!(matches!(
        session.step(Event::Found(true)),
        Action::Finish(Err(Failure::BadRequest(Refusal::RequestAlreadySent)))
    ));
    // Begin failed: nothing is open.
    let mut session = Session::new(Op::Accept, A, B);
    session.step(Event::Start);
    assert!(matches!(
        session.step(Event::Failed(StoreError::Storage)),
        Action::Finish(Err(Failure::ServerError))
    ));
    // A refusal inside the transaction rolls it back.
    let mut session = Session::new(Op::Accept, A, B);
    session.step(Event::Start);
    session.step(Event::Done);
    assert!(matches!(
        session.step(Event::Found(true)),
        Action::Abort(Failure::BadRequest(Refusal::AlreadyConnected))
    ));
    let mut session = Session::new(Op::Disconnect, A, B);
    session.step(Event::Start);
    session.step(Event::Done);
    assert!(matches!(
        session.step(Event::Found(false)),
        Action::Abort(Failure::BadRequest(Refusal::NotConnected))
    ));
    // A failed check inside the transaction rolls it back too.
    let mut session = Session::new(Op::Accept, A, B);
    session.step(Event::Start);
    session.step(Event::Done);
    session.step(Event::Found(false));
    assert!(matches!(
        session.step(Event::Failed(StoreError::Storage)),
        Action::Abort(Failure::ServerError)
    ));
    // Commit failed: the transaction is gone.
    let mut session = Session::new(Op::Disconnect, A, B);
    session.step(Event::Start);
    session.step(Event::Done);
    session.step(Event::Found(true));
    session.step(Event::Done);
    assert!(matches!(session.step(Event::Done), Action::Commit));
    assert!(matches!(
        session.step(Event::Failed(StoreError::Storage)),
        Action::Finish(Err(Failure::ServerError))
    ));
}

#[test]
fn named_operations() {
    let mut s = ConnectionStore::new();
    assert_eq!(s.request_connection(A, B), Ok(Success::RequestSent));
    assert_eq!(s.delete_request_connection(A, B), Ok(Success::RequestDeleted));
    assert_eq!(s.request_connection(A, B), Ok(Success::RequestSent));
    assert_eq!(s.reject_connection(B, A), Ok(Success::RequestRejected));
    assert_eq!(s.request_connection(B, A), Ok(Success::RequestSent));
    assert_eq!(s.accept_connection(A, B), Ok(Success::RequestAccepted));
    assert_eq!(s.disconnect_lister(A, B), Ok(Success::Disconnected));
    assert_eq!(s.disconnect_lister(A, B), bad(Refusal::NotConnected));
}
