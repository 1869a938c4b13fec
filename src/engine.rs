//! Running workflow sessions against the in-memory store, and what each
//! operation does to the tables as a whole.
use vstd::prelude::*;
use crate::error::{Failure, Refusal, StoreError};
use crate::graph::{
    delete_edge_result, delete_request_result, edge_exists, insert_edge_pair_result,
    insert_request_result, lemma_without, request_exists, well_formed, without, Tables, UserId,
};
use crate::laws::lemma_outcome_well_formed;
use crate::store::{ConnectionStore, Transaction};
use crate::workflow::{next, Action, Event, Op, Session, Success};

verus! {

/// The result of an operation `op` by `caller` on `target`, and the tables after
/// it, on well-formed tables `g`. When `fault` is `Some(k)`, the write at index
/// `k` of the operation (counting from 0) is refused by the storage.
pub open spec fn outcome(op: Op, caller: UserId, target: UserId, g: Tables, fault: Option<u64>) -> (
    Result<Success, Failure>,
    Tables,
) {
    let refused = |r: Refusal| (Err::<Success, Failure>(Failure::BadRequest(r)), g);
    let failed = (Err::<Success, Failure>(Failure::ServerError), g);
    if caller == target {
        refused(Refusal::SelfReference)
    } else {
        match op {
            Op::Request => if edge_exists(g, caller, target) {
                refused(Refusal::AlreadyConnected)
            } else if request_exists(g, caller, target) {
                refused(Refusal::RequestAlreadySent)
            } else if request_exists(g, target, caller) {
                refused(Refusal::RequestAlreadyReceived)
            } else if fault == Some(0u64) {
                failed
            } else {
                (Ok(Success::RequestSent), Tables { requests: g.requests.push((caller, target)), ..g })
            },
            Op::Cancel => if !request_exists(g, caller, target) {
                refused(Refusal::NoRequestSent)
            } else if fault == Some(0u64) {
                failed
            } else {
                (
                    Ok(Success::RequestDeleted),
                    Tables { requests: without(g.requests, (caller, target)), ..g },
                )
            },
            Op::Accept => if edge_exists(g, caller, target) {
                refused(Refusal::AlreadyConnected)
            } else if !request_exists(g, target, caller) {
                refused(Refusal::NoRequestReceived)
            } else if fault == Some(0u64) || fault == Some(1u64) {
                failed
            } else {
                (
                    Ok(Success::RequestAccepted),
                    Tables {
                        edges: g.edges.push((target, caller)).push((caller, target)),
                        requests: without(g.requests, (target, caller)),
                    },
                )
            },
            Op::Reject => if !request_exists(g, target, caller) {
                refused(Refusal::NoRequestReceived)
            } else if fault == Some(0u64) {
                failed
            } else {
                (
                    Ok(Success::RequestRejected),
                    Tables { requests: without(g.requests, (target, caller)), ..g },
                )
            },
            Op::Disconnect => if !edge_exists(g, caller, target) {
                refused(Refusal::NotConnected)
            } else if fault == Some(0u64) || fault == Some(1u64) {
                failed
            } else {
                (
                    Ok(Success::Disconnected),
                    Tables { edges: without(without(g.edges, (caller, target)), (target, caller)), ..g },
                )
            },
        }
    }
}

pub open spec fn event_of(r: Result<(), StoreError>) -> Event {
    match r {
        Ok(_) => Event::Done,
        Err(e) => Event::Failed(e),
    }
}

spec fn faulted(fault: Option<u64>, n: nat) -> bool {
    fault is Some && fault.unwrap() as nat == n
}

/// What a read sees: the open transaction's tables, else the committed ones.
spec fn visible(g: Tables, work: Option<Tables>) -> Tables {
    match work {
        Some(w) => w,
        None => g,
    }
}

/// The store's side of one action: from the committed tables, the open
/// transaction's tables and the number of writes made so far, to the same after
/// the action and the answer.
spec fn respond(g: Tables, work: Option<Tables>, n: nat, a: Action, fault: Option<u64>) -> (
    Tables,
    Option<Tables>,
    nat,
    Event,
) {
    match a {
        Action::CheckEdge(u, v) => (g, work, n, Event::Found(edge_exists(visible(g, work), u, v))),
        Action::CheckRequest(s, r) => (
            g,
            work,
            n,
            Event::Found(request_exists(visible(g, work), s, r)),
        ),
        Action::InsertRequest(s, r) => if faulted(fault, n) {
            (g, work, n + 1, Event::Failed(StoreError::Storage))
        } else {
            (insert_request_result(g, s, r).0, work, n + 1, event_of(insert_request_result(g, s, r).1))
        },
        Action::DeleteRequest(s, r) => if faulted(fault, n) {
            (g, work, n + 1, Event::Failed(StoreError::Storage))
        } else {
            (delete_request_result(g, s, r).0, work, n + 1, event_of(delete_request_result(g, s, r).1))
        },
        Action::Begin => (g, Some(g), n, Event::Done),
        Action::InsertEdgePair(a, b) => match work {
            None => (g, work, n, Event::Failed(StoreError::Storage)),
            Some(w) => if faulted(fault, n) {
                (g, work, n + 1, Event::Failed(StoreError::Storage))
            } else {
                (
                    g,
                    Some(insert_edge_pair_result(w, a, b).0),
                    n + 1,
                    event_of(insert_edge_pair_result(w, a, b).1),
                )
            },
        },
        Action::DeleteRequestInTx(s, r) => match work {
            None => (g, work, n, Event::Failed(StoreError::Storage)),
            Some(w) => if faulted(fault, n) {
                (g, work, n + 1, Event::Failed(StoreError::Storage))
            } else {
                (
                    g,
                    Some(delete_request_result(w, s, r).0),
                    n + 1,
                    event_of(delete_request_result(w, s, r).1),
                )
            },
        },
        Action::DeleteEdgeInTx(u, v) => match work {
            None => (g, work, n, Event::Failed(StoreError::Storage)),
            Some(w) => if faulted(fault, n) {
                (g, work, n + 1, Event::Failed(StoreError::Storage))
            } else {
                (
                    g,
                    Some(delete_edge_result(w, u, v).0),
                    n + 1,
                    if delete_edge_result(w, u, v).1 == 1 {
                        Event::Done
                    } else {
                        Event::Failed(StoreError::NotFound)
                    },
                )
            },
        },
        Action::Commit => match work {
            None => (g, work, n, Event::Failed(StoreError::Storage)),
            Some(w) => (w, None, n, Event::Done),
        },
        _ => (g, work, n, Event::Done),
    }
}

/// The result of driving session `s` from answer `ev` for at most `fuel` steps:
/// the reported result and the committed tables.
spec fn run(
    s: Session,
    g: Tables,
    work: Option<Tables>,
    n: nat,
    ev: Event,
    fault: Option<u64>,
    fuel: nat,
) -> (Result<Success, Failure>, Tables)
    decreases fuel,
{
    if fuel == 0 {
        (Err(Failure::ServerError), g)
    } else {
        let a = next(s, ev).1;
        match a {
            Action::Finish(r) => (r, g),
            Action::Abort(f) => (Err(f), g),
            _ => {
                let st = respond(g, work, n, a, fault);
                run(next(s, ev).0, st.0, st.1, st.2, st.3, fault, (fuel - 1) as nat)
            },
        }
    }
}

spec fn tx_tables(tx: Option<Transaction>) -> Option<Tables> {
    match tx {
        Some(t) => Some(t.tables()),
        None => None,
    }
}

spec fn start(op: Op, caller: UserId, target: UserId) -> Session {
    Session { op, caller, target, stage: 0, finished: false }
}

/// Steps enough for every operation to finish.
const STEP_BUDGET: u64 = 8;

proof fn lemma_run_outcome(op: Op, caller: UserId, target: UserId, g: Tables, fault: Option<u64>)
    requires
        well_formed(g),
    ensures
        run(start(op, caller, target), g, None, 0, Event::Start, fault, STEP_BUDGET as nat)
            == outcome(op, caller, target, g, fault),
{
    let s0 = start(op, caller, target);
    let f = fault;
    if caller == target {
        reveal_with_fuel(run, 2);
    } else {
        let s1 = Session { stage: 1, ..s0 };
        let s2 = Session { stage: 2, ..s0 };
        let s3 = Session { stage: 3, ..s0 };
        let s4 = Session { stage: 4, ..s0 };
        let s5 = Session { stage: 5, ..s0 };
        let s6 = Session { stage: 6, ..s0 };
        match op {
            Op::Request => {
                let e = edge_exists(g, caller, target);
                let sent = request_exists(g, caller, target);
                let recv = request_exists(g, target, caller);
                assert(run(s0, g, None, 0, Event::Start, f, 8) == run(s1, g, None, 0, Event::Found(e), f, 7));
                if !e {
                    assert(run(s1, g, None, 0, Event::Found(e), f, 7) == run(s2, g, None, 0, Event::Found(sent), f, 6));
                    if !sent {
                        assert(run(s2, g, None, 0, Event::Found(sent), f, 6) == run(s3, g, None, 0, Event::Found(recv), f, 5));
                        if !recv {
                            let st = respond(g, None, 0, Action::InsertRequest(caller, target), f);
                            assert(run(s3, g, None, 0, Event::Found(recv), f, 5) == run(s4, st.0, st.1, st.2, st.3, f, 4));
                            reveal_with_fuel(run, 2);
                        } else {
                            reveal_with_fuel(run, 2);
                        }
                    } else {
                        reveal_with_fuel(run, 2);
                    }
                } else {
                    reveal_with_fuel(run, 2);
                }
            },
            Op::Cancel | Op::Reject => {
                let (a, b) = if op is Cancel { (caller, target) } else { (target, caller) };
                let r = request_exists(g, a, b);
                assert(run(s0, g, None, 0, Event::Start, f, 8) == run(s1, g, None, 0, Event::Found(r), f, 7));
                if r {
                    let st = respond(g, None, 0, Action::DeleteRequest(a, b), f);
                    assert(run(s1, g, None, 0, Event::Found(r), f, 7) == run(s2, st.0, st.1, st.2, st.3, f, 6));
                    lemma_without(g.requests, (a, b));
                    reveal_with_fuel(run, 2);
                } else {
                    reveal_with_fuel(run, 2);
                }
            },
            Op::Accept => {
                let e = edge_exists(g, caller, target);
                let r = request_exists(g, target, caller);
                assert(run(s0, g, None, 0, Event::Start, f, 8) == run(s1, g, Some(g), 0, Event::Done, f, 7));
                assert(run(s1, g, Some(g), 0, Event::Done, f, 7) == run(s2, g, Some(g), 0, Event::Found(e), f, 6));
                if !e {
                    assert(run(s2, g, Some(g), 0, Event::Found(e), f, 6) == run(s3, g, Some(g), 0, Event::Found(r), f, 5));
                    if r {
                        let st4 = respond(g, Some(g), 0, Action::InsertEdgePair(target, caller), f);
                        assert(run(s3, g, Some(g), 0, Event::Found(r), f, 5) == run(s4, st4.0, st4.1, st4.2, st4.3, f, 4));
                        assert(!g.edges.contains((target, caller)));
                        if f != Some(0u64) {
                            let w = st4.1.unwrap();
                            let st5 = respond(g, st4.1, 1, Action::DeleteRequestInTx(target, caller), f);
                            assert(run(s4, st4.0, st4.1, st4.2, st4.3, f, 4) == run(s5, st5.0, st5.1, st5.2, st5.3, f, 3));
                            lemma_without(w.requests, (target, caller));
                            if f != Some(1u64) {
                                let st6 = respond(g, st5.1, 2, Action::Commit, f);
                                assert(run(s5, st5.0, st5.1, st5.2, st5.3, f, 3) == run(s6, st6.0, st6.1, st6.2, st6.3, f, 2));
                                reveal_with_fuel(run, 2);
                            } else {
                                reveal_with_fuel(run, 2);
                            }
                        } else {
                            reveal_with_fuel(run, 2);
                        }
                    } else {
                        reveal_with_fuel(run, 2);
                    }
                } else {
                    reveal_with_fuel(run, 2);
                }
            },
            Op::Disconnect => {
                let e = edge_exists(g, caller, target);
                assert(run(s0, g, None, 0, Event::Start, f, 8) == run(s1, g, Some(g), 0, Event::Done, f, 7));
                assert(run(s1, g, Some(g), 0, Event::Done, f, 7) == run(s2, g, Some(g), 0, Event::Found(e), f, 6));
                if e {
                    let st3 = respond(g, Some(g), 0, Action::DeleteEdgeInTx(caller, target), f);
                    assert(run(s2, g, Some(g), 0, Event::Found(e), f, 6) == run(s3, st3.0, st3.1, st3.2, st3.3, f, 5));
                    lemma_without(g.edges, (caller, target));
                    if f != Some(0u64) {
                        let w = st3.1.unwrap();
                        assert(w.edges.contains((target, caller)));
                        lemma_without(w.edges, (target, caller));
                        let st4 = respond(g, st3.1, 1, Action::DeleteEdgeInTx(target, caller), f);
                        assert(run(s3, st3.0, st3.1, st3.2, st3.3, f, 5) == run(s4, st4.0, st4.1, st4.2, st4.3, f, 4));
                        if f != Some(1u64) {
                            let st5 = respond(g, st4.1, 2, Action::Commit, f);
                            assert(run(s4, st4.0, st4.1, st4.2, st4.3, f, 4) == run(s5, st5.0, st5.1, st5.2, st5.3, f, 3));
                            reveal_with_fuel(run, 2);
                        } else {
                            reveal_with_fuel(run, 2);
                        }
                    } else {
                        reveal_with_fuel(run, 2);
                    }
                } else {
                    reveal_with_fuel(run, 2);
                }
            },
        }
    }
}

impl ConnectionStore {
    fn perform(
        &mut self,
        tx: &mut Option<Transaction>,
        a: Action,
        writes: &mut u64,
        fault: Option<u64>,
    ) -> (ev: Event)
        requires
            *old(writes) < u64::MAX,
        ensures
            (final(self).tables(), tx_tables(*final(tx)), *final(writes) as nat, ev) == respond(
                old(self).tables(),
                tx_tables(*old(tx)),
                *old(writes) as nat,
                a,
                fault,
            ),
            final(self).users() == old(self).users(),
    {
        let hit = match fault {
            Some(k) => k == *writes,
            None => false,
        };
        match a {
            Action::CheckEdge(u, v) => match tx {
                Some(w) => Event::Found(w.edge_exists(u, v)),
                None => Event::Found(self.edge_exists(u, v)),
            },
            Action::CheckRequest(s, r) => match tx {
                Some(w) => Event::Found(w.request_exists(s, r)),
                None => Event::Found(self.request_exists(s, r)),
            },
            Action::InsertRequest(s, r) => {
                *writes = *writes + 1;
                if hit {
                    Event::Failed(StoreError::Storage)
                } else {
                    match self.insert_request(s, r) {
                        Ok(_) => Event::Done,
                        Err(e) => Event::Failed(e),
                    }
                }
            },
            Action::DeleteRequest(s, r) => {
                *writes = *writes + 1;
                if hit {
                    Event::Failed(StoreError::Storage)
                } else {
                    match self.delete_request(s, r) {
                        Ok(_) => Event::Done,
                        Err(e) => Event::Failed(e),
                    }
                }
            },
            Action::Begin => {
                *tx = Some(self.begin());
                Event::Done
            },
            Action::InsertEdgePair(u, v) => match tx.take() {
                None => Event::Failed(StoreError::Storage),
                Some(mut w) => {
                    *writes = *writes + 1;
                    let ev = if hit {
                        Event::Failed(StoreError::Storage)
                    } else {
                        match w.insert_edge_pair(u, v) {
                            Ok(_) => Event::Done,
                            Err(e) => Event::Failed(e),
                        }
                    };
                    *tx = Some(w);
                    ev
                },
            },
            Action::DeleteRequestInTx(s, r) => match tx.take() {
                None => Event::Failed(StoreError::Storage),
                Some(mut w) => {
                    *writes = *writes + 1;
                    let ev = if hit {
                        Event::Failed(StoreError::Storage)
                    } else {
                        match w.delete_request(s, r) {
                            Ok(_) => Event::Done,
                            Err(e) => Event::Failed(e),
                        }
                    };
                    *tx = Some(w);
                    ev
                },
            },
            Action::DeleteEdgeInTx(u, v) => match tx.take() {
                None => Event::Failed(StoreError::Storage),
                Some(mut w) => {
                    *writes = *writes + 1;
                    let ev = if hit {
                        Event::Failed(StoreError::Storage)
                    } else if w.delete_edge(u, v) == 1 {
                        Event::Done
                    } else {
                        Event::Failed(StoreError::NotFound)
                    };
                    *tx = Some(w);
                    ev
                },
            },
            Action::Commit => match tx.take() {
                None => Event::Failed(StoreError::Storage),
                Some(w) => {
                    self.commit(w);
                    Event::Done
                },
            },
            _ => Event::Done,
        }
    }

    /// Run `op` by `caller` on `target`, with the write at index `fault` (when
    /// given) refused by the storage.
    pub fn execute_with_fault(
        &mut self,
        op: Op,
        caller: UserId,
        target: UserId,
        fault: Option<u64>,
    ) -> (r: Result<Success, Failure>)
        requires
            old(self).inv(),
        ensures
            (r, final(self).tables()) == outcome(op, caller, target, old(self).tables(), fault),
            final(self).users() == old(self).users(),
            final(self).inv(),
    {
        proof {
            lemma_outcome_well_formed(op, caller, target, self.tables(), fault);
        }
        let mut session = Session::new(op, caller, target);
        let mut tx: Option<Transaction> = None;
        let mut writes: u64 = 0;
        let mut ev = Event::Start;
        let mut fuel: u64 = STEP_BUDGET;
        proof {
            lemma_run_outcome(op, caller, target, self.tables(), fault);
        }
        loop
            invariant
                writes + fuel <= STEP_BUDGET,
                self.users() == old(self).users(),
                old(self).inv(),
                well_formed(outcome(op, caller, target, old(self).tables(), fault).1),
                run(session, self.tables(), tx_tables(tx), writes as nat, ev, fault, fuel as nat)
                    == outcome(op, caller, target, old(self).tables(), fault),
            decreases fuel,
        {
            if fuel == 0 {
                return Err(Failure::ServerError);
            }
            let a = session.step(ev);
            match a {
                Action::Finish(r) => return r,
                Action::Abort(f) => return Err(f),
                _ => {},
            }
            ev = self.perform(&mut tx, a, &mut writes, fault);
            fuel = fuel - 1;
        }
    }

    /// Run `op` by `caller` on `target`.
    pub fn execute(&mut self, op: Op, caller: UserId, target: UserId) -> (r: Result<
        Success,
        Failure,
    >)
        requires
            old(self).inv(),
        ensures
            (r, final(self).tables()) == outcome(op, caller, target, old(self).tables(), None),
            final(self).users() == old(self).users(),
            final(self).inv(),
    {
        self.execute_with_fault(op, caller, target, None)
    }

    /// Send a request from `caller` to `target`.
    pub fn request_connection(&mut self, caller: UserId, target: UserId) -> (r: Result<Success, Failure>)
        requires
            old(self).inv(),
        ensures
            (r, final(self).tables()) == outcome(Op::Request, caller, target, old(self).tables(), None),
            final(self).users() == old(self).users(),
            final(self).inv(),
    {
        self.execute(Op::Request, caller, target)
    }

    /// Withdraw the caller's pending request to `target`.
    pub fn delete_request_connection(&mut self, caller: UserId, target: UserId) -> (r: Result<Success, Failure>)
        requires
            old(self).inv(),
        ensures
            (r, final(self).tables()) == outcome(Op::Cancel, caller, target, old(self).tables(), None),
            final(self).users() == old(self).users(),
            final(self).inv(),
    {
        self.execute(Op::Cancel, caller, target)
    }

    /// Accept the request `target` sent the caller, forming the edge pair.
    pub fn accept_connection(&mut self, caller: UserId, target: UserId) -> (r: Result<Success, Failure>)
        requires
            old(self).inv(),
        ensures
            (r, final(self).tables()) == outcome(Op::Accept, caller, target, old(self).tables(), None),
            final(self).users() == old(self).users(),
            final(self).inv(),
    {
        self.execute(Op::Accept, caller, target)
    }

    /// Turn down the request `target` sent the caller.
    pub fn reject_connection(&mut self, caller: UserId, target: UserId) -> (r: Result<Success, Failure>)
        requires
            old(self).inv(),
        ensures
            (r, final(self).tables()) == outcome(Op::Reject, caller, target, old(self).tables(), None),
            final(self).users() == old(self).users(),
            final(self).inv(),
    {
        self.execute(Op::Reject, caller, target)
    }

    /// Remove the edge pair between the caller and `target`.
    pub fn disconnect_lister(&mut self, caller: UserId, target: UserId) -> (r: Result<Success, Failure>)
        requires
            old(self).inv(),
        ensures
            (r, final(self).tables()) == outcome(Op::Disconnect, caller, target, old(self).tables(), None),
            final(self).users() == old(self).users(),
            final(self).inv(),
    {
        self.execute(Op::Disconnect, caller, target)
    }
}

} // verus!
