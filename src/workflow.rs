//! The connection workflow as a state machine. A `Session` runs one operation:
//! each `step` takes the answer to the previous action and returns the next
//! action, until it returns `Finish` (or `Abort`, which also rolls back the open
//! transaction). Whoever holds the store performs the actions.
use vstd::prelude::*;
use crate::error::{Failure, Refusal, StoreError};
use crate::graph::UserId;

verus! {

/// The operations of the workflow, each between the caller and a target user.
#[derive(Clone, Copy, Debug, PartialEq, Eq, Structural)]
pub enum Op {
    /// Send a request caller -> target.
    Request,
    /// Withdraw the request caller -> target.
    Cancel,
    /// Accept the request target -> caller, forming the edge pair.
    Accept,
    /// Turn down the request target -> caller.
    Reject,
    /// Remove the edge pair between caller and target.
    Disconnect,
}

/// How an operation of the workflow succeeded.
#[derive(Clone, Copy, Debug, PartialEq, Eq, Structural)]
pub enum Success {
    RequestSent,
    RequestDeleted,
    RequestAccepted,
    RequestRejected,
    Disconnected,
}

pub open spec fn success_of(op: Op) -> Success {
    match op {
        Op::Request => Success::RequestSent,
        Op::Cancel => Success::RequestDeleted,
        Op::Accept => Success::RequestAccepted,
        Op::Reject => Success::RequestRejected,
        Op::Disconnect => Success::Disconnected,
    }
}

pub open spec fn success_message(s: Success) -> Seq<char> {
    match s {
        Success::RequestSent => "User connection request sent"@,
        Success::RequestDeleted => "User connection request deleted"@,
        Success::RequestAccepted => "User connection request accepted"@,
        Success::RequestRejected => "User connection request rejected"@,
        Success::Disconnected => "User disconnected"@,
    }
}

impl Success {
    pub fn message(&self) -> (r: &'static str)
        ensures
            r@ == success_message(*self),
    {
        match self {
            Success::RequestSent => "User connection request sent",
            Success::RequestDeleted => "User connection request deleted",
            Success::RequestAccepted => "User connection request accepted",
            Success::RequestRejected => "User connection request rejected",
            Success::Disconnected => "User disconnected",
        }
    }
}

/// What the session asks of the store next.
#[derive(Clone, Copy, Debug)]
pub enum Action {
    /// Answer with `Found`: does the edge row (user, other) exist? Read inside
    /// the open transaction, if any, locking the row it finds.
    CheckEdge(UserId, UserId),
    /// Answer with `Found`: does the request (sender, receiver) exist? Read
    /// inside the open transaction, if any, locking the row it finds.
    CheckRequest(UserId, UserId),
    /// Insert the request (sender, receiver) on its own.
    InsertRequest(UserId, UserId),
    /// Delete the request (sender, receiver) on its own; exactly one row.
    DeleteRequest(UserId, UserId),
    /// Open a transaction.
    Begin,
    /// In the transaction: insert the rows (a, b) and (b, a); exactly two rows.
    InsertEdgePair(UserId, UserId),
    /// In the transaction: delete the request (sender, receiver); exactly one row.
    DeleteRequestInTx(UserId, UserId),
    /// In the transaction: delete the edge row (user, other); exactly one row.
    DeleteEdgeInTx(UserId, UserId),
    /// Commit the transaction.
    Commit,
    /// Roll back the open transaction and report the failure.
    Abort(Failure),
    /// Report the result; no transaction is open.
    Finish(Result<Success, Failure>),
}

/// The store's answer to the previous action.
#[derive(Clone, Copy, Debug)]
pub enum Event {
    /// Nothing asked yet: the first step.
    Start,
    /// Answer to a check.
    Found(bool),
    /// The write, `Begin` or `Commit` succeeded.
    Done,
    /// The write, `Begin` or `Commit` failed.
    Failed(StoreError),
}

/// The actions an operation issues when every check passes and every write
/// succeeds, in order: its checks, then its writes. Accept and disconnect open
/// their transaction first, so that their checks and their writes see the same
/// rows.
pub open spec fn script(op: Op, caller: UserId, target: UserId) -> Seq<Action> {
    match op {
        Op::Request => seq![
            Action::CheckEdge(caller, target),
            Action::CheckRequest(caller, target),
            Action::CheckRequest(target, caller),
            Action::InsertRequest(caller, target),
        ],
        Op::Cancel => seq![
            Action::CheckRequest(caller, target),
            Action::DeleteRequest(caller, target),
        ],
        Op::Accept => seq![
            Action::Begin,
            Action::CheckEdge(caller, target),
            Action::CheckRequest(target, caller),
            Action::InsertEdgePair(target, caller),
            Action::DeleteRequestInTx(target, caller),
            Action::Commit,
        ],
        Op::Reject => seq![
            Action::CheckRequest(target, caller),
            Action::DeleteRequest(target, caller),
        ],
        Op::Disconnect => seq![
            Action::Begin,
            Action::CheckEdge(caller, target),
            Action::DeleteEdgeInTx(caller, target),
            Action::DeleteEdgeInTx(target, caller),
            Action::Commit,
        ],
    }
}

/// How many actions of `script` are checks.
pub open spec fn check_count(op: Op) -> int {
    match op {
        Op::Request => 3,
        Op::Accept => 2,
        _ => 1,
    }
}

/// Whether the checks and writes of `op` run inside a transaction.
pub open spec fn transactional(op: Op) -> bool {
    op is Accept || op is Disconnect
}

/// Index in `script` of the first check: after `Begin`, if there is one.
pub open spec fn first_check(op: Op) -> int {
    if transactional(op) {
        1
    } else {
        0
    }
}

/// For the check number `i` (from 0) of the operation: the answer that refuses the
/// operation, and the reason given.
pub open spec fn refusal_at(op: Op, i: int) -> (bool, Refusal) {
    match op {
        Op::Request => if i == 0 {
            (true, Refusal::AlreadyConnected)
        } else if i == 1 {
            (true, Refusal::RequestAlreadySent)
        } else {
            (true, Refusal::RequestAlreadyReceived)
        },
        Op::Cancel => (false, Refusal::NoRequestSent),
        Op::Accept => if i == 0 {
            (true, Refusal::AlreadyConnected)
        } else {
            (false, Refusal::NoRequestReceived)
        },
        Op::Reject => (false, Refusal::NoRequestReceived),
        Op::Disconnect => (false, Refusal::NotConnected),
    }
}

/// The failure reported when a write outside a transaction fails.
pub open spec fn write_failure(e: StoreError) -> Failure {
    match e {
        StoreError::NotFound => Failure::NotFound,
        StoreError::Conflict => Failure::BadRequest(Refusal::RequestAlreadySent),
        StoreError::Storage => Failure::ServerError,
    }
}

/// One operation in progress. `stage` counts the actions of the script issued
/// so far.
#[derive(Clone, Copy, Debug)]
pub struct Session {
    pub op: Op,
    pub caller: UserId,
    pub target: UserId,
    pub stage: u8,
    pub finished: bool,
}

pub open spec fn finish(s: Session, r: Result<Success, Failure>) -> (Session, Action) {
    (Session { finished: true, ..s }, Action::Finish(r))
}

/// Issue the next action of the script.
pub open spec fn issue(s: Session) -> (Session, Action) {
    (Session { stage: (s.stage + 1) as u8, ..s }, script(s.op, s.caller, s.target)[s.stage as int])
}

/// Roll back the open transaction and report `f`.
pub open spec fn abort(s: Session, f: Failure) -> (Session, Action) {
    (Session { finished: true, ..s }, Action::Abort(f))
}

/// Report `f`, rolling back first when a transaction is `open`.
pub open spec fn fail(s: Session, open: bool, f: Failure) -> (Session, Action) {
    if open {
        abort(s, f)
    } else {
        finish(s, Err(f))
    }
}

/// The transition: the next session and action after the answer `ev`.
pub open spec fn next(s: Session, ev: Event) -> (Session, Action) {
    let sc = script(s.op, s.caller, s.target);
    let k = s.stage as int;
    // `ev` answers `sc[k - 1]`; a transaction is open between the answer to
    // `Begin` (index 0) and the answer to `Commit` (the last index).
    let open = transactional(s.op) && 1 <= k - 1 < sc.len() - 1;
    let check = k - 1 - first_check(s.op);
    if s.finished || k > sc.len() {
        finish(s, Err(Failure::ServerError))
    } else if k == 0 {
        if !(ev is Start) {
            finish(s, Err(Failure::ServerError))
        } else if s.caller == s.target {
            finish(s, Err(Failure::BadRequest(Refusal::SelfReference)))
        } else {
            issue(s)
        }
    } else if 0 <= check < check_count(s.op) {
        match ev {
            Event::Found(b) => if b == refusal_at(s.op, check).0 {
                fail(s, open, Failure::BadRequest(refusal_at(s.op, check).1))
            } else {
                issue(s)
            },
            _ => fail(s, open, Failure::ServerError),
        }
    } else if ev is Done {
        if k == sc.len() {
            finish(s, Ok(success_of(s.op)))
        } else {
            issue(s)
        }
    } else if open {
        abort(s, Failure::ServerError)
    } else {
        match ev {
            Event::Failed(e) if !transactional(s.op) => finish(s, Err(write_failure(e))),
            _ => finish(s, Err(Failure::ServerError)),
        }
    }
}

impl Op {
    fn check_count(&self) -> (r: u8)
        ensures
            r == check_count(*self),
    {
        match self {
            Op::Request => 3,
            Op::Accept => 2,
            _ => 1,
        }
    }

    fn script_len(&self) -> (r: u8)
        ensures
            r == script(*self, 0, 0).len(),
            forall|c: UserId, t: UserId| r == #[trigger] script(*self, c, t).len(),
    {
        match self {
            Op::Request => 4,
            Op::Cancel => 2,
            Op::Accept => 6,
            Op::Reject => 2,
            Op::Disconnect => 5,
        }
    }

    fn is_transactional(&self) -> (r: bool)
        ensures
            r == transactional(*self),
    {
        match self {
            Op::Accept | Op::Disconnect => true,
            _ => false,
        }
    }

    fn refusal_at(&self, i: u8) -> (r: (bool, Refusal))
        ensures
            r == refusal_at(*self, i as int),
    {
        match self {
            Op::Request => if i == 0 {
                (true, Refusal::AlreadyConnected)
            } else if i == 1 {
                (true, Refusal::RequestAlreadySent)
            } else {
                (true, Refusal::RequestAlreadyReceived)
            },
            Op::Cancel => (false, Refusal::NoRequestSent),
            Op::Accept => if i == 0 {
                (true, Refusal::AlreadyConnected)
            } else {
                (false, Refusal::NoRequestReceived)
            },
            Op::Reject => (false, Refusal::NoRequestReceived),
            Op::Disconnect => (false, Refusal::NotConnected),
        }
    }

    fn success(&self) -> (r: Success)
        ensures
            r == success_of(*self),
    {
        match self {
            Op::Request => Success::RequestSent,
            Op::Cancel => Success::RequestDeleted,
            Op::Accept => Success::RequestAccepted,
            Op::Reject => Success::RequestRejected,
            Op::Disconnect => Success::Disconnected,
        }
    }
}

fn write_failure_of(e: StoreError) -> (r: Failure)
    ensures
        r == write_failure(e),
{
    match e {
        StoreError::NotFound => Failure::NotFound,
        StoreError::Conflict => Failure::BadRequest(Refusal::RequestAlreadySent),
        StoreError::Storage => Failure::ServerError,
    }
}

impl Session {
    pub fn new(op: Op, caller: UserId, target: UserId) -> (r: Session)
        ensures
            r == (Session { op, caller, target, stage: 0, finished: false }),
    {
        Session { op, caller, target, stage: 0, finished: false }
    }

    /// The action at index `k` of the script.
    fn scripted(&self, k: u8) -> (a: Action)
        requires
            k < script(self.op, self.caller, self.target).len(),
        ensures
            a == script(self.op, self.caller, self.target)[k as int],
    {
        let c = self.caller;
        let t = self.target;
        match self.op {
            Op::Request => if k == 0 {
                Action::CheckEdge(c, t)
            } else if k == 1 {
                Action::CheckRequest(c, t)
            } else if k == 2 {
                Action::CheckRequest(t, c)
            } else {
                Action::InsertRequest(c, t)
            },
            Op::Cancel => if k == 0 {
                Action::CheckRequest(c, t)
            } else {
                Action::DeleteRequest(c, t)
            },
            Op::Accept => if k == 0 {
                Action::Begin
            } else if k == 1 {
                Action::CheckEdge(c, t)
            } else if k == 2 {
                Action::CheckRequest(t, c)
            } else if k == 3 {
                Action::InsertEdgePair(t, c)
            } else if k == 4 {
                Action::DeleteRequestInTx(t, c)
            } else {
                Action::Commit
            },
            Op::Reject => if k == 0 {
                Action::CheckRequest(t, c)
            } else {
                Action::DeleteRequest(t, c)
            },
            Op::Disconnect => if k == 0 {
                Action::Begin
            } else if k == 1 {
                Action::CheckEdge(c, t)
            } else if k == 2 {
                Action::DeleteEdgeInTx(c, t)
            } else if k == 3 {
                Action::DeleteEdgeInTx(t, c)
            } else {
                Action::Commit
            },
        }
    }

    fn finish(&mut self, r: Result<Success, Failure>) -> (a: Action)
        ensures
            (*final(self), a) == finish(*old(self), r),
    {
        self.finished = true;
        Action::Finish(r)
    }

    fn issue(&mut self) -> (a: Action)
        requires
            old(self).stage < script(old(self).op, old(self).caller, old(self).target).len(),
        ensures
            (*final(self), a) == issue(*old(self)),
    {
        let a = self.scripted(self.stage);
        self.stage = self.stage + 1;
        a
    }

    fn fail(&mut self, open: bool, f: Failure) -> (a: Action)
        ensures
            (*final(self), a) == fail(*old(self), open, f),
    {
        self.finished = true;
        if open {
            Action::Abort(f)
        } else {
            Action::Finish(Err(f))
        }
    }

    /// Take the answer to the previous action (`Start` at first) and return
    /// the next action.
    pub fn step(&mut self, ev: Event) -> (a: Action)
        ensures
            (*final(self), a) == next(*old(self), ev),
    {
        let len = self.op.script_len();
        let checks = self.op.check_count();
        let tx = self.op.is_transactional();
        let first: u8 = if tx {
            1
        } else {
            0
        };
        if self.finished || self.stage > len {
            return self.finish(Err(Failure::ServerError));
        }
        if self.stage == 0 {
            return if !matches!(ev, Event::Start) {
                self.finish(Err(Failure::ServerError))
            } else if self.caller == self.target {
                self.finish(Err(Failure::BadRequest(Refusal::SelfReference)))
            } else {
                self.issue()
            };
        }
        let answered = self.stage - 1;
        let open = tx && 1 <= answered && answered < len - 1;
        if first <= answered && answered - first < checks {
            match ev {
                Event::Found(b) => {
                    let (refuse_when, reason) = self.op.refusal_at(answered - first);
                    if b == refuse_when {
                        self.fail(open, Failure::BadRequest(reason))
                    } else {
                        self.issue()
                    }
                },
                _ => self.fail(open, Failure::ServerError),
            }
        } else if matches!(ev, Event::Done) {
            if self.stage == len {
                let s = self.op.success();
                self.finish(Ok(s))
            } else {
                self.issue()
            }
        } else if open {
            self.fail(true, Failure::ServerError)
        } else {
            match ev {
                Event::Failed(e) => if !tx {
                    self.finish(Err(write_failure_of(e)))
                } else {
                    self.finish(Err(Failure::ServerError))
                },
                _ => self.finish(Err(Failure::ServerError)),
            }
        }
    }

    pub fn is_finished(&self) -> (r: bool)
        ensures
            r == self.finished,
    {
        self.finished
    }
}

} // verus!
