//! What holds of the workflow over all inputs and all sequences of operations.
use vstd::prelude::*;
use crate::engine::outcome;
use crate::graph::{
    edge_exists, lemma_without, request_exists, requests_resolved, symmetric, well_formed, Tables,
    UserId,
};
use crate::pagination::{page_of, window};
use crate::workflow::Op;

verus! {

/// One call of the workflow: the operation, the caller, the target, and the
/// index of a write the storage refuses, if any.
pub type Call = (Op, UserId, UserId, Option<u64>);

/// The tables after the calls `calls`, made in order from `g`.
pub open spec fn apply_all(g: Tables, calls: Seq<Call>) -> Tables
    decreases calls.len(),
{
    if calls.len() == 0 {
        g
    } else {
        let prev = apply_all(g, calls.drop_last());
        let c = calls.last();
        outcome(c.0, c.1, c.2, prev, c.3).1
    }
}

/// Every operation keeps the tables well formed, whether it succeeds or fails.
pub proof fn lemma_outcome_well_formed(
    op: Op,
    caller: UserId,
    target: UserId,
    g: Tables,
    fault: Option<u64>,
)
    requires
        well_formed(g),
    ensures
        well_formed(outcome(op, caller, target, g, fault).1),
{
    let (c, t) = (caller, target);
    let g2 = outcome(op, c, t, g, fault).1;
    if g2 == g {
        return ;
    }
    match op {
        Op::Request => {
            assert(g2.requests == g.requests.push((c, t)));
            assert(g2.requests.no_duplicates()) by {
                assert forall|i: int, j: int| 0 <= i < j < g2.requests.len() implies g2.requests[i]
                    != g2.requests[j] by {
                    if j == g.requests.len() {
                        assert(g.requests.contains(g.requests[i]));
                    } else {
                        assert(g2.requests[i] == g.requests[i] && g2.requests[j] == g.requests[j]);
                    }
                }
            }
            assert forall|s: UserId, r: UserId| #[trigger] g2.requests.contains((s, r)) implies s != r
                && !g2.requests.contains((r, s)) && !g2.edges.contains((s, r)) by {
                assert(g.requests.contains((s, r)) || (s, r) == (c, t)) by {
                    let i = choose|i: int| 0 <= i < g2.requests.len() && g2.requests[i] == (s, r);
                    if i < g.requests.len() {
                        assert(g.requests[i] == (s, r));
                    }
                }
                if g2.requests.contains((r, s)) {
                    let i = choose|i: int| 0 <= i < g2.requests.len() && g2.requests[i] == (r, s);
                    if i < g.requests.len() {
                        assert(g.requests[i] == (r, s));
                        assert(g.requests.contains((r, s)));
                    }
                }
            }
        },
        Op::Cancel | Op::Reject => {
            let p = if op is Cancel {
                (c, t)
            } else {
                (t, c)
            };
            lemma_without(g.requests, p);
            assert(requests_resolved(g2));
        },
        Op::Accept => {
            lemma_without(g.requests, (t, c));
            let e = g.edges;
            let e2 = g2.edges;
            assert(e2 == e.push((t, c)).push((c, t)));
            assert(!e.contains((c, t)));
            assert(!e.contains((t, c)));
            assert forall|a: UserId, b: UserId| #[trigger] e2.contains((a, b)) <==> e.contains((a, b))
                || (a, b) == (t, c) || (a, b) == (c, t) by {
                if e2.contains((a, b)) {
                    let i = choose|i: int| 0 <= i < e2.len() && e2[i] == (a, b);
                    if i < e.len() {
                        assert(e[i] == (a, b));
                    }
                }
                if e.contains((a, b)) {
                    let i = choose|i: int| 0 <= i < e.len() && e[i] == (a, b);
                    assert(e2[i] == (a, b));
                }
                if (a, b) == (t, c) {
                    assert(e2[e.len() as int] == (a, b));
                }
                if (a, b) == (c, t) {
                    assert(e2[e.len() as int + 1] == (a, b));
                }
            }
            assert(e2.no_duplicates()) by {
                assert forall|i: int, j: int| 0 <= i < j < e2.len() implies e2[i] != e2[j] by {
                    if j >= e.len() && i < e.len() {
                        assert(e.contains(e[i]));
                    }
                    if j < e.len() {
                        assert(e2[i] == e[i] && e2[j] == e[j]);
                    }
                }
            }
            assert(symmetric(g2));
            assert(requests_resolved(g2));
        },
        Op::Disconnect => {
            let e1 = crate::graph::without(g.edges, (c, t));
            lemma_without(g.edges, (c, t));
            lemma_without(e1, (t, c));
            assert(symmetric(g2));
            assert(requests_resolved(g2));
        },
    }
}

/// Any sequence of calls from well-formed tables leaves them well formed.
pub proof fn lemma_apply_all_well_formed(g: Tables, calls: Seq<Call>)
    requires
        well_formed(g),
    ensures
        well_formed(apply_all(g, calls)),
    decreases calls.len(),
{
    if calls.len() > 0 {
        lemma_apply_all_well_formed(g, calls.drop_last());
        let c = calls.last();
        lemma_outcome_well_formed(c.0, c.1, c.2, apply_all(g, calls.drop_last()), c.3);
    }
}

/// Symmetry: after any sequence of calls from well-formed tables (the empty
/// ones among them), the edge (a, b) exists exactly when (b, a) does.
pub proof fn lemma_symmetry(g: Tables, calls: Seq<Call>, a: UserId, b: UserId)
    requires
        well_formed(g),
    ensures
        edge_exists(apply_all(g, calls), a, b) == edge_exists(apply_all(g, calls), b, a),
{
    lemma_apply_all_well_formed(g, calls);
}

/// A single pending direction: after any sequence of calls from well-formed
/// tables, the requests a -> b and b -> a are never both pending, and neither
/// is pending between connected users.
pub proof fn lemma_single_pending(g: Tables, calls: Seq<Call>, a: UserId, b: UserId)
    requires
        well_formed(g),
    ensures
        !(request_exists(apply_all(g, calls), a, b) && request_exists(apply_all(g, calls), b, a)),
        request_exists(apply_all(g, calls), a, b) ==> !edge_exists(apply_all(g, calls), a, b),
{
    lemma_apply_all_well_formed(g, calls);
}

/// Sending the same request twice in a row: the second is refused as a bad
/// request, whatever happens to the first.
pub proof fn lemma_request_twice(g: Tables, a: UserId, b: UserId, fault: Option<u64>)
    requires
        well_formed(g),
    ensures
        outcome(Op::Request, a, b, outcome(Op::Request, a, b, g, None).1, fault).0 is Err,
        outcome(Op::Request, a, b, outcome(Op::Request, a, b, g, None).1, fault).0->Err_0 is BadRequest,
{
    let g1 = outcome(Op::Request, a, b, g, None).1;
    if a != b && !edge_exists(g, a, b) && !request_exists(g, a, b) && !request_exists(g, b, a) {
        assert(g1.requests[g.requests.len() as int] == (a, b));
        assert(request_exists(g1, a, b));
    }
}

/// A failed call changes nothing: whenever an operation reports an error, the
/// edge and request tables are exactly as before.
pub proof fn lemma_failure_changes_nothing(
    op: Op,
    caller: UserId,
    target: UserId,
    g: Tables,
    fault: Option<u64>,
)
    ensures
        outcome(op, caller, target, g, fault).0 is Err ==> outcome(op, caller, target, g, fault).1
            == g,
{
}

/// Atomicity of the paired writes: when the second write of an accept or a
/// disconnect is refused by the storage, the call fails and neither write is
/// visible afterwards.
pub proof fn lemma_second_write_fault_rolls_back(
    op: Op,
    caller: UserId,
    target: UserId,
    g: Tables,
)
    requires
        op is Accept || op is Disconnect,
    ensures
        outcome(op, caller, target, g, Some(1u64)).0 is Err,
        outcome(op, caller, target, g, Some(1u64)).1 == g,
{
}

/// Consecutive pages are adjacent, non-overlapping windows over the same
/// order: page `page` ends where page `page + 1` starts, each holds at most
/// `limit` rows, and together they are the rows between, in order.
pub proof fn lemma_consecutive_pages<T>(rows: Seq<T>, page: int, limit: int)
    requires
        page >= 1,
        limit >= 0,
    ensures
        window(rows.len() as int, page, limit).1 == window(rows.len() as int, page + 1, limit).0,
        page_of(rows, page, limit).len() <= limit,
        page_of(rows, page, limit) + page_of(rows, page + 1, limit) == rows.subrange(
            window(rows.len() as int, page, limit).0,
            window(rows.len() as int, page + 1, limit).1,
        ),
{
    let n = rows.len() as int;
    assert((page - 1) * limit + limit == page * limit) by (nonlinear_arith);
    assert((page - 1) * limit >= 0) by (nonlinear_arith)
        requires
            page >= 1,
            limit >= 0,
    ;
    let w1 = window(n, page, limit);
    let w2 = window(n, page + 1, limit);
    assert(rows.subrange(w1.0, w1.1) + rows.subrange(w2.0, w2.1) =~= rows.subrange(w1.0, w2.1));
}

/// The first two pages of a listing are its first `2 * limit` rows (or all of
/// them, if fewer), split at `limit`.
pub proof fn lemma_first_two_pages<T>(rows: Seq<T>, limit: int)
    requires
        limit >= 0,
    ensures
        page_of(rows, 1, limit) == rows.subrange(0, if limit < rows.len() { limit } else { rows.len() as int }),
        page_of(rows, 1, limit) + page_of(rows, 2, limit) == rows.subrange(
            0,
            if 2 * limit < rows.len() { 2 * limit } else { rows.len() as int },
        ),
{
    lemma_consecutive_pages(rows, 1, limit);
}

} // verus!
