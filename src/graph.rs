//! Mathematical model of the two connection tables: directed edge rows and
//! directed pending requests.
use vstd::prelude::*;
use crate::error::StoreError;

verus! {

/// Opaque identifier of a user.
pub type UserId = u128;

/// A directed row `(from, to)`: an edge row `(user, connected)` or a request
/// `(sender, receiver)`.
pub type Pair = (UserId, UserId);

/// The contents of the edge table and the request table, in insertion order.
pub struct Tables {
    pub edges: Seq<Pair>,
    pub requests: Seq<Pair>,
}

pub open spec fn edge_exists(t: Tables, user: UserId, other: UserId) -> bool {
    t.edges.contains((user, other))
}

pub open spec fn request_exists(t: Tables, sender: UserId, receiver: UserId) -> bool {
    t.requests.contains((sender, receiver))
}

/// The rows of `rows` other than `p`, in their order.
pub open spec fn without(rows: Seq<Pair>, p: Pair) -> Seq<Pair>
    decreases rows.len(),
{
    if rows.len() == 0 {
        rows
    } else {
        let rest = without(rows.drop_last(), p);
        if rows.last() == p {
            rest
        } else {
            rest.push(rows.last())
        }
    }
}

/// Every edge has its reverse row and joins two distinct users.
pub open spec fn symmetric(t: Tables) -> bool {
    forall|a: UserId, b: UserId|
        #[trigger] t.edges.contains((a, b)) ==> a != b && t.edges.contains((b, a))
}

/// A pending request joins two distinct users who are not connected, and its
/// reverse is not pending at the same time.
pub open spec fn requests_resolved(t: Tables) -> bool {
    forall|s: UserId, r: UserId|
        #[trigger] t.requests.contains((s, r)) ==> s != r && !t.requests.contains((r, s))
            && !t.edges.contains((s, r))
}

/// The invariants of the two tables.
pub open spec fn well_formed(t: Tables) -> bool {
    &&& t.edges.no_duplicates()
    &&& t.requests.no_duplicates()
    &&& symmetric(t)
    &&& requests_resolved(t)
}


/// Insert the request (sender, receiver); the unique constraint refuses a
/// second copy.
pub open spec fn insert_request_result(t: Tables, sender: UserId, receiver: UserId) -> (
    Tables,
    Result<(), StoreError>,
) {
    if t.requests.contains((sender, receiver)) {
        (t, Err(StoreError::Conflict))
    } else {
        (Tables { requests: t.requests.push((sender, receiver)), ..t }, Ok(()))
    }
}

/// Delete the request (sender, receiver); it must remove exactly one row.
pub open spec fn delete_request_result(t: Tables, sender: UserId, receiver: UserId) -> (
    Tables,
    Result<(), StoreError>,
) {
    let rest = without(t.requests, (sender, receiver));
    (
        Tables { requests: rest, ..t },
        if t.requests.len() == rest.len() + 1 {
            Ok(())
        } else {
            Err(StoreError::NotFound)
        },
    )
}

/// Insert the rows (a, b) and (b, a) together; the unique constraint refuses
/// them both if either exists, and a self edge repeats its own row.
pub open spec fn insert_edge_pair_result(t: Tables, a: UserId, b: UserId) -> (
    Tables,
    Result<(), StoreError>,
) {
    if a == b || t.edges.contains((a, b)) || t.edges.contains((b, a)) {
        (t, Err(StoreError::Conflict))
    } else {
        (Tables { edges: t.edges.push((a, b)).push((b, a)), ..t }, Ok(()))
    }
}

/// Delete the edge row (user, other), with the number of rows removed.
pub open spec fn delete_edge_result(t: Tables, user: UserId, other: UserId) -> (Tables, nat) {
    let rest = without(t.edges, (user, other));
    (Tables { edges: rest, ..t }, (t.edges.len() - rest.len()) as nat)
}

pub proof fn lemma_without(rows: Seq<Pair>, p: Pair)
    ensures
        forall|q: Pair| #[trigger]
            without(rows, p).contains(q) <==> rows.contains(q) && q != p,
        rows.no_duplicates() ==> without(rows, p).no_duplicates(),
        rows.no_duplicates() && rows.contains(p) ==> without(rows, p).len() + 1 == rows.len(),
        !rows.contains(p) ==> without(rows, p) == rows,
    decreases rows.len(),
{
    if rows.len() > 0 {
        let init = rows.drop_last();
        lemma_without(init, p);
        assert(rows == init.push(rows.last()));
        assert forall|q: Pair| #[trigger] without(rows, p).contains(q) <==> rows.contains(q) && q != p by {
            let w = without(init, p);
            if rows.contains(q) && q != p {
                let i = choose|i: int| 0 <= i < rows.len() && rows[i] == q;
                if i < init.len() {
                    assert(init[i] == q);
                    assert(init.contains(q));
                    assert(w.contains(q));
                    if rows.last() != p {
                        let k = choose|k: int| 0 <= k < w.len() && w[k] == q;
                        assert(w.push(rows.last())[k] == q);
                    }
                } else {
                    assert(w.push(rows.last())[w.len() as int] == q);
                }
            }
            if without(rows, p).contains(q) {
                if rows.last() != p {
                    let i = choose|i: int| 0 <= i < w.len() + 1 && w.push(rows.last())[i] == q;
                    if i < w.len() {
                        assert(w[i] == q);
                        assert(w.contains(q));
                    } else {
                        assert(rows[rows.len() - 1] == q);
                    }
                } else {
                    assert(w.contains(q));
                }
                if init.contains(q) {
                    let k = choose|k: int| 0 <= k < init.len() && init[k] == q;
                    assert(rows[k] == q);
                }
            }
        }
        if rows.no_duplicates() {
            assert(init.no_duplicates()) by {
                assert forall|i: int, j: int| 0 <= i < j < init.len() implies init[i] != init[j] by {
                    assert(rows[i] == init[i] && rows[j] == init[j]);
                }
            }
            assert(!init.contains(rows.last())) by {
                if init.contains(rows.last()) {
                    let i = choose|i: int| 0 <= i < init.len() && init[i] == rows.last();
                    assert(rows[i] == rows[rows.len() - 1]);
                }
            }
            if rows.last() != p {
                let w = without(init, p);
                assert(!w.contains(rows.last()));
                assert(w.push(rows.last()).no_duplicates()) by {
                    assert forall|i: int, j: int| 0 <= i < j < w.len() + 1 implies w.push(rows.last())[i]
                        != w.push(rows.last())[j] by {
                        if j == w.len() {
                            assert(w.contains(w[i]));
                        }
                    }
                }
            } else {
                assert(!init.contains(p));
            }
        }
        if !rows.contains(p) {
            assert(!init.contains(p)) by {
                if init.contains(p) {
                    let i = choose|i: int| 0 <= i < init.len() && init[i] == p;
                    assert(rows[i] == p);
                }
            }
            assert(rows.last() != p) by {
                assert(rows[rows.len() - 1] == rows.last());
            }
        }
    }
}

} // verus!
