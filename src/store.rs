//! An in-memory connection store: the edge table, the request table and the
//! user table, with transactions as working copies that commit or vanish.
use vstd::prelude::*;
use crate::error::StoreError;
use crate::graph::{
    delete_edge_result, delete_request_result, edge_exists, insert_edge_pair_result,
    insert_request_result, request_exists, well_formed, without, Pair, Tables, UserId,
};
use crate::profile::User;

verus! {

/// Ids are unique in the user table.
pub open spec fn unique_ids(users: Seq<User>) -> bool {
    forall|i: int, j: int| 0 <= i < j < users.len() ==> users[i].id != users[j].id
}

fn copy_rows(rows: &Vec<Pair>) -> (r: Vec<Pair>)
    ensures
        r@ == rows@,
{
    let mut out: Vec<Pair> = Vec::new();
    let mut i: usize = 0;
    while i < rows.len()
        invariant
            i <= rows.len(),
            out@ == rows@.subrange(0, i as int),
        decreases rows.len() - i,
    {
        out.push(rows[i]);
        i = i + 1;
    }
    assert(out@ =~= rows@);
    out
}

fn contains_row(rows: &Vec<Pair>, p: Pair) -> (r: bool)
    ensures
        r == rows@.contains(p),
{
    let mut i: usize = 0;
    while i < rows.len()
        invariant
            i <= rows.len(),
            forall|k: int| 0 <= k < i ==> rows@[k] != p,
        decreases rows.len() - i,
    {
        if rows[i].0 == p.0 && rows[i].1 == p.1 {
            assert(rows@[i as int] == p);
            return true;
        }
        i = i + 1;
    }
    false
}

/// Remove every row equal to `p`; returns how many were removed.
fn remove_rows(rows: &mut Vec<Pair>, p: Pair) -> (n: u64)
    ensures
        final(rows)@ == without(old(rows)@, p),
        n == old(rows)@.len() - final(rows)@.len(),
{
    proof {
        lemma_without_len(old(rows)@, p);
    }
    let mut kept: Vec<Pair> = Vec::new();
    let mut i: usize = 0;
    while i < rows.len()
        invariant
            i <= rows.len(),
            kept@ == without(rows@.subrange(0, i as int), p),
            kept@.len() <= i,
        decreases rows.len() - i,
    {
        proof {
            assert(rows@.subrange(0, i + 1).drop_last() =~= rows@.subrange(0, i as int));
            lemma_without_len(rows@.subrange(0, i + 1), p);
        }
        if !(rows[i].0 == p.0 && rows[i].1 == p.1) {
            kept.push(rows[i]);
        }
        i = i + 1;
    }
    assert(rows@.subrange(0, rows@.len() as int) =~= rows@);
    let n = (rows.len() - kept.len()) as u64;
    *rows = kept;
    n
}

proof fn lemma_without_len(rows: Seq<Pair>, p: Pair)
    ensures
        without(rows, p).len() <= rows.len(),
    decreases rows.len(),
{
    if rows.len() > 0 {
        lemma_without_len(rows.drop_last(), p);
    }
}

/// Changes made inside a transaction: a working copy of the two connection
/// tables. Committing installs it; dropping it rolls everything back.
pub struct Transaction {
    edges: Vec<Pair>,
    requests: Vec<Pair>,
}

impl Transaction {
    pub closed spec fn tables(&self) -> Tables {
        Tables { edges: self.edges@, requests: self.requests@ }
    }

    /// Whether the edge row (user, other) exists in the transaction's tables.
    pub fn edge_exists(&self, user: UserId, other: UserId) -> (r: bool)
        ensures
            r == edge_exists(self.tables(), user, other),
    {
        contains_row(&self.edges, (user, other))
    }

    /// Whether the request (sender, receiver) is pending in the transaction's
    /// tables.
    pub fn request_exists(&self, sender: UserId, receiver: UserId) -> (r: bool)
        ensures
            r == request_exists(self.tables(), sender, receiver),
    {
        contains_row(&self.requests, (sender, receiver))
    }

    /// Insert the edge rows (a, b) and (b, a) as one unit.
    pub fn insert_edge_pair(&mut self, a: UserId, b: UserId) -> (r: Result<(), StoreError>)
        ensures
            (final(self).tables(), r) == insert_edge_pair_result(old(self).tables(), a, b),
    {
        if a == b || contains_row(&self.edges, (a, b)) || contains_row(&self.edges, (b, a)) {
            Err(StoreError::Conflict)
        } else {
            self.edges.push((a, b));
            self.edges.push((b, a));
            Ok(())
        }
    }

    /// Delete the request (sender, receiver); exactly one row must go.
    pub fn delete_request(&mut self, sender: UserId, receiver: UserId) -> (r: Result<(), StoreError>)
        ensures
            (final(self).tables(), r) == delete_request_result(old(self).tables(), sender, receiver),
    {
        let n = remove_rows(&mut self.requests, (sender, receiver));
        if n == 1 {
            Ok(())
        } else {
            Err(StoreError::NotFound)
        }
    }

    /// Delete the edge row (user, other); returns the number of rows removed.
    pub fn delete_edge(&mut self, user: UserId, other: UserId) -> (n: u64)
        ensures
            (final(self).tables(), n as nat) == delete_edge_result(old(self).tables(), user, other),
    {
        remove_rows(&mut self.edges, (user, other))
    }
}

/// The three tables. The primitives below apply no business rule of their
/// own; the workflow's operations (see `execute`) keep `inv`.
pub struct ConnectionStore {
    edges: Vec<Pair>,
    requests: Vec<Pair>,
    users: Vec<User>,
}

impl ConnectionStore {
    pub closed spec fn tables(&self) -> Tables {
        Tables { edges: self.edges@, requests: self.requests@ }
    }

    /// The user table, in order of creation.
    pub closed spec fn users(&self) -> Seq<User> {
        self.users@
    }

    /// The invariants of the store.
    pub open spec fn inv(&self) -> bool {
        well_formed(self.tables()) && unique_ids(self.users())
    }

    pub fn new() -> (r: ConnectionStore)
        ensures
            r.tables().edges.len() == 0,
            r.tables().requests.len() == 0,
            r.users().len() == 0,
            r.inv(),
    {
        ConnectionStore { edges: Vec::new(), requests: Vec::new(), users: Vec::new() }
    }

    /// Add a user at the end of the user table; a taken id is refused.
    pub fn add_user(&mut self, user: User) -> (r: Result<(), StoreError>)
        requires
            old(self).inv(),
        ensures
            final(self).inv(),
            final(self).tables() == old(self).tables(),
            (exists|i: int| 0 <= i < old(self).users().len() && old(self).users()[i].id == user.id)
                ==> r == Err::<(), StoreError>(StoreError::Conflict) && final(self).users()
                == old(self).users(),
            !(exists|i: int| 0 <= i < old(self).users().len() && old(self).users()[i].id == user.id)
                ==> r == Ok::<(), StoreError>(()) && final(self).users() == old(self).users().push(
                user,
            ),
    {
        let mut i: usize = 0;
        while i < self.users.len()
            invariant
                i <= self.users.len(),
                *self == *old(self),
                old(self).inv(),
                forall|k: int| 0 <= k < i ==> self.users@[k].id != user.id,
            decreases self.users.len() - i,
        {
            if self.users[i].id == user.id {
                return Err(StoreError::Conflict);
            }
            i = i + 1;
        }
        self.users.push(user);
        Ok(())
    }

    /// Whether the edge row (user, other) exists.
    pub fn edge_exists(&self, user: UserId, other: UserId) -> (r: bool)
        ensures
            r == edge_exists(self.tables(), user, other),
    {
        contains_row(&self.edges, (user, other))
    }

    /// Whether the request (sender, receiver) is pending.
    pub fn request_exists(&self, sender: UserId, receiver: UserId) -> (r: bool)
        ensures
            r == request_exists(self.tables(), sender, receiver),
    {
        contains_row(&self.requests, (sender, receiver))
    }

    /// Insert the request (sender, receiver).
    pub fn insert_request(&mut self, sender: UserId, receiver: UserId) -> (r: Result<(), StoreError>)
        ensures
            (final(self).tables(), r) == insert_request_result(old(self).tables(), sender, receiver),
            final(self).users() == old(self).users(),
    {
        if contains_row(&self.requests, (sender, receiver)) {
            Err(StoreError::Conflict)
        } else {
            self.requests.push((sender, receiver));
            Ok(())
        }
    }

    /// Delete the request (sender, receiver); exactly one row must go.
    pub fn delete_request(&mut self, sender: UserId, receiver: UserId) -> (r: Result<(), StoreError>)
        ensures
            (final(self).tables(), r) == delete_request_result(old(self).tables(), sender, receiver),
            final(self).users() == old(self).users(),
    {
        let n = remove_rows(&mut self.requests, (sender, receiver));
        if n == 1 {
            Ok(())
        } else {
            Err(StoreError::NotFound)
        }
    }

    pub(crate) fn edge_rows(&self) -> (r: &Vec<Pair>)
        ensures
            r@ == self.tables().edges,
    {
        &self.edges
    }

    pub(crate) fn request_rows(&self) -> (r: &Vec<Pair>)
        ensures
            r@ == self.tables().requests,
    {
        &self.requests
    }

    pub(crate) fn user_rows(&self) -> (r: &Vec<User>)
        ensures
            r@ == self.users(),
    {
        &self.users
    }

    /// Open a transaction on the current tables.
    pub fn begin(&self) -> (tx: Transaction)
        ensures
            tx.tables() == self.tables(),
    {
        Transaction { edges: copy_rows(&self.edges), requests: copy_rows(&self.requests) }
    }

    /// Install the transaction's tables.
    pub fn commit(&mut self, tx: Transaction)
        ensures
            final(self).tables() == tx.tables(),
            final(self).users() == old(self).users(),
    {
        self.edges = tx.edges;
        self.requests = tx.requests;
    }
}

} // verus!
