//! Listing a user's connections and searching users, a page at a time.
use vstd::prelude::*;
use crate::error::{Failure, Refusal};
use crate::graph::{edge_exists, request_exists, Pair, UserId};
use crate::pagination::{page_bounds, page_of};
use crate::profile::{status_of, RelationshipStatus, SearchParams, User, ViewUser};
use crate::store::{unique_ids, ConnectionStore};
use crate::text::{fold_query, matches_user, user_matches};

verus! {

/// The user with id `id` in the user table, if any.
pub open spec fn user_with(users: Seq<User>, id: UserId) -> Option<User> {
    if exists|i: int| 0 <= i < users.len() && users[i].id == id {
        Some(users[choose|i: int| 0 <= i < users.len() && users[i].id == id])
    } else {
        None
    }
}

/// The users that the rows `(user, x)` of `rows` point to, in the order of the
/// rows; rows whose `x` is not in the user table are left out. Over the edge
/// table: the users `user` is connected to, by connection time, ascending.
pub open spec fn targets(rows: Seq<Pair>, users: Seq<User>, user: UserId) -> Seq<User>
    decreases rows.len(),
{
    if rows.len() == 0 {
        Seq::empty()
    } else {
        let rest = targets(rows.drop_last(), users, user);
        let e = rows.last();
        if e.0 == user && user_with(users, e.1) is Some {
            rest.push(user_with(users, e.1).unwrap())
        } else {
            rest
        }
    }
}

/// The rows of `rows` that `query` matches, ignoring case, in their order.
pub open spec fn matching(rows: Seq<User>, query: Seq<char>) -> Seq<User>
    decreases rows.len(),
{
    if rows.len() == 0 {
        Seq::empty()
    } else {
        let rest = matching(rows.drop_last(), query);
        if matches_user(rows.last(), query) {
            rest.push(rows.last())
        } else {
            rest
        }
    }
}

/// The rows with their two ends swapped: requests `(receiver, sender)`.
pub open spec fn flipped(rows: Seq<Pair>) -> Seq<Pair> {
    rows.map_values(|p: Pair| (p.1, p.0))
}

/// The rows a connection listing pages through: all connections of `user`, or
/// those that `query` matches.
pub open spec fn listed(edges: Seq<Pair>, users: Seq<User>, user: UserId, query: Option<Seq<char>>) -> Seq<
    User,
> {
    match query {
        Some(q) => matching(targets(edges, users, user), q),
        None => targets(edges, users, user),
    }
}

fn find_user(users: &Vec<User>, id: UserId) -> (r: Option<usize>)
    requires
        unique_ids(users@),
    ensures
        r is Some ==> r.unwrap() < users@.len() && user_with(users@, id) == Some(
            users@[r.unwrap() as int],
        ),
        r is None ==> user_with(users@, id) is None,
{
    let mut i: usize = 0;
    while i < users.len()
        invariant
            i <= users.len(),
            unique_ids(users@),
            forall|k: int| 0 <= k < i ==> users@[k].id != id,
        decreases users.len() - i,
    {
        if users[i].id == id {
            let ghost j = choose|j: int| 0 <= j < users@.len() && users@[j].id == id;
            assert(j == i as int) by {
                if j < i as int {
                    assert(users@[j].id != users@[i as int].id);
                } else if j > i as int {
                    assert(users@[i as int].id != users@[j].id);
                }
            }
            return Some(i);
        }
        i = i + 1;
    }
    None
}

fn select_matching(rows: &Vec<User>, query: &str) -> (r: Vec<User>)
    ensures
        r@ == matching(rows@, query@),
{
    let q = fold_query(query);
    let mut out: Vec<User> = Vec::new();
    let mut i: usize = 0;
    while i < rows.len()
        invariant
            i <= rows.len(),
            q@ == crate::text::lower_of(query@),
            out@ == matching(rows@.subrange(0, i as int), query@),
        decreases rows.len() - i,
    {
        assert(rows@.subrange(0, i + 1).drop_last() =~= rows@.subrange(0, i as int));
        if user_matches(&rows[i], q.as_str()) {
            out.push(rows[i].copied());
        }
        i = i + 1;
    }
    assert(rows@.subrange(0, rows@.len() as int) =~= rows@);
    out
}

fn take_page(rows: &Vec<User>, page: u16, limit: u16) -> (r: Vec<User>)
    requires
        page >= 1,
    ensures
        r@ == page_of(rows@, page as int, limit as int),
{
    let (start, end) = page_bounds(rows.len(), page, limit);
    let mut out: Vec<User> = Vec::new();
    let mut i: usize = start;
    while i < end
        invariant
            start <= i <= end,
            end <= rows@.len(),
            out@ == rows@.subrange(start as int, i as int),
        decreases end - i,
    {
        out.push(rows[i].copied());
        i = i + 1;
    }
    out
}

fn join_targets(rows: &Vec<Pair>, users: &Vec<User>, user: UserId, flip: bool) -> (r: Vec<User>)
    requires
        unique_ids(users@),
    ensures
        r@ == targets(
            if flip {
                flipped(rows@)
            } else {
                rows@
            },
            users@,
            user,
        ),
{
    let ghost src = if flip {
        flipped(rows@)
    } else {
        rows@
    };
    let mut out: Vec<User> = Vec::new();
    let mut i: usize = 0;
    while i < rows.len()
        invariant
            i <= rows.len(),
            unique_ids(users@),
            src.len() == rows@.len(),
            src == if flip {
                flipped(rows@)
            } else {
                rows@
            },
            out@ == targets(src.subrange(0, i as int), users@, user),
        decreases rows.len() - i,
    {
        assert(src.subrange(0, i + 1).drop_last() =~= src.subrange(0, i as int));
        let (from, to) = if flip {
            (rows[i].1, rows[i].0)
        } else {
            rows[i]
        };
        assert(src.subrange(0, i + 1).last() == (from, to));
        if from == user {
            match find_user(users, to) {
                Some(k) => out.push(users[k].copied()),
                None => {},
            }
        }
        i = i + 1;
    }
    assert(src.subrange(0, src.len() as int) =~= src);
    out
}

fn newest_first(rows: Vec<User>) -> (r: Vec<User>)
    ensures
        r@ == rows@.reverse(),
{
    let mut out: Vec<User> = Vec::new();
    let mut i: usize = rows.len();
    while i > 0
        invariant
            i <= rows.len(),
            out@.len() == rows@.len() - i,
            forall|k: int| 0 <= k < out@.len() ==> out@[k] == rows@[rows@.len() - 1 - k],
        decreases i,
    {
        i = i - 1;
        out.push(rows[i].copied());
    }
    assert(out@ =~= rows@.reverse());
    out
}

impl ConnectionStore {
    fn connections_of(&self, user: UserId) -> (r: Vec<User>)
        requires
            self.inv(),
        ensures
            r@ == targets(self.tables().edges, self.users(), user),
    {
        join_targets(self.edge_rows(), self.user_rows(), user, false)
    }

    /// The users whose requests to `user` are pending, most recent first.
    pub fn get_received_requests(&self, user: UserId) -> (r: Vec<User>)
        requires
            self.inv(),
        ensures
            r@ == targets(flipped(self.tables().requests), self.users(), user).reverse(),
    {
        newest_first(join_targets(self.request_rows(), self.user_rows(), user, true))
    }

    /// The users `user` has pending requests to, most recent first.
    pub fn get_sent_requests(&self, user: UserId) -> (r: Vec<User>)
        requires
            self.inv(),
        ensures
            r@ == targets(self.tables().requests, self.users(), user).reverse(),
    {
        newest_first(join_targets(self.request_rows(), self.user_rows(), user, false))
    }

    /// Page `page` (from 1) of the users `user` is connected to, in ascending
    /// order of connection, `limit` to a page; with a query, only the users
    /// whose username or name holds it, ignoring case.
    pub fn list_connections(&self, user: UserId, page: u16, limit: u16, query: Option<&str>) -> (r: Vec<
        User,
    >)
        requires
            self.inv(),
            page >= 1,
        ensures
            r@ == page_of(
                listed(
                    self.tables().edges,
                    self.users(),
                    user,
                    match query {
                        Some(q) => Some(q@),
                        None => None,
                    },
                ),
                page as int,
                limit as int,
            ),
    {
        let all = self.connections_of(user);
        match query {
            Some(q) => {
                let kept = select_matching(&all, q);
                take_page(&kept, page, limit)
            },
            None => take_page(&all, page, limit),
        }
    }

    /// Page `page` (from 1) of the users whose username or name holds `query`,
    /// ignoring case, in order of creation, `limit` to a page.
    pub fn search_users(&self, query: &str, page: u16, limit: u16) -> (r: Vec<User>)
        requires
            page >= 1,
        ensures
            r@ == page_of(matching(self.users(), query@), page as int, limit as int),
    {
        let kept = select_matching(self.user_rows(), query);
        take_page(&kept, page, limit)
    }

    /// Search over all users: refused for an empty query or a page below 1.
    pub fn search(&self, params: &SearchParams, limit: u16) -> (r: Result<Vec<User>, Failure>)
        ensures
            params.q@.len() == 0 ==> r == Err::<Vec<User>, Failure>(
                Failure::BadRequest(Refusal::EmptyQuery),
            ),
            params.q@.len() > 0 && params.p == Some(0u16) ==> r == Err::<Vec<User>, Failure>(
                Failure::BadRequest(Refusal::InvalidPage),
            ),
            params.q@.len() > 0 && params.p != Some(0u16) ==> r is Ok && r->Ok_0@ == page_of(
                matching(self.users(), params.q@),
                (match params.p {
                    Some(p) => p,
                    None => 1u16,
                }) as int,
                limit as int,
            ),
    {
        match params.validate() {
            Ok(page) => Ok(self.search_users(params.q.as_str(), page, limit)),
            Err(f) => Err(f),
        }
    }

    /// Page `page` of the caller's connections; refused for a page below 1.
    pub fn get_listers(&self, caller: UserId, page: u16, limit: u16) -> (r: Result<Vec<User>, Failure>)
        requires
            self.inv(),
        ensures
            page == 0 ==> r == Err::<Vec<User>, Failure>(Failure::BadRequest(Refusal::InvalidPage)),
            page >= 1 ==> r is Ok && r->Ok_0@ == page_of(
                targets(self.tables().edges, self.users(), caller),
                page as int,
                limit as int,
            ),
    {
        if page == 0 {
            return Err(Failure::BadRequest(Refusal::InvalidPage));
        }
        Ok(self.list_connections(caller, page, limit, None))
    }

    /// Search among the caller's connections: refused for an empty query or a
    /// page below 1.
    pub fn search_listers(&self, caller: UserId, params: &SearchParams, limit: u16) -> (r: Result<
        Vec<User>,
        Failure,
    >)
        requires
            self.inv(),
        ensures
            params.q@.len() == 0 ==> r == Err::<Vec<User>, Failure>(
                Failure::BadRequest(Refusal::EmptyQuery),
            ),
            params.q@.len() > 0 && params.p == Some(0u16) ==> r == Err::<Vec<User>, Failure>(
                Failure::BadRequest(Refusal::InvalidPage),
            ),
            params.q@.len() > 0 && params.p != Some(0u16) ==> r is Ok && r->Ok_0@ == page_of(
                matching(targets(self.tables().edges, self.users(), caller), params.q@),
                (match params.p {
                    Some(p) => p,
                    None => 1u16,
                }) as int,
                limit as int,
            ),
    {
        match params.validate() {
            Ok(page) => Ok(self.list_connections(caller, page, limit, Some(params.q.as_str()))),
            Err(f) => Err(f),
        }
    }

    /// Where the caller stands with `other`.
    pub fn relationship(&self, caller: UserId, other: UserId) -> (r: RelationshipStatus)
        ensures
            r == status_of(
                edge_exists(self.tables(), caller, other),
                request_exists(self.tables(), caller, other),
                request_exists(self.tables(), other, caller),
            ),
    {
        let connected = self.edge_exists(caller, other);
        if connected {
            return RelationshipStatus::derive(true, false, false);
        }
        let sent = self.request_exists(caller, other);
        let received = self.request_exists(other, caller);
        RelationshipStatus::derive(false, sent, received)
    }

    /// The profile of `id` as the caller sees it, with their relationship;
    /// one's own profile is forbidden here, and an unknown id is not found.
    pub fn view_user_profile(&self, caller: UserId, id: UserId) -> (r: Result<ViewUser, Failure>)
        requires
            self.inv(),
        ensures
            caller == id ==> r == Err::<ViewUser, Failure>(Failure::Forbidden),
            caller != id && user_with(self.users(), id) is None ==> r == Err::<ViewUser, Failure>(
                Failure::NotFound,
            ),
            caller != id && user_with(self.users(), id) is Some ==> r is Ok && ({
                let u = user_with(self.users(), id).unwrap();
                let v = r->Ok_0;
                &&& v.id == u.id
                &&& v.username == u.username
                &&& v.name == u.name
                &&& status_of(v.connected, v.sent_connection, v.received_connection) == status_of(
                    edge_exists(self.tables(), caller, id),
                    request_exists(self.tables(), caller, id),
                    request_exists(self.tables(), id, caller),
                )
            }),
    {
        if caller == id {
            return Err(Failure::Forbidden);
        }
        let users = self.user_rows();
        match find_user(users, id) {
            None => Err(Failure::NotFound),
            Some(k) => {
                let status = self.relationship(caller, id);
                Ok(ViewUser::with_status(users[k].copied(), status))
            },
        }
    }
}

} // verus!
