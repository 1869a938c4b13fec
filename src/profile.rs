//! Users as the listing sees them, and the derived relationship status between
//! two users.
use vstd::prelude::*;
use crate::error::{Failure, Refusal};
use crate::graph::UserId;
use crate::workflow::{success_message, Success};

verus! {

/// A user as listings return it.
pub struct User {
    pub id: UserId,
    pub username: String,
    pub name: Option<String>,
}

impl User {
    pub fn new(id: UserId, username: &str, name: Option<&str>) -> (r: User)
        ensures
            r.id == id,
            r.username@ == username@,
            r.name is Some <==> name is Some,
            name is Some ==> r.name.unwrap()@ == name.unwrap()@,
    {
        let name = match name {
            Some(n) => Some(String::from_str(n)),
            None => None,
        };
        User { id, username: String::from_str(username), name }
    }

    /// A copy of this user.
    pub fn copied(&self) -> (r: User)
        ensures
            r == *self,
    {
        let name = match &self.name {
            Some(n) => Some(n.clone()),
            None => None,
        };
        User { id: self.id, username: self.username.clone(), name }
    }
}

/// Where two users stand: derived from the edge and request tables on every
/// query, never stored.
#[derive(Clone, Copy, Debug, PartialEq, Eq, Structural)]
pub enum RelationshipStatus {
    /// Neither connected nor a request pending.
    Unrelated,
    /// The caller's request to the other user is pending.
    RequestSent,
    /// The other user's request to the caller is pending.
    RequestReceived,
    /// The edge pair exists.
    Connected,
}

pub open spec fn status_of(connected: bool, sent: bool, received: bool) -> RelationshipStatus {
    if connected {
        RelationshipStatus::Connected
    } else if sent {
        RelationshipStatus::RequestSent
    } else if received {
        RelationshipStatus::RequestReceived
    } else {
        RelationshipStatus::Unrelated
    }
}

impl RelationshipStatus {
    /// The status from the three existence checks: whether the edge
    /// (caller, other) exists, and whether the requests caller -> other and
    /// other -> caller are pending. When connected, the request checks are not
    /// looked at.
    pub fn derive(connected: bool, sent: bool, received: bool) -> (r: RelationshipStatus)
        ensures
            r == status_of(connected, sent, received),
    {
        if connected {
            RelationshipStatus::Connected
        } else if sent {
            RelationshipStatus::RequestSent
        } else if received {
            RelationshipStatus::RequestReceived
        } else {
            RelationshipStatus::Unrelated
        }
    }
}

/// A user's profile as another user sees it.
pub struct ViewUser {
    pub id: UserId,
    pub username: String,
    pub name: Option<String>,
    pub connected: bool,
    pub sent_connection: bool,
    pub received_connection: bool,
}

impl ViewUser {
    /// The profile of `user`, with no relationship marked.
    pub fn from(user: User) -> (r: ViewUser)
        ensures
            r.id == user.id,
            r.username == user.username,
            r.name == user.name,
            !r.connected && !r.sent_connection && !r.received_connection,
    {
        ViewUser {
            id: user.id,
            username: user.username,
            name: user.name,
            connected: false,
            sent_connection: false,
            received_connection: false,
        }
    }

    /// The profile of `user` with the flags of `status`: at most one is set.
    pub fn with_status(user: User, status: RelationshipStatus) -> (r: ViewUser)
        ensures
            r.id == user.id,
            r.username == user.username,
            r.name == user.name,
            r.connected == (status is Connected),
            r.sent_connection == (status is RequestSent),
            r.received_connection == (status is RequestReceived),
    {
        let mut v = ViewUser::from(user);
        match status {
            RelationshipStatus::Connected => v.connected = true,
            RelationshipStatus::RequestSent => v.sent_connection = true,
            RelationshipStatus::RequestReceived => v.received_connection = true,
            RelationshipStatus::Unrelated => {},
        }
        v
    }

    pub fn status(&self) -> (r: RelationshipStatus)
        ensures
            r == status_of(self.connected, self.sent_connection, self.received_connection),
    {
        RelationshipStatus::derive(self.connected, self.sent_connection, self.received_connection)
    }
}

/// The query string of a search: `q` is the text looked for, `p` the 1-based
/// page, 1 when absent.
pub struct SearchParams {
    pub q: String,
    pub p: Option<u16>,
}

impl SearchParams {
    /// The page asked for: `p`, or 1 when absent.
    pub fn page(&self) -> (r: u16)
        ensures
            r == match self.p {
                Some(p) => p,
                None => 1u16,
            },
    {
        match self.p {
            Some(p) => p,
            None => 1,
        }
    }

    /// The page to fetch, or why the search is refused: an empty query, or a
    /// page number below 1.
    pub fn validate(&self) -> (r: Result<u16, Failure>)
        ensures
            self.q@.len() == 0 ==> r == Err::<u16, Failure>(Failure::BadRequest(Refusal::EmptyQuery)),
            self.q@.len() > 0 && self.p == Some(0u16) ==> r == Err::<u16, Failure>(
                Failure::BadRequest(Refusal::InvalidPage),
            ),
            self.q@.len() > 0 && self.p != Some(0u16) ==> r == Ok::<u16, Failure>(
                match self.p {
                    Some(p) => p,
                    None => 1u16,
                },
            ),
    {
        if self.q.as_str().is_empty() {
            return Err(Failure::BadRequest(Refusal::EmptyQuery));
        }
        let page = self.page();
        if page == 0 {
            Err(Failure::BadRequest(Refusal::InvalidPage))
        } else {
            Ok(page)
        }
    }
}

/// The body of a successful operation that returns no data.
pub struct SuccessResponse {
    pub msg: String,
}

impl SuccessResponse {
    pub fn ok_msg(msg: &str) -> (r: SuccessResponse)
        ensures
            r.msg@ == msg@,
    {
        SuccessResponse { msg: String::from_str(msg) }
    }

    pub fn from_success(s: Success) -> (r: SuccessResponse)
        ensures
            r.msg@ == success_message(s),
    {
        SuccessResponse::ok_msg(s.message())
    }
}

} // verus!
