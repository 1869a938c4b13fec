//! Case-insensitive substring matching of users against a search query.
use vstd::prelude::*;
use crate::profile::User;

verus! {

/// The lowercase form of a text, as `str::to_lowercase` gives it.
pub uninterp spec fn lower_of(s: Seq<char>) -> Seq<char>;

/// Relies on `str::to_lowercase`: the lowercase form of `s`, which depends on
/// its characters alone.
#[verifier::external_body]
fn lowercase(s: &str) -> (r: String)
    ensures
        r@ == lower_of(s@),
{
    s.to_lowercase()
}

/// `needle` occurs in `hay` as a contiguous run (the empty text occurs in
/// every text).
pub open spec fn is_substring(needle: Seq<char>, hay: Seq<char>) -> bool {
    exists|i: int| 0 <= i <= hay.len() - needle.len() && #[trigger] hay.subrange(i, i + needle.len()) == needle
}

fn chars_of(s: &str) -> (r: Vec<char>)
    ensures
        r@ == s@,
{
    let n = s.unicode_len();
    let mut out: Vec<char> = Vec::new();
    let mut i: usize = 0;
    while i < n
        invariant
            n == s@.len(),
            i <= n,
            out@ == s@.subrange(0, i as int),
        decreases n - i,
    {
        out.push(s.get_char(i));
        i = i + 1;
    }
    assert(out@ =~= s@);
    out
}

/// Whether `needle` occurs in `hay`.
pub fn contains_text(hay: &str, needle: &str) -> (r: bool)
    ensures
        r == is_substring(needle@, hay@),
{
    let h = chars_of(hay);
    let nd = chars_of(needle);
    if nd.len() > h.len() {
        return false;
    }
    let last = h.len() - nd.len();
    let mut i: usize = 0;
    loop
        invariant
            h@ == hay@,
            nd@ == needle@,
            nd@.len() <= h@.len(),
            last == h@.len() - nd@.len(),
            i <= last,
            forall|k: int| 0 <= k < i ==> #[trigger] hay@.subrange(k, k + needle@.len()) != needle@,
        decreases last - i,
    {
        let mut j: usize = 0;
        let mut same = true;
        while j < nd.len()
            invariant
                h@ == hay@,
                nd@ == needle@,
                i <= last,
                i + nd.len() <= h.len(),
                nd@.len() <= h@.len(),
                last == h@.len() - nd@.len(),
                j <= nd.len(),
                same == forall|k: int| 0 <= k < j ==> h@[i + k] == nd@[k],
            decreases nd.len() - j,
        {
            if h[i + j] != nd[j] {
                same = false;
            }
            j = j + 1;
        }
        if same {
            assert(hay@.subrange(i as int, i + needle@.len()) =~= needle@);
            return true;
        }
        assert(hay@.subrange(i as int, i + needle@.len()) != needle@) by {
            let k = choose|k: int| 0 <= k < nd@.len() && h@[i + k] != nd@[k];
            assert(hay@.subrange(i as int, i + needle@.len())[k] == h@[i + k]);
        }
        if i == last {
            return false;
        }
        i = i + 1;
    }
}

/// The query matches a user whose lowercase username or lowercase name holds
/// the lowercase query.
pub open spec fn folded_match(username: Seq<char>, name: Option<Seq<char>>, query: Seq<char>) -> bool {
    is_substring(query, username) || (name is Some && is_substring(query, name.unwrap()))
}

/// Matching on texts already brought to lowercase.
pub fn matches_folded(username: &str, name: Option<&str>, query: &str) -> (r: bool)
    ensures
        r == folded_match(
            username@,
            match name {
                Some(n) => Some(n@),
                None => None,
            },
            query@,
        ),
{
    if contains_text(username, query) {
        return true;
    }
    match name {
        Some(n) => contains_text(n, query),
        None => false,
    }
}

/// Case-insensitive match of `query` on the username or the name of `u`.
pub open spec fn matches_user(u: User, query: Seq<char>) -> bool {
    matches_user_folded(u, lower_of(query))
}

pub open spec fn matches_user_folded(u: User, query_lower: Seq<char>) -> bool {
    folded_match(
        lower_of(u.username@),
        match u.name {
            Some(n) => Some(lower_of(n@)),
            None => None,
        },
        query_lower,
    )
}

/// The lowercase form of a query.
pub fn fold_query(query: &str) -> (r: String)
    ensures
        r@ == lower_of(query@),
{
    lowercase(query)
}

/// Whether the query, already in lowercase, matches `user` ignoring case.
pub fn user_matches(user: &User, query_lower: &str) -> (r: bool)
    ensures
        r == matches_user_folded(*user, query_lower@),
{
    let username = lowercase(user.username.as_str());
    match &user.name {
        Some(n) => {
            let name = lowercase(n.as_str());
            matches_folded(username.as_str(), Some(name.as_str()), query_lower)
        },
        None => matches_folded(username.as_str(), None, query_lower),
    }
}

} // verus!
