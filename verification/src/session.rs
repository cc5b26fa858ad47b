use vstd::prelude::*;

use crate::text::{
    decimal, decimal_chars, join2, parse_u64, parse_u64_spec, str_eq, string_from_chars,
};

verus! {

broadcast use vstd::string::group_string_axioms;

/// The session cookie shared across every frontend; `auth-web` is its only writer.
pub const SESSION_COOKIE_NAME: &'static str = "sweetrpg_session";

/// The identity `auth-web` writes into the shared session store. `roles` comes from
/// `users-api`'s verified authorization check.
#[derive(Clone, Debug)]
pub struct SessionUser {
    pub sub: String,
    pub name: String,
    pub email: Option<String>,
    pub roles: Vec<String>,
}

/// The connection URL of the shared session Redis: `redis://[:<password>@]<host>:<port>/<db>`.
pub open spec fn redis_url(host: Seq<char>, port: u16, db: u16, password: Option<Seq<char>>) -> Seq<
    char,
> {
    let credentials = match password {
        Some(p) => ":"@ + p + "@"@,
        None => Seq::empty(),
    };
    "redis://"@ + credentials + host + ":"@ + decimal(port as nat) + "/"@ + decimal(db as nat)
}

pub fn session_redis_url(host: &str, port: u16, db: u16, password: Option<&str>) -> (res: String)
    ensures
        res@ == redis_url(
            host@,
            port,
            db,
            match password {
                Some(p) => Some(p@),
                None => None,
            },
        ),
{
    let mut url = "redis://".to_owned();
    match password {
        Some(p) => {
            url.append(":");
            url.append(p);
            url.append("@");
        },
        None => {},
    }
    url.append(host);
    url.append(":");
    let port_digits = string_from_chars(decimal_chars(port as u64).as_slice());
    url.append(port_digits.as_str());
    url.append("/");
    let db_digits = string_from_chars(decimal_chars(db as u64).as_slice());
    url.append(db_digits.as_str());
    proof {
        let credentials = match password {
            Some(p) => ":"@ + p@ + "@"@,
            None => Seq::<char>::empty(),
        };
        assert(url@ =~= "redis://"@ + credentials + host@ + ":"@ + decimal(port as nat) + "/"@
            + decimal(db as nat));
    }
    url
}

/// The Redis key `auth-web`'s session driver stores a session under.
pub fn session_key(session_id: &str) -> (res: String)
    ensures
        res@ == "vrs-"@ + session_id@,
{
    join2("vrs-", session_id)
}

// ---------------------------------------------------------------------------
// Outside: decoding the stored session data

/// The JSON object of string values `raw` holds (later duplicate keys winning), or `None`
/// when `raw` is not such an object.
pub uninterp spec fn json_string_map(raw: Seq<char>) -> Option<Map<Seq<char>, Seq<char>>>;

/// `pairs` lists exactly the entries of `m`.
pub open spec fn pairs_describe(pairs: Seq<(String, String)>, m: Map<Seq<char>, Seq<char>>) -> bool {
    &&& forall|k: Seq<char>|
        m.contains_key(k) ==> exists|i: int| 0 <= i < pairs.len() && #[trigger] pairs[i].0@ == k
    &&& forall|i: int|
        0 <= i < pairs.len() ==> m.contains_key(#[trigger] pairs[i].0@) && m[pairs[i].0@]
            == pairs[i].1@
}

/// `serde_json::from_str::<HashMap<String, String>>`, its entries listed in the map's order.
#[verifier::external_body]
fn parse_string_map(raw: &str) -> (res: Option<Vec<(String, String)>>)
    ensures
        res is Some <==> json_string_map(raw@) is Some,
        res matches Some(pairs) ==> pairs_describe(pairs@, json_string_map(raw@)->0),
{
    match serde_json::from_str::<std::collections::HashMap<String, String>>(raw) {
        Ok(map) => Some(map.into_iter().collect()),
        Err(_) => None,
    }
}

/// The session-data entry holding when the session expires, as Unix seconds.
///
/// `auth-web` writes the session store and its format does not pin down how expiry is
/// recorded. This library assumes that format: an entry under this name holding whole Unix
/// seconds, where an entry that is present but not such a number counts as expired.
pub const SESSION_EXPIRY_KEY: &'static str = "expires_at";

/// Whether session data `m` has expired at Unix time `now`: its expiry entry is at or before
/// `now`, or is not a number. Data without an expiry entry does not expire. The entry's name,
/// its unit (Unix seconds) and reading an unreadable entry as expired are this library's
/// assumption about `auth-web`'s session format (see [`SESSION_EXPIRY_KEY`]).
pub open spec fn session_expired(m: Map<Seq<char>, Seq<char>>, now: u64) -> bool {
    m.contains_key(SESSION_EXPIRY_KEY@) && match parse_u64_spec(m[SESSION_EXPIRY_KEY@]) {
        Some(expires_at) => expires_at <= now,
        None => true,
    }
}

/// The `"user"` entry of stored session data at Unix time `now`, if the data is a JSON object
/// of strings with such an entry and has not expired.
pub open spec fn stored_user_json(raw: Seq<char>, now: u64) -> Option<Seq<char>> {
    match json_string_map(raw) {
        Some(m) => if m.contains_key("user"@) && !session_expired(m, now) {
            Some(m["user"@])
        } else {
            None
        },
        None => None,
    }
}

/// The index of the pair with key `key`, if any.
fn find_pair(pairs: &Vec<(String, String)>, key: &str, Ghost(m): Ghost<Map<Seq<char>, Seq<char>>>) -> (res: Option<usize>)
    requires
        pairs_describe(pairs@, m),
    ensures
        match res {
            Some(i) => i < pairs@.len() && pairs@[i as int].0@ == key@ && m.contains_key(key@)
                && m[key@] == pairs@[i as int].1@,
            None => !m.contains_key(key@),
        },
{
    let mut i: usize = 0;
    while i < pairs.len()
        invariant
            i <= pairs@.len(),
            pairs_describe(pairs@, m),
            forall|j: int| 0 <= j < i ==> pairs@[j].0@ != key@,
        decreases pairs.len() - i,
    {
        if str_eq(pairs[i].0.as_str(), key) {
            proof {
                assert(m.contains_key(pairs@[i as int].0@));
            }
            return Some(i);
        }
        i = i + 1;
    }
    proof {
        if m.contains_key(key@) {
            let j = choose|j: int| 0 <= j < pairs@.len() && #[trigger] pairs@[j].0@ == key@;
            assert(pairs@[j].0@ == key@);
        }
    }
    None
}

/// Extracts the JSON-encoded user from the session data stored in Redis (a flat JSON object
/// of strings), at Unix time `now_secs`. Malformed data, a missing `user` entry, or an expiry
/// entry at or before `now_secs` (or unreadable) reads as no session.
pub fn session_user_json(raw: &str, now_secs: u64) -> (res: Option<String>)
    ensures
        match res {
            Some(u) => stored_user_json(raw@, now_secs) == Some(u@),
            None => stored_user_json(raw@, now_secs) is None,
        },
{
    let pairs = match parse_string_map(raw) {
        Some(p) => p,
        None => {
            return None;
        },
    };
    let ghost m = json_string_map(raw@)->0;
    let user = match find_pair(&pairs, "user", Ghost(m)) {
        Some(i) => i,
        None => {
            return None;
        },
    };
    match find_pair(&pairs, SESSION_EXPIRY_KEY, Ghost(m)) {
        Some(i) => {
            match parse_u64(pairs[i].1.as_str()) {
                Some(expires_at) => {
                    if expires_at <= now_secs {
                        return None;
                    }
                },
                None => {
                    return None;
                },
            }
        },
        None => {},
    }
    Some(pairs[user].1.clone())
}

/// Once its expiry time has passed, a session reads as logged-out, whatever else it holds.
pub proof fn lemma_expired_session_reads_logged_out(raw: Seq<char>, now: u64)
    requires
        json_string_map(raw) matches Some(m) && session_expired(m, now),
    ensures
        stored_user_json(raw, now) is None,
{
}

/// An expired session stays expired as time goes on.
pub proof fn lemma_expiry_is_permanent(m: Map<Seq<char>, Seq<char>>, now: u64, later: u64)
    requires
        session_expired(m, now),
        now <= later,
    ensures
        session_expired(m, later),
{
}

} // verus!
