//! The session check in front of the handlers, and the reading of the session cookie.

use vstd::prelude::*;

use crate::auth::{is_session_id, is_alphanumeric_ascii};
use crate::session::{fresh, SessionRegistry, SESSION_COOKIE};

verus! {

/// A character that `str::trim` removes: the Unicode `White_Space` property.
pub open spec fn is_white_space(c: char) -> bool {
    let u = c as u32;
    (0x9 <= u <= 0xd) || u == 0x20 || u == 0x85 || u == 0xa0 || u == 0x1680 || (0x2000 <= u
        <= 0x200a) || u == 0x2028 || u == 0x2029 || u == 0x202f || u == 0x205f || u == 0x3000
}

/// The first index in `[from, to)` that holds `c`, or `to`.
pub open spec fn index_of(s: Seq<char>, c: char, from: int, to: int) -> int
    decreases to - from,
{
    if from >= to {
        to
    } else if s[from] == c {
        from
    } else {
        index_of(s, c, from + 1, to)
    }
}

/// Start of `s[lo..hi]` once leading white space is removed.
pub open spec fn trim_start(s: Seq<char>, lo: int, hi: int) -> int
    decreases hi - lo,
{
    if lo < hi && is_white_space(s[lo]) {
        trim_start(s, lo + 1, hi)
    } else {
        lo
    }
}

/// End of `s[lo..hi]` once trailing white space is removed.
pub open spec fn trim_end(s: Seq<char>, lo: int, hi: int) -> int
    decreases hi - lo,
{
    if lo < hi && is_white_space(s[hi - 1]) {
        trim_end(s, lo, hi - 1)
    } else {
        hi
    }
}

/// The session cookie's value in the `;`-separated pairs of `s` from `start` on: the part
/// after the first `=` of the first trimmed pair whose name is the session cookie's.
pub open spec fn cookie_from(s: Seq<char>, start: int) -> Option<Seq<char>>
    decreases s.len() - start,
{
    if start < 0 || start > s.len() {
        None
    } else {
        let end = index_of(s, ';', start, s.len() as int);
        let lo = trim_start(s, start, end);
        let hi = trim_end(s, lo, end);
        let eq = index_of(s, '=', lo, hi);
        if eq < hi && s.subrange(lo, eq) == SESSION_COOKIE@ {
            Some(s.subrange(eq + 1, hi))
        } else if start <= end && end < s.len() {
            cookie_from(s, end + 1)
        } else {
            None
        }
    }
}

/// The session id that a `Cookie` header carries, if any.
pub open spec fn session_cookie_spec(header: Seq<char>) -> Option<Seq<char>> {
    cookie_from(header, 0)
}

fn index_of_exec(s: &str, c: char, from: usize, to: usize) -> (r: usize)
    requires
        from <= to <= s@.len(),
    ensures
        r == index_of(s@, c, from as int, to as int),
        from <= r <= to,
{
    let mut i = from;
    while i < to
        invariant
            from <= i <= to,
            to <= s@.len(),
            index_of(s@, c, from as int, to as int) == index_of(s@, c, i as int, to as int),
        decreases to - i,
    {
        if s.get_char(i) == c {
            return i;
        }
        i = i + 1;
    }
    i
}

fn is_white_space_exec(c: char) -> (r: bool)
    ensures
        r == is_white_space(c),
{
    let u = c as u32;
    (0x9 <= u && u <= 0xd) || u == 0x20 || u == 0x85 || u == 0xa0 || u == 0x1680 || (0x2000 <= u
        && u <= 0x200a) || u == 0x2028 || u == 0x2029 || u == 0x202f || u == 0x205f || u
        == 0x3000
}

fn trim_start_exec(s: &str, lo: usize, hi: usize) -> (r: usize)
    requires
        lo <= hi <= s@.len(),
    ensures
        r == trim_start(s@, lo as int, hi as int),
        lo <= r <= hi,
{
    let mut i = lo;
    while i < hi && is_white_space_exec(s.get_char(i))
        invariant
            lo <= i <= hi,
            hi <= s@.len(),
            trim_start(s@, lo as int, hi as int) == trim_start(s@, i as int, hi as int),
        decreases hi - i,
    {
        i = i + 1;
    }
    i
}

fn trim_end_exec(s: &str, lo: usize, hi: usize) -> (r: usize)
    requires
        lo <= hi <= s@.len(),
    ensures
        r == trim_end(s@, lo as int, hi as int),
        lo <= r <= hi,
{
    let mut j = hi;
    while j > lo && is_white_space_exec(s.get_char(j - 1))
        invariant
            lo <= j <= hi,
            hi <= s@.len(),
            trim_end(s@, lo as int, hi as int) == trim_end(s@, lo as int, j as int),
        decreases j - lo,
    {
        j = j - 1;
    }
    j
}

/// The session id in a `Cookie` header: the value of the first pair named after the
/// session cookie, pairs being separated by `;` and trimmed of white space.
pub fn session_cookie(header: &str) -> (r: Option<String>)
    ensures
        match r {
            Some(v) => session_cookie_spec(header@) == Some(v@),
            None => session_cookie_spec(header@) is None,
        },
{
    let n = header.unicode_len();
    let name = String::from_str(SESSION_COOKIE);
    let mut start: usize = 0;
    while start <= n
        invariant
            n == header@.len(),
            name@ == SESSION_COOKIE@,
            start <= n,
            session_cookie_spec(header@) == cookie_from(header@, start as int),
        decreases n - start,
    {
        let end = index_of_exec(header, ';', start, n);
        let lo = trim_start_exec(header, start, end);
        let hi = trim_end_exec(header, lo, end);
        let eq = index_of_exec(header, '=', lo, hi);
        if eq < hi {
            let key = String::from_str(header.substring_char(lo, eq));
            if key == name {
                return Some(String::from_str(header.substring_char(eq + 1, hi)));
            }
        }
        if end < n {
            start = end + 1;
        } else {
            return None;
        }
    }
    None
}

/// The request methods that the session check tells apart.
#[derive(Clone, Copy, Debug, PartialEq, Eq, Structural)]
pub enum HttpMethod {
    Get,
    Head,
    Options,
    Post,
    Put,
    Patch,
    Delete,
    Other,
}

/// What the session gate does with a request.
#[derive(Clone, Copy, Debug, PartialEq, Eq, Structural)]
pub enum GateDecision {
    /// Pass the request on to its handler.
    Allow,
    /// Refuse it: no session cookie.
    MissingCookie,
    /// Refuse it: the cookie names no valid session.
    InvalidSession,
}

impl GateDecision {
    /// The status of the refusal; `None` where the request passes.
    pub fn status(&self) -> (r: Option<u16>)
        ensures
            r == match self {
                GateDecision::Allow => None,
                _ => Some(401u16),
            },
    {
        match self {
            GateDecision::Allow => None,
            _ => Some(401),
        }
    }

    /// The body of the refusal; empty where the request passes.
    pub fn message(&self) -> (r: String)
        ensures
            r@ == match self {
                GateDecision::Allow => Seq::<char>::empty(),
                GateDecision::MissingCookie => "Missing auth cookie"@,
                GateDecision::InvalidSession => "Invalid session"@,
            },
    {
        match self {
            GateDecision::Allow => String::new(),
            GateDecision::MissingCookie => String::from_str("Missing auth cookie"),
            GateDecision::InvalidSession => String::from_str("Invalid session"),
        }
    }
}

/// Paths that take no session: the health check and the login.
pub open spec fn is_public_path(path: Seq<char>) -> bool {
    path == "/health"@ || path == "/auth"@
}

/// Methods that read only.
pub open spec fn is_safe_method(m: HttpMethod) -> bool {
    m == HttpMethod::Get || m == HttpMethod::Options
}

/// The decision of the session check for a request, given the sessions and their policy at `now`.
pub open spec fn gate_spec(
    method: HttpMethod,
    path: Seq<char>,
    cookie_header: Option<Seq<char>>,
    sessions: Map<Seq<char>, u64>,
    max_age: Option<u64>,
    now: u64,
) -> GateDecision {
    if is_safe_method(method) || is_public_path(path) {
        GateDecision::Allow
    } else {
        match cookie_header {
            None => GateDecision::MissingCookie,
            Some(h) => match session_cookie_spec(h) {
                None => GateDecision::MissingCookie,
                Some(id) => if sessions.contains_key(id) && fresh(sessions[id], now, max_age) {
                    GateDecision::Allow
                } else {
                    GateDecision::InvalidSession
                },
            },
        }
    }
}

pub open spec fn opt_view(o: Option<&str>) -> Option<Seq<char>> {
    match o {
        Some(s) => Some(s@),
        None => None,
    }
}

/// Decides whether a request may reach its handler: reads and the public paths always
/// pass; anything else needs the cookie of a session that is valid at `now`.
pub fn check_request(
    method: HttpMethod,
    path: &str,
    cookie_header: Option<&str>,
    sessions: &SessionRegistry,
    now: u64,
) -> (r: GateDecision)
    requires
        sessions.wf(),
    ensures
        r == gate_spec(method, path@, opt_view(cookie_header), sessions@, sessions.max_age_spec(), now),
{
    if method == HttpMethod::Get || method == HttpMethod::Options {
        return GateDecision::Allow;
    }
    let p = String::from_str(path);
    if p == String::from_str("/health") || p == String::from_str("/auth") {
        return GateDecision::Allow;
    }
    let id = match cookie_header {
        None => return GateDecision::MissingCookie,
        Some(h) => match session_cookie(h) {
            None => return GateDecision::MissingCookie,
            Some(id) => id,
        },
    };
    if sessions.is_valid(id.as_str(), now) {
        GateDecision::Allow
    } else {
        GateDecision::InvalidSession
    }
}

proof fn lemma_index_of_absent(s: Seq<char>, c: char, from: int, to: int)
    requires
        0 <= from <= to <= s.len(),
        forall|i: int| from <= i < to ==> s[i] != c,
    ensures
        index_of(s, c, from, to) == to,
    decreases to - from,
{
    if from < to {
        lemma_index_of_absent(s, c, from + 1, to);
    }
}

proof fn lemma_index_of_first(s: Seq<char>, c: char, from: int, to: int, k: int)
    requires
        0 <= from <= k < to <= s.len(),
        s[k] == c,
        forall|i: int| from <= i < k ==> s[i] != c,
    ensures
        index_of(s, c, from, to) == k,
    decreases k - from,
{
    if from < k {
        lemma_index_of_first(s, c, from + 1, to, k);
    }
}

/// The `Cookie` header that a client sends back after a login: the session pair alone.
pub open spec fn cookie_header_for(id: Seq<char>) -> Seq<char> {
    SESSION_COOKIE@ + "="@ + id
}

/// The cookie of a minted session id reads back as that id.
pub proof fn lemma_cookie_round_trip(id: Seq<char>)
    requires
        is_session_id(id),
    ensures
        session_cookie_spec(cookie_header_for(id)) == Some(id),
{
    reveal_strlit("katastr_session");
    reveal_strlit("=");
    let s = cookie_header_for(id);
    let name = SESSION_COOKIE@;
    assert(name.len() == 15);
    let n = s.len() as int;
    assert(n == 16 + id.len());
    assert forall|i: int| 0 <= i < n implies s[i] != ';' by {
        if i >= 16 {
            assert(s[i] == id[i - 16]);
            assert(is_alphanumeric_ascii(id[i - 16]));
        }
    }
    lemma_index_of_absent(s, ';', 0, n);
    assert(s[0] == 'k');
    assert(!is_white_space(s[0]));
    assert(s[n - 1] == id[id.len() - 1]);
    assert(is_alphanumeric_ascii(id[id.len() - 1]));
    assert(!is_white_space(s[n - 1]));
    assert(trim_start(s, 0, n) == 0);
    assert(trim_end(s, 0, n) == n);
    assert(s[15] == '=');
    assert forall|i: int| 0 <= i < 15 implies s[i] != '=' by {
        assert(s[i] == name[i]);
    }
    lemma_index_of_first(s, '=', 0, n, 15);
    assert(s.subrange(0, 15) =~= name);
    assert(s.subrange(16, n) =~= id);
}

/// The session gate: a read passes without a cookie; a write without a cookie is refused
/// for want of it; a write that carries the cookie of a session recorded at `now` passes.
pub proof fn lemma_gate_sessions(
    path: Seq<char>,
    sessions: Map<Seq<char>, u64>,
    max_age: Option<u64>,
    id: Seq<char>,
    now: u64,
)
    requires
        !is_public_path(path),
        is_session_id(id),
    ensures
        gate_spec(HttpMethod::Get, path, None, sessions, max_age, now) == GateDecision::Allow,
        gate_spec(HttpMethod::Post, path, None, sessions, max_age, now)
            == GateDecision::MissingCookie,
        gate_spec(
            HttpMethod::Post,
            path,
            Some(cookie_header_for(id)),
            sessions.insert(id, now),
            max_age,
            now,
        ) == GateDecision::Allow,
{
    lemma_cookie_round_trip(id);
}

} // verus!
