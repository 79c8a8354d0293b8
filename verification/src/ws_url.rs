//! WebSocket URLs that are already in the form the URL Standard serializes
//! them to, so that parsing them gives them back unchanged.

use vstd::prelude::*;
use vstd::string::*;

use crate::text::{is_digit, str_equals};

verus! {

/// The length of the `ws://` or `wss://` prefix of `s`, or 0 without one.
pub open spec fn scheme_len(s: Seq<char>) -> int {
    if s.len() >= 5 && s[0] == 'w' && s[1] == 's' && s[2] == ':' && s[3] == '/' && s[4] == '/' {
        5
    } else if s.len() >= 6 && s[0] == 'w' && s[1] == 's' && s[2] == 's' && s[3] == ':' && s[4]
        == '/' && s[5] == '/' {
        6
    } else {
        0
    }
}

/// Whether `h` names this machine as a debugger target's URL does.
pub open spec fn is_loopback_host(h: Seq<char>) -> bool {
    h == "localhost"@ || h == "127.0.0.1"@
}

/// Where the run of digits that starts at `i` ends.
pub open spec fn digits_end(s: Seq<char>, i: int) -> int
    decreases s.len() - i,
{
    if 0 <= i < s.len() && is_digit(s[i]) {
        digits_end(s, i + 1)
    } else {
        i
    }
}

/// Whether `p` is a port written as serialized: one to four digits, no
/// leading zero, and not the scheme's default port (80, or 443 for `wss`).
pub open spec fn is_plain_port(p: Seq<char>, secure: bool) -> bool {
    &&& 1 <= p.len() <= 4
    &&& forall|i: int| 0 <= i < p.len() ==> is_digit(#[trigger] p[i])
    &&& p[0] != '0'
    &&& !(!secure && p.len() == 2 && p[0] == '8' && p[1] == '0')
    &&& !(secure && p.len() == 3 && p[0] == '4' && p[1] == '4' && p[2] == '3')
}

/// Whether `c` may stand in a path as it is: a letter, a digit, `-`, `.`,
/// `_`, `~` or `/`.
pub open spec fn is_path_char(c: char) -> bool {
    ||| 'a' <= c <= 'z'
    ||| 'A' <= c <= 'Z'
    ||| '0' <= c <= '9'
    ||| c == '-' || c == '.' || c == '_' || c == '~' || c == '/'
}

/// Whether the path segment that starts at `i` is `.` or `..`.
pub open spec fn dot_segment_at(p: Seq<char>, i: int) -> bool {
    ||| (0 <= i < p.len() && p[i] == '.' && (i + 1 == p.len() || p[i + 1] == '/'))
    ||| (0 <= i && i + 1 < p.len() && p[i] == '.' && p[i + 1] == '.' && (i + 2 == p.len() || p[i
        + 2] == '/'))
}

/// Whether `p` is a path written as serialized: it begins with `/`, holds
/// only path characters, and has no `.` or `..` segment.
pub open spec fn is_plain_path(p: Seq<char>) -> bool {
    &&& p.len() > 0
    &&& p[0] == '/'
    &&& forall|i: int| 0 <= i < p.len() ==> is_path_char(#[trigger] p[i])
    &&& forall|i: int| 0 <= i < p.len() && #[trigger] p[i] == '/' ==> !dot_segment_at(p, i + 1)
}

/// Whether `s` is a `ws` or `wss` URL to `localhost` or `127.0.0.1`,
/// with an optional port and a path, and nothing else, all written as the
/// URL Standard serializes them.
pub open spec fn is_plain_ws_url(s: Seq<char>) -> bool {
    let sl = scheme_len(s);
    let h = sl + 9;
    &&& sl > 0
    &&& s.len() > h
    &&& is_loopback_host(s.subrange(sl, h))
    &&& if s[h] == '/' {
        is_plain_path(s.skip(h))
    } else {
        let e = digits_end(s, h + 1);
        &&& s[h] == ':'
        &&& is_plain_port(s.subrange(h + 1, e), sl == 6)
        &&& e < s.len()
        &&& is_plain_path(s.skip(e))
    }
}

proof fn digits_end_at(s: Seq<char>, i: int, j: int)
    requires
        0 <= i <= j <= s.len(),
        forall|k: int| i <= k < j ==> is_digit(#[trigger] s[k]),
        j < s.len() ==> !is_digit(s[j]),
    ensures
        digits_end(s, i) == j,
    decreases j - i,
{
    if i < j {
        digits_end_at(s, i + 1, j);
    }
}

/// Every `ws` URL that a debugger on this machine hands out, as
/// `ws://localhost:PORT/PATH` or `ws://127.0.0.1:PORT/PATH` with a port of
/// one to four digits other than 80 and a path of letters, digits, `-`,
/// `_`, `~` and `/`, is in serialized form, whatever the case of its path.
pub proof fn debugger_urls_are_plain(port: Seq<char>, path: Seq<char>)
    requires
        1 <= port.len() <= 4,
        forall|i: int| 0 <= i < port.len() ==> is_digit(#[trigger] port[i]),
        port[0] != '0',
        port != "80"@,
        path.len() > 0,
        path[0] == '/',
        forall|i: int| 0 <= i < path.len() ==> #[trigger] path[i] != '.' && is_path_char(path[i]),
    ensures
        is_plain_ws_url("ws://localhost:"@ + port + path),
        is_plain_ws_url("ws://127.0.0.1:"@ + port + path),
{
    reveal_strlit("ws://localhost:");
    reveal_strlit("ws://127.0.0.1:");
    reveal_strlit("localhost");
    reveal_strlit("127.0.0.1");
    reveal_strlit("80");
    assert(!(port.len() == 2 && port[0] == '8' && port[1] == '0')) by {
        if port.len() == 2 && port[0] == '8' && port[1] == '0' {
            assert(port =~= "80"@);
        }
    }
    let a = "ws://localhost:"@ + port + path;
    let b = "ws://127.0.0.1:"@ + port + path;
    assert(a.subrange(5, 14) =~= "localhost"@);
    assert(b.subrange(5, 14) =~= "127.0.0.1"@);
    let e: int = 15 + port.len() as int;
    assert forall|k: int| 15 <= k < e implies is_digit(#[trigger] a[k]) && is_digit(b[k]) by {
        assert(a[k] == port[k - 15]);
        assert(b[k] == port[k - 15]);
    }
    assert(a[e] == path[0]);
    assert(b[e] == path[0]);
    digits_end_at(a, 15, e);
    digits_end_at(b, 15, e);
    assert(a.subrange(15, e) =~= port);
    assert(b.subrange(15, e) =~= port);
    assert(a.skip(e) =~= path);
    assert(b.skip(e) =~= path);
}

fn scheme_length(s: &str, n: usize) -> (res: usize)
    requires
        n == s@.len(),
    ensures
        res == scheme_len(s@),
{
    if n >= 5 && s.get_char(0) == 'w' && s.get_char(1) == 's' && s.get_char(2) == ':'
        && s.get_char(3) == '/' && s.get_char(4) == '/' {
        5
    } else if n >= 6 && s.get_char(0) == 'w' && s.get_char(1) == 's' && s.get_char(2) == 's'
        && s.get_char(3) == ':' && s.get_char(4) == '/' && s.get_char(5) == '/' {
        6
    } else {
        0
    }
}

fn digit(c: char) -> (res: bool)
    ensures
        res == is_digit(c),
{
    '0' <= c && c <= '9'
}

fn path_char(c: char) -> (res: bool)
    ensures
        res == is_path_char(c),
{
    ('a' <= c && c <= 'z') || ('A' <= c && c <= 'Z') || ('0' <= c && c <= '9') || c == '-' || c
        == '.' || c == '_' || c == '~' || c == '/'
}

fn plain_path(s: &str, e: usize, n: usize) -> (res: bool)
    requires
        n == s@.len(),
        e <= n,
    ensures
        res == is_plain_path(s@.skip(e as int)),
{
    let ghost p = s@.skip(e as int);
    if e >= n || s.get_char(e) != '/' {
        return false;
    }
    let mut k: usize = e;
    while k < n
        invariant
            n == s@.len(),
            e <= k <= n,
            p == s@.skip(e as int),
            p.len() > 0,
            p[0] == '/',
            forall|i: int| 0 <= i < k - e ==> is_path_char(#[trigger] p[i]),
            forall|i: int| 0 <= i < k - e && #[trigger] p[i] == '/' ==> !dot_segment_at(p, i + 1),
        decreases n - k,
    {
        let c = s.get_char(k);
        assert(c == p[k - e]);
        if !path_char(c) {
            return false;
        }
        if c == '/' {
            let rest: usize = n - k;
            let one = rest > 1 && s.get_char(k + 1) == '.' && (rest == 2 || s.get_char(k + 2)
                == '/');
            let two = rest > 2 && s.get_char(k + 1) == '.' && s.get_char(k + 2) == '.' && (rest
                == 3 || s.get_char(k + 3) == '/');
            assert(one == (0 <= k - e + 1 < p.len() && p[k - e + 1] == '.' && (k - e + 2 == p.len()
                || p[k - e + 2] == '/')));
            assert(two == (0 <= k - e + 1 && k - e + 2 < p.len() && p[k - e + 1] == '.' && p[k - e
                + 2] == '.' && (k - e + 3 == p.len() || p[k - e + 3] == '/')));
            if one || two {
                assert(p[k - e] == '/' && dot_segment_at(p, k - e + 1));
                return false;
            }
        }
        k = k + 1;
    }
    true
}

/// Whether `s` is a `ws` or `wss` URL to this machine already written in
/// serialized form.
pub fn plain_ws_url(s: &str) -> (res: bool)
    ensures
        res == is_plain_ws_url(s@),
{
    let n: usize = s.unicode_len();
    let sl: usize = scheme_length(s, n);
    if sl == 0 || n <= sl + 9 {
        return false;
    }
    let h: usize = sl + 9;
    let host = s.substring_char(sl, h);
    if !(str_equals(host, "localhost") || str_equals(host, "127.0.0.1")) {
        return false;
    }
    let c = s.get_char(h);
    if c == '/' {
        return plain_path(s, h, n);
    }
    if c != ':' {
        return false;
    }
    let mut e: usize = h + 1;
    while e < n && digit(s.get_char(e))
        invariant
            n == s@.len(),
            h + 1 <= e <= n,
            digits_end(s@, h + 1) == digits_end(s@, e as int),
            forall|i: int| h + 1 <= i < e ==> is_digit(#[trigger] s@[i]),
        decreases n - e,
    {
        e = e + 1;
    }
    let ghost port = s@.subrange(h + 1, e as int);
    assert forall|i: int| 0 <= i < port.len() implies is_digit(#[trigger] port[i]) by {
        assert(port[i] == s@[h + 1 + i]);
    }
    let len: usize = e - (h + 1);
    if len < 1 || len > 4 || s.get_char(h + 1) == '0' {
        return false;
    }
    if sl == 5 && len == 2 && s.get_char(h + 1) == '8' && s.get_char(h + 2) == '0' {
        return false;
    }
    if sl == 6 && len == 3 && s.get_char(h + 1) == '4' && s.get_char(h + 2) == '4' && s.get_char(
        h + 3,
    ) == '3' {
        return false;
    }
    if e >= n {
        return false;
    }
    plain_path(s, e, n)
}

} // verus!
