//! The interactive console: reading a line, and what to show of an answer.

use vstd::prelude::*;
use vstd::string::*;

use crate::json::JsonValue;
use crate::text::str_equals;

verus! {

/// Whether `c` has the Unicode `White_Space` property, the whitespace that
/// `str::trim` removes.
pub open spec fn is_white_space(c: char) -> bool {
    let v: u32 = c as u32;
    ||| 0x9 <= v <= 0xd
    ||| v == 0x20
    ||| v == 0x85
    ||| v == 0xa0
    ||| v == 0x1680
    ||| 0x2000 <= v <= 0x200a
    ||| v == 0x2028
    ||| v == 0x2029
    ||| v == 0x202f
    ||| v == 0x205f
    ||| v == 0x3000
}

/// `s` without its leading whitespace.
pub open spec fn trim_start(s: Seq<char>) -> Seq<char>
    decreases s.len(),
{
    if s.len() > 0 && is_white_space(s[0]) {
        trim_start(s.drop_first())
    } else {
        s
    }
}

/// `s` without its trailing whitespace.
pub open spec fn trim_end(s: Seq<char>) -> Seq<char>
    decreases s.len(),
{
    if s.len() > 0 && is_white_space(s.last()) {
        trim_end(s.drop_last())
    } else {
        s
    }
}

/// `s` without its leading and trailing whitespace.
pub open spec fn trim(s: Seq<char>) -> Seq<char> {
    trim_end(trim_start(s))
}

proof fn trim_start_skips(s: Seq<char>) -> (a: int)
    ensures
        0 <= a <= s.len(),
        trim_start(s) == s.skip(a),
        forall|k: int| 0 <= k < a ==> is_white_space(#[trigger] s[k]),
        a < s.len() ==> !is_white_space(s[a]),
    decreases s.len(),
{
    if s.len() > 0 && is_white_space(s[0]) {
        let b = trim_start_skips(s.drop_first());
        assert(s.drop_first().skip(b) =~= s.skip(b + 1));
        assert forall|k: int| 0 <= k < b + 1 implies is_white_space(#[trigger] s[k]) by {
            if k > 0 {
                assert(s[k] == s.drop_first()[k - 1]);
            }
        }
        if b + 1 < s.len() {
            assert(s[b + 1] == s.drop_first()[b]);
        }
        b + 1
    } else {
        assert(s.skip(0) =~= s);
        0
    }
}

proof fn trim_end_takes(s: Seq<char>) -> (b: int)
    ensures
        0 <= b <= s.len(),
        trim_end(s) == s.take(b),
        forall|k: int| b <= k < s.len() ==> is_white_space(#[trigger] s[k]),
        b > 0 ==> !is_white_space(s[b - 1]),
    decreases s.len(),
{
    if s.len() > 0 && is_white_space(s.last()) {
        let b = trim_end_takes(s.drop_last());
        assert(s.drop_last().take(b) =~= s.take(b));
        assert forall|k: int| b <= k < s.len() implies is_white_space(#[trigger] s[k]) by {
            if k < s.len() - 1 {
                assert(s[k] == s.drop_last()[k]);
            }
        }
        if b > 0 {
            assert(s[b - 1] == s.drop_last()[b - 1]);
        }
        b
    } else {
        assert(s.take(s.len() as int) =~= s);
        s.len() as int
    }
}

/// Trimming removes only whitespace, and only at the ends: the trimmed text
/// is a contiguous part of `s`, every character removed before or after it
/// is whitespace, and when it is not empty it neither begins nor ends with
/// whitespace.
pub proof fn trim_removes_only_outer_whitespace(s: Seq<char>)
    ensures
        exists|a: int, b: int|
            {
                &&& 0 <= a <= b <= s.len()
                &&& trim(s) == s.subrange(a, b)
                &&& forall|k: int| 0 <= k < a ==> is_white_space(#[trigger] s[k])
                &&& forall|k: int| b <= k < s.len() ==> is_white_space(#[trigger] s[k])
                &&& a < b ==> !is_white_space(s[a]) && !is_white_space(s[b - 1])
            },
{
    let a = trim_start_skips(s);
    let rest = s.skip(a);
    let c = trim_end_takes(rest);
    assert(rest.take(c) =~= s.subrange(a, a + c));
    assert forall|k: int| a + c <= k < s.len() implies is_white_space(#[trigger] s[k]) by {
        assert(s[k] == rest[k - a]);
    }
    if c > 0 {
        assert(s[a] == rest[0]);
        assert(s[a + c - 1] == rest[c - 1]);
    }
    assert(trim(s) == s.subrange(a, a + c));
}

/// A line that neither begins nor ends with whitespace is left as it is.
pub proof fn trim_keeps_unpadded_text(s: Seq<char>)
    requires
        s.len() > 0 ==> !is_white_space(s[0]) && !is_white_space(s.last()),
    ensures
        trim(s) == s,
{
    assert(trim_start(s) == s);
    assert(trim_end(s) == s);
}

/// No printable ASCII character (letters, digits, punctuation, quotes) is
/// whitespace, while the ASCII space, tab, line feed and carriage return are.
pub proof fn printable_ascii_is_not_white_space(c: char)
    ensures
        0x21 <= c as u32 <= 0x7e ==> !is_white_space(c),
        c == ' ' || c == '\t' || c == '\n' || c == '\r' ==> is_white_space(c),
{
}

/// Whether `c` is whitespace.
pub fn white_space(c: char) -> (res: bool)
    ensures
        res == is_white_space(c),
{
    let v: u32 = c as u32;
    (0x9 <= v && v <= 0xd) || v == 0x20 || v == 0x85 || v == 0xa0 || v == 0x1680 || (0x2000
        <= v && v <= 0x200a) || v == 0x2028 || v == 0x2029 || v == 0x202f || v == 0x205f || v
        == 0x3000
}

/// `s` without its leading and trailing whitespace.
pub fn trim_line(s: &str) -> (res: &str)
    ensures
        res@ == trim(s@),
{
    let n: usize = s.unicode_len();
    let mut i: usize = 0;
    assert(s@.subrange(0, n as int) =~= s@);
    while i < n && white_space(s.get_char(i))
        invariant
            n == s@.len(),
            i <= n,
            trim_start(s@) == trim_start(s@.subrange(i as int, n as int)),
        decreases n - i,
    {
        assert(s@.subrange(i as int, n as int).drop_first() =~= s@.subrange(i + 1, n as int));
        i = i + 1;
    }
    let mut j: usize = n;
    assert(s@.subrange(i as int, n as int) =~= s@.subrange(i as int, j as int));
    while j > i && white_space(s.get_char(j - 1))
        invariant
            n == s@.len(),
            i <= j <= n,
            trim(s@) == trim_end(s@.subrange(i as int, j as int)),
        decreases j,
    {
        assert(s@.subrange(i as int, j as int).drop_last() =~= s@.subrange(i as int, j - 1));
        j = j - 1;
    }
    s.substring_char(i, j)
}

/// What the console does with a line that was read.
#[derive(Debug, PartialEq)]
pub enum ConsoleCommand {
    /// Leave the console.
    Exit,
    /// Evaluate this expression.
    Evaluate(String),
}

/// The console's reading of a line: once trimmed, an empty line or "exit"
/// ends the session; anything else is an expression to evaluate.
pub fn console_command(line: &str) -> (res: ConsoleCommand)
    ensures
        (trim(line@).len() == 0 || trim(line@) == "exit"@) <==> res is Exit,
        res matches ConsoleCommand::Evaluate(e) ==> e@ == trim(line@),
{
    let t = trim_line(line);
    if t.is_empty() || str_equals(t, "exit") {
        ConsoleCommand::Exit
    } else {
        ConsoleCommand::Evaluate(t.to_owned())
    }
}

/// What the console shows of an evaluation's outcome `v`: the `value` of
/// its `result` when there is one; `None` means that `v` itself is shown.
pub fn console_output(v: &JsonValue) -> (res: Option<&JsonValue>)
    ensures
        match res {
            Some(shown) => v.field("result"@) matches Some(r) && r.field("value"@) == Some(*shown),
            None => !(v.field("result"@) matches Some(r) && r.field("value"@) is Some),
        },
{
    match v.get("result") {
        Some(r) => r.get("value"),
        None => None,
    }
}

} // verus!
