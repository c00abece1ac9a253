//! Character-level text helpers the domain model is specified with:
//! trimming of leading and trailing white space, and decimal rendering
//! of numbers for diagnostic messages.

use vstd::prelude::*;

verus! {

/// The Unicode `White_Space` characters, the set `char::is_whitespace`
/// recognises and the one name validation trims away.
pub open spec fn is_whitespace_char(c: char) -> bool {
    let u = c as u32;
    ||| u == 0x09
    ||| u == 0x0A
    ||| u == 0x0B
    ||| u == 0x0C
    ||| u == 0x0D
    ||| u == 0x20
    ||| u == 0x85
    ||| u == 0xA0
    ||| u == 0x1680
    ||| (0x2000 <= u && u <= 0x200A)
    ||| u == 0x2028
    ||| u == 0x2029
    ||| u == 0x202F
    ||| u == 0x205F
    ||| u == 0x3000
}

/// Decides `is_whitespace_char`.
pub fn is_whitespace(c: char) -> (r: bool)
    ensures
        r == is_whitespace_char(c),
{
    let u = c as u32;
    u == 0x09 || u == 0x0A || u == 0x0B || u == 0x0C || u == 0x0D || u == 0x20 || u == 0x85
        || u == 0xA0 || u == 0x1680 || (0x2000 <= u && u <= 0x200A) || u == 0x2028 || u == 0x2029
        || u == 0x202F || u == 0x205F || u == 0x3000
}

/// Length of the run of white space at the front of `s`.
pub open spec fn leading_ws(s: Seq<char>) -> int
    decreases s.len(),
{
    if s.len() == 0 || !is_whitespace_char(s[0]) {
        0
    } else {
        1 + leading_ws(s.subrange(1, s.len() as int))
    }
}

/// Length of the run of white space at the back of `s`.
pub open spec fn trailing_ws(s: Seq<char>) -> int
    decreases s.len(),
{
    if s.len() == 0 || !is_whitespace_char(s[s.len() - 1]) {
        0
    } else {
        1 + trailing_ws(s.subrange(0, s.len() - 1))
    }
}

/// `s` with leading and trailing white space removed: the meaning of
/// `trim` on which the name invariant rests.
pub open spec fn trim_spec(s: Seq<char>) -> Seq<char> {
    let rest = s.subrange(leading_ws(s), s.len() as int);
    rest.subrange(0, rest.len() - trailing_ws(rest))
}

/// `leading_ws` is the unique cut `i`: white space before it, none at it.
pub proof fn lemma_leading_ws_is(s: Seq<char>, i: int)
    requires
        0 <= i <= s.len(),
        forall|j: int| 0 <= j < i ==> is_whitespace_char(s[j]),
        i < s.len() ==> !is_whitespace_char(s[i]),
    ensures
        leading_ws(s) == i,
    decreases i,
{
    if i == 0 {
    } else {
        let t = s.subrange(1, s.len() as int);
        assert(is_whitespace_char(s[0]));
        assert forall|j: int| 0 <= j < i - 1 implies is_whitespace_char(t[j]) by {
            assert(t[j] == s[j + 1]);
        }
        if i - 1 < t.len() {
            assert(t[i - 1] == s[i]);
        }
        lemma_leading_ws_is(t, i - 1);
    }
}

/// `trailing_ws` is the unique count `k` of white space at the back.
pub proof fn lemma_trailing_ws_is(s: Seq<char>, k: int)
    requires
        0 <= k <= s.len(),
        forall|j: int| s.len() - k <= j < s.len() ==> is_whitespace_char(s[j]),
        k < s.len() ==> !is_whitespace_char(s[s.len() - k - 1]),
    ensures
        trailing_ws(s) == k,
    decreases k,
{
    if k == 0 {
    } else {
        assert(is_whitespace_char(s[s.len() - 1]));
        let t = s.subrange(0, s.len() - 1);
        assert forall|j: int| t.len() - (k - 1) <= j < t.len() implies is_whitespace_char(t[j]) by {
            assert(t[j] == s[j]);
        }
        if k - 1 < t.len() {
            assert(t[t.len() - (k - 1) - 1] == s[s.len() - k - 1]);
        }
        lemma_trailing_ws_is(t, k - 1);
    }
}

/// Removes leading and trailing white space, exactly as `trim_spec` says.
pub fn trim(raw: &str) -> (r: String)
    ensures
        r@ == trim_spec(raw@),
{
    let len = raw.unicode_len();
    let mut start: usize = 0;
    while start < len && is_whitespace(raw.get_char(start))
        invariant
            start <= len,
            len == raw@.len(),
            forall|j: int| 0 <= j < start ==> is_whitespace_char(raw@[j]),
        decreases len - start,
    {
        start = start + 1;
    }
    let mut end: usize = len;
    while end > start && is_whitespace(raw.get_char(end - 1))
        invariant
            start <= end <= len,
            len == raw@.len(),
            forall|j: int| end <= j < len ==> is_whitespace_char(raw@[j]),
        decreases end,
    {
        end = end - 1;
    }
    proof {
        lemma_leading_ws_is(raw@, start as int);
        let rest = raw@.subrange(start as int, len as int);
        assert forall|j: int| rest.len() - (len - end) <= j < rest.len() implies is_whitespace_char(
            rest[j],
        ) by {
            assert(rest[j] == raw@[start + j]);
        }
        if (len - end) < rest.len() {
            assert(rest[rest.len() - (len - end) - 1] == raw@[end - 1]);
        }
        lemma_trailing_ws_is(rest, len as int - end as int);
        assert(trim_spec(raw@) =~= raw@.subrange(start as int, end as int));
    }
    let t = raw.substring_char(start, end);
    t.to_owned()
}

/// Trimming twice is the same as trimming once.
pub proof fn lemma_trim_idempotent(s: Seq<char>)
    ensures
        trim_spec(trim_spec(s)) == trim_spec(s),
{
    let t = trim_spec(s);
    lemma_trim_has_no_outer_ws(s);
    lemma_leading_ws_is(t, 0);
    lemma_trailing_ws_is(t, 0);
    assert(trim_spec(t) =~= t);
}

/// Helper: `leading_ws` within bounds, white space before it, none at it.
proof fn leading_ws_checked(s: Seq<char>) -> (i: int)
    ensures
        0 <= i <= s.len(),
        forall|j: int| 0 <= j < i ==> is_whitespace_char(s[j]),
        i < s.len() ==> !is_whitespace_char(s[i]),
        leading_ws(s) == i,
    decreases s.len(),
{
    if s.len() == 0 || !is_whitespace_char(s[0]) {
        0
    } else {
        let t = s.subrange(1, s.len() as int);
        let it = leading_ws_checked(t);
        assert forall|j: int| 0 <= j < it + 1 implies is_whitespace_char(s[j]) by {
            if j > 0 {
                assert(t[j - 1] == s[j]);
            }
        }
        if it + 1 < s.len() {
            assert(t[it] == s[it + 1]);
        }
        lemma_leading_ws_is(s, it + 1);
        it + 1
    }
}

/// Helper: the trimmed text has no white space at either edge.
proof fn lemma_trim_has_no_outer_ws(s: Seq<char>)
    ensures
        trim_spec(s).len() > 0 ==> !is_whitespace_char(trim_spec(s)[0]),
        trim_spec(s).len() > 0 ==> !is_whitespace_char(trim_spec(s)[trim_spec(s).len() - 1]),
{
    let a = leading_ws_checked(s);
    let rest = s.subrange(a, s.len() as int);
    let k = trailing_ws_checked(rest);
    let t = trim_spec(s);
    assert(t =~= rest.subrange(0, rest.len() - k));
    if t.len() > 0 {
        assert(t[0] == s[a]);
        assert(t[t.len() - 1] == rest[rest.len() - k - 1]);
    }
}

/// Helper: `trailing_ws` within bounds, white space after it, none before it.
proof fn trailing_ws_checked(s: Seq<char>) -> (k: int)
    ensures
        0 <= k <= s.len(),
        forall|j: int| s.len() - k <= j < s.len() ==> is_whitespace_char(s[j]),
        k < s.len() ==> !is_whitespace_char(s[s.len() - k - 1]),
        trailing_ws(s) == k,
    decreases s.len(),
{
    if s.len() == 0 || !is_whitespace_char(s[s.len() - 1]) {
        0
    } else {
        let t = s.subrange(0, s.len() - 1);
        let kt = trailing_ws_checked(t);
        assert forall|j: int| s.len() - (kt + 1) <= j < s.len() implies is_whitespace_char(
            s[j],
        ) by {
            if j < s.len() - 1 {
                assert(t[j] == s[j]);
            }
        }
        if kt + 1 < s.len() {
            assert(t[t.len() - kt - 1] == s[s.len() - (kt + 1) - 1]);
        }
        lemma_trailing_ws_is(s, kt + 1);
        kt + 1
    }
}

/// The ten decimal digit characters.
pub open spec fn decimal_digit(d: int) -> char {
    seq!['0', '1', '2', '3', '4', '5', '6', '7', '8', '9'][d]
}

/// The usual decimal rendering of `n`, most significant digit first,
/// without leading zeros.
pub open spec fn decimal_str(n: int) -> Seq<char>
    decreases n,
{
    if n < 10 {
        seq![decimal_digit(n)]
    } else {
        decimal_str(n / 10).push(decimal_digit(n % 10))
    }
}

/// One digit as a string slice.
fn digit_to_str(d: u32) -> (r: &'static str)
    requires
        d < 10,
    ensures
        r@ == seq![decimal_digit(d as int)],
{
    let r = match d {
        0 => "0",
        1 => "1",
        2 => "2",
        3 => "3",
        4 => "4",
        5 => "5",
        6 => "6",
        7 => "7",
        8 => "8",
        _ => "9",
    };
    proof {
        reveal_strlit("0");
        reveal_strlit("1");
        reveal_strlit("2");
        reveal_strlit("3");
        reveal_strlit("4");
        reveal_strlit("5");
        reveal_strlit("6");
        reveal_strlit("7");
        reveal_strlit("8");
        reveal_strlit("9");
        assert(r@ =~= seq![decimal_digit(d as int)]);
    }
    r
}

/// Renders `n` in decimal, exactly as `decimal_str` says.
pub fn u32_to_string(n: u32) -> (r: String)
    ensures
        r@ == decimal_str(n as int),
    decreases n,
{
    if n < 10 {
        let d = digit_to_str(n);
        d.to_owned()
    } else {
        let mut s = u32_to_string(n / 10);
        s.append(digit_to_str(n % 10));
        s
    }
}

} // verus!
