//! Small verified operations on text.
use vstd::prelude::*;
use vstd::string::*;

verus! {

/// `String::push` of std: the character goes behind the text that is there.
pub assume_specification[ String::push ](s: &mut String, c: char)
    ensures
        final(s)@ == old(s)@.push(c),
;

/// Whether two texts hold the same characters.
pub fn str_eq(a: &str, b: &str) -> (same: bool)
    ensures
        same == (a@ == b@),
{
    let left: String = a.to_string();
    let right: String = b.to_string();
    left == right
}

/// `a` followed by `b`.
pub fn join2(a: &str, b: &str) -> (out: String)
    ensures
        out@ == a@ + b@,
{
    let out: String = a.to_string();
    out.concat(b)
}

/// `a`, `b` and `c`, one after the other.
pub fn join3(a: &str, b: &str, c: &str) -> (out: String)
    ensures
        out@ == a@ + b@ + c@,
{
    let out: String = a.to_string();
    out.concat(b).concat(c)
}

/// A copy of an optional text, as a borrowed text.
pub fn borrowed(s: &Option<String>) -> (out: Option<&str>)
    ensures
        match *s {
            Some(t) => out matches Some(o) && o@ == t@,
            None => out is None,
        },
{
    match s {
        Some(t) => Some(t.as_str()),
        None => None,
    }
}

/// The characters of an optional text.
pub open spec fn opt_text(s: Option<String>) -> Option<Seq<char>> {
    match s {
        Some(t) => Some(t@),
        None => None,
    }
}

/// The characters of an optional borrowed text.
pub open spec fn opt_str(s: Option<&str>) -> Option<Seq<char>> {
    match s {
        Some(t) => Some(t@),
        None => None,
    }
}

// ---- Decimal numbers ----

/// The decimal digit with value `d`.
pub open spec fn digit_char(d: nat) -> char {
    (48 + d) as char
}

/// The decimal text of a natural number, without leading zeros.
pub open spec fn nat_text(n: nat) -> Seq<char>
    decreases n,
{
    if n < 10 {
        seq![digit_char(n)]
    } else {
        nat_text(n / 10).push(digit_char(n % 10))
    }
}

/// The decimal text of an integer: a minus sign stands before a negative number.
pub open spec fn int_text(n: int) -> Seq<char> {
    if n < 0 {
        seq!['-'] + nat_text((-n) as nat)
    } else {
        nat_text(n as nat)
    }
}

fn digit(d: u64) -> (c: char)
    requires
        d < 10,
    ensures
        c == digit_char(d as nat),
{
    (48u8 + d as u8) as char
}

/// The decimal text of `n`.
pub fn unsigned_text(n: u64) -> (out: String)
    ensures
        out@ == nat_text(n as nat),
    decreases n,
{
    let last: char = digit(n % 10);
    let mut out: String = if n < 10 {
        String::new()
    } else {
        unsigned_text(n / 10)
    };
    let ghost before = out@;
    out.push(last);
    proof {
        if n < 10 {
            assert(before.push(last) =~= seq![digit_char(n as nat)]);
        }
    }
    out
}

/// The decimal text of `n`.
pub fn signed_text(n: i64) -> (out: String)
    ensures
        out@ == int_text(n as int),
{
    if n >= 0 {
        unsigned_text(n as u64)
    } else {
        let magnitude: u64 = (-(n + 1)) as u64 + 1;
        proof {
            reveal_strlit("-");
            assert("-"@ =~= seq!['-']);
        }
        join2("-", unsigned_text(magnitude).as_str())
    }
}

// ---- Trimming, case and membership ----

/// The characters with the Unicode property `White_Space`.
pub open spec fn white_space(c: char) -> bool {
    ||| '\u{9}' <= c <= '\u{d}'
    ||| c == ' '
    ||| c == '\u{85}'
    ||| c == '\u{a0}'
    ||| c == '\u{1680}'
    ||| '\u{2000}' <= c <= '\u{200a}'
    ||| c == '\u{2028}'
    ||| c == '\u{2029}'
    ||| c == '\u{202f}'
    ||| c == '\u{205f}'
    ||| c == '\u{3000}'
}

fn is_white_space(c: char) -> (b: bool)
    ensures
        b == white_space(c),
{
    ('\u{9}' <= c && c <= '\u{d}') || c == ' ' || c == '\u{85}' || c == '\u{a0}' || c == '\u{1680}'
        || ('\u{2000}' <= c && c <= '\u{200a}') || c == '\u{2028}' || c == '\u{2029}'
        || c == '\u{202f}' || c == '\u{205f}' || c == '\u{3000}'
}

/// `s` without the white space it starts with.
pub open spec fn trimmed_start(s: Seq<char>) -> Seq<char>
    decreases s.len(),
{
    if s.len() > 0 && white_space(s[0]) {
        trimmed_start(s.skip(1))
    } else {
        s
    }
}

/// `s` without the white space it ends with.
pub open spec fn trimmed_end(s: Seq<char>) -> Seq<char>
    decreases s.len(),
{
    if s.len() > 0 && white_space(s.last()) {
        trimmed_end(s.drop_last())
    } else {
        s
    }
}

/// `s` without the white space around it.
pub open spec fn trimmed(s: Seq<char>) -> Seq<char> {
    trimmed_end(trimmed_start(s))
}

/// `s` without the white space around it.
pub fn trim(s: &str) -> (out: String)
    ensures
        out@ == trimmed(s@),
{
    let len: usize = s.unicode_len();
    let mut from: usize = 0;
    proof {
        assert(s@.skip(0) =~= s@);
    }
    while from < len && is_white_space(s.get_char(from))
        invariant
            from <= len,
            len == s@.len(),
            trimmed_start(s@) == trimmed_start(s@.skip(from as int)),
        decreases len - from,
    {
        proof {
            assert(s@.skip(from as int)[0] == s@[from as int]);
            assert(s@.skip(from as int).skip(1) =~= s@.skip(from + 1));
        }
        from += 1;
    }
    proof {
        if from < len {
            assert(s@.skip(from as int)[0] == s@[from as int]);
        }
        assert(trimmed_start(s@) == s@.skip(from as int));
        assert(s@.skip(from as int) =~= s@.subrange(from as int, len as int));
    }
    let mut to: usize = len;
    while to > from && is_white_space(s.get_char(to - 1))
        invariant
            from <= to <= len,
            len == s@.len(),
            trimmed_end(s@.subrange(from as int, len as int)) == trimmed_end(
                s@.subrange(from as int, to as int),
            ),
        decreases to - from,
    {
        proof {
            let part = s@.subrange(from as int, to as int);
            assert(part.last() == s@[to - 1]);
            assert(part.drop_last() =~= s@.subrange(from as int, to - 1));
        }
        to -= 1;
    }
    proof {
        let part = s@.subrange(from as int, to as int);
        if to > from {
            assert(part.last() == s@[to - 1]);
        }
        assert(trimmed_end(part) == part);
    }
    s.substring_char(from, to).to_string()
}

/// `s` without the slashes it ends with.
pub open spec fn without_end_slashes(s: Seq<char>) -> Seq<char>
    decreases s.len(),
{
    if s.len() > 0 && s.last() == '/' {
        without_end_slashes(s.drop_last())
    } else {
        s
    }
}

/// `s` without the slashes it ends with.
pub fn trim_end_slashes(s: &str) -> (out: String)
    ensures
        out@ == without_end_slashes(s@),
{
    let mut to: usize = s.unicode_len();
    proof {
        assert(s@.take(to as int) =~= s@);
    }
    while to > 0 && s.get_char(to - 1) == '/'
        invariant
            to <= s@.len(),
            without_end_slashes(s@) == without_end_slashes(s@.take(to as int)),
        decreases to,
    {
        proof {
            assert(s@.take(to as int).drop_last() =~= s@.take(to - 1));
        }
        to -= 1;
    }
    proof {
        assert(without_end_slashes(s@.take(to as int)) == s@.take(to as int));
        assert(s@.subrange(0, to as int) =~= s@.take(to as int));
    }
    s.substring_char(0, to).to_string()
}

/// The small letter of an ASCII capital; every other character itself.
pub open spec fn lower_char(c: char) -> char {
    if 'A' <= c <= 'Z' {
        (c as int + 32) as char
    } else {
        c
    }
}

/// `s` with its ASCII capitals made small.
pub open spec fn lowered(s: Seq<char>) -> Seq<char> {
    s.map_values(|c: char| lower_char(c))
}

fn to_lower_char(c: char) -> (r: char)
    ensures
        r == lower_char(c),
{
    if 'A' <= c && c <= 'Z' {
        (c as u8 + 32u8) as char
    } else {
        c
    }
}

/// `s` with its ASCII capitals made small.
pub fn ascii_lowercase(s: &str) -> (out: String)
    ensures
        out@ == lowered(s@),
{
    let len: usize = s.unicode_len();
    let mut out: String = String::new();
    let mut i: usize = 0;
    while i < len
        invariant
            i <= len,
            len == s@.len(),
            out@ =~= lowered(s@.take(i as int)),
        decreases len - i,
    {
        let c: char = to_lower_char(s.get_char(i));
        proof {
            assert(s@.take(i + 1) =~= s@.take(i as int).push(s@[i as int]));
        }
        out.push(c);
        i += 1;
    }
    proof {
        assert(s@.take(len as int) =~= s@);
    }
    out
}

/// Whether `s` begins with `head`.
pub open spec fn begins_with(s: Seq<char>, head: Seq<char>) -> bool {
    s.len() >= head.len() && s.take(head.len() as int) == head
}

/// Whether `s` begins with `head`.
pub fn starts_with(s: &str, head: &str) -> (b: bool)
    ensures
        b == begins_with(s@, head@),
{
    let n: usize = head.unicode_len();
    if s.unicode_len() < n {
        return false;
    }
    proof {
        assert(s@.subrange(0, n as int) =~= s@.take(n as int));
    }
    str_eq(s.substring_char(0, n), head)
}

/// Whether a character of `s` is among those of `set`.
pub open spec fn holds_any(s: Seq<char>, set: Seq<char>) -> bool {
    exists|i: int| 0 <= i < s.len() && set.contains(#[trigger] s[i])
}

fn among(c: char, set: &str) -> (b: bool)
    ensures
        b == set@.contains(c),
{
    let len: usize = set.unicode_len();
    let mut i: usize = 0;
    while i < len
        invariant
            i <= len,
            len == set@.len(),
            forall|j: int| 0 <= j < i ==> set@[j] != c,
        decreases len - i,
    {
        if set.get_char(i) == c {
            return true;
        }
        i += 1;
    }
    false
}

/// Whether a character of `s` is among those of `set`.
pub fn contains_any(s: &str, set: &str) -> (b: bool)
    ensures
        b == holds_any(s@, set@),
{
    let len: usize = s.unicode_len();
    let mut i: usize = 0;
    while i < len
        invariant
            i <= len,
            len == s@.len(),
            forall|j: int| 0 <= j < i ==> !set@.contains(#[trigger] s@[j]),
        decreases len - i,
    {
        if among(s.get_char(i), set) {
            return true;
        }
        i += 1;
    }
    false
}

} // verus!
