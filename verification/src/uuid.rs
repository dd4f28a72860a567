//! Row identifiers.
use vstd::prelude::*;
use vstd::string::*;

verus! {

/// A row identifier: 128 bits.
#[derive(Debug, Clone, Copy, PartialEq, Eq, Hash, Structural)]
pub struct Uuid {
    pub value: u128,
}

/// The small hexadecimal digit with value `d`.
pub open spec fn hex_char(d: u128) -> char {
    if d < 10 {
        (48 + d) as char
    } else {
        (87 + d) as char
    }
}

/// The `k`-th hexadecimal digit of `v`, counted from the left.
pub open spec fn nibble(v: u128, k: int) -> u128 {
    (v >> ((124 - 4 * k) as u128)) & 0xf
}

/// The character at `i` of the hyphenated text of `v`.
pub open spec fn uuid_char(v: u128, i: int) -> char {
    if i < 8 {
        hex_char(nibble(v, i))
    } else if i == 8 || i == 13 || i == 18 || i == 23 {
        '-'
    } else if i < 13 {
        hex_char(nibble(v, i - 1))
    } else if i < 18 {
        hex_char(nibble(v, i - 2))
    } else if i < 23 {
        hex_char(nibble(v, i - 3))
    } else {
        hex_char(nibble(v, i - 4))
    }
}

/// The text of an identifier: 32 small hexadecimal digits, with hyphens after the 8th, 12th, 16th
/// and 20th.
pub open spec fn uuid_text(v: u128) -> Seq<char> {
    Seq::new(36, |i: int| uuid_char(v, i))
}

/// What `uuid::Uuid::parse_str` reads in a text.
pub uninterp spec fn uuid_parsed(s: Seq<char>) -> Option<u128>;

/// `to_string` of `uuid::Uuid`: the hyphenated text.
#[verifier::external_body]
fn uuid_to_string(value: u128) -> (out: String)
    ensures
        out@ == uuid_text(value),
{
    uuid::Uuid::from_u128(value).to_string()
}

/// `uuid::Uuid::parse_str`, which takes several spellings of an identifier. Besides the name of
/// its result: the hyphenated text of an identifier reads as that identifier.
#[verifier::external_body]
fn uuid_parse_str(s: &str) -> (value: Option<u128>)
    ensures
        value == uuid_parsed(s@),
        forall|v: u128| s@ == #[trigger] uuid_text(v) ==> value == Some(v),
{
    uuid::Uuid::parse_str(s).ok().map(|u| u.as_u128())
}

/// The identifier that a text spells.
pub open spec fn uuid_spelled(s: Seq<char>) -> Option<Uuid> {
    match uuid_parsed(s) {
        Some(value) => Some(Uuid { value }),
        None => None,
    }
}

impl Uuid {
    /// The identifier with these bits.
    pub fn from_u128(value: u128) -> (id: Uuid)
        ensures
            id.value == value,
    {
        Uuid { value }
    }

    /// The hyphenated text.
    pub open spec fn text(self) -> Seq<char> {
        uuid_text(self.value)
    }

    /// The hyphenated text.
    pub fn to_string(&self) -> (out: String)
        ensures
            out@ == self.text(),
    {
        uuid_to_string(self.value)
    }

    /// The identifier that a text spells, if it spells one.
    pub fn parse_str(s: &str) -> (id: Option<Uuid>)
        ensures
            id == uuid_spelled(s@),
            forall|u: Uuid| s@ == #[trigger] u.text() ==> id == Some(u),
    {
        match uuid_parse_str(s) {
            Some(value) => Some(Uuid { value }),
            None => None,
        }
    }
}

proof fn lemma_nibbles_determine(v: u128, w: u128)
    by (bit_vector)
    requires
        (v >> 124) & 0xf == (w >> 124) & 0xf,
        (v >> 120) & 0xf == (w >> 120) & 0xf,
        (v >> 116) & 0xf == (w >> 116) & 0xf,
        (v >> 112) & 0xf == (w >> 112) & 0xf,
        (v >> 108) & 0xf == (w >> 108) & 0xf,
        (v >> 104) & 0xf == (w >> 104) & 0xf,
        (v >> 100) & 0xf == (w >> 100) & 0xf,
        (v >> 96) & 0xf == (w >> 96) & 0xf,
        (v >> 92) & 0xf == (w >> 92) & 0xf,
        (v >> 88) & 0xf == (w >> 88) & 0xf,
        (v >> 84) & 0xf == (w >> 84) & 0xf,
        (v >> 80) & 0xf == (w >> 80) & 0xf,
        (v >> 76) & 0xf == (w >> 76) & 0xf,
        (v >> 72) & 0xf == (w >> 72) & 0xf,
        (v >> 68) & 0xf == (w >> 68) & 0xf,
        (v >> 64) & 0xf == (w >> 64) & 0xf,
        (v >> 60) & 0xf == (w >> 60) & 0xf,
        (v >> 56) & 0xf == (w >> 56) & 0xf,
        (v >> 52) & 0xf == (w >> 52) & 0xf,
        (v >> 48) & 0xf == (w >> 48) & 0xf,
        (v >> 44) & 0xf == (w >> 44) & 0xf,
        (v >> 40) & 0xf == (w >> 40) & 0xf,
        (v >> 36) & 0xf == (w >> 36) & 0xf,
        (v >> 32) & 0xf == (w >> 32) & 0xf,
        (v >> 28) & 0xf == (w >> 28) & 0xf,
        (v >> 24) & 0xf == (w >> 24) & 0xf,
        (v >> 20) & 0xf == (w >> 20) & 0xf,
        (v >> 16) & 0xf == (w >> 16) & 0xf,
        (v >> 12) & 0xf == (w >> 12) & 0xf,
        (v >> 8) & 0xf == (w >> 8) & 0xf,
        (v >> 4) & 0xf == (w >> 4) & 0xf,
        (v >> 0) & 0xf == (w >> 0) & 0xf,
    ensures
        v == w,
{
}

proof fn lemma_nibble_small(v: u128, k: int)
    requires
        0 <= k < 32,
    ensures
        nibble(v, k) < 16,
{
    let s: u128 = (124 - 4 * k) as u128;
    assert((v >> s) & 0xf < 16) by (bit_vector);
}

proof fn lemma_same_digit(v: u128, w: u128, k: int)
    requires
        0 <= k < 32,
        hex_char(nibble(v, k)) == hex_char(nibble(w, k)),
    ensures
        nibble(v, k) == nibble(w, k),
{
    lemma_nibble_small(v, k);
    lemma_nibble_small(w, k);
}

/// The position of the `k`-th digit in the hyphenated text.
spec fn digit_at(k: int) -> int {
    if k < 8 {
        k
    } else if k < 12 {
        k + 1
    } else if k < 16 {
        k + 2
    } else if k < 20 {
        k + 3
    } else {
        k + 4
    }
}

/// Different identifiers have different texts.
pub proof fn uuid_text_injective(v: u128, w: u128)
    requires
        uuid_text(v) == uuid_text(w),
    ensures
        v == w,
{
    assert forall|k: int| 0 <= k < 32 implies nibble(v, k) == #[trigger] nibble(w, k) by {
        let i = digit_at(k);
        assert(uuid_text(v)[i] == uuid_char(v, i));
        assert(uuid_text(w)[i] == uuid_char(w, i));
        assert(uuid_char(v, i) == hex_char(nibble(v, k)));
        assert(uuid_char(w, i) == hex_char(nibble(w, k)));
        lemma_same_digit(v, w, k);
    }
    assert(nibble(w, 0) == nibble(v, 0) && nibble(w, 1) == nibble(v, 1) && nibble(w, 2) == nibble(v, 2));
    assert(nibble(w, 3) == nibble(v, 3) && nibble(w, 4) == nibble(v, 4) && nibble(w, 5) == nibble(v, 5));
    assert(nibble(w, 6) == nibble(v, 6) && nibble(w, 7) == nibble(v, 7) && nibble(w, 8) == nibble(v, 8));
    assert(nibble(w, 9) == nibble(v, 9) && nibble(w, 10) == nibble(v, 10) && nibble(w, 11) == nibble(v, 11));
    assert(nibble(w, 12) == nibble(v, 12) && nibble(w, 13) == nibble(v, 13) && nibble(w, 14) == nibble(v, 14));
    assert(nibble(w, 15) == nibble(v, 15) && nibble(w, 16) == nibble(v, 16) && nibble(w, 17) == nibble(v, 17));
    assert(nibble(w, 18) == nibble(v, 18) && nibble(w, 19) == nibble(v, 19) && nibble(w, 20) == nibble(v, 20));
    assert(nibble(w, 21) == nibble(v, 21) && nibble(w, 22) == nibble(v, 22) && nibble(w, 23) == nibble(v, 23));
    assert(nibble(w, 24) == nibble(v, 24) && nibble(w, 25) == nibble(v, 25) && nibble(w, 26) == nibble(v, 26));
    assert(nibble(w, 27) == nibble(v, 27) && nibble(w, 28) == nibble(v, 28) && nibble(w, 29) == nibble(v, 29));
    assert(nibble(w, 30) == nibble(v, 30) && nibble(w, 31) == nibble(v, 31));
    lemma_nibbles_determine(v, w);
}

/// Each character of an identifier's text is a small hexadecimal digit or a hyphen.
pub proof fn uuid_text_chars(v: u128)
    ensures
        uuid_text(v).len() == 36,
        forall|i: int|
            0 <= i < 36 ==> ('0' <= #[trigger] uuid_text(v)[i] <= '9' || 'a' <= uuid_text(v)[i] <= 'f'
                || uuid_text(v)[i] == '-'),
        '0' <= uuid_text(v)[35] <= '9' || 'a' <= uuid_text(v)[35] <= 'f',
{
    assert forall|i: int| 0 <= i < 36 implies ('0' <= #[trigger] uuid_text(v)[i] <= '9' || 'a'
        <= uuid_text(v)[i] <= 'f' || uuid_text(v)[i] == '-') by {
        let k = if i < 8 { i } else if i < 13 { i - 1 } else if i < 18 { i - 2 } else if i < 23 { i - 3 } else { i - 4 };
        if 0 <= k < 32 {
            lemma_nibble_small(v, k);
        }
    }
    lemma_nibble_small(v, 31);
}

} // verus!
