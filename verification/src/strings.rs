//! Small verified helpers over `&str` and `String`: equality, ASCII case
//! folding, whitespace trimming and decimal rendering, character-wise.

use vstd::prelude::*;
use vstd::string::StrSliceExecFns;

verus! {

/// Relies on `String::push`: appends exactly the one character.
#[verifier::external_body]
pub fn push_char(s: &mut String, c: char)
    ensures
        final(s)@ == old(s)@.push(c),
{
    s.push(c);
}

/// An ASCII upper-case letter folded to lower case; everything else kept.
pub open spec fn spec_ascii_lower(c: char) -> char {
    if 'A' <= c && c <= 'Z' {
        ((c as u8) + 32) as char
    } else {
        c
    }
}

pub fn ascii_lower(c: char) -> (r: char)
    ensures
        r == spec_ascii_lower(c),
{
    if 'A' <= c && c <= 'Z' {
        ((c as u8) + 32) as char
    } else {
        c
    }
}

pub open spec fn spec_lowered(s: Seq<char>) -> Seq<char> {
    s.map_values(|c: char| spec_ascii_lower(c))
}

/// `s` with every ASCII letter lowered.
pub fn lowered(s: &str) -> (r: String)
    ensures
        r@ == spec_lowered(s@),
{
    let n = s.unicode_len();
    let mut out = String::new();
    let mut i: usize = 0;
    while i < n
        invariant
            n == s@.len(),
            i <= n,
            out@ == spec_lowered(s@.subrange(0, i as int)),
        decreases n - i,
    {
        let c = ascii_lower(s.get_char(i));
        push_char(&mut out, c);
        i += 1;
        proof {
            assert(s@.subrange(0, i as int).drop_last() =~= s@.subrange(0, i as int - 1));
            assert(spec_lowered(s@.subrange(0, i as int))
                =~= spec_lowered(s@.subrange(0, i as int - 1)).push(
                    spec_ascii_lower(s@[i as int - 1])));
        }
    }
    proof {
        assert(s@.subrange(0, n as int) =~= s@);
    }
    out
}

/// The character for one decimal digit value.
pub open spec fn spec_digit_char(d: int) -> char {
    (('0' as u8) + d) as char
}

/// The decimal digits of a non-negative number, most significant first.
pub open spec fn spec_decimal(n: int) -> Seq<char>
    decreases n,
{
    if n < 10 {
        seq![spec_digit_char(n)]
    } else {
        spec_decimal(n / 10).push(spec_digit_char(n % 10))
    }
}

/// A number rendered in decimal.
pub fn u32_to_string(n: u32) -> (r: String)
    ensures
        r@ == spec_decimal(n as int),
    decreases n,
{
    if n < 10 {
        let mut s = String::new();
        push_char(&mut s, (('0' as u8) + (n as u8)) as char);
        proof {
            assert(s@ =~= spec_decimal(n as int));
        }
        s
    } else {
        let mut s = u32_to_string(n / 10);
        push_char(&mut s, (('0' as u8) + ((n % 10) as u8)) as char);
        s
    }
}

/// The Unicode White_Space characters, the set `str::trim` strips.
pub open spec fn spec_is_whitespace(c: char) -> bool {
    ||| ('\u{0009}' <= c && c <= '\u{000D}')
    ||| c == ' '
    ||| c == '\u{0085}'
    ||| c == '\u{00A0}'
    ||| c == '\u{1680}'
    ||| ('\u{2000}' <= c && c <= '\u{200A}')
    ||| c == '\u{2028}'
    ||| c == '\u{2029}'
    ||| c == '\u{202F}'
    ||| c == '\u{205F}'
    ||| c == '\u{3000}'
}

pub fn is_whitespace_char(c: char) -> (r: bool)
    ensures
        r == spec_is_whitespace(c),
{
    ('\u{0009}' <= c && c <= '\u{000D}') || c == ' ' || c == '\u{0085}' || c == '\u{00A0}' || c
        == '\u{1680}' || ('\u{2000}' <= c && c <= '\u{200A}') || c == '\u{2028}' || c
        == '\u{2029}' || c == '\u{202F}' || c == '\u{205F}' || c == '\u{3000}'
}

/// True when the two strings hold the same characters.
pub fn str_eq(a: &str, b: &str) -> (r: bool)
    ensures
        r == (a@ == b@),
{
    let na = a.unicode_len();
    let nb = b.unicode_len();
    if na != nb {
        return false;
    }
    let mut i: usize = 0;
    while i < na
        invariant
            na == a@.len(),
            na == b@.len(),
            i <= na,
            forall|j: int| 0 <= j < i ==> a@[j] == b@[j],
        decreases na - i,
    {
        if a.get_char(i) != b.get_char(i) {
            return false;
        }
        i += 1;
    }
    proof {
        assert(a@ =~= b@);
    }
    true
}

/// The index of the first non-whitespace character, or `len` if none.
pub open spec fn spec_trim_start_index(s: Seq<char>) -> int
    decreases s.len(),
{
    if s.len() == 0 {
        0
    } else if spec_is_whitespace(s[0]) {
        1 + spec_trim_start_index(s.drop_first())
    } else {
        0
    }
}

/// One past the index of the last non-whitespace character, or 0 if none.
pub open spec fn spec_trim_end_index(s: Seq<char>) -> int
    decreases s.len(),
{
    if s.len() == 0 {
        0
    } else if spec_is_whitespace(s[s.len() - 1]) {
        spec_trim_end_index(s.drop_last())
    } else {
        s.len() as int
    }
}

/// `s` without leading or trailing whitespace.
pub open spec fn spec_trimmed(s: Seq<char>) -> Seq<char> {
    let start = spec_trim_start_index(s);
    let end = spec_trim_end_index(s);
    if start < end {
        s.subrange(start, end)
    } else {
        Seq::empty()
    }
}

proof fn lemma_trim_start_bounds(s: Seq<char>)
    ensures
        0 <= spec_trim_start_index(s) <= s.len(),
        forall|j: int| 0 <= j < spec_trim_start_index(s) ==> spec_is_whitespace(s[j]),
        spec_trim_start_index(s) < s.len() ==> !spec_is_whitespace(s[spec_trim_start_index(s)]),
    decreases s.len(),
{
    if s.len() > 0 && spec_is_whitespace(s[0]) {
        lemma_trim_start_bounds(s.drop_first());
        let t = s.drop_first();
        assert(spec_trim_start_index(s) == 1 + spec_trim_start_index(t));
        assert forall|j: int| 0 <= j < spec_trim_start_index(s) implies spec_is_whitespace(s[j]) by {
            if j > 0 {
                assert(t[j - 1] == s[j]);
            }
        }
        if spec_trim_start_index(s) < s.len() {
            assert(t[spec_trim_start_index(t)] == s[spec_trim_start_index(s)]);
        }
    }
}

proof fn lemma_trim_end_bounds(s: Seq<char>)
    ensures
        0 <= spec_trim_end_index(s) <= s.len(),
        forall|j: int| spec_trim_end_index(s) <= j < s.len() ==> spec_is_whitespace(s[j]),
        spec_trim_end_index(s) > 0 ==> !spec_is_whitespace(s[spec_trim_end_index(s) - 1]),
    decreases s.len(),
{
    if s.len() > 0 && spec_is_whitespace(s[s.len() - 1]) {
        lemma_trim_end_bounds(s.drop_last());
        assert forall|j: int| spec_trim_end_index(s) <= j < s.len() implies spec_is_whitespace(s[j]) by {
            if j < s.len() - 1 {
                assert(s.drop_last()[j] == s[j]);
            }
        }
    }
}

/// `s` with whitespace trimmed from both ends.
pub fn trimmed(s: &str) -> (r: String)
    ensures
        r@ == spec_trimmed(s@),
{
    let n = s.unicode_len();
    proof {
        lemma_trim_start_bounds(s@);
        lemma_trim_end_bounds(s@);
    }
    let mut start: usize = 0;
    while start < n && is_whitespace_char(s.get_char(start))
        invariant
            n == s@.len(),
            start <= n,
            forall|j: int| 0 <= j < start ==> spec_is_whitespace(s@[j]),
            start <= spec_trim_start_index(s@),
        decreases n - start,
    {
        start += 1;
        proof {
            lemma_trim_start_step(s@, start as int);
        }
    }
    proof {
        assert(start as int == spec_trim_start_index(s@));
    }
    let mut end: usize = n;
    while end > start && is_whitespace_char(s.get_char(end - 1))
        invariant
            n == s@.len(),
            start <= end <= n,
            start as int == spec_trim_start_index(s@),
            forall|j: int| end <= j < n ==> spec_is_whitespace(s@[j]),
            spec_trim_end_index(s@) <= end,
        decreases end,
    {
        end -= 1;
        proof {
            lemma_trim_end_step(s@, end as int);
        }
    }
    proof {
        if end > start {
            assert(end as int == spec_trim_end_index(s@));
        }
    }
    let piece = s.substring_char(start, end);
    let r = piece.to_owned();
    proof {
        if end > start {
            assert(r@ =~= spec_trimmed(s@));
        } else {
            assert(r@ =~= spec_trimmed(s@));
        }
    }
    r
}

/// Walking past whitespace never passes the trim-start index.
proof fn lemma_trim_start_step(s: Seq<char>, k: int)
    requires
        0 <= k <= s.len(),
        forall|j: int| 0 <= j < k ==> spec_is_whitespace(s[j]),
    ensures
        k <= spec_trim_start_index(s),
    decreases k,
{
    if k > 0 {
        let t = s.drop_first();
        assert(spec_is_whitespace(s[0]));
        assert forall|j: int| 0 <= j < k - 1 implies spec_is_whitespace(t[j]) by {
            assert(t[j] == s[j + 1]);
        }
        lemma_trim_start_step(t, k - 1);
        assert(k - 1 <= spec_trim_start_index(t));
        assert(spec_trim_start_index(s) == 1 + spec_trim_start_index(t));
    } else {
        lemma_trim_start_bounds(s);
    }
}

/// Walking back past whitespace never passes the trim-end index.
proof fn lemma_trim_end_step(s: Seq<char>, k: int)
    requires
        0 <= k <= s.len(),
        forall|j: int| k <= j < s.len() ==> spec_is_whitespace(s[j]),
    ensures
        spec_trim_end_index(s) <= k,
    decreases s.len() - k,
{
    if k < s.len() {
        let t = s.drop_last();
        assert(spec_is_whitespace(s[s.len() - 1]));
        assert forall|j: int| k <= j < s.len() - 1 implies spec_is_whitespace(t[j]) by {
            assert(t[j] == s[j]);
        }
        lemma_trim_end_step(t, k);
        assert(spec_trim_end_index(t) <= k);
        assert(spec_trim_end_index(s) == spec_trim_end_index(t));
    } else {
        lemma_trim_end_bounds(s);
    }
}

} // verus!
