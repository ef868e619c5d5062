//! Character-level helpers: ASCII case folding and substring containment.

use vstd::prelude::*;
use vstd::string::*;

verus! {

/// The ASCII-uppercase code point of a character: a lowercase ASCII letter
/// folds to its uppercase counterpart, every other character is unchanged.
pub open spec fn upper_code(c: char) -> u32 {
    if 97 <= c as u32 && c as u32 <= 122 {
        (c as u32 - 32) as u32
    } else {
        c as u32
    }
}

/// Two character sequences are equal up to ASCII case.
pub open spec fn eq_ascii_case(a: Seq<char>, b: Seq<char>) -> bool {
    a.len() == b.len() && (forall|i: int| 0 <= i < a.len() ==> upper_code(a[i]) == upper_code(b[i]))
}

fn to_upper_code(c: char) -> (r: u32)
    ensures
        r == upper_code(c),
{
    let u = c as u32;
    if 97 <= u && u <= 122 {
        u - 32
    } else {
        u
    }
}

/// Case-insensitive (ASCII) comparison of two strings.
pub fn eq_ignore_ascii_case(a: &str, b: &str) -> (r: bool)
    ensures
        r == eq_ascii_case(a@, b@),
{
    let alen = a.unicode_len();
    let blen = b.unicode_len();
    if alen != blen {
        return false;
    }
    let mut i: usize = 0;
    while i < alen
        invariant
            alen == a@.len(),
            blen == b@.len(),
            alen == blen,
            0 <= i <= alen,
            forall|j: int| 0 <= j < i ==> upper_code(a@[j]) == upper_code(b@[j]),
        decreases alen - i,
    {
        let ua = to_upper_code(a.get_char(i));
        let ub = to_upper_code(b.get_char(i));
        if ua != ub {
            assert(upper_code(a@[i as int]) != upper_code(b@[i as int]));
            return false;
        }
        i += 1;
    }
    true
}

/// Law: strings equal up to ASCII case match exactly the same candidates
/// under case-insensitive comparison.
pub proof fn lemma_eq_ascii_case_congruence(a: Seq<char>, b: Seq<char>, t: Seq<char>)
    requires
        eq_ascii_case(a, b),
    ensures
        eq_ascii_case(a, t) == eq_ascii_case(b, t),
{
    if eq_ascii_case(a, t) {
        assert forall|i: int| 0 <= i < b.len() implies upper_code(b[i]) == upper_code(t[i]) by {
            assert(upper_code(a[i]) == upper_code(b[i]));
        }
    }
    if eq_ascii_case(b, t) {
        assert forall|i: int| 0 <= i < a.len() implies upper_code(a[i]) == upper_code(t[i]) by {
            assert(upper_code(a[i]) == upper_code(b[i]));
        }
    }
}

/// The sequence `s` begins with the prefix `p`.
pub open spec fn starts_with(s: Seq<char>, p: Seq<char>) -> bool {
    p.len() <= s.len() && s.subrange(0, p.len() as int) == p
}

/// The pattern `p` occurs in `h` starting at position `i`.
pub open spec fn contains_at(h: Seq<char>, p: Seq<char>, i: int) -> bool {
    0 <= i && i + p.len() <= h.len() && h.subrange(i, i + p.len()) == p
}

/// The pattern `p` occurs somewhere in `h`.
pub open spec fn contains_seq(h: Seq<char>, p: Seq<char>) -> bool {
    exists|i: int| contains_at(h, p, i)
}

fn matches_at(h: &str, p: &str, i: usize) -> (r: bool)
    requires
        i + p@.len() <= h@.len(),
    ensures
        r == contains_at(h@, p@, i as int),
{
    let pl = p.unicode_len();
    let hl = h.unicode_len();
    let mut j: usize = 0;
    while j < pl
        invariant
            pl == p@.len(),
            hl == h@.len(),
            i + pl <= hl,
            0 <= j <= pl,
            forall|k: int| 0 <= k < j ==> h@[i + k] == p@[k],
        decreases pl - j,
    {
        if h.get_char(i + j) != p.get_char(j) {
            assert(h@.subrange(i as int, i + p@.len())[j as int] != p@[j as int]);
            return false;
        }
        j += 1;
    }
    assert(h@.subrange(i as int, i + p@.len()) =~= p@);
    true
}

/// Substring containment, the host-matching predicate of the header policy.
pub fn contains_str(h: &str, p: &str) -> (r: bool)
    ensures
        r == contains_seq(h@, p@),
{
    let hl = h.unicode_len();
    let pl = p.unicode_len();
    if pl > hl {
        assert(forall|i: int| !contains_at(h@, p@, i));
        return false;
    }
    if pl == 0 {
        assert(h@.subrange(0, 0) =~= p@);
        assert(contains_at(h@, p@, 0));
        return true;
    }
    let mut i: usize = 0;
    while i <= hl - pl
        invariant
            hl == h@.len(),
            pl == p@.len(),
            0 < pl <= hl,
            0 <= i <= hl - pl + 1,
            forall|k: int| 0 <= k < i ==> !contains_at(h@, p@, k),
        decreases hl - i,
    {
        if matches_at(h, p, i) {
            return true;
        }
        i += 1;
    }
    assert(forall|k: int| !contains_at(h@, p@, k));
    false
}

/// The character of a single decimal digit.
pub open spec fn dec_digit_char(d: int) -> char {
    if d == 0 {
        '0'
    } else if d == 1 {
        '1'
    } else if d == 2 {
        '2'
    } else if d == 3 {
        '3'
    } else if d == 4 {
        '4'
    } else if d == 5 {
        '5'
    } else if d == 6 {
        '6'
    } else if d == 7 {
        '7'
    } else if d == 8 {
        '8'
    } else {
        '9'
    }
}

/// The decimal rendering of a non-negative integer, most significant digit
/// first, without leading zeroes (except for zero itself).
pub open spec fn spec_dec(n: int) -> Seq<char>
    decreases n,
{
    if n < 10 {
        seq![dec_digit_char(n)]
    } else {
        spec_dec(n / 10).push(dec_digit_char(n % 10))
    }
}

fn digit_str(d: u16) -> (r: &'static str)
    requires
        d < 10,
    ensures
        r@ =~= seq![dec_digit_char(d as int)],
{
    let digits = "0123456789";
    proof {
        reveal_strlit("0123456789");
    }
    let r = digits.substring_ascii(d as usize, d as usize + 1);
    proof {
        assert(r@ =~= seq![dec_digit_char(d as int)]);
    }
    r
}

/// Renders a status code (or any small integer) in decimal.
pub fn u16_to_dec_string(n: u16) -> (r: String)
    ensures
        r@ == spec_dec(n as int),
    decreases n,
{
    if n < 10 {
        digit_str(n).to_owned()
    } else {
        let mut s = u16_to_dec_string(n / 10);
        s.append(digit_str(n % 10));
        s
    }
}

} // verus!
