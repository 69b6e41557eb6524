//! Byte-level text primitives the extractors are built from: locating a
//! delimiter, reading decimal digits, ASCII case folding, whitespace
//! trimming, and substring search.

use vstd::prelude::*;

verus! {

pub const SPACE: u8 = 32;
pub const TAB: u8 = 9;
pub const CR: u8 = 13;
pub const NL: u8 = 10;
pub const DIGIT_0: u8 = 48;
pub const DIGIT_9: u8 = 57;
pub const UPPER_A: u8 = 65;
pub const UPPER_Z: u8 = 90;
pub const DASH: u8 = 45;
pub const UNDERSCORE: u8 = 95;
pub const COMMA: u8 = 44;

/// Horizontal whitespace as it may surround a label inside one line.
pub open spec fn is_ws(b: u8) -> bool {
    b == SPACE || b == TAB || b == CR
}

pub open spec fn is_digit(b: u8) -> bool {
    DIGIT_0 <= b && b <= DIGIT_9
}

/// ASCII lower-casing of one byte; other bytes are unchanged.
pub open spec fn to_lower(b: u8) -> u8 {
    if UPPER_A <= b && b <= UPPER_Z {
        (b + 32) as u8
    } else {
        b
    }
}

pub open spec fn lower_seq(s: Seq<u8>) -> Seq<u8> {
    s.map_values(|b: u8| to_lower(b))
}

pub open spec fn all_digits(s: Seq<u8>) -> bool {
    forall|i: int| 0 <= i < s.len() ==> is_digit(#[trigger] s[i])
}

/// Index of the first occurrence of `b` in `s`, or `s.len()` if absent.
pub open spec fn spec_find(s: Seq<u8>, b: u8) -> int
    decreases s.len(),
{
    if s.len() == 0 {
        0
    } else if s[0] == b {
        0
    } else {
        1 + spec_find(s.skip(1), b)
    }
}

pub proof fn lemma_find_is(s: Seq<u8>, b: u8, k: int)
    requires
        0 <= k <= s.len(),
        forall|j: int| 0 <= j < k ==> s[j] != b,
        k < s.len() ==> s[k] == b,
    ensures
        spec_find(s, b) == k,
    decreases k,
{
    if k == 0 {
    } else {
        assert(s[0] != b);
        assert forall|j: int| 0 <= j < k - 1 implies s.skip(1)[j] != b by {
            assert(s.skip(1)[j] == s[j + 1]);
        }
        if k - 1 < s.skip(1).len() {
            assert(s.skip(1)[k - 1] == s[k]);
        }
        lemma_find_is(s.skip(1), b, k - 1);
    }
}

/// First index of `b` in `s`, or `s.len()` when `b` does not occur.
pub fn find_byte(s: &[u8], b: u8) -> (r: usize)
    ensures
        r as int == spec_find(s@, b),
        r <= s@.len(),
{
    let n = s.len();
    let mut i: usize = 0;
    while i < n
        invariant
            n == s@.len(),
            0 <= i <= n,
            forall|j: int| 0 <= j < i ==> s@[j] != b,
        decreases n - i,
    {
        if s[i] == b {
            proof {
                lemma_find_is(s@, b, i as int);
            }
            return i;
        }
        i += 1;
    }
    proof {
        lemma_find_is(s@, b, s@.len() as int);
    }
    i
}

/// The number written by a digit sequence, most significant digit first.
pub open spec fn digits_val(s: Seq<u8>) -> int
    decreases s.len(),
{
    if s.len() == 0 {
        0
    } else {
        digits_val(s.take(s.len() - 1)) * 10 + (s[s.len() - 1] - DIGIT_0)
    }
}

pub open spec fn spec_pow10(n: nat) -> int
    decreases n,
{
    if n == 0 {
        1
    } else {
        10 * spec_pow10((n - 1) as nat)
    }
}

pub proof fn lemma_digits_val_bound(s: Seq<u8>)
    requires
        all_digits(s),
    ensures
        0 <= digits_val(s) < spec_pow10(s.len()),
    decreases s.len(),
{
    if s.len() > 0 {
        let pre = s.take(s.len() - 1);
        assert(all_digits(pre));
        lemma_digits_val_bound(pre);
    }
}

/// Reads up to four decimal digits as a number.
pub fn digits_value(s: &[u8]) -> (r: u32)
    requires
        all_digits(s@),
        s@.len() <= 4,
    ensures
        r as int == digits_val(s@),
        r <= 9999,
{
    let n = s.len();
    let mut acc: u32 = 0;
    let mut i: usize = 0;
    while i < n
        invariant
            n == s@.len() <= 4,
            all_digits(s@),
            0 <= i <= n,
            acc as int == digits_val(s@.take(i as int)),
            acc <= 9999,
        decreases n - i,
    {
        proof {
            assert(s@.take(i + 1).take(i as int) =~= s@.take(i as int));
            assert(all_digits(s@.take(i + 1)));
            lemma_digits_val_bound(s@.take(i + 1));
            assert(spec_pow10(4) == 10000) by {
                assert(spec_pow10(0) == 1);
                assert(spec_pow10(1) == 10);
                assert(spec_pow10(2) == 100);
                assert(spec_pow10(3) == 1000);
            }
            assert(spec_pow10(s@.take(i + 1).len()) <= 10000) by {
                assert(spec_pow10(0) == 1);
                assert(spec_pow10(1) == 10);
                assert(spec_pow10(2) == 100);
                assert(spec_pow10(3) == 1000);
            }
        }
        acc = acc * 10 + (s[i] - DIGIT_0) as u32;
        i += 1;
    }
    proof {
        assert(s@.take(n as int) =~= s@);
    }
    acc
}

/// Whether every byte of `s` is a decimal digit.
pub fn check_all_digits(s: &[u8]) -> (r: bool)
    ensures
        r == all_digits(s@),
{
    let n = s.len();
    let mut i: usize = 0;
    while i < n
        invariant
            n == s@.len(),
            0 <= i <= n,
            forall|j: int| 0 <= j < i ==> is_digit(#[trigger] s@[j]),
        decreases n - i,
    {
        let b = s[i];
        if b < DIGIT_0 || b > DIGIT_9 {
            return false;
        }
        i += 1;
    }
    true
}

pub fn lower_byte(b: u8) -> (r: u8)
    ensures
        r == to_lower(b),
{
    if UPPER_A <= b && b <= UPPER_Z {
        b + 32
    } else {
        b
    }
}

/// ASCII-case-insensitive equality of two byte strings.
pub fn eq_ignore_case(a: &[u8], b: &[u8]) -> (r: bool)
    ensures
        r == (lower_seq(a@) == lower_seq(b@)),
{
    if a.len() != b.len() {
        proof {
            assert(lower_seq(a@).len() != lower_seq(b@).len());
        }
        return false;
    }
    let n = a.len();
    let mut i: usize = 0;
    while i < n
        invariant
            n == a@.len() == b@.len(),
            0 <= i <= n,
            forall|j: int| 0 <= j < i ==> to_lower(#[trigger] a@[j]) == to_lower(b@[j]),
        decreases n - i,
    {
        if lower_byte(a[i]) != lower_byte(b[i]) {
            proof {
                assert(lower_seq(a@)[i as int] != lower_seq(b@)[i as int]);
            }
            return false;
        }
        i += 1;
    }
    proof {
        assert(lower_seq(a@) =~= lower_seq(b@));
    }
    true
}

/// `n` occurs as a contiguous run somewhere in `h`.
pub open spec fn spec_contains_sub(h: Seq<u8>, n: Seq<u8>) -> bool {
    exists|i: int| 0 <= i && i + n.len() <= h.len() && #[trigger] h.subrange(i, i + n.len()) == n
}

fn match_at(h: &[u8], n: &[u8], at: usize) -> (r: bool)
    requires
        at + n@.len() <= h@.len(),
    ensures
        r == (h@.subrange(at as int, at + n@.len()) == n@),
{
    let len = n.len();
    let hlen = h.len();
    let mut j: usize = 0;
    while j < len
        invariant
            len == n@.len(),
            hlen == h@.len(),
            at + len <= hlen,
            0 <= j <= len,
            forall|t: int| 0 <= t < j ==> h@[at + t] == n@[t],
        decreases len - j,
    {
        if h[at + j] != n[j] {
            proof {
                assert(h@.subrange(at as int, at + n@.len())[j as int] != n@[j as int]);
            }
            return false;
        }
        j += 1;
    }
    proof {
        assert(h@.subrange(at as int, at + n@.len()) =~= n@);
    }
    true
}

/// Substring search: does `n` occur anywhere inside `h`?
pub fn contains_subslice(h: &[u8], n: &[u8]) -> (r: bool)
    ensures
        r == spec_contains_sub(h@, n@),
{
    if n.len() > h.len() {
        return false;
    }
    if n.len() == 0 {
        proof {
            assert(h@.subrange(0, 0 + n@.len() as int) =~= n@);
        }
        return true;
    }
    let hlen = h.len();
    let last = hlen - n.len();
    let mut i: usize = 0;
    while i <= last
        invariant
            1 <= n@.len() <= h@.len(),
            hlen == h@.len(),
            last == h@.len() - n@.len(),
            0 <= i <= last + 1,
            forall|k: int| 0 <= k < i ==> #[trigger] h@.subrange(k, k + n@.len()) != n@,
        decreases last + 1 - i,
    {
        if match_at(h, n, i) {
            return true;
        }
        i += 1;
    }
    false
}

/// `s` with leading whitespace removed.
pub open spec fn spec_trim_start(s: Seq<u8>) -> Seq<u8>
    decreases s.len(),
{
    if s.len() > 0 && is_ws(s[0]) {
        spec_trim_start(s.skip(1))
    } else {
        s
    }
}

/// `s` with trailing whitespace removed.
pub open spec fn spec_trim_end(s: Seq<u8>) -> Seq<u8>
    decreases s.len(),
{
    if s.len() > 0 && is_ws(s[s.len() - 1]) {
        spec_trim_end(s.take(s.len() - 1))
    } else {
        s
    }
}

/// `s` with whitespace removed from both ends.
pub open spec fn spec_trimmed(s: Seq<u8>) -> Seq<u8> {
    spec_trim_end(spec_trim_start(s))
}

pub proof fn lemma_trim_start_is(s: Seq<u8>, a: int)
    requires
        0 <= a <= s.len(),
        forall|i: int| 0 <= i < a ==> is_ws(#[trigger] s[i]),
        a < s.len() ==> !is_ws(s[a]),
    ensures
        spec_trim_start(s) == s.skip(a),
    decreases a,
{
    if a == 0 {
        assert(s.skip(0) =~= s);
    } else {
        assert(is_ws(s[0]));
        let t = s.skip(1);
        assert forall|i: int| 0 <= i < a - 1 implies is_ws(#[trigger] t[i]) by {
            assert(t[i] == s[i + 1]);
        }
        if a - 1 < t.len() {
            assert(t[a - 1] == s[a]);
        }
        lemma_trim_start_is(t, a - 1);
        assert(t.skip(a - 1) =~= s.skip(a));
    }
}

pub proof fn lemma_trim_end_is(s: Seq<u8>, b: int)
    requires
        0 <= b <= s.len(),
        forall|i: int| b <= i < s.len() ==> is_ws(#[trigger] s[i]),
        b > 0 ==> !is_ws(s[b - 1]),
    ensures
        spec_trim_end(s) == s.take(b),
    decreases s.len() - b,
{
    if b == s.len() {
        if s.len() > 0 && is_ws(s[s.len() - 1]) {
            assert(false);
        }
        assert(s.take(b) =~= s);
    } else {
        assert(is_ws(s[s.len() - 1]));
        let t = s.take(s.len() - 1);
        assert forall|i: int| b <= i < t.len() implies is_ws(#[trigger] t[i]) by {
            assert(t[i] == s[i]);
        }
        if b > 0 {
            assert(t[b - 1] == s[b - 1]);
        }
        lemma_trim_end_is(t, b);
        assert(t.take(b) =~= s.take(b));
    }
}

/// Start and end of the whitespace-trimmed middle of `s`.
pub fn trimmed_range(s: &[u8]) -> (r: (usize, usize))
    ensures
        r.0 <= r.1 <= s@.len(),
        s@.subrange(r.0 as int, r.1 as int) == spec_trimmed(s@),
{
    let n = s.len();
    let mut a: usize = 0;
    while a < n && (s[a] == SPACE || s[a] == TAB || s[a] == CR)
        invariant
            n == s@.len(),
            0 <= a <= n,
            forall|i: int| 0 <= i < a ==> is_ws(#[trigger] s@[i]),
        decreases n - a,
    {
        a += 1;
    }
    proof {
        lemma_trim_start_is(s@, a as int);
    }
    if a == n {
        proof {
            assert(spec_trim_start(s@) =~= Seq::<u8>::empty());
            assert(spec_trimmed(s@) =~= Seq::<u8>::empty());
            assert(s@.subrange(n as int, n as int) =~= Seq::<u8>::empty());
        }
        return (n, n);
    }
    let mut b: usize = n;
    while b > a && (s[b - 1] == SPACE || s[b - 1] == TAB || s[b - 1] == CR)
        invariant
            n == s@.len(),
            0 <= a <= b <= n,
            forall|i: int| b <= i < n ==> is_ws(#[trigger] s@[i]),
        decreases b,
    {
        b -= 1;
    }
    proof {
        let t = s@.skip(a as int);
        assert forall|i: int| b - a <= i < t.len() implies is_ws(#[trigger] t[i]) by {
            assert(t[i] == s@[i + a]);
        }
        if b - a > 0 {
            assert(t[b - a - 1] == s@[b as int - 1]);
        }
        lemma_trim_end_is(t, b - a);
        assert(t.take(b - a) =~= s@.subrange(a as int, b as int));
    }
    (a, b)
}

/// The label line that announces a statement's date, lower-case.
pub open spec fn spec_label() -> Seq<u8> {
    seq![115u8, 116, 97, 116, 101, 109, 101, 110, 116, 32, 100, 97, 116, 101]
}

/// A line consisting of exactly the statement-date label, up to case and
/// surrounding whitespace.
pub open spec fn spec_line_is_label(line: Seq<u8>) -> bool {
    lower_seq(spec_trimmed(line)) == spec_label()
}

fn label_vec() -> (v: Vec<u8>)
    ensures
        v@ == spec_label(),
{
    let mut v: Vec<u8> = Vec::new();
    v.push(115);
    v.push(116);
    v.push(97);
    v.push(116);
    v.push(101);
    v.push(109);
    v.push(101);
    v.push(110);
    v.push(116);
    v.push(32);
    v.push(100);
    v.push(97);
    v.push(116);
    v.push(101);
    proof {
        assert(v@ =~= spec_label());
    }
    v
}

pub fn line_is_label(line: &[u8]) -> (r: bool)
    ensures
        r == spec_line_is_label(line@),
{
    let (a, b) = trimmed_range(line);
    let lab = label_vec();
    let r = eq_ignore_case(&line[a..b], lab.as_slice());
    proof {
        assert(lower_seq(spec_label()) =~= spec_label());
    }
    r
}

} // verus!
