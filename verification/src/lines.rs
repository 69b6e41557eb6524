//! Splitting extracted document text into lines, the way the extractor
//! consumes it: lines end at a line feed, an immediately preceding carriage
//! return belongs to the terminator, and a final unterminated line is kept
//! as it stands.

use vstd::prelude::*;

use crate::text::{spec_find, lemma_find_is, CR, NL};

verus! {

pub proof fn lemma_find_range(s: Seq<u8>, b: u8)
    ensures
        0 <= spec_find(s, b) <= s.len(),
        decreases s.len(),
{
    if s.len() > 0 && s[0] != b {
        lemma_find_range(s.skip(1), b);
    }
}

/// `s` without a trailing carriage return.
pub open spec fn strip_cr(s: Seq<u8>) -> Seq<u8> {
    if s.len() > 0 && s[s.len() - 1] == CR {
        s.take(s.len() - 1)
    } else {
        s
    }
}

/// The lines of `t`, split at line feeds.
pub open spec fn spec_lines(t: Seq<u8>) -> Seq<Seq<u8>>
    decreases t.len(),
    via spec_lines_decreases
{
    if t.len() == 0 {
        Seq::empty()
    } else {
        let k = spec_find(t, NL);
        if k == t.len() {
            seq![t]
        } else {
            seq![strip_cr(t.take(k))] + spec_lines(t.skip(k + 1))
        }
    }
}

#[via_fn]
proof fn spec_lines_decreases(t: Seq<u8>) {
    lemma_find_range(t, NL);
}

/// Splits `t` into lines; the result is exactly [`spec_lines`] of `t`.
pub fn split_lines(t: &[u8]) -> (r: Vec<Vec<u8>>)
    ensures
        r.deep_view() == spec_lines(t@),
{
    let n = t.len();
    let mut acc: Vec<Vec<u8>> = Vec::new();
    let mut start: usize = 0;
    let mut i: usize = 0;
    proof {
        assert(acc.deep_view() =~= Seq::<Seq<u8>>::empty());
        assert(t@.skip(0) =~= t@);
        assert(Seq::<Seq<u8>>::empty() + spec_lines(t@) =~= spec_lines(t@));
    }
    while i < n
        invariant
            n == t@.len(),
            0 <= start <= i <= n,
            forall|j: int| start <= j < i ==> t@[j] != NL,
            spec_lines(t@) == acc.deep_view() + spec_lines(t@.skip(start as int)),
        decreases n - i,
    {
        if t[i] == NL {
            let mut line: Vec<u8> = Vec::new();
            let end = if i > start && t[i - 1] == CR {
                i - 1
            } else {
                i
            };
            line.extend_from_slice(&t[start..end]);
            proof {
                let u = t@.skip(start as int);
                assert forall|j: int| 0 <= j < i - start implies u[j] != NL by {
                    assert(u[j] == t@[j + start]);
                }
                assert(u[i - start] == t@[i as int]);
                lemma_find_is(u, NL, i - start);
                assert(u.take(i - start) =~= t@.subrange(start as int, i as int));
                assert(u.skip(i - start + 1) =~= t@.skip(i + 1));
                assert(line@ =~= strip_cr(u.take(i - start)));
            }
            let ghost dv0 = acc.deep_view();
            let ghost lv = line@;
            acc.push(line);
            proof {
                let u = t@.skip(start as int);
                assert(acc.deep_view() =~~= dv0.push(lv));
                assert(dv0.push(lv) =~~= dv0 + seq![strip_cr(u.take(i - start))]);
                assert(dv0 + spec_lines(u) =~~= acc.deep_view() + spec_lines(t@.skip(i + 1)));
            }
            start = i + 1;
        }
        i += 1;
    }
    if start < n {
        let mut line: Vec<u8> = Vec::new();
        line.extend_from_slice(&t[start..n]);
        proof {
            let u = t@.skip(start as int);
            assert forall|j: int| 0 <= j < u.len() implies u[j] != NL by {
                assert(u[j] == t@[j + start]);
            }
            lemma_find_is(u, NL, u.len() as int);
            assert(line@ =~= u);
        }
        let ghost dv0 = acc.deep_view();
        let ghost lv = line@;
        acc.push(line);
        proof {
            let u = t@.skip(start as int);
            assert(acc.deep_view() =~~= dv0.push(lv));
            assert(dv0.push(lv) =~~= dv0 + seq![u]);
        }
    } else {
        proof {
            assert(t@.skip(start as int) =~= Seq::<u8>::empty());
            assert(acc.deep_view() + spec_lines(Seq::<u8>::empty()) =~= acc.deep_view());
        }
    }
    acc
}

} // verus!
