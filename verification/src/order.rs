//! Lexicographic ordering of sequences, strings and pairs, and a sort
//! built on it.
//!
//! Two sequences compare by their first differing element; a strict
//! prefix orders before the longer sequence, and sequences whose
//! elements all agree are equal. The same rule compares a pair by its
//! first component and, on a tie, by its second. [`sort_pairs`] orders
//! a collection of `(u64, String)` pairs ascending under that
//! comparator.

use crate::buffer::SequenceBuffer;
use vstd::prelude::*;
use vstd::seq_lib::group_to_multiset_ensures;

verus! {

broadcast use group_to_multiset_ensures;

/// The outcome of a comparison.
#[derive(Clone, Copy, Debug, PartialEq, Eq, Structural)]
pub enum Rank {
    Less,
    Equal,
    Greater,
}

/// The outcome with its two sides swapped.
pub open spec fn rank_flip(r: Rank) -> Rank {
    match r {
        Rank::Less => Rank::Greater,
        Rank::Equal => Rank::Equal,
        Rank::Greater => Rank::Less,
    }
}

/// Lexicographic comparison of two key sequences: the first differing
/// key decides; a strict prefix orders first.
pub open spec fn lex_rank(a: Seq<int>, b: Seq<int>) -> Rank
    decreases a.len(),
{
    if a.len() == 0 && b.len() == 0 {
        Rank::Equal
    } else if a.len() == 0 {
        Rank::Less
    } else if b.len() == 0 {
        Rank::Greater
    } else if a[0] < b[0] {
        Rank::Less
    } else if a[0] > b[0] {
        Rank::Greater
    } else {
        lex_rank(a.drop_first(), b.drop_first())
    }
}

/// The characters of a string as comparison keys: their scalar values.
pub open spec fn char_keys(s: Seq<char>) -> Seq<int> {
    s.map_values(|c: char| c as int)
}

/// The elements of a `u64` sequence as comparison keys.
pub open spec fn u64_keys(s: Seq<u64>) -> Seq<int> {
    s.map_values(|v: u64| v as int)
}

/// Lexicographic comparison of two strings, character by character.
pub open spec fn str_rank(a: Seq<char>, b: Seq<char>) -> Rank {
    lex_rank(char_keys(a), char_keys(b))
}

/// Lexicographic comparison of two pairs: the first component
/// decides, the second breaks its ties.
pub open spec fn pair_rank(a: (u64, Seq<char>), b: (u64, Seq<char>)) -> Rank {
    if a.0 < b.0 {
        Rank::Less
    } else if a.0 > b.0 {
        Rank::Greater
    } else {
        str_rank(a.1, b.1)
    }
}

/// The mathematical value of an owned `(u64, String)` pair.
pub open spec fn pair_view(p: (u64, String)) -> (u64, Seq<char>) {
    (p.0, p.1@)
}

/// `a` orders no later than `b`.
pub open spec fn pair_le(a: (u64, Seq<char>), b: (u64, Seq<char>)) -> bool {
    pair_rank(a, b) != Rank::Greater
}

/// Every element orders no later than each element after it.
pub open spec fn sorted_pairs(s: Seq<(u64, String)>) -> bool {
    forall|i: int, j: int|
        0 <= i < j < s.len() ==> pair_le(pair_view(s[i]), pair_view(s[j]))
}

/// Law: swapping the two sides of a lexicographic comparison flips
/// its outcome.
pub proof fn lemma_lex_rank_flip(a: Seq<int>, b: Seq<int>)
    ensures
        lex_rank(b, a) == rank_flip(lex_rank(a, b)),
    decreases a.len(),
{
    if a.len() != 0 && b.len() != 0 && a[0] == b[0] {
        lemma_lex_rank_flip(a.drop_first(), b.drop_first());
    }
}

/// Law: ordering no later than is transitive over lexicographic
/// comparison.
pub proof fn lemma_lex_rank_le_trans(a: Seq<int>, b: Seq<int>, c: Seq<int>)
    requires
        lex_rank(a, b) != Rank::Greater,
        lex_rank(b, c) != Rank::Greater,
    ensures
        lex_rank(a, c) != Rank::Greater,
    decreases a.len(),
{
    if a.len() != 0 && b.len() != 0 && c.len() != 0 && a[0] == b[0] && b[0] == c[0] {
        lemma_lex_rank_le_trans(a.drop_first(), b.drop_first(), c.drop_first());
    }
}

/// Law: of two pairs, one orders no later than the other.
pub proof fn lemma_pair_le_total(a: (u64, Seq<char>), b: (u64, Seq<char>))
    ensures
        pair_le(a, b) || pair_le(b, a),
{
    lemma_lex_rank_flip(char_keys(a.1), char_keys(b.1));
}

/// Law: ordering no later than is transitive over pairs.
pub proof fn lemma_pair_le_trans(a: (u64, Seq<char>), b: (u64, Seq<char>), c: (u64, Seq<char>))
    requires
        pair_le(a, b),
        pair_le(b, c),
    ensures
        pair_le(a, c),
{
    if a.0 == b.0 && b.0 == c.0 {
        lemma_lex_rank_le_trans(char_keys(a.1), char_keys(b.1), char_keys(c.1));
    }
}

/// Compares two `u64` values.
pub fn cmp_u64(a: u64, b: u64) -> (r: Rank)
    ensures
        r == (if a < b {
            Rank::Less
        } else if a > b {
            Rank::Greater
        } else {
            Rank::Equal
        }),
{
    if a < b {
        Rank::Less
    } else if a > b {
        Rank::Greater
    } else {
        Rank::Equal
    }
}

/// Compares two strings lexicographically by their characters.
pub fn cmp_str(a: &str, b: &str) -> (r: Rank)
    ensures
        r == str_rank(a@, b@),
{
    let la = a.unicode_len();
    let lb = b.unicode_len();
    let shorter = if la < lb {
        la
    } else {
        lb
    };
    let ghost ka = char_keys(a@);
    let ghost kb = char_keys(b@);
    proof {
        assert(ka.skip(0) =~= ka);
        assert(kb.skip(0) =~= kb);
    }
    let mut i: usize = 0;
    while i < shorter
        invariant
            i <= shorter,
            la == a@.len(),
            lb == b@.len(),
            shorter == if la < lb {
                la
            } else {
                lb
            },
            ka == char_keys(a@),
            kb == char_keys(b@),
            lex_rank(ka, kb) == lex_rank(ka.skip(i as int), kb.skip(i as int)),
        decreases shorter - i,
    {
        let ca = a.get_char(i);
        let cb = b.get_char(i);
        assert(ka.skip(i as int)[0] == ka[i as int]);
        assert(kb.skip(i as int)[0] == kb[i as int]);
        if (ca as u32) < (cb as u32) {
            return Rank::Less;
        }
        if (ca as u32) > (cb as u32) {
            return Rank::Greater;
        }
        proof {
            assert(ka.skip(i as int).drop_first() =~= ka.skip(i + 1));
            assert(kb.skip(i as int).drop_first() =~= kb.skip(i + 1));
        }
        i = i + 1;
    }
    if la == lb {
        assert(ka.skip(i as int).len() == 0 && kb.skip(i as int).len() == 0);
        Rank::Equal
    } else if la < lb {
        assert(ka.skip(i as int).len() == 0 && kb.skip(i as int).len() != 0);
        Rank::Less
    } else {
        assert(kb.skip(i as int).len() == 0 && ka.skip(i as int).len() != 0);
        Rank::Greater
    }
}

/// Compares two buffers of `u64` elements lexicographically.
pub fn cmp_buffers(a: &SequenceBuffer<u64>, b: &SequenceBuffer<u64>) -> (r: Rank)
    ensures
        r == lex_rank(u64_keys(a@), u64_keys(b@)),
{
    let la = a.len();
    let lb = b.len();
    let shorter = if la < lb {
        la
    } else {
        lb
    };
    let ghost ka = u64_keys(a@);
    let ghost kb = u64_keys(b@);
    proof {
        assert(ka.skip(0) =~= ka);
        assert(kb.skip(0) =~= kb);
    }
    let mut i: usize = 0;
    while i < shorter
        invariant
            i <= shorter,
            la == a@.len(),
            lb == b@.len(),
            shorter == if la < lb {
                la
            } else {
                lb
            },
            ka == u64_keys(a@),
            kb == u64_keys(b@),
            lex_rank(ka, kb) == lex_rank(ka.skip(i as int), kb.skip(i as int)),
        decreases shorter - i,
    {
        let va = match a.get(i) {
            Some(v) => *v,
            None => vstd::pervasive::unreached(),  // i < shorter <= a.len()
        };
        let vb = match b.get(i) {
            Some(v) => *v,
            None => vstd::pervasive::unreached(),  // i < shorter <= b.len()
        };
        assert(ka.skip(i as int)[0] == ka[i as int]);
        assert(kb.skip(i as int)[0] == kb[i as int]);
        if va < vb {
            return Rank::Less;
        }
        if va > vb {
            return Rank::Greater;
        }
        proof {
            assert(ka.skip(i as int).drop_first() =~= ka.skip(i + 1));
            assert(kb.skip(i as int).drop_first() =~= kb.skip(i + 1));
        }
        i = i + 1;
    }
    if la == lb {
        assert(ka.skip(i as int).len() == 0 && kb.skip(i as int).len() == 0);
        Rank::Equal
    } else if la < lb {
        assert(ka.skip(i as int).len() == 0 && kb.skip(i as int).len() != 0);
        Rank::Less
    } else {
        assert(kb.skip(i as int).len() == 0 && ka.skip(i as int).len() != 0);
        Rank::Greater
    }
}

/// Compares two `(u64, String)` pairs: the number decides, the string
/// breaks its ties.
pub fn cmp_pair(a: &(u64, String), b: &(u64, String)) -> (r: Rank)
    ensures
        r == pair_rank(pair_view(*a), pair_view(*b)),
{
    match cmp_u64(a.0, b.0) {
        Rank::Equal => cmp_str(a.1.as_str(), b.1.as_str()),
        r => r,
    }
}

/// Inserting an element anywhere into a sequence adds exactly that
/// element to its multiset of contents.
proof fn lemma_insert_to_multiset<T>(s: Seq<T>, p: int, x: T)
    requires
        0 <= p <= s.len(),
    ensures
        s.insert(p, x).to_multiset() == s.to_multiset().insert(x),
{
    let si = s.insert(p, x);
    assert(si.remove(p) =~= s);
    assert(si[p] == x);
    assert(si.to_multiset().remove(x) =~= s.to_multiset());
    assert(si.contains(x));
    assert(si.to_multiset().count(x) > 0);
    assert(si.to_multiset() =~= s.to_multiset().insert(x));
}

/// Sorts a collection of `(u64, String)` pairs ascending under the
/// lexicographic pair comparator: the result is sorted and holds
/// exactly the elements of the input.
pub fn sort_pairs(items: Vec<(u64, String)>) -> (r: Vec<(u64, String)>)
    ensures
        sorted_pairs(r@),
        r@.to_multiset() == items@.to_multiset(),
{
    let mut rest = items;
    let mut out: Vec<(u64, String)> = Vec::new();
    while rest.len() > 0
        invariant
            sorted_pairs(out@),
            out@.to_multiset().add(rest@.to_multiset()) == items@.to_multiset(),
        decreases rest.len(),
    {
        let ghost rest_before = rest@;
        let x = rest.pop().unwrap();
        proof {
            assert(rest_before =~= rest@.push(x));
            assert(rest@.push(x).to_multiset() =~= rest@.to_multiset().insert(x));
        }
        let mut p: usize = 0;
        while p < out.len() && cmp_pair(&out[p], &x) != Rank::Greater
            invariant
                p <= out@.len(),
                forall|k: int|
                    0 <= k < p ==> pair_le(pair_view(out@[k]), pair_view(x)),
            decreases out@.len() - p,
        {
            p = p + 1;
        }
        let ghost pre = out@;
        let ghost px = pair_view(x);
        out.insert(p, x);
        proof {
            assert(out@ == pre.insert(p as int, x));
            lemma_insert_to_multiset(pre, p as int, x);
            assert(out@.to_multiset().add(rest@.to_multiset()) =~= items@.to_multiset());
            assert forall|i: int, j: int|
                0 <= i < j < out@.len() implies pair_le(
                pair_view(out@[i]),
                pair_view(out@[j]),
            ) by {
                if j < p {
                    assert(out@[i] == pre[i] && out@[j] == pre[j]);
                } else if j == p {
                    assert(out@[i] == pre[i] && out@[j] == x);
                } else if i < p {
                    assert(out@[i] == pre[i] && out@[j] == pre[j - 1]);
                } else if i == p {
                    assert(out@[i] == x && out@[j] == pre[j - 1]);
                    assert(pair_rank(pair_view(pre[p as int]), px) == Rank::Greater);
                    lemma_pair_le_total(px, pair_view(pre[p as int]));
                    if p < j - 1 {
                        lemma_pair_le_trans(
                            px,
                            pair_view(pre[p as int]),
                            pair_view(pre[j - 1]),
                        );
                    }
                } else {
                    assert(out@[i] == pre[i - 1] && out@[j] == pre[j - 1]);
                }
            }
        }
    }
    proof {
        assert(rest@.len() == 0);
        assert(rest@.to_multiset().len() == 0);
        vstd::multiset::lemma_multiset_empty_len::<(u64, String)>(rest@.to_multiset());
        assert(out@.to_multiset().add(rest@.to_multiset()) =~= out@.to_multiset());
    }
    out
}

} // verus!
