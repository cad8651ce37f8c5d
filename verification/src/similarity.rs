//! Lexical closeness of two strings: Dice's coefficient over character
//! bigrams, case-insensitive.
//!
//! The score of `a` and `b` is `2 * overlap / total`, where `overlap`
//! counts the bigram positions of `b` whose pair also occurs among `a`'s
//! bigrams, and `total` is the number of bigram positions traversed across
//! both strings. Strings equal after lowercasing score `1` exactly, and
//! when no bigram position exists at all the score is `0` rather than a
//! division fault. The result is kept as an exact fraction so that ranking
//! by score needs no floating point.

use vstd::prelude::*;

verus! {

use vstd::seq_lib::group_seq_lib_default;
use vstd::string::StrSliceExecFns;

/// What `str::to_lowercase` returns: a function of the characters alone.
pub uninterp spec fn lower_of(s: Seq<char>) -> Seq<char>;

/// Relies on `str::to_lowercase`: Unicode lowercasing of the whole string,
/// determined by the input characters alone; an empty string stays empty.
pub assume_specification[ str::to_lowercase ](s: &str) -> (r: String)
    ensures
        r@ == lower_of(s@),
        s@.len() == 0 ==> r@.len() == 0,
;

/// All adjacent character pairs of `s`, one per sliding-window position,
/// in traversal order.
pub open spec fn bigrams(s: Seq<char>) -> Seq<(char, char)> {
    Seq::new(if s.len() < 2 { 0 } else { (s.len() - 1) as nat }, |i: int| (s[i], s[i + 1]))
}

/// The number of bigram positions traversed across both strings: the
/// denominator of the score.
pub open spec fn bigram_total(a: Seq<char>, b: Seq<char>) -> nat {
    bigrams(a).len() + bigrams(b).len()
}

/// How many of the first `j` bigram positions of `b` hold a pair that also
/// occurs among `a`'s bigrams (counted per position of `b`; the membership
/// test against `a` is not multiplicity-aware).
pub open spec fn overlap_upto(a: Seq<char>, b: Seq<char>, j: int) -> nat {
    bigrams(b).take(j).filter(|p: (char, char)| bigrams(a).contains(p)).len()
}

/// The overlap over all bigram positions of `b`: the half-numerator of the
/// score.
pub open spec fn bigram_overlap(a: Seq<char>, b: Seq<char>) -> nat {
    overlap_upto(a, b, bigrams(b).len() as int)
}

/// An exact similarity score `num / den`, with `den >= 1`.
#[derive(Clone, Copy, Debug, PartialEq, Eq, Structural)]
pub struct Score {
    pub num: u64,
    pub den: u64,
}

/// The score of `a` and `b` as an exact fraction `(numerator, denominator)`:
/// `1` when the lowercased strings are equal, `0` when either side is empty
/// or no bigram position exists, and `2 * overlap / total` otherwise.
pub open spec fn score_of(a: Seq<char>, b: Seq<char>) -> (nat, nat) {
    let la = lower_of(a);
    let lb = lower_of(b);
    if la == lb {
        (1nat, 1nat)
    } else if la.len() == 0 || lb.len() == 0 {
        (0nat, 1nat)
    } else if bigram_total(la, lb) == 0 {
        (0nat, 1nat)
    } else {
        (2 * bigram_overlap(la, lb), bigram_total(la, lb))
    }
}

/// The bigram counters stay well below the machine limits; this holds for
/// every string that fits in a couple of gigabytes of memory.
pub open spec fn similarity_in_range(a: Seq<char>, b: Seq<char>) -> bool {
    lower_of(a).len() <= u32::MAX && lower_of(b).len() <= u32::MAX
}

/// Everything the scorer promises of a result `s` for the inputs `a` and
/// `b`: the denominator is positive, strings equal after lowercasing score
/// exactly `1/1`, and otherwise the fraction is exactly `score_of` (with a
/// pinned `0/1` fallback for strings too large for the counters).
pub open spec fn scored(a: Seq<char>, b: Seq<char>, s: Score) -> bool {
    &&& s.den >= 1
    &&& (lower_of(a) == lower_of(b) ==> s.num == 1 && s.den == 1)
    &&& (lower_of(a) != lower_of(b) && similarity_in_range(a, b) ==> (
        s.num as nat,
        s.den as nat,
    ) == score_of(a, b))
    &&& (lower_of(a) != lower_of(b) && !similarity_in_range(a, b) ==> s.num == 0 && s.den == 1)
}

/// A string always scores exactly `1` against itself, case-insensitively.
pub proof fn lemma_similarity_self(a: Seq<char>, s: Score)
    requires
        scored(a, a, s),
    ensures
        s.num == 1,
        s.den == 1,
{
}

/// The case-insensitive bigram similarity of two strings: equal strings
/// score exactly 1, strings without common bigrams score 0.
pub fn similarity(a: &str, b: &str) -> (r: Score)
    ensures
        scored(a@, b@, r),
{
    broadcast use group_seq_lib_default;

    let la_string = a.to_lowercase();
    let lb_string = b.to_lowercase();
    if la_string == lb_string {
        return Score { num: 1, den: 1 };
    }
    let la = str_chars(la_string.as_str());
    let lb = str_chars(lb_string.as_str());
    if la.len() == 0 || lb.len() == 0 {
        return Score { num: 0, den: 1 };
    }
    if la.len() > u32::MAX as usize || lb.len() > u32::MAX as usize {
        return Score { num: 0, den: 1 };
    }
    let bg1 = bigram_vec(&la);
    let overlap = count_overlap(&bg1, Ghost(la@), &lb);
    let total: u64 = (la.len() as u64 - 1) + (lb.len() as u64 - 1);
    if total == 0 {
        Score { num: 0, den: 1 }
    } else {
        Score { num: 2 * (overlap as u64), den: total }
    }
}

/// Collects the characters of `s` into a vector.
pub fn str_chars(s: &str) -> (v: Vec<char>)
    ensures
        v@ == s@,
{
    let n = s.unicode_len();
    let mut v: Vec<char> = Vec::new();
    let mut i: usize = 0;
    while i < n
        invariant
            i <= n,
            n == s@.len(),
            v@ == s@.take(i as int),
        decreases n - i,
    {
        let c = s.get_char(i);
        v.push(c);
        proof {
            assert(s@.take(i as int).push(s@[i as int]) =~= s@.take(i as int + 1));
        }
        i += 1;
    }
    proof {
        assert(s@.take(n as int) =~= s@);
    }
    v
}

/// Does `v` hold the pair `p`?
fn pair_vec_contains(v: &Vec<(char, char)>, p: (char, char)) -> (b: bool)
    ensures
        b == v@.contains(p),
{
    let mut i: usize = 0;
    while i < v.len()
        invariant
            i <= v@.len(),
            forall|k: int| 0 <= k < i ==> v@[k] != p,
        decreases v@.len() - i,
    {
        if v[i].0 == p.0 && v[i].1 == p.1 {
            return true;
        }
        i += 1;
    }
    false
}

/// All bigrams of `s`, one per position.
fn bigram_vec(s: &Vec<char>) -> (r: Vec<(char, char)>)
    requires
        s@.len() >= 1,
    ensures
        r@ == bigrams(s@),
{
    let mut r: Vec<(char, char)> = Vec::new();
    let mut i: usize = 1;
    while i < s.len()
        invariant
            1 <= i <= s@.len(),
            r@ == bigrams(s@).take(i - 1),
        decreases s@.len() - i,
    {
        let p = (s[i - 1], s[i]);
        proof {
            assert(bigrams(s@)[i - 1] == p);
            assert(bigrams(s@).take(i - 1).push(p) =~= bigrams(s@).take(i as int));
        }
        r.push(p);
        i += 1;
    }
    proof {
        assert(bigrams(s@).take(s@.len() - 1) =~= bigrams(s@));
    }
    r
}

/// Walks the bigram positions of `b`, counting how many hold a pair that
/// occurs among `a`'s bigrams.
fn count_overlap(bg1: &Vec<(char, char)>, a: Ghost<Seq<char>>, b: &Vec<char>) -> (r: usize)
    requires
        b@.len() >= 1,
        bg1@ == bigrams(a@),
    ensures
        r == bigram_overlap(a@, b@),
        r <= b@.len() - 1,
{
    let mut overlap: usize = 0;
    let mut j: usize = 1;
    while j < b.len()
        invariant
            1 <= j <= b@.len(),
            bg1@ == bigrams(a@),
            overlap == overlap_upto(a@, b@, j - 1),
            overlap <= j - 1,
        decreases b@.len() - j,
    {
        let p = (b[j - 1], b[j]);
        proof {
            assert(bigrams(b@)[j - 1] == p);
        }
        let is_seen = pair_vec_contains(bg1, p);
        proof {
            let pred = |q: (char, char)| bigrams(a@).contains(q);
            let prefix = bigrams(b@).take(j - 1);
            assert(bigrams(b@).take(j as int) =~= prefix + seq![p]);
            assert(bigrams(b@).take(j as int).filter(pred) == prefix.filter(pred) + seq![
                p,
            ].filter(pred)) by {
                vstd::seq::Seq::<(char, char)>::filter_distributes_over_add(prefix, seq![p], pred);
            }
            assert(seq![p].drop_last() =~= Seq::<(char, char)>::empty());
            reveal_with_fuel(Seq::filter, 2);
            assert(seq![p].filter(pred) == if pred(p) {
                seq![p]
            } else {
                Seq::<(char, char)>::empty()
            });
        }
        if is_seen {
            overlap += 1;
        }
        j += 1;
    }
    proof {
        assert(bigrams(b@).take(b@.len() - 1) =~= bigrams(b@));
    }
    overlap
}

} // verus!
