//! Counts over per-source sequences, with the lemmas the runner needs.

use vstd::prelude::*;

verus! {

/// How many entries of `s` are still `false`, that is, how many sources have
/// not ended yet.
pub open spec fn count_open(s: Seq<bool>) -> nat
    decreases s.len(),
{
    if s.len() == 0 {
        0
    } else {
        count_open(s.drop_last()) + if s.last() { 0nat } else { 1nat }
    }
}

/// The sum of a sequence of counts.
pub open spec fn total(s: Seq<nat>) -> nat
    decreases s.len(),
{
    if s.len() == 0 {
        0
    } else {
        total(s.drop_last()) + s.last()
    }
}

/// Marking one open entry as ended lowers the open count by one.
pub proof fn lemma_close_one(s: Seq<bool>, i: int)
    requires
        0 <= i < s.len(),
        !s[i],
    ensures
        count_open(s.update(i, true)) + 1 == count_open(s),
    decreases s.len(),
{
    let t = s.update(i, true);
    if i == s.len() - 1 {
        assert(t.drop_last() =~= s.drop_last());
    } else {
        assert(t.drop_last() =~= s.drop_last().update(i, true));
        lemma_close_one(s.drop_last(), i);
    }
}

/// No entry is open exactly when the open count is zero.
pub proof fn lemma_none_open(s: Seq<bool>)
    ensures
        count_open(s) == 0 <==> forall|j: int| 0 <= j < s.len() ==> s[j],
    decreases s.len(),
{
    if s.len() > 0 {
        lemma_none_open(s.drop_last());
        if count_open(s) == 0 {
            assert forall|j: int| 0 <= j < s.len() implies s[j] by {
                if j < s.len() - 1 {
                    assert(s.drop_last()[j] == s[j]);
                }
            }
        }
        if forall|j: int| 0 <= j < s.len() ==> s[j] {
            assert forall|j: int| 0 <= j < s.drop_last().len() implies s.drop_last()[j] by {
                assert(s.drop_last()[j] == s[j]);
            }
        }
    }
}

/// A sequence of `n` entries, all open, has `n` open entries.
pub proof fn lemma_all_open(n: nat)
    ensures
        count_open(Seq::new(n, |j: int| false)) == n,
    decreases n,
{
    if n > 0 {
        let s = Seq::new(n, |j: int| false);
        assert(s.drop_last() =~= Seq::new((n - 1) as nat, |j: int| false));
        lemma_all_open((n - 1) as nat);
    }
}

/// Adding one to one entry adds one to the total.
pub proof fn lemma_bump_one(s: Seq<nat>, i: int)
    requires
        0 <= i < s.len(),
    ensures
        total(s.update(i, s[i] + 1)) == total(s) + 1,
    decreases s.len(),
{
    let t = s.update(i, s[i] + 1);
    if i == s.len() - 1 {
        assert(t.drop_last() =~= s.drop_last());
    } else {
        assert(t.drop_last() =~= s.drop_last().update(i, s[i] + 1));
        lemma_bump_one(s.drop_last(), i);
    }
}

/// `n` entries that all equal `k` add up to `n * k`.
pub proof fn lemma_total_uniform(s: Seq<nat>, k: nat)
    requires
        forall|j: int| 0 <= j < s.len() ==> s[j] == k,
    ensures
        total(s) == s.len() * k,
    decreases s.len(),
{
    if s.len() > 0 {
        lemma_total_uniform(s.drop_last(), k);
        assert(total(s) == (s.len() - 1) * k + k);
        assert((s.len() - 1) * k + k == s.len() * k) by (nonlinear_arith);
    }
}

} // verus!
