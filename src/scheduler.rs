//! Fault isolation over a batch: failed files are dropped, the run goes on.
use crate::model::{DicomInstance, InstanceView};
use crate::summary::instances_view;
use vstd::prelude::*;
use vstd::seq_lib::{group_to_multiset_ensures, lemma_multiset_commutative, to_multiset_len};

verus! {

/// The outcome of processing one file: its record, or why it failed.
pub type FileOutcome = Result<DicomInstance, String>;

/// The records of the files that succeeded, in the order of `s`.
pub open spec fn successes(s: Seq<FileOutcome>) -> Seq<InstanceView>
    decreases s.len(),
{
    if s.len() == 0 {
        Seq::empty()
    } else {
        match s.last() {
            Ok(x) => successes(s.drop_last()).push(x@),
            Err(_) => successes(s.drop_last()),
        }
    }
}

/// Keeps the records of the files that succeeded, in order; failures are
/// dropped.
pub fn collect_results(outcomes: Vec<FileOutcome>) -> (r: Vec<DicomInstance>)
    ensures
        instances_view(r@) == successes(outcomes@),
{
    let ghost all = outcomes@;
    let total: usize = outcomes.len();
    let mut rest = outcomes;
    let mut out: Vec<DicomInstance> = Vec::new();
    let mut n: usize = 0;
    assert(all.subrange(0, 0) =~= Seq::<FileOutcome>::empty());
    assert(rest@ =~= all.subrange(0, all.len() as int));
    while rest.len() > 0
        invariant
            all.len() == total,
            n + rest@.len() == all.len(),
            rest@ == all.subrange(n as int, all.len() as int),
            instances_view(out@) == successes(all.subrange(0, n as int)),
        decreases rest@.len(),
    {
        let ghost before = rest@;
        let o = rest.remove(0);
        assert(o == all[n as int]);
        assert(rest@ =~= all.subrange(n + 1, all.len() as int));
        assert(all.subrange(0, n + 1).drop_last() =~= all.subrange(0, n as int));
        assert(all.subrange(0, n + 1).last() == o);
        match o {
            Ok(x) => {
                let ghost prev = out@;
                out.push(x);
                assert(instances_view(out@) =~= instances_view(prev).push(x@));
            },
            Err(_) => {},
        }
        n += 1;
    }
    assert(all.subrange(0, n as int) =~= all);
    out
}

pub proof fn lemma_successes_concat(a: Seq<FileOutcome>, b: Seq<FileOutcome>)
    ensures
        successes(a + b) == successes(a) + successes(b),
    decreases b.len(),
{
    if b.len() == 0 {
        assert(a + b =~= a);
        assert(successes(a) + successes(b) =~= successes(a));
    } else {
        lemma_successes_concat(a, b.drop_last());
        assert((a + b).drop_last() =~= a + b.drop_last());
        assert((a + b).last() == b.last());
        match b.last() {
            Ok(x) => {
                assert(successes(a) + successes(b) =~= (successes(a) + successes(b.drop_last())).push(x@));
            },
            Err(_) => {},
        }
    }
}

/// The records of the outcomes of `s` other than the one at `k`, with that
/// one's record added back, are the records of `s`.
pub proof fn lemma_successes_remove(s: Seq<FileOutcome>, k: int)
    requires
        0 <= k < s.len(),
    ensures
        successes(s).to_multiset() == successes(s.remove(k)).to_multiset().add(
            successes(seq![s[k]]).to_multiset(),
        ),
{
    broadcast use lemma_multiset_commutative;

    let pre = s.subrange(0, k);
    let mid = seq![s[k]];
    let post = s.subrange(k + 1, s.len() as int);
    assert(s =~= pre + mid + post);
    assert(s.remove(k) =~= pre + post);
    lemma_successes_concat(pre + mid, post);
    lemma_successes_concat(pre, mid);
    lemma_successes_concat(pre, post);
    let a = successes(pre).to_multiset();
    let b = successes(mid).to_multiset();
    let c = successes(post).to_multiset();
    assert(successes(s).to_multiset() == a.add(b).add(c));
    assert(successes(s.remove(k)).to_multiset() == a.add(c));
    assert(a.add(b).add(c) =~= a.add(c).add(b));
}

/// Processing the same files in any order keeps the same records: when two
/// outcome lists are permutations of each other, so are their successes.
pub proof fn lemma_order_independent(s1: Seq<FileOutcome>, s2: Seq<FileOutcome>)
    requires
        s1.to_multiset() == s2.to_multiset(),
    ensures
        successes(s1).to_multiset() == successes(s2).to_multiset(),
    decreases s1.len(),
{
    broadcast use group_to_multiset_ensures;

    if s1.len() == 0 {
        to_multiset_len(s1);
        to_multiset_len(s2);
        assert(s2.len() == 0);
        assert(s1 =~= s2);
    } else {
        let last = s1.len() - 1;
        let a = s1[last];
        assert(s1.to_multiset().count(a) > 0) by {
            assert(s1.contains(a));
        }
        assert(s2.contains(a));
        let k = choose|k: int| 0 <= k < s2.len() && s2[k] == a;
        assert(s1.remove(last).to_multiset() == s2.remove(k).to_multiset());
        lemma_order_independent(s1.remove(last), s2.remove(k));
        lemma_successes_remove(s1, last);
        lemma_successes_remove(s2, k);
    }
}

} // verus!
