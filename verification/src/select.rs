//! The pipeline's selection step: from a sequence of per-asset resolution
//! outcomes, drop the absent ones and the CIDs already downloaded, and keep
//! at most the requested number, in order.

use vstd::prelude::*;

verus! {

/// The selection rule: walk the outcomes in order; keep each present CID
/// that is not among `existing`; stop once `count` CIDs are kept.
pub open spec fn spec_select(
    cids: Seq<Option<Seq<char>>>,
    existing: Seq<Seq<char>>,
    count: nat,
) -> Seq<Seq<char>>
    decreases cids.len(),
{
    if count == 0 || cids.len() == 0 {
        Seq::empty()
    } else {
        let rest = cids.skip(1);
        match cids[0] {
            Some(c) => if !existing.contains(c) {
                seq![c] + spec_select(rest, existing, (count - 1) as nat)
            } else {
                spec_select(rest, existing, count)
            },
            None => spec_select(rest, existing, count),
        }
    }
}

/// How many outcomes are present and not already downloaded: the number of
/// CIDs the selection could ever yield.
pub open spec fn spec_eligible_count(
    cids: Seq<Option<Seq<char>>>,
    existing: Seq<Seq<char>>,
) -> nat
    decreases cids.len(),
{
    if cids.len() == 0 {
        0
    } else {
        let rest_count = spec_eligible_count(cids.skip(1), existing);
        match cids[0] {
            Some(c) => if !existing.contains(c) {
                rest_count + 1
            } else {
                rest_count
            },
            None => rest_count,
        }
    }
}

/// Deduplication law: a CID already among `existing` is never selected.
pub proof fn lemma_select_excludes_existing(
    cids: Seq<Option<Seq<char>>>,
    existing: Seq<Seq<char>>,
    count: nat,
)
    ensures
        forall|i: int|
            0 <= i < spec_select(cids, existing, count).len() ==> !existing.contains(
                spec_select(cids, existing, count)[i],
            ),
    decreases cids.len(),
{
    let sel = spec_select(cids, existing, count);
    if count == 0 || cids.len() == 0 {
    } else {
        let rest = cids.skip(1);
        assert forall|i: int| 0 <= i < sel.len() implies !existing.contains(sel[i]) by {
            match cids[0] {
                Some(c) => {
                    if !existing.contains(c) {
                        lemma_select_excludes_existing(rest, existing, (count - 1) as nat);
                        let tail = spec_select(rest, existing, (count - 1) as nat);
                        assert(sel == seq![c] + tail);
                        if i == 0 {
                            assert(sel[0] == c);
                        } else {
                            assert(sel[i] == tail[i - 1]);
                            assert(!existing.contains(tail[i - 1]));
                        }
                    } else {
                        lemma_select_excludes_existing(rest, existing, count);
                        assert(sel == spec_select(rest, existing, count));
                        assert(!existing.contains(spec_select(rest, existing, count)[i]));
                    }
                },
                None => {
                    lemma_select_excludes_existing(rest, existing, count);
                    assert(sel == spec_select(rest, existing, count));
                    assert(!existing.contains(spec_select(rest, existing, count)[i]));
                },
            }
        }
    }
}

/// Bound law: the selection never exceeds `count`, and falls short of
/// `count` exactly when fewer eligible CIDs existed; its length is the
/// smaller of the two.
pub proof fn lemma_select_len(
    cids: Seq<Option<Seq<char>>>,
    existing: Seq<Seq<char>>,
    count: nat,
)
    ensures
        spec_select(cids, existing, count).len() == if count
            <= spec_eligible_count(cids, existing) {
            count
        } else {
            spec_eligible_count(cids, existing)
        },
    decreases cids.len(),
{
    if count == 0 || cids.len() == 0 {
    } else {
        let rest = cids.skip(1);
        match cids[0] {
            Some(c) => {
                if !existing.contains(c) {
                    lemma_select_len(rest, existing, (count - 1) as nat);
                } else {
                    lemma_select_len(rest, existing, count);
                }
            },
            None => {
                lemma_select_len(rest, existing, count);
            },
        }
    }
}

/// Idempotence law: when a later run's `existing` set covers everything an
/// earlier run selected, the two selections share no CID, whatever assets
/// and bound the later run sees.
pub proof fn lemma_select_runs_disjoint(
    first: Seq<Seq<char>>,
    cids: Seq<Option<Seq<char>>>,
    existing: Seq<Seq<char>>,
    count: nat,
)
    requires
        forall|i: int| 0 <= i < first.len() ==> existing.contains(first[i]),
    ensures
        forall|i: int, j: int|
            0 <= i < spec_select(cids, existing, count).len() && 0 <= j < first.len()
                ==> spec_select(cids, existing, count)[i] != first[j],
{
    lemma_select_excludes_existing(cids, existing, count);
}

/// Whether `needle` occurs in `haystack`, by character-for-character
/// comparison.
pub fn contains_string(haystack: &Vec<String>, needle: &String) -> (r: bool)
    ensures
        r == haystack.deep_view().contains(needle@),
{
    let mut i: usize = 0;
    while i < haystack.len()
        invariant
            0 <= i <= haystack.len(),
            haystack.deep_view().len() == haystack.len(),
            forall|k: int| 0 <= k < i ==> haystack.deep_view()[k] != needle@,
        decreases haystack.len() - i,
    {
        proof {
            assert(haystack.deep_view()[i as int] == haystack@[i as int]@);
        }
        if haystack[i].eq(needle) {
            return true;
        }
        i += 1;
    }
    false
}

/// The executable selection: present, not already downloaded, at most
/// `count`, in the order the outcomes arrived.
pub fn select_cids(resolved: &Vec<Option<String>>, existing: &Vec<String>, count: usize) -> (r:
    Vec<String>)
    ensures
        r.deep_view() == spec_select(resolved.deep_view(), existing.deep_view(), count as nat),
        r@.len() <= count,
        r@.len() == if count as nat <= spec_eligible_count(
            resolved.deep_view(),
            existing.deep_view(),
        ) {
            count as nat
        } else {
            spec_eligible_count(resolved.deep_view(), existing.deep_view())
        },
        forall|i: int|
            0 <= i < r.deep_view().len() ==> !existing.deep_view().contains(r.deep_view()[i]),
{
    let ghost all = resolved.deep_view();
    let ghost eset = existing.deep_view();
    let mut out: Vec<String> = Vec::new();
    let mut i: usize = 0;
    proof {
        assert(out.deep_view() =~= Seq::<Seq<char>>::empty());
        assert(all.skip(0) =~= all);
        assert(Seq::<Seq<char>>::empty() + spec_select(all, eset, count as nat) =~= spec_select(
            all,
            eset,
            count as nat,
        ));
    }
    while i < resolved.len() && out.len() < count
        invariant
            0 <= i <= resolved.len(),
            all.len() == resolved.len(),
            all == resolved.deep_view(),
            eset == existing.deep_view(),
            out.len() <= count,
            out.deep_view() + spec_select(all.skip(i as int), eset, (count - out.len()) as nat)
                == spec_select(all, eset, count as nat),
        decreases resolved.len() - i,
    {
        let ghost prev = out.deep_view();
        let ghost remaining: nat = (count - out.len()) as nat;
        proof {
            assert(all[i as int] == resolved@[i as int].deep_view());
            assert(all.skip(i as int)[0] == all[i as int]);
            assert(all.skip(i as int).skip(1) =~= all.skip(i as int + 1));
        }
        match &resolved[i] {
            Some(c) => {
                if !contains_string(existing, c) {
                    out.push(c.clone());
                    proof {
                        assert(out.deep_view() =~= prev + seq![c@]);
                        assert(spec_select(all.skip(i as int), eset, remaining) == seq![c@]
                            + spec_select(all.skip(i as int + 1), eset, (remaining - 1) as nat));
                        assert((prev + seq![c@]) + spec_select(
                            all.skip(i as int + 1),
                            eset,
                            (remaining - 1) as nat,
                        ) =~= prev + (seq![c@] + spec_select(
                            all.skip(i as int + 1),
                            eset,
                            (remaining - 1) as nat,
                        )));
                    }
                }
            },
            None => {},
        }
        i += 1;
    }
    proof {
        if out.len() == count {
            assert(spec_select(all.skip(i as int), eset, 0) =~= Seq::<Seq<char>>::empty());
        } else {
            assert(all.skip(i as int) =~= Seq::<Option<Seq<char>>>::empty());
        }
        assert(out.deep_view() + Seq::<Seq<char>>::empty() =~= out.deep_view());
        lemma_select_excludes_existing(all, eset, count as nat);
        lemma_select_len(all, eset, count as nat);
    }
    out
}

} // verus!
