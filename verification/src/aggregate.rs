//! Aggregator: merges the four source-query results into one collection
//! keyed by merge-request identity. The id-set of the output is exactly
//! the union of the id-sets of the inputs, and no id appears twice; when
//! several sources return the same id, the representation fetched last
//! wins, as the sources describe the same merge request moments apart.

use vstd::prelude::*;
use vstd::pervasive::VecAdditionalExecFns;
use crate::model::MergeRequest;

verus! {

/// The set of global merge-request ids a sequence holds.
pub open spec fn spec_id_set(mrs: Seq<MergeRequest>) -> Set<usize>
    decreases mrs.len(),
{
    if mrs.len() == 0 {
        Set::empty()
    } else {
        spec_id_set(mrs.drop_last()).insert(mrs.last().id.0)
    }
}

/// An id is in the id-set exactly when some member of the sequence bears it.
pub proof fn lemma_id_set_contains(mrs: Seq<MergeRequest>, x: usize)
    ensures
        spec_id_set(mrs).contains(x) <==> exists|k: int|
            0 <= k < mrs.len() && mrs[k].id.0 == x,
    decreases mrs.len(),
{
    if mrs.len() > 0 {
        lemma_id_set_contains(mrs.drop_last(), x);
        if spec_id_set(mrs).contains(x) {
            if mrs.last().id.0 == x {
                assert(mrs[mrs.len() - 1].id.0 == x);
            } else {
                let k = choose|k: int| 0 <= k < mrs.drop_last().len() && mrs.drop_last()[k].id.0
                    == x;
                assert(mrs[k].id.0 == x);
            }
        }
        if exists|k: int| 0 <= k < mrs.len() && mrs[k].id.0 == x {
            let k = choose|k: int| 0 <= k < mrs.len() && mrs[k].id.0 == x;
            if k < mrs.len() - 1 {
                assert(mrs.drop_last()[k].id.0 == x);
            }
        }
    }
}

/// No merge-request id appears twice in the sequence.
pub open spec fn spec_unique_ids(mrs: Seq<MergeRequest>) -> bool {
    forall|i: int, j: int|
        0 <= i < j < mrs.len() ==> mrs[i].id.0 != mrs[j].id.0
}

/// Inserts one merge request into a collection with unique ids: replaces
/// the entry bearing the same id if one is there, appends otherwise.
fn upsert(out: &mut Vec<MergeRequest>, mr: MergeRequest)
    requires
        spec_unique_ids(old(out)@),
    ensures
        spec_unique_ids(final(out)@),
        spec_id_set(final(out)@) == spec_id_set(old(out)@).insert(mr.id.0),
        final(out)@.contains(mr),
        forall|k: int|
            0 <= k < final(out)@.len() ==> final(out)@[k] == mr || old(out)@.contains(
                final(out)@[k],
            ),
{
    let ghost pre = out@;
    let mut i: usize = 0;
    while i < out.len()
        invariant
            i <= out.len(),
            out@ == pre,
            pre == old(out)@,
            spec_unique_ids(pre),
            forall|j: int| 0 <= j < i ==> out@[j].id.0 != mr.id.0,
        decreases out.len() - i,
    {
        if out[i].id.0 == mr.id.0 {
            out.set(i, mr);
            proof {
                assert(out@ == pre.update(i as int, mr));
                assert(out@[i as int] == mr);
                assert(pre[i as int].id.0 == mr.id.0);
                assert(out@.contains(mr));
                assert forall|a: int, b: int| 0 <= a < b < out@.len() implies out@[a].id.0
                    != out@[b].id.0 by {
                    assert(pre[a].id.0 != pre[b].id.0);
                    if a == i {
                        assert(out@[a].id.0 == pre[a].id.0);
                    } else if b == i {
                        assert(out@[b].id.0 == pre[b].id.0);
                    }
                }
                assert forall|x: usize|
                    spec_id_set(out@).contains(x) == spec_id_set(pre).insert(
                        mr.id.0,
                    ).contains(x) by {
                    lemma_id_set_contains(out@, x);
                    lemma_id_set_contains(pre, x);
                    if spec_id_set(pre).insert(mr.id.0).contains(x) {
                        if x == mr.id.0 {
                            assert(out@[i as int].id.0 == x);
                        } else {
                            let k = choose|k: int| 0 <= k < pre.len() && pre[k].id.0 == x;
                            assert(out@[k].id.0 == x);
                        }
                    }
                    if spec_id_set(out@).contains(x) {
                        let k = choose|k: int| 0 <= k < out@.len() && out@[k].id.0 == x;
                        if k != i {
                            assert(pre[k].id.0 == x);
                        }
                    }
                }
                assert(spec_id_set(out@) =~= spec_id_set(pre).insert(mr.id.0));
                assert forall|k: int| 0 <= k < out@.len() implies out@[k] == mr
                    || pre.contains(out@[k]) by {
                    if k != i {
                        assert(out@[k] == pre[k]);
                    }
                }
            }
            return ;
        }
        i += 1;
    }
    out.push(mr);
    proof {
        assert(out@.drop_last() =~= pre);
        assert(out@.last() == mr);
        assert(out@[out@.len() - 1] == mr);
    }
}

/// Merges the four source results into one collection keyed by merge-request
/// id. The output's id-set is exactly the union of the inputs' id-sets, no
/// id appears twice, and every record in the output came from one of the
/// inputs; when sources overlap, a later argument's representation wins.
pub fn aggregate(
    branch_derived: Vec<MergeRequest>,
    reviewing: Vec<MergeRequest>,
    assigned: Vec<MergeRequest>,
    authored: Vec<MergeRequest>,
) -> (r: Vec<MergeRequest>)
    ensures
        spec_unique_ids(r@),
        spec_id_set(r@) == spec_id_set(branch_derived@).union(spec_id_set(reviewing@)).union(
            spec_id_set(assigned@),
        ).union(spec_id_set(authored@)),
        forall|k: int|
            0 <= k < r@.len() ==> branch_derived@.contains(r@[k]) || reviewing@.contains(r@[k])
                || assigned@.contains(r@[k]) || authored@.contains(r@[k]),
{
    let mut out: Vec<MergeRequest> = Vec::new();
    insert_all(&mut out, branch_derived);
    insert_all(&mut out, reviewing);
    insert_all(&mut out, assigned);
    insert_all(&mut out, authored);
    out
}

/// Inserts every record of `src` into `out`, in order, keyed by id.
fn insert_all(out: &mut Vec<MergeRequest>, src: Vec<MergeRequest>)
    requires
        spec_unique_ids(old(out)@),
    ensures
        spec_unique_ids(final(out)@),
        spec_id_set(final(out)@) == spec_id_set(old(out)@).union(spec_id_set(src@)),
        forall|k: int|
            0 <= k < final(out)@.len() ==> old(out)@.contains(final(out)@[k]) || src@.contains(
                final(out)@[k],
            ),
{
    let ghost pre = out@;
    let ghost orig = src@;
    let mut rest = src;
    while rest.len() > 0
        invariant
            rest@.len() <= orig.len(),
            rest@ == orig.subrange(orig.len() - rest.len(), orig.len() as int),
            spec_unique_ids(out@),
            spec_id_set(out@) == spec_id_set(pre).union(
                spec_id_set(orig.subrange(0, orig.len() - rest.len())),
            ),
            forall|k: int|
                0 <= k < out@.len() ==> pre.contains(out@[k]) || orig.contains(out@[k]),
        decreases rest.len(),
    {
        let ghost done: int = orig.len() - rest.len();
        let mr = rest.remove(0);
        proof {
            assert(orig.subrange(done, orig.len() as int).remove(0) =~= orig.subrange(
                done + 1,
                orig.len() as int,
            ));
            assert(orig.subrange(0, done + 1).drop_last() =~= orig.subrange(0, done));
            assert(orig.subrange(0, done + 1).last() == orig[done]);
            assert(mr == orig[done]);
        }
        let ghost before = out@;
        upsert(out, mr);
        proof {
            assert(spec_id_set(orig.subrange(0, done + 1)) == spec_id_set(
                orig.subrange(0, done),
            ).insert(orig[done].id.0));
            assert(spec_id_set(out@) =~= spec_id_set(pre).union(
                spec_id_set(orig.subrange(0, done + 1)),
            ));
            assert forall|k: int| 0 <= k < out@.len() implies pre.contains(out@[k])
                || orig.contains(out@[k]) by {
                if out@[k] == mr {
                    assert(orig[done] == out@[k]);
                    assert(orig.contains(out@[k]));
                } else {
                    assert(before.contains(out@[k]));
                }
            }
        }
    }
    proof {
        assert(orig.subrange(0, orig.len() as int) =~= orig);
    }
}

} // verus!
