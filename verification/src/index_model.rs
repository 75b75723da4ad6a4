//! Abstract model of a search index and the laws of a sync run.
//!
//! An index is modelled as a map from primary key to the current
//! document under that key; a bulk upsert replaces each touched
//! document and a configuration command changes no document. The
//! public lemmas state the run-level laws: a successful run from an
//! empty index fills it with exactly the extracted records' keys, and
//! replaying a run's commands changes nothing.

use vstd::prelude::*;

use crate::batch::spec_batch_end;
use crate::models::UpdateModel;
use crate::pipeline::{plan_shape, IndexCommand};

verus! {

/// The index contents after upserting a run of records, in order:
/// each record replaces the document under its primary key.
pub open spec fn upsert_records<T: UpdateModel>(index: Map<int, T>, recs: Seq<T>) -> Map<
    int,
    T,
>
    decreases recs.len(),
{
    if recs.len() == 0 {
        index
    } else {
        upsert_records(index, recs.drop_last()).insert(recs.last().key(), recs.last())
    }
}

/// The documents a run of records contributes on its own, keyed by
/// primary key; a later record under the same key wins, as in the
/// engine's upsert.
pub open spec fn records_documents<T: UpdateModel>(recs: Seq<T>) -> Map<int, T>
    decreases recs.len(),
{
    if recs.len() == 0 {
        Map::empty()
    } else {
        records_documents(recs.drop_last()).insert(recs.last().key(), recs.last())
    }
}

/// The index contents after a pipeline's commands run against
/// `index`: upserts replace documents, configuration replaces none.
pub open spec fn apply_commands<T: UpdateModel>(
    index: Map<int, T>,
    cmds: Seq<IndexCommand<T>>,
) -> Map<int, T>
    decreases cmds.len(),
{
    if cmds.len() == 0 {
        index
    } else {
        let earlier = apply_commands(index, cmds.drop_last());
        match cmds.last() {
            IndexCommand::Upsert(batch) => upsert_records(earlier, batch@),
            IndexCommand::Configure(_) => earlier,
        }
    }
}

/// The documents a whole command sequence contributes on its own.
pub open spec fn commands_documents<T: UpdateModel>(cmds: Seq<IndexCommand<T>>) -> Map<
    int,
    T,
>
    decreases cmds.len(),
{
    if cmds.len() == 0 {
        Map::empty()
    } else {
        let earlier = commands_documents(cmds.drop_last());
        match cmds.last() {
            IndexCommand::Upsert(batch) => earlier.union_prefer_right(
                records_documents(batch@),
            ),
            IndexCommand::Configure(_) => earlier,
        }
    }
}

/// The set of primary keys among `recs`.
pub open spec fn record_keys<T: UpdateModel>(recs: Seq<T>) -> Set<int> {
    Set::new(|k: int| exists|i: int| 0 <= i < recs.len() && (#[trigger] recs[i]).key() == k)
}

proof fn lemma_upsert_is_union<T: UpdateModel>(index: Map<int, T>, recs: Seq<T>)
    ensures
        upsert_records(index, recs) == index.union_prefer_right(records_documents(recs)),
    decreases recs.len(),
{
    if recs.len() == 0 {
        assert(index.union_prefer_right(records_documents(recs)) =~= index);
    } else {
        lemma_upsert_is_union(index, recs.drop_last());
        assert(upsert_records(index, recs) =~= index.union_prefer_right(
            records_documents(recs),
        ));
    }
}

proof fn lemma_apply_is_union<T: UpdateModel>(index: Map<int, T>, cmds: Seq<IndexCommand<T>>)
    ensures
        apply_commands(index, cmds) == index.union_prefer_right(commands_documents(cmds)),
    decreases cmds.len(),
{
    if cmds.len() == 0 {
        assert(index.union_prefer_right(commands_documents(cmds)) =~= index);
    } else {
        lemma_apply_is_union(index, cmds.drop_last());
        match cmds.last() {
            IndexCommand::Upsert(batch) => {
                lemma_upsert_is_union(apply_commands(index, cmds.drop_last()), batch@);
                assert(index.union_prefer_right(commands_documents(cmds.drop_last()))
                    .union_prefer_right(records_documents(batch@)) =~= index.union_prefer_right(
                    commands_documents(cmds.drop_last()).union_prefer_right(
                        records_documents(batch@),
                    ),
                ));
            },
            IndexCommand::Configure(_) => {},
        }
    }
}

proof fn lemma_upsert_concat<T: UpdateModel>(index: Map<int, T>, a: Seq<T>, b: Seq<T>)
    ensures
        upsert_records(upsert_records(index, a), b) == upsert_records(index, a + b),
    decreases b.len(),
{
    if b.len() == 0 {
        assert(a + b =~= a);
    } else {
        lemma_upsert_concat(index, a, b.drop_last());
        assert((a + b).drop_last() =~= a + b.drop_last());
        assert((a + b).last() == b.last());
    }
}

proof fn lemma_upsert_dom<T: UpdateModel>(index: Map<int, T>, recs: Seq<T>)
    ensures
        upsert_records(index, recs).dom() == index.dom() + record_keys(recs),
    decreases recs.len(),
{
    if recs.len() == 0 {
        assert(record_keys::<T>(recs) =~= Set::<int>::empty());
        assert(index.dom() + record_keys::<T>(recs) =~= index.dom());
    } else {
        lemma_upsert_dom(index, recs.drop_last());
        let prior = recs.drop_last();
        let k0 = recs.last().key();
        assert forall|k: int| record_keys::<T>(recs).contains(k) implies record_keys::<T>(
            prior,
        ).insert(k0).contains(k) by {
            let i = choose|i: int| 0 <= i < recs.len() && (#[trigger] recs[i]).key() == k;
            if i < recs.len() - 1 {
                assert(prior[i] == recs[i]);
                assert(record_keys::<T>(prior).contains(k));
            }
        }
        assert forall|k: int| record_keys::<T>(prior).insert(k0).contains(k)
            implies record_keys::<T>(recs).contains(k) by {
            if k == k0 {
                assert(recs[recs.len() - 1].key() == k);
            } else {
                let i = choose|i: int| 0 <= i < prior.len() && (#[trigger] prior[i]).key() == k;
                assert(recs[i].key() == k);
            }
        }
        assert(record_keys::<T>(recs) =~= record_keys::<T>(prior).insert(k0));
        assert(upsert_records(index, recs).dom() =~= index.dom() + record_keys::<T>(recs));
    }
}

/// The records covered by the first `k` batches of a plan.
pub open spec fn spec_covered(n: int, bs: int, k: int) -> int {
    if k * bs <= n {
        k * bs
    } else {
        n
    }
}

proof fn lemma_plan_prefix<T: UpdateModel>(
    index: Map<int, T>,
    cmds: Seq<IndexCommand<T>>,
    recs: Seq<T>,
    bs: int,
    k: int,
)
    requires
        bs >= 1,
        plan_shape::<T>(cmds, recs, bs),
        0 <= k <= cmds.len() - 1,
    ensures
        apply_commands(index, cmds.subrange(0, k)) == upsert_records(
            index,
            recs.subrange(0, spec_covered(recs.len() as int, bs, k)),
        ),
    decreases k,
{
    let n = recs.len() as int;
    if k == 0 {
        assert(cmds.subrange(0, 0) =~= Seq::<IndexCommand<T>>::empty());
        assert(spec_covered(n, bs, 0) == 0) by (nonlinear_arith)
            requires n >= 0;
        assert(recs.subrange(0, 0) =~= Seq::<T>::empty());
    } else {
        lemma_plan_prefix(index, cmds, recs, bs, k - 1);
        let count = cmds.len() - 1;
        // the batch before index k starts at (k - 1) * bs, within the records
        if n > 0 {
            assert(count == (n - 1) / bs + 1);
            vstd::arithmetic::div_mod::lemma_fundamental_div_mod(n - 1, bs);
            vstd::arithmetic::div_mod::lemma_mod_bound(n - 1, bs);
            vstd::arithmetic::mul::lemma_mul_inequality(k - 1, (n - 1) / bs, bs);
            assert(((n - 1) / bs) * bs <= n - 1) by (nonlinear_arith)
                requires n - 1 == bs * ((n - 1) / bs) + ((n - 1) % bs), (n - 1) % bs >= 0;
        } else {
            assert(count == 0);
        }
        assert((k - 1) * bs <= n);
        assert(spec_covered(n, bs, k - 1) == (k - 1) * bs);
        let start = (k - 1) * bs;
        let end = spec_batch_end(n, bs, k - 1);
        assert(k * bs == (k - 1) * bs + bs) by (nonlinear_arith);
        assert(end == spec_covered(n, bs, k));
        assert(start <= end <= n);
        let prefix = cmds.subrange(0, k);
        assert(prefix.drop_last() =~= cmds.subrange(0, k - 1));
        assert(prefix.last() == cmds[k - 1]);
        assert(cmds[k - 1] is Upsert);
        assert(cmds[k - 1]->Upsert_0@ == recs.subrange(start, end));
        lemma_upsert_concat(index, recs.subrange(0, start), recs.subrange(start, end));
        assert(recs.subrange(0, start) + recs.subrange(start, end) =~= recs.subrange(0, end));
    }
}

/// After a successful pipeline run from an empty index, the index
/// holds exactly the extracted records' documents: one document per
/// primary key (a later record under the same key wins), no
/// duplicates, no omissions — however many batches the records span.
pub proof fn lemma_run_fills_index<T: UpdateModel>(
    cmds: Seq<IndexCommand<T>>,
    recs: Seq<T>,
    bs: int,
)
    requires
        bs >= 1,
        plan_shape::<T>(cmds, recs, bs),
    ensures
        apply_commands(Map::<int, T>::empty(), cmds) == records_documents(recs),
        apply_commands(Map::<int, T>::empty(), cmds).dom() == record_keys(recs),
{
    let n = recs.len() as int;
    let count = cmds.len() - 1;
    assert(cmds.last() is Configure);
    assert(cmds.drop_last() =~= cmds.subrange(0, count));
    lemma_plan_prefix(Map::<int, T>::empty(), cmds, recs, bs, count);
    if n > 0 {
        assert(count == (n - 1) / bs + 1);
        vstd::arithmetic::div_mod::lemma_fundamental_div_mod(n - 1, bs);
        vstd::arithmetic::div_mod::lemma_mod_bound(n - 1, bs);
        assert(count * bs >= n) by (nonlinear_arith)
            requires
                count == (n - 1) / bs + 1,
                n - 1 == bs * ((n - 1) / bs) + ((n - 1) % bs),
                (n - 1) % bs < bs;
    } else {
        assert(count == 0);
        assert(count * bs >= n) by (nonlinear_arith)
            requires count == 0, n == 0;
    }
    assert(spec_covered(n, bs, count) == n);
    assert(recs.subrange(0, n) =~= recs);
    lemma_upsert_is_union(Map::<int, T>::empty(), recs);
    assert(Map::<int, T>::empty().union_prefer_right(records_documents(recs))
        =~= records_documents(recs));
    lemma_upsert_dom(Map::<int, T>::empty(), recs);
    assert(Map::<int, T>::empty().dom() + record_keys::<T>(recs) =~= record_keys::<T>(recs));
}

/// A sync run is idempotent: replaying the same commands over the
/// index they produced — a second run with no source changes — leaves
/// the index contents unchanged.
pub proof fn lemma_run_idempotent<T: UpdateModel>(
    index: Map<int, T>,
    cmds: Seq<IndexCommand<T>>,
)
    ensures
        apply_commands(apply_commands(index, cmds), cmds) == apply_commands(index, cmds),
{
    lemma_apply_is_union(index, cmds);
    lemma_apply_is_union(apply_commands(index, cmds), cmds);
    let docs = commands_documents(cmds);
    assert(index.union_prefer_right(docs).union_prefer_right(docs) =~= index.union_prefer_right(
        docs,
    ));
}

} // verus!
