//! The per-entity pipeline and the orchestrator's outcome reduction.
//!
//! One pipeline turns an entity's extracted rows into the exact
//! sequence of search-engine commands: one bulk upsert per batch, in
//! extraction order, then exactly one configuration command, last.
//! Issuing the commands against the engine is I/O and stays outside
//! the library; the orchestrator's reduction of the per-entity
//! outcomes into one run outcome is pure logic and lives here.

use vstd::prelude::*;

use crate::batch::{chunk_rows, spec_batch_count, spec_batch_end};
use crate::models::{SourceRow, UpdateModel};

verus! {

/// Which search-engine call a load failure came from.
#[derive(Clone, Copy, Debug, PartialEq, Eq, Structural)]
pub enum LoadPhase {
    Upsert,
    Configure,
}

/// Why one entity's pipeline failed. A failure aborts only the owning
/// pipeline, never its siblings.
#[derive(Clone, Copy, Debug, PartialEq, Eq, Structural)]
pub enum PipelineError {
    /// Query execution, lost stream, or row-mapping failure.
    Extraction,
    /// Search-engine call failure, tagged with its phase.
    Load(LoadPhase),
}

/// The index configuration an entity declares: searchable fields,
/// filterable fields, and ranking rules in tie-break order.
#[derive(Debug)]
pub struct IndexSettings {
    pub searchable: Vec<String>,
    pub filterable: Vec<String>,
    pub ranking: Vec<String>,
}

/// Whether a settings value carries exactly entity `T`'s declared
/// index configuration.
pub open spec fn settings_for<T: UpdateModel>(s: IndexSettings) -> bool {
    &&& s.searchable.deep_view() == T::spec_searchable()
    &&& s.filterable.deep_view() == T::spec_filterable()
    &&& s.ranking.deep_view() == T::spec_ranking()
}

/// One call against an entity's search index.
#[derive(Debug)]
pub enum IndexCommand<T> {
    /// Bulk upsert of one batch, keyed by each record's primary key.
    Upsert(Vec<T>),
    /// Apply the index configuration.
    Configure(IndexSettings),
}

/// The records the extracted rows map to, in extraction order.
pub open spec fn planned_records<T: UpdateModel>(rows: Seq<SourceRow>) -> Seq<T> {
    Seq::new(rows.len(), |i: int| T::record_of(rows[i]))
}

/// The shape of a successful pipeline plan over records `recs` at
/// batch size `bs`: one upsert per batch, in order, covering the
/// records exactly, and one configuration command, last — never
/// before the upserts, never more than once.
pub open spec fn plan_shape<T: UpdateModel>(
    cmds: Seq<IndexCommand<T>>,
    recs: Seq<T>,
    bs: int,
) -> bool {
    &&& cmds.len() == spec_batch_count(recs.len() as int, bs) + 1
    &&& forall|i: int|
        0 <= i < cmds.len() - 1 ==> (#[trigger] cmds[i]) is Upsert
            && cmds[i]->Upsert_0@ == recs.subrange(
            i * bs,
            spec_batch_end(recs.len() as int, bs, i),
        )
    &&& cmds.last() is Configure
    &&& settings_for::<T>(cmds.last()->Configure_0)
    &&& forall|i: int|
        0 <= i < cmds.len() ==> (((#[trigger] cmds[i]) is Configure) <==> i == cmds.len() - 1)
}

/// Builds entity `T`'s declared index configuration.
pub fn build_settings<T: UpdateModel>() -> (r: IndexSettings)
    ensures
        settings_for::<T>(r),
{
    IndexSettings {
        searchable: T::get_searchanble_attributes(),
        filterable: T::get_filterable_attributes(),
        ranking: T::get_ranking_rules(),
    }
}

/// Maps a batch of raw rows to records, in order. Succeeds exactly
/// when every row has the shape entity `T`'s query returns; the first
/// malformed row aborts the mapping with an extraction error, never
/// swallowed.
#[verifier::loop_isolation(false)]
pub fn map_batch<T: UpdateModel>(rows: Vec<SourceRow>) -> (r: Result<Vec<T>, PipelineError>)
    ensures
        r is Ok <==> (forall|i: int| 0 <= i < rows@.len() ==> T::row_ok(#[trigger] rows@[i])),
        r matches Ok(v) ==> v@ == planned_records::<T>(rows@),
        r matches Err(e) ==> e is Extraction,
{
    let ghost orig = rows@;
    let mut remaining = rows;
    let mut recs: Vec<T> = Vec::new();
    proof {
        assert(remaining@ =~= orig.subrange(0, orig.len() as int));
    }
    while remaining.len() > 0
        invariant
            recs@.len() + remaining@.len() == orig.len(),
            remaining@ == orig.subrange(recs@.len() as int, orig.len() as int),
            forall|i: int| 0 <= i < recs@.len() ==> T::row_ok(#[trigger] orig[i]),
            forall|i: int| 0 <= i < recs@.len() ==> #[trigger] recs@[i] == T::record_of(orig[i]),
        decreases remaining@.len(),
    {
        let ghost k = recs@.len() as int;
        let row = remaining.remove(0);
        proof {
            assert(row == orig[k]);
            assert(remaining@ =~= orig.subrange(k + 1, orig.len() as int));
        }
        match T::from_row(row) {
            Ok(rec) => {
                recs.push(rec);
                proof {
                    assert(recs@[k] == rec);
                    assert(T::row_ok(orig[k]));
                }
            },
            Err(_) => {
                proof {
                    assert(!T::row_ok(orig[k]));
                }
                return Err(PipelineError::Extraction);
            },
        }
    }
    proof {
        assert(recs@ =~= planned_records::<T>(orig));
    }
    Ok(recs)
}

/// Plans one entity's pipeline: maps the extracted rows, groups the
/// records into batches of `batch_size`, and emits one upsert command
/// per batch followed by exactly one configuration command. Succeeds
/// exactly when every row maps; a malformed row yields an extraction
/// error and no commands.
#[verifier::loop_isolation(false)]
pub fn plan_commands<T: UpdateModel>(rows: Vec<SourceRow>, batch_size: usize) -> (r: Result<
    Vec<IndexCommand<T>>,
    PipelineError,
>)
    requires
        batch_size >= 1,
    ensures
        r is Ok <==> (forall|i: int| 0 <= i < rows@.len() ==> T::row_ok(#[trigger] rows@[i])),
        r matches Ok(cmds) ==> plan_shape::<T>(
            cmds@,
            planned_records::<T>(rows@),
            batch_size as int,
        ),
        r matches Err(e) ==> e is Extraction,
{
    let ghost rows_spec = rows@;
    let recs = match map_batch::<T>(rows) {
        Ok(v) => v,
        Err(e) => {
            return Err(e);
        },
    };
    let ghost recs_spec = recs@;
    let ghost n = recs_spec.len() as int;
    let ghost bs = batch_size as int;
    let batches = chunk_rows(recs, batch_size);
    let ghost batches_spec = batches@;
    let ghost total = batches_spec.len() as int;
    let mut cmds: Vec<IndexCommand<T>> = Vec::new();
    let mut rem = batches;
    proof {
        assert(rem@ =~= batches_spec.subrange(0, total));
    }
    while rem.len() > 0
        invariant
            cmds@.len() + rem@.len() == total,
            rem@ == batches_spec.subrange(cmds@.len() as int, total),
            forall|i: int| 0 <= i < cmds@.len() ==> (#[trigger] cmds@[i]) is Upsert,
            forall|i: int|
                0 <= i < cmds@.len() ==> (#[trigger] cmds@[i])->Upsert_0@ == batches_spec[i]@,
        decreases rem@.len(),
    {
        let ghost k = cmds@.len() as int;
        let ghost before = rem@;
        let b = rem.remove(0);
        proof {
            assert(before == batches_spec.subrange(k, total));
            assert(before[0] == batches_spec[k]);
            assert(b == batches_spec[k]);
            assert(rem@ =~= batches_spec.subrange(k + 1, total));
        }
        cmds.push(IndexCommand::Upsert(b));
        proof {
            assert(cmds@[k] == IndexCommand::<T>::Upsert(b));
        }
    }
    let ghost upserts = cmds@;
    cmds.push(IndexCommand::Configure(build_settings::<T>()));
    proof {
        assert(recs_spec == planned_records::<T>(rows_spec));
        assert(cmds@.len() == total + 1);
        assert(cmds@.last() == cmds@[total]);
        assert forall|i: int| 0 <= i < cmds@.len() - 1 implies cmds@[i] is Upsert
            && cmds@[i]->Upsert_0@ == recs_spec.subrange(
            i * bs,
            spec_batch_end(n, bs, i),
        ) by {
            assert(cmds@[i] == upserts[i]);
            assert(upserts[i] is Upsert);
            assert(upserts[i]->Upsert_0@ == batches_spec[i]@);
            assert(batches_spec[i]@ == recs_spec.subrange(i * bs, spec_batch_end(n, bs, i)));
        }
    }
    Ok(cmds)
}

/// The first failure among the per-entity outcomes, in pipeline
/// order, or success when there is none.
pub open spec fn spec_first_error(outs: Seq<Result<(), PipelineError>>) -> Result<
    (),
    PipelineError,
>
    decreases outs.len(),
{
    if outs.len() == 0 {
        Ok(())
    } else if outs.first() is Err {
        outs.first()
    } else {
        spec_first_error(outs.drop_first())
    }
}

/// Reduces the per-entity pipeline outcomes into the run's outcome:
/// success exactly when every pipeline succeeded, otherwise the first
/// error observed. Sibling outcomes are read, never altered — one
/// failed pipeline cannot fail another.
#[verifier::loop_isolation(false)]
pub fn reduce_outcomes(outcomes: &Vec<Result<(), PipelineError>>) -> (r: Result<
    (),
    PipelineError,
>)
    ensures
        r == spec_first_error(outcomes@),
        r is Ok <==> (forall|i: int| 0 <= i < outcomes@.len() ==> outcomes@[i] is Ok),
{
    let ghost all = outcomes@;
    let n = outcomes.len();
    let mut i: usize = 0;
    proof {
        assert(all.subrange(0, all.len() as int) =~= all);
    }
    while i < n
        invariant
            0 <= i <= n,
            n == all.len(),
            all == outcomes@,
            spec_first_error(all) == spec_first_error(all.subrange(i as int, all.len() as int)),
            forall|j: int| 0 <= j < i ==> all[j] is Ok,
        decreases n - i,
    {
        let o = outcomes[i];
        match o {
            Ok(_) => {
                proof {
                    let suffix = all.subrange(i as int, all.len() as int);
                    assert(suffix.first() == all[i as int]);
                    assert(suffix.drop_first() =~= all.subrange(i + 1 as int, all.len() as int));
                }
                i = i + 1;
            },
            Err(e) => {
                proof {
                    let suffix = all.subrange(i as int, all.len() as int);
                    assert(suffix.first() == all[i as int]);
                }
                return Err(e);
            },
        }
    }
    proof {
        assert(all.subrange(n as int, all.len() as int) =~= Seq::<Result<
            (),
            PipelineError,
        >>::empty());
    }
    Ok(())
}

} // verus!
