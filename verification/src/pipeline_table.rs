//! The table of compiled pipelines: a `weak_table::WeakValueHashMap` from
//! the key of a pipeline specification to the pipeline, which the table
//! does not keep alive.
//!
//! The contracts of the functions that call the outside crate are not
//! proved: they say what its source shows.

use vstd::prelude::*;
use std::sync::Arc;
use crate::pipeline::DynamicPipelineSpec;

verus! {

/// A compiled pipeline: its specification and the handles under which the
/// owner of the graphics device keeps the pipeline and its layout.
#[derive(Clone, Copy, Debug, PartialEq, Eq)]
pub struct DynamicPipeline {
    pub spec: DynamicPipelineSpec,
    pub pipeline: u64,
    pub layout: u64,
}

/// The pipelines that were compiled, each held for as long as somebody
/// else holds it.
#[verifier::external_body]
pub struct PipelineTable {
    inner: weak_table::WeakValueHashMap<Vec<u8>, std::sync::Weak<DynamicPipeline>>,
}

/// What a table holds in its buckets: under each key the pipeline that the
/// weak pointer beside it was made from. A pipeline that nobody holds any
/// longer stays among them until the table sweeps its bucket out, which it
/// may do whenever something is put in.
pub uninterp spec fn pipeline_table_entries(table: PipelineTable) -> Map<Seq<u8>, DynamicPipeline>;

/// The entries of a table into which nothing was put.
pub open spec fn no_pipelines() -> Map<Seq<u8>, DynamicPipeline> {
    Map::empty()
}

/// Whether `after` may be what a table holds once `value` was put under
/// `key` into a table that held `before`: the key has the value, and
/// whatever else is there was there before. Which of the other entries
/// have left is not said.
pub open spec fn table_took_in(
    before: Map<Seq<u8>, DynamicPipeline>,
    key: Seq<u8>,
    value: DynamicPipeline,
    after: Map<Seq<u8>, DynamicPipeline>,
) -> bool {
    &&& after.contains_key(key)
    &&& after[key] == value
    &&& forall|other: Seq<u8>|
        other != key && #[trigger] after.contains_key(other) ==> before.contains_key(other)
            && after[other] == before[other]
}

/// `weak_table::WeakValueHashMap::new`: an empty table.
#[verifier::external_body]
pub(crate) fn pipeline_table_new() -> (r: PipelineTable)
    ensures
        pipeline_table_entries(r) == no_pipelines(),
{
    PipelineTable { inner: weak_table::WeakValueHashMap::new() }
}

/// `weak_table::WeakValueHashMap::get`: the pipeline under a key, if a
/// bucket has the key and somebody still holds its pipeline. Nothing is
/// said of when a pipeline is found: what is found is what the bucket
/// holds.
#[verifier::external_body]
pub(crate) fn pipeline_table_get(table: &PipelineTable, key: &Vec<u8>) -> (r: Option<
    Arc<DynamicPipeline>,
>)
    ensures
        r matches Some(found) ==> pipeline_table_entries(*table).contains_key(key@)
            && pipeline_table_entries(*table)[key@] == *found,
{
    table.inner.get(key)
}

/// `weak_table::WeakValueHashMap::insert`: puts a pipeline under a key, in
/// place of what was there. To make room the table may first sweep out
/// buckets whose pipelines nobody holds any longer, so of the other keys
/// only this is claimed: one that is there afterwards was there before,
/// with the same pipeline.
#[verifier::external_body]
pub(crate) fn pipeline_table_insert(
    table: &mut PipelineTable,
    key: Vec<u8>,
    value: Arc<DynamicPipeline>,
)
    ensures
        table_took_in(
            pipeline_table_entries(*old(table)),
            key@,
            *value,
            pipeline_table_entries(*final(table)),
        ),
{
    table.inner.insert(key, value);
}

} // verus!
