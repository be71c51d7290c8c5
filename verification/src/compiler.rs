//! The pipeline compiler: it keeps what was compiled, says what has to be
//! compiled for a specification that is new, and takes in what was built.
//!
//! The graphics device is not the library's: the compiler hands out the
//! plan and the source text, and whoever owns the device hands back the
//! handles of what it built from them.

use vstd::prelude::*;
use std::sync::Arc;
use crate::pipeline::DynamicPipelineSpec;
use crate::pipeline::ShaderSpec;
use crate::pipeline_table::pipeline_table_entries;
use crate::pipeline_table::pipeline_table_get;
use crate::pipeline_table::pipeline_table_insert;
use crate::pipeline_table::pipeline_table_new;
use crate::pipeline_table::table_took_in;
use crate::pipeline_table::DynamicPipeline;
use crate::pipeline_table::PipelineTable;
use crate::plan::plan_pipeline;
use crate::plan::CompileError;
use crate::plan::PipelinePlan;
use crate::shader_cache::lru_after_get;
use crate::shader_cache::lru_after_put;
use crate::shader_cache::lru_capacity;
use crate::shader_cache::lru_entries;
use crate::shader_cache::lru_find;
use crate::shader_cache::lru_get;
use crate::shader_cache::lru_new;
use crate::shader_cache::lru_left;
use crate::shader_cache::lru_push;
use crate::shader_cache::lru_touched;
use crate::shader_cache::lru_value;
use crate::shader_cache::MAX_CACHE_CAPACITY;

verus! {

/// What has to be done for one shader of a pipeline.
#[derive(Clone, Debug, PartialEq, Eq)]
pub enum ShaderStep {
    /// Nothing: the module with this handle was compiled from the same
    /// specification before.
    Cached(u64),
    /// The source text has to be compiled.
    Compile(String),
}

/// A shader step as a value.
pub enum ShaderStepModel {
    Cached(u64),
    Compile(Seq<char>),
}

impl View for ShaderStep {
    type V = ShaderStepModel;

    open spec fn view(&self) -> ShaderStepModel {
        match self {
            ShaderStep::Cached(module) => ShaderStepModel::Cached(*module),
            ShaderStep::Compile(source) => ShaderStepModel::Compile(source@),
        }
    }
}

/// What has to be built for a pipeline that is not in the cache.
#[derive(Clone, Debug, PartialEq, Eq)]
pub struct BuildRequest {
    pub plan: PipelinePlan,
    pub vertex_shader: ShaderStep,
    pub fragment_shader: ShaderStep,
}

/// The handles of what was built for a pipeline.
#[derive(Clone, Copy, Debug, PartialEq, Eq, Structural)]
pub struct BuiltPipeline {
    pub vertex_module: u64,
    pub fragment_module: u64,
    pub pipeline: u64,
    pub layout: u64,
}

/// What comes of taking in what was built: the pipeline, and the handles
/// of the shader modules that the caches no longer hold.
#[derive(Clone, Debug, PartialEq, Eq)]
pub struct Completed {
    pub pipeline: Arc<DynamicPipeline>,
    /// The handle whose entry left the cache of vertex shaders.
    pub released_vertex_module: Option<u64>,
    /// The handle whose entry left the cache of fragment shaders.
    pub released_fragment_module: Option<u64>,
}

/// What the compiler answers when it is asked for a pipeline.
#[derive(Debug)]
pub enum CompileStep {
    /// The pipeline was compiled before and is still held.
    Cached(Arc<DynamicPipeline>),
    /// The pipeline has to be built; what was built goes to `complete`.
    Build(Box<BuildRequest>),
    /// No pipeline can be built for the specification.
    Refused(CompileError),
}

/// The state of the compiler as a value.
pub struct CompilerModel {
    /// The pipelines that the table holds, by the keys of their
    /// specifications.
    pub pipelines: Map<Seq<u8>, DynamicPipeline>,
    /// The vertex shader modules, the one that was used last first.
    pub vertex_shaders: Seq<(Seq<u8>, u64)>,
    /// The fragment shader modules, the one that was used last first.
    pub fragment_shaders: Seq<(Seq<u8>, u64)>,
    /// The number of modules that each of the two caches holds at most.
    pub shader_capacity: nat,
    /// The number of shader sources that were handed out for compiling.
    pub shader_compiles: u64,
    /// The number of pipelines that were taken in.
    pub pipeline_builds: u64,
}

/// One more, as long as a 64-bit count can hold it.
pub open spec fn counted(n: u64) -> u64 {
    if n < u64::MAX {
        (n + 1) as u64
    } else {
        n
    }
}

/// Whether no key occurs twice among the entries of a cache.
pub open spec fn keys_distinct(entries: Seq<(Seq<u8>, u64)>) -> bool {
    forall|i: int, j: int|
        0 <= i < entries.len() && 0 <= j < entries.len() && i != j ==> (#[trigger] entries[i]).0
            != (#[trigger] entries[j]).0
}

/// What is done for a shader: nothing where the cache holds a module for
/// the key, compiling the source where it does not.
pub open spec fn shader_step(entries: Seq<(Seq<u8>, u64)>, key: Seq<u8>, source: Seq<char>)
    -> ShaderStepModel {
    match lru_value(entries, key) {
        Some(module) => ShaderStepModel::Cached(module),
        None => ShaderStepModel::Compile(source),
    }
}

/// What the compiler answers when the pipeline is not in the cache, as a
/// value.
pub enum AnswerModel {
    Cached(DynamicPipeline),
    Build { vertex_shader: ShaderStepModel, fragment_shader: ShaderStepModel },
    Refused(CompileError),
}

impl CompilerModel {
    /// Every pipeline is kept under the key of its own specification, no
    /// shader key occurs twice, and no cache holds more than it was made
    /// for.
    pub open spec fn wf(self) -> bool {
        &&& forall|key: Seq<u8>|
            self.pipelines.contains_key(key) ==> (#[trigger] self.pipelines[key]).spec.key()
                == key
        &&& keys_distinct(self.vertex_shaders)
        &&& keys_distinct(self.fragment_shaders)
        &&& 0 < self.shader_capacity
        &&& self.vertex_shaders.len() <= self.shader_capacity
        &&& self.fragment_shaders.len() <= self.shader_capacity
    }

    /// Whether a pipeline may be what the table finds for a specification:
    /// the table finds nothing, or what it holds under the key.
    pub open spec fn may_find(self, spec: DynamicPipelineSpec, found: Option<DynamicPipeline>)
        -> bool {
        found matches Some(pipeline) ==> self.pipelines.contains_key(spec.key())
            && self.pipelines[spec.key()] == pipeline
    }

    /// The number of shaders that have to be compiled for a specification.
    pub open spec fn missing_shaders(self, spec: DynamicPipelineSpec) -> int {
        let key = spec.shader_spec().key();
        (if lru_find(self.vertex_shaders, key) is None {
            1int
        } else {
            0int
        }) + (if lru_find(self.fragment_shaders, key) is None {
            1int
        } else {
            0int
        })
    }

    /// The state after the compiler was asked for a pipeline and the table
    /// found `found`. A pipeline that was found, or a specification for
    /// which none can be built, changes nothing. Otherwise both shader
    /// caches were asked, which makes their entries for the specification
    /// the ones used last, and every shader that has to be compiled is
    /// counted.
    pub open spec fn asked(self, spec: DynamicPipelineSpec, found: Option<DynamicPipeline>)
        -> CompilerModel {
        if found is Some || spec.plan_error() is Some {
            self
        } else {
            self.vertex_asked(spec.shader_spec()).fragment_asked(spec.shader_spec())
        }
    }

    /// The state after the cache of vertex shaders was asked for the module
    /// of a specification: its entry, if it has one, is the one used last;
    /// if it has none, a shader to compile is counted.
    pub open spec fn vertex_asked(self, shader: ShaderSpec) -> CompilerModel {
        CompilerModel {
            vertex_shaders: lru_after_get(self.vertex_shaders, shader.key()),
            shader_compiles: if lru_find(self.vertex_shaders, shader.key()) is None {
                counted(self.shader_compiles)
            } else {
                self.shader_compiles
            },
            ..self
        }
    }

    /// The state after the cache of fragment shaders was asked for the
    /// module of a specification.
    pub open spec fn fragment_asked(self, shader: ShaderSpec) -> CompilerModel {
        CompilerModel {
            fragment_shaders: lru_after_get(self.fragment_shaders, shader.key()),
            shader_compiles: if lru_find(self.fragment_shaders, shader.key()) is None {
                counted(self.shader_compiles)
            } else {
                self.shader_compiles
            },
            ..self
        }
    }

    /// What the compiler answers when it was asked for a pipeline and the
    /// table found `found`.
    pub open spec fn answer(self, spec: DynamicPipelineSpec, found: Option<DynamicPipeline>)
        -> AnswerModel {
        let key = spec.shader_spec().key();
        match found {
            Some(pipeline) => AnswerModel::Cached(pipeline),
            None => match spec.plan_error() {
                Some(error) => AnswerModel::Refused(error),
                None => AnswerModel::Build {
                    vertex_shader: shader_step(
                        self.vertex_shaders,
                        key,
                        spec.shader_spec().vertex_shader_text(),
                    ),
                    fragment_shader: shader_step(
                        self.fragment_shaders,
                        key,
                        spec.shader_spec().fragment_shader_text(),
                    ),
                },
            },
        }
    }

    /// The pipeline that is made of what was built for a specification.
    pub open spec fn pipeline_of(spec: DynamicPipelineSpec, built: BuiltPipeline)
        -> DynamicPipeline {
        DynamicPipeline { spec, pipeline: built.pipeline, layout: built.layout }
    }

    /// Whether `after` may be the state once what was built for a
    /// specification was taken in. The two modules are kept under the key
    /// of its shaders, and the pipeline is counted and kept under the key
    /// of the specification. Of the other pipelines some may have left the
    /// table; none has come or changed.
    pub open spec fn completes(
        self,
        spec: DynamicPipelineSpec,
        built: BuiltPipeline,
        after: CompilerModel,
    ) -> bool {
        let key = spec.shader_spec().key();
        &&& table_took_in(
            self.pipelines,
            spec.key(),
            Self::pipeline_of(spec, built),
            after.pipelines,
        )
        &&& after.vertex_shaders == lru_after_put(
            self.vertex_shaders,
            self.shader_capacity,
            key,
            built.vertex_module,
        )
        &&& after.fragment_shaders == lru_after_put(
            self.fragment_shaders,
            self.shader_capacity,
            key,
            built.fragment_module,
        )
        &&& after.shader_capacity == self.shader_capacity
        &&& after.shader_compiles == self.shader_compiles
        &&& after.pipeline_builds == counted(self.pipeline_builds)
    }
}

/// The handle that a cache no longer holds once a module was put under a
/// key: that of the entry that left, unless it is the handle that was put.
pub open spec fn released_module(
    entries: Seq<(Seq<u8>, u64)>,
    capacity: nat,
    key: Seq<u8>,
    module: u64,
) -> Option<u64> {
    match lru_left(entries, capacity, key) {
        Some(left) if left != module => Some(left),
        _ => None,
    }
}

/// Where the first entry with a key stands: it has the key and no entry
/// before it has; without such an entry, no entry has the key.
pub proof fn lemma_lru_find(entries: Seq<(Seq<u8>, u64)>, key: Seq<u8>)
    ensures
        match lru_find(entries, key) {
            Some(i) => {
                &&& 0 <= i < entries.len()
                &&& entries[i].0 == key
                &&& forall|j: int| 0 <= j < i ==> (#[trigger] entries[j]).0 != key
            },
            None => forall|j: int| 0 <= j < entries.len() ==> (#[trigger] entries[j]).0 != key,
        },
    decreases entries.len(),
{
    if entries.len() > 0 && entries[0].0 != key {
        let rest = entries.skip(1);
        lemma_lru_find(rest, key);
        match lru_find(rest, key) {
            Some(i) => {
                assert forall|j: int| 0 <= j < i + 1 implies (#[trigger] entries[j]).0 != key by {
                    if j > 0 {
                        assert(rest[j - 1] == entries[j]);
                    }
                }
            },
            None => {
                assert forall|j: int| 0 <= j < entries.len() implies (#[trigger] entries[j]).0
                    != key by {
                    if j > 0 {
                        assert(rest[j - 1] == entries[j]);
                    }
                }
            },
        }
    }
}

/// An entry that stands first is found under its key.
pub proof fn lemma_lru_first(entries: Seq<(Seq<u8>, u64)>)
    requires
        entries.len() > 0,
    ensures
        lru_find(entries, entries[0].0) == Some(0int),
        lru_value(entries, entries[0].0) == Some(entries[0].1),
{
}

/// The place in the old order of the entry that stands at place `a` after
/// the entry at place `i` was moved to the front.
pub open spec fn place_before_touch(i: int, a: int) -> int {
    if a == 0 {
        i
    } else if a <= i {
        a - 1
    } else {
        a
    }
}

/// Moving an entry to the front moves the others back by one place at most.
pub proof fn lemma_touched_places(entries: Seq<(Seq<u8>, u64)>, i: int)
    requires
        0 <= i < entries.len(),
    ensures
        lru_touched(entries, i).len() == entries.len(),
        forall|a: int|
            0 <= a < entries.len() ==> #[trigger] lru_touched(entries, i)[a]
                == entries[place_before_touch(i, a)],
{
}

/// Under keys that are apart, what is found under a key is the value of
/// the one entry that has the key.
pub proof fn lemma_value_is_entry(entries: Seq<(Seq<u8>, u64)>, key: Seq<u8>, at: int)
    requires
        keys_distinct(entries),
        0 <= at < entries.len(),
        entries[at].0 == key,
    ensures
        lru_find(entries, key) == Some(at),
        lru_value(entries, key) == Some(entries[at].1),
{
    lemma_lru_find(entries, key);
    let found = lru_find(entries, key);
    assert(found is Some) by {
        if found is None {
            assert(entries[at].0 != key);
        }
    }
    let i = found.unwrap();
    if i != at {
        assert(entries[i].0 != entries[at].0);
    }
}

/// Moving an entry to the front keeps the keys apart.
pub proof fn lemma_touched_distinct(entries: Seq<(Seq<u8>, u64)>, i: int)
    requires
        keys_distinct(entries),
        0 <= i < entries.len(),
    ensures
        keys_distinct(lru_touched(entries, i)),
{
    let after = lru_touched(entries, i);
    lemma_touched_places(entries, i);
    assert forall|a: int, b: int|
        0 <= a < after.len() && 0 <= b < after.len() && a != b implies (#[trigger] after[a]).0 != (
    #[trigger] after[b]).0 by {
        let pa = place_before_touch(i, a);
        let pb = place_before_touch(i, b);
        assert(after[a] == entries[pa]);
        assert(after[b] == entries[pb]);
        assert(pa != pb);
        assert(entries[pa].0 != entries[pb].0);
    }
}

/// Moving an entry to the front keeps what is found under every key.
pub proof fn lemma_touched_values(entries: Seq<(Seq<u8>, u64)>, i: int, other: Seq<u8>)
    requires
        keys_distinct(entries),
        0 <= i < entries.len(),
    ensures
        lru_value(lru_touched(entries, i), other) == lru_value(entries, other),
{
    let after = lru_touched(entries, i);
    lemma_touched_places(entries, i);
    lemma_touched_distinct(entries, i);
    lemma_lru_find(entries, other);
    lemma_lru_find(after, other);
    match lru_find(entries, other) {
        Some(z) => {
            let target = if z == i {
                0
            } else if z < i {
                z + 1
            } else {
                z
            };
            assert(place_before_touch(i, target) == z);
            assert(after[target] == entries[z]);
            lemma_value_is_entry(after, other, target);
        },
        None => {
            match lru_find(after, other) {
                Some(x) => {
                    assert(after[x] == entries[place_before_touch(i, x)]);
                    assert(entries[place_before_touch(i, x)].0 != other);
                },
                None => {},
            }
        },
    }
}

/// Looking a key up keeps the entries apart, keeps their number, and
/// keeps what is found under every key.
pub proof fn lemma_lru_after_get(entries: Seq<(Seq<u8>, u64)>, key: Seq<u8>, other: Seq<u8>)
    requires
        keys_distinct(entries),
    ensures
        keys_distinct(lru_after_get(entries, key)),
        lru_after_get(entries, key).len() == entries.len(),
        lru_value(lru_after_get(entries, key), other) == lru_value(entries, other),
{
    lemma_lru_find(entries, key);
    match lru_find(entries, key) {
        Some(i) => {
            lemma_touched_places(entries, i);
            lemma_touched_distinct(entries, i);
            lemma_touched_values(entries, i, other);
        },
        None => {},
    }
}

/// Putting a value under a key keeps the entries apart and within the
/// capacity, and the value is what is found under the key afterwards.
pub proof fn lemma_lru_after_put(
    entries: Seq<(Seq<u8>, u64)>,
    capacity: nat,
    key: Seq<u8>,
    value: u64,
)
    requires
        keys_distinct(entries),
        0 < capacity,
        entries.len() <= capacity,
    ensures
        keys_distinct(lru_after_put(entries, capacity, key, value)),
        lru_after_put(entries, capacity, key, value).len() <= capacity,
        lru_value(lru_after_put(entries, capacity, key, value), key) == Some(value),
{
    lemma_lru_find(entries, key);
    let after = lru_after_put(entries, capacity, key, value);
    assert(after[0] == (key, value));
    lemma_lru_first(after);
    match lru_find(entries, key) {
        Some(i) => {
            assert forall|a: int, b: int|
                0 <= a < after.len() && 0 <= b < after.len() && a != b implies (
            #[trigger] after[a]).0 != (#[trigger] after[b]).0 by {
                let pa = place_before_touch(i, a);
                let pb = place_before_touch(i, b);
                assert(after[a].0 == entries[pa].0);
                assert(after[b].0 == entries[pb].0);
                assert(pa != pb);
                assert(entries[pa].0 != entries[pb].0);
            }
        },
        None => {
            assert forall|a: int, b: int|
                0 <= a < after.len() && 0 <= b < after.len() && a != b implies (
            #[trigger] after[a]).0 != (#[trigger] after[b]).0 by {
                if a > 0 && b > 0 {
                    assert(after[a] == entries[a - 1]);
                    assert(after[b] == entries[b - 1]);
                    assert(entries[a - 1].0 != entries[b - 1].0);
                } else if a > 0 {
                    assert(after[a] == entries[a - 1]);
                    assert(entries[a - 1].0 != key);
                } else {
                    assert(after[b] == entries[b - 1]);
                    assert(entries[b - 1].0 != key);
                }
            }
        },
    }
}

impl DynamicPipelineSpec {
    /// Where a pipeline can be planned, its shaders can be written.
    pub proof fn lemma_planned_is_shadeable(&self)
        requires
            self.plan_error() is None,
        ensures
            self.shader_spec().shadeable(),
    {
    }
}

impl CompileStep {
    /// The pipeline that the table found, as the answer shows it.
    pub open spec fn found(&self) -> Option<DynamicPipeline> {
        match self {
            CompileStep::Cached(pipeline) => Some(**pipeline),
            _ => None,
        }
    }

    /// Whether this is the given answer to the request for the pipeline of
    /// a specification. A request to build holds the plan of the pipeline
    /// as `plan_pipeline` gives it.
    pub open spec fn gives(&self, answer: AnswerModel, spec: DynamicPipelineSpec) -> bool {
        match (self, answer) {
            (CompileStep::Cached(pipeline), AnswerModel::Cached(found)) => **pipeline == found,
            (CompileStep::Refused(e), AnswerModel::Refused(error)) => *e == error,
            (
                CompileStep::Build(request),
                AnswerModel::Build { vertex_shader, fragment_shader },
            ) => {
                &&& request.vertex_shader@ == vertex_shader
                &&& request.fragment_shader@ == fragment_shader
                &&& request.plan.descriptors@ == spec.planned_descriptors()
                &&& request.plan.set_count == crate::plan::set_count_of(
                    spec.planned_descriptors(),
                )
                &&& request.plan.push_constant_size == spec.planned_push_constant_size()
                &&& request.plan.stride == spec.vertex_buffer.stride
                &&& request.plan.attributes@ == spec.planned_attributes()
                &&& request.plan.topology == crate::plan::topology_of(spec.draw_mode)
            },
            _ => false,
        }
    }
}

/// The pipeline compiler.
pub struct PipelineCompiler {
    cache: PipelineTable,
    vertex_shaders: lru::LruCache<Vec<u8>, u64>,
    fragment_shaders: lru::LruCache<Vec<u8>, u64>,
    shader_compiles: u64,
    pipeline_builds: u64,
}

impl View for PipelineCompiler {
    type V = CompilerModel;

    closed spec fn view(&self) -> CompilerModel {
        CompilerModel {
            pipelines: pipeline_table_entries(self.cache),
            vertex_shaders: lru_entries(self.vertex_shaders),
            fragment_shaders: lru_entries(self.fragment_shaders),
            shader_capacity: lru_capacity(self.vertex_shaders),
            shader_compiles: self.shader_compiles,
            pipeline_builds: self.pipeline_builds,
        }
    }
}

/// One more, as long as a 64-bit count can hold it.
fn count(n: u64) -> (r: u64)
    ensures
        r == counted(n),
{
    if n < u64::MAX {
        n + 1
    } else {
        n
    }
}

/// The handle that left a cache, unless it is the handle that was put.
fn released(left: Option<u64>, module: u64) -> (r: Option<u64>)
    ensures
        r == match left {
            Some(handle) if handle != module => Some(handle),
            _ => None,
        },
{
    match left {
        Some(handle) => if handle != module {
            Some(handle)
        } else {
            None
        },
        None => None,
    }
}

impl PipelineCompiler {
    /// The state is well formed, and both shader caches were made for the
    /// same number of modules.
    pub closed spec fn wf(&self) -> bool {
        &&& self@.wf()
        &&& lru_capacity(self.fragment_shaders) == lru_capacity(self.vertex_shaders)
    }

    /// What `wf` says of the state as a value.
    pub proof fn lemma_wf(&self)
        requires
            self.wf(),
        ensures
            self@.wf(),
    {
    }

    /// A compiler that has compiled nothing. Each of its shader caches
    /// holds `shader_capacity` modules at most, one at least, and no more
    /// than a cache can be made for.
    pub fn new(shader_capacity: usize) -> (r: Self)
        ensures
            r.wf(),
            r@.wf(),
            r@.pipelines == crate::pipeline_table::no_pipelines(),
            r@.vertex_shaders.len() == 0,
            r@.fragment_shaders.len() == 0,
            r@.shader_capacity == if shader_capacity == 0 {
                1
            } else if shader_capacity > MAX_CACHE_CAPACITY {
                MAX_CACHE_CAPACITY
            } else {
                shader_capacity
            },
            r@.shader_compiles == 0,
            r@.pipeline_builds == 0,
    {
        let capacity: usize = if shader_capacity == 0 {
            1
        } else if shader_capacity > MAX_CACHE_CAPACITY {
            MAX_CACHE_CAPACITY
        } else {
            shader_capacity
        };
        PipelineCompiler {
            cache: pipeline_table_new(),
            vertex_shaders: lru_new(capacity),
            fragment_shaders: lru_new(capacity),
            shader_compiles: 0,
            pipeline_builds: 0,
        }
    }

    /// The number of shader sources that were handed out for compiling.
    pub fn shader_compiles(&self) -> (r: u64)
        ensures
            r == self@.shader_compiles,
    {
        self.shader_compiles
    }

    /// The number of pipelines that were taken in.
    pub fn pipeline_builds(&self) -> (r: u64)
        ensures
            r == self@.pipeline_builds,
    {
        self.pipeline_builds
    }

    /// Asks for the vertex shader of a specification: the module that was
    /// compiled for it before, or the source text to compile.
    pub fn compile_vertex_shader(&mut self, spec: &ShaderSpec) -> (r: ShaderStep)
        requires
            old(self).wf(),
            spec.shadeable(),
        ensures
            final(self).wf(),
            final(self)@.wf(),
            final(self)@ == old(self)@.vertex_asked(*spec),
            r@ == shader_step(old(self)@.vertex_shaders, spec.key(), spec.vertex_shader_text()),
    {
        let key = spec.cache_key();
        proof {
            lemma_lru_after_get(lru_entries(self.vertex_shaders), key@, key@);
            lemma_lru_find(lru_entries(self.vertex_shaders), key@);
        }
        match lru_get(&mut self.vertex_shaders, &key) {
            Some(module) => ShaderStep::Cached(module),
            None => {
                self.shader_compiles = count(self.shader_compiles);
                ShaderStep::Compile(spec.get_vertex_shader_code())
            },
        }
    }

    /// Asks for the fragment shader of a specification: the module that was
    /// compiled for it before, or the source text to compile.
    pub fn compile_fragment_shader(&mut self, spec: &ShaderSpec) -> (r: ShaderStep)
        requires
            old(self).wf(),
        ensures
            final(self).wf(),
            final(self)@.wf(),
            final(self)@ == old(self)@.fragment_asked(*spec),
            r@ == shader_step(
                old(self)@.fragment_shaders,
                spec.key(),
                spec.fragment_shader_text(),
            ),
    {
        let key = spec.cache_key();
        proof {
            lemma_lru_after_get(lru_entries(self.fragment_shaders), key@, key@);
            lemma_lru_find(lru_entries(self.fragment_shaders), key@);
        }
        match lru_get(&mut self.fragment_shaders, &key) {
            Some(module) => ShaderStep::Cached(module),
            None => {
                self.shader_compiles = count(self.shader_compiles);
                ShaderStep::Compile(spec.get_fragment_shader_code())
            },
        }
    }

    /// Answers the request for the pipeline of a specification, given what
    /// the table of pipelines found under its key.
    ///
    /// A pipeline that was found is the answer. For a specification for
    /// which no pipeline can be planned the answer is the reason. Otherwise
    /// the answer is the request to build: the plan of the pipeline, and
    /// for each of the two shaders the cached module or the source text.
    pub fn after_lookup(
        &mut self,
        spec: &DynamicPipelineSpec,
        found: Option<Arc<DynamicPipeline>>,
    ) -> (r: CompileStep)
        requires
            old(self).wf(),
        ensures
            final(self).wf(),
            final(self)@.wf(),
            final(self)@ == old(self)@.asked(
                *spec,
                match found {
                    Some(pipeline) => Some(*pipeline),
                    None => None,
                },
            ),
            r.gives(
                old(self)@.answer(
                    *spec,
                    match found {
                        Some(pipeline) => Some(*pipeline),
                        None => None,
                    },
                ),
                *spec,
            ),
    {
        match found {
            Some(pipeline) => {
                return CompileStep::Cached(pipeline);
            },
            None => {},
        }
        let plan = match plan_pipeline(spec) {
            Ok(plan) => plan,
            Err(error) => {
                return CompileStep::Refused(error);
            },
        };
        let shader_spec = ShaderSpec::from(spec);
        proof {
            spec.lemma_planned_is_shadeable();
            assert(shader_spec == spec.shader_spec());
        }
        let vertex_shader = self.compile_vertex_shader(&shader_spec);
        let fragment_shader = self.compile_fragment_shader(&shader_spec);
        CompileStep::Build(Box::new(BuildRequest { plan, vertex_shader, fragment_shader }))
    }

    /// Asks for the pipeline of a specification.
    ///
    /// Whether a pipeline that was compiled before is found depends on
    /// whether somebody still holds it. Whatever the table finds, the
    /// answer is the one that `after_lookup` gives for it, and a pipeline
    /// that is found was compiled for this very specification.
    pub fn compile(&mut self, spec: &DynamicPipelineSpec) -> (r: CompileStep)
        requires
            old(self).wf(),
        ensures
            final(self).wf(),
            final(self)@.wf(),
            old(self)@.may_find(*spec, r.found()),
            final(self)@ == old(self)@.asked(*spec, r.found()),
            r.gives(old(self)@.answer(*spec, r.found()), *spec),
            r matches CompileStep::Cached(pipeline) ==> pipeline.spec == *spec,
    {
        let key = spec.cache_key();
        let found = pipeline_table_get(&self.cache, &key);
        proof {
            if found is Some {
                let pipeline = found.unwrap();
                assert(self@.pipelines[key@].spec.key() == key@);
                DynamicPipelineSpec::lemma_key_injective(pipeline.spec, *spec);
            }
        }
        self.after_lookup(spec, found)
    }

    /// Takes in what was built for a specification, and hands out the
    /// pipeline. The table holds the pipeline for as long as somebody
    /// holds what is handed out here.
    ///
    /// Each of the two modules takes the place of the module that its
    /// cache held for the same shaders, or, in a full cache, of the one
    /// that was used longest ago. The handle of a module that left in this
    /// way is handed out too: its owner may let the module go.
    pub fn complete(&mut self, spec: &DynamicPipelineSpec, built: BuiltPipeline) -> (r: Completed)
        requires
            old(self).wf(),
        ensures
            final(self).wf(),
            final(self)@.wf(),
            old(self)@.completes(*spec, built, final(self)@),
            *r.pipeline == CompilerModel::pipeline_of(*spec, built),
            r.released_vertex_module == released_module(
                old(self)@.vertex_shaders,
                old(self)@.shader_capacity,
                spec.shader_spec().key(),
                built.vertex_module,
            ),
            r.released_fragment_module == released_module(
                old(self)@.fragment_shaders,
                old(self)@.shader_capacity,
                spec.shader_spec().key(),
                built.fragment_module,
            ),
    {
        let shader_spec = ShaderSpec::from(spec);
        let vertex_key = shader_spec.cache_key();
        let fragment_key = shader_spec.cache_key();
        proof {
            lemma_lru_after_put(
                lru_entries(self.vertex_shaders),
                lru_capacity(self.vertex_shaders),
                vertex_key@,
                built.vertex_module,
            );
            lemma_lru_after_put(
                lru_entries(self.fragment_shaders),
                lru_capacity(self.fragment_shaders),
                fragment_key@,
                built.fragment_module,
            );
        }
        let released_vertex_module = released(
            lru_push(&mut self.vertex_shaders, vertex_key, built.vertex_module),
            built.vertex_module,
        );
        let released_fragment_module = released(
            lru_push(&mut self.fragment_shaders, fragment_key, built.fragment_module),
            built.fragment_module,
        );
        let pipeline = Arc::new(
            DynamicPipeline { spec: *spec, pipeline: built.pipeline, layout: built.layout },
        );
        pipeline_table_insert(&mut self.cache, spec.cache_key(), pipeline.clone());
        self.pipeline_builds = count(self.pipeline_builds);
        Completed { pipeline, released_vertex_module, released_fragment_module }
    }
}

impl CompilerModel {
    /// Asking for a pipeline keeps the state well formed.
    pub proof fn lemma_asked_wf(self, spec: DynamicPipelineSpec, found: Option<DynamicPipeline>)
        requires
            self.wf(),
        ensures
            self.asked(spec, found).wf(),
    {
        let key = spec.shader_spec().key();
        lemma_lru_after_get(self.vertex_shaders, key, key);
        lemma_lru_after_get(self.fragment_shaders, key, key);
    }

    /// Taking in what was built keeps the state well formed; the modules
    /// that were taken in are what the shader caches find for the
    /// specification afterwards, and the table holds the pipeline.
    pub proof fn lemma_completes_wf(
        self,
        spec: DynamicPipelineSpec,
        built: BuiltPipeline,
        after: CompilerModel,
    )
        requires
            self.wf(),
            self.completes(spec, built, after),
        ensures
            after.wf(),
            lru_value(after.vertex_shaders, spec.shader_spec().key()) == Some(
                built.vertex_module,
            ),
            lru_value(after.fragment_shaders, spec.shader_spec().key()) == Some(
                built.fragment_module,
            ),
            after.may_find(spec, Some(Self::pipeline_of(spec, built))),
    {
        let key = spec.shader_spec().key();
        lemma_lru_after_put(self.vertex_shaders, self.shader_capacity, key, built.vertex_module);
        lemma_lru_after_put(
            self.fragment_shaders,
            self.shader_capacity,
            key,
            built.fragment_module,
        );
        assert forall|k: Seq<u8>| after.pipelines.contains_key(k) implies (
        #[trigger] after.pipelines[k]).spec.key() == k by {
            if k != spec.key() {
                assert(self.pipelines.contains_key(k));
            }
        }
    }

    /// A pipeline that was compiled is not compiled again for an equal
    /// specification.
    ///
    /// After the pipeline of `first` was built and taken in, which gave
    /// the state `taken_in`, a request for an equal specification `second`
    /// leads to no shader being compiled, whatever the table of pipelines
    /// finds: the answer is the pipeline that was taken in, or, where
    /// nobody holds that any more, a request to build it from the two
    /// modules that were taken in.
    pub proof fn lemma_equal_spec_hits_cache(
        self,
        first: DynamicPipelineSpec,
        second: DynamicPipelineSpec,
        built: BuiltPipeline,
        taken_in: CompilerModel,
        found: Option<DynamicPipeline>,
    )
        requires
            self.wf(),
            first.plan_error() is None,
            second == first,
            self.asked(first, None).completes(first, built, taken_in),
            taken_in.may_find(second, found),
        ensures
            taken_in.asked(second, found).shader_compiles == taken_in.shader_compiles,
            taken_in.asked(second, found).pipeline_builds == taken_in.pipeline_builds,
            match taken_in.answer(second, found) {
                AnswerModel::Cached(pipeline) => pipeline == Self::pipeline_of(first, built),
                AnswerModel::Build { vertex_shader, fragment_shader } => {
                    &&& vertex_shader == ShaderStepModel::Cached(built.vertex_module)
                    &&& fragment_shader == ShaderStepModel::Cached(built.fragment_module)
                },
                AnswerModel::Refused(_) => false,
            },
    {
        let asked = self.asked(first, None);
        self.lemma_asked_wf(first, None);
        asked.lemma_completes_wf(first, built, taken_in);
        let key = first.shader_spec().key();
        lemma_lru_find(taken_in.vertex_shaders, key);
        lemma_lru_find(taken_in.fragment_shaders, key);
        lemma_lru_after_get(taken_in.vertex_shaders, key, key);
    }

    /// A specification that differs from one that was compiled, be it only
    /// in the cull mode, gets a pipeline of its own and shares the shaders.
    ///
    /// After the pipeline of `first` was built and taken in, which gave
    /// the state `taken_in`, the table cannot find a pipeline for a
    /// specification `second` that differs from `first` in the cull mode
    /// alone and was not in the table before: the answer is a request to
    /// build it from the two modules of `first`, and no shader is
    /// compiled. Once the pipeline of `second` is taken in too, which gives
    /// the state `both`, the table holds it under a key that is not the
    /// key of `first`, and what it still holds under the key of `first` is
    /// the pipeline of `first`. That it still holds that one is not said:
    /// the table keeps a pipeline only while somebody holds it.
    pub proof fn lemma_other_cull_mode_misses_cache(
        self,
        first: DynamicPipelineSpec,
        second: DynamicPipelineSpec,
        built_first: BuiltPipeline,
        built_second: BuiltPipeline,
        taken_in: CompilerModel,
        both: CompilerModel,
        found: Option<DynamicPipeline>,
    )
        requires
            self.wf(),
            first.plan_error() is None,
            second.rasterization.cull_mode != first.rasterization.cull_mode,
            second == (DynamicPipelineSpec {
                rasterization: crate::pipeline::DynamicPipelineRasterization {
                    cull_mode: second.rasterization.cull_mode,
                    ..first.rasterization
                },
                ..first
            }),
            !self.pipelines.contains_key(second.key()),
            self.asked(first, None).completes(first, built_first, taken_in),
            taken_in.may_find(second, found),
            taken_in.asked(second, None).completes(second, built_second, both),
        ensures
            found is None,
            first.key() != second.key(),
            taken_in.answer(second, found) == (AnswerModel::Build {
                vertex_shader: ShaderStepModel::Cached(built_first.vertex_module),
                fragment_shader: ShaderStepModel::Cached(built_first.fragment_module),
            }),
            taken_in.asked(second, found).shader_compiles == taken_in.shader_compiles,
            both.shader_compiles == taken_in.shader_compiles,
            both.pipeline_builds == counted(counted(self.pipeline_builds)),
            both.may_find(second, Some(Self::pipeline_of(second, built_second))),
            both.pipelines.contains_key(first.key()) ==> both.pipelines[first.key()]
                == Self::pipeline_of(first, built_first),
    {
        let asked = self.asked(first, None);
        self.lemma_asked_wf(first, None);
        asked.lemma_completes_wf(first, built_first, taken_in);
        let key = first.shader_spec().key();
        DynamicPipelineSpec::lemma_key_injective(first, second);
        assert(second.shader_spec() == first.shader_spec());
        assert(second.plan_error() is None);
        lemma_lru_find(taken_in.vertex_shaders, key);
        lemma_lru_find(taken_in.fragment_shaders, key);
        lemma_lru_after_get(taken_in.vertex_shaders, key, key);
        if taken_in.pipelines.contains_key(second.key()) {
            assert(asked.pipelines.contains_key(second.key()));
        }
        if both.pipelines.contains_key(first.key()) {
            assert(taken_in.asked(second, None).pipelines.contains_key(first.key()));
        }
    }
}

} // verus!
