//! Batching: the sorted snapshots are walked once; each maximal run of shapes
//! that share a shader pair (and, for UI shapes, a depth) becomes one batch,
//! drawn with one instanced call. Shapes whose composed shader is not ready
//! are left out of this frame.
use vstd::prelude::*;
use vstd::set_lib::{lemma_int_range, lemma_map_size, set_int_range};
use crate::shader_id::{ShaderId, ShaderKey};
use crate::extract::{ExtractedShape, ExtractedShapes, ExtractedUiShapes, key_of};
use crate::order::{depth_key_of, depth_of, sort_shapes, is_sorted_order, permuted, precedes};
use crate::pipeline::{MeshKey, PipelineId, PrimitiveTopology, SmudPipeline, SmudPipelineKey, SpecializedPipelines, shape_mesh_key, QUAD_VERTEX_COUNT};
use crate::vertex::ShapeVertex;

verus! {

/// A half-open range of instances in the vertex buffer.
#[derive(Clone, Copy, Debug, PartialEq, Eq, Structural)]
pub struct InstanceRange {
    pub start: usize,
    pub end: usize,
}

/// A run of consecutive instances drawn with one pipeline.
#[derive(Clone, Copy, Debug, PartialEq, Eq, Structural)]
pub struct ShapeBatch {
    pub shader: ShaderKey,
    pub range: InstanceRange,
    /// The depth key of the batch's first shape; the render phase sorts by it.
    pub z: u32,
    pub pipeline: PipelineId,
}

/// The UI pass's batches are the same records; all instances of one share its
/// depth `z`.
pub type UiShapeBatch = ShapeBatch;

/// The vertex buffers of the world-space and the UI passes.
pub struct ShapeMeta {
    pub vertices: Vec<ShapeVertex>,
    pub ui_vertices: Vec<ShapeVertex>,
}

impl ShapeMeta {
    pub fn new() -> (m: ShapeMeta)
        ensures
            m.vertices@.len() == 0,
            m.ui_vertices@.len() == 0,
    {
        ShapeMeta { vertices: Vec::new(), ui_vertices: Vec::new() }
    }
}

/// The batches of a frame, and for each packed instance the index of its
/// shape in the sorted list.
pub struct BatchedShapes {
    pub batches: Vec<ShapeBatch>,
    pub sources: Vec<usize>,
}

/// A frame's batches together with the sorted order of the snapshots: for
/// each place of the sorted list, the index the shape had before sorting.
pub struct QueuedShapes {
    pub order: Vec<usize>,
    pub batched: BatchedShapes,
}

/// One instanced draw of the quad.
#[derive(Clone, Copy, Debug, PartialEq, Eq, Structural)]
pub struct DrawCall {
    pub pipeline: PipelineId,
    pub vertex_count: u32,
    pub instances: InstanceRange,
}

/// The shape's composed shader is registered.
pub open spec fn is_ready(shaders: Map<ShaderKey, ShaderId>, s: ExtractedShape) -> bool {
    shaders.contains_key(key_of(s))
}

/// The number of shapes whose composed shader is registered.
pub open spec fn count_ready(shaders: Map<ShaderKey, ShaderId>, shapes: Seq<ExtractedShape>) -> nat
    decreases shapes.len(),
{
    if shapes.len() == 0 {
        0
    } else {
        count_ready(shaders, shapes.drop_last()) + if is_ready(shaders, shapes.last()) {
            1nat
        } else {
            0nat
        }
    }
}

/// Shape `k` of the sorted list differs from the one before it in shader
/// pair, or, where batches split by depth, in depth.
pub open spec fn starts_run(shapes: Seq<ExtractedShape>, k: int, split_by_depth: bool) -> bool {
    k == 0 || key_of(shapes[k]) != key_of(shapes[k - 1]) || (split_by_depth && depth_of(shapes[k])
        != depth_of(shapes[k - 1]))
}

/// Packed instance `v` cannot share a batch with instance `v - 1`: it is the
/// first, a skipped shape lies between them, or a new run starts.
pub open spec fn opens_batch(
    shapes: Seq<ExtractedShape>,
    sources: Seq<usize>,
    split_by_depth: bool,
    v: int,
) -> bool {
    v == 0 || sources[v] != sources[v - 1] + 1 || starts_run(shapes, sources[v] as int, split_by_depth)
}

/// The record a snapshot is packed into.
pub open spec fn vertex_of(s: ExtractedShape) -> ShapeVertex {
    ShapeVertex {
        color: s.color,
        frame: s.frame,
        position: s.transform.translation,
        rotation: s.transform.rotation,
        scale: s.transform.scale,
    }
}

/// Exactly the ready shapes are packed, in sorted order.
pub open spec fn packs_ready_shapes(
    shapes: Seq<ExtractedShape>,
    shaders: Map<ShaderKey, ShaderId>,
    vertices: Seq<ShapeVertex>,
    sources: Seq<usize>,
) -> bool {
    &&& sources.len() == vertices.len()
    &&& vertices.len() == count_ready(shaders, shapes)
    &&& forall|v: int|
        0 <= v < sources.len() ==> {
            &&& #[trigger] sources[v] < shapes.len()
            &&& is_ready(shaders, shapes[sources[v] as int])
            &&& vertices[v] == vertex_of(shapes[sources[v] as int])
        }
    &&& forall|v: int, w: int| 0 <= v < w < sources.len() ==> sources[v] < sources[w]
    &&& forall|k: usize|
        k < shapes.len() && is_ready(shaders, shapes[k as int]) ==> #[trigger] sources.contains(k)
}

/// The batches cover the packed instances `0..count` in order, without gaps,
/// overlaps or empty batches.
pub open spec fn partitions(batches: Seq<ShapeBatch>, count: int) -> bool {
    &&& batches.len() == 0 ==> count == 0
    &&& batches.len() > 0 ==> batches[0].range.start == 0 && batches.last().range.end == count
    &&& forall|b: int| 0 <= b < batches.len() ==> #[trigger] batches[b].range.start < batches[b].range.end
    &&& forall|b: int| 0 <= b < batches.len() ==> #[trigger] batches[b].range.end <= count
    &&& forall|b: int|
        0 <= b < batches.len() - 1 ==> #[trigger] batches[b].range.end == batches[b + 1].range.start
}

/// Each batch holds one maximal run of instances that share a shader pair
/// (and, where batches split by depth, a depth), and is drawn with the
/// pipeline cached for that pair.
pub open spec fn batches_runs(
    shapes: Seq<ExtractedShape>,
    sources: Seq<usize>,
    batches: Seq<ShapeBatch>,
    split_by_depth: bool,
    mesh: MeshKey,
    pipelines: SpecializedPipelines,
) -> bool {
    &&& forall|b: int, v: int|
        0 <= b < batches.len() && #[trigger] batches[b].range.start <= v < batches[b].range.end
            ==> key_of(#[trigger] shapes[sources[v] as int]) == batches[b].shader
    &&& forall|b: int|
        0 <= b < batches.len() ==> pipelines.caches(
            SmudPipelineKey { mesh, shader: #[trigger] batches[b].shader },
            batches[b].pipeline as int,
        )
    &&& forall|b: int|
        0 <= b < batches.len() ==> #[trigger] batches[b].z as int == depth_of(
            shapes[sources[batches[b].range.start as int] as int],
        )
    &&& forall|b: int|
        0 <= b < batches.len() ==> opens_batch(
            shapes,
            sources,
            split_by_depth,
            #[trigger] batches[b].range.start as int,
        )
    &&& forall|b: int, v: int|
        0 <= b < batches.len() && #[trigger] batches[b].range.start < v < batches[b].range.end
            ==> !#[trigger] opens_batch(shapes, sources, split_by_depth, v)
}

/// Whether shape `k` starts a run.
fn starts_new_run(shapes: &Vec<ExtractedShape>, k: usize, split_by_depth: bool) -> (r: bool)
    requires
        k < shapes.len(),
    ensures
        r == starts_run(shapes@, k as int, split_by_depth),
{
    if k == 0 {
        return true;
    }
    let a = &shapes[k - 1];
    let b = &shapes[k];
    let same_key = a.sdf_shader == b.sdf_shader && a.fill_shader == b.fill_shader;
    if !same_key {
        return true;
    }
    split_by_depth && depth_key_of(a.transform.translation[2]) != depth_key_of(b.transform.translation[2])
}

proof fn lemma_count_ready_step(shaders: Map<ShaderKey, ShaderId>, shapes: Seq<ExtractedShape>, k: int)
    requires
        0 <= k < shapes.len(),
    ensures
        count_ready(shaders, shapes.take(k + 1)) == count_ready(shaders, shapes.take(k)) + if is_ready(
            shaders,
            shapes[k],
        ) {
            1nat
        } else {
            0nat
        },
{
    assert(shapes.take(k + 1).drop_last() =~= shapes.take(k));
}


proof fn lemma_partitions_push(batches: Seq<ShapeBatch>, start: int, batch: ShapeBatch)
    requires
        partitions(batches, start),
        batch.range.start == start,
        batch.range.start < batch.range.end,
    ensures
        partitions(batches.push(batch), batch.range.end as int),
{
    let bs = batches.push(batch);
    assert forall|b: int| 0 <= b < bs.len() - 1 implies #[trigger] bs[b].range.end == bs[b + 1].range.start by {
        if b == bs.len() - 2 {
            assert(bs[b] == batches.last());
        }
    }
}

proof fn lemma_runs_push_source(
    shapes: Seq<ExtractedShape>,
    sources: Seq<usize>,
    batches: Seq<ShapeBatch>,
    split_by_depth: bool,
    mesh: MeshKey,
    pipelines: SpecializedPipelines,
    start: int,
    x: usize,
)
    requires
        batches_runs(shapes, sources, batches, split_by_depth, mesh, pipelines),
        partitions(batches, start),
        start <= sources.len(),
    ensures
        batches_runs(shapes, sources.push(x), batches, split_by_depth, mesh, pipelines),
{
    let s2 = sources.push(x);
    assert forall|b: int, v: int|
        0 <= b < batches.len() && #[trigger] batches[b].range.start <= v < batches[b].range.end
            implies key_of(#[trigger] shapes[s2[v] as int]) == batches[b].shader by {
        assert(s2[v] == sources[v]);
    }
    assert forall|b: int| 0 <= b < batches.len() implies #[trigger] batches[b].z as int == depth_of(
        shapes[s2[batches[b].range.start as int] as int],
    ) by {
        assert(s2[batches[b].range.start as int] == sources[batches[b].range.start as int]);
    }
    assert forall|b: int| 0 <= b < batches.len() implies opens_batch(
        shapes,
        s2,
        split_by_depth,
        #[trigger] batches[b].range.start as int,
    ) by {
        let v = batches[b].range.start as int;
        assert(opens_batch(shapes, sources, split_by_depth, v));
        if v > 0 {
            assert(s2[v] == sources[v]);
            assert(s2[v - 1] == sources[v - 1]);
        }
    }
    assert forall|b: int, v: int|
        0 <= b < batches.len() && #[trigger] batches[b].range.start < v < batches[b].range.end
            implies !#[trigger] opens_batch(shapes, s2, split_by_depth, v) by {
        assert(!opens_batch(shapes, sources, split_by_depth, v));
        assert(s2[v] == sources[v]);
        assert(s2[v - 1] == sources[v - 1]);
    }
}

proof fn lemma_runs_grow_pipelines(
    shapes: Seq<ExtractedShape>,
    sources: Seq<usize>,
    batches: Seq<ShapeBatch>,
    split_by_depth: bool,
    mesh: MeshKey,
    before: SpecializedPipelines,
    after: SpecializedPipelines,
)
    requires
        batches_runs(shapes, sources, batches, split_by_depth, mesh, before),
        forall|key: SmudPipelineKey, id: int| before.caches(key, id) ==> #[trigger] after.caches(key, id),
    ensures
        batches_runs(shapes, sources, batches, split_by_depth, mesh, after),
{
    assert forall|b: int| 0 <= b < batches.len() implies after.caches(
        SmudPipelineKey { mesh, shader: #[trigger] batches[b].shader },
        batches[b].pipeline as int,
    ) by {
        assert(before.caches(SmudPipelineKey { mesh, shader: batches[b].shader }, batches[b].pipeline as int));
    }
}

proof fn lemma_runs_push_batch(
    shapes: Seq<ExtractedShape>,
    sources: Seq<usize>,
    batches: Seq<ShapeBatch>,
    split_by_depth: bool,
    mesh: MeshKey,
    pipelines: SpecializedPipelines,
    batch: ShapeBatch,
)
    requires
        batches_runs(shapes, sources, batches, split_by_depth, mesh, pipelines),
        forall|v: int|
            batch.range.start <= v < batch.range.end ==> key_of(#[trigger] shapes[sources[v] as int])
                == batch.shader,
        pipelines.caches(SmudPipelineKey { mesh, shader: batch.shader }, batch.pipeline as int),
        batch.z as int == depth_of(shapes[sources[batch.range.start as int] as int]),
        opens_batch(shapes, sources, split_by_depth, batch.range.start as int),
        forall|v: int|
            batch.range.start < v < batch.range.end ==> !#[trigger] opens_batch(shapes, sources, split_by_depth, v),
    ensures
        batches_runs(shapes, sources, batches.push(batch), split_by_depth, mesh, pipelines),
{
    let bs = batches.push(batch);
    assert forall|b: int, v: int|
        0 <= b < bs.len() && #[trigger] bs[b].range.start <= v < bs[b].range.end
            implies key_of(#[trigger] shapes[sources[v] as int]) == bs[b].shader by {
        if b < batches.len() {
            assert(bs[b] == batches[b]);
        }
    }
    assert forall|b: int| 0 <= b < bs.len() implies pipelines.caches(
        SmudPipelineKey { mesh, shader: #[trigger] bs[b].shader },
        bs[b].pipeline as int,
    ) by {
        if b < batches.len() {
            assert(bs[b] == batches[b]);
        }
    }
    assert forall|b: int| 0 <= b < bs.len() implies #[trigger] bs[b].z as int == depth_of(
        shapes[sources[bs[b].range.start as int] as int],
    ) by {
        if b < batches.len() {
            assert(bs[b] == batches[b]);
        }
    }
    assert forall|b: int| 0 <= b < bs.len() implies opens_batch(
        shapes,
        sources,
        split_by_depth,
        #[trigger] bs[b].range.start as int,
    ) by {
        if b < batches.len() {
            assert(bs[b] == batches[b]);
        }
    }
    assert forall|b: int, v: int|
        0 <= b < bs.len() && #[trigger] bs[b].range.start < v < bs[b].range.end
            implies !#[trigger] opens_batch(shapes, sources, split_by_depth, v) by {
        if b < batches.len() {
            assert(bs[b] == batches[b]);
        }
    }
}

/// Walks the sorted snapshots once, packing each ready shape into `vertices`
/// and closing a batch wherever a run ends. Shapes whose composed shader is
/// not registered are skipped; a batch is never formed for them.
#[verifier::rlimit(50)]
pub fn batch_sorted_shapes(
    shapes: &Vec<ExtractedShape>,
    split_by_depth: bool,
    pipeline: &SmudPipeline,
    pipelines: &mut SpecializedPipelines,
    mesh: MeshKey,
    vertices: &mut Vec<ShapeVertex>,
) -> (out: BatchedShapes)
    requires
        old(pipelines).wf(),
    ensures
        final(pipelines).wf(),
        forall|key: SmudPipelineKey, id: int|
            old(pipelines).caches(key, id) ==> #[trigger] final(pipelines).caches(key, id),
        packs_ready_shapes(shapes@, pipeline.shaders@, final(vertices)@, out.sources@),
        partitions(out.batches@, final(vertices)@.len() as int),
        batches_runs(shapes@, out.sources@, out.batches@, split_by_depth, mesh, *final(pipelines)),
{
    let ghost shaders = pipeline.shaders@;
    vertices.clear();
    let mut sources: Vec<usize> = Vec::new();
    let mut batches: Vec<ShapeBatch> = Vec::new();
    let mut start: usize = 0;
    let mut cur_pipe: Option<PipelineId> = None;
    let mut cur_z: u32 = 0;
    let n = shapes.len();
    let mut k: usize = 0;
    while k < n
        invariant
            n == shapes.len(),
            k <= n,
            shaders == pipeline.shaders@,
            pipelines.wf(),
            forall|key: SmudPipelineKey, id: int|
                old(pipelines).caches(key, id) ==> #[trigger] pipelines.caches(key, id),
            sources.len() == vertices.len(),
            vertices.len() == count_ready(shaders, shapes@.take(k as int)),
            forall|v: int|
                0 <= v < sources.len() ==> {
                    &&& #[trigger] sources[v] < k
                    &&& is_ready(shaders, shapes@[sources[v] as int])
                    &&& vertices[v] == vertex_of(shapes@[sources[v] as int])
                },
            forall|v: int, w: int| 0 <= v < w < sources.len() ==> sources[v] < sources[w],
            forall|j: usize| j < k && is_ready(shaders, shapes@[j as int]) ==> #[trigger] sources@.contains(j),
            start <= vertices.len(),
            partitions(batches@, start as int),
            batches_runs(shapes@, sources@, batches@, split_by_depth, mesh, *pipelines),
            k > 0 ==> forall|v: int|
                start <= v < vertices.len() ==> key_of(#[trigger] shapes@[sources[v] as int]) == key_of(
                    shapes@[k - 1],
                ),
            start < vertices.len() ==> opens_batch(shapes@, sources@, split_by_depth, start as int),
            start < vertices.len() ==> cur_z as int == depth_of(shapes@[sources[start as int] as int]),
            forall|v: int|
                start < v < vertices.len() ==> !#[trigger] opens_batch(shapes@, sources@, split_by_depth, v),
            k == 0 ==> vertices.len() == 0 && batches.len() == 0,
            k > 0 ==> (cur_pipe is Some <==> is_ready(shaders, shapes@[k - 1])),
            k > 0 ==> (cur_pipe matches Some(id) ==> pipelines.caches(
                SmudPipelineKey { mesh, shader: key_of(shapes@[k - 1]) },
                id as int,
            )),
            k > 0 && is_ready(shaders, shapes@[k - 1]) ==> start < vertices.len() && sources[vertices.len() - 1] == k - 1,
            k > 0 && !is_ready(shaders, shapes@[k - 1]) ==> start == vertices.len(),
        decreases n - k,
    {
        let s = shapes[k];
        let ghost old_sources = sources@;
        proof {
            lemma_count_ready_step(shaders, shapes@, k as int);
        }
        let new_run = starts_new_run(shapes, k, split_by_depth);
        if new_run {
            if start < vertices.len() {
                let prev = shapes[k - 1];
                let batch = ShapeBatch {
                    shader: ShaderKey { sdf: prev.sdf_shader, fill: prev.fill_shader },
                    range: InstanceRange { start, end: vertices.len() },
                    z: cur_z,
                    pipeline: cur_pipe.unwrap(),
                };
                let ghost before = batches@;
                batches.push(batch);
                proof {
                    lemma_runs_push_batch(shapes@, sources@, before, split_by_depth, mesh, *pipelines, batch);
                    lemma_partitions_push(before, start as int, batch);
                }
                start = vertices.len();
            }
            let key = ShaderKey { sdf: s.sdf_shader, fill: s.fill_shader };
            if pipeline.shaders.get(&key).is_some() {
                let ghost before = *pipelines;
                let id = pipelines.specialize(pipeline, SmudPipelineKey { mesh, shader: key });
                proof {
                    lemma_runs_grow_pipelines(shapes@, sources@, batches@, split_by_depth, mesh, before, *pipelines);
                }
                cur_pipe = Some(id);
            } else {
                cur_pipe = None;
            }
        }
        match cur_pipe {
            None => {},
            Some(_) => {
                if start == vertices.len() {
                    cur_z = depth_key_of(s.transform.translation[2]);
                }
                let vertex = ShapeVertex {
                    color: s.color,
                    frame: s.frame,
                    position: s.transform.translation,
                    rotation: s.transform.rotation,
                    scale: s.transform.scale,
                };
                vertices.push(vertex);
                let ghost before = sources@;
                sources.push(k);
                proof {
                    lemma_runs_push_source(shapes@, before, batches@, split_by_depth, mesh, *pipelines, start as int, k);
                    assert forall|v: int| start < v < vertices.len() implies !#[trigger] opens_batch(
                        shapes@,
                        sources@,
                        split_by_depth,
                        v,
                    ) by {
                        assert(sources@[v - 1] == before[v - 1]);
                        if v < before.len() {
                            assert(!opens_batch(shapes@, before, split_by_depth, v));
                            assert(sources@[v] == before[v]);
                        } else {
                            assert(!new_run);
                            assert(sources@[v] == k);
                        }
                    }
                }
            },
        }
        proof {
            assert(cur_pipe is Some <==> is_ready(shaders, shapes@[k as int]));
            assert forall|j: usize|
                j < k + 1 && is_ready(shaders, shapes@[j as int]) implies #[trigger] sources@.contains(j) by {
                if j == k {
                    assert(sources@[sources.len() - 1] == j);
                } else {
                    assert(old_sources.contains(j));
                    let idx = choose|idx: int| 0 <= idx < old_sources.len() && old_sources[idx] == j;
                    assert(sources@[idx] == j);
                }
            }
        }
        k = k + 1;
    }
    if start < vertices.len() {
        let prev = shapes[k - 1];
        let batch = ShapeBatch {
            shader: ShaderKey { sdf: prev.sdf_shader, fill: prev.fill_shader },
            range: InstanceRange { start, end: vertices.len() },
            z: cur_z,
            pipeline: cur_pipe.unwrap(),
        };
        batches.push(batch);
        start = vertices.len();
    }
    proof {
        assert(shapes@.take(n as int) =~= shapes@);
    }
    BatchedShapes { batches, sources }
}

/// Packed instances keep depth order: of two instances at different depths,
/// the one nearer the back comes first in the buffer.
pub open spec fn respects_depth(shapes: Seq<ExtractedShape>, sources: Seq<usize>) -> bool {
    forall|v: int, w: int|
        0 <= v < sources.len() && 0 <= w < sources.len() && depth_of(
            #[trigger] shapes[sources[v] as int],
        ) != depth_of(#[trigger] shapes[sources[w] as int]) ==> (v < w <==> depth_of(
            shapes[sources[v] as int],
        ) < depth_of(shapes[sources[w] as int]))
}

proof fn lemma_sorted_depths(shapes: Seq<ExtractedShape>, order: Seq<usize>, p: int, q: int)
    requires
        is_sorted_order(shapes, order),
        0 <= p < q < order.len(),
    ensures
        depth_of(permuted(shapes, order)[p]) <= depth_of(permuted(shapes, order)[q]),
{
    assert(precedes(shapes, order[p] as int, order[q] as int));
}

proof fn lemma_respects_depth(
    before: Seq<ExtractedShape>,
    order: Seq<usize>,
    sources: Seq<usize>,
)
    requires
        is_sorted_order(before, order),
        forall|v: int| 0 <= v < sources.len() ==> #[trigger] sources[v] < order.len(),
        forall|v: int, w: int| 0 <= v < w < sources.len() ==> sources[v] < sources[w],
    ensures
        respects_depth(permuted(before, order), sources),
{
    let shapes = permuted(before, order);
    assert forall|v: int, w: int|
        0 <= v < sources.len() && 0 <= w < sources.len() && depth_of(#[trigger] shapes[sources[v] as int])
            != depth_of(#[trigger] shapes[sources[w] as int]) implies (v < w <==> depth_of(
        shapes[sources[v] as int],
    ) < depth_of(shapes[sources[w] as int])) by {
        if v < w {
            lemma_sorted_depths(before, order, sources[v] as int, sources[w] as int);
        } else if w < v {
            lemma_sorted_depths(before, order, sources[w] as int, sources[v] as int);
        }
    }
}

/// The positions of the ready shapes.
pub open spec fn ready_positions(shaders: Map<ShaderKey, ShaderId>, shapes: Seq<ExtractedShape>) -> Set<int> {
    Set::new(|i: int| 0 <= i < shapes.len() && is_ready(shaders, shapes[i]))
}

proof fn lemma_count_ready_positions(shaders: Map<ShaderKey, ShaderId>, shapes: Seq<ExtractedShape>)
    ensures
        ready_positions(shaders, shapes).finite(),
        ready_positions(shaders, shapes).len() == count_ready(shaders, shapes),
    decreases shapes.len(),
{
    let all = ready_positions(shaders, shapes);
    lemma_int_range(0, shapes.len() as int);
    assert(all.subset_of(set_int_range(0, shapes.len() as int)));
    vstd::set_lib::lemma_len_subset(all, set_int_range(0, shapes.len() as int));
    if shapes.len() > 0 {
        let init = shapes.drop_last();
        let last = shapes.len() - 1;
        lemma_count_ready_positions(shaders, init);
        let before = ready_positions(shaders, init);
        if is_ready(shaders, shapes.last()) {
            assert(all =~= before.insert(last));
        } else {
            assert(all =~= before);
        }
    }
}

/// Sorting changes no count of ready shapes.
proof fn lemma_count_ready_permuted(
    shaders: Map<ShaderKey, ShaderId>,
    shapes: Seq<ExtractedShape>,
    order: Seq<usize>,
)
    requires
        is_sorted_order(shapes, order),
        shapes.len() <= usize::MAX,
    ensures
        count_ready(shaders, permuted(shapes, order)) == count_ready(shaders, shapes),
{
    let sorted = permuted(shapes, order);
    let x = ready_positions(shaders, sorted);
    let y = ready_positions(shaders, shapes);
    let f = |k: int| order[k] as int;
    lemma_count_ready_positions(shaders, sorted);
    lemma_count_ready_positions(shaders, shapes);
    assert forall|p: int, q: int| x.contains(p) && x.contains(q) && #[trigger] f(p) == #[trigger] f(q) implies p == q by {
        if p < q {
            assert(precedes(shapes, order[p] as int, order[q] as int));
            crate::order::lemma_cmp_shapes_total(shapes[order[p] as int], shapes[order[p] as int], shapes[order[p] as int]);
        } else if q < p {
            assert(precedes(shapes, order[q] as int, order[p] as int));
            crate::order::lemma_cmp_shapes_total(shapes[order[q] as int], shapes[order[q] as int], shapes[order[q] as int]);
        }
    }
    assert forall|i: int| #[trigger] y.contains(i) implies x.map(f).contains(i) by {
        assert(0 <= i < shapes.len() && is_ready(shaders, shapes[i]));
        let iu = i as usize;
        assert(order.contains(iu));
        let k = choose|k: int| 0 <= k < order.len() && order[k] == iu;
        assert(sorted[k] == shapes[i]);
        assert(x.contains(k));
        assert(f(k) == i);
    }
    assert(x.map(f) =~= y);
    lemma_map_size(x, y, f);
}

/// Prepares the world-space pass: sorts the snapshots stably by depth, then
/// by shader pair, refills the vertex buffer with the ready shapes in that
/// order, and forms the batches. A batch is a maximal run of one shader pair;
/// depth does not split it.
pub fn queue_shapes(
    extracted: &mut ExtractedShapes,
    pipeline: &SmudPipeline,
    pipelines: &mut SpecializedPipelines,
    msaa_samples: u32,
    meta: &mut ShapeMeta,
) -> (out: QueuedShapes)
    requires
        old(pipelines).wf(),
    ensures
        is_sorted_order(old(extracted).0@, out.order@),
        final(extracted).0@ == permuted(old(extracted).0@, out.order@),
        final(pipelines).wf(),
        forall|key: SmudPipelineKey, id: int|
            old(pipelines).caches(key, id) ==> #[trigger] final(pipelines).caches(key, id),
        final(meta).ui_vertices@ == old(meta).ui_vertices@,
        final(meta).vertices@.len() == count_ready(pipeline.shaders@, old(extracted).0@),
        packs_ready_shapes(
            final(extracted).0@,
            pipeline.shaders@,
            final(meta).vertices@,
            out.batched.sources@,
        ),
        partitions(out.batched.batches@, final(meta).vertices@.len() as int),
        batches_runs(
            final(extracted).0@,
            out.batched.sources@,
            out.batched.batches@,
            false,
            MeshKey { msaa_samples, topology: PrimitiveTopology::TriangleStrip },
            *final(pipelines),
        ),
        respects_depth(final(extracted).0@, out.batched.sources@),
{
    let order = sort_shapes(&mut extracted.0);
    let sorted_len = order.len();
    let mesh = shape_mesh_key(msaa_samples);
    let batched = batch_sorted_shapes(&extracted.0, false, pipeline, pipelines, mesh, &mut meta.vertices);
    proof {
        lemma_respects_depth(old(extracted).0@, order@, batched.sources@);
        assert(old(extracted).0@.len() == sorted_len);
        lemma_count_ready_permuted(pipeline.shaders@, old(extracted).0@, order@);
    }
    QueuedShapes { order, batched }
}

/// The sample count of the UI pass.
pub const UI_MSAA_SAMPLES: u32 = 1;

/// Prepares the UI pass as `queue_shapes` does the world-space one, except
/// that a change of depth also ends a batch, so that other UI items can be
/// drawn between two depths.
pub fn prepare_ui_shapes(
    extracted: &mut ExtractedUiShapes,
    pipeline: &SmudPipeline,
    pipelines: &mut SpecializedPipelines,
    meta: &mut ShapeMeta,
) -> (out: QueuedShapes)
    requires
        old(pipelines).wf(),
    ensures
        is_sorted_order(old(extracted).0@, out.order@),
        final(extracted).0@ == permuted(old(extracted).0@, out.order@),
        final(pipelines).wf(),
        forall|key: SmudPipelineKey, id: int|
            old(pipelines).caches(key, id) ==> #[trigger] final(pipelines).caches(key, id),
        final(meta).vertices@ == old(meta).vertices@,
        final(meta).ui_vertices@.len() == count_ready(pipeline.shaders@, old(extracted).0@),
        packs_ready_shapes(
            final(extracted).0@,
            pipeline.shaders@,
            final(meta).ui_vertices@,
            out.batched.sources@,
        ),
        partitions(out.batched.batches@, final(meta).ui_vertices@.len() as int),
        batches_runs(
            final(extracted).0@,
            out.batched.sources@,
            out.batched.batches@,
            true,
            MeshKey { msaa_samples: UI_MSAA_SAMPLES, topology: PrimitiveTopology::TriangleStrip },
            *final(pipelines),
        ),
        respects_depth(final(extracted).0@, out.batched.sources@),
{
    let order = sort_shapes(&mut extracted.0);
    let sorted_len = order.len();
    let mesh = shape_mesh_key(UI_MSAA_SAMPLES);
    let batched = batch_sorted_shapes(&extracted.0, true, pipeline, pipelines, mesh, &mut meta.ui_vertices);
    proof {
        lemma_respects_depth(old(extracted).0@, order@, batched.sources@);
        assert(old(extracted).0@.len() == sorted_len);
        lemma_count_ready_permuted(pipeline.shaders@, old(extracted).0@, order@);
    }
    QueuedShapes { order, batched }
}

/// The draw of one batch: the quad's vertices, once per instance of the batch.
pub open spec fn draw_of(b: ShapeBatch) -> DrawCall {
    DrawCall { pipeline: b.pipeline, vertex_count: QUAD_VERTEX_COUNT, instances: b.range }
}

/// One instanced draw per batch, in batch order.
pub fn draw_batches(batches: &Vec<ShapeBatch>) -> (calls: Vec<DrawCall>)
    ensures
        calls@.len() == batches@.len(),
        forall|b: int| 0 <= b < batches@.len() ==> #[trigger] calls@[b] == draw_of(batches@[b]),
{
    let mut calls: Vec<DrawCall> = Vec::new();
    let mut b: usize = 0;
    while b < batches.len()
        invariant
            b <= batches.len(),
            calls@.len() == b,
            forall|c: int| 0 <= c < b ==> #[trigger] calls@[c] == draw_of(batches@[c]),
        decreases batches.len() - b,
    {
        let batch = batches[b];
        calls.push(DrawCall { pipeline: batch.pipeline, vertex_count: QUAD_VERTEX_COUNT, instances: batch.range });
        b = b + 1;
    }
    calls
}

proof fn lemma_batch_uniform(
    shapes: Seq<ExtractedShape>,
    sources: Seq<usize>,
    batches: Seq<ShapeBatch>,
    split_by_depth: bool,
    mesh: MeshKey,
    pipelines: SpecializedPipelines,
    b: int,
    w: int,
)
    requires
        batches_runs(shapes, sources, batches, split_by_depth, mesh, pipelines),
        0 <= b < batches.len(),
        batches[b].range.start <= w < batches[b].range.end,
    ensures
        key_of(shapes[sources[w] as int]) == batches[b].shader,
        split_by_depth ==> depth_of(shapes[sources[w] as int]) == depth_of(
            shapes[sources[batches[b].range.start as int] as int],
        ),
    decreases w - batches[b].range.start,
{
    if w > batches[b].range.start {
        lemma_batch_uniform(shapes, sources, batches, split_by_depth, mesh, pipelines, b, w - 1);
        assert(!opens_batch(shapes, sources, split_by_depth, w));
    }
}

/// Batches are maximal but safe. Two instances of one batch share a shader
/// pair (and, where batches split by depth, a depth). Two instances that are
/// next to each other both in the buffer and in the sorted list share a batch
/// exactly when they share the shader pair (and, where batches split by depth,
/// the depth).
pub proof fn lemma_batches_maximal_and_safe(
    shapes: Seq<ExtractedShape>,
    sources: Seq<usize>,
    batches: Seq<ShapeBatch>,
    split_by_depth: bool,
    mesh: MeshKey,
    pipelines: SpecializedPipelines,
    b: int,
    v: int,
)
    requires
        partitions(batches, sources.len() as int),
        batches_runs(shapes, sources, batches, split_by_depth, mesh, pipelines),
        0 <= b < batches.len(),
        batches[b].range.start <= v < batches[b].range.end,
    ensures
        forall|w: int|
            batches[b].range.start <= w < batches[b].range.end ==> key_of(
                #[trigger] shapes[sources[w] as int],
            ) == key_of(shapes[sources[v] as int]) && (split_by_depth ==> depth_of(
                shapes[sources[w] as int],
            ) == depth_of(shapes[sources[v] as int])),
        v + 1 < sources.len() && sources[v + 1] == sources[v] + 1 ==> (v + 1 < batches[b].range.end
            <==> (key_of(shapes[sources[v + 1] as int]) == key_of(shapes[sources[v] as int]) && (
        split_by_depth ==> depth_of(shapes[sources[v + 1] as int]) == depth_of(
            shapes[sources[v] as int],
        )))),
{
    let start = batches[b].range.start as int;
    let end = batches[b].range.end as int;
    assert forall|w: int| start <= w < end implies key_of(#[trigger] shapes[sources[w] as int]) == key_of(
        shapes[sources[v] as int],
    ) && (split_by_depth ==> depth_of(shapes[sources[w] as int]) == depth_of(
        shapes[sources[v] as int],
    )) by {
        lemma_batch_uniform(shapes, sources, batches, split_by_depth, mesh, pipelines, b, w);
        lemma_batch_uniform(shapes, sources, batches, split_by_depth, mesh, pipelines, b, v);
    }
    if v + 1 < sources.len() && sources[v + 1] == sources[v] + 1 {
        lemma_adjacent_boundary(shapes, sources, batches, split_by_depth, mesh, pipelines, b, v);
    }
}

proof fn lemma_adjacent_boundary(
    shapes: Seq<ExtractedShape>,
    sources: Seq<usize>,
    batches: Seq<ShapeBatch>,
    split_by_depth: bool,
    mesh: MeshKey,
    pipelines: SpecializedPipelines,
    b: int,
    v: int,
)
    requires
        partitions(batches, sources.len() as int),
        batches_runs(shapes, sources, batches, split_by_depth, mesh, pipelines),
        0 <= b < batches.len(),
        batches[b].range.start <= v < batches[b].range.end,
        v + 1 < sources.len(),
        sources[v + 1] == sources[v] + 1,
    ensures
        v + 1 < batches[b].range.end <==> !starts_run(shapes, sources[v + 1] as int, split_by_depth),
{
    if v + 1 < batches[b].range.end {
        assert(!opens_batch(shapes, sources, split_by_depth, v + 1));
    } else {
        assert(b + 1 < batches.len()) by {
            if b + 1 >= batches.len() {
                assert(batches.last() == batches[b]);
            }
        }
        assert(batches[b + 1].range.start == v + 1);
        assert(opens_batch(shapes, sources, split_by_depth, batches[b + 1].range.start as int));
    }
}

} // verus!
