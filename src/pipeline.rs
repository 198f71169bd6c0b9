//! Pipeline specialization: one render pipeline per (shader pair, mesh
//! configuration), described once and reused.
use vstd::prelude::*;
use crate::shader_id::{ShaderId, ShaderKey};
use crate::shaders::ShapeShaders;
use crate::vertex::{smud_vertex_data, vertex_layout, VertexAttribute, VERTEX_STRIDE};

verus! {

/// The entry point of the composed shader's vertex stage.
pub const VERTEX_ENTRY_POINT: &'static str = "vertex";
/// The entry point of the composed shader's fragment stage.
pub const FRAGMENT_ENTRY_POINT: &'static str = "fragment";
/// The label given to every specialized pipeline.
pub const PIPELINE_LABEL: &'static str = "bevy_smud_pipeline";
/// Vertices of the quad that the vertex stage expands for each instance.
pub const QUAD_VERTEX_COUNT: u32 = 4;

#[derive(Clone, Copy, Debug, PartialEq, Eq, Hash, Structural)]
pub enum PrimitiveTopology {
    PointList,
    LineList,
    LineStrip,
    TriangleList,
    TriangleStrip,
}

/// The mesh configuration a pipeline is specialized for.
#[derive(Clone, Copy, Debug, PartialEq, Eq, Hash, Structural)]
pub struct MeshKey {
    pub msaa_samples: u32,
    pub topology: PrimitiveTopology,
}

/// Shapes are quads drawn as triangle strips, at the view's sample count.
pub fn shape_mesh_key(msaa_samples: u32) -> (k: MeshKey)
    ensures
        k == (MeshKey { msaa_samples, topology: PrimitiveTopology::TriangleStrip }),
{
    MeshKey { msaa_samples, topology: PrimitiveTopology::TriangleStrip }
}

/// What a pipeline is cached under.
#[derive(Clone, Copy, Debug, PartialEq, Eq, Hash, Structural)]
pub struct SmudPipelineKey {
    pub mesh: MeshKey,
    pub shader: ShaderKey,
}

#[derive(Clone, Copy, Debug, PartialEq, Eq, Structural)]
pub enum VertexStepMode {
    Vertex,
    Instance,
}

#[derive(Clone, Copy, Debug, PartialEq, Eq, Structural)]
pub enum BlendMode {
    Replace,
    AlphaBlending,
}

#[derive(Clone, Copy, Debug, PartialEq, Eq, Structural)]
pub enum Face {
    Front,
    Back,
}

/// The layout of a bind group holding one uniform buffer, seen by both
/// stages.
#[derive(Clone, Copy, Debug, PartialEq, Eq, Structural)]
pub struct UniformLayout {
    pub binding: u32,
    pub vertex_visible: bool,
    pub fragment_visible: bool,
    /// Each draw passes an offset into the buffer.
    pub has_dynamic_offset: bool,
    pub min_binding_size: u64,
}

/// The bytes of the time uniform: one f32.
pub const TIME_UNIFORM_SIZE: u64 = 4;

pub open spec fn shape_view_layout_spec(view_uniform_size: u64) -> UniformLayout {
    UniformLayout {
        binding: 0,
        vertex_visible: true,
        fragment_visible: true,
        has_dynamic_offset: true,
        min_binding_size: view_uniform_size,
    }
}

pub open spec fn time_layout_spec() -> UniformLayout {
    UniformLayout {
        binding: 0,
        vertex_visible: true,
        fragment_visible: true,
        has_dynamic_offset: false,
        min_binding_size: TIME_UNIFORM_SIZE,
    }
}

/// The per-view uniform: camera data at a per-view dynamic offset.
pub fn shape_view_layout(view_uniform_size: u64) -> (l: UniformLayout)
    ensures
        l == shape_view_layout_spec(view_uniform_size),
{
    UniformLayout {
        binding: 0,
        vertex_visible: true,
        fragment_visible: true,
        has_dynamic_offset: true,
        min_binding_size: view_uniform_size,
    }
}

/// The per-frame time uniform: the seconds since start-up.
pub fn time_layout() -> (l: UniformLayout)
    ensures
        l == time_layout_spec(),
{
    UniformLayout {
        binding: 0,
        vertex_visible: true,
        fragment_visible: true,
        has_dynamic_offset: false,
        min_binding_size: TIME_UNIFORM_SIZE,
    }
}

/// A render pipeline to build.
pub struct RenderPipelineDescriptor {
    /// The composed shader that holds both stages.
    pub shader: ShaderId,
    /// The bind groups, by group index.
    pub layout: Vec<UniformLayout>,
    pub vertex_attributes: Vec<VertexAttribute>,
    pub array_stride: u64,
    pub step_mode: VertexStepMode,
    pub blend: BlendMode,
    pub cull_mode: Option<Face>,
    /// Counter-clockwise triangles face the viewer.
    pub front_face_ccw: bool,
    pub depth_test: bool,
    pub topology: PrimitiveTopology,
    pub sample_count: u32,
}

/// The pipeline every shape batch is drawn with: one record per instance,
/// alpha blending, back faces culled, no depth test, and the topology and
/// sample count of the mesh configuration.
pub open spec fn is_shape_pipeline(
    d: RenderPipelineDescriptor,
    p: SmudPipeline,
    shader: ShaderId,
    mesh: MeshKey,
) -> bool {
    &&& d.shader == shader
    &&& d.layout@ == seq![p.view_layout, p.time_bind_group_layout]
    &&& d.vertex_attributes@ == vertex_layout()
    &&& d.array_stride == VERTEX_STRIDE
    &&& d.step_mode == VertexStepMode::Instance
    &&& d.blend == BlendMode::AlphaBlending
    &&& d.cull_mode == Some(Face::Back)
    &&& d.front_face_ccw
    &&& !d.depth_test
    &&& d.topology == mesh.topology
    &&& d.sample_count == mesh.msaa_samples
}

/// The shape pipeline's description: its two bind groups, and the composed
/// shaders it draws with.
pub struct SmudPipeline {
    pub view_layout: UniformLayout,
    pub time_bind_group_layout: UniformLayout,
    pub shaders: ShapeShaders,
}

impl SmudPipeline {
    /// A pipeline with no composed shader yet; `view_uniform_size` is the
    /// size of the host's per-view uniform.
    pub fn new(view_uniform_size: u64) -> (p: SmudPipeline)
        ensures
            p.view_layout == shape_view_layout_spec(view_uniform_size),
            p.time_bind_group_layout == time_layout_spec(),
            p.shaders@ == Map::<ShaderKey, ShaderId>::empty(),
    {
        SmudPipeline {
            view_layout: shape_view_layout(view_uniform_size),
            time_bind_group_layout: time_layout(),
            shaders: ShapeShaders::new(),
        }
    }

    /// Describes the pipeline for `key`; its shader pair must be composed.
    pub fn specialize(&self, key: &SmudPipelineKey) -> (d: RenderPipelineDescriptor)
        requires
            self.shaders@.contains_key(key.shader),
        ensures
            is_shape_pipeline(d, *self, self.shaders@[key.shader], key.mesh),
    {
        let shader = self.shaders.get(&key.shader).unwrap();
        let (vertex_attributes, array_stride) = smud_vertex_data();
        let layout = vec![self.view_layout, self.time_bind_group_layout];
        assert(layout@ =~= seq![self.view_layout, self.time_bind_group_layout]);
        RenderPipelineDescriptor {
            shader,
            layout,
            vertex_attributes,
            array_stride,
            step_mode: VertexStepMode::Instance,
            blend: BlendMode::AlphaBlending,
            cull_mode: Some(Face::Back),
            front_face_ccw: true,
            depth_test: false,
            topology: key.mesh.topology,
            sample_count: key.mesh.msaa_samples,
        }
    }
}

/// The index of a pipeline among those described so far.
pub type PipelineId = usize;

/// The pipelines described so far; a pipeline's id is its index.
pub struct SpecializedPipelines {
    pub keys: Vec<SmudPipelineKey>,
    pub descriptors: Vec<RenderPipelineDescriptor>,
}

impl SpecializedPipelines {
    /// One descriptor per key, and no key twice.
    pub open spec fn wf(&self) -> bool {
        &&& self.keys.len() == self.descriptors.len()
        &&& forall|i: int, j: int|
            0 <= i < j < self.keys.len() ==> self.keys[i] != self.keys[j]
    }

    /// `id` is the pipeline cached under `key`.
    pub open spec fn caches(&self, key: SmudPipelineKey, id: int) -> bool {
        0 <= id < self.keys.len() && self.keys[id] == key
    }

    pub fn new() -> (r: SpecializedPipelines)
        ensures
            r.wf(),
            r.keys@.len() == 0,
    {
        SpecializedPipelines { keys: Vec::new(), descriptors: Vec::new() }
    }

    /// The pipeline cached under `key`, if any.
    pub fn get(&self, key: &SmudPipelineKey) -> (r: Option<PipelineId>)
        requires
            self.wf(),
        ensures
            r matches Some(id) ==> self.caches(*key, id as int),
            r is None ==> !self.keys@.contains(*key),
    {
        let mut i: usize = 0;
        while i < self.keys.len()
            invariant
                i <= self.keys.len(),
                forall|j: int| 0 <= j < i ==> self.keys[j] != *key,
            decreases self.keys.len() - i,
        {
            if self.keys[i] == *key {
                return Some(i);
            }
            i = i + 1;
        }
        None
    }

    /// The pipeline for `key`: the cached one, or a new one described from
    /// `pipeline` and cached under the next id.
    pub fn specialize(&mut self, pipeline: &SmudPipeline, key: SmudPipelineKey) -> (id: PipelineId)
        requires
            old(self).wf(),
            pipeline.shaders@.contains_key(key.shader),
        ensures
            final(self).wf(),
            final(self).caches(key, id as int),
            forall|k: SmudPipelineKey, i: int|
                old(self).caches(k, i) ==> #[trigger] final(self).caches(k, i),
            old(self).keys@.contains(key) ==> final(self).keys@ == old(self).keys@
                && final(self).descriptors@ == old(self).descriptors@,
            !old(self).keys@.contains(key) ==> {
                &&& id == old(self).keys.len()
                &&& final(self).keys@ == old(self).keys@.push(key)
                &&& final(self).descriptors@.drop_last() == old(self).descriptors@
                &&& is_shape_pipeline(
                    final(self).descriptors@.last(),
                    *pipeline,
                    pipeline.shaders@[key.shader],
                    key.mesh,
                )
            },
    {
        match self.get(&key) {
            Some(id) => id,
            None => {
                let d = pipeline.specialize(&key);
                let id = self.keys.len();
                self.keys.push(key);
                self.descriptors.push(d);
                assert(self.descriptors@.drop_last() =~= old(self).descriptors@);
                id
            },
        }
    }
}

} // verus!
