use bevy_smud::extract::{
    extract_shapes, extract_ui_shapes, ExtractedShapes, ExtractedUiShapes, Frame, ShapeEntity, ShapeTransform,
    SmudShape, UiShapeEntity,
};
use bevy_smud::pipeline::{
    shape_mesh_key, BlendMode, Face, PrimitiveTopology, SmudPipeline, SmudPipelineKey, SpecializedPipelines,
    VertexStepMode,
};
use bevy_smud::plugin::{
    default_fill_handle, simple_fill_handle, RenderStage, ShaderLoadingPlugin, ShapeSystem, SmudPlugin,
    TexturedSmudPlugin, UiShapePlugin, SHADER_TYPE_UUID,
};
use bevy_smud::shader_id::{ShaderId, ShaderKey};
use bevy_smud::vertex::{pack_vertices, read_vertex, smud_vertex_data, ShapeVertex, VertexFormat, VERTEX_STRIDE};

fn vertex(seed: f32) -> ShapeVertex {
    ShapeVertex {
        color: [seed.to_bits(), (seed + 0.1).to_bits(), (seed + 0.2).to_bits(), (seed + 0.3).to_bits()],
        frame: (seed * 10.0).to_bits(),
        position: [(seed + 1.0).to_bits(), (seed + 2.0).to_bits(), (seed + 3.0).to_bits()],
        rotation: [0.6f32.to_bits(), 0.8f32.to_bits()],
        scale: (seed * 2.0).to_bits(),
    }
}

fn same(a: &ShapeVertex, b: &ShapeVertex) -> bool {
    a.color == b.color && a.frame == b.frame && a.position == b.position && a.rotation == b.rotation && a.scale == b.scale
}

#[test]
fn layout_offsets_follow_the_record() {
    let (attributes, stride) = smud_vertex_data();
    assert_eq!(stride, 44);
    assert_eq!(stride, VERTEX_STRIDE);
    let offsets: Vec<(u64, u32)> = attributes.iter().map(|a| (a.offset, a.shader_location)).collect();
    assert_eq!(offsets, vec![(0, 1), (16, 4), (20, 0), (32, 2), (40, 3)]);
    assert_eq!(attributes[0].format, VertexFormat::Float32x4);
    assert_eq!(attributes[2].format, VertexFormat::Float32x3);
}

#[test]
fn packed_vertices_decode_to_the_same_values() {
    let vs = vec![vertex(1.0), vertex(-2.5), vertex(7.0)];
    let buffer = pack_vertices(&vs);
    assert_eq!(buffer.len(), 33);
    assert_eq!(buffer[11], (-2.5f32).to_bits());
    assert_eq!(buffer[11 + 4], (-25.0f32).to_bits());
    for (i, v) in vs.iter().enumerate() {
        assert!(same(&read_vertex(&buffer, i), v));
    }
    let back = read_vertex(&buffer, 1);
    assert_eq!(f32::from_bits(back.rotation[0]), 0.6);
    assert_eq!(f32::from_bits(back.position[2]), 0.5);
}

#[test]
fn extraction_keeps_visible_shapes_in_order() {
    let a = ShaderId::Id(1, 1);
    let shape = |frame: f32| SmudShape { color: [1.0f32.to_bits(); 4], sdf: a, fill: a, frame: Frame::Quad(frame.to_bits()) };
    let t = ShapeTransform { translation: [0; 3], rotation: [0; 2], scale: 0 };
    let entities = vec![
        ShapeEntity { shape: shape(1.0), visible: true, transform: t },
        ShapeEntity { shape: shape(2.0), visible: false, transform: t },
        ShapeEntity { shape: shape(3.0), visible: true, transform: t },
    ];
    let mut extracted = ExtractedShapes(vec![]);
    extract_shapes(&mut extracted, &entities);
    extract_shapes(&mut extracted, &entities);
    let frames: Vec<f32> = extracted.0.iter().map(|s| f32::from_bits(s.frame)).collect();
    assert_eq!(frames, vec![1.0, 3.0]);

    let ui = vec![
        UiShapeEntity { shape: shape(9.0), visible: true, transform: t, half_width: 50.0f32.to_bits(), tinted_color: [0.5f32.to_bits(); 4] },
        UiShapeEntity { shape: shape(9.0), visible: false, transform: t, half_width: 1.0f32.to_bits(), tinted_color: [0; 4] },
    ];
    let mut extracted_ui = ExtractedUiShapes(vec![]);
    extract_ui_shapes(&mut extracted_ui, &ui);
    assert_eq!(extracted_ui.0.len(), 1);
    assert_eq!(f32::from_bits(extracted_ui.0[0].frame), 50.0);
    assert_eq!(extracted_ui.0[0].color, [0.5f32.to_bits(); 4]);
}

#[test]
fn specialized_pipeline_is_described_once() {
    let key = ShaderKey { sdf: ShaderId::Id(1, 1), fill: ShaderId::Id(1, 2) };
    let mut pipeline = SmudPipeline::new(144);
    pipeline.shaders.insert(key, ShaderId::Id(8, 8));
    let mut pipelines = SpecializedPipelines::new();
    let pkey = SmudPipelineKey { mesh: shape_mesh_key(4), shader: key };
    let first = pipelines.specialize(&pipeline, pkey);
    let second = pipelines.specialize(&pipeline, pkey);
    assert_eq!(first, second);
    assert_eq!(pipelines.descriptors.len(), 1);
    let d = &pipelines.descriptors[first];
    assert_eq!(d.shader, ShaderId::Id(8, 8));
    assert_eq!(d.sample_count, 4);
    assert_eq!(d.topology, PrimitiveTopology::TriangleStrip);
    assert_eq!(d.step_mode, VertexStepMode::Instance);
    assert_eq!(d.blend, BlendMode::AlphaBlending);
    assert_eq!(d.cull_mode, Some(Face::Back));
    assert!(!d.depth_test);
    assert_eq!(d.array_stride, 44);
    assert_eq!(d.layout.len(), 2);
    assert!(d.layout[0].has_dynamic_offset);
    assert_eq!(d.layout[0].min_binding_size, 144);
    assert!(!d.layout[1].has_dynamic_offset);
    assert_eq!(d.layout[1].min_binding_size, 4);
    let other = pipelines.specialize(&pipeline, SmudPipelineKey { mesh: shape_mesh_key(1), shader: key });
    assert_eq!(other, 1);
    assert_eq!(pipelines.get(&pkey), Some(0));
}

#[test]
fn plugins_register_their_systems() {
    let systems = SmudPlugin.systems();
    assert_eq!(systems.len(), 6);
    assert_eq!(systems[2].system, ShapeSystem::ExtractSdfShaders);
    assert_eq!(systems[4].stage, RenderStage::Queue);
    let ui = UiShapePlugin.systems();
    assert_eq!(ui.iter().map(|s| s.stage).collect::<Vec<_>>(), vec![RenderStage::Extract, RenderStage::Prepare, RenderStage::Queue]);
    assert!(TexturedSmudPlugin.systems().is_empty());
    let shaders = ShaderLoadingPlugin.shaders();
    assert_eq!(shaders.len(), 8);
    assert_eq!(shaders[4].import_path, "bevy_smud::vertex");
    assert_eq!(shaders[7].handle, simple_fill_handle());
    assert_eq!(shaders[6].handle, default_fill_handle());
    assert_eq!(default_fill_handle(), ShaderId::Id(SHADER_TYPE_UUID, 18184663565780163454));
}
