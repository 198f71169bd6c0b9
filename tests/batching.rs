use bevy_smud::extract::{ExtractedShape, ExtractedShapes, ExtractedUiShapes, ShapeTransform};
use bevy_smud::order::{depth_key_of, sort_shapes};
use bevy_smud::pipeline::{SmudPipeline, SpecializedPipelines};
use bevy_smud::queue::{draw_batches, prepare_ui_shapes, queue_shapes, InstanceRange, ShapeMeta};
use bevy_smud::shader_id::{ShaderId, ShaderKey};

fn id(n: u64) -> ShaderId {
    ShaderId::Id(7, n)
}

fn shape(key: (u64, u64), z: f32, tag: f32) -> ExtractedShape {
    ExtractedShape {
        color: [tag.to_bits(), 0.5f32.to_bits(), 0.25f32.to_bits(), 1.0f32.to_bits()],
        frame: 10.0f32.to_bits(),
        sdf_shader: id(key.0),
        fill_shader: id(key.1),
        transform: ShapeTransform {
            translation: [tag.to_bits(), 2.0f32.to_bits(), z.to_bits()],
            rotation: [1.0f32.to_bits(), 0.0f32.to_bits()],
            scale: 1.0f32.to_bits(),
        },
    }
}

fn key(a: u64, b: u64) -> ShaderKey {
    ShaderKey { sdf: id(a), fill: id(b) }
}

fn ready_pipeline(keys: &[(u64, u64)]) -> SmudPipeline {
    let mut p = SmudPipeline::new(144);
    for (i, k) in keys.iter().enumerate() {
        p.shaders.insert(key(k.0, k.1), ShaderId::Id(99, 1000 + i as u64));
    }
    p
}

fn tags(shapes: &[ExtractedShape]) -> Vec<f32> {
    shapes.iter().map(|s| f32::from_bits(s.color[0])).collect()
}

#[test]
fn depth_key_orders_like_floats() {
    let values = [f32::NEG_INFINITY, -5.0, -1.0, -1e-30, 0.0, 1e-30, 1.0, 5.0, f32::INFINITY];
    for w in values.windows(2) {
        assert!(depth_key_of(w[0].to_bits()) < depth_key_of(w[1].to_bits()));
    }
    assert_eq!(depth_key_of((-0.0f32).to_bits()), depth_key_of(0.0f32.to_bits()));
    assert_eq!(depth_key_of(0.0f32.to_bits()), 0x8000_0000);
    assert_eq!(depth_key_of(f32::NAN.to_bits()), u32::MAX);
    assert!(depth_key_of(f32::INFINITY.to_bits()) < depth_key_of(f32::NAN.to_bits()));
}

#[test]
fn sort_is_by_depth_then_key_and_stable() {
    let mut shapes = vec![
        shape((2, 2), 1.0, 0.0),
        shape((2, 2), 0.0, 1.0),
        shape((1, 1), 0.0, 2.0),
        shape((2, 2), 0.0, 3.0),
        shape((1, 5), -3.0, 4.0),
    ];
    let order = sort_shapes(&mut shapes);
    assert_eq!(order, vec![4, 2, 1, 3, 0]);
    assert_eq!(tags(&shapes), vec![4.0, 2.0, 1.0, 3.0, 0.0]);
}

#[test]
fn scenario_depth_boundary_keeps_three_batches() {
    // Shapes at depths 0, 0, 1 with pairs (A,A), (B,B), (A,A).
    for input in [
        vec![shape((1, 1), 0.0, 0.0), shape((2, 2), 0.0, 1.0), shape((1, 1), 1.0, 2.0)],
        vec![shape((1, 1), 1.0, 2.0), shape((2, 2), 0.0, 1.0), shape((1, 1), 0.0, 0.0)],
    ] {
        let pipeline = ready_pipeline(&[(1, 1), (2, 2)]);
        let mut pipelines = SpecializedPipelines::new();
        let mut meta = ShapeMeta::new();
        let mut extracted = ExtractedShapes(input);
        let out = queue_shapes(&mut extracted, &pipeline, &mut pipelines, 4, &mut meta);
        assert_eq!(tags(&extracted.0), vec![0.0, 1.0, 2.0]);
        let batches = &out.batched.batches;
        assert_eq!(batches.len(), 3);
        assert_eq!(batches[0].shader, key(1, 1));
        assert_eq!(batches[1].shader, key(2, 2));
        assert_eq!(batches[2].shader, key(1, 1));
        assert_eq!(batches[0].range, InstanceRange { start: 0, end: 1 });
        assert_eq!(batches[1].range, InstanceRange { start: 1, end: 2 });
        assert_eq!(batches[2].range, InstanceRange { start: 2, end: 3 });
        assert_eq!(batches[0].pipeline, batches[2].pipeline);
        assert_ne!(batches[0].pipeline, batches[1].pipeline);
        assert_eq!(pipelines.keys.len(), 2);
        assert_eq!(draw_batches(batches).len(), 3);
    }
}

#[test]
fn scenario_equal_depth_and_pair_is_one_batch_of_two() {
    let pipeline = ready_pipeline(&[(3, 4)]);
    let mut pipelines = SpecializedPipelines::new();
    let mut meta = ShapeMeta::new();
    let mut extracted = ExtractedShapes(vec![shape((3, 4), 2.0, 0.0), shape((3, 4), 2.0, 1.0)]);
    let out = queue_shapes(&mut extracted, &pipeline, &mut pipelines, 1, &mut meta);
    assert_eq!(out.batched.batches.len(), 1);
    assert_eq!(out.batched.batches[0].range, InstanceRange { start: 0, end: 2 });
    let calls = draw_batches(&out.batched.batches);
    assert_eq!(calls.len(), 1);
    assert_eq!(calls[0].instances.end - calls[0].instances.start, 2);
    assert_eq!(calls[0].vertex_count, 4);
    assert_eq!(calls[0].pipeline, out.batched.batches[0].pipeline);
}

#[test]
fn only_ready_shapes_are_packed_and_ranges_partition_them() {
    let pipeline = ready_pipeline(&[(1, 1), (3, 3)]);
    let mut pipelines = SpecializedPipelines::new();
    let mut meta = ShapeMeta::new();
    let mut extracted = ExtractedShapes(vec![
        shape((1, 1), 0.0, 0.0),
        shape((2, 2), 0.0, 1.0),
        shape((3, 3), 0.0, 2.0),
        shape((1, 1), 1.0, 3.0),
        shape((2, 2), 2.0, 4.0),
        shape((3, 3), 2.0, 5.0),
    ]);
    let out = queue_shapes(&mut extracted, &pipeline, &mut pipelines, 1, &mut meta);
    assert_eq!(meta.vertices.len(), 4);
    assert_eq!(out.batched.sources, vec![0, 2, 3, 5]);
    let batches = &out.batched.batches;
    assert_eq!(batches.len(), 4);
    let mut next = 0;
    for b in batches {
        assert_eq!(b.range.start, next);
        assert!(b.range.start < b.range.end);
        next = b.range.end;
    }
    assert_eq!(next, meta.vertices.len());
    for (v, &s) in out.batched.sources.iter().enumerate() {
        assert_eq!(meta.vertices[v].color, extracted.0[s].color);
        assert_eq!(meta.vertices[v].position, extracted.0[s].transform.translation);
    }
}

#[test]
fn world_batches_merge_across_depths_ui_batches_do_not() {
    let input = vec![shape((1, 1), 0.0, 0.0), shape((1, 1), 1.0, 1.0), shape((1, 1), 1.0, 2.0)];
    let pipeline = ready_pipeline(&[(1, 1)]);
    let mut pipelines = SpecializedPipelines::new();
    let mut meta = ShapeMeta::new();

    let mut world = ExtractedShapes(input.clone());
    let out = queue_shapes(&mut world, &pipeline, &mut pipelines, 4, &mut meta);
    assert_eq!(out.batched.batches.len(), 1);
    assert_eq!(out.batched.batches[0].range, InstanceRange { start: 0, end: 3 });

    let mut ui = ExtractedUiShapes(input);
    let out = prepare_ui_shapes(&mut ui, &pipeline, &mut pipelines, &mut meta);
    assert_eq!(out.batched.batches.len(), 2);
    assert_eq!(out.batched.batches[0].range, InstanceRange { start: 0, end: 1 });
    assert_eq!(out.batched.batches[1].range, InstanceRange { start: 1, end: 3 });
    assert_eq!(out.batched.batches[1].z, depth_key_of(1.0f32.to_bits()));
    assert_eq!(meta.ui_vertices.len(), 3);
    assert_eq!(meta.vertices.len(), 3);
    // The UI pass runs with one sample, so it has a pipeline of its own.
    assert_eq!(pipelines.keys.len(), 2);
    assert_ne!(out.batched.batches[0].pipeline, 0);
}

#[test]
fn packed_order_respects_depth_whatever_the_pair() {
    let pipeline = ready_pipeline(&[(1, 1), (9, 9)]);
    let mut pipelines = SpecializedPipelines::new();
    let mut meta = ShapeMeta::new();
    let mut extracted = ExtractedShapes(vec![
        shape((1, 1), 3.0, 0.0),
        shape((9, 9), -1.0, 1.0),
        shape((1, 1), 2.0, 2.0),
        shape((9, 9), 3.0, 3.0),
    ]);
    queue_shapes(&mut extracted, &pipeline, &mut pipelines, 1, &mut meta);
    let zs: Vec<f32> = meta.vertices.iter().map(|v| f32::from_bits(v.position[2])).collect();
    assert_eq!(zs, vec![-1.0, 2.0, 3.0, 3.0]);
}

#[test]
fn skipped_shape_between_same_pair_splits_the_batch() {
    // (1,1)@0, (2,2)@0 not ready, (1,1)@1: the two ready shapes are adjacent
    // in the buffer but not in the sorted list.
    let pipeline = ready_pipeline(&[(1, 1)]);
    let mut pipelines = SpecializedPipelines::new();
    let mut meta = ShapeMeta::new();
    let mut extracted = ExtractedShapes(vec![
        shape((1, 1), 0.0, 0.0),
        shape((2, 2), 0.0, 1.0),
        shape((1, 1), 1.0, 2.0),
    ]);
    let out = queue_shapes(&mut extracted, &pipeline, &mut pipelines, 1, &mut meta);
    assert_eq!(out.batched.batches.len(), 2);
    assert_eq!(pipelines.keys.len(), 1);
}

#[test]
fn empty_input_gives_no_batches() {
    let pipeline = ready_pipeline(&[(1, 1)]);
    let mut pipelines = SpecializedPipelines::new();
    let mut meta = ShapeMeta::new();
    meta.vertices.push(bevy_smud::vertex::ShapeVertex {
        color: [0; 4],
        frame: 0,
        position: [0; 3],
        rotation: [0; 2],
        scale: 0,
    });
    let mut extracted = ExtractedShapes(Vec::new());
    let out = queue_shapes(&mut extracted, &pipeline, &mut pipelines, 1, &mut meta);
    assert!(out.batched.batches.is_empty());
    assert!(meta.vertices.is_empty());
    assert!(pipelines.keys.is_empty());
}
