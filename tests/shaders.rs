use bevy_smud::extract::{ExtractedShapes, Frame, ShapeEntity, ShapeTransform, SmudShape};
use bevy_smud::pipeline::{SmudPipeline, SpecializedPipelines};
use bevy_smud::queue::{draw_batches, queue_shapes, ShapeMeta};
use bevy_smud::shader_id::{compare_shader_ids, compare_shader_keys, ShaderId, ShaderKey};
use bevy_smud::shaders::{
    extract_sdf_shaders, resolve_import_path, CompositeShader, ImportPath, ShaderAsset, ShaderRequest,
    ShapeShaders, GENERATED_IMPORT_PREFIX,
};
use bevy_smud::extract::extract_shapes;

fn declared(sdf: ShaderId, fill: ShaderId) -> SmudShape {
    SmudShape { color: [1.0f32.to_bits(); 4], sdf, fill, frame: Frame::Quad(4.0f32.to_bits()) }
}

fn entity(shape: SmudShape, visible: bool) -> ShapeEntity {
    ShapeEntity {
        shape,
        visible,
        transform: ShapeTransform {
            translation: [0.0f32.to_bits(); 3],
            rotation: [1.0f32.to_bits(), 0],
            scale: 1.0f32.to_bits(),
        },
    }
}

fn is_uuid_text(s: &str) -> bool {
    s.len() == 36
        && s.chars().enumerate().all(|(i, c)| {
            if [8, 13, 18, 23].contains(&i) {
                c == '-'
            } else {
                c.is_ascii_hexdigit() && !c.is_ascii_uppercase()
            }
        })
}

#[test]
fn shader_ids_order_drawn_before_paths() {
    assert_eq!(compare_shader_ids(&ShaderId::Id(1, 9), &ShaderId::AssetPath(0, 0)), -1);
    assert_eq!(compare_shader_ids(&ShaderId::AssetPath(3, 1), &ShaderId::AssetPath(3, 2)), -1);
    assert_eq!(compare_shader_ids(&ShaderId::Id(2, 0), &ShaderId::Id(1, 5)), 1);
    assert_eq!(compare_shader_ids(&ShaderId::Id(2, 0), &ShaderId::Id(2, 0)), 0);
    let a = ShaderKey { sdf: ShaderId::Id(1, 1), fill: ShaderId::Id(1, 2) };
    let b = ShaderKey { sdf: ShaderId::Id(1, 1), fill: ShaderId::Id(1, 3) };
    assert_eq!(compare_shader_keys(&a, &b), -1);
    assert_eq!(compare_shader_keys(&b, &a), 1);
}

#[test]
fn composite_source_imports_in_fixed_order() {
    let c = CompositeShader {
        sdf: ImportPath { path: "my::sdf".to_string(), generated: false },
        fill: ImportPath { path: "my::fill".to_string(), generated: false },
    };
    assert_eq!(
        c.source(),
        "\n#import bevy_smud::vertex\n#import my::sdf\n#import my::fill\n#import bevy_smud::fragment\n"
    );
}

#[test]
fn own_import_path_is_kept_missing_one_is_generated() {
    let kept = resolve_import_path(&Some("bevy_smud::simple_fill".to_string()));
    assert_eq!(kept.path, "bevy_smud::simple_fill");
    assert!(!kept.generated);

    let made = resolve_import_path(&None);
    assert!(made.generated);
    assert!(made.path.starts_with(GENERATED_IMPORT_PREFIX));
    assert!(is_uuid_text(&made.path[GENERATED_IMPORT_PREFIX.len()..]));
    let other = resolve_import_path(&None);
    assert_ne!(made.path, other.path);
}

#[test]
fn get_or_create_twice_compiles_once() {
    let key = ShaderKey { sdf: ShaderId::AssetPath(1, 0), fill: ShaderId::Id(5, 5) };
    let mut shaders = ShapeShaders::new();
    let loaded = ShaderAsset::Loaded(Some("a::b".to_string()));
    let first = shaders.get_or_create(&key, &loaded, &ShaderAsset::Loaded(None));
    match first {
        ShaderRequest::Compose(c) => {
            assert_eq!(c.sdf.path, "a::b");
            assert!(c.fill.generated);
            let source = c.source();
            assert!(source.contains("#import a::b\n"));
            assert!(source.contains(&c.fill.path));
        }
        _ => panic!("a new pair with loaded modules must be composed"),
    }
    let handle = ShaderId::Id(42, 1);
    shaders.insert(key, handle);
    for (sdf, fill) in [
        (ShaderAsset::Loaded(None), ShaderAsset::Loaded(None)),
        (ShaderAsset::Loading, ShaderAsset::Loading),
    ] {
        match shaders.get_or_create(&key, &sdf, &fill) {
            ShaderRequest::Ready(h) => assert_eq!(h, handle),
            _ => panic!("a registered pair must be served from the registry"),
        }
    }
    assert_eq!(shaders.get(&key), Some(handle));
}

#[test]
fn loading_module_is_not_ready() {
    let key = ShaderKey { sdf: ShaderId::Id(1, 1), fill: ShaderId::Id(1, 2) };
    let shaders = ShapeShaders::new();
    let r = shaders.get_or_create(&key, &ShaderAsset::Loaded(None), &ShaderAsset::Loading);
    assert!(matches!(r, ShaderRequest::NotReady));
    let r = shaders.get_or_create(&key, &ShaderAsset::Loading, &ShaderAsset::Loaded(None));
    assert!(matches!(r, ShaderRequest::NotReady));
    assert_eq!(shaders.get(&key), None);
}

#[test]
fn pending_pairs_are_listed_once() {
    let a = ShaderId::Id(1, 1);
    let b = ShaderId::Id(1, 2);
    let c = ShaderId::Id(1, 3);
    let mut shaders = ShapeShaders::new();
    shaders.insert(ShaderKey { sdf: c, fill: c }, ShaderId::Id(9, 9));
    let shapes = vec![declared(a, b), declared(c, c), declared(a, b), declared(b, a)];
    let keys = extract_sdf_shaders(&shaders, &shapes);
    assert_eq!(keys, vec![ShaderKey { sdf: a, fill: b }, ShaderKey { sdf: b, fill: a }]);
}

#[test]
fn scenario_loading_shader_draws_nothing_then_once() {
    let sdf = ShaderId::AssetPath(10, 0);
    let fill = ShaderId::Id(3, 3);
    let key = ShaderKey { sdf, fill };
    let entities = vec![entity(declared(sdf, fill), true)];
    let mut pipeline = SmudPipeline::new(144);
    let mut pipelines = SpecializedPipelines::new();
    let mut meta = ShapeMeta::new();
    let mut extracted = ExtractedShapes(Vec::new());
    let mut compiled = 0;

    let mut frame = |sdf_state: ShaderAsset, pipeline: &mut SmudPipeline| -> usize {
        extract_shapes(&mut extracted, &entities);
        let shapes: Vec<SmudShape> = entities.iter().map(|e| e.shape).collect();
        for k in extract_sdf_shaders(&pipeline.shaders, &shapes) {
            let fill_state = ShaderAsset::Loaded(None);
            match pipeline.shaders.get_or_create(&k, &sdf_state, &fill_state) {
                ShaderRequest::Compose(_) => {
                    compiled += 1;
                    pipeline.shaders.insert(k, ShaderId::Id(77, compiled));
                }
                ShaderRequest::Ready(_) => panic!("pending pairs are unregistered"),
                ShaderRequest::NotReady => {}
            }
        }
        assert_eq!(extracted.0.len(), 1);
        let out = queue_shapes(&mut extracted, pipeline, &mut pipelines, 1, &mut meta);
        draw_batches(&out.batched.batches).len()
    };

    assert_eq!(frame(ShaderAsset::Loading, &mut pipeline), 0);
    assert_eq!(frame(ShaderAsset::Loaded(None), &mut pipeline), 1);
    assert_eq!(frame(ShaderAsset::Loaded(None), &mut pipeline), 1);
    assert_eq!(compiled, 1);
    assert_eq!(pipeline.shaders.get(&key), Some(ShaderId::Id(77, 1)));
    assert_eq!(pipelines.keys.len(), 1);
}
