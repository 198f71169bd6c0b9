//! The plugins: which per-frame systems run in which render stage, and the
//! shader modules that ship with the library.
use vstd::prelude::*;
use crate::shader_id::ShaderId;

verus! {

/// The uuid of the shader asset type; built-in modules have handles under it.
pub const SHADER_TYPE_UUID: u128 = 0xd95b_c916_6c55_4de3_9622_37e7_b696_9fda;

pub const PRELUDE_SHADER_ID: u64 = 11291576006157771079;
pub const PRELUDE_SHADER_IMPORT: &'static str = "bevy_smud::prelude";
pub const SHAPES_SHADER_ID: u64 = 10055894596049459186;
pub const SHAPES_SHADER_IMPORT: &'static str = "bevy_smud::shapes";
pub const COLORIZE_SHADER_ID: u64 = 10050447940405429418;
pub const COLORIZE_SHADER_IMPORT: &'static str = "bevy_smud::colorize";
pub const SMUD_SHADER_ID: u64 = 5645555317811706725;
pub const SMUD_SHADER_IMPORT: &'static str = "bevy_smud::smud";
pub const VERTEX_SHADER_ID: u64 = 16846632126033267571;
pub const FRAGMENT_SHADER_ID: u64 = 10370213491934870425;
/// The fill with a cubic fall-off of the distance, usable by any shape.
pub const DEFAULT_FILL_ID: u64 = 18184663565780163454;
pub const DEFAULT_FILL_IMPORT: &'static str = "bevy_smud::default_fill";
/// The plain fill, usable by any shape.
pub const SIMPLE_FILL_ID: u64 = 16286090377316294491;
pub const SIMPLE_FILL_IMPORT: &'static str = "bevy_smud::simple_fill";

/// The handle of a built-in shader module.
pub open spec fn builtin_handle(id: u64) -> ShaderId {
    ShaderId::Id(SHADER_TYPE_UUID, id)
}

/// The handle of the default fill.
pub fn default_fill_handle() -> (h: ShaderId)
    ensures
        h == builtin_handle(DEFAULT_FILL_ID),
{
    ShaderId::Id(SHADER_TYPE_UUID, DEFAULT_FILL_ID)
}

/// The handle of the simple fill.
pub fn simple_fill_handle() -> (h: ShaderId)
    ensures
        h == builtin_handle(SIMPLE_FILL_ID),
{
    ShaderId::Id(SHADER_TYPE_UUID, SIMPLE_FILL_ID)
}

/// A shader module that ships with the library.
#[derive(Clone, Copy, Debug)]
pub struct BuiltinShader {
    /// Its source file, relative to the library's shader directory.
    pub file: &'static str,
    pub import_path: &'static str,
    pub handle: ShaderId,
}

/// The stages of a frame, in the order they run.
#[derive(Clone, Copy, Debug, PartialEq, Eq, Structural)]
pub enum RenderStage {
    Extract,
    Prepare,
    Queue,
}

/// The per-frame systems of the library.
#[derive(Clone, Copy, Debug, PartialEq, Eq, Structural)]
pub enum ShapeSystem {
    ExtractTime,
    ExtractShapes,
    ExtractSdfShaders,
    PrepareTime,
    QueueShapes,
    QueueTimeBindGroup,
    ExtractUiShapes,
    PrepareUiShapes,
    QueueUiShapes,
}

/// A system and the stage it runs in.
#[derive(Clone, Copy, Debug, PartialEq, Eq, Structural)]
pub struct SystemEntry {
    pub stage: RenderStage,
    pub system: ShapeSystem,
}

/// Draws world-space shapes; it also installs the shader-loading, textured
/// and UI plugins.
#[derive(Clone, Copy, Debug, Default)]
pub struct SmudPlugin;

/// Draws shapes on UI nodes.
#[derive(Clone, Copy, Debug, Default)]
pub struct UiShapePlugin;

/// Reserved for textured shapes; it registers nothing yet.
#[derive(Clone, Copy, Debug, Default)]
pub struct TexturedSmudPlugin;

/// Loads the built-in shader modules under their fixed handles.
#[derive(Clone, Copy, Debug, Default)]
pub struct ShaderLoadingPlugin;

pub open spec fn smud_systems() -> Seq<SystemEntry> {
    seq![
        SystemEntry { stage: RenderStage::Extract, system: ShapeSystem::ExtractTime },
        SystemEntry { stage: RenderStage::Extract, system: ShapeSystem::ExtractShapes },
        SystemEntry { stage: RenderStage::Extract, system: ShapeSystem::ExtractSdfShaders },
        SystemEntry { stage: RenderStage::Prepare, system: ShapeSystem::PrepareTime },
        SystemEntry { stage: RenderStage::Queue, system: ShapeSystem::QueueShapes },
        SystemEntry { stage: RenderStage::Queue, system: ShapeSystem::QueueTimeBindGroup },
    ]
}

pub open spec fn ui_systems() -> Seq<SystemEntry> {
    seq![
        SystemEntry { stage: RenderStage::Extract, system: ShapeSystem::ExtractUiShapes },
        SystemEntry { stage: RenderStage::Prepare, system: ShapeSystem::PrepareUiShapes },
        SystemEntry { stage: RenderStage::Queue, system: ShapeSystem::QueueUiShapes },
    ]
}

impl SmudPlugin {
    /// The systems this plugin adds, in registration order: time, shapes and
    /// composed shaders at extraction; time at preparation; shapes and the
    /// time bind group at queueing.
    pub fn systems(&self) -> (r: Vec<SystemEntry>)
        ensures
            r@ == smud_systems(),
    {
        let r = vec![
            SystemEntry { stage: RenderStage::Extract, system: ShapeSystem::ExtractTime },
            SystemEntry { stage: RenderStage::Extract, system: ShapeSystem::ExtractShapes },
            SystemEntry { stage: RenderStage::Extract, system: ShapeSystem::ExtractSdfShaders },
            SystemEntry { stage: RenderStage::Prepare, system: ShapeSystem::PrepareTime },
            SystemEntry { stage: RenderStage::Queue, system: ShapeSystem::QueueShapes },
            SystemEntry { stage: RenderStage::Queue, system: ShapeSystem::QueueTimeBindGroup },
        ];
        assert(r@ =~= smud_systems());
        r
    }
}

impl UiShapePlugin {
    /// The systems this plugin adds: one per stage.
    pub fn systems(&self) -> (r: Vec<SystemEntry>)
        ensures
            r@ == ui_systems(),
    {
        let r = vec![
            SystemEntry { stage: RenderStage::Extract, system: ShapeSystem::ExtractUiShapes },
            SystemEntry { stage: RenderStage::Prepare, system: ShapeSystem::PrepareUiShapes },
            SystemEntry { stage: RenderStage::Queue, system: ShapeSystem::QueueUiShapes },
        ];
        assert(r@ =~= ui_systems());
        r
    }
}

impl TexturedSmudPlugin {
    pub fn systems(&self) -> (r: Vec<SystemEntry>)
        ensures
            r@.len() == 0,
    {
        Vec::new()
    }
}

pub open spec fn builtin_shaders() -> Seq<BuiltinShader> {
    seq![
        BuiltinShader { file: "prelude.wgsl", import_path: PRELUDE_SHADER_IMPORT, handle: builtin_handle(PRELUDE_SHADER_ID) },
        BuiltinShader { file: "shapes.wgsl", import_path: SHAPES_SHADER_IMPORT, handle: builtin_handle(SHAPES_SHADER_ID) },
        BuiltinShader { file: "colorize.wgsl", import_path: COLORIZE_SHADER_IMPORT, handle: builtin_handle(COLORIZE_SHADER_ID) },
        BuiltinShader { file: "smud.wgsl", import_path: SMUD_SHADER_IMPORT, handle: builtin_handle(SMUD_SHADER_ID) },
        BuiltinShader { file: "vertex.wgsl", import_path: crate::shaders::VERTEX_SHADER_IMPORT, handle: builtin_handle(VERTEX_SHADER_ID) },
        BuiltinShader { file: "fragment.wgsl", import_path: crate::shaders::FRAGMENT_SHADER_IMPORT, handle: builtin_handle(FRAGMENT_SHADER_ID) },
        BuiltinShader { file: "fills/cubic_falloff.wgsl", import_path: DEFAULT_FILL_IMPORT, handle: builtin_handle(DEFAULT_FILL_ID) },
        BuiltinShader { file: "fills/simple.wgsl", import_path: SIMPLE_FILL_IMPORT, handle: builtin_handle(SIMPLE_FILL_ID) },
    ]
}

impl ShaderLoadingPlugin {
    /// The built-in modules: the shared preludes, the vertex and fragment
    /// stages every composed shader imports, and the two ready-made fills.
    pub fn shaders(&self) -> (r: Vec<BuiltinShader>)
        ensures
            r@ == builtin_shaders(),
    {
        let r = vec![
            BuiltinShader { file: "prelude.wgsl", import_path: PRELUDE_SHADER_IMPORT, handle: ShaderId::Id(SHADER_TYPE_UUID, PRELUDE_SHADER_ID) },
            BuiltinShader { file: "shapes.wgsl", import_path: SHAPES_SHADER_IMPORT, handle: ShaderId::Id(SHADER_TYPE_UUID, SHAPES_SHADER_ID) },
            BuiltinShader { file: "colorize.wgsl", import_path: COLORIZE_SHADER_IMPORT, handle: ShaderId::Id(SHADER_TYPE_UUID, COLORIZE_SHADER_ID) },
            BuiltinShader { file: "smud.wgsl", import_path: SMUD_SHADER_IMPORT, handle: ShaderId::Id(SHADER_TYPE_UUID, SMUD_SHADER_ID) },
            BuiltinShader { file: "vertex.wgsl", import_path: crate::shaders::VERTEX_SHADER_IMPORT, handle: ShaderId::Id(SHADER_TYPE_UUID, VERTEX_SHADER_ID) },
            BuiltinShader { file: "fragment.wgsl", import_path: crate::shaders::FRAGMENT_SHADER_IMPORT, handle: ShaderId::Id(SHADER_TYPE_UUID, FRAGMENT_SHADER_ID) },
            BuiltinShader { file: "fills/cubic_falloff.wgsl", import_path: DEFAULT_FILL_IMPORT, handle: ShaderId::Id(SHADER_TYPE_UUID, DEFAULT_FILL_ID) },
            BuiltinShader { file: "fills/simple.wgsl", import_path: SIMPLE_FILL_IMPORT, handle: ShaderId::Id(SHADER_TYPE_UUID, SIMPLE_FILL_ID) },
        ];
        assert(r@ =~= builtin_shaders());
        r
    }
}

} // verus!
