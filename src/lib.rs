//! Shape extraction, shader composition and render batching for
//! signed-distance-field shapes.
//!
//! A frame runs in stages. `extract` takes a snapshot of every visible shape.
//! `shaders` composes one shader program per distinct (SDF, fill) pair, once.
//! `queue` sorts the snapshots by depth and shader pair (`order`), packs the
//! ready ones into instance records (`vertex`) and groups them into batches,
//! each drawn with one instanced call through a pipeline that `pipeline`
//! describes and caches. `plugin` lists which system runs in which stage.

pub mod shader_id;
pub mod extract;
pub mod order;
pub mod vertex;
pub mod shaders;
pub mod pipeline;
pub mod queue;
pub mod plugin;
