//! Per-frame snapshots of the shapes to draw.
//!
//! Colours, sizes and positions are carried as IEEE-754 single-precision bit
//! patterns: the library moves them from the scene to the vertex buffer without
//! doing arithmetic on them, and reads only the depth to order shapes.
use vstd::prelude::*;
use copyless::VecHelper;
use crate::shader_id::{ShaderId, ShaderKey};

verus! {

/// The geometric frame that bounds a shape's distance field.
#[derive(Clone, Copy, Debug, PartialEq, Eq, Structural)]
pub enum Frame {
    /// A square quad; the value is its half extent (f32 bits).
    Quad(u32),
}

/// What a scene entity declares about its shape.
#[derive(Clone, Copy, Debug)]
pub struct SmudShape {
    /// RGBA, f32 bits.
    pub color: [u32; 4],
    pub sdf: ShaderId,
    pub fill: ShaderId,
    pub frame: Frame,
}

/// The parts of an entity's world transform that drawing reads.
#[derive(Clone, Copy, Debug)]
pub struct ShapeTransform {
    /// World translation x, y, z (f32 bits); z is the draw depth.
    pub translation: [u32; 3],
    /// The local x axis turned by the world rotation, projected to the
    /// plane: a unit direction x, y (f32 bits).
    pub rotation: [u32; 2],
    /// The world scale along x (f32 bits).
    pub scale: u32,
}

/// A scene entity that may carry a shape, as the world-space extractor sees it.
#[derive(Clone, Copy, Debug)]
pub struct ShapeEntity {
    pub shape: SmudShape,
    /// The visibility the scene computed for this frame.
    pub visible: bool,
    pub transform: ShapeTransform,
}

/// A UI node that carries a shape.
#[derive(Clone, Copy, Debug)]
pub struct UiShapeEntity {
    pub shape: SmudShape,
    pub visible: bool,
    pub transform: ShapeTransform,
    /// Half of the node's measured width (f32 bits).
    pub half_width: u32,
    /// The shape's colour multiplied component-wise by the node's tint (f32 bits).
    pub tinted_color: [u32; 4],
}

/// A render-ready snapshot of one visible shape.
#[derive(Clone, Copy, Debug)]
pub struct ExtractedShape {
    pub color: [u32; 4],
    pub frame: u32,
    pub sdf_shader: ShaderId,
    pub fill_shader: ShaderId,
    pub transform: ShapeTransform,
}

/// This frame's world-space snapshots.
pub struct ExtractedShapes(pub Vec<ExtractedShape>);

/// This frame's UI snapshots.
pub struct ExtractedUiShapes(pub Vec<ExtractedShape>);

/// The shader pair a snapshot is drawn with.
pub open spec fn key_of(s: ExtractedShape) -> ShaderKey {
    ShaderKey { sdf: s.sdf_shader, fill: s.fill_shader }
}

/// The half extent that a frame declares.
pub open spec fn frame_extent(f: Frame) -> u32 {
    match f {
        Frame::Quad(s) => s,
    }
}

/// The snapshot of a world-space entity.
pub open spec fn world_snapshot(e: ShapeEntity) -> ExtractedShape {
    ExtractedShape {
        color: e.shape.color,
        frame: frame_extent(e.shape.frame),
        sdf_shader: e.shape.sdf,
        fill_shader: e.shape.fill,
        transform: e.transform,
    }
}

/// The snapshot of a UI node: its frame is half the node's width and its
/// colour the tinted one.
pub open spec fn ui_snapshot(e: UiShapeEntity) -> ExtractedShape {
    ExtractedShape {
        color: e.tinted_color,
        frame: e.half_width,
        sdf_shader: e.shape.sdf,
        fill_shader: e.shape.fill,
        transform: e.transform,
    }
}

/// Snapshots of the visible world-space entities, in the entities' order.
pub open spec fn extracted_world(es: Seq<ShapeEntity>) -> Seq<ExtractedShape>
    decreases es.len(),
{
    if es.len() == 0 {
        Seq::empty()
    } else {
        let rest = extracted_world(es.drop_last());
        if es.last().visible {
            rest.push(world_snapshot(es.last()))
        } else {
            rest
        }
    }
}

/// Snapshots of the visible UI nodes, in the nodes' order.
pub open spec fn extracted_ui(es: Seq<UiShapeEntity>) -> Seq<ExtractedShape>
    decreases es.len(),
{
    if es.len() == 0 {
        Seq::empty()
    } else {
        let rest = extracted_ui(es.drop_last());
        if es.last().visible {
            rest.push(ui_snapshot(es.last()))
        } else {
            rest
        }
    }
}

/// Relies on copyless's `VecHelper::alloc` and `VecAllocation::init`: `alloc`
/// reserves the slot at the vector's end and `init` writes the value there and
/// grows the length by one.
#[verifier::external_body]
fn push_snapshot(shapes: &mut Vec<ExtractedShape>, shape: ExtractedShape)
    ensures
        final(shapes)@ == old(shapes)@.push(shape),
{
    shapes.alloc().init(shape);
}

fn frame_extent_of(f: Frame) -> (r: u32)
    ensures
        r == frame_extent(f),
{
    match f {
        Frame::Quad(s) => s,
    }
}

/// Rebuilds the world-space snapshot list from the scene: one snapshot per
/// visible entity, in the entities' order; invisible entities are left out.
pub fn extract_shapes(extracted: &mut ExtractedShapes, entities: &Vec<ShapeEntity>)
    ensures
        final(extracted).0@ == extracted_world(entities@),
{
    extracted.0.clear();
    let mut i: usize = 0;
    while i < entities.len()
        invariant
            i <= entities.len(),
            extracted.0@ == extracted_world(entities@.take(i as int)),
        decreases entities.len() - i,
    {
        let e = entities[i];
        proof {
            assert(entities@.take(i + 1).drop_last() =~= entities@.take(i as int));
        }
        if e.visible {
            let snapshot = ExtractedShape {
                color: e.shape.color,
                frame: frame_extent_of(e.shape.frame),
                sdf_shader: e.shape.sdf,
                fill_shader: e.shape.fill,
                transform: e.transform,
            };
            push_snapshot(&mut extracted.0, snapshot);
        }
        i = i + 1;
    }
    proof {
        assert(entities@.take(i as int) =~= entities@);
    }
}

/// Rebuilds the UI snapshot list: one snapshot per visible node, in the
/// nodes' order, with the node's half width as frame and the tinted colour.
pub fn extract_ui_shapes(extracted: &mut ExtractedUiShapes, entities: &Vec<UiShapeEntity>)
    ensures
        final(extracted).0@ == extracted_ui(entities@),
{
    extracted.0.clear();
    let mut i: usize = 0;
    while i < entities.len()
        invariant
            i <= entities.len(),
            extracted.0@ == extracted_ui(entities@.take(i as int)),
        decreases entities.len() - i,
    {
        let e = entities[i];
        proof {
            assert(entities@.take(i + 1).drop_last() =~= entities@.take(i as int));
        }
        if e.visible {
            let snapshot = ExtractedShape {
                color: e.tinted_color,
                frame: e.half_width,
                sdf_shader: e.shape.sdf,
                fill_shader: e.shape.fill,
                transform: e.transform,
            };
            push_snapshot(&mut extracted.0, snapshot);
        }
        i = i + 1;
    }
    proof {
        assert(entities@.take(i as int) =~= entities@);
    }
}

} // verus!
