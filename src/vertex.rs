//! The per-instance vertex record, its attribute layout, and the packed
//! vertex buffer.
//!
//! The GPU reads the record's fields at the byte offsets that the layout
//! declares. Fields are laid out in alphabetical order of their names (color,
//! frame, position, rotation, scale), which is not the order of the shader
//! locations; the layout below must follow the record, and
//! `lemma_packed_vertex_decodes` proves that it does.
use vstd::prelude::*;

verus! {

/// One shape instance as the vertex stage reads it; every field holds f32 bits.
#[derive(Clone, Copy, Debug)]
pub struct ShapeVertex {
    pub color: [u32; 4],
    pub frame: u32,
    pub position: [u32; 3],
    pub rotation: [u32; 2],
    pub scale: u32,
}

/// The formats the layout uses: one to four f32 components.
#[derive(Clone, Copy, Debug, PartialEq, Eq, Structural)]
pub enum VertexFormat {
    Float32,
    Float32x2,
    Float32x3,
    Float32x4,
}

/// Where one shader input lies in a record.
#[derive(Clone, Copy, Debug, PartialEq, Eq, Structural)]
pub struct VertexAttribute {
    pub format: VertexFormat,
    /// Byte offset from the start of the record.
    pub offset: u64,
    pub shader_location: u32,
}

pub const POSITION_LOCATION: u32 = 0;
pub const COLOR_LOCATION: u32 = 1;
pub const ROTATION_LOCATION: u32 = 2;
pub const SCALE_LOCATION: u32 = 3;
pub const FRAME_LOCATION: u32 = 4;

/// Bytes of one f32 component.
pub const COMPONENT_BYTES: u64 = 4;
/// Components of one record.
pub const VERTEX_WORDS: usize = 11;
/// Bytes of one record: the distance between two instances in the buffer.
pub const VERTEX_STRIDE: u64 = 44;

/// The number of f32 components of a format.
pub open spec fn components(f: VertexFormat) -> int {
    match f {
        VertexFormat::Float32 => 1,
        VertexFormat::Float32x2 => 2,
        VertexFormat::Float32x3 => 3,
        VertexFormat::Float32x4 => 4,
    }
}

/// The attribute layout declared to the pipeline, one entry per shader input.
pub open spec fn vertex_layout() -> Seq<VertexAttribute> {
    seq![
        VertexAttribute { format: VertexFormat::Float32x4, offset: 0, shader_location: COLOR_LOCATION },
        VertexAttribute { format: VertexFormat::Float32, offset: 16, shader_location: FRAME_LOCATION },
        VertexAttribute { format: VertexFormat::Float32x3, offset: 20, shader_location: POSITION_LOCATION },
        VertexAttribute { format: VertexFormat::Float32x2, offset: 32, shader_location: ROTATION_LOCATION },
        VertexAttribute { format: VertexFormat::Float32, offset: 40, shader_location: SCALE_LOCATION },
    ]
}

/// The attribute layout of a record and the record's stride in bytes.
pub fn smud_vertex_data() -> (r: (Vec<VertexAttribute>, u64))
    ensures
        r.0@ == vertex_layout(),
        r.1 == VERTEX_STRIDE,
{
    let attributes = vec![
        VertexAttribute { format: VertexFormat::Float32x4, offset: 0, shader_location: COLOR_LOCATION },
        VertexAttribute { format: VertexFormat::Float32, offset: 4 * COMPONENT_BYTES, shader_location: FRAME_LOCATION },
        VertexAttribute { format: VertexFormat::Float32x3, offset: (4 + 1) * COMPONENT_BYTES, shader_location: POSITION_LOCATION },
        VertexAttribute { format: VertexFormat::Float32x2, offset: (4 + 1 + 3) * COMPONENT_BYTES, shader_location: ROTATION_LOCATION },
        VertexAttribute { format: VertexFormat::Float32, offset: (4 + 1 + 3 + 2) * COMPONENT_BYTES, shader_location: SCALE_LOCATION },
    ];
    proof {
        assert(attributes@ =~= vertex_layout());
    }
    (attributes, (4 + 1 + 3 + 2 + 1) * COMPONENT_BYTES)
}

/// The components of a record in memory order.
pub open spec fn vertex_words(v: ShapeVertex) -> Seq<u32> {
    seq![
        v.color[0], v.color[1], v.color[2], v.color[3],
        v.frame,
        v.position[0], v.position[1], v.position[2],
        v.rotation[0], v.rotation[1],
        v.scale,
    ]
}

/// The buffer holding the records one after another.
pub open spec fn packed(vs: Seq<ShapeVertex>) -> Seq<u32>
    decreases vs.len(),
{
    if vs.len() == 0 {
        Seq::empty()
    } else {
        packed(vs.drop_last()) + vertex_words(vs.last())
    }
}

/// The value a shader input at `location` receives from a record.
pub open spec fn field_words(v: ShapeVertex, location: u32) -> Seq<u32> {
    if location == POSITION_LOCATION {
        v.position@
    } else if location == COLOR_LOCATION {
        v.color@
    } else if location == ROTATION_LOCATION {
        v.rotation@
    } else if location == SCALE_LOCATION {
        seq![v.scale]
    } else if location == FRAME_LOCATION {
        seq![v.frame]
    } else {
        Seq::empty()
    }
}

/// The components that the GPU reads for attribute `a` of instance `instance`.
pub open spec fn attribute_words(buffer: Seq<u32>, instance: int, a: VertexAttribute) -> Seq<u32> {
    let start = instance * VERTEX_STRIDE / 4 + a.offset / 4;
    buffer.subrange(start, start + components(a.format))
}

/// Every attribute of the layout reads, for instance `instance`, the field of
/// `v` that its shader location names.
pub open spec fn decodes_to(buffer: Seq<u32>, instance: int, v: ShapeVertex) -> bool {
    forall|k: int|
        0 <= k < vertex_layout().len() ==> attribute_words(buffer, instance, #[trigger] vertex_layout()[k])
            == field_words(v, vertex_layout()[k].shader_location)
}

proof fn lemma_packed_index(vs: Seq<ShapeVertex>, i: int, j: int)
    requires
        0 <= i < vs.len(),
        0 <= j < 11,
    ensures
        packed(vs).len() == 11 * vs.len(),
        packed(vs)[11 * i + j] == vertex_words(vs[i])[j],
    decreases vs.len(),
{
    lemma_packed_len(vs);
    let init = vs.drop_last();
    lemma_packed_len(init);
    if i < vs.len() - 1 {
        lemma_packed_index(init, i, j);
    } else {
        assert(11 * i + j == 11 * init.len() + j);
    }
}

proof fn lemma_packed_len(vs: Seq<ShapeVertex>)
    ensures
        packed(vs).len() == 11 * vs.len(),
    decreases vs.len(),
{
    if vs.len() > 0 {
        lemma_packed_len(vs.drop_last());
    }
}

/// Reading instance `i` of a packed buffer through the declared layout gives
/// back every field of the `i`-th record: the layout's offsets match the
/// record.
pub proof fn lemma_packed_vertex_decodes(vs: Seq<ShapeVertex>, i: int)
    requires
        0 <= i < vs.len(),
    ensures
        decodes_to(packed(vs), i, vs[i]),
{
    lemma_packed_len(vs);
    let buf = packed(vs);
    let v = vs[i];
    assert forall|j: int| 0 <= j < 11 implies buf[11 * i + j] == #[trigger] vertex_words(v)[j] by {
        lemma_packed_index(vs, i, j);
    }
    assert(i * 44 / 4 == 11 * i);
    assert(attribute_words(buf, i, vertex_layout()[0]) =~= v.color@) by {
        assert(buf[11 * i + 0] == vertex_words(v)[0]);
        assert(buf[11 * i + 1] == vertex_words(v)[1]);
        assert(buf[11 * i + 2] == vertex_words(v)[2]);
        assert(buf[11 * i + 3] == vertex_words(v)[3]);
    }
    assert(attribute_words(buf, i, vertex_layout()[1]) =~= seq![v.frame]) by {
        assert(buf[11 * i + 4] == vertex_words(v)[4]);
    }
    assert(attribute_words(buf, i, vertex_layout()[2]) =~= v.position@) by {
        assert(buf[11 * i + 5] == vertex_words(v)[5]);
        assert(buf[11 * i + 6] == vertex_words(v)[6]);
        assert(buf[11 * i + 7] == vertex_words(v)[7]);
    }
    assert(attribute_words(buf, i, vertex_layout()[3]) =~= v.rotation@) by {
        assert(buf[11 * i + 8] == vertex_words(v)[8]);
        assert(buf[11 * i + 9] == vertex_words(v)[9]);
    }
    assert(attribute_words(buf, i, vertex_layout()[4]) =~= seq![v.scale]) by {
        assert(buf[11 * i + 10] == vertex_words(v)[10]);
    }
}

/// Appends one record to a buffer.
pub fn write_vertex(buffer: &mut Vec<u32>, v: &ShapeVertex)
    ensures
        final(buffer)@ == old(buffer)@ + vertex_words(*v),
{
    buffer.push(v.color[0]);
    buffer.push(v.color[1]);
    buffer.push(v.color[2]);
    buffer.push(v.color[3]);
    buffer.push(v.frame);
    buffer.push(v.position[0]);
    buffer.push(v.position[1]);
    buffer.push(v.position[2]);
    buffer.push(v.rotation[0]);
    buffer.push(v.rotation[1]);
    buffer.push(v.scale);
    assert(buffer@ =~= old(buffer)@ + vertex_words(*v));
}

/// The buffer that holds `vertices` one after another, ready for upload.
pub fn pack_vertices(vertices: &Vec<ShapeVertex>) -> (buffer: Vec<u32>)
    ensures
        buffer@ == packed(vertices@),
{
    let mut buffer: Vec<u32> = Vec::new();
    let mut i: usize = 0;
    while i < vertices.len()
        invariant
            i <= vertices.len(),
            buffer@ == packed(vertices@.take(i as int)),
        decreases vertices.len() - i,
    {
        write_vertex(&mut buffer, &vertices[i]);
        proof {
            assert(vertices@.take(i + 1).drop_last() =~= vertices@.take(i as int));
        }
        i = i + 1;
    }
    proof {
        assert(vertices@.take(i as int) =~= vertices@);
    }
    buffer
}

/// Reads instance `instance` of a buffer through the declared layout.
pub fn read_vertex(buffer: &Vec<u32>, instance: usize) -> (v: ShapeVertex)
    requires
        (instance + 1) * VERTEX_WORDS <= buffer.len(),
    ensures
        decodes_to(buffer@, instance as int, v),
{
    let base = instance * VERTEX_WORDS;
    let v = ShapeVertex {
        color: [buffer[base], buffer[base + 1], buffer[base + 2], buffer[base + 3]],
        frame: buffer[base + 4],
        position: [buffer[base + 5], buffer[base + 6], buffer[base + 7]],
        rotation: [buffer[base + 8], buffer[base + 9]],
        scale: buffer[base + 10],
    };
    proof {
        let b = buffer@;
        let i = instance as int;
        assert(i * 44 / 4 == 11 * i);
        assert(attribute_words(b, i, vertex_layout()[0]) =~= v.color@);
        assert(attribute_words(b, i, vertex_layout()[1]) =~= seq![v.frame]);
        assert(attribute_words(b, i, vertex_layout()[2]) =~= v.position@);
        assert(attribute_words(b, i, vertex_layout()[3]) =~= v.rotation@);
        assert(attribute_words(b, i, vertex_layout()[4]) =~= seq![v.scale]);
    }
    v
}

} // verus!
