use vstd::prelude::*;

verus! {

/// Bit pattern of the 32-bit floating-point value 0.0.
pub const F32_ZERO_BITS: u32 = 0x0000_0000;

/// Bit pattern of the 32-bit floating-point value 1.0.
pub const F32_ONE_BITS: u32 = 0x3F80_0000;

/// Bit pattern of the 32-bit floating-point value 0.75.
pub const F32_THREE_QUARTERS_BITS: u32 = 0x3F40_0000;

/// Bit pattern of the 32-bit floating-point value -0.75.
pub const F32_NEG_THREE_QUARTERS_BITS: u32 = 0xBF40_0000;

/// Three 32-bit lanes of one vertex attribute, each held as the bit pattern
/// of a floating-point value.
#[derive(Clone, Copy, Debug, PartialEq, Eq, Structural)]
pub struct LaneTriple {
    pub x: u32,
    pub y: u32,
    pub z: u32,
}

/// One mesh vertex as it is laid out in the vertex buffer: a position and a
/// colour of three floating-point lanes each, position first, without
/// padding.
#[derive(Clone, Copy, Debug, PartialEq, Eq, Structural)]
pub struct Vertex {
    /// The x, y, z lanes of the position.
    pub position: LaneTriple,
    /// The red, green, blue lanes of the colour.
    pub color: LaneTriple,
}

/// The shape of one vertex attribute as the shader reads it.
#[derive(Clone, Copy, Debug, PartialEq, Eq, Structural)]
pub enum VertexFormat {
    /// Three consecutive 32-bit floating-point lanes.
    Float32x3,
}

/// How often the vertex fetcher advances through the buffer.
#[derive(Clone, Copy, Debug, PartialEq, Eq, Structural)]
pub enum VertexStepMode {
    /// Advance once per vertex.
    Vertex,
    /// Advance once per instance.
    Instance,
}

/// One attribute of a vertex buffer: its format, its byte offset from the
/// start of the vertex, and the shader location it binds to.
#[derive(Clone, Copy, Debug, PartialEq, Eq, Structural)]
pub struct VertexAttribute {
    pub format: VertexFormat,
    pub offset: u64,
    pub shader_location: u32,
}

/// How a vertex buffer is laid out: the distance in bytes between two
/// vertices, the step mode, and the attributes packed into each vertex.
#[derive(Debug)]
pub struct VertexBufferLayout {
    pub array_stride: u64,
    pub step_mode: VertexStepMode,
    pub attributes: Vec<VertexAttribute>,
}

/// Byte width of one vertex attribute of the given format.
pub open spec fn format_size(f: VertexFormat) -> int {
    match f {
        VertexFormat::Float32x3 => 12,
    }
}

/// Total byte width of a run of attribute formats packed back to back.
pub open spec fn formats_size(fs: Seq<VertexFormat>) -> int
    decreases fs.len(),
{
    if fs.len() == 0 {
        0
    } else {
        formats_size(fs.drop_last()) + format_size(fs.last())
    }
}

/// A run of attribute formats never packs to a negative width.
pub proof fn lemma_formats_size_nonneg(fs: Seq<VertexFormat>)
    ensures
        0 <= formats_size(fs),
    decreases fs.len(),
{
    if fs.len() > 0 {
        lemma_formats_size_nonneg(fs.drop_last());
    }
}

/// The packed width of a prefix never exceeds the width of the whole run.
pub proof fn lemma_formats_size_take(fs: Seq<VertexFormat>, i: int)
    requires
        0 <= i <= fs.len(),
    ensures
        0 <= formats_size(fs.take(i)) <= formats_size(fs),
    decreases fs.len() - i,
{
    lemma_formats_size_nonneg(fs.take(i));
    if i == fs.len() {
        assert(fs.take(i) =~= fs);
    } else {
        assert(fs.take(i + 1).drop_last() =~= fs.take(i));
        lemma_formats_size_take(fs, i + 1);
    }
}

/// Byte width of one vertex attribute of the given format.
pub fn format_width(f: VertexFormat) -> (w: u64)
    ensures
        w as int == format_size(f),
{
    match f {
        VertexFormat::Float32x3 => 12,
    }
}

/// Pack a run of attribute formats back to back: each attribute's offset is
/// the total width of the formats before it, and its shader location is its
/// position in the run.
pub fn attributes_for(formats: &Vec<VertexFormat>) -> (attrs: Vec<VertexAttribute>)
    requires
        formats_size(formats@) <= u64::MAX,
        formats@.len() <= u32::MAX,
    ensures
        attrs@.len() == formats@.len(),
        forall|k: int| 0 <= k < attrs@.len() ==> attrs@[k] == (VertexAttribute {
            format: formats@[k],
            offset: formats_size(formats@.take(k)) as u64,
            shader_location: k as u32,
        }),
{
    let mut attrs: Vec<VertexAttribute> = Vec::new();
    let mut offset: u64 = 0;
    let mut i: usize = 0;
    while i < formats.len()
        invariant
            i <= formats@.len(),
            formats_size(formats@) <= u64::MAX,
            formats@.len() <= u32::MAX,
            offset as int == formats_size(formats@.take(i as int)),
            attrs@.len() == i,
            forall|k: int| 0 <= k < i ==> attrs@[k] == (VertexAttribute {
                format: formats@[k],
                offset: formats_size(formats@.take(k)) as u64,
                shader_location: k as u32,
            }),
        decreases formats@.len() - i,
    {
        let f = formats[i];
        proof {
            lemma_formats_size_take(formats@, i + 1);
            assert(formats@.take(i + 1).drop_last() =~= formats@.take(i as int));
            assert(formats@.take(i + 1).last() == formats@[i as int]);
        }
        attrs.push(VertexAttribute { format: f, offset, shader_location: i as u32 });
        let width = format_width(f);
        offset = offset + width;
        i = i + 1;
    }
    proof {
        assert(formats@.take(formats@.len() as int) =~= formats@);
    }
    attrs
}

impl Vertex {
    /// The buffer layout of this vertex type: two three-lane floating-point
    /// attributes — position at offset 0 binding location 0, colour at
    /// offset 12 binding location 1 — stepped per vertex, 24 bytes apart,
    /// which is exactly the width each vertex serializes to.
    pub fn get_layout() -> (layout: VertexBufferLayout)
        ensures
            layout.array_stride == 24,
            forall|v: Vertex| #[trigger] vertex_le_bytes(v).len() == layout.array_stride,
            layout.step_mode == VertexStepMode::Vertex,
            layout.attributes@.len() == 2,
            layout.attributes@[0] == (VertexAttribute {
                format: VertexFormat::Float32x3,
                offset: 0,
                shader_location: 0,
            }),
            layout.attributes@[1] == (VertexAttribute {
                format: VertexFormat::Float32x3,
                offset: 12,
                shader_location: 1,
            }),
    {
        let mut formats: Vec<VertexFormat> = Vec::new();
        formats.push(VertexFormat::Float32x3);
        formats.push(VertexFormat::Float32x3);
        proof {
            assert(formats@.drop_last() =~= seq![VertexFormat::Float32x3]);
            assert(seq![VertexFormat::Float32x3].drop_last() =~= Seq::<VertexFormat>::empty());
            assert(formats_size(Seq::<VertexFormat>::empty()) == 0);
            assert(formats_size(seq![VertexFormat::Float32x3]) == 12);
            assert(formats_size(formats@) == 24);
            assert forall|v: Vertex| #[trigger] vertex_le_bytes(v).len() == 24 by {
                lemma_vertex_le_bytes_len(v);
            }
        }
        let attributes = attributes_for(&formats);
        VertexBufferLayout { array_stride: 24, step_mode: VertexStepMode::Vertex, attributes }
    }
}

/// The four bytes of a 32-bit word in little-endian order.
pub open spec fn word_le_bytes(x: u32) -> Seq<u8> {
    seq![
        (x % 256) as u8,
        ((x / 256) % 256) as u8,
        ((x / 65536) % 256) as u8,
        ((x / 16777216) % 256) as u8,
    ]
}

/// The 24 bytes of one vertex: its six lanes in buffer order, each
/// little-endian.
pub open spec fn vertex_le_bytes(v: Vertex) -> Seq<u8> {
    word_le_bytes(v.position.x) + word_le_bytes(v.position.y) + word_le_bytes(v.position.z)
        + word_le_bytes(v.color.x) + word_le_bytes(v.color.y) + word_le_bytes(v.color.z)
}

/// The byte image of a whole vertex buffer: the bytes of each vertex, in
/// order, one after the other.
pub open spec fn mesh_le_bytes(vs: Seq<Vertex>) -> Seq<u8>
    decreases vs.len(),
{
    if vs.len() == 0 {
        Seq::empty()
    } else {
        mesh_le_bytes(vs.drop_last()) + vertex_le_bytes(vs.last())
    }
}

/// Every vertex serializes to exactly 24 bytes.
pub proof fn lemma_vertex_le_bytes_len(v: Vertex)
    ensures
        vertex_le_bytes(v).len() == 24,
{
}

/// A buffer of n vertices serializes to exactly 24 * n bytes.
pub proof fn lemma_mesh_le_bytes_len(vs: Seq<Vertex>)
    ensures
        mesh_le_bytes(vs).len() == 24 * vs.len(),
    decreases vs.len(),
{
    if vs.len() > 0 {
        lemma_vertex_le_bytes_len(vs.last());
        lemma_mesh_le_bytes_len(vs.drop_last());
    }
}

/// Appending one vertex to a buffer appends its 24 bytes to the image.
pub proof fn lemma_mesh_le_bytes_push(vs: Seq<Vertex>, v: Vertex)
    ensures
        mesh_le_bytes(vs.push(v)) == mesh_le_bytes(vs) + vertex_le_bytes(v),
{
    assert(vs.push(v).drop_last() =~= vs);
    assert(vs.push(v).last() == v);
}

/// Append the four little-endian bytes of one 32-bit word.
fn push_word_le(out: &mut Vec<u8>, x: u32)
    ensures
        final(out)@ == old(out)@ + word_le_bytes(x),
{
    out.push((x % 256) as u8);
    out.push(((x / 256) % 256) as u8);
    out.push(((x / 65536) % 256) as u8);
    out.push(((x / 16777216) % 256) as u8);
    proof {
        assert(out@ =~= old(out)@ + word_le_bytes(x));
    }
}

/// Append the 24 bytes of one vertex.
fn push_vertex_le(out: &mut Vec<u8>, v: &Vertex)
    ensures
        final(out)@ == old(out)@ + vertex_le_bytes(*v),
{
    push_word_le(out, v.position.x);
    push_word_le(out, v.position.y);
    push_word_le(out, v.position.z);
    push_word_le(out, v.color.x);
    push_word_le(out, v.color.y);
    push_word_le(out, v.color.z);
    proof {
        assert(out@ =~= old(out)@ + vertex_le_bytes(*v));
    }
}

/// Serialize a vertex buffer into the exact bytes the GPU expects: each
/// vertex contributes its six lanes in order, each lane little-endian.
pub fn vertex_buffer_bytes(vertices: &Vec<Vertex>) -> (r: Vec<u8>)
    ensures
        r@ == mesh_le_bytes(vertices@),
        r@.len() == 24 * vertices@.len(),
{
    let mut out: Vec<u8> = Vec::new();
    let mut i: usize = 0;
    while i < vertices.len()
        invariant
            i <= vertices@.len(),
            out@ == mesh_le_bytes(vertices@.take(i as int)),
        decreases vertices@.len() - i,
    {
        push_vertex_le(&mut out, &vertices[i]);
        proof {
            lemma_mesh_le_bytes_push(vertices@.take(i as int), vertices@[i as int]);
            assert(vertices@.take(i as int).push(vertices@[i as int]) =~= vertices@.take(
                i + 1 as int,
            ));
        }
        i = i + 1;
    }
    proof {
        assert(vertices@.take(vertices@.len() as int) =~= vertices@);
        lemma_mesh_le_bytes_len(vertices@);
    }
    out
}

/// The three vertices of the demo triangle: a red bottom-left corner, a
/// green bottom-right corner and a blue top corner, all in the z = 0 plane.
pub open spec fn triangle_vertices() -> Seq<Vertex> {
    seq![
        (Vertex {
            position: (LaneTriple {
                x: F32_NEG_THREE_QUARTERS_BITS,
                y: F32_NEG_THREE_QUARTERS_BITS,
                z: F32_ZERO_BITS,
            }),
            color: (LaneTriple { x: F32_ONE_BITS, y: F32_ZERO_BITS, z: F32_ZERO_BITS }),
        }),
        (Vertex {
            position: (LaneTriple {
                x: F32_THREE_QUARTERS_BITS,
                y: F32_NEG_THREE_QUARTERS_BITS,
                z: F32_ZERO_BITS,
            }),
            color: (LaneTriple { x: F32_ZERO_BITS, y: F32_ONE_BITS, z: F32_ZERO_BITS }),
        }),
        (Vertex {
            position: (LaneTriple {
                x: F32_ZERO_BITS,
                y: F32_THREE_QUARTERS_BITS,
                z: F32_ZERO_BITS,
            }),
            color: (LaneTriple { x: F32_ZERO_BITS, y: F32_ZERO_BITS, z: F32_ONE_BITS }),
        }),
    ]
}

/// Build the demo triangle's vertices.
pub fn make_triangle() -> (vertices: Vec<Vertex>)
    ensures
        vertices@ == triangle_vertices(),
{
    let mut vs: Vec<Vertex> = Vec::new();
    vs.push(Vertex {
        position: LaneTriple {
            x: F32_NEG_THREE_QUARTERS_BITS,
            y: F32_NEG_THREE_QUARTERS_BITS,
            z: F32_ZERO_BITS,
        },
        color: LaneTriple { x: F32_ONE_BITS, y: F32_ZERO_BITS, z: F32_ZERO_BITS },
    });
    vs.push(Vertex {
        position: LaneTriple {
            x: F32_THREE_QUARTERS_BITS,
            y: F32_NEG_THREE_QUARTERS_BITS,
            z: F32_ZERO_BITS,
        },
        color: LaneTriple { x: F32_ZERO_BITS, y: F32_ONE_BITS, z: F32_ZERO_BITS },
    });
    vs.push(Vertex {
        position: LaneTriple { x: F32_ZERO_BITS, y: F32_THREE_QUARTERS_BITS, z: F32_ZERO_BITS },
        color: LaneTriple { x: F32_ZERO_BITS, y: F32_ZERO_BITS, z: F32_ONE_BITS },
    });
    proof {
        assert(vs@ =~= triangle_vertices());
    }
    vs
}

} // verus!
