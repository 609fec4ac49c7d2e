use vstd::prelude::*;

use crate::buffers;
use crate::command::{BufferTarget, BufferUsage, Cmd, PrimitiveMode};
use crate::ebo::ebo_setup_trace;
use crate::gl_model::GlModel;
use crate::material::Material;
use crate::mesh::{DrawMode, Mesh};
use crate::mesh_builder::MeshBuilder;
use crate::vao::vao_attach_trace;
use crate::vbo::{VboConfig, VertexAttrib};

verus! {

broadcast use vstd::set::group_set_axioms;

/// The 32-bit pattern of floating-point one; vertex data is carried as
/// raw words so that the canonical geometry is exact.
pub const F32_ONE_BITS: u32 = 0x3f80_0000;

/// The 32-bit pattern of floating-point negative one.
pub const F32_NEG_ONE_BITS: u32 = 0xbf80_0000;

/// The 32-bit pattern of floating-point zero.
pub const F32_ZERO_BITS: u32 = 0;

/// The four corners of the unit quad, as three words each.
pub open spec fn quad_position_words() -> Seq<u32> {
    seq![
        F32_NEG_ONE_BITS, F32_ZERO_BITS, F32_ONE_BITS,
        F32_ONE_BITS, F32_ZERO_BITS, F32_ONE_BITS,
        F32_ONE_BITS, F32_ZERO_BITS, F32_NEG_ONE_BITS,
        F32_NEG_ONE_BITS, F32_ZERO_BITS, F32_NEG_ONE_BITS,
    ]
}

/// A constant up normal for each of the four corners.
pub open spec fn quad_normal_words() -> Seq<u32> {
    seq![
        F32_ZERO_BITS, F32_ONE_BITS, F32_ZERO_BITS,
        F32_ZERO_BITS, F32_ONE_BITS, F32_ZERO_BITS,
        F32_ZERO_BITS, F32_ONE_BITS, F32_ZERO_BITS,
        F32_ZERO_BITS, F32_ONE_BITS, F32_ZERO_BITS,
    ]
}

/// The texture coordinates of the four corners, scaled by the caller's
/// factor (as a raw word).
pub open spec fn quad_texcoord_words(tex_scale_bits: u32) -> Seq<u32> {
    seq![
        F32_ZERO_BITS, tex_scale_bits,
        tex_scale_bits, tex_scale_bits,
        tex_scale_bits, F32_ZERO_BITS,
        F32_ZERO_BITS, F32_ZERO_BITS,
    ]
}

/// The quad's two triangles, with the fixed winding.
pub open spec fn quad_indices() -> Seq<u32> {
    seq![0u32, 1u32, 2u32, 0u32, 2u32, 3u32]
}

/// The calls that build the whole quad mesh, with `base` the first
/// handle the bank gives out: the vertex array, then one configured
/// vertex buffer each for positions, normals and texture coordinates,
/// then the index buffer.
pub open spec fn quad_mesh_trace(base: u64, tex_scale_bits: u32) -> Seq<Cmd> {
    seq![Cmd::GenVertexArray { handle: base }] + vao_attach_trace(
        base,
        (base + 1) as u64,
        quad_position_words(),
        seq![VertexAttrib { location: 0, components: 3, normalized: false }],
    ) + vao_attach_trace(
        base,
        (base + 2) as u64,
        quad_normal_words(),
        seq![VertexAttrib { location: 1, components: 3, normalized: false }],
    ) + vao_attach_trace(
        base,
        (base + 3) as u64,
        quad_texcoord_words(tex_scale_bits),
        seq![VertexAttrib { location: 2, components: 2, normalized: false }],
    ) + seq![Cmd::GenBuffer { handle: (base + 4) as u64 }] + ebo_setup_trace(
        (base + 4) as u64,
        quad_indices(),
    )
}

/// Builds the canonical unit quad: four corners in one plane, a constant
/// up normal, texture coordinates scaled by `tex_scale_bits`, drawn as
/// two indexed triangles with the fixed winding 0-1-2-0-2-3.
pub fn create_basic_quad_mesh(gl: &mut GlModel, material: Material, tex_scale_bits: u32) -> (r:
    Mesh)
    requires
        old(gl).inv(),
        old(gl).can_alloc(5),
    ensures
        final(gl).inv(),
        r.material == material,
        r.vao.handle == old(gl).next_handle,
        r.vbos@.len() == 3,
        r.draw_mode matches DrawMode::Elements {
            ebo,
            elements_mode: PrimitiveMode::Triangles,
            vertices: 6,
        },
        final(gl).next_handle == old(gl).next_handle + 5,
        final(gl).live_set() == old(gl).live_set().insert(old(gl).next_handle).insert(
            (old(gl).next_handle + 1) as u64,
        ).insert((old(gl).next_handle + 2) as u64).insert(
            (old(gl).next_handle + 3) as u64,
        ).insert((old(gl).next_handle + 4) as u64),
        final(gl).commands() == old(gl).commands() + quad_mesh_trace(
            old(gl).next_handle,
            tex_scale_bits,
        ),
{
    let mut positions: Vec<u32> = Vec::new();
    positions.push(F32_NEG_ONE_BITS);
    positions.push(F32_ZERO_BITS);
    positions.push(F32_ONE_BITS);
    positions.push(F32_ONE_BITS);
    positions.push(F32_ZERO_BITS);
    positions.push(F32_ONE_BITS);
    positions.push(F32_ONE_BITS);
    positions.push(F32_ZERO_BITS);
    positions.push(F32_NEG_ONE_BITS);
    positions.push(F32_NEG_ONE_BITS);
    positions.push(F32_ZERO_BITS);
    positions.push(F32_NEG_ONE_BITS);
    let mut normals: Vec<u32> = Vec::new();
    let mut corner: usize = 0;
    while corner < 4
        invariant
            corner <= 4,
            normals@ == quad_normal_words().take(3 * corner as int),
        decreases 4 - corner,
    {
        normals.push(F32_ZERO_BITS);
        normals.push(F32_ONE_BITS);
        normals.push(F32_ZERO_BITS);
        proof {
            assert(normals@ =~= quad_normal_words().take(3 * (corner + 1) as int));
        }
        corner = corner + 1;
    }
    let mut texcoords: Vec<u32> = Vec::new();
    texcoords.push(F32_ZERO_BITS);
    texcoords.push(tex_scale_bits);
    texcoords.push(tex_scale_bits);
    texcoords.push(tex_scale_bits);
    texcoords.push(tex_scale_bits);
    texcoords.push(F32_ZERO_BITS);
    texcoords.push(F32_ZERO_BITS);
    texcoords.push(F32_ZERO_BITS);
    let mut indices: Vec<u32> = Vec::new();
    indices.push(0);
    indices.push(1);
    indices.push(2);
    indices.push(0);
    indices.push(2);
    indices.push(3);
    proof {
        assert(positions@ =~= quad_position_words());
        assert(normals@ =~= quad_normal_words());
        assert(texcoords@ =~= quad_texcoord_words(tex_scale_bits));
        assert(indices@ =~= quad_indices());
    }
    let mut position_attribs: Vec<VertexAttrib> = Vec::new();
    position_attribs.push(VertexAttrib { location: 0, components: 3, normalized: false });
    let mut normal_attribs: Vec<VertexAttrib> = Vec::new();
    normal_attribs.push(VertexAttrib { location: 1, components: 3, normalized: false });
    let mut texcoord_attribs: Vec<VertexAttrib> = Vec::new();
    texcoord_attribs.push(VertexAttrib { location: 2, components: 2, normalized: false });
    let builder = MeshBuilder::new(gl);
    let builder = builder.add_vbo(gl, VboConfig { data: positions, attribs: position_attribs });
    let builder = builder.add_vbo(gl, VboConfig { data: normals, attribs: normal_attribs });
    let builder = builder.add_vbo(gl, VboConfig { data: texcoords, attribs: texcoord_attribs });
    let builder = builder.set_primitive_mode(PrimitiveMode::Triangles);
    let builder = builder.set_indices(gl, indices);
    let builder = builder.set_material(material);
    let mesh = builder.build();
    proof {
        assert(position_attribs@ =~= seq![
            VertexAttrib { location: 0, components: 3, normalized: false },
        ]);
        assert(normal_attribs@ =~= seq![
            VertexAttrib { location: 1, components: 3, normalized: false },
        ]);
        assert(texcoord_attribs@ =~= seq![
            VertexAttrib { location: 2, components: 2, normalized: false },
        ]);
        assert(final(gl).commands() =~= old(gl).commands() + quad_mesh_trace(
            old(gl).next_handle,
            tex_scale_bits,
        ));
        assert(final(gl).live_set() =~= old(gl).live_set().insert(old(gl).next_handle).insert(
            (old(gl).next_handle + 1) as u64,
        ).insert((old(gl).next_handle + 2) as u64).insert(
            (old(gl).next_handle + 3) as u64,
        ).insert((old(gl).next_handle + 4) as u64));
    }
    mesh
}

/// Whatever the texture-coordinate scale, building the quad uploads
/// exactly one index list, at the same position of the call sequence,
/// and it is always `[0, 1, 2, 0, 2, 3]`.
pub proof fn lemma_quad_index_order(base: u64, tex_scale_bits: u32)
    ensures
        quad_mesh_trace(base, tex_scale_bits).len() == 29,
        quad_mesh_trace(base, tex_scale_bits)[27] == (Cmd::BufferData {
            target: BufferTarget::ElementArray,
            data: quad_indices(),
            usage: BufferUsage::StaticDraw,
        }),
        forall|j: int|
            0 <= j < 29 && j != 27 ==> !(#[trigger] quad_mesh_trace(base, tex_scale_bits)[j]
                matches Cmd::BufferData { target: BufferTarget::ElementArray, .. }),
{
    let trace = quad_mesh_trace(base, tex_scale_bits);
    lemma_attach_no_element_upload(
        base,
        (base + 1) as u64,
        quad_position_words(),
        seq![VertexAttrib { location: 0, components: 3, normalized: false }],
    );
    lemma_attach_no_element_upload(
        base,
        (base + 2) as u64,
        quad_normal_words(),
        seq![VertexAttrib { location: 1, components: 3, normalized: false }],
    );
    lemma_attach_no_element_upload(
        base,
        (base + 3) as u64,
        quad_texcoord_words(tex_scale_bits),
        seq![VertexAttrib { location: 2, components: 2, normalized: false }],
    );
    assert forall|j: int|
        0 <= j < 29 && j != 27 implies !(#[trigger] trace[j] matches Cmd::BufferData {
        target: BufferTarget::ElementArray,
        ..
    }) by {}
}

/// Attaching a vertex buffer to a vertex array never uploads to the
/// element-array target, whatever data and attributes it carries.
proof fn lemma_attach_no_element_upload(
    vao: u64,
    vbo: u64,
    data: Seq<u32>,
    attribs: Seq<VertexAttrib>,
)
    requires
        attribs.len() == 1,
    ensures
        vao_attach_trace(vao, vbo, data, attribs).len() == 8,
        forall|j: int|
            0 <= j < 8 ==> !(#[trigger] vao_attach_trace(vao, vbo, data, attribs)[j]
                matches Cmd::BufferData { target: BufferTarget::ElementArray, .. }),
{
    let trace = vao_attach_trace(vao, vbo, data, attribs);
    assert(crate::vbo::attrib_trace(attribs) == crate::vbo::attrib_trace(attribs.drop_last())
        + crate::vbo::attrib_pair(attribs.last()));
    assert(attribs.drop_last().len() == 0);
    assert(trace =~= seq![
            Cmd::BindVertexArray { handle: vao },
            Cmd::GenBuffer { handle: vbo },
            Cmd::BindBuffer { target: BufferTarget::Array, handle: vbo },
            Cmd::BufferData {
                target: BufferTarget::Array,
                data,
                usage: BufferUsage::StaticDraw,
            },
            Cmd::VertexAttribPointer {
                location: attribs[0].location,
                components: attribs[0].components,
                normalized: attribs[0].normalized,
                stride: (attribs[0].components * 4) as u32,
            },
            Cmd::SetVertexAttribEnabled { location: attribs[0].location, enabled: true },
            Cmd::BindBuffer { target: BufferTarget::Array, handle: 0 },
            Cmd::BindVertexArray { handle: 0 },
        ]);
    assert forall|j: int|
        0 <= j < 8 implies !(#[trigger] trace[j] matches Cmd::BufferData {
        target: BufferTarget::ElementArray,
        ..
    }) by {}
}

} // verus!
