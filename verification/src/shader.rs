use vstd::prelude::*;

use crate::command::{no_interior_nul, Cmd};
use crate::gl_model::GlModel;
use crate::shader_program::{shader_setup_trace, ShaderProgram};

verus! {

broadcast use vstd::set::group_set_axioms;

/// The fixed vertex shader: passes the quad corners through and hands
/// the texture coordinates on.
pub open spec fn quad_vertex_shader_src() -> Seq<char> {
    "#version 330 core
layout(location = 0) in vec3 position;
layout(location = 1) in vec3 normal;
layout(location = 2) in vec2 texture_coordinates;
out vec2 uv;
void main() {
    uv = texture_coordinates;
    gl_Position = vec4(position.x, position.z, 0, 1);
}
"@
}

/// The fixed fragment shader: samples the displayed texture.
pub open spec fn quad_fragment_shader_src() -> Seq<char> {
    "#version 330 core
in vec2 uv;
out vec4 color;
uniform sampler2D image_texture;
uniform ivec2 window_size;
void main() {
    color = texture(image_texture, uv);
}
"@
}

/// Both fixed shader sources are safe to hand to the driver.
pub proof fn lemma_shader_sources_wf()
    ensures
        no_interior_nul(quad_vertex_shader_src()),
        no_interior_nul(quad_fragment_shader_src()),
{
    reveal_strlit(
        "#version 330 core
layout(location = 0) in vec3 position;
layout(location = 1) in vec3 normal;
layout(location = 2) in vec2 texture_coordinates;
out vec2 uv;
void main() {
    uv = texture_coordinates;
    gl_Position = vec4(position.x, position.z, 0, 1);
}
",
    );
    reveal_strlit(
        "#version 330 core
in vec2 uv;
out vec4 color;
uniform sampler2D image_texture;
uniform ivec2 window_size;
void main() {
    color = texture(image_texture, uv);
}
",
    );
}

/// The fixed vertex shader source, as text.
pub fn quad_vertex_shader_source() -> (r: &'static str)
    ensures
        r@ == quad_vertex_shader_src(),
{
    "#version 330 core
layout(location = 0) in vec3 position;
layout(location = 1) in vec3 normal;
layout(location = 2) in vec2 texture_coordinates;
out vec2 uv;
void main() {
    uv = texture_coordinates;
    gl_Position = vec4(position.x, position.z, 0, 1);
}
"
}

/// The fixed fragment shader source, as text.
pub fn quad_fragment_shader_source() -> (r: &'static str)
    ensures
        r@ == quad_fragment_shader_src(),
{
    "#version 330 core
in vec2 uv;
out vec4 color;
uniform sampler2D image_texture;
uniform ivec2 window_size;
void main() {
    color = texture(image_texture, uv);
}
"
}

/// The calls that create a whole program: create the program object,
/// then the standard stage setup.
pub open spec fn create_shader_trace(
    program: u64,
    vert_src: Seq<char>,
    frag_src: Seq<char>,
) -> Seq<Cmd> {
    seq![Cmd::CreateProgram { handle: program }] + shader_setup_trace(
        program,
        (program + 1) as u64,
        (program + 2) as u64,
        vert_src,
        frag_src,
    )
}

/// Creates a program, compiles a vertex and a fragment stage from the
/// given sources, and links the program from them. Exactly one driver
/// object, the program, stays allocated.
pub fn create_shader_from_parts(gl: &mut GlModel, vert_source: &str, frag_source: &str) -> (r:
    ShaderProgram)
    requires
        old(gl).inv(),
        old(gl).can_alloc(3),
        no_interior_nul(vert_source@),
        no_interior_nul(frag_source@),
    ensures
        final(gl).inv(),
        r.handle == old(gl).next_handle,
        0 < r.handle,
        !old(gl).is_live(r.handle),
        final(gl).live_set() == old(gl).live_set().insert(r.handle),
        final(gl).next_handle == old(gl).next_handle + 3,
        final(gl).commands() == old(gl).commands() + create_shader_trace(
            r.handle,
            vert_source@,
            frag_source@,
        ),
{
    let program = ShaderProgram::new(gl);
    let program = program.setup(gl, vert_source, frag_source);
    proof {
        assert(final(gl).commands() =~= old(gl).commands() + create_shader_trace(
            program.handle,
            vert_source@,
            frag_source@,
        ));
    }
    program
}

} // verus!
