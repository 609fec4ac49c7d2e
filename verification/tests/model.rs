use imdrip::buffers;
use imdrip::command::{BufferTarget, BufferUsage, FilterMode, GlCommand, PrimitiveMode, ShaderKind, TextureTarget, WrapMode};
use imdrip::ebo::Ebo;
use imdrip::gl_model::GlModel;
use imdrip::material::{BasicMaterial, Material, MockMaterial};
use imdrip::mesh::DrawMode;
use imdrip::mesh_builder::MeshBuilder;
use imdrip::mesh_factory::{create_basic_quad_mesh, F32_ONE_BITS};
use imdrip::named_texture_bindings::NamedTextureBindings;
use imdrip::registry::MaterialRegistry;
use imdrip::shader::create_shader_from_parts;
use imdrip::shader_part::ShaderPart;
use imdrip::shader_program::ShaderProgram;
use imdrip::texture::{set_active_texture_unit, Texture};
use imdrip::texture_2d::Texture2D;
use imdrip::vao::Vao;
use imdrip::vbo::{VboConfig, Vbo, VertexAttrib};

fn element_uploads(gl: &GlModel) -> Vec<Vec<u32>> {
    let mut found = Vec::new();
    for cmd in gl.log.iter() {
        if let GlCommand::BufferData { target: BufferTarget::ElementArray, data, .. } = cmd {
            found.push(data.clone());
        }
    }
    found
}

#[test]
fn quad_index_order_is_fixed() {
    // The same index list must be uploaded whatever the texture scale.
    for scale_bits in [F32_ONE_BITS, 0x4000_0000u32, 0u32] {
        let mut gl = GlModel::new();
        let mesh = create_basic_quad_mesh(&mut gl, Material::Mock(MockMaterial), scale_bits);
        let uploads = element_uploads(&gl);
        assert_eq!(uploads.len(), 1);
        assert_eq!(uploads[0], vec![0u32, 1, 2, 0, 2, 3]);
        match mesh.draw_mode {
            DrawMode::Elements { elements_mode, vertices, .. } => {
                assert_eq!(elements_mode, PrimitiveMode::Triangles);
                assert_eq!(vertices, 6);
            }
            DrawMode::Arrays { .. } => panic!("quad mesh must be indexed"),
        }
    }
}

#[test]
fn quad_texcoords_follow_scale() {
    let scale = 0x4000_0000u32;
    let mut gl = GlModel::new();
    let _ = create_basic_quad_mesh(&mut gl, Material::Mock(MockMaterial), scale);
    let mut array_uploads = Vec::new();
    for cmd in gl.log.iter() {
        if let GlCommand::BufferData { target: BufferTarget::Array, data, .. } = cmd {
            array_uploads.push(data.clone());
        }
    }
    assert_eq!(array_uploads.len(), 3);
    assert_eq!(array_uploads[2], vec![0u32, scale, scale, scale, scale, 0, 0, 0]);
}

#[test]
fn wrappers_release_their_handles() {
    // The counting mock: every wrapper destroyed, nothing stays live.
    let mut gl = GlModel::new();
    let vao = Vao::new(&mut gl);
    let vbo = Vbo::new(&mut gl);
    let ebo = Ebo::new(&mut gl);
    let texture = Texture2D::new(&mut gl);
    let part = ShaderPart::new(&mut gl, ShaderKind::Vertex);
    let program = ShaderProgram::new(&mut gl);
    assert_eq!(gl.live.len(), 6);
    vao.destroy(&mut gl);
    vbo.destroy(&mut gl);
    ebo.destroy(&mut gl);
    texture.destroy(&mut gl);
    part.destroy(&mut gl);
    program.destroy(&mut gl);
    assert_eq!(gl.live.len(), 0);
}

#[test]
fn mesh_destroy_releases_everything() {
    let mut gl = GlModel::new();
    let mesh = create_basic_quad_mesh(&mut gl, Material::Mock(MockMaterial), F32_ONE_BITS);
    assert_eq!(gl.live.len(), 5);
    mesh.destroy(&mut gl);
    assert_eq!(gl.live.len(), 0);
}

#[test]
fn buffer_handles_are_fresh_and_nonzero() {
    let mut gl = GlModel::new();
    let a = buffers::create_buffer(&mut gl);
    let b = buffers::create_buffer(&mut gl);
    assert_ne!(a, 0);
    assert_ne!(b, 0);
    assert_ne!(a, b);
    buffers::delete_buffer(&mut gl, a);
    assert_eq!(gl.live, vec![b]);
}

#[test]
fn vbo_setup_trace_shape() {
    let mut gl = GlModel::new();
    let vbo = Vbo::new(&mut gl);
    let before = gl.log.len();
    let vbo = vbo.setup(
        &mut gl,
        VboConfig {
            data: vec![7, 8, 9],
            attribs: vec![VertexAttrib { location: 1, components: 3, normalized: false }],
        },
    );
    let tail = &gl.log[before..];
    assert_eq!(
        tail,
        &[
            GlCommand::BindBuffer { target: BufferTarget::Array, handle: vbo.handle },
            GlCommand::BufferData {
                target: BufferTarget::Array,
                data: vec![7, 8, 9],
                usage: BufferUsage::StaticDraw,
            },
            GlCommand::VertexAttribPointer {
                location: 1,
                components: 3,
                normalized: false,
                stride: 12,
            },
            GlCommand::SetVertexAttribEnabled { location: 1, enabled: true },
            GlCommand::BindBuffer { target: BufferTarget::Array, handle: 0 },
        ]
    );
}

#[test]
fn builder_without_indices_draws_arrays() {
    let mut gl = GlModel::new();
    let builder = MeshBuilder::new(&mut gl);
    let builder = builder.set_primitive_mode(PrimitiveMode::TriangleStrip);
    let builder = builder.set_vertex_count(4);
    let builder = builder.set_material(Material::Mock(MockMaterial));
    let mesh = builder.build();
    match mesh.draw_mode {
        DrawMode::Arrays { array_mode, vertices } => {
            assert_eq!(array_mode, PrimitiveMode::TriangleStrip);
            assert_eq!(vertices, 4);
        }
        DrawMode::Elements { .. } => panic!("no index buffer was set"),
    }
}

#[test]
fn active_texture_unit_rejects_out_of_range() {
    let mut gl = GlModel::new();
    let before = gl.log.len();
    let r = set_active_texture_unit(&mut gl, 16);
    assert!(r.is_err());
    assert_eq!(gl.log.len(), before);
    let r = set_active_texture_unit(&mut gl, 3);
    assert!(r.is_ok());
    assert_eq!(gl.log.last(), Some(&GlCommand::ActiveTexture { unit: 3 }));
}

#[test]
fn texture_setup_bracket() {
    let mut gl = GlModel::new();
    let texture = Texture2D::new(&mut gl);
    let before = gl.log.len();
    let texture = texture.setup(
        &mut gl,
        WrapMode::Repeat,
        WrapMode::Repeat,
        FilterMode::Nearest,
        FilterMode::Nearest,
    );
    let tail = &gl.log[before..];
    assert_eq!(tail.len(), 6);
    assert_eq!(
        tail[0],
        GlCommand::BindTexture {
            tex_target: TextureTarget::TwoDimensional,
            handle: texture.handle(),
        }
    );
    assert_eq!(
        tail[5],
        GlCommand::BindTexture { tex_target: TextureTarget::TwoDimensional, handle: 0 }
    );
}

#[test]
fn shader_setup_emits_compile_link_and_stage_cleanup() {
    let mut gl = GlModel::new();
    let program = create_shader_from_parts(&mut gl, "vertex source", "fragment source");
    // The stages are created, compiled, attached, then released.
    let mut compiles = 0;
    let mut links = 0;
    let mut deletes = 0;
    for cmd in gl.log.iter() {
        match cmd {
            GlCommand::CompileShader { .. } => compiles += 1,
            GlCommand::LinkProgram { .. } => links += 1,
            GlCommand::DeleteShader { .. } => deletes += 1,
            _ => {}
        }
    }
    assert_eq!(compiles, 2);
    assert_eq!(links, 1);
    assert_eq!(deletes, 2);
    // Only the program object stays allocated.
    assert_eq!(gl.live, vec![program.handle]);
}

#[test]
fn compile_and_link_outcomes() {
    assert_eq!(ShaderPart::compile_log(1, String::from("log")), None);
    assert_eq!(ShaderPart::compile_log(0, String::from("bad")), Some(String::from("bad")));
    assert_eq!(ShaderPart::compile_outcome(1, String::from("log")), Ok(()));
    assert_eq!(ShaderPart::compile_outcome(0, String::from("bad")), Err(String::from("bad")));
    assert_eq!(ShaderProgram::link_log(1, String::from("x")), None);
    assert_eq!(ShaderProgram::validate_log(0, String::from("v")), Some(String::from("v")));
    assert_eq!(
        ShaderProgram::link_outcome(1, String::from("l"), 1, String::from("v")),
        Ok(())
    );
    assert_eq!(
        ShaderProgram::link_outcome(0, String::from("l"), 1, String::from("v")),
        Err(String::from("l"))
    );
    assert_eq!(
        ShaderProgram::link_outcome(1, String::from("l"), 0, String::from("v")),
        Err(String::from("v"))
    );
}

#[test]
fn registry_insert_and_lookup() {
    let mut gl = GlModel::new();
    let mut registry = MaterialRegistry::new();
    assert!(registry.get_clone_ref("quad").is_none());
    let program = ShaderProgram::new(&mut gl);
    let first_handle = program.handle;
    registry.insert_basic("quad", program);
    match registry.get_clone_ref("quad") {
        Some(Material::Basic(b)) => assert_eq!(b.shader_program.handle, first_handle),
        _ => panic!("expected the basic material under its name"),
    }
    // Inserting under the same name replaces the entry.
    let program = ShaderProgram::new(&mut gl);
    let second_handle = program.handle;
    registry.insert("quad", Material::Basic(BasicMaterial::new(program)));
    assert_eq!(registry.material_map.len(), 1);
    match registry.get_clone_ref("quad") {
        Some(Material::Basic(b)) => assert_eq!(b.shader_program.handle, second_handle),
        _ => panic!("expected the replacement under the same name"),
    }
    let texture = Texture2D::new(&mut gl);
    let program = ShaderProgram::new(&mut gl);
    registry.insert_2d_textured("image", program, texture);
    match registry.get_clone_ref("image") {
        Some(Material::Textured(t)) => assert_eq!(t.textures.len(), 1),
        _ => panic!("expected the textured material under its name"),
    }
}

#[test]
fn named_bindings_add_get_activate() {
    let mut gl = GlModel::new();
    let mut bindings = NamedTextureBindings::new();
    assert!(!bindings.has_unit("diffuse"));
    bindings.add("diffuse", 0);
    bindings.add("normal_map", 2);
    assert!(bindings.has_unit("diffuse"));
    assert_eq!(bindings.get("normal_map"), Some(2));
    assert_eq!(bindings.get("missing"), None);
    // Replacing a name keeps names unique.
    bindings.add("diffuse", 5);
    assert_eq!(bindings.get("diffuse"), Some(5));
    assert_eq!(bindings.iter().len(), 2);
    assert!(bindings.activate(&mut gl, "missing").is_err());
    assert!(bindings.activate(&mut gl, "normal_map").is_ok());
    assert_eq!(gl.log.last(), Some(&GlCommand::ActiveTexture { unit: 2 }));
    bindings.add("overflow", 99);
    assert!(bindings.activate(&mut gl, "overflow").is_err());
}

#[test]
fn named_bindings_from_latest_wins() {
    let kvs = vec![
        (String::from("a"), 1u32),
        (String::from("b"), 2u32),
        (String::from("a"), 3u32),
    ];
    let mut bindings = NamedTextureBindings::from(kvs);
    assert_eq!(bindings.get("a"), Some(3));
    assert_eq!(bindings.get("b"), Some(2));
}

#[test]
fn vao_setup_attaches_one_buffer_and_unbinds() {
    let mut gl = GlModel::new();
    let vao = Vao::new(&mut gl);
    let before = gl.log.len();
    let (vao, vbo) = vao.setup(
        &mut gl,
        VboConfig {
            data: vec![1, 2],
            attribs: vec![VertexAttrib { location: 0, components: 2, normalized: false }],
        },
    );
    assert_eq!(gl.live.len(), 2);
    assert_eq!(gl.log[before], GlCommand::BindVertexArray { handle: vao.handle });
    assert_eq!(gl.log[before + 1], GlCommand::GenBuffer { handle: vbo.handle });
    assert_eq!(gl.log.last(), Some(&GlCommand::BindVertexArray { handle: 0 }));
}

#[test]
fn texture_parameters_and_buffer_usage_hints() {
    let mut gl = GlModel::new();
    let mut texture = Texture::new(&mut gl, TextureTarget::TwoDimensional);
    texture.set_wrap_r(&mut gl, WrapMode::ClampToEdge);
    assert_eq!(
        gl.log.last(),
        Some(&GlCommand::SetWrapR {
            tex_target: TextureTarget::TwoDimensional,
            wrap: WrapMode::ClampToEdge,
        })
    );
    let mut vbo = Vbo::new(&mut gl);
    vbo.copy_data(&mut gl, vec![5], BufferUsage::DynamicDraw);
    assert_eq!(
        gl.log.last(),
        Some(&GlCommand::BufferData {
            target: BufferTarget::Array,
            data: vec![5],
            usage: BufferUsage::DynamicDraw,
        })
    );
    let mut ebo = Ebo::new(&mut gl);
    ebo.copy_data(&mut gl, vec![0, 1], BufferUsage::StreamDraw);
    assert_eq!(
        gl.log.last(),
        Some(&GlCommand::BufferData {
            target: BufferTarget::ElementArray,
            data: vec![0, 1],
            usage: BufferUsage::StreamDraw,
        })
    );
    texture.destroy(&mut gl);
    vbo.destroy(&mut gl);
    ebo.destroy(&mut gl);
    assert_eq!(gl.live.len(), 0);
}
