use vstd::prelude::*;

verus! {

/// Binding targets for buffer objects.
#[derive(Clone, Copy, Debug, PartialEq, Eq, Structural)]
pub enum BufferTarget {
    Array,
    ElementArray,
}

/// Usage hints handed to the driver together with buffer contents.
#[derive(Clone, Copy, Debug, PartialEq, Eq, Structural)]
pub enum BufferUsage {
    StaticDraw,
    DynamicDraw,
    StreamDraw,
}

/// Texture coordinate wrapping modes.
#[derive(Clone, Copy, Debug, PartialEq, Eq, Structural)]
pub enum WrapMode {
    Repeat,
    MirroredRepeat,
    ClampToEdge,
}

/// Texture sampling filters.
#[derive(Clone, Copy, Debug, PartialEq, Eq, Structural)]
pub enum FilterMode {
    Nearest,
    Linear,
}

/// Primitive kinds for draw calls.
#[derive(Clone, Copy, Debug, PartialEq, Eq, Structural)]
pub enum PrimitiveMode {
    Points,
    Lines,
    Triangles,
    TriangleStrip,
    TriangleFan,
}

/// Shader stage kinds.
#[derive(Clone, Copy, Debug, PartialEq, Eq, Structural)]
pub enum ShaderKind {
    Vertex,
    Fragment,
}

/// Texture binding targets.
#[derive(Clone, Copy, Debug, PartialEq, Eq, Structural)]
pub enum TextureTarget {
    TwoDimensional,
}

/// The mathematical shape of a list of recorded calls.
pub open spec fn cmd_views(s: Seq<GlCommand>) -> Seq<Cmd> {
    s.map_values(|c: GlCommand| c@)
}

/// Text handed to the driver (shader sources, uniform names) must be
/// free of interior NUL characters, since the driver takes C strings.
pub open spec fn no_interior_nul(s: Seq<char>) -> bool {
    forall|i: int| 0 <= i < s.len() ==> s[i] != '\0'
}

/// One driver call, as recorded in the command log. Handles are the
/// abstract names chosen by the model's allocator; handle 0 means
/// "no object" and unbinds the target.
#[derive(Clone, Debug, PartialEq, Eq)]
pub enum GlCommand {
    GenBuffer { handle: u64 },
    DeleteBuffer { handle: u64 },
    BindBuffer { target: BufferTarget, handle: u64 },
    BufferData { target: BufferTarget, data: Vec<u32>, usage: BufferUsage },
    GenVertexArray { handle: u64 },
    DeleteVertexArray { handle: u64 },
    BindVertexArray { handle: u64 },
    VertexAttribPointer { location: u32, components: u32, normalized: bool, stride: u32 },
    SetVertexAttribEnabled { location: u32, enabled: bool },
    CreateShader { handle: u64, kind: ShaderKind },
    ShaderSource { handle: u64, source: String },
    CompileShader { handle: u64 },
    DeleteShader { handle: u64 },
    CreateProgram { handle: u64 },
    AttachShader { program: u64, shader: u64 },
    LinkProgram { handle: u64 },
    ValidateProgram { handle: u64 },
    UseProgram { handle: u64 },
    DeleteProgram { handle: u64 },
    GenTexture { handle: u64 },
    DeleteTexture { handle: u64 },
    BindTexture { tex_target: TextureTarget, handle: u64 },
    ActiveTexture { unit: u32 },
    SetWrapR { tex_target: TextureTarget, wrap: WrapMode },
    SetWrapS { tex_target: TextureTarget, wrap: WrapMode },
    SetWrapT { tex_target: TextureTarget, wrap: WrapMode },
    SetFilterMin { tex_target: TextureTarget, filter: FilterMode },
    SetFilterMag { tex_target: TextureTarget, filter: FilterMode },
    TexImage2D { tex_target: TextureTarget, width: u32, height: u32, pixels: Vec<u8> },
    DrawArrays { mode: PrimitiveMode, first: i32, count: i32 },
    DrawElements { mode: PrimitiveMode, count: i32 },
    Uniform1i { program: u64, name: String, value: i32 },
    Uniform2i { program: u64, name: String, x: i32, y: i32 },
}

/// The mathematical shape of one driver call: buffer payloads become
/// sequences of words, pixel payloads sequences of bytes, and uniform
/// names sequences of characters. Contracts and the command-log view
/// speak in this vocabulary.
#[verifier::ext_equal]
pub enum Cmd {
    GenBuffer { handle: u64 },
    DeleteBuffer { handle: u64 },
    BindBuffer { target: BufferTarget, handle: u64 },
    BufferData { target: BufferTarget, data: Seq<u32>, usage: BufferUsage },
    GenVertexArray { handle: u64 },
    DeleteVertexArray { handle: u64 },
    BindVertexArray { handle: u64 },
    VertexAttribPointer { location: u32, components: u32, normalized: bool, stride: u32 },
    SetVertexAttribEnabled { location: u32, enabled: bool },
    CreateShader { handle: u64, kind: ShaderKind },
    ShaderSource { handle: u64, source: Seq<char> },
    CompileShader { handle: u64 },
    DeleteShader { handle: u64 },
    CreateProgram { handle: u64 },
    AttachShader { program: u64, shader: u64 },
    LinkProgram { handle: u64 },
    ValidateProgram { handle: u64 },
    UseProgram { handle: u64 },
    DeleteProgram { handle: u64 },
    GenTexture { handle: u64 },
    DeleteTexture { handle: u64 },
    BindTexture { tex_target: TextureTarget, handle: u64 },
    ActiveTexture { unit: u32 },
    SetWrapR { tex_target: TextureTarget, wrap: WrapMode },
    SetWrapS { tex_target: TextureTarget, wrap: WrapMode },
    SetWrapT { tex_target: TextureTarget, wrap: WrapMode },
    SetFilterMin { tex_target: TextureTarget, filter: FilterMode },
    SetFilterMag { tex_target: TextureTarget, filter: FilterMode },
    TexImage2D { tex_target: TextureTarget, width: u32, height: u32, pixels: Seq<u8> },
    DrawArrays { mode: PrimitiveMode, first: i32, count: i32 },
    DrawElements { mode: PrimitiveMode, count: i32 },
    Uniform1i { program: u64, name: Seq<char>, value: i32 },
    Uniform2i { program: u64, name: Seq<char>, x: i32, y: i32 },
}

impl View for GlCommand {
    type V = Cmd;

    open spec fn view(&self) -> Cmd {
        match self {
            GlCommand::GenBuffer { handle } => Cmd::GenBuffer { handle: *handle },
            GlCommand::DeleteBuffer { handle } => Cmd::DeleteBuffer { handle: *handle },
            GlCommand::BindBuffer { target, handle } => Cmd::BindBuffer {
                target: *target,
                handle: *handle,
            },
            GlCommand::BufferData { target, data, usage } => Cmd::BufferData {
                target: *target,
                data: data@,
                usage: *usage,
            },
            GlCommand::GenVertexArray { handle } => Cmd::GenVertexArray { handle: *handle },
            GlCommand::DeleteVertexArray { handle } => Cmd::DeleteVertexArray { handle: *handle },
            GlCommand::BindVertexArray { handle } => Cmd::BindVertexArray { handle: *handle },
            GlCommand::VertexAttribPointer { location, components, normalized, stride } => {
                Cmd::VertexAttribPointer {
                    location: *location,
                    components: *components,
                    normalized: *normalized,
                    stride: *stride,
                }
            },
            GlCommand::SetVertexAttribEnabled { location, enabled } => {
                Cmd::SetVertexAttribEnabled { location: *location, enabled: *enabled }
            },
            GlCommand::CreateShader { handle, kind } => Cmd::CreateShader {
                handle: *handle,
                kind: *kind,
            },
            GlCommand::ShaderSource { handle, source } => Cmd::ShaderSource {
                handle: *handle,
                source: source@,
            },
            GlCommand::CompileShader { handle } => Cmd::CompileShader { handle: *handle },
            GlCommand::DeleteShader { handle } => Cmd::DeleteShader { handle: *handle },
            GlCommand::CreateProgram { handle } => Cmd::CreateProgram { handle: *handle },
            GlCommand::AttachShader { program, shader } => Cmd::AttachShader {
                program: *program,
                shader: *shader,
            },
            GlCommand::LinkProgram { handle } => Cmd::LinkProgram { handle: *handle },
            GlCommand::ValidateProgram { handle } => Cmd::ValidateProgram { handle: *handle },
            GlCommand::UseProgram { handle } => Cmd::UseProgram { handle: *handle },
            GlCommand::DeleteProgram { handle } => Cmd::DeleteProgram { handle: *handle },
            GlCommand::GenTexture { handle } => Cmd::GenTexture { handle: *handle },
            GlCommand::DeleteTexture { handle } => Cmd::DeleteTexture { handle: *handle },
            GlCommand::BindTexture { tex_target, handle } => Cmd::BindTexture {
                tex_target: *tex_target,
                handle: *handle,
            },
            GlCommand::ActiveTexture { unit } => Cmd::ActiveTexture { unit: *unit },
            GlCommand::SetWrapR { tex_target, wrap } => Cmd::SetWrapR {
                tex_target: *tex_target,
                wrap: *wrap,
            },
            GlCommand::SetWrapS { tex_target, wrap } => Cmd::SetWrapS {
                tex_target: *tex_target,
                wrap: *wrap,
            },
            GlCommand::SetWrapT { tex_target, wrap } => Cmd::SetWrapT {
                tex_target: *tex_target,
                wrap: *wrap,
            },
            GlCommand::SetFilterMin { tex_target, filter } => Cmd::SetFilterMin {
                tex_target: *tex_target,
                filter: *filter,
            },
            GlCommand::SetFilterMag { tex_target, filter } => Cmd::SetFilterMag {
                tex_target: *tex_target,
                filter: *filter,
            },
            GlCommand::TexImage2D { tex_target, width, height, pixels } => Cmd::TexImage2D {
                tex_target: *tex_target,
                width: *width,
                height: *height,
                pixels: pixels@,
            },
            GlCommand::DrawArrays { mode, first, count } => Cmd::DrawArrays {
                mode: *mode,
                first: *first,
                count: *count,
            },
            GlCommand::DrawElements { mode, count } => Cmd::DrawElements {
                mode: *mode,
                count: *count,
            },
            GlCommand::Uniform1i { program, name, value } => Cmd::Uniform1i {
                program: *program,
                name: name@,
                value: *value,
            },
            GlCommand::Uniform2i { program, name, x, y } => Cmd::Uniform2i {
                program: *program,
                name: name@,
                x: *x,
                y: *y,
            },
        }
    }
}

} // verus!
