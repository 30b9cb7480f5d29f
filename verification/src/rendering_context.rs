//! The graphics context: its bind state, the commands queued for the driver,
//! and the rules that turn a driver's answers into handles or errors.

use vstd::prelude::*;

verus! {

/// The two kinds of buffer a context can bind.
#[derive(Clone, Copy, PartialEq, Eq, Structural, Debug)]
pub enum BufferKind {
    ArrayBuffer,
    ElementArrayBuffer,
}

/// The two shader stages.
#[derive(Clone, Copy, PartialEq, Eq, Structural, Debug)]
pub enum ShaderKind {
    Vertex,
    Fragment,
}

/// A buffer that the driver allocated.
#[derive(Clone, Copy, PartialEq, Eq, Structural, Debug)]
pub struct BufferHandle {
    pub id: u32,
}

/// A shader object that the driver created.
#[derive(Clone, Copy, PartialEq, Eq, Structural, Debug)]
pub struct ShaderHandle {
    pub id: u32,
}

/// A program object that the driver created.
#[derive(Clone, Copy, PartialEq, Eq, Structural, Debug)]
pub struct ProgramHandle {
    pub id: u32,
}

/// The slot of a uniform in a linked program.
#[derive(Clone, Copy, PartialEq, Eq, Structural, Debug)]
pub struct UniformHandle {
    pub id: u32,
}

/// The two matrices a program takes.
#[derive(Clone, Copy, PartialEq, Eq, Structural, Debug)]
pub enum UniformKind {
    Projection,
    ModelView,
}

/// The driver's number for the target of vertex-attribute buffers.
pub const ARRAY_BUFFER: u32 = 34962;

/// The driver's number for the target of index buffers.
pub const ELEMENT_ARRAY_BUFFER: u32 = 34963;

/// The driver's number for the vertex stage.
pub const VERTEX_SHADER: u32 = 35633;

/// The driver's number for the fragment stage.
pub const FRAGMENT_SHADER: u32 = 35632;

/// The driver's number for 32-bit float components.
pub const FLOAT: u32 = 5126;

/// The driver's number for unsigned 16-bit indices.
pub const UNSIGNED_SHORT: u32 = 5123;

/// The driver's number for the primitive that takes three indices per triangle.
pub const TRIANGLES: u32 = 4;

/// The driver's number for contents set once and read many times.
pub const STATIC_DRAW: u32 = 35044;

/// The driver's number for the depth-test capability.
pub const DEPTH_TEST: u32 = 2929;

/// The driver's number for pass where the incoming depth is at most the stored one.
pub const LEQUAL: u32 = 515;

/// The driver's number for the colour plane in a clear mask.
pub const COLOR_BUFFER_BIT: u32 = 16384;

/// The driver's number for the depth plane in a clear mask.
pub const DEPTH_BUFFER_BIT: u32 = 256;

/// Reads `web_sys::WebGlRenderingContext::ARRAY_BUFFER`, which that crate
/// defines as the number 34962. Nothing here proves that value: it is
/// taken from the source of that crate.
#[verifier::external_body]
fn gl_array_buffer() -> (r: u32)
    ensures
        r == ARRAY_BUFFER,
{
    web_sys::WebGlRenderingContext::ARRAY_BUFFER
}

/// Reads `web_sys::WebGlRenderingContext::ELEMENT_ARRAY_BUFFER`, which that crate
/// defines as the number 34963. Nothing here proves that value: it is
/// taken from the source of that crate.
#[verifier::external_body]
fn gl_element_array_buffer() -> (r: u32)
    ensures
        r == ELEMENT_ARRAY_BUFFER,
{
    web_sys::WebGlRenderingContext::ELEMENT_ARRAY_BUFFER
}

/// Reads `web_sys::WebGlRenderingContext::VERTEX_SHADER`, which that crate
/// defines as the number 35633. Nothing here proves that value: it is
/// taken from the source of that crate.
#[verifier::external_body]
fn gl_vertex_shader() -> (r: u32)
    ensures
        r == VERTEX_SHADER,
{
    web_sys::WebGlRenderingContext::VERTEX_SHADER
}

/// Reads `web_sys::WebGlRenderingContext::FRAGMENT_SHADER`, which that crate
/// defines as the number 35632. Nothing here proves that value: it is
/// taken from the source of that crate.
#[verifier::external_body]
fn gl_fragment_shader() -> (r: u32)
    ensures
        r == FRAGMENT_SHADER,
{
    web_sys::WebGlRenderingContext::FRAGMENT_SHADER
}

/// Reads `web_sys::WebGlRenderingContext::FLOAT`, which that crate
/// defines as the number 5126. Nothing here proves that value: it is
/// taken from the source of that crate.
#[verifier::external_body]
pub(crate) fn gl_float() -> (r: u32)
    ensures
        r == FLOAT,
{
    web_sys::WebGlRenderingContext::FLOAT
}

/// Reads `web_sys::WebGlRenderingContext::STATIC_DRAW`, which that crate
/// defines as the number 35044. Nothing here proves that value: it is
/// taken from the source of that crate.
#[verifier::external_body]
pub(crate) fn gl_static_draw() -> (r: u32)
    ensures
        r == STATIC_DRAW,
{
    web_sys::WebGlRenderingContext::STATIC_DRAW
}

/// Reads `web_sys::WebGlRenderingContext::UNSIGNED_SHORT`, which that crate
/// defines as the number 5123. Nothing here proves that value: it is
/// taken from the source of that crate.
#[verifier::external_body]
pub(crate) fn gl_unsigned_short() -> (r: u32)
    ensures
        r == UNSIGNED_SHORT,
{
    web_sys::WebGlRenderingContext::UNSIGNED_SHORT
}

/// Reads `web_sys::WebGlRenderingContext::TRIANGLES`, which that crate
/// defines as the number 4. Nothing here proves that value: it is
/// taken from the source of that crate.
#[verifier::external_body]
pub(crate) fn gl_triangles() -> (r: u32)
    ensures
        r == TRIANGLES,
{
    web_sys::WebGlRenderingContext::TRIANGLES
}

/// Reads `web_sys::WebGlRenderingContext::DEPTH_TEST`, which that crate
/// defines as the number 2929. Nothing here proves that value: it is
/// taken from the source of that crate.
#[verifier::external_body]
pub(crate) fn gl_depth_test() -> (r: u32)
    ensures
        r == DEPTH_TEST,
{
    web_sys::WebGlRenderingContext::DEPTH_TEST
}

/// Reads `web_sys::WebGlRenderingContext::LEQUAL`, which that crate
/// defines as the number 515. Nothing here proves that value: it is
/// taken from the source of that crate.
#[verifier::external_body]
pub(crate) fn gl_lequal() -> (r: u32)
    ensures
        r == LEQUAL,
{
    web_sys::WebGlRenderingContext::LEQUAL
}

/// Reads `web_sys::WebGlRenderingContext::COLOR_BUFFER_BIT`, which that crate
/// defines as the number 16384. Nothing here proves that value: it is
/// taken from the source of that crate.
#[verifier::external_body]
pub(crate) fn gl_color_buffer_bit() -> (r: u32)
    ensures
        r == COLOR_BUFFER_BIT,
{
    web_sys::WebGlRenderingContext::COLOR_BUFFER_BIT
}

/// Reads `web_sys::WebGlRenderingContext::DEPTH_BUFFER_BIT`, which that crate
/// defines as the number 256. Nothing here proves that value: it is
/// taken from the source of that crate.
#[verifier::external_body]
pub(crate) fn gl_depth_buffer_bit() -> (r: u32)
    ensures
        r == DEPTH_BUFFER_BIT,
{
    web_sys::WebGlRenderingContext::DEPTH_BUFFER_BIT
}


/// What a buffer of a cube holds.
#[derive(Clone, Copy, PartialEq, Eq, Structural, Debug)]
pub enum BufferRole {
    Vertices,
    Colors,
    Indices,
}

/// How the elements of a buffer lie in the memory of the graphics card.
#[derive(Clone, Copy, PartialEq, Eq, Structural, Debug)]
pub enum ElementType {
    /// 32-bit floats: vertex attributes.
    Float32,
    /// Unsigned 16-bit integers: indices.
    Uint16,
}

/// The elements that a kind of buffer holds.
pub open spec fn element_type_of(kind: BufferKind) -> ElementType {
    match kind {
        BufferKind::ArrayBuffer => ElementType::Float32,
        BufferKind::ElementArrayBuffer => ElementType::Uint16,
    }
}

/// The driver's number for a kind of buffer.
pub open spec fn buffer_target(kind: BufferKind) -> u32 {
    match kind {
        BufferKind::ArrayBuffer => ARRAY_BUFFER,
        BufferKind::ElementArrayBuffer => ELEMENT_ARRAY_BUFFER,
    }
}

/// The driver's number for a shader stage.
pub open spec fn shader_stage(kind: ShaderKind) -> u32 {
    match kind {
        ShaderKind::Vertex => VERTEX_SHADER,
        ShaderKind::Fragment => FRAGMENT_SHADER,
    }
}

pub fn get_buffer_type(kind: BufferKind) -> (target: u32)
    ensures
        target == buffer_target(kind),
{
    match kind {
        BufferKind::ArrayBuffer => gl_array_buffer(),
        BufferKind::ElementArrayBuffer => gl_element_array_buffer(),
    }
}

pub fn get_element_type(kind: BufferKind) -> (element: ElementType)
    ensures
        element == element_type_of(kind),
{
    match kind {
        BufferKind::ArrayBuffer => ElementType::Float32,
        BufferKind::ElementArrayBuffer => ElementType::Uint16,
    }
}

pub fn get_shader_type(kind: ShaderKind) -> (stage: u32)
    ensures
        stage == shader_stage(kind),
{
    match kind {
        ShaderKind::Vertex => gl_vertex_shader(),
        ShaderKind::Fragment => gl_fragment_shader(),
    }
}

/// One primitive operation of the context, with every argument it is issued
/// with. Whoever holds the real context performs them in order.
#[allow(inconsistent_fields)]
#[derive(Clone, Copy, PartialEq, Eq, Debug)]
pub enum GlCommand {
    /// Make `buffer` the active buffer of `target`.
    BindBuffer { target: u32, buffer: BufferHandle },
    /// Leave `target` without an active buffer.
    UnbindBuffer { target: u32 },
    /// Copy all `length` elements of `buffer`, which is bound to `target`,
    /// into the memory of the graphics card, each as an `element`. The
    /// elements are those that the cube number `instance` holds as `role`.
    BufferData {
        target: u32,
        buffer: BufferHandle,
        element: ElementType,
        length: usize,
        usage: u32,
        instance: usize,
        role: BufferRole,
    },
    /// Describe how the attribute at `location` reads the bound array buffer.
    VertexAttribPointer {
        location: u32,
        size: i32,
        data_type: u32,
        normalized: bool,
        stride: i32,
        offset: i32,
    },
    EnableVertexAttribArray { location: u32 },
    UseProgram { program: ProgramHandle },
    /// Hand the chosen matrix of the cube number `instance` to the uniform
    /// at `location`, not transposed.
    UniformMatrix4 { location: UniformHandle, instance: usize, matrix: UniformKind },
    DrawElements { mode: u32, count: i32, data_type: u32, offset: i32 },
    /// The colour to clear to; each channel is 0 or 1.
    ClearColor { red: u8, green: u8, blue: u8, alpha: u8 },
    /// The depth to clear to, 0 or 1.
    ClearDepth { depth: u8 },
    Enable { capability: u32 },
    DepthFunc { func: u32 },
    Clear { mask: u32 },
    /// Give the buffer back to the driver.
    DeleteBuffer { buffer: BufferHandle },
    /// Give the program back to the driver.
    DeleteProgram { program: ProgramHandle },
}

/// What the driver refused to create.
#[derive(Clone, Copy, PartialEq, Eq, Structural, Debug)]
pub enum Resource {
    Buffer,
    Shader,
    Program,
}

/// Why building the scene failed.
#[derive(Clone, PartialEq, Eq, Debug)]
pub enum GlError {
    /// The driver refused an allocation.
    ResourceCreation { resource: Resource },
    /// A stage did not compile; `log` is the driver's diagnostic.
    ShaderCompile { stage: ShaderKind, log: String },
    /// The program did not link; `log` is the driver's diagnostic.
    ProgramLink { log: String },
    /// The linked program has no uniform of that name.
    UniformNotFound { name: String },
    /// The platform offers no drawing surface or no context for it.
    SurfaceAcquisition,
}

/// A `GlError` with its texts as sequences of characters.
pub enum GlErrorView {
    ResourceCreation { resource: Resource },
    ShaderCompile { stage: ShaderKind, log: Seq<char> },
    ProgramLink { log: Seq<char> },
    UniformNotFound { name: Seq<char> },
    SurfaceAcquisition,
}

impl View for GlError {
    type V = GlErrorView;

    open spec fn view(&self) -> GlErrorView {
        match *self {
            GlError::ResourceCreation { resource } => GlErrorView::ResourceCreation { resource },
            GlError::ShaderCompile { stage, log } => GlErrorView::ShaderCompile { stage, log: log@ },
            GlError::ProgramLink { log } => GlErrorView::ProgramLink { log: log@ },
            GlError::UniformNotFound { name } => GlErrorView::UniformNotFound { name: name@ },
            GlError::SurfaceAcquisition => GlErrorView::SurfaceAcquisition,
        }
    }
}

/// The diagnostic reported for a stage whose log the driver withholds.
pub open spec fn shader_fallback_log() -> Seq<char> {
    "Unknown error creating shader"@
}

/// The diagnostic reported for a program whose log the driver withholds.
pub open spec fn program_fallback_log() -> Seq<char> {
    "Unknown error creating shader program"@
}

/// The driver's diagnostic, or `fallback` where it gave none.
pub open spec fn log_or(log: Option<String>, fallback: Seq<char>) -> Seq<char> {
    match log {
        Some(text) => text@,
        None => fallback,
    }
}

/// What compiling a stage comes to, given the driver's answers: the shader
/// object, if one was created; the compile status, if it is a boolean; the
/// diagnostic log, if there is one.
pub open spec fn compile_outcome(
    kind: ShaderKind,
    created: Option<ShaderHandle>,
    status: Option<bool>,
    log: Option<String>,
) -> Result<ShaderHandle, GlErrorView> {
    match created {
        None => Err(GlErrorView::ResourceCreation { resource: Resource::Shader }),
        Some(shader) => if status == Some(true) {
            Ok(shader)
        } else {
            Err(GlErrorView::ShaderCompile { stage: kind, log: log_or(log, shader_fallback_log()) })
        },
    }
}

/// What linking comes to, given the driver's answers.
pub open spec fn link_outcome(
    created: Option<ProgramHandle>,
    status: Option<bool>,
    log: Option<String>,
) -> Result<ProgramHandle, GlErrorView> {
    match created {
        None => Err(GlErrorView::ResourceCreation { resource: Resource::Program }),
        Some(program) => if status == Some(true) {
            Ok(program)
        } else {
            Err(GlErrorView::ProgramLink { log: log_or(log, program_fallback_log()) })
        },
    }
}

/// A result of the library with its error taken by its view.
pub open spec fn result_view<T>(r: Result<T, GlError>) -> Result<T, GlErrorView> {
    match r {
        Ok(value) => Ok(value),
        Err(e) => Err(e@),
    }
}

pub open spec fn bind_command(kind: BufferKind, buffer: BufferHandle) -> GlCommand {
    GlCommand::BindBuffer { target: buffer_target(kind), buffer }
}

pub open spec fn unbind_command(kind: BufferKind) -> GlCommand {
    GlCommand::UnbindBuffer { target: buffer_target(kind) }
}

pub open spec fn use_program_command(program: ProgramHandle) -> GlCommand {
    GlCommand::UseProgram { program }
}

/// The other kind of buffer.
pub open spec fn other_kind(kind: BufferKind) -> BufferKind {
    match kind {
        BufferKind::ArrayBuffer => BufferKind::ElementArrayBuffer,
        BufferKind::ElementArrayBuffer => BufferKind::ArrayBuffer,
    }
}

/// The context as the library sees it: the commands issued and not yet
/// performed, and what they leave bound.
pub struct RenderingContext {
    /// Issued and not yet performed, oldest first.
    pub commands: Vec<GlCommand>,
    pub array_buffer: Option<BufferHandle>,
    pub element_array_buffer: Option<BufferHandle>,
    pub program: Option<ProgramHandle>,
}

impl RenderingContext {
    /// The active buffer of a kind.
    pub open spec fn bound(&self, kind: BufferKind) -> Option<BufferHandle> {
        match kind {
            BufferKind::ArrayBuffer => self.array_buffer,
            BufferKind::ElementArrayBuffer => self.element_array_buffer,
        }
    }

    pub fn new() -> (ctx: Self)
        ensures
            ctx.commands@ == Seq::<GlCommand>::empty(),
            ctx.array_buffer is None,
            ctx.element_array_buffer is None,
            ctx.program is None,
    {
        RenderingContext {
            commands: Vec::new(),
            array_buffer: None,
            element_array_buffer: None,
            program: None,
        }
    }

    /// The context of a drawing surface, if the platform has a surface and a
    /// context for it.
    pub fn on_surface(surface: bool, context: bool) -> (r: Result<Self, GlError>)
        ensures
            r is Ok <==> surface && context,
            r is Ok ==> r->Ok_0.commands@ == Seq::<GlCommand>::empty() && r->Ok_0.array_buffer
                is None && r->Ok_0.element_array_buffer is None && r->Ok_0.program is None,
            r is Err ==> r->Err_0 == GlError::SurfaceAcquisition,
    {
        if surface && context {
            Ok(RenderingContext::new())
        } else {
            Err(GlError::SurfaceAcquisition)
        }
    }

    pub fn bind_buffer(&mut self, kind: BufferKind, buffer: BufferHandle)
        ensures
            final(self).commands@ == old(self).commands@.push(bind_command(kind, buffer)),
            final(self).bound(kind) == Some(buffer),
            final(self).bound(other_kind(kind)) == old(self).bound(other_kind(kind)),
            final(self).program == old(self).program,
    {
        let target: u32 = get_buffer_type(kind);
        self.commands.push(GlCommand::BindBuffer { target, buffer });
        match kind {
            BufferKind::ArrayBuffer => {
                self.array_buffer = Some(buffer);
            },
            BufferKind::ElementArrayBuffer => {
                self.element_array_buffer = Some(buffer);
            },
        }
    }

    pub fn clear_buffer(&mut self, kind: BufferKind)
        ensures
            final(self).commands@ == old(self).commands@.push(unbind_command(kind)),
            final(self).bound(kind) is None,
            final(self).bound(other_kind(kind)) == old(self).bound(other_kind(kind)),
            final(self).program == old(self).program,
    {
        let target: u32 = get_buffer_type(kind);
        self.commands.push(GlCommand::UnbindBuffer { target });
        match kind {
            BufferKind::ArrayBuffer => {
                self.array_buffer = None;
            },
            BufferKind::ElementArrayBuffer => {
                self.element_array_buffer = None;
            },
        }
    }

    pub fn bind_array_buffer(&mut self, buffer: BufferHandle)
        ensures
            final(self).commands@ == old(self).commands@.push(
                bind_command(BufferKind::ArrayBuffer, buffer),
            ),
            final(self).array_buffer == Some(buffer),
            final(self).element_array_buffer == old(self).element_array_buffer,
            final(self).program == old(self).program,
    {
        self.bind_buffer(BufferKind::ArrayBuffer, buffer);
    }

    pub fn clear_array_buffer(&mut self)
        ensures
            final(self).commands@ == old(self).commands@.push(
                unbind_command(BufferKind::ArrayBuffer),
            ),
            final(self).array_buffer is None,
            final(self).element_array_buffer == old(self).element_array_buffer,
            final(self).program == old(self).program,
    {
        self.clear_buffer(BufferKind::ArrayBuffer);
    }

    pub fn use_program(&mut self, program: ProgramHandle)
        ensures
            final(self).commands@ == old(self).commands@.push(use_program_command(program)),
            final(self).program == Some(program),
            final(self).array_buffer == old(self).array_buffer,
            final(self).element_array_buffer == old(self).element_array_buffer,
    {
        self.commands.push(GlCommand::UseProgram { program });
        self.program = Some(program);
    }

    /// Hands out what was issued since the last call, oldest first, and
    /// leaves nothing pending. What is bound stays bound.
    pub fn take_commands(&mut self) -> (issued: Vec<GlCommand>)
        ensures
            issued@ == old(self).commands@,
            final(self).commands@ == Seq::<GlCommand>::empty(),
            final(self).array_buffer == old(self).array_buffer,
            final(self).element_array_buffer == old(self).element_array_buffer,
            final(self).program == old(self).program,
    {
        let mut issued: Vec<GlCommand> = Vec::new();
        core::mem::swap(&mut self.commands, &mut issued);
        issued
    }

    /// The buffer that the driver allocated, or the refusal.
    pub fn create_buffer(&self, allocated: Option<BufferHandle>) -> (r: Result<BufferHandle, GlError>)
        ensures
            match allocated {
                Some(buffer) => r == Ok::<BufferHandle, GlError>(buffer),
                None => r is Err && r->Err_0 == (GlError::ResourceCreation {
                    resource: Resource::Buffer,
                }),
            },
    {
        match allocated {
            Some(buffer) => Ok(buffer),
            None => Err(GlError::ResourceCreation { resource: Resource::Buffer }),
        }
    }

    /// Judges one compiled stage by the driver's answers.
    pub fn compile_shader(
        &self,
        kind: ShaderKind,
        created: Option<ShaderHandle>,
        status: Option<bool>,
        log: Option<String>,
    ) -> (r: Result<ShaderHandle, GlError>)
        ensures
            result_view(r) == compile_outcome(kind, created, status, log),
    {
        match created {
            None => Err(GlError::ResourceCreation { resource: Resource::Shader }),
            Some(shader) => {
                if status.unwrap_or(false) {
                    Ok(shader)
                } else {
                    let text = match log {
                        Some(text) => text,
                        None => "Unknown error creating shader".to_owned(),
                    };
                    Err(GlError::ShaderCompile { stage: kind, log: text })
                }
            },
        }
    }

    /// Judges the linked program by the driver's answers.
    pub fn link_program(
        &self,
        created: Option<ProgramHandle>,
        status: Option<bool>,
        log: Option<String>,
    ) -> (r: Result<ProgramHandle, GlError>)
        ensures
            result_view(r) == link_outcome(created, status, log),
    {
        match created {
            None => Err(GlError::ResourceCreation { resource: Resource::Program }),
            Some(program) => {
                if status.unwrap_or(false) {
                    Ok(program)
                } else {
                    let text = match log {
                        Some(text) => text,
                        None => "Unknown error creating shader program".to_owned(),
                    };
                    Err(GlError::ProgramLink { log: text })
                }
            },
        }
    }

    /// The program of two compiled stages and a link: the first failure in
    /// that order, or else the linked program.
    pub fn create_program(
        &self,
        vertex: Result<ShaderHandle, GlError>,
        fragment: Result<ShaderHandle, GlError>,
        linked: Result<ProgramHandle, GlError>,
    ) -> (r: Result<ProgramHandle, GlError>)
        ensures
            r == (match vertex {
                Err(e) => Err::<ProgramHandle, GlError>(e),
                Ok(_) => match fragment {
                    Err(e) => Err::<ProgramHandle, GlError>(e),
                    Ok(_) => linked,
                },
            }),
    {
        match vertex {
            Err(e) => Err(e),
            Ok(_) => match fragment {
                Err(e) => Err(e),
                Ok(_) => linked,
            },
        }
    }

    /// The slot of the uniform `name`, or the error that names it.
    pub fn get_uniform_location(&self, name: &str, found: Option<UniformHandle>) -> (r: Result<
        UniformHandle,
        GlError,
    >)
        ensures
            result_view(r) == (match found {
                Some(slot) => Ok::<UniformHandle, GlErrorView>(slot),
                None => Err::<UniformHandle, GlErrorView>(
                    GlErrorView::UniformNotFound { name: name@ },
                ),
            }),
    {
        match found {
            Some(slot) => Ok(slot),
            None => Err(GlError::UniformNotFound { name: name.to_owned() }),
        }
    }
}

}
