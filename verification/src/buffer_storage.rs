//! One array that lives on the graphics card: its handle, its kind, and the
//! data it is filled with, once and whole.

use vstd::prelude::*;
use crate::rendering_context::{
    bind_command, buffer_target, element_type_of, get_buffer_type, get_element_type,
    gl_static_draw, BufferHandle, BufferKind, BufferRole, GlCommand, GlError, RenderingContext,
    Resource, STATIC_DRAW,
};

verus! {

pub struct BufferStorage<T> {
    pub kind: BufferKind,
    pub buffer: BufferHandle,
    pub data: Vec<T>,
}

/// The three commands of an upload: bind the buffer to its own target, copy
/// all `length` elements, laid out as its kind has them, with the hint that
/// they are set once, and leave the array-buffer target unbound. The copy
/// names the cube and the role whose data it takes.
pub open spec fn upload_commands(
    kind: BufferKind,
    buffer: BufferHandle,
    length: usize,
    instance: usize,
    role: BufferRole,
) -> Seq<GlCommand> {
    seq![
        bind_command(kind, buffer),
        GlCommand::BufferData {
            target: buffer_target(kind),
            buffer,
            element: element_type_of(kind),
            length,
            usage: STATIC_DRAW,
            instance,
            role,
        },
        crate::rendering_context::unbind_command(BufferKind::ArrayBuffer),
    ]
}

impl<T> BufferStorage<T> {
    /// Takes the buffer that the driver allocated, if it did. Nothing is
    /// uploaded yet.
    pub fn new(
        ctx: &RenderingContext,
        allocated: Option<BufferHandle>,
        kind: BufferKind,
        data: Vec<T>,
    ) -> (r: Result<Self, GlError>)
        ensures
            match allocated {
                Some(buffer) => r is Ok && r->Ok_0.kind == kind && r->Ok_0.buffer == buffer
                    && r->Ok_0.data == data,
                None => r is Err && r->Err_0 == (GlError::ResourceCreation {
                    resource: Resource::Buffer,
                }),
            },
    {
        match ctx.create_buffer(allocated) {
            Ok(buffer) => Ok(BufferStorage { kind, buffer, data }),
            Err(e) => Err(e),
        }
    }

    /// Makes this buffer the active one of its kind.
    pub fn bind(&self, ctx: &mut RenderingContext)
        ensures
            final(ctx).commands@ == old(ctx).commands@.push(bind_command(self.kind, self.buffer)),
            final(ctx).bound(self.kind) == Some(self.buffer),
            final(ctx).bound(crate::rendering_context::other_kind(self.kind)) == old(ctx).bound(
                crate::rendering_context::other_kind(self.kind),
            ),
            final(ctx).program == old(ctx).program,
    {
        ctx.bind_buffer(self.kind, self.buffer);
    }

    /// Uploads the whole of the data, which the cube number `instance` holds
    /// as `role`. Afterwards no array buffer is bound; an
    /// index buffer stays bound to its own target.
    pub fn write_to_graphics_card(
        &self,
        ctx: &mut RenderingContext,
        instance: usize,
        role: BufferRole,
    )
        ensures
            final(ctx).commands@ == old(ctx).commands@ + upload_commands(
                self.kind,
                self.buffer,
                self.data.len(),
                instance,
                role,
            ),
            final(ctx).array_buffer is None,
            final(ctx).element_array_buffer == (match self.kind {
                BufferKind::ArrayBuffer => old(ctx).element_array_buffer,
                BufferKind::ElementArrayBuffer => Some(self.buffer),
            }),
            final(ctx).program == old(ctx).program,
    {
        self.bind(ctx);
        let target: u32 = get_buffer_type(self.kind);
        ctx.commands.push(
            GlCommand::BufferData {
                target,
                buffer: self.buffer,
                element: get_element_type(self.kind),
                length: self.data.len(),
                usage: gl_static_draw(),
                instance,
                role,
            },
        );
        ctx.clear_array_buffer();
        proof {
            assert(ctx.commands@ =~= old(ctx).commands@ + upload_commands(
                self.kind,
                self.buffer,
                self.data.len(),
                instance,
                role,
            ));
        }
    }
}

}
