//! The one shader program that every cube is drawn with: its attribute
//! slots, their layout, and its two matrix uniforms.

use vstd::prelude::*;
pub use crate::rendering_context::UniformKind;
use crate::rendering_context::{
    gl_float, GlError, GlErrorView, ProgramHandle, RenderingContext, UniformHandle, FLOAT,
};

verus! {

/// The two per-vertex attributes.
#[derive(Clone, Copy, PartialEq, Eq, Structural, Debug)]
pub enum AttributeKind {
    Vertex,
    Color,
}

/// How an attribute reads its buffer.
#[derive(Clone, Copy, PartialEq, Eq, Structural, Debug)]
pub struct AttributeOptions {
    pub size: i32,
    pub data_type: u32,
    pub normalized: bool,
    pub stride: i32,
    pub offset: i32,
}

/// Tightly packed floats, `size` of them per vertex, taken as they are.
pub open spec fn packed_floats(size: i32) -> AttributeOptions {
    AttributeOptions { size, data_type: FLOAT, normalized: false, stride: 0, offset: 0 }
}

impl AttributeOptions {
    pub fn floats_with_size(size: i32) -> (options: Self)
        ensures
            options == packed_floats(size),
    {
        AttributeOptions { size, data_type: gl_float(), normalized: false, stride: 0, offset: 0 }
    }
}

/// An attribute as resolved in the linked program. A negative location (the
/// driver answers -1) says that the program does not use it; that is no
/// error, and nothing is then set up for it.
#[derive(Clone, Copy, PartialEq, Eq, Structural, Debug)]
pub struct ProgramAttribute {
    pub location: i32,
    pub options: AttributeOptions,
}

/// The index under which the context knows an attribute that the program
/// uses: its location, which is not negative.
pub open spec fn slot_of(location: i32) -> u32
    recommends
        location >= 0,
{
    location as u32
}

impl ProgramAttribute {
    /// The program uses the attribute.
    pub open spec fn is_used(&self) -> bool {
        self.location >= 0
    }

    /// The index of the attribute, where the program uses it.
    pub fn slot(&self) -> (slot: Option<u32>)
        ensures
            slot == if self.is_used() {
                Some(slot_of(self.location))
            } else {
                None
            },
    {
        if self.location >= 0 {
            Some(self.location as u32)
        } else {
            None
        }
    }
}

#[derive(Clone, Copy, PartialEq, Eq, Structural, Debug)]
pub struct ProgramAttributesList {
    pub vertices: ProgramAttribute,
    pub colors: ProgramAttribute,
}

#[derive(Clone, Copy, PartialEq, Eq, Structural, Debug)]
pub struct ProgramUniformsLocations {
    pub projection: UniformHandle,
    pub model_view: UniformHandle,
}

/// A compiled and linked program with everything resolved. It does not change
/// once built.
#[derive(Clone, Copy, PartialEq, Eq, Structural, Debug)]
pub struct Program {
    pub compiled: ProgramHandle,
    pub attributes: ProgramAttributesList,
    pub uniform_locations: ProgramUniformsLocations,
}

/// The name of an attribute in the shader sources.
pub open spec fn attribute_name_of(kind: AttributeKind) -> Seq<char> {
    match kind {
        AttributeKind::Vertex => "aVertexPosition"@,
        AttributeKind::Color => "aVertexColor"@,
    }
}

/// The name of a uniform in the shader sources.
pub open spec fn uniform_name_of(kind: UniformKind) -> Seq<char> {
    match kind {
        UniformKind::Projection => "uProjectionMatrix"@,
        UniformKind::ModelView => "uModelViewMatrix"@,
    }
}

/// The program that the given answers resolve to.
pub open spec fn resolved_program(
    compiled: ProgramHandle,
    vertex_location: i32,
    color_location: i32,
    projection: UniformHandle,
    model_view: UniformHandle,
) -> Program {
    Program {
        compiled,
        attributes: ProgramAttributesList {
            vertices: ProgramAttribute { location: vertex_location, options: packed_floats(3) },
            colors: ProgramAttribute { location: color_location, options: packed_floats(4) },
        },
        uniform_locations: ProgramUniformsLocations { projection, model_view },
    }
}

/// What resolving comes to: the program where both uniforms were found, else
/// the error that names the first one missing, the projection first.
pub open spec fn resolve_outcome(
    compiled: ProgramHandle,
    vertex_location: i32,
    color_location: i32,
    projection: Option<UniformHandle>,
    model_view: Option<UniformHandle>,
) -> Result<Program, GlErrorView> {
    match projection {
        None => Err(
            GlErrorView::UniformNotFound { name: uniform_name_of(UniformKind::Projection) },
        ),
        Some(p) => match model_view {
            None => Err(
                GlErrorView::UniformNotFound { name: uniform_name_of(UniformKind::ModelView) },
            ),
            Some(m) => Ok(resolved_program(compiled, vertex_location, color_location, p, m)),
        },
    }
}

impl Program {
    /// The name under which the driver is asked for an attribute.
    pub fn attribute_name(kind: AttributeKind) -> (name: &'static str)
        ensures
            name@ == attribute_name_of(kind),
    {
        match kind {
            AttributeKind::Vertex => "aVertexPosition",
            AttributeKind::Color => "aVertexColor",
        }
    }

    /// The name under which the driver is asked for a uniform.
    pub fn uniform_name(kind: UniformKind) -> (name: &'static str)
        ensures
            name@ == uniform_name_of(kind),
    {
        match kind {
            UniformKind::Projection => "uProjectionMatrix",
            UniformKind::ModelView => "uModelViewMatrix",
        }
    }

    /// Builds the program from what the driver answered for the linked
    /// program `compiled`: the locations of the two attributes, and the
    /// slots of the two uniforms where it has them.
    pub fn new(
        ctx: &RenderingContext,
        compiled: ProgramHandle,
        vertex_location: i32,
        color_location: i32,
        projection: Option<UniformHandle>,
        model_view: Option<UniformHandle>,
    ) -> (r: Result<Program, GlError>)
        ensures
            crate::rendering_context::result_view(r) == resolve_outcome(
                compiled,
                vertex_location,
                color_location,
                projection,
                model_view,
            ),
    {
        let vertices = ProgramAttribute {
            location: vertex_location,
            options: AttributeOptions::floats_with_size(3),
        };
        let colors = ProgramAttribute {
            location: color_location,
            options: AttributeOptions::floats_with_size(4),
        };
        let projection = match ctx.get_uniform_location(
            Program::uniform_name(UniformKind::Projection),
            projection,
        ) {
            Ok(slot) => slot,
            Err(e) => {
                return Err(e);
            },
        };
        let model_view = match ctx.get_uniform_location(
            Program::uniform_name(UniformKind::ModelView),
            model_view,
        ) {
            Ok(slot) => slot,
            Err(e) => {
                return Err(e);
            },
        };
        Ok(
            Program {
                compiled,
                attributes: ProgramAttributesList { vertices, colors },
                uniform_locations: ProgramUniformsLocations { projection, model_view },
            },
        )
    }
}

}
