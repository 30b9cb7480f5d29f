//! One cube of the field: its three buffers, where it stands, whether its
//! transforms are set, and the commands that draw it.

use vstd::prelude::*;
use crate::buffer_storage::{upload_commands, BufferStorage};
use crate::geometry::{
    cube_colors, cube_indices, cube_vertices, get_colors, get_cube, indices_in_range,
    lemma_cube_indices_in_range, INDEX_COUNT, MAX_VERTICES,
};
use crate::placement::{
    grid_positions, lemma_placement_count, placement, Position, FIELD_SIZE, MAX_FIELD_SIZE,
};
use crate::program::{slot_of, AttributeKind, Program, ProgramAttribute};
use crate::rendering_context::{
    bind_command, gl_triangles, gl_unsigned_short, unbind_command, use_program_command,
    BufferHandle, BufferKind, BufferRole, GlCommand, GlError, RenderingContext, Resource,
    UniformHandle, UniformKind, TRIANGLES, UNSIGNED_SHORT,
};

verus! {

/// Whether the transforms of a cube mean anything yet.
#[derive(Clone, Copy, PartialEq, Eq, Structural, Debug)]
pub enum Phase {
    /// Built and uploaded; the transforms are not set.
    Unpositioned,
    /// The projection and the model-view transform are set.
    Positioned,
}

/// A unit axis.
#[derive(Clone, Copy, PartialEq, Eq, Structural, Debug)]
pub enum Axis {
    X,
    Y,
    Z,
}

/// A turn about a unit axis of the cube's own frame, by `millis`
/// thousandths of a radian.
#[derive(Clone, Copy, PartialEq, Eq, Structural, Debug)]
pub struct Rotation {
    pub axis: Axis,
    pub millis: i64,
}

/// What one update appends to a model-view transform: `first`, then
/// `second`, both applied after what the transform already holds.
#[derive(Clone, Copy, PartialEq, Eq, Structural, Debug)]
pub struct RotationDelta {
    pub first: Rotation,
    pub second: Rotation,
}

/// A perspective projection: the vertical field of view in degrees, the
/// surface whose aspect ratio it has, and the two planes, the near one in
/// tenths of a unit.
#[derive(Clone, Copy, PartialEq, Eq, Structural, Debug)]
pub struct Projection {
    pub field_of_view_degrees: u32,
    pub width: u32,
    pub height: u32,
    pub near_tenths: u32,
    pub far: u32,
}

/// A right-handed view from `eye` towards `target`.
#[derive(Clone, Copy, PartialEq, Eq, Structural, Debug)]
pub struct LookAt {
    pub eye: Position,
    pub target: Position,
    pub up: Axis,
}

/// The transforms of a freshly positioned cube: the projection, and the
/// model-view transform, which is the view of a model that rests at the
/// origin, unturned.
#[derive(Clone, Copy, PartialEq, Eq, Structural, Debug)]
pub struct InitialState {
    pub projection: Projection,
    pub view: LookAt,
}

/// The projection of every cube: 45 degrees, a surface of 640 by 480, and
/// planes at 0.1 and 500.
pub open spec fn fixed_projection() -> Projection {
    Projection { field_of_view_degrees: 45, width: 640, height: 480, near_tenths: 1, far: 500 }
}

/// The initial transforms of a cube that stands at `position`: seen from
/// (0, 0, 450), with +Y up.
pub open spec fn initial_state_at(position: Position) -> InitialState {
    InitialState {
        projection: fixed_projection(),
        view: LookAt { eye: Position { x: 0, y: 0, z: 450 }, target: position, up: Axis::Y },
    }
}

/// The two turns of one update by `angle`: about Z, then about Y.
pub open spec fn delta_of(angle: i64) -> RotationDelta {
    RotationDelta {
        first: Rotation { axis: Axis::Z, millis: angle },
        second: Rotation { axis: Axis::Y, millis: angle },
    }
}

/// The turns of a delta, in the order in which they apply.
pub open spec fn turns_of(delta: RotationDelta) -> Seq<Rotation> {
    seq![delta.first, delta.second]
}

pub struct Cube {
    pub indices_buffer: BufferStorage<u16>,
    pub vertices_buffer: BufferStorage<i8>,
    pub colors_buffer: BufferStorage<u8>,
    pub position: Position,
    pub phase: Phase,
    /// The turns applied after the initial view since the cube was last
    /// positioned. The model-view transform is that view followed by them.
    pub turns: Ghost<Seq<Rotation>>,
}

/// How an attribute reads the bound array buffer, and that it is switched
/// on; nothing for an attribute that the program does not use.
pub open spec fn layout_commands(attribute: ProgramAttribute) -> Seq<GlCommand> {
    if attribute.is_used() {
        seq![
            GlCommand::VertexAttribPointer {
                location: slot_of(attribute.location),
                size: attribute.options.size,
                data_type: attribute.options.data_type,
                normalized: attribute.options.normalized,
                stride: attribute.options.stride,
                offset: attribute.options.offset,
            },
            GlCommand::EnableVertexAttribArray { location: slot_of(attribute.location) },
        ]
    } else {
        Seq::empty()
    }
}

/// Binding `buffer` as the array buffer, then the layout of `attribute`.
pub open spec fn attrib_commands(buffer: BufferHandle, attribute: ProgramAttribute) -> Seq<
    GlCommand,
> {
    seq![bind_command(BufferKind::ArrayBuffer, buffer)] + layout_commands(attribute)
}

pub open spec fn uniform_command(
    location: UniformHandle,
    instance: usize,
    matrix: UniformKind,
) -> GlCommand {
    GlCommand::UniformMatrix4 { location, instance, matrix }
}

/// The one indexed draw of a cube: 12 triangles from 36 unsigned 16-bit
/// indices, starting at the first.
pub open spec fn draw_elements_command() -> GlCommand {
    GlCommand::DrawElements {
        mode: TRIANGLES,
        count: 36,
        data_type: UNSIGNED_SHORT,
        offset: 0,
    }
}

impl Cube {
    /// The buffers hold a cube whose indices all name vertices of it, few
    /// enough for 16-bit indices, and each buffer is of the kind it is
    /// bound as.
    pub open spec fn wf(&self) -> bool {
        &&& self.vertices_buffer.kind == BufferKind::ArrayBuffer
        &&& self.colors_buffer.kind == BufferKind::ArrayBuffer
        &&& self.indices_buffer.kind == BufferKind::ElementArrayBuffer
        &&& self.indices_buffer.data@.len() == INDEX_COUNT
        &&& self.vertices_buffer.data@.len() % 3 == 0
        &&& self.vertex_count() <= MAX_VERTICES
        &&& self.colors_buffer.data@.len() == 4 * self.vertex_count()
        &&& indices_in_range(self.indices_buffer.data@, self.vertex_count())
    }

    pub open spec fn vertex_count(&self) -> int {
        self.vertices_buffer.data@.len() as int / 3
    }

    /// The turns applied since the cube was last positioned.
    pub open spec fn model_view_turns(&self) -> Seq<Rotation> {
        self.turns@
    }

    /// This cube once it is positioned: unturned, whatever it was before.
    pub open spec fn positioned(self) -> Cube {
        Cube { phase: Phase::Positioned, turns: Ghost(Seq::empty()), ..self }
    }

    /// This cube after an update by `angle`: a positioned cube has made two
    /// more turns, any other is as it was.
    pub open spec fn turned(self, angle: i64) -> Cube {
        if self.phase == Phase::Positioned {
            Cube { turns: Ghost(self.turns@ + turns_of(delta_of(angle))), ..self }
        } else {
            self
        }
    }

    /// This cube after one update for each of `angles`, in order.
    pub open spec fn turned_all(self, angles: Seq<i64>) -> Cube
        decreases angles.len(),
    {
        if angles.len() == 0 {
            self
        } else {
            self.turned_all(angles.drop_last()).turned(angles.last())
        }
    }

    /// The same buffers at the same place.
    pub open spec fn same_shape(&self, other: &Cube) -> bool {
        &&& self.indices_buffer == other.indices_buffer
        &&& self.vertices_buffer == other.vertices_buffer
        &&& self.colors_buffer == other.colors_buffer
        &&& self.position == other.position
    }

    /// The commands that draw this cube as number `instance` of the field.
    pub open spec fn draw_commands(&self, program: &Program, instance: usize) -> Seq<GlCommand> {
        attrib_commands(self.vertices_buffer.buffer, program.attributes.vertices)
            + attrib_commands(self.colors_buffer.buffer, program.attributes.colors)
            + seq![
            bind_command(BufferKind::ElementArrayBuffer, self.indices_buffer.buffer),
            use_program_command(program.compiled),
            uniform_command(program.uniform_locations.projection, instance, UniformKind::Projection),
            uniform_command(program.uniform_locations.model_view, instance, UniformKind::ModelView),
            draw_elements_command(),
            unbind_command(BufferKind::ArrayBuffer),
        ]
    }

    fn enable_vertex_attrib_array(ctx: &mut RenderingContext, attribute: &ProgramAttribute)
        ensures
            final(ctx).commands@ == old(ctx).commands@ + layout_commands(*attribute),
            final(ctx).array_buffer == old(ctx).array_buffer,
            final(ctx).element_array_buffer == old(ctx).element_array_buffer,
            final(ctx).program == old(ctx).program,
    {
        let options = &attribute.options;
        match attribute.slot() {
            Some(location) => {
                ctx.commands.push(
                    GlCommand::VertexAttribPointer {
                        location,
                        size: options.size,
                        data_type: options.data_type,
                        normalized: options.normalized,
                        stride: options.stride,
                        offset: options.offset,
                    },
                );
                ctx.commands.push(GlCommand::EnableVertexAttribArray { location });
            },
            None => {},
        }
        assert(ctx.commands@ =~= old(ctx).commands@ + layout_commands(*attribute));
    }

    fn enable_attribute(&self, ctx: &mut RenderingContext, program: &Program, kind: AttributeKind)
        requires
            self.wf(),
        ensures
            final(ctx).commands@ == old(ctx).commands@ + (match kind {
                AttributeKind::Vertex => attrib_commands(
                    self.vertices_buffer.buffer,
                    program.attributes.vertices,
                ),
                AttributeKind::Color => attrib_commands(
                    self.colors_buffer.buffer,
                    program.attributes.colors,
                ),
            }),
            final(ctx).array_buffer == (match kind {
                AttributeKind::Vertex => Some(self.vertices_buffer.buffer),
                AttributeKind::Color => Some(self.colors_buffer.buffer),
            }),
            final(ctx).element_array_buffer == old(ctx).element_array_buffer,
            final(ctx).program == old(ctx).program,
    {
        match kind {
            AttributeKind::Vertex => {
                self.vertices_buffer.bind(ctx);
                Cube::enable_vertex_attrib_array(ctx, &program.attributes.vertices);
                assert(ctx.commands@ =~= old(ctx).commands@ + attrib_commands(
                    self.vertices_buffer.buffer,
                    program.attributes.vertices,
                ));
            },
            AttributeKind::Color => {
                self.colors_buffer.bind(ctx);
                Cube::enable_vertex_attrib_array(ctx, &program.attributes.colors);
                assert(ctx.commands@ =~= old(ctx).commands@ + attrib_commands(
                    self.colors_buffer.buffer,
                    program.attributes.colors,
                ));
            },
        }
    }

    fn set_uniform(ctx: &mut RenderingContext, program: &Program, instance: usize, kind: UniformKind)
        ensures
            final(ctx).commands@ == old(ctx).commands@.push(
                uniform_command(
                    match kind {
                        UniformKind::Projection => program.uniform_locations.projection,
                        UniformKind::ModelView => program.uniform_locations.model_view,
                    },
                    instance,
                    kind,
                ),
            ),
            final(ctx).array_buffer == old(ctx).array_buffer,
            final(ctx).element_array_buffer == old(ctx).element_array_buffer,
            final(ctx).program == old(ctx).program,
    {
        let location = match kind {
            UniformKind::Projection => program.uniform_locations.projection,
            UniformKind::ModelView => program.uniform_locations.model_view,
        };
        ctx.commands.push(GlCommand::UniformMatrix4 { location, instance, matrix: kind });
    }

    fn draw_elements(ctx: &mut RenderingContext)
        ensures
            final(ctx).commands@ == old(ctx).commands@.push(draw_elements_command()),
            final(ctx).array_buffer == old(ctx).array_buffer,
            final(ctx).element_array_buffer == old(ctx).element_array_buffer,
            final(ctx).program == old(ctx).program,
    {
        let vertex_count: i32 = 36;
        let data_type: u32 = gl_unsigned_short();
        let offset: i32 = 0;
        ctx.commands.push(
            GlCommand::DrawElements { mode: gl_triangles(), count: vertex_count, data_type, offset },
        );
    }

    /// Sets the projection and the model-view transform anew and hands out
    /// what they are. Whatever turns the cube had made are gone.
    pub fn set_initial_state(&mut self) -> (state: InitialState)
        ensures
            state == initial_state_at(old(self).position),
            *final(self) == old(self).positioned(),
    {
        let eye = Position { x: 0, y: 0, z: 450 };
        let projection = Projection {
            field_of_view_degrees: 45,
            width: 640,
            height: 480,
            near_tenths: 1,
            far: 500,
        };
        self.phase = Phase::Positioned;
        self.turns = Ghost(Seq::empty());
        InitialState { projection, view: LookAt { eye, target: self.position, up: Axis::Y } }
    }

    /// Turns a positioned cube in its own frame by `angle` thousandths of a
    /// radian, about Z and then about Y, after all earlier turns. A cube that
    /// is not positioned is left alone, and nothing is handed out.
    pub fn update_state(&mut self, angle: i64) -> (delta: Option<RotationDelta>)
        ensures
            *final(self) == old(self).turned(angle),
            delta == if old(self).phase == Phase::Positioned {
                Some(delta_of(angle))
            } else {
                None
            },
    {
        match self.phase {
            Phase::Unpositioned => None,
            Phase::Positioned => {
                let delta = RotationDelta {
                    first: Rotation { axis: Axis::Z, millis: angle },
                    second: Rotation { axis: Axis::Y, millis: angle },
                };
                self.turns = Ghost(self.turns@ + turns_of(delta));
                Some(delta)
            },
        }
    }

    /// Issues the commands that draw a positioned cube as number `instance`
    /// and says that it did. For a cube that is not positioned nothing is
    /// issued.
    pub fn draw(&self, ctx: &mut RenderingContext, program: &Program, instance: usize) -> (drawn:
        bool)
        requires
            self.wf(),
        ensures
            drawn == (self.phase == Phase::Positioned),
            drawn ==> final(ctx).commands@ == old(ctx).commands@ + self.draw_commands(
                program,
                instance,
            ) && final(ctx).array_buffer is None && final(ctx).element_array_buffer == Some(
                self.indices_buffer.buffer,
            ) && final(ctx).program == Some(program.compiled),
            !drawn ==> *final(ctx) == *old(ctx),
    {
        match self.phase {
            Phase::Unpositioned => false,
            Phase::Positioned => {
                self.enable_attribute(ctx, program, AttributeKind::Vertex);
                self.enable_attribute(ctx, program, AttributeKind::Color);
                self.indices_buffer.bind(ctx);
                ctx.use_program(program.compiled);
                Cube::set_uniform(ctx, program, instance, UniformKind::Projection);
                Cube::set_uniform(ctx, program, instance, UniformKind::ModelView);
                Cube::draw_elements(ctx);
                ctx.clear_array_buffer();
                assert(ctx.commands@ =~= old(ctx).commands@ + self.draw_commands(
                    program,
                    instance,
                ));
                true
            },
        }
    }
}

/// Positioning forgets every turn: however often and by whatever angles a
/// positioned cube was updated, positioning it again leaves it exactly as
/// positioning left it the first time, with the initial transforms of its
/// place.
pub proof fn lemma_positioning_forgets_turns(cube: Cube, angles: Seq<i64>)
    ensures
        cube.positioned().turned_all(angles).positioned() == cube.positioned(),
        cube.positioned().turned_all(angles).position == cube.position,
        cube.positioned().turned_all(angles).positioned().model_view_turns() == Seq::<
            Rotation,
        >::empty(),
    decreases angles.len(),
{
    if angles.len() > 0 {
        lemma_positioning_forgets_turns(cube, angles.drop_last());
    }
}

/// Drawing a cube issues eight commands and two more for each attribute
/// that the program uses. Exactly one of them, the last but one, is an
/// indexed draw: triangles from 36 unsigned 16-bit indices, starting at
/// offset 0.
pub proof fn lemma_draw_issues_one_indexed_draw(cube: Cube, program: Program, instance: usize)
    ensures
        cube.draw_commands(&program, instance).len() == 8 + layout_commands(
            program.attributes.vertices,
        ).len() + layout_commands(program.attributes.colors).len(),
        cube.draw_commands(&program, instance)[cube.draw_commands(&program, instance).len() - 2]
            == (GlCommand::DrawElements { mode: 4, count: 36, data_type: 5123, offset: 0 }),
        forall|k: int|
            0 <= k < cube.draw_commands(&program, instance).len() && k != cube.draw_commands(
                &program,
                instance,
            ).len() - 2 ==> !((#[trigger] cube.draw_commands(&program, instance)[k])
                is DrawElements),
{
    let vertices = attrib_commands(cube.vertices_buffer.buffer, program.attributes.vertices);
    let colors = attrib_commands(cube.colors_buffer.buffer, program.attributes.colors);
    assert(1 <= vertices.len() <= 3 && 1 <= colors.len() <= 3);
    assert(forall|k: int| 0 <= k < vertices.len() ==> !((#[trigger] vertices[k]) is DrawElements));
    assert(forall|k: int| 0 <= k < colors.len() ==> !((#[trigger] colors[k]) is DrawElements));
}

/// A cube as it is right after building: at `position`, not yet positioned
/// and unturned, holding the unit cube in the three given buffers.
pub open spec fn is_fresh_cube(
    cube: Cube,
    position: Position,
    vertices: BufferHandle,
    colors: BufferHandle,
    indices: BufferHandle,
) -> bool {
    &&& cube.position == position
    &&& cube.phase == Phase::Unpositioned
    &&& cube.model_view_turns() == Seq::<Rotation>::empty()
    &&& cube.vertices_buffer.kind == BufferKind::ArrayBuffer
    &&& cube.vertices_buffer.buffer == vertices
    &&& cube.vertices_buffer.data@ == cube_vertices()
    &&& cube.colors_buffer.kind == BufferKind::ArrayBuffer
    &&& cube.colors_buffer.buffer == colors
    &&& cube.colors_buffer.data@ == cube_colors()
    &&& cube.indices_buffer.kind == BufferKind::ElementArrayBuffer
    &&& cube.indices_buffer.buffer == indices
    &&& cube.indices_buffer.data@ == cube_indices()
}

/// The uploads of the cube number `instance`: vertices, colours, indices.
pub open spec fn cube_upload_commands(
    vertices: BufferHandle,
    colors: BufferHandle,
    indices: BufferHandle,
    instance: usize,
) -> Seq<GlCommand> {
    build_commands(Some(vertices), Some(colors), Some(indices), instance)
}

/// The uploads that are issued before building stops: those of the buffers
/// that the driver allocated, up to the first one it refused.
pub open spec fn build_commands(
    vertices: Option<BufferHandle>,
    colors: Option<BufferHandle>,
    indices: Option<BufferHandle>,
    instance: usize,
) -> Seq<GlCommand> {
    match vertices {
        None => Seq::empty(),
        Some(v) => upload_commands(BufferKind::ArrayBuffer, v, 72, instance, BufferRole::Vertices)
            + (match colors {
            None => Seq::empty(),
            Some(c) => upload_commands(
                BufferKind::ArrayBuffer,
                c,
                96,
                instance,
                BufferRole::Colors,
            ) + (match indices {
                None => Seq::empty(),
                Some(i) => upload_commands(
                    BufferKind::ElementArrayBuffer,
                    i,
                    36,
                    instance,
                    BufferRole::Indices,
                ),
            }),
        }),
    }
}

/// Builds the cube number `instance` at `position` in the buffers that the driver allocated
/// for its vertices, colours and indices, and uploads each as soon as it is
/// there. The first buffer that the driver refused ends the building.
pub fn get_one_cube_geometry(
    ctx: &mut RenderingContext,
    position: Position,
    instance: usize,
    vertices: Option<BufferHandle>,
    colors: Option<BufferHandle>,
    indices: Option<BufferHandle>,
) -> (r: Result<Cube, GlError>)
    ensures
        final(ctx).commands@ == old(ctx).commands@ + build_commands(vertices, colors, indices, instance),
        final(ctx).program == old(ctx).program,
        r is Ok <==> vertices is Some && colors is Some && indices is Some,
        r is Ok ==> r->Ok_0.wf() && is_fresh_cube(
            r->Ok_0,
            position,
            vertices->Some_0,
            colors->Some_0,
            indices->Some_0,
        ),
        r is Err ==> r->Err_0 == (GlError::ResourceCreation { resource: Resource::Buffer }),
        vertices is None ==> *final(ctx) == *old(ctx),
        vertices is Some ==> final(ctx).array_buffer is None,
        final(ctx).element_array_buffer == if r is Ok {
            indices
        } else {
            old(ctx).element_array_buffer
        },
{
    let geometry = get_cube();
    let colors_data = get_colors();
    proof {
        lemma_cube_indices_in_range();
        assert(ctx.commands@ =~= old(ctx).commands@ + Seq::<GlCommand>::empty());
    }
    let vertices_buffer = match BufferStorage::new(
        ctx,
        vertices,
        BufferKind::ArrayBuffer,
        geometry.vertices,
    ) {
        Ok(buffer) => buffer,
        Err(e) => {
            return Err(e);
        },
    };
    vertices_buffer.write_to_graphics_card(ctx, instance, BufferRole::Vertices);
    proof {
        assert(ctx.commands@ =~= old(ctx).commands@ + build_commands(vertices, None, None, instance));
    }
    let colors_buffer = match BufferStorage::new(ctx, colors, BufferKind::ArrayBuffer, colors_data) {
        Ok(buffer) => buffer,
        Err(e) => {
            return Err(e);
        },
    };
    colors_buffer.write_to_graphics_card(ctx, instance, BufferRole::Colors);
    proof {
        assert(ctx.commands@ =~= old(ctx).commands@ + build_commands(vertices, colors, None, instance));
    }
    let indices_buffer = match BufferStorage::new(
        ctx,
        indices,
        BufferKind::ElementArrayBuffer,
        geometry.indices,
    ) {
        Ok(buffer) => buffer,
        Err(e) => {
            return Err(e);
        },
    };
    indices_buffer.write_to_graphics_card(ctx, instance, BufferRole::Indices);
    proof {
        assert(ctx.commands@ =~= old(ctx).commands@ + build_commands(vertices, colors, indices, instance));
    }
    Ok(
        Cube {
            indices_buffer,
            vertices_buffer,
            colors_buffer,
            position,
            phase: Phase::Unpositioned,
            turns: Ghost(Seq::empty()),
        },
    )
}

/// The uploads of the first `count` cubes of a field, cube number `k` in the
/// buffers `3k`, `3k + 1` and `3k + 2`.
pub open spec fn field_upload_commands(buffers: Seq<BufferHandle>, count: int) -> Seq<GlCommand>
    decreases count,
{
    if count <= 0 {
        Seq::empty()
    } else {
        field_upload_commands(buffers, count - 1) + cube_upload_commands(
            buffers[3 * (count - 1)],
            buffers[3 * (count - 1) + 1],
            buffers[3 * (count - 1) + 2],
            (count - 1) as usize,
        )
    }
}

/// `cubes` are the freshly built cubes of `positions`, in order, cube number
/// `k` in the buffers `3k`, `3k + 1` and `3k + 2`.
pub open spec fn is_fresh_field(
    cubes: Seq<Cube>,
    positions: Seq<Position>,
    buffers: Seq<BufferHandle>,
) -> bool {
    &&& cubes.len() == positions.len()
    &&& forall|k: int|
        0 <= k < cubes.len() ==> (#[trigger] cubes[k]).wf() && is_fresh_cube(
            cubes[k],
            positions[k],
            buffers[3 * k],
            buffers[3 * k + 1],
            buffers[3 * k + 2],
        )
}

/// Builds and uploads the cubes of a field of side `field_size`, in the
/// order of its placement, from the buffers that the driver allocated. With
/// fewer than three buffers for each cube the driver has refused one:
/// nothing is issued then.
pub fn build_field(ctx: &mut RenderingContext, field_size: i32, buffers: &Vec<BufferHandle>) -> (r:
    Result<Vec<Cube>, GlError>)
    requires
        0 <= field_size <= MAX_FIELD_SIZE,
    ensures
        r is Ok <==> buffers@.len() >= 3 * placement(field_size as int).len(),
        r is Err ==> r->Err_0 == (GlError::ResourceCreation { resource: Resource::Buffer })
            && *final(ctx) == *old(ctx),
        r is Ok ==> is_fresh_field(r->Ok_0@, placement(field_size as int), buffers@)
            && final(ctx).commands@ == old(ctx).commands@ + field_upload_commands(
            buffers@,
            placement(field_size as int).len() as int,
        ) && final(ctx).program == old(ctx).program,
        r is Ok && r->Ok_0@.len() == 0 ==> *final(ctx) == *old(ctx),
        r is Ok && r->Ok_0@.len() > 0 ==> final(ctx).array_buffer is None
            && final(ctx).element_array_buffer == Some(r->Ok_0@.last().indices_buffer.buffer),
{
    let positions = grid_positions(field_size);
    let count: usize = positions.len();
    let total: usize = buffers.len();
    if total / 3 < count {
        return Err(GlError::ResourceCreation { resource: Resource::Buffer });
    }
    let mut results: Vec<Cube> = Vec::new();
    let mut k: usize = 0;
    proof {
        assert(ctx.commands@ =~= old(ctx).commands@ + field_upload_commands(buffers@, 0));
    }
    while k < count
        invariant
            k <= count,
            count == positions@.len(),
            total == buffers@.len(),
            3 * count <= total,
            positions@ == placement(field_size as int),
            is_fresh_field(results@, positions@.take(k as int), buffers@),
            ctx.commands@ == old(ctx).commands@ + field_upload_commands(buffers@, k as int),
            ctx.program == old(ctx).program,
            k == 0 ==> *ctx == *old(ctx),
            k > 0 ==> ctx.array_buffer is None && ctx.element_array_buffer == Some(
                results@[k - 1].indices_buffer.buffer,
            ),
        decreases count - k,
    {
        let built = get_one_cube_geometry(
            ctx,
            positions[k],
            k,
            Some(buffers[3 * k]),
            Some(buffers[3 * k + 1]),
            Some(buffers[3 * k + 2]),
        );
        match built {
            Ok(cube) => {
                results.push(cube);
            },
            Err(e) => {
                proof {
                    assert(false);
                }
                return Err(e);
            },
        }
        proof {
            assert(ctx.commands@ =~= old(ctx).commands@ + field_upload_commands(
                buffers@,
                k as int + 1,
            ));
        }
        k = k + 1;
    }
    proof {
        assert(positions@.take(count as int) =~= positions@);
    }
    Ok(results)
}

/// Builds and uploads the cubes of the field of side 30.
pub fn get_geometries(ctx: &mut RenderingContext, buffers: &Vec<BufferHandle>) -> (r: Result<
    Vec<Cube>,
    GlError,
>)
    ensures
        r is Ok <==> buffers@.len() >= 3 * 3481,
        r is Err ==> r->Err_0 == (GlError::ResourceCreation { resource: Resource::Buffer })
            && *final(ctx) == *old(ctx),
        r is Ok ==> is_fresh_field(r->Ok_0@, placement(30), buffers@) && final(ctx).commands@
            == old(ctx).commands@ + field_upload_commands(buffers@, 3481) && final(ctx).program
            == old(ctx).program && r->Ok_0@.len() == 3481 && final(ctx).array_buffer is None
            && final(ctx).element_array_buffer == Some(r->Ok_0@.last().indices_buffer.buffer),
{
    proof {
        lemma_placement_count(FIELD_SIZE as int);
    }
    build_field(ctx, FIELD_SIZE, buffers)
}

}
