//! The scene: the context, the one program, the cubes in their fixed order
//! and the time of the last update. It turns every cube by the time that
//! has passed and issues the commands of a frame.

use vstd::prelude::*;
use crate::cube::{
    attrib_commands, build_field, delta_of, draw_elements_command, field_upload_commands,
    initial_state_at, uniform_command, Cube, InitialState, Phase, Rotation,
    RotationDelta,
};
use crate::geometry::{cube_colors, cube_indices, cube_vertices};
use crate::placement::{
    lemma_placement_count, placement, Position, FIELD_SIZE, MAX_FIELD_SIZE,
};
use crate::program::Program;
use crate::rendering_context::{
    bind_command, gl_color_buffer_bit, gl_depth_buffer_bit, gl_depth_test, gl_lequal,
    unbind_command, use_program_command, BufferHandle, BufferKind, GlCommand, GlError,
    RenderingContext, Resource, UniformKind, DEPTH_TEST, LEQUAL,
};

verus! {

/// The largest time, in milliseconds either side of the epoch, that a clock
/// which counts in 64-bit floats tells to the millisecond.
pub const MAX_TIMESTAMP: i64 = 9_007_199_254_740_992;

pub struct Scene {
    pub ctx: RenderingContext,
    pub program: Program,
    pub geometries: Vec<Cube>,
    /// The time of the last update, in milliseconds.
    pub last_update: i64,
}

/// What a frame begins with: clear to opaque black and to the farthest
/// depth, test depth so that what is not farther wins, and clear both
/// planes.
pub open spec fn clear_commands() -> Seq<GlCommand> {
    seq![
        GlCommand::ClearColor { red: 0, green: 0, blue: 0, alpha: 1 },
        GlCommand::ClearDepth { depth: 1 },
        GlCommand::Enable { capability: DEPTH_TEST },
        GlCommand::DepthFunc { func: LEQUAL },
        GlCommand::Clear { mask: 16640 },
    ]
}

/// The draws of the first `count` cubes, in stored order.
pub open spec fn instances_commands(cubes: Seq<Cube>, program: &Program, count: int) -> Seq<
    GlCommand,
>
    decreases count,
{
    if count <= 0 {
        Seq::empty()
    } else {
        instances_commands(cubes, program, count - 1) + cubes[count - 1].draw_commands(
            program,
            (count - 1) as usize,
        )
    }
}

/// The release of the three buffers of each of the first `count` cubes, in
/// stored order.
pub open spec fn release_commands(cubes: Seq<Cube>, count: int) -> Seq<GlCommand>
    decreases count,
{
    if count <= 0 {
        Seq::empty()
    } else {
        release_commands(cubes, count - 1) + seq![
            GlCommand::DeleteBuffer { buffer: cubes[count - 1].vertices_buffer.buffer },
            GlCommand::DeleteBuffer { buffer: cubes[count - 1].colors_buffer.buffer },
            GlCommand::DeleteBuffer { buffer: cubes[count - 1].indices_buffer.buffer },
        ]
    }
}

/// All commands of one frame.
pub open spec fn frame_commands(cubes: Seq<Cube>, program: &Program) -> Seq<GlCommand> {
    clear_commands() + instances_commands(cubes, program, cubes.len() as int)
}

impl Scene {
    /// Every cube is sound and positioned, and the time of the last update
    /// is one that a clock can tell.
    pub open spec fn wf(&self) -> bool {
        &&& -MAX_TIMESTAMP <= self.last_update <= MAX_TIMESTAMP
        &&& forall|k: int|
            0 <= k < self.geometries@.len() ==> (#[trigger] self.geometries@[k]).wf()
                && self.geometries@[k].phase == Phase::Positioned
    }

    pub fn get_ctx(&self) -> (ctx: &RenderingContext)
        ensures
            *ctx == self.ctx,
    {
        &self.ctx
    }

    pub fn get_program(&self) -> (program: &Program)
        ensures
            *program == self.program,
    {
        &self.program
    }

    fn clear_colors(&mut self)
        ensures
            final(self).ctx.commands@ == old(self).ctx.commands@ + clear_commands(),
            final(self).ctx.array_buffer == old(self).ctx.array_buffer,
            final(self).ctx.element_array_buffer == old(self).ctx.element_array_buffer,
            final(self).ctx.program == old(self).ctx.program,
            final(self).program == old(self).program,
            final(self).geometries == old(self).geometries,
            final(self).last_update == old(self).last_update,
    {
        self.ctx.commands.push(GlCommand::ClearColor { red: 0, green: 0, blue: 0, alpha: 1 });
        self.ctx.commands.push(GlCommand::ClearDepth { depth: 1 });
        self.ctx.commands.push(GlCommand::Enable { capability: gl_depth_test() });
        self.ctx.commands.push(GlCommand::DepthFunc { func: gl_lequal() });
        let mask: u32 = gl_color_buffer_bit() | gl_depth_buffer_bit();
        assert(16384u32 | 256u32 == 16640u32) by (bit_vector);
        self.ctx.commands.push(GlCommand::Clear { mask });
        assert(self.ctx.commands@ =~= old(self).ctx.commands@ + clear_commands());
    }

    /// Makes the scene's program the active one.
    pub fn use_program(&mut self)
        ensures
            final(self).ctx.commands@ == old(self).ctx.commands@.push(
                use_program_command(old(self).program.compiled),
            ),
            final(self).ctx.program == Some(old(self).program.compiled),
            final(self).ctx.array_buffer == old(self).ctx.array_buffer,
            final(self).ctx.element_array_buffer == old(self).ctx.element_array_buffer,
            final(self).program == old(self).program,
            final(self).geometries == old(self).geometries,
            final(self).last_update == old(self).last_update,
    {
        self.ctx.use_program(self.program.compiled);
    }

    /// Positions every cube, in stored order, and hands out the transforms
    /// that each of them now has, in the same order.
    pub fn set_initial_state(&mut self) -> (states: Vec<InitialState>)
        ensures
            final(self).ctx == old(self).ctx,
            final(self).program == old(self).program,
            final(self).last_update == old(self).last_update,
            final(self).geometries@.len() == old(self).geometries@.len(),
            states@.len() == old(self).geometries@.len(),
            forall|k: int|
                0 <= k < old(self).geometries@.len() ==> (#[trigger] final(self).geometries@[k]).same_shape(
                    &old(self).geometries@[k],
                ) && final(self).geometries@[k].phase == Phase::Positioned
                    && final(self).geometries@[k].model_view_turns() == Seq::<Rotation>::empty()
                    && states@[k] == initial_state_at(old(self).geometries@[k].position),
    {
        let mut states: Vec<InitialState> = Vec::new();
        let count: usize = self.geometries.len();
        let mut k: usize = 0;
        while k < count
            invariant
                k <= count,
                count == self.geometries@.len(),
                count == old(self).geometries@.len(),
                states@.len() == k,
                self.last_update == old(self).last_update,
                self.ctx == old(self).ctx,
                self.program == old(self).program,
                forall|m: int|
                    0 <= m < count ==> (#[trigger] self.geometries@[m]).same_shape(
                        &old(self).geometries@[m],
                    ),
                forall|m: int|
                    0 <= m < k ==> (#[trigger] self.geometries@[m]).phase == Phase::Positioned
                        && self.geometries@[m].model_view_turns() == Seq::<Rotation>::empty()
                        && states@[m] == initial_state_at(old(self).geometries@[m].position),
            decreases count - k,
        {
            let state = self.geometries[k].set_initial_state();
            states.push(state);
            k = k + 1;
        }
        states
    }

    /// Builds the scene of a field of side `field_size` at the time `now`:
    /// builds and uploads every cube from the buffers that the driver
    /// allocated, three for each, and positions them all. With too few
    /// buffers there is no scene.
    pub fn with_field_size(
        ctx: RenderingContext,
        program: Program,
        field_size: i32,
        buffers: &Vec<BufferHandle>,
        now: i64,
    ) -> (r: Result<(Scene, Vec<InitialState>), GlError>)
        requires
            0 <= field_size <= MAX_FIELD_SIZE,
            -MAX_TIMESTAMP <= now <= MAX_TIMESTAMP,
        ensures
            r is Ok <==> buffers@.len() >= 3 * placement(field_size as int).len(),
            r is Err ==> r->Err_0 == (GlError::ResourceCreation { resource: Resource::Buffer }),
            r is Ok ==> r->Ok_0.0.is_new_scene(
                r->Ok_0.1@,
                ctx,
                program,
                placement(field_size as int),
                buffers@,
                now,
            ),
    {
        let mut ctx = ctx;
        let geometries = match build_field(&mut ctx, field_size, buffers) {
            Ok(cubes) => cubes,
            Err(e) => {
                return Err(e);
            },
        };
        let mut scene = Scene { ctx, program, geometries, last_update: now };
        let states = scene.set_initial_state();
        Ok((scene, states))
    }

    /// Builds the scene of the field of side 30.
    pub fn new(ctx: RenderingContext, program: Program, buffers: &Vec<BufferHandle>, now: i64) -> (r:
        Result<(Scene, Vec<InitialState>), GlError>)
        requires
            -MAX_TIMESTAMP <= now <= MAX_TIMESTAMP,
        ensures
            r is Ok <==> buffers@.len() >= 3 * 3481,
            r is Err ==> r->Err_0 == (GlError::ResourceCreation { resource: Resource::Buffer }),
            r is Ok ==> r->Ok_0.0.is_new_scene(
                r->Ok_0.1@,
                ctx,
                program,
                placement(30),
                buffers@,
                now,
            ),
    {
        proof {
            lemma_placement_count(FIELD_SIZE as int);
        }
        Scene::with_field_size(ctx, program, FIELD_SIZE, buffers, now)
    }

    /// This is the scene as it stands right after it was built at the time
    /// `now` from `ctx`, `program` and `buffers`, with a cube at each of
    /// `positions`, and `states` are the transforms of its cubes.
    pub open spec fn is_new_scene(
        &self,
        states: Seq<InitialState>,
        ctx: RenderingContext,
        program: Program,
        positions: Seq<Position>,
        buffers: Seq<BufferHandle>,
        now: i64,
    ) -> bool {
        &&& self.wf()
        &&& self.program == program
        &&& self.last_update == now
        &&& self.ctx.program == ctx.program
        &&& positions.len() == 0 ==> self.ctx.array_buffer == ctx.array_buffer
            && self.ctx.element_array_buffer == ctx.element_array_buffer
        &&& positions.len() > 0 ==> self.ctx.array_buffer is None && self.ctx.element_array_buffer
            == Some(buffers[3 * positions.len() - 1])
        &&& self.ctx.commands@ == ctx.commands@ + field_upload_commands(
            buffers,
            positions.len() as int,
        )
        &&& self.geometries@.len() == positions.len()
        &&& states.len() == positions.len()
        &&& forall|k: int|
            0 <= k < positions.len() ==> (#[trigger] self.geometries@[k]).position == positions[k]
                && self.geometries@[k].model_view_turns() == Seq::<Rotation>::empty()
                && self.geometries@[k].vertices_buffer.buffer == buffers[3 * k]
                && self.geometries@[k].colors_buffer.buffer == buffers[3 * k + 1]
                && self.geometries@[k].indices_buffer.buffer == buffers[3 * k + 2]
                && self.geometries@[k].vertices_buffer.data@ == cube_vertices()
                && self.geometries@[k].colors_buffer.data@ == cube_colors()
                && self.geometries@[k].indices_buffer.data@ == cube_indices()
                && states[k] == initial_state_at(positions[k])
    }

    /// Takes the scene down: unbinds what is bound, gives every buffer of
    /// every cube back to the driver, in stored order, then the program, and
    /// leaves the scene without cubes.
    pub fn release(&mut self)
        ensures
            final(self).ctx.commands@ == old(self).ctx.commands@ + release_commands(
                old(self).geometries@,
                old(self).geometries@.len() as int,
            ).push((GlCommand::DeleteProgram { program: old(self).program.compiled })),
            final(self).geometries@.len() == 0,
            final(self).ctx.array_buffer is None,
            final(self).ctx.element_array_buffer is None,
            final(self).ctx.program is None,
            final(self).program == old(self).program,
            final(self).last_update == old(self).last_update,
    {
        let count: usize = self.geometries.len();
        let mut k: usize = 0;
        proof {
            assert(self.ctx.commands@ =~= old(self).ctx.commands@ + release_commands(
                self.geometries@,
                0,
            ));
        }
        while k < count
            invariant
                k <= count,
                count == self.geometries@.len(),
                self.geometries == old(self).geometries,
                self.program == old(self).program,
                self.last_update == old(self).last_update,
                self.ctx.commands@ == old(self).ctx.commands@ + release_commands(
                    self.geometries@,
                    k as int,
                ),
            decreases count - k,
        {
            let vertices = self.geometries[k].vertices_buffer.buffer;
            let colors = self.geometries[k].colors_buffer.buffer;
            let indices = self.geometries[k].indices_buffer.buffer;
            self.ctx.commands.push(GlCommand::DeleteBuffer { buffer: vertices });
            self.ctx.commands.push(GlCommand::DeleteBuffer { buffer: colors });
            self.ctx.commands.push(GlCommand::DeleteBuffer { buffer: indices });
            proof {
                assert(self.ctx.commands@ =~= old(self).ctx.commands@ + release_commands(
                    self.geometries@,
                    k as int + 1,
                ));
            }
            k = k + 1;
        }
        self.ctx.commands.push(GlCommand::DeleteProgram { program: self.program.compiled });
        self.ctx.array_buffer = None;
        self.ctx.element_array_buffer = None;
        self.ctx.program = None;
        self.geometries = Vec::new();
    }

    /// Issues the commands of one frame: the clearing, then the draw of
    /// every cube in stored order.
    pub fn draw(&mut self)
        requires
            old(self).wf(),
        ensures
            final(self).ctx.commands@ == old(self).ctx.commands@ + frame_commands(
                old(self).geometries@,
                &old(self).program,
            ),
            final(self).program == old(self).program,
            final(self).geometries == old(self).geometries,
            final(self).last_update == old(self).last_update,
            old(self).geometries@.len() == 0 ==> final(self).ctx.array_buffer
                == old(self).ctx.array_buffer && final(self).ctx.element_array_buffer
                == old(self).ctx.element_array_buffer && final(self).ctx.program
                == old(self).ctx.program,
            old(self).geometries@.len() > 0 ==> final(self).ctx.array_buffer is None
                && final(self).ctx.element_array_buffer == Some(
                old(self).geometries@.last().indices_buffer.buffer,
            ) && final(self).ctx.program == Some(old(self).program.compiled),
    {
        self.clear_colors();
        let count: usize = self.geometries.len();
        let mut k: usize = 0;
        proof {
            assert(self.ctx.commands@ =~= old(self).ctx.commands@ + (clear_commands()
                + instances_commands(self.geometries@, &self.program, 0)));
        }
        while k < count
            invariant
                k <= count,
                count == self.geometries@.len(),
                self.wf(),
                self.program == old(self).program,
                self.geometries == old(self).geometries,
                self.last_update == old(self).last_update,
                self.ctx.commands@ == old(self).ctx.commands@ + (clear_commands()
                    + instances_commands(self.geometries@, &self.program, k as int)),
                k == 0 ==> self.ctx.array_buffer == old(self).ctx.array_buffer
                    && self.ctx.element_array_buffer == old(self).ctx.element_array_buffer
                    && self.ctx.program == old(self).ctx.program,
                k > 0 ==> self.ctx.array_buffer is None && self.ctx.element_array_buffer == Some(
                    self.geometries@[k - 1].indices_buffer.buffer,
                ) && self.ctx.program == Some(self.program.compiled),
            decreases count - k,
        {
            let drawn = self.geometries[k].draw(&mut self.ctx, &self.program, k);
            proof {
                assert(drawn);
                assert(self.ctx.commands@ =~= old(self).ctx.commands@ + (clear_commands()
                    + instances_commands(self.geometries@, &self.program, k as int + 1)));
            }
            k = k + 1;
        }
    }

    /// Turns every cube, in stored order, by the time that has passed since
    /// the last update, a thousandth of a radian for each millisecond, and
    /// hands out the turn that each of them made. The time of the last
    /// update never goes back: a `now` before it changes nothing, and nothing
    /// is handed out.
    pub fn update_state(&mut self, now: i64) -> (delta: Option<RotationDelta>)
        requires
            old(self).wf(),
            -MAX_TIMESTAMP <= now <= MAX_TIMESTAMP,
        ensures
            final(self).wf(),
            final(self).last_update >= old(self).last_update,
            final(self).ctx == old(self).ctx,
            final(self).program == old(self).program,
            final(self).geometries@.len() == old(self).geometries@.len(),
            now < old(self).last_update ==> delta is None
                && final(self).last_update == old(self).last_update
                && final(self).geometries == old(self).geometries,
            now >= old(self).last_update ==> delta == Some(
                delta_of((now - old(self).last_update) as i64),
            ) && final(self).last_update == now,
            now >= old(self).last_update ==> forall|k: int|
                0 <= k < old(self).geometries@.len() ==> (#[trigger] final(self).geometries@[k])
                    == old(self).geometries@[k].turned((now - old(self).last_update) as i64),
    {
        if now < self.last_update {
            return None;
        }
        let angle: i64 = now - self.last_update;
        self.last_update = now;
        let count: usize = self.geometries.len();
        let mut k: usize = 0;
        while k < count
            invariant
                k <= count,
                count == self.geometries@.len(),
                count == old(self).geometries@.len(),
                old(self).wf(),
                self.last_update == now,
                self.ctx == old(self).ctx,
                self.program == old(self).program,
                forall|m: int|
                    0 <= m < k ==> (#[trigger] self.geometries@[m]) == old(self).geometries@[m].turned(angle),
                forall|m: int|
                    k <= m < count ==> (#[trigger] self.geometries@[m]) == old(self).geometries@[m],
            decreases count - k,
        {
            self.geometries[k].update_state(angle);
            k = k + 1;
        }
        Some(
            RotationDelta {
                first: Rotation { axis: crate::cube::Axis::Z, millis: angle },
                second: Rotation { axis: crate::cube::Axis::Y, millis: angle },
            },
        )
    }
}

/// How many of the commands are indexed draws.
pub open spec fn indexed_draws(commands: Seq<GlCommand>) -> nat
    decreases commands.len(),
{
    if commands.len() == 0 {
        0
    } else {
        indexed_draws(commands.drop_last()) + if commands.last() is DrawElements {
            1nat
        } else {
            0nat
        }
    }
}

proof fn lemma_indexed_draws_concat(s: Seq<GlCommand>, t: Seq<GlCommand>)
    ensures
        indexed_draws(s + t) == indexed_draws(s) + indexed_draws(t),
    decreases t.len(),
{
    if t.len() == 0 {
        assert(s + t =~= s);
    } else {
        assert((s + t).drop_last() =~= s + t.drop_last());
        lemma_indexed_draws_concat(s, t.drop_last());
    }
}

/// A sequence of at most six commands has as many indexed draws as it has
/// commands that are one.
proof fn lemma_indexed_draws_short(s: Seq<GlCommand>)
    requires
        s.len() <= 6,
    ensures
        indexed_draws(s) == (if s.len() > 0 && s[0] is DrawElements { 1nat } else { 0nat })
            + (if s.len() > 1 && s[1] is DrawElements { 1nat } else { 0nat })
            + (if s.len() > 2 && s[2] is DrawElements { 1nat } else { 0nat })
            + (if s.len() > 3 && s[3] is DrawElements { 1nat } else { 0nat })
            + (if s.len() > 4 && s[4] is DrawElements { 1nat } else { 0nat })
            + (if s.len() > 5 && s[5] is DrawElements { 1nat } else { 0nat }),
    decreases s.len(),
{
    if s.len() > 0 {
        lemma_indexed_draws_short(s.drop_last());
    }
}

proof fn lemma_cube_draws_once(cube: Cube, program: &Program, instance: usize)
    ensures
        indexed_draws(cube.draw_commands(program, instance)) == 1,
{
    let vertices = attrib_commands(cube.vertices_buffer.buffer, program.attributes.vertices);
    let colors = attrib_commands(cube.colors_buffer.buffer, program.attributes.colors);
    let rest = seq![
        bind_command(BufferKind::ElementArrayBuffer, cube.indices_buffer.buffer),
        use_program_command(program.compiled),
        uniform_command(program.uniform_locations.projection, instance, UniformKind::Projection),
        uniform_command(program.uniform_locations.model_view, instance, UniformKind::ModelView),
        draw_elements_command(),
        unbind_command(BufferKind::ArrayBuffer),
    ];
    assert(cube.draw_commands(program, instance) == vertices + colors + rest);
    lemma_indexed_draws_short(vertices);
    lemma_indexed_draws_short(colors);
    lemma_indexed_draws_short(rest);
    lemma_indexed_draws_concat(vertices, colors);
    lemma_indexed_draws_concat(vertices + colors, rest);
}

proof fn lemma_instances_draw_once_each(cubes: Seq<Cube>, program: &Program, count: int)
    requires
        0 <= count <= cubes.len(),
        count <= usize::MAX,
    ensures
        indexed_draws(instances_commands(cubes, program, count)) == count,
    decreases count,
{
    if count > 0 {
        lemma_instances_draw_once_each(cubes, program, count - 1);
        lemma_cube_draws_once(cubes[count - 1], program, (count - 1) as usize);
        lemma_indexed_draws_concat(
            instances_commands(cubes, program, count - 1),
            cubes[count - 1].draw_commands(program, (count - 1) as usize),
        );
    }
}

/// A frame issues exactly one indexed draw for each cube of the scene.
pub proof fn lemma_frame_draws_each_cube_once(cubes: Seq<Cube>, program: &Program)
    requires
        cubes.len() <= usize::MAX,
    ensures
        indexed_draws(frame_commands(cubes, program)) == cubes.len(),
{
    lemma_indexed_draws_short(clear_commands());
    lemma_instances_draw_once_each(cubes, program, cubes.len() as int);
    lemma_indexed_draws_concat(
        clear_commands(),
        instances_commands(cubes, program, cubes.len() as int),
    );
}

}
