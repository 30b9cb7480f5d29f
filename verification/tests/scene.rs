use cube_field::cube::{Axis, InitialState, Phase, Rotation, RotationDelta};
use cube_field::placement::{grid_positions, Position};
use cube_field::program::Program;
use cube_field::rendering_context::{
    BufferHandle, GlCommand, GlError, ProgramHandle, RenderingContext, Resource, UniformHandle,
};
use cube_field::scene::{Scene, MAX_TIMESTAMP};

fn handles(count: u32) -> Vec<BufferHandle> {
    (0..count).map(|id| BufferHandle { id }).collect()
}

fn shared_program() -> Program {
    let ctx = RenderingContext::new();
    match Program::new(
        &ctx,
        ProgramHandle { id: 40 },
        0,
        1,
        Some(UniformHandle { id: 50 }),
        Some(UniformHandle { id: 51 }),
    ) {
        Ok(program) => program,
        Err(e) => panic!("no program: {:?}", e),
    }
}

fn scene_of(field_size: i32, now: i64) -> (Scene, Vec<InitialState>) {
    let side = (2 * field_size - 1) as u32;
    match Scene::with_field_size(
        RenderingContext::new(),
        shared_program(),
        field_size,
        &handles(3 * side * side),
        now,
    ) {
        Ok(built) => built,
        Err(e) => panic!("no scene: {:?}", e),
    }
}

#[test]
fn field_of_one_has_one_cube_at_the_origin() {
    let (mut scene, states) = scene_of(1, 5_000);
    assert_eq!(scene.geometries.len(), 1);
    assert_eq!(scene.geometries[0].position, Position { x: 0, y: 0, z: 0 });
    assert_eq!(scene.geometries[0].phase, Phase::Positioned);
    assert_eq!(states.len(), 1);
    assert_eq!(states[0].view.eye, Position { x: 0, y: 0, z: 450 });
    assert_eq!(states[0].view.target, Position { x: 0, y: 0, z: 0 });
    assert_eq!(states[0].view.up, Axis::Y);

    let delta = scene.update_state(6_000);
    assert_eq!(
        delta,
        Some(RotationDelta {
            first: Rotation { axis: Axis::Z, millis: 1000 },
            second: Rotation { axis: Axis::Y, millis: 1000 },
        })
    );
    assert_eq!(1000 as f32 / 1e3, 1.0);
    assert_eq!(scene.last_update, 6_000);
}

fn millis(delta: Option<RotationDelta>) -> Option<(i64, i64)> {
    delta.map(|d| (d.first.millis, d.second.millis))
}

#[test]
fn update_measures_from_the_last_update() {
    let (mut scene, _) = scene_of(2, 100);
    assert_eq!(millis(scene.update_state(116)), Some((16, 16)));
    assert_eq!(millis(scene.update_state(133)), Some((17, 17)));
    assert_eq!(millis(scene.update_state(133)), Some((0, 0)));
    assert_eq!(scene.last_update, 133);
    assert_eq!(scene.geometries.len(), 9);
}

#[test]
fn the_time_of_the_last_update_never_goes_back() {
    let (mut scene, _) = scene_of(2, 100);
    assert_eq!(millis(scene.update_state(133)), Some((33, 33)));
    assert_eq!(scene.update_state(130), None);
    assert_eq!(scene.last_update, 133);
    assert_eq!(scene.update_state(-5), None);
    assert_eq!(scene.last_update, 133);
    assert_eq!(millis(scene.update_state(140)), Some((7, 7)));
    assert_eq!(scene.last_update, 140);
}

#[test]
fn update_spans_the_whole_range_of_the_clock() {
    let (mut scene, _) = scene_of(1, -MAX_TIMESTAMP);
    assert_eq!(
        millis(scene.update_state(MAX_TIMESTAMP)),
        Some((2 * MAX_TIMESTAMP, 2 * MAX_TIMESTAMP))
    );
    assert_eq!(scene.update_state(-MAX_TIMESTAMP), None);
    assert_eq!(scene.last_update, MAX_TIMESTAMP);
}

#[test]
fn every_cube_is_positioned_towards_its_own_place() {
    let (scene, states) = scene_of(3, 0);
    let positions = grid_positions(3);
    assert_eq!(scene.geometries.len(), 25);
    assert_eq!(states.len(), 25);
    for k in 0..25 {
        assert_eq!(scene.geometries[k].position, positions[k]);
        assert_eq!(scene.geometries[k].phase, Phase::Positioned);
        assert_eq!(states[k].view.target, positions[k]);
        assert_eq!(states[k].projection, states[0].projection);
    }
    assert_eq!(scene.ctx.commands.len(), 25 * 9);
}

#[test]
fn positioning_the_scene_again_resets_every_cube() {
    let (mut scene, states) = scene_of(2, 0);
    scene.update_state(16);
    scene.update_state(33);
    let again = scene.set_initial_state();
    assert_eq!(again, states);
}

#[test]
fn frame_clears_then_draws_every_cube_in_order() {
    let (mut scene, _) = scene_of(2, 0);
    scene.ctx.take_commands();
    scene.draw();
    let frame = scene.ctx.take_commands();
    assert_eq!(frame.len(), 5 + 9 * 12);
    assert_eq!(
        &frame[0..5],
        &[
            GlCommand::ClearColor { red: 0, green: 0, blue: 0, alpha: 1 },
            GlCommand::ClearDepth { depth: 1 },
            GlCommand::Enable { capability: 2929 },
            GlCommand::DepthFunc { func: 515 },
            GlCommand::Clear { mask: 16384 | 256 },
        ]
    );
    for k in 0..9usize {
        let first = 5 + 12 * k;
        assert_eq!(
            frame[first],
            GlCommand::BindBuffer {
                target: 34962,
                buffer: scene.geometries[k].vertices_buffer.buffer
            }
        );
        assert_eq!(
            frame[first + 10],
            GlCommand::DrawElements { mode: 4, count: 36, data_type: 5123, offset: 0 }
        );
        assert!(matches!(frame[first + 8], GlCommand::UniformMatrix4 { instance, .. } if instance == k));
    }
    let draws = frame.iter().filter(|c| matches!(c, GlCommand::DrawElements { .. })).count();
    assert_eq!(draws, 9);
}

#[test]
fn two_frames_issue_the_same_commands() {
    let (mut scene, _) = scene_of(2, 0);
    scene.ctx.take_commands();
    scene.draw();
    let first = scene.ctx.take_commands();
    scene.update_state(16);
    scene.draw();
    assert_eq!(scene.ctx.take_commands(), first);
}

#[test]
fn scene_use_program_activates_the_shared_program() {
    let (mut scene, _) = scene_of(1, 0);
    scene.ctx.take_commands();
    scene.use_program();
    assert_eq!(scene.get_ctx().program, Some(ProgramHandle { id: 40 }));
    assert_eq!(scene.get_program().compiled, ProgramHandle { id: 40 });
    assert_eq!(
        scene.ctx.take_commands(),
        vec![GlCommand::UseProgram { program: ProgramHandle { id: 40 } }]
    );
}

#[test]
fn no_scene_without_buffers_for_every_cube() {
    let built = Scene::new(RenderingContext::new(), shared_program(), &handles(3 * 3481 - 1), 0);
    match built {
        Ok(_) => panic!("built"),
        Err(e) => assert_eq!(e, GlError::ResourceCreation { resource: Resource::Buffer }),
    }
}

#[test]
fn the_full_scene_has_3481_positioned_cubes() {
    let built = Scene::new(RenderingContext::new(), shared_program(), &handles(3 * 3481), 42);
    let (scene, states) = match built {
        Ok(built) => built,
        Err(e) => panic!("no scene: {:?}", e),
    };
    assert_eq!(scene.geometries.len(), 3481);
    assert_eq!(states.len(), 3481);
    assert_eq!(scene.last_update, 42);
    assert!(scene.geometries.iter().all(|cube| cube.phase == Phase::Positioned));
}

#[test]
fn release_gives_back_every_buffer_and_then_the_program() {
    let (mut scene, _) = scene_of(2, 0);
    scene.draw();
    scene.ctx.take_commands();
    scene.release();
    let issued = scene.ctx.take_commands();
    assert_eq!(issued.len(), 3 * 9 + 1);
    for id in 0..27u32 {
        assert_eq!(issued[id as usize], GlCommand::DeleteBuffer { buffer: BufferHandle { id } });
    }
    assert_eq!(issued[27], GlCommand::DeleteProgram { program: ProgramHandle { id: 40 } });
    assert!(scene.geometries.is_empty());
    assert_eq!(scene.ctx.array_buffer, None);
    assert_eq!(scene.ctx.element_array_buffer, None);
    assert_eq!(scene.ctx.program, None);

    scene.draw();
    assert_eq!(scene.ctx.take_commands().len(), 5);
}

#[test]
fn building_leaves_the_last_index_buffer_bound() {
    let (scene, _) = scene_of(2, 0);
    assert_eq!(scene.ctx.array_buffer, None);
    assert_eq!(scene.ctx.element_array_buffer, Some(BufferHandle { id: 26 }));
    assert_eq!(scene.ctx.program, None);
}
