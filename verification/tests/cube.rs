use cube_field::cube::{
    build_field, get_geometries, get_one_cube_geometry, Axis, Cube, InitialState, LookAt, Phase,
    Projection, Rotation, RotationDelta,
};
use cube_field::geometry::{get_colors, get_cube, INDEX_COUNT, MAX_VERTICES, VERTEX_COUNT};
use cube_field::placement::{grid_positions, Position};
use cube_field::program::Program;
use cube_field::rendering_context::{
    BufferHandle, BufferKind, BufferRole, ElementType, GlCommand, GlError, ProgramHandle, RenderingContext,
    Resource,
    UniformHandle, UniformKind,
};

fn buffer(id: u32) -> BufferHandle {
    BufferHandle { id }
}

fn program() -> Program {
    let ctx = RenderingContext::new();
    match Program::new(
        &ctx,
        ProgramHandle { id: 40 },
        0,
        1,
        Some(UniformHandle { id: 50 }),
        Some(UniformHandle { id: 51 }),
    ) {
        Ok(program) => program,
        Err(e) => panic!("no program: {:?}", e),
    }
}

fn cube_at(ctx: &mut RenderingContext, position: Position) -> Cube {
    match get_one_cube_geometry(ctx, position, 2, Some(buffer(1)), Some(buffer(2)), Some(buffer(3))) {
        Ok(cube) => cube,
        Err(e) => panic!("no cube: {:?}", e),
    }
}

#[test]
fn unit_cube_tables_have_the_fixed_sizes() {
    let cube = get_cube();
    assert_eq!(VERTEX_COUNT, 24);
    assert_eq!(INDEX_COUNT, 36);
    assert_eq!(cube.vertices.len(), 3 * 24);
    assert_eq!(cube.indices.len(), 36);
    assert_eq!(get_colors().len(), 4 * 24);
    assert!(VERTEX_COUNT <= MAX_VERTICES);
    assert_eq!(MAX_VERTICES, 65536);
}

#[test]
fn unit_cube_indices_are_two_triangles_a_face() {
    let expected: Vec<u16> = vec![
        0, 1, 2, 0, 2, 3, 4, 5, 6, 4, 6, 7, 8, 9, 10, 8, 10, 11, 12, 13, 14, 12, 14, 15, 16, 17,
        18, 16, 18, 19, 20, 21, 22, 20, 22, 23,
    ];
    assert_eq!(get_cube().indices, expected);
}

#[test]
fn every_index_names_a_vertex() {
    let cube = get_cube();
    let vertex_count = cube.vertices.len() / 3;
    assert_eq!(vertex_count, 24);
    for index in &cube.indices {
        assert!((*index as usize) < vertex_count);
    }
    for v in 0..24u16 {
        assert!(cube.indices.contains(&v));
    }
}

#[test]
fn unit_cube_corners_and_colors() {
    let cube = get_cube();
    assert!(cube.vertices.iter().all(|c| *c == 1 || *c == -1));
    assert_eq!(&cube.vertices[0..12], &[-1, -1, 1, 1, -1, 1, 1, 1, 1, -1, 1, 1]);
    assert_eq!(&cube.vertices[60..72], &[-1, -1, -1, -1, -1, 1, -1, 1, 1, -1, 1, -1]);
    let colors = get_colors();
    assert_eq!(&colors[0..4], &[1, 1, 1, 1]);
    assert_eq!(&colors[16..20], &[1, 0, 0, 1]);
    assert_eq!(&colors[32..36], &[0, 1, 0, 1]);
    assert_eq!(&colors[48..52], &[0, 0, 1, 1]);
    assert_eq!(&colors[64..68], &[1, 1, 0, 1]);
    assert_eq!(&colors[92..96], &[1, 0, 1, 1]);
    for vertex in 0..24 {
        let face = vertex / 4;
        assert_eq!(&colors[4 * vertex..4 * vertex + 4], &colors[16 * face..16 * face + 4]);
    }
}

#[test]
fn building_a_cube_uploads_its_three_buffers() {
    let mut ctx = RenderingContext::new();
    let cube = cube_at(&mut ctx, Position { x: 6, y: -12, z: 0 });
    assert_eq!(cube.position, Position { x: 6, y: -12, z: 0 });
    assert_eq!(cube.phase, Phase::Unpositioned);
    assert_eq!(cube.vertices_buffer.kind, BufferKind::ArrayBuffer);
    assert_eq!(cube.colors_buffer.kind, BufferKind::ArrayBuffer);
    assert_eq!(cube.indices_buffer.kind, BufferKind::ElementArrayBuffer);
    assert_eq!(cube.vertices_buffer.data, get_cube().vertices);
    assert_eq!(cube.colors_buffer.data, get_colors());
    assert_eq!(cube.indices_buffer.data, get_cube().indices);
    assert_eq!(
        ctx.commands,
        vec![
            GlCommand::BindBuffer { target: 34962, buffer: buffer(1) },
            GlCommand::BufferData {
                target: 34962,
                buffer: buffer(1),
                element: ElementType::Float32,
                length: 72,
                usage: 35044,
                instance: 2,
                role: BufferRole::Vertices,
            },
            GlCommand::UnbindBuffer { target: 34962 },
            GlCommand::BindBuffer { target: 34962, buffer: buffer(2) },
            GlCommand::BufferData {
                target: 34962,
                buffer: buffer(2),
                element: ElementType::Float32,
                length: 96,
                usage: 35044,
                instance: 2,
                role: BufferRole::Colors,
            },
            GlCommand::UnbindBuffer { target: 34962 },
            GlCommand::BindBuffer { target: 34963, buffer: buffer(3) },
            GlCommand::BufferData {
                target: 34963,
                buffer: buffer(3),
                element: ElementType::Uint16,
                length: 36,
                usage: 35044,
                instance: 2,
                role: BufferRole::Indices,
            },
            GlCommand::UnbindBuffer { target: 34962 },
        ]
    );
}

#[test]
fn a_refused_buffer_ends_the_building() {
    let origin = Position { x: 0, y: 0, z: 0 };
    let refused = GlError::ResourceCreation { resource: Resource::Buffer };

    let mut ctx = RenderingContext::new();
    match get_one_cube_geometry(&mut ctx, origin, 0, None, Some(buffer(2)), Some(buffer(3))) {
        Ok(_) => panic!("built"),
        Err(e) => assert_eq!(e, refused),
    }
    assert!(ctx.commands.is_empty());

    let mut ctx = RenderingContext::new();
    match get_one_cube_geometry(&mut ctx, origin, 0, Some(buffer(1)), None, Some(buffer(3))) {
        Ok(_) => panic!("built"),
        Err(e) => assert_eq!(e, refused),
    }
    assert_eq!(ctx.commands.len(), 3);

    let mut ctx = RenderingContext::new();
    match get_one_cube_geometry(&mut ctx, origin, 0, Some(buffer(1)), Some(buffer(2)), None) {
        Ok(_) => panic!("built"),
        Err(e) => assert_eq!(e, refused),
    }
    assert_eq!(ctx.commands.len(), 6);
}

#[test]
fn initial_state_looks_at_the_cube_from_the_fixed_eye() {
    let mut ctx = RenderingContext::new();
    let mut cube = cube_at(&mut ctx, Position { x: 18, y: -6, z: 0 });
    let state = cube.set_initial_state();
    assert_eq!(
        state,
        InitialState {
            projection: Projection {
                field_of_view_degrees: 45,
                width: 640,
                height: 480,
                near_tenths: 1,
                far: 500
            },
            view: LookAt {
                eye: Position { x: 0, y: 0, z: 450 },
                target: Position { x: 18, y: -6, z: 0 },
                up: Axis::Y
            },
        }
    );
    assert_eq!(cube.phase, Phase::Positioned);
    assert_eq!(cube.position, Position { x: 18, y: -6, z: 0 });
}

#[test]
fn positioning_again_gives_the_same_initial_state() {
    let mut ctx = RenderingContext::new();
    let mut cube = cube_at(&mut ctx, Position { x: 6, y: 6, z: 0 });
    let first = cube.set_initial_state();
    for angle in [16, 17, -3, 1000] {
        assert!(cube.update_state(angle).is_some());
    }
    let again = cube.set_initial_state();
    assert_eq!(first, again);
    assert_eq!(cube.phase, Phase::Positioned);
}

#[test]
fn update_turns_about_z_then_y() {
    let mut ctx = RenderingContext::new();
    let mut cube = cube_at(&mut ctx, Position { x: 0, y: 0, z: 0 });
    cube.set_initial_state();
    assert_eq!(
        cube.update_state(1000),
        Some(RotationDelta {
            first: Rotation { axis: Axis::Z, millis: 1000 },
            second: Rotation { axis: Axis::Y, millis: 1000 },
        })
    );
    assert_eq!(
        cube.update_state(-16),
        Some(RotationDelta {
            first: Rotation { axis: Axis::Z, millis: -16 },
            second: Rotation { axis: Axis::Y, millis: -16 },
        })
    );
}

#[test]
fn an_unpositioned_cube_neither_turns_nor_draws() {
    let mut ctx = RenderingContext::new();
    let mut cube = cube_at(&mut ctx, Position { x: 0, y: 0, z: 0 });
    ctx.take_commands();
    assert_eq!(cube.update_state(16), None);
    assert_eq!(cube.phase, Phase::Unpositioned);
    assert!(!cube.draw(&mut ctx, &program(), 0));
    assert!(ctx.commands.is_empty());
    assert_eq!(ctx.program, None);
}

#[test]
fn draw_issues_the_twelve_commands_in_order() {
    let mut ctx = RenderingContext::new();
    let mut cube = cube_at(&mut ctx, Position { x: 0, y: 0, z: 0 });
    cube.set_initial_state();
    ctx.take_commands();
    assert!(cube.draw(&mut ctx, &program(), 7));
    assert_eq!(
        ctx.commands,
        vec![
            GlCommand::BindBuffer { target: 34962, buffer: buffer(1) },
            GlCommand::VertexAttribPointer {
                location: 0,
                size: 3,
                data_type: 5126,
                normalized: false,
                stride: 0,
                offset: 0
            },
            GlCommand::EnableVertexAttribArray { location: 0 },
            GlCommand::BindBuffer { target: 34962, buffer: buffer(2) },
            GlCommand::VertexAttribPointer {
                location: 1,
                size: 4,
                data_type: 5126,
                normalized: false,
                stride: 0,
                offset: 0
            },
            GlCommand::EnableVertexAttribArray { location: 1 },
            GlCommand::BindBuffer { target: 34963, buffer: buffer(3) },
            GlCommand::UseProgram { program: ProgramHandle { id: 40 } },
            GlCommand::UniformMatrix4 {
                location: UniformHandle { id: 50 },
                instance: 7,
                matrix: UniformKind::Projection
            },
            GlCommand::UniformMatrix4 {
                location: UniformHandle { id: 51 },
                instance: 7,
                matrix: UniformKind::ModelView
            },
            GlCommand::DrawElements { mode: 4, count: 36, data_type: 5123, offset: 0 },
            GlCommand::UnbindBuffer { target: 34962 },
        ]
    );
    assert_eq!(ctx.array_buffer, None);
    assert_eq!(ctx.element_array_buffer, Some(buffer(3)));
    assert_eq!(ctx.program, Some(ProgramHandle { id: 40 }));
}

fn program_with_locations(vertices: i32, colors: i32) -> Program {
    let ctx = RenderingContext::new();
    match Program::new(
        &ctx,
        ProgramHandle { id: 40 },
        vertices,
        colors,
        Some(UniformHandle { id: 50 }),
        Some(UniformHandle { id: 51 }),
    ) {
        Ok(program) => program,
        Err(e) => panic!("no program: {:?}", e),
    }
}

#[test]
fn an_unused_attribute_is_neither_laid_out_nor_enabled() {
    let mut ctx = RenderingContext::new();
    let mut cube = cube_at(&mut ctx, Position { x: 0, y: 0, z: 0 });
    cube.set_initial_state();
    ctx.take_commands();
    assert!(cube.draw(&mut ctx, &program_with_locations(3, -1), 0));
    assert_eq!(
        ctx.commands,
        vec![
            GlCommand::BindBuffer { target: 34962, buffer: buffer(1) },
            GlCommand::VertexAttribPointer {
                location: 3,
                size: 3,
                data_type: 5126,
                normalized: false,
                stride: 0,
                offset: 0
            },
            GlCommand::EnableVertexAttribArray { location: 3 },
            GlCommand::BindBuffer { target: 34962, buffer: buffer(2) },
            GlCommand::BindBuffer { target: 34963, buffer: buffer(3) },
            GlCommand::UseProgram { program: ProgramHandle { id: 40 } },
            GlCommand::UniformMatrix4 {
                location: UniformHandle { id: 50 },
                instance: 0,
                matrix: UniformKind::Projection
            },
            GlCommand::UniformMatrix4 {
                location: UniformHandle { id: 51 },
                instance: 0,
                matrix: UniformKind::ModelView
            },
            GlCommand::DrawElements { mode: 4, count: 36, data_type: 5123, offset: 0 },
            GlCommand::UnbindBuffer { target: 34962 },
        ]
    );
}

#[test]
fn no_attribute_index_is_ever_out_of_the_drivers_range() {
    for (vertices, colors) in [(-1, -1), (-1, 0), (0, -1), (i32::MIN, 7)] {
        let mut ctx = RenderingContext::new();
        let mut cube = cube_at(&mut ctx, Position { x: 0, y: 0, z: 0 });
        cube.set_initial_state();
        ctx.take_commands();
        assert!(cube.draw(&mut ctx, &program_with_locations(vertices, colors), 0));
        let used = [vertices, colors].iter().filter(|l| **l >= 0).count();
        assert_eq!(ctx.commands.len(), 8 + 2 * used);
        for command in &ctx.commands {
            match *command {
                GlCommand::VertexAttribPointer { location, .. }
                | GlCommand::EnableVertexAttribArray { location } => {
                    assert!(location <= i32::MAX as u32);
                }
                _ => {}
            }
        }
        let last_but_one = ctx.commands[ctx.commands.len() - 2];
        assert_eq!(
            last_but_one,
            GlCommand::DrawElements { mode: 4, count: 36, data_type: 5123, offset: 0 }
        );
    }
}

#[test]
fn draw_issues_exactly_one_indexed_draw() {
    let mut ctx = RenderingContext::new();
    let mut cube = cube_at(&mut ctx, Position { x: 6, y: 0, z: 0 });
    cube.set_initial_state();
    ctx.take_commands();
    assert!(cube.draw(&mut ctx, &program(), 0));
    let draws: Vec<&GlCommand> =
        ctx.commands.iter().filter(|c| matches!(c, GlCommand::DrawElements { .. })).collect();
    assert_eq!(
        draws,
        vec![&GlCommand::DrawElements { mode: 4, count: 36, data_type: 5123, offset: 0 }]
    );
}

#[test]
fn field_is_built_in_placement_order_from_three_buffers_each() {
    let mut ctx = RenderingContext::new();
    let buffers: Vec<BufferHandle> = (0..27).map(buffer).collect();
    let cubes = match build_field(&mut ctx, 2, &buffers) {
        Ok(cubes) => cubes,
        Err(e) => panic!("no field: {:?}", e),
    };
    let positions = grid_positions(2);
    assert_eq!(cubes.len(), 9);
    for (k, cube) in cubes.iter().enumerate() {
        assert_eq!(cube.position, positions[k]);
        assert_eq!(cube.phase, Phase::Unpositioned);
        assert_eq!(cube.vertices_buffer.buffer, buffer(3 * k as u32));
        assert_eq!(cube.colors_buffer.buffer, buffer(3 * k as u32 + 1));
        assert_eq!(cube.indices_buffer.buffer, buffer(3 * k as u32 + 2));
    }
    assert_eq!(ctx.commands.len(), 9 * 9);
    assert_eq!(ctx.commands[9], GlCommand::BindBuffer { target: 34962, buffer: buffer(3) });
    for (k, chunk) in ctx.commands.chunks(9).enumerate() {
        for (command, role) in [
            (chunk[1], BufferRole::Vertices),
            (chunk[4], BufferRole::Colors),
            (chunk[7], BufferRole::Indices),
        ] {
            assert!(matches!(
                command,
                GlCommand::BufferData { instance, role: r, .. } if instance == k && r == role
            ));
        }
    }
}

#[test]
fn field_with_too_few_buffers_is_refused_whole() {
    let mut ctx = RenderingContext::new();
    let buffers: Vec<BufferHandle> = (0..26).map(buffer).collect();
    match build_field(&mut ctx, 2, &buffers) {
        Ok(_) => panic!("built"),
        Err(e) => assert_eq!(e, GlError::ResourceCreation { resource: Resource::Buffer }),
    }
    assert!(ctx.commands.is_empty());
}

#[test]
fn the_full_field_has_3481_cubes() {
    let mut ctx = RenderingContext::new();
    let buffers: Vec<BufferHandle> = (0..3 * 3481).map(buffer).collect();
    let cubes = match get_geometries(&mut ctx, &buffers) {
        Ok(cubes) => cubes,
        Err(e) => panic!("no field: {:?}", e),
    };
    assert_eq!(cubes.len(), 3481);
    assert_eq!(cubes[0].position, Position { x: 0, y: 0, z: 0 });
    assert_eq!(cubes[3480].position, Position { x: -174, y: -174, z: 0 });
    assert_eq!(ctx.commands.len(), 9 * 3481);

    let mut ctx = RenderingContext::new();
    let short: Vec<BufferHandle> = (0..3 * 3481 - 1).map(buffer).collect();
    assert!(get_geometries(&mut ctx, &short).is_err());
}
