use deferred::frame::{frame_plan, BlitSource, RenderCommand, Target};
use deferred::lights::NUM_LIGHTS;
use deferred::mesh::{blit_vertices, cube_indices, cube_vertices, BlitVertex, CubeVertex};
use deferred::view::{handle_event, process_events, DebugBuffer, Key, LoopEvent};

#[test]
fn cube_has_four_corners_per_face() {
    let v = cube_vertices();
    assert_eq!(v.len(), 24);
    assert_eq!(v[0], CubeVertex { x: -1, y: -1, z: 1 });
    assert_eq!(v[23], CubeVertex { x: 1, y: -1, z: -1 });
    // every corner is on the unit lattice
    assert!(v.iter().all(|c| c.x.abs() == 1 && c.y.abs() == 1 && c.z.abs() == 1));
}

#[test]
fn cube_indices_triangulate_each_face() {
    let idx = cube_indices();
    let expected: Vec<u8> = (0u8..6)
        .flat_map(|f| {
            let b = 4 * f;
            [b, b + 1, b + 2, b + 2, b + 3, b]
        })
        .collect();
    assert_eq!(idx, expected);
    assert!(idx.iter().all(|&i| (i as usize) < cube_vertices().len()));
}

#[test]
fn blit_quad_covers_the_viewport() {
    let v = blit_vertices();
    assert_eq!(v.len(), 6);
    assert_eq!(v[0], BlitVertex { x: -1, y: -1, z: 0, u: 0, v: 0 });
    assert_eq!(v[5], BlitVertex { x: -1, y: 1, z: 0, u: 0, v: 1 });
}

#[test]
fn numpad_keys_pick_buffers() {
    let start: Option<DebugBuffer> = None;
    assert_eq!(
        handle_event(start, LoopEvent::KeyPressed(Key::Numpad1)),
        (false, Some(DebugBuffer::Position))
    );
    assert_eq!(
        handle_event(start, LoopEvent::KeyPressed(Key::Numpad2)),
        (false, Some(DebugBuffer::Normal))
    );
    assert_eq!(
        handle_event(start, LoopEvent::KeyPressed(Key::Numpad3)),
        (false, Some(DebugBuffer::Diffuse))
    );
    assert_eq!(
        handle_event(start, LoopEvent::KeyPressed(Key::Numpad4)),
        (false, Some(DebugBuffer::Depth))
    );
    assert_eq!(
        handle_event(Some(DebugBuffer::Depth), LoopEvent::KeyPressed(Key::Numpad0)),
        (false, None)
    );
}

#[test]
fn escape_and_close_quit() {
    let shown = Some(DebugBuffer::Normal);
    assert_eq!(handle_event(shown, LoopEvent::KeyPressed(Key::Escape)), (true, shown));
    assert_eq!(handle_event(shown, LoopEvent::Closed), (true, shown));
    assert_eq!(handle_event(shown, LoopEvent::Other), (false, shown));
}

#[test]
fn events_apply_in_order() {
    let evs = vec![
        LoopEvent::KeyPressed(Key::Numpad1),
        LoopEvent::Other,
        LoopEvent::KeyPressed(Key::Numpad3),
    ];
    assert_eq!(process_events(None, &evs), (false, Some(DebugBuffer::Diffuse)));
}

#[test]
fn quit_stops_the_queue() {
    let evs = vec![
        LoopEvent::KeyPressed(Key::Numpad2),
        LoopEvent::KeyPressed(Key::Escape),
        LoopEvent::KeyPressed(Key::Numpad0),
    ];
    assert_eq!(process_events(None, &evs), (true, Some(DebugBuffer::Normal)));
    let closed_first = vec![LoopEvent::Closed, LoopEvent::KeyPressed(Key::Numpad4)];
    assert_eq!(
        process_events(Some(DebugBuffer::Position), &closed_first),
        (true, Some(DebugBuffer::Position))
    );
    assert_eq!(process_events(None, &Vec::new()), (false, None));
}

#[test]
fn result_frame_runs_the_light_passes() {
    let plan = frame_plan(None);
    assert_eq!(
        plan,
        vec![
            RenderCommand::Clear { target: Target::Geometry, depth: true },
            RenderCommand::DrawTerrain,
            RenderCommand::Clear { target: Target::Result, depth: false },
            RenderCommand::DrawLights { instances: NUM_LIGHTS },
            RenderCommand::DrawEmitters { instances: NUM_LIGHTS },
            RenderCommand::Clear { target: Target::Window, depth: true },
            RenderCommand::Blit { source: BlitSource::Result },
        ]
    );
}

#[test]
fn debug_frame_blits_the_chosen_buffer() {
    let plan = frame_plan(Some(DebugBuffer::Normal));
    assert_eq!(
        plan,
        vec![
            RenderCommand::Clear { target: Target::Geometry, depth: true },
            RenderCommand::DrawTerrain,
            RenderCommand::Clear { target: Target::Window, depth: true },
            RenderCommand::Blit { source: BlitSource::Debug(DebugBuffer::Normal) },
        ]
    );
}
