use textured_quad::command::{Command, Program, Texture, VertexArray};
use textured_quad::frame_loop::{
    handle_window_event, is_running, loop_entry_commands, run_frame, update_projection_matrix,
    DrawCall, Key, KeyAction, LoopState, Scene, WindowEvent, QUAD_INDEX_COUNT, SWAP_INTERVAL,
    TRIANGLE_VERTEX_COUNT,
};
use textured_quad::projection::projection_matrix;
use textured_quad::renderer::{BuildState, Renderer};

const P: Program = Program(3);
const A: VertexArray = VertexArray(4);
const T: Texture = Texture(5);

fn quad() -> Scene {
    Scene::quad(P, A, T)
}

fn draw_of_quad() -> Vec<Command> {
    vec![
        Command::ClearColor { red: 0, green: 0, blue: 0, alpha: 255 },
        Command::ClearColorBuffer,
        Command::UseProgram(P),
        Command::BindVertexArray(A),
        Command::BindTexture(T),
        Command::DrawElements { count: 6 },
        Command::SwapBuffers,
    ]
}

fn resize_commands(width: i32, height: i32) -> Vec<Command> {
    vec![
        Command::Viewport { x: 0, y: 0, width, height },
        Command::UniformProjection { program: P, matrix: projection_matrix(width, height) },
    ]
}

#[test]
fn quad_scene_is_indexed_textured_and_projected() {
    let scene = quad();
    assert_eq!(scene.program, P);
    assert_eq!(scene.vertex_array, A);
    assert_eq!(scene.texture, Some(T));
    assert!(scene.projected);
    assert_eq!(scene.draw, DrawCall::Elements(6));
    assert_eq!(QUAD_INDEX_COUNT, 6);
}

#[test]
fn triangle_scene_has_no_texture_and_no_projection() {
    let scene = Scene::triangle(P, A);
    assert_eq!(scene.texture, None);
    assert!(!scene.projected);
    assert_eq!(scene.draw, DrawCall::Arrays(3));
    assert_eq!(TRIANGLE_VERTEX_COUNT, 3);
}

#[test]
fn escape_press_closes_the_loop() {
    let (state, commands) = handle_window_event(
        LoopState::Running,
        WindowEvent::Key(Key::Escape, KeyAction::Press),
        &quad(),
    );
    assert_eq!(state, LoopState::Closing);
    assert_eq!(commands, vec![Command::SetShouldClose]);
}

#[test]
fn escape_release_and_repeat_are_ignored() {
    for action in [KeyAction::Release, KeyAction::Repeat] {
        let (state, commands) = handle_window_event(
            LoopState::Running,
            WindowEvent::Key(Key::Escape, action),
            &quad(),
        );
        assert_eq!(state, LoopState::Running);
        assert!(commands.is_empty());
    }
}

#[test]
fn other_keys_are_ignored() {
    for action in [KeyAction::Release, KeyAction::Press, KeyAction::Repeat] {
        let (state, commands) =
            handle_window_event(LoopState::Running, WindowEvent::Key(Key::Other, action), &quad());
        assert_eq!(state, LoopState::Running);
        assert!(commands.is_empty());
    }
}

#[test]
fn other_events_are_ignored() {
    for state in [LoopState::Running, LoopState::Closing] {
        let (next, commands) = handle_window_event(state, WindowEvent::Other, &quad());
        assert_eq!(next, state);
        assert!(commands.is_empty());
    }
}

#[test]
fn close_request_closes_the_loop() {
    let (state, commands) =
        handle_window_event(LoopState::Running, WindowEvent::CloseRequested, &quad());
    assert_eq!(state, LoopState::Closing);
    assert!(commands.is_empty());
}

#[test]
fn resize_to_640_by_480_sets_viewport_and_uniform() {
    let (state, commands) =
        handle_window_event(LoopState::Running, WindowEvent::FramebufferSize(640, 480), &quad());
    assert_eq!(state, LoopState::Running);
    assert_eq!(commands, resize_commands(640, 480));
    match commands[1] {
        Command::UniformProjection { program, matrix } => {
            assert_eq!(program, P);
            assert_eq!((matrix.row0.x.num, matrix.row0.x.den), (2, 640));
            assert_eq!((matrix.row0.y.num, matrix.row0.y.den), (0, 1));
            assert_eq!((matrix.row0.t.num, matrix.row0.t.den), (-1, 1));
            assert_eq!((matrix.row1.x.num, matrix.row1.x.den), (0, 1));
            assert_eq!((matrix.row1.y.num, matrix.row1.y.den), (-2, 480));
            assert_eq!((matrix.row1.t.num, matrix.row1.t.den), (1, 1));
        }
        other => panic!("unexpected command {:?}", other),
    }
}

#[test]
fn resize_of_a_triangle_scene_sets_the_viewport_only() {
    let scene = Scene::triangle(P, A);
    let (state, commands) =
        handle_window_event(LoopState::Running, WindowEvent::FramebufferSize(800, 600), &scene);
    assert_eq!(state, LoopState::Running);
    assert_eq!(commands, vec![Command::Viewport { x: 0, y: 0, width: 800, height: 600 }]);
}

#[test]
fn resize_is_handled_while_closing() {
    let (state, commands) =
        handle_window_event(LoopState::Closing, WindowEvent::FramebufferSize(10, 20), &quad());
    assert_eq!(state, LoopState::Closing);
    assert_eq!(commands, resize_commands(10, 20));
}

#[test]
fn closing_is_never_left() {
    let events = [
        WindowEvent::Other,
        WindowEvent::Key(Key::Escape, KeyAction::Release),
        WindowEvent::Key(Key::Other, KeyAction::Press),
        WindowEvent::FramebufferSize(1, 1),
        WindowEvent::CloseRequested,
    ];
    for event in events {
        let (state, _) = handle_window_event(LoopState::Closing, event, &quad());
        assert_eq!(state, LoopState::Closing);
    }
}

#[test]
fn update_projection_matrix_writes_the_formula() {
    assert_eq!(
        update_projection_matrix(P, 640, 480),
        Command::UniformProjection { program: P, matrix: projection_matrix(640, 480) }
    );
}

#[test]
fn frame_without_events_draws_and_presents() {
    let frame = run_frame(LoopState::Running, &Vec::new(), &quad());
    assert_eq!(frame.state, LoopState::Running);
    assert_eq!(frame.commands, draw_of_quad());
}

#[test]
fn frame_of_a_triangle_scene_draws_three_vertices() {
    let frame = run_frame(LoopState::Running, &Vec::new(), &Scene::triangle(P, A));
    assert_eq!(
        frame.commands,
        vec![
            Command::ClearColor { red: 0, green: 0, blue: 0, alpha: 255 },
            Command::ClearColorBuffer,
            Command::UseProgram(P),
            Command::BindVertexArray(A),
            Command::DrawArrays { count: 3 },
            Command::SwapBuffers,
        ]
    );
}

#[test]
fn escape_closes_within_the_cycle_wherever_it_stands() {
    let others = [
        WindowEvent::Other,
        WindowEvent::FramebufferSize(640, 480),
        WindowEvent::Key(Key::Other, KeyAction::Press),
        WindowEvent::Key(Key::Escape, KeyAction::Release),
    ];
    for position in 0..=others.len() {
        let mut events: Vec<WindowEvent> = others.to_vec();
        events.insert(position, WindowEvent::Key(Key::Escape, KeyAction::Press));
        let frame = run_frame(LoopState::Running, &events, &quad());
        assert_eq!(frame.state, LoopState::Closing);
        assert!(!is_running(frame.state));
        assert_eq!(
            frame.commands.iter().filter(|c| **c == Command::SetShouldClose).count(),
            1
        );
    }
}

#[test]
fn cycle_without_a_closing_event_keeps_running() {
    let events = vec![
        WindowEvent::Other,
        WindowEvent::FramebufferSize(640, 480),
        WindowEvent::Key(Key::Other, KeyAction::Press),
        WindowEvent::Key(Key::Escape, KeyAction::Repeat),
    ];
    let frame = run_frame(LoopState::Running, &events, &quad());
    assert_eq!(frame.state, LoopState::Running);
    assert!(is_running(frame.state));
}

#[test]
fn closing_frame_is_still_drawn() {
    let events = vec![WindowEvent::Key(Key::Escape, KeyAction::Press)];
    let frame = run_frame(LoopState::Running, &events, &quad());
    let mut expected = vec![Command::SetShouldClose];
    expected.extend(draw_of_quad());
    assert_eq!(frame.commands, expected);
    assert_eq!(frame.state, LoopState::Closing);
}

#[test]
fn resize_takes_effect_before_the_draw_call() {
    let events = vec![
        WindowEvent::Other,
        WindowEvent::FramebufferSize(640, 480),
        WindowEvent::Key(Key::Other, KeyAction::Release),
    ];
    let frame = run_frame(LoopState::Running, &events, &quad());
    let mut expected = resize_commands(640, 480);
    expected.extend(draw_of_quad());
    assert_eq!(frame.commands, expected);
    let viewport = frame.commands.iter().position(|c| matches!(c, Command::Viewport { .. }));
    let uniform =
        frame.commands.iter().position(|c| matches!(c, Command::UniformProjection { .. }));
    let draw = frame.commands.iter().position(|c| matches!(c, Command::DrawElements { .. }));
    assert!(viewport.unwrap() < draw.unwrap());
    assert!(uniform.unwrap() < draw.unwrap());
}

#[test]
fn events_are_handled_in_order() {
    let events = vec![
        WindowEvent::FramebufferSize(100, 200),
        WindowEvent::Key(Key::Escape, KeyAction::Press),
        WindowEvent::FramebufferSize(300, 400),
    ];
    let frame = run_frame(LoopState::Running, &events, &quad());
    let mut expected = resize_commands(100, 200);
    expected.push(Command::SetShouldClose);
    expected.extend(resize_commands(300, 400));
    expected.extend(draw_of_quad());
    assert_eq!(frame.commands, expected);
    assert_eq!(frame.state, LoopState::Closing);
}

#[test]
fn loop_entry_sets_the_swap_interval_and_uses_the_program() {
    assert_eq!(SWAP_INTERVAL, 1);
    let renderer = Renderer { program: Some(P), build: BuildState::Idle };
    assert!(renderer.holds_program(P));
    assert_eq!(
        loop_entry_commands(&renderer, &quad()),
        vec![Command::SwapInterval(1), Command::UseProgram(P)]
    );
}

#[test]
fn running_and_closing_are_told_apart() {
    assert!(is_running(LoopState::Running));
    assert!(!is_running(LoopState::Closing));
}

#[test]
fn frame_holds_a_single_draw_call_before_the_swap() {
    let events = vec![
        WindowEvent::FramebufferSize(640, 480),
        WindowEvent::Key(Key::Escape, KeyAction::Press),
        WindowEvent::Other,
    ];
    for scene in [quad(), Scene::triangle(P, A)] {
        let frame = run_frame(LoopState::Running, &events, &scene);
        let draws: Vec<usize> = frame
            .commands
            .iter()
            .enumerate()
            .filter(|(_, c)| {
                matches!(c, Command::DrawElements { .. } | Command::DrawArrays { .. })
            })
            .map(|(k, _)| k)
            .collect();
        assert_eq!(draws, vec![frame.commands.len() - 2]);
        assert_eq!(frame.commands.last(), Some(&Command::SwapBuffers));
    }
}
