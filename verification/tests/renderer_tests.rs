use textured_quad::command::{Command, Program, Reply, Shader, ShaderStage};
use textured_quad::renderer::{
    info_log_text, shader_source, BuildOutcome, BuildState, Renderer, FRAGMENT_SHADER_SOURCE,
    INFO_LOG_CAPACITY, PROJECTION_UNIFORM, VERTEX_SHADER_SOURCE,
};

const V: Shader = Shader(11);
const F: Shader = Shader(12);
const P: Program = Program(21);

/// Runs a build up to the point where the link status is waited for, and
/// returns every command handed out on the way.
fn build_up_to_link(renderer: &mut Renderer) -> Vec<Command> {
    let mut commands = Vec::new();
    for reply in [Reply::Done, Reply::Shader(V), Reply::Shader(F), Reply::Program(P)] {
        let step = renderer.create_program(reply);
        assert_eq!(step.outcome, BuildOutcome::Pending);
        assert!(step.log.is_empty());
        commands.extend(step.commands);
    }
    commands
}

fn commands_up_to_link() -> Vec<Command> {
    vec![
        Command::CreateShader(ShaderStage::Vertex),
        Command::CreateShader(ShaderStage::Fragment),
        Command::ShaderSource(V, ShaderStage::Vertex),
        Command::ShaderSource(F, ShaderStage::Fragment),
        Command::CompileShader(V),
        Command::CompileShader(F),
        Command::CreateProgram,
        Command::AttachShader(P, V),
        Command::AttachShader(P, F),
        Command::LinkProgram(P),
        Command::GetLinkStatus(P),
    ]
}

#[test]
fn new_renderer_has_no_program() {
    let renderer = Renderer::new();
    assert_eq!(renderer.program, None);
    assert_eq!(renderer.build, BuildState::Idle);
}

#[test]
fn first_turn_asks_for_the_vertex_shader() {
    let mut renderer = Renderer::new();
    let step = renderer.create_program(Reply::Done);
    assert_eq!(step.commands, vec![Command::CreateShader(ShaderStage::Vertex)]);
    assert_eq!(step.outcome, BuildOutcome::Pending);
    assert_eq!(renderer.build, BuildState::AwaitVertexShader);
    assert_eq!(renderer.program, None);
}

#[test]
fn build_hands_out_commands_in_order() {
    let mut renderer = Renderer::new();
    assert_eq!(build_up_to_link(&mut renderer), commands_up_to_link());
    assert_eq!(
        renderer.build,
        BuildState::AwaitLinkStatus { vertex: V, fragment: F, program: P }
    );
    assert_eq!(renderer.program, None);
}

#[test]
fn successful_link_detaches_and_deletes_both_shaders() {
    let mut renderer = Renderer::new();
    build_up_to_link(&mut renderer);
    let step = renderer.create_program(Reply::Status(1));
    assert_eq!(
        step.commands,
        vec![
            Command::DetachShader(P, V),
            Command::DetachShader(P, F),
            Command::DeleteShader(V),
            Command::DeleteShader(F),
        ]
    );
    assert_eq!(step.outcome, BuildOutcome::Linked(P));
    assert!(step.log.is_empty());
    assert_eq!(renderer.program, Some(P));
    assert_eq!(renderer.build, BuildState::Idle);
}

#[test]
fn every_attached_shader_is_detached_again() {
    let mut renderer = Renderer::new();
    let mut commands = build_up_to_link(&mut renderer);
    commands.extend(renderer.create_program(Reply::Status(-7)).commands);
    let mut attached: Vec<(Program, Shader)> = Vec::new();
    let mut live: Vec<Shader> = vec![V, F];
    for command in commands {
        match command {
            Command::AttachShader(p, s) => attached.push((p, s)),
            Command::DetachShader(p, s) => attached.retain(|pair| *pair != (p, s)),
            Command::DeleteShader(s) => live.retain(|shader| *shader != s),
            _ => {}
        }
    }
    assert!(attached.is_empty());
    assert!(live.is_empty());
    assert_eq!(renderer.program, Some(P));
}

#[test]
fn any_status_but_zero_counts_as_linked() {
    for status in [1, -1, 2, i32::MAX, i32::MIN] {
        let mut renderer = Renderer::new();
        build_up_to_link(&mut renderer);
        let step = renderer.create_program(Reply::Status(status));
        assert_eq!(step.outcome, BuildOutcome::Linked(P));
    }
}

#[test]
fn failed_link_asks_for_the_info_log() {
    let mut renderer = Renderer::new();
    build_up_to_link(&mut renderer);
    let step = renderer.create_program(Reply::Status(0));
    assert_eq!(step.commands, vec![Command::GetProgramInfoLog(P, 1000)]);
    assert_eq!(INFO_LOG_CAPACITY, 1000);
    assert_eq!(step.outcome, BuildOutcome::Pending);
    assert_eq!(renderer.program, None);
    assert_eq!(
        renderer.build,
        BuildState::AwaitInfoLog { vertex: V, fragment: F, program: P }
    );
}

#[test]
fn failed_link_reports_the_log_and_ends_the_build() {
    let mut renderer = Renderer::new();
    build_up_to_link(&mut renderer);
    renderer.create_program(Reply::Status(0));
    let mut buffer = vec![0u8; 1000];
    buffer[..12].copy_from_slice(b"syntax error");
    let step = renderer.create_program(Reply::Log(buffer));
    assert!(step.commands.is_empty());
    assert_eq!(step.outcome, BuildOutcome::Failed);
    assert_eq!(step.log, b"syntax error".to_vec());
    assert_eq!(renderer.program, None);
    assert_eq!(renderer.build, BuildState::Failed);
}

#[test]
fn nothing_is_built_after_a_failure() {
    let mut renderer = Renderer::new();
    build_up_to_link(&mut renderer);
    renderer.create_program(Reply::Status(0));
    renderer.create_program(Reply::Log(Vec::new()));
    for reply in [
        Reply::Done,
        Reply::Shader(V),
        Reply::Program(P),
        Reply::Status(1),
        Reply::Log(vec![1, 2, 3]),
    ] {
        let step = renderer.create_program(reply);
        assert!(step.commands.is_empty());
        assert_eq!(step.outcome, BuildOutcome::Failed);
        assert!(step.log.is_empty());
        assert_eq!(renderer.program, None);
        assert_eq!(renderer.build, BuildState::Failed);
    }
}

#[test]
fn a_second_build_deletes_the_first_program() {
    let mut renderer = Renderer::new();
    build_up_to_link(&mut renderer);
    renderer.create_program(Reply::Status(1));
    let step = renderer.create_program(Reply::Done);
    assert_eq!(
        step.commands,
        vec![Command::DeleteProgram(P), Command::CreateShader(ShaderStage::Vertex)]
    );
    assert_eq!(step.outcome, BuildOutcome::Pending);
    assert_eq!(renderer.program, None);
    assert_eq!(renderer.build, BuildState::AwaitVertexShader);
}

#[test]
fn first_turn_takes_any_reply() {
    for reply in [Reply::Shader(V), Reply::Program(P), Reply::Status(0), Reply::Log(vec![7])] {
        let mut renderer = Renderer::new();
        let step = renderer.create_program(reply);
        assert_eq!(step.commands, vec![Command::CreateShader(ShaderStage::Vertex)]);
        assert_eq!(step.outcome, BuildOutcome::Pending);
    }
}

#[test]
fn a_reply_of_the_wrong_kind_is_rejected() {
    let mut renderer = Renderer::new();
    renderer.create_program(Reply::Done);
    for reply in [Reply::Done, Reply::Program(P), Reply::Status(1), Reply::Log(vec![])] {
        let step = renderer.create_program(reply);
        assert!(step.commands.is_empty());
        assert_eq!(step.outcome, BuildOutcome::Rejected);
        assert_eq!(renderer.build, BuildState::AwaitVertexShader);
    }
    renderer.create_program(Reply::Shader(V));
    let step = renderer.create_program(Reply::Status(1));
    assert_eq!(step.outcome, BuildOutcome::Rejected);
    assert_eq!(renderer.build, BuildState::AwaitFragmentShader { vertex: V });
    renderer.create_program(Reply::Shader(F));
    let step = renderer.create_program(Reply::Shader(V));
    assert_eq!(step.outcome, BuildOutcome::Rejected);
    assert_eq!(renderer.build, BuildState::AwaitProgram { vertex: V, fragment: F });
    renderer.create_program(Reply::Program(P));
    let step = renderer.create_program(Reply::Done);
    assert_eq!(step.outcome, BuildOutcome::Rejected);
    assert!(step.commands.is_empty());
    renderer.create_program(Reply::Status(0));
    let step = renderer.create_program(Reply::Status(0));
    assert_eq!(step.outcome, BuildOutcome::Rejected);
    assert_eq!(
        renderer.build,
        BuildState::AwaitInfoLog { vertex: V, fragment: F, program: P }
    );
}

#[test]
fn info_log_is_cut_at_the_first_zero() {
    assert_eq!(info_log_text(&vec![b'a', b'b', 0, b'c', 0]), vec![b'a', b'b']);
    assert_eq!(info_log_text(&vec![0, b'a']), Vec::<u8>::new());
    assert_eq!(info_log_text(&Vec::new()), Vec::<u8>::new());
}

#[test]
fn info_log_without_zero_is_kept_whole() {
    assert_eq!(info_log_text(&vec![b'x', b'y', b'z']), vec![b'x', b'y', b'z']);
    let full = vec![b'e'; 1000];
    assert_eq!(info_log_text(&full), full);
}

#[test]
fn shader_sources_are_the_embedded_texts() {
    assert_eq!(shader_source(ShaderStage::Vertex), VERTEX_SHADER_SOURCE);
    assert_eq!(shader_source(ShaderStage::Fragment), FRAGMENT_SHADER_SOURCE);
    assert!(VERTEX_SHADER_SOURCE.starts_with("#version 330 core\n"));
    assert!(FRAGMENT_SHADER_SOURCE.starts_with("#version 330 core\n"));
    assert!(VERTEX_SHADER_SOURCE
        .contains("gl_Position = vec4(projectionMatrix * vec3(aPos, 1.0), 0.0, 1.0);"));
    assert!(FRAGMENT_SHADER_SOURCE.contains("FragColor = texture(textureSampler, texCoord);"));
}

#[test]
fn vertex_shader_declares_the_projection_uniform() {
    assert_eq!(PROJECTION_UNIFORM, "projectionMatrix");
    let declaration = format!("uniform mat3x2 {};", PROJECTION_UNIFORM);
    assert!(VERTEX_SHADER_SOURCE.contains(&declaration));
}

#[test]
fn renderer_holds_its_program_only_after_a_link() {
    let mut renderer = Renderer::new();
    assert!(!renderer.holds_program(P));
    build_up_to_link(&mut renderer);
    assert!(!renderer.holds_program(P));
    renderer.create_program(Reply::Status(1));
    assert!(renderer.holds_program(P));
    assert!(!renderer.holds_program(Program(22)));
    renderer.create_program(Reply::Done);
    assert!(!renderer.holds_program(P));
}

#[test]
fn renderer_holds_no_program_after_a_failure() {
    let mut renderer = Renderer::new();
    build_up_to_link(&mut renderer);
    renderer.create_program(Reply::Status(0));
    assert!(!renderer.holds_program(P));
    renderer.create_program(Reply::Log(vec![0; 1000]));
    assert!(!renderer.holds_program(P));
    renderer.create_program(Reply::Status(1));
    assert!(!renderer.holds_program(P));
}
