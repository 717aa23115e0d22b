//! Building the shader program.
//!
//! The build is a conversation: the renderer hands out a batch of commands,
//! waits for the reply to the last of them, and decides from the reply what
//! comes next. `Renderer::create_program` is one turn of that conversation.
//!
//! A build takes these turns:
//!
//! 1. The program of an earlier build is deleted, and the vertex shader
//!    object is asked for.
//! 2. The fragment shader object is asked for.
//! 3. Both shaders are given their source and compiled, and the program
//!    object is asked for.
//! 4. Both shaders are attached, the program is linked, and its link status
//!    is asked for.
//! 5. Where the status is not zero, both shaders are detached and deleted,
//!    and the build has ended in a linked program. Where it is zero, the
//!    info log is asked for.
//! 6. The text of the info log is reported, and the build has failed, for
//!    good.

use vstd::prelude::*;
use crate::command::{Command, Program, Reply, Shader, ShaderStage};

verus! {

/// Source text of the vertex shader.
pub const VERTEX_SHADER_SOURCE: &'static str = "#version 330 core
        layout (location = 0) in vec2 aPos;
        layout (location = 1) in vec2 vtxTexCoord;

        out vec2 texCoord;

        uniform mat3x2 projectionMatrix;

        void main()
        {
        gl_Position = vec4(projectionMatrix * vec3(aPos, 1.0), 0.0, 1.0);
        texCoord = vtxTexCoord;
        }
        ";

/// Source text of the fragment shader.
pub const FRAGMENT_SHADER_SOURCE: &'static str = "#version 330 core

        in vec2 texCoord;

        out vec4 FragColor;

        uniform sampler2D textureSampler;

        void main()
        {
        FragColor = texture(textureSampler, texCoord);
        }
        ";

/// Name of the uniform that holds the projection.
pub const PROJECTION_UNIFORM: &'static str = "projectionMatrix";

/// Number of bytes asked of a program's info log.
pub const INFO_LOG_CAPACITY: u32 = 1000;

/// The source text embedded for a stage.
pub open spec fn source_text(stage: ShaderStage) -> Seq<char> {
    match stage {
        ShaderStage::Vertex => VERTEX_SHADER_SOURCE@,
        ShaderStage::Fragment => FRAGMENT_SHADER_SOURCE@,
    }
}

/// The source text that `Command::ShaderSource` stands for.
pub fn shader_source(stage: ShaderStage) -> (text: &'static str)
    ensures
        text@ == source_text(stage),
{
    match stage {
        ShaderStage::Vertex => VERTEX_SHADER_SOURCE,
        ShaderStage::Fragment => FRAGMENT_SHADER_SOURCE,
    }
}

/// `n` is the length of the text that `buffer` starts with: the bytes before
/// the first zero byte, or all of them where there is none.
pub open spec fn is_text_length(buffer: Seq<u8>, n: int) -> bool {
    &&& 0 <= n <= buffer.len()
    &&& forall|i: int| 0 <= i < n ==> buffer[i] != 0
    &&& n < buffer.len() ==> buffer[n] == 0
}

/// The text that a zero-terminated buffer holds.
pub open spec fn log_text(buffer: Seq<u8>) -> Seq<u8> {
    buffer.take(choose|n: int| is_text_length(buffer, n))
}

/// Every buffer starts with a text.
proof fn lemma_text_length_exists(buffer: Seq<u8>)
    ensures
        exists|n: int| is_text_length(buffer, n),
    decreases buffer.len(),
{
    if buffer.len() == 0 {
        assert(is_text_length(buffer, 0));
    } else {
        let shorter = buffer.drop_last();
        lemma_text_length_exists(shorter);
        let n: int = choose|n: int| is_text_length(shorter, n);
        assert(forall|i: int| 0 <= i < shorter.len() ==> shorter[i] == buffer[i]);
        assert forall|i: int| 0 <= i < n implies buffer[i] != 0 by {
            assert(shorter[i] != 0);
        }
        if n < shorter.len() || buffer.last() == 0 {
            assert(is_text_length(buffer, n));
        } else {
            assert(is_text_length(buffer, n + 1));
        }
    }
}

/// The text of a buffer is what its name says, for every buffer: the bytes
/// before the first zero byte, or all of them where there is none.
pub proof fn lemma_log_text_is_text(buffer: Seq<u8>)
    ensures
        is_text_length(buffer, log_text(buffer).len() as int),
        log_text(buffer) == buffer.take(log_text(buffer).len() as int),
{
    lemma_text_length_exists(buffer);
}

/// A buffer starts with one text only.
pub proof fn lemma_text_length_unique(buffer: Seq<u8>, n: int, m: int)
    requires
        is_text_length(buffer, n),
        is_text_length(buffer, m),
    ensures
        n == m,
        log_text(buffer) == buffer.take(n),
{
}

/// Cuts an info log at its first zero byte.
pub fn info_log_text(buffer: &Vec<u8>) -> (text: Vec<u8>)
    ensures
        text@ == log_text(buffer@),
        is_text_length(buffer@, text@.len() as int),
{
    let mut text: Vec<u8> = Vec::new();
    let mut i: usize = 0;
    while i < buffer.len() && buffer[i] != 0
        invariant
            0 <= i <= buffer.len(),
            text@ == buffer@.take(i as int),
            forall|j: int| 0 <= j < i ==> buffer@[j] != 0,
        decreases buffer.len() - i,
    {
        text.push(buffer[i]);
        i += 1;
    }
    proof {
        lemma_text_length_unique(buffer@, i as int, i as int);
    }
    text
}

/// How far a program build has come: which reply it waits for, and the
/// objects created so far.
#[derive(Clone, Copy, Debug, PartialEq, Eq)]
pub enum BuildState {
    /// No build is under way.
    Idle,
    /// Waiting for the vertex shader object.
    AwaitVertexShader,
    /// Waiting for the fragment shader object.
    AwaitFragmentShader { vertex: Shader },
    /// Waiting for the program object.
    AwaitProgram { vertex: Shader, fragment: Shader },
    /// Waiting for the link status.
    AwaitLinkStatus { vertex: Shader, fragment: Shader, program: Program },
    /// Waiting for the info log of a program that did not link.
    AwaitInfoLog { vertex: Shader, fragment: Shader, program: Program },
    /// A build has failed. Nothing is built after that.
    Failed,
}

/// What a turn of the build has come to.
#[derive(Clone, Copy, Debug, PartialEq, Eq, Structural)]
pub enum BuildOutcome {
    /// The commands of this turn are to be carried out, and the reply to the
    /// last of them handed to the next turn.
    Pending,
    /// The program is linked. The commands of this turn are still to be
    /// carried out; no reply is waited for.
    Linked(Program),
    /// The program did not link, now or earlier. There is nothing to carry
    /// out, and nothing may be drawn.
    Failed,
    /// The reply is not of the kind that was waited for. Nothing has changed.
    Rejected,
}

/// One turn of the build.
#[derive(Debug, PartialEq, Eq)]
pub struct BuildStep {
    /// The commands to carry out, in order.
    pub commands: Vec<Command>,
    /// What the turn has come to.
    pub outcome: BuildOutcome,
    /// The text of the info log, where the turn is the one that learns of a
    /// failed link; empty otherwise.
    pub log: Vec<u8>,
}

/// Holds the shader program that is drawn with.
#[derive(Clone, Copy, Debug, PartialEq, Eq)]
pub struct Renderer {
    /// The linked program, once a build has succeeded.
    pub program: Option<Program>,
    /// Where the build stands.
    pub build: BuildState,
}

/// The commands that begin a build: the program of an earlier build goes,
/// and the vertex shader object is asked for.
pub open spec fn opening_commands(earlier: Option<Program>) -> Seq<Command> {
    match earlier {
        Some(p) => seq![Command::DeleteProgram(p), Command::CreateShader(ShaderStage::Vertex)],
        None => seq![Command::CreateShader(ShaderStage::Vertex)],
    }
}

/// The commands that give both shaders their source, compile them and ask
/// for the program object.
pub open spec fn compile_commands(vertex: Shader, fragment: Shader) -> Seq<Command> {
    seq![
        Command::ShaderSource(vertex, ShaderStage::Vertex),
        Command::ShaderSource(fragment, ShaderStage::Fragment),
        Command::CompileShader(vertex),
        Command::CompileShader(fragment),
        Command::CreateProgram,
    ]
}

/// The commands that attach both shaders, link and ask how the link went.
pub open spec fn link_commands(vertex: Shader, fragment: Shader, program: Program) -> Seq<
    Command,
> {
    seq![
        Command::AttachShader(program, vertex),
        Command::AttachShader(program, fragment),
        Command::LinkProgram(program),
        Command::GetLinkStatus(program),
    ]
}

/// The commands that follow a successful link: both shaders are detached
/// and deleted.
pub open spec fn release_commands(vertex: Shader, fragment: Shader, program: Program) -> Seq<
    Command,
> {
    seq![
        Command::DetachShader(program, vertex),
        Command::DetachShader(program, fragment),
        Command::DeleteShader(vertex),
        Command::DeleteShader(fragment),
    ]
}

impl Renderer {
    /// The reply is of the kind that the build waits for. A build that is
    /// not under way, or has failed, waits for nothing and takes any reply.
    pub open spec fn awaits(self, reply: Reply) -> bool {
        match self.build {
            BuildState::Idle => true,
            BuildState::AwaitVertexShader => reply is Shader,
            BuildState::AwaitFragmentShader { .. } => reply is Shader,
            BuildState::AwaitProgram { .. } => reply is Program,
            BuildState::AwaitLinkStatus { .. } => reply is Status,
            BuildState::AwaitInfoLog { .. } => reply is Log,
            BuildState::Failed => true,
        }
    }

    /// The commands that a turn hands out.
    pub open spec fn turn_commands(self, reply: Reply) -> Seq<Command> {
        match (self.build, reply) {
            (BuildState::Idle, _) => opening_commands(self.program),
            (BuildState::AwaitVertexShader, Reply::Shader(_)) => seq![
                Command::CreateShader(ShaderStage::Fragment),
            ],
            (BuildState::AwaitFragmentShader { vertex }, Reply::Shader(fragment)) => {
                compile_commands(vertex, fragment)
            },
            (BuildState::AwaitProgram { vertex, fragment }, Reply::Program(program)) => {
                link_commands(vertex, fragment, program)
            },
            (BuildState::AwaitLinkStatus { vertex, fragment, program }, Reply::Status(status)) => {
                if status != 0 {
                    release_commands(vertex, fragment, program)
                } else {
                    seq![Command::GetProgramInfoLog(program, INFO_LOG_CAPACITY)]
                }
            },
            _ => Seq::empty(),
        }
    }

    /// The renderer after a turn.
    pub open spec fn turn_state(self, reply: Reply) -> Renderer {
        match (self.build, reply) {
            (BuildState::Idle, _) => Renderer {
                program: None,
                build: BuildState::AwaitVertexShader,
            },
            (BuildState::AwaitVertexShader, Reply::Shader(vertex)) => Renderer {
                build: BuildState::AwaitFragmentShader { vertex },
                ..self
            },
            (BuildState::AwaitFragmentShader { vertex }, Reply::Shader(fragment)) => Renderer {
                build: BuildState::AwaitProgram { vertex, fragment },
                ..self
            },
            (BuildState::AwaitProgram { vertex, fragment }, Reply::Program(program)) => Renderer {
                build: BuildState::AwaitLinkStatus { vertex, fragment, program },
                ..self
            },
            (BuildState::AwaitLinkStatus { vertex, fragment, program }, Reply::Status(status)) => {
                if status != 0 {
                    Renderer { program: Some(program), build: BuildState::Idle }
                } else {
                    Renderer {
                        build: BuildState::AwaitInfoLog { vertex, fragment, program },
                        ..self
                    }
                }
            },
            (BuildState::AwaitInfoLog { .. }, Reply::Log(_)) => Renderer {
                program: None,
                build: BuildState::Failed,
            },
            _ => self,
        }
    }

    /// What a turn comes to.
    pub open spec fn turn_outcome(self, reply: Reply) -> BuildOutcome {
        match (self.build, reply) {
            (BuildState::Failed, _) => BuildOutcome::Failed,
            (BuildState::AwaitInfoLog { .. }, Reply::Log(_)) => BuildOutcome::Failed,
            (BuildState::AwaitLinkStatus { program, .. }, Reply::Status(status)) => {
                if status != 0 {
                    BuildOutcome::Linked(program)
                } else {
                    BuildOutcome::Pending
                }
            },
            _ => if self.awaits(reply) {
                BuildOutcome::Pending
            } else {
                BuildOutcome::Rejected
            },
        }
    }

    /// The info log text that a turn reports.
    pub open spec fn turn_log(self, reply: Reply) -> Seq<u8> {
        match (self.build, reply) {
            (BuildState::AwaitInfoLog { .. }, Reply::Log(buffer)) => log_text(buffer@),
            _ => Seq::empty(),
        }
    }

    /// The renderer is at rest and holds `program`, linked: the program
    /// that may be drawn with.
    pub open spec fn holds(self, program: Program) -> bool {
        self.build is Idle && self.program == Some(program)
    }

    /// A renderer without a program and with no build under way.
    pub fn new() -> (renderer: Self)
        ensures
            renderer.program is None,
            renderer.build is Idle,
    {
        Renderer { program: None, build: BuildState::Idle }
    }

    /// `true` exactly where the renderer is at rest and holds `program`.
    pub fn holds_program(&self, program: Program) -> (held: bool)
        ensures
            held == self.holds(program),
    {
        match (self.build, self.program) {
            (BuildState::Idle, Some(own)) => own == program,
            _ => false,
        }
    }

    /// Takes one turn in building the program.
    ///
    /// The first turn of a build takes any reply. Each later turn takes the
    /// reply to the last command of the turn before. The build is over when
    /// the outcome is `Linked` or `Failed`; `self.program` holds a program
    /// only after `Linked`.
    pub fn create_program(&mut self, reply: Reply) -> (step: BuildStep)
        ensures
            step.commands@ == old(self).turn_commands(reply),
            step.outcome == old(self).turn_outcome(reply),
            step.log@ == old(self).turn_log(reply),
            *final(self) == old(self).turn_state(reply),
    {
        let mut commands: Vec<Command> = Vec::new();
        let mut log: Vec<u8> = Vec::new();
        let mut outcome = BuildOutcome::Rejected;
        match (self.build, reply) {
            (BuildState::Idle, _) => {
                if let Some(earlier) = self.program {
                    commands.push(Command::DeleteProgram(earlier));
                }
                commands.push(Command::CreateShader(ShaderStage::Vertex));
                self.program = None;
                self.build = BuildState::AwaitVertexShader;
                outcome = BuildOutcome::Pending;
            },
            (BuildState::AwaitVertexShader, Reply::Shader(vertex)) => {
                commands.push(Command::CreateShader(ShaderStage::Fragment));
                self.build = BuildState::AwaitFragmentShader { vertex };
                outcome = BuildOutcome::Pending;
            },
            (BuildState::AwaitFragmentShader { vertex }, Reply::Shader(fragment)) => {
                commands.push(Command::ShaderSource(vertex, ShaderStage::Vertex));
                commands.push(Command::ShaderSource(fragment, ShaderStage::Fragment));
                commands.push(Command::CompileShader(vertex));
                commands.push(Command::CompileShader(fragment));
                commands.push(Command::CreateProgram);
                self.build = BuildState::AwaitProgram { vertex, fragment };
                outcome = BuildOutcome::Pending;
            },
            (BuildState::AwaitProgram { vertex, fragment }, Reply::Program(program)) => {
                commands.push(Command::AttachShader(program, vertex));
                commands.push(Command::AttachShader(program, fragment));
                commands.push(Command::LinkProgram(program));
                commands.push(Command::GetLinkStatus(program));
                self.build = BuildState::AwaitLinkStatus { vertex, fragment, program };
                outcome = BuildOutcome::Pending;
            },
            (BuildState::AwaitLinkStatus { vertex, fragment, program }, Reply::Status(status)) => {
                if status != 0 {
                    commands.push(Command::DetachShader(program, vertex));
                    commands.push(Command::DetachShader(program, fragment));
                    commands.push(Command::DeleteShader(vertex));
                    commands.push(Command::DeleteShader(fragment));
                    self.program = Some(program);
                    self.build = BuildState::Idle;
                    outcome = BuildOutcome::Linked(program);
                } else {
                    commands.push(Command::GetProgramInfoLog(program, INFO_LOG_CAPACITY));
                    self.build = BuildState::AwaitInfoLog { vertex, fragment, program };
                    outcome = BuildOutcome::Pending;
                }
            },
            (BuildState::AwaitInfoLog { .. }, Reply::Log(buffer)) => {
                log = info_log_text(&buffer);
                self.program = None;
                self.build = BuildState::Failed;
                outcome = BuildOutcome::Failed;
            },
            (BuildState::Failed, _) => {
                outcome = BuildOutcome::Failed;
            },
            _ => {},
        }
        BuildStep { commands, outcome, log }
    }
}

} // verus!
