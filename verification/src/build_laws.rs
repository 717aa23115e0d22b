//! What holds of every program build, whatever the driver replies.

use vstd::prelude::*;
use crate::command::{Command, Program, Reply, Shader, ShaderStage};
use crate::frame_loop::Scene;
use crate::objects::Objects;
use crate::renderer::{
    compile_commands, link_commands, log_text, opening_commands, release_commands, BuildOutcome,
    BuildState, Renderer, INFO_LOG_CAPACITY,
};

verus! {

impl Renderer {
    /// The command whose reply the build waits for.
    pub open spec fn pending(self) -> Option<Command> {
        match self.build {
            BuildState::Idle => None,
            BuildState::AwaitVertexShader => Some(Command::CreateShader(ShaderStage::Vertex)),
            BuildState::AwaitFragmentShader { .. } => Some(
                Command::CreateShader(ShaderStage::Fragment),
            ),
            BuildState::AwaitProgram { .. } => Some(Command::CreateProgram),
            BuildState::AwaitLinkStatus { program, .. } => Some(Command::GetLinkStatus(program)),
            BuildState::AwaitInfoLog { program, .. } => Some(
                Command::GetProgramInfoLog(program, INFO_LOG_CAPACITY),
            ),
            BuildState::Failed => None,
        }
    }

    /// The renderer and the graphics side agree: every object that the
    /// renderer holds exists, the shaders of a build under way are attached
    /// to its program and to nothing else once they have been attached, and a
    /// program that the renderer offers for drawing is linked and has no
    /// shader attached.
    pub open spec fn agrees(self, objects: Objects) -> bool {
        &&& objects.wf()
        &&& match self.build {
            BuildState::Idle => self.program matches Some(p) ==> {
                &&& objects.linked.contains(p)
                &&& forall|s: Shader| !objects.attached.contains((p, s))
            },
            BuildState::AwaitVertexShader => self.program is None,
            BuildState::AwaitFragmentShader { vertex } => {
                &&& self.program is None
                &&& objects.shaders.contains(vertex)
            },
            BuildState::AwaitProgram { vertex, fragment } => {
                &&& self.program is None
                &&& objects.shaders.contains(vertex)
                &&& objects.shaders.contains(fragment)
                &&& vertex != fragment
            },
            BuildState::AwaitLinkStatus { vertex, fragment, program } => {
                &&& self.program is None
                &&& objects.shaders.contains(vertex)
                &&& objects.shaders.contains(fragment)
                &&& vertex != fragment
                &&& objects.programs.contains(program)
                &&& forall|s: Shader|
                    objects.attached.contains((program, s)) <==> s == vertex || s == fragment
            },
            BuildState::AwaitInfoLog { program, .. } => {
                &&& self.program is None
                &&& objects.programs.contains(program)
            },
            BuildState::Failed => self.program is None,
        }
    }

    /// The objects once the reply that the build waits for has come in.
    pub open spec fn replied(self, objects: Objects, reply: Reply) -> Objects {
        match self.pending() {
            Some(command) => objects.apply(command, reply),
            None => objects,
        }
    }

    /// The renderer after a run of turns, one for each reply.
    pub open spec fn after_turns(self, replies: Seq<Reply>) -> Renderer
        decreases replies.len(),
    {
        if replies.len() == 0 {
            self
        } else {
            self.after_turns(replies.drop_last()).turn_state(replies.last())
        }
    }

    /// All the commands handed out over a run of turns, in order.
    pub open spec fn commands_of_turns(self, replies: Seq<Reply>) -> Seq<Command>
        decreases replies.len(),
    {
        if replies.len() == 0 {
            Seq::empty()
        } else {
            self.commands_of_turns(replies.drop_last()) + self.after_turns(
                replies.drop_last(),
            ).turn_commands(replies.last())
        }
    }

    /// The objects after a run of turns: each reply is taken in, and the
    /// commands of its turn are carried out.
    pub open spec fn objects_after_turns(self, objects: Objects, replies: Seq<Reply>) -> Objects
        decreases replies.len(),
    {
        if replies.len() == 0 {
            objects
        } else {
            let renderer = self.after_turns(replies.drop_last());
            let before = self.objects_after_turns(objects, replies.drop_last());
            renderer.replied(before, replies.last()).after_batch(
                renderer.turn_commands(replies.last()),
            )
        }
    }

    /// Every reply of the run is one that the graphics API can give to the
    /// command that is waited on when the reply comes in.
    pub open spec fn replies_fit(self, objects: Objects, replies: Seq<Reply>) -> bool
        decreases replies.len(),
    {
        replies.len() > 0 ==> {
            let renderer = self.after_turns(replies.drop_last());
            let before = self.objects_after_turns(objects, replies.drop_last());
            &&& self.replies_fit(objects, replies.drop_last())
            &&& renderer.pending() matches Some(command) ==> before.can_reply(
                command,
                replies.last(),
            )
        }
    }

    /// Every command of the run is admitted at the point where it is carried
    /// out.
    pub open spec fn turns_admitted(self, objects: Objects, replies: Seq<Reply>) -> bool
        decreases replies.len(),
    {
        replies.len() > 0 ==> {
            let renderer = self.after_turns(replies.drop_last());
            let before = self.objects_after_turns(objects, replies.drop_last());
            &&& self.turns_admitted(objects, replies.drop_last())
            &&& renderer.replied(before, replies.last()).admits_batch(
                renderer.turn_commands(replies.last()),
            )
        }
    }
}

/// A renderer that has built nothing agrees with any graphics side.
pub proof fn lemma_new_renderer_agrees(objects: Objects)
    requires
        objects.wf(),
    ensures
        (Renderer { program: None, build: BuildState::Idle }).agrees(objects),
{
}

/// A turn never names an object that does not exist, and leaves renderer and
/// graphics side in agreement.
///
/// Where the two agree and the reply is one that the graphics API can give
/// to the command waited on, the reply is taken, every command of the turn
/// is admitted at the point where it is carried out, and the two agree again
/// afterwards. A turn that ends in `Linked` leaves the program linked and
/// held by the renderer, no shader attached to it, and the two shaders of the
/// build deleted.
pub proof fn lemma_turn_keeps_agreement(renderer: Renderer, objects: Objects, reply: Reply)
    requires
        renderer.agrees(objects),
        renderer.pending() matches Some(command) ==> objects.can_reply(command, reply),
    ensures
        renderer.awaits(reply),
        renderer.replied(objects, reply).admits_batch(renderer.turn_commands(reply)),
        renderer.turn_state(reply).agrees(
            renderer.replied(objects, reply).after_batch(renderer.turn_commands(reply)),
        ),
        renderer.turn_outcome(reply) matches BuildOutcome::Linked(p) ==> {
            let after = renderer.replied(objects, reply).after_batch(
                renderer.turn_commands(reply),
            );
            &&& renderer.build matches BuildState::AwaitLinkStatus { vertex, fragment, program }
            &&& p == program
            &&& renderer.turn_state(reply).program == Some(p)
            &&& after.linked.contains(p)
            &&& forall|s: Shader| !after.attached.contains((p, s))
            &&& !after.shaders.contains(vertex)
            &&& !after.shaders.contains(fragment)
        },
{
    reveal_with_fuel(Objects::admits_batch, 6);
    reveal_with_fuel(Objects::after_batch, 6);
}

/// However many builds are run, and whatever the driver replies, no command
/// names an object that does not exist.
///
/// From a renderer and a graphics side that agree, over any run of turns
/// whose replies are ones that the graphics API can give, every command is
/// admitted at the point where it is carried out, and renderer and graphics
/// side agree at the end of the run.
pub proof fn lemma_builds_keep_agreement(renderer: Renderer, objects: Objects, replies: Seq<Reply>)
    requires
        renderer.agrees(objects),
        renderer.replies_fit(objects, replies),
    ensures
        renderer.turns_admitted(objects, replies),
        renderer.after_turns(replies).agrees(renderer.objects_after_turns(objects, replies)),
    decreases replies.len(),
{
    if replies.len() > 0 {
        lemma_builds_keep_agreement(renderer, objects, replies.drop_last());
        lemma_turn_keeps_agreement(
            renderer.after_turns(replies.drop_last()),
            renderer.objects_after_turns(objects, replies.drop_last()),
            replies.last(),
        );
    }
}

/// A program that the renderer holds at rest can be drawn with: where
/// renderer and graphics side agree, a scene made of that program and of a
/// vertex array and a texture that exist is one whose every object exists.
pub proof fn lemma_held_program_can_draw(renderer: Renderer, objects: Objects, scene: Scene)
    requires
        renderer.agrees(objects),
        renderer.holds(scene.program),
        objects.vertex_arrays.contains(scene.vertex_array),
        scene.texture matches Some(texture) ==> objects.textures.contains(texture),
    ensures
        scene.exists_in(objects),
{
}

/// One more turn after a run of turns.
pub proof fn lemma_one_more_turn(renderer: Renderer, replies: Seq<Reply>, reply: Reply)
    ensures
        renderer.after_turns(replies.push(reply)) == renderer.after_turns(replies).turn_state(
            reply,
        ),
        renderer.commands_of_turns(replies.push(reply)) == renderer.commands_of_turns(replies)
            + renderer.after_turns(replies).turn_commands(reply),
{
    assert(replies.push(reply).drop_last() =~= replies);
}

/// Once a build has failed, no turn hands out a command or changes the
/// renderer, whatever the replies.
pub proof fn lemma_failed_is_final(renderer: Renderer, replies: Seq<Reply>)
    requires
        renderer.build is Failed,
    ensures
        renderer.after_turns(replies) == renderer,
        renderer.commands_of_turns(replies) == Seq::<Command>::empty(),
        forall|reply: Reply| #[trigger]
            renderer.after_turns(replies).turn_outcome(reply) == BuildOutcome::Failed,
    decreases replies.len(),
{
    if replies.len() > 0 {
        lemma_failed_is_final(renderer, replies.drop_last());
    }
}

/// A run of turns followed by a second run is the run over both.
pub proof fn lemma_turns_compose(renderer: Renderer, first: Seq<Reply>, second: Seq<Reply>)
    ensures
        renderer.after_turns(first + second) == renderer.after_turns(first).after_turns(second),
        renderer.commands_of_turns(first + second) == renderer.commands_of_turns(first)
            + renderer.after_turns(first).commands_of_turns(second),
    decreases second.len(),
{
    if second.len() > 0 {
        lemma_turns_compose(renderer, first, second.drop_last());
        assert((first + second).drop_last() =~= first + second.drop_last());
    }
}

/// The build that links, from its first turn to its last.
///
/// From a renderer with no build under way, and with replies that name the
/// vertex shader, the fragment shader and the program and then report a link
/// status other than zero: the commands handed out are, in this order, the
/// deletion of an earlier program, the creation of both shaders, their
/// sources, their compilation, the creation of the program, both
/// attachments, the link, the status query, both detachments and both
/// deletions. The last turn ends in `Linked`, and the renderer holds the
/// program at rest, so that the loop can be entered with it.
pub proof fn lemma_build_that_links(
    renderer: Renderer,
    first: Reply,
    vertex: Shader,
    fragment: Shader,
    program: Program,
    status: i32,
)
    requires
        renderer.build is Idle,
        status != 0,
    ensures
        ({
            let replies = seq![
                first,
                Reply::Shader(vertex),
                Reply::Shader(fragment),
                Reply::Program(program),
            ];
            &&& renderer.commands_of_turns(replies.push(Reply::Status(status)))
                == opening_commands(renderer.program) + seq![
                Command::CreateShader(ShaderStage::Fragment),
            ] + compile_commands(vertex, fragment) + link_commands(vertex, fragment, program)
                + release_commands(vertex, fragment, program)
            &&& renderer.after_turns(replies).turn_outcome(Reply::Status(status))
                == BuildOutcome::Linked(program)
            &&& renderer.after_turns(replies.push(Reply::Status(status))) == Renderer {
                program: Some(program),
                build: BuildState::Idle,
            }
            &&& renderer.after_turns(replies.push(Reply::Status(status))).holds(program)
        }),
{
    let r0 = Seq::<Reply>::empty();
    let r1 = r0.push(first);
    let r2 = r1.push(Reply::Shader(vertex));
    let r3 = r2.push(Reply::Shader(fragment));
    let r4 = r3.push(Reply::Program(program));
    lemma_one_more_turn(renderer, r0, first);
    lemma_one_more_turn(renderer, r1, Reply::Shader(vertex));
    lemma_one_more_turn(renderer, r2, Reply::Shader(fragment));
    lemma_one_more_turn(renderer, r3, Reply::Program(program));
    lemma_one_more_turn(renderer, r4, Reply::Status(status));
    assert(r4 =~= seq![
        first,
        Reply::Shader(vertex),
        Reply::Shader(fragment),
        Reply::Program(program),
    ]);
}

/// The build that does not link, and what follows it.
///
/// From a renderer with no build under way, and with replies that name the
/// vertex shader, the fragment shader and the program and then report the
/// link status zero: the commands handed out are those of the build that
/// links up to the status query, and then the query for the info log. The
/// turn that takes the log ends in `Failed` and reports the text of the log.
/// The renderer holds no program then, and whatever replies follow, no
/// further command is handed out, no turn ends otherwise than in `Failed`,
/// and the renderer never holds a program again: the loop cannot be
/// entered.
pub proof fn lemma_build_that_fails(
    renderer: Renderer,
    first: Reply,
    vertex: Shader,
    fragment: Shader,
    program: Program,
    log: Vec<u8>,
    later: Seq<Reply>,
)
    requires
        renderer.build is Idle,
    ensures
        ({
            let replies = seq![
                first,
                Reply::Shader(vertex),
                Reply::Shader(fragment),
                Reply::Program(program),
                Reply::Status(0),
            ];
            let failed = replies.push(Reply::Log(log));
            &&& renderer.commands_of_turns(failed) == opening_commands(renderer.program) + seq![
                Command::CreateShader(ShaderStage::Fragment),
            ] + compile_commands(vertex, fragment) + link_commands(vertex, fragment, program)
                + seq![Command::GetProgramInfoLog(program, INFO_LOG_CAPACITY)]
            &&& renderer.after_turns(replies).turn_outcome(Reply::Log(log))
                == BuildOutcome::Failed
            &&& renderer.after_turns(replies).turn_log(Reply::Log(log)) == log_text(log@)
            &&& renderer.after_turns(failed + later) == Renderer {
                program: None,
                build: BuildState::Failed,
            }
            &&& renderer.commands_of_turns(failed + later) == renderer.commands_of_turns(failed)
            &&& forall|reply: Reply| #[trigger]
                renderer.after_turns(failed + later).turn_outcome(reply) == BuildOutcome::Failed
            &&& forall|any: Program| !(#[trigger] renderer.after_turns(failed + later).holds(any))
        }),
{
    let r0 = Seq::<Reply>::empty();
    let r1 = r0.push(first);
    let r2 = r1.push(Reply::Shader(vertex));
    let r3 = r2.push(Reply::Shader(fragment));
    let r4 = r3.push(Reply::Program(program));
    let r5 = r4.push(Reply::Status(0));
    let r6 = r5.push(Reply::Log(log));
    lemma_one_more_turn(renderer, r0, first);
    lemma_one_more_turn(renderer, r1, Reply::Shader(vertex));
    lemma_one_more_turn(renderer, r2, Reply::Shader(fragment));
    lemma_one_more_turn(renderer, r3, Reply::Program(program));
    lemma_one_more_turn(renderer, r4, Reply::Status(0));
    lemma_one_more_turn(renderer, r5, Reply::Log(log));
    assert(r5 =~= seq![
        first,
        Reply::Shader(vertex),
        Reply::Shader(fragment),
        Reply::Program(program),
        Reply::Status(0),
    ]);
    lemma_turns_compose(renderer, r6, later);
    lemma_failed_is_final(renderer.after_turns(r6), later);
}

} // verus!
