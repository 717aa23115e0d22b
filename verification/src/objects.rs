//! A model of the objects that live on the graphics side.
//!
//! The model follows the commands and their replies: it knows which names
//! have been handed out and not deleted since, which shaders hang on which
//! program, which programs are known to have linked, and which program is in
//! use. It is what the library's guarantees about object lifetimes are stated
//! against.

use vstd::prelude::*;
use crate::command::{Buffer, Command, Program, Reply, Shader, Texture, VertexArray};

verus! {

/// The objects that exist, as far as commands and replies tell.
pub struct Objects {
    /// Shader objects created and not deleted.
    pub shaders: Set<Shader>,
    /// Program objects created and not deleted.
    pub programs: Set<Program>,
    /// Programs whose link status was reported as success.
    pub linked: Set<Program>,
    /// Pairs of a program and a shader attached to it.
    pub attached: Set<(Program, Shader)>,
    /// Texture objects that exist.
    pub textures: Set<Texture>,
    /// Buffer objects that exist.
    pub buffers: Set<Buffer>,
    /// Vertex array objects that exist.
    pub vertex_arrays: Set<VertexArray>,
    /// The program in use, if any.
    pub current: Option<Program>,
}

impl Objects {
    /// Only programs that exist have shaders attached, have a link status or
    /// are in use.
    pub open spec fn wf(self) -> bool {
        &&& forall|p: Program, s: Shader| #[trigger]
            self.attached.contains((p, s)) ==> self.programs.contains(p)
        &&& forall|p: Program| #[trigger] self.linked.contains(p) ==> self.programs.contains(p)
        &&& self.current matches Some(p) ==> self.linked.contains(p)
    }

    /// The command names only objects that exist, in a state that the
    /// graphics API accepts them in.
    pub open spec fn admits(self, command: Command) -> bool {
        match command {
            Command::DeleteProgram(p) => self.programs.contains(p),
            Command::ShaderSource(s, _) => self.shaders.contains(s),
            Command::CompileShader(s) => self.shaders.contains(s),
            Command::AttachShader(p, s) => {
                &&& self.programs.contains(p)
                &&& self.shaders.contains(s)
                &&& !self.attached.contains((p, s))
            },
            Command::LinkProgram(p) => self.programs.contains(p),
            Command::GetLinkStatus(p) => self.programs.contains(p),
            Command::GetProgramInfoLog(p, _) => self.programs.contains(p),
            Command::DetachShader(p, s) => self.attached.contains((p, s)),
            Command::DeleteShader(s) => self.shaders.contains(s),
            Command::UseProgram(p) => self.linked.contains(p),
            Command::BindVertexArray(a) => self.vertex_arrays.contains(a),
            Command::BindBuffer(_, b) => self.buffers.contains(b),
            Command::BindTexture(t) => self.textures.contains(t),
            Command::UniformProjection { program, .. } => self.current == Some(program),
            Command::DrawElements { .. } => self.current is Some,
            Command::DrawArrays { .. } => self.current is Some,
            _ => true,
        }
    }

    /// The objects after the command was carried out and replied to.
    ///
    /// A command that creates an object leaves the model unchanged until its
    /// reply names the object.
    pub open spec fn apply(self, command: Command, reply: Reply) -> Objects {
        match (command, reply) {
            (Command::CreateShader(_), Reply::Shader(s)) => Objects {
                shaders: self.shaders.insert(s),
                ..self
            },
            (Command::CreateProgram, Reply::Program(p)) => Objects {
                programs: self.programs.insert(p),
                ..self
            },
            (Command::GetLinkStatus(p), Reply::Status(status)) => if status != 0 {
                Objects { linked: self.linked.insert(p), ..self }
            } else {
                self
            },
            (Command::DeleteShader(s), _) => Objects { shaders: self.shaders.remove(s), ..self },
            (Command::DeleteProgram(p), _) => Objects {
                programs: self.programs.remove(p),
                linked: self.linked.remove(p),
                attached: Set::new(
                    |pair: (Program, Shader)| self.attached.contains(pair) && pair.0 != p,
                ),
                current: if self.current == Some(p) {
                    None
                } else {
                    self.current
                },
                ..self
            },
            (Command::AttachShader(p, s), _) => Objects {
                attached: self.attached.insert((p, s)),
                ..self
            },
            (Command::DetachShader(p, s), _) => Objects {
                attached: self.attached.remove((p, s)),
                ..self
            },
            (Command::UseProgram(p), _) => Objects { current: Some(p), ..self },
            _ => self,
        }
    }

    /// A reply that the graphics API can give to the command: of the kind the
    /// command asks for, and, where it names a new object, with a name that
    /// is not taken.
    pub open spec fn can_reply(self, command: Command, reply: Reply) -> bool {
        match command {
            Command::CreateShader(_) => reply matches Reply::Shader(s) && !self.shaders.contains(s),
            Command::CreateProgram => reply matches Reply::Program(p) && !self.programs.contains(
                p,
            ),
            Command::GetLinkStatus(_) => reply is Status,
            Command::GetProgramInfoLog(_, _) => reply is Log,
            _ => reply is Done,
        }
    }

    /// Each command of the batch is admitted at the point where it is
    /// carried out. No command but the last waits for a reply.
    pub open spec fn admits_batch(self, batch: Seq<Command>) -> bool
        decreases batch.len(),
    {
        batch.len() > 0 ==> self.admits(batch[0]) && self.apply(batch[0], Reply::Done).admits_batch(
            batch.skip(1),
        )
    }

    /// The objects after the whole batch was carried out, before the reply to
    /// its last command is known.
    pub open spec fn after_batch(self, batch: Seq<Command>) -> Objects
        decreases batch.len(),
    {
        if batch.len() == 0 {
            self
        } else {
            self.apply(batch[0], Reply::Done).after_batch(batch.skip(1))
        }
    }
}

/// A command that is admitted leaves the objects well-formed, whatever the
/// reply.
pub proof fn lemma_admitted_command_keeps_wf(objects: Objects, command: Command, reply: Reply)
    requires
        objects.wf(),
        objects.admits(command),
    ensures
        objects.apply(command, reply).wf(),
{
}

/// A batch made of two is admitted where the first is admitted and leaves
/// objects that admit the second; what it leaves is what the second leaves
/// after the first.
pub proof fn lemma_batches_compose(objects: Objects, first: Seq<Command>, second: Seq<Command>)
    ensures
        objects.admits_batch(first + second) <==> objects.admits_batch(first)
            && objects.after_batch(first).admits_batch(second),
        objects.after_batch(first + second) == objects.after_batch(first).after_batch(second),
    decreases first.len(),
{
    if first.len() > 0 {
        assert((first + second).skip(1) =~= first.skip(1) + second);
        lemma_batches_compose(objects.apply(first[0], Reply::Done), first.skip(1), second);
    }
}

/// A batch of commands that are each admitted by the objects and leave them
/// as they are is admitted as a whole, and leaves them as they are.
pub proof fn lemma_batch_without_effect(objects: Objects, batch: Seq<Command>)
    requires
        forall|i: int|
            0 <= i < batch.len() ==> objects.admits(#[trigger] batch[i]) && objects.apply(
                batch[i],
                Reply::Done,
            ) == objects,
    ensures
        objects.admits_batch(batch),
        objects.after_batch(batch) == objects,
    decreases batch.len(),
{
    if batch.len() > 0 {
        assert(forall|i: int| 0 <= i < batch.skip(1).len() ==> batch.skip(1)[i] == batch[i + 1]);
        lemma_batch_without_effect(objects, batch.skip(1));
    }
}

} // verus!
