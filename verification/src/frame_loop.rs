//! The frame loop: what each window event leads to, and what a frame draws.

use vstd::prelude::*;
use crate::command::{Command, Program, Texture, VertexArray};
use crate::objects::{lemma_batches_compose, Objects};
use crate::projection::{projection, projection_matrix};
use crate::renderer::Renderer;

verus! {

/// The keys that the loop tells apart.
#[derive(Clone, Copy, Debug, PartialEq, Eq, Structural)]
pub enum Key {
    Escape,
    /// Any other key.
    Other,
}

/// What happened to a key.
#[derive(Clone, Copy, Debug, PartialEq, Eq, Structural)]
pub enum KeyAction {
    Release,
    Press,
    Repeat,
}

/// An event that the window delivers.
#[derive(Clone, Copy, Debug, PartialEq, Eq, Structural)]
pub enum WindowEvent {
    /// A key changed its state.
    Key(Key, KeyAction),
    /// The framebuffer has a new width and height, in pixels.
    FramebufferSize(i32, i32),
    /// The window was asked to close from outside.
    CloseRequested,
    /// Anything else.
    Other,
}

/// The two states of the frame loop.
#[derive(Clone, Copy, Debug, PartialEq, Eq, Structural)]
pub enum LoopState {
    /// Frames are drawn.
    Running,
    /// The frame under way is the last.
    Closing,
}

/// The draw call of a frame.
#[derive(Clone, Copy, Debug, PartialEq, Eq, Structural)]
pub enum DrawCall {
    /// A triangle list from this many 16-bit indices.
    Elements(i32),
    /// A triangle list from this many vertices.
    Arrays(i32),
}

/// What a frame is drawn from.
#[derive(Clone, Copy, Debug, PartialEq, Eq)]
pub struct Scene {
    /// The linked program.
    pub program: Program,
    /// The vertex array that describes the geometry.
    pub vertex_array: VertexArray,
    /// The texture, where the geometry has one.
    pub texture: Option<Texture>,
    /// Whether the program takes the projection as a uniform.
    pub projected: bool,
    /// The draw call.
    pub draw: DrawCall,
}

/// Number of indices that the textured quad is drawn from.
pub const QUAD_INDEX_COUNT: i32 = 6;

/// Number of vertices that the plain triangle is drawn from.
pub const TRIANGLE_VERTEX_COUNT: i32 = 3;

/// Swap interval of the loop: one frame for each refresh of the display.
pub const SWAP_INTERVAL: u32 = 1;

impl Scene {
    /// The textured quad: two indexed triangles under a projection.
    pub fn quad(program: Program, vertex_array: VertexArray, texture: Texture) -> (scene: Scene)
        ensures
            scene == (Scene {
                program,
                vertex_array,
                texture: Some(texture),
                projected: true,
                draw: DrawCall::Elements(QUAD_INDEX_COUNT),
            }),
    {
        Scene {
            program,
            vertex_array,
            texture: Some(texture),
            projected: true,
            draw: DrawCall::Elements(QUAD_INDEX_COUNT),
        }
    }

    /// The plain triangle: three vertices, no texture, no projection.
    pub fn triangle(program: Program, vertex_array: VertexArray) -> (scene: Scene)
        ensures
            scene == (Scene {
                program,
                vertex_array,
                texture: None,
                projected: false,
                draw: DrawCall::Arrays(TRIANGLE_VERTEX_COUNT),
            }),
    {
        Scene {
            program,
            vertex_array,
            texture: None,
            projected: false,
            draw: DrawCall::Arrays(TRIANGLE_VERTEX_COUNT),
        }
    }

    /// Every object of the scene exists, and its program is linked.
    pub open spec fn exists_in(self, objects: Objects) -> bool {
        &&& objects.linked.contains(self.program)
        &&& objects.vertex_arrays.contains(self.vertex_array)
        &&& self.texture matches Some(t) ==> objects.textures.contains(t)
    }
}

/// The event asks the loop to end.
pub open spec fn closes(event: WindowEvent) -> bool {
    ||| event == WindowEvent::Key(Key::Escape, KeyAction::Press)
    ||| event == WindowEvent::CloseRequested
}

/// The state that an event leaves the loop in.
pub open spec fn state_after_event(state: LoopState, event: WindowEvent) -> LoopState {
    if closes(event) {
        LoopState::Closing
    } else {
        state
    }
}

/// The commands that an event leads to.
pub open spec fn event_commands(event: WindowEvent, scene: Scene) -> Seq<Command> {
    match event {
        WindowEvent::Key(Key::Escape, KeyAction::Press) => seq![Command::SetShouldClose],
        WindowEvent::FramebufferSize(width, height) => if scene.projected {
            seq![
                Command::Viewport { x: 0, y: 0, width, height },
                Command::UniformProjection {
                    program: scene.program,
                    matrix: projection(width, height),
                },
            ]
        } else {
            seq![Command::Viewport { x: 0, y: 0, width, height }]
        },
        _ => Seq::empty(),
    }
}

/// The state that a run of events leaves the loop in.
pub open spec fn state_after_events(state: LoopState, events: Seq<WindowEvent>) -> LoopState
    decreases events.len(),
{
    if events.len() == 0 {
        state
    } else {
        state_after_event(state_after_events(state, events.drop_last()), events.last())
    }
}

/// The commands that a run of events leads to, event by event.
pub open spec fn events_commands(events: Seq<WindowEvent>, scene: Scene) -> Seq<Command>
    decreases events.len(),
{
    if events.len() == 0 {
        Seq::empty()
    } else {
        events_commands(events.drop_last(), scene) + event_commands(events.last(), scene)
    }
}

/// The commands that draw and present one frame.
pub open spec fn draw_commands(scene: Scene) -> Seq<Command> {
    seq![
        Command::ClearColor { red: 0, green: 0, blue: 0, alpha: 255 },
        Command::ClearColorBuffer,
        Command::UseProgram(scene.program),
        Command::BindVertexArray(scene.vertex_array),
    ] + match scene.texture {
        Some(texture) => seq![Command::BindTexture(texture)],
        None => Seq::empty(),
    } + seq![
        match scene.draw {
            DrawCall::Elements(count) => Command::DrawElements { count },
            DrawCall::Arrays(count) => Command::DrawArrays { count },
        },
        Command::SwapBuffers,
    ]
}

/// The command is a draw call.
pub open spec fn is_draw(command: Command) -> bool {
    command is DrawElements || command is DrawArrays
}

/// The commands of one iteration of the loop: those of the pending events,
/// then those that draw and present.
pub open spec fn frame_commands(events: Seq<WindowEvent>, scene: Scene) -> Seq<Command> {
    events_commands(events, scene) + draw_commands(scene)
}

/// The command that writes the projection for a framebuffer of `width` by
/// `height` pixels to the program's uniform.
pub fn update_projection_matrix(program: Program, width: i32, height: i32) -> (command: Command)
    ensures
        command == (Command::UniformProjection { program, matrix: projection(width, height) }),
{
    Command::UniformProjection { program, matrix: projection_matrix(width, height) }
}

/// Decides what one window event leads to: the state of the loop after it,
/// and the commands to carry out.
///
/// A press of Escape marks the window as due to close and ends the loop, as
/// does a request to close from outside. A new framebuffer size sets the
/// viewport to the whole framebuffer and, where the scene is projected,
/// writes the projection for the new size. Everything else is ignored.
pub fn handle_window_event(state: LoopState, event: WindowEvent, scene: &Scene) -> (r: (
    LoopState,
    Vec<Command>,
))
    ensures
        r.0 == state_after_event(state, event),
        r.1@ == event_commands(event, *scene),
{
    let mut commands: Vec<Command> = Vec::new();
    match event {
        WindowEvent::Key(Key::Escape, KeyAction::Press) => {
            commands.push(Command::SetShouldClose);
            (LoopState::Closing, commands)
        },
        WindowEvent::CloseRequested => (LoopState::Closing, commands),
        WindowEvent::FramebufferSize(width, height) => {
            commands.push(Command::Viewport { x: 0, y: 0, width, height });
            if scene.projected {
                commands.push(update_projection_matrix(scene.program, width, height));
            }
            (state, commands)
        },
        _ => (state, commands),
    }
}

/// `true` while the loop is to go on.
pub fn is_running(state: LoopState) -> (running: bool)
    ensures
        running == (state == LoopState::Running),
{
    match state {
        LoopState::Running => true,
        LoopState::Closing => false,
    }
}

/// Enters the loop: the commands to carry out once before the first frame.
/// The swap interval is set, and the scene's program is put to use, so that
/// uniforms written before the first draw reach it.
///
/// The loop is entered only with a program that the renderer holds at rest,
/// which it does after a build that linked and never after one that failed.
pub fn loop_entry_commands(renderer: &Renderer, scene: &Scene) -> (commands: Vec<Command>)
    requires
        renderer.holds(scene.program),
    ensures
        commands@ == seq![Command::SwapInterval(SWAP_INTERVAL), Command::UseProgram(scene.program)],
{
    let mut commands: Vec<Command> = Vec::new();
    commands.push(Command::SwapInterval(SWAP_INTERVAL));
    commands.push(Command::UseProgram(scene.program));
    commands
}

/// One iteration of the loop.
#[derive(Debug, PartialEq, Eq)]
pub struct Frame {
    /// The state of the loop after the frame.
    pub state: LoopState,
    /// The commands of the frame, in order.
    pub commands: Vec<Command>,
}

/// Runs one iteration of the loop over the events that were pending.
///
/// Every event is handled, in order, before anything is drawn; the frame is
/// drawn and presented even when an event has ended the loop.
pub fn run_frame(state: LoopState, events: &Vec<WindowEvent>, scene: &Scene) -> (frame: Frame)
    ensures
        frame.state == state_after_events(state, events@),
        frame.commands@ == frame_commands(events@, *scene),
{
    let mut state = state;
    let mut commands: Vec<Command> = Vec::new();
    let ghost start = state;
    let mut i: usize = 0;
    while i < events.len()
        invariant
            0 <= i <= events.len(),
            state == state_after_events(start, events@.take(i as int)),
            commands@ == events_commands(events@.take(i as int), *scene),
        decreases events.len() - i,
    {
        let (next, mut more) = handle_window_event(state, events[i], scene);
        state = next;
        commands.append(&mut more);
        proof {
            assert(events@.take(i + 1).drop_last() =~= events@.take(i as int));
        }
        i += 1;
    }
    proof {
        assert(events@.take(i as int) =~= events@);
    }
    commands.push(Command::ClearColor { red: 0, green: 0, blue: 0, alpha: 255 });
    commands.push(Command::ClearColorBuffer);
    commands.push(Command::UseProgram(scene.program));
    commands.push(Command::BindVertexArray(scene.vertex_array));
    if let Some(texture) = scene.texture {
        commands.push(Command::BindTexture(texture));
    }
    match scene.draw {
        DrawCall::Elements(count) => commands.push(Command::DrawElements { count }),
        DrawCall::Arrays(count) => commands.push(Command::DrawArrays { count }),
    }
    commands.push(Command::SwapBuffers);
    Frame { state, commands }
}

/// A run of events ends the loop exactly when the loop was ending already
/// or one of the events asks for it.
pub proof fn lemma_closing_events(state: LoopState, events: Seq<WindowEvent>)
    ensures
        state_after_events(state, events) == LoopState::Closing <==> state == LoopState::Closing
            || exists|i: int| 0 <= i < events.len() && closes(#[trigger] events[i]),
    decreases events.len(),
{
    if events.len() > 0 {
        let earlier = events.drop_last();
        lemma_closing_events(state, earlier);
        assert(forall|i: int| 0 <= i < earlier.len() ==> earlier[i] == events[i]);
    }
}

/// A press of Escape among the pending events ends the loop within the
/// iteration that handles them, whatever the other events are and wherever
/// the press stands among them.
pub proof fn lemma_escape_ends_the_loop(state: LoopState, events: Seq<WindowEvent>, i: int)
    requires
        0 <= i < events.len(),
        events[i] == WindowEvent::Key(Key::Escape, KeyAction::Press),
    ensures
        state_after_events(state, events) == LoopState::Closing,
{
    lemma_closing_events(state, events);
    assert(closes(events[i]));
}

/// The commands of two runs of events, one after the other, are those of
/// the first run followed by those of the second.
pub proof fn lemma_events_compose(first: Seq<WindowEvent>, second: Seq<WindowEvent>, scene: Scene)
    ensures
        events_commands(first + second, scene) == events_commands(first, scene) + events_commands(
            second,
            scene,
        ),
    decreases second.len(),
{
    if second.len() > 0 {
        lemma_events_compose(first, second.drop_last(), scene);
        assert((first + second).drop_last() =~= first + second.drop_last());
    }
}

/// A new framebuffer size takes effect before the frame is drawn.
///
/// Where one of the pending events reports the size `width` by `height`, the
/// commands of the iteration hold, after those of the earlier events and
/// before those of the later ones and before anything is drawn, the viewport
/// set to the whole framebuffer and, for a projected scene, the projection for
/// that size written to the scene's program.
pub proof fn lemma_resize_precedes_draw(
    events: Seq<WindowEvent>,
    scene: Scene,
    i: int,
    width: i32,
    height: i32,
)
    requires
        0 <= i < events.len(),
        events[i] == WindowEvent::FramebufferSize(width, height),
    ensures
        frame_commands(events, scene) == events_commands(events.take(i), scene) + seq![
            Command::Viewport { x: 0, y: 0, width, height },
        ] + (if scene.projected {
            seq![
                Command::UniformProjection {
                    program: scene.program,
                    matrix: projection(width, height),
                },
            ]
        } else {
            Seq::empty()
        }) + events_commands(events.skip(i + 1), scene) + draw_commands(scene),
{
    let earlier = events.take(i);
    let this = seq![events[i]];
    let later = events.skip(i + 1);
    assert(events =~= earlier + this + later);
    lemma_events_compose(earlier + this, later, scene);
    lemma_events_compose(earlier, this, scene);
    assert(events_commands(this, scene) =~= event_commands(events[i], scene)) by {
        reveal_with_fuel(events_commands, 2);
    }
}

/// Handling events draws nothing.
pub proof fn lemma_events_draw_nothing(events: Seq<WindowEvent>, scene: Scene)
    ensures
        forall|k: int|
            0 <= k < events_commands(events, scene).len() ==> !is_draw(
                #[trigger] events_commands(events, scene)[k],
            ),
    decreases events.len(),
{
    if events.len() > 0 {
        lemma_events_draw_nothing(events.drop_last(), scene);
        let earlier = events_commands(events.drop_last(), scene);
        let last = event_commands(events.last(), scene);
        assert forall|k: int| 0 <= k < (earlier + last).len() implies !is_draw(
            #[trigger] (earlier + last)[k],
        ) by {
            if k >= earlier.len() {
                assert((earlier + last)[k] == last[k - earlier.len()]);
            }
        }
    }
}

/// A frame holds a single draw call: it is the last command but one, the
/// presentation of the frame follows it, and every command that an event has
/// led to comes before it.
pub proof fn lemma_frame_draws_once(events: Seq<WindowEvent>, scene: Scene)
    ensures
        ({
            let frame = frame_commands(events, scene);
            &&& frame.len() >= events_commands(events, scene).len() + 2
            &&& frame.last() == Command::SwapBuffers
            &&& forall|k: int|
                0 <= k < frame.len() ==> (is_draw(#[trigger] frame[k]) <==> k == frame.len() - 2)
        }),
{
    lemma_events_draw_nothing(events, scene);
}

/// Handling events never names an object that does not exist.
///
/// Where the scene's objects exist and its program is in use, the commands
/// of any run of events are admitted one after the other, and leave every
/// object as it was.
pub proof fn lemma_events_are_admitted(objects: Objects, events: Seq<WindowEvent>, scene: Scene)
    requires
        scene.exists_in(objects),
        objects.current == Some(scene.program),
    ensures
        objects.admits_batch(events_commands(events, scene)),
        objects.after_batch(events_commands(events, scene)) == objects,
    decreases events.len(),
{
    reveal_with_fuel(Objects::admits_batch, 3);
    reveal_with_fuel(Objects::after_batch, 3);
    if events.len() > 0 {
        lemma_events_are_admitted(objects, events.drop_last(), scene);
        lemma_batches_compose(
            objects,
            events_commands(events.drop_last(), scene),
            event_commands(events.last(), scene),
        );
    }
}

/// A frame never names an object that does not exist.
///
/// Where the scene's objects exist and its program is in use, as it is after
/// the commands of `loop_entry_commands`, the commands of an iteration are
/// admitted one after the other, whatever the events, and leave every object
/// as it was, so that the next iteration is admitted too.
pub proof fn lemma_frame_is_admitted(objects: Objects, events: Seq<WindowEvent>, scene: Scene)
    requires
        scene.exists_in(objects),
        objects.current == Some(scene.program),
    ensures
        objects.admits_batch(frame_commands(events, scene)),
        objects.after_batch(frame_commands(events, scene)) == objects,
{
    reveal_with_fuel(Objects::admits_batch, 8);
    reveal_with_fuel(Objects::after_batch, 8);
    lemma_events_are_admitted(objects, events, scene);
    lemma_batches_compose(objects, events_commands(events, scene), draw_commands(scene));
}

/// The commands before the first frame put the scene's program to use.
pub proof fn lemma_entry_is_admitted(objects: Objects, scene: Scene)
    requires
        scene.exists_in(objects),
    ensures
        objects.admits_batch(
            seq![Command::SwapInterval(SWAP_INTERVAL), Command::UseProgram(scene.program)],
        ),
        objects.after_batch(
            seq![Command::SwapInterval(SWAP_INTERVAL), Command::UseProgram(scene.program)],
        ) == (Objects { current: Some(scene.program), ..objects }),
{
    reveal_with_fuel(Objects::admits_batch, 3);
    reveal_with_fuel(Objects::after_batch, 3);
}

} // verus!
