//! The event loop's decisions: from the surface's current size and one event
//! to the new size, the loop's control flow and the work to do on the GPU.

use vstd::prelude::*;
use crate::uniform::Size;
use crate::uniform::Uniform;

verus! {

/// Vertices of the one triangle that covers the surface.
pub const TRIANGLE_VERTICES: u32 = 3;

/// Instances of that triangle drawn per frame.
pub const TRIANGLE_INSTANCES: u32 = 1;

/// A key, as far as the loop tells keys apart.
#[derive(Clone, Copy, Debug, PartialEq, Eq)]
pub enum Key {
    Escape,
    Other,
}

/// What happened to the window.
#[derive(Clone, Copy, Debug, PartialEq, Eq)]
pub enum WindowInput {
    /// The user asked to close the window.
    CloseRequested,
    /// A key went down or up; `key` is `None` where the platform could not
    /// name it.
    Keyboard { key: Option<Key> },
    /// The window's inner size changed.
    Resized { width: u32, height: u32 },
    /// Anything else.
    Other,
}

/// One event of the loop.
#[derive(Clone, Copy, Debug, PartialEq, Eq)]
pub enum LoopEvent {
    Window(WindowInput),
    /// All pending events were handled: time to draw. `secs` is the time
    /// since start-up, read now, as the bit pattern of a single.
    MainEventsCleared { secs: u32 },
    /// Anything else.
    Other,
}

/// Whether the loop goes on.
#[derive(Clone, Copy, Debug, PartialEq, Eq)]
pub enum ControlFlow {
    /// Go on at once with the next event.
    Poll,
    /// Leave the loop.
    Exit,
}

/// One frame's draw call and the uniform block written before it.
#[derive(Clone, Copy, Debug, PartialEq, Eq)]
pub struct Frame {
    pub uniform: Uniform,
    pub vertices: u32,
    pub instances: u32,
}

/// The work that an event asks for.
#[derive(Clone, Copy, Debug, PartialEq, Eq)]
pub enum Action {
    /// Nothing to do.
    Idle,
    /// Configure the surface anew with this size.
    Configure(Size),
    /// Write the uniform block, draw, submit and present.
    Draw(Frame),
}

/// The loop's answer to one event.
#[derive(Clone, Copy, Debug, PartialEq, Eq)]
pub struct Step {
    pub control_flow: ControlFlow,
    pub action: Action,
}

/// The state that the loop carries from event to event: the size that the
/// surface is configured with.
#[derive(Clone, Copy, Debug, PartialEq, Eq)]
pub struct FrameLoop {
    pub size: Size,
}

impl LoopEvent {
    /// The event ends the loop: a request to close, or the Escape key.
    pub open spec fn exits(self) -> bool {
        ||| self == LoopEvent::Window(WindowInput::CloseRequested)
        ||| self == LoopEvent::Window(WindowInput::Keyboard { key: Some(Key::Escape) })
    }

    /// The size that the event gives the window, if it gives one.
    pub open spec fn resized_to(self) -> Option<Size> {
        match self {
            LoopEvent::Window(WindowInput::Resized { width, height }) => Some(
                Size { width, height },
            ),
            _ => None,
        }
    }
}

impl FrameLoop {
    /// The frame drawn at time `secs` on a surface of the current size.
    pub open spec fn frame_at(self, secs: u32) -> Frame {
        Frame {
            uniform: Uniform { secs, size: self.size },
            vertices: TRIANGLE_VERTICES,
            instances: TRIANGLE_INSTANCES,
        }
    }

    /// The state after `event`: a resize sets the size, nothing else
    /// touches it.
    pub open spec fn after(self, event: LoopEvent) -> FrameLoop {
        match event.resized_to() {
            Some(size) => FrameLoop { size },
            None => self,
        }
    }

    /// The work that `event` asks for: a resize has the surface configured
    /// with the new size, the end of a batch of events has a frame drawn in
    /// the current size.
    pub open spec fn action_for(self, event: LoopEvent) -> Action {
        match event {
            LoopEvent::Window(WindowInput::Resized { width, height }) => Action::Configure(
                Size { width, height },
            ),
            LoopEvent::MainEventsCleared { secs } => Action::Draw(self.frame_at(secs)),
            _ => Action::Idle,
        }
    }

    /// The loop's answer to `event`.
    pub open spec fn respond(self, event: LoopEvent) -> Step {
        Step {
            control_flow: if event.exits() {
                ControlFlow::Exit
            } else {
                ControlFlow::Poll
            },
            action: self.action_for(event),
        }
    }

    /// The state after each of `events` in turn.
    pub open spec fn after_all(self, events: Seq<LoopEvent>) -> FrameLoop
        decreases events.len(),
    {
        if events.len() == 0 {
            self
        } else {
            self.after_all(events.drop_last()).after(events.last())
        }
    }

    /// A loop whose surface was configured with the window's inner size.
    pub fn new(width: u32, height: u32) -> (state: FrameLoop)
        ensures
            state.size == (Size { width, height }),
    {
        FrameLoop { size: Size { width, height } }
    }

    /// Takes one event: updates the size on a resize, and says whether the
    /// loop goes on and what is to be done on the GPU.
    pub fn handle(&mut self, event: LoopEvent) -> (step: Step)
        ensures
            *final(self) == old(self).after(event),
            step == old(self).respond(event),
    {
        match event {
            LoopEvent::Window(input) => match input {
                WindowInput::CloseRequested => Step {
                    control_flow: ControlFlow::Exit,
                    action: Action::Idle,
                },
                WindowInput::Keyboard { key: Some(Key::Escape) } => Step {
                    control_flow: ControlFlow::Exit,
                    action: Action::Idle,
                },
                WindowInput::Resized { width, height } => {
                    let size = Size { width, height };
                    self.size = size;
                    Step { control_flow: ControlFlow::Poll, action: Action::Configure(size) }
                },
                _ => Step { control_flow: ControlFlow::Poll, action: Action::Idle },
            },
            LoopEvent::MainEventsCleared { secs } => {
                let frame = Frame {
                    uniform: Uniform::new(secs, self.size),
                    vertices: TRIANGLE_VERTICES,
                    instances: TRIANGLE_INSTANCES,
                };
                Step { control_flow: ControlFlow::Poll, action: Action::Draw(frame) }
            },
            LoopEvent::Other => Step { control_flow: ControlFlow::Poll, action: Action::Idle },
        }
    }
}

/// An event that is no resize leaves the state as it was, whatever else it
/// asks for.
pub proof fn lemma_only_resize_changes_size(state: FrameLoop, event: LoopEvent)
    requires
        !(event matches LoopEvent::Window(WindowInput::Resized { .. })),
    ensures
        state.after(event) == state,
        !(state.action_for(event) is Configure),
{
}

/// A frame is drawn in the size of the latest resize: after any events, then
/// a resize, then events of which none is a resize, the frame drawn next
/// carries that resize's size, one triangle drawn once.
pub proof fn lemma_draw_uses_latest_size(
    state: FrameLoop,
    before: Seq<LoopEvent>,
    width: u32,
    height: u32,
    since: Seq<LoopEvent>,
    secs: u32,
)
    requires
        forall|i: int| 0 <= i < since.len() ==> (#[trigger] since[i]).resized_to() is None,
    ensures
        ({
            let resize = LoopEvent::Window(WindowInput::Resized { width, height });
            let now = state.after_all(before.push(resize) + since);
            now.respond(LoopEvent::MainEventsCleared { secs }).action == Action::Draw(
                Frame {
                    uniform: Uniform { secs, size: Size { width, height } },
                    vertices: TRIANGLE_VERTICES,
                    instances: TRIANGLE_INSTANCES,
                },
            )
        }),
    decreases since.len(),
{
    let resize = LoopEvent::Window(WindowInput::Resized { width, height });
    let all = before.push(resize) + since;
    if since.len() == 0 {
        assert(all =~= before.push(resize));
        assert(all.drop_last() =~= before);
    } else {
        let shorter = since.drop_last();
        lemma_draw_uses_latest_size(state, before, width, height, shorter, secs);
        assert(all.drop_last() =~= before.push(resize) + shorter);
        assert(all.last() == since.last());
    }
}

} // verus!
