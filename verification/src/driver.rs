//! The frame driver: what the frame loop does on each event.
//!
//! The loop itself belongs to the host, which polls the window system,
//! tries to acquire a surface image when a redraw is due, and reports what
//! happened. The driver answers with the action to take. It owns the setup
//! of the session and the state that frames change.

use vstd::prelude::*;
use crate::bindings::BindingSets;
use crate::error::SetupError;
use crate::geometry::Resolution;
use crate::registry::PipelineRegistry;
use crate::resources::{ResourceSet, UNIFORM, UNIFORM_BLOCK_BYTES};
use crate::sequencer::{
    frame_shape,
    index_after,
    same_shape,
    shapes_agree,
    Command,
    FrameShape,
    FrameState,
    PassSequencer,
};
use crate::stager::{frame_params, is_block_of, stage, ScheduledUpload, UniformParams};

verus! {

/// What the host reports to the driver.
#[derive(Clone, Copy, Debug, PartialEq, Eq, Structural)]
pub enum DriverEvent {
    /// A redraw is due. `acquired` tells whether the next surface image
    /// could be had without waiting.
    RedrawRequested { acquired: bool },
    /// The window system has no more events for now.
    MainEventsCleared,
    /// The user asked to close the window.
    CloseRequested,
    /// The device was lost or ran out of memory.
    DeviceLost,
    /// Any other event.
    Other,
}

/// What the host is to do next.
#[derive(Clone, Debug, PartialEq, Eq)]
pub enum DriverAction {
    /// Record `commands`, with `upload` as the parameters of the frame,
    /// submit them, present the surface image and reclaim the staging
    /// regions.
    Render { upload: ScheduledUpload, commands: Vec<Command> },
    /// Drop this tick; the next redraw tries again.
    Skip,
    /// Ask the window system for a redraw.
    RequestRedraw,
    /// Go on polling.
    Idle,
    /// Leave the loop: the session was closed.
    Exit,
    /// Leave the loop: the session cannot go on.
    Abort,
}

/// The sort of an action, without what it carries.
#[derive(Clone, Copy, Debug, PartialEq, Eq, Structural)]
pub enum ActionKind {
    Render,
    Skip,
    RequestRedraw,
    Idle,
    Exit,
    Abort,
}

impl DriverAction {
    /// The sort of this action.
    pub open spec fn kind_of(&self) -> ActionKind {
        match self {
            DriverAction::Render { .. } => ActionKind::Render,
            DriverAction::Skip => ActionKind::Skip,
            DriverAction::RequestRedraw => ActionKind::RequestRedraw,
            DriverAction::Idle => ActionKind::Idle,
            DriverAction::Exit => ActionKind::Exit,
            DriverAction::Abort => ActionKind::Abort,
        }
    }

    /// The sort of this action.
    pub fn kind(&self) -> (kind: ActionKind)
        ensures
            kind == self.kind_of(),
    {
        match self {
            DriverAction::Render { .. } => ActionKind::Render,
            DriverAction::Skip => ActionKind::Skip,
            DriverAction::RequestRedraw => ActionKind::RequestRedraw,
            DriverAction::Idle => ActionKind::Idle,
            DriverAction::Exit => ActionKind::Exit,
            DriverAction::Abort => ActionKind::Abort,
        }
    }
}

/// The driver as contracts see it.
pub struct DriverView {
    /// Whether frames are still produced.
    pub running: bool,
    /// The frame index that the next frame uploads.
    pub frame_index: u32,
    /// Inner steps per presented frame.
    pub repeat: u32,
    /// The resolution of the session.
    pub resolution: Resolution,
    /// The shape of every frame of the session.
    pub shape: FrameShape,
}

/// The sort of action that answers an event.
pub open spec fn answer(running: bool, event: DriverEvent) -> ActionKind {
    if !running {
        ActionKind::Exit
    } else {
        match event {
            DriverEvent::RedrawRequested { acquired } => if acquired {
                ActionKind::Render
            } else {
                ActionKind::Skip
            },
            DriverEvent::MainEventsCleared => ActionKind::RequestRedraw,
            DriverEvent::CloseRequested => ActionKind::Exit,
            DriverEvent::DeviceLost => ActionKind::Abort,
            DriverEvent::Other => ActionKind::Idle,
        }
    }
}

impl DriverView {
    /// The parameters that the next frame uploads.
    pub open spec fn params(self) -> UniformParams {
        UniformParams {
            width: self.resolution.width,
            height: self.resolution.height,
            frame_index: self.frame_index,
        }
    }

    /// The driver after an event. A close request and a lost device end
    /// the session; a rendered frame advances the frame index by the
    /// number of inner steps; nothing else changes.
    pub open spec fn after(self, event: DriverEvent) -> DriverView {
        DriverView {
            running: self.running && event != DriverEvent::CloseRequested && event
                != DriverEvent::DeviceLost,
            frame_index: if answer(self.running, event) == ActionKind::Render {
                index_after(self.frame_index, self.repeat)
            } else {
                self.frame_index
            },
            ..self
        }
    }
}

/// Once a session has ended it stays ended: every event is answered with
/// `Exit`, no frame is rendered and nothing changes.
pub proof fn lemma_ended_session_stays_ended(view: DriverView, event: DriverEvent)
    requires
        !view.running,
    ensures
        answer(view.running, event) == ActionKind::Exit,
        view.after(event) == view,
{
}

/// A redraw that could not acquire a surface image is skipped: the session
/// goes on as it was, with the same frame index, and the next redraw tries
/// again.
pub proof fn lemma_missing_surface_is_retried(view: DriverView)
    requires
        view.running,
    ensures
        answer(view.running, DriverEvent::RedrawRequested { acquired: false })
            == ActionKind::Skip,
        view.after(DriverEvent::RedrawRequested { acquired: false }) == view,
        answer(
            view.after(DriverEvent::RedrawRequested { acquired: false }).running,
            DriverEvent::RedrawRequested { acquired: true },
        ) == ActionKind::Render,
{
}

/// The frame index changes with a rendered frame and with nothing else,
/// and a rendered frame moves it by the number of inner steps.
pub proof fn lemma_only_frames_advance_the_index(view: DriverView, event: DriverEvent)
    ensures
        answer(view.running, event) != ActionKind::Render ==> view.after(event).frame_index
            == view.frame_index,
        answer(view.running, event) == ActionKind::Render ==> view.after(event).frame_index
            == index_after(view.frame_index, view.repeat),
        view.after(event).shape == view.shape,
        view.after(event).repeat == view.repeat,
        view.after(event).resolution == view.resolution,
{
}

/// The frame loop of a session.
pub struct FrameDriver {
    resources: ResourceSet,
    registry: PipelineRegistry,
    bindings: BindingSets,
    sequencer: PassSequencer,
    state: FrameState,
    running: bool,
}

impl View for FrameDriver {
    type V = DriverView;

    closed spec fn view(&self) -> DriverView {
        DriverView {
            running: self.running,
            frame_index: self.state.frame_index,
            repeat: self.sequencer.repeat(),
            resolution: self.resources@.resolution,
            shape: frame_shape(self.resources@, self.registry@, self.sequencer.repeat() as nat),
        }
    }
}

impl FrameDriver {
    #[verifier::type_invariant]
    spec fn inv(&self) -> bool {
        &&& same_shape(self.resources@, self.registry@, self.bindings@)
        &&& frame_shape(self.resources@, self.registry@, self.sequencer.repeat() as nat).len()
            <= usize::MAX
    }

    /// A driver for the given setup, before its first frame.
    ///
    /// Fails with `ShapeMismatch` where the three parts of the setup were
    /// not made for one another, else with `FrameTooLong` where a frame
    /// would have more commands than can be held.
    pub fn new(
        resources: ResourceSet,
        registry: PipelineRegistry,
        bindings: BindingSets,
        sequencer: PassSequencer,
    ) -> (made: Result<FrameDriver, SetupError>)
        ensures
            match made {
                Ok(driver) => {
                    &&& same_shape(resources@, registry@, bindings@)
                    &&& driver@.shape == frame_shape(
                        resources@,
                        registry@,
                        sequencer.repeat() as nat,
                    )
                    &&& driver@.shape.len() <= usize::MAX
                    &&& driver@.running
                    &&& driver@.frame_index == 0
                    &&& driver@.repeat == sequencer.repeat()
                    &&& driver@.resolution == resources@.resolution
                },
                Err(SetupError::ShapeMismatch) => !same_shape(resources@, registry@, bindings@),
                Err(SetupError::FrameTooLong) => {
                    &&& same_shape(resources@, registry@, bindings@)
                    &&& frame_shape(resources@, registry@, sequencer.repeat() as nat).len()
                        > usize::MAX
                },
                Err(_) => false,
            },
    {
        if !shapes_agree(&resources, &registry, &bindings) {
            return Err(SetupError::ShapeMismatch);
        }
        if sequencer.frame_len(&registry).is_none() {
            return Err(SetupError::FrameTooLong);
        }
        Ok(
            FrameDriver {
                resources,
                registry,
                bindings,
                sequencer,
                state: FrameState::new(),
                running: true,
            },
        )
    }

    /// The resources of the session.
    pub fn resources(&self) -> (resources: &ResourceSet)
        ensures
            resources@.channels == self@.shape.channels,
            resources@.accumulators() == self@.shape.accumulators,
            resources@.resolution == self@.resolution,
            resources@.resolution.grid() == self@.shape.grid,
    {
        proof {
            use_type_invariant(self);
        }
        &self.resources
    }

    /// The pipeline registry of the session.
    pub fn registry(&self) -> (registry: &PipelineRegistry)
        ensures
            registry@.channels() == self@.shape.channels,
            registry@.images() == self@.shape.images,
            registry@.accumulators == self@.shape.accumulators,
            registry@.variant == self@.shape.variant,
    {
        &self.registry
    }

    /// The binding sets of the session.
    pub fn bindings(&self) -> (bindings: &BindingSets)
        ensures
            bindings@.channels == self@.shape.channels,
            bindings@.accumulators == self@.shape.accumulators,
    {
        proof {
            use_type_invariant(self);
        }
        &self.bindings
    }

    /// Whether frames are still produced.
    pub fn is_running(&self) -> (running: bool)
        ensures
            running == self@.running,
    {
        self.running
    }

    /// The frame index that the next frame uploads.
    pub fn frame_index(&self) -> (index: u32)
        ensures
            index == self@.frame_index,
    {
        self.state.frame_index
    }

    /// Answers one event of the frame loop.
    ///
    /// While the session runs: a redraw with a surface image renders one
    /// frame and advances the frame index by the number of inner steps; a
    /// redraw without one is skipped; a quiet window system is asked for a
    /// redraw; a close request ends the session and a lost device aborts
    /// it. Once the session has ended, every event is answered with `Exit`.
    /// Nothing but a rendered frame changes the frame index, and nothing
    /// changes the shape of the frames.
    pub fn handle(&mut self, event: DriverEvent) -> (action: DriverAction)
        ensures
            action.kind_of() == answer(old(self)@.running, event),
            final(self)@ == old(self)@.after(event),
            action matches DriverAction::Render { upload, commands } ==> {
                &&& commands@ == old(self)@.shape.commands()
                &&& upload.target == UNIFORM
                &&& upload.offset == 0
                &&& is_block_of(upload.bytes@, old(self)@.params().words())
                &&& upload.bytes@.len() == UNIFORM_BLOCK_BYTES
            },
    {
        proof {
            use_type_invariant(&*self);
        }
        if !self.running {
            return DriverAction::Exit;
        }
        match event {
            DriverEvent::RedrawRequested { acquired } => {
                if !acquired {
                    return DriverAction::Skip;
                }
                let params = frame_params(self.resources.resolution(), self.state.frame_index);
                let upload = stage(&params);
                let mut state = self.state;
                let built = self.sequencer.build_frame(
                    &self.resources,
                    &self.registry,
                    &self.bindings,
                    &mut state,
                );
                match built {
                    Ok(commands) => {
                        self.state = state;
                        DriverAction::Render { upload, commands }
                    },
                    Err(_) => {
                        // The setup was checked when the driver was made.
                        assert(false);
                        self.running = false;
                        DriverAction::Abort
                    },
                }
            },
            DriverEvent::MainEventsCleared => DriverAction::RequestRedraw,
            DriverEvent::CloseRequested => {
                self.running = false;
                DriverAction::Exit
            },
            DriverEvent::DeviceLost => {
                self.running = false;
                DriverAction::Abort
            },
            DriverEvent::Other => DriverAction::Idle,
        }
    }
}

} // verus!
