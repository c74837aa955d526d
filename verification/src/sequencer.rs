//! The pass sequencer: the ordered commands of one presented frame.
//!
//! A frame uploads the parameters, runs a fixed number of inner steps and
//! presents. An inner step updates every feedback channel in declaration
//! order, each update being the dispatch of the producing pass followed by
//! the rotation of the channel, and then runs the image passes.

use vstd::prelude::*;
use crate::bindings::{BindingPlan, BindingSets};
use crate::error::SetupError;
use crate::geometry::Grid;
use crate::present::FragmentVariant;
use crate::registry::{Pass, PipelineRegistry, RegistryPlan};
use crate::resources::{ResourcePlan, ResourceSet, FIXED_RESOURCES};

verus! {

/// One command of a frame, in the order of recording.
#[derive(Clone, Copy, Debug, PartialEq, Eq, Structural)]
pub enum Command {
    /// Copy the staged parameters of this frame into the uniform buffer.
    UploadParams,
    /// Run compute pipeline `pipeline` of the registry, with the compute
    /// binding set, over `grid` work-groups.
    Dispatch { pass: Pass, pipeline: usize, grid: Grid },
    /// Rotate feedback channel `channel`: copy the whole texture `source`,
    /// the write slot, into `destination`, the read slot.
    Rotate { channel: usize, source: usize, destination: usize },
    /// Draw the output image into the surface with the given variant.
    Present { variant: FragmentVariant },
}

/// What the commands of a frame depend on.
pub struct FrameShape {
    /// Number of feedback channels.
    pub channels: nat,
    /// Number of image passes.
    pub images: nat,
    /// Number of accumulation buffers.
    pub accumulators: nat,
    /// Inner steps per presented frame.
    pub repeat: nat,
    /// The dispatch size of every pass.
    pub grid: Grid,
    /// The fragment variant of the presentation pass.
    pub variant: FragmentVariant,
}

impl FrameShape {
    /// The dispatch that produces channel `j`.
    pub open spec fn channel_dispatch(self, j: int) -> Command {
        Command::Dispatch {
            pass: Pass::Channel { channel: j as usize },
            pipeline: j as usize,
            grid: self.grid,
        }
    }

    /// The rotation of channel `j`.
    pub open spec fn rotation(self, j: int) -> Command {
        Command::Rotate {
            channel: j as usize,
            source: (FIXED_RESOURCES + self.accumulators + 2 * j + 1) as usize,
            destination: (FIXED_RESOURCES + self.accumulators + 2 * j) as usize,
        }
    }

    /// The dispatch of image pass `i`.
    pub open spec fn image_dispatch(self, i: int) -> Command {
        Command::Dispatch {
            pass: Pass::Image { pass: i as usize },
            pipeline: (self.channels + i) as usize,
            grid: self.grid,
        }
    }

    /// The command at position `p` of the channel updates: the dispatch of
    /// a channel at an even position, its rotation right after it.
    pub open spec fn channel_command(self, p: int) -> Command {
        if p % 2 == 0 {
            self.channel_dispatch(p / 2)
        } else {
            self.rotation(p / 2)
        }
    }

    /// The updates of the first `n` channels.
    pub open spec fn channel_updates(self, n: nat) -> Seq<Command> {
        Seq::new(2 * n, |p: int| self.channel_command(p))
    }

    /// The dispatches of the first `n` image passes.
    pub open spec fn image_dispatches(self, n: nat) -> Seq<Command> {
        Seq::new(n, |i: int| self.image_dispatch(i))
    }

    /// One inner step: all channel updates, then all image passes.
    pub open spec fn inner_step(self) -> Seq<Command> {
        self.channel_updates(self.channels) + self.image_dispatches(self.images)
    }

    /// Number of commands of one inner step.
    pub open spec fn step_len(self) -> nat {
        2 * self.channels + self.images
    }

    /// `k` inner steps, one after the other.
    pub open spec fn steps(self, k: nat) -> Seq<Command>
        decreases k,
    {
        if k == 0 {
            Seq::empty()
        } else {
            self.steps((k - 1) as nat) + self.inner_step()
        }
    }

    /// The commands of a frame: the upload, the inner steps, the
    /// presentation.
    pub open spec fn commands(self) -> Seq<Command> {
        seq![Command::UploadParams] + self.steps(self.repeat) + seq![
            Command::Present { variant: self.variant },
        ]
    }

    /// Number of commands of a frame.
    pub open spec fn len(self) -> nat {
        2 + self.repeat * self.step_len()
    }
}

/// The shape of the frames of a session.
pub open spec fn frame_shape(resources: ResourcePlan, registry: RegistryPlan, repeat: nat) -> FrameShape {
    FrameShape {
        channels: registry.channels(),
        images: registry.images(),
        accumulators: registry.accumulators,
        repeat,
        grid: resources.resolution.grid(),
        variant: registry.variant,
    }
}

/// Whether the resource set, the registry and the binding sets were made
/// for the same numbers of feedback channels and accumulation buffers.
pub open spec fn same_shape(
    resources: ResourcePlan,
    registry: RegistryPlan,
    bindings: BindingPlan,
) -> bool {
    &&& resources.channels == registry.channels()
    &&& resources.accumulators() == registry.accumulators
    &&& bindings.channels == registry.channels()
    &&& bindings.accumulators == registry.accumulators
}

/// Whether the three parts of a setup were made for the same numbers of
/// feedback channels and accumulation buffers.
pub fn shapes_agree(
    resources: &ResourceSet,
    registry: &PipelineRegistry,
    bindings: &BindingSets,
) -> (agree: bool)
    ensures
        agree == same_shape(resources@, registry@, bindings@),
{
    let channels: usize = registry.channel_count();
    let accumulators: usize = registry.accumulator_count();
    resources.channel_count() == channels && resources.accumulator_count() == accumulators
        && bindings.channel_count() == channels && bindings.accumulator_count() == accumulators
}

/// The frame index after a frame of `repeat` inner steps. It wraps at 32
/// bits and nowhere else.
pub open spec fn index_after(index: u32, repeat: u32) -> u32 {
    if index + repeat > u32::MAX {
        (index + repeat - 0x1_0000_0000) as u32
    } else {
        (index + repeat) as u32
    }
}

/// The state that a frame changes.
#[derive(Clone, Copy, Debug, PartialEq, Eq, Structural)]
pub struct FrameState {
    /// Number of inner steps run so far, modulo 2^32.
    pub frame_index: u32,
}

impl FrameState {
    /// The state before the first frame.
    pub fn new() -> (state: FrameState)
        ensures
            state.frame_index == 0,
    {
        FrameState { frame_index: 0 }
    }
}

/// The scheduler of the passes of a frame.
pub struct PassSequencer {
    repeat: u32,
}

impl PassSequencer {
    #[verifier::type_invariant]
    spec fn inv(&self) -> bool {
        self.repeat >= 1
    }

    /// Inner steps per presented frame.
    pub closed spec fn repeat(&self) -> u32 {
        self.repeat
    }

    /// A sequencer that runs `repeat` inner steps per presented frame.
    /// Fails with `ZeroRepeat` for zero.
    pub fn new(repeat: u32) -> (made: Result<PassSequencer, SetupError>)
        ensures
            match made {
                Ok(sequencer) => repeat >= 1 && sequencer.repeat() == repeat,
                Err(e) => repeat == 0 && e == SetupError::ZeroRepeat,
            },
    {
        if repeat == 0 {
            Err(SetupError::ZeroRepeat)
        } else {
            Ok(PassSequencer { repeat })
        }
    }

    /// Inner steps per presented frame.
    pub fn repeat_count(&self) -> (repeat: u32)
        ensures
            repeat == self.repeat(),
            repeat >= 1,
    {
        proof {
            use_type_invariant(self);
        }
        self.repeat
    }

    /// Number of commands of a frame, or `None` where a sequence of that
    /// length cannot be held.
    pub fn frame_len(&self, registry: &PipelineRegistry) -> (len: Option<usize>)
        ensures
            match len {
                Some(n) => n == 2 + self.repeat() * (2 * registry@.channels() + registry@.images()),
                None => 2 + self.repeat() * (2 * registry@.channels() + registry@.images())
                    > usize::MAX,
            },
    {
        let channels: usize = registry.channel_count();
        let images: usize = registry.image_count();
        let repeat: usize = self.repeat as usize;
        proof {
            use_type_invariant(self);
        }
        let step: usize = match (2 * channels).checked_add(images) {
            Some(step) => step,
            None => {
                assert(2 + self.repeat() * (2 * registry@.channels() + registry@.images())
                    > usize::MAX) by (nonlinear_arith)
                    requires
                        self.repeat() >= 1,
                        2 * registry@.channels() + registry@.images() > usize::MAX,
                ;
                return None;
            },
        };
        match repeat.checked_mul(step) {
            Some(all) => all.checked_add(2),
            None => None,
        }
    }

    /// Builds the commands of the next frame and advances the frame index
    /// by one for each inner step.
    ///
    /// Fails with `ShapeMismatch` where the three parts of the setup were
    /// not made for one another, and with `FrameTooLong` where the sequence
    /// would have more commands than can be held. The state is then left
    /// as it was.
    pub fn build_frame(
        &self,
        resources: &ResourceSet,
        registry: &PipelineRegistry,
        bindings: &BindingSets,
        state: &mut FrameState,
    ) -> (built: Result<Vec<Command>, SetupError>)
        ensures
            match built {
                Ok(commands) => {
                    let shape = frame_shape(resources@, registry@, self.repeat() as nat);
                    &&& same_shape(resources@, registry@, bindings@)
                    &&& shape.len() <= usize::MAX
                    &&& commands@ == shape.commands()
                    &&& final(state).frame_index == index_after(
                        old(state).frame_index,
                        self.repeat(),
                    )
                },
                Err(SetupError::ShapeMismatch) => {
                    &&& !same_shape(resources@, registry@, bindings@)
                    &&& *final(state) == *old(state)
                },
                Err(SetupError::FrameTooLong) => {
                    &&& same_shape(resources@, registry@, bindings@)
                    &&& frame_shape(resources@, registry@, self.repeat() as nat).len() > usize::MAX
                    &&& *final(state) == *old(state)
                },
                Err(_) => false,
            },
    {
        if !shapes_agree(resources, registry, bindings) {
            return Err(SetupError::ShapeMismatch);
        }
        let channels: usize = registry.channel_count();
        let images: usize = registry.image_count();
        let accumulators: usize = registry.accumulator_count();
        if self.frame_len(registry).is_none() {
            return Err(SetupError::FrameTooLong);
        }
        let repeat: u32 = self.repeat_count();
        let grid = resources.resolution().workgroup_grid();
        let variant = registry.present_variant();
        let ghost shape = frame_shape(resources@, registry@, repeat as nat);
        let ghost upload = seq![Command::UploadParams];
        let mut commands: Vec<Command> = Vec::new();
        commands.push(Command::UploadParams);
        assert(commands@ =~= upload + shape.steps(0));
        let mut k: u32 = 0;
        while k < repeat
            invariant
                k <= repeat,
                shape == frame_shape(resources@, registry@, repeat as nat),
                upload == seq![Command::UploadParams],
                channels == shape.channels,
                images == shape.images,
                accumulators == shape.accumulators,
                channels + images <= usize::MAX,
                resources@.channels == channels,
                resources@.accumulators() == accumulators,
                grid == shape.grid,
                commands@ == upload + shape.steps(k as nat),
            decreases repeat - k,
        {
            let ghost before = commands@;
            let mut j: usize = 0;
            while j < channels
                invariant
                    j <= channels,
                    channels == shape.channels,
                    accumulators == shape.accumulators,
                    resources@.channels == channels,
                    resources@.accumulators() == accumulators,
                    grid == shape.grid,
                    commands@ == before + shape.channel_updates(j as nat),
                decreases channels - j,
            {
                let source: usize = resources.channel_write(j).unwrap();
                let destination: usize = resources.channel_read(j).unwrap();
                commands.push(
                    Command::Dispatch { pass: Pass::Channel { channel: j }, pipeline: j, grid },
                );
                commands.push(Command::Rotate { channel: j, source, destination });
                assert(commands@ =~= before + shape.channel_updates((j + 1) as nat));
                j = j + 1;
            }
            let ghost updated = commands@;
            let mut i: usize = 0;
            while i < images
                invariant
                    i <= images,
                    images == shape.images,
                    channels == shape.channels,
                    channels + images <= usize::MAX,
                    grid == shape.grid,
                    commands@ == updated + shape.image_dispatches(i as nat),
                decreases images - i,
            {
                commands.push(
                    Command::Dispatch {
                        pass: Pass::Image { pass: i },
                        pipeline: channels + i,
                        grid,
                    },
                );
                assert(commands@ =~= updated + shape.image_dispatches((i + 1) as nat));
                i = i + 1;
            }
            assert(commands@ =~= upload + shape.steps((k + 1) as nat));
            k = k + 1;
        }
        commands.push(Command::Present { variant });
        state.frame_index = state.frame_index.wrapping_add(repeat);
        Ok(commands)
    }
}

} // verus!
