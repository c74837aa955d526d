//! The pipeline registry: one compute pipeline per requested entry point,
//! all on one binding layout, and the variant of the presentation pipeline
//! that fits the surface.

use vstd::prelude::*;
use crate::error::SetupError;
use crate::layout::{
    blit_layout,
    build_blit_layout,
    build_compute_layout,
    compute_layout,
    compute_slots,
    LayoutEntry,
};
use crate::present::{select_fragment_variant, variant_for, FragmentVariant, SurfaceFormat};

verus! {

/// The names of a list of strings.
pub open spec fn names(strings: Seq<String>) -> Seq<Seq<char>> {
    Seq::new(strings.len(), |i: int| strings[i]@)
}

/// A compiled shader program, as far as the registry looks into it: the
/// names of its entry points.
pub struct ShaderArtifact {
    pub entry_points: Vec<String>,
}

impl ShaderArtifact {
    /// Whether the artifact has an entry point of this name.
    pub open spec fn exposes(&self, name: Seq<char>) -> bool {
        exists|i: int|
            0 <= i < self.entry_points@.len() && (#[trigger] self.entry_points@[i])@ == name
    }

    /// Whether the artifact has an entry point for each of the first `n`
    /// of the given requests.
    pub open spec fn exposes_first(&self, requests: Seq<String>, n: int) -> bool {
        forall|k: int| 0 <= k < n ==> self.exposes((#[trigger] requests[k])@)
    }

    /// Position of the first entry point of the given name, if there is
    /// one.
    pub fn find(&self, name: &String) -> (found: Option<usize>)
        ensures
            match found {
                Some(i) => {
                    &&& i < self.entry_points@.len()
                    &&& self.entry_points@[i as int]@ == name@
                    &&& forall|k: int| 0 <= k < i ==> (#[trigger] self.entry_points@[k])@ != name@
                },
                None => !self.exposes(name@),
            },
    {
        let mut i: usize = 0;
        while i < self.entry_points.len()
            invariant
                i <= self.entry_points@.len(),
                forall|k: int| 0 <= k < i ==> (#[trigger] self.entry_points@[k])@ != name@,
            decreases self.entry_points@.len() - i,
        {
            if self.entry_points[i] == *name {
                return Some(i);
            }
            i = i + 1;
        }
        None
    }
}

/// The pass that a compute pipeline serves.
#[derive(Clone, Copy, Debug, PartialEq, Eq, Structural)]
pub enum Pass {
    /// The pass that produces feedback channel `channel`.
    Channel { channel: usize },
    /// Image pass number `pass`, which writes the output image.
    Image { pass: usize },
}

/// One entry of the registry. Every compute pipeline uses the compute
/// layout of the registry it stands in.
#[derive(Clone, Debug, PartialEq, Eq)]
pub struct PipelineDescriptor {
    pub entry_point: String,
    pub pass: Pass,
}

/// What a registry is made for.
pub struct RegistryPlan {
    /// Entry point of the producing pass of each feedback channel.
    pub channel_producers: Seq<Seq<char>>,
    /// Entry point of each image pass.
    pub image_passes: Seq<Seq<char>>,
    /// Number of accumulation buffers in the compute layout.
    pub accumulators: nat,
    /// The fragment variant of the presentation pass.
    pub variant: FragmentVariant,
}

impl RegistryPlan {
    /// Number of feedback channels.
    pub open spec fn channels(self) -> nat {
        self.channel_producers.len()
    }

    /// Number of image passes.
    pub open spec fn images(self) -> nat {
        self.image_passes.len()
    }

    /// Number of compute pipelines.
    pub open spec fn pipelines(self) -> nat {
        self.channels() + self.images()
    }

    /// Index of the pipeline that produces channel `j`.
    pub open spec fn channel_pipeline(self, j: nat) -> nat {
        j
    }

    /// Index of the pipeline of image pass `i`.
    pub open spec fn image_pipeline(self, i: nat) -> nat {
        self.channels() + i
    }

    /// Entry point of compute pipeline `k`.
    pub open spec fn entry_point(self, k: int) -> Seq<char> {
        if k < self.channels() {
            self.channel_producers[k]
        } else {
            self.image_passes[k - self.channels()]
        }
    }

    /// The pass that compute pipeline `k` serves.
    pub open spec fn pass(self, k: int) -> Pass {
        if k < self.channels() {
            Pass::Channel { channel: k as usize }
        } else {
            Pass::Image { pass: (k - self.channels()) as usize }
        }
    }

    /// The layout that all compute pipelines share.
    pub open spec fn compute_layout(self) -> Seq<LayoutEntry> {
        compute_layout(self.accumulators, self.channels())
    }

    /// Whether the slots of the compute layout can be numbered in 32 bits.
    pub open spec fn fits(self) -> bool {
        compute_slots(self.accumulators, self.channels()) < u32::MAX
    }
}

/// The pipelines of a session and the layouts they are built on.
pub struct PipelineRegistry {
    pipelines: Vec<PipelineDescriptor>,
    channels: usize,
    accumulators: usize,
    compute_layout: Vec<LayoutEntry>,
    blit_layout: Vec<LayoutEntry>,
    variant: FragmentVariant,
}

impl View for PipelineRegistry {
    type V = RegistryPlan;

    closed spec fn view(&self) -> RegistryPlan {
        RegistryPlan {
            channel_producers: Seq::new(
                self.channels as nat,
                |k: int| self.pipelines@[k].entry_point@,
            ),
            image_passes: Seq::new(
                (self.pipelines@.len() - self.channels) as nat,
                |i: int| self.pipelines@[self.channels + i].entry_point@,
            ),
            accumulators: self.accumulators as nat,
            variant: self.variant,
        }
    }
}

impl PipelineRegistry {
    #[verifier::type_invariant]
    spec fn inv(&self) -> bool {
        &&& self.channels <= self.pipelines@.len()
        &&& forall|k: int|
            0 <= k < self.pipelines@.len() ==> (#[trigger] self.pipelines@[k]).pass == self@.pass(k)
        &&& self@.fits()
        &&& self.compute_layout@ == self@.compute_layout()
        &&& self.blit_layout@ == blit_layout()
    }

    /// Registers one compute pipeline per channel producer and per image
    /// pass, on the compute layout for `accumulators` accumulation buffers
    /// and as many channels as there are producers, and selects the
    /// presentation variant for the surface format.
    ///
    /// Fails, in this order: with `TooManyBindings` where the layout cannot
    /// be numbered in 32 bits; with `UnknownChannelProducer` or
    /// `UnknownImagePass` for the first request that the artifact does not
    /// expose, producers before image passes; with
    /// `UnsupportedSurfaceFormat` for an unrecognised format.
    pub fn new(
        artifact: &ShaderArtifact,
        channel_producers: &Vec<String>,
        image_passes: &Vec<String>,
        accumulators: usize,
        format: SurfaceFormat,
    ) -> (made: Result<PipelineRegistry, SetupError>)
        ensures
            match made {
                Ok(registry) => {
                    &&& registry@.channel_producers == names(channel_producers@)
                    &&& registry@.image_passes == names(image_passes@)
                    &&& registry@.accumulators == accumulators
                    &&& variant_for(format) == Some(registry@.variant)
                    &&& registry@.fits()
                    &&& artifact.exposes_first(channel_producers@, channel_producers@.len() as int)
                    &&& artifact.exposes_first(image_passes@, image_passes@.len() as int)
                },
                Err(SetupError::TooManyBindings) => compute_slots(
                    accumulators as nat,
                    channel_producers@.len(),
                ) >= u32::MAX,
                Err(SetupError::UnknownChannelProducer { channel }) => {
                    &&& compute_slots(accumulators as nat, channel_producers@.len()) < u32::MAX
                    &&& channel < channel_producers@.len()
                    &&& !artifact.exposes(channel_producers@[channel as int]@)
                    &&& artifact.exposes_first(channel_producers@, channel as int)
                },
                Err(SetupError::UnknownImagePass { pass }) => {
                    &&& compute_slots(accumulators as nat, channel_producers@.len()) < u32::MAX
                    &&& artifact.exposes_first(channel_producers@, channel_producers@.len() as int)
                    &&& pass < image_passes@.len()
                    &&& !artifact.exposes(image_passes@[pass as int]@)
                    &&& artifact.exposes_first(image_passes@, pass as int)
                },
                Err(SetupError::UnsupportedSurfaceFormat) => {
                    &&& compute_slots(accumulators as nat, channel_producers@.len()) < u32::MAX
                    &&& artifact.exposes_first(channel_producers@, channel_producers@.len() as int)
                    &&& artifact.exposes_first(image_passes@, image_passes@.len() as int)
                    &&& variant_for(format).is_none()
                },
                Err(_) => false,
            },
    {
        let channels: usize = channel_producers.len();
        let compute_layout = match build_compute_layout(accumulators, channels) {
            Ok(layout) => layout,
            Err(e) => {
                return Err(e);
            },
        };
        let mut pipelines: Vec<PipelineDescriptor> = Vec::new();
        let mut j: usize = 0;
        while j < channels
            invariant
                j <= channels,
                channels == channel_producers@.len(),
                compute_slots(accumulators as nat, channels as nat) < u32::MAX,
                pipelines@.len() == j,
                artifact.exposes_first(channel_producers@, j as int),
                forall|k: int|
                    0 <= k < j ==> (#[trigger] pipelines@[k]).pass == (Pass::Channel {
                        channel: k as usize,
                    }) && pipelines@[k].entry_point@ == channel_producers@[k]@,
            decreases channels - j,
        {
            if artifact.find(&channel_producers[j]).is_none() {
                return Err(SetupError::UnknownChannelProducer { channel: j });
            }
            pipelines.push(
                PipelineDescriptor {
                    entry_point: channel_producers[j].clone(),
                    pass: Pass::Channel { channel: j },
                },
            );
            j = j + 1;
        }
        let images: usize = image_passes.len();
        let mut i: usize = 0;
        while i < images
            invariant
                i <= images,
                images == image_passes@.len(),
                channels == channel_producers@.len(),
                compute_slots(accumulators as nat, channels as nat) < u32::MAX,
                artifact.exposes_first(channel_producers@, channels as int),
                pipelines@.len() == channels + i,
                artifact.exposes_first(image_passes@, i as int),
                forall|k: int|
                    0 <= k < channels ==> (#[trigger] pipelines@[k]).pass == (Pass::Channel {
                        channel: k as usize,
                    }) && pipelines@[k].entry_point@ == channel_producers@[k]@,
                forall|k: int|
                    channels <= k < channels + i ==> (#[trigger] pipelines@[k]).pass
                        == (Pass::Image { pass: (k - channels) as usize })
                        && pipelines@[k].entry_point@ == image_passes@[k - channels]@,
            decreases images - i,
        {
            if artifact.find(&image_passes[i]).is_none() {
                return Err(SetupError::UnknownImagePass { pass: i });
            }
            pipelines.push(
                PipelineDescriptor {
                    entry_point: image_passes[i].clone(),
                    pass: Pass::Image { pass: i },
                },
            );
            i = i + 1;
        }
        let variant = match select_fragment_variant(format) {
            Ok(variant) => variant,
            Err(e) => {
                return Err(e);
            },
        };
        let registry = PipelineRegistry {
            pipelines,
            channels,
            accumulators,
            compute_layout,
            blit_layout: build_blit_layout(),
            variant,
        };
        assert(registry@.channel_producers =~= names(channel_producers@));
        assert(registry@.image_passes =~= names(image_passes@));
        Ok(registry)
    }

    /// Number of feedback channels.
    pub fn channel_count(&self) -> (n: usize)
        ensures
            n == self@.channels(),
            self@.fits(),
    {
        proof {
            use_type_invariant(self);
        }
        self.channels
    }

    /// Number of image passes.
    pub fn image_count(&self) -> (n: usize)
        ensures
            n == self@.images(),
            self@.channels() + n <= usize::MAX,
    {
        proof {
            use_type_invariant(self);
        }
        self.pipelines.len() - self.channels
    }

    /// Number of accumulation buffers in the compute layout.
    pub fn accumulator_count(&self) -> (n: usize)
        ensures
            n == self@.accumulators,
    {
        self.accumulators
    }

    /// Number of compute pipelines.
    pub fn pipeline_count(&self) -> (n: usize)
        ensures
            n == self@.pipelines(),
    {
        proof {
            use_type_invariant(self);
        }
        self.pipelines.len()
    }

    /// Compute pipeline `k`, if there is one: the producers of the channels
    /// in their order, then the image passes in theirs.
    pub fn pipeline(&self, k: usize) -> (found: Option<&PipelineDescriptor>)
        ensures
            match found {
                Some(descriptor) => {
                    &&& k < self@.pipelines()
                    &&& descriptor.entry_point@ == self@.entry_point(k as int)
                    &&& descriptor.pass == self@.pass(k as int)
                },
                None => k >= self@.pipelines(),
            },
    {
        proof {
            use_type_invariant(self);
        }
        if k < self.pipelines.len() {
            Some(&self.pipelines[k])
        } else {
            None
        }
    }

    /// The layout that all compute pipelines share.
    pub fn compute_layout(&self) -> (layout: &Vec<LayoutEntry>)
        ensures
            layout@ == self@.compute_layout(),
    {
        proof {
            use_type_invariant(self);
        }
        &self.compute_layout
    }

    /// The layout of the presentation pipelines.
    pub fn blit_layout(&self) -> (layout: &Vec<LayoutEntry>)
        ensures
            layout@ == blit_layout(),
    {
        proof {
            use_type_invariant(self);
        }
        &self.blit_layout
    }

    /// The fragment variant that the presentation pass draws with.
    pub fn present_variant(&self) -> (variant: FragmentVariant)
        ensures
            variant == self@.variant,
    {
        self.variant
    }
}

} // verus!
