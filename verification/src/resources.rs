//! The resource set: every buffer, texture and sampler of a session,
//! described by size and usage, and the handles by which passes name them.
//!
//! All sizes follow from the resolution. The set is made once and never
//! resized.

use vstd::prelude::*;
use crate::error::SetupError;
use crate::geometry::Resolution;
use crate::layout::{compute_slots, shape_fits};

verus! {

/// Byte size of the uniform parameter block: three 32-bit words.
pub const UNIFORM_BLOCK_BYTES: u64 = 12;

/// Handle of the uniform buffer.
pub const UNIFORM: usize = 0;

/// Handle of the output image.
pub const OUTPUT_IMAGE: usize = 1;

/// Handle of the sampler of the presentation pass.
pub const SAMPLER: usize = 2;

/// Number of resources that every session has.
pub const FIXED_RESOURCES: usize = 3;

/// How a buffer may be used by the device.
#[derive(Clone, Copy, Debug, PartialEq, Eq, Structural)]
pub struct BufferUsage {
    pub copy_dst: bool,
    pub storage: bool,
    pub uniform: bool,
}

/// How a texture may be used by the device.
#[derive(Clone, Copy, Debug, PartialEq, Eq, Structural)]
pub struct TextureUsage {
    pub copy_src: bool,
    pub copy_dst: bool,
    pub storage_binding: bool,
    pub texture_binding: bool,
}

/// The pixel format of a texture of the session.
#[derive(Clone, Copy, Debug, PartialEq, Eq, Structural)]
pub enum ImageFormat {
    /// Four channels of 16-bit floats.
    Rgba16Float,
}

/// The format of every texture of the session, and of every storage
/// texture slot of the compute layout.
pub const STORAGE_FORMAT: ImageFormat = ImageFormat::Rgba16Float;

/// What the device is asked to create for one resource. Textures are
/// two-dimensional and have a single layer and a single mip level.
#[allow(inconsistent_fields)]
#[derive(Clone, Copy, Debug, PartialEq, Eq, Structural)]
pub enum ResourceDesc {
    Buffer { size: u64, usage: BufferUsage },
    Texture { width: u32, height: u32, format: ImageFormat, usage: TextureUsage },
    Sampler,
}

/// Usage of the uniform buffer and of the accumulation buffers.
pub open spec fn buffer_usage() -> BufferUsage {
    BufferUsage { copy_dst: true, storage: true, uniform: true }
}

/// The uniform buffer.
pub open spec fn uniform_desc() -> ResourceDesc {
    ResourceDesc::Buffer { size: UNIFORM_BLOCK_BYTES, usage: buffer_usage() }
}

/// The output image: written by compute passes, sampled by the
/// presentation pass.
pub open spec fn image_desc(resolution: Resolution) -> ResourceDesc {
    ResourceDesc::Texture {
        width: resolution.width,
        height: resolution.height,
        format: STORAGE_FORMAT,
        usage: TextureUsage {
            copy_src: false,
            copy_dst: false,
            storage_binding: true,
            texture_binding: true,
        },
    }
}

/// An accumulation buffer of `record_size` bytes per pixel.
pub open spec fn accumulation_desc(resolution: Resolution, record_size: u32) -> ResourceDesc {
    ResourceDesc::Buffer {
        size: resolution.bytes(record_size as nat) as u64,
        usage: buffer_usage(),
    }
}

/// The read slot of a feedback channel: sampled by passes, target of the
/// rotation copy.
pub open spec fn channel_read_desc(resolution: Resolution) -> ResourceDesc {
    ResourceDesc::Texture {
        width: resolution.width,
        height: resolution.height,
        format: STORAGE_FORMAT,
        usage: TextureUsage {
            copy_src: false,
            copy_dst: true,
            storage_binding: false,
            texture_binding: true,
        },
    }
}

/// The write slot of a feedback channel: written by the producing pass,
/// source of the rotation copy.
pub open spec fn channel_write_desc(resolution: Resolution) -> ResourceDesc {
    ResourceDesc::Texture {
        width: resolution.width,
        height: resolution.height,
        format: STORAGE_FORMAT,
        usage: TextureUsage {
            copy_src: true,
            copy_dst: false,
            storage_binding: true,
            texture_binding: false,
        },
    }
}

/// What a resource set is made for.
pub struct ResourcePlan {
    pub resolution: Resolution,
    /// Bytes per pixel of each accumulation buffer.
    pub record_sizes: Seq<u32>,
    /// Number of feedback channels.
    pub channels: nat,
}

impl ResourcePlan {
    /// Number of accumulation buffers.
    pub open spec fn accumulators(self) -> nat {
        self.record_sizes.len()
    }

    /// Number of resources.
    pub open spec fn len(self) -> nat {
        FIXED_RESOURCES as nat + self.accumulators() + 2 * self.channels
    }

    /// Whether accumulation buffer `i` has a byte size of at most 64 bits.
    pub open spec fn accumulator_fits(self, i: int) -> bool {
        self.resolution.bytes(self.record_sizes[i] as nat) <= u64::MAX
    }

    /// Whether the set can be made: its resources can be numbered in 32
    /// bits and every byte size fits in 64 bits.
    pub open spec fn fits(self) -> bool {
        &&& compute_slots(self.accumulators(), self.channels) < u32::MAX
        &&& forall|i: int| 0 <= i < self.accumulators() ==> self.accumulator_fits(i)
    }

    /// Handle of accumulation buffer `i`.
    pub open spec fn accumulator(self, i: nat) -> nat {
        FIXED_RESOURCES as nat + i
    }

    /// Handle of the read slot of channel `j`.
    pub open spec fn channel_read(self, j: nat) -> nat {
        FIXED_RESOURCES as nat + self.accumulators() + 2 * j
    }

    /// Handle of the write slot of channel `j`.
    pub open spec fn channel_write(self, j: nat) -> nat {
        FIXED_RESOURCES as nat + self.accumulators() + 2 * j + 1
    }

    /// The resource behind a handle.
    pub open spec fn desc(self, handle: int) -> ResourceDesc {
        if handle == UNIFORM {
            uniform_desc()
        } else if handle == OUTPUT_IMAGE {
            image_desc(self.resolution)
        } else if handle == SAMPLER {
            ResourceDesc::Sampler
        } else if handle < FIXED_RESOURCES + self.accumulators() {
            accumulation_desc(self.resolution, self.record_sizes[handle - FIXED_RESOURCES])
        } else if (handle - FIXED_RESOURCES - self.accumulators()) % 2 == 0 {
            channel_read_desc(self.resolution)
        } else {
            channel_write_desc(self.resolution)
        }
    }

    /// All resources, by handle.
    pub open spec fn descs(self) -> Seq<ResourceDesc> {
        Seq::new(self.len(), |handle: int| self.desc(handle))
    }
}

/// The resources of a session.
pub struct ResourceSet {
    resolution: Resolution,
    record_sizes: Vec<u32>,
    channels: usize,
    descs: Vec<ResourceDesc>,
}

impl View for ResourceSet {
    type V = ResourcePlan;

    closed spec fn view(&self) -> ResourcePlan {
        ResourcePlan {
            resolution: self.resolution,
            record_sizes: self.record_sizes@,
            channels: self.channels as nat,
        }
    }
}

impl ResourceSet {
    #[verifier::type_invariant]
    spec fn inv(&self) -> bool {
        &&& self@.fits()
        &&& self.descs@ == self@.descs()
    }

    /// Describes the resources of a session with the given resolution, one
    /// accumulation buffer per entry of `record_sizes` (bytes per pixel) and
    /// `channels` feedback channels.
    ///
    /// Fails with `TooManyBindings` where the resources cannot be numbered
    /// in 32 bits, else with `ResourceTooLarge` for the first accumulation
    /// buffer whose byte size does not fit in 64 bits.
    pub fn new(resolution: Resolution, record_sizes: Vec<u32>, channels: usize) -> (made: Result<
        ResourceSet,
        SetupError,
    >)
        ensures
            match made {
                Ok(set) => {
                    &&& set@ == (ResourcePlan {
                        resolution,
                        record_sizes: record_sizes@,
                        channels: channels as nat,
                    })
                    &&& set@.fits()
                },
                Err(SetupError::TooManyBindings) => compute_slots(
                    record_sizes@.len(),
                    channels as nat,
                ) >= u32::MAX,
                Err(SetupError::ResourceTooLarge { accumulator }) => {
                    let plan = ResourcePlan {
                        resolution,
                        record_sizes: record_sizes@,
                        channels: channels as nat,
                    };
                    &&& compute_slots(record_sizes@.len(), channels as nat) < u32::MAX
                    &&& accumulator < record_sizes@.len()
                    &&& !plan.accumulator_fits(accumulator as int)
                    &&& forall|k: int| 0 <= k < accumulator ==> plan.accumulator_fits(k)
                },
                Err(_) => false,
            },
    {
        let ghost plan = ResourcePlan {
            resolution,
            record_sizes: record_sizes@,
            channels: channels as nat,
        };
        let accumulators: usize = record_sizes.len();
        if !shape_fits(accumulators, channels) {
            return Err(SetupError::TooManyBindings);
        }
        let mut descs: Vec<ResourceDesc> = Vec::new();
        descs.push(ResourceDesc::Buffer { size: UNIFORM_BLOCK_BYTES, usage: exec_buffer_usage() });
        descs.push(
            ResourceDesc::Texture {
                width: resolution.width,
                height: resolution.height,
                format: STORAGE_FORMAT,
                usage: TextureUsage {
                    copy_src: false,
                    copy_dst: false,
                    storage_binding: true,
                    texture_binding: true,
                },
            },
        );
        descs.push(ResourceDesc::Sampler);
        let mut i: usize = 0;
        while i < accumulators
            invariant
                i <= accumulators,
                accumulators == record_sizes@.len(),
                compute_slots(accumulators as nat, channels as nat) < u32::MAX,
                plan == (ResourcePlan {
                    resolution,
                    record_sizes: record_sizes@,
                    channels: channels as nat,
                }),
                descs@.len() == FIXED_RESOURCES + i,
                forall|h: int| 0 <= h < descs@.len() ==> descs@[h] == plan.desc(h),
                forall|k: int| 0 <= k < i ==> plan.accumulator_fits(k),
            decreases accumulators - i,
        {
            match resolution.buffer_bytes(record_sizes[i]) {
                Some(size) => {
                    descs.push(ResourceDesc::Buffer { size, usage: exec_buffer_usage() });
                },
                None => {
                    return Err(SetupError::ResourceTooLarge { accumulator: i });
                },
            }
            i = i + 1;
        }
        let mut j: usize = 0;
        while j < channels
            invariant
                j <= channels,
                accumulators == record_sizes@.len(),
                compute_slots(accumulators as nat, channels as nat) < u32::MAX,
                plan == (ResourcePlan {
                    resolution,
                    record_sizes: record_sizes@,
                    channels: channels as nat,
                }),
                descs@.len() == FIXED_RESOURCES + accumulators + 2 * j,
                forall|h: int| 0 <= h < descs@.len() ==> descs@[h] == plan.desc(h),
            decreases channels - j,
        {
            descs.push(
                ResourceDesc::Texture {
                    width: resolution.width,
                    height: resolution.height,
                    format: STORAGE_FORMAT,
                    usage: TextureUsage {
                        copy_src: false,
                        copy_dst: true,
                        storage_binding: false,
                        texture_binding: true,
                    },
                },
            );
            descs.push(
                ResourceDesc::Texture {
                    width: resolution.width,
                    height: resolution.height,
                    format: STORAGE_FORMAT,
                    usage: TextureUsage {
                        copy_src: true,
                        copy_dst: false,
                        storage_binding: true,
                        texture_binding: false,
                    },
                },
            );
            j = j + 1;
        }
        assert(descs@ =~= plan.descs());
        Ok(ResourceSet { resolution, record_sizes, channels, descs })
    }

    /// The resolution that every size was derived from.
    pub fn resolution(&self) -> (r: Resolution)
        ensures
            r == self@.resolution,
    {
        self.resolution
    }

    /// Number of feedback channels.
    pub fn channel_count(&self) -> (n: usize)
        ensures
            n == self@.channels,
    {
        self.channels
    }

    /// Number of accumulation buffers.
    pub fn accumulator_count(&self) -> (n: usize)
        ensures
            n == self@.accumulators(),
    {
        self.record_sizes.len()
    }

    /// Number of resources. Handles run from zero up to this number.
    pub fn len(&self) -> (n: usize)
        ensures
            n == self@.len(),
            self@.fits(),
    {
        proof {
            use_type_invariant(self);
        }
        self.descs.len()
    }

    /// What the device is asked to create for `handle`, if there is such a
    /// resource.
    pub fn describe(&self, handle: usize) -> (desc: Option<ResourceDesc>)
        ensures
            desc == (if handle < self@.len() {
                Some(self@.desc(handle as int))
            } else {
                None
            }),
    {
        proof {
            use_type_invariant(self);
        }
        if handle < self.descs.len() {
            Some(self.descs[handle])
        } else {
            None
        }
    }

    /// Handle of accumulation buffer `i`, if there is one.
    pub fn accumulator(&self, i: usize) -> (handle: Option<usize>)
        ensures
            handle == (if i < self@.accumulators() {
                Some(self@.accumulator(i as nat) as usize)
            } else {
                None
            }),
            i < self@.accumulators() ==> self@.accumulator(i as nat) < self@.len(),
    {
        proof {
            use_type_invariant(self);
        }
        if i < self.record_sizes.len() {
            Some(FIXED_RESOURCES + i)
        } else {
            None
        }
    }

    /// Handle of the read slot of channel `j`, if there is such a channel.
    pub fn channel_read(&self, j: usize) -> (handle: Option<usize>)
        ensures
            handle == (if j < self@.channels {
                Some(self@.channel_read(j as nat) as usize)
            } else {
                None
            }),
            j < self@.channels ==> self@.channel_read(j as nat) < self@.len(),
    {
        proof {
            use_type_invariant(self);
        }
        if j < self.channels {
            Some(FIXED_RESOURCES + self.record_sizes.len() + 2 * j)
        } else {
            None
        }
    }

    /// Handle of the write slot of channel `j`, if there is such a channel.
    pub fn channel_write(&self, j: usize) -> (handle: Option<usize>)
        ensures
            handle == (if j < self@.channels {
                Some(self@.channel_write(j as nat) as usize)
            } else {
                None
            }),
            j < self@.channels ==> self@.channel_write(j as nat) < self@.len(),
    {
        proof {
            use_type_invariant(self);
        }
        if j < self.channels {
            Some(FIXED_RESOURCES + self.record_sizes.len() + 2 * j + 1)
        } else {
            None
        }
    }
}

/// Usage of the uniform buffer and of the accumulation buffers.
fn exec_buffer_usage() -> (usage: BufferUsage)
    ensures
        usage == buffer_usage(),
{
    BufferUsage { copy_dst: true, storage: true, uniform: true }
}

} // verus!
