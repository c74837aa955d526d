//! Binding sets: which resource stands at which slot of a layout.
//!
//! The sets are made once, after the resource set and the registry, and
//! never change: a feedback channel is rotated by copying data, not by
//! binding its slots the other way round.

use vstd::prelude::*;
use crate::error::SetupError;
use crate::layout::{
    blit_layout,
    channel_read_slot,
    channel_write_slot,
    compute_kinds,
    compute_layout,
    compute_slots,
    lemma_slot_map_of_join,
    slot_map,
    ResourceKind,
};
use crate::registry::{PipelineRegistry, RegistryPlan};
use crate::resources::{
    ResourceDesc,
    ResourcePlan,
    ResourceSet,
    FIXED_RESOURCES,
    OUTPUT_IMAGE,
    SAMPLER,
};

verus! {

/// One binding: the resource `resource` stands at slot `slot`.
#[derive(Clone, Copy, Debug, PartialEq, Eq, Structural)]
pub struct BindingEntry {
    pub slot: u32,
    pub resource: usize,
}

/// The resource at slot `slot` of the compute layout: the uniform buffer
/// and the output image at the first two slots, then the accumulation
/// buffers and the channel slots in the order of their handles.
pub open spec fn compute_resource(slot: int) -> int {
    if slot < 2 {
        slot
    } else {
        slot + 1
    }
}

/// The binding set of the compute pipelines.
pub open spec fn compute_bindings(accumulators: nat, channels: nat) -> Seq<BindingEntry> {
    Seq::new(
        compute_slots(accumulators, channels),
        |slot: int| BindingEntry { slot: slot as u32, resource: compute_resource(slot) as usize },
    )
}

/// The binding set of the presentation pass: the output image, then the
/// sampler.
pub open spec fn blit_bindings() -> Seq<BindingEntry> {
    seq![
        BindingEntry { slot: 0, resource: OUTPUT_IMAGE },
        BindingEntry { slot: 1, resource: SAMPLER },
    ]
}

/// Whether a resource may stand at a slot of the given kind.
pub open spec fn serves(desc: ResourceDesc, kind: ResourceKind) -> bool {
    match kind {
        ResourceKind::UniformBuffer => desc matches ResourceDesc::Buffer { usage, .. }
            && usage.uniform,
        ResourceKind::StorageBuffer => desc matches ResourceDesc::Buffer { usage, .. }
            && usage.storage,
        ResourceKind::ReadOnlyTexture => desc matches ResourceDesc::Texture { usage, .. }
            && usage.texture_binding,
        ResourceKind::WriteOnlyStorageTexture => desc matches ResourceDesc::Texture { usage, .. }
            && usage.storage_binding,
        ResourceKind::Sampler => desc is Sampler,
    }
}

/// Every compute binding names the slot of the layout entry at its
/// position and a resource of the set that may stand there.
pub proof fn lemma_compute_bindings_serve(plan: ResourcePlan)
    requires
        plan.fits(),
    ensures
        compute_bindings(plan.accumulators(), plan.channels).len() == compute_layout(
            plan.accumulators(),
            plan.channels,
        ).len(),
        forall|k: int|
            0 <= k < compute_slots(plan.accumulators(), plan.channels) ==> {
                let binding = #[trigger] compute_bindings(plan.accumulators(), plan.channels)[k];
                let entry = compute_layout(plan.accumulators(), plan.channels)[k];
                &&& binding.slot == entry.slot
                &&& binding.resource < plan.len()
                &&& serves(plan.desc(binding.resource as int), entry.kind)
            },
{
    let a = plan.accumulators();
    let c = plan.channels;
    assert forall|k: int| 0 <= k < compute_slots(a, c) implies {
        let binding = #[trigger] compute_bindings(a, c)[k];
        let entry = compute_layout(a, c)[k];
        &&& binding.slot == entry.slot
        &&& binding.resource < plan.len()
        &&& serves(plan.desc(binding.resource as int), entry.kind)
    } by {
        let entry = compute_layout(a, c)[k];
        if k >= 2 && k < 2 + a {
            assert(entry.kind == ResourceKind::StorageBuffer);
        } else if k >= 2 + a {
            assert((k + 1 - FIXED_RESOURCES - a) == k - 2 - a);
        }
    }
}

/// Both presentation bindings name the slot of the layout entry at their
/// position and a resource of the set that may stand there.
pub proof fn lemma_blit_bindings_serve(plan: ResourcePlan)
    ensures
        blit_bindings().len() == blit_layout().len(),
        forall|k: int|
            0 <= k < blit_layout().len() ==> {
                let binding = #[trigger] blit_bindings()[k];
                let entry = blit_layout()[k];
                &&& binding.slot == entry.slot
                &&& binding.resource < plan.len()
                &&& serves(plan.desc(binding.resource as int), entry.kind)
            },
{
    assert(blit_layout()[0].kind == ResourceKind::ReadOnlyTexture);
    assert(blit_layout()[1].kind == ResourceKind::Sampler);
}

/// The two slots of a feedback channel are different resources; a compute
/// pass can reach the read slot only through a read-only binding and the
/// write slot only through a write-only binding.
pub proof fn lemma_channel_slots_apart(plan: ResourcePlan, j: nat)
    requires
        plan.fits(),
        j < plan.channels,
    ensures
        plan.channel_read(j) != plan.channel_write(j),
        forall|k: int|
            0 <= k < compute_slots(plan.accumulators(), plan.channels) && (
            #[trigger] compute_bindings(plan.accumulators(), plan.channels)[k]).resource
                == plan.channel_read(j) ==> k == channel_read_slot(plan.accumulators(), j)
                && compute_layout(plan.accumulators(), plan.channels)[k].kind
                == ResourceKind::ReadOnlyTexture,
        forall|k: int|
            0 <= k < compute_slots(plan.accumulators(), plan.channels) && (
            #[trigger] compute_bindings(plan.accumulators(), plan.channels)[k]).resource
                == plan.channel_write(j) ==> k == channel_write_slot(plan.accumulators(), j)
                && compute_layout(plan.accumulators(), plan.channels)[k].kind
                == ResourceKind::WriteOnlyStorageTexture,
{
}

/// The rotation of a channel copies between textures of one size and one
/// format, from one that may be a copy source into one that may be a copy
/// destination.
pub proof fn lemma_rotation_is_a_valid_copy(plan: ResourcePlan, j: nat)
    requires
        j < plan.channels,
    ensures
        plan.desc(plan.channel_write(j) as int) matches ResourceDesc::Texture {
            width: from_width,
            height: from_height,
            format: from_format,
            usage: from_usage,
        } && plan.desc(plan.channel_read(j) as int) matches ResourceDesc::Texture {
            width: to_width,
            height: to_height,
            format: to_format,
            usage: to_usage,
        } && from_usage.copy_src && to_usage.copy_dst && from_width == to_width && from_height
            == to_height && from_format == to_format,
{
}

/// Setting up twice gives the same session: two resource sets made for one
/// resolution, one list of record sizes and one number of channels hold the
/// same resources, and two registries made for as many accumulation
/// buffers and channels declare the same mapping from slot to kind and get
/// the same bindings, whatever the entry points are called.
pub proof fn lemma_setup_is_repeatable(
    first_resources: ResourcePlan,
    first_registry: RegistryPlan,
    second_resources: ResourcePlan,
    second_registry: RegistryPlan,
)
    requires
        first_resources.resolution == second_resources.resolution,
        first_resources.record_sizes == second_resources.record_sizes,
        first_resources.channels == second_resources.channels,
        first_registry.accumulators == second_registry.accumulators,
        first_registry.channels() == second_registry.channels(),
    ensures
        first_resources.descs() == second_resources.descs(),
        first_registry.compute_layout() == second_registry.compute_layout(),
        slot_map(first_registry.compute_layout()) == slot_map(second_registry.compute_layout()),
        compute_bindings(first_registry.accumulators, first_registry.channels())
            == compute_bindings(second_registry.accumulators, second_registry.channels()),
{
    assert(first_resources.descs() =~= second_resources.descs());
}

/// The compute layout of a registry maps each of its slots, and no other,
/// to the kind at that position.
pub proof fn lemma_registry_slot_map(registry: RegistryPlan)
    requires
        registry.fits(),
    ensures
        forall|slot: u32| #[trigger]
            slot_map(registry.compute_layout()).dom().contains(slot) <==> (slot as int)
                < compute_slots(registry.accumulators, registry.channels()),
        forall|slot: u32|
            (slot as int) < compute_slots(registry.accumulators, registry.channels())
                ==> #[trigger] slot_map(registry.compute_layout())[slot] == compute_kinds(
                registry.accumulators,
                registry.channels(),
            )[slot as int],
{
    lemma_slot_map_of_join(compute_kinds(registry.accumulators, registry.channels()));
}

/// What binding sets are made for.
pub struct BindingPlan {
    pub accumulators: nat,
    pub channels: nat,
}

/// The binding sets of a session.
pub struct BindingSets {
    accumulators: usize,
    channels: usize,
    compute: Vec<BindingEntry>,
    blit: Vec<BindingEntry>,
}

impl View for BindingSets {
    type V = BindingPlan;

    closed spec fn view(&self) -> BindingPlan {
        BindingPlan { accumulators: self.accumulators as nat, channels: self.channels as nat }
    }
}

impl BindingSets {
    #[verifier::type_invariant]
    spec fn inv(&self) -> bool {
        &&& compute_slots(self.accumulators as nat, self.channels as nat) < u32::MAX
        &&& self.compute@ == compute_bindings(self.accumulators as nat, self.channels as nat)
        &&& self.blit@ == blit_bindings()
    }

    /// Binds the resources of `resources` to the layouts of `registry`.
    /// Fails with `ShapeMismatch` where the two were made for different
    /// numbers of feedback channels or of accumulation buffers.
    pub fn new(resources: &ResourceSet, registry: &PipelineRegistry) -> (made: Result<
        BindingSets,
        SetupError,
    >)
        ensures
            match made {
                Ok(sets) => {
                    &&& resources@.channels == registry@.channels()
                    &&& resources@.accumulators() == registry@.accumulators
                    &&& sets@.channels == resources@.channels
                    &&& sets@.accumulators == resources@.accumulators()
                },
                Err(e) => {
                    &&& e == SetupError::ShapeMismatch
                    &&& (resources@.channels != registry@.channels() || resources@.accumulators()
                        != registry@.accumulators)
                },
            },
    {
        let channels: usize = registry.channel_count();
        let accumulators: usize = registry.accumulator_count();
        if resources.channel_count() != channels || resources.accumulator_count() != accumulators {
            return Err(SetupError::ShapeMismatch);
        }
        let slots: usize = 2 + accumulators + 2 * channels;
        let mut compute: Vec<BindingEntry> = Vec::new();
        let mut slot: usize = 0;
        while slot < slots
            invariant
                slot <= slots,
                slots == compute_slots(accumulators as nat, channels as nat),
                slots < u32::MAX,
                compute@.len() == slot,
                forall|k: int|
                    0 <= k < slot ==> #[trigger] compute@[k] == compute_bindings(
                        accumulators as nat,
                        channels as nat,
                    )[k],
            decreases slots - slot,
        {
            let resource: usize = if slot < 2 {
                slot
            } else {
                slot + 1
            };
            compute.push(BindingEntry { slot: slot as u32, resource });
            slot = slot + 1;
        }
        let mut blit: Vec<BindingEntry> = Vec::new();
        blit.push(BindingEntry { slot: 0, resource: OUTPUT_IMAGE });
        blit.push(BindingEntry { slot: 1, resource: SAMPLER });
        assert(compute@ =~= compute_bindings(accumulators as nat, channels as nat));
        assert(blit@ =~= blit_bindings());
        Ok(BindingSets { accumulators, channels, compute, blit })
    }

    /// Number of feedback channels that the sets bind.
    pub fn channel_count(&self) -> (n: usize)
        ensures
            n == self@.channels,
            compute_slots(self@.accumulators, self@.channels) < u32::MAX,
    {
        proof {
            use_type_invariant(self);
        }
        self.channels
    }

    /// Number of accumulation buffers that the sets bind.
    pub fn accumulator_count(&self) -> (n: usize)
        ensures
            n == self@.accumulators,
    {
        self.accumulators
    }

    /// The binding set of the compute pipelines.
    pub fn compute(&self) -> (entries: &Vec<BindingEntry>)
        ensures
            entries@ == compute_bindings(self@.accumulators, self@.channels),
    {
        proof {
            use_type_invariant(self);
        }
        &self.compute
    }

    /// The binding set of the presentation pass.
    pub fn blit(&self) -> (entries: &Vec<BindingEntry>)
        ensures
            entries@ == blit_bindings(),
    {
        proof {
            use_type_invariant(self);
        }
        &self.blit
    }
}

} // verus!
