//! Binding layouts: ordered lists of slots, each with the kind of resource
//! that a shader expects there.
//!
//! A layout is joined from fragments, one per category of resource. The
//! join numbers the slots in order, so a category keeps its slots when a
//! later category grows.

use vstd::prelude::*;
use crate::error::SetupError;

verus! {

/// What a shader expects to find at a binding slot.
#[derive(Clone, Copy, Debug, PartialEq, Eq, Structural)]
pub enum ResourceKind {
    UniformBuffer,
    StorageBuffer,
    ReadOnlyTexture,
    WriteOnlyStorageTexture,
    Sampler,
}

/// One slot of a binding layout.
#[derive(Clone, Copy, Debug, PartialEq, Eq, Structural)]
pub struct LayoutEntry {
    pub slot: u32,
    pub kind: ResourceKind,
}

/// The fragment of the uniform parameter block.
pub open spec fn uniform_fragment() -> Seq<ResourceKind> {
    seq![ResourceKind::UniformBuffer]
}

/// The fragment of the output image, as the compute passes write it.
pub open spec fn image_fragment() -> Seq<ResourceKind> {
    seq![ResourceKind::WriteOnlyStorageTexture]
}

/// The fragment of `accumulators` accumulation buffers.
pub open spec fn accumulation_fragment(accumulators: nat) -> Seq<ResourceKind> {
    Seq::new(accumulators, |i: int| ResourceKind::StorageBuffer)
}

/// The fragment of `channels` feedback channels: for each channel its read
/// slot, then its write slot.
pub open spec fn channel_fragment(channels: nat) -> Seq<ResourceKind> {
    Seq::new(
        2 * channels,
        |i: int|
            if i % 2 == 0 {
                ResourceKind::ReadOnlyTexture
            } else {
                ResourceKind::WriteOnlyStorageTexture
            },
    )
}

/// The kinds of the compute layout, in slot order.
pub open spec fn compute_kinds(accumulators: nat, channels: nat) -> Seq<ResourceKind> {
    uniform_fragment() + image_fragment() + accumulation_fragment(accumulators) + channel_fragment(
        channels,
    )
}

/// The kinds of the layout of the presentation pass, in slot order.
pub open spec fn blit_kinds() -> Seq<ResourceKind> {
    seq![ResourceKind::ReadOnlyTexture, ResourceKind::Sampler]
}

/// Joins kinds into a layout: the kind at position `i` gets slot `i`.
pub open spec fn join(kinds: Seq<ResourceKind>) -> Seq<LayoutEntry> {
    Seq::new(kinds.len(), |i: int| LayoutEntry { slot: i as u32, kind: kinds[i] })
}

/// The layout shared by all compute pipelines.
pub open spec fn compute_layout(accumulators: nat, channels: nat) -> Seq<LayoutEntry> {
    join(compute_kinds(accumulators, channels))
}

/// The layout of the presentation pass.
pub open spec fn blit_layout() -> Seq<LayoutEntry> {
    join(blit_kinds())
}

/// Number of slots of the compute layout.
pub open spec fn compute_slots(accumulators: nat, channels: nat) -> nat {
    2 + accumulators + 2 * channels
}

/// Slot of the uniform parameter block in the compute layout.
pub const UNIFORM_SLOT: u32 = 0;

/// Slot of the output image in the compute layout.
pub const IMAGE_SLOT: u32 = 1;

/// Slot of accumulation buffer `i` in the compute layout.
pub open spec fn accumulator_slot(i: nat) -> nat {
    2 + i
}

/// Slot of the read side of channel `j` in the compute layout.
pub open spec fn channel_read_slot(accumulators: nat, j: nat) -> nat {
    2 + accumulators + 2 * j
}

/// Slot of the write side of channel `j` in the compute layout.
pub open spec fn channel_write_slot(accumulators: nat, j: nat) -> nat {
    2 + accumulators + 2 * j + 1
}

/// The mapping from slot to kind that a layout declares. Where two entries
/// name one slot, the first one counts.
pub open spec fn slot_map(layout: Seq<LayoutEntry>) -> Map<u32, ResourceKind> {
    Map::new(
        |slot: u32| exists|i: int| 0 <= i < layout.len() && #[trigger] layout[i].slot == slot,
        |slot: u32|
            layout[choose|i: int|
                0 <= i < layout.len() && #[trigger] layout[i].slot == slot && forall|k: int|
                    0 <= k < i ==> #[trigger] layout[k].slot != slot].kind,
    )
}

/// Every slot of the compute layout, by category.
pub proof fn lemma_compute_layout(accumulators: nat, channels: nat)
    ensures
        compute_layout(accumulators, channels).len() == compute_slots(accumulators, channels),
        forall|k: int|
            0 <= k < compute_slots(accumulators, channels) ==> #[trigger] compute_layout(
                accumulators,
                channels,
            )[k].slot == k as u32,
        compute_layout(accumulators, channels)[UNIFORM_SLOT as int].kind
            == ResourceKind::UniformBuffer,
        compute_layout(accumulators, channels)[IMAGE_SLOT as int].kind
            == ResourceKind::WriteOnlyStorageTexture,
        forall|i: nat|
            i < accumulators ==> #[trigger] compute_layout(accumulators, channels)[accumulator_slot(
                i,
            ) as int].kind == ResourceKind::StorageBuffer,
        forall|j: nat|
            j < channels ==> #[trigger] compute_layout(accumulators, channels)[channel_read_slot(
                accumulators,
                j,
            ) as int].kind == ResourceKind::ReadOnlyTexture,
        forall|j: nat|
            j < channels ==> #[trigger] compute_layout(accumulators, channels)[channel_write_slot(
                accumulators,
                j,
            ) as int].kind == ResourceKind::WriteOnlyStorageTexture,
{
}

/// In a joined layout of at most 2^32 slots no slot occurs twice.
pub proof fn lemma_join_slots_distinct(kinds: Seq<ResourceKind>)
    requires
        kinds.len() <= u32::MAX + 1,
    ensures
        forall|i: int, k: int|
            0 <= i < kinds.len() && 0 <= k < kinds.len() && i != k ==> #[trigger] join(
                kinds,
            )[i].slot != #[trigger] join(kinds)[k].slot,
{
}

/// The slot-to-kind mapping of a joined layout reads the kinds by position.
pub proof fn lemma_slot_map_of_join(kinds: Seq<ResourceKind>)
    requires
        kinds.len() <= u32::MAX + 1,
    ensures
        forall|slot: u32| #[trigger]
            slot_map(join(kinds)).dom().contains(slot) <==> (slot as int) < kinds.len(),
        forall|slot: u32|
            (slot as int) < kinds.len() ==> #[trigger] slot_map(join(kinds))[slot]
                == kinds[slot as int],
{
    let layout = join(kinds);
    assert forall|slot: u32| (slot as int) < kinds.len() implies #[trigger] slot_map(
        layout,
    ).dom().contains(slot) by {
        assert(layout[slot as int].slot == slot);
    }
    assert forall|slot: u32| #[trigger]
        slot_map(layout).dom().contains(slot) implies (slot as int) < kinds.len() by {
        let i = choose|i: int| 0 <= i < layout.len() && #[trigger] layout[i].slot == slot;
        assert(layout[i].slot == i as u32);
    }
    assert forall|slot: u32| (slot as int) < kinds.len() implies #[trigger] slot_map(layout)[slot]
        == kinds[slot as int] by {
        assert(layout[slot as int].slot == slot);
        let i = choose|i: int|
            0 <= i < layout.len() && #[trigger] layout[i].slot == slot && forall|k: int|
                0 <= k < i ==> #[trigger] layout[k].slot != slot;
        assert(0 <= (slot as int) < layout.len() && layout[slot as int].slot == slot && forall|
            k: int,
        |
            0 <= k < (slot as int) ==> #[trigger] layout[k].slot != slot);
        assert(layout[i].slot == slot);
        assert(i == slot as int);
    }
}

/// Appends `count` slots of one kind to a layout under construction.
fn push_slots(layout: &mut Vec<LayoutEntry>, kind: ResourceKind, count: usize)
    requires
        old(layout)@.len() + count <= u32::MAX,
    ensures
        final(layout)@ == old(layout)@ + Seq::new(
            count as nat,
            |i: int| LayoutEntry { slot: (old(layout)@.len() + i) as u32, kind: kind },
        ),
{
    let ghost before = layout@;
    let mut done: usize = 0;
    while done < count
        invariant
            done <= count,
            before.len() + count <= u32::MAX,
            layout@ == before + Seq::new(
                done as nat,
                |i: int| LayoutEntry { slot: (before.len() + i) as u32, kind: kind },
            ),
        decreases count - done,
    {
        let slot: u32 = layout.len() as u32;
        layout.push(LayoutEntry { slot, kind });
        done = done + 1;
    }
}

/// Builds the layout shared by all compute pipelines: the uniform block,
/// the output image, the accumulation buffers, then one read and one write
/// slot per feedback channel. Fails where the slots cannot be numbered in
/// 32 bits.
pub fn build_compute_layout(accumulators: usize, channels: usize) -> (layout: Result<
    Vec<LayoutEntry>,
    SetupError,
>)
    ensures
        match layout {
            Ok(entries) => compute_slots(accumulators as nat, channels as nat) < u32::MAX
                && entries@ == compute_layout(accumulators as nat, channels as nat),
            Err(e) => compute_slots(accumulators as nat, channels as nat) >= u32::MAX && e
                == SetupError::TooManyBindings,
        },
{
    if !shape_fits(accumulators, channels) {
        return Err(SetupError::TooManyBindings);
    }
    let mut layout: Vec<LayoutEntry> = Vec::new();
    push_slots(&mut layout, ResourceKind::UniformBuffer, 1);
    push_slots(&mut layout, ResourceKind::WriteOnlyStorageTexture, 1);
    push_slots(&mut layout, ResourceKind::StorageBuffer, accumulators);
    let mut j: usize = 0;
    while j < channels
        invariant
            j <= channels,
            compute_slots(accumulators as nat, channels as nat) < u32::MAX,
            layout@ == compute_layout(accumulators as nat, j as nat),
        decreases channels - j,
    {
        push_slots(&mut layout, ResourceKind::ReadOnlyTexture, 1);
        push_slots(&mut layout, ResourceKind::WriteOnlyStorageTexture, 1);
        j = j + 1;
    }
    Ok(layout)
}

/// Builds the layout of the presentation pass: the output image as a
/// sampled texture, then its sampler.
pub fn build_blit_layout() -> (layout: Vec<LayoutEntry>)
    ensures
        layout@ == blit_layout(),
{
    let mut layout: Vec<LayoutEntry> = Vec::new();
    push_slots(&mut layout, ResourceKind::ReadOnlyTexture, 1);
    push_slots(&mut layout, ResourceKind::Sampler, 1);
    layout
}

/// Whether a session with this many accumulation buffers and feedback
/// channels can number its binding slots and resources in 32 bits.
pub fn shape_fits(accumulators: usize, channels: usize) -> (fits: bool)
    ensures
        fits == (compute_slots(accumulators as nat, channels as nat) < u32::MAX),
{
    let limit: usize = 0xffff_fffc;
    channels <= limit / 2 && accumulators <= limit - 2 * channels
}

} // verus!
