//! What holds of the commands of every frame: how many there are of each
//! sort, and in what order they stand.

use vstd::prelude::*;
use crate::bindings::BindingPlan;
use crate::registry::RegistryPlan;
use crate::resources::ResourcePlan;
use crate::sequencer::{frame_shape, index_after, same_shape, Command, FrameShape};

verus! {

/// Whether a command is the upload of the parameters.
pub open spec fn is_upload(command: Command) -> bool {
    command is UploadParams
}

/// Whether a command is a compute dispatch.
pub open spec fn is_dispatch(command: Command) -> bool {
    command is Dispatch
}

/// Whether a command is the dispatch of an image pass.
pub open spec fn is_image_dispatch(command: Command) -> bool {
    command matches Command::Dispatch { pass, .. } && pass is Image
}

/// Whether a command is the dispatch of a pass that produces a channel.
pub open spec fn is_channel_dispatch(command: Command) -> bool {
    command matches Command::Dispatch { pass, .. } && pass is Channel
}

/// Whether a command is the rotation of a channel.
pub open spec fn is_rotation(command: Command) -> bool {
    command is Rotate
}

/// Whether a command is the presentation pass.
pub open spec fn is_present(command: Command) -> bool {
    command is Present
}

/// Number of commands of a sequence that are of the wanted sort.
pub open spec fn count(commands: Seq<Command>, wanted: spec_fn(Command) -> bool) -> nat
    decreases commands.len(),
{
    if commands.len() == 0 {
        0
    } else {
        count(commands.drop_last(), wanted) + if wanted(commands.last()) {
            1nat
        } else {
            0nat
        }
    }
}

/// Counting goes through concatenation.
pub proof fn lemma_count_concat(
    left: Seq<Command>,
    right: Seq<Command>,
    wanted: spec_fn(Command) -> bool,
)
    ensures
        count(left + right, wanted) == count(left, wanted) + count(right, wanted),
    decreases right.len(),
{
    if right.len() == 0 {
        assert(left + right =~= left);
    } else {
        assert((left + right).drop_last() =~= left + right.drop_last());
        lemma_count_concat(left, right.drop_last(), wanted);
    }
}

/// Among the updates of the first `n` channels there are `n` channel
/// dispatches and `n` rotations, and nothing else.
proof fn lemma_channel_updates_counts(shape: FrameShape, n: nat)
    ensures
        count(shape.channel_updates(n), |c: Command| is_rotation(c)) == n,
        count(shape.channel_updates(n), |c: Command| is_channel_dispatch(c)) == n,
        count(shape.channel_updates(n), |c: Command| is_dispatch(c)) == n,
        count(shape.channel_updates(n), |c: Command| is_image_dispatch(c)) == 0,
        count(shape.channel_updates(n), |c: Command| is_upload(c)) == 0,
        count(shape.channel_updates(n), |c: Command| is_present(c)) == 0,
    decreases n,
{
    if n > 0 {
        let shorter = shape.channel_updates((n - 1) as nat);
        let pair = seq![shape.channel_dispatch(n - 1), shape.rotation(n - 1)];
        lemma_channel_updates_counts(shape, (n - 1) as nat);
        assert(shape.channel_updates(n) =~= shorter + pair);
        assert(pair.drop_last() =~= seq![shape.channel_dispatch(n - 1)]);
        assert(pair.drop_last().drop_last() =~= Seq::<Command>::empty());
        lemma_count_concat(shorter, pair, |c: Command| is_rotation(c));
        lemma_count_concat(shorter, pair, |c: Command| is_channel_dispatch(c));
        lemma_count_concat(shorter, pair, |c: Command| is_dispatch(c));
        lemma_count_concat(shorter, pair, |c: Command| is_image_dispatch(c));
        lemma_count_concat(shorter, pair, |c: Command| is_upload(c));
        lemma_count_concat(shorter, pair, |c: Command| is_present(c));
        reveal_with_fuel(count, 3);
    }
}

/// Among the dispatches of the first `n` image passes there are `n` image
/// dispatches, and nothing else.
proof fn lemma_image_dispatches_counts(shape: FrameShape, n: nat)
    ensures
        count(shape.image_dispatches(n), |c: Command| is_rotation(c)) == 0,
        count(shape.image_dispatches(n), |c: Command| is_channel_dispatch(c)) == 0,
        count(shape.image_dispatches(n), |c: Command| is_dispatch(c)) == n,
        count(shape.image_dispatches(n), |c: Command| is_image_dispatch(c)) == n,
        count(shape.image_dispatches(n), |c: Command| is_upload(c)) == 0,
        count(shape.image_dispatches(n), |c: Command| is_present(c)) == 0,
    decreases n,
{
    if n > 0 {
        lemma_image_dispatches_counts(shape, (n - 1) as nat);
        assert(shape.image_dispatches(n).drop_last() =~= shape.image_dispatches((n - 1) as nat));
    }
}

/// An inner step of a session with `c` feedback channels holds exactly `c`
/// rotations, one dispatch per channel and one per image pass, and every
/// image pass stands after every rotation.
pub proof fn lemma_inner_step(shape: FrameShape)
    ensures
        shape.inner_step().len() == shape.step_len(),
        count(shape.inner_step(), |c: Command| is_rotation(c)) == shape.channels,
        count(shape.inner_step(), |c: Command| is_channel_dispatch(c)) == shape.channels,
        count(shape.inner_step(), |c: Command| is_image_dispatch(c)) == shape.images,
        count(shape.inner_step(), |c: Command| is_dispatch(c)) == shape.channels + shape.images,
        count(shape.inner_step(), |c: Command| is_upload(c)) == 0,
        count(shape.inner_step(), |c: Command| is_present(c)) == 0,
        forall|p: int, q: int|
            0 <= p < shape.step_len() && 0 <= q < shape.step_len() && is_rotation(
                #[trigger] shape.inner_step()[p],
            ) && is_image_dispatch(#[trigger] shape.inner_step()[q]) ==> p < q,
{
    let updates = shape.channel_updates(shape.channels);
    let images = shape.image_dispatches(shape.images);
    lemma_channel_updates_counts(shape, shape.channels);
    lemma_image_dispatches_counts(shape, shape.images);
    lemma_count_concat(updates, images, |c: Command| is_rotation(c));
    lemma_count_concat(updates, images, |c: Command| is_channel_dispatch(c));
    lemma_count_concat(updates, images, |c: Command| is_image_dispatch(c));
    lemma_count_concat(updates, images, |c: Command| is_dispatch(c));
    lemma_count_concat(updates, images, |c: Command| is_upload(c));
    lemma_count_concat(updates, images, |c: Command| is_present(c));
}

/// In an inner step the rotation of a channel stands right after the
/// dispatch that produced it, and so before every later dispatch; the
/// image passes follow the last rotation in their order.
pub proof fn lemma_inner_step_positions(shape: FrameShape)
    ensures
        forall|j: int|
            0 <= j < shape.channels ==> #[trigger] shape.inner_step()[2 * j]
                == shape.channel_dispatch(j),
        forall|j: int|
            0 <= j < shape.channels ==> #[trigger] shape.inner_step()[2 * j + 1] == shape.rotation(
                j,
            ),
        forall|i: int|
            0 <= i < shape.images ==> #[trigger] shape.inner_step()[2 * shape.channels + i]
                == shape.image_dispatch(i),
{
}

/// Every command of a run of inner steps is a command of one inner step.
pub proof fn lemma_steps_repeat_the_step(shape: FrameShape, k: nat)
    ensures
        shape.steps(k).len() == k * shape.step_len(),
        forall|p: int|
            0 <= p < shape.steps(k).len() ==> shape.inner_step().contains(
                #[trigger] shape.steps(k)[p],
            ),
    decreases k,
{
    if k > 0 {
        lemma_steps_repeat_the_step(shape, (k - 1) as nat);
        assert(k * shape.step_len() == (k - 1) * shape.step_len() + shape.step_len())
            by (nonlinear_arith)
            requires
                k >= 1,
        ;
        let earlier = shape.steps((k - 1) as nat);
        assert forall|p: int| 0 <= p < shape.steps(k).len() implies shape.inner_step().contains(
            #[trigger] shape.steps(k)[p],
        ) by {
            if p >= earlier.len() {
                assert(shape.steps(k)[p] == shape.inner_step()[p - earlier.len()]);
            } else {
                assert(shape.steps(k)[p] == earlier[p]);
            }
        }
    } else {
        assert(k * shape.step_len() == 0) by (nonlinear_arith)
            requires
                k == 0,
        ;
    }
}

/// How many commands of each sort `k` inner steps hold.
proof fn lemma_steps_counts(shape: FrameShape, k: nat)
    ensures
        count(shape.steps(k), |c: Command| is_rotation(c)) == k * shape.channels,
        count(shape.steps(k), |c: Command| is_channel_dispatch(c)) == k * shape.channels,
        count(shape.steps(k), |c: Command| is_image_dispatch(c)) == k * shape.images,
        count(shape.steps(k), |c: Command| is_dispatch(c)) == k * (shape.channels + shape.images),
        count(shape.steps(k), |c: Command| is_upload(c)) == 0,
        count(shape.steps(k), |c: Command| is_present(c)) == 0,
    decreases k,
{
    let c = shape.channels;
    let m = shape.images;
    if k > 0 {
        let earlier = shape.steps((k - 1) as nat);
        lemma_steps_counts(shape, (k - 1) as nat);
        lemma_inner_step(shape);
        lemma_count_concat(earlier, shape.inner_step(), |c: Command| is_rotation(c));
        lemma_count_concat(earlier, shape.inner_step(), |c: Command| is_channel_dispatch(c));
        lemma_count_concat(earlier, shape.inner_step(), |c: Command| is_image_dispatch(c));
        lemma_count_concat(earlier, shape.inner_step(), |c: Command| is_dispatch(c));
        lemma_count_concat(earlier, shape.inner_step(), |c: Command| is_upload(c));
        lemma_count_concat(earlier, shape.inner_step(), |c: Command| is_present(c));
        assert(k * c == (k - 1) * c + c && k * m == (k - 1) * m + m && k * (c + m) == (k - 1) * (c
            + m) + (c + m)) by (nonlinear_arith)
            requires
                k >= 1,
        ;
    } else {
        assert(k * c == 0 && k * m == 0 && k * (c + m) == 0) by (nonlinear_arith)
            requires
                k == 0,
        ;
    }
}

/// How many commands of each sort a frame holds: one upload, one
/// presentation, and per inner step one rotation for each channel, one
/// dispatch for each channel and one for each image pass.
pub proof fn lemma_frame_counts(shape: FrameShape)
    ensures
        shape.commands().len() == shape.len(),
        count(shape.commands(), |c: Command| is_upload(c)) == 1,
        count(shape.commands(), |c: Command| is_present(c)) == 1,
        count(shape.commands(), |c: Command| is_rotation(c)) == shape.repeat * shape.channels,
        count(shape.commands(), |c: Command| is_channel_dispatch(c)) == shape.repeat
            * shape.channels,
        count(shape.commands(), |c: Command| is_image_dispatch(c)) == shape.repeat * shape.images,
        count(shape.commands(), |c: Command| is_dispatch(c)) == shape.repeat * (shape.channels
            + shape.images),
{
    let upload = seq![Command::UploadParams];
    let steps = shape.steps(shape.repeat);
    let present = seq![Command::Present { variant: shape.variant }];
    lemma_steps_repeat_the_step(shape, shape.repeat);
    lemma_steps_counts(shape, shape.repeat);
    assert(upload.drop_last() =~= Seq::<Command>::empty());
    assert(present.drop_last() =~= Seq::<Command>::empty());
    reveal_with_fuel(count, 2);
    lemma_count_concat(upload, steps, |c: Command| is_upload(c));
    lemma_count_concat(upload, steps, |c: Command| is_present(c));
    lemma_count_concat(upload, steps, |c: Command| is_rotation(c));
    lemma_count_concat(upload, steps, |c: Command| is_channel_dispatch(c));
    lemma_count_concat(upload, steps, |c: Command| is_image_dispatch(c));
    lemma_count_concat(upload, steps, |c: Command| is_dispatch(c));
    lemma_count_concat(upload + steps, present, |c: Command| is_upload(c));
    lemma_count_concat(upload + steps, present, |c: Command| is_present(c));
    lemma_count_concat(upload + steps, present, |c: Command| is_rotation(c));
    lemma_count_concat(upload + steps, present, |c: Command| is_channel_dispatch(c));
    lemma_count_concat(upload + steps, present, |c: Command| is_image_dispatch(c));
    lemma_count_concat(upload + steps, present, |c: Command| is_dispatch(c));
}

/// The upload is the first command of a frame and the only upload, so it
/// stands before every dispatch and every rotation; the presentation is
/// the last command and the only presentation, so it stands after every
/// dispatch. Every dispatch runs over the grid of the session.
pub proof fn lemma_frame_order(shape: FrameShape)
    ensures
        shape.commands().len() == shape.len(),
        shape.commands()[0] == Command::UploadParams,
        shape.commands()[shape.len() - 1] == (Command::Present { variant: shape.variant }),
        forall|p: int|
            0 < p < shape.len() ==> !is_upload(#[trigger] shape.commands()[p]),
        forall|p: int|
            0 <= p < shape.len() - 1 ==> !is_present(#[trigger] shape.commands()[p]),
        forall|p: int|
            0 <= p < shape.len() && (is_dispatch(#[trigger] shape.commands()[p]) || is_rotation(
                shape.commands()[p],
            )) ==> 0 < p < shape.len() - 1,
        forall|p: int|
            0 <= p < shape.len() ==> (#[trigger] shape.commands()[p] matches Command::Dispatch {
                grid,
                ..
            } ==> grid == shape.grid),
{
    lemma_steps_repeat_the_step(shape, shape.repeat);
    let steps = shape.steps(shape.repeat);
    assert forall|p: int| 0 < p < shape.len() - 1 implies {
        let command = #[trigger] shape.commands()[p];
        &&& !is_upload(command)
        &&& !is_present(command)
        &&& (command matches Command::Dispatch { grid, .. } ==> grid == shape.grid)
    } by {
        assert(shape.commands()[p] == steps[p - 1]);
        assert(shape.inner_step().contains(steps[p - 1]));
        let q = choose|q: int|
            0 <= q < shape.inner_step().len() && shape.inner_step()[q] == steps[p - 1];
        assert(shape.inner_step()[q] == steps[p - 1]);
    }
}

/// Every command of a frame names what the setup holds. A dispatch names a
/// pipeline of the registry, the one that serves its pass, and runs over
/// the grid of the resolution. A rotation names a channel of the resource
/// set and copies its write slot into its read slot.
pub proof fn lemma_commands_fit_the_setup(
    resources: ResourcePlan,
    registry: RegistryPlan,
    bindings: BindingPlan,
    repeat: nat,
)
    requires
        same_shape(resources, registry, bindings),
        resources.fits(),
        registry.pipelines() <= usize::MAX,
    ensures
        forall|p: int|
            0 <= p < frame_shape(resources, registry, repeat).len() ==> match #[trigger] frame_shape(
                resources,
                registry,
                repeat,
            ).commands()[p] {
                Command::UploadParams => p == 0,
                Command::Dispatch { pass, pipeline, grid } => {
                    &&& pipeline < registry.pipelines()
                    &&& registry.pass(pipeline as int) == pass
                    &&& grid == resources.resolution.grid()
                },
                Command::Rotate { channel, source, destination } => {
                    &&& channel < resources.channels
                    &&& source == resources.channel_write(channel as nat)
                    &&& destination == resources.channel_read(channel as nat)
                    &&& source < resources.len()
                    &&& destination < resources.len()
                },
                Command::Present { variant } => {
                    &&& p == frame_shape(resources, registry, repeat).len() - 1
                    &&& variant == registry.variant
                },
            },
{
    let shape = frame_shape(resources, registry, repeat);
    lemma_frame_order(shape);
    lemma_steps_repeat_the_step(shape, shape.repeat);
    let steps = shape.steps(shape.repeat);
    assert forall|p: int| 0 < p < shape.len() - 1 implies match #[trigger] shape.commands()[p] {
        Command::UploadParams => false,
        Command::Dispatch { pass, pipeline, grid } => {
            &&& pipeline < registry.pipelines()
            &&& registry.pass(pipeline as int) == pass
            &&& grid == resources.resolution.grid()
        },
        Command::Rotate { channel, source, destination } => {
            &&& channel < resources.channels
            &&& source == resources.channel_write(channel as nat)
            &&& destination == resources.channel_read(channel as nat)
            &&& source < resources.len()
            &&& destination < resources.len()
        },
        Command::Present { variant } => false,
    } by {
        assert(shape.commands()[p] == steps[p - 1]);
        assert(shape.inner_step().contains(steps[p - 1]));
        let q = choose|q: int|
            0 <= q < shape.inner_step().len() && shape.inner_step()[q] == steps[p - 1];
        assert(shape.inner_step()[q] == steps[p - 1]);
        if q < 2 * shape.channels {
            assert(shape.inner_step()[q] == shape.channel_command(q));
        } else {
            assert(shape.inner_step()[q] == shape.image_dispatch(q - 2 * shape.channels));
        }
    }
}

/// A frame advances the frame index by exactly the number of inner steps:
/// the index grows and skips nothing, as long as it stays within 32 bits.
pub proof fn lemma_index_advances(index: u32, repeat: u32)
    requires
        repeat >= 1,
        index + repeat <= u32::MAX,
    ensures
        index_after(index, repeat) == index + repeat,
        index_after(index, repeat) > index,
{
}

/// The frame index after `frames` frames of `repeat` inner steps each,
/// counted from zero.
pub open spec fn index_after_frames(repeat: u32, frames: nat) -> u32
    decreases frames,
{
    if frames == 0 {
        0
    } else {
        index_after(index_after_frames(repeat, (frames - 1) as nat), repeat)
    }
}

/// Counted from zero, the frame index after any number of frames is the
/// number of inner steps run so far, modulo 2^32.
pub proof fn lemma_index_counts_steps(repeat: u32, frames: nat)
    ensures
        index_after_frames(repeat, frames) == (frames * repeat) % 0x1_0000_0000,
        frames * repeat <= u32::MAX ==> index_after_frames(repeat, frames) == frames * repeat,
    decreases frames,
{
    if frames > 0 {
        let before = index_after_frames(repeat, (frames - 1) as nat);
        lemma_index_counts_steps(repeat, (frames - 1) as nat);
        let steps_before = (frames - 1) * repeat;
        assert(frames * repeat == steps_before + repeat) by (nonlinear_arith)
            requires
                steps_before == (frames - 1) * repeat,
        ;
        assert(steps_before >= 0) by (nonlinear_arith)
            requires
                steps_before == (frames - 1) * repeat,
                frames >= 1,
        ;
        vstd::arithmetic::div_mod::lemma_add_mod_noop(
            steps_before,
            repeat as int,
            0x1_0000_0000,
        );
        vstd::arithmetic::div_mod::lemma_small_mod(repeat as nat, 0x1_0000_0000);
        if before + repeat > u32::MAX {
            vstd::arithmetic::div_mod::lemma_mod_sub_multiples_vanish(
                before + repeat,
                0x1_0000_0000,
            );
            vstd::arithmetic::div_mod::lemma_small_mod(
                (before + repeat - 0x1_0000_0000) as nat,
                0x1_0000_0000,
            );
        } else {
            vstd::arithmetic::div_mod::lemma_small_mod((before + repeat) as nat, 0x1_0000_0000);
        }
    } else {
        assert(frames * repeat == 0) by (nonlinear_arith)
            requires
                frames == 0,
        ;
    }
}

} // verus!
