//! The per-frame render loop: the frame-slot ring, the commands one frame
//! records, and the image-layout bookkeeping those commands must respect.
//!
//! Each frame uses one slot of a fixed ring of `MAX_FRAMES` slots, reused in
//! strict rotation, so the CPU can prepare one frame while the GPU still
//! executes an earlier one.  A frame records a fixed command sequence:
//! transition the offscreen target for compute, dispatch the background
//! pass, transition offscreen and presentable images for transfer, blit the
//! offscreen target into the presentable image, and transition that image
//! for presentation.  A transition is only legal when its declared old
//! layout equals the layout the image was actually left in, and the dispatch
//! and blit each require specific layouts; both facts are proved of the
//! recorded sequence.

use vstd::prelude::*;
use vstd::arithmetic::div_mod::{lemma_add_mod_noop, lemma_mod_bound, lemma_small_mod};
use crate::swapchain::Extent2D;

verus! {

/// The slot used by the k-th completed frame of a ring of `max_frames` slots.
pub open spec fn frame_slot(tick: nat, max_frames: nat) -> nat {
    tick % max_frames
}

/// Advance the frame-slot ring by one completed frame.
pub fn advance_frame(current: usize, max_frames: usize) -> (next: usize)
    requires
        1 <= max_frames,
        current < max_frames,
    ensures
        next == (current + 1) % (max_frames as int),
        next < max_frames,
{
    (current + 1) % max_frames
}

/// Frame ring law: for every ring size `N >= 1` the slot sequence over ticks
/// is `0, 1, ..., N-1, 0, 1, ...` — the slot of tick `k` is `k mod N`, it
/// stays below `N`, advances by exactly one (mod `N`) per completed frame,
/// and equals the tick itself for the first `N` ticks.
pub proof fn lemma_frame_sequence(tick: nat, max_frames: nat)
    requires
        1 <= max_frames,
    ensures
        frame_slot(tick, max_frames) < max_frames,
        frame_slot(tick + 1, max_frames) as int == (frame_slot(tick, max_frames) as int + 1) % (
        max_frames as int),
        tick < max_frames ==> frame_slot(tick, max_frames) == tick,
{
    let n = max_frames as int;
    lemma_mod_bound(tick as int, n);
    lemma_add_mod_noop(tick as int, 1, n);
    if max_frames == 1 {
        lemma_mod_bound((tick + 1) as int, n);
        lemma_mod_bound((tick % max_frames + 1) as int, n);
    } else {
        lemma_small_mod(1, max_frames);
    }
    if tick < max_frames {
        lemma_small_mod(tick, max_frames);
    }
}

/// The engine's position in the frame-slot ring, together with a ghost
/// count of completed frames that pins the slot to the ring law: the slot is
/// always `tick mod max_frames`, and `advance` bumps the tick by exactly one.
pub struct FrameLoop {
    /// The slot the next frame will use.
    pub current_frame: usize,
    /// The fixed number of slots.
    pub max_frames: usize,
    /// How many frames have been completed since the loop started.
    pub tick: Ghost<nat>,
}

impl FrameLoop {
    /// A ring position is meaningful while the slot stays inside the ring
    /// and is the one the completed-frame count dictates.
    pub open spec fn wf(self) -> bool {
        &&& 1 <= self.max_frames
        &&& self.current_frame < self.max_frames
        &&& self.current_frame == frame_slot(self.tick@, self.max_frames as nat)
    }

    /// Start at slot zero of a ring of `max_frames` slots, no frame
    /// completed yet.
    pub fn new(max_frames: usize) -> (frame_loop: FrameLoop)
        requires
            1 <= max_frames,
        ensures
            frame_loop.wf(),
            frame_loop.current_frame == 0,
            frame_loop.max_frames == max_frames,
            frame_loop.tick@ == 0,
    {
        let frame_loop = FrameLoop { current_frame: 0, max_frames, tick: Ghost(0) };
        proof {
            lemma_frame_sequence(0, max_frames as nat);
        }
        frame_loop
    }

    /// Move to the next slot, once the current frame's work is submitted and
    /// its presentation queued: exactly one more frame is complete.
    pub fn advance(&mut self)
        requires
            old(self).wf(),
        ensures
            final(self).wf(),
            final(self).max_frames == old(self).max_frames,
            final(self).tick@ == old(self).tick@ + 1,
            final(self).current_frame == (old(self).current_frame + 1) % (
            old(self).max_frames as int),
    {
        self.current_frame = advance_frame(self.current_frame, self.max_frames);
        proof {
            self.tick@ = old(self).tick@ + 1;
            lemma_frame_sequence(old(self).tick@, self.max_frames as nat);
        }
    }
}

/// The role of one per-slot semaphore: signalled by the swapchain when the
/// slot's acquired image is actually ready, or signalled by the queue when
/// the slot's rendering is complete.
#[derive(Clone, Copy, Debug, PartialEq, Eq, Structural)]
pub enum SemaphoreRole {
    ImageAcquired { slot: usize },
    RenderComplete { slot: usize },
}

/// The pipeline stage at which a submission waits on a semaphore.
#[derive(Clone, Copy, Debug, PartialEq, Eq, Structural)]
pub enum PipelineStage {
    AllCommands,
}

/// The synchronization wiring of one frame's submit and present calls,
/// stated over semaphore and fence roles the runtime maps to its per-slot
/// objects, the way it maps [`RenderCommand`]s to raw commands.
#[derive(Clone, Copy, Debug, PartialEq, Eq, Structural)]
pub struct FrameSubmission {
    /// The semaphore the submission waits on before any of its commands run.
    pub wait_semaphore: SemaphoreRole,
    /// The stage at which that wait is placed.
    pub wait_stage: PipelineStage,
    /// The semaphore the submission signals when its commands are done.
    pub signal_semaphore: SemaphoreRole,
    /// The slot whose fence the submission re-arms; the CPU wait at the
    /// start of the slot's next use blocks on it.
    pub signal_fence_slot: usize,
    /// The semaphore presentation waits on.
    pub present_wait_semaphore: SemaphoreRole,
    /// The swapchain image index presented, the one acquired this frame.
    pub present_image_index: u32,
}

/// Wire one frame's submit and present: the submission waits the slot's
/// image-acquired semaphore at the all-commands stage, signals the slot's
/// render-complete semaphore and re-arms the same slot's fence (the one
/// waited on at the start of the frame), and presentation — on the same
/// queue — waits exactly the semaphore the submission signals and presents
/// the acquired image.
pub fn plan_frame_submission(slot: usize, image_index: u32) -> (submission: FrameSubmission)
    ensures
        submission.wait_semaphore == (SemaphoreRole::ImageAcquired { slot }),
        submission.wait_stage == PipelineStage::AllCommands,
        submission.signal_semaphore == (SemaphoreRole::RenderComplete { slot }),
        submission.signal_fence_slot == slot,
        submission.present_wait_semaphore == submission.signal_semaphore,
        submission.present_image_index == image_index,
{
    FrameSubmission {
        wait_semaphore: SemaphoreRole::ImageAcquired { slot },
        wait_stage: PipelineStage::AllCommands,
        signal_semaphore: SemaphoreRole::RenderComplete { slot },
        signal_fence_slot: slot,
        present_wait_semaphore: SemaphoreRole::RenderComplete { slot },
        present_image_index: image_index,
    }
}

/// Check a presentable-image index handed back by the swapchain: only an
/// index below the image count may be used to address the presentable
/// images.  Returns the index exactly when it is in range.
pub fn checked_image_index(index: u32, image_count: u32) -> (checked: Option<u32>)
    ensures
        checked is Some <==> index < image_count,
        checked matches Some(i) ==> i == index,
{
    if index < image_count {
        Some(index)
    } else {
        None
    }
}

/// A GPU image layout, as far as the engine's frame commands use them.
#[derive(Clone, Copy, Debug, PartialEq, Eq, Structural)]
pub enum ImageLayout {
    /// Contents undefined; the layout every image effectively starts a frame in.
    Undefined,
    /// General-purpose layout the compute pass writes in.
    General,
    /// Optimal as the source of a transfer.
    TransferSrc,
    /// Optimal as the destination of a transfer.
    TransferDst,
    /// Ready to be presented.
    PresentSrc,
}

/// Integer offset of one corner of a 3D image region.
#[derive(Clone, Copy, Debug, PartialEq, Eq, Structural)]
pub struct Offset3D {
    pub x: i32,
    pub y: i32,
    pub z: i32,
}

/// The source and destination boxes of a blit: each box runs from its `min`
/// corner (inclusive) to its `max` corner (exclusive), so a blit between
/// differing extents rescales.
#[derive(Clone, Copy, Debug, PartialEq, Eq, Structural)]
pub struct BlitRegion {
    pub src_min: Offset3D,
    pub src_max: Offset3D,
    pub dst_min: Offset3D,
    pub dst_max: Offset3D,
}

/// The full-image blit boxes for copying a `src_extent` image onto a
/// `dst_extent` image: each box covers its whole image, depth 1.
pub fn blit_region(src_extent: Extent2D, dst_extent: Extent2D) -> (region: BlitRegion)
    requires
        src_extent.width <= i32::MAX,
        src_extent.height <= i32::MAX,
        dst_extent.width <= i32::MAX,
        dst_extent.height <= i32::MAX,
    ensures
        region.src_min == (Offset3D { x: 0, y: 0, z: 0 }),
        region.src_max == (Offset3D {
            x: src_extent.width as i32,
            y: src_extent.height as i32,
            z: 1,
        }),
        region.dst_min == (Offset3D { x: 0, y: 0, z: 0 }),
        region.dst_max == (Offset3D {
            x: dst_extent.width as i32,
            y: dst_extent.height as i32,
            z: 1,
        }),
{
    BlitRegion {
        src_min: Offset3D { x: 0, y: 0, z: 0 },
        src_max: Offset3D { x: src_extent.width as i32, y: src_extent.height as i32, z: 1 },
        dst_min: Offset3D { x: 0, y: 0, z: 0 },
        dst_max: Offset3D { x: dst_extent.width as i32, y: dst_extent.height as i32, z: 1 },
    }
}

/// Workgroups needed to cover `length` items with groups of 16: the
/// division rounded up.
pub open spec fn groups_of_16(length: u32) -> int {
    (length + 15) / 16
}

/// Compute one dispatch dimension: enough 16-wide workgroups to cover
/// `length` pixels.
pub fn dispatch_group_count(length: u32) -> (groups: u32)
    ensures
        groups == groups_of_16(length),
{
    let groups = length / 16 + (if length % 16 != 0 {
        1u32
    } else {
        0u32
    });
    proof {
        vstd::arithmetic::div_mod::lemma_fundamental_div_mod(length as int, 16);
    }
    groups
}

/// Dispatch sizing law: the workgroup count covers every pixel — 16 times
/// the count reaches the length — and wastes no whole group: with a nonzero
/// length, one group fewer would leave pixels uncovered, and a zero length
/// dispatches nothing.
pub proof fn lemma_dispatch_covers(length: u32)
    ensures
        16 * groups_of_16(length) >= length,
        length > 0 ==> 16 * (groups_of_16(length) - 1) < length,
        length == 0 ==> groups_of_16(length) == 0,
{
    vstd::arithmetic::div_mod::lemma_fundamental_div_mod(length + 15, 16);
}

/// One command the frame renderer records into a frame's command buffer,
/// abstracted to what the engine decides about it.
#[derive(Clone, Copy, Debug, PartialEq, Eq, Structural)]
pub enum RenderCommand {
    /// A layout transition of the offscreen render target.
    TransitionOffscreen { old_layout: ImageLayout, new_layout: ImageLayout },
    /// A layout transition of the acquired presentable image.
    TransitionPresentable { old_layout: ImageLayout, new_layout: ImageLayout },
    /// The compute background pass writing the offscreen target.
    DispatchBackground { group_count_x: u32, group_count_y: u32 },
    /// The blit of the offscreen target onto the presentable image.
    BlitOffscreenToPresentable { region: BlitRegion },
}

/// The layout the offscreen target is left in after `commands` run, starting
/// from `layout`.
pub open spec fn offscreen_layout_after(commands: Seq<RenderCommand>, layout: ImageLayout) -> ImageLayout
    decreases commands.len(),
{
    if commands.len() == 0 {
        layout
    } else {
        let next = match commands.first() {
            RenderCommand::TransitionOffscreen { new_layout, .. } => new_layout,
            _ => layout,
        };
        offscreen_layout_after(commands.drop_first(), next)
    }
}

/// The layout the presentable image is left in after `commands` run,
/// starting from `layout`.
pub open spec fn presentable_layout_after(commands: Seq<RenderCommand>, layout: ImageLayout) -> ImageLayout
    decreases commands.len(),
{
    if commands.len() == 0 {
        layout
    } else {
        let next = match commands.first() {
            RenderCommand::TransitionPresentable { new_layout, .. } => new_layout,
            _ => layout,
        };
        presentable_layout_after(commands.drop_first(), next)
    }
}

/// Whether a command sequence respects image layouts throughout, with the
/// offscreen target starting in `off` and the presentable image in `pres`:
/// every transition's declared old layout is the layout its image actually
/// holds at that point, the background pass only runs with the offscreen
/// target in the general layout, and the blit only runs with its source in
/// transfer-source and its destination in transfer-destination layout.
pub open spec fn layouts_respected(
    commands: Seq<RenderCommand>,
    off: ImageLayout,
    pres: ImageLayout,
) -> bool
    decreases commands.len(),
{
    if commands.len() == 0 {
        true
    } else {
        let head_ok = match commands.first() {
            RenderCommand::TransitionOffscreen { old_layout, .. } => old_layout == off,
            RenderCommand::TransitionPresentable { old_layout, .. } => old_layout == pres,
            RenderCommand::DispatchBackground { .. } => off is General,
            RenderCommand::BlitOffscreenToPresentable { .. } => off is TransferSrc
                && pres is TransferDst,
        };
        let next_off = match commands.first() {
            RenderCommand::TransitionOffscreen { new_layout, .. } => new_layout,
            _ => off,
        };
        let next_pres = match commands.first() {
            RenderCommand::TransitionPresentable { new_layout, .. } => new_layout,
            _ => pres,
        };
        head_ok && layouts_respected(commands.drop_first(), next_off, next_pres)
    }
}

/// The command sequence one frame records, for an offscreen target of
/// `offscreen_extent` and a presentable image of `swapchain_extent`.
pub open spec fn draw_command_seq(offscreen_extent: Extent2D, swapchain_extent: Extent2D) -> Seq<
    RenderCommand,
> {
    seq![
        RenderCommand::TransitionOffscreen {
            old_layout: ImageLayout::Undefined,
            new_layout: ImageLayout::General,
        },
        RenderCommand::DispatchBackground {
            group_count_x: groups_of_16(offscreen_extent.width) as u32,
            group_count_y: groups_of_16(offscreen_extent.height) as u32,
        },
        RenderCommand::TransitionOffscreen {
            old_layout: ImageLayout::General,
            new_layout: ImageLayout::TransferSrc,
        },
        RenderCommand::TransitionPresentable {
            old_layout: ImageLayout::Undefined,
            new_layout: ImageLayout::TransferDst,
        },
        RenderCommand::BlitOffscreenToPresentable {
            region: BlitRegion {
                src_min: Offset3D { x: 0, y: 0, z: 0 },
                src_max: Offset3D {
                    x: offscreen_extent.width as i32,
                    y: offscreen_extent.height as i32,
                    z: 1,
                },
                dst_min: Offset3D { x: 0, y: 0, z: 0 },
                dst_max: Offset3D {
                    x: swapchain_extent.width as i32,
                    y: swapchain_extent.height as i32,
                    z: 1,
                },
            },
        },
        RenderCommand::TransitionPresentable {
            old_layout: ImageLayout::TransferDst,
            new_layout: ImageLayout::PresentSrc,
        },
    ]
}

/// Record the commands of one frame: background pass into the offscreen
/// target, blit onto the presentable image, and every layout transition the
/// two need, in order.
pub fn record_draw_commands(offscreen_extent: Extent2D, swapchain_extent: Extent2D) -> (commands:
    Vec<RenderCommand>)
    requires
        offscreen_extent.width <= i32::MAX,
        offscreen_extent.height <= i32::MAX,
        swapchain_extent.width <= i32::MAX,
        swapchain_extent.height <= i32::MAX,
    ensures
        commands@ == draw_command_seq(offscreen_extent, swapchain_extent),
        layouts_respected(commands@, ImageLayout::Undefined, ImageLayout::Undefined),
{
    let mut commands: Vec<RenderCommand> = Vec::new();
    commands.push(RenderCommand::TransitionOffscreen {
        old_layout: ImageLayout::Undefined,
        new_layout: ImageLayout::General,
    });
    commands.push(RenderCommand::DispatchBackground {
        group_count_x: dispatch_group_count(offscreen_extent.width),
        group_count_y: dispatch_group_count(offscreen_extent.height),
    });
    commands.push(RenderCommand::TransitionOffscreen {
        old_layout: ImageLayout::General,
        new_layout: ImageLayout::TransferSrc,
    });
    commands.push(RenderCommand::TransitionPresentable {
        old_layout: ImageLayout::Undefined,
        new_layout: ImageLayout::TransferDst,
    });
    commands.push(RenderCommand::BlitOffscreenToPresentable {
        region: blit_region(offscreen_extent, swapchain_extent),
    });
    commands.push(RenderCommand::TransitionPresentable {
        old_layout: ImageLayout::TransferDst,
        new_layout: ImageLayout::PresentSrc,
    });
    proof {
        assert(commands@ =~= draw_command_seq(offscreen_extent, swapchain_extent));
        lemma_draw_commands_respect_layouts(offscreen_extent, swapchain_extent);
    }
    commands
}

/// Layout-transition law: the command sequence every frame records respects
/// image layouts, starting from both images in the undefined layout — each
/// transition's declared old layout is the layout actually in force, the
/// background pass sees the general layout, the blit sees transfer-source
/// and transfer-destination — and it leaves the presentable image ready for
/// presentation and the offscreen target in transfer-source layout.
pub proof fn lemma_draw_commands_respect_layouts(
    offscreen_extent: Extent2D,
    swapchain_extent: Extent2D,
)
    ensures
        layouts_respected(
            draw_command_seq(offscreen_extent, swapchain_extent),
            ImageLayout::Undefined,
            ImageLayout::Undefined,
        ),
        presentable_layout_after(
            draw_command_seq(offscreen_extent, swapchain_extent),
            ImageLayout::Undefined,
        ) == ImageLayout::PresentSrc,
        offscreen_layout_after(
            draw_command_seq(offscreen_extent, swapchain_extent),
            ImageLayout::Undefined,
        ) == ImageLayout::TransferSrc,
{
    let s = draw_command_seq(offscreen_extent, swapchain_extent);
    let s1 = s.drop_first();
    let s2 = s1.drop_first();
    let s3 = s2.drop_first();
    let s4 = s3.drop_first();
    let s5 = s4.drop_first();
    let s6 = s5.drop_first();
    assert(s6 =~= Seq::<RenderCommand>::empty());
    assert(s.len() == 6 && s1.len() == 5 && s2.len() == 4 && s3.len() == 3 && s4.len() == 2
        && s5.len() == 1);
    assert(s1.first() == s[1] && s2.first() == s[2] && s3.first() == s[3] && s4.first() == s[4]
        && s5.first() == s[5]);
    assert(layouts_respected(s6, ImageLayout::TransferSrc, ImageLayout::PresentSrc));
    assert(layouts_respected(s5, ImageLayout::TransferSrc, ImageLayout::TransferDst));
    assert(layouts_respected(s4, ImageLayout::TransferSrc, ImageLayout::TransferDst));
    assert(layouts_respected(s3, ImageLayout::TransferSrc, ImageLayout::Undefined));
    assert(layouts_respected(s2, ImageLayout::General, ImageLayout::Undefined));
    assert(layouts_respected(s1, ImageLayout::General, ImageLayout::Undefined));
    assert(layouts_respected(s, ImageLayout::Undefined, ImageLayout::Undefined));
    assert(presentable_layout_after(s6, ImageLayout::PresentSrc) == ImageLayout::PresentSrc);
    assert(presentable_layout_after(s5, ImageLayout::TransferDst) == ImageLayout::PresentSrc);
    assert(presentable_layout_after(s4, ImageLayout::TransferDst) == ImageLayout::PresentSrc);
    assert(presentable_layout_after(s3, ImageLayout::Undefined) == ImageLayout::PresentSrc);
    assert(presentable_layout_after(s2, ImageLayout::Undefined) == ImageLayout::PresentSrc);
    assert(presentable_layout_after(s1, ImageLayout::Undefined) == ImageLayout::PresentSrc);
    assert(presentable_layout_after(s, ImageLayout::Undefined) == ImageLayout::PresentSrc);
    assert(offscreen_layout_after(s6, ImageLayout::TransferSrc) == ImageLayout::TransferSrc);
    assert(offscreen_layout_after(s5, ImageLayout::TransferSrc) == ImageLayout::TransferSrc);
    assert(offscreen_layout_after(s4, ImageLayout::TransferSrc) == ImageLayout::TransferSrc);
    assert(offscreen_layout_after(s3, ImageLayout::TransferSrc) == ImageLayout::TransferSrc);
    assert(offscreen_layout_after(s2, ImageLayout::General) == ImageLayout::TransferSrc);
    assert(offscreen_layout_after(s1, ImageLayout::General) == ImageLayout::TransferSrc);
    assert(offscreen_layout_after(s, ImageLayout::Undefined) == ImageLayout::TransferSrc);
}

} // verus!
