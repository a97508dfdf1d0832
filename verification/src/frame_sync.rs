//! The per-frame synchronization protocol and the swapchain lifecycle.
//!
//! A render loop keeps a small fixed number of frame slots in flight. Each
//! slot owns a fence (signaled when the GPU has finished that slot's last
//! submission) and a pair of semaphores. A frame runs through a fixed
//! protocol: wait on the slot's fence, acquire a presentable image, reset the
//! fence, submit the recorded commands, present the image. Either the acquire
//! or the present may report the swapchain stale (out of date, or suboptimal
//! on present); a window resize may also be noted between frames. All those
//! paths converge on one recreation of the swapchain object set, which must
//! wait for the device to go idle before anything is destroyed.
//!
//! [`FrameSync`] is that protocol as a state machine. The driver calls
//! themselves are performed by the embedding render loop: it asks
//! [`FrameSync::next_action`] which call comes next, performs it, and reports
//! the outcome back through the transition methods. Every transition states
//! the resulting state exactly, over the mathematical view
//! [`FrameSyncView`], and the laws at the bottom of this module pin down the
//! protocol's guarantees: a slot's fence is signaled before its image is
//! acquired, a stale acquire abandons the frame without advancing the slot,
//! coalesced resizes cost one recreation, and a rebuilt object set has one
//! image view and one framebuffer per image.

use vstd::pervasive::VecAdditionalExecFns;
use vstd::prelude::*;

use crate::error::RenderError;
use crate::surface::Extent2D;

verus! {

/// The number of frame slots the render loop keeps in flight.
pub const MAX_FRAMES_IN_FLIGHT: usize = 2;

/// The swapchain-dependent object set: the presentable images, one view per
/// image, and one framebuffer per view, all built for one extent and all
/// destroyed and rebuilt together.
#[derive(Clone, Copy, PartialEq, Eq, Structural, Debug)]
pub struct SwapchainSet {
    pub extent: Extent2D,
    pub image_count: usize,
    pub view_count: usize,
    pub framebuffer_count: usize,
}

/// Where the machine stands within the current frame.
#[derive(Clone, Copy, PartialEq, Eq, Structural, Debug)]
pub enum FramePhase {
    /// Between frames; the next step waits on the current slot's fence.
    Idle,
    /// The current slot's fence is known signaled; an image is acquired next.
    FenceWaited,
    /// An image was acquired and the slot's fence reset; commands are
    /// recorded and submitted next.
    ImageAcquired { image_index: usize },
    /// The submission is on the queue with the slot's fence armed; the image
    /// is presented next.
    Submitted { image_index: usize },
    /// The swapchain object set is stale and must be rebuilt before the next
    /// frame. `advance_after` tells whether the frame that noticed it had
    /// already presented (so the slot advances once the rebuild is done);
    /// `idled` tells whether the device-idle wait has happened yet.
    RecreateNeeded { advance_after: bool, idled: bool },
}

/// The driver call the render loop must perform next.
#[derive(Clone, Copy, PartialEq, Eq, Structural, Debug)]
pub enum FrameAction {
    WaitFence { slot: usize },
    AcquireImage { slot: usize },
    SubmitCommands { slot: usize, image_index: usize },
    PresentImage { slot: usize, image_index: usize },
    WaitDeviceIdle,
    RecreateSwapchain,
}

/// What the acquire call reported.
#[derive(Clone, Copy, PartialEq, Eq, Structural, Debug)]
pub enum AcquireOutcome {
    Success { image_index: usize, suboptimal: bool },
    OutOfDate,
    Fatal { code: i32 },
}

/// What the submit call reported.
#[derive(Clone, Copy, PartialEq, Eq, Structural, Debug)]
pub enum SubmitOutcome {
    Success,
    Fatal { code: i32 },
}

/// What the present call reported.
#[derive(Clone, Copy, PartialEq, Eq, Structural, Debug)]
pub enum PresentOutcome {
    Success { suboptimal: bool },
    OutOfDate,
    Fatal { code: i32 },
}

/// The mathematical state of the frame machine.
#[verifier::ext_equal]
pub struct FrameSyncView {
    pub slot_count: int,
    pub current_slot: int,
    pub fence_signaled: Seq<bool>,
    pub phase: FramePhase,
    pub swapchain: SwapchainSet,
    pub window_resized: bool,
    pub pending_extent: Extent2D,
    pub frame_count: int,
    pub recreations: int,
    pub idle_waits: int,
}

impl FrameSyncView {
    /// Well-formedness, established by the constructor and preserved by
    /// every transition. It carries the protocol's standing invariants:
    /// the slot index is in range, there is one fence per slot, the rebuilt
    /// object set has one view and one framebuffer per image, a waited frame
    /// really has its slot's fence signaled, and a held image index is in
    /// range of the image chain.
    pub open spec fn wf(self) -> bool {
        &&& 1 <= self.slot_count
        &&& 0 <= self.current_slot < self.slot_count
        &&& self.fence_signaled.len() == self.slot_count
        &&& self.swapchain.view_count == self.swapchain.image_count
        &&& self.swapchain.framebuffer_count == self.swapchain.image_count
        &&& (self.phase is FenceWaited ==> self.fence_signaled[self.current_slot])
        &&& (self.phase matches FramePhase::ImageAcquired { image_index } ==> image_index
            < self.swapchain.image_count)
        &&& (self.phase matches FramePhase::Submitted { image_index } ==> image_index
            < self.swapchain.image_count)
    }

    /// The state a machine starts in: slot 0, every fence signaled (fences
    /// are created signaled so the first wait returns at once), and a freshly
    /// built object set.
    pub open spec fn initial(slot_count: int, extent: Extent2D, image_count: usize) -> FrameSyncView {
        FrameSyncView {
            slot_count,
            current_slot: 0,
            fence_signaled: Seq::new(slot_count as nat, |i: int| true),
            phase: FramePhase::Idle,
            swapchain: SwapchainSet {
                extent,
                image_count,
                view_count: image_count,
                framebuffer_count: image_count,
            },
            window_resized: false,
            pending_extent: extent,
            frame_count: 0,
            recreations: 0,
            idle_waits: 0,
        }
    }

    /// The slot the machine moves to when a frame completes.
    pub open spec fn next_slot(self) -> int {
        if self.current_slot + 1 == self.slot_count {
            0
        } else {
            self.current_slot + 1
        }
    }

    /// A resize event was noted. Later events overwrite earlier ones, so any
    /// burst of events coalesces into the last; the flag is raised only when
    /// the reported extent differs from the one the object set was built for.
    pub open spec fn after_resize(self, extent: Extent2D) -> FrameSyncView {
        FrameSyncView {
            pending_extent: extent,
            window_resized: extent != self.swapchain.extent,
            ..self
        }
    }

    /// The wait on the current slot's fence returned: the fence is signaled,
    /// so the slot's previous submission has fully completed.
    pub open spec fn after_fence_wait(self) -> FrameSyncView {
        FrameSyncView {
            phase: FramePhase::FenceWaited,
            fence_signaled: self.fence_signaled.update(self.current_slot, true),
            ..self
        }
    }

    /// The acquire call returned. On success the slot's fence is reset (only
    /// now, after the acquire succeeded) and the frame goes on; out of date
    /// abandons the frame — the fence stays signaled and the slot does not
    /// advance — and asks for a rebuild; a fatal code leaves the state as it
    /// was.
    pub open spec fn after_acquire(self, outcome: AcquireOutcome) -> FrameSyncView {
        match outcome {
            AcquireOutcome::Success { image_index, suboptimal } => FrameSyncView {
                phase: FramePhase::ImageAcquired { image_index },
                fence_signaled: self.fence_signaled.update(self.current_slot, false),
                ..self
            },
            AcquireOutcome::OutOfDate => FrameSyncView {
                phase: FramePhase::RecreateNeeded { advance_after: false, idled: false },
                ..self
            },
            AcquireOutcome::Fatal { code } => self,
        }
    }

    /// The submit call returned: the recorded commands are on the queue and
    /// the slot's fence is armed to signal their completion.
    pub open spec fn after_submit(self, outcome: SubmitOutcome) -> FrameSyncView {
        match outcome {
            SubmitOutcome::Success => FrameSyncView {
                phase: FramePhase::Submitted {
                    image_index: self.phase->ImageAcquired_image_index,
                },
                ..self
            },
            SubmitOutcome::Fatal { code } => self,
        }
    }

    /// Whether the present call reported the swapchain stale: out of date,
    /// or success with the suboptimal flag (treated as a request to rebuild).
    pub open spec fn staleness_reported(outcome: PresentOutcome) -> bool {
        ||| outcome is OutOfDate
        ||| (outcome matches PresentOutcome::Success { suboptimal } && suboptimal)
    }

    /// A completed frame: the slot index moves on and the frame counter
    /// advances.
    pub open spec fn advanced(self) -> FrameSyncView {
        FrameSyncView { current_slot: self.next_slot(), frame_count: self.frame_count + 1, ..self }
    }

    /// The present call returned. Staleness here and a noted window resize
    /// converge: either one asks for a single rebuild. A clean present
    /// finishes the frame and advances the slot; a fatal code leaves the
    /// state as it was.
    pub open spec fn after_present(self, outcome: PresentOutcome) -> FrameSyncView {
        match outcome {
            PresentOutcome::Fatal { code } => self,
            _ => if Self::staleness_reported(outcome) || self.window_resized {
                FrameSyncView {
                    phase: FramePhase::RecreateNeeded { advance_after: true, idled: false },
                    ..self
                }
            } else {
                FrameSyncView { phase: FramePhase::Idle, ..self }.advanced()
            },
        }
    }

    /// The device-idle wait before a rebuild returned: no in-flight work
    /// references the object set any more, so it may be destroyed.
    pub open spec fn after_device_idle(self) -> FrameSyncView {
        FrameSyncView {
            phase: FramePhase::RecreateNeeded {
                advance_after: self.phase->RecreateNeeded_advance_after,
                idled: true,
            },
            idle_waits: self.idle_waits + 1,
            ..self
        }
    }

    /// The swapchain object set was rebuilt for `extent` with `image_count`
    /// images: one view per image, one framebuffer per view. The resize note
    /// is consumed — the rebuild read the window's current size — so one
    /// recreation serves both triggers. A frame that had already presented
    /// advances its slot now.
    pub open spec fn after_recreate(self, extent: Extent2D, image_count: usize) -> FrameSyncView {
        let rebuilt = FrameSyncView {
            phase: FramePhase::Idle,
            swapchain: SwapchainSet {
                extent,
                image_count,
                view_count: image_count,
                framebuffer_count: image_count,
            },
            window_resized: false,
            recreations: self.recreations + 1,
            ..self
        };
        if self.phase->RecreateNeeded_advance_after {
            rebuilt.advanced()
        } else {
            rebuilt
        }
    }

    /// Whether a submit may happen in this state.
    pub open spec fn submit_enabled(self) -> bool {
        self.phase is ImageAcquired
    }

    /// Whether a present may happen in this state.
    pub open spec fn present_enabled(self) -> bool {
        self.phase is Submitted
    }
}

/// The frame synchronization state machine.
///
/// The embedding render loop owns the actual Vulkan objects. It drives one
/// `FrameSync` value: ask [`Self::next_action`], perform that driver call,
/// and report the outcome through the matching transition method. The
/// machine's contracts then guarantee the protocol ordering — in particular
/// that no slot is reused before its fence wait, that a stale frame is
/// abandoned rather than submitted, and that a rebuild is preceded by a
/// device-idle wait.
pub struct FrameSync {
    pub slot_count: usize,
    pub current_slot: usize,
    pub fence_signaled: Vec<bool>,
    pub phase: FramePhase,
    pub swapchain: SwapchainSet,
    pub window_resized: bool,
    pub pending_extent: Extent2D,
    pub frame_count: u64,
    pub recreations: u64,
    pub idle_waits: u64,
}

impl View for FrameSync {
    type V = FrameSyncView;

    open spec fn view(&self) -> FrameSyncView {
        FrameSyncView {
            slot_count: self.slot_count as int,
            current_slot: self.current_slot as int,
            fence_signaled: self.fence_signaled@,
            phase: self.phase,
            swapchain: self.swapchain,
            window_resized: self.window_resized,
            pending_extent: self.pending_extent,
            frame_count: self.frame_count as int,
            recreations: self.recreations as int,
            idle_waits: self.idle_waits as int,
        }
    }
}

impl FrameSync {
    /// A fresh machine over a just-built swapchain object set: slot 0,
    /// every fence created signaled, nothing pending.
    pub fn new(slot_count: usize, extent: Extent2D, image_count: usize) -> (s: Self)
        requires
            1 <= slot_count,
        ensures
            s@ == FrameSyncView::initial(slot_count as int, extent, image_count),
            s@.wf(),
    {
        let mut fence_signaled: Vec<bool> = Vec::new();
        let mut i: usize = 0;
        while i < slot_count
            invariant
                i <= slot_count,
                fence_signaled@.len() == i,
                forall|k: int| 0 <= k < i ==> fence_signaled@[k] == true,
            decreases slot_count - i,
        {
            fence_signaled.push(true);
            i = i + 1;
        }
        let s = FrameSync {
            slot_count,
            current_slot: 0,
            fence_signaled,
            phase: FramePhase::Idle,
            swapchain: SwapchainSet {
                extent,
                image_count,
                view_count: image_count,
                framebuffer_count: image_count,
            },
            window_resized: false,
            pending_extent: extent,
            frame_count: 0,
            recreations: 0,
            idle_waits: 0,
        };
        proof {
            assert(s@ =~= FrameSyncView::initial(slot_count as int, extent, image_count));
        }
        s
    }

    /// The driver call to perform next, as a pure function of the phase.
    pub fn next_action(&self) -> (a: FrameAction)
        ensures
            self.phase is Idle ==> a == (FrameAction::WaitFence { slot: self.current_slot }),
            self.phase is FenceWaited ==> a == (FrameAction::AcquireImage {
                slot: self.current_slot,
            }),
            self.phase matches FramePhase::ImageAcquired { image_index } ==> a
                == (FrameAction::SubmitCommands { slot: self.current_slot, image_index }),
            self.phase matches FramePhase::Submitted { image_index } ==> a
                == (FrameAction::PresentImage { slot: self.current_slot, image_index }),
            self.phase matches FramePhase::RecreateNeeded { idled, .. } ==> a == (if idled {
                FrameAction::RecreateSwapchain
            } else {
                FrameAction::WaitDeviceIdle
            }),
    {
        match self.phase {
            FramePhase::Idle => FrameAction::WaitFence { slot: self.current_slot },
            FramePhase::FenceWaited => FrameAction::AcquireImage { slot: self.current_slot },
            FramePhase::ImageAcquired { image_index } => FrameAction::SubmitCommands {
                slot: self.current_slot,
                image_index,
            },
            FramePhase::Submitted { image_index } => FrameAction::PresentImage {
                slot: self.current_slot,
                image_index,
            },
            FramePhase::RecreateNeeded { idled, .. } => if idled {
                FrameAction::RecreateSwapchain
            } else {
                FrameAction::WaitDeviceIdle
            },
        }
    }

    /// The extent the swapchain object set is currently built for.
    pub fn extent(&self) -> (e: Extent2D)
        ensures
            e == self.swapchain.extent,
    {
        self.swapchain.extent
    }

    /// Note a window resize event. May be called in any phase; a burst of
    /// events coalesces, the last extent winning.
    pub fn note_resize(&mut self, extent: Extent2D)
        requires
            old(self)@.wf(),
        ensures
            final(self)@ == old(self)@.after_resize(extent),
            final(self)@.wf(),
    {
        self.pending_extent = extent;
        self.window_resized = extent.width != self.swapchain.extent.width
            || extent.height != self.swapchain.extent.height;
        proof {
            assert(final(self)@ =~= old(self)@.after_resize(extent));
        }
    }

    /// The wait on the current slot's fence returned.
    pub fn fence_waited(&mut self)
        requires
            old(self)@.wf(),
            old(self).phase is Idle,
        ensures
            final(self)@ == old(self)@.after_fence_wait(),
            final(self)@.wf(),
    {
        self.fence_signaled.set(self.current_slot, true);
        self.phase = FramePhase::FenceWaited;
        proof {
            assert(final(self)@ =~= old(self)@.after_fence_wait());
        }
    }

    /// The acquire call returned with `outcome`. Success hands the image
    /// index on and resets the slot's fence; out of date abandons the frame
    /// and asks for a rebuild; a fatal code is handed back as the error.
    pub fn acquired(&mut self, outcome: AcquireOutcome) -> (r: Result<(), RenderError>)
        requires
            old(self)@.wf(),
            old(self).phase is FenceWaited,
            outcome matches AcquireOutcome::Success { image_index, .. } ==> image_index < old(
                self,
            ).swapchain.image_count,
        ensures
            final(self)@ == old(self)@.after_acquire(outcome),
            final(self)@.wf(),
            r is Ok <==> !(outcome is Fatal),
            outcome matches AcquireOutcome::Fatal { code } ==> r matches Err(e) && e matches
                RenderError::VkResult(c) && c == code,
    {
        match outcome {
            AcquireOutcome::Success { image_index, .. } => {
                self.fence_signaled.set(self.current_slot, false);
                self.phase = FramePhase::ImageAcquired { image_index };
                proof {
                    assert(final(self)@ =~= old(self)@.after_acquire(outcome));
                }
                Ok(())
            },
            AcquireOutcome::OutOfDate => {
                self.phase = FramePhase::RecreateNeeded { advance_after: false, idled: false };
                proof {
                    assert(final(self)@ =~= old(self)@.after_acquire(outcome));
                }
                Ok(())
            },
            AcquireOutcome::Fatal { code } => Err(RenderError::VkResult(code)),
        }
    }

    /// The submit call returned with `outcome`. On success the slot's fence
    /// is armed on the queue; a fatal code is handed back as the error.
    pub fn submitted(&mut self, outcome: SubmitOutcome) -> (r: Result<(), RenderError>)
        requires
            old(self)@.wf(),
            old(self).phase is ImageAcquired,
        ensures
            final(self)@ == old(self)@.after_submit(outcome),
            final(self)@.wf(),
            r is Ok <==> !(outcome is Fatal),
            outcome matches SubmitOutcome::Fatal { code } ==> r matches Err(e) && e matches
                RenderError::VkResult(c) && c == code,
    {
        match outcome {
            SubmitOutcome::Success => {
                match self.phase {
                    FramePhase::ImageAcquired { image_index } => {
                        self.phase = FramePhase::Submitted { image_index };
                    },
                    _ => {
                        proof {
                            assert(false);
                        }
                    },
                }
                proof {
                    assert(final(self)@ =~= old(self)@.after_submit(outcome));
                }
                Ok(())
            },
            SubmitOutcome::Fatal { code } => Err(RenderError::VkResult(code)),
        }
    }

    /// The present call returned with `outcome`. Staleness here or a noted
    /// resize asks for one rebuild; a clean present completes the frame and
    /// advances the slot; a fatal code is handed back as the error.
    pub fn presented(&mut self, outcome: PresentOutcome) -> (r: Result<(), RenderError>)
        requires
            old(self)@.wf(),
            old(self).phase is Submitted,
            old(self).frame_count < u64::MAX,
        ensures
            final(self)@ == old(self)@.after_present(outcome),
            final(self)@.wf(),
            r is Ok <==> !(outcome is Fatal),
            outcome matches PresentOutcome::Fatal { code } ==> r matches Err(e) && e matches
                RenderError::VkResult(c) && c == code,
    {
        match outcome {
            PresentOutcome::Fatal { code } => Err(RenderError::VkResult(code)),
            _ => {
                let stale = match outcome {
                    PresentOutcome::OutOfDate => true,
                    PresentOutcome::Success { suboptimal } => suboptimal,
                    PresentOutcome::Fatal { .. } => false,
                };
                if stale || self.window_resized {
                    self.phase = FramePhase::RecreateNeeded { advance_after: true, idled: false };
                } else {
                    self.phase = FramePhase::Idle;
                    self.current_slot = if self.current_slot + 1 == self.slot_count {
                        0
                    } else {
                        self.current_slot + 1
                    };
                    self.frame_count = self.frame_count + 1;
                }
                proof {
                    assert(final(self)@ =~= old(self)@.after_present(outcome));
                }
                Ok(())
            },
        }
    }

    /// The device-idle wait returned: nothing in flight references the stale
    /// object set any more, so it may now be destroyed and rebuilt.
    pub fn device_idled(&mut self)
        requires
            old(self)@.wf(),
            old(self).phase matches FramePhase::RecreateNeeded { idled, .. } && !idled,
            old(self).idle_waits < u64::MAX,
        ensures
            final(self)@ == old(self)@.after_device_idle(),
            final(self)@.wf(),
    {
        match self.phase {
            FramePhase::RecreateNeeded { advance_after, .. } => {
                self.phase = FramePhase::RecreateNeeded { advance_after, idled: true };
            },
            _ => {
                proof {
                    assert(false);
                }
            },
        }
        self.idle_waits = self.idle_waits + 1;
        proof {
            assert(final(self)@ =~= old(self)@.after_device_idle());
        }
    }

    /// The swapchain object set was rebuilt for `extent` with `image_count`
    /// images. Requires the device-idle wait to have happened first: a
    /// rebuild destroys the old set, and nothing in flight may still
    /// reference it.
    pub fn recreated(&mut self, extent: Extent2D, image_count: usize)
        requires
            old(self)@.wf(),
            old(self).phase matches FramePhase::RecreateNeeded { idled, .. } && idled,
            old(self).recreations < u64::MAX,
            old(self).frame_count < u64::MAX,
        ensures
            final(self)@ == old(self)@.after_recreate(extent, image_count),
            final(self)@.wf(),
            final(self).swapchain.image_count == image_count,
            final(self).swapchain.view_count == image_count,
            final(self).swapchain.framebuffer_count == image_count,
            final(self).swapchain.extent == extent,
            !final(self).window_resized,
            final(self).recreations == old(self).recreations + 1,
    {
        let advance_after = match self.phase {
            FramePhase::RecreateNeeded { advance_after, .. } => advance_after,
            _ => {
                proof {
                    assert(false);
                }
                false
            },
        };
        self.phase = FramePhase::Idle;
        self.swapchain = SwapchainSet {
            extent,
            image_count,
            view_count: image_count,
            framebuffer_count: image_count,
        };
        self.window_resized = false;
        self.recreations = self.recreations + 1;
        if advance_after {
            self.current_slot = if self.current_slot + 1 == self.slot_count {
                0
            } else {
                self.current_slot + 1
            };
            self.frame_count = self.frame_count + 1;
        }
        proof {
            assert(final(self)@ =~= old(self)@.after_recreate(extent, image_count));
        }
    }
}

/// Law: a slot's fence is signaled whenever the machine is about to acquire
/// an image for it — a slot is never reused without a completed fence wait.
pub proof fn lemma_fence_signaled_before_acquire(v: FrameSyncView)
    requires
        v.wf(),
        v.phase is FenceWaited,
    ensures
        v.fence_signaled[v.current_slot],
{
}

/// Law: in every well-formed state — so in particular after any successful
/// recreation — the object set holds exactly one image view and one
/// framebuffer per image.
pub proof fn lemma_swapchain_counts_agree(v: FrameSyncView)
    requires
        v.wf(),
    ensures
        v.swapchain.view_count == v.swapchain.image_count,
        v.swapchain.framebuffer_count == v.swapchain.image_count,
{
}

/// Law: an out-of-date acquire abandons the frame. No submit or present is
/// enabled at any point from the report until the rebuild completes, the
/// slot's fence is not reset, and both the slot index and the frame counter
/// are unchanged once the rebuild is done — the frame was abandoned, not
/// advanced.
pub proof fn lemma_out_of_date_abandons_frame(
    v: FrameSyncView,
    extent: Extent2D,
    image_count: usize,
)
    requires
        v.wf(),
        v.phase is FenceWaited,
    ensures
        ({
            let v1 = v.after_acquire(AcquireOutcome::OutOfDate);
            let v2 = v1.after_device_idle();
            let v3 = v2.after_recreate(extent, image_count);
            &&& !v1.submit_enabled() && !v1.present_enabled()
            &&& !v2.submit_enabled() && !v2.present_enabled()
            &&& v1.fence_signaled == v.fence_signaled
            &&& v1.current_slot == v.current_slot
            &&& v3.current_slot == v.current_slot
            &&& v3.frame_count == v.frame_count
            &&& v3.phase is Idle
        }),
{
}

/// Law: resize events coalesce. Noting one resize and then another leaves
/// the machine exactly as if only the second had been noted, so a burst of
/// events before a frame boundary costs at most one recreation.
pub proof fn lemma_resize_coalesces(v: FrameSyncView, e1: Extent2D, e2: Extent2D)
    ensures
        v.after_resize(e1).after_resize(e2) == v.after_resize(e2),
{
    assert(v.after_resize(e1).after_resize(e2) =~= v.after_resize(e2));
}

/// Law: a resize note asks for a rebuild exactly when the reported extent
/// differs from the one the object set is built for; reporting the current
/// extent asks for nothing.
pub proof fn lemma_resize_needs_new_extent(v: FrameSyncView, e: Extent2D)
    ensures
        v.after_resize(e).window_resized == (e != v.swapchain.extent),
{
}

/// Law: when a present reports staleness, a resize is pending, or both at
/// once, recreation happens exactly once: the present asks for one rebuild,
/// the rebuild raises the recreation count by exactly one, and it consumes
/// the resize note — there is no second recreation.
pub proof fn lemma_recreate_exactly_once(
    v: FrameSyncView,
    outcome: PresentOutcome,
    extent: Extent2D,
    image_count: usize,
)
    requires
        v.wf(),
        v.phase is Submitted,
        !(outcome is Fatal),
        FrameSyncView::staleness_reported(outcome) || v.window_resized,
    ensures
        ({
            let v1 = v.after_present(outcome);
            let v2 = v1.after_device_idle();
            let v3 = v2.after_recreate(extent, image_count);
            &&& v1.phase == (FramePhase::RecreateNeeded { advance_after: true, idled: false })
            &&& v1.recreations == v.recreations
            &&& v2.recreations == v.recreations
            &&& v3.recreations == v.recreations + 1
            &&& !v3.window_resized
            &&& v3.phase is Idle
            &&& v3.current_slot == v.next_slot()
        }),
{
}

/// Law: a clean present — no staleness reported, no resize pending —
/// completes the frame with no recreation, and the slot index and frame
/// counter advance.
pub proof fn lemma_clean_frame_advances(v: FrameSyncView, outcome: PresentOutcome)
    requires
        v.wf(),
        v.phase is Submitted,
        outcome matches PresentOutcome::Success { suboptimal } && !suboptimal,
        !v.window_resized,
    ensures
        ({
            let v1 = v.after_present(outcome);
            &&& v1.phase is Idle
            &&& v1.recreations == v.recreations
            &&& v1.current_slot == v.next_slot()
            &&& v1.frame_count == v.frame_count + 1
        }),
{
}

} // verus!
