//! Per-frame synchronizer: rotates the frame slots, orders the fence waits,
//! command recording, compute and graphics submissions and the present of one
//! tick, and schedules swapchain recreation across ticks. The caller carries
//! out the returned actions in order against the graphics API and reports the
//! acquire and present outcomes back; command buffers of a slot are never
//! re-recorded before that slot's fence has been waited on.

use crate::FRAMES_IN_FLIGHT;
use vstd::prelude::*;

verus! {

/// One step of the per-tick protocol, carried out by the caller in order.
#[derive(Clone, Copy, PartialEq, Eq, Structural, Debug)]
pub enum FrameAction {
    /// Block until the slot's fence is signaled: the GPU has fully retired
    /// the slot's previous frame.
    WaitFence { slot: usize },
    /// Reset the slot's fence to unsignaled.
    ResetFence { slot: usize },
    /// Recreate the swapchain, retiring the current generation.
    RecreateSwapchain,
    /// Acquire the next presentable image, signaling the slot's
    /// image-available semaphore.
    AcquireImage { slot: usize },
    /// Record the slot's compute and graphics command buffers.
    RecordCommands { slot: usize },
    /// Submit the compute work on the compute queue, signaling the slot's
    /// compute-finished semaphore.
    SubmitCompute { slot: usize },
    /// Submit the graphics work on the graphics queue, waiting on the slot's
    /// image-available semaphore at the color-attachment-output stage and on
    /// its compute-finished semaphore at the vertex-input stage, signaling
    /// its render-finished semaphore and its fence.
    SubmitGraphics { slot: usize },
    /// Present the acquired image, waiting on the slot's render-finished
    /// semaphore.
    PresentImage { slot: usize, image_index: u32 },
}

/// What an image-acquire attempt reported.
#[derive(Clone, Copy, PartialEq, Eq, Structural, Debug)]
pub enum AcquireOutcome {
    /// An image was acquired; `suboptimal` asks for a recreation at the next
    /// opportunity without invalidating this tick.
    Success { image_index: u32, suboptimal: bool },
    /// The swapchain no longer matches the surface; no image was acquired.
    OutOfDate,
}

/// What the present call reported. A failure is recoverable: it only
/// schedules a swapchain recreation for the next tick.
#[derive(Clone, Copy, PartialEq, Eq, Structural, Debug)]
pub enum PresentOutcome {
    Success,
    Failure,
}

/// Unrecoverable failures of the per-tick protocol: acquisition against a
/// freshly recreated swapchain must succeed cleanly.
#[derive(Clone, Copy, PartialEq, Eq, Structural, Debug)]
pub enum FatalError {
    /// The retried acquire still reported the swapchain out of date.
    AcquireFailedAfterRecreation,
    /// The retried acquire succeeded but reported the new chain suboptimal.
    SuboptimalAfterRecreation,
}

/// The outcomes one tick depends on. `acquire_retry` is consulted only when
/// `acquire_first` reports the swapchain out of date.
#[derive(Clone, Copy, PartialEq, Eq, Structural, Debug)]
pub struct TickInput {
    pub acquire_first: AcquireOutcome,
    pub acquire_retry: AcquireOutcome,
    pub present: PresentOutcome,
}

/// What one successful tick hands back to the caller: the ordered actions to
/// carry out and the image index to present.
#[derive(Debug)]
pub struct TickActions {
    pub actions: Vec<FrameAction>,
    pub image_index: u32,
}

/// The synchronizer's cross-tick state: which slot was used last, and whether
/// a recreation has been scheduled for the next tick.
#[derive(Clone, Copy, PartialEq, Eq, Structural, Debug)]
pub struct FrameSync {
    pub last_in_use_i: usize,
    pub recreate_swapchain_next_frame: bool,
}

/// The slot the next tick will use.
pub open spec fn spec_cur_slot(s: FrameSync) -> usize {
    (((s.last_in_use_i + 1) as int) % (FRAMES_IN_FLIGHT as int)) as usize
}

/// Whether the tick cannot complete: the first acquire found the swapchain
/// out of date and the retry against the recreated chain was not a clean
/// success.
pub open spec fn spec_tick_fatal(inp: TickInput) -> bool {
    inp.acquire_first is OutOfDate && !(inp.acquire_retry matches AcquireOutcome::Success {
        suboptimal: false,
        ..
    })
}

/// The image index a non-fatal tick presents.
pub open spec fn spec_tick_image_index(inp: TickInput) -> u32 {
    match inp.acquire_first {
        AcquireOutcome::Success { image_index, .. } => image_index,
        AcquireOutcome::OutOfDate => match inp.acquire_retry {
            AcquireOutcome::Success { image_index, .. } => image_index,
            AcquireOutcome::OutOfDate => 0,
        },
    }
}

/// Opening actions of a tick: a scheduled recreation first waits the
/// previous slot's fence (bounding how stale the image set can be); then the
/// current slot's fence is waited and reset, proving the GPU has retired the
/// slot's prior frame.
pub open spec fn spec_begin_actions(last: usize, cur: usize, recreate: bool) -> Seq<FrameAction> {
    if recreate {
        seq![
            FrameAction::WaitFence { slot: last },
            FrameAction::RecreateSwapchain,
            FrameAction::WaitFence { slot: cur },
            FrameAction::ResetFence { slot: cur },
        ]
    } else {
        seq![FrameAction::WaitFence { slot: cur }, FrameAction::ResetFence { slot: cur }]
    }
}

/// Acquire actions of a tick: an out-of-date first attempt recreates the
/// swapchain (after a fence wait on the previous slot) and retries once.
pub open spec fn spec_acquire_actions(last: usize, cur: usize, first: AcquireOutcome) -> Seq<
    FrameAction,
> {
    match first {
        AcquireOutcome::Success { .. } => seq![FrameAction::AcquireImage { slot: cur }],
        AcquireOutcome::OutOfDate => seq![
            FrameAction::AcquireImage { slot: cur },
            FrameAction::WaitFence { slot: last },
            FrameAction::RecreateSwapchain,
            FrameAction::AcquireImage { slot: cur },
        ],
    }
}

/// Closing actions of a tick: record the slot's command buffers (safe now
/// that its fence was observed signaled), submit compute, submit graphics,
/// present.
pub open spec fn spec_submit_actions(cur: usize, image_index: u32) -> Seq<FrameAction> {
    seq![
        FrameAction::RecordCommands { slot: cur },
        FrameAction::SubmitCompute { slot: cur },
        FrameAction::SubmitGraphics { slot: cur },
        FrameAction::PresentImage { slot: cur, image_index },
    ]
}

/// The full ordered action log of one non-fatal tick.
pub open spec fn spec_tick_log(s: FrameSync, inp: TickInput) -> Seq<FrameAction> {
    spec_begin_actions(s.last_in_use_i, spec_cur_slot(s), s.recreate_swapchain_next_frame)
        + spec_acquire_actions(s.last_in_use_i, spec_cur_slot(s), inp.acquire_first)
        + spec_submit_actions(spec_cur_slot(s), spec_tick_image_index(inp))
}

/// The synchronizer state after one non-fatal tick: the current slot becomes
/// the last used one, and a recreation is scheduled exactly when the acquire
/// was suboptimal or the present failed.
pub open spec fn spec_tick_next(s: FrameSync, inp: TickInput) -> FrameSync {
    FrameSync {
        last_in_use_i: spec_cur_slot(s),
        recreate_swapchain_next_frame: (inp.acquire_first matches AcquireOutcome::Success {
            suboptimal: true,
            ..
        }) || inp.present is Failure,
    }
}

/// Synchronizer state after a run of non-fatal ticks.
pub open spec fn spec_run_state(s: FrameSync, inputs: Seq<TickInput>) -> FrameSync
    decreases inputs.len(),
{
    if inputs.len() == 0 {
        s
    } else {
        spec_run_state(spec_tick_next(s, inputs.first()), inputs.drop_first())
    }
}

/// Concatenated action log of a run of non-fatal ticks.
pub open spec fn spec_run_log(s: FrameSync, inputs: Seq<TickInput>) -> Seq<FrameAction>
    decreases inputs.len(),
{
    if inputs.len() == 0 {
        Seq::empty()
    } else {
        spec_tick_log(s, inputs.first()) + spec_run_log(
            spec_tick_next(s, inputs.first()),
            inputs.drop_first(),
        )
    }
}

impl FrameSync {
    /// Well-formed: the last-used slot index is a real slot.
    pub open spec fn wf(self) -> bool {
        self.last_in_use_i < FRAMES_IN_FLIGHT
    }

    /// A fresh synchronizer: slot zero counts as last used and no recreation
    /// is scheduled.
    pub fn new() -> (r: Self)
        ensures
            r.wf(),
            r.last_in_use_i == 0,
            !r.recreate_swapchain_next_frame,
    {
        Self { last_in_use_i: 0, recreate_swapchain_next_frame: false }
    }

    /// A nonzero-size window resize schedules a swapchain recreation for the
    /// next tick rather than recreating mid-frame.
    pub fn handle_window_resize(&mut self)
        ensures
            final (self).last_in_use_i == old(self).last_in_use_i,
            final (self).recreate_swapchain_next_frame,
    {
        self.recreate_swapchain_next_frame = true;
    }

    /// Runs the decision side of one tick. The returned actions, carried out
    /// in order, are the whole per-tick protocol; the outcomes the caller
    /// observed are passed in (`acquire_retry` matters only when the first
    /// acquire reported out-of-date). A tick is fatal exactly when the
    /// retried acquire is not a clean success; the state is then unchanged.
    pub fn render_next_frame(
        &mut self,
        acquire_first: AcquireOutcome,
        acquire_retry: AcquireOutcome,
        present: PresentOutcome,
    ) -> (r: Result<TickActions, FatalError>)
        requires
            old(self).wf(),
        ensures
            final (self).wf(),
            ({
                let inp = TickInput { acquire_first, acquire_retry, present };
                &&& spec_tick_fatal(inp) ==> {
                    &&& *final (self) == *old(self)
                    &&& (acquire_retry is OutOfDate ==> r == Err::<TickActions, FatalError>(
                        FatalError::AcquireFailedAfterRecreation,
                    ))
                    &&& (acquire_retry matches AcquireOutcome::Success { suboptimal: true, .. }
                        ==> r == Err::<TickActions, FatalError>(
                        FatalError::SuboptimalAfterRecreation,
                    ))
                }
                &&& !spec_tick_fatal(inp) ==> {
                    &&& r is Ok
                    &&& *final (self) == spec_tick_next(*old(self), inp)
                    &&& (r matches Ok(out) ==> out.actions@ == spec_tick_log(*old(self), inp)
                        && out.image_index == spec_tick_image_index(inp))
                }
            }),
    {
        let cur = (self.last_in_use_i + 1) % FRAMES_IN_FLIGHT;
        let last = self.last_in_use_i;
        let ghost inp = TickInput { acquire_first, acquire_retry, present };

        if let AcquireOutcome::OutOfDate = acquire_first {
            match acquire_retry {
                AcquireOutcome::OutOfDate => {
                    return Err(FatalError::AcquireFailedAfterRecreation);
                },
                AcquireOutcome::Success { suboptimal: true, .. } => {
                    return Err(FatalError::SuboptimalAfterRecreation);
                },
                AcquireOutcome::Success { suboptimal: false, .. } => {},
            }
        }

        let mut actions: Vec<FrameAction> = Vec::new();
        if self.recreate_swapchain_next_frame {
            actions.push(FrameAction::WaitFence { slot: last });
            actions.push(FrameAction::RecreateSwapchain);
        }
        actions.push(FrameAction::WaitFence { slot: cur });
        actions.push(FrameAction::ResetFence { slot: cur });
        proof {
            assert(actions@ =~= spec_begin_actions(
                last,
                spec_cur_slot(*old(self)),
                old(self).recreate_swapchain_next_frame,
            ));
        }

        let mut suboptimal_now = false;
        let image_index: u32;
        actions.push(FrameAction::AcquireImage { slot: cur });
        match acquire_first {
            AcquireOutcome::Success { image_index: idx, suboptimal } => {
                if suboptimal {
                    suboptimal_now = true;
                }
                image_index = idx;
            },
            AcquireOutcome::OutOfDate => {
                actions.push(FrameAction::WaitFence { slot: last });
                actions.push(FrameAction::RecreateSwapchain);
                actions.push(FrameAction::AcquireImage { slot: cur });
                match acquire_retry {
                    AcquireOutcome::Success { image_index: idx, .. } => {
                        image_index = idx;
                    },
                    AcquireOutcome::OutOfDate => {
                        image_index = 0;
                    },
                }
            },
        }
        proof {
            assert(actions@ =~= spec_begin_actions(
                last,
                spec_cur_slot(*old(self)),
                old(self).recreate_swapchain_next_frame,
            ) + spec_acquire_actions(last, spec_cur_slot(*old(self)), acquire_first));
        }

        actions.push(FrameAction::RecordCommands { slot: cur });
        actions.push(FrameAction::SubmitCompute { slot: cur });
        actions.push(FrameAction::SubmitGraphics { slot: cur });
        actions.push(FrameAction::PresentImage { slot: cur, image_index });

        let present_failed = match present {
            PresentOutcome::Success => false,
            PresentOutcome::Failure => true,
        };
        self.recreate_swapchain_next_frame = suboptimal_now || present_failed;
        self.last_in_use_i = cur;

        proof {
            assert(actions@ =~= spec_tick_log(*old(self), inp));
        }
        Ok(TickActions { actions, image_index })
    }
}

/// Within one tick's log there is exactly one command-buffer recording, it
/// records the tick's current slot, and a wait on that same slot's fence
/// stands before it.
pub proof fn lemma_tick_record_gated_by_fence(s: FrameSync, inp: TickInput)
    ensures
        ({
            let a = spec_tick_log(s, inp);
            let cur = spec_cur_slot(s);
            let ri = a.len() - 4;
            &&& a.len() >= 7
            &&& a[ri as int] == (FrameAction::RecordCommands { slot: cur })
            &&& forall|k: int| 0 <= k < a.len() && k != ri ==> !(a[k] is RecordCommands)
            &&& exists|w: int|
                0 <= w < ri && a[w] == (FrameAction::WaitFence { slot: cur })
        }),
{
    let cur = spec_cur_slot(s);
    let last = s.last_in_use_i;
    let b = spec_begin_actions(last, cur, s.recreate_swapchain_next_frame);
    let q = spec_acquire_actions(last, cur, inp.acquire_first);
    let t = spec_submit_actions(cur, spec_tick_image_index(inp));
    let a = spec_tick_log(s, inp);
    assert(a == b + q + t);
    assert(forall|k: int| 0 <= k < b.len() ==> !(b[k] is RecordCommands));
    assert(forall|k: int| 0 <= k < q.len() ==> !(q[k] is RecordCommands));
    assert(forall|k: int| 1 <= k < t.len() ==> !(t[k] is RecordCommands));
    let ri = b.len() + q.len();
    assert(a[ri as int] == t[0]);
    assert forall|k: int| 0 <= k < a.len() && k != ri implies !(a[k] is RecordCommands) by {
        if k < b.len() {
            assert(a[k] == b[k]);
        } else if k < ri {
            assert(a[k] == q[k - b.len()]);
        } else {
            assert(a[k] == t[k - ri]);
        }
    }
    let w: int = if s.recreate_swapchain_next_frame {
        2
    } else {
        0
    };
    assert(a[w] == b[w]);
    assert(b[w] == (FrameAction::WaitFence { slot: cur }));
}

/// A tick recreates the swapchain exactly where the protocol says, for
/// every input: once at the start when a recreation was scheduled, once more
/// mid-tick only when the first acquire found the chain out of date, and
/// nowhere else. A clean tick with nothing scheduled never touches it.
pub proof fn lemma_tick_recreations_exact(s: FrameSync, inp: TickInput)
    ensures
        ({
            let a = spec_tick_log(s, inp);
            let mid: int = if s.recreate_swapchain_next_frame {
                6
            } else {
                4
            };
            forall|k: int|
                #![trigger a[k]]
                0 <= k < a.len() ==> (a[k] == FrameAction::RecreateSwapchain <==> ((
                s.recreate_swapchain_next_frame && k == 1) || (inp.acquire_first is OutOfDate
                    && k == mid)))
        }),
{
    let cur = spec_cur_slot(s);
    let last = s.last_in_use_i;
    let b = spec_begin_actions(last, cur, s.recreate_swapchain_next_frame);
    let q = spec_acquire_actions(last, cur, inp.acquire_first);
    let t = spec_submit_actions(cur, spec_tick_image_index(inp));
    let a = spec_tick_log(s, inp);
    let mid: int = if s.recreate_swapchain_next_frame {
        6
    } else {
        4
    };
    assert(a == b + q + t);
    assert(mid == b.len() + 2);
    assert forall|k: int|
        #![trigger a[k]]
        0 <= k < a.len() implies (a[k] == FrameAction::RecreateSwapchain <==> ((
    s.recreate_swapchain_next_frame && k == 1) || (inp.acquire_first is OutOfDate && k
        == mid))) by {
        if k < b.len() {
            assert(a[k] == b[k]);
        } else if k < b.len() + q.len() {
            assert(a[k] == q[k - b.len()]);
        } else {
            assert(a[k] == t[k - b.len() - q.len()]);
        }
    }
}

/// Within one tick's log the queue work of the current slot is strictly
/// ordered: commands are recorded first, the compute work is submitted next,
/// then the graphics work (which waits on the slot's image-available and
/// compute-finished semaphores), and the present (which waits on its
/// render-finished semaphore) comes last.
pub proof fn lemma_tick_submission_order(s: FrameSync, inp: TickInput)
    ensures
        ({
            let a = spec_tick_log(s, inp);
            let cur = spec_cur_slot(s);
            let ri = a.len() - 4;
            &&& a[ri as int] == (FrameAction::RecordCommands { slot: cur })
            &&& a[ri + 1] == (FrameAction::SubmitCompute { slot: cur })
            &&& a[ri + 2] == (FrameAction::SubmitGraphics { slot: cur })
            &&& a[ri + 3] == (FrameAction::PresentImage {
                slot: cur,
                image_index: spec_tick_image_index(inp),
            })
        }),
{
    let cur = spec_cur_slot(s);
    let b = spec_begin_actions(s.last_in_use_i, cur, s.recreate_swapchain_next_frame);
    let q = spec_acquire_actions(s.last_in_use_i, cur, inp.acquire_first);
    let t = spec_submit_actions(cur, spec_tick_image_index(inp));
    let a = spec_tick_log(s, inp);
    assert(a == b + q + t);
    let ri = (b.len() + q.len()) as int;
    assert(a[ri] == t[0]);
    assert(a[ri + 1] == t[1]);
    assert(a[ri + 2] == t[2]);
    assert(a[ri + 3] == t[3]);
}

/// Every swapchain recreation in a tick's log stands directly after a wait
/// on the previously used slot's fence, bounding how much in-flight work
/// could still reference the retiring image set.
pub proof fn lemma_recreation_follows_fence_wait(s: FrameSync, inp: TickInput)
    ensures
        forall|k: int|
            #![trigger spec_tick_log(s, inp)[k]]
            0 <= k < spec_tick_log(s, inp).len() && spec_tick_log(s, inp)[k]
                == FrameAction::RecreateSwapchain ==> k >= 1 && spec_tick_log(s, inp)[k - 1]
                == (FrameAction::WaitFence { slot: s.last_in_use_i }),
{
    let cur = spec_cur_slot(s);
    let last = s.last_in_use_i;
    let b = spec_begin_actions(last, cur, s.recreate_swapchain_next_frame);
    let q = spec_acquire_actions(last, cur, inp.acquire_first);
    let t = spec_submit_actions(cur, spec_tick_image_index(inp));
    let a = spec_tick_log(s, inp);
    assert(a == b + q + t);
    assert forall|k: int|
        #![trigger a[k]]
        0 <= k < a.len() && a[k] == FrameAction::RecreateSwapchain implies k >= 1 && a[k - 1]
        == (FrameAction::WaitFence { slot: last }) by {
        if k < b.len() {
            assert(a[k] == b[k]);
            assert(a[k - 1] == b[k - 1]);
        } else if k < b.len() + q.len() {
            assert(a[k] == q[k - b.len()]);
            assert(k - b.len() == 2);
            assert(a[k - 1] == q[k - b.len() - 1]);
        } else {
            assert(a[k] == t[k - b.len() - q.len()]);
        }
    }
}

/// Every recording in a run's concatenated log is preceded, somewhere in the
/// log, by a wait on the same slot's fence.
proof fn lemma_run_record_has_wait(s: FrameSync, inputs: Seq<TickInput>)
    ensures
        forall|k: int, t: usize|
            0 <= k < spec_run_log(s, inputs).len() && spec_run_log(s, inputs)[k]
                == (FrameAction::RecordCommands { slot: t }) ==> exists|m: int|
                0 <= m < k && spec_run_log(s, inputs)[m] == (FrameAction::WaitFence { slot: t }),
    decreases inputs.len(),
{
    if inputs.len() > 0 {
        let first_log = spec_tick_log(s, inputs.first());
        let next = spec_tick_next(s, inputs.first());
        let rest = spec_run_log(next, inputs.drop_first());
        let log = spec_run_log(s, inputs);
        assert(log == first_log + rest);
        lemma_tick_record_gated_by_fence(s, inputs.first());
        lemma_run_record_has_wait(next, inputs.drop_first());
        assert forall|k: int, t: usize|
            0 <= k < log.len() && log[k] == (FrameAction::RecordCommands { slot: t })
                implies exists|m: int|
            0 <= m < k && log[m] == (FrameAction::WaitFence { slot: t }) by {
            if k < first_log.len() {
                assert(log[k] == first_log[k]);
                let cur = spec_cur_slot(s);
                assert(k == first_log.len() - 4);
                assert(t == cur);
                let w = choose|w: int|
                    0 <= w < k && first_log[w] == (FrameAction::WaitFence { slot: cur });
                assert(log[w] == (FrameAction::WaitFence { slot: t }));
            } else {
                let k2 = k - first_log.len();
                assert(rest[k2] == (FrameAction::RecordCommands { slot: t }));
                let m2 = choose|m2: int|
                    0 <= m2 < k2 && rest[m2] == (FrameAction::WaitFence { slot: t });
                assert(log[first_log.len() + m2] == (FrameAction::WaitFence { slot: t }));
            }
        }
    }
}

/// Law of frame-slot reuse: in the concatenated action log of any run of
/// non-fatal ticks, between any two recordings of the same slot's command
/// buffers there stands a wait on that slot's fence, so a slot is never
/// re-recorded before its prior work was observed retired.
pub proof fn lemma_frame_slot_reuse_safe(
    s: FrameSync,
    inputs: Seq<TickInput>,
    k1: int,
    k2: int,
    t: usize,
)
    requires
        0 <= k1 < k2 < spec_run_log(s, inputs).len(),
        spec_run_log(s, inputs)[k1] == (FrameAction::RecordCommands { slot: t }),
        spec_run_log(s, inputs)[k2] == (FrameAction::RecordCommands { slot: t }),
    ensures
        exists|m: int|
            k1 < m < k2 && spec_run_log(s, inputs)[m] == (FrameAction::WaitFence { slot: t }),
    decreases inputs.len(),
{
    let log = spec_run_log(s, inputs);
    let first_log = spec_tick_log(s, inputs.first());
    let next = spec_tick_next(s, inputs.first());
    let rest = spec_run_log(next, inputs.drop_first());
    assert(inputs.len() > 0);
    assert(log == first_log + rest);
    lemma_tick_record_gated_by_fence(s, inputs.first());
    if k2 < first_log.len() {
        assert(log[k1] == first_log[k1]);
        assert(log[k2] == first_log[k2]);
        assert(first_log[k1] is RecordCommands && first_log[k2] is RecordCommands);
        assert(false);
    } else if k1 >= first_log.len() {
        lemma_frame_slot_reuse_safe(
            next,
            inputs.drop_first(),
            k1 - first_log.len(),
            k2 - first_log.len(),
            t,
        );
        let m2 = choose|m2: int|
            k1 - first_log.len() < m2 < k2 - first_log.len() && rest[m2]
                == (FrameAction::WaitFence { slot: t });
        assert(log[first_log.len() + m2] == (FrameAction::WaitFence { slot: t }));
    } else {
        lemma_run_record_has_wait(next, inputs.drop_first());
        let k2r = k2 - first_log.len();
        assert(rest[k2r] == (FrameAction::RecordCommands { slot: t }));
        let m2 = choose|m2: int|
            0 <= m2 < k2r && rest[m2] == (FrameAction::WaitFence { slot: t });
        assert(log[first_log.len() + m2] == (FrameAction::WaitFence { slot: t }));
        assert(k1 < first_log.len() + m2 < k2);
    }
}

} // verus!
