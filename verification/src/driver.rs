//! The render cycle driver: a state machine that owns every decision of one
//! render cycle — skip without a surface, write only after a successful
//! lock, unlock-and-present exactly once per successful lock, and release
//! the window on every exit path.
//!
//! The platform calls themselves (acquire, geometry query, lock, present,
//! release) are performed by the surroundings, which drive the machine step
//! by step and report each call's result. The machine records the calls it
//! has commanded in a ghost trace, over which the protocol's laws are proved.

use vstd::prelude::*;
use crate::format::{PixelFormat, spec_bytes_per_pixel};
use crate::rect::{Rect, clamp_nonempty, clamped_right, clamped_bottom, clamp_rect};
use crate::blit::{spec_blit, draw_rect_into_buffer};

verus! {

/// One platform call the render cycle instructs its surroundings to make.
#[derive(Clone, Copy, PartialEq, Eq, Structural, Debug)]
pub enum PlatformCall {
    Acquire,
    QueryGeometry,
    SetBuffersGeometry,
    Lock,
    Blit,
    UnlockAndPresent,
    Release,
}

/// How a finished render cycle ended.
#[derive(Clone, Copy, PartialEq, Eq, Structural, Debug)]
pub enum CycleOutcome {
    /// No surface was available; the cycle was a no-op.
    SkippedNoSurface,
    /// The lock attempt returned a negative status; the write phase was
    /// skipped and the window released.
    LockFailed { status: i32 },
    /// The buffer was locked, presented and the window released. A negative
    /// present status is carried here but does not change the cycle's path.
    Completed { present_status: i32 },
}

/// An error of the write phase, reported without derailing the cycle.
#[derive(Clone, Copy, PartialEq, Eq, Structural, Debug)]
pub enum BlitError {
    /// The requested rectangle does not intersect the window: clamping it
    /// to the geometry leaves nothing to paint.
    InvalidRectangle,
}

/// Where a render cycle stands.
#[derive(Clone, Copy, PartialEq, Eq, Structural, Debug)]
pub enum Phase {
    /// Created, not yet triggered.
    Idle,
    /// The acquire and the geometry query have been commanded.
    Acquired,
    /// Buffer geometry negotiation and the lock attempt have been commanded.
    GeometrySet,
    /// The lock succeeded; the buffer is open for the write phase.
    Locked { blitted: bool },
    /// The cycle is over.
    Done { outcome: CycleOutcome },
}

/// The calls every cycle that got as far as a lock attempt has commanded.
pub open spec fn lock_path_trace() -> Seq<PlatformCall> {
    seq![
        PlatformCall::Acquire,
        PlatformCall::QueryGeometry,
        PlatformCall::SetBuffersGeometry,
        PlatformCall::Lock,
    ]
}

/// One render cycle against one window handle.
pub struct RenderCycle {
    /// Where the cycle stands.
    pub phase: Phase,
    /// The window width recorded at the geometry step.
    pub width: u32,
    /// The window height recorded at the geometry step.
    pub height: u32,
    /// The pixel format the buffer was negotiated with.
    pub format: PixelFormat,
    /// The status the platform's lock attempt returned, once reported.
    pub lock_status: Option<i32>,
    /// Every platform call the machine has commanded so far, in order.
    pub calls: Ghost<Seq<PlatformCall>>,
}

impl RenderCycle {
    /// The machine's invariant: the phase determines the command trace, and
    /// a held lock always has a non-negative recorded status.
    pub open spec fn wf(self) -> bool {
        match self.phase {
            Phase::Idle => self.calls@ == Seq::<PlatformCall>::empty() && self.lock_status
                is None,
            Phase::Acquired => self.calls@ == seq![
                PlatformCall::Acquire,
                PlatformCall::QueryGeometry,
            ] && self.lock_status is None,
            Phase::GeometrySet => self.calls@ == lock_path_trace() && self.lock_status is None,
            Phase::Locked { blitted } => (self.lock_status matches Some(s) && s >= 0) && (if blitted {
                self.calls@ == lock_path_trace().push(PlatformCall::Blit)
            } else {
                self.calls@ == lock_path_trace()
            }),
            Phase::Done { outcome } => match outcome {
                CycleOutcome::SkippedNoSurface => self.calls@ == Seq::<PlatformCall>::empty()
                    && self.lock_status is None,
                CycleOutcome::LockFailed { status } => self.lock_status == Some(status) && status
                    < 0 && self.calls@ == lock_path_trace().push(PlatformCall::Release),
                CycleOutcome::Completed { .. } => (self.lock_status matches Some(s) && s >= 0) && (
                self.calls@ == lock_path_trace() + seq![
                    PlatformCall::UnlockAndPresent,
                    PlatformCall::Release,
                ] || self.calls@ == lock_path_trace() + seq![
                    PlatformCall::Blit,
                    PlatformCall::UnlockAndPresent,
                    PlatformCall::Release,
                ]),
            },
        }
    }

    /// Begin a render cycle: nothing commanded yet.
    pub fn new() -> (rc: RenderCycle)
        ensures
            rc.wf(),
            rc.phase == Phase::Idle,
            rc.calls@ == Seq::<PlatformCall>::empty(),
    {
        RenderCycle {
            phase: Phase::Idle,
            width: 0,
            height: 0,
            format: PixelFormat::R8G8B8A8Unorm,
            lock_status: None,
            calls: Ghost(Seq::empty()),
        }
    }

    /// Step 1: a trigger arrived. Without a surface the cycle is a no-op;
    /// with one, the surroundings must acquire the window handle and query
    /// its geometry. Returns whether to proceed.
    pub fn trigger(&mut self, have_surface: bool) -> (proceed: bool)
        requires
            old(self).wf(),
            old(self).phase == Phase::Idle,
        ensures
            final(self).wf(),
            proceed == have_surface,
            have_surface ==> final(self).phase == Phase::Acquired && final(self).calls@ == old(self).calls@ + seq![PlatformCall::Acquire, PlatformCall::QueryGeometry],
            !have_surface ==> final(self).phase == (Phase::Done {
                outcome: CycleOutcome::SkippedNoSurface,
            }) && final(self).calls@ == old(self).calls@,
            final(self).lock_status is None,
    {
        if have_surface {
            self.phase = Phase::Acquired;
            self.calls = Ghost(
                self.calls@ + seq![PlatformCall::Acquire, PlatformCall::QueryGeometry],
            );
            proof {
                assert(self.calls@ =~= seq![PlatformCall::Acquire, PlatformCall::QueryGeometry]);
            }
            true
        } else {
            self.phase = Phase::Done { outcome: CycleOutcome::SkippedNoSurface };
            false
        }
    }

    /// Steps 2-4: record the geometry the surroundings queried and the pixel
    /// format resolved for the buffer, and command the buffer-geometry
    /// negotiation followed by the lock attempt.
    pub fn set_geometry(&mut self, width: u32, height: u32, format: PixelFormat)
        requires
            old(self).wf(),
            old(self).phase == Phase::Acquired,
        ensures
            final(self).wf(),
            final(self).phase == Phase::GeometrySet,
            final(self).width == width,
            final(self).height == height,
            final(self).format == format,
            final(self).calls@ == old(self).calls@ + seq![
                PlatformCall::SetBuffersGeometry,
                PlatformCall::Lock,
            ],
            final(self).lock_status is None,
    {
        self.width = width;
        self.height = height;
        self.format = format;
        self.phase = Phase::GeometrySet;
        self.calls = Ghost(
            self.calls@ + seq![PlatformCall::SetBuffersGeometry, PlatformCall::Lock],
        );
        proof {
            assert(self.calls@ =~= lock_path_trace());
        }
    }

    /// Step 5: the platform's lock attempt returned `status`. Any negative
    /// status means the lock failed: the write phase is skipped and the
    /// surroundings must release the window now — and must never
    /// unlock/present. A non-negative status means the buffer is locked.
    /// Returns whether the cycle holds a locked buffer.
    pub fn lock_result(&mut self, status: i32) -> (locked: bool)
        requires
            old(self).wf(),
            old(self).phase == Phase::GeometrySet,
        ensures
            final(self).wf(),
            locked == (status >= 0),
            final(self).lock_status == Some(status),
            final(self).width == old(self).width,
            final(self).height == old(self).height,
            final(self).format == old(self).format,
            status >= 0 ==> final(self).phase == (Phase::Locked { blitted: false }) && final(self).calls@ == old(self).calls@,
            status < 0 ==> final(self).phase == (Phase::Done {
                outcome: CycleOutcome::LockFailed { status },
            }) && final(self).calls@ == old(self).calls@.push(PlatformCall::Release),
    {
        self.lock_status = Some(status);
        if status >= 0 {
            self.phase = Phase::Locked { blitted: false };
            true
        } else {
            self.phase = Phase::Done { outcome: CycleOutcome::LockFailed { status } };
            self.calls = Ghost(self.calls@.push(PlatformCall::Release));
            false
        }
    }

    /// Steps 6-7: the write phase. Clamps the requested rectangle to the
    /// recorded geometry and paints the color into the locked buffer's byte
    /// region, handed over by the surroundings together with its stride
    /// (pixels per row, at least the window width). Rejects a rectangle
    /// that does not intersect the window without touching the buffer; the
    /// cycle then still proceeds to unlock-and-present and release.
    pub fn blit(&mut self, bits: &mut Vec<u8>, colors: &Vec<u8>, rect: &Rect, stride: u32) -> (r:
        Result<(), BlitError>)
        requires
            old(self).wf(),
            old(self).phase == (Phase::Locked { blitted: false }),
            colors@.len() == spec_bytes_per_pixel(old(self).format),
            old(self).width <= stride,
            old(bits)@.len() >= stride as int * old(self).height as int * colors@.len(),
        ensures
            final(self).wf(),
            final(self).width == old(self).width,
            final(self).height == old(self).height,
            final(self).format == old(self).format,
            final(self).lock_status == old(self).lock_status,
            r is Ok <==> clamp_nonempty(*rect, old(self).width as int, old(self).height as int),
            r is Ok ==> final(self).phase == (Phase::Locked { blitted: true }) && final(self).calls@ == old(self).calls@.push(PlatformCall::Blit) && final(bits)@ == spec_blit(
                old(bits)@,
                colors@,
                Rect {
                    top: rect.top,
                    left: rect.left,
                    bottom: clamped_bottom(*rect, old(self).height as int) as u32,
                    right: clamped_right(*rect, old(self).width as int) as u32,
                },
                stride as int,
            ),
            r is Err ==> final(self).phase == old(self).phase && final(self).calls@ == old(self).calls@ && final(bits)@ == old(bits)@ && r == Err::<(), BlitError>(
                BlitError::InvalidRectangle,
            ),
    {
        match clamp_rect(rect, self.width, self.height) {
            Some(clamped) => {
                draw_rect_into_buffer(bits, colors, &clamped, stride, self.height);
                self.phase = Phase::Locked { blitted: true };
                self.calls = Ghost(self.calls@.push(PlatformCall::Blit));
                Ok(())
            },
            None => Err(BlitError::InvalidRectangle),
        }
    }

    /// Steps 8-9: command the unlock-and-present followed by the
    /// unconditional release of the window handle, and record the present
    /// status the surroundings report. A negative present status is carried
    /// in the outcome but is not escalated: the release happens regardless.
    pub fn finish(&mut self, present_status: i32) -> (outcome: CycleOutcome)
        requires
            old(self).wf(),
            old(self).phase is Locked,
        ensures
            final(self).wf(),
            outcome == (CycleOutcome::Completed { present_status }),
            final(self).phase == (Phase::Done { outcome }),
            final(self).calls@ == old(self).calls@ + seq![
                PlatformCall::UnlockAndPresent,
                PlatformCall::Release,
            ],
            final(self).lock_status == old(self).lock_status,
    {
        self.phase = Phase::Done { outcome: CycleOutcome::Completed { present_status } };
        self.calls = Ghost(
            self.calls@ + seq![PlatformCall::UnlockAndPresent, PlatformCall::Release],
        );
        let outcome = CycleOutcome::Completed { present_status };
        proof {
            if old(self).calls@ == lock_path_trace() {
                assert(self.calls@ =~= lock_path_trace() + seq![
                    PlatformCall::UnlockAndPresent,
                    PlatformCall::Release,
                ]);
            } else {
                assert(self.calls@ =~= lock_path_trace() + seq![
                    PlatformCall::Blit,
                    PlatformCall::UnlockAndPresent,
                    PlatformCall::Release,
                ]);
            }
        }
        outcome
    }
}

/// The number of occurrences of one platform call in a command trace.
pub open spec fn count_calls(s: Seq<PlatformCall>, c: PlatformCall) -> int
    decreases s.len(),
{
    if s.len() <= 0 {
        0
    } else {
        count_calls(s.drop_last(), c) + if s.last() == c {
            1int
        } else {
            0int
        }
    }
}

/// Acquire/release balance: however a render cycle ended — skipped, lock
/// failed, or completed — its command trace holds exactly as many release
/// commands as acquire commands.
pub proof fn lemma_acquire_release_balance(rc: RenderCycle)
    requires
        rc.wf(),
        rc.phase is Done,
    ensures
        count_calls(rc.calls@, PlatformCall::Acquire) == count_calls(
            rc.calls@,
            PlatformCall::Release,
        ),
{
    reveal_with_fuel(count_calls, 9);
}

/// Lock/present pairing: a finished render cycle commanded
/// unlock-and-present exactly when its lock attempt was made and returned a
/// non-negative status.
pub proof fn lemma_lock_present_pairing(rc: RenderCycle)
    requires
        rc.wf(),
        rc.phase is Done,
    ensures
        rc.calls@.contains(PlatformCall::UnlockAndPresent) <==> (rc.lock_status matches Some(s)
            && s >= 0),
{
    match rc.phase {
        Phase::Done { outcome } => match outcome {
            CycleOutcome::SkippedNoSurface => {
                assert(rc.calls@.len() == 0);
                assert(!rc.calls@.contains(PlatformCall::UnlockAndPresent));
            },
            CycleOutcome::LockFailed { status } => {
                assert forall|i: int|
                    0 <= i < rc.calls@.len() implies rc.calls@[i]
                    != PlatformCall::UnlockAndPresent by {}
                assert(!rc.calls@.contains(PlatformCall::UnlockAndPresent));
            },
            CycleOutcome::Completed { .. } => {
                if rc.calls@ == lock_path_trace() + seq![
                    PlatformCall::UnlockAndPresent,
                    PlatformCall::Release,
                ] {
                    assert(rc.calls@[4] == PlatformCall::UnlockAndPresent);
                } else {
                    assert(rc.calls@[5] == PlatformCall::UnlockAndPresent);
                }
                assert(rc.calls@.contains(PlatformCall::UnlockAndPresent));
            },
        },
        _ => {},
    }
}

/// A failed lock skips the write phase: the trace of a cycle that ended in
/// `LockFailed` holds no blit command and exactly one release command.
pub proof fn lemma_lock_failed_no_blit(rc: RenderCycle)
    requires
        rc.wf(),
        rc.phase matches Phase::Done { outcome } && outcome is LockFailed,
    ensures
        !rc.calls@.contains(PlatformCall::Blit),
        count_calls(rc.calls@, PlatformCall::Release) == 1,
{
    reveal_with_fuel(count_calls, 9);
    assert forall|i: int| 0 <= i < rc.calls@.len() implies rc.calls@[i] != PlatformCall::Blit by {}
}

} // verus!
