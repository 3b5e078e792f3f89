//! The per-frame decision logic of the renderer: what one redraw does with
//! each possible outcome of acquiring a presentable image (the
//! reconfigure-and-retry-once policy), and the exact byte image of the
//! uniform block that the frame writes.
//!
//! The GPU calls themselves (acquire, record, submit, present) are performed
//! by the surrounding program, strictly in that order, one frame in flight
//! at a time; it consults `acquire_decision` after every acquire attempt.

use vstd::prelude::*;
use vstd::bytes::{spec_u32_to_le_bytes, u32_to_le_bytes};

use crate::camera::Camera;
use crate::linalg::Mat4Bits;

verus! {

/// How one attempt to acquire a presentable image ended.
#[derive(Clone, Copy, PartialEq, Eq, Structural, Debug)]
pub enum AcquireOutcome {
    /// An image was handed back and can be drawn to and presented.
    Acquired,
    /// The surface was lost and must be reconfigured.
    Lost,
    /// The surface no longer matches the window and must be reconfigured.
    Outdated,
    /// No image became available in time.
    Timeout,
    /// The backend is out of memory.
    OutOfMemory,
}

/// Whether the frame has already reconfigured the surface and retried.
#[derive(Clone, Copy, PartialEq, Eq, Structural, Debug)]
pub enum AcquireAttempt {
    First,
    Retry,
}

/// What the renderer does next after an acquire attempt.
#[derive(Clone, Copy, PartialEq, Eq, Structural, Debug)]
pub enum FrameDecision {
    /// Draw into the acquired image, submit, and present it.
    Draw,
    /// Reconfigure the surface and attempt one more acquire.
    ReconfigureAndRetry,
    /// Give the frame up: present nothing, keep the process running, and
    /// let a later resize or redraw self-heal.
    Skip,
}

/// The transient losses that warrant reconfiguring and retrying once.
pub open spec fn transient_loss(outcome: AcquireOutcome) -> bool {
    outcome == AcquireOutcome::Lost || outcome == AcquireOutcome::Outdated
}

/// The acquire policy: success draws; a lost or outdated surface is
/// reconfigured and retried exactly once; everything else skips the frame.
pub open spec fn spec_decision(attempt: AcquireAttempt, outcome: AcquireOutcome) -> FrameDecision {
    if outcome == AcquireOutcome::Acquired {
        FrameDecision::Draw
    } else if attempt == AcquireAttempt::First && transient_loss(outcome) {
        FrameDecision::ReconfigureAndRetry
    } else {
        FrameDecision::Skip
    }
}

/// Decide what this frame does after an acquire attempt ended as `outcome`,
/// exactly the policy of `spec_decision`.
pub fn acquire_decision(attempt: AcquireAttempt, outcome: AcquireOutcome) -> (d: FrameDecision)
    ensures
        d == spec_decision(attempt, outcome),
{
    match outcome {
        AcquireOutcome::Acquired => FrameDecision::Draw,
        AcquireOutcome::Lost | AcquireOutcome::Outdated => {
            match attempt {
                AcquireAttempt::First => FrameDecision::ReconfigureAndRetry,
                AcquireAttempt::Retry => FrameDecision::Skip,
            }
        },
        AcquireOutcome::Timeout | AcquireOutcome::OutOfMemory => FrameDecision::Skip,
    }
}

/// What one whole frame did: how many times the surface was reconfigured
/// and whether an image was presented.
#[derive(Clone, Copy, PartialEq, Eq, Structural, Debug)]
pub struct FrameReport {
    pub reconfigures: u32,
    pub presented: bool,
}

/// One whole frame of the acquire policy, given the outcome of the first
/// acquire attempt and the outcome a retry would see: the surface is
/// reconfigured at most once, an image is presented exactly when the first
/// attempt succeeds or a transient loss is healed by the retry, and the
/// frame never escalates past skipping itself.
pub fn frame_protocol(first: AcquireOutcome, retry: AcquireOutcome) -> (r: FrameReport)
    ensures
        r.reconfigures == if transient_loss(first) {
            1int
        } else {
            0int
        },
        r.presented == (first == AcquireOutcome::Acquired || (transient_loss(first)
            && retry == AcquireOutcome::Acquired)),
{
    match acquire_decision(AcquireAttempt::First, first) {
        FrameDecision::Draw => FrameReport { reconfigures: 0, presented: true },
        FrameDecision::Skip => FrameReport { reconfigures: 0, presented: false },
        FrameDecision::ReconfigureAndRetry => {
            match acquire_decision(AcquireAttempt::Retry, retry) {
                FrameDecision::Draw => FrameReport { reconfigures: 1, presented: true },
                _ => FrameReport { reconfigures: 1, presented: false },
            }
        },
    }
}

/// The little-endian byte image of a sequence of 32-bit words.
pub open spec fn words_le_bytes(words: Seq<u32>) -> Seq<u8>
    decreases words.len(),
{
    if words.len() == 0 {
        Seq::empty()
    } else {
        words_le_bytes(words.drop_last()) + spec_u32_to_le_bytes(words.last())
    }
}

/// The 64-byte image of the uniform block: the sixteen matrix entries in
/// column-major order, each as four little-endian bytes.
pub open spec fn mat4_le_bytes(m: Mat4Bits) -> Seq<u8> {
    words_le_bytes(m.entries@)
}

/// Serialise the view-projection matrix into the exact 64 bytes written
/// into the uniform buffer each frame.
pub fn uniform_bytes(m: &Mat4Bits) -> (b: Vec<u8>)
    ensures
        b@ == mat4_le_bytes(*m),
        b@.len() == 64,
{
    let mut out: Vec<u8> = Vec::new();
    let mut i: usize = 0;
    while i < 16
        invariant
            i <= 16,
            out@ == words_le_bytes(m.entries@.take(i as int)),
            out@.len() == 4 * i,
        decreases 16 - i,
    {
        let mut word = u32_to_le_bytes(m.entries[i]);
        proof {
            assert(m.entries@.take(i + 1).drop_last() =~= m.entries@.take(i as int));
            assert(m.entries@.take(i + 1).last() == m.entries@[i as int]);
        }
        out.append(&mut word);
        i = i + 1;
    }
    proof {
        assert(m.entries@.take(16) =~= m.entries@);
    }
    out
}

/// The per-frame uniform contents for the current camera: the bytes of
/// `projection * view`.
pub fn frame_uniform(camera: &Camera) -> (b: Vec<u8>)
    ensures
        b@ == mat4_le_bytes(camera.spec_view_proj()),
        b@.len() == 64,
{
    let m = camera.view_proj_matrix();
    uniform_bytes(&m)
}

} // verus!
