//! Model of the per-track sample pipeline: the ordered stage stack that the
//! audio-render thread drives.
//!
//! Stage order, outer to inner: stop-gate, skip-gate, gain, pause-gate,
//! position-tracker, speed (fixed at unity), decoder.  The model keeps one
//! field per stage that carries state and exposes exactly the operations the
//! periodic tap may apply: `stop`, `skip`, `pos`, `set_volume`, `set_paused`
//! and `try_seek`.  Sample production itself is summarised by `advance`,
//! which accounts for a span of samples the way the stack hands them out:
//! gates first, then silence under pause, then real progress under the
//! position tracker, clamped at the decoder's end.

use vstd::prelude::*;

verus! {

/// The gain factor that a fresh pipeline starts with: unity, in hundredths.
pub const VOLUME_UNITY: u32 = 100;

/// Raised when the decoder backend cannot reposition the stream.
/// Non-fatal: the caller's position simply does not change.
#[derive(Clone, Copy, Debug, PartialEq, Eq, Structural)]
pub enum SeekError {
    NotSupported,
}

/// One open stream's worth of pipeline state.  A `Pipeline` stands for a
/// single decoder resource: it is created when a track is loaded and
/// replaced whole when the next track starts.
pub struct Pipeline {
    /// Stop-gate (outermost): once set the stream is permanently exhausted.
    pub stopped: bool,
    /// Skip-gate: same terminal effect as `stopped`, distinct intent.
    pub skipped: bool,
    /// Gain factor in hundredths.  The stage itself does not clamp;
    /// clamping to `[0, 100]` is the `Player`'s contract.
    pub volume: u32,
    /// Pause-gate: while set the stage yields silence at the same rate, so
    /// the device clock keeps running but no sample reaches the tracker.
    pub paused: bool,
    /// Position-tracker: play time consumed beneath the pause-gate, ms.
    pub position_ms: u64,
    /// What the decoder reported as the track's length, ms.
    pub length_ms: u64,
    /// Whether the decoder backend supports repositioning.
    pub seekable: bool,
}

impl Pipeline {
    /// The tracker never runs past the decoder's end.
    pub open spec fn wf(self) -> bool {
        self.position_ms <= self.length_ms
    }

    /// No more samples will ever come out: a gate fired, or the decoder
    /// reached its natural end.
    pub open spec fn exhausted(self) -> bool {
        self.stopped || self.skipped || self.position_ms == self.length_ms
    }

    /// Where a seek to `target_ms` actually lands: the decoder clamps to
    /// the track's bounds.
    pub open spec fn seek_landing(self, target_ms: u64) -> u64 {
        if target_ms >= self.length_ms {
            self.length_ms
        } else {
            target_ms
        }
    }

    /// What one span of `delta_ms` of rendering does to the stack: nothing
    /// once exhausted, silence (no tracker progress) under pause, and
    /// otherwise progress clamped at the decoder's end.
    pub open spec fn spec_advance(self, delta_ms: u64) -> Pipeline {
        if self.exhausted() || self.paused {
            self
        } else if self.position_ms + delta_ms >= self.length_ms {
            (Pipeline { position_ms: self.length_ms, ..self })
        } else {
            (Pipeline { position_ms: (self.position_ms + delta_ms) as u64, ..self })
        }
    }

    /// A fresh stack over a newly opened decoder: at the start of the
    /// track, running, unity gain, nothing gated.
    pub fn new(length_ms: u64, seekable: bool) -> (p: Pipeline)
        ensures
            p == (Pipeline {
                stopped: false,
                skipped: false,
                volume: VOLUME_UNITY,
                paused: false,
                position_ms: 0,
                length_ms,
                seekable,
            }),
            p.wf(),
    {
        Pipeline {
            stopped: false,
            skipped: false,
            volume: VOLUME_UNITY,
            paused: false,
            position_ms: 0,
            length_ms,
            seekable,
        }
    }

    /// Marks the stream permanently exhausted.  Irreversible: nothing
    /// un-stops a stopped stream.
    pub fn stop(&mut self)
        ensures
            *final(self) == (Pipeline { stopped: true, ..*old(self) }),
    {
        self.stopped = true;
    }

    /// Terminal like `stop`, but carries the intent "move on": the driving
    /// loop advances the queue either way.
    pub fn skip(&mut self)
        ensures
            *final(self) == (Pipeline { skipped: true, ..*old(self) }),
    {
        self.skipped = true;
    }

    /// The position tracker's reading, queried non-destructively.
    pub fn pos(&self) -> (p: u64)
        ensures
            p == self.position_ms,
    {
        self.position_ms
    }

    /// Sets the gain factor (hundredths).  The stage takes any factor; the
    /// `Player` is the one that clamps.
    pub fn set_volume(&mut self, factor: u32)
        ensures
            *final(self) == (Pipeline { volume: factor, ..*old(self) }),
    {
        self.volume = factor;
    }

    /// Opens or closes the pause-gate.  Position is untouched either way:
    /// paused time yields silence, not progress.
    pub fn set_paused(&mut self, paused: bool)
        ensures
            *final(self) == (Pipeline { paused, ..*old(self) }),
    {
        self.paused = paused;
    }

    /// Repositions through the innermost stages, bypassing the gates: gain
    /// and pause state are untouched.  Fails, changing nothing, when the
    /// backend cannot reposition; succeeds onto the clamped target
    /// otherwise.
    pub fn try_seek(&mut self, position_ms: u64) -> (r: Result<(), SeekError>)
        requires
            old(self).wf(),
        ensures
            final(self).wf(),
            !old(self).seekable ==> r is Err && *final(self) == *old(self),
            old(self).seekable ==> r is Ok && *final(self) == (Pipeline {
                position_ms: old(self).seek_landing(position_ms),
                ..*old(self)
            }),
    {
        if self.seekable {
            if position_ms >= self.length_ms {
                self.position_ms = self.length_ms;
            } else {
                self.position_ms = position_ms;
            }
            Ok(())
        } else {
            Err(SeekError::NotSupported)
        }
    }

    /// Renders one span of `delta_ms`.  Returns whether the stream was
    /// still live when the span was demanded; the state moves exactly as
    /// `spec_advance` says.
    pub fn advance(&mut self, delta_ms: u64) -> (live: bool)
        requires
            old(self).wf(),
        ensures
            final(self).wf(),
            live == !old(self).exhausted(),
            *final(self) == old(self).spec_advance(delta_ms),
    {
        if self.stopped || self.skipped || self.position_ms == self.length_ms {
            false
        } else if self.paused {
            true
        } else {
            let remaining = self.length_ms - self.position_ms;
            if delta_ms >= remaining {
                self.position_ms = self.length_ms;
            } else {
                self.position_ms = self.position_ms + delta_ms;
            }
            true
        }
    }
}

/// `n` successive rendering spans of `delta_ms` each.
pub open spec fn spec_advance_n(p: Pipeline, delta_ms: u64, n: nat) -> Pipeline
    decreases n,
{
    if n == 0 {
        p
    } else {
        spec_advance_n(p, delta_ms, (n - 1) as nat).spec_advance(delta_ms)
    }
}

/// Law: paused time does not advance position.  While the pause-gate is
/// closed, any amount of rendering — any number of spans of any width —
/// leaves the whole pipeline state, the position tracker included, exactly
/// where it was.
pub proof fn lemma_paused_time_does_not_advance_position(p: Pipeline, delta_ms: u64, n: nat)
    requires
        p.paused,
    ensures
        spec_advance_n(p, delta_ms, n) == p,
    decreases n,
{
    if n > 0 {
        lemma_paused_time_does_not_advance_position(p, delta_ms, (n - 1) as nat);
    }
}

/// Law: rendering never runs past the track.  However many spans are
/// rendered, the tracker stays within the decoder's bounds.
pub proof fn lemma_advance_stays_in_bounds(p: Pipeline, delta_ms: u64, n: nat)
    requires
        p.wf(),
    ensures
        spec_advance_n(p, delta_ms, n).wf(),
    decreases n,
{
    if n > 0 {
        lemma_advance_stays_in_bounds(p, delta_ms, (n - 1) as nat);
    }
}

} // verus!
