//! Pending-command slots between the control surface and the periodic tap.
//!
//! A control call never touches the live pipeline: it files a request here,
//! and the audio-render thread's tap drains the slots on its own cadence.
//! There is at most one pending request per kind; a later request of the
//! same kind overwrites an earlier unapplied one (coalescing — the UI's
//! responsiveness is worth more than command history).

use vstd::prelude::*;

use crate::pipeline::Pipeline;

verus! {

/// A one-shot command for the next tap firing.
#[derive(Clone, Copy, Debug)]
pub enum PipelineRequest {
    Stop,
    Skip,
    Seek(u64),
    SetVolume(u32),
    SetPaused(bool),
}

impl PipelineRequest {
    /// Two requests coalesce exactly when they are of the same kind.
    pub open spec fn same_kind(self, other: PipelineRequest) -> bool {
        match (self, other) {
            (PipelineRequest::Stop, PipelineRequest::Stop) => true,
            (PipelineRequest::Skip, PipelineRequest::Skip) => true,
            (PipelineRequest::Seek(_), PipelineRequest::Seek(_)) => true,
            (PipelineRequest::SetVolume(_), PipelineRequest::SetVolume(_)) => true,
            (PipelineRequest::SetPaused(_), PipelineRequest::SetPaused(_)) => true,
            _ => false,
        }
    }
}

/// One slot per request kind, each holding the most recent unapplied
/// request of that kind.
pub struct RequestSlots {
    pub stop: bool,
    pub skip: bool,
    pub seek: Option<u64>,
    pub volume: Option<u32>,
    pub paused: Option<bool>,
}

impl RequestSlots {
    /// The slots with no request of any kind pending.
    pub open spec fn spec_empty() -> RequestSlots {
        RequestSlots { stop: false, skip: false, seek: None, volume: None, paused: None }
    }

    /// No request of any kind is pending.
    pub open spec fn is_empty(self) -> bool {
        &&& !self.stop
        &&& !self.skip
        &&& self.seek is None
        &&& self.volume is None
        &&& self.paused is None
    }

    /// What filing a request leaves behind: that kind's slot overwritten,
    /// every other slot untouched.
    pub open spec fn spec_submit(self, request: PipelineRequest) -> RequestSlots {
        match request {
            PipelineRequest::Stop => RequestSlots { stop: true, ..self },
            PipelineRequest::Skip => RequestSlots { skip: true, ..self },
            PipelineRequest::Seek(t) => RequestSlots { seek: Some(t), ..self },
            PipelineRequest::SetVolume(v) => RequestSlots { volume: Some(v), ..self },
            PipelineRequest::SetPaused(b) => RequestSlots { paused: Some(b), ..self },
        }
    }

    /// What draining the slots into a pipeline leaves of the pipeline:
    /// each pending request applied through its control, the seek clamped
    /// by the decoder and swallowed when the backend cannot reposition,
    /// the terminal gates last.
    pub open spec fn spec_apply(self, p: Pipeline) -> Pipeline {
        let with_volume = match self.volume {
            Some(v) => Pipeline { volume: v, ..p },
            None => p,
        };
        let with_paused = match self.paused {
            Some(b) => Pipeline { paused: b, ..with_volume },
            None => with_volume,
        };
        let with_seek = match self.seek {
            Some(t) => if with_paused.seekable {
                Pipeline { position_ms: with_paused.seek_landing(t), ..with_paused }
            } else {
                with_paused
            },
            None => with_paused,
        };
        let with_skip = if self.skip {
            Pipeline { skipped: true, ..with_seek }
        } else {
            with_seek
        };
        if self.stop {
            Pipeline { stopped: true, ..with_skip }
        } else {
            with_skip
        }
    }

    pub fn new() -> (s: RequestSlots)
        ensures
            s == RequestSlots::spec_empty(),
            s.is_empty(),
    {
        RequestSlots { stop: false, skip: false, seek: None, volume: None, paused: None }
    }

    /// Files a request for the next tap.  Later requests of the same kind
    /// overwrite earlier unapplied ones; other kinds are untouched.
    pub fn submit(&mut self, request: PipelineRequest)
        ensures
            *final(self) == old(self).spec_submit(request),
    {
        match request {
            PipelineRequest::Stop => {
                self.stop = true;
            },
            PipelineRequest::Skip => {
                self.skip = true;
            },
            PipelineRequest::Seek(t) => {
                self.seek = Some(t);
            },
            PipelineRequest::SetVolume(v) => {
                self.volume = Some(v);
            },
            PipelineRequest::SetPaused(b) => {
                self.paused = Some(b);
            },
        }
    }

    /// Drops everything pending without applying it, as when the pipeline
    /// the requests were meant for is torn down.
    pub fn clear(&mut self)
        ensures
            *final(self) == RequestSlots::spec_empty(),
            final(self).is_empty(),
    {
        self.stop = false;
        self.skip = false;
        self.seek = None;
        self.volume = None;
        self.paused = None;
    }

    /// The tap's drain: applies at most one pending request of each kind
    /// through the pipeline's controls and empties the slots.  A seek the
    /// backend refuses is swallowed (the position simply does not change),
    /// exactly as `spec_apply` states.
    pub fn apply(&mut self, pipeline: &mut Pipeline)
        requires
            old(pipeline).wf(),
        ensures
            final(self).is_empty(),
            final(pipeline).wf(),
            *final(pipeline) == old(self).spec_apply(*old(pipeline)),
    {
        match self.volume {
            Some(v) => pipeline.set_volume(v),
            None => {},
        }
        match self.paused {
            Some(b) => pipeline.set_paused(b),
            None => {},
        }
        match self.seek {
            Some(t) => {
                let _ = pipeline.try_seek(t);
            },
            None => {},
        }
        if self.skip {
            pipeline.skip();
        }
        if self.stop {
            pipeline.stop();
        }
        self.clear();
    }
}

/// Law: coalescing is last-writer-wins per kind.  Filing two requests of
/// the same kind within one tap interval leaves exactly the slots that the
/// later request alone would have left, so only the later one is ever
/// applied.
pub proof fn lemma_later_request_wins(
    s: RequestSlots,
    first: PipelineRequest,
    second: PipelineRequest,
)
    requires
        first.same_kind(second),
    ensures
        s.spec_submit(first).spec_submit(second) == s.spec_submit(second),
{
}

/// Law: a pause request reaches the pause-gate: whatever else is pending,
/// the tap that drains a `SetPaused(b)` request leaves that stage at `b`.
pub proof fn lemma_pause_request_reaches_gate(s: RequestSlots, p: Pipeline, b: bool)
    ensures
        s.spec_submit(PipelineRequest::SetPaused(b)).spec_apply(p).paused == b,
{
}

/// Law: a volume request reaches the gain stage: the tap that drains a
/// `SetVolume(v)` request leaves the stage's factor at `v`.
pub proof fn lemma_volume_request_reaches_gain(s: RequestSlots, p: Pipeline, v: u32)
    ensures
        s.spec_submit(PipelineRequest::SetVolume(v)).spec_apply(p).volume == v,
{
}

/// Law: a seek request reaches the position tracker when the backend can
/// reposition, landing on the target clamped to the track's bounds, and
/// touches neither the gain nor the pause state.
pub proof fn lemma_seek_request_reaches_tracker(s: RequestSlots, p: Pipeline, target_ms: u64)
    ensures
        p.seekable ==> s.spec_submit(PipelineRequest::Seek(target_ms)).spec_apply(p).position_ms
            == p.seek_landing(target_ms),
        !p.seekable ==> s.spec_submit(PipelineRequest::Seek(target_ms)).spec_apply(p).position_ms
            == p.position_ms,
{
}

/// Law: of two seeks filed within one tap interval, only the later target
/// is applied to the pipeline.
pub proof fn lemma_seek_requests_coalesce(
    s: RequestSlots,
    p: Pipeline,
    first: u64,
    second: u64,
)
    ensures
        s.spec_submit(PipelineRequest::Seek(first)).spec_submit(
            PipelineRequest::Seek(second),
        ).spec_apply(p) == s.spec_submit(PipelineRequest::Seek(second)).spec_apply(p),
{
}

} // verus!
