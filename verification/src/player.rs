//! The `Player`: owner of the queue, the current pipeline, and the control
//! surface that the UI thread and the command bus call into.
//!
//! Control calls never touch the live pipeline directly; they update the
//! player's intent and file a request in the pending slots, which the
//! audio-render thread's periodic tap drains (`tap`).  The driving loop is
//! modelled by `render_tick` (pull one span of samples), `next_track` (ask
//! the queue what follows) and `finish_track` (tear the pipeline down);
//! the caller that runs the real loop decodes the next track and hands it
//! back through `play_now`.

use vstd::prelude::*;

use crate::pipeline::{Pipeline, VOLUME_UNITY};
use crate::queue::{find_from, Queue, Track};
use crate::request::{PipelineRequest, RequestSlots};

verus! {

/// How far one seek control call moves the position, in milliseconds.
pub const SEEK_STEP_MS: u64 = 5000;

/// The player's coarse transport state.
#[derive(Clone, Copy, Debug, PartialEq, Eq, Structural)]
pub enum PlayerStatus {
    Idle,
    Playing,
    Paused,
}

/// The track being played and the pipeline instance opened for it.  The
/// pipeline is exclusively owned here and is replaced whole when another
/// track starts.
pub struct CurrentTrack {
    pub track: Track,
    pub pipeline: Pipeline,
}

/// A copy of the player's observable state, taken under the lock and read
/// by the UI after releasing it.
pub struct PlaybackState {
    pub current_track: Option<Track>,
    pub position_ms: u64,
    pub paused: bool,
    pub volume: u32,
    pub stopped: bool,
}

/// Where a forward seek from `pos` on a track of length `len` is aimed:
/// one step further, clamped to the end of the track.
pub open spec fn seek_forward_target(pos: u64, len: u64) -> u64
    recommends
        pos <= len,
{
    if pos + SEEK_STEP_MS >= len {
        len
    } else {
        (pos + SEEK_STEP_MS) as u64
    }
}

/// Where a backward seek from `pos` is aimed: one step back, clamped to
/// the start of the track.
pub open spec fn seek_backward_target(pos: u64) -> u64 {
    if pos <= SEEK_STEP_MS {
        0
    } else {
        (pos - SEEK_STEP_MS) as u64
    }
}

/// A volume factor pushed back into `[0, 100]` hundredths.
pub open spec fn clamped_volume(v: int) -> int {
    if v < 0 {
        0
    } else if v > VOLUME_UNITY {
        VOLUME_UNITY as int
    } else {
        v
    }
}

pub struct Player {
    pub queue: Queue,
    /// The volume the listener asked for, clamped; applied to every
    /// pipeline this player opens.
    pub volume: u32,
    /// The pause intent; the pipeline's gate follows it at the next tap.
    pub paused: bool,
    pub current: Option<CurrentTrack>,
    pub slots: RequestSlots,
}

impl Player {
    /// The player's invariant: the queue is well formed, every volume in
    /// flight is clamped, and the current pipeline (when there is one)
    /// is in bounds and belongs to the current track.
    pub open spec fn wf(self) -> bool {
        &&& self.queue.wf()
        &&& self.volume <= VOLUME_UNITY
        &&& (self.slots.volume matches Some(v) ==> v <= VOLUME_UNITY)
        &&& (self.current matches Some(c) ==> {
            &&& c.pipeline.wf()
            &&& c.pipeline.length_ms == c.track.length_ms
            &&& c.pipeline.volume <= VOLUME_UNITY
        })
    }

    pub open spec fn spec_status(self) -> PlayerStatus {
        if self.current is None {
            PlayerStatus::Idle
        } else if self.paused {
            PlayerStatus::Paused
        } else {
            PlayerStatus::Playing
        }
    }

    /// The position the UI shows: the current pipeline's tracker, or zero
    /// when idle.
    pub open spec fn spec_pos(self) -> u64 {
        match self.current {
            Some(c) => c.pipeline.position_ms,
            None => 0,
        }
    }

    pub fn new(queue: Queue) -> (p: Player)
        requires
            queue.wf(),
        ensures
            p.wf(),
            p.queue == queue,
            p.volume == VOLUME_UNITY,
            !p.paused,
            p.current is None,
            p.slots == RequestSlots::spec_empty(),
    {
        Player {
            queue,
            volume: VOLUME_UNITY,
            paused: false,
            current: None,
            slots: RequestSlots::new(),
        }
    }

    pub fn status(&self) -> (s: PlayerStatus)
        ensures
            s == self.spec_status(),
    {
        match &self.current {
            None => PlayerStatus::Idle,
            Some(_) => if self.paused {
                PlayerStatus::Paused
            } else {
                PlayerStatus::Playing
            },
        }
    }

    /// Replaces whatever was playing with a fresh pipeline for `track`,
    /// carrying the player's volume over and starting unpaused.  Pending
    /// requests were meant for the old pipeline and are dropped.
    /// `seekable` records whether the newly opened decoder backend can
    /// reposition.
    pub fn play_now(&mut self, track: Track, seekable: bool)
        requires
            old(self).wf(),
        ensures
            final(self).wf(),
            *final(self) == (Player {
                current: Some(CurrentTrack {
                    track,
                    pipeline: (Pipeline {
                        stopped: false,
                        skipped: false,
                        volume: old(self).volume,
                        paused: false,
                        position_ms: 0,
                        length_ms: track.length_ms,
                        seekable,
                    }),
                }),
                paused: false,
                slots: RequestSlots::spec_empty(),
                ..*old(self)
            }),
    {
        let mut pipeline = Pipeline::new(track.length_ms, seekable);
        pipeline.set_volume(self.volume);
        self.current = Some(CurrentTrack { track, pipeline });
        self.paused = false;
        self.slots.clear();
    }

    /// Flips between playing and paused; a no-op when idle.  The
    /// pause-gate itself closes at the next tap.
    pub fn toggle(&mut self)
        requires
            old(self).wf(),
        ensures
            final(self).wf(),
            old(self).current is None ==> *final(self) == *old(self),
            old(self).current is Some ==> *final(self) == (Player {
                paused: !old(self).paused,
                slots: old(self).slots.spec_submit(PipelineRequest::SetPaused(!old(self).paused)),
                ..*old(self)
            }),
    {
        if self.current.is_some() {
            self.paused = !self.paused;
            let paused = self.paused;
            self.slots.submit(PipelineRequest::SetPaused(paused));
        }
    }

    /// Asks the current pipeline to stop at the next tap; a no-op when
    /// idle.  The driving loop then sees the stream exhausted and advances
    /// the queue, or goes idle.
    pub fn stop(&mut self)
        requires
            old(self).wf(),
        ensures
            final(self).wf(),
            old(self).current is None ==> *final(self) == *old(self),
            old(self).current is Some ==> *final(self) == (Player {
                slots: old(self).slots.spec_submit(PipelineRequest::Stop),
                ..*old(self)
            }),
    {
        if self.current.is_some() {
            self.slots.submit(PipelineRequest::Stop);
        }
    }

    /// Files a seek one step forward, clamped to the track's end; a no-op
    /// when idle.
    pub fn seek_forward(&mut self)
        requires
            old(self).wf(),
        ensures
            final(self).wf(),
            old(self).current is None ==> *final(self) == *old(self),
            old(self).current matches Some(c) ==> *final(self) == (Player {
                slots: old(self).slots.spec_submit(
                    PipelineRequest::Seek(
                        seek_forward_target(c.pipeline.position_ms, c.pipeline.length_ms),
                    ),
                ),
                ..*old(self)
            }),
    {
        let target: Option<u64> = match &self.current {
            None => None,
            Some(c) => {
                let pos = c.pipeline.position_ms;
                let len = c.pipeline.length_ms;
                if len - pos <= SEEK_STEP_MS {
                    Some(len)
                } else {
                    Some(pos + SEEK_STEP_MS)
                }
            },
        };
        match target {
            None => {},
            Some(t) => {
                self.slots.submit(PipelineRequest::Seek(t));
            },
        }
    }

    /// Files a seek one step backward, clamped to the track's start; a
    /// no-op when idle.
    pub fn seek_backward(&mut self)
        requires
            old(self).wf(),
        ensures
            final(self).wf(),
            old(self).current is None ==> *final(self) == *old(self),
            old(self).current matches Some(c) ==> *final(self) == (Player {
                slots: old(self).slots.spec_submit(
                    PipelineRequest::Seek(seek_backward_target(c.pipeline.position_ms)),
                ),
                ..*old(self)
            }),
    {
        let target: Option<u64> = match &self.current {
            None => None,
            Some(c) => {
                let pos = c.pipeline.position_ms;
                if pos <= SEEK_STEP_MS {
                    Some(0)
                } else {
                    Some(pos - SEEK_STEP_MS)
                }
            },
        };
        match target {
            None => {},
            Some(t) => {
                self.slots.submit(PipelineRequest::Seek(t));
            },
        }
    }

    /// Adds `delta` hundredths to the volume, clamped to `[0, 100]`, and
    /// files the new factor for the gain stage.
    pub fn change_volume(&mut self, delta: i32)
        requires
            old(self).wf(),
        ensures
            final(self).wf(),
            final(self).volume == clamped_volume(old(self).volume + delta),
            final(self).queue == old(self).queue,
            final(self).paused == old(self).paused,
            final(self).current == old(self).current,
            old(self).current is Some ==> final(self).slots == old(self).slots.spec_submit(
                PipelineRequest::SetVolume(final(self).volume),
            ),
            old(self).current is None ==> final(self).slots == old(self).slots,
    {
        let raw: i64 = self.volume as i64 + delta as i64;
        let clamped: u32 = if raw < 0 {
            0
        } else if raw > VOLUME_UNITY as i64 {
            VOLUME_UNITY
        } else {
            raw as u32
        };
        self.volume = clamped;
        if self.current.is_some() {
            self.slots.submit(PipelineRequest::SetVolume(clamped));
        }
    }

    /// The position the UI shows, in milliseconds.
    pub fn get_pos(&self) -> (p: u64)
        ensures
            p == self.spec_pos(),
    {
        match &self.current {
            Some(c) => c.pipeline.pos(),
            None => 0,
        }
    }

    /// A copy of the track being played, or nothing when idle.
    pub fn currently_playing(&self) -> (r: Option<Track>)
        ensures
            match self.current {
                Some(c) => r matches Some(t) && t.same_as(c.track),
                None => r is None,
            },
    {
        match &self.current {
            Some(c) => Some(c.track.clone()),
            None => None,
        }
    }

    /// A snapshot of everything the UI renders, copied out in one go.
    pub fn playback_state(&self) -> (s: PlaybackState)
        ensures
            s.paused == self.paused,
            s.volume == self.volume,
            match self.current {
                Some(c) => {
                    &&& s.current_track matches Some(t) && t.same_as(c.track)
                    &&& s.position_ms == c.pipeline.position_ms
                    &&& s.stopped == c.pipeline.stopped
                },
                None => {
                    &&& s.current_track is None
                    &&& s.position_ms == 0
                    &&& !s.stopped
                },
            },
    {
        match &self.current {
            Some(c) => PlaybackState {
                current_track: Some(c.track.clone()),
                position_ms: c.pipeline.position_ms,
                paused: self.paused,
                volume: self.volume,
                stopped: c.pipeline.stopped,
            },
            None => PlaybackState {
                current_track: None,
                position_ms: 0,
                paused: self.paused,
                volume: self.volume,
                stopped: false,
            },
        }
    }

    /// The queue, for reading.
    pub fn queue(&self) -> (q: &Queue)
        ensures
            *q == self.queue,
    {
        &self.queue
    }

    /// The queue, for the UI's selection moves and edits.
    pub fn queue_mut(&mut self) -> (q: &mut Queue)
        ensures
            *q == old(self).queue,
            *final(self) == (Player { queue: *final(q), ..*old(self) }),
    {
        &mut self.queue
    }

    /// The periodic tap, fired by the audio-render thread on its own
    /// cadence: drains the pending slots into the live pipeline.  Requests
    /// filed while idle have no pipeline to land in and are dropped.
    pub fn tap(&mut self)
        requires
            old(self).wf(),
        ensures
            final(self).wf(),
            final(self).slots == RequestSlots::spec_empty(),
            final(self).queue == old(self).queue,
            final(self).volume == old(self).volume,
            final(self).paused == old(self).paused,
            old(self).current is None ==> final(self).current is None,
            old(self).current matches Some(c) ==> final(self).current matches Some(c2)
                && c2.track == c.track && c2.pipeline == old(self).slots.spec_apply(c.pipeline),
    {
        match &mut self.current {
            Some(c) => {
                self.slots.apply(&mut c.pipeline);
            },
            None => {
                self.slots.clear();
            },
        }
    }

    /// One span of the driving loop: pull `delta_ms` worth of samples from
    /// the current pipeline.  Returns whether the stream was still live;
    /// once it is not, the loop asks `next_track` and tears down with
    /// `finish_track`.
    pub fn render_tick(&mut self, delta_ms: u64) -> (live: bool)
        requires
            old(self).wf(),
        ensures
            final(self).wf(),
            old(self).current is None ==> !live && *final(self) == *old(self),
            old(self).current matches Some(c) ==> {
                &&& live == !c.pipeline.exhausted()
                &&& final(self).current matches Some(c2) && c2.track == c.track
                    && c2.pipeline == c.pipeline.spec_advance(delta_ms)
                &&& final(self).queue == old(self).queue
                &&& final(self).volume == old(self).volume
                &&& final(self).paused == old(self).paused
                &&& final(self).slots == old(self).slots
            },
    {
        match &mut self.current {
            Some(c) => c.pipeline.advance(delta_ms),
            None => false,
        }
    }

    /// What the queue holds after the current track: the item following
    /// it, the front of the queue for a track that was never queued, and
    /// nothing when the current track is the queue's last.
    pub fn next_track(&self) -> (r: Option<Track>)
        requires
            self.wf(),
        ensures
            self.current is None ==> r is None,
            self.current matches Some(c) ==> ({
                let items = self.queue.items@;
                let idx = find_from(items, c.track.path@, 0);
                if items.len() == 0 {
                    r is None
                } else if idx == -1 {
                    r matches Some(t) && t.same_as(items[0])
                } else if idx + 1 < items.len() {
                    r matches Some(t) && t.same_as(items[idx + 1])
                } else {
                    r is None
                }
            }),
    {
        match &self.current {
            Some(c) => self.queue.next_after(&c.track.path),
            None => None,
        }
    }

    /// Tears the current pipeline down, releasing its claim on the output
    /// device, and drops any requests that were still aimed at it.  The
    /// player is idle afterwards.
    pub fn finish_track(&mut self)
        requires
            old(self).wf(),
        ensures
            final(self).wf(),
            *final(self) == (Player {
                current: None,
                paused: false,
                slots: RequestSlots::spec_empty(),
                ..*old(self)
            }),
    {
        self.current = None;
        self.paused = false;
        self.slots.clear();
    }
}

/// Law: the effective volume factor stays within `[0, 100]` hundredths
/// after any sequence of `change_volume` calls.  Every control call and
/// every tap preserves `wf`, under which the player's factor, the factor
/// pending in the slots, and the factor the gain stage is running with are
/// all clamped.
pub proof fn lemma_volume_always_clamped(p: Player)
    requires
        p.wf(),
    ensures
        p.volume <= VOLUME_UNITY,
        p.slots.volume matches Some(v) ==> v <= VOLUME_UNITY,
        p.current matches Some(c) ==> c.pipeline.volume <= VOLUME_UNITY,
{
}

/// Law: a seek step lands where it was aimed.  The target `seek_forward`
/// files is already clamped to the track, so on a pipeline whose backend
/// can reposition, the tap that drains it puts the tracker exactly there.
pub proof fn lemma_seek_forward_tap_lands_on_target(p: Player)
    requires
        p.wf(),
        p.current matches Some(c) && c.pipeline.seekable,
    ensures
        p.current matches Some(c) ==> ({
            let target = seek_forward_target(c.pipeline.position_ms, c.pipeline.length_ms);
            p.slots.spec_submit(PipelineRequest::Seek(target)).spec_apply(c.pipeline).position_ms
                == target
        }),
{
}

/// Where `n` repetitions of "seek forward, then let the tap apply it"
/// leave the position.
pub open spec fn iterated_seek_forward(pos: u64, len: u64, n: nat) -> u64
    decreases n,
{
    if n == 0 {
        pos
    } else {
        seek_forward_target(iterated_seek_forward(pos, len, (n - 1) as nat), len)
    }
}

proof fn lemma_iterated_seek_forward_closed_form(pos: u64, len: u64, n: nat)
    requires
        pos <= len,
    ensures
        iterated_seek_forward(pos, len, n) == if pos + n * SEEK_STEP_MS >= len {
            len as int
        } else {
            pos + n * SEEK_STEP_MS
        },
    decreases n,
{
    if n > 0 {
        lemma_iterated_seek_forward_closed_form(pos, len, (n - 1) as nat);
        assert(n * SEEK_STEP_MS == (n - 1) as nat * SEEK_STEP_MS + SEEK_STEP_MS)
            by (nonlinear_arith)
            requires
                n >= 1,
        ;
    }
}

/// Law: repeated forward seeking clamps at the track's end.  The position
/// never passes the length, and once enough steps have been taken to cover
/// the remaining time, it sits exactly at the end.
pub proof fn lemma_seek_forward_clamps_to_track_end(pos: u64, len: u64, n: nat)
    requires
        pos <= len,
    ensures
        iterated_seek_forward(pos, len, n) <= len,
        pos + n * SEEK_STEP_MS >= len ==> iterated_seek_forward(pos, len, n) == len,
{
    lemma_iterated_seek_forward_closed_form(pos, len, n);
}

} // verus!
