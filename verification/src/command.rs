//! The command bus: high-level transport commands arriving from outside
//! (media keys, a remote-control session) on a channel of their own.
//!
//! A dedicated relay thread blocks on that channel and forwards each
//! command here; `dispatch_command` is the whole of its decision.

use vstd::prelude::*;

use crate::player::Player;
use crate::request::PipelineRequest;

verus! {

/// An inbound transport command.
pub enum Command {
    /// Flip between playing and paused.
    PlayPause,
    /// Move on: stop the current stream and let the driving loop advance
    /// the queue.
    Next,
}

/// What the relay thread does with one received command: `PlayPause`
/// toggles, `Next` stops and relies on the driving loop's auto-advance.
/// Either is a no-op on an idle player.
pub fn dispatch_command(player: &mut Player, command: Command)
    requires
        old(player).wf(),
    ensures
        final(player).wf(),
        old(player).current is None ==> *final(player) == *old(player),
        old(player).current is Some ==> *final(player) == (match command {
            Command::PlayPause => (Player {
                paused: !old(player).paused,
                slots: old(player).slots.spec_submit(
                    PipelineRequest::SetPaused(!old(player).paused),
                ),
                ..*old(player)
            }),
            Command::Next => (Player {
                slots: old(player).slots.spec_submit(PipelineRequest::Stop),
                ..*old(player)
            }),
        }),
{
    match command {
        Command::PlayPause => player.toggle(),
        Command::Next => player.stop(),
    }
}

} // verus!
