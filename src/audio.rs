//! The engine's side of the audio worker: which status it last reported, and
//! whether the end of the current track was already signalled.

use vstd::prelude::*;

verus! {

/// What the audio worker reports.
#[derive(Debug, Clone, Copy, PartialEq, Eq, Structural)]
pub enum AudioStatus {
    Idle,
    Playing,
    Paused,
    Finished,
}

/// Turns the worker's reports into at most one "finished" signal per track.
#[derive(Debug)]
pub struct FinishSignal {
    pub current_status: AudioStatus,
    /// The end of the current track was already signalled.
    pub has_notified_finished: bool,
}

impl FinishSignal {
    pub fn new() -> (r: FinishSignal)
        ensures
            r.current_status == AudioStatus::Idle,
            !r.has_notified_finished,
    {
        FinishSignal { current_status: AudioStatus::Idle, has_notified_finished: false }
    }

    /// A new track is handed to the worker: its status is not known yet, and
    /// its end has not been signalled.
    pub fn on_play(&mut self)
        ensures
            final(self).current_status == AudioStatus::Idle,
            !final(self).has_notified_finished,
    {
        self.current_status = AudioStatus::Idle;
        self.has_notified_finished = false;
    }

    /// The worker reported `status`.
    pub fn record_status(&mut self, status: AudioStatus)
        ensures
            final(self).current_status == status,
            final(self).has_notified_finished == old(self).has_notified_finished,
    {
        self.current_status = status;
    }

    /// Whether the end of the track is to be signalled now: the worker
    /// reports it finished and it was not signalled before. Once this gives
    /// `true`, it gives `false` until the next `on_play`.
    pub fn check_finished(&mut self) -> (r: bool)
        ensures
            r == (old(self).current_status == AudioStatus::Finished && !old(self).has_notified_finished),
            final(self).current_status == old(self).current_status,
            final(self).has_notified_finished == (old(self).has_notified_finished || r),
    {
        if self.current_status == AudioStatus::Finished && !self.has_notified_finished {
            self.has_notified_finished = true;
            true
        } else {
            false
        }
    }
}

} // verus!
