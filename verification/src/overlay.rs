//! What the overlay shows: the phase of the session, and how long the
//! "done" phase stays.

use vstd::prelude::*;

verus! {

/// The phase the overlay shows. Exactly one is active at a time.
#[derive(Clone, Copy, Debug, PartialEq, Eq, Structural)]
pub enum OverlayState {
    Idle,
    /// Batch dictation: capturing.
    Recording,
    /// Batch dictation: waiting for the transcript; also shown while a live
    /// session connects.
    Processing,
    /// Batch dictation: the transcript arrived.
    Done,
    /// Live session: the microphone streams.
    Listening,
    /// Live session: the service's audio arrives.
    AISpeaking,
}

/// Which of the two ways of working a hotkey drives.
#[derive(Clone, Copy, Debug, PartialEq, Eq, Structural)]
pub enum VoiceMode {
    /// Record, transcribe, paste.
    Groq,
    /// A live two-way voice session.
    GeminiLive,
}

/// How long the "done" phase is shown, in milliseconds.
pub const DONE_DISPLAY_MS: u64 = 2000;

/// How long a listening or recording flash that was timed stays, in
/// milliseconds.
pub const FLASH_DISPLAY_MS: u64 = 1000;

/// The colour of the user's waveform in a phase, as red, green and blue in
/// thousandths of full intensity.
pub open spec fn colour_of(state: OverlayState) -> (u16, u16, u16) {
    match state {
        OverlayState::Idle => (0u16, 0u16, 0u16),
        OverlayState::Recording => (1000u16, 510u16, 240u16),
        OverlayState::Processing => (900u16, 760u16, 310u16),
        OverlayState::Done => (310u16, 860u16, 510u16),
        OverlayState::Listening => (24u16, 714u16, 831u16),
        OverlayState::AISpeaking => (24u16, 714u16, 831u16),
    }
}

impl OverlayState {
    /// The colour of the user's waveform; it stays the listening colour
    /// while the service speaks.
    pub fn user_color(&self) -> (rgb: (u16, u16, u16))
        ensures
            rgb == colour_of(*self),
    {
        match self {
            OverlayState::Idle => (0, 0, 0),
            OverlayState::Recording => (1000, 510, 240),
            OverlayState::Processing => (900, 760, 310),
            OverlayState::Done => (310, 860, 510),
            OverlayState::Listening => (24, 714, 831),
            OverlayState::AISpeaking => (24, 714, 831),
        }
    }
}

/// Whether a phase that began at `start` has been shown for `span`
/// milliseconds at `now`. A clock that ran backwards has shown nothing.
pub open spec fn shown_for(start: u64, now: u64, span: u64) -> bool {
    now >= start && now - start >= span
}

/// The phase after one frame at `now`: "done" ends after its display time,
/// and a timed listening or recording flash after its own.
pub open spec fn phase_after(state: OverlayState, done_start: Option<u64>, now: u64) -> OverlayState {
    match done_start {
        Some(start) => if state == OverlayState::Done && shown_for(start, now, DONE_DISPLAY_MS) {
            OverlayState::Idle
        } else if (state == OverlayState::Listening || state == OverlayState::Recording) && shown_for(
            start,
            now,
            FLASH_DISPLAY_MS,
        ) {
            OverlayState::Idle
        } else {
            state
        },
        None => state,
    }
}

/// The phase and the moment "done" began.
#[derive(Clone, Copy, Debug, PartialEq, Eq, Structural)]
pub struct VisualState {
    pub state: OverlayState,
    /// When "done" was entered, in milliseconds of the caller's clock.
    pub done_start: Option<u64>,
}

impl VisualState {
    /// Idle, with nothing timed.
    pub fn new() -> (visual: VisualState)
        ensures
            visual.state == OverlayState::Idle,
            visual.done_start is None,
    {
        VisualState { state: OverlayState::Idle, done_start: None }
    }

    /// Enters a phase at `now_ms`. Entering the phase that is already active
    /// changes nothing; entering "done" from another phase starts its clock.
    pub fn set_state(&mut self, new_state: OverlayState, now_ms: u64)
        ensures
            final(self).state == new_state,
            final(self).done_start == if old(self).state != new_state && new_state == OverlayState::Done {
                Some(now_ms)
            } else {
                old(self).done_start
            },
    {
        if self.state == new_state {
            return ;
        }
        self.state = new_state;
        if new_state == OverlayState::Done {
            self.done_start = Some(now_ms);
        }
    }

    /// One frame at `now_ms`: ends a phase whose display time is over.
    /// Returns whether the overlay still shows a phase.
    pub fn update(&mut self, now_ms: u64) -> (active: bool)
        ensures
            final(self).state == phase_after(old(self).state, old(self).done_start, now_ms),
            final(self).done_start == if final(self).state != old(self).state {
                None
            } else {
                old(self).done_start
            },
            active == (final(self).state != OverlayState::Idle),
    {
        if let Some(start) = self.done_start {
            let elapsed_known = now_ms >= start;
            if self.state == OverlayState::Done {
                if elapsed_known && now_ms - start >= DONE_DISPLAY_MS {
                    self.state = OverlayState::Idle;
                    self.done_start = None;
                }
            } else if self.state == OverlayState::Listening || self.state == OverlayState::Recording {
                if elapsed_known && now_ms - start >= FLASH_DISPLAY_MS {
                    self.state = OverlayState::Idle;
                    self.done_start = None;
                }
            }
        }
        self.state != OverlayState::Idle
    }
}

} // verus!
