//! Clicks and key presses on the overlay, read as gestures: a window in
//! which presses are counted, and what their number means once it closes.

use vstd::prelude::*;

verus! {

/// How long clicks are counted before they are read, in milliseconds.
pub const CLICK_WINDOW_MS: u64 = 280;

/// How long Alt presses are counted before they are read, in milliseconds.
pub const ALT_WINDOW_MS: u64 = 400;

/// How long clicks are ignored after a recording was started by clicks, in
/// milliseconds.
pub const CLICK_COOLDOWN_MS: u64 = 500;

/// What a closed click window asks for.
#[derive(Clone, Copy, Debug, PartialEq, Eq, Structural)]
pub enum ClickDecision {
    /// Nothing to do.
    Nothing,
    /// One click while recording: stop and transcribe.
    Stop,
    /// Two or more clicks while not recording: start.
    Start,
}

/// The clicks counted in the open window.
#[derive(Clone, Copy, Debug, PartialEq, Eq, Structural)]
pub struct ClickState {
    pub count: u32,
    /// When the last click came, while a window is open.
    pub timer: Option<u64>,
    /// Until when clicks are ignored.
    pub cooldown_until: Option<u64>,
}

/// The Alt presses counted in the open window.
#[derive(Clone, Copy, Debug, PartialEq, Eq, Structural)]
pub struct AltPressState {
    pub count: u32,
    /// When the last press came, while a window is open.
    pub timer: Option<u64>,
}

/// Whether `span` milliseconds have passed since `since`.
pub open spec fn elapsed(since: u64, now: u64, span: u64) -> bool {
    now >= since && now - since >= span
}

/// One more, without running over.
pub open spec fn bumped(count: u32) -> u32 {
    if count == u32::MAX {
        count
    } else {
        (count + 1) as u32
    }
}

/// What a count of clicks means.
pub open spec fn click_meaning(count: u32, recording: bool) -> ClickDecision {
    if count == 1 && recording {
        ClickDecision::Stop
    } else if count >= 2 && !recording {
        ClickDecision::Start
    } else {
        ClickDecision::Nothing
    }
}

/// A moment `span` milliseconds after `now`, or the last moment there is.
pub open spec fn later(now: u64, span: u64) -> u64 {
    if now > u64::MAX - span {
        u64::MAX
    } else {
        (now + span) as u64
    }
}

/// The clicks after one pass of the loop at `now`: a window that has been
/// open long enough is closed, and clicks that start a recording begin a
/// cooldown.
pub open spec fn clicks_after(clicks: ClickState, now: u64, recording: bool) -> ClickState {
    match clicks.timer {
        Some(t) if elapsed(t, now, CLICK_WINDOW_MS) => ClickState {
            count: 0,
            timer: None,
            cooldown_until: if click_meaning(clicks.count, recording) == ClickDecision::Start {
                Some(later(now, CLICK_COOLDOWN_MS))
            } else {
                clicks.cooldown_until
            },
        },
        _ => clicks,
    }
}

/// The Alt presses after one pass of the loop at `now`: a window that has
/// been open long enough is closed.
pub open spec fn alt_after(alt: AltPressState, now: u64) -> AltPressState {
    match alt.timer {
        Some(t) if elapsed(t, now, ALT_WINDOW_MS) => AltPressState { count: 0, timer: None },
        _ => alt,
    }
}

fn bump(count: u32) -> (next: u32)
    ensures
        next == bumped(count),
{
    if count == u32::MAX {
        count
    } else {
        count + 1
    }
}

impl ClickState {
    /// No click counted, no cooldown.
    pub fn new() -> (state: ClickState)
        ensures
            state == (ClickState { count: 0, timer: None, cooldown_until: None }),
    {
        ClickState { count: 0, timer: None, cooldown_until: None }
    }

    /// A left click at `now_ms`. It is ignored while the overlay is dragged
    /// and during a cooldown; a cooldown that is over is forgotten.
    /// Otherwise the click is counted and the window restarts.
    pub fn press(&mut self, now_ms: u64, dragging: bool) -> (counted: bool)
        ensures
            counted == (!dragging && !(old(self).cooldown_until matches Some(cd) && now_ms < cd)),
            !counted ==> *final(self) == *old(self),
            counted ==> *final(self) == (ClickState {
                count: bumped(old(self).count),
                timer: Some(now_ms),
                cooldown_until: None,
            }),
    {
        if dragging {
            return false;
        }
        if let Some(cd) = self.cooldown_until {
            if now_ms < cd {
                return false;
            }
            self.cooldown_until = None;
        }
        self.count = bump(self.count);
        self.timer = Some(now_ms);
        true
    }

    /// One pass of the loop at `now_ms`. Once the window has been open for
    /// `CLICK_WINDOW_MS` it closes and the clicks are read: one click stops
    /// a running recording, two or more start one and begin a cooldown.
    pub fn expire(&mut self, now_ms: u64, recording: bool) -> (decision: ClickDecision)
        ensures
            match old(self).timer {
                Some(t) if elapsed(t, now_ms, CLICK_WINDOW_MS) => {
                    &&& decision == click_meaning(old(self).count, recording)
                    &&& final(self).count == 0
                    &&& final(self).timer is None
                    &&& final(self).cooldown_until == if decision == ClickDecision::Start {
                        Some(later(now_ms, CLICK_COOLDOWN_MS))
                    } else {
                        old(self).cooldown_until
                    }
                },
                _ => decision == ClickDecision::Nothing && *final(self) == *old(self),
            },
            *final(self) == clicks_after(*old(self), now_ms, recording),
    {
        match self.timer {
            Some(t) => {
                if now_ms >= t && now_ms - t >= CLICK_WINDOW_MS {
                    let count = self.count;
                    self.count = 0;
                    self.timer = None;
                    if count == 1 && recording {
                        ClickDecision::Stop
                    } else if count >= 2 && !recording {
                        self.cooldown_until = Some(
                            if now_ms > u64::MAX - CLICK_COOLDOWN_MS {
                                u64::MAX
                            } else {
                                now_ms + CLICK_COOLDOWN_MS
                            },
                        );
                        ClickDecision::Start
                    } else {
                        ClickDecision::Nothing
                    }
                } else {
                    ClickDecision::Nothing
                }
            },
            None => ClickDecision::Nothing,
        }
    }

    /// When the loop must wake for this state: the moment the open window
    /// closes.
    pub fn deadline(&self) -> (at: Option<u64>)
        ensures
            at == match self.timer {
                Some(t) => Some(later(t, CLICK_WINDOW_MS)),
                None => None,
            },
    {
        match self.timer {
            Some(t) => Some(
                if t > u64::MAX - CLICK_WINDOW_MS {
                    u64::MAX
                } else {
                    t + CLICK_WINDOW_MS
                },
            ),
            None => None,
        }
    }
}

impl AltPressState {
    /// No press counted.
    pub fn new() -> (state: AltPressState)
        ensures
            state == (AltPressState { count: 0, timer: None }),
    {
        AltPressState { count: 0, timer: None }
    }

    /// An Alt press at `now_ms`: it is counted and the window restarts.
    pub fn press(&mut self, now_ms: u64)
        ensures
            *final(self) == (AltPressState { count: bumped(old(self).count), timer: Some(now_ms) }),
    {
        self.count = bump(self.count);
        self.timer = Some(now_ms);
    }

    /// One pass of the loop at `now_ms`. Once the window has been open for
    /// `ALT_WINDOW_MS` it closes; two or more presses while not recording
    /// ask for a recording.
    pub fn expire(&mut self, now_ms: u64, recording: bool) -> (start: bool)
        ensures
            match old(self).timer {
                Some(t) if elapsed(t, now_ms, ALT_WINDOW_MS) => {
                    &&& start == (old(self).count >= 2 && !recording)
                    &&& *final(self) == (AltPressState { count: 0, timer: None })
                },
                _ => !start && *final(self) == *old(self),
            },
            *final(self) == alt_after(*old(self), now_ms),
    {
        match self.timer {
            Some(t) => {
                if now_ms >= t && now_ms - t >= ALT_WINDOW_MS {
                    let count = self.count;
                    self.count = 0;
                    self.timer = None;
                    count >= 2 && !recording
                } else {
                    false
                }
            },
            None => false,
        }
    }
}

} // verus!
