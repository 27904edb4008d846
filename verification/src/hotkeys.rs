//! Which global hotkeys fired since the last poll.

use vstd::prelude::*;

verus! {

/// One hotkey event as the system reports it.
#[derive(Clone, Copy, Debug, PartialEq, Eq, Structural)]
pub struct HotkeyEvent {
    /// The id of the hotkey.
    pub id: u32,
    /// Pressed, as opposed to released.
    pub pressed: bool,
}

/// What a poll found.
#[derive(Clone, Copy, Debug, PartialEq, Eq, Structural)]
pub struct HotkeyPoll {
    pub toggle_fired: bool,
    pub mode_switch_fired: bool,
}

/// Whether one of the first `n` events is a press of the hotkey `id`.
pub open spec fn pressed_among(events: Seq<HotkeyEvent>, n: int, id: u32) -> bool {
    exists|i: int| 0 <= i < n && i < events.len() && (#[trigger] events[i]).pressed && events[i].id == id
}

impl HotkeyPoll {
    /// Reads the events drained in one poll. Only presses count. Where both
    /// hotkeys have the same id, a press counts for the toggle alone.
    pub fn poll(events: &[HotkeyEvent], toggle_hotkey_id: u32, mode_switch_hotkey_id: u32) -> (found: HotkeyPoll)
        ensures
            found.toggle_fired == pressed_among(events@, events@.len() as int, toggle_hotkey_id),
            found.mode_switch_fired == (toggle_hotkey_id != mode_switch_hotkey_id && pressed_among(
                events@,
                events@.len() as int,
                mode_switch_hotkey_id,
            )),
    {
        let mut toggle_fired = false;
        let mut mode_switch_fired = false;
        let mut i: usize = 0;
        while i < events.len()
            invariant
                i <= events@.len(),
                toggle_fired == pressed_among(events@, i as int, toggle_hotkey_id),
                mode_switch_fired == (toggle_hotkey_id != mode_switch_hotkey_id && pressed_among(
                    events@,
                    i as int,
                    mode_switch_hotkey_id,
                )),
            decreases events.len() - i,
        {
            let event = events[i];
            if event.pressed {
                if event.id == toggle_hotkey_id {
                    toggle_fired = true;
                } else if event.id == mode_switch_hotkey_id {
                    mode_switch_fired = true;
                }
            }
            proof {
                let e = events@[i as int];
                assert(pressed_among(events@, i + 1, toggle_hotkey_id) == (pressed_among(
                    events@,
                    i as int,
                    toggle_hotkey_id,
                ) || (e.pressed && e.id == toggle_hotkey_id)));
                assert(pressed_among(events@, i + 1, mode_switch_hotkey_id) == (pressed_among(
                    events@,
                    i as int,
                    mode_switch_hotkey_id,
                ) || (e.pressed && e.id == mode_switch_hotkey_id)));
            }
            i += 1;
        }
        HotkeyPoll { toggle_fired, mode_switch_fired }
    }
}

} // verus!
