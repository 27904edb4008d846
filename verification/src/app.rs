//! The orchestrator: the one place that decides which mode is active, owns
//! the recorder, the player and the live session, and turns events into
//! state changes and work for the caller.

use vstd::prelude::*;
use crate::capture::GroqRecorder;
use crate::gestures::{
    alt_after, click_meaning, clicks_after, elapsed, AltPressState, ClickDecision, ClickState, ALT_WINDOW_MS,
    CLICK_WINDOW_MS,
};
use crate::hotkeys::HotkeyPoll;
use crate::json::Json;
use crate::overlay::{OverlayState, VisualState, VoiceMode};
use crate::pcm::{decode_s16le, encode_s16le, wav_container, MAX_WAV_SAMPLES};
use crate::playback::AudioPlayer;
use crate::protocol::{
    commands_view, events_view, ClientCommand, CommandModel, FunctionCall, FunctionResponse, GeminiEvent,
};
use crate::session::{chunk_fits, ended, heard, write_broke, wrote, GeminiLiveClient, WriteStep};
use crate::text::str_eq;
use crate::tools::{ids_among, PendingCalls};

verus! {

/// What an asynchronous task reports back to the orchestrator.
#[derive(Debug, PartialEq)]
pub enum AppEvent {
    TranscriptionComplete(String),
    TranscriptionError(String),
    GeminiReady,
    GeminiAudio(Vec<u8>),
    GeminiText(String),
    GeminiInterrupted,
    GeminiTurnComplete,
    GeminiToolCall(Vec<FunctionCall>),
    GeminiToolCallCancellation(Vec<String>),
    GeminiError(String),
    GeminiClosed(String),
    ToolResult { call_id: String, name: String, result: Json },
}

/// What the dashboard is told.
#[derive(Debug, PartialEq)]
pub enum Notice {
    GroqStart,
    GroqComplete(String),
    GroqError(String),
    VoiceOpen,
    VoiceSpeaking,
    VoiceText(String),
    VoiceInterrupted,
    VoiceListening,
    VoiceToolResult { id: String, name: String },
    VoiceClose(String),
}

/// Work that the orchestrator hands to its caller, to be done in order.
#[derive(Debug, PartialEq)]
pub enum Action {
    /// Close the input stream.
    StopInput,
    /// Send the recording to the transcription service.
    Transcribe(Vec<u8>),
    /// Deliver the text to the window that had the focus.
    InjectText { text: String, target: Option<String> },
    /// Open the transport and send the handshake.
    Connect,
    /// Open the input stream for the live session and report how it went.
    StartMic,
    /// Run the tool, and tell the dashboard of the call.
    Dispatch(FunctionCall),
    /// Tell the dashboard.
    Broadcast(Notice),
    /// Draw the overlay again.
    Redraw,
}

/// The orchestrator's event for an event of the session.
pub open spec fn bridged(event: GeminiEvent) -> AppEvent {
    match event {
        GeminiEvent::Ready => AppEvent::GeminiReady,
        GeminiEvent::Audio(data) => AppEvent::GeminiAudio(data),
        GeminiEvent::Text(text) => AppEvent::GeminiText(text),
        GeminiEvent::Interrupted => AppEvent::GeminiInterrupted,
        GeminiEvent::TurnComplete => AppEvent::GeminiTurnComplete,
        GeminiEvent::ToolCall(calls) => AppEvent::GeminiToolCall(calls),
        GeminiEvent::ToolCallCancellation(ids) => AppEvent::GeminiToolCallCancellation(ids),
        GeminiEvent::Error(e) => AppEvent::GeminiError(e),
        GeminiEvent::Closed(reason) => AppEvent::GeminiClosed(reason),
    }
}

impl AppEvent {
    /// Carries an event of the session over to the orchestrator, with what
    /// it holds.
    pub fn from_gemini(event: GeminiEvent) -> (bridged_event: AppEvent)
        ensures
            bridged_event == bridged(event),
    {
        match event {
            GeminiEvent::Ready => AppEvent::GeminiReady,
            GeminiEvent::Audio(data) => AppEvent::GeminiAudio(data),
            GeminiEvent::Text(text) => AppEvent::GeminiText(text),
            GeminiEvent::Interrupted => AppEvent::GeminiInterrupted,
            GeminiEvent::TurnComplete => AppEvent::GeminiTurnComplete,
            GeminiEvent::ToolCall(calls) => AppEvent::GeminiToolCall(calls),
            GeminiEvent::ToolCallCancellation(ids) => AppEvent::GeminiToolCallCancellation(ids),
            GeminiEvent::Error(e) => AppEvent::GeminiError(e),
            GeminiEvent::Closed(reason) => AppEvent::GeminiClosed(reason),
        }
    }
}

impl Notice {
    /// The dashboard's name for the notice.
    pub fn event_type(&self) -> (name: &'static str)
        ensures
            name@ == match self {
                Notice::GroqStart => "groq:start"@,
                Notice::GroqComplete(_) => "groq:complete"@,
                Notice::GroqError(_) => "groq:error"@,
                Notice::VoiceOpen => "voice:open"@,
                Notice::VoiceSpeaking => "voice:speaking"@,
                Notice::VoiceText(_) => "voice:text"@,
                Notice::VoiceInterrupted => "voice:interrupted"@,
                Notice::VoiceListening => "voice:listening"@,
                Notice::VoiceToolResult { .. } => "voice:tool_result"@,
                Notice::VoiceClose(_) => "voice:close"@,
            },
    {
        match self {
            Notice::GroqStart => "groq:start",
            Notice::GroqComplete(_) => "groq:complete",
            Notice::GroqError(_) => "groq:error",
            Notice::VoiceOpen => "voice:open",
            Notice::VoiceSpeaking => "voice:speaking",
            Notice::VoiceText(_) => "voice:text",
            Notice::VoiceInterrupted => "voice:interrupted",
            Notice::VoiceListening => "voice:listening",
            Notice::VoiceToolResult { .. } => "voice:tool_result",
            Notice::VoiceClose(_) => "voice:close",
        }
    }
}

/// What the user asked for with clicks, keys or hotkeys. The caller opens
/// the device that a gesture may need and calls the method named.
#[derive(Clone, Copy, Debug, PartialEq, Eq, Structural)]
pub enum Gesture {
    /// End the dictation: `stop_recording_and_transcribe`.
    Stop,
    /// Begin a dictation: `start_recording`.
    Start,
    /// The batch hotkey: `hotkey_toggle`.
    HotkeyToggle,
    /// The live-session hotkey: `hotkey_mode_switch`.
    HotkeyModeSwitch,
}

/// A key that means something to the overlay.
#[derive(Clone, Copy, Debug, PartialEq, Eq, Structural)]
pub enum OverlayKey {
    Space,
    Alt,
}

/// The orchestrator's state.
pub struct App {
    pub visual: VisualState,
    pub recorder: GroqRecorder,
    pub player: AudioPlayer,
    /// The live session; a closed one stays until the next takes its place,
    /// so that its writing half can still send the close.
    pub client: Option<GeminiLiveClient>,
    /// The number of the session held: each session that is attached gets
    /// the next one, and the halves of a transport name theirs, so that the
    /// halves of a session that was replaced reach nothing.
    pub session_serial: u64,
    pub mode: VoiceMode,
    /// Which mode started the current recording.
    pub recording_mode: Option<VoiceMode>,
    pub gemini_connecting: bool,
    pub has_gemini_key: bool,
    pub pending_tool_calls: PendingCalls,
    /// The window that had the focus before the overlay was touched.
    pub previous_window_id: Option<String>,
    pub last_transcript: String,
    pub click_state: ClickState,
    pub alt_state: AltPressState,
    /// Whether the overlay is being dragged in this pass of the loop.
    pub is_dragging: bool,
}

fn copy_of(text: &Option<String>) -> (copy: Option<String>)
    ensures
        copy == *text,
{
    match text {
        Some(s) => Some(s.clone()),
        None => None,
    }
}

/// The ids of a run of calls, in order.
pub open spec fn ids_of_calls(calls: Seq<FunctionCall>) -> Seq<String> {
    Seq::new(calls.len(), |i: int| calls[i].id)
}

/// The ids of the first `n` calls.
pub open spec fn call_ids(calls: Seq<FunctionCall>, n: int) -> Set<Seq<char>> {
    ids_among(ids_of_calls(calls), n)
}

/// One `Dispatch` for each call, in order.
pub open spec fn dispatches(calls: Seq<FunctionCall>) -> Seq<Action> {
    Seq::new(calls.len(), |i: int| Action::Dispatch(calls[i]))
}

/// What ending a recording for transcription gives: the input stream is
/// closed; then a recording that has samples, and not more than a container
/// holds, goes to the transcription service and the overlay shows
/// processing; any other leaves nothing to send, and the overlay is idle.
pub open spec fn handed_on(rate: u32, samples: Seq<i16>, state: OverlayState, actions: Seq<Action>) -> bool {
    if samples.len() == 0 || samples.len() > MAX_WAV_SAMPLES {
        state == OverlayState::Idle && actions == seq![Action::StopInput]
    } else {
        &&& state == OverlayState::Processing
        &&& actions.len() == 3
        &&& actions[0] == Action::StopInput
        &&& actions[1] == Action::Broadcast(Notice::GroqStart)
        &&& actions[2] matches Action::Transcribe(wav) && wav@ == wav_container(rate, samples)
    }
}

/// What sending one tool result does to the session: an open session has
/// the result queued behind what waits, anything else is left as it was.
pub open spec fn answered(
    before: Option<GeminiLiveClient>,
    after: Option<GeminiLiveClient>,
    response: FunctionResponse,
) -> bool {
    match before {
        Some(b) => after matches Some(a) && {
            &&& a.open() == b.open()
            &&& b.open() ==> {
                &&& a.outbound().len() == b.outbound().len() + 1
                &&& a.outbound().drop_last() == b.outbound()
                &&& a.outbound().last() matches ClientCommand::ToolResponse(rs) && rs@ == seq![response]
            }
            &&& !b.open() ==> a.outbound() == b.outbound()
        },
        None => after is None,
    }
}

/// What the clicks counted so far ask for at `now`.
pub open spec fn click_due(clicks: ClickState, now: u64, recording: bool) -> ClickDecision {
    match clicks.timer {
        Some(t) if elapsed(t, now, CLICK_WINDOW_MS) => click_meaning(clicks.count, recording),
        _ => ClickDecision::Nothing,
    }
}

/// Whether the Alt presses counted so far ask for a recording at `now`.
pub open spec fn alt_due(alt: AltPressState, now: u64, recording: bool) -> bool {
    alt.timer matches Some(t) && elapsed(t, now, ALT_WINDOW_MS) && alt.count >= 2 && !recording
}

/// The gestures that one pass of the loop reads, in order: what the clicks
/// ask for; a recording for a double Alt press, unless one runs or the
/// clicks just asked for one; then the hotkeys.
pub open spec fn gestures_due(app: App, now: u64, poll: HotkeyPoll) -> Seq<Gesture> {
    let recording = app.recorder.recording();
    let click = click_due(app.click_state, now, recording);
    let by_click = match click {
        ClickDecision::Stop => seq![Gesture::Stop],
        ClickDecision::Start => seq![Gesture::Start],
        ClickDecision::Nothing => Seq::empty(),
    };
    let will_record = match click {
        ClickDecision::Stop => false,
        ClickDecision::Start => true,
        ClickDecision::Nothing => recording,
    };
    let by_alt = if alt_due(app.alt_state, now, will_record) {
        seq![Gesture::Start]
    } else {
        Seq::empty()
    };
    let by_toggle = if poll.toggle_fired {
        seq![Gesture::HotkeyToggle]
    } else {
        Seq::empty()
    };
    let by_switch = if poll.mode_switch_fired {
        seq![Gesture::HotkeyModeSwitch]
    } else {
        Seq::empty()
    };
    by_click + by_alt + by_toggle + by_switch
}

/// Whether what the user set and what the gestures count were left alone:
/// the mode, the key, the remembered window, the last transcript, the
/// clicks, presses and drag, and the number of the session held.
pub open spec fn settings_unchanged(before: App, after: App) -> bool {
    &&& after.session_serial == before.session_serial
    &&& after.mode == before.mode
    &&& after.has_gemini_key == before.has_gemini_key
    &&& after.previous_window_id == before.previous_window_id
    &&& after.last_transcript == before.last_transcript
    &&& after.click_state == before.click_state
    &&& after.alt_state == before.alt_state
    &&& after.is_dragging == before.is_dragging
}

/// Whether the recorder, the session, the calls in flight, the modes and
/// the settings were left alone: everything but the overlay and the player.
pub open spec fn session_unchanged(before: App, after: App) -> bool {
    &&& after.recorder == before.recorder
    &&& after.client == before.client
    &&& after.pending_tool_calls == before.pending_tool_calls
    &&& after.recording_mode == before.recording_mode
    &&& after.gemini_connecting == before.gemini_connecting
    &&& settings_unchanged(before, after)
}

/// The number of the session after the one numbered `serial`.
pub open spec fn next_serial(serial: u64) -> u64 {
    if serial == u64::MAX {
        serial
    } else {
        (serial + 1) as u64
    }
}

/// What asking a session to close does to it: it accepts nothing more, and
/// the first time the close is queued behind what waits.
pub open spec fn asked_to_close(before: Option<GeminiLiveClient>, after: Option<GeminiLiveClient>) -> bool {
    match before {
        Some(b) => after matches Some(a) && {
            &&& !a.open()
            &&& a.close_requested()
            &&& a.ready() == b.ready()
            &&& a.failed() == b.failed()
            &&& a.writer_stopped() == b.writer_stopped()
            &&& a.outbound() == if b.close_requested() {
                b.outbound()
            } else {
                b.outbound().push(ClientCommand::Close)
            }
        },
        None => after is None,
    }
}

/// What a disconnect asks of the caller: to close the input stream, where
/// the recorder was capturing.
pub open spec fn disconnect_actions(was_recording: bool) -> Seq<Action> {
    if was_recording {
        seq![Action::StopInput]
    } else {
        Seq::empty()
    }
}

impl App {
    /// Whether a live session is open or being opened.
    pub open spec fn live_active(&self) -> bool {
        (self.client matches Some(c) && c.open()) || self.gemini_connecting
    }

    /// Whether a batch recording runs: the recorder captures, and not for a
    /// streaming sink.
    pub open spec fn batch_active(&self) -> bool {
        self.recorder.recording() && !self.recorder.streaming()
    }

    /// The parts are sound, and batch capture and a live session are never
    /// active together.
    pub open spec fn well_formed(&self) -> bool {
        &&& self.recorder.well_formed()
        &&& self.player.well_formed()
        &&& self.client matches Some(c) ==> c.well_formed()
        &&& !(self.batch_active() && self.live_active())
    }

    /// The state right after a disconnect, whatever came before.
    pub open spec fn disconnected(&self) -> bool {
        &&& !self.recorder.recording()
        &&& !self.recorder.streaming()
        &&& self.client matches Some(c) ==> !c.open() && c.close_requested()
        &&& self.player.queued() == Seq::<i16>::empty()
        &&& !self.gemini_connecting
        &&& self.recording_mode is None
        &&& self.visual.state == OverlayState::Idle
    }

    /// An idle orchestrator around a recorder. `mode` is the configured
    /// mode's name: "gemini" selects the live session, anything else batch
    /// dictation.
    pub fn new(recorder: GroqRecorder, mode: &str, has_gemini_key: bool) -> (app: App)
        requires
            recorder.well_formed(),
            !recorder.recording(),
        ensures
            app.well_formed(),
            app.visual.state == OverlayState::Idle,
            app.mode == if mode@ == "gemini"@ {
                VoiceMode::GeminiLive
            } else {
                VoiceMode::Groq
            },
            app.recorder == recorder,
            app.client is None,
            app.session_serial == 0,
            !app.gemini_connecting,
            app.has_gemini_key == has_gemini_key,
            app.recording_mode is None,
            app.pending_tool_calls@ == Set::<Seq<char>>::empty(),
            app.previous_window_id is None,
            app.last_transcript@ == Seq::<char>::empty(),
            app.player.queued() == Seq::<i16>::empty(),
            app.player.recent() == Seq::<i16>::empty(),
            !app.player.playing(),
            app.visual.done_start is None,
            app.click_state == (ClickState { count: 0, timer: None, cooldown_until: None }),
            app.alt_state == (AltPressState { count: 0, timer: None }),
            !app.is_dragging,
    {
        let initial_mode = if str_eq(mode, "gemini") {
            VoiceMode::GeminiLive
        } else {
            VoiceMode::Groq
        };
        App {
            visual: VisualState::new(),
            recorder,
            player: AudioPlayer::new(),
            client: None,
            session_serial: 0,
            mode: initial_mode,
            recording_mode: None,
            gemini_connecting: false,
            has_gemini_key,
            pending_tool_calls: PendingCalls::new(),
            previous_window_id: None,
            last_transcript: String::new(),
            click_state: ClickState::new(),
            alt_state: AltPressState::new(),
            is_dragging: false,
        }
    }

    /// Whether the recorder captures.
    pub fn is_recording(&self) -> (recording: bool)
        ensures
            recording == self.recorder.recording(),
    {
        self.recorder.is_recording()
    }

    /// Whether a live session is open or being opened.
    pub fn gemini_session_active(&self) -> (active: bool)
        ensures
            active == self.live_active(),
    {
        let has_client = match &self.client {
            Some(c) => c.is_open(),
            None => false,
        };
        has_client || self.gemini_connecting
    }

    /// Ends the live session and everything that hangs on it: the
    /// microphone stops, the streaming sink goes, the session is asked to
    /// close, and queued playback is dropped.
    pub fn disconnect_gemini(&mut self) -> (actions: Vec<Action>)
        requires
            old(self).well_formed(),
        ensures
            final(self).well_formed(),
            final(self).disconnected(),
            actions@ == disconnect_actions(old(self).recorder.recording()),
            asked_to_close(old(self).client, final(self).client),
            final(self).player.recent() == Seq::<i16>::empty(),
            final(self).recorder.samples() == old(self).recorder.samples(),
            final(self).pending_tool_calls == old(self).pending_tool_calls,
            settings_unchanged(*old(self), *final(self)),
            final(self).recorder.rate() == old(self).recorder.rate(),
            final(self).visual.done_start == old(self).visual.done_start,
            final(self).player.playing() == old(self).player.playing(),
    {
        let mut actions: Vec<Action> = Vec::new();
        if self.recorder.is_recording() {
            let _ = self.recorder.stop_recording();
            actions.push(Action::StopInput);
            assert(actions@ =~= seq![Action::StopInput]);
        }
        self.recorder.set_streaming_callback(false);
        match &mut self.client {
            Some(c) => {
                c.close();
            },
            None => {},
        }
        self.player.clear();
        self.gemini_connecting = false;
        self.recording_mode = None;
        self.visual.set_state(OverlayState::Idle, 0);
        actions
    }

    /// Begins a batch recording. A recorder that already captures changes
    /// nothing. Otherwise a live session that is active is disconnected
    /// first; then the focused window is remembered and the recording
    /// begins, if the input stream opened.
    pub fn start_recording(&mut self, active_window: Option<String>, device: Result<(), String>)
        requires
            old(self).well_formed(),
        ensures
            final(self).well_formed(),
            old(self).recorder.recording() ==> *final(self) == *old(self),
            final(self).mode == old(self).mode,
            final(self).pending_tool_calls == old(self).pending_tool_calls,
            final(self).has_gemini_key == old(self).has_gemini_key,
            final(self).last_transcript == old(self).last_transcript,
            !old(self).live_active() ==> {
                &&& final(self).recording_mode == old(self).recording_mode
                &&& final(self).client == old(self).client
                &&& final(self).player == old(self).player
            },
            !old(self).recorder.recording() ==> {
                &&& !final(self).live_active()
                &&& old(self).live_active() ==> (final(self).client matches Some(c) ==> c.close_requested())
                    && final(self).player.queued() == Seq::<i16>::empty()
                &&& final(self).previous_window_id == active_window
                &&& final(self).recorder.recording() == (device is Ok)
                &&& !final(self).recorder.streaming()
                &&& final(self).visual.state == if device is Ok {
                    OverlayState::Recording
                } else if old(self).live_active() {
                    OverlayState::Idle
                } else {
                    old(self).visual.state
                }
                &&& final(self).recorder.samples() == Seq::<i16>::empty()
            },
    {
        if self.is_recording() {
            return ;
        }
        if self.gemini_session_active() {
            let _ = self.disconnect_gemini();
        }
        self.recorder.set_streaming_callback(false);
        self.previous_window_id = active_window;
        match self.recorder.start_recording(device) {
            Ok(_) => {
                self.visual.set_state(OverlayState::Recording, 0);
            },
            Err(_) => {},
        }
    }

    /// Ends the recording and hands it on for transcription. Without a
    /// running recording nothing happens. A recording that cannot be handed
    /// on (empty, or too long for a container) returns the overlay to idle.
    pub fn stop_recording_and_transcribe(&mut self) -> (actions: Vec<Action>)
        requires
            old(self).well_formed(),
        ensures
            final(self).well_formed(),
            !final(self).recorder.recording(),
            final(self).client == old(self).client,
            final(self).player == old(self).player,
            final(self).gemini_connecting == old(self).gemini_connecting,
            final(self).pending_tool_calls == old(self).pending_tool_calls,
            final(self).mode == old(self).mode,
            final(self).recording_mode == old(self).recording_mode,
            final(self).recorder.streaming() == old(self).recorder.streaming(),
            !old(self).recorder.recording() ==> *final(self) == *old(self) && actions@ == Seq::<Action>::empty(),
            old(self).recorder.recording() ==> handed_on(
                old(self).recorder.rate(),
                old(self).recorder.samples(),
                final(self).visual.state,
                actions@,
            ),
            final(self).recorder.samples() == old(self).recorder.samples(),
            final(self).previous_window_id == old(self).previous_window_id,
            final(self).last_transcript == old(self).last_transcript,
            final(self).has_gemini_key == old(self).has_gemini_key,
            final(self).click_state == old(self).click_state,
            final(self).alt_state == old(self).alt_state,
            final(self).is_dragging == old(self).is_dragging,
    {
        let mut actions: Vec<Action> = Vec::new();
        if !self.is_recording() {
            return actions;
        }
        let stopped = self.recorder.stop_recording();
        actions.push(Action::StopInput);
        match stopped {
            Ok(wav) => {
                self.visual.set_state(OverlayState::Processing, 0);
                actions.push(Action::Broadcast(Notice::GroqStart));
                actions.push(Action::Transcribe(wav));
            },
            Err(_) => {
                self.visual.set_state(OverlayState::Idle, 0);
                assert(actions@ =~= seq![Action::StopInput]);
            },
        }
        actions
    }

    /// The transcript arrived at `now_ms`: it is kept, shown as done, and
    /// delivered to the window that had the focus.
    pub fn handle_transcription_result(&mut self, text: String, now_ms: u64) -> (actions: Vec<Action>)
        requires
            old(self).well_formed(),
        ensures
            final(self).well_formed(),
            actions@ == seq![Action::InjectText { text, target: old(self).previous_window_id }],
            *final(self) == (App {
                last_transcript: text,
                visual: VisualState {
                    state: OverlayState::Done,
                    done_start: if old(self).visual.state != OverlayState::Done {
                        Some(now_ms)
                    } else {
                        old(self).visual.done_start
                    },
                },
                ..*old(self)
            }),
    {
        self.last_transcript = text.clone();
        self.visual.set_state(OverlayState::Done, now_ms);
        let target = copy_of(&self.previous_window_id);
        let mut actions: Vec<Action> = Vec::new();
        actions.push(Action::InjectText { text, target });
        assert(actions@ =~= seq![Action::InjectText { text, target: old(self).previous_window_id }]);
        actions
    }

    /// Starts a batch recording, or ends the running one.
    pub fn toggle_recording(&mut self, active_window: Option<String>, device: Result<(), String>) -> (actions:
        Vec<Action>)
        requires
            old(self).well_formed(),
        ensures
            final(self).well_formed(),
            final(self).mode == old(self).mode,
            final(self).pending_tool_calls == old(self).pending_tool_calls,
            final(self).has_gemini_key == old(self).has_gemini_key,
            final(self).last_transcript == old(self).last_transcript,
            !old(self).live_active() ==> {
                &&& !final(self).live_active()
                &&& final(self).recording_mode == old(self).recording_mode
                &&& final(self).client == old(self).client
                &&& final(self).player == old(self).player
            },
            old(self).recorder.recording() ==> {
                &&& !final(self).recorder.recording()
                &&& handed_on(
                    old(self).recorder.rate(),
                    old(self).recorder.samples(),
                    final(self).visual.state,
                    actions@,
                )
                &&& final(self).client == old(self).client
                &&& final(self).player == old(self).player
                &&& final(self).gemini_connecting == old(self).gemini_connecting
                &&& final(self).recording_mode == old(self).recording_mode
                &&& final(self).previous_window_id == old(self).previous_window_id
            },
            !old(self).recorder.recording() ==> {
                &&& actions@ == Seq::<Action>::empty()
                &&& !final(self).live_active()
                &&& final(self).previous_window_id == active_window
                &&& final(self).recorder.recording() == (device is Ok)
                &&& !final(self).recorder.streaming()
                &&& final(self).recorder.samples() == Seq::<i16>::empty()
                &&& final(self).visual.state == if device is Ok {
                    OverlayState::Recording
                } else if old(self).live_active() {
                    OverlayState::Idle
                } else {
                    old(self).visual.state
                }
            },
    {
        if self.is_recording() {
            self.stop_recording_and_transcribe()
        } else {
            self.start_recording(active_window, device);
            Vec::new()
        }
    }

    /// Begins to open a live session. `output` is how opening the output
    /// stream went. Nothing happens while a session is active, without an
    /// API key, or without an output stream. Otherwise a running capture is
    /// stopped first, and the caller is asked to connect.
    pub fn connect_gemini(&mut self, output: Result<(), String>) -> (actions: Vec<Action>)
        requires
            old(self).well_formed(),
        ensures
            final(self).well_formed(),
            final(self).pending_tool_calls == old(self).pending_tool_calls,
            final(self).mode == old(self).mode,
            final(self).recording_mode == old(self).recording_mode,
            (old(self).live_active() || !old(self).has_gemini_key || output is Err) ==> *final(self) == *old(self) && actions@ == Seq::<Action>::empty(),
            !(old(self).live_active() || !old(self).has_gemini_key || output is Err) ==> {
                &&& final(self).gemini_connecting
                &&& !final(self).recorder.recording()
                &&& final(self).visual.state == OverlayState::Processing
                &&& actions@ == if old(self).recorder.recording() {
                    seq![Action::StopInput, Action::Connect]
                } else {
                    seq![Action::Connect]
                }
                &&& final(self).client == old(self).client
                &&& final(self).player == old(self).player
            },
    {
        let mut actions: Vec<Action> = Vec::new();
        if self.gemini_session_active() {
            return actions;
        }
        if !self.has_gemini_key {
            return actions;
        }
        if output.is_err() {
            return actions;
        }
        if self.recorder.is_recording() {
            let _ = self.recorder.stop_recording();
            actions.push(Action::StopInput);
        }
        self.gemini_connecting = true;
        self.visual.set_state(OverlayState::Processing, 0);
        actions.push(Action::Connect);
        assert(actions@ =~= if old(self).recorder.recording() {
            seq![Action::StopInput, Action::Connect]
        } else {
            seq![Action::Connect]
        });
        actions
    }

    /// Takes the session that the caller connected, in place of the one
    /// held, and gives it the next number. If the connection was given up
    /// meanwhile, the session is closed at once.
    pub fn attach_client(&mut self, client: GeminiLiveClient) -> (serial: u64)
        requires
            old(self).well_formed(),
            client.well_formed(),
        ensures
            final(self).well_formed(),
            serial == next_serial(old(self).session_serial),
            *final(self) == (App { client: final(self).client, session_serial: serial, ..*old(self) }),
            old(self).gemini_connecting ==> final(self).client == Some(client),
            !old(self).gemini_connecting ==> asked_to_close(Some(client), final(self).client),
    {
        let mut client = client;
        if !self.gemini_connecting {
            client.close();
        }
        self.client = Some(client);
        if self.session_serial < u64::MAX {
            self.session_serial = self.session_serial + 1;
        }
        self.session_serial
    }

    /// Whether the halves that name session `serial` serve the session
    /// held.
    pub open spec fn serves(&self, serial: u64) -> bool {
        self.client is Some && serial == self.session_serial
    }

    /// The next step of the writing half of session `serial`. The writer of
    /// a session that is no longer held has stopped.
    pub fn outbound_step(&mut self, serial: u64) -> (step: WriteStep)
        requires
            old(self).well_formed(),
        ensures
            final(self).well_formed(),
            *final(self) == (App { client: final(self).client, ..*old(self) }),
            if old(self).serves(serial) {
                final(self).client matches Some(after) && wrote(old(self).client->Some_0, after, step)
            } else {
                step == WriteStep::Stopped && final(self).client == old(self).client
            },
    {
        if serial != self.session_serial {
            return WriteStep::Stopped;
        }
        match &mut self.client {
            Some(client) => client.next_outbound(),
            None => WriteStep::Stopped,
        }
    }

    /// A write of session `serial` failed. A session that is no longer held
    /// is left alone.
    pub fn outbound_failed(&mut self, serial: u64)
        requires
            old(self).well_formed(),
        ensures
            final(self).well_formed(),
            *final(self) == (App { client: final(self).client, ..*old(self) }),
            if old(self).serves(serial) {
                final(self).client matches Some(after) && write_broke(old(self).client->Some_0, after)
            } else {
                final(self).client == old(self).client
            },
    {
        if serial == self.session_serial {
            match &mut self.client {
                Some(client) => {
                    client.write_failed();
                },
                None => {},
            }
        }
    }

    /// One message that the reading half of session `serial` received, and
    /// the events it gives. A session that is no longer held gives none.
    pub fn inbound_message(&mut self, serial: u64, text: &str) -> (events: Vec<GeminiEvent>)
        requires
            old(self).well_formed(),
        ensures
            final(self).well_formed(),
            *final(self) == (App { client: final(self).client, ..*old(self) }),
            if old(self).serves(serial) {
                final(self).client matches Some(after) && heard(
                    old(self).client->Some_0,
                    after,
                    text@,
                    events_view(events@),
                )
            } else {
                events@ == Seq::<GeminiEvent>::empty() && final(self).client == old(self).client
            },
    {
        if serial == self.session_serial {
            match &mut self.client {
                Some(client) => {
                    return client.on_message(text);
                },
                None => {},
            }
        }
        Vec::new()
    }

    /// The reading half of session `serial` saw the service close the
    /// connection. The first end of a session that is held gives the event;
    /// anything else gives none.
    pub fn inbound_close(&mut self, serial: u64, reason: String) -> (event: Option<GeminiEvent>)
        requires
            old(self).well_formed(),
        ensures
            final(self).well_formed(),
            *final(self) == (App { client: final(self).client, ..*old(self) }),
            if old(self).serves(serial) {
                &&& final(self).client matches Some(after) && ended(old(self).client->Some_0, after, false)
                &&& event == if old(self).client->Some_0.reader_stopped() {
                    None
                } else {
                    Some(GeminiEvent::Closed(reason))
                }
            } else {
                event is None && final(self).client == old(self).client
            },
    {
        if serial == self.session_serial {
            match &mut self.client {
                Some(client) => {
                    return client.on_close(reason);
                },
                None => {},
            }
        }
        None
    }

    /// The reading half of session `serial` saw the transport fail. The
    /// first end of a session that is held gives the event; anything else
    /// gives none.
    pub fn inbound_error(&mut self, serial: u64, message: String) -> (event: Option<GeminiEvent>)
        requires
            old(self).well_formed(),
        ensures
            final(self).well_formed(),
            *final(self) == (App { client: final(self).client, ..*old(self) }),
            if old(self).serves(serial) {
                &&& final(self).client matches Some(after) && ended(old(self).client->Some_0, after, true)
                &&& event == if old(self).client->Some_0.reader_stopped() {
                    None
                } else {
                    Some(GeminiEvent::Error(message))
                }
            } else {
                event is None && final(self).client == old(self).client
            },
    {
        if serial == self.session_serial {
            match &mut self.client {
                Some(client) => {
                    return client.on_error(message);
                },
                None => {},
            }
        }
        None
    }

    /// The stream of session `serial` ended without a close or an error.
    pub fn inbound_end(&mut self, serial: u64)
        requires
            old(self).well_formed(),
        ensures
            final(self).well_formed(),
            *final(self) == (App { client: final(self).client, ..*old(self) }),
            if old(self).serves(serial) {
                final(self).client matches Some(after) && ended(old(self).client->Some_0, after, false)
            } else {
                final(self).client == old(self).client
            },
    {
        if serial == self.session_serial {
            match &mut self.client {
                Some(client) => {
                    client.on_stream_end();
                },
                None => {},
            }
        }
    }

    /// Starts the live session's microphone. `device` is how opening the
    /// input stream went. A recorder that already captures is left alone.
    pub fn start_gemini_mic(&mut self, device: Result<(), String>)
        requires
            old(self).well_formed(),
        ensures
            final(self).well_formed(),
            old(self).recorder.recording() ==> *final(self) == *old(self),
            !old(self).recorder.recording() ==> {
                &&& final(self).recorder.streaming()
                &&& final(self).recorder.recording() == (device is Ok)
                &&& final(self).visual.state == if device is Ok {
                    OverlayState::Listening
                } else {
                    old(self).visual.state
                }
                &&& final(self).recorder.samples() == Seq::<i16>::empty()
            },
            final(self).client == old(self).client,
            final(self).player == old(self).player,
            final(self).gemini_connecting == old(self).gemini_connecting,
            final(self).pending_tool_calls == old(self).pending_tool_calls,
    {
        if self.is_recording() {
            return ;
        }
        self.recorder.set_streaming_callback(true);
        match self.recorder.start_recording(device) {
            Ok(_) => {
                self.visual.set_state(OverlayState::Listening, 0);
            },
            Err(_) => {},
        }
    }

    /// One frame from the input callback. While the recorder captures the
    /// frame is kept; while it captures for a live session, the frame's
    /// bytes are also queued for the service, if the session is open.
    pub fn microphone_frame(&mut self, frame: &[i16])
        requires
            old(self).well_formed(),
        ensures
            final(self).well_formed(),
            final(self).recorder.samples() == if old(self).recorder.recording() {
                old(self).recorder.samples() + frame@
            } else {
                old(self).recorder.samples()
            },
            final(self).recorder.recording() == old(self).recorder.recording(),
            final(self).recorder.streaming() == old(self).recorder.streaming(),
            final(self).recorder.rate() == old(self).recorder.rate(),
            final(self).visual == old(self).visual,
            final(self).player == old(self).player,
            final(self).gemini_connecting == old(self).gemini_connecting,
            final(self).pending_tool_calls == old(self).pending_tool_calls,
            final(self).mode == old(self).mode,
            final(self).recording_mode == old(self).recording_mode,
            match old(self).client {
                Some(before) => final(self).client matches Some(after) && {
                    &&& after.open() == before.open()
                    &&& after.ready() == before.ready()
                    &&& if old(self).recorder.recording() && old(self).recorder.streaming() && before.open()
                        && chunk_fits(encode_s16le(frame@).len()) {
                        commands_view(after.outbound()) == commands_view(before.outbound()).push(
                            CommandModel::SendAudio(encode_s16le(frame@)),
                        )
                    } else {
                        after.outbound() == before.outbound()
                    }
                },
                None => final(self).client is None,
            },
    {
        match self.recorder.capture_frame(frame) {
            Some(bytes) => {
                if bytes.len() <= usize::MAX / 2 {
                    match &mut self.client {
                        Some(client) => {
                            client.send_audio(bytes.as_slice());
                        },
                        None => {},
                    }
                }
            },
            None => {},
        }
    }

    /// Switches the live session: ends it where it is active or the recorder
    /// captures, begins to open it otherwise.
    pub fn toggle_gemini_session(&mut self, output: Result<(), String>) -> (actions: Vec<Action>)
        requires
            old(self).well_formed(),
        ensures
            final(self).well_formed(),
            final(self).mode == old(self).mode,
            !final(self).recorder.recording(),
            final(self).pending_tool_calls == old(self).pending_tool_calls,
            (old(self).live_active() || old(self).recorder.recording()) ==> {
                &&& final(self).disconnected()
                &&& actions@ == if old(self).recorder.recording() {
                    seq![Action::StopInput]
                } else {
                    Seq::<Action>::empty()
                }
            },
            !(old(self).live_active() || old(self).recorder.recording()) ==> if old(self).has_gemini_key
                && output is Ok {
                &&& final(self).gemini_connecting
                &&& final(self).visual.state == OverlayState::Processing
                &&& final(self).recording_mode == old(self).recording_mode
                &&& final(self).client == old(self).client
                &&& final(self).player == old(self).player
                &&& actions@ == seq![Action::Connect]
            } else {
                *final(self) == *old(self) && actions@ == Seq::<Action>::empty()
            },
    {
        if self.gemini_session_active() || self.is_recording() {
            self.disconnect_gemini()
        } else {
            self.connect_gemini(output)
        }
    }

    /// The batch hotkey: a live session is ended first, then the batch
    /// recording starts or stops.
    pub fn hotkey_toggle(&mut self, active_window: Option<String>, device: Result<(), String>) -> (actions:
        Vec<Action>)
        requires
            old(self).well_formed(),
        ensures
            final(self).well_formed(),
            final(self).mode == VoiceMode::Groq,
            final(self).recording_mode == Some(VoiceMode::Groq),
            !final(self).live_active(),
            final(self).pending_tool_calls == old(self).pending_tool_calls,
            (old(self).live_active() || old(self).recording_mode == Some(VoiceMode::GeminiLive)) ==> {
                &&& final(self).client matches Some(c) ==> !c.open() && c.close_requested()
                &&& final(self).player.queued() == Seq::<i16>::empty()
                &&& final(self).previous_window_id == active_window
                &&& final(self).recorder.recording() == (device is Ok)
                &&& !final(self).recorder.streaming()
                &&& final(self).recorder.samples() == Seq::<i16>::empty()
                &&& final(self).visual.state == if device is Ok {
                    OverlayState::Recording
                } else {
                    OverlayState::Idle
                }
                &&& actions@ == if old(self).recorder.recording() {
                    seq![Action::StopInput]
                } else {
                    Seq::<Action>::empty()
                }
            },
            !(old(self).live_active() || old(self).recording_mode == Some(VoiceMode::GeminiLive)) ==> {
                &&& final(self).client == old(self).client
                &&& final(self).player == old(self).player
                &&& if old(self).recorder.recording() {
                    &&& !final(self).recorder.recording()
                    &&& handed_on(
                        old(self).recorder.rate(),
                        old(self).recorder.samples(),
                        final(self).visual.state,
                        actions@,
                    )
                    &&& final(self).previous_window_id == old(self).previous_window_id
                } else {
                    &&& actions@ == Seq::<Action>::empty()
                    &&& final(self).previous_window_id == active_window
                    &&& final(self).recorder.recording() == (device is Ok)
                    &&& !final(self).recorder.streaming()
                    &&& final(self).recorder.samples() == Seq::<i16>::empty()
                    &&& final(self).visual.state == if device is Ok {
                        OverlayState::Recording
                    } else {
                        old(self).visual.state
                    }
                }
            },
    {
        let mut actions: Vec<Action> = Vec::new();
        if self.gemini_session_active() || self.recording_mode == Some(VoiceMode::GeminiLive) {
            actions = self.disconnect_gemini();
        }
        self.mode = VoiceMode::Groq;
        self.recording_mode = Some(VoiceMode::Groq);
        let ghost first = actions@;
        let mut more = self.toggle_recording(active_window, device);
        let ghost second = more@;
        actions.append(&mut more);
        assert(actions@ =~= first + second);
        assert(first.len() == 0 ==> actions@ =~= second);
        assert(second.len() == 0 ==> actions@ =~= first);
        actions
    }

    /// The live-session hotkey: a running batch recording is stopped and
    /// dropped first, then the live session is switched.
    pub fn hotkey_mode_switch(&mut self, output: Result<(), String>) -> (actions: Vec<Action>)
        requires
            old(self).well_formed(),
        ensures
            final(self).well_formed(),
            final(self).mode == VoiceMode::GeminiLive,
            !final(self).recorder.recording(),
            final(self).pending_tool_calls == old(self).pending_tool_calls,
            (old(self).live_active() || old(self).recorder.recording()) && !(old(self).recording_mode == Some(
                VoiceMode::Groq,
            ) && old(self).recorder.recording() && !old(self).live_active()) ==> {
                &&& final(self).disconnected()
                &&& actions@ == if old(self).recorder.recording() {
                    seq![Action::StopInput]
                } else {
                    Seq::<Action>::empty()
                }
            },
            !old(self).live_active() && (!old(self).recorder.recording() || old(self).recording_mode == Some(
                VoiceMode::Groq,
            )) ==> {
                &&& final(self).client == old(self).client
                &&& final(self).player == old(self).player
                &&& final(self).recording_mode == Some(VoiceMode::GeminiLive)
                &&& final(self).gemini_connecting == (old(self).has_gemini_key && output is Ok)
                &&& final(self).visual.state == if old(self).has_gemini_key && output is Ok {
                    OverlayState::Processing
                } else if old(self).recorder.recording() {
                    OverlayState::Idle
                } else {
                    old(self).visual.state
                }
                &&& actions@ == (if old(self).recorder.recording() {
                    seq![Action::StopInput]
                } else {
                    Seq::<Action>::empty()
                }) + (if old(self).has_gemini_key && output is Ok {
                    seq![Action::Connect]
                } else {
                    Seq::<Action>::empty()
                })
            },
    {
        let mut actions: Vec<Action> = Vec::new();
        if self.recording_mode == Some(VoiceMode::Groq) && self.is_recording() {
            let _ = self.recorder.stop_recording();
            self.visual.set_state(OverlayState::Idle, 0);
            actions.push(Action::StopInput);
            assert(actions@ =~= seq![Action::StopInput]);
        }
        self.mode = VoiceMode::GeminiLive;
        self.recording_mode = Some(VoiceMode::GeminiLive);
        let ghost first = actions@;
        let mut more = self.toggle_gemini_session(output);
        let ghost second = more@;
        actions.append(&mut more);
        assert(actions@ =~= first + second);
        assert(first.len() == 0 ==> actions@ =~= second);
        assert(second.len() == 0 ==> actions@ =~= first);
        actions
    }

    /// A left click on the overlay at `now_ms`; tells whether it counted.
    pub fn left_click(&mut self, now_ms: u64) -> (counted: bool)
        requires
            old(self).well_formed(),
        ensures
            final(self).well_formed(),
            counted == (!old(self).is_dragging && !(old(self).click_state.cooldown_until matches Some(cd)
                && now_ms < cd)),
            *final(self) == (App {
                click_state: if counted {
                    ClickState {
                        count: crate::gestures::bumped(old(self).click_state.count),
                        timer: Some(now_ms),
                        cooldown_until: None,
                    }
                } else {
                    old(self).click_state
                },
                ..*old(self)
            }),
    {
        let dragging = self.is_dragging;
        self.click_state.press(now_ms, dragging)
    }

    /// A right click on the overlay: the overlay is dragged until the loop
    /// has passed once.
    pub fn right_click(&mut self)
        requires
            old(self).well_formed(),
        ensures
            *final(self) == (App { is_dragging: true, ..*old(self) }),
    {
        self.is_dragging = true;
    }

    /// A key pressed on the overlay at `now_ms`: space ends a running
    /// dictation, Alt is counted for a double press.
    pub fn key_pressed(&mut self, key: OverlayKey, now_ms: u64) -> (actions: Vec<Action>)
        requires
            old(self).well_formed(),
        ensures
            final(self).well_formed(),
            match key {
                OverlayKey::Space => if old(self).recorder.recording() {
                    &&& !final(self).recorder.recording()
                    &&& handed_on(
                        old(self).recorder.rate(),
                        old(self).recorder.samples(),
                        final(self).visual.state,
                        actions@,
                    )
                    &&& final(self).alt_state == old(self).alt_state
                } else {
                    *final(self) == *old(self) && actions@ == Seq::<Action>::empty()
                },
                OverlayKey::Alt => {
                    &&& actions@ == Seq::<Action>::empty()
                    &&& *final(self) == (App {
                        alt_state: AltPressState {
                            count: crate::gestures::bumped(old(self).alt_state.count),
                            timer: Some(now_ms),
                        },
                        ..*old(self)
                    })
                },
            },
    {
        match key {
            OverlayKey::Space => self.stop_recording_and_transcribe(),
            OverlayKey::Alt => {
                self.alt_state.press(now_ms);
                Vec::new()
            },
        }
    }

    /// One pass of the loop at `now_ms`: the click and Alt windows that
    /// have closed are read, then the hotkeys that fired; the drag ends.
    /// The gestures come in that order.
    pub fn about_to_wait(&mut self, now_ms: u64, poll: HotkeyPoll) -> (gestures: Vec<Gesture>)
        requires
            old(self).well_formed(),
        ensures
            final(self).well_formed(),
            gestures@ == gestures_due(*old(self), now_ms, poll),
            *final(self) == (App {
                click_state: clicks_after(old(self).click_state, now_ms, old(self).recorder.recording()),
                alt_state: alt_after(old(self).alt_state, now_ms),
                is_dragging: false,
                ..*old(self)
            }),
    {
        let mut gestures: Vec<Gesture> = Vec::new();
        let recording = self.is_recording();
        let mut will_record = recording;
        match self.click_state.expire(now_ms, recording) {
            ClickDecision::Stop => {
                gestures.push(Gesture::Stop);
                will_record = false;
            },
            ClickDecision::Start => {
                gestures.push(Gesture::Start);
                will_record = true;
            },
            ClickDecision::Nothing => {},
        }
        if self.alt_state.expire(now_ms, will_record) {
            gestures.push(Gesture::Start);
        }
        if poll.toggle_fired {
            gestures.push(Gesture::HotkeyToggle);
        }
        if poll.mode_switch_fired {
            gestures.push(Gesture::HotkeyModeSwitch);
        }
        self.is_dragging = false;
        assert(gestures@ =~= gestures_due(*old(self), now_ms, poll));
        gestures
    }

    /// Marks each call as in flight and asks the caller to run it.
    pub fn dispatch_tool_calls(&mut self, calls: Vec<FunctionCall>) -> (actions: Vec<Action>)
        requires
            old(self).well_formed(),
        ensures
            final(self).well_formed(),
            final(self).pending_tool_calls@ == old(self).pending_tool_calls@.union(
                call_ids(calls@, calls@.len() as int),
            ),
            actions@ == dispatches(calls@),
            final(self).visual == old(self).visual,
            final(self).recorder == old(self).recorder,
            final(self).player == old(self).player,
            final(self).client == old(self).client,
            final(self).gemini_connecting == old(self).gemini_connecting,
            final(self).recording_mode == old(self).recording_mode,
            settings_unchanged(*old(self), *final(self)),
    {
        let mut calls = calls;
        let ghost all = calls@;
        let mut actions: Vec<Action> = Vec::new();
        let n = calls.len();
        let mut i: usize = 0;
        while i < n
            invariant
                i <= n,
                n == all.len(),
                calls@ == all.skip(i as int),
                actions@ == dispatches(all.take(i as int)),
                self.pending_tool_calls@ == old(self).pending_tool_calls@.union(call_ids(all, i as int)),
                self.recording_mode == old(self).recording_mode,
                settings_unchanged(*old(self), *self),
                self.visual == old(self).visual,
                self.recorder == old(self).recorder,
                self.player == old(self).player,
                self.client == old(self).client,
                self.gemini_connecting == old(self).gemini_connecting,
                self.well_formed(),
            decreases n - i,
        {
            let ghost before = self.pending_tool_calls@;
            let call = calls.remove(0);
            assert(call == all[i as int]);
            self.pending_tool_calls.insert(call.id.clone());
            actions.push(Action::Dispatch(call));
            i += 1;
            proof {
                assert(calls@ =~= all.skip(i as int));
                assert(actions@ =~= dispatches(all.take(i as int)));
                let ids = ids_of_calls(all);
                assert forall|s: Seq<char>| call_ids(all, i as int).contains(s) <==> (call_ids(
                    all,
                    i - 1,
                ).contains(s) || s == all[i - 1].id@) by {
                    if call_ids(all, i - 1).contains(s) {
                        let k = choose|k: int| 0 <= k < i - 1 && k < ids.len() && (#[trigger] ids[k])@ == s;
                        assert(ids[k]@ == s);
                    }
                    if s == all[i - 1].id@ {
                        assert(ids[i - 1]@ == s);
                    }
                }
                assert(self.pending_tool_calls@ =~= old(self).pending_tool_calls@.union(
                    call_ids(all, i as int),
                ));
            }
        }
        assert(all.take(n as int) =~= all);
        actions
    }

    /// The service withdrew these calls: none of them is in flight any
    /// more, so none of their results will be answered.
    pub fn cancel_tool_calls(&mut self, ids: &Vec<String>)
        requires
            old(self).well_formed(),
        ensures
            final(self).well_formed(),
            final(self).pending_tool_calls@ == old(self).pending_tool_calls@.difference(
                ids_among(ids@, ids@.len() as int),
            ),
            final(self).visual == old(self).visual,
            final(self).recorder == old(self).recorder,
            final(self).player == old(self).player,
            final(self).client == old(self).client,
            final(self).gemini_connecting == old(self).gemini_connecting,
            final(self).recording_mode == old(self).recording_mode,
            settings_unchanged(*old(self), *final(self)),
    {
        let mut i: usize = 0;
        assert(self.pending_tool_calls@ =~= old(self).pending_tool_calls@.difference(ids_among(ids@, 0)));
        while i < ids.len()
            invariant
                i <= ids@.len(),
                self.pending_tool_calls@ == old(self).pending_tool_calls@.difference(ids_among(ids@, i as int)),
                self.recording_mode == old(self).recording_mode,
                settings_unchanged(*old(self), *self),
                self.visual == old(self).visual,
                self.recorder == old(self).recorder,
                self.player == old(self).player,
                self.client == old(self).client,
                self.gemini_connecting == old(self).gemini_connecting,
                self.well_formed(),
            decreases ids.len() - i,
        {
            let _ = self.pending_tool_calls.remove(ids[i].as_str());
            i += 1;
            proof {
                assert forall|s: Seq<char>| ids_among(ids@, i as int).contains(s) <==> (ids_among(
                    ids@,
                    i - 1,
                ).contains(s) || s == ids@[i - 1]@) by {
                    if ids_among(ids@, i - 1).contains(s) {
                        let k = choose|k: int| 0 <= k < i - 1 && k < ids@.len() && (#[trigger] ids@[k])@ == s;
                        assert(ids@[k]@ == s);
                    }
                    if s == ids@[i - 1]@ {
                        assert(ids@[i - 1]@ == s);
                    }
                }
                assert(self.pending_tool_calls@ =~= old(self).pending_tool_calls@.difference(
                    ids_among(ids@, i as int),
                ));
            }
        }
    }

    /// A tool finished. The result of a call that is still in flight is
    /// queued for the service and the call leaves flight; the result of any
    /// other call (withdrawn, or never dispatched) is dropped, and nothing
    /// is sent.
    pub fn tool_result(&mut self, call_id: String, name: String, result: Json) -> (actions: Vec<Action>)
        requires
            old(self).well_formed(),
        ensures
            final(self).well_formed(),
            final(self).pending_tool_calls@ == old(self).pending_tool_calls@.remove(call_id@),
            final(self).visual == old(self).visual,
            final(self).recorder == old(self).recorder,
            final(self).player == old(self).player,
            final(self).gemini_connecting == old(self).gemini_connecting,
            final(self).recording_mode == old(self).recording_mode,
            settings_unchanged(*old(self), *final(self)),
            !old(self).pending_tool_calls@.contains(call_id@) ==> actions@ == Seq::<Action>::empty()
                && final(self).client == old(self).client,
            old(self).pending_tool_calls@.contains(call_id@) ==> {
                &&& actions@ == seq![Action::Broadcast(Notice::VoiceToolResult { id: call_id, name })]
                &&& answered(
                    old(self).client,
                    final(self).client,
                    FunctionResponse { id: call_id, name, response: result },
                )
            },
    {
        let mut actions: Vec<Action> = Vec::new();
        if self.pending_tool_calls.remove(call_id.as_str()) {
            actions.push(Action::Broadcast(Notice::VoiceToolResult { id: call_id.clone(), name: name.clone() }));
            assert(actions@ =~= seq![Action::Broadcast(Notice::VoiceToolResult { id: call_id, name })]);
            match &mut self.client {
                Some(c) => {
                    let ghost before = c.outbound();
                    let mut responses: Vec<FunctionResponse> = Vec::new();
                    responses.push(FunctionResponse { id: call_id, name, response: result });
                    assert(responses@ =~= seq![FunctionResponse { id: call_id, name, response: result }]);
                    c.send_tool_response(responses);
                    assert(c.open() ==> c.outbound().drop_last() =~= before);
                },
                None => {},
            }
        }
        actions
    }

    /// One event from an asynchronous task, at `now_ms`.
    pub fn user_event(&mut self, event: AppEvent, now_ms: u64) -> (actions: Vec<Action>)
        requires
            old(self).well_formed(),
        ensures
            final(self).well_formed(),
            match event {
                AppEvent::TranscriptionComplete(text) => {
                    &&& *final(self) == (App {
                        last_transcript: text,
                        visual: VisualState {
                            state: OverlayState::Done,
                            done_start: if old(self).visual.state != OverlayState::Done {
                                Some(now_ms)
                            } else {
                                old(self).visual.done_start
                            },
                        },
                        ..*old(self)
                    })
                    &&& actions@ == seq![
                        Action::Broadcast(Notice::GroqComplete(text)),
                        Action::InjectText { text, target: old(self).previous_window_id },
                        Action::Redraw,
                    ]
                },
                AppEvent::TranscriptionError(err) => {
                    &&& *final(self) == (App {
                        visual: VisualState { state: OverlayState::Idle, done_start: old(self).visual.done_start },
                        ..*old(self)
                    })
                    &&& actions@ == seq![Action::Broadcast(Notice::GroqError(err)), Action::Redraw]
                },
                AppEvent::GeminiReady => {
                    &&& *final(self) == (App { gemini_connecting: false, ..*old(self) })
                    &&& actions@ == if old(self).recorder.recording() {
                        seq![Action::Broadcast(Notice::VoiceOpen), Action::Redraw]
                    } else {
                        seq![Action::Broadcast(Notice::VoiceOpen), Action::StartMic, Action::Redraw]
                    }
                },
                AppEvent::GeminiAudio(pcm) => {
                    &&& final(self).player.queued() == old(self).player.queued() + decode_s16le(pcm@)
                    &&& final(self).player.recent() == old(self).player.recent()
                    &&& final(self).player.playing() == old(self).player.playing()
                    &&& final(self).visual == (VisualState {
                        state: OverlayState::AISpeaking,
                        done_start: old(self).visual.done_start,
                    })
                    &&& session_unchanged(*old(self), *final(self))
                    &&& actions@ == if old(self).visual.state == OverlayState::AISpeaking {
                        seq![Action::Redraw]
                    } else {
                        seq![Action::Broadcast(Notice::VoiceSpeaking), Action::Redraw]
                    }
                },
                AppEvent::GeminiText(text) => {
                    &&& *final(self) == *old(self)
                    &&& actions@ == seq![Action::Broadcast(Notice::VoiceText(text))]
                },
                AppEvent::GeminiInterrupted => {
                    &&& final(self).player.queued() == Seq::<i16>::empty()
                    &&& final(self).player.recent() == Seq::<i16>::empty()
                    &&& final(self).player.playing() == old(self).player.playing()
                    &&& final(self).visual == (VisualState {
                        state: OverlayState::Listening,
                        done_start: old(self).visual.done_start,
                    })
                    &&& session_unchanged(*old(self), *final(self))
                    &&& actions@ == seq![Action::Broadcast(Notice::VoiceInterrupted), Action::Redraw]
                },
                AppEvent::GeminiTurnComplete => {
                    &&& *final(self) == (App {
                        visual: VisualState {
                            state: OverlayState::Listening,
                            done_start: old(self).visual.done_start,
                        },
                        ..*old(self)
                    })
                    &&& actions@ == seq![Action::Broadcast(Notice::VoiceListening), Action::Redraw]
                },
                AppEvent::GeminiToolCall(calls) => {
                    &&& final(self).pending_tool_calls@ == old(self).pending_tool_calls@.union(
                        call_ids(calls@, calls@.len() as int),
                    )
                    &&& actions@ == dispatches(calls@)
                    &&& final(self).client == old(self).client
                    &&& final(self).visual == old(self).visual
                    &&& final(self).player == old(self).player
                    &&& final(self).recorder == old(self).recorder
                    &&& final(self).gemini_connecting == old(self).gemini_connecting
                    &&& final(self).recording_mode == old(self).recording_mode
                    &&& settings_unchanged(*old(self), *final(self))
                },
                AppEvent::GeminiToolCallCancellation(ids) => {
                    &&& final(self).pending_tool_calls@ == old(self).pending_tool_calls@.difference(
                        ids_among(ids@, ids@.len() as int),
                    )
                    &&& actions@ == Seq::<Action>::empty()
                    &&& final(self).client == old(self).client
                    &&& final(self).visual == old(self).visual
                    &&& final(self).player == old(self).player
                    &&& final(self).recorder == old(self).recorder
                    &&& final(self).gemini_connecting == old(self).gemini_connecting
                    &&& final(self).recording_mode == old(self).recording_mode
                    &&& settings_unchanged(*old(self), *final(self))
                },
                AppEvent::ToolResult { call_id, name, result } => {
                    &&& final(self).pending_tool_calls@ == old(self).pending_tool_calls@.remove(call_id@)
                    &&& !old(self).pending_tool_calls@.contains(call_id@) ==> actions@ == Seq::<
                        Action,
                    >::empty() && final(self).client == old(self).client
                    &&& old(self).pending_tool_calls@.contains(call_id@) ==> actions@ == seq![
                        Action::Broadcast(Notice::VoiceToolResult { id: call_id, name }),
                    ] && answered(
                        old(self).client,
                        final(self).client,
                        FunctionResponse { id: call_id, name, response: result },
                    )
                    &&& final(self).visual == old(self).visual
                    &&& final(self).player == old(self).player
                    &&& final(self).recorder == old(self).recorder
                    &&& final(self).gemini_connecting == old(self).gemini_connecting
                    &&& final(self).recording_mode == old(self).recording_mode
                    &&& settings_unchanged(*old(self), *final(self))
                },
                AppEvent::GeminiError(err) => {
                    &&& final(self).disconnected()
                    &&& asked_to_close(old(self).client, final(self).client)
                    &&& final(self).pending_tool_calls == old(self).pending_tool_calls
                    &&& settings_unchanged(*old(self), *final(self))
                    &&& actions@.len() >= 2
                    &&& actions@[0] matches Action::Broadcast(Notice::VoiceClose(reason)) && reason@
                        == "error: "@ + err@
                    &&& actions@.skip(1) == disconnect_actions(old(self).recorder.recording()) + seq![
                        Action::Redraw,
                    ]
                },
                AppEvent::GeminiClosed(reason) => {
                    &&& final(self).disconnected()
                    &&& asked_to_close(old(self).client, final(self).client)
                    &&& final(self).pending_tool_calls == old(self).pending_tool_calls
                    &&& settings_unchanged(*old(self), *final(self))
                    &&& actions@ == seq![Action::Broadcast(Notice::VoiceClose(reason))] + disconnect_actions(
                        old(self).recorder.recording(),
                    ) + seq![Action::Redraw]
                },
            },
    {
        let mut actions: Vec<Action> = Vec::new();
        match event {
            AppEvent::TranscriptionComplete(text) => {
                actions.push(Action::Broadcast(Notice::GroqComplete(text.clone())));
                let mut more = self.handle_transcription_result(text, now_ms);
                actions.append(&mut more);
                actions.push(Action::Redraw);
                assert(actions@ =~= seq![
                    Action::Broadcast(Notice::GroqComplete(text)),
                    Action::InjectText { text, target: old(self).previous_window_id },
                    Action::Redraw,
                ]);
            },
            AppEvent::TranscriptionError(err) => {
                self.visual.set_state(OverlayState::Idle, now_ms);
                actions.push(Action::Broadcast(Notice::GroqError(err)));
                actions.push(Action::Redraw);
                assert(actions@ =~= seq![Action::Broadcast(Notice::GroqError(err)), Action::Redraw]);
            },
            AppEvent::GeminiReady => {
                self.gemini_connecting = false;
                actions.push(Action::Broadcast(Notice::VoiceOpen));
                if !self.is_recording() {
                    actions.push(Action::StartMic);
                }
                actions.push(Action::Redraw);
                assert(actions@ =~= if old(self).recorder.recording() {
                    seq![Action::Broadcast(Notice::VoiceOpen), Action::Redraw]
                } else {
                    seq![Action::Broadcast(Notice::VoiceOpen), Action::StartMic, Action::Redraw]
                });
            },
            AppEvent::GeminiAudio(pcm) => {
                self.player.enqueue(pcm.as_slice());
                if self.visual.state != OverlayState::AISpeaking {
                    actions.push(Action::Broadcast(Notice::VoiceSpeaking));
                    self.visual.set_state(OverlayState::AISpeaking, now_ms);
                }
                actions.push(Action::Redraw);
                assert(actions@ =~= if old(self).visual.state == OverlayState::AISpeaking {
                    seq![Action::Redraw]
                } else {
                    seq![Action::Broadcast(Notice::VoiceSpeaking), Action::Redraw]
                });
            },
            AppEvent::GeminiText(text) => {
                actions.push(Action::Broadcast(Notice::VoiceText(text)));
                assert(actions@ =~= seq![Action::Broadcast(Notice::VoiceText(text))]);
            },
            AppEvent::GeminiInterrupted => {
                self.player.clear();
                self.visual.set_state(OverlayState::Listening, now_ms);
                actions.push(Action::Broadcast(Notice::VoiceInterrupted));
                actions.push(Action::Redraw);
                assert(actions@ =~= seq![Action::Broadcast(Notice::VoiceInterrupted), Action::Redraw]);
            },
            AppEvent::GeminiTurnComplete => {
                self.visual.set_state(OverlayState::Listening, now_ms);
                actions.push(Action::Broadcast(Notice::VoiceListening));
                actions.push(Action::Redraw);
                assert(actions@ =~= seq![Action::Broadcast(Notice::VoiceListening), Action::Redraw]);
            },
            AppEvent::GeminiToolCall(calls) => {
                actions = self.dispatch_tool_calls(calls);
            },
            AppEvent::GeminiToolCallCancellation(ids) => {
                self.cancel_tool_calls(&ids);
            },
            AppEvent::ToolResult { call_id, name, result } => {
                actions = self.tool_result(call_id, name, result);
            },
            AppEvent::GeminiError(err) => {
                let reason = "error: ".to_owned().concat(err.as_str());
                actions.push(Action::Broadcast(Notice::VoiceClose(reason)));
                let ghost first = actions@;
                let mut more = self.disconnect_gemini();
                let ghost second = more@;
                actions.append(&mut more);
                actions.push(Action::Redraw);
                assert(actions@ =~= first + second + seq![Action::Redraw]);
                assert(actions@.skip(1) =~= second + seq![Action::Redraw]);
            },
            AppEvent::GeminiClosed(reason) => {
                actions.push(Action::Broadcast(Notice::VoiceClose(reason)));
                let ghost first = actions@;
                let mut more = self.disconnect_gemini();
                let ghost second = more@;
                actions.append(&mut more);
                actions.push(Action::Redraw);
                assert(first =~= seq![Action::Broadcast(Notice::VoiceClose(reason))]);
                assert(actions@ =~= first + second + seq![Action::Redraw]);
            },
        }
        actions
    }
}

/// A call that the service withdrew is not in flight afterwards, whatever
/// was in flight before: its result, when it comes, answers nothing.
pub proof fn withdrawn_call_is_not_in_flight(pending: Set<Seq<char>>, ids: Seq<String>, i: int)
    requires
        0 <= i < ids.len(),
    ensures
        !pending.difference(ids_among(ids, ids.len() as int)).contains(ids[i]@),
{
    assert(ids_among(ids, ids.len() as int).contains(ids[i]@));
}

/// Once a session has been attached in place of another, the halves that
/// name the other serve nothing: its writer has stopped and its reader is
/// not heard.
pub proof fn replaced_session_is_not_served(before: App, after: App)
    requires
        before.session_serial < u64::MAX,
        after.session_serial == next_serial(before.session_serial),
    ensures
        !after.serves(before.session_serial),
{
}

} // verus!
