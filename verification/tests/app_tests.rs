use mavoice::app::{Action, App, AppEvent, Gesture, Notice, OverlayKey};
use mavoice::hotkeys::HotkeyPoll;
use mavoice::capture::GroqRecorder;
use mavoice::json::Json;
use mavoice::overlay::{OverlayState, VoiceMode};
use mavoice::pcm::encode_wav;
use mavoice::protocol::{FunctionCall, GeminiEvent};
use mavoice::session::{GeminiLiveClient, Handshake, WriteStep};

fn new_app() -> App {
    App::new(GroqRecorder::new(16000).unwrap(), "groq", true)
}

fn live_app() -> App {
    let mut app = new_app();
    assert_eq!(app.connect_gemini(Ok(())), vec![Action::Connect]);
    app.attach_client(GeminiLiveClient::connect(Handshake::Established).unwrap());
    assert_eq!(
        app.user_event(AppEvent::GeminiReady, 0),
        vec![Action::Broadcast(Notice::VoiceOpen), Action::StartMic, Action::Redraw]
    );
    app.start_gemini_mic(Ok(()));
    assert_eq!(app.visual.state, OverlayState::Listening);
    app
}

fn call(id: &str, name: &str) -> FunctionCall {
    FunctionCall { id: id.to_string(), name: name.to_string(), args: Json::Null }
}

#[test]
fn the_configured_mode_is_read_from_its_name() {
    assert_eq!(new_app().mode, VoiceMode::Groq);
    assert_eq!(App::new(GroqRecorder::new(16000).unwrap(), "gemini", true).mode, VoiceMode::GeminiLive);
    assert_eq!(App::new(GroqRecorder::new(16000).unwrap(), "Gemini", true).mode, VoiceMode::Groq);
}

#[test]
fn batch_dictation_walks_through_its_phases() {
    let mut app = new_app();
    assert_eq!(app.visual.state, OverlayState::Idle);
    app.start_recording(Some("0x42".to_string()), Ok(()));
    assert_eq!(app.visual.state, OverlayState::Recording);
    assert!(app.is_recording());
    app.recorder.capture_frame(&[5, 6, 7]);
    let actions = app.stop_recording_and_transcribe();
    assert_eq!(
        actions,
        vec![
            Action::StopInput,
            Action::Broadcast(Notice::GroqStart),
            Action::Transcribe(encode_wav(16000, &[5, 6, 7]).unwrap()),
        ]
    );
    assert_eq!(app.visual.state, OverlayState::Processing);
    let actions = app.user_event(AppEvent::TranscriptionComplete("hello world".to_string()), 1_000);
    assert_eq!(
        actions,
        vec![
            Action::Broadcast(Notice::GroqComplete("hello world".to_string())),
            Action::InjectText { text: "hello world".to_string(), target: Some("0x42".to_string()) },
            Action::Redraw,
        ]
    );
    assert_eq!(app.visual.state, OverlayState::Done);
    assert_eq!(app.last_transcript, "hello world");
    assert!(app.visual.update(2_999));
    assert_eq!(app.visual.state, OverlayState::Done);
    assert!(!app.visual.update(3_000));
    assert_eq!(app.visual.state, OverlayState::Idle);
}

#[test]
fn a_failed_transcription_returns_to_idle_and_keeps_the_transcript() {
    let mut app = new_app();
    app.user_event(AppEvent::TranscriptionComplete("first".to_string()), 0);
    let actions = app.user_event(AppEvent::TranscriptionError("timeout".to_string()), 10);
    assert_eq!(actions, vec![Action::Broadcast(Notice::GroqError("timeout".to_string())), Action::Redraw]);
    assert_eq!(app.visual.state, OverlayState::Idle);
    assert_eq!(app.last_transcript, "first");
}

#[test]
fn an_empty_recording_returns_to_idle() {
    let mut app = new_app();
    app.start_recording(None, Ok(()));
    assert_eq!(app.stop_recording_and_transcribe(), vec![Action::StopInput]);
    assert_eq!(app.visual.state, OverlayState::Idle);
}

#[test]
fn a_device_that_does_not_open_leaves_the_overlay_alone() {
    let mut app = new_app();
    app.start_recording(None, Err("no mic".to_string()));
    assert!(!app.is_recording());
    assert_eq!(app.visual.state, OverlayState::Idle);
}

#[test]
fn connecting_needs_a_key_and_an_output() {
    let mut app = App::new(GroqRecorder::new(16000).unwrap(), "gemini", false);
    assert_eq!(app.connect_gemini(Ok(())), vec![]);
    assert!(!app.gemini_session_active());
    let mut app = new_app();
    assert_eq!(app.connect_gemini(Err("no speaker".to_string())), vec![]);
    assert!(!app.gemini_session_active());
    assert_eq!(app.connect_gemini(Ok(())), vec![Action::Connect]);
    assert!(app.gemini_session_active());
    assert_eq!(app.visual.state, OverlayState::Processing);
    assert_eq!(app.connect_gemini(Ok(())), vec![]);
}

#[test]
fn audio_toggles_speaking_and_turn_complete_returns_to_listening() {
    let mut app = live_app();
    let actions = app.user_event(AppEvent::GeminiAudio(vec![1, 0, 2, 0]), 5);
    assert_eq!(actions, vec![Action::Broadcast(Notice::VoiceSpeaking), Action::Redraw]);
    assert_eq!(app.visual.state, OverlayState::AISpeaking);
    assert_eq!(app.player.queued_len(), 2);
    let actions = app.user_event(AppEvent::GeminiAudio(vec![3, 0]), 6);
    assert_eq!(actions, vec![Action::Redraw]);
    assert_eq!(app.player.queued_len(), 3);
    let actions = app.user_event(AppEvent::GeminiTurnComplete, 7);
    assert_eq!(actions, vec![Action::Broadcast(Notice::VoiceListening), Action::Redraw]);
    assert_eq!(app.visual.state, OverlayState::Listening);
    assert_eq!(app.player.queued_len(), 3);
}

#[test]
fn interrupted_while_speaking_clears_playback_and_listens() {
    let mut app = live_app();
    app.user_event(AppEvent::GeminiAudio(vec![1, 0, 2, 0, 3, 0, 4, 0]), 1);
    assert_eq!(app.visual.state, OverlayState::AISpeaking);
    assert_eq!(app.player.render(1, 1), vec![1]);
    let actions = app.user_event(AppEvent::GeminiInterrupted, 2);
    assert_eq!(actions, vec![Action::Broadcast(Notice::VoiceInterrupted), Action::Redraw]);
    assert_eq!(app.visual.state, OverlayState::Listening);
    assert_eq!(app.player.queued_len(), 0);
    assert_eq!(app.player.render(3, 1), vec![0, 0, 0]);
    assert_eq!(app.player.get_output_levels(), [0, 0, 0, 0]);
}

#[test]
fn text_is_passed_to_the_dashboard() {
    let mut app = live_app();
    assert_eq!(
        app.user_event(AppEvent::GeminiText("hi".to_string()), 0),
        vec![Action::Broadcast(Notice::VoiceText("hi".to_string()))]
    );
    assert_eq!(app.visual.state, OverlayState::Listening);
}

#[test]
fn a_tool_result_is_sent_when_the_call_is_still_pending() {
    let mut app = live_app();
    let actions = app.user_event(AppEvent::GeminiToolCall(vec![call("a", "remember"), call("b", "run_command")]), 0);
    assert_eq!(actions, vec![Action::Dispatch(call("a", "remember")), Action::Dispatch(call("b", "run_command"))]);
    assert!(app.pending_tool_calls.contains("a"));
    assert!(app.pending_tool_calls.contains("b"));
    let actions = app.user_event(
        AppEvent::ToolResult { call_id: "a".to_string(), name: "remember".to_string(), result: Json::Bool(true) },
        1,
    );
    assert_eq!(
        actions,
        vec![Action::Broadcast(Notice::VoiceToolResult { id: "a".to_string(), name: "remember".to_string() })]
    );
    assert!(!app.pending_tool_calls.contains("a"));
    assert!(app.pending_tool_calls.contains("b"));
    let client = app.client.as_mut().unwrap();
    assert_eq!(
        client.next_outbound(),
        WriteStep::Send(
            "{\"toolResponse\":{\"functionResponses\":[{\"id\":\"a\",\"name\":\"remember\",\"response\":true}]}}"
                .to_string()
        )
    );
}

#[test]
fn a_cancelled_call_is_never_answered() {
    let mut app = live_app();
    app.user_event(AppEvent::GeminiToolCall(vec![call("x", "ask_claude"), call("y", "remember")]), 0);
    assert_eq!(app.user_event(AppEvent::GeminiToolCallCancellation(vec!["x".to_string(), "zz".to_string()]), 1), vec![]);
    assert!(!app.pending_tool_calls.contains("x"));
    assert!(app.pending_tool_calls.contains("y"));
    let actions = app.user_event(
        AppEvent::ToolResult { call_id: "x".to_string(), name: "ask_claude".to_string(), result: Json::Null },
        2,
    );
    assert_eq!(actions, vec![]);
    assert_eq!(app.client.as_ref().unwrap().pending_commands(), 0);
    assert_eq!(app.client.as_mut().unwrap().next_outbound(), WriteStep::Idle);
}

#[test]
fn a_result_is_answered_once() {
    let mut app = live_app();
    app.user_event(AppEvent::GeminiToolCall(vec![call("x", "remember")]), 0);
    let result = || AppEvent::ToolResult { call_id: "x".to_string(), name: "remember".to_string(), result: Json::Null };
    assert_eq!(app.user_event(result(), 1).len(), 1);
    assert_eq!(app.user_event(result(), 2), vec![]);
    assert_eq!(app.client.as_ref().unwrap().pending_commands(), 1);
}

#[test]
fn closed_and_error_events_return_to_idle() {
    let mut app = live_app();
    app.user_event(AppEvent::GeminiAudio(vec![1, 0]), 0);
    let actions = app.user_event(AppEvent::GeminiClosed("code=1000, reason=".to_string()), 1);
    assert_eq!(
        actions,
        vec![
            Action::Broadcast(Notice::VoiceClose("code=1000, reason=".to_string())),
            Action::StopInput,
            Action::Redraw,
        ]
    );
    assert_eq!(app.visual.state, OverlayState::Idle);
    assert!(!app.is_recording());
    assert!(!app.gemini_session_active());
    assert_eq!(app.player.queued_len(), 0);
    assert_eq!(app.client.as_mut().unwrap().next_outbound(), WriteStep::CloseTransport);

    let mut app = live_app();
    let actions = app.user_event(AppEvent::GeminiError("boom".to_string()), 1);
    assert_eq!(
        actions,
        vec![Action::Broadcast(Notice::VoiceClose("error: boom".to_string())), Action::StopInput, Action::Redraw]
    );
    assert_eq!(app.visual.state, OverlayState::Idle);
    assert!(!app.gemini_session_active());
}

#[test]
fn a_failed_connection_returns_to_idle() {
    let mut app = new_app();
    app.connect_gemini(Ok(()));
    let actions = app.user_event(AppEvent::GeminiError("WebSocket connect failed: dns".to_string()), 1);
    assert_eq!(
        actions,
        vec![Action::Broadcast(Notice::VoiceClose("error: WebSocket connect failed: dns".to_string())), Action::Redraw]
    );
    assert!(!app.gemini_session_active());
    assert_eq!(app.visual.state, OverlayState::Idle);
}

#[test]
fn the_batch_hotkey_ends_a_live_session_first() {
    let mut app = live_app();
    app.user_event(AppEvent::GeminiAudio(vec![1, 0, 2, 0]), 0);
    let actions = app.hotkey_toggle(Some("7".to_string()), Ok(()));
    assert_eq!(actions, vec![Action::StopInput]);
    assert!(!app.gemini_session_active());
    assert!(!app.client.as_ref().unwrap().is_open());
    assert_eq!(app.player.queued_len(), 0);
    assert!(app.is_recording());
    assert_eq!(app.visual.state, OverlayState::Recording);
    assert_eq!(app.mode, VoiceMode::Groq);
    assert_eq!(app.recording_mode, Some(VoiceMode::Groq));
    assert_eq!(app.recorder.capture_frame(&[1]), None);
}

#[test]
fn the_live_hotkey_stops_a_batch_recording_first() {
    let mut app = new_app();
    assert_eq!(app.hotkey_toggle(None, Ok(())), vec![]);
    assert!(app.is_recording());
    app.recorder.capture_frame(&[1, 2, 3]);
    let actions = app.hotkey_mode_switch(Ok(()));
    assert_eq!(actions, vec![Action::StopInput, Action::Connect]);
    assert!(!app.is_recording());
    assert!(app.gemini_session_active());
    assert_eq!(app.mode, VoiceMode::GeminiLive);
    assert_eq!(app.visual.state, OverlayState::Processing);
}

#[test]
fn the_live_hotkey_toggles_the_session_off() {
    let mut app = live_app();
    let actions = app.hotkey_mode_switch(Ok(()));
    assert_eq!(actions, vec![Action::StopInput]);
    assert!(!app.gemini_session_active());
    assert_eq!(app.visual.state, OverlayState::Idle);
}

#[test]
fn starting_a_batch_recording_while_connecting_gives_up_the_connection() {
    let mut app = new_app();
    app.connect_gemini(Ok(()));
    app.start_recording(None, Ok(()));
    assert!(app.is_recording());
    assert!(!app.gemini_session_active());
    app.attach_client(GeminiLiveClient::connect(Handshake::Established).unwrap());
    assert!(!app.gemini_session_active());
    assert!(!app.client.as_ref().unwrap().is_open());
    assert_eq!(app.client.as_mut().unwrap().next_outbound(), WriteStep::CloseTransport);
}

#[test]
fn the_live_microphone_streams_to_the_sink() {
    let mut app = live_app();
    assert!(app.is_recording());
    assert_eq!(app.recorder.capture_frame(&[1, 2]), Some(vec![1, 0, 2, 0]));
    app.disconnect_gemini();
    assert_eq!(app.recorder.capture_frame(&[1, 2]), None);
}

#[test]
fn notices_have_their_dashboard_names() {
    assert_eq!(Notice::GroqStart.event_type(), "groq:start");
    assert_eq!(Notice::GroqComplete(String::new()).event_type(), "groq:complete");
    assert_eq!(Notice::GroqError(String::new()).event_type(), "groq:error");
    assert_eq!(Notice::VoiceOpen.event_type(), "voice:open");
    assert_eq!(Notice::VoiceSpeaking.event_type(), "voice:speaking");
    assert_eq!(Notice::VoiceText(String::new()).event_type(), "voice:text");
    assert_eq!(Notice::VoiceInterrupted.event_type(), "voice:interrupted");
    assert_eq!(Notice::VoiceListening.event_type(), "voice:listening");
    assert_eq!(Notice::VoiceToolResult { id: String::new(), name: String::new() }.event_type(), "voice:tool_result");
    assert_eq!(Notice::VoiceClose(String::new()).event_type(), "voice:close");
}

const QUIET: HotkeyPoll = HotkeyPoll { toggle_fired: false, mode_switch_fired: false };

#[test]
fn a_double_click_asks_for_a_recording_and_one_click_ends_it() {
    let mut app = new_app();
    assert!(app.left_click(1_000));
    assert!(app.left_click(1_100));
    assert_eq!(app.about_to_wait(1_200, QUIET), vec![]);
    assert_eq!(app.about_to_wait(1_380, QUIET), vec![Gesture::Start]);
    app.start_recording(None, Ok(()));
    assert!(!app.left_click(1_500));
    assert!(app.left_click(1_880));
    assert_eq!(app.about_to_wait(2_160, QUIET), vec![Gesture::Stop]);
    assert_eq!(app.about_to_wait(9_999, QUIET), vec![]);
}

#[test]
fn clicks_while_dragging_do_not_count() {
    let mut app = new_app();
    app.right_click();
    assert!(app.is_dragging);
    assert!(!app.left_click(10));
    assert_eq!(app.about_to_wait(20, QUIET), vec![]);
    assert!(!app.is_dragging);
    assert!(app.left_click(30));
}

#[test]
fn keys_on_the_overlay() {
    let mut app = new_app();
    assert_eq!(app.key_pressed(OverlayKey::Space, 0), vec![]);
    assert_eq!(app.key_pressed(OverlayKey::Alt, 100), vec![]);
    assert_eq!(app.key_pressed(OverlayKey::Alt, 200), vec![]);
    assert_eq!(app.about_to_wait(599, QUIET), vec![]);
    assert_eq!(app.about_to_wait(600, QUIET), vec![Gesture::Start]);
    app.start_recording(None, Ok(()));
    app.recorder.capture_frame(&[1]);
    let actions = app.key_pressed(OverlayKey::Space, 700);
    assert_eq!(actions.len(), 3);
    assert_eq!(actions[0], Action::StopInput);
    assert_eq!(app.visual.state, OverlayState::Processing);
}

#[test]
fn gestures_come_in_order_and_a_recording_is_asked_for_once() {
    let mut app = new_app();
    app.left_click(0);
    app.left_click(10);
    app.key_pressed(OverlayKey::Alt, 0);
    app.key_pressed(OverlayKey::Alt, 10);
    let both = HotkeyPoll { toggle_fired: true, mode_switch_fired: true };
    assert_eq!(
        app.about_to_wait(1_000, both),
        vec![Gesture::Start, Gesture::HotkeyToggle, Gesture::HotkeyModeSwitch]
    );
    assert_eq!(app.about_to_wait(1_001, QUIET), vec![]);
}

#[test]
fn microphone_frames_reach_the_service_while_the_session_is_open() {
    let mut app = live_app();
    app.microphone_frame(&[1, -1]);
    assert_eq!(
        app.client.as_mut().unwrap().next_outbound(),
        WriteStep::Send(
            "{\"realtimeInput\":{\"audio\":{\"data\":\"AQD//w==\",\"mimeType\":\"audio/pcm;rate=16000\"}}}"
                .to_string()
        )
    );
    assert!(app.client.as_mut().unwrap().on_close("bye".to_string()).is_some());
    app.microphone_frame(&[2]);
    assert_eq!(app.client.as_mut().unwrap().next_outbound(), WriteStep::Idle);
}

#[test]
fn microphone_frames_of_a_dictation_stay_local() {
    let mut app = new_app();
    app.microphone_frame(&[9]);
    app.start_recording(None, Ok(()));
    app.microphone_frame(&[1, 2]);
    let actions = app.stop_recording_and_transcribe();
    assert_eq!(actions[2], Action::Transcribe(encode_wav(16000, &[1, 2]).unwrap()));
    assert!(app.client.is_none());
}

#[test]
fn session_events_are_carried_over_with_what_they_hold() {
    assert_eq!(AppEvent::from_gemini(GeminiEvent::Ready), AppEvent::GeminiReady);
    assert_eq!(AppEvent::from_gemini(GeminiEvent::Audio(vec![1, 2])), AppEvent::GeminiAudio(vec![1, 2]));
    assert_eq!(AppEvent::from_gemini(GeminiEvent::Text("t".to_string())), AppEvent::GeminiText("t".to_string()));
    assert_eq!(AppEvent::from_gemini(GeminiEvent::Interrupted), AppEvent::GeminiInterrupted);
    assert_eq!(AppEvent::from_gemini(GeminiEvent::TurnComplete), AppEvent::GeminiTurnComplete);
    assert_eq!(
        AppEvent::from_gemini(GeminiEvent::ToolCall(vec![call("a", "b")])),
        AppEvent::GeminiToolCall(vec![call("a", "b")])
    );
    assert_eq!(
        AppEvent::from_gemini(GeminiEvent::ToolCallCancellation(vec!["a".to_string()])),
        AppEvent::GeminiToolCallCancellation(vec!["a".to_string()])
    );
    assert_eq!(AppEvent::from_gemini(GeminiEvent::Error("e".to_string())), AppEvent::GeminiError("e".to_string()));
    assert_eq!(AppEvent::from_gemini(GeminiEvent::Closed("c".to_string())), AppEvent::GeminiClosed("c".to_string()));
}

#[test]
fn the_halves_of_a_replaced_session_reach_nothing() {
    let mut app = new_app();
    app.connect_gemini(Ok(()));
    let first = app.attach_client(GeminiLiveClient::connect(Handshake::Established).unwrap());
    assert_eq!(first, 1);
    assert_eq!(app.inbound_message(first, "{\"setupComplete\":{}}"), vec![GeminiEvent::Ready]);
    app.disconnect_gemini();
    app.connect_gemini(Ok(()));
    let second = app.attach_client(GeminiLiveClient::connect(Handshake::Established).unwrap());
    assert_eq!(second, 2);
    app.client.as_mut().unwrap().send_text("for the new session");

    assert_eq!(app.outbound_step(first), WriteStep::Stopped);
    assert_eq!(app.inbound_message(first, "{\"setupComplete\":{}}"), vec![]);
    assert_eq!(app.inbound_close(first, "old".to_string()), None);
    assert_eq!(app.inbound_error(first, "old".to_string()), None);
    app.outbound_failed(first);
    app.inbound_end(first);
    assert!(app.client.as_ref().unwrap().is_open());
    assert!(!app.client.as_ref().unwrap().is_ready());

    assert!(matches!(app.outbound_step(second), WriteStep::Send(_)));
    assert_eq!(app.outbound_step(second), WriteStep::Idle);
    assert_eq!(app.inbound_message(second, "{\"setupComplete\":{}}"), vec![GeminiEvent::Ready]);
    assert_eq!(app.inbound_close(second, "bye".to_string()), Some(GeminiEvent::Closed("bye".to_string())));
    assert_eq!(app.inbound_error(second, "late".to_string()), None);
    assert_eq!(app.inbound_message(second, "{\"serverContent\":{\"turnComplete\":true}}"), vec![]);
    assert!(!app.client.as_ref().unwrap().is_open());
}

#[test]
fn a_transport_without_a_session_is_stopped() {
    let mut app = new_app();
    assert_eq!(app.outbound_step(0), WriteStep::Stopped);
    assert_eq!(app.inbound_message(0, "{\"setupComplete\":{}}"), vec![]);
    assert_eq!(app.inbound_close(0, "x".to_string()), None);
    assert_eq!(app.inbound_error(0, "x".to_string()), None);
}

#[test]
fn a_recording_with_samples_is_always_handed_on() {
    for n in [1usize, 2, 1000, 16000] {
        let mut app = new_app();
        app.start_recording(None, Ok(()));
        let samples: Vec<i16> = (0..n).map(|i| (i % 100) as i16 - 50).collect();
        app.microphone_frame(&samples);
        let actions = app.stop_recording_and_transcribe();
        assert_eq!(actions.len(), 3);
        assert_eq!(actions[2], Action::Transcribe(encode_wav(16000, &samples).unwrap()));
        assert_eq!(app.visual.state, OverlayState::Processing);
    }
}
