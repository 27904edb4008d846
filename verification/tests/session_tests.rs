use mavoice::json::{Json, Member};
use mavoice::protocol::{FunctionResponse, GeminiEvent};
use mavoice::session::{
    close_reason, ConnectError, GeminiLiveClient, Handshake, SessionPhase, WriteStep, ENDPOINT_PREFIX,
};

fn open_client() -> GeminiLiveClient {
    GeminiLiveClient::connect(Handshake::Established).unwrap()
}

#[test]
fn connect_then_setup_complete_then_audio() {
    let mut client = open_client();
    assert!(client.is_open());
    assert!(!client.is_ready());
    assert_eq!(client.on_message("{\"setupComplete\":{}}"), vec![GeminiEvent::Ready]);
    assert!(client.is_ready());
    let pcm: Vec<u8> = vec![0x10, 0x00, 0xf0, 0xff, 0x00, 0x40];
    let text = "{\"serverContent\":{\"modelTurn\":{\"parts\":[{\"inlineData\":{\"data\":\"EADw/wBA\"}}]}}}";
    assert_eq!(client.on_message(text), vec![GeminiEvent::Audio(pcm)]);
    assert!(client.is_ready());
}

#[test]
fn without_setup_complete_the_session_is_never_ready() {
    let mut client = open_client();
    for text in [
        "{\"serverContent\":{\"turnComplete\":true}}",
        "{\"serverContent\":{\"modelTurn\":{\"parts\":[{\"text\":\"setupComplete\"}]}}}",
        "{\"goAway\":{}}",
        "{\"toolCall\":{\"functionCalls\":[]}}",
        "not json",
        "{\"setup\":{}}",
    ] {
        let events = client.on_message(text);
        assert!(!events.contains(&GeminiEvent::Ready));
        assert!(!client.is_ready());
    }
}

#[test]
fn a_failed_transport_creates_no_session() {
    let made = GeminiLiveClient::connect(Handshake::TransportFailed("refused".to_string()));
    match made {
        Err(e) => {
            assert_eq!(e, ConnectError::Transport("refused".to_string()));
            assert_eq!(e.message(), "WebSocket connect failed: refused");
        }
        Ok(_) => panic!("a session was created"),
    }
}

#[test]
fn a_failed_setup_send_creates_no_session() {
    let made = GeminiLiveClient::connect(Handshake::SetupFailed("broken pipe".to_string()));
    match made {
        Err(e) => {
            assert_eq!(e, ConnectError::Setup("broken pipe".to_string()));
            assert_eq!(e.message(), "Failed to send setup: broken pipe");
        }
        Ok(_) => panic!("a session was created"),
    }
}

#[test]
fn endpoint_carries_the_key() {
    assert_eq!(GeminiLiveClient::endpoint("k123"), format!("{}k123", ENDPOINT_PREFIX));
    assert!(ENDPOINT_PREFIX.starts_with("wss://generativelanguage.googleapis.com/ws/"));
    assert!(ENDPOINT_PREFIX.ends_with("BidiGenerateContent?key="));
}

#[test]
fn handshake_names_model_voice_and_instruction() {
    let text = GeminiLiveClient::handshake("Kore", "Be kind.");
    assert_eq!(
        text,
        "{\"setup\":{\"generationConfig\":{\"responseModalities\":[\"AUDIO\"],\"speechConfig\":{\"voiceConfig\":{\"prebuiltVoiceConfig\":{\"voiceName\":\"Kore\"}}}},\"model\":\"models/gemini-2.5-flash-native-audio-preview-12-2025\",\"systemInstruction\":{\"parts\":[{\"text\":\"Be kind.\"}]}}}"
    );
}

#[test]
fn commands_leave_in_the_order_they_were_queued() {
    let mut client = open_client();
    client.send_activity_start();
    client.send_audio(&[1, 2, 3]);
    client.send_text("hi");
    client.send_activity_end();
    assert_eq!(client.pending_commands(), 4);
    assert_eq!(
        client.next_outbound(),
        WriteStep::Send("{\"realtimeInput\":{\"activityStart\":{}}}".to_string())
    );
    assert_eq!(
        client.next_outbound(),
        WriteStep::Send(
            "{\"realtimeInput\":{\"audio\":{\"data\":\"AQID\",\"mimeType\":\"audio/pcm;rate=16000\"}}}".to_string()
        )
    );
    assert_eq!(
        client.next_outbound(),
        WriteStep::Send(
            "{\"clientContent\":{\"turnComplete\":true,\"turns\":[{\"parts\":[{\"text\":\"hi\"}],\"role\":\"user\"}]}}"
                .to_string()
        )
    );
    assert_eq!(client.next_outbound(), WriteStep::Send("{\"realtimeInput\":{\"activityEnd\":{}}}".to_string()));
    assert_eq!(client.next_outbound(), WriteStep::Idle);
    assert!(client.is_open());
}

#[test]
fn close_flushes_what_waits_and_then_ends_the_writer() {
    let mut client = open_client();
    client.send_text("last words");
    client.close();
    assert!(!client.is_open());
    assert!(matches!(client.next_outbound(), WriteStep::Send(_)));
    assert_eq!(client.next_outbound(), WriteStep::CloseTransport);
    assert_eq!(client.next_outbound(), WriteStep::Stopped);
    assert_eq!(client.next_outbound(), WriteStep::Stopped);
}

#[test]
fn close_twice_is_safe_and_queues_one_close() {
    let mut client = open_client();
    client.close();
    assert_eq!(client.pending_commands(), 1);
    client.close();
    assert_eq!(client.pending_commands(), 1);
    assert!(!client.is_open());
}

#[test]
fn nothing_is_accepted_after_close() {
    let mut client = open_client();
    client.close();
    client.send_audio(&[1, 2]);
    client.send_text("x");
    client.send_activity_start();
    client.send_activity_end();
    client.send_tool_response(vec![FunctionResponse {
        id: "a".to_string(),
        name: "b".to_string(),
        response: Json::Null,
    }]);
    assert_eq!(client.pending_commands(), 1);
}

#[test]
fn a_closed_event_closes_the_session() {
    let mut client = open_client();
    assert_eq!(
        client.on_close("code=1000, reason=bye".to_string()),
        Some(GeminiEvent::Closed("code=1000, reason=bye".to_string()))
    );
    assert!(!client.is_open());
    client.send_text("late");
    assert_eq!(client.pending_commands(), 0);
}

#[test]
fn an_error_event_closes_the_session() {
    let mut client = open_client();
    assert_eq!(client.on_error("reset".to_string()), Some(GeminiEvent::Error("reset".to_string())));
    assert!(!client.is_open());
}

#[test]
fn a_failed_write_stops_the_writer() {
    let mut client = open_client();
    client.send_text("a");
    client.send_text("b");
    assert!(matches!(client.next_outbound(), WriteStep::Send(_)));
    client.write_failed();
    assert!(!client.is_open());
    assert_eq!(client.next_outbound(), WriteStep::Stopped);
}

#[test]
fn malformed_messages_do_not_end_the_session() {
    let mut client = open_client();
    assert_eq!(client.on_message("{{{{"), vec![]);
    assert!(client.is_open());
    assert_eq!(client.on_message("{\"serverContent\":{\"turnComplete\":true}}"), vec![GeminiEvent::TurnComplete]);
}

#[test]
fn tool_response_goes_out_in_its_envelope() {
    let mut client = open_client();
    client.send_tool_response(vec![FunctionResponse {
        id: "c9".to_string(),
        name: "run_command".to_string(),
        response: Json::Object(vec![Member::new("exit_code", Json::Number("0".to_string()))]),
    }]);
    assert_eq!(
        client.next_outbound(),
        WriteStep::Send(
            "{\"toolResponse\":{\"functionResponses\":[{\"id\":\"c9\",\"name\":\"run_command\",\"response\":{\"exit_code\":0}}]}}"
                .to_string()
        )
    );
}

#[test]
fn a_session_walks_through_its_phases() {
    let mut client = open_client();
    assert_eq!(client.phase(), SessionPhase::Connecting);
    client.on_message("{\"setupComplete\":{}}");
    assert_eq!(client.phase(), SessionPhase::Open);
    client.close();
    assert_eq!(client.phase(), SessionPhase::Closing);
    assert_eq!(client.next_outbound(), WriteStep::CloseTransport);
    assert_eq!(client.phase(), SessionPhase::Closed);
}

#[test]
fn errors_are_reachable_from_every_phase() {
    let mut connecting = open_client();
    connecting.on_error("x".to_string());
    assert_eq!(connecting.phase(), SessionPhase::Errored);
    let mut open = open_client();
    open.on_message("{\"setupComplete\":{}}");
    open.write_failed();
    assert_eq!(open.phase(), SessionPhase::Errored);
    let mut closing = open_client();
    closing.close();
    closing.on_error("x".to_string());
    assert_eq!(closing.phase(), SessionPhase::Errored);
    let mut closed = open_client();
    closed.on_close("bye".to_string());
    assert_eq!(closed.phase(), SessionPhase::Closed);
    closed.write_failed();
    assert_eq!(closed.phase(), SessionPhase::Errored);
}

#[test]
fn close_reasons() {
    assert_eq!(close_reason(Some((1000, "bye"))), "code=1000, reason=bye");
    assert_eq!(close_reason(Some((0, ""))), "code=0, reason=");
    assert_eq!(close_reason(Some((65535, "x"))), "code=65535, reason=x");
    assert_eq!(close_reason(None), "no frame");
}

#[test]
fn the_end_of_the_reading_half_is_told_once_and_nothing_follows() {
    let mut client = open_client();
    assert_eq!(client.on_close("bye".to_string()), Some(GeminiEvent::Closed("bye".to_string())));
    assert!(!client.is_open());
    assert_eq!(client.on_close("again".to_string()), None);
    assert_eq!(client.on_error("late".to_string()), None);
    assert_eq!(client.phase(), SessionPhase::Closed);
    assert_eq!(client.on_message("{\"setupComplete\":{}}"), vec![]);
    assert!(!client.is_ready());
    assert_eq!(client.on_message("{\"serverContent\":{\"turnComplete\":true}}"), vec![]);

    let mut failed = open_client();
    assert_eq!(failed.on_error("reset".to_string()), Some(GeminiEvent::Error("reset".to_string())));
    assert_eq!(failed.on_close("bye".to_string()), None);
    assert_eq!(failed.on_error("reset".to_string()), None);
    assert_eq!(failed.on_message("{\"serverContent\":{\"interrupted\":true}}"), vec![]);
    assert_eq!(failed.phase(), SessionPhase::Errored);
}

#[test]
fn a_stream_that_just_ends_closes_the_session_without_an_event() {
    let mut client = open_client();
    client.on_stream_end();
    assert!(!client.is_open());
    assert_eq!(client.phase(), SessionPhase::Closed);
    assert_eq!(client.on_close("bye".to_string()), None);
    assert_eq!(client.on_message("{\"setupComplete\":{}}"), vec![]);
}

#[test]
fn the_writer_still_sends_the_close_after_the_reader_ended() {
    let mut client = open_client();
    client.send_text("queued");
    client.on_close("bye".to_string());
    client.close();
    assert!(matches!(client.next_outbound(), WriteStep::Send(_)));
    assert_eq!(client.next_outbound(), WriteStep::CloseTransport);
    assert_eq!(client.next_outbound(), WriteStep::Stopped);
}
