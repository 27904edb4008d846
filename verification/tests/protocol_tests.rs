use mavoice::json::{Json, Member};
use mavoice::protocol::{
    classify_message, command_message, encode_command, parse_server_message, setup_message, ClientCommand,
    FunctionCall, FunctionResponse, GeminiEvent, DEFAULT_MODEL,
};

#[test]
fn setup_complete_gives_ready() {
    assert_eq!(parse_server_message("{\"setupComplete\":{}}"), vec![GeminiEvent::Ready]);
}

#[test]
fn setup_complete_wins_over_other_keys() {
    let text = "{\"serverContent\":{\"interrupted\":true},\"setupComplete\":{}}";
    assert_eq!(parse_server_message(text), vec![GeminiEvent::Ready]);
}

#[test]
fn go_away_gives_no_event() {
    assert_eq!(parse_server_message("{\"goAway\":{\"timeLeft\":\"10s\"}}"), vec![]);
}

#[test]
fn malformed_text_is_dropped() {
    assert_eq!(parse_server_message("{not json"), vec![]);
    assert_eq!(parse_server_message(""), vec![]);
}

#[test]
fn a_message_that_is_no_object_gives_no_event() {
    assert_eq!(parse_server_message("[1,2,3]"), vec![]);
    assert_eq!(parse_server_message("\"setupComplete\""), vec![]);
    assert_eq!(parse_server_message("{\"somethingElse\":1}"), vec![]);
}

#[test]
fn inline_audio_is_decoded_exactly() {
    let text = "{\"serverContent\":{\"modelTurn\":{\"parts\":[{\"inlineData\":{\"mimeType\":\"audio/pcm;rate=24000\",\"data\":\"AAH/fw==\"}}]}}}";
    assert_eq!(parse_server_message(text), vec![GeminiEvent::Audio(vec![0x00, 0x01, 0xff, 0x7f])]);
}

#[test]
fn invalid_base64_audio_is_skipped_but_text_is_kept() {
    let text = "{\"serverContent\":{\"modelTurn\":{\"parts\":[{\"inlineData\":{\"data\":\"@@@\"},\"text\":\"hello\"}]}}}";
    assert_eq!(parse_server_message(text), vec![GeminiEvent::Text("hello".to_string())]);
}

#[test]
fn parts_come_out_in_order_audio_before_text() {
    let text = "{\"serverContent\":{\"modelTurn\":{\"parts\":[{\"text\":\"a\"},{\"text\":\"b\",\"inlineData\":{\"data\":\"AQID\"}},{\"other\":1}]}}}";
    assert_eq!(
        parse_server_message(text),
        vec![
            GeminiEvent::Text("a".to_string()),
            GeminiEvent::Audio(vec![1, 2, 3]),
            GeminiEvent::Text("b".to_string()),
        ]
    );
}

#[test]
fn interrupted_wins_over_turn_complete_and_parts() {
    let text = "{\"serverContent\":{\"interrupted\":true,\"turnComplete\":true,\"modelTurn\":{\"parts\":[{\"text\":\"x\"}]}}}";
    assert_eq!(parse_server_message(text), vec![GeminiEvent::Interrupted]);
}

#[test]
fn turn_complete_wins_over_parts() {
    let text = "{\"serverContent\":{\"turnComplete\":true,\"modelTurn\":{\"parts\":[{\"text\":\"x\"}]}}}";
    assert_eq!(parse_server_message(text), vec![GeminiEvent::TurnComplete]);
}

#[test]
fn a_false_flag_does_not_count() {
    let text = "{\"serverContent\":{\"interrupted\":false,\"turnComplete\":\"true\",\"modelTurn\":{\"parts\":[{\"text\":\"x\"}]}}}";
    assert_eq!(parse_server_message(text), vec![GeminiEvent::Text("x".to_string())]);
}

#[test]
fn transcriptions_give_no_event() {
    let text = "{\"serverContent\":{\"outputTranscription\":{\"text\":\"hi\"},\"inputTranscription\":{\"text\":\"yo\"}}}";
    assert_eq!(parse_server_message(text), vec![]);
}

#[test]
fn tool_call_carries_id_name_and_arguments() {
    let text = "{\"toolCall\":{\"functionCalls\":[{\"id\":\"c1\",\"name\":\"search_memory\",\"args\":{\"query\":\"tea\",\"limit\":3}},{\"name\":\"bare\"}]}}";
    let events = parse_server_message(text);
    let args = Json::Object(vec![
        Member { key: "limit".to_string(), value: Json::Number("3".to_string()) },
        Member { key: "query".to_string(), value: Json::Text("tea".to_string()) },
    ]);
    assert_eq!(
        events,
        vec![GeminiEvent::ToolCall(vec![
            FunctionCall { id: "c1".to_string(), name: "search_memory".to_string(), args },
            FunctionCall { id: String::new(), name: "bare".to_string(), args: Json::Null },
        ])]
    );
}

#[test]
fn tool_call_without_a_list_gives_no_event() {
    assert_eq!(parse_server_message("{\"toolCall\":{}}"), vec![]);
    assert_eq!(parse_server_message("{\"toolCall\":{\"functionCalls\":7}}"), vec![]);
}

#[test]
fn cancellation_lists_the_text_ids() {
    let text = "{\"toolCallCancellation\":{\"ids\":[\"c1\",5,\"c2\"]}}";
    assert_eq!(
        parse_server_message(text),
        vec![GeminiEvent::ToolCallCancellation(vec!["c1".to_string(), "c2".to_string()])]
    );
}

#[test]
fn classify_reads_a_document_built_by_hand() {
    let msg = Json::Object(vec![Member {
        key: "serverContent".to_string(),
        value: Json::Object(vec![Member { key: "turnComplete".to_string(), value: Json::Bool(true) }]),
    }]);
    assert_eq!(classify_message(&msg), vec![GeminiEvent::TurnComplete]);
}

#[test]
fn setup_message_has_the_normative_shape() {
    let text = setup_message("models/m", "Kore", "Be brief.").render();
    assert_eq!(
        text,
        "{\"setup\":{\"generationConfig\":{\"responseModalities\":[\"AUDIO\"],\"speechConfig\":{\"voiceConfig\":{\"prebuiltVoiceConfig\":{\"voiceName\":\"Kore\"}}}},\"model\":\"models/m\",\"systemInstruction\":{\"parts\":[{\"text\":\"Be brief.\"}]}}}"
    );
}

#[test]
fn setup_message_parses_back_to_the_same_document() {
    let built = setup_message(DEFAULT_MODEL, "Puck", "Say \"hi\"\n");
    let parsed = Json::parse(&built.render()).unwrap();
    assert_eq!(parsed.get("setup").unwrap().get("model").unwrap().as_str(), Some(DEFAULT_MODEL));
    let instruction = parsed
        .get("setup")
        .unwrap()
        .get("systemInstruction")
        .unwrap()
        .get("parts")
        .unwrap()
        .as_array()
        .unwrap()[0]
        .get("text")
        .unwrap()
        .as_str();
    assert_eq!(instruction, Some("Say \"hi\"\n"));
}

#[test]
fn audio_command_is_base64_in_the_input_envelope() {
    let text = encode_command(&ClientCommand::SendAudio(vec![1, 2, 3])).unwrap();
    assert_eq!(text, "{\"realtimeInput\":{\"audio\":{\"data\":\"AQID\",\"mimeType\":\"audio/pcm;rate=16000\"}}}");
}

#[test]
fn text_command_marks_the_turn_complete() {
    let text = encode_command(&ClientCommand::SendText("hi".to_string())).unwrap();
    assert_eq!(
        text,
        "{\"clientContent\":{\"turnComplete\":true,\"turns\":[{\"parts\":[{\"text\":\"hi\"}],\"role\":\"user\"}]}}"
    );
}

#[test]
fn activity_markers_are_empty_objects() {
    assert_eq!(
        encode_command(&ClientCommand::ActivityStart).unwrap(),
        "{\"realtimeInput\":{\"activityStart\":{}}}"
    );
    assert_eq!(encode_command(&ClientCommand::ActivityEnd).unwrap(), "{\"realtimeInput\":{\"activityEnd\":{}}}");
}

#[test]
fn tool_response_lists_each_result() {
    let response = FunctionResponse {
        id: "c1".to_string(),
        name: "remember".to_string(),
        response: Json::Object(vec![Member { key: "success".to_string(), value: Json::Bool(true) }]),
    };
    let text = encode_command(&ClientCommand::ToolResponse(vec![response])).unwrap();
    assert_eq!(
        text,
        "{\"toolResponse\":{\"functionResponses\":[{\"id\":\"c1\",\"name\":\"remember\",\"response\":{\"success\":true}}]}}"
    );
}

#[test]
fn close_has_no_message() {
    assert_eq!(command_message(&ClientCommand::Close), None);
    assert_eq!(encode_command(&ClientCommand::Close), None);
}

#[test]
fn json_numbers_keep_their_text() {
    let doc = Json::parse("{\"a\":1.5,\"b\":-7,\"c\":18446744073709551615}").unwrap();
    assert_eq!(doc.get("a"), Some(&Json::Number("1.5".to_string())));
    assert_eq!(doc.get("b"), Some(&Json::Number("-7".to_string())));
    assert_eq!(doc.get("c"), Some(&Json::Number("18446744073709551615".to_string())));
    assert_eq!(doc.render(), "{\"a\":1.5,\"b\":-7,\"c\":18446744073709551615}");
}

#[test]
fn json_get_finds_the_first_member_of_that_name() {
    let doc = Json::Object(vec![
        Member::new("k", Json::Bool(true)),
        Member::new("k", Json::Bool(false)),
    ]);
    assert_eq!(doc.get("k"), Some(&Json::Bool(true)));
    assert_eq!(doc.get("missing"), None);
    assert_eq!(Json::Null.get("k"), None);
}

#[test]
fn json_duplicate_is_equal_and_independent() {
    let doc = Json::parse("{\"a\":[1,{\"b\":null}],\"c\":\"x\"}").unwrap();
    let copy = doc.duplicate();
    assert_eq!(copy, doc);
    assert_eq!(doc.clone(), doc);
    assert_eq!(Json::text("x").as_str(), Some("x"));
    assert_eq!(Json::Bool(true).as_bool(), Some(true));
    assert_eq!(Json::Null.as_bool(), None);
    assert_eq!(Json::Null.as_array(), None);
}
