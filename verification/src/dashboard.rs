//! What the dashboard is sent: each notice as a named message with a
//! payload and the time it happened.

use vstd::prelude::*;
use crate::app::Notice;
use crate::json::{json_rendering, Field, Json, JsonValue, Member};
use crate::protocol::{obj1, obj2, obj3, object1, object2, object3, FunctionCall};
use crate::text::{decimal, decimal_text};

verus! {

/// A moment as a JSON number.
pub open spec fn moment(now_ms: u64) -> JsonValue {
    JsonValue::Number(decimal(now_ms as nat))
}

/// The payload of a notice that happened at `now_ms`.
pub open spec fn payload_of(notice: Notice, now_ms: u64) -> JsonValue {
    match notice {
        Notice::GroqComplete(text) => obj2("text"@, JsonValue::Text(text@), "timestamp"@, moment(now_ms)),
        Notice::GroqError(error) => obj2("error"@, JsonValue::Text(error@), "timestamp"@, moment(now_ms)),
        Notice::VoiceText(text) => obj2("text"@, JsonValue::Text(text@), "timestamp"@, moment(now_ms)),
        Notice::VoiceToolResult { id, name } => obj3(
            "chatId"@,
            JsonValue::Text(id@),
            "toolName"@,
            JsonValue::Text(name@),
            "timestamp"@,
            moment(now_ms),
        ),
        Notice::VoiceClose(reason) => obj2("reason"@, JsonValue::Text(reason@), "timestamp"@, moment(now_ms)),
        _ => obj1("timestamp"@, moment(now_ms)),
    }
}

/// The payload that tells of a tool call dispatched at `now_ms`.
pub open spec fn call_payload_of(id: Seq<char>, name: Seq<char>, input: JsonValue, now_ms: u64) -> JsonValue {
    JsonValue::Object(
        seq![
            Field { name: "chatId"@, value: JsonValue::Text(id) },
            Field { name: "toolName"@, value: JsonValue::Text(name) },
            Field { name: "input"@, value: input },
            Field { name: "timestamp"@, value: moment(now_ms) },
        ],
    )
}

/// The message for a named event: its type and its payload.
pub open spec fn envelope_of(event_type: Seq<char>, payload: JsonValue) -> JsonValue {
    obj2("type"@, JsonValue::Text(event_type), "payload"@, payload)
}

fn timestamp(now_ms: u64) -> (json: Json)
    ensures
        json@ == moment(now_ms),
{
    Json::Number(decimal_text(now_ms))
}

/// The payload of a notice that happened at `now_ms`.
pub fn payload(notice: &Notice, now_ms: u64) -> (json: Json)
    ensures
        json@ == payload_of(*notice, now_ms),
{
    match notice {
        Notice::GroqComplete(text) => object2("text", Json::text(text.as_str()), "timestamp", timestamp(now_ms)),
        Notice::GroqError(error) => object2("error", Json::text(error.as_str()), "timestamp", timestamp(now_ms)),
        Notice::VoiceText(text) => object2("text", Json::text(text.as_str()), "timestamp", timestamp(now_ms)),
        Notice::VoiceToolResult { id, name } => object3(
            "chatId",
            Json::text(id.as_str()),
            "toolName",
            Json::text(name.as_str()),
            "timestamp",
            timestamp(now_ms),
        ),
        Notice::VoiceClose(reason) => object2(
            "reason",
            Json::text(reason.as_str()),
            "timestamp",
            timestamp(now_ms),
        ),
        _ => object1("timestamp", timestamp(now_ms)),
    }
}

/// The payload that tells of a tool call dispatched at `now_ms`.
pub fn tool_call_payload(call: &FunctionCall, now_ms: u64) -> (json: Json)
    ensures
        json@ == call_payload_of(call.id@, call.name@, call.args@, now_ms),
{
    let mut members: Vec<Member> = Vec::new();
    members.push(Member::new("chatId", Json::text(call.id.as_str())));
    members.push(Member::new("toolName", Json::text(call.name.as_str())));
    members.push(Member::new("input", call.args.duplicate()));
    members.push(Member::new("timestamp", timestamp(now_ms)));
    let json = Json::object(members);
    assert(json@->Object_0 =~= seq![
        Field { name: "chatId"@, value: JsonValue::Text(call.id@) },
        Field { name: "toolName"@, value: JsonValue::Text(call.name@) },
        Field { name: "input"@, value: call.args@ },
        Field { name: "timestamp"@, value: moment(now_ms) },
    ]);
    json
}

/// The text that is sent to every dashboard client for a named event.
pub fn broadcast(event_type: &str, payload: Json) -> (text: String)
    ensures
        text@ == json_rendering(envelope_of(event_type@, payload@)),
{
    object2("type", Json::text(event_type), "payload", payload).render()
}

} // verus!
