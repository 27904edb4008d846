//! The live session's wire protocol: what the service sends, read into
//! events, and what the client sends, built as documents and rendered.

use vstd::prelude::*;
use crate::json::{field_of, items_view, json_document, json_rendering, Field, Json, JsonValue, Member};

verus! {

/// A function that the service asks the client to run.
#[derive(Debug, PartialEq)]
pub struct FunctionCall {
    pub id: String,
    pub name: String,
    pub args: Json,
}

/// The result of a function, on its way back to the service.
#[derive(Debug, PartialEq)]
pub struct FunctionResponse {
    pub id: String,
    pub name: String,
    pub response: Json,
}

/// What the service sent, as the session's owner sees it.
#[derive(Debug, PartialEq)]
pub enum GeminiEvent {
    Ready,
    Audio(Vec<u8>),
    Text(String),
    Interrupted,
    TurnComplete,
    ToolCall(Vec<FunctionCall>),
    ToolCallCancellation(Vec<String>),
    Error(String),
    Closed(String),
}

/// What the client sends.
#[derive(Debug, PartialEq)]
pub enum ClientCommand {
    SendAudio(Vec<u8>),
    SendText(String),
    ActivityStart,
    ActivityEnd,
    ToolResponse(Vec<FunctionResponse>),
    Close,
}

/// The value of a [`FunctionCall`].
pub struct CallModel {
    pub id: Seq<char>,
    pub name: Seq<char>,
    pub args: JsonValue,
}

/// The value of a [`FunctionResponse`].
pub struct ResponseModel {
    pub id: Seq<char>,
    pub name: Seq<char>,
    pub response: JsonValue,
}

/// The value of a [`GeminiEvent`].
pub enum EventModel {
    Ready,
    Audio(Seq<u8>),
    Text(Seq<char>),
    Interrupted,
    TurnComplete,
    ToolCall(Seq<CallModel>),
    ToolCallCancellation(Seq<Seq<char>>),
    Error(Seq<char>),
    Closed(Seq<char>),
}

/// The value of a [`ClientCommand`].
pub enum CommandModel {
    SendAudio(Seq<u8>),
    SendText(Seq<char>),
    ActivityStart,
    ActivityEnd,
    ToolResponse(Seq<ResponseModel>),
    Close,
}

impl View for FunctionCall {
    type V = CallModel;

    open spec fn view(&self) -> CallModel {
        CallModel { id: self.id@, name: self.name@, args: self.args@ }
    }
}

impl View for FunctionResponse {
    type V = ResponseModel;

    open spec fn view(&self) -> ResponseModel {
        ResponseModel { id: self.id@, name: self.name@, response: self.response@ }
    }
}

/// The values of a run of calls.
pub open spec fn calls_view(calls: Seq<FunctionCall>) -> Seq<CallModel> {
    Seq::new(calls.len(), |i: int| calls[i]@)
}

/// The values of a run of responses.
pub open spec fn responses_view(responses: Seq<FunctionResponse>) -> Seq<ResponseModel> {
    Seq::new(responses.len(), |i: int| responses[i]@)
}

/// The characters of a run of strings.
pub open spec fn texts_view(texts: Seq<String>) -> Seq<Seq<char>> {
    Seq::new(texts.len(), |i: int| texts[i]@)
}

impl View for GeminiEvent {
    type V = EventModel;

    open spec fn view(&self) -> EventModel {
        match self {
            GeminiEvent::Ready => EventModel::Ready,
            GeminiEvent::Audio(bytes) => EventModel::Audio(bytes@),
            GeminiEvent::Text(text) => EventModel::Text(text@),
            GeminiEvent::Interrupted => EventModel::Interrupted,
            GeminiEvent::TurnComplete => EventModel::TurnComplete,
            GeminiEvent::ToolCall(calls) => EventModel::ToolCall(calls_view(calls@)),
            GeminiEvent::ToolCallCancellation(ids) => EventModel::ToolCallCancellation(texts_view(ids@)),
            GeminiEvent::Error(message) => EventModel::Error(message@),
            GeminiEvent::Closed(reason) => EventModel::Closed(reason@),
        }
    }
}

impl View for ClientCommand {
    type V = CommandModel;

    open spec fn view(&self) -> CommandModel {
        match self {
            ClientCommand::SendAudio(bytes) => CommandModel::SendAudio(bytes@),
            ClientCommand::SendText(text) => CommandModel::SendText(text@),
            ClientCommand::ActivityStart => CommandModel::ActivityStart,
            ClientCommand::ActivityEnd => CommandModel::ActivityEnd,
            ClientCommand::ToolResponse(responses) => CommandModel::ToolResponse(responses_view(responses@)),
            ClientCommand::Close => CommandModel::Close,
        }
    }
}

/// The values of a run of events.
pub open spec fn events_view(events: Seq<GeminiEvent>) -> Seq<EventModel> {
    Seq::new(events.len(), |i: int| events[i]@)
}

/// The values of a run of commands.
pub open spec fn commands_view(commands: Seq<ClientCommand>) -> Seq<CommandModel> {
    Seq::new(commands.len(), |i: int| commands[i]@)
}

/// The bytes that standard padded base64 text stands for, as the `base64`
/// crate decodes it; `None` where the text is not valid base64.
pub uninterp spec fn base64_payload(text: Seq<char>) -> Option<Seq<u8>>;

/// The standard padded base64 text of a run of bytes, as the `base64` crate
/// encodes it.
pub uninterp spec fn base64_text(bytes: Seq<u8>) -> Seq<char>;

/// `Engine::decode` of `base64`, on the standard engine: the bytes named by
/// [`base64_payload`]; `None` exactly where the crate reports an error.
#[verifier::external_body]
fn base64_decode(text: &str) -> (out: Option<Vec<u8>>)
    ensures
        match out {
            Some(bytes) => base64_payload(text@) == Some(bytes@),
            None => base64_payload(text@) is None,
        },
{
    base64::Engine::decode(&base64::prelude::BASE64_STANDARD, text).ok()
}

/// `Engine::encode` of `base64`, on the standard engine: the text named by
/// [`base64_text`]. The crate panics where the text's length would not fit
/// a `usize`; the bound keeps such inputs out.
#[verifier::external_body]
fn base64_encode(bytes: &[u8]) -> (text: String)
    requires
        bytes@.len() <= usize::MAX / 2,
    ensures
        text@ == base64_text(bytes@),
{
    base64::Engine::encode(&base64::prelude::BASE64_STANDARD, bytes)
}

// ---------------------------------------------------------------------
// Inbound: documents to events
// ---------------------------------------------------------------------

/// The text of an optional value, where it is a string.
pub open spec fn text_of(found: Option<JsonValue>) -> Option<Seq<char>> {
    match found {
        Some(v) => v.text(),
        None => None,
    }
}

/// The text of an optional value, or the empty text.
pub open spec fn text_or_empty(found: Option<JsonValue>) -> Seq<char> {
    match text_of(found) {
        Some(t) => t,
        None => Seq::empty(),
    }
}

/// Whether an optional value is the boolean `true`.
pub open spec fn is_true(found: Option<JsonValue>) -> bool {
    found == Some(JsonValue::Bool(true))
}

/// The call that one item of `functionCalls` describes. A missing or
/// non-text `id` or `name` reads as empty, missing `args` as null.
pub open spec fn call_of(item: JsonValue) -> CallModel {
    CallModel {
        id: text_or_empty(item.field("id"@)),
        name: text_or_empty(item.field("name"@)),
        args: match item.field("args"@) {
            Some(a) => a,
            None => JsonValue::Null,
        },
    }
}

/// The calls that the first `n` items describe.
pub open spec fn calls_of(items: Seq<JsonValue>, n: int) -> Seq<CallModel>
    decreases n,
{
    if n <= 0 || n > items.len() {
        Seq::empty()
    } else {
        calls_of(items, n - 1).push(call_of(items[n - 1]))
    }
}

/// The ids among the first `n` items: each item that is a text, in order.
pub open spec fn ids_of(items: Seq<JsonValue>, n: int) -> Seq<Seq<char>>
    decreases n,
{
    if n <= 0 || n > items.len() {
        Seq::empty()
    } else {
        match items[n - 1].text() {
            Some(t) => ids_of(items, n - 1).push(t),
            None => ids_of(items, n - 1),
        }
    }
}

/// The audio event of one part of a model turn: its `inlineData.data`,
/// where that is text and valid base64.
pub open spec fn audio_of(part: JsonValue) -> Option<Seq<u8>> {
    match text_of(field_of(part.field("inlineData"@), "data"@)) {
        Some(t) => base64_payload(t),
        None => None,
    }
}

/// The events of one part: its audio, then its text.
pub open spec fn part_events(part: JsonValue) -> Seq<EventModel> {
    let audio = match audio_of(part) {
        Some(bytes) => seq![EventModel::Audio(bytes)],
        None => Seq::empty(),
    };
    match text_of(part.field("text"@)) {
        Some(t) => audio.push(EventModel::Text(t)),
        None => audio,
    }
}

/// The events of the first `n` parts, in order.
pub open spec fn parts_events(parts: Seq<JsonValue>, n: int) -> Seq<EventModel>
    decreases n,
{
    if n <= 0 || n > parts.len() {
        Seq::empty()
    } else {
        parts_events(parts, n - 1) + part_events(parts[n - 1])
    }
}

/// The events of a `serverContent` notification: an interruption alone, or
/// else the end of the turn alone, or else what the model turn's parts hold.
/// Transcriptions give no event.
pub open spec fn content_events(content: JsonValue) -> Seq<EventModel> {
    if is_true(content.field("interrupted"@)) {
        seq![EventModel::Interrupted]
    } else if is_true(content.field("turnComplete"@)) {
        seq![EventModel::TurnComplete]
    } else {
        match field_of(content.field("modelTurn"@), "parts"@) {
            Some(JsonValue::Array(parts)) => parts_events(parts, parts.len() as int),
            _ => Seq::empty(),
        }
    }
}

/// The events of one message from the service. The first of these keys that
/// the message has decides: `setupComplete`, `goAway`, `toolCall`,
/// `toolCallCancellation`, `serverContent`. A message with none of them,
/// or one that is no object, gives no event.
pub open spec fn events_of(msg: JsonValue) -> Seq<EventModel> {
    if msg.field("setupComplete"@) is Some {
        seq![EventModel::Ready]
    } else if msg.field("goAway"@) is Some {
        Seq::empty()
    } else if msg.field("toolCall"@) is Some {
        match field_of(msg.field("toolCall"@), "functionCalls"@) {
            Some(JsonValue::Array(items)) => seq![EventModel::ToolCall(calls_of(items, items.len() as int))],
            _ => Seq::empty(),
        }
    } else if msg.field("toolCallCancellation"@) is Some {
        match field_of(msg.field("toolCallCancellation"@), "ids"@) {
            Some(JsonValue::Array(items)) => seq![
                EventModel::ToolCallCancellation(ids_of(items, items.len() as int)),
            ],
            _ => Seq::empty(),
        }
    } else {
        match msg.field("serverContent"@) {
            Some(content) => content_events(content),
            None => Seq::empty(),
        }
    }
}

/// The value of an optional borrowed document.
pub open spec fn value_of(found: Option<&Json>) -> Option<JsonValue> {
    match found {
        Some(j) => Some(j@),
        None => None,
    }
}

fn child<'a>(parent: Option<&'a Json>, key: &str) -> (found: Option<&'a Json>)
    ensures
        value_of(found) == field_of(value_of(parent), key@),
{
    match parent {
        Some(j) => j.get(key),
        None => None,
    }
}

fn text_in<'a>(found: Option<&'a Json>) -> (text: Option<&'a str>)
    ensures
        match text {
            Some(s) => text_of(value_of(found)) == Some(s@),
            None => text_of(value_of(found)) is None,
        },
{
    match found {
        Some(j) => j.as_str(),
        None => None,
    }
}

fn flag_set(found: Option<&Json>) -> (set: bool)
    ensures
        set == is_true(value_of(found)),
{
    match found {
        Some(j) => match j.as_bool() {
            Some(b) => b,
            None => false,
        },
        None => false,
    }
}

fn owned_or_empty(found: Option<&Json>) -> (text: String)
    ensures
        text@ == text_or_empty(value_of(found)),
{
    match text_in(found) {
        Some(s) => s.to_owned(),
        None => String::new(),
    }
}

fn read_call(item: &Json) -> (call: FunctionCall)
    ensures
        call@ == call_of(item@),
{
    let id = owned_or_empty(item.get("id"));
    let name = owned_or_empty(item.get("name"));
    let args = match item.get("args") {
        Some(a) => a.duplicate(),
        None => Json::Null,
    };
    FunctionCall { id, name, args }
}

fn read_calls(items: &Vec<Json>) -> (calls: Vec<FunctionCall>)
    ensures
        calls_view(calls@) == calls_of(items_view(items@), items@.len() as int),
{
    let mut calls: Vec<FunctionCall> = Vec::new();
    let mut i: usize = 0;
    while i < items.len()
        invariant
            i <= items.len(),
            calls_view(calls@) == calls_of(items_view(items@), i as int),
        decreases items.len() - i,
    {
        let call = read_call(&items[i]);
        let ghost before = calls_view(calls@);
        calls.push(call);
        assert(calls_view(calls@) =~= before.push(call@));
        i += 1;
    }
    calls
}

fn read_ids(items: &Vec<Json>) -> (ids: Vec<String>)
    ensures
        texts_view(ids@) == ids_of(items_view(items@), items@.len() as int),
{
    let mut ids: Vec<String> = Vec::new();
    let mut i: usize = 0;
    while i < items.len()
        invariant
            i <= items.len(),
            texts_view(ids@) == ids_of(items_view(items@), i as int),
        decreases items.len() - i,
    {
        let ghost before = texts_view(ids@);
        match items[i].as_str() {
            Some(s) => {
                let id = s.to_owned();
                ids.push(id);
                assert(texts_view(ids@) =~= before.push(s@));
            },
            None => {},
        }
        i += 1;
    }
    ids
}

fn read_parts(parts: &Vec<Json>) -> (events: Vec<GeminiEvent>)
    ensures
        events_view(events@) == parts_events(items_view(parts@), parts@.len() as int),
{
    let mut events: Vec<GeminiEvent> = Vec::new();
    let mut i: usize = 0;
    while i < parts.len()
        invariant
            i <= parts.len(),
            events_view(events@) == parts_events(items_view(parts@), i as int),
        decreases parts.len() - i,
    {
        let part = &parts[i];
        let ghost before = events_view(events@);
        let ghost mut added: Seq<EventModel> = Seq::empty();
        match text_in(child(part.get("inlineData"), "data")) {
            Some(encoded) => match base64_decode(encoded) {
                Some(bytes) => {
                    proof {
                        added = added.push(EventModel::Audio(bytes@));
                    }
                    events.push(GeminiEvent::Audio(bytes));
                },
                None => {},
            },
            None => {},
        }
        assert(events_view(events@) =~= before + added);
        match text_in(part.get("text")) {
            Some(text) => {
                proof {
                    added = added.push(EventModel::Text(text@));
                }
                events.push(GeminiEvent::Text(text.to_owned()));
            },
            None => {},
        }
        assert(events_view(events@) =~= before + added);
        assert(added =~= part_events(part@));
        i += 1;
    }
    events
}

fn read_content(content: &Json) -> (events: Vec<GeminiEvent>)
    ensures
        events_view(events@) == content_events(content@),
{
    let mut events: Vec<GeminiEvent> = Vec::new();
    if flag_set(content.get("interrupted")) {
        events.push(GeminiEvent::Interrupted);
        assert(events_view(events@) =~= seq![EventModel::Interrupted]);
    } else if flag_set(content.get("turnComplete")) {
        events.push(GeminiEvent::TurnComplete);
        assert(events_view(events@) =~= seq![EventModel::TurnComplete]);
    } else {
        match child(content.get("modelTurn"), "parts") {
            Some(found) => match found.as_array() {
                Some(parts) => {
                    return read_parts(parts);
                },
                None => {},
            },
            None => {},
        }
        assert(events_view(events@) =~= Seq::<EventModel>::empty());
    }
    events
}

/// Reads one message of the service into the events it stands for.
pub fn classify_message(msg: &Json) -> (events: Vec<GeminiEvent>)
    ensures
        events_view(events@) == events_of(msg@),
{
    let mut events: Vec<GeminiEvent> = Vec::new();
    assert(events_view(events@) =~= Seq::<EventModel>::empty());
    if msg.get("setupComplete").is_some() {
        events.push(GeminiEvent::Ready);
        assert(events_view(events@) =~= seq![EventModel::Ready]);
    } else if msg.get("goAway").is_some() {
    } else if msg.get("toolCall").is_some() {
        match child(msg.get("toolCall"), "functionCalls") {
            Some(found) => match found.as_array() {
                Some(items) => {
                    let calls = read_calls(items);
                    let ghost model = EventModel::ToolCall(calls_view(calls@));
                    events.push(GeminiEvent::ToolCall(calls));
                    assert(events_view(events@) =~= seq![model]);
                },
                None => {},
            },
            None => {},
        }
    } else if msg.get("toolCallCancellation").is_some() {
        match child(msg.get("toolCallCancellation"), "ids") {
            Some(found) => match found.as_array() {
                Some(items) => {
                    let ids = read_ids(items);
                    let ghost model = EventModel::ToolCallCancellation(texts_view(ids@));
                    events.push(GeminiEvent::ToolCallCancellation(ids));
                    assert(events_view(events@) =~= seq![model]);
                },
                None => {},
            },
            None => {},
        }
    } else {
        match msg.get("serverContent") {
            Some(content) => {
                return read_content(content);
            },
            None => {},
        }
    }
    events
}

/// The events of a message's text: those of the document it holds, none
/// where the text is not JSON.
pub open spec fn events_of_text(text: Seq<char>) -> Seq<EventModel> {
    match json_document(text) {
        Some(msg) => events_of(msg),
        None => Seq::empty(),
    }
}

/// Reads the text of one message. Text that is not JSON is dropped: it
/// gives no event and no error.
pub fn parse_server_message(text: &str) -> (events: Vec<GeminiEvent>)
    ensures
        events_view(events@) == events_of_text(text@),
{
    match Json::parse(text) {
        Some(msg) => classify_message(&msg),
        None => {
            let events: Vec<GeminiEvent> = Vec::new();
            assert(events_view(events@) =~= Seq::<EventModel>::empty());
            events
        },
    }
}

// ---------------------------------------------------------------------
// Outbound: commands to documents
// ---------------------------------------------------------------------

/// The model that a session asks for unless told otherwise.
pub const DEFAULT_MODEL: &'static str = "models/gemini-2.5-flash-native-audio-preview-12-2025";

/// An object with one member.
pub open spec fn obj1(k: Seq<char>, v: JsonValue) -> JsonValue {
    JsonValue::Object(seq![Field { name: k, value: v }])
}

/// An object with two members.
pub open spec fn obj2(k1: Seq<char>, v1: JsonValue, k2: Seq<char>, v2: JsonValue) -> JsonValue {
    JsonValue::Object(seq![Field { name: k1, value: v1 }, Field { name: k2, value: v2 }])
}

/// An object with three members.
pub open spec fn obj3(
    k1: Seq<char>,
    v1: JsonValue,
    k2: Seq<char>,
    v2: JsonValue,
    k3: Seq<char>,
    v3: JsonValue,
) -> JsonValue {
    JsonValue::Object(
        seq![Field { name: k1, value: v1 }, Field { name: k2, value: v2 }, Field { name: k3, value: v3 }],
    )
}

/// An array with one item.
pub open spec fn arr1(v: JsonValue) -> JsonValue {
    JsonValue::Array(seq![v])
}

/// The object without members.
pub open spec fn empty_object() -> JsonValue {
    JsonValue::Object(Seq::empty())
}

/// The message that opens a session: the model, audio as the one response
/// modality, the voice, and the system instruction.
pub open spec fn setup_value(model: Seq<char>, voice: Seq<char>, instruction: Seq<char>) -> JsonValue {
    obj1(
        "setup"@,
        obj3(
            "model"@,
            JsonValue::Text(model),
            "generationConfig"@,
            obj2(
                "responseModalities"@,
                arr1(JsonValue::Text("AUDIO"@)),
                "speechConfig"@,
                obj1(
                    "voiceConfig"@,
                    obj1("prebuiltVoiceConfig"@, obj1("voiceName"@, JsonValue::Text(voice))),
                ),
            ),
            "systemInstruction"@,
            obj1("parts"@, arr1(obj1("text"@, JsonValue::Text(instruction)))),
        ),
    )
}

/// One entry of a tool response.
pub open spec fn response_value(r: ResponseModel) -> JsonValue {
    obj3("id"@, JsonValue::Text(r.id), "name"@, JsonValue::Text(r.name), "response"@, r.response)
}

/// The entries of a tool response, in order.
pub open spec fn response_values(rs: Seq<ResponseModel>) -> Seq<JsonValue> {
    Seq::new(rs.len(), |i: int| response_value(rs[i]))
}

/// The message that carries a command; `None` for `Close`, which is a
/// close frame and no message.
pub open spec fn command_value(cmd: CommandModel) -> Option<JsonValue> {
    match cmd {
        CommandModel::SendAudio(bytes) => Some(
            obj1(
                "realtimeInput"@,
                obj1(
                    "audio"@,
                    obj2(
                        "mimeType"@,
                        JsonValue::Text("audio/pcm;rate=16000"@),
                        "data"@,
                        JsonValue::Text(base64_text(bytes)),
                    ),
                ),
            ),
        ),
        CommandModel::SendText(text) => Some(
            obj1(
                "clientContent"@,
                obj2(
                    "turns"@,
                    arr1(
                        obj2(
                            "role"@,
                            JsonValue::Text("user"@),
                            "parts"@,
                            arr1(obj1("text"@, JsonValue::Text(text))),
                        ),
                    ),
                    "turnComplete"@,
                    JsonValue::Bool(true),
                ),
            ),
        ),
        CommandModel::ActivityStart => Some(obj1("realtimeInput"@, obj1("activityStart"@, empty_object()))),
        CommandModel::ActivityEnd => Some(obj1("realtimeInput"@, obj1("activityEnd"@, empty_object()))),
        CommandModel::ToolResponse(rs) => Some(
            obj1("toolResponse"@, obj1("functionResponses"@, JsonValue::Array(response_values(rs)))),
        ),
        CommandModel::Close => None,
    }
}

fn object0() -> (json: Json)
    ensures
        json@ == empty_object(),
{
    let json = Json::object(Vec::new());
    assert(json@->Object_0 =~= Seq::<Field>::empty());
    json
}

pub(crate) fn object1(k: &str, v: Json) -> (json: Json)
    ensures
        json@ == obj1(k@, v@),
{
    let mut members: Vec<Member> = Vec::new();
    members.push(Member::new(k, v));
    let json = Json::object(members);
    assert(json@->Object_0 =~= seq![Field { name: k@, value: v@ }]);
    json
}

pub(crate) fn object2(k1: &str, v1: Json, k2: &str, v2: Json) -> (json: Json)
    ensures
        json@ == obj2(k1@, v1@, k2@, v2@),
{
    let mut members: Vec<Member> = Vec::new();
    members.push(Member::new(k1, v1));
    members.push(Member::new(k2, v2));
    let json = Json::object(members);
    assert(json@->Object_0 =~= seq![Field { name: k1@, value: v1@ }, Field { name: k2@, value: v2@ }]);
    json
}

pub(crate) fn object3(k1: &str, v1: Json, k2: &str, v2: Json, k3: &str, v3: Json) -> (json: Json)
    ensures
        json@ == obj3(k1@, v1@, k2@, v2@, k3@, v3@),
{
    let mut members: Vec<Member> = Vec::new();
    members.push(Member::new(k1, v1));
    members.push(Member::new(k2, v2));
    members.push(Member::new(k3, v3));
    let json = Json::object(members);
    assert(json@->Object_0 =~= seq![
        Field { name: k1@, value: v1@ },
        Field { name: k2@, value: v2@ },
        Field { name: k3@, value: v3@ },
    ]);
    json
}

fn array1(v: Json) -> (json: Json)
    ensures
        json@ == arr1(v@),
{
    let mut items: Vec<Json> = Vec::new();
    items.push(v);
    let json = Json::array(items);
    assert(json@->Array_0 =~= seq![v@]);
    json
}

/// Builds the message that opens a session.
pub fn setup_message(model: &str, voice_name: &str, system_instruction: &str) -> (json: Json)
    ensures
        json@ == setup_value(model@, voice_name@, system_instruction@),
{
    let voice = object1(
        "voiceConfig",
        object1("prebuiltVoiceConfig", object1("voiceName", Json::text(voice_name))),
    );
    let generation = object2("responseModalities", array1(Json::text("AUDIO")), "speechConfig", voice);
    let instruction = object1("parts", array1(object1("text", Json::text(system_instruction))));
    object1(
        "setup",
        object3("model", Json::text(model), "generationConfig", generation, "systemInstruction", instruction),
    )
}

fn response_entries(responses: &Vec<FunctionResponse>) -> (json: Json)
    ensures
        json@ == JsonValue::Array(response_values(responses_view(responses@))),
{
    let mut items: Vec<Json> = Vec::new();
    let mut i: usize = 0;
    while i < responses.len()
        invariant
            i <= responses.len(),
            items@.len() == i,
            forall|k: int| 0 <= k < i ==> (#[trigger] items@[k])@ == response_value(responses@[k]@),
        decreases responses.len() - i,
    {
        let r = &responses[i];
        let entry = object3(
            "id",
            Json::text(r.id.as_str()),
            "name",
            Json::text(r.name.as_str()),
            "response",
            r.response.duplicate(),
        );
        items.push(entry);
        i += 1;
    }
    let json = Json::array(items);
    assert(json@->Array_0 =~= response_values(responses_view(responses@)));
    json
}

/// Builds the message that carries a command; `None` for `Close`.
pub fn command_message(cmd: &ClientCommand) -> (out: Option<Json>)
    requires
        cmd matches ClientCommand::SendAudio(bytes) ==> bytes@.len() <= usize::MAX / 2,
    ensures
        match out {
            Some(json) => command_value(cmd@) == Some(json@),
            None => command_value(cmd@) is None,
        },
{
    match cmd {
        ClientCommand::SendAudio(bytes) => {
            let encoded = base64_encode(bytes.as_slice());
            let data = Json::Text(encoded);
            let audio = object2("mimeType", Json::text("audio/pcm;rate=16000"), "data", data);
            Some(object1("realtimeInput", object1("audio", audio)))
        },
        ClientCommand::SendText(text) => {
            let parts = array1(object1("text", Json::text(text.as_str())));
            let turn = object2("role", Json::text("user"), "parts", parts);
            Some(object1("clientContent", object2("turns", array1(turn), "turnComplete", Json::Bool(true))))
        },
        ClientCommand::ActivityStart => {
            Some(object1("realtimeInput", object1("activityStart", object0())))
        },
        ClientCommand::ActivityEnd => {
            Some(object1("realtimeInput", object1("activityEnd", object0())))
        },
        ClientCommand::ToolResponse(responses) => {
            Some(object1("toolResponse", object1("functionResponses", response_entries(responses))))
        },
        ClientCommand::Close => None,
    }
}

/// The text that goes on the wire for a command; `None` for `Close`.
pub fn encode_command(cmd: &ClientCommand) -> (out: Option<String>)
    requires
        cmd matches ClientCommand::SendAudio(bytes) ==> bytes@.len() <= usize::MAX / 2,
    ensures
        match out {
            Some(text) => command_value(cmd@) matches Some(v) && text@ == json_rendering(v),
            None => command_value(cmd@) is None,
        },
{
    match command_message(cmd) {
        Some(json) => Some(json.render()),
        None => None,
    }
}

} // verus!
