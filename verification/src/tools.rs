//! The tool calls in flight: dispatched, and neither answered nor withdrawn.

use vstd::prelude::*;
use crate::json::{Json, JsonValue};
use crate::text::str_eq;
use crate::protocol::{obj1, object1, text_of};

verus! {

/// The ids of the tool calls in flight: a set, kept in a vector whose
/// order and repetitions mean nothing.
pub struct PendingCalls {
    ids: Vec<String>,
}

impl View for PendingCalls {
    type V = Set<Seq<char>>;

    closed spec fn view(&self) -> Set<Seq<char>> {
        ids_among(self.ids@, self.ids@.len() as int)
    }
}

/// The ids among the first `n` of a run.
pub open spec fn ids_among(ids: Seq<String>, n: int) -> Set<Seq<char>> {
    Set::new(|s: Seq<char>| exists|i: int| 0 <= i < n && i < ids.len() && (#[trigger] ids[i])@ == s)
}

impl PendingCalls {
    /// No call in flight.
    pub fn new() -> (pending: PendingCalls)
        ensures
            pending@ == Set::<Seq<char>>::empty(),
    {
        let pending = PendingCalls { ids: Vec::new() };
        assert(pending@ =~= Set::<Seq<char>>::empty());
        pending
    }

    /// Whether the call is in flight.
    pub fn contains(&self, id: &str) -> (found: bool)
        ensures
            found == self@.contains(id@),
    {
        let mut i: usize = 0;
        while i < self.ids.len()
            invariant
                i <= self.ids@.len(),
                forall|k: int| 0 <= k < i ==> (#[trigger] self.ids@[k])@ != id@,
            decreases self.ids.len() - i,
        {
            if str_eq(self.ids[i].as_str(), id) {
                return true;
            }
            i += 1;
        }
        false
    }

    /// Marks the call as in flight.
    pub fn insert(&mut self, id: String)
        ensures
            final(self)@ == old(self)@.insert(id@),
    {
        if !self.contains(id.as_str()) {
            let ghost before = self.ids@;
            self.ids.push(id);
            assert forall|s: Seq<char>| final(self)@.contains(s) <==> old(self)@.insert(id@).contains(s) by {
                if old(self)@.contains(s) {
                    let i = choose|i: int| 0 <= i < before.len() && (#[trigger] before[i])@ == s;
                    assert(self.ids@[i]@ == s);
                }
                if s == id@ {
                    assert(self.ids@[before.len() as int]@ == s);
                }
            }
            assert(final(self)@ =~= old(self)@.insert(id@));
        } else {
            assert(final(self)@ =~= old(self)@.insert(id@));
        }
    }

    /// Takes the call out of flight; tells whether it was in flight.
    pub fn remove(&mut self, id: &str) -> (was_pending: bool)
        ensures
            was_pending == old(self)@.contains(id@),
            final(self)@ == old(self)@.remove(id@),
    {
        let mut before: Vec<String> = Vec::new();
        std::mem::swap(&mut self.ids, &mut before);
        let mut found = false;
        let mut i: usize = 0;
        while i < before.len()
            invariant
                i <= before@.len(),
                before@ == old(self).ids@,
                found == ids_among(before@, i as int).contains(id@),
                self@ == ids_among(before@, i as int).remove(id@),
            decreases before.len() - i,
        {
            let ghost kept = self.ids@;
            let ghost seen = ids_among(before@, i as int);
            if str_eq(before[i].as_str(), id) {
                found = true;
            } else {
                self.ids.push(before[i].clone());
            }
            i += 1;
            proof {
                let now = ids_among(before@, i as int);
                let last = before@[i - 1]@;
                assert forall|s: Seq<char>| now.contains(s) <==> (seen.contains(s) || s == last) by {
                    if seen.contains(s) {
                        let k = choose|k: int| 0 <= k < i - 1 && k < before@.len() && (#[trigger] before@[k])@ == s;
                        assert(before@[k]@ == s);
                    }
                    if s == last {
                        assert(before@[i - 1]@ == s);
                    }
                }
                assert forall|s: Seq<char>| self@.contains(s) <==> now.remove(id@).contains(s) by {
                    if ids_among(kept, kept.len() as int).contains(s) {
                        let k = choose|k: int| 0 <= k < kept.len() && (#[trigger] kept[k])@ == s;
                        assert(self.ids@[k]@ == s);
                    }
                    if last != id@ && s == last {
                        assert(self.ids@[kept.len() as int]@ == s);
                    }
                }
                assert(self@ =~= now.remove(id@));
            }
        }
        assert(ids_among(before@, before@.len() as int) =~= old(self)@);
        found
    }

    /// Whether no call is in flight.
    pub fn is_empty(&self) -> (empty: bool)
        ensures
            empty == (self@ == Set::<Seq<char>>::empty()),
    {
        let empty = self.ids.len() == 0;
        proof {
            if empty {
                assert(self@ =~= Set::<Seq<char>>::empty());
            } else {
                assert(self@.contains(self.ids@[0]@));
            }
        }
        empty
    }
}

/// What a tool call asks the executor to do.
#[derive(Debug, PartialEq)]
pub enum ToolRequest {
    SearchMemory { query: String },
    Remember { title: String, content: String },
    RunCommand { command: String },
    AskClaude { task: String },
}

/// The value of a [`ToolRequest`].
pub enum RequestModel {
    SearchMemory { query: Seq<char> },
    Remember { title: Seq<char>, content: Seq<char> },
    RunCommand { command: Seq<char> },
    AskClaude { task: Seq<char> },
}

impl View for ToolRequest {
    type V = RequestModel;

    open spec fn view(&self) -> RequestModel {
        match self {
            ToolRequest::SearchMemory { query } => RequestModel::SearchMemory { query: query@ },
            ToolRequest::Remember { title, content } => RequestModel::Remember {
                title: title@,
                content: content@,
            },
            ToolRequest::RunCommand { command } => RequestModel::RunCommand { command: command@ },
            ToolRequest::AskClaude { task } => RequestModel::AskClaude { task: task@ },
        }
    }
}

/// The result that reports an error to the service.
pub open spec fn error_value(message: Seq<char>) -> JsonValue {
    obj1("error"@, JsonValue::Text(message))
}

/// The text argument `key` of a call.
pub open spec fn argument(args: JsonValue, key: Seq<char>) -> Option<Seq<char>> {
    text_of(args.field(key))
}

/// What a call of tool `name` with `args` asks for, or the result that
/// reports what is wrong with it: a tool that is not known, or a text
/// argument that is missing.
pub open spec fn planned(name: Seq<char>, args: JsonValue) -> Result<RequestModel, JsonValue> {
    if name == "search_memory"@ {
        match argument(args, "query"@) {
            Some(query) => Ok(RequestModel::SearchMemory { query }),
            None => Err(error_value("Missing 'query' parameter"@)),
        }
    } else if name == "remember"@ {
        match argument(args, "title"@) {
            Some(title) => match argument(args, "content"@) {
                Some(content) => Ok(RequestModel::Remember { title, content }),
                None => Err(error_value("Missing 'content' parameter"@)),
            },
            None => Err(error_value("Missing 'title' parameter"@)),
        }
    } else if name == "run_command"@ {
        match argument(args, "command"@) {
            Some(command) => Ok(RequestModel::RunCommand { command }),
            None => Err(error_value("Missing 'command' parameter"@)),
        }
    } else if name == "ask_claude"@ {
        match argument(args, "task"@) {
            Some(task) => Ok(RequestModel::AskClaude { task }),
            None => Err(error_value("Missing 'task' parameter"@)),
        }
    } else {
        Err(error_value("Unknown tool: "@ + name))
    }
}

fn text_argument<'a>(args: &'a Json, key: &str) -> (text: Option<&'a str>)
    ensures
        match text {
            Some(s) => argument(args@, key@) == Some(s@),
            None => argument(args@, key@) is None,
        },
{
    match args.get(key) {
        Some(v) => v.as_str(),
        None => None,
    }
}

fn error_result(message: &str) -> (result: Json)
    ensures
        result@ == error_value(message@),
{
    object1("error", Json::text(message))
}

/// Reads a tool call: what to ask the executor for, or the result to send
/// back at once.
pub fn execute(name: &str, args: &Json) -> (plan: Result<ToolRequest, Json>)
    ensures
        match plan {
            Ok(request) => planned(name@, args@) == Ok::<RequestModel, JsonValue>(request@),
            Err(result) => planned(name@, args@) == Err::<RequestModel, JsonValue>(result@),
        },
{
    if str_eq(name, "search_memory") {
        match text_argument(args, "query") {
            Some(query) => Ok(ToolRequest::SearchMemory { query: query.to_owned() }),
            None => Err(error_result("Missing 'query' parameter")),
        }
    } else if str_eq(name, "remember") {
        match text_argument(args, "title") {
            Some(title) => match text_argument(args, "content") {
                Some(content) => Ok(
                    ToolRequest::Remember { title: title.to_owned(), content: content.to_owned() },
                ),
                None => Err(error_result("Missing 'content' parameter")),
            },
            None => Err(error_result("Missing 'title' parameter")),
        }
    } else if str_eq(name, "run_command") {
        match text_argument(args, "command") {
            Some(command) => Ok(ToolRequest::RunCommand { command: command.to_owned() }),
            None => Err(error_result("Missing 'command' parameter")),
        }
    } else if str_eq(name, "ask_claude") {
        match text_argument(args, "task") {
            Some(task) => Ok(ToolRequest::AskClaude { task: task.to_owned() }),
            None => Err(error_result("Missing 'task' parameter")),
        }
    } else {
        let message = "Unknown tool: ".to_owned().concat(name);
        Err(error_result(message.as_str()))
    }
}

impl ToolRequest {
    /// The deadline of the request in seconds; none for the memory tools.
    pub fn timeout_seconds(&self) -> (seconds: Option<u64>)
        ensures
            seconds == match self {
                ToolRequest::RunCommand { .. } => Some(30u64),
                ToolRequest::AskClaude { .. } => Some(120u64),
                _ => None,
            },
    {
        match self {
            ToolRequest::RunCommand { .. } => Some(30),
            ToolRequest::AskClaude { .. } => Some(120),
            _ => None,
        }
    }

    /// The result to send where the deadline passed.
    pub fn timed_out(&self) -> (result: Option<Json>)
        ensures
            match self {
                ToolRequest::RunCommand { .. } => result matches Some(r) && r@ == error_value(
                    "Command timed out after 30 seconds"@,
                ),
                ToolRequest::AskClaude { .. } => result matches Some(r) && r@ == error_value(
                    "ask_claude timed out after 120 seconds"@,
                ),
                _ => result is None,
            },
    {
        match self {
            ToolRequest::RunCommand { .. } => Some(error_result("Command timed out after 30 seconds")),
            ToolRequest::AskClaude { .. } => Some(error_result("ask_claude timed out after 120 seconds")),
            _ => None,
        }
    }
}

/// A call that was withdrawn is no longer in flight, so its result finds
/// nothing to answer; nor can a call be withdrawn after it was answered.
pub proof fn withdrawn_is_not_pending(pending: Set<Seq<char>>, id: Seq<char>)
    ensures
        !pending.remove(id).contains(id),
        pending.remove(id).remove(id) == pending.remove(id),
{
    assert(pending.remove(id).remove(id) =~= pending.remove(id));
}

} // verus!
