//! The event decoder: from a JSON document to a control message.
//!
//! A control message is a JSON object with a string member `type`. A member
//! that the schema does not name is passed over; a member that it names and
//! that holds the wrong kind of value makes the whole message undecodable.

use vstd::prelude::*;
use crate::json::{
    item_views, lemma_array_view, lemma_object_view, member_views, json_text, parse_json, Json,
    JsonView,
};
use crate::model::{opt_text, texts};
use crate::protocol::{
    opt_warning_views, warning_views, StreamEvent, StreamEventView, TuiMessage, TuiMessageView,
    Warning, WarningView,
};
use crate::text::same_text;

verus! {

/// The members of an object document.
pub type Members = Seq<(Seq<char>, JsonView)>;

/// Member `i` of an object carries this name.
pub open spec fn named_at(members: Members, name: Seq<char>, i: int) -> bool {
    0 <= i < members.len() && members[i].0 == name
}

/// Member `i` is the first one that carries this name.
pub open spec fn first_named_at(members: Members, name: Seq<char>, i: int) -> bool {
    &&& named_at(members, name, i)
    &&& forall|j: int| 0 <= j < i ==> !named_at(members, name, j)
}

/// The value of the first member with this name, if there is one.
pub open spec fn member(members: Members, name: Seq<char>) -> Option<JsonView> {
    if exists|i: int| first_named_at(members, name, i) {
        Some(members[choose|i: int| first_named_at(members, name, i)].1)
    } else {
        None
    }
}

/// A member that must be a string.
pub open spec fn text_in(value: Option<JsonView>) -> Option<Seq<char>> {
    match value {
        Some(JsonView::Text(s)) => Some(s),
        _ => None,
    }
}

/// A member that may be absent or null, and else must be a string. The outer
/// `None` says that it holds something else.
pub open spec fn optional_text_in(value: Option<JsonView>) -> Option<Option<Seq<char>>> {
    match value {
        None => Some(None),
        Some(JsonView::Null) => Some(None),
        Some(JsonView::Text(s)) => Some(Some(s)),
        _ => None,
    }
}

/// A member that may be absent or null, and else must be a boolean.
pub open spec fn optional_flag_in(value: Option<JsonView>) -> Option<Option<bool>> {
    match value {
        None => Some(None),
        Some(JsonView::Null) => Some(None),
        Some(JsonView::Bool(b)) => Some(Some(b)),
        _ => None,
    }
}

/// A member that may be absent or null, and else must be a whole number from
/// 0 to 2^64 - 1.
pub open spec fn optional_count_in(value: Option<JsonView>) -> Option<Option<u64>> {
    match value {
        None => Some(None),
        Some(JsonView::Null) => Some(None),
        Some(JsonView::Number(Some(n))) => Some(Some(n)),
        _ => None,
    }
}

/// A member that must be an array of strings.
pub open spec fn texts_in(value: Option<JsonView>) -> Option<Seq<Seq<char>>> {
    match value {
        Some(JsonView::Array(items)) => if forall|i: int|
            0 <= i < items.len() ==> items[i] is Text {
            Some(Seq::new(items.len(), |i: int| items[i]->Text_0))
        } else {
            None
        },
        _ => None,
    }
}

/// A warning: an object with string members `code` and `subject`.
pub open spec fn warning_in(value: JsonView) -> Option<WarningView> {
    match value {
        JsonView::Object(members) => match (
            text_in(member(members, "code"@)),
            text_in(member(members, "subject"@)),
        ) {
            (Some(code), Some(subject)) => Some(WarningView { code, subject }),
            _ => None,
        },
        _ => None,
    }
}

/// A member that may be absent or null, and else must be an array of warnings.
pub open spec fn optional_warnings_in(value: Option<JsonView>) -> Option<Option<Seq<WarningView>>> {
    match value {
        None => Some(None),
        Some(JsonView::Null) => Some(None),
        Some(JsonView::Array(items)) => if forall|i: int|
            0 <= i < items.len() ==> warning_in(items[i]) is Some {
            Some(Some(Seq::new(items.len(), |i: int| warning_in(items[i])->0)))
        } else {
            None
        },
        _ => None,
    }
}

/// The stream event of kind `kind` whose fields are the members `data`.
pub open spec fn event_with_fields(kind: Seq<char>, data: Members) -> Option<StreamEventView> {
    if kind == "meta"@ {
        match (
            optional_text_in(member(data, "provider"@)),
            optional_text_in(member(data, "model"@)),
        ) {
            (Some(provider), Some(model)) => Some(StreamEventView::Meta { provider, model }),
            _ => None,
        }
    } else if kind == "state"@ {
        match text_in(member(data, "state"@)) {
            Some(state) => Some(StreamEventView::State { state }),
            None => None,
        }
    } else if kind == "text_delta"@ {
        match text_in(member(data, "text"@)) {
            Some(text) => Some(StreamEventView::TextDelta { text }),
            None => None,
        }
    } else if kind == "tool_call"@ {
        match (optional_text_in(member(data, "name"@)), optional_text_in(member(data, "id"@))) {
            (Some(name), Some(id)) => Some(StreamEventView::ToolCall { name, id }),
            _ => None,
        }
    } else if kind == "tool_result"@ {
        match (
            optional_text_in(member(data, "tool_id"@)),
            optional_flag_in(member(data, "success"@)),
            optional_text_in(member(data, "output"@)),
            optional_count_in(member(data, "elapsed_ms"@)),
        ) {
            (Some(tool_id), Some(success), Some(output), Some(elapsed_ms)) => Some(
                StreamEventView::ToolResult { tool_id, success, output, elapsed_ms },
            ),
            _ => None,
        }
    } else if kind == "gate"@ {
        match (
            optional_text_in(member(data, "id"@)),
            optional_flag_in(member(data, "blocked"@)),
            optional_warnings_in(member(data, "warnings"@)),
        ) {
            (Some(id), Some(blocked), Some(warnings)) => Some(
                StreamEventView::Gate { id, blocked, warnings },
            ),
            _ => None,
        }
    } else if kind == "error"@ {
        match optional_text_in(member(data, "message"@)) {
            Some(message) => Some(StreamEventView::Error { message }),
            None => None,
        }
    } else {
        None
    }
}

/// The stream event of kind `kind` with the member `data` as it stands:
/// `complete` carries none, or null; each other kind carries an object.
pub open spec fn event_of_kind(kind: Seq<char>, data: Option<JsonView>) -> Option<StreamEventView> {
    if kind == "complete"@ {
        match data {
            None => Some(StreamEventView::Complete),
            Some(JsonView::Null) => Some(StreamEventView::Complete),
            _ => None,
        }
    } else {
        match data {
            Some(JsonView::Object(fields)) => event_with_fields(kind, fields),
            _ => None,
        }
    }
}

/// The stream event that a document stands for: an object with a string
/// member `type` and the member `data`.
pub open spec fn event_in(value: JsonView) -> Option<StreamEventView> {
    match value {
        JsonView::Object(members) => match text_in(member(members, "type"@)) {
            Some(kind) => event_of_kind(kind, member(members, "data"@)),
            None => None,
        },
        _ => None,
    }
}

/// The control message of kind `kind` whose fields are the members `fields`.
pub open spec fn message_of_kind(kind: Seq<char>, fields: Members) -> Option<TuiMessageView> {
    if kind == "dispatch"@ {
        match member(fields, "event"@) {
            Some(value) => match event_in(value) {
                Some(event) => Some(TuiMessageView::Dispatch { event }),
                None => None,
            },
            None => None,
        }
    } else if kind == "addUserMessage"@ {
        match text_in(member(fields, "content"@)) {
            Some(content) => Some(TuiMessageView::AddUserMessage { content }),
            None => None,
        }
    } else if kind == "setContext"@ {
        match (texts_in(member(fields, "files"@)), texts_in(member(fields, "scope"@))) {
            (Some(files), Some(scope)) => Some(TuiMessageView::SetContext { files, scope }),
            _ => None,
        }
    } else if kind == "updateState"@ {
        match text_in(member(fields, "state"@)) {
            Some(state) => Some(TuiMessageView::UpdateState { state }),
            None => None,
        }
    } else if kind == "destroy"@ {
        Some(TuiMessageView::Destroy)
    } else {
        None
    }
}

/// The control message that a document stands for, or `None` where it
/// stands for none.
pub open spec fn message_in(value: JsonView) -> Option<TuiMessageView> {
    match value {
        JsonView::Object(members) => match text_in(member(members, "type"@)) {
            Some(kind) => message_of_kind(kind, members),
            None => None,
        },
        _ => None,
    }
}

/// The control message that a line of text stands for, or `None` where the
/// line is no JSON document or the document no control message.
pub open spec fn decoded(line: Seq<char>) -> Option<TuiMessageView> {
    match json_text(line) {
        Some(value) => message_in(value),
        None => None,
    }
}

/// The view of an optional borrowed document.
pub open spec fn opt_doc(value: Option<&Json>) -> Option<JsonView> {
    match value {
        Some(j) => Some(j@),
        None => None,
    }
}

/// Looks up the first member with this name.
fn find_member<'a>(members: &'a Vec<(String, Json)>, name: &str) -> (found: Option<&'a Json>)
    ensures
        opt_doc(found) == member(member_views(members@), name@),
{
    let ghost all = member_views(members@);
    let n = members.len();
    let mut i: usize = 0;
    while i < n
        invariant
            i <= n,
            n == members.len(),
            all == member_views(members@),
            forall|j: int| 0 <= j < i ==> !named_at(all, name@, j),
        decreases n - i,
    {
        if same_text(members[i].0.as_str(), name) {
            proof {
                assert(first_named_at(all, name@, i as int));
                assert forall|k: int| first_named_at(all, name@, k) implies k == i by {
                    if k < i {
                        assert(!named_at(all, name@, k));
                    } else if k > i {
                        assert(named_at(all, name@, i as int));
                    }
                }
            }
            return Some(&members[i].1);
        }
        i = i + 1;
    }
    proof {
        if exists|k: int| first_named_at(all, name@, k) {
            let k = choose|k: int| first_named_at(all, name@, k);
            assert(named_at(all, name@, k));
        }
    }
    None
}

/// Reads a member that must be a string.
fn read_text(value: Option<&Json>) -> (text: Option<String>)
    ensures
        opt_text(text) == text_in(opt_doc(value)),
{
    match value {
        Some(Json::Text(s)) => Some(s.clone()),
        _ => None,
    }
}

/// Reads a member that may be absent or null, and else must be a string.
fn read_optional_text(value: Option<&Json>) -> (text: Option<Option<String>>)
    ensures
        match text {
            Some(t) => optional_text_in(opt_doc(value)) == Some(opt_text(t)),
            None => optional_text_in(opt_doc(value)) is None,
        },
{
    match value {
        None => Some(None),
        Some(Json::Null) => Some(None),
        Some(Json::Text(s)) => Some(Some(s.clone())),
        _ => None,
    }
}

/// Reads a member that may be absent or null, and else must be a boolean.
fn read_optional_flag(value: Option<&Json>) -> (flag: Option<Option<bool>>)
    ensures
        flag == optional_flag_in(opt_doc(value)),
{
    match value {
        None => Some(None),
        Some(Json::Null) => Some(None),
        Some(Json::Bool(b)) => Some(Some(*b)),
        _ => None,
    }
}

/// Reads a member that may be absent or null, and else must be a whole number.
fn read_optional_count(value: Option<&Json>) -> (count: Option<Option<u64>>)
    ensures
        count == optional_count_in(opt_doc(value)),
{
    match value {
        None => Some(None),
        Some(Json::Null) => Some(None),
        Some(Json::Number(Some(n))) => Some(Some(*n)),
        _ => None,
    }
}

/// Reads a member that must be an array of strings.
fn read_texts(value: Option<&Json>) -> (list: Option<Vec<String>>)
    ensures
        match list {
            Some(l) => texts_in(opt_doc(value)) == Some(texts(l@)),
            None => texts_in(opt_doc(value)) is None,
        },
{
    match value {
        Some(Json::Array(items)) => {
            proof {
                lemma_array_view(*items);
            }
            let ghost all = item_views(items@);
            let n = items.len();
            let mut list: Vec<String> = Vec::new();
            let mut i: usize = 0;
            while i < n
                invariant
                    i <= n,
                    n == items.len(),
                    all == item_views(items@),
                    opt_doc(value) == Some(JsonView::Array(all)),
                    list@.len() == i,
                    forall|k: int| 0 <= k < i ==> all[k] == JsonView::Text(#[trigger] list@[k]@),
                decreases n - i,
            {
                match &items[i] {
                    Json::Text(s) => {
                        list.push(s.clone());
                    },
                    _ => {
                        assert(!(all[i as int] is Text));
                        return None;
                    },
                }
                i = i + 1;
            }
            assert forall|k: int| 0 <= k < all.len() implies all[k] is Text by {
                assert(all[k] == JsonView::Text(list@[k]@));
            }
            assert(texts(list@) =~= Seq::new(all.len(), |i: int| all[i]->Text_0));
            Some(list)
        },
        _ => None,
    }
}

/// Reads a warning.
fn read_warning(value: &Json) -> (warning: Option<Warning>)
    ensures
        match warning {
            Some(w) => warning_in(value@) == Some(w@),
            None => warning_in(value@) is None,
        },
{
    match value {
        Json::Object(members) => {
            proof {
                lemma_object_view(*members);
            }
            let code = read_text(find_member(members, "code"));
            let subject = read_text(find_member(members, "subject"));
            match (code, subject) {
                (Some(code), Some(subject)) => Some(Warning { code, subject }),
                _ => None,
            }
        },
        _ => None,
    }
}

/// Reads a member that may be absent or null, and else must be an array of
/// warnings.
fn read_optional_warnings(value: Option<&Json>) -> (list: Option<Option<Vec<Warning>>>)
    ensures
        match list {
            Some(l) => optional_warnings_in(opt_doc(value)) == Some(opt_warning_views(l)),
            None => optional_warnings_in(opt_doc(value)) is None,
        },
{
    match value {
        None => Some(None),
        Some(Json::Null) => Some(None),
        Some(Json::Array(items)) => {
            proof {
                lemma_array_view(*items);
            }
            let ghost all = item_views(items@);
            let n = items.len();
            let mut list: Vec<Warning> = Vec::new();
            let mut i: usize = 0;
            while i < n
                invariant
                    i <= n,
                    n == items.len(),
                    all == item_views(items@),
                    opt_doc(value) == Some(JsonView::Array(all)),
                    list@.len() == i,
                    forall|k: int| 0 <= k < i ==> warning_in(all[k]) == Some(#[trigger] list@[k]@),
                decreases n - i,
            {
                match read_warning(&items[i]) {
                    Some(w) => {
                        list.push(w);
                    },
                    None => {
                        assert(warning_in(all[i as int]) is None);
                        return None;
                    },
                }
                i = i + 1;
            }
            assert forall|k: int| 0 <= k < all.len() implies warning_in(all[k]) is Some by {
                assert(warning_in(all[k]) == Some(list@[k]@));
            }
            assert(warning_views(list@) =~= Seq::new(all.len(), |i: int| warning_in(all[i])->0));
            Some(Some(list))
        },
        _ => None,
    }
}

/// Reads the fields of a stream event of the given kind.
fn read_event_fields(kind: &str, data: &Vec<(String, Json)>) -> (event: Option<StreamEvent>)
    ensures
        match event {
            Some(e) => event_with_fields(kind@, member_views(data@)) == Some(e@),
            None => event_with_fields(kind@, member_views(data@)) is None,
        },
{
    if same_text(kind, "meta") {
        let provider = read_optional_text(find_member(data, "provider"));
        let model = read_optional_text(find_member(data, "model"));
        match (provider, model) {
            (Some(provider), Some(model)) => Some(StreamEvent::Meta { provider, model }),
            _ => None,
        }
    } else if same_text(kind, "state") {
        match read_text(find_member(data, "state")) {
            Some(state) => Some(StreamEvent::State { state }),
            None => None,
        }
    } else if same_text(kind, "text_delta") {
        match read_text(find_member(data, "text")) {
            Some(text) => Some(StreamEvent::TextDelta { text }),
            None => None,
        }
    } else if same_text(kind, "tool_call") {
        let name = read_optional_text(find_member(data, "name"));
        let id = read_optional_text(find_member(data, "id"));
        match (name, id) {
            (Some(name), Some(id)) => Some(StreamEvent::ToolCall { name, id }),
            _ => None,
        }
    } else if same_text(kind, "tool_result") {
        let tool_id = read_optional_text(find_member(data, "tool_id"));
        let success = read_optional_flag(find_member(data, "success"));
        let output = read_optional_text(find_member(data, "output"));
        let elapsed_ms = read_optional_count(find_member(data, "elapsed_ms"));
        match (tool_id, success, output, elapsed_ms) {
            (Some(tool_id), Some(success), Some(output), Some(elapsed_ms)) => Some(
                StreamEvent::ToolResult { tool_id, success, output, elapsed_ms },
            ),
            _ => None,
        }
    } else if same_text(kind, "gate") {
        let id = read_optional_text(find_member(data, "id"));
        let blocked = read_optional_flag(find_member(data, "blocked"));
        let warnings = read_optional_warnings(find_member(data, "warnings"));
        match (id, blocked, warnings) {
            (Some(id), Some(blocked), Some(warnings)) => Some(
                StreamEvent::Gate { id, blocked, warnings },
            ),
            _ => None,
        }
    } else if same_text(kind, "error") {
        match read_optional_text(find_member(data, "message")) {
            Some(message) => Some(StreamEvent::Error { message }),
            None => None,
        }
    } else {
        None
    }
}

/// Decodes a stream event from a document.
pub fn decode_event(value: &Json) -> (event: Option<StreamEvent>)
    ensures
        match event {
            Some(e) => event_in(value@) == Some(e@),
            None => event_in(value@) is None,
        },
{
    match value {
        Json::Object(members) => {
            proof {
                lemma_object_view(*members);
            }
            match read_text(find_member(members, "type")) {
                Some(kind) => {
                    let data = find_member(members, "data");
                    if same_text(kind.as_str(), "complete") {
                        match data {
                            None => Some(StreamEvent::Complete),
                            Some(Json::Null) => Some(StreamEvent::Complete),
                            _ => None,
                        }
                    } else {
                        match data {
                            Some(Json::Object(fields)) => {
                                proof {
                                    lemma_object_view(*fields);
                                }
                                read_event_fields(kind.as_str(), fields)
                            },
                            _ => None,
                        }
                    }
                },
                None => None,
            }
        },
        _ => None,
    }
}

/// Reads the fields of a control message of the given kind.
fn read_message_fields(kind: &str, fields: &Vec<(String, Json)>) -> (msg: Option<TuiMessage>)
    ensures
        match msg {
            Some(m) => message_of_kind(kind@, member_views(fields@)) == Some(m@),
            None => message_of_kind(kind@, member_views(fields@)) is None,
        },
{
    if same_text(kind, "dispatch") {
        match find_member(fields, "event") {
            Some(value) => match decode_event(value) {
                Some(event) => Some(TuiMessage::Dispatch { event }),
                None => None,
            },
            None => None,
        }
    } else if same_text(kind, "addUserMessage") {
        match read_text(find_member(fields, "content")) {
            Some(content) => Some(TuiMessage::AddUserMessage { content }),
            None => None,
        }
    } else if same_text(kind, "setContext") {
        let files = read_texts(find_member(fields, "files"));
        let scope = read_texts(find_member(fields, "scope"));
        match (files, scope) {
            (Some(files), Some(scope)) => Some(TuiMessage::SetContext { files, scope }),
            _ => None,
        }
    } else if same_text(kind, "updateState") {
        match read_text(find_member(fields, "state")) {
            Some(state) => Some(TuiMessage::UpdateState { state }),
            None => None,
        }
    } else if same_text(kind, "destroy") {
        Some(TuiMessage::Destroy)
    } else {
        None
    }
}

/// Decodes a control message from a document.
pub fn decode_json(value: &Json) -> (msg: Option<TuiMessage>)
    ensures
        match msg {
            Some(m) => message_in(value@) == Some(m@),
            None => message_in(value@) is None,
        },
{
    match value {
        Json::Object(members) => {
            proof {
                lemma_object_view(*members);
            }
            match read_text(find_member(members, "type")) {
                Some(kind) => read_message_fields(kind.as_str(), members),
                None => None,
            }
        },
        _ => None,
    }
}

/// Decodes a control message from a line of text. A line that is no JSON
/// document, or whose document is no control message, gives `None`.
pub fn decode_line(line: &str) -> (msg: Option<TuiMessage>)
    ensures
        match msg {
            Some(m) => decoded(line@) == Some(m@),
            None => decoded(line@) is None,
        },
{
    match parse_json(line) {
        Some(value) => decode_json(&value),
        None => None,
    }
}

} // verus!
