//! The encoding of conversation items as JSON trees: each item is an object
//! whose member `type` names its variant.

use crate::json::distinct_keys;
use crate::json::lemma_array_view;
use crate::json::lemma_array_wf;
use crate::json::lemma_object_wf;
use crate::json::lemma_object_view;
use crate::json::members_view;
use crate::json::Json;
use crate::json::JsonView;
use crate::models::distinct_names;
use crate::models::ContentItem;
use crate::models::ContentItemView;
use crate::models::FunctionCallOutputPayload;
use crate::models::FunctionCallOutputPayloadView;
use crate::models::LocalShellAction;
use crate::models::LocalShellActionView;
use crate::models::LocalShellExecAction;
use crate::models::LocalShellExecActionView;
use crate::models::LocalShellStatus;
use crate::models::ResponseItem;
use crate::models::ResponseItemView;
use crate::models::ShellToolCallParams;
use crate::models::ShellToolCallParamsView;
use crate::models::ReasoningItemReasoningSummary;
use crate::models::ReasoningSummaryView;
use crate::text::str_eq;
use vstd::prelude::*;

verus! {

/// A string, or `null` where there is none.
pub open spec fn optional_text(text: Option<Seq<char>>) -> JsonView {
    match text {
        Some(s) => JsonView::Text(s),
        None => JsonView::Null,
    }
}

/// A boolean, or `null` where there is none.
pub open spec fn optional_bool(value: Option<bool>) -> JsonView {
    match value {
        Some(b) => JsonView::Bool(b),
        None => JsonView::Null,
    }
}

/// A number, or `null` where there is none.
pub open spec fn optional_number(value: Option<u64>) -> JsonView {
    match value {
        Some(n) => JsonView::Number(n),
        None => JsonView::Null,
    }
}

/// The array of the strings of `texts`.
pub open spec fn text_array(texts: Seq<Seq<char>>) -> JsonView {
    JsonView::Array(Seq::new(texts.len(), |i: int| JsonView::Text(texts[i])))
}

/// The encoding of one piece of content.
pub open spec fn encoded_content(content: ContentItemView) -> JsonView {
    match content {
        ContentItemView::InputText { text } => JsonView::Object(
            seq![("type"@, JsonView::Text("input_text"@)), ("text"@, JsonView::Text(text))],
        ),
        ContentItemView::InputImage { image_url } => JsonView::Object(
            seq![
                ("type"@, JsonView::Text("input_image"@)),
                ("image_url"@, JsonView::Text(image_url)),
            ],
        ),
        ContentItemView::OutputText { text } => JsonView::Object(
            seq![("type"@, JsonView::Text("output_text"@)), ("text"@, JsonView::Text(text))],
        ),
    }
}

/// The encoding of one entry of a reasoning summary.
pub open spec fn encoded_summary(summary: ReasoningSummaryView) -> JsonView {
    match summary {
        ReasoningSummaryView::SummaryText { text } => JsonView::Object(
            seq![("type"@, JsonView::Text("summary_text"@)), ("text"@, JsonView::Text(text))],
        ),
    }
}

/// The encoding of a function call's output as the session keeps it: an
/// object that always carries all three members.
pub open spec fn encoded_payload(payload: FunctionCallOutputPayloadView) -> JsonView {
    JsonView::Object(
        seq![
            ("content"@, JsonView::Text(payload.content)),
            ("success"@, optional_bool(payload.success)),
            ("is_user_feedback"@, JsonView::Bool(payload.is_user_feedback)),
        ],
    )
}

/// A member that must be a string.
pub open spec fn required_text(json: JsonView, key: Seq<char>) -> Option<Seq<char>> {
    match json.member(key) {
        Some(JsonView::Text(s)) => Some(s),
        _ => None,
    }
}

/// A member that may be missing or `null`, and must be a string otherwise.
/// The outer `None` says that the member is of another kind.
pub open spec fn nullable_text(json: JsonView, key: Seq<char>) -> Option<Option<Seq<char>>> {
    match json.member(key) {
        None | Some(JsonView::Null) => Some(None),
        Some(JsonView::Text(s)) => Some(Some(s)),
        _ => None,
    }
}

/// A member that may be missing or `null`, and must be a boolean otherwise.
pub open spec fn nullable_bool(json: JsonView, key: Seq<char>) -> Option<Option<bool>> {
    match json.member(key) {
        None | Some(JsonView::Null) => Some(None),
        Some(JsonView::Bool(b)) => Some(Some(b)),
        _ => None,
    }
}

/// A member that may be missing or `null`, and must be an unsigned integer
/// of 64 bits otherwise.
pub open spec fn nullable_number(json: JsonView, key: Seq<char>) -> Option<Option<u64>> {
    match json.member(key) {
        None | Some(JsonView::Null) => Some(None),
        Some(JsonView::Number(n)) => Some(Some(n)),
        _ => None,
    }
}

/// The piece of content that a tree encodes; `None` where it encodes none.
pub open spec fn decoded_content(json: JsonView) -> Option<ContentItemView> {
    match required_text(json, "type"@) {
        Some(tag) => if tag == "input_text"@ {
            match required_text(json, "text"@) {
                Some(text) => Some(ContentItemView::InputText { text }),
                None => None,
            }
        } else if tag == "input_image"@ {
            match required_text(json, "image_url"@) {
                Some(image_url) => Some(ContentItemView::InputImage { image_url }),
                None => None,
            }
        } else if tag == "output_text"@ {
            match required_text(json, "text"@) {
                Some(text) => Some(ContentItemView::OutputText { text }),
                None => None,
            }
        } else {
            None
        },
        None => None,
    }
}

/// The summary entry that a tree encodes; `None` where it encodes none.
pub open spec fn decoded_summary(json: JsonView) -> Option<ReasoningSummaryView> {
    match required_text(json, "type"@) {
        Some(tag) => if tag == "summary_text"@ {
            match required_text(json, "text"@) {
                Some(text) => Some(ReasoningSummaryView::SummaryText { text }),
                None => None,
            }
        } else {
            None
        },
        None => None,
    }
}

/// The output of a function call that a tree encodes: `content` must be
/// a string, `success` may be missing, and a missing `is_user_feedback`
/// counts as `false`.
pub open spec fn decoded_payload(json: JsonView) -> Option<FunctionCallOutputPayloadView> {
    match (required_text(json, "content"@), nullable_bool(json, "success"@)) {
        (Some(content), Some(success)) => match json.member("is_user_feedback"@) {
            None => Some(FunctionCallOutputPayloadView { content, success, is_user_feedback: false }),
            Some(JsonView::Bool(flag)) => Some(
                FunctionCallOutputPayloadView { content, success, is_user_feedback: flag },
            ),
            _ => None,
        },
        _ => None,
    }
}

/// Reveals what the names of the members and variants are made of.
pub proof fn lemma_names()
    ensures
        "type"@.len() == 4,
        "text"@.len() == 4,
        "type"@ != "text"@,
        "image_url"@.len() == 9,
        "input_text"@.len() == 10,
        "input_image"@.len() == 11,
        "output_text"@.len() == 11,
        "input_image"@ != "output_text"@,
        "summary_text"@.len() == 12,
        "content"@.len() == 7,
        "success"@.len() == 7,
        "content"@ != "success"@,
        "is_user_feedback"@.len() == 16,
{
    reveal_strlit("type");
    reveal_strlit("text");
    reveal_strlit("image_url");
    reveal_strlit("input_text");
    reveal_strlit("input_image");
    reveal_strlit("output_text");
    reveal_strlit("summary_text");
    reveal_strlit("content");
    reveal_strlit("success");
    reveal_strlit("is_user_feedback");
    assert("type"@[1] != "text"@[1]);
    assert("input_image"@[0] != "output_text"@[0]);
    assert("content"@[0] != "success"@[0]);
}

/// A piece of content is what its encoding decodes to.
pub proof fn lemma_content_round_trip(content: ContentItemView)
    ensures
        decoded_content(encoded_content(content)) == Some(content),
{
    lemma_names();
    reveal_with_fuel(crate::json::member_from, 3);
}

/// A summary entry is what its encoding decodes to.
pub proof fn lemma_summary_round_trip(summary: ReasoningSummaryView)
    ensures
        decoded_summary(encoded_summary(summary)) == Some(summary),
{
    lemma_names();
    reveal_with_fuel(crate::json::member_from, 3);
}

/// The output of a function call is what its encoding decodes to.
pub proof fn lemma_payload_round_trip(payload: FunctionCallOutputPayloadView)
    ensures
        decoded_payload(encoded_payload(payload)) == Some(payload),
{
    lemma_names();
    reveal_with_fuel(crate::json::member_from, 4);
}

/// The array of the encodings of `contents`.
pub open spec fn encoded_contents(contents: Seq<ContentItemView>) -> JsonView {
    JsonView::Array(Seq::new(contents.len(), |i: int| encoded_content(contents[i])))
}

/// The pieces of content that an array encodes; `None` for a tree that is
/// no array or has an item that encodes no content.
pub open spec fn decoded_contents(json: JsonView) -> Option<Seq<ContentItemView>> {
    match json {
        JsonView::Array(items) => if forall|i: int|
            0 <= i < items.len() ==> (#[trigger] decoded_content(items[i])) is Some {
            Some(Seq::new(items.len(), |i: int| decoded_content(items[i])->0))
        } else {
            None
        },
        _ => None,
    }
}

/// The array of the encodings of `summaries`.
pub open spec fn encoded_summaries(summaries: Seq<ReasoningSummaryView>) -> JsonView {
    JsonView::Array(Seq::new(summaries.len(), |i: int| encoded_summary(summaries[i])))
}

/// The summary entries that an array encodes; `None` for a tree that is no
/// array or has an item that encodes no entry.
pub open spec fn decoded_summaries(json: JsonView) -> Option<Seq<ReasoningSummaryView>> {
    match json {
        JsonView::Array(items) => if forall|i: int|
            0 <= i < items.len() ==> (#[trigger] decoded_summary(items[i])) is Some {
            Some(Seq::new(items.len(), |i: int| decoded_summary(items[i])->0))
        } else {
            None
        },
        _ => None,
    }
}

/// The strings of an array of strings; `None` for any other tree.
pub open spec fn decoded_texts(json: JsonView) -> Option<Seq<Seq<char>>> {
    match json {
        JsonView::Array(items) => if forall|i: int| 0 <= i < items.len() ==> (#[trigger] items[i]) is Text {
            Some(Seq::new(items.len(), |i: int| items[i]->Text_0))
        } else {
            None
        },
        _ => None,
    }
}

/// The object whose members are the variables of `env`, in order.
pub open spec fn encoded_env(env: Seq<(Seq<char>, Seq<char>)>) -> JsonView {
    JsonView::Object(Seq::new(env.len(), |i: int| (env[i].0, JsonView::Text(env[i].1))))
}

/// The variables that an object of strings encodes, in order; `None` for
/// any other tree.
pub open spec fn decoded_env(json: JsonView) -> Option<Seq<(Seq<char>, Seq<char>)>> {
    match json {
        JsonView::Object(members) => if forall|i: int|
            0 <= i < members.len() ==> (#[trigger] members[i]).1 is Text {
            Some(Seq::new(members.len(), |i: int| (members[i].0, members[i].1->Text_0)))
        } else {
            None
        },
        _ => None,
    }
}

/// Contents are what their encoding decodes to.
pub proof fn lemma_contents_round_trip(contents: Seq<ContentItemView>)
    ensures
        decoded_contents(encoded_contents(contents)) == Some(contents),
{
    let items = encoded_contents(contents)->Array_0;
    assert forall|i: int| 0 <= i < items.len() implies (#[trigger] decoded_content(items[i]))
        == Some(contents[i]) by {
        lemma_content_round_trip(contents[i]);
    }
    assert(Seq::new(items.len(), |i: int| decoded_content(items[i])->0) =~= contents);
}

/// Summaries are what their encoding decodes to.
pub proof fn lemma_summaries_round_trip(summaries: Seq<ReasoningSummaryView>)
    ensures
        decoded_summaries(encoded_summaries(summaries)) == Some(summaries),
{
    let items = encoded_summaries(summaries)->Array_0;
    assert forall|i: int| 0 <= i < items.len() implies (#[trigger] decoded_summary(items[i]))
        == Some(summaries[i]) by {
        lemma_summary_round_trip(summaries[i]);
    }
    assert(Seq::new(items.len(), |i: int| decoded_summary(items[i])->0) =~= summaries);
}

/// Strings are what their array decodes to.
pub proof fn lemma_texts_round_trip(texts: Seq<Seq<char>>)
    ensures
        decoded_texts(text_array(texts)) == Some(texts),
{
    let items = text_array(texts)->Array_0;
    assert(Seq::new(items.len(), |i: int| items[i]->Text_0) =~= texts);
}

/// An environment is what its object decodes to.
pub proof fn lemma_env_round_trip(env: Seq<(Seq<char>, Seq<char>)>)
    ensures
        decoded_env(encoded_env(env)) == Some(env),
{
    let members = encoded_env(env)->Object_0;
    assert(Seq::new(members.len(), |i: int| (members[i].0, members[i].1->Text_0)) =~= env);
}

fn text_node(text: &str) -> (json: Json)
    ensures
        json@ == JsonView::Text(text@),
{
    Json::Text(text.to_string())
}

fn member(key: &str, value: Json) -> (pair: (String, Json))
    ensures
        pair.0@ == key@,
        pair.1 == value,
{
    (key.to_string(), value)
}

fn object(members: Vec<(String, Json)>) -> (json: Json)
    ensures
        json@ == JsonView::Object(members_view(members@)),
{
    proof {
        lemma_object_view(members);
    }
    Json::Object(members)
}

/// Encodes one piece of content.
pub fn encode_content(content: &ContentItem) -> (json: Json)
    ensures
        json@ == encoded_content(content@),
{
    let members = match content {
        ContentItem::InputText { text } => vec![
            member("type", text_node("input_text")),
            member("text", text_node(text.as_str())),
        ],
        ContentItem::InputImage { image_url } => vec![
            member("type", text_node("input_image")),
            member("image_url", text_node(image_url.as_str())),
        ],
        ContentItem::OutputText { text } => vec![
            member("type", text_node("output_text")),
            member("text", text_node(text.as_str())),
        ],
    };
    assert(members_view(members@) =~= encoded_content(content@)->Object_0);
    object(members)
}

/// Encodes one entry of a reasoning summary.
pub fn encode_summary(summary: &ReasoningItemReasoningSummary) -> (json: Json)
    ensures
        json@ == encoded_summary(summary@),
{
    let members = match summary {
        ReasoningItemReasoningSummary::SummaryText { text } => vec![
            member("type", text_node("summary_text")),
            member("text", text_node(text.as_str())),
        ],
    };
    assert(members_view(members@) =~= encoded_summary(summary@)->Object_0);
    object(members)
}

/// Encodes the output of a function call as the session keeps it.
pub fn encode_payload(payload: &FunctionCallOutputPayload) -> (json: Json)
    ensures
        json@ == encoded_payload(payload@),
{
    let success = match payload.success {
        Some(b) => Json::Bool(b),
        None => Json::Null,
    };
    let members = vec![
        member("content", text_node(payload.content.as_str())),
        member("success", success),
        member("is_user_feedback", Json::Bool(payload.is_user_feedback)),
    ];
    assert(members_view(members@) =~= encoded_payload(payload@)->Object_0);
    object(members)
}

/// The name of a status on the wire.
pub open spec fn status_name(status: LocalShellStatus) -> Seq<char> {
    match status {
        LocalShellStatus::Completed => "completed"@,
        LocalShellStatus::InProgress => "in_progress"@,
        LocalShellStatus::Incomplete => "incomplete"@,
    }
}

/// The status that a name stands for.
pub open spec fn status_named(name: Seq<char>) -> Option<LocalShellStatus> {
    if name == "completed"@ {
        Some(LocalShellStatus::Completed)
    } else if name == "in_progress"@ {
        Some(LocalShellStatus::InProgress)
    } else if name == "incomplete"@ {
        Some(LocalShellStatus::Incomplete)
    } else {
        None
    }
}

/// The environment of a command, or `null` where it has none.
pub open spec fn optional_env(env: Option<Seq<(Seq<char>, Seq<char>)>>) -> JsonView {
    match env {
        Some(env) => encoded_env(env),
        None => JsonView::Null,
    }
}

/// The encoding of what a local shell call does.
pub open spec fn encoded_action(action: LocalShellActionView) -> JsonView {
    match action {
        LocalShellActionView::Exec(exec) => JsonView::Object(
            seq![
                ("type"@, JsonView::Text("exec"@)),
                ("command"@, text_array(exec.command)),
                ("timeout_ms"@, optional_number(exec.timeout_ms)),
                ("working_directory"@, optional_text(exec.working_directory)),
                ("env"@, optional_env(exec.env)),
                ("user"@, optional_text(exec.user)),
            ],
        ),
    }
}

/// A member that may be missing or `null`, and must be an object of strings
/// otherwise.
pub open spec fn nullable_env(json: JsonView, key: Seq<char>) -> Option<
    Option<Seq<(Seq<char>, Seq<char>)>>,
> {
    match json.member(key) {
        None | Some(JsonView::Null) => Some(None),
        Some(value) => match decoded_env(value) {
            Some(env) => Some(Some(env)),
            None => None,
        },
    }
}

/// A member that must be an array of strings.
pub open spec fn required_texts(json: JsonView, key: Seq<char>) -> Option<Seq<Seq<char>>> {
    match json.member(key) {
        Some(value) => decoded_texts(value),
        None => None,
    }
}

/// What a local shell call does, as a tree encodes it.
pub open spec fn decoded_action(json: JsonView) -> Option<LocalShellActionView> {
    if required_text(json, "type"@) == Some("exec"@) {
        match (
            required_texts(json, "command"@),
            nullable_number(json, "timeout_ms"@),
            nullable_text(json, "working_directory"@),
            nullable_env(json, "env"@),
            nullable_text(json, "user"@),
        ) {
            (Some(command), Some(timeout_ms), Some(working_directory), Some(env), Some(user)) => Some(
                LocalShellActionView::Exec(
                    LocalShellExecActionView { command, timeout_ms, working_directory, env, user },
                ),
            ),
            _ => None,
        }
    } else {
        None
    }
}

/// The encoding of a conversation item.
pub open spec fn encoded_item(item: ResponseItemView) -> JsonView {
    match item {
        ResponseItemView::Message { role, content } => JsonView::Object(
            seq![
                ("type"@, JsonView::Text("message"@)),
                ("role"@, JsonView::Text(role)),
                ("content"@, encoded_contents(content)),
            ],
        ),
        ResponseItemView::Reasoning { id, summary } => JsonView::Object(
            seq![
                ("type"@, JsonView::Text("reasoning"@)),
                ("id"@, JsonView::Text(id)),
                ("summary"@, encoded_summaries(summary)),
            ],
        ),
        ResponseItemView::LocalShellCall { id, call_id, status, action } => JsonView::Object(
            seq![
                ("type"@, JsonView::Text("local_shell_call"@)),
                ("id"@, optional_text(id)),
                ("call_id"@, optional_text(call_id)),
                ("status"@, JsonView::Text(status_name(status))),
                ("action"@, encoded_action(action)),
            ],
        ),
        ResponseItemView::FunctionCall { name, arguments, call_id } => JsonView::Object(
            seq![
                ("type"@, JsonView::Text("function_call"@)),
                ("name"@, JsonView::Text(name)),
                ("arguments"@, JsonView::Text(arguments)),
                ("call_id"@, JsonView::Text(call_id)),
            ],
        ),
        ResponseItemView::FunctionCallOutput { call_id, output } => JsonView::Object(
            seq![
                ("type"@, JsonView::Text("function_call_output"@)),
                ("call_id"@, JsonView::Text(call_id)),
                ("output"@, encoded_payload(output)),
            ],
        ),
        ResponseItemView::Other => JsonView::Object(seq![("type"@, JsonView::Text("other"@))]),
    }
}

/// A member decoded by `decode`; `None` where the member is missing.
pub open spec fn required_member<T>(json: JsonView, key: Seq<char>, decode: spec_fn(JsonView) -> Option<T>) -> Option<
    T,
> {
    match json.member(key) {
        Some(value) => decode(value),
        None => None,
    }
}

/// The message that an object encodes.
pub open spec fn decoded_message(json: JsonView) -> Option<ResponseItemView> {
    match (
        required_text(json, "role"@),
        required_member(json, "content"@, |value: JsonView| decoded_contents(value)),
    ) {
        (Some(role), Some(content)) => Some(ResponseItemView::Message { role, content }),
        _ => None,
    }
}

/// The reasoning item that an object encodes.
pub open spec fn decoded_reasoning(json: JsonView) -> Option<ResponseItemView> {
    match (
        required_text(json, "id"@),
        required_member(json, "summary"@, |value: JsonView| decoded_summaries(value)),
    ) {
        (Some(id), Some(summary)) => Some(ResponseItemView::Reasoning { id, summary }),
        _ => None,
    }
}

/// The local shell call that an object encodes.
pub open spec fn decoded_local_shell_call(json: JsonView) -> Option<ResponseItemView> {
    match (
        nullable_text(json, "id"@),
        nullable_text(json, "call_id"@),
        required_member(
            json,
            "status"@,
            |value: JsonView|
                match value {
                    JsonView::Text(name) => status_named(name),
                    _ => None,
                },
        ),
        required_member(json, "action"@, |value: JsonView| decoded_action(value)),
    ) {
        (Some(id), Some(call_id), Some(status), Some(action)) => Some(
            ResponseItemView::LocalShellCall { id, call_id, status, action },
        ),
        _ => None,
    }
}

/// The function call that an object encodes.
pub open spec fn decoded_function_call(json: JsonView) -> Option<ResponseItemView> {
    match (
        required_text(json, "name"@),
        required_text(json, "arguments"@),
        required_text(json, "call_id"@),
    ) {
        (Some(name), Some(arguments), Some(call_id)) => Some(
            ResponseItemView::FunctionCall { name, arguments, call_id },
        ),
        _ => None,
    }
}

/// The function call output that an object encodes.
pub open spec fn decoded_function_call_output(json: JsonView) -> Option<ResponseItemView> {
    match (
        required_text(json, "call_id"@),
        required_member(json, "output"@, |value: JsonView| decoded_payload(value)),
    ) {
        (Some(call_id), Some(output)) => Some(ResponseItemView::FunctionCallOutput { call_id, output }),
        _ => None,
    }
}

/// The conversation item that a tree encodes. A tree whose member `type`
/// is a string that names no known variant encodes `Other`; a tree
/// without such a member, or with a member of the wrong kind for its
/// variant, encodes no item.
pub open spec fn decoded_item(json: JsonView) -> Option<ResponseItemView> {
    match required_text(json, "type"@) {
        Some(tag) => if tag == "message"@ {
            decoded_message(json)
        } else if tag == "reasoning"@ {
            decoded_reasoning(json)
        } else if tag == "local_shell_call"@ {
            decoded_local_shell_call(json)
        } else if tag == "function_call"@ {
            decoded_function_call(json)
        } else if tag == "function_call_output"@ {
            decoded_function_call_output(json)
        } else {
            Some(ResponseItemView::Other)
        },
        None => None,
    }
}

/// Reveals what the names of an item's members and variants are made of.
pub proof fn lemma_item_names()
    ensures
        "type"@.len() == 4,
        "role"@.len() == 4,
        "name"@.len() == 4,
        "user"@.len() == 4,
        "type"@[0] == 't',
        "role"@[0] == 'r',
        "name"@[0] == 'n',
        "user"@[0] == 'u',
        "id"@.len() == 2,
        "env"@.len() == 3,
        "content"@.len() == 7,
        "summary"@.len() == 7,
        "call_id"@.len() == 7,
        "command"@.len() == 7,
        "message"@.len() == 7,
        "content"@[1] == 'o',
        "summary"@[1] == 'u',
        "call_id"@[1] == 'a',
        "command"@[1] == 'o',
        "content"@[2] == 'n',
        "command"@[2] == 'm',
        "status"@.len() == 6,
        "action"@.len() == 6,
        "output"@.len() == 6,
        "status"@[0] == 's',
        "action"@[0] == 'a',
        "output"@[0] == 'o',
        "arguments"@.len() == 9,
        "reasoning"@.len() == 9,
        "completed"@.len() == 9,
        "timeout_ms"@.len() == 10,
        "incomplete"@.len() == 10,
        "in_progress"@.len() == 11,
        "working_directory"@.len() == 17,
        "local_shell_call"@.len() == 16,
        "function_call"@.len() == 13,
        "function_call_output"@.len() == 20,
        "other"@.len() == 5,
        "exec"@.len() == 4,
{
    reveal_strlit("type");
    reveal_strlit("role");
    reveal_strlit("name");
    reveal_strlit("user");
    reveal_strlit("id");
    reveal_strlit("env");
    reveal_strlit("content");
    reveal_strlit("summary");
    reveal_strlit("call_id");
    reveal_strlit("command");
    reveal_strlit("message");
    reveal_strlit("status");
    reveal_strlit("action");
    reveal_strlit("output");
    reveal_strlit("arguments");
    reveal_strlit("reasoning");
    reveal_strlit("completed");
    reveal_strlit("timeout_ms");
    reveal_strlit("incomplete");
    reveal_strlit("in_progress");
    reveal_strlit("working_directory");
    reveal_strlit("local_shell_call");
    reveal_strlit("function_call");
    reveal_strlit("function_call_output");
    reveal_strlit("other");
    reveal_strlit("exec");
}

/// What a local shell call does is what its encoding decodes to.
pub proof fn lemma_action_round_trip(action: LocalShellActionView)
    ensures
        decoded_action(encoded_action(action)) == Some(action),
{
    lemma_item_names();
    reveal_with_fuel(crate::json::member_from, 7);
    let exec = action->Exec_0;
    lemma_texts_round_trip(exec.command);
    if exec.env is Some {
        lemma_env_round_trip(exec.env->0);
    }
}

/// Every conversation item is what its encoding decodes to.
pub proof fn lemma_item_round_trip(item: ResponseItemView)
    ensures
        decoded_item(encoded_item(item)) == Some(item),
{
    lemma_item_names();
    reveal_with_fuel(crate::json::member_from, 6);
    match item {
        ResponseItemView::Message { role, content } => {
            lemma_contents_round_trip(content);
        },
        ResponseItemView::Reasoning { id, summary } => {
            lemma_summaries_round_trip(summary);
        },
        ResponseItemView::LocalShellCall { id, call_id, status, action } => {
            lemma_action_round_trip(action);
        },
        ResponseItemView::FunctionCall { .. } => {},
        ResponseItemView::FunctionCallOutput { call_id, output } => {
            lemma_payload_round_trip(output);
        },
        ResponseItemView::Other => {},
    }
}

fn array(items: Vec<Json>) -> (json: Json)
    ensures
        json@ == JsonView::Array(items.deep_view()),
{
    proof {
        lemma_array_view(items);
    }
    Json::Array(items)
}

fn optional_text_node(text: &Option<String>) -> (json: Json)
    ensures
        json@ == optional_text(text.deep_view()),
{
    match text {
        Some(s) => text_node(s.as_str()),
        None => Json::Null,
    }
}

/// Encodes the strings of `texts` as an array.
pub fn encode_texts(texts: &Vec<String>) -> (json: Json)
    ensures
        json@ == text_array(texts.deep_view()),
{
    let mut items: Vec<Json> = Vec::new();
    let mut i: usize = 0;
    while i < texts.len()
        invariant
            i <= texts.len(),
            items.len() == i,
            forall|k: int| 0 <= k < i ==> (#[trigger] items@[k])@ == JsonView::Text(texts@[k]@),
        decreases texts.len() - i,
    {
        items.push(text_node(texts[i].as_str()));
        i += 1;
    }
    assert(items.deep_view() =~= text_array(texts.deep_view())->Array_0);
    array(items)
}

/// Encodes the pieces of content of a message as an array.
pub fn encode_contents(contents: &Vec<ContentItem>) -> (json: Json)
    ensures
        json@ == encoded_contents(contents.deep_view()),
{
    let mut items: Vec<Json> = Vec::new();
    let mut i: usize = 0;
    while i < contents.len()
        invariant
            i <= contents.len(),
            items.len() == i,
            forall|k: int| 0 <= k < i ==> (#[trigger] items@[k])@ == encoded_content(contents@[k]@),
        decreases contents.len() - i,
    {
        items.push(encode_content(&contents[i]));
        i += 1;
    }
    assert(items.deep_view() =~= encoded_contents(contents.deep_view())->Array_0);
    array(items)
}

/// Encodes the entries of a reasoning summary as an array.
pub fn encode_summaries(summaries: &Vec<ReasoningItemReasoningSummary>) -> (json: Json)
    ensures
        json@ == encoded_summaries(summaries.deep_view()),
{
    let mut items: Vec<Json> = Vec::new();
    let mut i: usize = 0;
    while i < summaries.len()
        invariant
            i <= summaries.len(),
            items.len() == i,
            forall|k: int| 0 <= k < i ==> (#[trigger] items@[k])@ == encoded_summary(summaries@[k]@),
        decreases summaries.len() - i,
    {
        items.push(encode_summary(&summaries[i]));
        i += 1;
    }
    assert(items.deep_view() =~= encoded_summaries(summaries.deep_view())->Array_0);
    array(items)
}

/// Encodes the environment of a command as an object of strings.
pub fn encode_env(env: &Vec<(String, String)>) -> (json: Json)
    ensures
        json@ == encoded_env(env.deep_view()),
{
    let mut members: Vec<(String, Json)> = Vec::new();
    let mut i: usize = 0;
    while i < env.len()
        invariant
            i <= env.len(),
            members.len() == i,
            forall|k: int|
                0 <= k < i ==> (#[trigger] members@[k]).0@ == env@[k].0@ && members@[k].1@
                    == JsonView::Text(env@[k].1@),
        decreases env.len() - i,
    {
        members.push(member(env[i].0.as_str(), text_node(env[i].1.as_str())));
        i += 1;
    }
    assert(members_view(members@) =~= encoded_env(env.deep_view())->Object_0);
    object(members)
}

/// Encodes what a local shell call does.
pub fn encode_action(action: &LocalShellAction) -> (json: Json)
    ensures
        json@ == encoded_action(action@),
{
    match action {
        LocalShellAction::Exec(exec) => {
            let timeout = match exec.timeout_ms {
                Some(n) => Json::Number(n),
                None => Json::Null,
            };
            let env = match &exec.env {
                Some(env) => encode_env(env),
                None => Json::Null,
            };
            let members = vec![
                member("type", text_node("exec")),
                member("command", encode_texts(&exec.command)),
                member("timeout_ms", timeout),
                member("working_directory", optional_text_node(&exec.working_directory)),
                member("env", env),
                member("user", optional_text_node(&exec.user)),
            ];
            assert(members_view(members@) =~= encoded_action(action@)->Object_0);
            object(members)
        },
    }
}

/// The name of a status on the wire.
pub fn status_text(status: LocalShellStatus) -> (name: &'static str)
    ensures
        name@ == status_name(status),
{
    match status {
        LocalShellStatus::Completed => "completed",
        LocalShellStatus::InProgress => "in_progress",
        LocalShellStatus::Incomplete => "incomplete",
    }
}

/// Encodes a conversation item as the session keeps it.
pub fn encode_item(item: &ResponseItem) -> (json: Json)
    ensures
        json@ == encoded_item(item@),
{
    let members = match item {
        ResponseItem::Message { role, content } => vec![
            member("type", text_node("message")),
            member("role", text_node(role.as_str())),
            member("content", encode_contents(content)),
        ],
        ResponseItem::Reasoning { id, summary } => vec![
            member("type", text_node("reasoning")),
            member("id", text_node(id.as_str())),
            member("summary", encode_summaries(summary)),
        ],
        ResponseItem::LocalShellCall { id, call_id, status, action } => vec![
            member("type", text_node("local_shell_call")),
            member("id", optional_text_node(id)),
            member("call_id", optional_text_node(call_id)),
            member("status", text_node(status_text(*status))),
            member("action", encode_action(action)),
        ],
        ResponseItem::FunctionCall { name, arguments, call_id } => vec![
            member("type", text_node("function_call")),
            member("name", text_node(name.as_str())),
            member("arguments", text_node(arguments.as_str())),
            member("call_id", text_node(call_id.as_str())),
        ],
        ResponseItem::FunctionCallOutput { call_id, output } => vec![
            member("type", text_node("function_call_output")),
            member("call_id", text_node(call_id.as_str())),
            member("output", encode_payload(output)),
        ],
        ResponseItem::Other => vec![member("type", text_node("other"))],
    };
    assert(members_view(members@) =~= encoded_item(item@)->Object_0);
    object(members)
}

fn text_member(json: &Json, key: &str) -> (text: Option<String>)
    ensures
        text.deep_view() == required_text(json@, key@),
{
    match json.get(key) {
        Some(Json::Text(s)) => Some(s.clone()),
        _ => None,
    }
}

fn nullable_text_member(json: &Json, key: &str) -> (text: Option<Option<String>>)
    ensures
        text.deep_view() == nullable_text(json@, key@),
{
    match json.get(key) {
        None | Some(Json::Null) => Some(None),
        Some(Json::Text(s)) => Some(Some(s.clone())),
        _ => None,
    }
}

fn nullable_bool_member(json: &Json, key: &str) -> (value: Option<Option<bool>>)
    ensures
        value == nullable_bool(json@, key@),
{
    match json.get(key) {
        None | Some(Json::Null) => Some(None),
        Some(Json::Bool(b)) => Some(Some(*b)),
        _ => None,
    }
}

fn nullable_number_member(json: &Json, key: &str) -> (value: Option<Option<u64>>)
    ensures
        value == nullable_number(json@, key@),
{
    match json.get(key) {
        None | Some(Json::Null) => Some(None),
        Some(Json::Number(n)) => Some(Some(*n)),
        _ => None,
    }
}

/// Decodes one piece of content.
pub fn decode_content(json: &Json) -> (content: Option<ContentItem>)
    ensures
        content.deep_view() == decoded_content(json@),
{
    let tag = text_member(json, "type")?;
    if str_eq(tag.as_str(), "input_text") {
        Some(ContentItem::InputText { text: text_member(json, "text")? })
    } else if str_eq(tag.as_str(), "input_image") {
        Some(ContentItem::InputImage { image_url: text_member(json, "image_url")? })
    } else if str_eq(tag.as_str(), "output_text") {
        Some(ContentItem::OutputText { text: text_member(json, "text")? })
    } else {
        None
    }
}

/// Decodes one entry of a reasoning summary.
pub fn decode_summary(json: &Json) -> (summary: Option<ReasoningItemReasoningSummary>)
    ensures
        summary.deep_view() == decoded_summary(json@),
{
    let tag = text_member(json, "type")?;
    if str_eq(tag.as_str(), "summary_text") {
        Some(ReasoningItemReasoningSummary::SummaryText { text: text_member(json, "text")? })
    } else {
        None
    }
}

/// Decodes the output of a function call.
pub fn decode_payload(json: &Json) -> (payload: Option<FunctionCallOutputPayload>)
    ensures
        payload.deep_view() == decoded_payload(json@),
{
    let content = text_member(json, "content")?;
    let success = nullable_bool_member(json, "success")?;
    let is_user_feedback = match json.get("is_user_feedback") {
        None => false,
        Some(Json::Bool(flag)) => *flag,
        _ => {
            return None;
        },
    };
    Some(FunctionCallOutputPayload { content, success, is_user_feedback })
}

/// Decodes an array of pieces of content.
pub fn decode_contents(json: &Json) -> (contents: Option<Vec<ContentItem>>)
    ensures
        contents.deep_view() == decoded_contents(json@),
{
    let items = json.as_array()?;
    let ghost trees = items.deep_view();
    let mut contents: Vec<ContentItem> = Vec::new();
    let mut i: usize = 0;
    while i < items.len()
        invariant
            i <= items.len(),
            contents.len() == i,
            trees == items.deep_view(),
            json@ == JsonView::Array(trees),
            forall|k: int| 0 <= k < i ==> decoded_content(trees[k]) == Some((#[trigger] contents@[k])@),
        decreases items.len() - i,
    {
        assert(trees[i as int] == items@[i as int]@);
        match decode_content(&items[i]) {
            Some(content) => contents.push(content),
            None => {
                return None;
            },
        }
        i += 1;
    }
    assert forall|k: int| 0 <= k < trees.len() implies (#[trigger] decoded_content(trees[k]))
        == Some(contents@[k]@) by {
        assert(contents@[k]@ == contents@[k]@);
    }
    assert(contents.deep_view() =~= decoded_contents(json@)->0);
    Some(contents)
}

/// Decodes an array of summary entries.
pub fn decode_summaries(json: &Json) -> (summaries: Option<Vec<ReasoningItemReasoningSummary>>)
    ensures
        summaries.deep_view() == decoded_summaries(json@),
{
    let items = json.as_array()?;
    let ghost trees = items.deep_view();
    let mut summaries: Vec<ReasoningItemReasoningSummary> = Vec::new();
    let mut i: usize = 0;
    while i < items.len()
        invariant
            i <= items.len(),
            summaries.len() == i,
            trees == items.deep_view(),
            json@ == JsonView::Array(trees),
            forall|k: int| 0 <= k < i ==> decoded_summary(trees[k]) == Some((#[trigger] summaries@[k])@),
        decreases items.len() - i,
    {
        assert(trees[i as int] == items@[i as int]@);
        match decode_summary(&items[i]) {
            Some(summary) => summaries.push(summary),
            None => {
                return None;
            },
        }
        i += 1;
    }
    assert forall|k: int| 0 <= k < trees.len() implies (#[trigger] decoded_summary(trees[k]))
        == Some(summaries@[k]@) by {
        assert(summaries@[k]@ == summaries@[k]@);
    }
    assert(summaries.deep_view() =~= decoded_summaries(json@)->0);
    Some(summaries)
}

/// Decodes an array of strings.
pub fn decode_texts(json: &Json) -> (texts: Option<Vec<String>>)
    ensures
        texts.deep_view() == decoded_texts(json@),
{
    let items = json.as_array()?;
    let ghost trees = items.deep_view();
    let mut texts: Vec<String> = Vec::new();
    let mut i: usize = 0;
    while i < items.len()
        invariant
            i <= items.len(),
            texts.len() == i,
            trees == items.deep_view(),
            json@ == JsonView::Array(trees),
            forall|k: int| 0 <= k < i ==> trees[k] == JsonView::Text((#[trigger] texts@[k])@),
        decreases items.len() - i,
    {
        assert(trees[i as int] == items@[i as int]@);
        match &items[i] {
            Json::Text(s) => texts.push(s.clone()),
            _ => {
                return None;
            },
        }
        i += 1;
    }
    assert forall|k: int| 0 <= k < trees.len() implies (#[trigger] trees[k]) == JsonView::Text(
        texts@[k]@,
    ) by {
        assert(texts@[k]@ == texts@[k]@);
    }
    assert(texts.deep_view() =~= decoded_texts(json@)->0);
    Some(texts)
}

/// Decodes an object of strings as the environment of a command.
pub fn decode_env(json: &Json) -> (env: Option<Vec<(String, String)>>)
    ensures
        env.deep_view() == decoded_env(json@),
{
    match json {
        Json::Object(members) => {
            proof {
                lemma_object_view(*members);
            }
            let ghost trees = members_view(members@);
            let mut env: Vec<(String, String)> = Vec::new();
            let mut i: usize = 0;
            while i < members.len()
                invariant
                    i <= members.len(),
                    env.len() == i,
                    trees == members_view(members@),
                    json@ == JsonView::Object(trees),
                    forall|k: int|
                        0 <= k < i ==> trees[k] == ((#[trigger] env@[k]).0@, JsonView::Text(env@[k].1@)),
                decreases members.len() - i,
            {
                assert(trees[i as int] == (members@[i as int].0@, members@[i as int].1@));
                match &members[i].1 {
                    Json::Text(s) => env.push((members[i].0.clone(), s.clone())),
                    _ => {
                        return None;
                    },
                }
                i += 1;
            }
            assert forall|k: int| 0 <= k < trees.len() implies (#[trigger] trees[k]) == (
                env@[k].0@,
                JsonView::Text(env@[k].1@),
            ) by {
                assert(env@[k].0@ == env@[k].0@);
            }
            assert(env.deep_view() =~= decoded_env(json@)->0);
            Some(env)
        },
        _ => None,
    }
}

fn nullable_env_member(json: &Json, key: &str) -> (env: Option<Option<Vec<(String, String)>>>)
    ensures
        env.deep_view() == nullable_env(json@, key@),
{
    match json.get(key) {
        None | Some(Json::Null) => Some(None),
        Some(value) => match decode_env(value) {
            Some(env) => Some(Some(env)),
            None => None,
        },
    }
}

fn texts_member(json: &Json, key: &str) -> (texts: Option<Vec<String>>)
    ensures
        texts.deep_view() == required_texts(json@, key@),
{
    match json.get(key) {
        Some(value) => decode_texts(value),
        None => None,
    }
}

/// Decodes what a local shell call does.
pub fn decode_action(json: &Json) -> (action: Option<LocalShellAction>)
    ensures
        action.deep_view() == decoded_action(json@),
{
    let tag = text_member(json, "type")?;
    if !str_eq(tag.as_str(), "exec") {
        return None;
    }
    let command = texts_member(json, "command")?;
    let timeout_ms = nullable_number_member(json, "timeout_ms")?;
    let working_directory = nullable_text_member(json, "working_directory")?;
    let env = nullable_env_member(json, "env")?;
    let user = nullable_text_member(json, "user")?;
    Some(
        LocalShellAction::Exec(
            LocalShellExecAction { command, timeout_ms, working_directory, env, user },
        ),
    )
}

/// The status that a name stands for.
pub fn status_from_text(name: &str) -> (status: Option<LocalShellStatus>)
    ensures
        status == status_named(name@),
{
    if str_eq(name, "completed") {
        Some(LocalShellStatus::Completed)
    } else if str_eq(name, "in_progress") {
        Some(LocalShellStatus::InProgress)
    } else if str_eq(name, "incomplete") {
        Some(LocalShellStatus::Incomplete)
    } else {
        None
    }
}

fn decode_message(json: &Json) -> (item: Option<ResponseItem>)
    ensures
        item.deep_view() == decoded_message(json@),
{
    let role = text_member(json, "role")?;
    let content = decode_contents(json.get("content")?)?;
    Some(ResponseItem::Message { role, content })
}

fn decode_reasoning(json: &Json) -> (item: Option<ResponseItem>)
    ensures
        item.deep_view() == decoded_reasoning(json@),
{
    let id = text_member(json, "id")?;
    let summary = decode_summaries(json.get("summary")?)?;
    Some(ResponseItem::Reasoning { id, summary })
}

fn decode_local_shell_call(json: &Json) -> (item: Option<ResponseItem>)
    ensures
        item.deep_view() == decoded_local_shell_call(json@),
{
    let id = nullable_text_member(json, "id")?;
    let call_id = nullable_text_member(json, "call_id")?;
    let status = match json.get("status")? {
        Json::Text(name) => status_from_text(name.as_str())?,
        _ => {
            return None;
        },
    };
    let action = decode_action(json.get("action")?)?;
    Some(ResponseItem::LocalShellCall { id, call_id, status, action })
}

fn decode_function_call(json: &Json) -> (item: Option<ResponseItem>)
    ensures
        item.deep_view() == decoded_function_call(json@),
{
    let name = text_member(json, "name")?;
    let arguments = text_member(json, "arguments")?;
    let call_id = text_member(json, "call_id")?;
    Some(ResponseItem::FunctionCall { name, arguments, call_id })
}

fn decode_function_call_output(json: &Json) -> (item: Option<ResponseItem>)
    ensures
        item.deep_view() == decoded_function_call_output(json@),
{
    let call_id = text_member(json, "call_id")?;
    let output = decode_payload(json.get("output")?)?;
    Some(ResponseItem::FunctionCallOutput { call_id, output })
}

/// Decodes a conversation item. An object whose `type` names no known
/// variant is `Other`; a tree that is no object with a string `type`, or
/// whose members do not fit its variant, gives `None`.
pub fn decode_item(json: &Json) -> (item: Option<ResponseItem>)
    ensures
        item.deep_view() == decoded_item(json@),
{
    let tag = text_member(json, "type")?;
    if str_eq(tag.as_str(), "message") {
        decode_message(json)
    } else if str_eq(tag.as_str(), "reasoning") {
        decode_reasoning(json)
    } else if str_eq(tag.as_str(), "local_shell_call") {
        decode_local_shell_call(json)
    } else if str_eq(tag.as_str(), "function_call") {
        decode_function_call(json)
    } else if str_eq(tag.as_str(), "function_call_output") {
        decode_function_call_output(json)
    } else {
        Some(ResponseItem::Other)
    }
}

/// The arguments of a shell tool call that a tree encodes: `command` must
/// be an array of strings, `workdir` and `timeout` may be missing.
pub open spec fn decoded_shell_params(json: JsonView) -> Option<ShellToolCallParamsView> {
    match (
        required_texts(json, "command"@),
        nullable_text(json, "workdir"@),
        nullable_number(json, "timeout"@),
    ) {
        (Some(command), Some(workdir), Some(timeout_ms)) => Some(
            ShellToolCallParamsView { command, workdir, timeout_ms },
        ),
        _ => None,
    }
}

impl ShellToolCallParams {
    /// Decodes the arguments of a shell tool call.
    pub fn from_json(json: &Json) -> (params: Option<ShellToolCallParams>)
        ensures
            params.deep_view() == decoded_shell_params(json@),
    {
        let command = texts_member(json, "command")?;
        let workdir = nullable_text_member(json, "workdir")?;
        let timeout_ms = nullable_number_member(json, "timeout")?;
        Some(ShellToolCallParams { command, workdir, timeout_ms })
    }

    /// Reads the arguments of a shell tool call from the JSON text that a
    /// function call carries.
    pub fn parse(arguments: &str) -> (params: Option<ShellToolCallParams>)
        ensures
            params.deep_view() == (match crate::json::json_parsed(arguments@) {
                Some(tree) => decoded_shell_params(tree),
                None => None,
            }),
    {
        let json = Json::parse(arguments)?;
        ShellToolCallParams::from_json(&json)
    }
}

/// A tree that is written as it stands: every object has distinct keys,
/// and every number is an integer under the variant that is its own.
pub open spec fn renderable(json: JsonView) -> bool {
    json.wf() && json.exact()
}

/// The encoding of a piece of content can be written.
pub proof fn lemma_content_renderable(content: ContentItemView)
    ensures
        renderable(encoded_content(content)),
{
    lemma_names();
    lemma_object_wf(encoded_content(content)->Object_0);
}

/// The encoding of a summary entry can be written.
pub proof fn lemma_summary_renderable(summary: ReasoningSummaryView)
    ensures
        renderable(encoded_summary(summary)),
{
    lemma_names();
    lemma_object_wf(encoded_summary(summary)->Object_0);
}

/// The encoding of a function call's output can be written.
pub proof fn lemma_payload_renderable(payload: FunctionCallOutputPayloadView)
    ensures
        renderable(encoded_payload(payload)),
{
    lemma_names();
    lemma_object_wf(encoded_payload(payload)->Object_0);
}

/// The encoding of a message's content can be written.
pub proof fn lemma_contents_renderable(contents: Seq<ContentItemView>)
    ensures
        renderable(encoded_contents(contents)),
{
    let items = encoded_contents(contents)->Array_0;
    assert forall|i: int| 0 <= i < items.len() implies renderable(#[trigger] items[i]) by {
        lemma_content_renderable(contents[i]);
    }
    lemma_array_wf(items);
}

/// The encoding of a reasoning summary can be written.
pub proof fn lemma_summaries_renderable(summaries: Seq<ReasoningSummaryView>)
    ensures
        renderable(encoded_summaries(summaries)),
{
    let items = encoded_summaries(summaries)->Array_0;
    assert forall|i: int| 0 <= i < items.len() implies renderable(#[trigger] items[i]) by {
        lemma_summary_renderable(summaries[i]);
    }
    lemma_array_wf(items);
}

/// An array of strings can be written.
pub proof fn lemma_texts_renderable(texts: Seq<Seq<char>>)
    ensures
        renderable(text_array(texts)),
{
    lemma_array_wf(text_array(texts)->Array_0);
}

/// The object of an environment can be written exactly where no variable
/// is named twice.
pub proof fn lemma_env_renderable(env: Seq<(Seq<char>, Seq<char>)>)
    ensures
        renderable(encoded_env(env)) <==> distinct_names(env),
{
    let members = encoded_env(env)->Object_0;
    lemma_object_wf(members);
    if distinct_names(env) {
        assert forall|i: int, j: int| 0 <= i < j < members.len() implies (#[trigger] members[i]).0 != (
        #[trigger] members[j]).0 by {
            assert(env[i].0 != env[j].0);
        }
    }
    if distinct_keys(members) {
        assert forall|i: int, j: int| 0 <= i < j < env.len() implies (#[trigger] env[i]).0 != (
        #[trigger] env[j]).0 by {
            assert(members[i].0 != members[j].0);
        }
    }
}

/// The encoding of what a shell call does can be written exactly where
/// its environment names no variable twice.
pub proof fn lemma_action_renderable(action: LocalShellActionView)
    ensures
        renderable(encoded_action(action)) <==> action->Exec_0.wf(),
{
    lemma_item_names();
    let exec = action->Exec_0;
    let members = encoded_action(action)->Object_0;
    lemma_object_wf(members);
    lemma_texts_renderable(exec.command);
    if exec.env is Some {
        lemma_env_renderable(exec.env->0);
    }
    assert(members[4].1 == optional_env(exec.env));
}

/// The encoding of a conversation item can be written exactly where the
/// item is well formed.
pub proof fn lemma_item_renderable(item: ResponseItemView)
    ensures
        renderable(encoded_item(item)) <==> item.wf(),
{
    lemma_item_names();
    let members = encoded_item(item)->Object_0;
    lemma_object_wf(members);
    match item {
        ResponseItemView::Message { role, content } => {
            lemma_contents_renderable(content);
        },
        ResponseItemView::Reasoning { id, summary } => {
            lemma_summaries_renderable(summary);
        },
        ResponseItemView::LocalShellCall { id, call_id, status, action } => {
            lemma_action_renderable(action);
            assert(members[4].1 == encoded_action(action));
        },
        ResponseItemView::FunctionCall { .. } => {},
        ResponseItemView::FunctionCallOutput { call_id, output } => {
            lemma_payload_renderable(output);
        },
        ResponseItemView::Other => {},
    }
}

/// The conversation item that a line of JSON text encodes: none where
/// the text is no JSON, or its tree encodes no item.
pub open spec fn decoded_line(text: Seq<char>) -> Option<ResponseItemView> {
    match crate::json::json_parsed(text) {
        Some(tree) => decoded_item(tree),
        None => None,
    }
}

/// Reads a conversation item from a line of JSON text.
pub fn decode_line(text: &str) -> (item: Option<ResponseItem>)
    ensures
        item.deep_view() == decoded_line(text@),
{
    let json = Json::parse(text)?;
    decode_item(&json)
}

} // verus!
