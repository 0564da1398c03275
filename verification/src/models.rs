//! The conversation item model: the tagged shapes that requests, streamed
//! responses and the session log share, each with its mathematical view.

use crate::protocol::InputItem;
use crate::protocol::InputItemView;
use crate::text::base64_encode;
use crate::text::base64_text;
use crate::text::debug_quoted;
use crate::text::debug_text;
use crate::text::guess_mime;
use crate::text::guessed_mime;
use crate::text::BASE64_INPUT_LIMIT;
use vstd::prelude::*;
use vstd::string::*;

verus! {

/// View of a [`ContentItem`].
pub enum ContentItemView {
    InputText { text: Seq<char> },
    InputImage { image_url: Seq<char> },
    OutputText { text: Seq<char> },
}

/// One piece of a message's content.
#[derive(Debug, Clone, PartialEq, Eq)]
pub enum ContentItem {
    InputText { text: String },
    InputImage { image_url: String },
    OutputText { text: String },
}

impl View for ContentItem {
    type V = ContentItemView;

    open spec fn view(&self) -> ContentItemView {
        match self {
            ContentItem::InputText { text } => ContentItemView::InputText { text: text@ },
            ContentItem::InputImage { image_url } => ContentItemView::InputImage {
                image_url: image_url@,
            },
            ContentItem::OutputText { text } => ContentItemView::OutputText { text: text@ },
        }
    }
}

impl DeepView for ContentItem {
    type V = ContentItemView;

    open spec fn deep_view(&self) -> ContentItemView {
        self@
    }
}

/// View of a [`ReasoningItemReasoningSummary`].
pub enum ReasoningSummaryView {
    SummaryText { text: Seq<char> },
}

/// One entry of a reasoning item's summary.
#[derive(Debug, Clone, PartialEq, Eq)]
pub enum ReasoningItemReasoningSummary {
    SummaryText { text: String },
}

impl View for ReasoningItemReasoningSummary {
    type V = ReasoningSummaryView;

    open spec fn view(&self) -> ReasoningSummaryView {
        match self {
            ReasoningItemReasoningSummary::SummaryText { text } => ReasoningSummaryView::SummaryText {
                text: text@,
            },
        }
    }
}

impl DeepView for ReasoningItemReasoningSummary {
    type V = ReasoningSummaryView;

    open spec fn deep_view(&self) -> ReasoningSummaryView {
        self@
    }
}

/// How far a local shell call has come.
#[derive(Debug, Clone, Copy, PartialEq, Eq, Structural)]
pub enum LocalShellStatus {
    Completed,
    InProgress,
    Incomplete,
}

/// View of a [`LocalShellExecAction`].
pub struct LocalShellExecActionView {
    pub command: Seq<Seq<char>>,
    pub timeout_ms: Option<u64>,
    pub working_directory: Option<Seq<char>>,
    pub env: Option<Seq<(Seq<char>, Seq<char>)>>,
    pub user: Option<Seq<char>>,
}

impl LocalShellExecActionView {
    /// No variable of the environment is named twice.
    pub open spec fn wf(self) -> bool {
        self.env matches Some(env) ==> distinct_names(env)
    }
}

/// No two entries of `env` share a name.
pub open spec fn distinct_names(env: Seq<(Seq<char>, Seq<char>)>) -> bool {
    forall|i: int, j: int| 0 <= i < j < env.len() ==> (#[trigger] env[i]).0 != (#[trigger] env[j]).0
}

/// A command to run in the local shell. The environment is a list of
/// name and value pairs in which no name occurs twice; the list keeps the
/// order in which the variables were written, so that an item has one
/// encoding.
#[derive(Debug, Clone, PartialEq, Eq)]
pub struct LocalShellExecAction {
    pub command: Vec<String>,
    pub timeout_ms: Option<u64>,
    pub working_directory: Option<String>,
    pub env: Option<Vec<(String, String)>>,
    pub user: Option<String>,
}

impl View for LocalShellExecAction {
    type V = LocalShellExecActionView;

    open spec fn view(&self) -> LocalShellExecActionView {
        LocalShellExecActionView {
            command: self.command.deep_view(),
            timeout_ms: self.timeout_ms,
            working_directory: self.working_directory.deep_view(),
            env: self.env.deep_view(),
            user: self.user.deep_view(),
        }
    }
}

impl DeepView for LocalShellExecAction {
    type V = LocalShellExecActionView;

    open spec fn deep_view(&self) -> LocalShellExecActionView {
        self@
    }
}

/// View of a [`LocalShellAction`].
pub enum LocalShellActionView {
    Exec(LocalShellExecActionView),
}

/// What a local shell call does.
#[derive(Debug, Clone, PartialEq, Eq)]
pub enum LocalShellAction {
    Exec(LocalShellExecAction),
}

impl View for LocalShellAction {
    type V = LocalShellActionView;

    open spec fn view(&self) -> LocalShellActionView {
        match self {
            LocalShellAction::Exec(exec) => LocalShellActionView::Exec(exec@),
        }
    }
}

impl DeepView for LocalShellAction {
    type V = LocalShellActionView;

    open spec fn deep_view(&self) -> LocalShellActionView {
        self@
    }
}

/// View of a [`FunctionCallOutputPayload`].
pub struct FunctionCallOutputPayloadView {
    pub content: Seq<char>,
    pub success: Option<bool>,
    pub is_user_feedback: bool,
}

/// What a function call gave back, as the session tracks it.
#[derive(Debug, Clone, PartialEq, Eq)]
pub struct FunctionCallOutputPayload {
    pub content: String,
    pub success: Option<bool>,
    pub is_user_feedback: bool,
}

impl View for FunctionCallOutputPayload {
    type V = FunctionCallOutputPayloadView;

    open spec fn view(&self) -> FunctionCallOutputPayloadView {
        FunctionCallOutputPayloadView {
            content: self.content@,
            success: self.success,
            is_user_feedback: self.is_user_feedback,
        }
    }
}

impl DeepView for FunctionCallOutputPayload {
    type V = FunctionCallOutputPayloadView;

    open spec fn deep_view(&self) -> FunctionCallOutputPayloadView {
        self@
    }
}

impl FunctionCallOutputPayload {
    /// The payload as plain text: its content.
    pub fn to_text(&self) -> (text: String)
        ensures
            text@ == self@.content,
    {
        self.content.clone()
    }

    /// The content, borrowed.
    pub fn as_str(&self) -> (text: &str)
        ensures
            text@ == self@.content,
    {
        self.content.as_str()
    }
}

/// View of a [`ResponseItem`].
pub enum ResponseItemView {
    Message { role: Seq<char>, content: Seq<ContentItemView> },
    Reasoning { id: Seq<char>, summary: Seq<ReasoningSummaryView> },
    LocalShellCall {
        id: Option<Seq<char>>,
        call_id: Option<Seq<char>>,
        status: LocalShellStatus,
        action: LocalShellActionView,
    },
    FunctionCall { name: Seq<char>, arguments: Seq<char>, call_id: Seq<char> },
    FunctionCallOutput { call_id: Seq<char>, output: FunctionCallOutputPayloadView },
    Other,
}

impl ResponseItemView {
    /// The item marks feedback that the user gave.
    pub open spec fn is_user_feedback(self) -> bool {
        self matches ResponseItemView::FunctionCallOutput { output, .. } && output.is_user_feedback
    }

    /// The environment of a shell call names no variable twice.
    pub open spec fn wf(self) -> bool {
        self matches ResponseItemView::LocalShellCall { action: LocalShellActionView::Exec(exec), .. }
            ==> exec.wf()
    }
}

/// One item of a conversation.
#[derive(Debug, Clone, PartialEq, Eq)]
pub enum ResponseItem {
    Message { role: String, content: Vec<ContentItem> },
    Reasoning { id: String, summary: Vec<ReasoningItemReasoningSummary> },
    LocalShellCall {
        /// Set by the chat completions protocol.
        id: Option<String>,
        /// Set by the responses protocol.
        call_id: Option<String>,
        status: LocalShellStatus,
        action: LocalShellAction,
    },
    FunctionCall {
        name: String,
        /// JSON text, kept as it came and parsed by whoever handles the call.
        arguments: String,
        call_id: String,
    },
    FunctionCallOutput { call_id: String, output: FunctionCallOutputPayload },
    /// An item of a kind that this library does not know.
    Other,
}

impl View for ResponseItem {
    type V = ResponseItemView;

    open spec fn view(&self) -> ResponseItemView {
        match self {
            ResponseItem::Message { role, content } => ResponseItemView::Message {
                role: role@,
                content: content.deep_view(),
            },
            ResponseItem::Reasoning { id, summary } => ResponseItemView::Reasoning {
                id: id@,
                summary: summary.deep_view(),
            },
            ResponseItem::LocalShellCall { id, call_id, status, action } => {
                ResponseItemView::LocalShellCall {
                    id: id.deep_view(),
                    call_id: call_id.deep_view(),
                    status: *status,
                    action: action@,
                }
            },
            ResponseItem::FunctionCall { name, arguments, call_id } => ResponseItemView::FunctionCall {
                name: name@,
                arguments: arguments@,
                call_id: call_id@,
            },
            ResponseItem::FunctionCallOutput { call_id, output } => {
                ResponseItemView::FunctionCallOutput { call_id: call_id@, output: output@ }
            },
            ResponseItem::Other => ResponseItemView::Other,
        }
    }
}

impl DeepView for ResponseItem {
    type V = ResponseItemView;

    open spec fn deep_view(&self) -> ResponseItemView {
        self@
    }
}

impl ResponseItem {
    /// Whether the item is well formed: the environment of a shell call
    /// names no variable twice.
    pub fn is_wf(&self) -> (yes: bool)
        ensures
            yes == self@.wf(),
    {
        match self {
            ResponseItem::LocalShellCall { action: LocalShellAction::Exec(exec), .. } => {
                match &exec.env {
                    Some(env) => {
                        let distinct = crate::text::has_distinct_firsts(env);
                        proof {
                            let views = env.deep_view();
                            if distinct {
                                assert forall|i: int, j: int| 0 <= i < j < views.len() implies (
                                #[trigger] views[i]).0 != (#[trigger] views[j]).0 by {
                                    assert(env@[i].0@ != env@[j].0@);
                                }
                            } else {
                                let (i, j) = choose|i: int, j: int|
                                    0 <= i < j < env@.len() && (#[trigger] env@[i]).0@ == (
                                    #[trigger] env@[j]).0@;
                                assert(views[i].0 == views[j].0);
                            }
                        }
                        distinct
                    },
                    None => true,
                }
            },
            _ => true,
        }
    }

    /// Whether this item is feedback that the user gave.
    pub fn is_user_feedback(&self) -> (yes: bool)
        ensures
            yes == self@.is_user_feedback(),
    {
        match self {
            ResponseItem::FunctionCallOutput { output, .. } => output.is_user_feedback,
            _ => false,
        }
    }
}

/// Arguments of a function call named `container.exec` or `shell`.
#[derive(Debug, Clone, PartialEq, Eq)]
pub struct ShellToolCallParams {
    pub command: Vec<String>,
    pub workdir: Option<String>,
    /// The longest the command may run; `timeout` on the wire.
    pub timeout_ms: Option<u64>,
}

/// View of a [`ShellToolCallParams`].
pub struct ShellToolCallParamsView {
    pub command: Seq<Seq<char>>,
    pub workdir: Option<Seq<char>>,
    pub timeout_ms: Option<u64>,
}

impl View for ShellToolCallParams {
    type V = ShellToolCallParamsView;

    open spec fn view(&self) -> ShellToolCallParamsView {
        ShellToolCallParamsView {
            command: self.command.deep_view(),
            workdir: self.workdir.deep_view(),
            timeout_ms: self.timeout_ms,
        }
    }
}

impl DeepView for ShellToolCallParams {
    type V = ShellToolCallParamsView;

    open spec fn deep_view(&self) -> ShellToolCallParamsView {
        self@
    }
}

/// View of a [`CallToolResult`].
pub enum CallToolResultView {
    Serialized { json: Seq<char> },
    NotSerialized { error: Seq<char> },
}

/// What a tool of an outside server gave back, as it is handed on.
#[derive(Debug, Clone, PartialEq, Eq)]
pub enum CallToolResult {
    /// The result as JSON text.
    Serialized { json: String },
    /// The result has no JSON text; `error` says why.
    NotSerialized { error: String },
}

impl View for CallToolResult {
    type V = CallToolResultView;

    open spec fn view(&self) -> CallToolResultView {
        match self {
            CallToolResult::Serialized { json } => CallToolResultView::Serialized { json: json@ },
            CallToolResult::NotSerialized { error } => CallToolResultView::NotSerialized {
                error: error@,
            },
        }
    }
}

/// View of a [`ResponseInputItem`].
pub enum ResponseInputItemView {
    Message { role: Seq<char>, content: Seq<ContentItemView> },
    FunctionCallOutput { call_id: Seq<char>, output: FunctionCallOutputPayloadView },
    McpToolCallOutput { call_id: Seq<char>, result: Result<CallToolResultView, Seq<char>> },
}

/// What the session puts into a conversation.
#[derive(Debug, PartialEq, Eq)]
pub enum ResponseInputItem {
    Message { role: String, content: Vec<ContentItem> },
    FunctionCallOutput { call_id: String, output: FunctionCallOutputPayload },
    /// What a tool of an outside server gave: its result, or the reason
    /// for which the call failed.
    McpToolCallOutput { call_id: String, result: Result<CallToolResult, String> },
}

impl View for ResponseInputItem {
    type V = ResponseInputItemView;

    open spec fn view(&self) -> ResponseInputItemView {
        match self {
            ResponseInputItem::Message { role, content } => ResponseInputItemView::Message {
                role: role@,
                content: content.deep_view(),
            },
            ResponseInputItem::FunctionCallOutput { call_id, output } => {
                ResponseInputItemView::FunctionCallOutput { call_id: call_id@, output: output@ }
            },
            ResponseInputItem::McpToolCallOutput { call_id, result } => {
                ResponseInputItemView::McpToolCallOutput {
                    call_id: call_id@,
                    result: match result {
                        Ok(given) => Ok(given@),
                        Err(reason) => Err(reason@),
                    },
                }
            },
        }
    }
}

/// What a tool's outcome reads as: the result's JSON text; for a result
/// without one, `JSON serialization error: ` and why; for a call that
/// failed, `err: ` and the reason in quotes.
pub open spec fn tool_output_content(result: Result<CallToolResultView, Seq<char>>) -> Seq<char> {
    match result {
        Ok(CallToolResultView::Serialized { json }) => json,
        Ok(CallToolResultView::NotSerialized { error }) => "JSON serialization error: "@ + error,
        Err(reason) => "err: "@ + debug_quoted(reason),
    }
}

/// The conversation item for what the session puts in. The outcome of a
/// tool becomes the output of a function call, which succeeded exactly
/// where the tool did and is no feedback of the user.
pub open spec fn item_of_input(item: ResponseInputItemView) -> ResponseItemView {
    match item {
        ResponseInputItemView::Message { role, content } => ResponseItemView::Message { role, content },
        ResponseInputItemView::FunctionCallOutput { call_id, output } => {
            ResponseItemView::FunctionCallOutput { call_id, output }
        },
        ResponseInputItemView::McpToolCallOutput { call_id, result } => {
            ResponseItemView::FunctionCallOutput {
                call_id,
                output: FunctionCallOutputPayloadView {
                    content: tool_output_content(result),
                    success: Some(result is Ok),
                    is_user_feedback: false,
                },
            }
        },
    }
}

impl Clone for ResponseInputItem {
    fn clone(&self) -> (copy: Self) {
        match self {
            ResponseInputItem::Message { role, content } => ResponseInputItem::Message {
                role: role.clone(),
                content: content.clone(),
            },
            ResponseInputItem::FunctionCallOutput { call_id, output } => {
                ResponseInputItem::FunctionCallOutput { call_id: call_id.clone(), output: output.clone() }
            },
            ResponseInputItem::McpToolCallOutput { call_id, result } => {
                ResponseInputItem::McpToolCallOutput {
                    call_id: call_id.clone(),
                    result: match result {
                        Ok(given) => Ok(given.clone()),
                        Err(reason) => Err(reason.clone()),
                    },
                }
            },
        }
    }
}

impl ResponseItem {
    /// The conversation item for what the session puts in.
    pub fn from_input_item(item: ResponseInputItem) -> (converted: ResponseItem)
        ensures
            converted@ == item_of_input(item@),
    {
        match item {
            ResponseInputItem::Message { role, content } => ResponseItem::Message { role, content },
            ResponseInputItem::FunctionCallOutput { call_id, output } => {
                ResponseItem::FunctionCallOutput { call_id, output }
            },
            ResponseInputItem::McpToolCallOutput { call_id, result } => {
                let success = result.is_ok();
                let content = match result {
                    Ok(CallToolResult::Serialized { json }) => json,
                    Ok(CallToolResult::NotSerialized { error }) => {
                        let mut content = "JSON serialization error: ".to_string();
                        content.append(error.as_str());
                        content
                    },
                    Err(reason) => {
                        let mut content = "err: ".to_string();
                        content.append(debug_text(reason.as_str()).as_str());
                        content
                    },
                };
                ResponseItem::FunctionCallOutput {
                    call_id,
                    output: FunctionCallOutputPayload {
                        content,
                        success: Some(success),
                        is_user_feedback: false,
                    },
                }
            },
        }
    }
}

impl From<ResponseInputItem> for ResponseItem {
    fn from(item: ResponseInputItem) -> (converted: Self)
        ensures
            converted@ == item_of_input(item@),
    {
        ResponseItem::from_input_item(item)
    }
}

impl vstd::std_specs::convert::FromSpecImpl<ResponseInputItem> for ResponseItem {
    /// `from` is stated over views: its own contract says what it gives.
    open spec fn obeys_from_spec() -> bool {
        false
    }

    /// An item whose view is the conversation item for `item`.
    open spec fn from_spec(item: ResponseInputItem) -> Self {
        choose|converted: ResponseItem| converted@ == item_of_input(item@)
    }
}

/// The media type under which an image without a known one is embedded.
pub const DEFAULT_IMAGE_MIME: &'static str = "application/octet-stream";

/// The media type of an image by the extension of its file's name.
pub open spec fn image_mime(extension: Option<Seq<char>>) -> Seq<char> {
    match extension {
        Some(ext) => match guessed_mime(ext) {
            Some(mime) => mime,
            None => DEFAULT_IMAGE_MIME@,
        },
        None => DEFAULT_IMAGE_MIME@,
    }
}

/// The address that embeds an image: a `data:` URL with the media type and
/// the bytes in base64.
pub open spec fn data_url(extension: Option<Seq<char>>, bytes: Seq<u8>) -> Seq<char> {
    "data:"@ + image_mime(extension) + ";base64,"@ + base64_text(bytes)
}

/// The piece of content for one fragment of input; none for an image that
/// could not be read or is too large to embed.
pub open spec fn content_of_input(item: InputItemView) -> Option<ContentItemView> {
    match item {
        InputItemView::Text { text } => Some(ContentItemView::InputText { text }),
        InputItemView::Image { image_url } => Some(ContentItemView::InputImage { image_url }),
        InputItemView::LocalImage { path, extension, bytes } => match bytes {
            Some(b) => if b.len() <= BASE64_INPUT_LIMIT {
                Some(ContentItemView::InputImage { image_url: data_url(extension, b) })
            } else {
                None
            },
            None => None,
        },
    }
}

/// The content of the message for the fragments of `items`: a piece for
/// each fragment that has one, in the order of the fragments.
pub open spec fn content_of_inputs(items: Seq<InputItemView>) -> Seq<ContentItemView>
    decreases items.len(),
{
    if items.len() == 0 {
        Seq::empty()
    } else {
        match content_of_input(items.last()) {
            Some(content) => content_of_inputs(items.drop_last()).push(content),
            None => content_of_inputs(items.drop_last()),
        }
    }
}

/// The media type of an image by the extension of its file's name.
pub fn mime_for(extension: &Option<String>) -> (mime: String)
    ensures
        mime@ == image_mime(extension.deep_view()),
{
    match extension {
        Some(ext) => match guess_mime(ext.as_str()) {
            Some(mime) => mime,
            None => DEFAULT_IMAGE_MIME.to_string(),
        },
        None => DEFAULT_IMAGE_MIME.to_string(),
    }
}

/// The piece of content for one fragment of input.
pub fn content_for_input(item: &InputItem) -> (content: Option<ContentItem>)
    ensures
        content.deep_view() == content_of_input(item@),
{
    match item {
        InputItem::Text { text } => Some(ContentItem::InputText { text: text.clone() }),
        InputItem::Image { image_url } => Some(ContentItem::InputImage { image_url: image_url.clone() }),
        InputItem::LocalImage { path, extension, bytes } => match bytes {
            Some(b) => {
                if b.len() > BASE64_INPUT_LIMIT {
                    return None;
                }
                let mut image_url = "data:".to_string();
                image_url.append(mime_for(extension).as_str());
                image_url.append(";base64,");
                image_url.append(base64_encode(b).as_str());
                Some(ContentItem::InputImage { image_url })
            },
            None => None,
        },
    }
}

/// The user's message for the fragments of `items`.
pub open spec fn message_of_inputs(items: Seq<InputItemView>) -> ResponseInputItemView {
    ResponseInputItemView::Message { role: "user"@, content: content_of_inputs(items) }
}

impl ResponseInputItem {
    /// The user's message for the fragments of `items`. A fragment
    /// without a piece of content is left out; the others stay.
    pub fn from_input(items: &Vec<InputItem>) -> (message: ResponseInputItem)
        ensures
            message@ == message_of_inputs(items.deep_view()),
    {
        let ghost views = items.deep_view();
        let mut content: Vec<ContentItem> = Vec::new();
        let mut i: usize = 0;
        assert(views.take(0) =~= Seq::empty());
        assert(content.deep_view() =~= Seq::empty());
        while i < items.len()
            invariant
                i <= items.len(),
                views == items.deep_view(),
                content.deep_view() == content_of_inputs(views.take(i as int)),
            decreases items.len() - i,
        {
            proof {
                assert(views.take(i + 1).drop_last() =~= views.take(i as int));
                assert(views.take(i + 1).last() == items@[i as int]@);
            }
            match content_for_input(&items[i]) {
                Some(piece) => {
                    let ghost before = content.deep_view();
                    content.push(piece);
                    assert(content.deep_view() =~= before.push(piece@));
                },
                None => {},
            }
            i += 1;
        }
        assert(views.take(items.len() as int) =~= views);
        ResponseInputItem::Message { role: "user".to_string(), content }
    }
}

impl From<Vec<InputItem>> for ResponseInputItem {
    fn from(items: Vec<InputItem>) -> (message: Self)
        ensures
            message@ == message_of_inputs(items.deep_view()),
    {
        ResponseInputItem::from_input(&items)
    }
}

impl vstd::std_specs::convert::FromSpecImpl<Vec<InputItem>> for ResponseInputItem {
    /// `from` is stated over views: its own contract says what it gives.
    open spec fn obeys_from_spec() -> bool {
        false
    }

    /// A message whose view is the user's message for `items`.
    open spec fn from_spec(items: Vec<InputItem>) -> Self {
        choose|message: ResponseInputItem| message@ == message_of_inputs(items.deep_view())
    }
}

} // verus!
