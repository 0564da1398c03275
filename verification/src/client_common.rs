//! What a turn sends to the model and what the model's stream gives back.

use crate::config::Config;
use crate::config::ReasoningEffort as ReasoningEffortConfig;
use crate::config::ReasoningSummary as ReasoningSummaryConfig;
use crate::json::lemma_array_view;
use crate::json::lemma_object_view;
use crate::json::member_index;
use crate::json::members_view;
use crate::json::Json;
use crate::json::JsonView;
use crate::wire::encode_item;
use crate::wire::encode_texts;
use crate::wire::encoded_item;
use crate::wire::text_array;
use crate::models::ResponseItem;
use crate::models::ResponseItemView;
use crate::protocol::TokenUsage;
use crate::text::str_starts_with;
use vstd::prelude::*;
use vstd::string::*;

verus! {

/// The instructions that every request starts with unless a prompt
/// overrides them.
pub const BASE_INSTRUCTIONS: &'static str =
    "You are a coding agent that works in the user's terminal. Read the code before you change it, keep each change small, and say plainly what you did. Run commands through the shell tool, and ask before you touch anything outside the working directory.";

/// How to write a patch, for the models that are not trained on the patch
/// tool.
pub const APPLY_PATCH_TOOL_INSTRUCTIONS: &'static str =
    "To edit files, call the shell tool with the command apply_patch and one patch as its argument. A patch starts with the line *** Begin Patch and ends with the line *** End Patch. Between them, each file has a header line: *** Add File: <path>, *** Delete File: <path> or *** Update File: <path>. Lines of an added file start with +. In an updated file, a hunk starts with @@, kept lines start with a space, removed lines with - and new lines with +.";

/// The first characters of the identifiers of the models that get the patch
/// instructions.
pub const PATCH_INSTRUCTIONS_MODEL_PREFIX: &'static str = "gpt-4.1";

/// The materials of one turn.
#[derive(Default, Debug, Clone)]
pub struct Prompt {
    /// The conversation so far.
    pub input: Vec<ResponseItem>,
    /// Instructions of the user, which follow the base instructions.
    pub user_instructions: Option<String>,
    /// Whether the provider may store the response.
    pub store: bool,
    /// Tools of outside servers, each under its fully qualified name. In a
    /// well-formed prompt no name occurs twice; the list keeps the order in
    /// which the tools were added.
    pub extra_tools: Vec<(String, Json)>,
    /// Instructions that take the place of the base instructions.
    pub base_instructions_override: Option<String>,
}

/// The instructions of a request: the base instructions or what overrides
/// them, then the user's instructions if there are any, then the patch
/// instructions for the models that need them, each on a line of its own.
pub open spec fn full_instructions(
    base_override: Option<Seq<char>>,
    user: Option<Seq<char>>,
    model: Seq<char>,
) -> Seq<char> {
    let base = match base_override {
        Some(text) => text,
        None => BASE_INSTRUCTIONS@,
    };
    let with_user = match user {
        Some(text) => base + "\n"@ + text,
        None => base,
    };
    if PATCH_INSTRUCTIONS_MODEL_PREFIX@.is_prefix_of(model) {
        with_user + "\n"@ + APPLY_PATCH_TOOL_INSTRUCTIONS@
    } else {
        with_user
    }
}

impl Prompt {
    /// No tool name occurs twice.
    pub open spec fn wf(&self) -> bool {
        crate::text::distinct_firsts(self.extra_tools@)
    }

    /// Whether no tool name occurs twice.
    pub fn is_wf(&self) -> (yes: bool)
        ensures
            yes == self.wf(),
    {
        crate::text::has_distinct_firsts(&self.extra_tools)
    }

    /// The instructions of a request to `model`.
    pub fn get_full_instructions(&self, model: &str) -> (instructions: String)
        ensures
            instructions@ == full_instructions(
                self.base_instructions_override.deep_view(),
                self.user_instructions.deep_view(),
                model@,
            ),
    {
        let mut instructions = match &self.base_instructions_override {
            Some(text) => text.clone(),
            None => BASE_INSTRUCTIONS.to_string(),
        };
        if let Some(user) = &self.user_instructions {
            instructions.append("\n");
            instructions.append(user.as_str());
        }
        if str_starts_with(model, PATCH_INSTRUCTIONS_MODEL_PREFIX) {
            instructions.append("\n");
            instructions.append(APPLY_PATCH_TOOL_INSTRUCTIONS);
        }
        instructions
    }
}

/// View of a [`ResponseEvent`].
pub enum ResponseEventView {
    Created,
    OutputItemDone(ResponseItemView),
    Completed { response_id: Seq<char>, token_usage: Option<TokenUsage> },
    OutputTextDelta(Seq<char>),
    ReasoningSummaryDelta(Seq<char>),
}

/// One element of the stream that answers a request.
#[derive(Debug, Clone, PartialEq, Eq)]
pub enum ResponseEvent {
    Created,
    OutputItemDone(ResponseItem),
    Completed { response_id: String, token_usage: Option<TokenUsage> },
    OutputTextDelta(String),
    ReasoningSummaryDelta(String),
}

impl View for ResponseEvent {
    type V = ResponseEventView;

    open spec fn view(&self) -> ResponseEventView {
        match self {
            ResponseEvent::Created => ResponseEventView::Created,
            ResponseEvent::OutputItemDone(item) => ResponseEventView::OutputItemDone(item@),
            ResponseEvent::Completed { response_id, token_usage } => ResponseEventView::Completed {
                response_id: response_id@,
                token_usage: *token_usage,
            },
            ResponseEvent::OutputTextDelta(delta) => ResponseEventView::OutputTextDelta(delta@),
            ResponseEvent::ReasoningSummaryDelta(delta) => ResponseEventView::ReasoningSummaryDelta(
                delta@,
            ),
        }
    }
}

impl ResponseEventView {
    /// The event ends its stream.
    pub open spec fn is_terminal(self) -> bool {
        self is Completed
    }
}

/// How much reasoning a request asks for, as the provider names it.
#[derive(Debug, Default, Clone, Copy, PartialEq, Eq, Structural)]
pub enum OpenAiReasoningEffort {
    Low,
    #[default]
    Medium,
    High,
}

/// How a request asks the model to sum up its reasoning, as the provider
/// names it.
#[derive(Debug, Default, Clone, Copy, PartialEq, Eq, Structural)]
pub enum OpenAiReasoningSummary {
    #[default]
    Auto,
    Concise,
    Detailed,
}

/// The reasoning block of a request.
#[derive(Debug, Clone, Copy, PartialEq, Eq, Structural)]
pub struct Reasoning {
    pub effort: OpenAiReasoningEffort,
    pub summary: Option<OpenAiReasoningSummary>,
}

/// The provider's name for a configured effort; none for `Off`.
pub open spec fn wire_effort(effort: ReasoningEffortConfig) -> Option<OpenAiReasoningEffort> {
    match effort {
        ReasoningEffortConfig::Low => Some(OpenAiReasoningEffort::Low),
        ReasoningEffortConfig::Medium => Some(OpenAiReasoningEffort::Medium),
        ReasoningEffortConfig::High => Some(OpenAiReasoningEffort::High),
        ReasoningEffortConfig::Off => None,
    }
}

/// The provider's name for a configured summary; none for `Off`.
pub open spec fn wire_summary(summary: ReasoningSummaryConfig) -> Option<OpenAiReasoningSummary> {
    match summary {
        ReasoningSummaryConfig::Auto => Some(OpenAiReasoningSummary::Auto),
        ReasoningSummaryConfig::Concise => Some(OpenAiReasoningSummary::Concise),
        ReasoningSummaryConfig::Detailed => Some(OpenAiReasoningSummary::Detailed),
        ReasoningSummaryConfig::Off => None,
    }
}

impl From<ReasoningEffortConfig> for Option<OpenAiReasoningEffort> {
    fn from(effort: ReasoningEffortConfig) -> (wire: Self) {
        match effort {
            ReasoningEffortConfig::Low => Some(OpenAiReasoningEffort::Low),
            ReasoningEffortConfig::Medium => Some(OpenAiReasoningEffort::Medium),
            ReasoningEffortConfig::High => Some(OpenAiReasoningEffort::High),
            ReasoningEffortConfig::Off => None,
        }
    }
}

impl vstd::std_specs::convert::FromSpecImpl<ReasoningEffortConfig> for Option<OpenAiReasoningEffort> {
    open spec fn obeys_from_spec() -> bool {
        true
    }

    open spec fn from_spec(effort: ReasoningEffortConfig) -> Self {
        wire_effort(effort)
    }
}

impl From<ReasoningSummaryConfig> for Option<OpenAiReasoningSummary> {
    fn from(summary: ReasoningSummaryConfig) -> (wire: Self) {
        match summary {
            ReasoningSummaryConfig::Auto => Some(OpenAiReasoningSummary::Auto),
            ReasoningSummaryConfig::Concise => Some(OpenAiReasoningSummary::Concise),
            ReasoningSummaryConfig::Detailed => Some(OpenAiReasoningSummary::Detailed),
            ReasoningSummaryConfig::Off => None,
        }
    }
}

impl vstd::std_specs::convert::FromSpecImpl<ReasoningSummaryConfig> for Option<OpenAiReasoningSummary> {
    open spec fn obeys_from_spec() -> bool {
        true
    }

    open spec fn from_spec(summary: ReasoningSummaryConfig) -> Self {
        wire_summary(summary)
    }
}

/// Whether requests to `model` carry a reasoning block: always where the
/// configuration says that the model supports reasoning summaries, and
/// otherwise for the models whose identifier starts with `o` or `codex`.
pub open spec fn supports_reasoning_summaries(flag: bool, model: Seq<char>) -> bool {
    flag || "o"@.is_prefix_of(model) || "codex"@.is_prefix_of(model)
}

/// Whether requests under `config` carry a reasoning block.
pub fn model_supports_reasoning_summaries(config: &Config) -> (supported: bool)
    ensures
        supported == supports_reasoning_summaries(
            config.model_supports_reasoning_summaries,
            config.model@,
        ),
{
    if config.model_supports_reasoning_summaries {
        return true;
    }
    let model = config.model.as_str();
    str_starts_with(model, "o") || str_starts_with(model, "codex")
}

/// The reasoning block of a request: none for a model without reasoning
/// summaries and none for the effort `Off`; otherwise the effort and the
/// summary under their provider names.
pub open spec fn reasoning_param(
    supported: bool,
    effort: ReasoningEffortConfig,
    summary: ReasoningSummaryConfig,
) -> Option<Reasoning> {
    if supported {
        match wire_effort(effort) {
            Some(effort) => Some(Reasoning { effort, summary: wire_summary(summary) }),
            None => None,
        }
    } else {
        None
    }
}

/// The reasoning block for a request under `config`.
pub fn create_reasoning_param_for_request(
    config: &Config,
    effort: ReasoningEffortConfig,
    summary: ReasoningSummaryConfig,
) -> (reasoning: Option<Reasoning>)
    ensures
        reasoning == reasoning_param(
            supports_reasoning_summaries(config.model_supports_reasoning_summaries, config.model@),
            effort,
            summary,
        ),
{
    if model_supports_reasoning_summaries(config) {
        let effort: Option<OpenAiReasoningEffort> = Option::<OpenAiReasoningEffort>::from(effort);
        match effort {
            Some(effort) => Some(
                Reasoning { effort, summary: Option::<OpenAiReasoningSummary>::from(summary) },
            ),
            None => None,
        }
    } else {
        None
    }
}

/// A model named `gpt-4.1` gets no reasoning block unless the configuration
/// sets the flag, whatever effort and summary are configured.
pub proof fn lemma_gpt_4_1_has_no_reasoning(effort: ReasoningEffortConfig, summary: ReasoningSummaryConfig)
    ensures
        !supports_reasoning_summaries(false, "gpt-4.1"@),
        reasoning_param(supports_reasoning_summaries(false, "gpt-4.1"@), effort, summary) is None,
{
    reveal_strlit("gpt-4.1");
    reveal_strlit("o");
    reveal_strlit("codex");
    assert("o"@[0] != "gpt-4.1"@[0]);
    assert("codex"@[0] != "gpt-4.1"@[0]);
    assert("gpt-4.1"@.subrange(0, 1)[0] == "gpt-4.1"@[0]);
    assert("gpt-4.1"@.subrange(0, 5)[0] == "gpt-4.1"@[0]);
}

/// A tree in which the member `output` of an object has given way to its
/// own member `content`. Any other tree is as it was.
pub open spec fn output_replaced_by_content(json: JsonView) -> JsonView {
    match json {
        JsonView::Object(members) => match json.position("output"@) {
            Some(i) => match members[i].1.member("content"@) {
                Some(content) => JsonView::Object(members.update(i, ("output"@, content))),
                None => json,
            },
            None => json,
        },
        _ => json,
    }
}

/// The name of an item's kind, as the member `type` carries it.
pub open spec fn kind_name(item: ResponseItemView) -> Seq<char> {
    match item {
        ResponseItemView::Message { .. } => "message"@,
        ResponseItemView::Reasoning { .. } => "reasoning"@,
        ResponseItemView::LocalShellCall { .. } => "local_shell_call"@,
        ResponseItemView::FunctionCall { .. } => "function_call"@,
        ResponseItemView::FunctionCallOutput { .. } => "function_call_output"@,
        ResponseItemView::Other => "other"@,
    }
}

/// The name of an item's kind.
pub fn kind_text(item: &ResponseItem) -> (name: &'static str)
    ensures
        name@ == kind_name(item@),
{
    match item {
        ResponseItem::Message { .. } => "message",
        ResponseItem::Reasoning { .. } => "reasoning",
        ResponseItem::LocalShellCall { .. } => "local_shell_call",
        ResponseItem::FunctionCall { .. } => "function_call",
        ResponseItem::FunctionCallOutput { .. } => "function_call_output",
        ResponseItem::Other => "other",
    }
}

/// What a request carries for an item. The output of a function call goes
/// out as its bare content; every other item goes out as it is kept. An
/// item that has no encoding goes out as a string, the name of its kind,
/// and the rest of the request stands.
pub open spec fn sanitized_item(item: ResponseItemView) -> JsonView {
    if !item.wf() {
        JsonView::Text(kind_name(item))
    } else if item is FunctionCallOutput {
        output_replaced_by_content(encoded_item(item))
    } else {
        encoded_item(item)
    }
}

/// The items that a request carries: all but the items of unknown kind,
/// which are never sent.
pub open spec fn sent(item: ResponseItemView) -> bool {
    !(item is Other)
}

/// What a request carries for the items of a conversation, one element
/// for each item that is sent, in the order of the items.
pub open spec fn sanitized_items(items: Seq<ResponseItemView>) -> Seq<JsonView>
    decreases items.len(),
{
    if items.len() == 0 {
        Seq::empty()
    } else if sent(items.last()) {
        sanitized_items(items.drop_last()).push(sanitized_item(items.last()))
    } else {
        sanitized_items(items.drop_last())
    }
}

/// What a request carries for the items of a conversation: the array of
/// what it carries for each item that is sent.
pub open spec fn sanitized_input(items: Seq<ResponseItemView>) -> JsonView {
    JsonView::Array(sanitized_items(items))
}

/// Every element that a request carries is what it carries for one of the
/// items that are sent: an item of unknown kind has no element.
pub proof fn lemma_sanitized_items_are_of_sent_items(items: Seq<ResponseItemView>, k: int)
    requires
        0 <= k < sanitized_items(items).len(),
    ensures
        exists|j: int|
            0 <= j < items.len() && sent(#[trigger] items[j]) && sanitized_items(items)[k]
                == sanitized_item(items[j]),
    decreases items.len(),
{
    if sent(items.last()) && k == sanitized_items(items).len() - 1 {
        assert(sent(items[items.len() - 1]));
    } else {
        lemma_sanitized_items_are_of_sent_items(items.drop_last(), k);
        let j = choose|j: int|
            0 <= j < items.drop_last().len() && sent(#[trigger] items.drop_last()[j])
                && sanitized_items(items.drop_last())[k] == sanitized_item(items.drop_last()[j]);
        assert(items[j] == items.drop_last()[j]);
    }
}

/// What a request carries for one conversation after another is what it
/// carries for the first and then what it carries for the second.
pub proof fn lemma_sanitized_items_concat(first: Seq<ResponseItemView>, second: Seq<ResponseItemView>)
    ensures
        sanitized_items(first + second) == sanitized_items(first) + sanitized_items(second),
    decreases second.len(),
{
    if second.len() == 0 {
        assert(first + second =~= first);
        assert(sanitized_items(first) + sanitized_items(second) =~= sanitized_items(first));
    } else {
        assert((first + second).drop_last() =~= first + second.drop_last());
        assert((first + second).last() == second.last());
        lemma_sanitized_items_concat(first, second.drop_last());
        assert(sanitized_items(first + second) =~= sanitized_items(first) + sanitized_items(second));
    }
}

/// A conversation without items of unknown kind is carried item for item.
pub proof fn lemma_sanitized_items_of_sent(items: Seq<ResponseItemView>)
    requires
        forall|i: int| 0 <= i < items.len() ==> sent(#[trigger] items[i]),
    ensures
        sanitized_items(items) == Seq::new(items.len(), |i: int| sanitized_item(items[i])),
    decreases items.len(),
{
    if items.len() > 0 {
        assert(sent(items[items.len() - 1]));
        assert forall|i: int| 0 <= i < items.drop_last().len() implies sent(
            #[trigger] items.drop_last()[i],
        ) by {
            assert(items.drop_last()[i] == items[i]);
        }
        lemma_sanitized_items_of_sent(items.drop_last());
    }
    assert(sanitized_items(items) =~= Seq::new(items.len(), |i: int| sanitized_item(items[i])));
}

/// A request carries the output of a function call as a bare string, its
/// content, and says nothing of success or of feedback; the session keeps
/// the same item with an object of all three.
pub proof fn lemma_sanitized_function_call_output(item: ResponseItemView)
    requires
        item is FunctionCallOutput,
    ensures
        sanitized_item(item) == JsonView::Object(
            seq![
                ("type"@, JsonView::Text("function_call_output"@)),
                ("call_id"@, JsonView::Text(item->FunctionCallOutput_call_id)),
                ("output"@, JsonView::Text(item->output.content)),
            ],
        ),
        sanitized_item(item).member("output"@) == Some(JsonView::Text(item->output.content)),
        encoded_item(item).member("output"@) == Some(crate::wire::encoded_payload(item->output)),
{
    crate::wire::lemma_item_names();
    crate::wire::lemma_names();
    reveal_with_fuel(member_index, 4);
    reveal_with_fuel(crate::json::member_from, 4);
    let members = encoded_item(item)->Object_0;
    assert(member_index(members, "output"@, 0) == Some(2int));
    assert(members[2].1.member("content"@) == Some(JsonView::Text(item->output.content)));
    assert(members.update(2, ("output"@, JsonView::Text(item->output.content))) =~= seq![
        ("type"@, JsonView::Text("function_call_output"@)),
        ("call_id"@, JsonView::Text(item->FunctionCallOutput_call_id)),
        ("output"@, JsonView::Text(item->output.content)),
    ]);
}

/// Whatever is not the output of a function call goes out as it is kept.
pub proof fn lemma_other_items_unchanged(item: ResponseItemView)
    requires
        !(item is FunctionCallOutput),
        item.wf(),
    ensures
        sanitized_item(item) == encoded_item(item),
{
}

/// Gives the member `output` of an object way to its own member `content`.
pub fn replace_output_with_content(json: Json) -> (replaced: Json)
    ensures
        replaced@ == output_replaced_by_content(json@),
{
    let found = json.position("output");
    let ghost tree = json@;
    match json {
        Json::Object(mut members) => {
            let ghost before = members_view(members@);
            proof {
                lemma_object_view(members);
            }
            match found {
                Some(i) => {
                    proof {
                        crate::json::lemma_member_index(before, "output"@, 0);
                    }
                    assert(before[i as int] == (members@[i as int].0@, members@[i as int].1@));
                    let content = match members[i].1.get("content") {
                        Some(content) => Some(content.clone()),
                        None => None,
                    };
                    match content {
                        Some(content) => {
                            members.set(i, ("output".to_string(), content));
                            proof {
                                lemma_object_view(members);
                                assert(members_view(members@) =~= before.update(
                                    i as int,
                                    ("output"@, content@),
                                ));
                            }
                            Json::Object(members)
                        },
                        None => Json::Object(members),
                    }
                },
                None => Json::Object(members),
            }
        },
        other => other,
    }
}

/// What a request carries for the output of a function call.
pub fn sanitize_function_call_output(item: &ResponseItem) -> (json: Json)
    ensures
        json@ == output_replaced_by_content(encoded_item(item@)),
{
    replace_output_with_content(encode_item(item))
}

/// What a request carries for an item.
pub fn sanitize_response_item(item: &ResponseItem) -> (json: Json)
    ensures
        json@ == sanitized_item(item@),
{
    match item {
        ResponseItem::FunctionCallOutput { .. } => sanitize_function_call_output(item),
        _ => if item.is_wf() {
            encode_item(item)
        } else {
            Json::Text(kind_text(item).to_string())
        },
    }
}

/// Whether a request carries `item`.
pub fn is_sent(item: &ResponseItem) -> (yes: bool)
    ensures
        yes == sent(item@),
{
    match item {
        ResponseItem::Other => false,
        _ => true,
    }
}

/// What a request carries for the items of a conversation. Items of
/// unknown kind are left out; `input` stays as it is.
pub fn serialize_sanitized_input(input: &Vec<ResponseItem>) -> (json: Json)
    ensures
        json@ == sanitized_input(input.deep_view()),
{
    let ghost views = input.deep_view();
    let mut items: Vec<Json> = Vec::new();
    let mut i: usize = 0;
    assert(views.take(0) =~= Seq::empty());
    assert(items.deep_view() =~= Seq::empty());
    while i < input.len()
        invariant
            i <= input.len(),
            views == input.deep_view(),
            items.deep_view() == sanitized_items(views.take(i as int)),
        decreases input.len() - i,
    {
        proof {
            assert(views.take(i + 1).drop_last() =~= views.take(i as int));
            assert(views.take(i + 1).last() == input@[i as int]@);
        }
        if is_sent(&input[i]) {
            let ghost before = items.deep_view();
            let element = sanitize_response_item(&input[i]);
            items.push(element);
            assert(items.deep_view() =~= before.push(element@));
        }
        i += 1;
    }
    proof {
        assert(views.take(input.len() as int) =~= views);
        lemma_array_view(items);
    }
    Json::Array(items)
}

/// The provider's word for an effort.
pub open spec fn effort_word(effort: OpenAiReasoningEffort) -> Seq<char> {
    match effort {
        OpenAiReasoningEffort::Low => "low"@,
        OpenAiReasoningEffort::Medium => "medium"@,
        OpenAiReasoningEffort::High => "high"@,
    }
}

/// The provider's word for a summary.
pub open spec fn summary_word(summary: OpenAiReasoningSummary) -> Seq<char> {
    match summary {
        OpenAiReasoningSummary::Auto => "auto"@,
        OpenAiReasoningSummary::Concise => "concise"@,
        OpenAiReasoningSummary::Detailed => "detailed"@,
    }
}

/// The reasoning block of a request: the effort, and the summary where one
/// is asked for. A request without reasoning carries `null`.
pub open spec fn encoded_reasoning(reasoning: Option<Reasoning>) -> JsonView {
    match reasoning {
        Some(r) => JsonView::Object(
            seq![("effort"@, JsonView::Text(effort_word(r.effort)))] + (match r.summary {
                Some(summary) => seq![("summary"@, JsonView::Text(summary_word(summary)))],
                None => Seq::empty(),
            }),
        ),
        None => JsonView::Null,
    }
}

/// Encodes the reasoning block of a request.
pub fn encode_reasoning(reasoning: &Option<Reasoning>) -> (json: Json)
    ensures
        json@ == encoded_reasoning(*reasoning),
{
    match reasoning {
        Some(r) => {
            let effort = match r.effort {
                OpenAiReasoningEffort::Low => "low",
                OpenAiReasoningEffort::Medium => "medium",
                OpenAiReasoningEffort::High => "high",
            };
            let mut members: Vec<(String, Json)> = Vec::new();
            members.push(("effort".to_string(), Json::Text(effort.to_string())));
            match r.summary {
                Some(summary) => {
                    let word = match summary {
                        OpenAiReasoningSummary::Auto => "auto",
                        OpenAiReasoningSummary::Concise => "concise",
                        OpenAiReasoningSummary::Detailed => "detailed",
                    };
                    members.push(("summary".to_string(), Json::Text(word.to_string())));
                },
                None => {},
            }
            proof {
                lemma_object_view(members);
                assert(members_view(members@) =~= encoded_reasoning(*reasoning)->Object_0);
            }
            Json::Object(members)
        },
        None => Json::Null,
    }
}

/// A request to the provider, for one turn.
#[derive(Debug)]
pub struct ResponsesApiRequest<'a> {
    pub model: &'a str,
    pub instructions: &'a str,
    pub input: &'a Vec<ResponseItem>,
    pub tools: &'a [Json],
    pub tool_choice: &'static str,
    pub parallel_tool_calls: bool,
    pub reasoning: Option<Reasoning>,
    pub store: bool,
    pub stream: bool,
    /// What the response is to hold beyond its items; `include` on the wire.
    pub including: Vec<String>,
}

/// The payload of a request: an object with these ten members in this
/// order, the items of `input` each as a request carries it.
pub open spec fn request_payload(
    model: Seq<char>,
    instructions: Seq<char>,
    input: Seq<ResponseItemView>,
    tools: Seq<JsonView>,
    tool_choice: Seq<char>,
    parallel_tool_calls: bool,
    reasoning: Option<Reasoning>,
    store: bool,
    stream: bool,
    including: Seq<Seq<char>>,
) -> JsonView {
    JsonView::Object(
        seq![
            ("model"@, JsonView::Text(model)),
            ("instructions"@, JsonView::Text(instructions)),
            ("input"@, sanitized_input(input)),
            ("tools"@, JsonView::Array(tools)),
            ("tool_choice"@, JsonView::Text(tool_choice)),
            ("parallel_tool_calls"@, JsonView::Bool(parallel_tool_calls)),
            ("reasoning"@, encoded_reasoning(reasoning)),
            ("store"@, JsonView::Bool(store)),
            ("stream"@, JsonView::Bool(stream)),
            ("include"@, text_array(including)),
        ],
    )
}

/// The views of `tools`, in order.
pub open spec fn tool_views(tools: Seq<Json>) -> Seq<JsonView> {
    Seq::new(tools.len(), |i: int| tools[i]@)
}

impl<'a> ResponsesApiRequest<'a> {
    /// The payload of the request.
    pub open spec fn payload(&self) -> JsonView {
        request_payload(
            self.model@,
            self.instructions@,
            self.input.deep_view(),
            tool_views(self.tools@),
            self.tool_choice@,
            self.parallel_tool_calls,
            self.reasoning,
            self.store,
            self.stream,
            self.including.deep_view(),
        )
    }

    /// The payload as JSON text: the text of the payload's tree, which
    /// stands or falls with the tools.
    pub fn to_text(&self) -> (text: Option<String>)
        ensures
            text.deep_view() == crate::json::rendered(self.payload()),
            text is Some == (self.payload().wf() && self.payload().writable()),
    {
        self.to_json().to_text()
    }

    /// The payload of the request.
    pub fn to_json(&self) -> (json: Json)
        ensures
            json@ == self.payload(),
    {
        let mut tools: Vec<Json> = Vec::new();
        let mut i: usize = 0;
        while i < self.tools.len()
            invariant
                i <= self.tools@.len(),
                tools.len() == i,
                forall|k: int| 0 <= k < i ==> (#[trigger] tools@[k])@ == self.tools@[k]@,
            decreases self.tools.len() - i,
        {
            tools.push(self.tools[i].clone());
            i += 1;
        }
        proof {
            lemma_array_view(tools);
            assert(tools.deep_view() =~= tool_views(self.tools@));
        }
        let members = vec![
            ("model".to_string(), Json::Text(self.model.to_string())),
            ("instructions".to_string(), Json::Text(self.instructions.to_string())),
            ("input".to_string(), serialize_sanitized_input(self.input)),
            ("tools".to_string(), Json::Array(tools)),
            ("tool_choice".to_string(), Json::Text(self.tool_choice.to_string())),
            ("parallel_tool_calls".to_string(), Json::Bool(self.parallel_tool_calls)),
            ("reasoning".to_string(), encode_reasoning(&self.reasoning)),
            ("store".to_string(), Json::Bool(self.store)),
            ("stream".to_string(), Json::Bool(self.stream)),
            ("include".to_string(), encode_texts(&self.including)),
        ];
        proof {
            lemma_object_view(members);
            assert(members_view(members@) =~= self.payload()->Object_0);
        }
        Json::Object(members)
    }
}

impl Prompt {
    /// The payload of the request for a turn with this prompt under
    /// `config`: the instructions are put together for the configured
    /// model, and the reasoning block is there exactly where the model
    /// gets one and the effort is not `Off`.
    pub fn build_payload(
        &self,
        config: &Config,
        effort: ReasoningEffortConfig,
        summary: ReasoningSummaryConfig,
        tools: &[Json],
    ) -> (json: Json)
        ensures
            json@ == request_payload(
                config.model@,
                full_instructions(
                    self.base_instructions_override.deep_view(),
                    self.user_instructions.deep_view(),
                    config.model@,
                ),
                self.input.deep_view(),
                tool_views(tools@),
                "auto"@,
                false,
                reasoning_param(
                    supports_reasoning_summaries(
                        config.model_supports_reasoning_summaries,
                        config.model@,
                    ),
                    effort,
                    summary,
                ),
                self.store,
                true,
                Seq::empty(),
            ),
    {
        let instructions = self.get_full_instructions(config.model.as_str());
        let reasoning = create_reasoning_param_for_request(config, effort, summary);
        let request = self.to_request(config.model.as_str(), instructions.as_str(), tools, reasoning);
        assert(request.including.deep_view() =~= Seq::empty());
        request.to_json()
    }
}

/// What a request carries for an item can be written.
pub proof fn lemma_sanitized_item_renderable(item: ResponseItemView)
    ensures
        crate::wire::renderable(sanitized_item(item)),
{
    if item.wf() {
        if item is FunctionCallOutput {
            lemma_sanitized_function_call_output(item);
            crate::wire::lemma_item_names();
            crate::json::lemma_object_wf(sanitized_item(item)->Object_0);
        } else {
            crate::wire::lemma_item_renderable(item);
        }
    }
}

/// The reasoning block of a request can be written.
pub proof fn lemma_reasoning_renderable(reasoning: Option<Reasoning>)
    ensures
        crate::wire::renderable(encoded_reasoning(reasoning)),
{
    if reasoning is Some {
        reveal_strlit("effort");
        reveal_strlit("summary");
        let members = encoded_reasoning(reasoning)->Object_0;
        crate::json::lemma_object_wf(members);
        assert(members.len() <= 2);
        assert forall|i: int| 0 <= i < members.len() implies (#[trigger] members[i]).1 is Text by {
            assert(i == 0 || i == 1);
        }
        assert forall|i: int, j: int| 0 <= i < j < members.len() implies (#[trigger] members[i]).0 != (
        #[trigger] members[j]).0 by {
            assert(i == 0 && j == 1);
            assert(members[0].0 == "effort"@ && members[1].0 == "summary"@);
        }
        assert forall|i: int| 0 <= i < members.len() implies (#[trigger] members[i]).1.wf()
            && members[i].1.exact() by {
            assert(members[i].1 is Text);
        }
    }
}

/// The payload of a request can be written exactly where each of its
/// tools can: nothing else in a request stands in the way.
pub proof fn lemma_payload_renderable(request: ResponsesApiRequest)
    ensures
        (request.payload().wf() && request.payload().writable()) <==> forall|i: int|
            0 <= i < request.tools@.len() ==> (#[trigger] request.tools@[i])@.wf()
                && request.tools@[i]@.writable(),
{
    let members = request.payload()->Object_0;
    lemma_payload_keys(request);
    crate::json::lemma_object_wf(members);
    let input = sanitized_input(request.input.deep_view())->Array_0;
    assert forall|i: int| 0 <= i < input.len() implies (#[trigger] input[i]).wf()
        && input[i].writable() by {
        lemma_sanitized_items_are_of_sent_items(request.input.deep_view(), i);
        let j = choose|j: int|
            0 <= j < request.input.deep_view().len() && sent(#[trigger] request.input.deep_view()[j])
                && input[i] == sanitized_item(request.input.deep_view()[j]);
        lemma_sanitized_item_renderable(request.input.deep_view()[j]);
        crate::json::lemma_exact_is_written(input[i]);
    }
    crate::json::lemma_array_wf(input);
    lemma_reasoning_renderable(request.reasoning);
    crate::json::lemma_exact_is_written(encoded_reasoning(request.reasoning));
    crate::wire::lemma_texts_renderable(request.including.deep_view());
    crate::json::lemma_exact_is_written(text_array(request.including.deep_view()));
    let tools = tool_views(request.tools@);
    crate::json::lemma_array_wf(tools);
    assert(members.len() == 10);
    assert(members[0].1 is Text && members[1].1 is Text && members[4].1 is Text);
    assert(members[5].1 is Bool && members[7].1 is Bool && members[8].1 is Bool);
    assert(members[2].1 == sanitized_input(request.input.deep_view()));
    assert(members[3].1 == JsonView::Array(tools));
    assert(members[6].1 == encoded_reasoning(request.reasoning));
    assert(members[9].1 == text_array(request.including.deep_view()));
    let tools_fine = forall|i: int|
        0 <= i < request.tools@.len() ==> (#[trigger] request.tools@[i])@.wf()
            && request.tools@[i]@.writable();
    if tools_fine {
        assert forall|i: int| 0 <= i < tools.len() implies (#[trigger] tools[i]).wf() by {
            assert(request.tools@[i]@.wf());
        }
        assert forall|i: int| 0 <= i < tools.len() implies (#[trigger] tools[i]).writable() by {
            assert(request.tools@[i]@.writable());
        }
        assert(members[3].1.wf() && members[3].1.writable());
        assert forall|i: int| 0 <= i < members.len() implies (#[trigger] members[i]).1.wf() by {
            assert(i == 0 || i == 1 || i == 2 || i == 3 || i == 4 || i == 5 || i == 6 || i == 7 || i == 8
                || i == 9);
        }
        assert forall|i: int| 0 <= i < members.len() implies (#[trigger] members[i]).1.writable() by {
            assert(i == 0 || i == 1 || i == 2 || i == 3 || i == 4 || i == 5 || i == 6 || i == 7 || i == 8
                || i == 9);
        }
        assert(request.payload().wf() && request.payload().writable());
    }
    if request.payload().wf() && request.payload().writable() {
        assert(members[3].1.wf() && members[3].1.writable());
        assert forall|i: int| 0 <= i < request.tools@.len() implies (#[trigger] request.tools@[i])@.wf()
            && request.tools@[i]@.writable() by {
            assert(tools[i].wf() && tools[i].writable());
        }
    }
}

/// The ten members of a payload have ten names.
proof fn lemma_payload_keys(request: ResponsesApiRequest)
    ensures
        crate::json::distinct_keys(request.payload()->Object_0),
{
    reveal_strlit("model");
    reveal_strlit("instructions");
    reveal_strlit("input");
    reveal_strlit("tools");
    reveal_strlit("tool_choice");
    reveal_strlit("parallel_tool_calls");
    reveal_strlit("reasoning");
    reveal_strlit("store");
    reveal_strlit("stream");
    reveal_strlit("include");
    let members = request.payload()->Object_0;
    assert("model"@[0] != "input"@[0] && "model"@[0] != "tools"@[0] && "model"@[0] != "store"@[0]);
    assert("input"@[0] != "tools"@[0] && "input"@[0] != "store"@[0] && "tools"@[0] != "store"@[0]);
    assert(members.len() == 10);
    assert(members[0].0 == "model"@ && members[1].0 == "instructions"@ && members[2].0 == "input"@);
    assert(members[3].0 == "tools"@ && members[4].0 == "tool_choice"@);
    assert(members[5].0 == "parallel_tool_calls"@ && members[6].0 == "reasoning"@);
    assert(members[7].0 == "store"@ && members[8].0 == "stream"@ && members[9].0 == "include"@);
    assert forall|i: int, j: int| 0 <= i < j < members.len() implies (#[trigger] members[i]).0 != (
    #[trigger] members[j]).0 by {
        assert(i == 0 || i == 1 || i == 2 || i == 3 || i == 4 || i == 5 || i == 6 || i == 7 || i == 8);
        assert(j == 1 || j == 2 || j == 3 || j == 4 || j == 5 || j == 6 || j == 7 || j == 8 || j == 9);
    }
}

impl Prompt {
    /// The request for a turn with this prompt: the tools are chosen by
    /// the model, one call at a time, and the response is streamed.
    pub fn to_request<'a>(
        &'a self,
        model: &'a str,
        instructions: &'a str,
        tools: &'a [Json],
        reasoning: Option<Reasoning>,
    ) -> (request: ResponsesApiRequest<'a>)
        ensures
            request.model@ == model@,
            request.instructions@ == instructions@,
            request.input == &self.input,
            request.tools@ == tools@,
            request.tool_choice@ == "auto"@,
            !request.parallel_tool_calls,
            request.reasoning == reasoning,
            request.store == self.store,
            request.stream,
            request.including@.len() == 0,
    {
        ResponsesApiRequest {
            model,
            instructions,
            input: &self.input,
            tools,
            tool_choice: "auto",
            parallel_tool_calls: false,
            reasoning,
            store: self.store,
            stream: true,
            including: Vec::new(),
        }
    }
}

/// A model named `o3` gets a reasoning block exactly where the configured
/// effort is not `Off`.
pub proof fn lemma_o3_has_reasoning(flag: bool, effort: ReasoningEffortConfig, summary: ReasoningSummaryConfig)
    ensures
        supports_reasoning_summaries(flag, "o3"@),
        reasoning_param(supports_reasoning_summaries(flag, "o3"@), effort, summary) is Some <==> effort
            != ReasoningEffortConfig::Off,
{
    reveal_strlit("o3");
    reveal_strlit("o");
    assert("o3"@.subrange(0, 1) =~= "o"@);
}

} // verus!
