//! The spans that conversation events open, one function for each kind.

use super::truncate_content;
use super::truncated;
use super::user_message_span;
use super::FieldValue;
use super::FieldValueView;
use super::Span;
use super::SpanView;
use vstd::prelude::*;

verus! {

/// The span of a request to the model. Token counts and retries are
/// declared, to be recorded when the response has come.
pub open spec fn llm_request_span(model: Seq<char>, provider: Seq<char>) -> SpanView {
    SpanView {
        enabled: true,
        name: "llm_request"@,
        child_of_context: false,
        fields: seq![
            ("model"@, FieldValueView::Text(model)),
            ("provider"@, FieldValueView::Text(provider)),
            ("prompt_tokens"@, FieldValueView::Empty),
            ("completion_tokens"@, FieldValueView::Empty),
            ("total_tokens"@, FieldValueView::Empty),
            ("cached_tokens"@, FieldValueView::Empty),
            ("reasoning_tokens"@, FieldValueView::Empty),
            ("retries"@, FieldValueView::Empty),
        ],
    }
}

/// The span of a message of the assistant.
pub open spec fn assistant_message_span() -> SpanView {
    SpanView {
        enabled: true,
        name: "assistant_msg"@,
        child_of_context: false,
        fields: seq![
            ("role"@, FieldValueView::Text("assistant"@)),
            ("content"@, FieldValueView::Empty),
            ("message_type"@, FieldValueView::Text("assistant_response"@)),
        ],
    }
}

/// The span of a tool call; the arguments are carried cut down to what an
/// attribute can hold.
pub open spec fn tool_call_span(tool_name: Seq<char>, args: Seq<char>) -> SpanView {
    SpanView {
        enabled: true,
        name: "tool_call"@,
        child_of_context: false,
        fields: seq![
            ("tool"@, FieldValueView::Text(tool_name)),
            ("args"@, FieldValueView::Text(truncated(args))),
            ("call_type"@, FieldValueView::Text("function_call"@)),
        ],
    }
}

/// The span of a command that is run.
pub open spec fn exec_cmd_span(cmd: Seq<char>) -> SpanView {
    SpanView {
        enabled: true,
        name: "exec_cmd"@,
        child_of_context: false,
        fields: seq![
            ("cmd"@, FieldValueView::Text(cmd)),
            ("exit_code"@, FieldValueView::Empty),
            ("duration_ms"@, FieldValueView::Empty),
            ("stdout_size"@, FieldValueView::Empty),
            ("stderr_size"@, FieldValueView::Empty),
            ("status"@, FieldValueView::Empty),
            ("working_directory"@, FieldValueView::Empty),
        ],
    }
}

/// The span of what a function call gave back.
pub open spec fn function_call_output_span(call_id: Seq<char>) -> SpanView {
    SpanView {
        enabled: true,
        name: "function_call_output"@,
        child_of_context: false,
        fields: seq![
            ("call_id"@, FieldValueView::Text(call_id)),
            ("success"@, FieldValueView::Empty),
            ("content_size"@, FieldValueView::Empty),
            ("call_type"@, FieldValueView::Text("function_output"@)),
            ("content"@, FieldValueView::Empty),
        ],
    }
}

/// The span after the token counts of a response were recorded on it: the
/// three totals always, the cached and reasoning counts where they are known.
pub open spec fn with_token_usage(
    span: SpanView,
    input_tokens: u64,
    output_tokens: u64,
    total_tokens: u64,
    cached_tokens: Option<u64>,
    reasoning_tokens: Option<u64>,
) -> SpanView {
    let totals = span.record("prompt_tokens"@, FieldValueView::Number(input_tokens)).record(
        "completion_tokens"@,
        FieldValueView::Number(output_tokens),
    ).record("total_tokens"@, FieldValueView::Number(total_tokens));
    let cached = match cached_tokens {
        Some(n) => totals.record("cached_tokens"@, FieldValueView::Number(n)),
        None => totals,
    };
    match reasoning_tokens {
        Some(n) => cached.record("reasoning_tokens"@, FieldValueView::Number(n)),
        None => cached,
    }
}

/// Opens the span of a user message.
pub fn create_user_message_span(content: &str) -> (span: Span)
    ensures
        span@ == user_message_span(content@, false),
{
    let mut span = Span::named("user_message", false);
    span.declare("role", FieldValue::Text("user".to_string()));
    span.declare("content", FieldValue::Text(truncate_content(content)));
    span.declare("message_type", FieldValue::Text("user_input".to_string()));
    assert(span@.fields =~= user_message_span(content@, false).fields);
    span
}

/// Opens the span of a request to the model.
pub fn create_llm_request_span(model: &str, provider: &str) -> (span: Span)
    ensures
        span@ == llm_request_span(model@, provider@),
{
    let mut span = Span::named("llm_request", false);
    span.declare("model", FieldValue::Text(model.to_string()));
    span.declare("provider", FieldValue::Text(provider.to_string()));
    span.declare("prompt_tokens", FieldValue::Empty);
    span.declare("completion_tokens", FieldValue::Empty);
    span.declare("total_tokens", FieldValue::Empty);
    span.declare("cached_tokens", FieldValue::Empty);
    span.declare("reasoning_tokens", FieldValue::Empty);
    span.declare("retries", FieldValue::Empty);
    assert(span@.fields =~= llm_request_span(model@, provider@).fields);
    span
}

/// Opens the span of a message of the assistant.
pub fn create_assistant_message_span() -> (span: Span)
    ensures
        span@ == assistant_message_span(),
{
    let mut span = Span::named("assistant_msg", false);
    span.declare("role", FieldValue::Text("assistant".to_string()));
    span.declare("content", FieldValue::Empty);
    span.declare("message_type", FieldValue::Text("assistant_response".to_string()));
    assert(span@.fields =~= assistant_message_span().fields);
    span
}

/// Opens the span of a tool call.
pub fn create_tool_call_span(tool_name: &str, args: &str) -> (span: Span)
    ensures
        span@ == tool_call_span(tool_name@, args@),
{
    let mut span = Span::named("tool_call", false);
    span.declare("tool", FieldValue::Text(tool_name.to_string()));
    span.declare("args", FieldValue::Text(truncate_content(args)));
    span.declare("call_type", FieldValue::Text("function_call".to_string()));
    assert(span@.fields =~= tool_call_span(tool_name@, args@).fields);
    span
}

/// Opens the span of a command that is run.
pub fn create_exec_cmd_span(cmd: &str) -> (span: Span)
    ensures
        span@ == exec_cmd_span(cmd@),
{
    let mut span = Span::named("exec_cmd", false);
    span.declare("cmd", FieldValue::Text(cmd.to_string()));
    span.declare("exit_code", FieldValue::Empty);
    span.declare("duration_ms", FieldValue::Empty);
    span.declare("stdout_size", FieldValue::Empty);
    span.declare("stderr_size", FieldValue::Empty);
    span.declare("status", FieldValue::Empty);
    span.declare("working_directory", FieldValue::Empty);
    assert(span@.fields =~= exec_cmd_span(cmd@).fields);
    span
}

/// Opens the span of what a function call gave back.
pub fn create_function_call_output_span(call_id: &str) -> (span: Span)
    ensures
        span@ == function_call_output_span(call_id@),
{
    let mut span = Span::named("function_call_output", false);
    span.declare("call_id", FieldValue::Text(call_id.to_string()));
    span.declare("success", FieldValue::Empty);
    span.declare("content_size", FieldValue::Empty);
    span.declare("call_type", FieldValue::Text("function_output".to_string()));
    span.declare("content", FieldValue::Empty);
    assert(span@.fields =~= function_call_output_span(call_id@).fields);
    span
}

/// Records the token counts of a response on `span`, the span that is
/// current where the response is handled.
pub fn record_token_usage(
    span: &mut Span,
    input_tokens: u64,
    output_tokens: u64,
    total_tokens: u64,
    cached_tokens: Option<u64>,
    reasoning_tokens: Option<u64>,
)
    ensures
        final(span)@ == with_token_usage(
            old(span)@,
            input_tokens,
            output_tokens,
            total_tokens,
            cached_tokens,
            reasoning_tokens,
        ),
{
    span.record("prompt_tokens", FieldValue::Number(input_tokens));
    span.record("completion_tokens", FieldValue::Number(output_tokens));
    span.record("total_tokens", FieldValue::Number(total_tokens));
    if let Some(cached) = cached_tokens {
        span.record("cached_tokens", FieldValue::Number(cached));
    }
    if let Some(reasoning) = reasoning_tokens {
        span.record("reasoning_tokens", FieldValue::Number(reasoning));
    }
}

} // verus!
