//! The same entry points for a process that exports no traces: every span
//! is the one that records nothing.

use super::Span;
use super::SpanView;
use vstd::prelude::*;

verus! {

/// The span of a user message where telemetry is off.
pub fn create_user_message_span(_content: &str) -> (span: Span)
    ensures
        span@ == SpanView::none(),
{
    Span::none()
}

/// The span of a request to the model where telemetry is off.
pub fn create_llm_request_span(_model: &str, _provider: &str) -> (span: Span)
    ensures
        span@ == SpanView::none(),
{
    Span::none()
}

/// The span of a message of the assistant where telemetry is off.
pub fn create_assistant_message_span() -> (span: Span)
    ensures
        span@ == SpanView::none(),
{
    Span::none()
}

/// The span of a tool call where telemetry is off.
pub fn create_tool_call_span(_tool_name: &str, _args: &str) -> (span: Span)
    ensures
        span@ == SpanView::none(),
{
    Span::none()
}

/// The span of a command where telemetry is off.
pub fn create_exec_cmd_span(_cmd: &str) -> (span: Span)
    ensures
        span@ == SpanView::none(),
{
    Span::none()
}

/// The span of a function call's output where telemetry is off.
pub fn create_function_call_output_span(_call_id: &str) -> (span: Span)
    ensures
        span@ == SpanView::none(),
{
    Span::none()
}

/// Where telemetry is off, token counts are recorded nowhere: the span
/// stays as it is.
pub fn record_token_usage(
    span: &mut Span,
    _input_tokens: u64,
    _output_tokens: u64,
    _total_tokens: u64,
    _cached_tokens: Option<u64>,
    _reasoning_tokens: Option<u64>,
)
    ensures
        *final(span) == *old(span),
{
}

} // verus!
