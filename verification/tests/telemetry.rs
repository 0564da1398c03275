use std::collections::HashMap;

use codex_core::telemetry::conversation_tracing;
use codex_core::telemetry::disabled;
use codex_core::telemetry::export::default_trace_file_name;
use codex_core::telemetry::export::file_target;
use codex_core::telemetry::export::Exporter;
use codex_core::telemetry::export::OtelSettings;
use codex_core::telemetry::export::TelemetryPlan;
use codex_core::telemetry::truncate_content;
use codex_core::telemetry::FieldValue;
use codex_core::telemetry::Span;
use codex_core::telemetry::TraceContext;
use codex_core::telemetry::OTEL_CONTENT_LIMIT;

fn text(s: &str) -> FieldValue {
    FieldValue::Text(s.to_string())
}

fn field(name: &str, value: FieldValue) -> (String, FieldValue) {
    (name.to_string(), value)
}

#[test]
fn content_is_cut_by_characters() {
    assert_eq!(truncate_content("short"), "short");
    assert_eq!(truncate_content(""), "");
    let exact = "a".repeat(OTEL_CONTENT_LIMIT);
    assert_eq!(truncate_content(&exact), exact);
    let long = "a".repeat(OTEL_CONTENT_LIMIT + 3);
    assert_eq!(truncate_content(&long), exact);
    // More bytes than the limit, fewer characters: nothing is cut.
    let wide = "\u{e9}".repeat(OTEL_CONTENT_LIMIT - 1);
    assert!(wide.len() > OTEL_CONTENT_LIMIT);
    assert_eq!(truncate_content(&wide), wide);
    let wider = "\u{e9}".repeat(OTEL_CONTENT_LIMIT + 1);
    assert_eq!(truncate_content(&wider).chars().count(), OTEL_CONTENT_LIMIT);
}

#[test]
fn a_trace_context_carries_its_map() {
    assert_eq!(TraceContext::new().into_inner(), None);
    assert_eq!(TraceContext::capture_current().into_inner(), None);
    assert_eq!(TraceContext::default().into_inner(), None);
    let mut map = HashMap::new();
    map.insert("traceparent".to_string(), "00-abc-def-01".to_string());
    let ctx = TraceContext::from_context_map(Some(map.clone()));
    assert!(ctx.has_context());
    assert_eq!(ctx.clone().into_inner(), Some(map.clone()));
    assert_eq!(TraceContext::from_carrier(map.clone()).into_inner(), Some(map));
    assert_eq!(TraceContext::from_carrier(HashMap::new()).into_inner(), None);
    assert!(!TraceContext::from_context_map(None).has_context());
}

#[test]
fn spans_are_named_from_a_fixed_vocabulary() {
    let ctx = TraceContext::new();
    for name in ["user_message", "llm_request", "assistant_msg", "tool_call", "exec_cmd", "function_call_output"] {
        let span = ctx.create_span(name);
        assert_eq!(span, Span { enabled: true, name: name.to_string(), child_of_context: false, fields: vec![] });
    }
    assert_eq!(ctx.create_span("anything else").name, "span");
    assert_eq!(ctx.create_span("").name, "span");
    let mut map = HashMap::new();
    map.insert("k".to_string(), "v".to_string());
    let child = TraceContext::from_context_map(Some(map)).create_span("tool_call");
    assert!(child.child_of_context);
}

#[test]
fn a_user_message_span_carries_the_message() {
    let ctx = TraceContext::new();
    let span = ctx.create_user_message_span("hi");
    assert_eq!(
        span,
        Span {
            enabled: true,
            name: "user_message".to_string(),
            child_of_context: false,
            fields: vec![
                field("role", text("user")),
                field("content", text("hi")),
                field("message_type", text("user_input")),
            ],
        }
    );
    assert_eq!(span, conversation_tracing::create_user_message_span("hi"));
    // A span that declares no content records none.
    let empty = ctx.create_user_message_span("");
    assert_eq!(empty, Span { enabled: true, name: "user_message".to_string(), child_of_context: false, fields: vec![] });
    let long = "b".repeat(OTEL_CONTENT_LIMIT + 1);
    let cut = conversation_tracing::create_user_message_span(&long);
    assert_eq!(cut.fields[1], field("content", text(&"b".repeat(OTEL_CONTENT_LIMIT))));
}

#[test]
fn each_event_has_its_span() {
    let llm = conversation_tracing::create_llm_request_span("o3", "openai");
    assert_eq!(llm.name, "llm_request");
    assert_eq!(
        llm.fields,
        vec![
            field("model", text("o3")),
            field("provider", text("openai")),
            field("prompt_tokens", FieldValue::Empty),
            field("completion_tokens", FieldValue::Empty),
            field("total_tokens", FieldValue::Empty),
            field("cached_tokens", FieldValue::Empty),
            field("reasoning_tokens", FieldValue::Empty),
            field("retries", FieldValue::Empty),
        ]
    );
    let assistant = conversation_tracing::create_assistant_message_span();
    assert_eq!(assistant.name, "assistant_msg");
    assert_eq!(
        assistant.fields,
        vec![
            field("role", text("assistant")),
            field("content", FieldValue::Empty),
            field("message_type", text("assistant_response")),
        ]
    );
    let tool = conversation_tracing::create_tool_call_span("shell", "{}");
    assert_eq!(tool.name, "tool_call");
    assert_eq!(
        tool.fields,
        vec![field("tool", text("shell")), field("args", text("{}")), field("call_type", text("function_call"))]
    );
    let exec = conversation_tracing::create_exec_cmd_span("ls -l");
    assert_eq!(exec.name, "exec_cmd");
    assert_eq!(exec.fields.len(), 7);
    assert_eq!(exec.fields[0], field("cmd", text("ls -l")));
    assert_eq!(exec.fields[6], field("working_directory", FieldValue::Empty));
    let output = conversation_tracing::create_function_call_output_span("c1");
    assert_eq!(output.name, "function_call_output");
    assert_eq!(
        output.fields,
        vec![
            field("call_id", text("c1")),
            field("success", FieldValue::Empty),
            field("content_size", FieldValue::Empty),
            field("call_type", text("function_output")),
            field("content", FieldValue::Empty),
        ]
    );
}

#[test]
fn token_usage_is_recorded_on_the_declared_fields() {
    let mut span = conversation_tracing::create_llm_request_span("o3", "openai");
    conversation_tracing::record_token_usage(&mut span, 10, 5, 15, Some(2), None);
    assert_eq!(span.fields[2], field("prompt_tokens", FieldValue::Number(10)));
    assert_eq!(span.fields[3], field("completion_tokens", FieldValue::Number(5)));
    assert_eq!(span.fields[4], field("total_tokens", FieldValue::Number(15)));
    assert_eq!(span.fields[5], field("cached_tokens", FieldValue::Number(2)));
    assert_eq!(span.fields[6], field("reasoning_tokens", FieldValue::Empty));
    let mut other = conversation_tracing::create_tool_call_span("t", "a");
    let before = other.clone();
    conversation_tracing::record_token_usage(&mut other, 1, 2, 3, Some(4), Some(5));
    assert_eq!(other, before);
    let mut span = Span::named("x", false);
    span.declare("a", FieldValue::Empty);
    span.declare("a", FieldValue::Empty);
    span.record("a", FieldValue::Number(1));
    assert_eq!(span.fields, vec![field("a", FieldValue::Number(1)), field("a", FieldValue::Empty)]);
}

#[test]
fn without_telemetry_every_span_is_none() {
    let none = Span::none();
    assert!(none.is_none());
    assert_eq!(disabled::create_user_message_span("hi"), none);
    assert_eq!(disabled::create_llm_request_span("m", "p"), none);
    assert_eq!(disabled::create_assistant_message_span(), none);
    assert_eq!(disabled::create_tool_call_span("t", "a"), none);
    assert_eq!(disabled::create_exec_cmd_span("ls"), none);
    assert_eq!(disabled::create_function_call_output_span("c"), none);
    let mut span = conversation_tracing::create_llm_request_span("m", "p");
    let before = span.clone();
    disabled::record_token_usage(&mut span, 1, 2, 3, None, None);
    assert_eq!(span, before);
    let mut off = Span::none();
    off.record("content", FieldValue::Number(1));
    assert_eq!(off, none);
}

fn settings(target: Option<&str>, protocol: Option<&str>, service: Option<&str>) -> OtelSettings {
    OtelSettings {
        target: target.map(|s| s.to_string()),
        protocol: protocol.map(|s| s.to_string()),
        service_name: service.map(|s| s.to_string()),
    }
}

#[test]
fn the_target_decides_the_exporter() {
    assert_eq!(settings(None, None, None).plan(None), None);
    assert!(settings(None, None, None).needs_default_target());
    assert_eq!(
        settings(None, None, None).plan(Some("file:///h/traces/codex-1-2.log".to_string())),
        Some(TelemetryPlan {
            exporter: Exporter::File { path: "/h/traces/codex-1-2.log".to_string() },
            service_name: "codex-cli".to_string(),
            announce: true,
        })
    );
    assert_eq!(
        settings(Some("file://file:///t.log"), None, Some("svc")).plan(Some("stdout".to_string())),
        Some(TelemetryPlan {
            exporter: Exporter::File { path: "/t.log".to_string() },
            service_name: "svc".to_string(),
            announce: false,
        })
    );
    assert_eq!(
        settings(Some("stdout"), Some("http"), None).plan(None).unwrap().exporter,
        Exporter::Stdout
    );
    assert_eq!(
        settings(Some("http://c:4318"), Some("http"), None).plan(None).unwrap().exporter,
        Exporter::OtlpHttp { endpoint: "http://c:4318".to_string() }
    );
    assert_eq!(
        settings(Some("http://c:4317"), None, None).plan(None).unwrap().exporter,
        Exporter::OtlpGrpc { endpoint: "http://c:4317".to_string() }
    );
    assert_eq!(
        settings(Some("http://c:4317"), Some("HTTP"), None).plan(None).unwrap().exporter,
        Exporter::OtlpGrpc { endpoint: "http://c:4317".to_string() }
    );
}

#[test]
fn the_default_trace_file_is_named_by_time_and_process() {
    assert_eq!(default_trace_file_name(1715102661, 4242), "codex-1715102661-4242.log");
    assert_eq!(default_trace_file_name(0, 0), "codex-0-0.log");
    assert_eq!(
        default_trace_file_name(u64::MAX, u32::MAX),
        "codex-18446744073709551615-4294967295.log"
    );
    assert_eq!(file_target("/a/b.log"), "file:///a/b.log");
}

#[test]
fn the_configuration_goes_before_the_environment() {
    let resolved = OtelSettings::resolve(
        settings(Some("stdout"), None, None),
        settings(Some("http://c:4317"), Some("http"), Some("env-name")),
    );
    assert_eq!(resolved, settings(Some("stdout"), Some("http"), Some("env-name")));
    assert_eq!(
        OtelSettings::resolve(settings(None, None, None), settings(None, None, None)),
        settings(None, None, None)
    );
    let plan = OtelSettings::plan_from(
        settings(None, Some("grpc"), Some("mine")),
        settings(Some("http://c:4318"), Some("http"), Some("theirs")),
        Some("file:///unused.log".to_string()),
    )
    .unwrap();
    assert_eq!(
        plan,
        TelemetryPlan {
            exporter: Exporter::OtlpGrpc { endpoint: "http://c:4318".to_string() },
            service_name: "mine".to_string(),
            announce: false,
        }
    );
    assert_eq!(OtelSettings::plan_from(settings(None, None, None), settings(None, None, None), None), None);
}
