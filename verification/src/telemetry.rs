//! Span descriptions and trace-context propagation for conversation events.
//!
//! A [`Span`] says what a tracing span is made of: its name, whether it is a
//! child of a carried trace context, and its attributes. Whoever owns the
//! tracing sink turns a description into a span of the sink.

use crate::text::str_eq;
use std::collections::HashMap;
use vstd::prelude::*;
use vstd::string::*;

pub mod conversation_tracing;
pub mod disabled;
pub mod export;

verus! {

/// Largest number of characters of a content attribute that a span carries.
pub const OTEL_CONTENT_LIMIT: usize = 65536;

/// What `truncate_content` keeps of `s`: its first `OTEL_CONTENT_LIMIT`
/// characters, or all of it where it is shorter.
pub open spec fn truncated(s: Seq<char>) -> Seq<char> {
    if s.len() > OTEL_CONTENT_LIMIT {
        s.take(OTEL_CONTENT_LIMIT as int)
    } else {
        s
    }
}

/// Cuts `s` down to a size that a span attribute can carry.
pub fn truncate_content(s: &str) -> (out: String)
    ensures
        out@ == truncated(s@),
{
    if s.unicode_len() > OTEL_CONTENT_LIMIT {
        s.substring_char(0, OTEL_CONTENT_LIMIT).to_string()
    } else {
        s.to_string()
    }
}

/// View of a [`FieldValue`].
pub enum FieldValueView {
    Empty,
    Text(Seq<char>),
    Number(u64),
}

/// The value of one attribute of a span.
#[derive(Debug, Clone, PartialEq, Eq)]
pub enum FieldValue {
    /// Declared, and to be recorded later.
    Empty,
    Text(String),
    Number(u64),
}

impl View for FieldValue {
    type V = FieldValueView;

    open spec fn view(&self) -> FieldValueView {
        match self {
            FieldValue::Empty => FieldValueView::Empty,
            FieldValue::Text(s) => FieldValueView::Text(s@),
            FieldValue::Number(n) => FieldValueView::Number(*n),
        }
    }
}

impl DeepView for FieldValue {
    type V = FieldValueView;

    open spec fn deep_view(&self) -> FieldValueView {
        self@
    }
}

/// The position of the first attribute named `name` at or after `from`.
pub open spec fn field_index(fields: Seq<(Seq<char>, FieldValueView)>, name: Seq<char>, from: int) -> Option<
    int,
>
    decreases fields.len() - from,
{
    if from < 0 || from >= fields.len() {
        None
    } else if fields[from].0 == name {
        Some(from)
    } else {
        field_index(fields, name, from + 1)
    }
}

/// View of a [`Span`].
pub struct SpanView {
    pub enabled: bool,
    pub name: Seq<char>,
    pub child_of_context: bool,
    pub fields: Seq<(Seq<char>, FieldValueView)>,
}

impl SpanView {
    /// The span that records nothing.
    pub open spec fn none() -> SpanView {
        SpanView { enabled: false, name: Seq::empty(), child_of_context: false, fields: Seq::empty() }
    }

    /// A span without attributes.
    pub open spec fn named(name: Seq<char>, child_of_context: bool) -> SpanView {
        SpanView { enabled: true, name, child_of_context, fields: Seq::empty() }
    }

    /// The span after `value` was recorded for the attribute `name`: an
    /// enabled span that declares the attribute takes the value, any other
    /// span stays as it is.
    pub open spec fn record(self, name: Seq<char>, value: FieldValueView) -> SpanView {
        match field_index(self.fields, name, 0) {
            Some(i) if self.enabled => SpanView { fields: self.fields.update(i, (name, value)), ..self },
            _ => self,
        }
    }
}

/// What a tracing span is made of.
#[derive(Debug, Clone, PartialEq, Eq)]
pub struct Span {
    /// A span that is not enabled records nothing.
    pub enabled: bool,
    pub name: String,
    /// Whether the span is a child of the trace context that made it.
    pub child_of_context: bool,
    /// The attributes that the span declares, in order.
    pub fields: Vec<(String, FieldValue)>,
}

impl View for Span {
    type V = SpanView;

    open spec fn view(&self) -> SpanView {
        SpanView {
            enabled: self.enabled,
            name: self.name@,
            child_of_context: self.child_of_context,
            fields: self.fields.deep_view(),
        }
    }
}

impl Span {
    /// The span that records nothing.
    pub fn none() -> (span: Span)
        ensures
            span@ == SpanView::none(),
    {
        let span = Span {
            enabled: false,
            name: String::new(),
            child_of_context: false,
            fields: Vec::new(),
        };
        assert(span.fields.deep_view() =~= Seq::empty());
        span
    }

    /// A span without attributes.
    pub fn named(name: &str, child_of_context: bool) -> (span: Span)
        ensures
            span@ == SpanView::named(name@, child_of_context),
    {
        let span = Span { enabled: true, name: name.to_string(), child_of_context, fields: Vec::new() };
        assert(span.fields.deep_view() =~= Seq::empty());
        span
    }

    /// Whether the span records nothing.
    pub fn is_none(&self) -> (yes: bool)
        ensures
            yes == !self@.enabled,
    {
        !self.enabled
    }

    /// Declares one more attribute, after those that the span has.
    pub fn declare(&mut self, name: &str, value: FieldValue)
        ensures
            final(self)@ == (SpanView {
                fields: old(self)@.fields.push((name@, value@)),
                ..old(self)@
            }),
    {
        self.fields.push((name.to_string(), value));
        assert(self.fields.deep_view() =~= old(self).fields.deep_view().push((name@, value@)));
    }

    /// Records `value` for the attribute `name`. A span that is not enabled,
    /// or does not declare the attribute, stays as it is.
    pub fn record(&mut self, name: &str, value: FieldValue)
        ensures
            final(self)@ == old(self)@.record(name@, value@),
    {
        if !self.enabled {
            return ;
        }
        let ghost fields = self.fields.deep_view();
        let mut i: usize = 0;
        while i < self.fields.len()
            invariant
                i <= self.fields.len(),
                *self == *old(self),
                self.enabled,
                fields == self.fields.deep_view(),
                field_index(fields, name@, 0) == field_index(fields, name@, i as int),
            decreases self.fields.len() - i,
        {
            assert(fields[i as int] == (self.fields@[i as int].0@, self.fields@[i as int].1@));
            if str_eq(self.fields[i].0.as_str(), name) {
                self.fields.set(i, (name.to_string(), value));
                assert(self.fields.deep_view() =~= fields.update(i as int, (name@, value@)));
                return ;
            }
            i += 1;
        }
    }
}

/// The names of the spans that conversation events open.
pub open spec fn known_span_name(name: Seq<char>) -> bool {
    ||| name == "user_message"@
    ||| name == "llm_request"@
    ||| name == "assistant_msg"@
    ||| name == "tool_call"@
    ||| name == "exec_cmd"@
    ||| name == "function_call_output"@
}

/// The name under which a span asked for as `name` is opened: `name` where
/// it is one of the known names, `span` otherwise.
pub open spec fn span_name_for(name: Seq<char>) -> Seq<char> {
    if known_span_name(name) {
        name
    } else {
        "span"@
    }
}

/// The span that a user message opens: the content is carried cut down to
/// what an attribute can hold.
pub open spec fn user_message_span(content: Seq<char>, child_of_context: bool) -> SpanView {
    SpanView {
        enabled: true,
        name: "user_message"@,
        child_of_context,
        fields: seq![
            ("role"@, FieldValueView::Text("user"@)),
            ("content"@, FieldValueView::Text(truncated(content))),
            ("message_type"@, FieldValueView::Text("user_input"@)),
        ],
    }
}

/// Trace context carried from one component to another, from which child
/// spans are made later. The context is a map from header names to values
/// that this library only carries.
#[derive(Clone, Debug, Default)]
pub struct TraceContext {
    inner: Option<HashMap<String, String>>,
}

impl TraceContext {
    /// The carried map; `None` where no context is propagated.
    pub closed spec fn context(&self) -> Option<HashMap<String, String>> {
        self.inner
    }

    /// A context that carries nothing.
    pub fn new() -> (ctx: Self)
        ensures
            ctx.context() is None,
    {
        Self { inner: None }
    }

    /// A context that carries `context_map`.
    pub fn from_context_map(context_map: Option<HashMap<String, String>>) -> (ctx: Self)
        ensures
            ctx.context() == context_map,
    {
        Self { inner: context_map }
    }

    /// The context of a process that exports no traces: it carries nothing.
    pub fn capture_current() -> (ctx: Self)
        ensures
            ctx.context() is None,
    {
        Self { inner: None }
    }

    /// The context for a carrier that a propagator has filled: an empty
    /// carrier gives a context that carries nothing.
    pub fn from_carrier(carrier: HashMap<String, String>) -> (ctx: Self)
        ensures
            ctx.context() == (if carrier@.len() == 0 {
                None
            } else {
                Some(carrier)
            }),
    {
        if carrier.is_empty() {
            Self { inner: None }
        } else {
            Self { inner: Some(carrier) }
        }
    }

    /// Whether the context carries a map.
    pub fn has_context(&self) -> (yes: bool)
        ensures
            yes == self.context() is Some,
    {
        self.inner.is_some()
    }

    /// Gives the carried map back.
    pub fn into_inner(self) -> (context_map: Option<HashMap<String, String>>)
        ensures
            context_map == self.context(),
    {
        self.inner
    }

    /// A span with this context as its parent. A name outside the known
    /// ones opens the span `span`.
    pub fn create_span(&self, span_name: &str) -> (span: Span)
        ensures
            span@ == SpanView::named(span_name_for(span_name@), self.context() is Some),
    {
        let child = self.inner.is_some();
        if str_eq(span_name, "user_message") {
            Span::named("user_message", child)
        } else if str_eq(span_name, "llm_request") {
            Span::named("llm_request", child)
        } else if str_eq(span_name, "assistant_msg") {
            Span::named("assistant_msg", child)
        } else if str_eq(span_name, "tool_call") {
            Span::named("tool_call", child)
        } else if str_eq(span_name, "exec_cmd") {
            Span::named("exec_cmd", child)
        } else if str_eq(span_name, "function_call_output") {
            Span::named("function_call_output", child)
        } else {
            Span::named("span", child)
        }
    }

    /// The span of a user message, with this context as its parent. For
    /// input without text the span is a bare `user_message` span, on which
    /// the placeholder content is recorded.
    pub fn create_user_message_span(&self, content: &str) -> (span: Span)
        ensures
            span@ == (if content@.len() == 0 {
                SpanView::named("user_message"@, self.context() is Some).record(
                    "content"@,
                    FieldValueView::Text("non-text-input"@),
                )
            } else {
                user_message_span(content@, self.context() is Some)
            }),
    {
        if content.is_empty() {
            let mut span = self.create_span("user_message");
            span.record("content", FieldValue::Text("non-text-input".to_string()));
            span
        } else {
            let mut span = Span::named("user_message", self.inner.is_some());
            span.declare("role", FieldValue::Text("user".to_string()));
            span.declare("content", FieldValue::Text(truncate_content(content)));
            span.declare("message_type", FieldValue::Text("user_input".to_string()));
            assert(span@.fields =~= user_message_span(content@, self.context() is Some).fields);
            span
        }
    }
}

} // verus!
