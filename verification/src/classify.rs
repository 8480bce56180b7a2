//! Classification of spans and events into a closed kind enumeration, and
//! the fixed color pair attached to each kind.
//!
//! Classification is exact-match only: a name or target outside the fixed
//! tables maps to the unknown kind, never by prefix or substring.

use vstd::prelude::*;

use crate::style::Color;
use crate::text::str_eq;

verus! {

/// The kind of a span, fixed at creation.
#[derive(Clone, Copy, Debug, PartialEq, Eq, Structural)]
pub enum SpanKind {
    Unknown,
    Spawn,
    Resource,
    AsyncOp,
    AsyncOpPoll,
}

/// The kind of an event, computed per event; a lifecycle notification
/// about a span carries that span's own kind.
#[derive(Clone, Copy, Debug, PartialEq, Eq, Structural)]
pub enum EventKind {
    Unknown,
    Waker,
    PollOp,
    ResourceStateUpdate,
    AsyncOpUpdate,
    SpanEvent(SpanKind),
}

/// The kind a span of the given name and target classifies to.
pub open spec fn spec_classify_span(name: Seq<char>, target: Seq<char>) -> SpanKind {
    if name == "runtime.spawn"@ || (name == "task"@ && target == "tokio::task"@) {
        SpanKind::Spawn
    } else if name == "runtime.resource"@ {
        SpanKind::Resource
    } else if name == "runtime.resource.async_op"@ {
        SpanKind::AsyncOp
    } else if name == "runtime.resource.async_op.poll"@ {
        SpanKind::AsyncOpPoll
    } else {
        SpanKind::Unknown
    }
}

/// The kind an event of the given target classifies to.
pub open spec fn spec_classify_event(target: Seq<char>) -> EventKind {
    if target == "runtime::waker"@ || target == "tokio::task::waker"@ {
        EventKind::Waker
    } else if target == "runtime::resource::poll_op"@ {
        EventKind::PollOp
    } else if target == "runtime::resource::state_update"@ {
        EventKind::ResourceStateUpdate
    } else if target == "runtime::resource::async_op::state_update"@ {
        EventKind::AsyncOpUpdate
    } else {
        EventKind::Unknown
    }
}

/// The (base, bold) color pair of a span kind.
pub open spec fn spec_span_colors(kind: SpanKind) -> (Color, Color) {
    match kind {
        SpanKind::Spawn => (Color::Rgb(0x48, 0x9E, 0x6C), Color::Rgb(0x5A, 0xBA, 0x84)),
        SpanKind::Resource => (Color::Rgb(0xBA, 0x5A, 0x57), Color::Rgb(0xDF, 0x58, 0x53)),
        SpanKind::AsyncOp => (Color::Rgb(0x5C, 0x8D, 0xCE), Color::Rgb(0x50, 0x8E, 0xE3)),
        SpanKind::AsyncOpPoll => (Color::Rgb(0xE5, 0xE4, 0x4D), Color::Rgb(0xF5, 0xF4, 0x66)),
        SpanKind::Unknown => (Color::White, Color::White),
    }
}

/// The (base, bold) color pair of an event kind; a lifecycle notification
/// uses the color pair of the span it is about.
pub open spec fn spec_event_colors(kind: EventKind) -> (Color, Color) {
    match kind {
        EventKind::Waker => (Color::Rgb(0x9D, 0x4E, 0xDD), Color::Rgb(0xC7, 0x7D, 0xFF)),
        EventKind::PollOp => (Color::Rgb(0xFF, 0xBF, 0x69), Color::Rgb(0xFF, 0x9F, 0x1C)),
        EventKind::ResourceStateUpdate => (
            Color::Rgb(0xC9, 0x18, 0x4A),
            Color::Rgb(0xFF, 0x4D, 0x6D),
        ),
        EventKind::AsyncOpUpdate => (Color::Rgb(0x9C, 0xEA, 0xEF), Color::Rgb(0x68, 0xD8, 0xD6)),
        EventKind::Unknown => (Color::White, Color::White),
        EventKind::SpanEvent(span_kind) => spec_span_colors(span_kind),
    }
}

/// Classifies a span by exact match on its name and target.
pub fn classify_span(name: &str, target: &str) -> (kind: SpanKind)
    ensures
        kind == spec_classify_span(name@, target@),
{
    if str_eq(name, "runtime.spawn") || (str_eq(name, "task") && str_eq(target, "tokio::task")) {
        SpanKind::Spawn
    } else if str_eq(name, "runtime.resource") {
        SpanKind::Resource
    } else if str_eq(name, "runtime.resource.async_op") {
        SpanKind::AsyncOp
    } else if str_eq(name, "runtime.resource.async_op.poll") {
        SpanKind::AsyncOpPoll
    } else {
        SpanKind::Unknown
    }
}

/// Classifies an event by exact match on its target.
pub fn classify_event(target: &str) -> (kind: EventKind)
    ensures
        kind == spec_classify_event(target@),
{
    if str_eq(target, "runtime::waker") || str_eq(target, "tokio::task::waker") {
        EventKind::Waker
    } else if str_eq(target, "runtime::resource::poll_op") {
        EventKind::PollOp
    } else if str_eq(target, "runtime::resource::state_update") {
        EventKind::ResourceStateUpdate
    } else if str_eq(target, "runtime::resource::async_op::state_update") {
        EventKind::AsyncOpUpdate
    } else {
        EventKind::Unknown
    }
}

impl SpanKind {
    /// The (base, bold) color pair of this kind.
    pub fn get_colors(&self) -> (colors: (Color, Color))
        ensures
            colors == spec_span_colors(*self),
    {
        match self {
            SpanKind::Spawn => (Color::Rgb(0x48, 0x9E, 0x6C), Color::Rgb(0x5A, 0xBA, 0x84)),
            SpanKind::Resource => (Color::Rgb(0xBA, 0x5A, 0x57), Color::Rgb(0xDF, 0x58, 0x53)),
            SpanKind::AsyncOp => (Color::Rgb(0x5C, 0x8D, 0xCE), Color::Rgb(0x50, 0x8E, 0xE3)),
            SpanKind::AsyncOpPoll => (Color::Rgb(0xE5, 0xE4, 0x4D), Color::Rgb(0xF5, 0xF4, 0x66)),
            SpanKind::Unknown => (Color::White, Color::White),
        }
    }
}

impl EventKind {
    /// The (base, bold) color pair of this kind.
    pub fn get_colors(&self) -> (colors: (Color, Color))
        ensures
            colors == spec_event_colors(*self),
    {
        match self {
            EventKind::Waker => (Color::Rgb(0x9D, 0x4E, 0xDD), Color::Rgb(0xC7, 0x7D, 0xFF)),
            EventKind::PollOp => (Color::Rgb(0xFF, 0xBF, 0x69), Color::Rgb(0xFF, 0x9F, 0x1C)),
            EventKind::ResourceStateUpdate => (
                Color::Rgb(0xC9, 0x18, 0x4A),
                Color::Rgb(0xFF, 0x4D, 0x6D),
            ),
            EventKind::AsyncOpUpdate => (
                Color::Rgb(0x9C, 0xEA, 0xEF),
                Color::Rgb(0x68, 0xD8, 0xD6),
            ),
            EventKind::Unknown => (Color::White, Color::White),
            EventKind::SpanEvent(span_kind) => span_kind.get_colors(),
        }
    }
}

/// Any span name and target outside the fixed classification table map to
/// the unknown kind: classification does no prefix or substring matching.
pub proof fn lemma_classify_span_exact(name: Seq<char>, target: Seq<char>)
    requires
        name != "runtime.spawn"@,
        !(name == "task"@ && target == "tokio::task"@),
        name != "runtime.resource"@,
        name != "runtime.resource.async_op"@,
        name != "runtime.resource.async_op.poll"@,
    ensures
        spec_classify_span(name, target) == SpanKind::Unknown,
{
}

/// Any event target outside the fixed classification table maps to the
/// unknown kind: classification does no prefix or substring matching.
pub proof fn lemma_classify_event_exact(target: Seq<char>)
    requires
        target != "runtime::waker"@,
        target != "tokio::task::waker"@,
        target != "runtime::resource::poll_op"@,
        target != "runtime::resource::state_update"@,
        target != "runtime::resource::async_op::state_update"@,
    ensures
        spec_classify_event(target) == EventKind::Unknown,
{
}

} // verus!
