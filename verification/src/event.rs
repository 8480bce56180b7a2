//! The per-event record and the assembly of one output line: timestamp,
//! five-character level token, scope prefix, and a body that is either a
//! target-and-fields pair (ordinary event) or a lifecycle message.

use vstd::prelude::*;
use vstd::string::StringExecFns;

use crate::classify::{classify_event, spec_classify_event, spec_span_colors, EventKind, SpanKind};
use crate::fields::{rendered_fields, FieldsView, FmtFields};
use crate::span::FmtSpan;
use crate::style::{
    base_style, bold_style, dimmed_style, message_style, paint, spec_base_style, spec_bold_style,
    spec_dimmed, spec_message_style, spec_white_bold, styled_or_plain, white_bold_style,
};
use crate::text::{pad2, pad4, pad6, push_pad2, push_pad4, push_pad6};

verus! {

/// A point in civil time, already broken into the components the fixed
/// output layout renders.
#[derive(Clone, Copy)]
pub struct Timestamp {
    pub year: u16,
    pub month: u8,
    pub day: u8,
    pub hour: u8,
    pub minute: u8,
    pub second: u8,
    pub micros: u32,
}

impl Timestamp {
    /// The components fit the fixed four-, two- and six-digit layout.
    pub open spec fn wf(self) -> bool {
        &&& self.year <= 9999
        &&& 1 <= self.month <= 12
        &&& 1 <= self.day <= 31
        &&& self.hour <= 23
        &&& self.minute <= 59
        &&& self.second <= 59
        &&& self.micros <= 999999
    }
}

/// The date segment: four-digit year, two-digit month and day, dashed.
pub open spec fn date_text(t: Timestamp) -> Seq<char> {
    pad4(t.year as nat) + "-"@ + pad2(t.month as nat) + "-"@ + pad2(t.day as nat)
}

/// The time segment: two-digit hour, minute and second, with colons.
pub open spec fn time_text(t: Timestamp) -> Seq<char> {
    pad2(t.hour as nat) + ":"@ + pad2(t.minute as nat) + ":"@ + pad2(t.second as nat)
}

/// The rendered timestamp: date and time segments each in bold white, the
/// literal `T` between them, a dot, the six-digit fraction and a literal
/// `Z`, the whole dimmed.
pub open spec fn timestamp_ok(r: Seq<char>, t: Timestamp) -> bool {
    exists|date_r: Seq<char>, time_r: Seq<char>|
        #[trigger] styled_or_plain(date_r, date_text(t), spec_white_bold())
            && #[trigger] styled_or_plain(time_r, time_text(t), spec_white_bold())
            && styled_or_plain(
            r,
            date_r + "T"@ + time_r + "."@ + pad6(t.micros as nat) + "Z"@,
            spec_dimmed(),
        )
}

/// Renders a timestamp in the fixed layout.
pub fn format_timestamp(t: &Timestamp) -> (r: String)
    requires
        t.wf(),
    ensures
        timestamp_ok(r@, *t),
{
    let segment_style = white_bold_style();
    let mut date_plain = String::new();
    push_pad4(&mut date_plain, t.year as u64);
    date_plain.append("-");
    push_pad2(&mut date_plain, t.month as u64);
    date_plain.append("-");
    push_pad2(&mut date_plain, t.day as u64);
    proof {
        assert(date_plain@ =~= date_text(*t));
    }
    let date_r = paint(date_plain.as_str(), &segment_style);
    let mut time_plain = String::new();
    push_pad2(&mut time_plain, t.hour as u64);
    time_plain.append(":");
    push_pad2(&mut time_plain, t.minute as u64);
    time_plain.append(":");
    push_pad2(&mut time_plain, t.second as u64);
    proof {
        assert(time_plain@ =~= time_text(*t));
    }
    let time_r = paint(time_plain.as_str(), &segment_style);
    let mut whole = String::new();
    whole.append(date_r.as_str());
    whole.append("T");
    whole.append(time_r.as_str());
    whole.append(".");
    push_pad6(&mut whole, t.micros as u64);
    whole.append("Z");
    proof {
        assert(whole@ =~= date_r@ + "T"@ + time_r@ + "."@ + pad6(t.micros as nat) + "Z"@);
    }
    let whole_style = dimmed_style();
    let r = paint(whole.as_str(), &whole_style);
    proof {
        assert(styled_or_plain(date_r@, date_text(*t), spec_white_bold()));
        assert(styled_or_plain(time_r@, time_text(*t), spec_white_bold()));
    }
    r
}

/// The severity of an event.
#[derive(Clone, Copy, Debug, PartialEq, Eq, Structural)]
pub enum Level {
    Trace,
    Debug,
    Info,
    Warn,
    Error,
}

/// The fixed five-character token of a level.
pub open spec fn level_text(level: Level) -> Seq<char> {
    match level {
        Level::Trace => "TRACE"@,
        Level::Debug => "DEBUG"@,
        Level::Info => " INFO"@,
        Level::Warn => " WARN"@,
        Level::Error => "ERROR"@,
    }
}

/// The fixed color of a level token, independent of the event's kind.
pub open spec fn spec_level_color(level: Level) -> crate::style::Color {
    match level {
        Level::Trace => crate::style::Color::Rgb(0x9D, 0x4E, 0xDD),
        Level::Debug => crate::style::Color::Rgb(0x5C, 0x8D, 0xCE),
        Level::Info => crate::style::Color::Rgb(0x48, 0x9E, 0x6C),
        Level::Warn => crate::style::Color::Rgb(0xE5, 0xE4, 0x4D),
        Level::Error => crate::style::Color::Rgb(0xBA, 0x5A, 0x57),
    }
}

/// Renders a level's five-character token in the level's own color.
pub fn format_level(level: Level) -> (r: String)
    ensures
        styled_or_plain(r@, level_text(level), spec_base_style(spec_level_color(level))),
{
    let st = base_style(match level {
        Level::Trace => crate::style::Color::Rgb(0x9D, 0x4E, 0xDD),
        Level::Debug => crate::style::Color::Rgb(0x5C, 0x8D, 0xCE),
        Level::Info => crate::style::Color::Rgb(0x48, 0x9E, 0x6C),
        Level::Warn => crate::style::Color::Rgb(0xE5, 0xE4, 0x4D),
        Level::Error => crate::style::Color::Rgb(0xBA, 0x5A, 0x57),
    });
    match level {
        Level::Trace => paint("TRACE", &st),
        Level::Debug => paint("DEBUG", &st),
        Level::Info => paint(" INFO", &st),
        Level::Warn => paint(" WARN", &st),
        Level::Error => paint("ERROR", &st),
    }
}

/// The ghost state of an event record.
pub struct EventView {
    pub timestamp: Timestamp,
    pub kind: EventKind,
    pub level: Level,
    pub target: Seq<char>,
    pub scope: Seq<char>,
    pub fields: FieldsView,
}

/// The body of a line after the scope prefix. For a lifecycle notification
/// it is the message styled bold and underlined in the bold color of the
/// notified span's kind; for an ordinary event it is the target styled
/// bold in the kind's bold color, a colon and space, and the rendered
/// fields in the kind's base color.
pub open spec fn tail_ok(tail: Seq<char>, e: EventView) -> bool {
    match e.kind {
        EventKind::SpanEvent(span_kind) => styled_or_plain(
            tail,
            rendered_fields(e.fields.entries, e.fields.seed_message),
            spec_message_style(spec_span_colors(span_kind).1),
        ),
        _ => exists|target_r: Seq<char>, fields_r: Seq<char>|
            #[trigger] styled_or_plain(
                target_r,
                e.target,
                spec_bold_style(crate::classify::spec_event_colors(e.kind).1),
            ) && #[trigger] styled_or_plain(
                fields_r,
                rendered_fields(e.fields.entries, e.fields.seed_message),
                spec_base_style(crate::classify::spec_event_colors(e.kind).0),
            ) && tail == target_r + ": "@ + fields_r,
    }
}

/// The full line: rendered timestamp, one space, the styled level token,
/// one space, the scope prefix, and the body.
pub open spec fn event_line_ok(r: Seq<char>, e: EventView) -> bool {
    exists|ts_r: Seq<char>, level_r: Seq<char>, tail: Seq<char>|
        #[trigger] timestamp_ok(ts_r, e.timestamp)
            && #[trigger] styled_or_plain(
            level_r,
            level_text(e.level),
            spec_base_style(spec_level_color(e.level)),
        )
            && #[trigger] tail_ok(tail, e)
            && r == ts_r + " "@ + level_r + " "@ + e.scope + tail
}

/// A finished lifecycle line: rendered timestamp, level token, scope
/// prefix, and the message styled bold and underlined in the bold color of
/// the notified span's kind.
pub open spec fn lifecycle_line_ok(
    r: Seq<char>,
    ts: Timestamp,
    level: Level,
    scope: Seq<char>,
    message: Seq<char>,
    kind: SpanKind,
) -> bool {
    exists|ts_r: Seq<char>, level_r: Seq<char>, tail: Seq<char>|
        #[trigger] timestamp_ok(ts_r, ts)
            && #[trigger] styled_or_plain(
            level_r,
            level_text(level),
            spec_base_style(spec_level_color(level)),
        )
            && #[trigger] styled_or_plain(tail, message, spec_message_style(spec_span_colors(kind).1))
            && r == ts_r + " "@ + level_r + " "@ + scope + tail
}

/// A line assembled for a lifecycle notification is a lifecycle line for
/// the notified span's kind and the rendered message.
pub proof fn lemma_lifecycle_line(r: Seq<char>, e: EventView, kind: SpanKind, message: Seq<char>)
    requires
        event_line_ok(r, e),
        e.kind == EventKind::SpanEvent(kind),
        rendered_fields(e.fields.entries, e.fields.seed_message) == message,
    ensures
        lifecycle_line_ok(r, e.timestamp, e.level, e.scope, message, kind),
{
    let (ts_r, level_r, tail) = choose|ts_r: Seq<char>, level_r: Seq<char>, tail: Seq<char>|
        #[trigger] timestamp_ok(ts_r, e.timestamp)
            && #[trigger] styled_or_plain(
            level_r,
            level_text(e.level),
            spec_base_style(spec_level_color(e.level)),
        )
            && #[trigger] tail_ok(tail, e)
            && r == ts_r + " "@ + level_r + " "@ + e.scope + tail;
    assert(styled_or_plain(tail, message, spec_message_style(spec_span_colors(kind).1)));
}

/// An ephemeral event record, discarded after its line is emitted.
pub struct FmtEvent {
    timestamp: Timestamp,
    kind: EventKind,
    level: Level,
    target: String,
    scope: String,
    fields: FmtFields,
}

impl View for FmtEvent {
    type V = EventView;

    closed spec fn view(&self) -> EventView {
        EventView {
            timestamp: self.timestamp,
            kind: self.kind,
            level: self.level,
            target: self.target@,
            scope: self.scope@,
            fields: self.fields@,
        }
    }
}

impl FmtEvent {
    /// The timestamp fits the layout and the cached fields rendering is
    /// trustworthy.
    pub open spec fn wf(self) -> bool {
        &&& self@.timestamp.wf()
        &&& self@.fields.wf()
    }

    /// Builds the record for an ordinary event; its kind is classified
    /// from the target.
    pub fn new(
        timestamp: Timestamp,
        level: Level,
        target: String,
        scope: String,
        fields: FmtFields,
    ) -> (r: Self)
        requires
            timestamp.wf(),
            fields.wf(),
        ensures
            r.wf(),
            r@.timestamp == timestamp,
            r@.kind == spec_classify_event(target@),
            r@.level == level,
            r@.target == target@,
            r@.scope == scope@,
            r@.fields == fields@,
    {
        let kind = classify_event(target.as_str());
        Self { timestamp, kind, level, target, scope, fields }
    }

    /// Builds the record for a lifecycle notification about a span; the
    /// kind is the span's own, and the fields hold only the message.
    pub fn new_span_event(
        timestamp: Timestamp,
        span: &FmtSpan,
        level: Level,
        scope: String,
        message: String,
    ) -> (r: Self)
        requires
            timestamp.wf(),
        ensures
            r.wf(),
            r@.timestamp == timestamp,
            r@.kind == EventKind::SpanEvent(span@.kind),
            r@.level == level,
            r@.scope == scope@,
            r@.fields.entries == Seq::<(Seq<char>, Seq<char>)>::empty(),
            r@.fields.seed_message == Some(message@),
    {
        let kind = EventKind::SpanEvent(span.kind());
        Self {
            timestamp,
            kind,
            level,
            target: String::new(),
            scope,
            fields: FmtFields::new_message(message),
        }
    }

    /// Assembles the output line for this record, bringing the fields'
    /// rendering up to date first.
    pub fn formatted(&mut self) -> (r: String)
        requires
            old(self).wf(),
        ensures
            final(self).wf(),
            final(self)@.timestamp == old(self)@.timestamp,
            final(self)@.kind == old(self)@.kind,
            final(self)@.level == old(self)@.level,
            final(self)@.target == old(self)@.target,
            final(self)@.scope == old(self)@.scope,
            final(self)@.fields.entries == old(self)@.fields.entries,
            final(self)@.fields.seed_message == old(self)@.fields.seed_message,
            event_line_ok(r@, old(self)@),
    {
        let (color, bold) = self.kind.get_colors();
        let ts_r = format_timestamp(&self.timestamp);
        let level_r = format_level(self.level);
        let mut line = String::new();
        line.append(ts_r.as_str());
        line.append(" ");
        line.append(level_r.as_str());
        line.append(" ");
        line.append(self.scope.as_str());
        let is_lifecycle = match self.kind {
            EventKind::SpanEvent(_) => true,
            _ => false,
        };
        if is_lifecycle {
            let st = message_style(bold);
            let fields_text = self.fields.formatted_updated();
            let tail = paint(fields_text, &st);
            line.append(tail.as_str());
            proof {
                assert(tail_ok(tail@, old(self)@));
                assert(line@ =~= ts_r@ + " "@ + level_r@ + " "@ + old(self)@.scope + tail@);
            }
        } else {
            let target_style = bold_style(bold);
            let target_r = paint(self.target.as_str(), &target_style);
            let fields_style = base_style(color);
            let fields_text = self.fields.formatted_updated();
            let fields_r = paint(fields_text, &fields_style);
            let mut tail = target_r;
            tail.append(": ");
            tail.append(fields_r.as_str());
            line.append(tail.as_str());
            proof {
                assert(styled_or_plain(
                    target_r@,
                    old(self)@.target,
                    spec_bold_style(crate::classify::spec_event_colors(old(self)@.kind).1),
                ));
                assert(styled_or_plain(
                    fields_r@,
                    rendered_fields(old(self)@.fields.entries, old(self)@.fields.seed_message),
                    spec_base_style(crate::classify::spec_event_colors(old(self)@.kind).0),
                ));
                assert(tail@ =~= target_r@ + ": "@ + fields_r@);
                assert(tail_ok(tail@, old(self)@));
                assert(line@ =~= ts_r@ + " "@ + level_r@ + " "@ + old(self)@.scope + tail@);
            }
        }
        line
    }
}

} // verus!
