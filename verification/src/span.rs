//! The per-span record: classified at creation, rendered exactly once,
//! and holding that rendering unchanged for the span's entire lifetime.

use vstd::prelude::*;
use vstd::string::StringExecFns;

use crate::classify::{classify_span, spec_classify_span, spec_span_colors, SpanKind};
use crate::fields::{FieldsView, FmtFields};
use crate::style::{base_style, bold_style, paint, spec_base_style, spec_bold_style, styled_or_plain};
use crate::text::{dec_str, push_dec};

verus! {

/// The ghost state of a span record.
pub struct SpanView {
    pub id: u64,
    pub kind: SpanKind,
    pub name: Seq<char>,
    pub fields: FieldsView,
    pub rendering: Seq<char>,
}

/// The unstyled body of a span's rendering: `name[id]{fields}`, where the
/// identifier stretch may itself carry styling.
pub open spec fn span_body(name: Seq<char>, id_text: Seq<char>, fields: Seq<char>) -> Seq<char> {
    name + "["@ + id_text + "]{"@ + fields + "}"@
}

/// The span's cached rendering is its body styled in the base color of its
/// kind, with the decimal identifier inside styled in the bold color of
/// its kind.
pub open spec fn span_rendering_ok(s: SpanView) -> bool {
    exists|id_text: Seq<char>|
        #[trigger] styled_or_plain(
            id_text,
            dec_str(s.id as nat),
            spec_bold_style(spec_span_colors(s.kind).1),
        ) && styled_or_plain(
            s.rendering,
            span_body(s.name, id_text, s.fields.cached),
            spec_base_style(spec_span_colors(s.kind).0),
        )
}

/// A span named "runtime.spawn" classifies as the spawn kind whatever its
/// target, the spawn color pair differs from the unknown pair, and such a
/// span's cached rendering — reused verbatim in every scope prefix that
/// mentions it — is styled with the spawn pair.
pub proof fn lemma_spawn_rendering(s: SpanView, target: Seq<char>)
    requires
        s.kind == spec_classify_span("runtime.spawn"@, target),
        span_rendering_ok(s),
    ensures
        s.kind == SpanKind::Spawn,
        spec_span_colors(SpanKind::Spawn) != spec_span_colors(SpanKind::Unknown),
        exists|id_text: Seq<char>|
            #[trigger] styled_or_plain(
                id_text,
                dec_str(s.id as nat),
                spec_bold_style(spec_span_colors(SpanKind::Spawn).1),
            ) && styled_or_plain(
                s.rendering,
                span_body(s.name, id_text, s.fields.cached),
                spec_base_style(spec_span_colors(SpanKind::Spawn).0),
            ),
{
}

/// A span's cached record: its classification and a rendering produced at
/// creation from the fields' cached text, never recomputed.
pub struct FmtSpan {
    id: u64,
    kind: SpanKind,
    name: String,
    fields: FmtFields,
    formatted: String,
}

impl View for FmtSpan {
    type V = SpanView;

    closed spec fn view(&self) -> SpanView {
        SpanView {
            id: self.id,
            kind: self.kind,
            name: self.name@,
            fields: self.fields@,
            rendering: self.formatted@,
        }
    }
}

impl FmtSpan {
    /// Builds the record for a span: classifies it by name and target and
    /// renders it once from the fields' cached text.
    pub fn new(id: u64, name: &str, target: &str, fields: FmtFields) -> (r: Self)
        ensures
            r@.id == id,
            r@.kind == spec_classify_span(name@, target@),
            r@.name == name@,
            r@.fields == fields@,
            span_rendering_ok(r@),
    {
        let kind = classify_span(name, target);
        let mut span = Self { id, kind, name: name.to_owned(), fields, formatted: String::new() };
        span.format();
        span
    }

    /// Renders this record: the body `name[id]{fields}` from the fields'
    /// cached text, styled in the kind's color pair. Called once, at
    /// creation; the rendering is never recomputed afterwards.
    fn format(&mut self)
        ensures
            final(self)@.id == old(self)@.id,
            final(self)@.kind == old(self)@.kind,
            final(self)@.name == old(self)@.name,
            final(self)@.fields == old(self)@.fields,
            span_rendering_ok(final(self)@),
    {
        let (color, bold) = self.kind.get_colors();
        let mut id_plain = String::new();
        push_dec(&mut id_plain, self.id);
        let id_style = bold_style(bold);
        let id_text = paint(id_plain.as_str(), &id_style);
        let mut body = String::new();
        body.append(self.name.as_str());
        body.append("[");
        body.append(id_text.as_str());
        body.append("]{");
        body.append(self.fields.formatted());
        body.append("}");
        proof {
            assert(body@ =~= span_body(self.name@, id_text@, self.fields@.cached));
        }
        let body_style = base_style(color);
        self.formatted = paint(body.as_str(), &body_style);
        proof {
            assert(styled_or_plain(
                id_text@,
                dec_str(final(self)@.id as nat),
                spec_bold_style(spec_span_colors(final(self)@.kind).1),
            ));
        }
    }

    /// The cached rendering; pure, never recomputed.
    pub fn formatted(&self) -> (r: &str)
        ensures
            r@ == self@.rendering,
    {
        self.formatted.as_str()
    }

    /// The kind this span classified to at creation.
    pub fn kind(&self) -> (k: SpanKind)
        ensures
            k == self@.kind,
    {
        self.kind
    }
}

} // verus!
