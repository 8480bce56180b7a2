//! The formatting layer: a registry mapping span identifiers to their
//! cached records, scope-chain rendering, and the handlers that turn span
//! lifecycle callbacks and events into finished output lines.
//!
//! A callback that references an identifier absent from the registry, or a
//! scope chain with an unrecorded ancestor, is a violated collaborator
//! guarantee; the handlers exclude those inputs outright rather than
//! surfacing a recoverable error.

use vstd::hash_map::HashMapWithView;
use vstd::prelude::*;
use vstd::string::StringExecFns;

use crate::event::{
    event_line_ok, lemma_lifecycle_line, lifecycle_line_ok, EventView, FmtEvent, Level, Timestamp,
};
use crate::classify::spec_classify_span;
use crate::fields::{rendered_fields, FmtFields};
use crate::span::{span_rendering_ok, FmtSpan};

verus! {

/// The concatenated scope prefix of a chain of span identifiers, root
/// first: each recorded rendering followed by exactly one space; the empty
/// chain renders as the empty string.
pub open spec fn scope_text(m: Map<u64, FmtSpan>, ids: Seq<u64>) -> Seq<char>
    decreases ids.len(),
{
    if ids.len() == 0 {
        Seq::empty()
    } else {
        scope_text(m, ids.drop_last()) + m[ids.last()]@.rendering + " "@
    }
}

/// The scope prefix of the empty chain is the empty string.
pub proof fn lemma_scope_text_empty(m: Map<u64, FmtSpan>)
    ensures
        scope_text(m, Seq::<u64>::empty()) == Seq::<char>::empty(),
{
}

/// The scope prefix of a chain is built root-first, one entry at a time:
/// extending the chain by its next identifier appends exactly that span's
/// cached rendering and one space.
pub proof fn lemma_scope_text_step(m: Map<u64, FmtSpan>, ids: Seq<u64>, j: int)
    requires
        0 <= j < ids.len(),
    ensures
        scope_text(m, ids.take(j + 1)) == scope_text(m, ids.take(j)) + m[ids[j]]@.rendering
            + " "@,
{
    assert(ids.take(j + 1).drop_last() =~= ids.take(j));
    assert(ids.take(j + 1).last() == ids[j]);
}

/// The formatting layer: owns the registry of cached span records.
pub struct Layer {
    spans: HashMapWithView<u64, FmtSpan>,
}

impl View for Layer {
    type V = Map<u64, FmtSpan>;

    closed spec fn view(&self) -> Map<u64, FmtSpan> {
        self.spans@
    }
}

/// Creates a new `Layer`.
pub fn layer() -> (r: Layer)
    ensures
        r@ == Map::<u64, FmtSpan>::empty(),
        r.wf(),
{
    Layer::new()
}

impl Layer {
    /// Every recorded span holds a rendering produced at its creation in
    /// its own kind's colors.
    pub open spec fn wf(self) -> bool {
        forall|id: u64| #[trigger] self@.contains_key(id) ==> span_rendering_ok(self@[id]@)
    }

    /// Creates a new `Layer` with an empty registry.
    pub fn new() -> (r: Self)
        ensures
            r@ == Map::<u64, FmtSpan>::empty(),
            r.wf(),
    {
        broadcast use vstd::std_specs::hash::axiom_u64_obeys_hash_table_key_model;

        Self { spans: HashMapWithView::new() }
    }

    /// Whether a span record is registered under this identifier.
    pub fn contains(&self, id: u64) -> (r: bool)
        ensures
            r == self@.contains_key(id),
    {
        self.spans.contains_key(&id)
    }

    /// Renders the scope prefix of a root-first chain of recorded spans:
    /// each cached rendering followed by exactly one space.
    pub fn formatted_scope(&self, scope_ids: &Vec<u64>) -> (r: String)
        requires
            forall|j: int| 0 <= j < scope_ids@.len() ==> self@.contains_key(scope_ids@[j]),
        ensures
            r@ == scope_text(self@, scope_ids@),
    {
        let mut out = String::new();
        proof {
            assert(scope_ids@.take(0) =~= Seq::<u64>::empty());
        }
        let n = scope_ids.len();
        for i in 0..n
            invariant
                n == scope_ids.len(),
                forall|j: int| 0 <= j < scope_ids@.len() ==> self@.contains_key(scope_ids@[j]),
                out@ == scope_text(self@, scope_ids@.take(i as int)),
        {
            proof {
                assert(scope_ids@.take(i + 1).drop_last() =~= scope_ids@.take(i as int));
                assert(scope_ids@.take(i + 1).last() == scope_ids@[i as int]);
            }
            let id = scope_ids[i];
            let record = self.spans.get(&id).unwrap();
            out.append(record.formatted());
            out.append(" ");
            assert(out@ =~= scope_text(self@, scope_ids@.take(i + 1)));
        }
        proof {
            assert(scope_ids@.take(n as int) =~= scope_ids@);
        }
        out
    }

    /// Synthesizes and renders the lifecycle line for a recorded span: the
    /// scope prefix of the given chain followed by the message in the
    /// span's own colors.
    pub fn span_event(
        &self,
        ts: Timestamp,
        id: u64,
        level: Level,
        message: String,
        scope_ids: &Vec<u64>,
    ) -> (r: String)
        requires
            ts.wf(),
            self@.contains_key(id),
            forall|j: int| 0 <= j < scope_ids@.len() ==> self@.contains_key(scope_ids@[j]),
        ensures
            lifecycle_line_ok(
                r@,
                ts,
                level,
                scope_text(self@, scope_ids@),
                message@,
                self@[id]@.kind,
            ),
    {
        let ghost message_v = message@;
        let scope = self.formatted_scope(scope_ids);
        let record = self.spans.get(&id).unwrap();
        let event = FmtEvent::new_span_event(ts, record, level, scope, message);
        let ghost ev0 = event@;
        let mut event = event;
        let line = event.formatted();
        proof {
            lemma_lifecycle_line(line@, ev0, self@[id]@.kind, message_v);
        }
        line
    }

    /// Handles a span-creation callback: builds and registers the span's
    /// record exactly once — a second creation callback for an already
    /// recorded identifier leaves the registry untouched — then emits the
    /// "new" lifecycle line. The scope chain includes the span itself at
    /// its deepest position.
    pub fn on_new_span(
        &mut self,
        ts: Timestamp,
        id: u64,
        name: &str,
        target: &str,
        level: Level,
        fields: FmtFields,
        scope_ids: &Vec<u64>,
    ) -> (r: String)
        requires
            ts.wf(),
            old(self).wf(),
            forall|j: int|
                0 <= j < scope_ids@.len() ==> scope_ids@[j] == id || old(self)@.contains_key(
                    scope_ids@[j],
                ),
        ensures
            final(self).wf(),
            old(self)@.contains_key(id) ==> final(self)@ == old(self)@,
            !old(self)@.contains_key(id) ==> {
                &&& final(self)@ == old(self)@.insert(id, final(self)@[id])
                &&& final(self)@[id]@.id == id
                &&& final(self)@[id]@.kind == spec_classify_span(name@, target@)
                &&& final(self)@[id]@.name == name@
                &&& final(self)@[id]@.fields.entries == fields@.entries
                &&& final(self)@[id]@.fields.seed_message == fields@.seed_message
                &&& final(self)@[id]@.fields.cached == rendered_fields(
                    fields@.entries,
                    fields@.seed_message,
                )
            },
            lifecycle_line_ok(
                r@,
                ts,
                level,
                scope_text(final(self)@, scope_ids@),
                "new"@,
                final(self)@[id]@.kind,
            ),
    {
        if !self.spans.contains_key(&id) {
            let mut span_fields = fields;
            span_fields.format();
            let record = FmtSpan::new(id, name, target, span_fields);
            self.spans.insert(id, record);
            proof {
                assert forall|j: u64| #[trigger] self@.contains_key(j) implies span_rendering_ok(
                    self@[j]@,
                ) by {
                    if j != id {
                        assert(old(self)@.contains_key(j));
                    }
                }
            }
        }
        self.span_event(ts, id, level, String::from_str("new"), scope_ids)
    }

    /// Handles an event callback: renders the scope prefix of the given
    /// root-first chain and assembles the event's line.
    pub fn on_event(
        &self,
        ts: Timestamp,
        level: Level,
        target: String,
        fields: FmtFields,
        scope_ids: &Vec<u64>,
    ) -> (r: String)
        requires
            ts.wf(),
            fields.wf(),
            forall|j: int| 0 <= j < scope_ids@.len() ==> self@.contains_key(scope_ids@[j]),
        ensures
            event_line_ok(
                r@,
                (EventView {
                    timestamp: ts,
                    kind: crate::classify::spec_classify_event(target@),
                    level,
                    target: target@,
                    scope: scope_text(self@, scope_ids@),
                    fields: fields@,
                }),
            ),
    {
        let scope = self.formatted_scope(scope_ids);
        let event = FmtEvent::new(ts, level, target, scope, fields);
        let ghost ev0 = event@;
        let mut event = event;
        let line = event.formatted();
        proof {
            assert(ev0 == (EventView {
                timestamp: ts,
                kind: crate::classify::spec_classify_event(ev0.target),
                level,
                target: ev0.target,
                scope: scope_text(self@, scope_ids@),
                fields: ev0.fields,
            }));
        }
        line
    }

    /// Handles a span-enter callback: emits the "enter" lifecycle line.
    pub fn on_enter(&self, ts: Timestamp, id: u64, level: Level, scope_ids: &Vec<u64>) -> (r:
        String)
        requires
            ts.wf(),
            self@.contains_key(id),
            forall|j: int| 0 <= j < scope_ids@.len() ==> self@.contains_key(scope_ids@[j]),
        ensures
            lifecycle_line_ok(
                r@,
                ts,
                level,
                scope_text(self@, scope_ids@),
                "enter"@,
                self@[id]@.kind,
            ),
    {
        self.span_event(ts, id, level, String::from_str("enter"), scope_ids)
    }

    /// Handles a span-exit callback: emits the "exit" lifecycle line.
    pub fn on_exit(&self, ts: Timestamp, id: u64, level: Level, scope_ids: &Vec<u64>) -> (r:
        String)
        requires
            ts.wf(),
            self@.contains_key(id),
            forall|j: int| 0 <= j < scope_ids@.len() ==> self@.contains_key(scope_ids@[j]),
        ensures
            lifecycle_line_ok(
                r@,
                ts,
                level,
                scope_text(self@, scope_ids@),
                "exit"@,
                self@[id]@.kind,
            ),
    {
        self.span_event(ts, id, level, String::from_str("exit"), scope_ids)
    }

    /// Handles a span-close callback: emits the "close" lifecycle line.
    pub fn on_close(&self, ts: Timestamp, id: u64, level: Level, scope_ids: &Vec<u64>) -> (r:
        String)
        requires
            ts.wf(),
            self@.contains_key(id),
            forall|j: int| 0 <= j < scope_ids@.len() ==> self@.contains_key(scope_ids@[j]),
        ensures
            lifecycle_line_ok(
                r@,
                ts,
                level,
                scope_text(self@, scope_ids@),
                "close"@,
                self@[id]@.kind,
            ),
    {
        self.span_event(ts, id, level, String::from_str("close"), scope_ids)
    }
}

impl Default for Layer {
    /// Creates a new `Layer` with an empty registry.
    fn default() -> (r: Self)
        ensures
            r@ == Map::<u64, FmtSpan>::empty(),
            r.wf(),
    {
        Self::new()
    }
}

} // verus!
