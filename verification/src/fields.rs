//! The field recorder: an ordered sequence of name/value pairs with a
//! memoized joined rendering.
//!
//! A field named "message" is excluded from the normal `name=value`
//! rendering; instead its most recent value becomes a distinguished
//! trailing segment, preceded by a single space whenever any other field
//! was emitted.

use vstd::prelude::*;
use vstd::string::StringExecFns;

use crate::text::str_eq;

verus! {

/// The ghost state of a field recorder: the recorded pairs, the message a
/// recorder may have been seeded with, the dirty flag, and the cached
/// rendering.
pub struct FieldsView {
    pub entries: Seq<(Seq<char>, Seq<char>)>,
    pub seed_message: Option<Seq<char>>,
    pub dirty: bool,
    pub cached: Seq<char>,
}

impl FieldsView {
    /// The cached rendering agrees with the recorded pairs whenever the
    /// recorder is not dirty.
    pub open spec fn wf(self) -> bool {
        !self.dirty ==> self.cached == rendered_fields(self.entries, self.seed_message)
    }
}

/// The `name=value` rendering of one pair.
pub open spec fn entry_text(e: (Seq<char>, Seq<char>)) -> Seq<char> {
    e.0 + "="@ + e.1
}

/// The pairs not named "message", rendered `name=value` in insertion order
/// and joined with ", ".
pub open spec fn joined_text(entries: Seq<(Seq<char>, Seq<char>)>) -> Seq<char>
    decreases entries.len(),
{
    if entries.len() == 0 {
        Seq::empty()
    } else {
        let prefix = joined_text(entries.drop_last());
        let e = entries.last();
        if e.0 == "message"@ {
            prefix
        } else if prefix.len() == 0 {
            entry_text(e)
        } else {
            prefix + ", "@ + entry_text(e)
        }
    }
}

/// The value of the last pair named "message", if any; otherwise the seed
/// message.
pub open spec fn last_message(
    entries: Seq<(Seq<char>, Seq<char>)>,
    seed: Option<Seq<char>>,
) -> Option<Seq<char>>
    decreases entries.len(),
{
    if entries.len() == 0 {
        seed
    } else if entries.last().0 == "message"@ {
        Some(entries.last().1)
    } else {
        last_message(entries.drop_last(), seed)
    }
}

/// The full rendering: the joined pairs, with the message (if one is set)
/// appended after a single separating space when any pair was emitted, or
/// standing alone otherwise.
pub open spec fn rendered_fields(
    entries: Seq<(Seq<char>, Seq<char>)>,
    seed: Option<Seq<char>>,
) -> Seq<char> {
    let j = joined_text(entries);
    match last_message(entries, seed) {
        None => j,
        Some(m) => if j.len() == 0 {
            m
        } else {
            j + " "@ + m
        },
    }
}

/// Every recorded pair rendered `name=value` in insertion order and joined
/// with ", ", with no pair excluded.
pub open spec fn all_joined_text(entries: Seq<(Seq<char>, Seq<char>)>) -> Seq<char>
    decreases entries.len(),
{
    if entries.len() == 0 {
        Seq::empty()
    } else if entries.len() == 1 {
        entry_text(entries.last())
    } else {
        all_joined_text(entries.drop_last()) + ", "@ + entry_text(entries.last())
    }
}

/// For a recorder holding no pair named "message" and no seed message, the
/// rendering is exactly the pairs joined as `name=value` in insertion
/// order, separated by ", ".
pub proof fn lemma_rendered_no_message(entries: Seq<(Seq<char>, Seq<char>)>)
    requires
        forall|i: int| 0 <= i < entries.len() ==> (#[trigger] entries[i]).0 != "message"@,
    ensures
        last_message(entries, None) is None,
        rendered_fields(entries, None) == all_joined_text(entries),
    decreases entries.len(),
{
    reveal_strlit("=");
    if entries.len() == 0 {
    } else {
        assert(entries.last() == entries[entries.len() - 1]);
        assert(forall|i: int|
            0 <= i < entries.drop_last().len() ==> (#[trigger] entries.drop_last()[i]).0
                != "message"@);
        lemma_rendered_no_message(entries.drop_last());
        assert(entry_text(entries.last()).len() > 0);
        if entries.len() > 1 {
            assert(joined_text(entries.drop_last()) == all_joined_text(entries.drop_last()));
            lemma_all_joined_text_nonempty(entries.drop_last());
        }
    }
}

/// The unskipped join of a nonempty pair sequence is nonempty: every pair
/// contributes at least its `=` sign.
pub proof fn lemma_all_joined_text_nonempty(entries: Seq<(Seq<char>, Seq<char>)>)
    requires
        entries.len() > 0,
    ensures
        all_joined_text(entries).len() > 0,
    decreases entries.len(),
{
    reveal_strlit("=");
    if entries.len() > 1 {
        lemma_all_joined_text_nonempty(entries.drop_last());
    }
}

/// A pair named "message" is never rendered as `message=value`: the
/// rendering is the join of the other pairs, with the value of the last
/// "message" pair appended at the end, preceded by one space exactly when
/// any other pair was emitted.
pub proof fn lemma_message_last_wins(
    entries: Seq<(Seq<char>, Seq<char>)>,
    seed: Option<Seq<char>>,
    i: int,
)
    requires
        0 <= i < entries.len(),
        entries[i].0 == "message"@,
        forall|j: int| i < j < entries.len() ==> (#[trigger] entries[j]).0 != "message"@,
    ensures
        last_message(entries, seed) == Some(entries[i].1),
        rendered_fields(entries, seed) == if joined_text(entries).len() == 0 {
            entries[i].1
        } else {
            joined_text(entries) + " "@ + entries[i].1
        },
    decreases entries.len(),
{
    if i == entries.len() - 1 {
    } else {
        lemma_message_last_wins(entries.drop_last(), seed, i);
    }
}

/// Accumulates ordered name/value pairs and memoizes their joined textual
/// rendering.
pub struct FmtFields {
    entries: Vec<(String, String)>,
    seed_message: Option<String>,
    dirty: bool,
    formatted: String,
}

impl View for FmtFields {
    type V = FieldsView;

    closed spec fn view(&self) -> FieldsView {
        FieldsView {
            entries: Seq::new(
                self.entries@.len(),
                |i: int| (self.entries@[i].0@, self.entries@[i].1@),
            ),
            seed_message: match self.seed_message {
                Some(m) => Some(m@),
                None => None,
            },
            dirty: self.dirty,
            cached: self.formatted@,
        }
    }
}

impl FmtFields {
    /// The cached rendering agrees with the recorded pairs whenever the
    /// recorder is not dirty.
    pub open spec fn wf(self) -> bool {
        self@.wf()
    }

    /// A fresh recorder for an event's fields.
    pub fn new_event() -> (r: Self)
        ensures
            r.wf(),
            r@.entries == Seq::<(Seq<char>, Seq<char>)>::empty(),
            r@.seed_message is None,
            !r@.dirty,
    {
        let r = Self { entries: Vec::new(), seed_message: None, dirty: false, formatted: String::new() };
        proof {
            assert(r@.entries =~= Seq::<(Seq<char>, Seq<char>)>::empty());
        }
        r
    }

    /// A fresh recorder for a span's fields.
    pub fn new_span() -> (r: Self)
        ensures
            r.wf(),
            r@.entries == Seq::<(Seq<char>, Seq<char>)>::empty(),
            r@.seed_message is None,
            !r@.dirty,
    {
        let r = Self { entries: Vec::new(), seed_message: None, dirty: false, formatted: String::new() };
        proof {
            assert(r@.entries =~= Seq::<(Seq<char>, Seq<char>)>::empty());
        }
        r
    }

    /// A recorder pre-populated with a single message and nothing else,
    /// used to synthesize span lifecycle notifications.
    pub fn new_message(message: String) -> (r: Self)
        ensures
            r.wf(),
            r@.entries == Seq::<(Seq<char>, Seq<char>)>::empty(),
            r@.seed_message == Some(message@),
            !r@.dirty,
            r@.cached == message@,
    {
        let mut r = Self {
            entries: Vec::new(),
            seed_message: Some(message),
            dirty: true,
            formatted: String::new(),
        };
        r.format();
        proof {
            assert(r@.entries =~= Seq::<(Seq<char>, Seq<char>)>::empty());
        }
        r
    }

    /// Appends one name/value pair and marks the rendering stale; the
    /// cached rendering itself is left untouched until the next
    /// recomputation.
    pub fn record(&mut self, name: String, value: String)
        ensures
            final(self)@.entries == old(self)@.entries.push((name@, value@)),
            final(self)@.seed_message == old(self)@.seed_message,
            final(self)@.cached == old(self)@.cached,
            final(self)@.dirty,
    {
        self.entries.push((name, value));
        self.dirty = true;
        proof {
            assert(final(self)@.entries =~= old(self)@.entries.push((name@, value@)));
        }
    }

    /// Returns the last-computed rendering, without recomputation.
    pub fn formatted(&self) -> (r: &str)
        ensures
            r@ == self@.cached,
    {
        self.formatted.as_str()
    }

    /// Returns the rendering, recomputing it first only if a pair was
    /// recorded since the last computation: with no intervening `record`,
    /// a second call performs no recomputation and leaves the recorder
    /// exactly as it was.
    pub fn formatted_updated(&mut self) -> (r: &str)
        requires
            old(self).wf(),
        ensures
            final(self).wf(),
            r@ == rendered_fields(old(self)@.entries, old(self)@.seed_message),
            final(self)@.entries == old(self)@.entries,
            final(self)@.seed_message == old(self)@.seed_message,
            final(self)@.cached == rendered_fields(old(self)@.entries, old(self)@.seed_message),
            !final(self)@.dirty,
            !old(self)@.dirty ==> *final(self) == *old(self),
    {
        if self.dirty {
            self.format();
        }
        self.formatted()
    }

    /// Recomputes the rendering from the recorded pairs and clears the
    /// dirty flag.
    pub fn format(&mut self)
        ensures
            final(self).wf(),
            final(self)@.entries == old(self)@.entries,
            final(self)@.seed_message == old(self)@.seed_message,
            final(self)@.cached == rendered_fields(old(self)@.entries, old(self)@.seed_message),
            !final(self)@.dirty,
    {
        let ghost entries_v = self@.entries;
        let ghost seed_v = self@.seed_message;
        let mut joined = String::new();
        let mut message: Option<String> = match &self.seed_message {
            Some(m) => Some(m.clone()),
            None => None,
        };
        proof {
            assert(entries_v.take(0) =~= Seq::<(Seq<char>, Seq<char>)>::empty());
        }
        let n = self.entries.len();
        for i in 0..n
            invariant
                n == self.entries.len(),
                entries_v == self@.entries,
                seed_v == self@.seed_message,
                entries_v.len() == n,
                forall|k: int| 0 <= k < n ==> entries_v[k] == (self.entries@[k].0@, self.entries@[k].1@),
                joined@ == joined_text(entries_v.take(i as int)),
                match message {
                    Some(m) => last_message(entries_v.take(i as int), seed_v) == Some(m@),
                    None => last_message(entries_v.take(i as int), seed_v) is None,
                },
        {
            proof {
                assert(entries_v.take(i + 1).drop_last() =~= entries_v.take(i as int));
                assert(entries_v.take(i + 1).last() == entries_v[i as int]);
            }
            let (name, value) = &self.entries[i];
            if str_eq(name.as_str(), "message") {
                message = Some(value.clone());
            } else {
                if !joined.as_str().is_empty() {
                    joined.append(", ");
                }
                joined.append(name.as_str());
                joined.append("=");
                joined.append(value.as_str());
                assert(joined@ =~= joined_text(entries_v.take(i + 1)));
            }
        }
        proof {
            assert(entries_v.take(n as int) =~= entries_v);
        }
        if let Some(m) = message {
            if !joined.as_str().is_empty() {
                joined.append(" ");
            }
            joined.append(m.as_str());
        }
        self.formatted = joined;
        self.dirty = false;
    }
}

} // verus!
