//! A model of a tracing span: its name, the fields it declares, and the
//! values recorded so far. Recording follows `tracing::Span::record`: a
//! value for a declared field replaces the previous one, and a value for a
//! field the span does not declare is ignored.

use vstd::prelude::*;
use crate::text::str_eq;

verus! {

/// A value recorded on a span field.
#[derive(Debug, PartialEq, Eq)]
pub enum AttributeValue {
    Str(String),
    Int(i64),
}

/// The mathematical value of an [`AttributeValue`].
pub enum AttrView {
    Str(Seq<char>),
    Int(int),
}

impl View for AttributeValue {
    type V = AttrView;

    open spec fn view(&self) -> AttrView {
        match self {
            AttributeValue::Str(s) => AttrView::Str(s@),
            AttributeValue::Int(i) => AttrView::Int(*i as int),
        }
    }
}

impl AttributeValue {
    /// A copy of this value.
    pub fn duplicate(&self) -> (r: AttributeValue)
        ensures
            r@ == self@,
    {
        match self {
            AttributeValue::Str(s) => AttributeValue::Str(s.clone()),
            AttributeValue::Int(i) => AttributeValue::Int(*i),
        }
    }
}

/// The string value `s`.
pub open spec fn str_attr(s: Seq<char>) -> AttrView {
    AttrView::Str(s)
}

/// The integer value `i`.
pub open spec fn int_attr(i: int) -> AttrView {
    AttrView::Int(i)
}

/// The mathematical model of a span.
pub struct SpanView {
    pub name: Seq<char>,
    pub fields: Seq<Seq<char>>,
    pub values: Map<Seq<char>, AttrView>,
}

/// The values a span starts with when created with `entries`: each entry
/// declares a field and, when it carries a value, records it; a later
/// entry for the same field wins.
pub open spec fn initial_values(entries: Seq<(Seq<char>, Option<AttrView>)>) -> Map<
    Seq<char>,
    AttrView,
>
    decreases entries.len(),
{
    if entries.len() == 0 {
        Map::empty()
    } else {
        let prev = initial_values(entries.drop_last());
        match entries.last().1 {
            Some(v) => prev.insert(entries.last().0, v),
            None => prev,
        }
    }
}

/// The span that `entries` create under `name`.
pub open spec fn span_of(name: Seq<char>, entries: Seq<(Seq<char>, Option<AttrView>)>) -> SpanView {
    SpanView {
        name,
        fields: entries.map_values(|e: (Seq<char>, Option<AttrView>)| e.0),
        values: initial_values(entries),
    }
}

/// The span `s` after recording `v` on the field `key`.
pub open spec fn recorded(s: SpanView, key: Seq<char>, v: AttrView) -> SpanView {
    if s.fields.contains(key) {
        SpanView { values: s.values.insert(key, v), ..s }
    } else {
        s
    }
}

/// The span `s` after recording `v` on `key` when there is a value.
pub open spec fn recorded_opt(s: SpanView, key: Seq<char>, v: Option<AttrView>) -> SpanView {
    match v {
        Some(x) => recorded(s, key, x),
        None => s,
    }
}

/// The attribute view of an optional attribute value.
pub open spec fn opt_attr(v: Option<AttributeValue>) -> Option<AttrView> {
    match v {
        Some(x) => Some(x@),
        None => None,
    }
}

/// An optional string as an optional attribute value.
pub open spec fn opt_str_attr(v: Option<Seq<char>>) -> Option<AttrView> {
    match v {
        Some(x) => Some(AttrView::Str(x)),
        None => None,
    }
}

/// An optional integer as an optional attribute value.
pub open spec fn opt_int_attr(v: Option<int>) -> Option<AttrView> {
    match v {
        Some(x) => Some(AttrView::Int(x)),
        None => None,
    }
}

/// The map that a list of distinct keys with values denotes.
pub open spec fn pairs_map(s: Seq<(Seq<char>, AttrView)>) -> Map<Seq<char>, AttrView>
    decreases s.len(),
{
    if s.len() == 0 {
        Map::empty()
    } else {
        pairs_map(s.drop_last()).insert(s.last().0, s.last().1)
    }
}

/// The keys of `s` are pairwise distinct.
pub open spec fn distinct_keys(s: Seq<(Seq<char>, AttrView)>) -> bool {
    forall|i: int, j: int| 0 <= i < s.len() && 0 <= j < s.len() && i != j ==> s[i].0 != s[j].0
}

proof fn lemma_pairs_map_dom(s: Seq<(Seq<char>, AttrView)>, k: Seq<char>)
    ensures
        pairs_map(s).dom().contains(k) <==> exists|i: int| 0 <= i < s.len() && s[i].0 == k,
    decreases s.len(),
{
    if s.len() > 0 {
        lemma_pairs_map_dom(s.drop_last(), k);
        if pairs_map(s).dom().contains(k) && k != s.last().0 {
            let i = choose|i: int| 0 <= i < s.drop_last().len() && s.drop_last()[i].0 == k;
            assert(s[i].0 == k);
        }
        if exists|i: int| 0 <= i < s.len() && s[i].0 == k {
            let i = choose|i: int| 0 <= i < s.len() && s[i].0 == k;
            if i < s.len() - 1 {
                assert(s.drop_last()[i].0 == k);
            }
        }
    }
}

proof fn lemma_pairs_map_update(s: Seq<(Seq<char>, AttrView)>, i: int, v: AttrView)
    requires
        distinct_keys(s),
        0 <= i < s.len(),
    ensures
        pairs_map(s.update(i, (s[i].0, v))) == pairs_map(s).insert(s[i].0, v),
    decreases s.len(),
{
    let t = s.update(i, (s[i].0, v));
    if i == s.len() - 1 {
        assert(t.drop_last() =~= s.drop_last());
        assert(pairs_map(t) =~= pairs_map(s).insert(s[i].0, v));
    } else {
        assert(t.drop_last() =~= s.drop_last().update(i, (s[i].0, v)));
        lemma_pairs_map_update(s.drop_last(), i, v);
        assert(s.last().0 != s[i].0);
        assert(pairs_map(t) =~= pairs_map(s).insert(s[i].0, v));
    }
}

/// A span under construction or in flight.
pub struct SpanRecord {
    name: String,
    fields: Vec<&'static str>,
    values: Vec<(&'static str, AttributeValue)>,
}

/// The keys and values of recorded pairs.
pub open spec fn pair_views(v: Seq<(&'static str, AttributeValue)>) -> Seq<(Seq<char>, AttrView)> {
    v.map_values(|p: (&'static str, AttributeValue)| (p.0@, p.1@))
}

/// The names of declared fields.
pub open spec fn field_views(v: Seq<&'static str>) -> Seq<Seq<char>> {
    v.map_values(|f: &'static str| f@)
}

impl View for SpanRecord {
    type V = SpanView;

    closed spec fn view(&self) -> SpanView {
        SpanView {
            name: self.name@,
            fields: field_views(self.fields@),
            values: pairs_map(pair_views(self.values@)),
        }
    }
}

impl SpanRecord {
    #[verifier::type_invariant]
    closed spec fn well_formed(&self) -> bool {
        &&& distinct_keys(pair_views(self.values@))
        &&& forall|i: int|
            0 <= i < self.values@.len() ==> field_views(self.fields@).contains(
                #[trigger] self.values@[i].0@,
            )
    }

    /// Creates a span named `name` that declares the field of each entry, in
    /// order, and records the entries that carry a value.
    pub fn new(name: String, entries: Vec<(&'static str, Option<AttributeValue>)>) -> (r: SpanRecord)
        ensures
            r@ == span_of(
                name@,
                entries@.map_values(
                    |e: (&'static str, Option<AttributeValue>)|
                        (e.0@, match e.1 {
                            Some(v) => Some(v@),
                            None => None,
                        }),
                ),
            ),
    {
        let ghost ev = entries@.map_values(
            |e: (&'static str, Option<AttributeValue>)|
                (e.0@, match e.1 {
                    Some(v) => Some(v@),
                    None => None,
                }),
        );
        let n = entries.len();
        let mut fields: Vec<&'static str> = Vec::new();
        let mut i: usize = 0;
        while i < n
            invariant
                n == entries@.len(),
                i <= n,
                fields@.len() == i,
                forall|k: int| 0 <= k < i ==> fields@[k] == entries@[k].0,
            decreases n - i,
        {
            fields.push(entries[i].0);
            i += 1;
        }
        assert(field_views(fields@) =~= ev.map_values(|e: (Seq<char>, Option<AttrView>)| e.0));
        let mut span = SpanRecord { name, fields, values: Vec::new() };
        assert(pairs_map(pair_views(span.values@)) =~= Map::<Seq<char>, AttrView>::empty());
        assert(ev.subrange(0, 0) =~= Seq::<(Seq<char>, Option<AttrView>)>::empty());
        let mut j: usize = 0;
        while j < n
            invariant
                n == entries@.len(),
                ev.len() == n,
                forall|k: int| 0 <= k < n ==> #[trigger] ev[k] == (entries@[k].0@, match entries@[k].1 {
                    Some(v) => Some(v@),
                    None => None,
                }),
                j <= n,
                span@.name == name@,
                span@.fields == ev.map_values(|e: (Seq<char>, Option<AttrView>)| e.0),
                span@.values == initial_values(ev.subrange(0, j as int)),
            decreases n - j,
        {
            let ghost before = ev.subrange(0, j as int);
            let ghost after = ev.subrange(0, j + 1);
            assert(after.drop_last() =~= before);
            assert(after.last() == ev[j as int]);
            let key = entries[j].0;
            match &entries[j].1 {
                Some(v) => {
                    assert(span@.fields[j as int] == key@);
                    span.record(key, v.duplicate());
                },
                None => {},
            }
            j += 1;
        }
        assert(ev.subrange(0, n as int) =~= ev);
        assert(ev =~= entries@.map_values(
            |e: (&'static str, Option<AttributeValue>)|
                (e.0@, match e.1 {
                    Some(v) => Some(v@),
                    None => None,
                }),
        ));
        span
    }

    /// Records `value` on the field `key`, as `tracing::Span::record` does:
    /// the value replaces any earlier one when the span declares the field,
    /// and the span is left unchanged otherwise.
    pub fn record(&mut self, key: &'static str, value: AttributeValue)
        ensures
            final(self)@ == recorded(old(self)@, key@, value@),
    {
        proof {
            use_type_invariant(&*self);
        }
        let nf = self.fields.len();
        let mut declared = false;
        let mut i: usize = 0;
        while i < nf
            invariant
                nf == self.fields@.len(),
                i <= nf,
                declared == exists|k: int| 0 <= k < i && #[trigger] self.fields@[k]@ == key@,
            decreases nf - i,
        {
            if !declared && str_eq(self.fields[i], key) {
                declared = true;
            }
            i += 1;
        }
        proof {
            let fv = field_views(self.fields@);
            if declared {
                let k = choose|k: int| 0 <= k < nf && #[trigger] self.fields@[k]@ == key@;
                assert(fv[k] == key@);
            }
            if fv.contains(key@) {
                let k = choose|k: int| 0 <= k < fv.len() && fv[k] == key@;
                assert(self.fields@[k]@ == key@);
            }
        }
        if !declared {
            return;
        }
        let ghost pv = pair_views(self.values@);
        let ghost newv = value@;
        let ghost old_fields = self.fields@;
        let ghost old_name = self.name@;
        assert(old(self)@.values == pairs_map(pv));
        assert(old(self)@.fields.contains(key@));
        assert(forall|i: int|
            0 <= i < pv.len() ==> field_views(old_fields).contains(#[trigger] pv[i].0));
        let mut vals: Vec<(&'static str, AttributeValue)> = Vec::new();
        std::mem::swap(&mut vals, &mut self.values);
        assert(pair_views(vals@) == pv);
        let nv = vals.len();
        let mut j: usize = 0;
        while j < nv
            invariant
                nv == vals@.len(),
                pair_views(vals@) == pv,
                distinct_keys(pv),
                forall|i: int|
                    0 <= i < pv.len() ==> field_views(old_fields).contains(#[trigger] pv[i].0),
                self.fields@ == old_fields,
                self.name@ == old_name,
                self.values@.len() == 0,
                old(self)@.values == pairs_map(pv),
                old(self)@.fields == field_views(old_fields),
                old(self)@.name == old_name,
                old(self)@.fields.contains(key@),
                newv == value@,
                j <= nv,
                forall|k: int| 0 <= k < j ==> #[trigger] vals@[k].0@ != key@,
            decreases nv - j,
        {
            if str_eq(vals[j].0, key) {
                proof {
                    lemma_pairs_map_update(pv, j as int, newv);
                }
                let existing = vals[j].0;
                vals.set(j, (existing, value));
                proof {
                    assert(pair_views(vals@) =~= pv.update(j as int, (pv[j as int].0, newv)));
                    assert forall|i: int| 0 <= i < vals@.len() implies field_views(
                        self.fields@,
                    ).contains(#[trigger] vals@[i].0@) by {
                        assert(vals@[i].0@ == pair_views(vals@)[i].0);
                    }
                    assert(distinct_keys(pair_views(vals@)));
                }
                self.values = vals;
                return;
            }
            j += 1;
        }
        vals.push((key, value));
        proof {
            assert(pair_views(vals@) =~= pv.push((key@, newv)));
            assert(pair_views(vals@).drop_last() =~= pv);
            assert forall|i: int| 0 <= i < vals@.len() implies field_views(
                self.fields@,
            ).contains(#[trigger] vals@[i].0@) by {
                assert(vals@[i].0@ == pair_views(vals@)[i].0);
            }
            assert forall|a: int, b: int|
                0 <= a < pair_views(vals@).len() && 0 <= b < pair_views(vals@).len() && a != b
                implies pair_views(vals@)[a].0 != pair_views(vals@)[b].0 by {
                if a < nv && b < nv {
                    assert(pair_views(vals@)[a] == pv[a]);
                    assert(pair_views(vals@)[b] == pv[b]);
                } else if a == nv {
                    assert(pair_views(vals@)[b] == pv[b]);
                    assert(vals@[b].0@ != key@);
                } else {
                    assert(pair_views(vals@)[a] == pv[a]);
                    assert(vals@[a].0@ != key@);
                }
            }
        }
        self.values = vals;
    }

    /// Records `value` on `key` when there is a value, as recording an
    /// `Option` on a `tracing::Span` does.
    pub fn record_opt(&mut self, key: &'static str, value: Option<AttributeValue>)
        ensures
            final(self)@ == recorded_opt(old(self)@, key@, opt_attr(value)),
    {
        match value {
            Some(v) => self.record(key, v),
            None => {},
        }
    }

    /// The span's name.
    pub fn name(&self) -> (r: &str)
        ensures
            r@ == self@.name,
    {
        self.name.as_str()
    }

    /// The value recorded on `key`, if any.
    pub fn get(&self, key: &str) -> (r: Option<AttributeValue>)
        ensures
            match r {
                Some(v) => self@.values.dom().contains(key@) && self@.values[key@] == v@,
                None => !self@.values.dom().contains(key@),
            },
    {
        proof {
            use_type_invariant(self);
        }
        let nv = self.values.len();
        let mut j: usize = 0;
        while j < nv
            invariant
                nv == self.values@.len(),
                distinct_keys(pair_views(self.values@)),
                j <= nv,
                forall|k: int| 0 <= k < j ==> #[trigger] self.values@[k].0@ != key@,
            decreases nv - j,
        {
            if str_eq(self.values[j].0, key) {
                proof {
                    lemma_pairs_value_at(pair_views(self.values@), j as int);
                }
                return Some(self.values[j].1.duplicate());
            }
            j += 1;
        }
        proof {
            let pv = pair_views(self.values@);
            lemma_pairs_map_dom(pv, key@);
            if exists|i: int| 0 <= i < pv.len() && pv[i].0 == key@ {
                let i = choose|i: int| 0 <= i < pv.len() && pv[i].0 == key@;
                assert(self.values@[i].0@ == key@);
            }
        }
        None
    }

    /// Every recorded field and its value.
    pub fn attributes(&self) -> (r: Vec<(String, AttributeValue)>)
        ensures
            pairs_map(r@.map_values(|p: (String, AttributeValue)| (p.0@, p.1@))) == self@.values,
    {
        let nv = self.values.len();
        let mut out: Vec<(String, AttributeValue)> = Vec::new();
        let mut j: usize = 0;
        while j < nv
            invariant
                nv == self.values@.len(),
                j <= nv,
                out@.len() == j,
                forall|k: int| 0 <= k < j ==> (#[trigger] out@[k]).0@ == self.values@[k].0@ && out@[k].1@
                    == self.values@[k].1@,
            decreases nv - j,
        {
            out.push((String::from_str(self.values[j].0), self.values[j].1.duplicate()));
            j += 1;
        }
        assert(out@.map_values(|p: (String, AttributeValue)| (p.0@, p.1@)) =~= pair_views(
            self.values@,
        ));
        out
    }

    /// The names of the fields the span declares, in order.
    pub fn field_names(&self) -> (r: Vec<&'static str>)
        ensures
            field_views(r@) == self@.fields,
    {
        let nf = self.fields.len();
        let mut out: Vec<&'static str> = Vec::new();
        let mut j: usize = 0;
        while j < nf
            invariant
                nf == self.fields@.len(),
                j <= nf,
                out@ =~= self.fields@.subrange(0, j as int),
            decreases nf - j,
        {
            out.push(self.fields[j]);
            j += 1;
        }
        assert(self.fields@.subrange(0, nf as int) =~= self.fields@);
        out
    }
}

proof fn lemma_pairs_value_at(s: Seq<(Seq<char>, AttrView)>, i: int)
    requires
        distinct_keys(s),
        0 <= i < s.len(),
    ensures
        pairs_map(s).dom().contains(s[i].0),
        pairs_map(s)[s[i].0] == s[i].1,
    decreases s.len(),
{
    if i < s.len() - 1 {
        lemma_pairs_value_at(s.drop_last(), i);
        assert(s.last().0 != s[i].0);
    }
}

/// A span created from `entries` holds no value for a field that no entry
/// gives a value.
pub proof fn lemma_created_span_lacks_unset_field(
    name: Seq<char>,
    entries: Seq<(Seq<char>, Option<AttrView>)>,
    key: Seq<char>,
)
    requires
        forall|i: int| 0 <= i < entries.len() && (#[trigger] entries[i]).0 == key ==> entries[i].1 is None,
    ensures
        !span_of(name, entries).values.dom().contains(key),
    decreases entries.len(),
{
    if entries.len() > 0 {
        let p = entries.drop_last();
        assert forall|i: int| 0 <= i < p.len() && (#[trigger] p[i]).0 == key implies p[i].1 is None by {
            assert(p[i] == entries[i]);
        }
        lemma_created_span_lacks_unset_field(name, p, key);
        assert(entries[entries.len() - 1] == entries.last());
    }
}

/// A span created from `entries` holds, for the field of the entry at `k`,
/// that entry's value, when no later entry names the same field.
pub proof fn lemma_created_span_value(
    name: Seq<char>,
    entries: Seq<(Seq<char>, Option<AttrView>)>,
    k: int,
)
    requires
        0 <= k < entries.len(),
        entries[k].1 is Some,
        forall|j: int| k < j < entries.len() ==> (#[trigger] entries[j]).0 != entries[k].0,
    ensures
        span_of(name, entries).values.dom().contains(entries[k].0),
        span_of(name, entries).values[entries[k].0] == entries[k].1->0,
    decreases entries.len(),
{
    let n = entries.len() as int;
    assert(entries[n - 1] == entries.last());
    if k < n - 1 {
        let p = entries.drop_last();
        assert(p[k] == entries[k]);
        assert forall|j: int| k < j < p.len() implies (#[trigger] p[j]).0 != p[k].0 by {
            assert(p[j] == entries[j]);
        }
        lemma_created_span_value(name, p, k);
        assert(entries.last().0 != entries[k].0);
    }
}

/// The span `s` holds the value `v` for the field `key`.
pub open spec fn holds(s: SpanView, key: Seq<char>, v: AttrView) -> bool {
    s.values.dom().contains(key) && s.values[key] == v
}

/// The entries name pairwise different fields.
pub open spec fn distinct_fields(entries: Seq<(Seq<char>, Option<AttrView>)>) -> bool {
    forall|i: int, j: int| 0 <= i < j < entries.len() ==> (#[trigger] entries[i]).0 != (#[trigger] entries[j]).0
}

/// A span created from entries that name different fields holds exactly the
/// values the entries give: each entry with a value holds it, and each
/// entry without one holds none.
pub proof fn lemma_created_span_reads(name: Seq<char>, entries: Seq<(Seq<char>, Option<AttrView>)>)
    requires
        distinct_fields(entries),
    ensures
        forall|k: int|
            0 <= k < entries.len() && (#[trigger] entries[k]).1 is Some ==> holds(
                span_of(name, entries),
                entries[k].0,
                entries[k].1->0,
            ),
        forall|k: int|
            0 <= k < entries.len() && (#[trigger] entries[k]).1 is None ==> !span_of(
                name,
                entries,
            ).values.dom().contains(entries[k].0),
{
    assert forall|k: int| 0 <= k < entries.len() && (#[trigger] entries[k]).1 is Some implies holds(
        span_of(name, entries),
        entries[k].0,
        entries[k].1->0,
    ) by {
        assert forall|j: int| k < j < entries.len() implies (#[trigger] entries[j]).0 != entries[k].0 by {
            assert(entries[k].0 != entries[j].0);
        }
        lemma_created_span_value(name, entries, k);
    }
    assert forall|k: int| 0 <= k < entries.len() && (#[trigger] entries[k]).1 is None implies !span_of(
        name,
        entries,
    ).values.dom().contains(entries[k].0) by {
        assert forall|i: int| 0 <= i < entries.len() && (#[trigger] entries[i]).0 == entries[k].0 implies entries[i].1 is None by {
            if i < k {
                assert(entries[i].0 != entries[k].0);
            } else if i > k {
                assert(entries[k].0 != entries[i].0);
            }
        }
        lemma_created_span_lacks_unset_field(name, entries, entries[k].0);
    }
}

/// Every recorded value of the span belongs to a field the span declares.
pub open spec fn values_declared(s: SpanView) -> bool {
    forall|k: Seq<char>| #[trigger] s.values.dom().contains(k) ==> s.fields.contains(k)
}

/// A newly created span holds values only for fields it declares.
pub proof fn lemma_created_span_values_declared(
    name: Seq<char>,
    entries: Seq<(Seq<char>, Option<AttrView>)>,
)
    ensures
        values_declared(span_of(name, entries)),
    decreases entries.len(),
{
    if entries.len() > 0 {
        let p = entries.drop_last();
        lemma_created_span_values_declared(name, p);
        let fields = span_of(name, entries).fields;
        let pf = span_of(name, p).fields;
        assert forall|k: Seq<char>| #[trigger] initial_values(entries).dom().contains(k) implies fields.contains(k) by {
            if k == entries.last().0 {
                assert(fields[entries.len() - 1] == k);
            } else {
                assert(initial_values(p).dom().contains(k));
                assert(span_of(name, p).values.dom().contains(k));
                assert(pf.contains(k));
                let i = choose|i: int| 0 <= i < pf.len() && pf[i] == k;
                assert(pf[i] == p[i].0);
                assert(fields[i] == entries[i].0);
            }
        }
    }
}

/// Recording keeps a span holding values only for fields it declares:
/// together with the lemma on creation, no span ever holds a value for an
/// undeclared field.
pub proof fn lemma_recording_keeps_values_declared(s: SpanView, key: Seq<char>, v: AttrView)
    requires
        values_declared(s),
    ensures
        values_declared(recorded(s, key, v)),
{
}

/// After a value is recorded on a declared field, the field holds exactly
/// that value, and every other field keeps its value.
pub proof fn lemma_record_then_read(s: SpanView, key: Seq<char>, v: AttrView, other: Seq<char>)
    requires
        s.fields.contains(key),
        other != key,
    ensures
        recorded(s, key, v).values.dom().contains(key),
        recorded(s, key, v).values[key] == v,
        recorded(s, key, v).values.dom().contains(other) == s.values.dom().contains(other),
        s.values.dom().contains(other) ==> recorded(s, key, v).values[other] == s.values[other],
        recorded(s, key, v).fields == s.fields,
        recorded(s, key, v).name == s.name,
{
}

/// Recording a value on a field the span does not declare changes nothing.
pub proof fn lemma_record_undeclared_is_ignored(s: SpanView, key: Seq<char>, v: AttrView)
    requires
        !s.fields.contains(key),
    ensures
        recorded(s, key, v) == s,
{
}

} // verus!
