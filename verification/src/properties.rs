//! The store of animated property bindings for the current display list.
//!
//! [`SceneProperties`] keeps two sets of property values: the *current* set,
//! already committed and visible to resolution queries, and the *pending*
//! set, which accumulates the edits of the transaction in progress. Any
//! number of [`SceneProperties::set_properties`] and
//! [`SceneProperties::add_properties`] calls coalesce into the pending set;
//! one [`SceneProperties::flush_pending_updates`] call then compares the two
//! sets wholesale and reports whether anything actually changed, so that the
//! expensive frame rebuild can be skipped when a transaction round-trips to
//! the same values.

use vstd::prelude::*;
use std::collections::HashMap;
use crate::units::{FloatBits, LayoutTransform};

verus! {

broadcast use vstd::std_specs::hash::group_hash_axioms;

/// The process-unique identity of one dynamically-bound property, minted
/// upstream when the binding is declared and never reused for an unrelated
/// binding.
pub type PropertyBindingId = u64;

/// A handle to one declared property binding.
#[derive(Clone, Copy, Debug, PartialEq, Eq, Structural)]
pub struct PropertyBindingKey {
    pub id: PropertyBindingId,
}

/// How a property slot in the display list obtains its value: either a
/// literal carried inline, or a reference to a binding identity together with
/// the literal to fall back on while no value is registered under that
/// identity.
#[derive(Clone, Copy, Debug, PartialEq, Eq, Structural)]
pub enum PropertyBinding<T> {
    Value(T),
    Binding(PropertyBindingKey, T),
}

/// One entry of an update batch: the value now wanted for one binding
/// identity.
#[derive(Clone, Copy, Debug, PartialEq, Eq, Structural)]
pub struct PropertyValue<T> {
    pub key: PropertyBindingKey,
    pub value: T,
}

/// One batch of property updates, as delivered by the transaction layer:
/// ordered sequences of transform entries and scalar entries.
pub struct DynamicProperties {
    pub transforms: Vec<PropertyValue<LayoutTransform>>,
    pub floats: Vec<PropertyValue<FloatBits>>,
}

/// The mathematical content of one update batch.
#[verifier::ext_equal]
pub struct DynamicPropertiesView {
    pub transforms: Seq<PropertyValue<LayoutTransform>>,
    pub floats: Seq<PropertyValue<FloatBits>>,
}

impl View for DynamicProperties {
    type V = DynamicPropertiesView;

    open spec fn view(&self) -> DynamicPropertiesView {
        DynamicPropertiesView { transforms: self.transforms@, floats: self.floats@ }
    }
}

impl DynamicPropertiesView {
    /// The batch with no entries.
    pub open spec fn empty() -> DynamicPropertiesView {
        DynamicPropertiesView { transforms: Seq::empty(), floats: Seq::empty() }
    }

    /// Two batches one after the other, entries kept in order.
    pub open spec fn concat(self, other: DynamicPropertiesView) -> DynamicPropertiesView {
        DynamicPropertiesView {
            transforms: self.transforms + other.transforms,
            floats: self.floats + other.floats,
        }
    }
}

impl Default for DynamicProperties {
    /// An empty update batch.
    fn default() -> (d: DynamicProperties)
        ensures
            d@ == DynamicPropertiesView::empty(),
    {
        DynamicProperties { transforms: Vec::new(), floats: Vec::new() }
    }
}

/// The lookup table that a sequence of update entries denotes. Entries are
/// applied in order, so a later entry for a binding identity overwrites an
/// earlier one: the last writer wins.
pub open spec fn resolved_map<T>(entries: Seq<PropertyValue<T>>) -> Map<PropertyBindingId, T>
    decreases entries.len(),
{
    if entries.len() == 0 {
        Map::empty()
    } else {
        resolved_map(entries.drop_last()).insert(entries.last().key.id, entries.last().value)
    }
}

/// The store of current and pending property values.
pub struct SceneProperties {
    transform_properties: HashMap<PropertyBindingId, LayoutTransform>,
    float_properties: HashMap<PropertyBindingId, FloatBits>,
    current_properties: DynamicProperties,
    pending_properties: Option<DynamicProperties>,
}

/// The mathematical state of a [`SceneProperties`] store: the two lookup
/// tables, the committed current set and the pending set, if one exists.
#[verifier::ext_equal]
pub struct ScenePropertiesView {
    pub transforms: Map<PropertyBindingId, LayoutTransform>,
    pub floats: Map<PropertyBindingId, FloatBits>,
    pub current: DynamicPropertiesView,
    pub pending: Option<DynamicPropertiesView>,
}

impl View for SceneProperties {
    type V = ScenePropertiesView;

    closed spec fn view(&self) -> ScenePropertiesView {
        ScenePropertiesView {
            transforms: self.transform_properties@,
            floats: self.float_properties@,
            current: self.current_properties@,
            pending: match self.pending_properties {
                Some(p) => Some(p@),
                None => None,
            },
        }
    }
}

/// The store's invariant: the transform and scalar lookup tables always hold
/// exactly the entries of the current set, resolved last-writer-wins.
pub open spec fn store_wf(v: ScenePropertiesView) -> bool {
    &&& v.transforms == resolved_map(v.current.transforms)
    &&& v.floats == resolved_map(v.current.floats)
}

/// The state after replacing the pending set wholesale, discarding any prior
/// unflushed edits.
pub open spec fn spec_set_properties(
    v: ScenePropertiesView,
    properties: DynamicPropertiesView,
) -> ScenePropertiesView {
    ScenePropertiesView { pending: Some(properties), ..v }
}

/// The state after merging a batch into the pending set: the incoming entries
/// are appended behind the pending ones (starting from the empty set when no
/// pending set exists), so on resolution they overwrite earlier pending
/// entries for the same identity.
pub open spec fn spec_add_properties(
    v: ScenePropertiesView,
    properties: DynamicPropertiesView,
) -> ScenePropertiesView {
    let base = match v.pending {
        Some(p) => p,
        None => DynamicPropertiesView::empty(),
    };
    ScenePropertiesView { pending: Some(base.concat(properties)), ..v }
}

/// Whether a flush observes a difference between the pending set and the
/// current one.
pub open spec fn spec_flush_changed(v: ScenePropertiesView) -> bool {
    match v.pending {
        Some(p) => p != v.current,
        None => false,
    }
}

/// The state after a flush. When the pending set differs structurally from
/// the current one, the lookup tables are rebuilt from the pending entries
/// and the pending set becomes the current one; otherwise nothing changes.
/// The pending slot stays populated either way, so an immediate re-flush
/// compares the same sets again and reports no change.
pub open spec fn spec_flush(v: ScenePropertiesView) -> ScenePropertiesView {
    match v.pending {
        None => v,
        Some(p) => if p == v.current {
            v
        } else {
            ScenePropertiesView {
                transforms: resolved_map(p.transforms),
                floats: resolved_map(p.floats),
                current: p,
                pending: Some(p),
            }
        },
    }
}

impl SceneProperties {
    /// Whether the store satisfies its invariant; established by [`Self::new`]
    /// and preserved by every operation.
    pub open spec fn wf(self) -> bool {
        store_wf(self@)
    }

    /// An empty store: no current values, no pending set.
    pub fn new() -> (s: SceneProperties)
        ensures
            s.wf(),
            s@.transforms == Map::<PropertyBindingId, LayoutTransform>::empty(),
            s@.floats == Map::<PropertyBindingId, FloatBits>::empty(),
            s@.current == DynamicPropertiesView::empty(),
            s@.pending is None,
    {
        let s = SceneProperties {
            transform_properties: HashMap::new(),
            float_properties: HashMap::new(),
            current_properties: DynamicProperties::default(),
            pending_properties: None,
        };
        proof {
            assert(s@.current =~= DynamicPropertiesView::empty());
        }
        s
    }

    /// Replace the pending set with the given batch, discarding any prior
    /// unflushed edits. The current set and the lookup tables are untouched.
    pub fn set_properties(&mut self, properties: DynamicProperties)
        ensures
            final(self)@ == spec_set_properties(old(self)@, properties@),
    {
        self.pending_properties = Some(properties);
    }

    /// Merge the given batch into the pending set at entry granularity: its
    /// entries are appended, so for every identity the batch mentions the new
    /// value overwrites any pending one (last writer wins), while identities
    /// it does not mention keep their pending value. Merging starts from the
    /// empty set when no pending set exists yet.
    pub fn add_properties(&mut self, properties: DynamicProperties)
        ensures
            final(self)@ == spec_add_properties(old(self)@, properties@),
    {
        let mut pending_properties = match self.pending_properties.take() {
            Some(p) => p,
            None => DynamicProperties::default(),
        };
        let mut incoming = properties;
        pending_properties.transforms.append(&mut incoming.transforms);
        pending_properties.floats.append(&mut incoming.floats);
        self.pending_properties = Some(pending_properties);
        proof {
            assert(self@ =~= spec_add_properties(old(self)@, properties@));
        }
    }

    /// Commit any pending updates. Returns true exactly when the pending set
    /// differs structurally from the current one; in that case the lookup
    /// tables are cleared and rebuilt from the pending entries and the
    /// pending set becomes the new current set. The pending slot is left
    /// populated, so flushing again without new edits reports no change.
    pub fn flush_pending_updates(&mut self) -> (changed: bool)
        ensures
            final(self)@ == spec_flush(old(self)@),
            changed == spec_flush_changed(old(self)@),
    {
        let mut properties_changed = false;

        match &self.pending_properties {
            None => {},
            Some(pending_properties) => {
                if !dynamic_properties_eq(pending_properties, &self.current_properties) {
                    self.transform_properties = build_transform_map(&pending_properties.transforms);
                    self.float_properties = build_float_map(&pending_properties.floats);
                    self.current_properties = DynamicProperties {
                        transforms: copy_transform_values(&pending_properties.transforms),
                        floats: copy_float_values(&pending_properties.floats),
                    };
                    properties_changed = true;
                }
            },
        }

        proof {
            assert(self@ =~= spec_flush(old(self)@));
        }
        properties_changed
    }

    /// What a transform binding resolves to: a literal binding yields its
    /// literal; a reference binding yields the current value registered under
    /// its identity, or the supplied fallback when none is.
    pub open spec fn spec_resolve_transform(
        v: ScenePropertiesView,
        property: PropertyBinding<LayoutTransform>,
    ) -> LayoutTransform {
        match property {
            PropertyBinding::Value(value) => value,
            PropertyBinding::Binding(key, fallback) => if v.transforms.contains_key(key.id) {
                v.transforms[key.id]
            } else {
                fallback
            },
        }
    }

    /// What a scalar binding resolves to, as [`Self::spec_resolve_transform`]
    /// but against the scalar table.
    pub open spec fn spec_resolve_float(
        v: ScenePropertiesView,
        property: PropertyBinding<FloatBits>,
    ) -> FloatBits {
        match property {
            PropertyBinding::Value(value) => value,
            PropertyBinding::Binding(key, fallback) => if v.floats.contains_key(key.id) {
                v.floats[key.id]
            } else {
                fallback
            },
        }
    }

    /// Resolve a transform binding against the current values. Never fails:
    /// an unregistered identity resolves to the binding's fallback literal.
    pub fn resolve_layout_transform(&self, property: &PropertyBinding<LayoutTransform>) -> (r:
        LayoutTransform)
        ensures
            r == Self::spec_resolve_transform(self@, *property),
    {
        match *property {
            PropertyBinding::Value(value) => value,
            PropertyBinding::Binding(key, fallback) => {
                match self.transform_properties.get(&key.id) {
                    Some(value) => *value,
                    None => fallback,
                }
            },
        }
    }

    /// Resolve a scalar binding against the current values. Never fails: an
    /// unregistered identity resolves to the binding's fallback literal.
    pub fn resolve_float(&self, property: &PropertyBinding<FloatBits>) -> (r: FloatBits)
        ensures
            r == Self::spec_resolve_float(self@, *property),
    {
        match *property {
            PropertyBinding::Value(value) => value,
            PropertyBinding::Binding(key, fallback) => {
                match self.float_properties.get(&key.id) {
                    Some(value) => *value,
                    None => fallback,
                }
            },
        }
    }

    /// The current scalar lookup table.
    pub fn float_properties(&self) -> (m: &HashMap<PropertyBindingId, FloatBits>)
        ensures
            m@ == self@.floats,
    {
        &self.float_properties
    }
}

/// Structural equality of two update batches: the same transform entries and
/// the same scalar entries, identity for identity and value for value, in the
/// same order.
fn dynamic_properties_eq(a: &DynamicProperties, b: &DynamicProperties) -> (r: bool)
    ensures
        r == (a@ == b@),
{
    let r = transform_values_eq(&a.transforms, &b.transforms) && float_values_eq(
        &a.floats,
        &b.floats,
    );
    proof {
        if a@.transforms == b@.transforms && a@.floats == b@.floats {
            assert(a@ =~= b@);
        }
    }
    r
}

fn transform_values_eq(
    a: &Vec<PropertyValue<LayoutTransform>>,
    b: &Vec<PropertyValue<LayoutTransform>>,
) -> (r: bool)
    ensures
        r == (a@ == b@),
{
    if a.len() != b.len() {
        return false;
    }
    let mut i: usize = 0;
    while i < a.len()
        invariant
            i <= a.len(),
            a@.len() == b@.len(),
            forall|j: int| 0 <= j < i ==> a@[j] == b@[j],
        decreases a.len() - i,
    {
        if a[i] != b[i] {
            return false;
        }
        i += 1;
    }
    proof {
        assert(a@ =~= b@);
    }
    true
}

fn float_values_eq(a: &Vec<PropertyValue<FloatBits>>, b: &Vec<PropertyValue<FloatBits>>) -> (r:
    bool)
    ensures
        r == (a@ == b@),
{
    if a.len() != b.len() {
        return false;
    }
    let mut i: usize = 0;
    while i < a.len()
        invariant
            i <= a.len(),
            a@.len() == b@.len(),
            forall|j: int| 0 <= j < i ==> a@[j] == b@[j],
        decreases a.len() - i,
    {
        if a[i] != b[i] {
            return false;
        }
        i += 1;
    }
    proof {
        assert(a@ =~= b@);
    }
    true
}

fn build_transform_map(entries: &Vec<PropertyValue<LayoutTransform>>) -> (m: HashMap<
    PropertyBindingId,
    LayoutTransform,
>)
    ensures
        m@ == resolved_map(entries@),
{
    let mut m: HashMap<PropertyBindingId, LayoutTransform> = HashMap::new();
    proof {
        assert(entries@.take(0) =~= Seq::<PropertyValue<LayoutTransform>>::empty());
    }
    let mut i: usize = 0;
    while i < entries.len()
        invariant
            i <= entries.len(),
            m@ == resolved_map(entries@.take(i as int)),
        decreases entries.len() - i,
    {
        let entry = entries[i];
        m.insert(entry.key.id, entry.value);
        proof {
            assert(entries@.take(i + 1).drop_last() =~= entries@.take(i as int));
        }
        i += 1;
    }
    proof {
        assert(entries@.take(entries@.len() as int) =~= entries@);
    }
    m
}

fn build_float_map(entries: &Vec<PropertyValue<FloatBits>>) -> (m: HashMap<
    PropertyBindingId,
    FloatBits,
>)
    ensures
        m@ == resolved_map(entries@),
{
    let mut m: HashMap<PropertyBindingId, FloatBits> = HashMap::new();
    proof {
        assert(entries@.take(0) =~= Seq::<PropertyValue<FloatBits>>::empty());
    }
    let mut i: usize = 0;
    while i < entries.len()
        invariant
            i <= entries.len(),
            m@ == resolved_map(entries@.take(i as int)),
        decreases entries.len() - i,
    {
        let entry = entries[i];
        m.insert(entry.key.id, entry.value);
        proof {
            assert(entries@.take(i + 1).drop_last() =~= entries@.take(i as int));
        }
        i += 1;
    }
    proof {
        assert(entries@.take(entries@.len() as int) =~= entries@);
    }
    m
}

/// Flush idempotence: flushing leaves a state whose next flush, with no
/// intervening edits, reports no change.
pub proof fn lemma_flush_idempotent(v: ScenePropertiesView)
    ensures
        !spec_flush_changed(spec_flush(v)),
{
}

/// Every operation of the store preserves its invariant: after a set, an add
/// or a flush, the lookup tables still mirror the current set exactly.
pub proof fn lemma_store_ops_preserve_wf(v: ScenePropertiesView, p: DynamicPropertiesView)
    requires
        store_wf(v),
    ensures
        store_wf(spec_set_properties(v, p)),
        store_wf(spec_add_properties(v, p)),
        store_wf(spec_flush(v)),
{
}

/// Coalescing: adding two batches one after the other leaves the same state
/// as adding their concatenation in a single call.
pub proof fn lemma_add_coalesces(
    v: ScenePropertiesView,
    p: DynamicPropertiesView,
    q: DynamicPropertiesView,
)
    ensures
        spec_add_properties(spec_add_properties(v, p), q) == spec_add_properties(v, p.concat(q)),
{
    let lhs = spec_add_properties(spec_add_properties(v, p), q);
    let rhs = spec_add_properties(v, p.concat(q));
    assert(lhs.pending.unwrap().transforms =~= rhs.pending.unwrap().transforms);
    assert(lhs.pending.unwrap().floats =~= rhs.pending.unwrap().floats);
    assert(lhs.pending.unwrap() =~= rhs.pending.unwrap());
    assert(lhs =~= rhs);
}

/// The lookup table of a concatenation of entry sequences: entries of the
/// second sequence win over entries of the first for the identities both
/// mention, and identities only one mentions keep that one's value.
pub proof fn lemma_resolved_map_concat<T>(s: Seq<PropertyValue<T>>, t: Seq<PropertyValue<T>>)
    ensures
        resolved_map(s + t) == resolved_map(s).union_prefer_right(resolved_map(t)),
    decreases t.len(),
{
    if t.len() == 0 {
        assert(s + t =~= s);
        assert(resolved_map(s).union_prefer_right(Map::empty()) =~= resolved_map(s));
    } else {
        lemma_resolved_map_concat(s, t.drop_last());
        assert((s + t).drop_last() =~= s + t.drop_last());
        assert(resolved_map(s).union_prefer_right(
            resolved_map(t.drop_last()).insert(t.last().key.id, t.last().value),
        ) =~= resolved_map(s).union_prefer_right(resolved_map(t.drop_last())).insert(
            t.last().key.id,
            t.last().value,
        ));
    }
}

/// Last writer wins: one further entry for a binding identity overwrites
/// whatever value the entries before it resolved that identity to, and
/// touches no other identity.
pub proof fn lemma_last_writer_wins<T>(s: Seq<PropertyValue<T>>, entry: PropertyValue<T>)
    ensures
        resolved_map(s.push(entry)) == resolved_map(s).insert(entry.key.id, entry.value),
{
    assert(s.push(entry).drop_last() =~= s);
}

/// Cancellation: committing a batch and then setting the very same batch
/// again makes the next flush report no change, whatever stood in the store
/// before.
pub proof fn lemma_set_flush_cancellation(v: ScenePropertiesView, p: DynamicPropertiesView)
    ensures
        !spec_flush_changed(spec_set_properties(spec_flush(spec_set_properties(v, p)), p)),
{
}

/// Resolution fallback: a reference binding to an identity the lookup table
/// does not know resolves to its fallback literal; and after a flush of a
/// pending set, the binding resolves to the value that set registers for the
/// identity, or to the fallback when the set does not mention it.
pub proof fn lemma_resolution_fallback(
    v: ScenePropertiesView,
    p: DynamicPropertiesView,
    key: PropertyBindingKey,
    fallback: LayoutTransform,
    float_fallback: FloatBits,
)
    requires
        store_wf(v),
        v.pending == Some(p),
    ensures
        !v.transforms.contains_key(key.id) ==> SceneProperties::spec_resolve_transform(
            v,
            PropertyBinding::Binding(key, fallback),
        ) == fallback,
        !v.floats.contains_key(key.id) ==> SceneProperties::spec_resolve_float(
            v,
            PropertyBinding::Binding(key, float_fallback),
        ) == float_fallback,
        ({
            let m = resolved_map(p.transforms);
            SceneProperties::spec_resolve_transform(
                spec_flush(v),
                PropertyBinding::Binding(key, fallback),
            ) == if m.contains_key(key.id) {
                m[key.id]
            } else {
                fallback
            }
        }),
        ({
            let m = resolved_map(p.floats);
            SceneProperties::spec_resolve_float(
                spec_flush(v),
                PropertyBinding::Binding(key, float_fallback),
            ) == if m.contains_key(key.id) {
                m[key.id]
            } else {
                float_fallback
            }
        }),
{
}

fn copy_transform_values(src: &Vec<PropertyValue<LayoutTransform>>) -> (r: Vec<
    PropertyValue<LayoutTransform>,
>)
    ensures
        r@ == src@,
{
    let mut r: Vec<PropertyValue<LayoutTransform>> = Vec::new();
    let mut i: usize = 0;
    while i < src.len()
        invariant
            i <= src.len(),
            r@ == src@.take(i as int),
        decreases src.len() - i,
    {
        r.push(src[i]);
        proof {
            assert(src@.take(i + 1) =~= src@.take(i as int).push(src@[i as int]));
        }
        i += 1;
    }
    proof {
        assert(src@.take(src@.len() as int) =~= src@);
    }
    r
}

fn copy_float_values(src: &Vec<PropertyValue<FloatBits>>) -> (r: Vec<PropertyValue<FloatBits>>)
    ensures
        r@ == src@,
{
    let mut r: Vec<PropertyValue<FloatBits>> = Vec::new();
    let mut i: usize = 0;
    while i < src.len()
        invariant
            i <= src.len(),
            r@ == src@.take(i as int),
        decreases src.len() - i,
    {
        r.push(src[i]);
        proof {
            assert(src@.take(i + 1) =~= src@.take(i as int).push(src@[i as int]));
        }
        i += 1;
    }
    proof {
        assert(src@.take(src@.len() as int) =~= src@);
    }
    r
}

} // verus!
