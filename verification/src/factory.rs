use std::collections::hash_map::RandomState;
use std::collections::HashMap;
use std::hash::BuildHasher;
use std::hash::Hash;
use vstd::prelude::*;
use vstd::std_specs::hash::builds_valid_hashers;
use vstd::std_specs::hash::obeys_key_model;
use vstd::std_specs::hash::spec_hash_map_iter;
use vstd::std_specs::hash::spec_keys_iter;
use vstd::std_specs::iter::IteratorSpec;

verus! {

broadcast use vstd::std_specs::hash::group_hash_axioms;

/// A container widget that factory components can be attached to.
pub trait FactoryView {
    /// What the container accepts as a child.
    type Children;

    /// What the container hands back for an attached child.
    type ReturnedWidget;

    /// Where in the container a child is placed.
    type Position;

    /// Attaches `widget` at `position`.
    fn factory_append(&self, widget: &Self::Children, position: &Self::Position) -> Self::ReturnedWidget;

    /// Detaches a child that `factory_append` returned.
    fn factory_remove(&self, widget: &Self::ReturnedWidget);
}

/// A component that a factory collection can build, attach and keep.
pub trait FactoryComponent: Sized {
    /// The container that components of this type are attached to.
    type ParentWidget: FactoryView;

    /// The messages that a component receives.
    type Input;

    /// What a component is built from.
    type Init;

    /// What identifies a component inside its collection.
    type Index;

    /// Builds the component's data.
    fn init_model(init: Self::Init, index: &Self::Index) -> Self;

    /// Builds the widget that is attached to the parent.
    fn init_root(&self) -> <Self::ParentWidget as FactoryView>::Children;

    /// Says where in the parent the component's widget goes.
    fn position(&self, index: &Self::Index) -> <Self::ParentWidget as FactoryView>::Position;
}

/// A component from which what it was built from can be read back.
pub trait CloneableFactoryComponent: FactoryComponent {
    /// What a copy of the component is built from.
    fn get_init(&self) -> Self::Init;
}

/// A component together with what its parent returned when it was attached.
pub struct FactoryHandle<C: FactoryComponent> {
    pub data: C,
    pub returned_widget: <C::ParentWidget as FactoryView>::ReturnedWidget,
    /// Set once mutable access to the data was handed out.
    pub notified: bool,
}

/// A message on its way to the components of a collection.
pub enum Delivery<K, M> {
    /// For the component stored under a key.
    To(K, M),
    /// For every component.
    All(M),
}

/// Mutable access to one component of a [`FactoryHashMap`].
#[must_use]
pub struct FactoryElementGuard<'a, C: FactoryComponent> {
    pub inner: &'a mut FactoryHandle<C>,
}

/// A hash map of factory components that are attached to one parent widget.
/// Dropping the collection detaches nothing: `clear` does.
#[verifier::reject_recursive_types(K)]
#[verifier::reject_recursive_types(S)]
pub struct FactoryHashMap<K, C: FactoryComponent, S = RandomState> {
    widget: C::ParentWidget,
    inner: HashMap<K, FactoryHandle<C>, S>,
    outbox: Vec<Delivery<K, C::Input>>,
}

/// `std::collections::HashMap::with_hasher`: the map it returns is empty.
pub assume_specification<K, V, S>[ HashMap::<K, V, S>::with_hasher ](hash_builder: S) -> (map: HashMap<
    K,
    V,
    S,
>)
    ensures
        (map@ == Map::<K, V>::empty()),
;

/// `std::collections::HashMap::get_mut`: a reference to the value stored under
/// `k`, if there is one; what is written through it is what the map then holds
/// under `k`, and nothing else changes.
#[verifier::external_body]
fn map_get_mut<'a, K: Hash + Eq, V, S: BuildHasher>(m: &'a mut HashMap<K, V, S>, k: &K) -> (r: Option<&'a mut V>)
    ensures
        obeys_key_model::<K>() && builds_valid_hashers::<S>() ==> (match r {
            Some(v) => old(m)@.contains_key(*k) && *v == old(m)@[*k] && final(m)@ == old(m)@.insert(*k, *final(v)),
            None => !old(m)@.contains_key(*k) && final(m)@ == old(m)@,
        }),
{
    m.get_mut(k)
}

impl<'a, C: FactoryComponent> FactoryElementGuard<'a, C> {
    /// The component as it is now.
    pub open spec fn view(&self) -> C {
        self.inner.data
    }

    /// Reads the component.
    pub fn get(&self) -> (c: &C)
        ensures
            *c == self@,
    {
        &self.inner.data
    }

    /// Replaces the component and returns the one that was there.
    pub fn replace(&mut self, value: C) -> (previous: C)
        ensures
            previous == old(self)@,
            *final(self).inner == (FactoryHandle { data: value, ..*old(self).inner }),
            *final(final(self).inner) == *final(old(self).inner),
    {
        let mut value = value;
        std::mem::swap(&mut self.inner.data, &mut value);
        value
    }
}

impl<'a, C: FactoryComponent> std::ops::Deref for FactoryElementGuard<'a, C> {
    type Target = C;

    /// Reads the component.
    fn deref(&self) -> (c: &C)
        ensures
            *c == self@,
    {
        &self.inner.data
    }
}

impl<'a, C: FactoryComponent> std::ops::DerefMut for FactoryElementGuard<'a, C> {
    /// Hands out the component to be changed in place.
    fn deref_mut(&mut self) -> (c: &mut C)
        ensures
            *c == old(self)@,
            *final(self).inner == (FactoryHandle { data: *final(c), ..*old(self).inner }),
            *final(final(self).inner) == *final(old(self).inner),
    {
        &mut self.inner.data
    }
}

impl<K: Hash + Eq, C: FactoryComponent<Index = K>, S: BuildHasher> std::ops::Index<&K> for FactoryHashMap<K, C, S> {
    type Output = C;

    /// The component stored under `key`, which must be there.
    fn index(&self, key: &K) -> (c: &C)
        ensures
            *c == self@[*key],
    {
        self.get(key).unwrap()
    }
}

impl<K: Hash + Eq, C: FactoryComponent<Index = K>, S: BuildHasher> vstd::std_specs::core::IndexSpecImpl<&K> for FactoryHashMap<K, C, S> {
    open spec fn index_req(&self, index: &&K) -> bool {
        Self::key_model() && self@.contains_key(**index)
    }
}

impl<K, C: FactoryComponent> FactoryHashMap<K, C, RandomState> {
    /// Creates an empty collection whose components attach to `widget`.
    #[must_use]
    pub fn new(widget: C::ParentWidget) -> (m: Self)
        ensures
            m@ == Map::<K, C>::empty(),
            m@.dom().finite(),
            m.handles() == Map::<K, FactoryHandle<C>>::empty(),
            m.spec_widget() == widget,
            m.pending() == Seq::<Delivery<K, C::Input>>::empty(),
    {
        let m = FactoryHashMap { widget, inner: HashMap::new(), outbox: Vec::new() };
        proof {
            assert(m@ =~= Map::<K, C>::empty());
        }
        m
    }
}

impl<K, C: FactoryComponent, S> FactoryHashMap<K, C, S> {
    /// The handles by key.
    pub closed spec fn handles(&self) -> Map<K, FactoryHandle<C>> {
        self.inner@
    }

    /// The components by key.
    pub open spec fn view(&self) -> Map<K, C> {
        self.handles().map_values(|h: FactoryHandle<C>| h.data)
    }

    /// The parent widget.
    pub closed spec fn spec_widget(&self) -> C::ParentWidget {
        self.widget
    }

    /// The messages that were sent and not yet taken, oldest first.
    pub closed spec fn pending(&self) -> Seq<Delivery<K, C::Input>> {
        self.outbox@
    }

    /// Whether the parent's `factory_remove` was called on what it had
    /// returned for `handle`, and met what it promises there.
    pub open spec fn detached(widget: C::ParentWidget, handle: FactoryHandle<C>) -> bool {
        call_ensures(C::ParentWidget::factory_remove, (&widget, &handle.returned_widget), ())
    }

    /// A collection holds finitely many components, whatever hashes its
    /// keys: their number changes with every key that comes or goes, and it
    /// is zero exactly where the collection is empty.
    pub proof fn lemma_finite(&self)
        ensures
            self@.dom().finite(),
            self.handles().dom().finite(),
            self@.is_empty() <==> self@.len() == 0,
    {
        let keys = spec_keys_iter(&self.inner).remaining();
        vstd::seq_lib::seq_to_set_is_finite(keys.unref());
        assert(self@.dom() =~= self.handles().dom());
        if self@.len() == 0 {
            self@.dom().lemma_len0_is_empty();
        }
    }

    /// Whether keys of type `K` hashed by `S` behave as a map's keys must.
    pub open spec fn key_model() -> bool {
        obeys_key_model::<K>() && builds_valid_hashers::<S>()
    }

    /// Creates an empty collection that hashes its keys with `hash_builder`.
    #[must_use]
    pub fn width_hasher(widget: C::ParentWidget, hash_builder: S) -> (m: Self)
        ensures
            m@ == Map::<K, C>::empty(),
            m@.dom().finite(),
            m.handles() == Map::<K, FactoryHandle<C>>::empty(),
            m.spec_widget() == widget,
            m.pending() == Seq::<Delivery<K, C::Input>>::empty(),
    {
        let m = FactoryHashMap { widget, inner: HashMap::with_hasher(hash_builder), outbox: Vec::new() };
        proof {
            assert(m@ =~= Map::<K, C>::empty());
        }
        m
    }

    /// The number of components.
    pub fn len(&self) -> (n: usize)
        requires
            Self::key_model(),
        ensures
            n == self@.len(),
            self@.dom().finite(),
    {
        proof {
            assert(self@.dom() =~= self.handles().dom());
            self.lemma_finite();
        }
        self.inner.len()
    }

    /// Whether the collection holds no component.
    pub fn is_empty(&self) -> (b: bool)
        ensures
            b == self@.is_empty(),
            b == (self@.len() == 0),
            self@.dom().finite(),
    {
        proof {
            assert(self@.dom() =~= self.handles().dom());
            self.lemma_finite();
        }
        self.inner.is_empty()
    }

    /// Queues `msg` for every component.
    pub fn broadcast(&mut self, msg: C::Input)
        ensures
            final(self).pending() == old(self).pending().push(Delivery::All(msg)),
            final(self).handles() == old(self).handles(),
            final(self).spec_widget() == old(self).spec_widget(),
    {
        self.outbox.push(Delivery::All(msg));
    }

    /// The keys of the pairs that `iter` returned.
    pub open spec fn pair_keys(pairs: Seq<(&K, &C)>) -> Seq<K> {
        Seq::new(pairs.len(), |i: int| *pairs[i].0)
    }

    /// Every key once, in no particular order, each with its component.
    pub fn iter(&self) -> (out: Vec<(&K, &C)>)
        requires
            Self::key_model(),
        ensures
            Self::pair_keys(out@).no_duplicates(),
            Self::pair_keys(out@).to_set() == self@.dom(),
            forall|i: int| 0 <= i < out@.len() ==> *(#[trigger] out@[i]).1 == self@[*out@[i].0],
    {
        let mut out: Vec<(&K, &C)> = Vec::new();
        for pair in it: self.inner.iter()
            invariant
                it.seq() == spec_hash_map_iter(&self.inner).remaining(),
                out@.len() == it.index(),
                forall|j: int|
                    0 <= j < it.index() ==> *(#[trigger] out@[j]).0 == *it.seq()[j].0 && *out@[j].1
                        == it.seq()[j].1.data,
        {
            out.push((pair.0, &pair.1.data));
        }
        proof {
            let all = spec_hash_map_iter(&self.inner).remaining();
            let keys = Self::pair_keys(out@);
            assert(self@.dom() =~= self.handles().dom());
            assert forall|i: int, j: int| 0 <= i < keys.len() && 0 <= j < keys.len() && i != j implies keys[i]
                != keys[j] by {
                if keys[i] == keys[j] {
                    assert(*out@[i].0 == *all[i].0);
                    assert(*out@[j].0 == *all[j].0);
                    assert(self.handles().contains_key(*all[i].0));
                    assert(self.handles().contains_key(*all[j].0));
                    assert(all[i] == all[j]);
                }
            }
            assert forall|k: K| keys.to_set().contains(k) <==> self@.dom().contains(k) by {
                if keys.contains(k) {
                    let i = choose|i: int| 0 <= i < keys.len() && keys[i] == k;
                    assert(*out@[i].0 == *all[i].0);
                    assert(self.handles().contains_key(*all[i].0));
                }
                if self.handles().contains_key(k) {
                    assert(all.contains((&k, &self.handles()[k])));
                    let i = choose|i: int| 0 <= i < all.len() && all[i] == (&k, &self.handles()[k]);
                    assert(*out@[i].0 == *all[i].0);
                    assert(keys[i] == k);
                }
            }
            assert(keys.to_set() =~= self@.dom());
            assert forall|i: int| 0 <= i < out@.len() implies *(#[trigger] out@[i]).1 == self@[*out@[i].0] by {
                assert(*out@[i].0 == *all[i].0);
                assert(self.handles().contains_key(*all[i].0));
            }
        }
        out
    }

    /// The components, one for each key, in no particular order.
    pub fn values(&self) -> (out: Vec<&C>)
        requires
            Self::key_model(),
        ensures
            exists|keys: Seq<K>|
                {
                    &&& keys.no_duplicates()
                    &&& keys.to_set() == self@.dom()
                    &&& #[trigger] keys.len() == out@.len()
                    &&& forall|i: int| 0 <= i < keys.len() ==> *out@[i] == self@[#[trigger] keys[i]]
                },
    {
        let pairs = self.iter();
        let mut out: Vec<&C> = Vec::new();
        let mut i: usize = 0;
        while i < pairs.len()
            invariant
                i <= pairs.len(),
                out@.len() == i,
                forall|j: int| 0 <= j < i ==> *(#[trigger] out@[j]) == *pairs@[j].1,
            decreases pairs.len() - i,
        {
            out.push(pairs[i].1);
            i += 1;
        }
        proof {
            let keys = Self::pair_keys(pairs@);
            assert forall|j: int| 0 <= j < keys.len() implies *out@[j] == self@[#[trigger] keys[j]] by {
                assert(*pairs@[j].1 == self@[*pairs@[j].0]);
            }
            assert(keys.len() == out@.len());
        }
        out
    }

    /// The keys, each once, in no particular order.
    pub fn keys(&self) -> (out: Vec<&K>)
        requires
            Self::key_model(),
        ensures
            out@.no_duplicates(),
            out@.unref().to_set() == self@.dom(),
    {
        let mut out: Vec<&K> = Vec::new();
        for key in it: self.inner.keys()
            invariant
                it.seq() == spec_keys_iter(&self.inner).remaining(),
                out@ == it.seq().take(it.index()),
        {
            out.push(key);
        }
        proof {
            assert(out@ =~= spec_keys_iter(&self.inner).remaining());
            assert(self@.dom() =~= self.handles().dom());
        }
        out
    }

    /// The widget that all components are attached to.
    pub fn widget(&self) -> (w: &C::ParentWidget)
        ensures
            *w == self.spec_widget(),
    {
        &self.widget
    }

    /// Hands out the queued messages, oldest first, and empties the queue.
    pub fn take_pending(&mut self) -> (out: Vec<Delivery<K, C::Input>>)
        ensures
            out@ == old(self).pending(),
            final(self).pending() == Seq::<Delivery<K, C::Input>>::empty(),
            final(self).handles() == old(self).handles(),
            final(self).spec_widget() == old(self).spec_widget(),
    {
        let mut out = Vec::new();
        std::mem::swap(&mut self.outbox, &mut out);
        out
    }

    /// Detaches every component from the parent widget and drops it.
    pub fn clear(&mut self)
        requires
            Self::key_model(),
        ensures
            final(self)@ == Map::<K, C>::empty(),
            final(self)@.dom().finite(),
            final(self).handles() == Map::<K, FactoryHandle<C>>::empty(),
            forall|k: K| #[trigger]
                old(self).handles().contains_key(k) ==> Self::detached(
                    old(self).spec_widget(),
                    old(self).handles()[k],
                ),
            final(self).spec_widget() == old(self).spec_widget(),
            final(self).pending() == old(self).pending(),
    {
        for pair in it: self.inner.iter()
            invariant
                it.seq() == spec_hash_map_iter(&self.inner).remaining(),
                forall|j: int| 0 <= j < it.index() ==> Self::detached(self.widget, *(#[trigger] it.seq()[j]).1),
        {
            self.widget.factory_remove(&pair.1.returned_widget);
        }
        proof {
            let all = spec_hash_map_iter(&self.inner).remaining();
            assert forall|k: K| #[trigger] self.handles().contains_key(k) implies Self::detached(
                self.widget,
                self.handles()[k],
            ) by {
                assert(all.contains((&k, &self.handles()[k])));
                let i = choose|i: int| 0 <= i < all.len() && all[i] == (&k, &self.handles()[k]);
                assert(Self::detached(self.widget, *all[i].1));
            }
        }
        self.inner.clear();
        proof {
            assert(self@ =~= Map::<K, C>::empty());
        }
    }
}

impl<K: Hash + Eq, C: FactoryComponent<Index = K>> FactoryHashMap<K, C, RandomState> {
    /// Whether `c` is what `init_model` built from the pair `i`, which is the
    /// last pair with the key `k` among the first `upto` pairs.
    pub open spec fn built_from(pairs: Seq<(K, C::Init)>, upto: int, k: K, i: int, c: C) -> bool {
        &&& 0 <= i < upto <= pairs.len()
        &&& pairs[i].0 == k
        &&& forall|j: int| i < j < upto ==> (#[trigger] pairs[j]).0 != k
        &&& call_ensures(C::init_model, (pairs[i].1, &k), c)
    }

    /// Whether a pair with the key of the pair `i` follows it among the
    /// first `upto` pairs.
    pub open spec fn has_later(pairs: Seq<(K, C::Init)>, upto: int, i: int) -> bool {
        exists|j: int| i < j < upto && (#[trigger] pairs[j]).0 == pairs[i].0
    }

    /// Whether `handle` holds a component that `init_model` built from the
    /// pair `i` and that was attached to `widget` and detached again.
    pub open spec fn replaced(
        pairs: Seq<(K, C::Init)>,
        widget: C::ParentWidget,
        i: int,
        handle: FactoryHandle<C>,
    ) -> bool {
        &&& call_ensures(C::init_model, (pairs[i].1, &pairs[i].0), handle.data)
        &&& Self::attached(widget, pairs[i].0, handle)
        &&& Self::detached(widget, handle)
    }

    /// Creates a collection and inserts a component for each pair of
    /// `component_vec`, in order. The component under a key is built from the
    /// last pair with that key and is attached to `widget`; the component of
    /// a pair that another with the same key follows was attached and
    /// detached again.
    pub fn from_vec(component_vec: Vec<(K, C::Init)>, widget: C::ParentWidget) -> (m: Self)
        requires
            Self::key_model(),
        ensures
            m@.dom() == component_vec@.map_values(|p: (K, C::Init)| p.0).to_set(),
            m@.dom().finite(),
            forall|k: K| #[trigger]
                m@.contains_key(k) ==> exists|i: int| #[trigger]
                    Self::built_from(component_vec@, component_vec@.len() as int, k, i, m@[k]),
            forall|k: K| #[trigger]
                m.handles().contains_key(k) ==> Self::attached(widget, k, m.handles()[k]) && !m.handles()[k].notified,
            forall|i: int|
                0 <= i < component_vec@.len() && #[trigger] Self::has_later(
                    component_vec@,
                    component_vec@.len() as int,
                    i,
                ) ==> exists|h: FactoryHandle<C>| #[trigger] Self::replaced(component_vec@, widget, i, h),
            m.spec_widget() == widget,
            m.pending() == Seq::<Delivery<K, C::Input>>::empty(),
    {
        let ghost keys = component_vec@.map_values(|p: (K, C::Init)| p.0);
        let mut output = Self::new(widget);
        for pair in it: component_vec
            invariant
                Self::key_model(),
                it.seq() == component_vec@,
                keys == component_vec@.map_values(|p: (K, C::Init)| p.0),
                output@.dom() == keys.take(it.index()).to_set(),
                forall|k: K| #[trigger]
                    output@.contains_key(k) ==> exists|i: int| #[trigger]
                        Self::built_from(component_vec@, it.index(), k, i, output@[k]),
                forall|k: K| #[trigger]
                    output.handles().contains_key(k) ==> Self::attached(widget, k, output.handles()[k])
                        && !output.handles()[k].notified,
                forall|i: int|
                    0 <= i < it.index() && #[trigger] Self::has_later(component_vec@, it.index(), i)
                        ==> exists|h: FactoryHandle<C>| #[trigger] Self::replaced(component_vec@, widget, i, h),
                output.spec_widget() == widget,
                output.pending() == Seq::<Delivery<K, C::Input>>::empty(),
        {
            let ghost before = output@;
            let ghost before_handles = output.handles();
            let ghost n = it.index();
            let (key, init) = pair;
            let ghost new_key = key;
            let ghost new_init = init;
            let _ = output.insert(key, init);
            proof {
                assert(keys[n] == new_key);
                assert(keys.take(n + 1) =~= keys.take(n).push(new_key));
                keys.take(n).lemma_push_to_set_commute(new_key);
                assert(component_vec@[n] == (new_key, new_init));
                assert forall|k: K| #[trigger] output@.contains_key(k) implies exists|i: int| #[trigger]
                    Self::built_from(component_vec@, n + 1, k, i, output@[k]) by {
                    if k == new_key {
                        assert(Self::built_from(component_vec@, n + 1, k, n, output@[k]));
                    } else {
                        assert(before.contains_key(k));
                        let i = choose|i: int| #[trigger]
                            Self::built_from(component_vec@, n, k, i, before[k]);
                        assert(output@[k] == before[k]);
                        assert(Self::built_from(component_vec@, n + 1, k, i, output@[k]));
                    }
                }
                assert forall|i: int|
                    0 <= i < n + 1 && #[trigger] Self::has_later(component_vec@, n + 1, i) implies exists|
                    h: FactoryHandle<C>,
                | #[trigger] Self::replaced(component_vec@, widget, i, h) by {
                    let j = choose|j: int| i < j < n + 1 && (#[trigger] component_vec@[j]).0 == component_vec@[i].0;
                    if j < n {
                        assert(Self::has_later(component_vec@, n, i));
                    } else if !Self::has_later(component_vec@, n, i) {
                        assert(keys[i] == new_key);
                        assert(keys.take(n)[i] == new_key);
                        assert(before.contains_key(new_key));
                        assert(before.dom() =~= before_handles.dom());
                        let last = choose|last: int| #[trigger]
                            Self::built_from(component_vec@, n, new_key, last, before[new_key]);
                        if last < i {
                            assert(component_vec@[i].0 != new_key);
                        }
                        if i < last {
                            assert(component_vec@[last].0 == component_vec@[i].0);
                        }
                        assert(last == i);
                        assert(Self::replaced(component_vec@, widget, i, before_handles[new_key]));
                    }
                }
            }
        }
        proof {
            assert(keys.take(keys.len() as int) =~= keys);
        }
        output
    }
}

impl<K: Clone + Hash + Eq, C: CloneableFactoryComponent + FactoryComponent<Index = K>> FactoryHashMap<
    K,
    C,
    RandomState,
> where C::ParentWidget: Clone {
    /// Whether `copy` is what `init_model` built under `key` from what
    /// `get_init` read from `c`.
    pub open spec fn rebuilt(c: C, key: K, copy: C) -> bool {
        exists|init: C::Init|
            call_ensures(C::get_init, (&c,), init) && #[trigger] call_ensures(C::init_model, (init, &key), copy)
    }

    /// Whether `key` is a clone of the key of a component of `from`, and
    /// `copy` was built anew from that component.
    pub open spec fn copied(from: Map<K, C>, k: K, key: K, copy: C) -> bool {
        from.contains_key(k) && vstd::pervasive::cloned(k, key) && Self::rebuilt(from[k], key, copy)
    }

    /// A collection on a clone of the parent widget. Under a clone of each
    /// key it holds a component that was built anew from what `get_init`
    /// reads from the component under that key, and attached to the clone of
    /// the widget. No message is queued in it.
    pub fn clone(&self) -> (copy: Self)
        requires
            Self::key_model(),
        ensures
            vstd::pervasive::cloned(self.spec_widget(), copy.spec_widget()),
            forall|k: K| #[trigger]
                self@.contains_key(k) ==> exists|key: K|
                    vstd::pervasive::cloned(k, key) && #[trigger] copy@.contains_key(key),
            forall|key: K| #[trigger]
                copy@.contains_key(key) ==> exists|k: K| #[trigger] Self::copied(self@, k, key, copy@[key]),
            forall|key: K| #[trigger]
                copy.handles().contains_key(key) ==> Self::attached(
                    copy.spec_widget(),
                    key,
                    copy.handles()[key],
                ),
            copy@.dom().finite(),
            copy.pending() == Seq::<Delivery<K, C::Input>>::empty(),
    {
        let mut copy = Self::new(self.widget.clone());
        let ghost widget = copy.spec_widget();
        let pairs = self.iter();
        proof {
            let keys = Self::pair_keys(pairs@);
            assert forall|j: int| 0 <= j < pairs@.len() implies self@.contains_key(*(#[trigger] pairs@[j]).0) by {
                assert(keys[j] == *pairs@[j].0);
                assert(keys.to_set().contains(keys[j]));
            }
        }
        let mut i: usize = 0;
        while i < pairs.len()
            invariant
                Self::key_model(),
                i <= pairs.len(),
                copy.spec_widget() == widget,
                copy@.dom().finite(),
                copy.pending() == Seq::<Delivery<K, C::Input>>::empty(),
                forall|j: int|
                    0 <= j < pairs@.len() ==> self@.contains_key(*(#[trigger] pairs@[j]).0) && *pairs@[j].1
                        == self@[*pairs@[j].0],
                forall|j: int|
                    0 <= j < i ==> exists|key: K|
                        vstd::pervasive::cloned(*(#[trigger] pairs@[j]).0, key) && #[trigger] copy@.contains_key(
                            key,
                        ),
                forall|key: K| #[trigger]
                    copy@.contains_key(key) ==> exists|k: K| #[trigger] Self::copied(self@, k, key, copy@[key]),
                forall|key: K| #[trigger]
                    copy.handles().contains_key(key) ==> Self::attached(widget, key, copy.handles()[key]),
            decreases pairs.len() - i,
        {
            let ghost before = copy@;
            let ghost before_handles = copy.handles();
            let (k, item) = pairs[i];
            let init = item.get_init();
            let key = k.clone();
            let ghost new_key = key;
            let _ = copy.insert(key, init);
            proof {
                assert(before.dom() =~= before_handles.dom());
                assert(copy@.dom() =~= copy.handles().dom());
                assert(Self::rebuilt(*item, new_key, copy@[new_key]));
                assert(Self::copied(self@, *k, new_key, copy@[new_key]));
                assert forall|j: int| 0 <= j < i + 1 implies exists|key: K|
                    vstd::pervasive::cloned(*(#[trigger] pairs@[j]).0, key) && #[trigger] copy@.contains_key(
                        key,
                    ) by {
                    if j < i {
                        let had = choose|key: K|
                            vstd::pervasive::cloned(*pairs@[j].0, key) && #[trigger] before.contains_key(key);
                        assert(copy@.contains_key(had));
                    } else {
                        assert(copy@.contains_key(new_key));
                    }
                }
                assert forall|key: K| #[trigger] copy@.contains_key(key) implies exists|k: K| #[trigger]
                    Self::copied(self@, k, key, copy@[key]) by {
                    if key != new_key {
                        assert(before.contains_key(key));
                        let from = choose|from: K| #[trigger] Self::copied(self@, from, key, before[key]);
                        assert(copy@[key] == before[key]);
                        assert(Self::copied(self@, from, key, copy@[key]));
                    }
                }
                assert forall|key: K| #[trigger] copy.handles().contains_key(key) implies Self::attached(
                    widget,
                    key,
                    copy.handles()[key],
                ) by {
                    if key != new_key {
                        assert(before_handles.contains_key(key));
                    }
                }
            }
            i += 1;
        }
        proof {
            let keys = Self::pair_keys(pairs@);
            assert forall|k: K| #[trigger] self@.contains_key(k) implies exists|key: K|
                vstd::pervasive::cloned(k, key) && #[trigger] copy@.contains_key(key) by {
                assert(keys.to_set().contains(k));
                let j = choose|j: int| 0 <= j < keys.len() && keys[j] == k;
                assert(*pairs@[j].0 == k);
            }
        }
        copy
    }
}

impl<K: Hash + Eq, C: FactoryComponent<Index = K>, S: BuildHasher> FactoryHashMap<K, C, S> {
    /// Whether `handle` holds what the parent's `factory_append` returned for
    /// the root widget of the handle's component, at the position that the
    /// component has under `key`.
    pub open spec fn attached(widget: C::ParentWidget, key: K, handle: FactoryHandle<C>) -> bool {
        exists|root: <C::ParentWidget as FactoryView>::Children, position: <C::ParentWidget as FactoryView>::Position|
            {
                &&& call_ensures(C::init_root, (&handle.data,), root)
                &&& call_ensures(C::position, (&handle.data, &key), position)
                &&& #[trigger] call_ensures(
                    C::ParentWidget::factory_append,
                    (&widget, &root, &position),
                    handle.returned_widget,
                )
            }
    }

    /// Queues `msg` for the component stored under `key`.
    pub fn send(&mut self, key: K, msg: C::Input)
        requires
            old(self)@.contains_key(key),
        ensures
            final(self).pending() == old(self).pending().push(Delivery::To(key, msg)),
            final(self).handles() == old(self).handles(),
            final(self).spec_widget() == old(self).spec_widget(),
    {
        self.outbox.push(Delivery::To(key, msg));
    }

    /// The component stored under `key`, if there is one.
    pub fn get(&self, key: &K) -> (r: Option<&C>)
        requires
            Self::key_model(),
        ensures
            match r {
                Some(c) => self@.contains_key(*key) && *c == self@[*key],
                None => !self@.contains_key(*key),
            },
    {
        match self.inner.get(key) {
            Some(h) => Some(&h.data),
            None => None,
        }
    }

    /// The component stored under `key`, which must be there: what square
    /// brackets read.
    pub fn index(&self, key: &K) -> (c: &C)
        requires
            Self::key_model(),
            self@.contains_key(*key),
        ensures
            *c == self@[*key],
    {
        self.get(key).unwrap()
    }

    /// Mutable access to the component stored under `key`, if there is one.
    /// The handle is marked as notified.
    pub fn get_mut(&mut self, key: &K) -> (r: Option<FactoryElementGuard<'_, C>>)
        requires
            Self::key_model(),
        ensures
            final(self).spec_widget() == old(self).spec_widget(),
            final(self).pending() == old(self).pending(),
            final(self)@.dom() == old(self)@.dom(),
            match r {
                Some(guard) => {
                    &&& old(self).handles().contains_key(*key)
                    &&& *guard.inner == (FactoryHandle {
                        notified: true,
                        ..old(self).handles()[*key]
                    })
                    &&& final(self).handles() == old(self).handles().insert(
                        *key,
                        *final(guard.inner),
                    )
                },
                None => !old(self).handles().contains_key(*key) && final(self).handles() == old(
                    self,
                ).handles(),
            },
    {
        match map_get_mut(&mut self.inner, key) {
            Some(handle) => {
                handle.notified = true;
                Some(FactoryElementGuard { inner: handle })
            },
            None => None,
        }
    }

    /// Stores `data` under `key` and attaches its widget to the parent. A
    /// component that was stored under `key` is detached and returned.
    pub fn insert_component(&mut self, key: K, data: C) -> (previous: Option<C>)
        requires
            Self::key_model(),
        ensures
            final(self)@ == old(self)@.insert(key, data),
            final(self)@.dom().finite(),
            final(self).handles().dom() == old(self).handles().dom().insert(key),
            final(self).handles()[key].data == data,
            !final(self).handles()[key].notified,
            Self::attached(old(self).spec_widget(), key, final(self).handles()[key]),
            old(self).handles().contains_key(key) ==> Self::detached(
                old(self).spec_widget(),
                old(self).handles()[key],
            ),
            forall|k: K|
                k != key && old(self).handles().contains_key(k) ==> final(self).handles()[k] == old(
                    self,
                ).handles()[k],
            previous == if old(self)@.contains_key(key) {
                Some(old(self)@[key])
            } else {
                None::<C>
            },
            final(self).spec_widget() == old(self).spec_widget(),
            final(self).pending() == old(self).pending(),
    {
        let existing = self.remove(&key);
        let ghost rest = self@;
        let ghost rest_handles = self.handles();
        let root = data.init_root();
        let position = data.position(&key);
        let returned_widget = self.widget.factory_append(&root, &position);
        let handle = FactoryHandle { data, returned_widget, notified: false };
        proof {
            assert(call_ensures(
                C::ParentWidget::factory_append,
                (&self.widget, &root, &position),
                handle.returned_widget,
            ));
            assert(Self::attached(self.widget, key, handle));
        }
        let _ = self.inner.insert(key, handle);
        proof {
            assert(self@.dom() =~= rest.dom().insert(key));
            assert forall|k: K| self@.contains_key(k) implies #[trigger] self@[k] == old(self)@.insert(
                key,
                data,
            )[k] by {
                if k != key {
                    assert(rest_handles.contains_key(k));
                    assert(rest.contains_key(k));
                    assert(self.handles()[k] == rest_handles[k]);
                    assert(rest[k] == rest_handles[k].data);
                } else {
                    assert(self.handles()[k].data == data);
                }
            }
            assert(self@ =~= old(self)@.insert(key, data));
            self.lemma_finite();
        }
        existing
    }

    /// Builds a component from `init`, stores it under `key` and attaches its
    /// widget to the parent. A component that was stored under `key` is
    /// detached and returned.
    pub fn insert(&mut self, key: K, init: C::Init) -> (previous: Option<C>)
        requires
            Self::key_model(),
        ensures
            final(self)@.dom() == old(self)@.dom().insert(key),
            final(self)@.dom().finite(),
            call_ensures(C::init_model, (init, &key), final(self)@[key]),
            forall|k: K| k != key && old(self)@.contains_key(k) ==> final(self)@[k] == old(self)@[k],
            final(self).handles().dom() == old(self).handles().dom().insert(key),
            !final(self).handles()[key].notified,
            Self::attached(old(self).spec_widget(), key, final(self).handles()[key]),
            old(self).handles().contains_key(key) ==> Self::detached(
                old(self).spec_widget(),
                old(self).handles()[key],
            ),
            forall|k: K|
                k != key && old(self).handles().contains_key(k) ==> final(self).handles()[k] == old(
                    self,
                ).handles()[k],
            previous == if old(self)@.contains_key(key) {
                Some(old(self)@[key])
            } else {
                None::<C>
            },
            final(self).spec_widget() == old(self).spec_widget(),
            final(self).pending() == old(self).pending(),
    {
        let data = C::init_model(init, &key);
        self.insert_component(key, data)
    }

    /// Detaches the component stored under `key` from the parent and returns
    /// it, if there is one.
    pub fn remove(&mut self, key: &K) -> (r: Option<C>)
        requires
            Self::key_model(),
        ensures
            final(self)@ == old(self)@.remove(*key),
            final(self)@.dom().finite(),
            final(self).handles() == old(self).handles().remove(*key),
            old(self).handles().contains_key(*key) ==> Self::detached(
                old(self).spec_widget(),
                old(self).handles()[*key],
            ),
            r == if old(self)@.contains_key(*key) {
                Some(old(self)@[*key])
            } else {
                None::<C>
            },
            final(self).spec_widget() == old(self).spec_widget(),
            final(self).pending() == old(self).pending(),
    {
        if let Some(handle) = self.inner.remove(key) {
            self.widget.factory_remove(&handle.returned_widget);
            proof {
                assert(self@ =~= old(self)@.remove(*key));
                self.lemma_finite();
            }
            Some(handle.data)
        } else {
            proof {
                assert(self@ =~= old(self)@.remove(*key));
                self.lemma_finite();
            }
            None
        }
    }
}

} // verus!
