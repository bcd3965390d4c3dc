//! A map from names to values that keeps its entries in the order of the
//! names' texts.
//!
//! The entries stand in two vectors of equal length, one of names and one of
//! values, sorted strictly by the text of the name. A lookup is a binary
//! search; walking the map yields the entries in the order of their names.

use crate::names::Name;
use crate::text::{before, lemma_asymmetric, lemma_transitive, standing};
use vstd::prelude::*;

verus! {

/// Each text comes before all that follow it.
pub open spec fn sorted(texts: Seq<Seq<char>>) -> bool {
    forall|i: int, j: int|
        0 <= i < j < texts.len() ==> before(#[trigger] texts[i], #[trigger] texts[j])
}

/// The map that a sequence of texts and the sequence of their values stand
/// for.
pub open spec fn model<V>(texts: Seq<Seq<char>>, items: Seq<V>) -> Map<Seq<char>, V> {
    Map::new(|t: Seq<char>| texts.contains(t), |t: Seq<char>| items[texts.index_of(t)])
}

/// `name` belongs at position `i` of `texts`: what stands before `i` comes
/// before it, and it comes before what stands from `i` on.
pub open spec fn belongs_at(texts: Seq<Seq<char>>, name: Seq<char>, i: int) -> bool {
    &&& 0 <= i <= texts.len()
    &&& forall|j: int| 0 <= j < i ==> before(#[trigger] texts[j], name)
    &&& forall|j: int| i <= j < texts.len() ==> before(name, #[trigger] texts[j])
}

/// In a sorted sequence no text stands twice.
pub proof fn lemma_sorted_unique(texts: Seq<Seq<char>>, i: int, j: int)
    requires
        sorted(texts),
        0 <= i < texts.len(),
        0 <= j < texts.len(),
        texts[i] == texts[j],
    ensures
        i == j,
{
    lemma_asymmetric(texts[i], texts[j]);
}

/// A text that belongs at some position of a sorted sequence is not in it.
pub proof fn lemma_belongs_absent(texts: Seq<Seq<char>>, name: Seq<char>, i: int)
    requires
        belongs_at(texts, name, i),
    ensures
        !texts.contains(name),
{
    lemma_asymmetric(name, name);
}

/// The model maps the text at a position to the value at that position.
pub proof fn lemma_model_at<V>(texts: Seq<Seq<char>>, items: Seq<V>, i: int)
    requires
        sorted(texts),
        0 <= i < texts.len(),
    ensures
        model(texts, items).contains_key(texts[i]),
        model(texts, items)[texts[i]] == items[i],
{
    assert(texts.contains(texts[i]));
    lemma_sorted_unique(texts, i, texts.index_of(texts[i]));
}

/// Putting an entry where its name belongs keeps the sequence sorted and
/// inserts the entry into the model.
pub proof fn lemma_model_insert<V>(
    texts: Seq<Seq<char>>,
    items: Seq<V>,
    i: int,
    name: Seq<char>,
    item: V,
)
    requires
        sorted(texts),
        texts.len() == items.len(),
        belongs_at(texts, name, i),
    ensures
        sorted(texts.insert(i, name)),
        model(texts.insert(i, name), items.insert(i, item)) == model(texts, items).insert(
            name,
            item,
        ),
{
    let texts2 = texts.insert(i, name);
    let items2 = items.insert(i, item);
    assert forall|a: int, b: int| 0 <= a < b < texts2.len() implies before(
        #[trigger] texts2[a],
        #[trigger] texts2[b],
    ) by {
        let a0 = if a < i { a } else { a - 1 };
        let b0 = if b < i { b } else { b - 1 };
        if a != i && b != i {
            assert(before(texts[a0], texts[b0]));
        }
    }
    let left = model(texts2, items2);
    let right = model(texts, items).insert(name, item);
    assert forall|t: Seq<char>| left.contains_key(t) == right.contains_key(t) by {
        if texts2.contains(t) {
            let k = texts2.index_of(t);
            if k != i {
                let k0 = if k < i { k } else { k - 1 };
                assert(texts[k0] == t);
            }
        }
        if texts.contains(t) {
            let k = texts.index_of(t);
            let k2 = if k < i { k } else { k + 1 };
            assert(texts2[k2] == t);
        }
        if t == name {
            assert(texts2[i] == t);
        }
    }
    assert forall|t: Seq<char>| left.contains_key(t) implies left[t] == right[t] by {
        let k = texts2.index_of(t);
        lemma_model_at(texts2, items2, k);
        if t == name {
            lemma_sorted_unique(texts2, k, i);
        } else {
            let k0 = if k < i { k } else { k - 1 };
            lemma_model_at(texts, items, k0);
        }
    }
    assert(left =~= right);
}

/// Replacing the value at a position replaces it in the model.
pub proof fn lemma_model_update<V>(texts: Seq<Seq<char>>, items: Seq<V>, i: int, item: V)
    requires
        sorted(texts),
        texts.len() == items.len(),
        0 <= i < texts.len(),
    ensures
        model(texts, items.update(i, item)) == model(texts, items).insert(texts[i], item),
{
    let items2 = items.update(i, item);
    let left = model(texts, items2);
    let right = model(texts, items).insert(texts[i], item);
    assert(texts.contains(texts[i]));
    assert forall|t: Seq<char>| left.contains_key(t) implies left[t] == right[t] by {
        let k = texts.index_of(t);
        lemma_model_at(texts, items2, k);
        lemma_model_at(texts, items, k);
    }
    assert(left =~= right);
}

/// Taking the entry at a position away keeps the sequence sorted and removes
/// the entry from the model.
pub proof fn lemma_model_remove<V>(texts: Seq<Seq<char>>, items: Seq<V>, i: int)
    requires
        sorted(texts),
        texts.len() == items.len(),
        0 <= i < texts.len(),
    ensures
        sorted(texts.remove(i)),
        model(texts.remove(i), items.remove(i)) == model(texts, items).remove(texts[i]),
{
    let texts2 = texts.remove(i);
    let items2 = items.remove(i);
    assert forall|a: int, b: int| 0 <= a < b < texts2.len() implies before(
        #[trigger] texts2[a],
        #[trigger] texts2[b],
    ) by {
        let a0 = if a < i { a } else { a + 1 };
        let b0 = if b < i { b } else { b + 1 };
        assert(before(texts[a0], texts[b0]));
    }
    let left = model(texts2, items2);
    let right = model(texts, items).remove(texts[i]);
    assert forall|t: Seq<char>| left.contains_key(t) == right.contains_key(t) by {
        if texts2.contains(t) {
            let k = texts2.index_of(t);
            let k0 = if k < i { k } else { k + 1 };
            assert(texts[k0] == t);
            if t == texts[i] {
                lemma_sorted_unique(texts, k0, i);
            }
        }
        if texts.contains(t) && t != texts[i] {
            let k = texts.index_of(t);
            let k2 = if k < i { k } else { k - 1 };
            assert(texts2[k2] == t);
        }
    }
    assert forall|t: Seq<char>| left.contains_key(t) implies left[t] == right[t] by {
        let k = texts2.index_of(t);
        let k0 = if k < i { k } else { k + 1 };
        lemma_model_at(texts2, items2, k);
        lemma_model_at(texts, items, k0);
    }
    assert(left =~= right);
}

/// A map from names to values, in the order of the names' texts.
#[derive(Debug)]
pub struct NameMap<K: Name, V> {
    names: Vec<K>,
    values: Vec<V>,
}

impl<K: Name, V> View for NameMap<K, V> {
    type V = Map<Seq<char>, V>;

    open spec fn view(&self) -> Map<Seq<char>, V> {
        model(self.texts(), self.items())
    }
}

impl<K: Name, V> NameMap<K, V> {
    #[verifier::type_invariant]
    spec fn well_formed(self) -> bool {
        &&& self.names@.len() == self.values@.len()
        &&& sorted(self.texts())
    }

    /// The texts of the names, in order.
    pub closed spec fn texts(self) -> Seq<Seq<char>> {
        self.names@.map_values(|name: K| name.text())
    }

    /// The values, each at the position of its name.
    pub closed spec fn items(self) -> Seq<V> {
        self.values@
    }

    /// The empty map.
    pub fn new() -> (map: Self)
        ensures
            map.texts() == Seq::<Seq<char>>::empty(),
            map.items() == Seq::<V>::empty(),
    {
        let map = NameMap { names: Vec::new(), values: Vec::new() };
        assert(map.texts() =~= Seq::<Seq<char>>::empty());
        map
    }

    /// The number of entries.
    pub fn len(&self) -> (n: usize)
        ensures
            n == self.texts().len(),
            n == self.items().len(),
            sorted(self.texts()),
    {
        proof {
            use_type_invariant(self);
        }
        self.names.len()
    }

    /// Looks a name up: `Ok` with its position where the map holds it, else
    /// `Err` with the position at which it belongs.
    pub fn find(&self, name: &str) -> (r: Result<usize, usize>)
        ensures
            self.texts().len() == self.items().len(),
            sorted(self.texts()),
            match r {
                Ok(i) => i < self.texts().len() && self.texts()[i as int] == name@
                    && self@.contains_key(name@) && self@[name@] == self.items()[i as int],
                Err(i) => belongs_at(self.texts(), name@, i as int) && !self@.contains_key(name@),
            },
    {
        proof {
            use_type_invariant(self);
        }
        let mut low: usize = 0;
        let mut high: usize = self.names.len();
        while low < high
            invariant
                low <= high <= self.names@.len(),
                sorted(self.texts()),
                self.texts().len() == self.names@.len(),
                self.texts().len() == self.items().len(),
                forall|j: int| 0 <= j < low ==> before(#[trigger] self.texts()[j], name@),
                forall|j: int|
                    high <= j < self.texts().len() ==> before(name@, #[trigger] self.texts()[j]),
            decreases high - low,
        {
            let middle = low + (high - low) / 2;
            let sign = standing(self.names[middle].as_text(), name);
            assert(self.texts()[middle as int] == self.names@[middle as int].text());
            if sign == 0 {
                proof {
                    lemma_model_at(self.texts(), self.items(), middle as int);
                }
                return Ok(middle);
            } else if sign < 0 {
                proof {
                    assert forall|j: int| 0 <= j < middle + 1 implies before(
                        #[trigger] self.texts()[j],
                        name@,
                    ) by {
                        if j < middle {
                            lemma_transitive(self.texts()[j], self.texts()[middle as int], name@);
                        }
                    }
                }
                low = middle + 1;
            } else {
                proof {
                    assert forall|j: int| middle <= j < self.texts().len() implies before(
                        name@,
                        #[trigger] self.texts()[j],
                    ) by {
                        if middle < j {
                            lemma_transitive(name@, self.texts()[middle as int], self.texts()[j]);
                        }
                    }
                }
                high = middle;
            }
        }
        proof {
            lemma_belongs_absent(self.texts(), name@, low as int);
        }
        Err(low)
    }

    /// The name at a position.
    pub fn name(&self, i: usize) -> (name: K)
        requires
            i < self.texts().len(),
        ensures
            name.text() == self.texts()[i as int],
    {
        self.names[i]
    }

    /// The value at a position.
    pub fn value(&self, i: usize) -> (value: &V)
        requires
            i < self.items().len(),
        ensures
            *value == self.items()[i as int],
    {
        &self.values[i]
    }

    /// The value at a position, to be changed in place.
    pub fn value_mut(&mut self, i: usize) -> (value: &mut V)
        requires
            i < old(self).texts().len(),
        ensures
            *value == old(self).items()[i as int],
            final(self).texts() == old(self).texts(),
            final(self).items() == old(self).items().update(i as int, *final(value)),
            final(self)@ == old(self)@.insert(old(self).texts()[i as int], *final(value)),
    {
        proof {
            use_type_invariant(&*self);
            assert forall|item: V|
                model(self.texts(), #[trigger] self.items().update(i as int, item)) == model(
                    self.texts(),
                    self.items(),
                ).insert(self.texts()[i as int], item) by {
                lemma_model_update(self.texts(), self.items(), i as int, item);
            }
        }
        &mut self.values[i]
    }

    /// Puts a new entry at the position where its name belongs.
    pub fn insert(&mut self, i: usize, name: K, value: V)
        requires
            belongs_at(old(self).texts(), name.text(), i as int),
        ensures
            final(self).texts() == old(self).texts().insert(i as int, name.text()),
            final(self).items() == old(self).items().insert(i as int, value),
            final(self)@ == old(self)@.insert(name.text(), value),
    {
        let mut taken = NameMap { names: Vec::new(), values: Vec::new() };
        proof {
            use_type_invariant(&*self);
            assert(taken.texts() =~= Seq::<Seq<char>>::empty());
        }
        core::mem::swap(self, &mut taken);
        let NameMap { mut names, mut values } = taken;
        names.insert(i, name);
        values.insert(i, value);
        proof {
            let texts = old(self).texts();
            lemma_model_insert(texts, old(self).items(), i as int, name.text(), value);
            assert(names@.map_values(|name: K| name.text()) =~= texts.insert(i as int, name.text()));
        }
        *self = NameMap { names, values };
    }

    /// Takes the entry at a position out of the map.
    pub fn remove(&mut self, i: usize) -> (value: V)
        requires
            i < old(self).texts().len(),
        ensures
            value == old(self).items()[i as int],
            final(self).texts() == old(self).texts().remove(i as int),
            final(self).items() == old(self).items().remove(i as int),
            final(self)@ == old(self)@.remove(old(self).texts()[i as int]),
    {
        let mut taken = NameMap { names: Vec::new(), values: Vec::new() };
        proof {
            use_type_invariant(&*self);
            assert(taken.texts() =~= Seq::<Seq<char>>::empty());
        }
        core::mem::swap(self, &mut taken);
        let NameMap { mut names, mut values } = taken;
        names.remove(i);
        let value = values.remove(i);
        proof {
            let texts = old(self).texts();
            lemma_model_remove(texts, old(self).items(), i as int);
            assert(names@.map_values(|name: K| name.text()) =~= texts.remove(i as int));
        }
        *self = NameMap { names, values };
        value
    }

    /// The names, in order.
    pub fn names(&self) -> (names: &[K])
        ensures
            sorted(self.texts()),
            names@.map_values(|name: K| name.text()) == self.texts(),
    {
        proof {
            use_type_invariant(self);
        }
        self.names.as_slice()
    }

    /// The values, in the order of their names.
    pub fn values(&self) -> (values: &[V])
        ensures
            values@ == self.items(),
    {
        self.values.as_slice()
    }

    /// The map taken apart: the names in order, and the values in the order
    /// of their names.
    pub fn into_parts(self) -> (parts: (Vec<K>, Vec<V>))
        ensures
            sorted(self.texts()),
            parts.0@.map_values(|name: K| name.text()) == self.texts(),
            parts.1@ == self.items(),
    {
        proof {
            use_type_invariant(&self);
        }
        (self.names, self.values)
    }

    /// Takes every entry out of the map.
    pub fn clear(&mut self)
        ensures
            final(self).texts() == Seq::<Seq<char>>::empty(),
            final(self).items() == Seq::<V>::empty(),
    {
        let map = NameMap { names: Vec::new(), values: Vec::new() };
        assert(map.texts() =~= Seq::<Seq<char>>::empty());
        *self = map;
    }
}

impl<K: Name, V: Copy> NameMap<K, V> {
    /// A second map with the same entries.
    pub fn duplicate(&self) -> (copy: Self)
        ensures
            copy.texts() == self.texts(),
            copy.items() == self.items(),
    {
        proof {
            use_type_invariant(self);
        }
        let n = self.names.len();
        let mut names: Vec<K> = Vec::new();
        let mut values: Vec<V> = Vec::new();
        let mut i: usize = 0;
        while i < n
            invariant
                i <= n,
                n == self.names@.len(),
                n == self.values@.len(),
                names@ == self.names@.take(i as int),
                values@ == self.values@.take(i as int),
            decreases n - i,
        {
            names.push(self.names[i]);
            values.push(self.values[i]);
            proof {
                assert(names@ =~= self.names@.take(i + 1));
                assert(values@ =~= self.values@.take(i + 1));
            }
            i += 1;
        }
        proof {
            assert(names@ =~= self.names@);
            assert(values@ =~= self.values@);
        }
        NameMap { names, values }
    }
}

} // verus!
