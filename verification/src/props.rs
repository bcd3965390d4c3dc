//! Named properties.
//!
//! [`Props`] maps names to values. Reading a property that was never set
//! gives the default value, `false`, and so reads as the zero value of
//! whatever type it is read as. Access for writing sets a property that
//! was never set to the default value first.

use crate::name_map::{
    belongs_at, lemma_belongs_absent, lemma_model_at, lemma_model_insert, lemma_model_remove,
    lemma_model_update, model, sorted, NameMap,
};
use crate::names::{estr_text, Name};
pub use crate::value::Value;
use crate::value::ValueView;
use core::ops::{Index, IndexMut};
use estr::Estr;
use vstd::prelude::*;

verus! {

/// The value of a property in a map of properties: what the map holds for the
/// name, or the default value where it holds nothing.
pub open spec fn lookup(props: Map<Seq<char>, ValueView>, name: Seq<char>) -> ValueView {
    if props.contains_key(name) {
        props[name]
    } else {
        ValueView::Bool(false)
    }
}

/// What each of a sequence of values holds.
pub open spec fn views(values: Seq<Value>) -> Seq<ValueView> {
    values.map_values(|value: Value| value@)
}

/// A set of properties: a map from names to values, in the order of the
/// names.
#[derive(Debug)]
pub struct Props {
    properties: NameMap<Estr, Value>,
}

impl View for Props {
    type V = Map<Seq<char>, ValueView>;

    open spec fn view(&self) -> Map<Seq<char>, ValueView> {
        model(self.ordered_names(), self.ordered_values())
    }
}

impl Props {
    /// The names of the properties that are set, in order.
    pub closed spec fn ordered_names(&self) -> Seq<Seq<char>> {
        self.properties.texts()
    }

    /// What the properties that are set hold, in the order of their names.
    pub closed spec fn ordered_values(&self) -> Seq<ValueView> {
        views(self.properties.items())
    }

    /// The value of a property: what it was set to, or the default value.
    pub open spec fn value(&self, name: Seq<char>) -> ValueView {
        lookup(self@, name)
    }

    /// A set of properties in which none is set.
    pub fn new() -> (props: Props)
        ensures
            props.ordered_names() == Seq::<Seq<char>>::empty(),
            props.ordered_values() == Seq::<ValueView>::empty(),
            props@ == Map::<Seq<char>, ValueView>::empty(),
    {
        let props = Props { properties: NameMap::new() };
        assert(props.ordered_values() =~= Seq::<ValueView>::empty());
        assert(props@ =~= Map::<Seq<char>, ValueView>::empty());
        props
    }

    /// Looks a property up: `Ok` with its position in the order of the
    /// names where it is set, else `Err` with the position at which it
    /// belongs.
    fn find(&self, name: &str) -> (r: Result<usize, usize>)
        ensures
            self.properties.texts().len() == self.properties.items().len(),
            sorted(self.properties.texts()),
            match r {
                Ok(i) => {
                    &&& i < self.properties.texts().len()
                    &&& self.properties.texts()[i as int] == name@
                    &&& self@.contains_key(name@)
                    &&& self@[name@] == self.properties.items()[i as int]@
                },
                Err(i) => {
                    &&& belongs_at(self.properties.texts(), name@, i as int)
                    &&& !self@.contains_key(name@)
                },
            },
    {
        let r = self.properties.find(name);
        proof {
            match r {
                Ok(i) => {
                    lemma_model_at(self.ordered_names(), self.ordered_values(), i as int);
                },
                Err(i) => {
                    lemma_belongs_absent(self.ordered_names(), name@, i as int);
                },
            }
        }
        r
    }

    /// The property of the given name, for writing in place, if it is set.
    pub fn entry(&mut self, name: &str) -> (slot: Option<&mut Value>)
        ensures
            match slot {
                Some(value) => {
                    &&& old(self)@.contains_key(name@)
                    &&& value@ == old(self)@[name@]
                    &&& final(self)@ == old(self)@.insert(name@, final(value)@)
                },
                None => !old(self)@.contains_key(name@) && *final(self) == *old(self),
            },
    {
        match self.find(name) {
            Ok(i) => {
                proof {
                    self.lemma_any_update(i as int);
                }
                Some(self.properties.value_mut(i))
            },
            Err(_) => None,
        }
    }

    /// The value of a property.
    pub fn get(&self, name: &str) -> (value: Value)
        ensures
            value@ == self.value(name@),
    {
        match self.find(name) {
            Ok(i) => *self.properties.value(i),
            Err(_) => Value::default(),
        }
    }

    /// The value of a property, for writing in place. A property that is
    /// not set is set to the default value first.
    pub fn get_mut(&mut self, name: &str) -> (value: &mut Value)
        ensures
            value@ == old(self).value(name@),
            final(self)@ == old(self)@.insert(name@, final(value)@),
    {
        match self.find(name) {
            Ok(i) => {
                proof {
                    self.lemma_any_update(i as int);
                }
                self.properties.value_mut(i)
            },
            Err(i) => {
                proof {
                    self.lemma_insert(i as int, name@, Value::Bool(false));
                }
                self.properties.insert(i, Estr::from(name), Value::default());
                proof {
                    self.lemma_any_update(i as int);
                    assert forall|item: Value|
                        (#[trigger] old(self)@.insert(name@, Value::Bool(false)@)).insert(name@, item@)
                            == old(self)@.insert(name@, item@) by {
                        assert(old(self)@.insert(name@, Value::Bool(false)@).insert(name@, item@)
                            =~= old(self)@.insert(name@, item@));
                    }
                }
                self.properties.value_mut(i)
            },
        }
    }

    /// Sets a property.
    pub fn set(&mut self, name: &str, value: Value)
        ensures
            final(self)@ == old(self)@.insert(name@, value@),
    {
        match self.find(name) {
            Ok(i) => {
                proof {
                    self.lemma_any_update(i as int);
                }
                *self.properties.value_mut(i) = value;
            },
            Err(i) => {
                proof {
                    self.lemma_insert(i as int, name@, value);
                }
                self.properties.insert(i, Estr::from(name), value);
            },
        }
    }

    /// Sets a property and hands the set of properties on.
    pub fn with(self, name: &str, value: Value) -> (props: Props)
        ensures
            props@ == self@.insert(name@, value@),
    {
        let mut props = self;
        props.set(name, value);
        props
    }

    /// Removes a property, so that it reads as the default value again.
    pub fn remove(&mut self, name: &str)
        ensures
            final(self)@ == old(self)@.remove(name@),
    {
        match self.find(name) {
            Ok(i) => {
                proof {
                    let names = self.ordered_names();
                    let values = self.properties.items();
                    lemma_model_remove(names, views(values), i as int);
                    assert(views(values.remove(i as int)) =~= views(values).remove(i as int));
                }
                self.properties.remove(i);
            },
            Err(_) => {
                assert(self@ =~= self@.remove(name@));
            },
        }
    }

    /// The number of properties that are set.
    pub fn len(&self) -> (n: usize)
        ensures
            n == self.ordered_names().len(),
            n == self.ordered_values().len(),
            sorted(self.ordered_names()),
    {
        self.properties.len()
    }

    /// The properties that are set, in the order of their names.
    pub fn iter(&self) -> (entries: Vec<(Estr, Value)>)
        ensures
            sorted(self.ordered_names()),
            entries@.len() == self.ordered_names().len(),
            entries@.len() == self.ordered_values().len(),
            forall|i: int|
                0 <= i < entries@.len() ==> {
                    &&& estr_text((#[trigger] entries@[i]).0) == self.ordered_names()[i]
                    &&& entries@[i].1@ == self.ordered_values()[i]
                },
    {
        let n = self.properties.len();
        let mut entries: Vec<(Estr, Value)> = Vec::new();
        let mut i: usize = 0;
        while i < n
            invariant
                i <= n,
                n == self.ordered_names().len(),
                n == self.ordered_values().len(),
                n == self.properties.items().len(),
                entries@.len() == i,
                forall|j: int|
                    0 <= j < i ==> {
                        &&& estr_text((#[trigger] entries@[j]).0) == self.ordered_names()[j]
                        &&& entries@[j].1@ == self.ordered_values()[j]
                    },
            decreases n - i,
        {
            entries.push((self.properties.name(i), *self.properties.value(i)));
            i += 1;
        }
        entries
    }

    /// The properties that were set, in the order of their names.
    pub fn into_iter(self) -> (entries: Vec<(Estr, Value)>)
        ensures
            sorted(self.ordered_names()),
            entries@.len() == self.ordered_names().len(),
            entries@.len() == self.ordered_values().len(),
            forall|i: int|
                0 <= i < entries@.len() ==> {
                    &&& estr_text((#[trigger] entries@[i]).0) == self.ordered_names()[i]
                    &&& entries@[i].1@ == self.ordered_values()[i]
                },
    {
        self.iter()
    }

    /// The names of the properties that are set, in order.
    pub fn keys(&self) -> (names: &[Estr])
        ensures
            sorted(self.ordered_names()),
            names@.len() == self.ordered_names().len(),
            forall|i: int|
                0 <= i < names@.len() ==> estr_text(#[trigger] names@[i]) == self.ordered_names()[i],
    {
        let names = self.properties.names();
        proof {
            let texts = names@.map_values(|name: Estr| name.text());
            assert forall|i: int| 0 <= i < names@.len() implies estr_text(#[trigger] names@[i])
                == self.ordered_names()[i] by {
                assert(texts[i] == names@[i].text());
            }
        }
        names
    }

    /// The names of the properties that were set, in order.
    pub fn into_keys(self) -> (names: Vec<Estr>)
        ensures
            sorted(self.ordered_names()),
            names@.len() == self.ordered_names().len(),
            forall|i: int|
                0 <= i < names@.len() ==> estr_text(#[trigger] names@[i]) == self.ordered_names()[i],
    {
        let (names, _) = self.properties.into_parts();
        proof {
            let texts = names@.map_values(|name: Estr| name.text());
            assert forall|i: int| 0 <= i < names@.len() implies estr_text(#[trigger] names@[i])
                == self.ordered_names()[i] by {
                assert(texts[i] == names@[i].text());
            }
        }
        names
    }

    /// The values of the properties that are set, in the order of their
    /// names.
    pub fn values(&self) -> (values: &[Value])
        ensures
            views(values@) == self.ordered_values(),
    {
        self.properties.values()
    }

    /// The values of the properties that were set, in the order of their
    /// names.
    pub fn into_values(self) -> (values: Vec<Value>)
        ensures
            views(values@) == self.ordered_values(),
    {
        let (_, values) = self.properties.into_parts();
        values
    }

    /// The value at a position in the order of the names, for writing in
    /// place; `None` where fewer properties are set.
    pub fn values_mut(&mut self, index: usize) -> (slot: Option<&mut Value>)
        ensures
            match slot {
                Some(value) => {
                    &&& index < old(self).ordered_values().len()
                    &&& value@ == old(self).ordered_values()[index as int]
                    &&& final(self).ordered_names() == old(self).ordered_names()
                    &&& final(self).ordered_values() == old(self).ordered_values().update(
                        index as int,
                        final(value)@,
                    )
                },
                None => index >= old(self).ordered_values().len() && *final(self) == *old(self),
            },
    {
        if index < self.properties.len() {
            proof {
                self.lemma_any_update(index as int);
            }
            Some(self.properties.value_mut(index))
        } else {
            None
        }
    }

    /// Removes every property.
    pub fn clear(&mut self)
        ensures
            final(self).ordered_names() == Seq::<Seq<char>>::empty(),
            final(self).ordered_values() == Seq::<ValueView>::empty(),
            final(self)@ == Map::<Seq<char>, ValueView>::empty(),
    {
        self.properties.clear();
        assert(self.ordered_values() =~= Seq::<ValueView>::empty());
        assert(self@ =~= Map::<Seq<char>, ValueView>::empty());
    }

    /// Whatever value is put at a position, the values then hold what they
    /// held, but for the one at that position, and the properties are what
    /// they were, but for the one whose name stands at that position.
    proof fn lemma_any_update(&self, i: int)
        requires
            sorted(self.properties.texts()),
            self.properties.texts().len() == self.properties.items().len(),
            0 <= i < self.properties.texts().len(),
        ensures
            forall|item: Value|
                views(#[trigger] self.properties.items().update(i, item))
                    == self.ordered_values().update(i, item@),
            forall|item: Value|
                model(
                    self.ordered_names(),
                    views(#[trigger] self.properties.items().update(i, item)),
                ) == self@.insert(self.ordered_names()[i], item@),
    {
        let names = self.ordered_names();
        let values = self.properties.items();
        assert forall|item: Value|
            views(#[trigger] values.update(i, item)) == views(values).update(i, item@) by {
            assert(views(values.update(i, item)) =~= views(values).update(i, item@));
        }
        assert forall|item: Value|
            model(names, views(#[trigger] values.update(i, item))) == model(
                names,
                views(values),
            ).insert(names[i], item@) by {
            lemma_model_update(names, views(values), i, item@);
        }
    }

    /// Putting a new property where its name belongs inserts it.
    proof fn lemma_insert(&self, i: int, name: Seq<char>, item: Value)
        requires
            sorted(self.properties.texts()),
            self.properties.texts().len() == self.properties.items().len(),
            belongs_at(self.properties.texts(), name, i),
        ensures
            model(
                self.ordered_names().insert(i, name),
                views(self.properties.items().insert(i, item)),
            ) == self@.insert(name, item@),
    {
        let names = self.ordered_names();
        let values = self.properties.items();
        lemma_model_insert(names, views(values), i, name, item@);
        assert(views(values.insert(i, item)) =~= views(values).insert(i, item@));
    }
}

impl Clone for Props {
    fn clone(&self) -> (copy: Props)
        ensures
            copy.ordered_names() == self.ordered_names(),
            copy.ordered_values() == self.ordered_values(),
            copy@ == self@,
    {
        Props { properties: self.properties.duplicate() }
    }
}

impl Default for Props {
    fn default() -> (props: Props)
        ensures
            props@ == Map::<Seq<char>, ValueView>::empty(),
    {
        Props::new()
    }
}

impl<'a> Index<&'a str> for Props {
    type Output = Value;

    /// The value of a property.
    fn index(&self, name: &'a str) -> (value: &Value)
        ensures
            value@ == self.value(name@),
    {
        match self.find(name) {
            Ok(i) => self.properties.value(i),
            Err(_) => &Value::Bool(false),
        }
    }
}

impl<'a> vstd::std_specs::core::IndexSpecImpl<&'a str> for Props {
    open spec fn index_req(&self, name: &&'a str) -> bool {
        true
    }
}

impl<'a> IndexMut<&'a str> for Props {
    /// The value of a property, for writing in place. A property that is
    /// not set is set to the default value first.
    fn index_mut(&mut self, name: &'a str) -> (value: &mut Value)
        ensures
            value@ == old(self).value(name@),
            final(self)@ == old(self)@.insert(name@, final(value)@),
    {
        self.get_mut(name)
    }
}

} // verus!
