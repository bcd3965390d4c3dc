//! Entities found by name and by class.
//!
//! A name belongs to one entity at a time: naming a second entity takes the
//! name from the first. A class belongs to any number of entities. Looking
//! up a name that belongs to no entity fails; looking up a class that
//! belongs to no entity gives no entities.
//!
//! The registry never forgets an entity by itself: what it hands out may be
//! an entity that is gone.

use crate::entities::{members, EntitySet};
use crate::name_map::NameMap;
use crate::names::estr_text;
use bevy_ecs::entity::Entity;
use estr::Estr;
use vstd::prelude::*;

verus! {

/// No entity has the name.
#[derive(Clone, Copy, Debug)]
pub struct EntityNotFoundError {
    /// The name that was looked up.
    pub name: Estr,
}

/// The entities that have a name, and the entities of each class.
pub struct Registry {
    names: NameMap<Estr, Entity>,
    classes: NameMap<Estr, EntitySet>,
}

/// What a registry knows.
pub struct RegistryView {
    /// The entity of each name that belongs to one.
    pub names: Map<Seq<char>, Entity>,
    /// For every class, the entities of that class.
    pub classes: Map<Seq<char>, Set<Entity>>,
}

impl RegistryView {
    /// What a registry knows that knows no entity.
    pub open spec fn empty() -> RegistryView {
        RegistryView {
            names: Map::empty(),
            classes: Map::total(|class: Seq<char>| Set::<Entity>::empty()),
        }
    }
}

impl View for Registry {
    type V = RegistryView;

    open spec fn view(&self) -> RegistryView {
        RegistryView {
            names: self.names(),
            classes: Map::total(|class: Seq<char>| self.class(class)),
        }
    }
}

impl Registry {
    /// The entity of each name that belongs to one.
    pub closed spec fn names(&self) -> Map<Seq<char>, Entity> {
        self.names@
    }

    /// The entities of the given class.
    pub closed spec fn class(&self, class: Seq<char>) -> Set<Entity> {
        if self.classes@.contains_key(class) {
            members(self.classes@[class])
        } else {
            Set::empty()
        }
    }

    /// A registry that knows no entity.
    pub fn new() -> (registry: Registry)
        ensures
            registry@ == RegistryView::empty(),
    {
        let registry = Registry { names: NameMap::new(), classes: NameMap::new() };
        assert(registry.names() =~= Map::<Seq<char>, Entity>::empty());
        assert(registry@.classes =~= RegistryView::empty().classes);
        registry
    }

    /// Gives the name to the entity, and to no other.
    pub fn register_name(&mut self, name: &str, entity: Entity)
        ensures
            final(self)@ == (RegistryView {
                names: old(self)@.names.insert(name@, entity),
                classes: old(self)@.classes,
            }),
    {
        match self.names.find(name) {
            Ok(i) => {
                *self.names.value_mut(i) = entity;
            },
            Err(i) => {
                self.names.insert(i, Estr::from(name), entity);
            },
        }
        assert(self@.classes =~= old(self)@.classes);
    }

    /// Puts the entity into the class.
    pub fn register_class(&mut self, class: &str, entity: Entity)
        ensures
            final(self)@ == (RegistryView {
                names: old(self)@.names,
                classes: old(self)@.classes.insert(
                    class@,
                    old(self)@.classes[class@].insert(entity),
                ),
            }),
    {
        match self.classes.find(class) {
            Ok(i) => {
                self.classes.value_mut(i).insert(entity);
            },
            Err(i) => {
                let mut set = EntitySet::new();
                set.insert(entity);
                self.classes.insert(i, Estr::from(class), set);
            },
        }
        assert(self@.classes =~= old(self)@.classes.insert(
            class@,
            old(self)@.classes[class@].insert(entity),
        ));
    }

    /// The entity that has the given name.
    pub fn lookup_name(&self, name: &str) -> (found: Result<Entity, EntityNotFoundError>)
        ensures
            match found {
                Ok(entity) => self@.names.contains_key(name@) && self@.names[name@] == entity,
                Err(error) => !self@.names.contains_key(name@) && estr_text(error.name) == name@,
            },
    {
        match self.names.find(name) {
            Ok(i) => Ok(*self.names.value(i)),
            Err(_) => Err(EntityNotFoundError { name: Estr::from(name) }),
        }
    }

    /// The entities of the given class, each once.
    pub fn lookup_class(&self, class: &str) -> (entities: Vec<Entity>)
        ensures
            entities@.no_duplicates(),
            entities@.to_set() == self@.classes[class@],
    {
        match self.classes.find(class) {
            Ok(i) => self.classes.value(i).to_vec(),
            Err(_) => {
                let entities: Vec<Entity> = Vec::new();
                assert(entities@.to_set() =~= Set::<Entity>::empty());
                entities
            },
        }
    }
}

impl Default for Registry {
    fn default() -> (registry: Registry)
        ensures
            registry@ == RegistryView::empty(),
    {
        Registry::new()
    }
}

/// The entity that has the given name, where there may be no registry: without
/// one, no entity has any name.
pub fn lookup_name(registry: Option<&Registry>, name: &str) -> (found: Result<
    Entity,
    EntityNotFoundError,
>)
    ensures
        match found {
            Ok(entity) => {
                &&& registry matches Some(known)
                &&& known@.names.contains_key(name@)
                &&& known@.names[name@] == entity
            },
            Err(error) => {
                &&& estr_text(error.name) == name@
                &&& registry matches Some(known) ==> !known@.names.contains_key(name@)
            },
        },
{
    match registry {
        Some(known) => known.lookup_name(name),
        None => Err(EntityNotFoundError { name: Estr::from(name) }),
    }
}

/// The entities of the given class, each once, where there may be no
/// registry: without one, no entity is of any class.
pub fn lookup_class(registry: Option<&Registry>, class: &str) -> (entities: Vec<Entity>)
    ensures
        entities@.no_duplicates(),
        entities@.to_set() == (match registry {
            Some(known) => known@.classes[class@],
            None => Set::<Entity>::empty(),
        }),
{
    match registry {
        Some(known) => known.lookup_class(class),
        None => {
            let entities: Vec<Entity> = Vec::new();
            assert(entities@.to_set() =~= Set::<Entity>::empty());
            entities
        },
    }
}

} // verus!
