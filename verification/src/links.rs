//! Named links between entities.
//!
//! A link has a name and points from the entity that holds it to any number
//! of entities. [`Links::set`] makes it point to one entity alone,
//! [`Links::add`] to one more.

use crate::entities::{members, EntitySet};
use crate::name_map::NameMap;
use bevy_ecs::entity::Entity;
use ustr::Ustr;
use vstd::prelude::*;

verus! {

/// The links of one entity: for each name, the entities that the link of
/// that name points to.
pub struct Links {
    links: NameMap<Ustr, EntitySet>,
}

impl View for Links {
    type V = Map<Seq<char>, Set<Entity>>;

    /// For every name, the entities that the link of that name points to.
    open spec fn view(&self) -> Map<Seq<char>, Set<Entity>> {
        Map::total(|name: Seq<char>| self.targets(name))
    }
}

impl Links {
    /// The entities that the link of the given name points to: none where
    /// no such link was made.
    pub closed spec fn targets(&self, name: Seq<char>) -> Set<Entity> {
        if self.links@.contains_key(name) {
            members(self.links@[name])
        } else {
            Set::empty()
        }
    }

    /// No links.
    pub fn new() -> (links: Links)
        ensures
            links@ == Map::total(|name: Seq<char>| Set::<Entity>::empty()),
    {
        let links = Links { links: NameMap::new() };
        assert(links@ =~= Map::total(|name: Seq<char>| Set::<Entity>::empty()));
        links
    }

    /// The position of the set for a name, which is made empty where there
    /// is none.
    fn slot(&mut self, name: &str) -> (i: usize)
        ensures
            i < final(self).links.texts().len(),
            final(self).links.texts()[i as int] == name@,
            final(self).links@.contains_key(name@),
            final(self).links@[name@] == final(self).links.items()[i as int],
            final(self)@ == old(self)@,
    {
        match self.links.find(name) {
            Ok(i) => i,
            Err(i) => {
                self.links.insert(i, Ustr::from(name), EntitySet::new());
                assert(self@ =~= old(self)@);
                i
            },
        }
    }

    /// Makes the link of the given name point to one entity and to no other.
    pub fn set(&mut self, name: &str, target: Entity)
        ensures
            final(self)@ == old(self)@.insert(name@, set![target]),
    {
        let i = self.slot(name);
        let set = self.links.value_mut(i);
        set.clear();
        set.insert(target);
        assert(self@ =~= old(self)@.insert(name@, set![target]));
    }

    /// Makes the link of the given name point to one more entity.
    pub fn add(&mut self, name: &str, target: Entity)
        ensures
            final(self)@ == old(self)@.insert(name@, old(self)@[name@].insert(target)),
    {
        let i = self.slot(name);
        let set = self.links.value_mut(i);
        set.insert(target);
        assert(self@ =~= old(self)@.insert(name@, old(self)@[name@].insert(target)));
    }

    /// Makes the link of the given name point to an entity no longer.
    pub fn remove(&mut self, name: &str, target: Entity)
        ensures
            final(self)@ == old(self)@.insert(name@, old(self)@[name@].remove(target)),
    {
        let i = self.slot(name);
        let set = self.links.value_mut(i);
        set.remove(target);
        assert(self@ =~= old(self)@.insert(name@, old(self)@[name@].remove(target)));
    }

    /// Makes the link of the given name point to nothing.
    pub fn clear(&mut self, name: &str)
        ensures
            final(self)@ == old(self)@.insert(name@, Set::<Entity>::empty()),
    {
        let i = self.slot(name);
        let set = self.links.value_mut(i);
        set.clear();
        assert(self@ =~= old(self)@.insert(name@, Set::<Entity>::empty()));
    }

    /// Whether the link of the given name points to the entity.
    pub fn is_linked(&self, name: &str, entity: Entity) -> (linked: bool)
        ensures
            linked == self@[name@].contains(entity),
    {
        match self.links.find(name) {
            Ok(i) => self.links.value(i).contains(entity),
            Err(_) => false,
        }
    }

    /// An entity that the link of the given name points to. Where it points
    /// to several, which of them comes back is left open.
    pub fn get(&self, name: &str) -> (target: Option<Entity>)
        ensures
            target is None <==> self@[name@] == Set::<Entity>::empty(),
            target matches Some(entity) ==> self@[name@].contains(entity),
    {
        match self.links.find(name) {
            Ok(i) => self.links.value(i).any(),
            Err(_) => None,
        }
    }

    /// The entities that the link of the given name points to, each once.
    pub fn list(&self, name: &str) -> (targets: Vec<Entity>)
        ensures
            targets@.no_duplicates(),
            targets@.to_set() == self@[name@],
    {
        match self.links.find(name) {
            Ok(i) => self.links.value(i).to_vec(),
            Err(_) => {
                let targets: Vec<Entity> = Vec::new();
                assert(targets@.to_set() =~= Set::<Entity>::empty());
                targets
            },
        }
    }
}

impl Default for Links {
    fn default() -> (links: Links)
        ensures
            links@ == Map::total(|name: Seq<char>| Set::<Entity>::empty()),
    {
        Links::new()
    }
}

} // verus!
