//! Sets of entities.
//!
//! Entities and the hash sets that hold them belong to the
//! entity-component system. This module says of them what the rest of the
//! library relies on.

use bevy_ecs::entity::{Entity, EntityHashSet};
use vstd::prelude::*;

verus! {

/// `bevy_ecs::entity::Entity`, a handle whose inside the verifier does not
/// see.
#[verifier::external_type_specification]
#[verifier::external_body]
pub struct ExEntity(Entity);

/// A set of entities: a `bevy_ecs::entity::EntityHashSet`, which the verifier
/// does not see. What the set holds is [`members`].
#[verifier::external_body]
pub struct EntitySet {
    entities: EntityHashSet,
}

/// The entities that a set holds.
pub uninterp spec fn members(set: EntitySet) -> Set<Entity>;

impl EntitySet {
    /// `EntityHashSet::new` makes a set that holds nothing.
    #[verifier::external_body]
    pub(crate) fn new() -> (set: EntitySet)
        ensures
            members(set) == Set::<Entity>::empty(),
    {
        EntitySet { entities: EntityHashSet::new() }
    }

    /// `insert` adds the entity to what the set holds.
    #[verifier::external_body]
    pub(crate) fn insert(&mut self, entity: Entity)
        ensures
            members(*final(self)) == members(*old(self)).insert(entity),
    {
        self.entities.insert(entity);
    }

    /// `remove` takes the entity out of what the set holds.
    #[verifier::external_body]
    pub(crate) fn remove(&mut self, entity: Entity)
        ensures
            members(*final(self)) == members(*old(self)).remove(entity),
    {
        self.entities.remove(&entity);
    }

    /// `clear` leaves a set that holds nothing.
    #[verifier::external_body]
    pub(crate) fn clear(&mut self)
        ensures
            members(*final(self)) == Set::<Entity>::empty(),
    {
        self.entities.clear();
    }

    /// `contains` tells whether the set holds the entity.
    #[verifier::external_body]
    pub(crate) fn contains(&self, entity: Entity) -> (held: bool)
        ensures
            held == members(*self).contains(entity),
    {
        self.entities.contains(&entity)
    }

    /// The first entity that a walk of the set comes to. Which one that is,
    /// the set does not say: it is one that the set holds, and there is none
    /// only where the set holds nothing.
    #[verifier::external_body]
    pub(crate) fn any(&self) -> (entity: Option<Entity>)
        ensures
            match entity {
                Some(entity) => members(*self).contains(entity),
                None => members(*self) == Set::<Entity>::empty(),
            },
    {
        self.entities.iter().next().copied()
    }

    /// A walk of the set comes to each entity that the set holds once, in
    /// an order that the set does not say.
    #[verifier::external_body]
    pub(crate) fn to_vec(&self) -> (entities: Vec<Entity>)
        ensures
            entities@.no_duplicates(),
            entities@.to_set() == members(*self),
    {
        self.entities.iter().copied().collect()
    }
}

} // verus!
