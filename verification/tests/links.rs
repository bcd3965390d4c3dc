use bevy_ecs::entity::Entity;
use bevy_mod_props::links::Links;

fn entity(index: u32) -> Entity {
    Entity::from_raw_u32(index).unwrap()
}

fn listed(links: &Links, name: &str) -> Vec<Entity> {
    let mut targets = links.list(name);
    targets.sort_by_key(|target| target.index().index());
    targets
}

#[test]
fn new_links_point_nowhere() {
    let links = Links::new();
    assert_eq!(links.get("talking_to"), None);
    assert!(links.list("talking_to").is_empty());
    assert!(!links.is_linked("talking_to", entity(1)));
    let links = Links::default();
    assert_eq!(links.get(""), None);
}

#[test]
fn set_points_to_one_entity() {
    let mut links = Links::new();
    links.set("talking_to", entity(1));
    assert_eq!(links.get("talking_to"), Some(entity(1)));
    assert!(links.is_linked("talking_to", entity(1)));
    assert!(!links.is_linked("talking_to", entity(2)));
    assert_eq!(listed(&links, "talking_to"), vec![entity(1)]);
}

#[test]
fn set_overwrites_what_was_linked() {
    let mut links = Links::new();
    links.add("looking_at", entity(1));
    links.add("looking_at", entity(2));
    links.set("looking_at", entity(3));
    assert_eq!(listed(&links, "looking_at"), vec![entity(3)]);
    assert_eq!(links.get("looking_at"), Some(entity(3)));
    assert!(!links.is_linked("looking_at", entity(1)));
    links.set("looking_at", entity(4));
    assert_eq!(listed(&links, "looking_at"), vec![entity(4)]);
}

#[test]
fn add_points_to_one_more_entity() {
    let mut links = Links::new();
    links.add("looking_at", entity(1));
    links.add("looking_at", entity(2));
    links.add("looking_at", entity(2));
    assert_eq!(listed(&links, "looking_at"), vec![entity(1), entity(2)]);
    assert!(links.is_linked("looking_at", entity(1)));
    assert!(links.is_linked("looking_at", entity(2)));
    assert!(!links.is_linked("looking_at", entity(3)));
    let got = links.get("looking_at");
    assert!(got == Some(entity(1)) || got == Some(entity(2)));
}

#[test]
fn links_of_different_names_are_apart() {
    let mut links = Links::new();
    links.set("a", entity(1));
    links.add("b", entity(2));
    links.add("c", entity(3));
    links.clear("c");
    assert_eq!(listed(&links, "a"), vec![entity(1)]);
    assert_eq!(listed(&links, "b"), vec![entity(2)]);
    assert!(listed(&links, "c").is_empty());
    assert!(!links.is_linked("a", entity(2)));
    assert!(!links.is_linked("b", entity(1)));
    links.remove("a", entity(1));
    assert_eq!(listed(&links, "b"), vec![entity(2)]);
}

#[test]
fn remove_unlinks_one_entity() {
    let mut links = Links::new();
    links.add("looking_at", entity(1));
    links.add("looking_at", entity(2));
    links.remove("looking_at", entity(1));
    assert_eq!(listed(&links, "looking_at"), vec![entity(2)]);
    links.remove("looking_at", entity(7));
    assert_eq!(listed(&links, "looking_at"), vec![entity(2)]);
    links.remove("looking_at", entity(2));
    assert_eq!(links.get("looking_at"), None);
    links.remove("never_linked", entity(2));
    assert_eq!(links.get("never_linked"), None);
}

#[test]
fn clear_unlinks_every_entity() {
    let mut links = Links::new();
    links.add("looking_at", entity(1));
    links.add("looking_at", entity(2));
    links.clear("looking_at");
    assert_eq!(links.get("looking_at"), None);
    assert!(links.list("looking_at").is_empty());
    assert!(!links.is_linked("looking_at", entity(1)));
    links.clear("never_linked");
    assert!(links.list("never_linked").is_empty());
}

#[test]
fn entities_of_different_generations_are_different() {
    let first = entity(5);
    let later = Entity::from_bits(first.to_bits() + (1u64 << 32));
    let mut links = Links::new();
    links.set("target", first);
    assert!(links.is_linked("target", first));
    assert!(!links.is_linked("target", later));
    links.add("target", later);
    assert_eq!(links.list("target").len(), 2);
}

#[test]
fn many_names_are_found_again() {
    let mut links = Links::new();
    for i in 0..100u32 {
        links.add(&format!("link_{}", (i * 13) % 100), entity((i * 13) % 100));
    }
    for i in 0..100u32 {
        assert_eq!(links.get(&format!("link_{i}")), Some(entity(i)));
    }
}
