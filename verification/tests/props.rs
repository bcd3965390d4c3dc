use bevy_mod_props::arith::{Operator, Outcome};
use bevy_mod_props::number::Number;
use bevy_mod_props::props::Props;
use bevy_mod_props::value::Value;
use estr::Estr;

fn num(x: f32) -> Value {
    Value::Num(Number::from_bits(x.to_bits()))
}

fn text(s: &str) -> Value {
    Value::from_text(s)
}

fn float(value: Value) -> f32 {
    f32::from_bits(value.as_number().to_bits())
}

fn finish(outcome: Outcome) -> Value {
    match outcome {
        Outcome::Known(number) => Value::Num(number),
        Outcome::Apply(operator, lhs, rhs) => {
            let lhs = f32::from_bits(lhs.to_bits());
            let rhs = f32::from_bits(rhs.to_bits());
            num(match operator {
                Operator::Add => lhs + rhs,
                Operator::Sub => lhs - rhs,
                Operator::Mul => lhs * rhs,
                Operator::Div => lhs / rhs,
            })
        }
    }
}

fn listing(props: &Props) -> Vec<(String, Value)> {
    props.iter().into_iter().map(|(name, value)| (name.as_str().to_string(), value)).collect()
}

#[test]
fn new_props_hold_nothing() {
    let props = Props::new();
    assert_eq!(props.len(), 0);
    assert!(props.iter().is_empty());
    assert!(props.keys().is_empty());
    assert!(props.values().is_empty());
}

#[test]
fn set_then_get() {
    let mut props = Props::new();
    props.set("bool_prop", Value::Bool(true));
    props.set("num_prop", num(42.0));
    props.set("str_prop", text("string"));
    assert_eq!(props.get("bool_prop"), Value::Bool(true));
    assert_eq!(props.get("num_prop"), num(42.0));
    assert_eq!(props.get("str_prop"), text("string"));
    assert_eq!(props.get("bool_prop").as_bool(), true);
    assert_eq!(float(props.get("num_prop")), 42.0);
    assert_eq!(props.get("str_prop").as_text().as_str(), "string");
    assert_eq!(props.len(), 3);
}

#[test]
fn set_overwrites() {
    let mut props = Props::new();
    props.set("p", Value::Bool(true));
    props.set("p", num(1.0));
    assert_eq!(props.get("p"), num(1.0));
    assert_eq!(props.len(), 1);
    props.set("p", text("x"));
    assert_eq!(props.get("p"), text("x"));
    assert_eq!(props.len(), 1);
}

#[test]
fn set_twice_is_set_once() {
    let mut once = Props::new().with("other", num(7.0));
    once.set("k", text("x"));
    let mut twice = Props::new().with("other", num(7.0));
    twice.set("k", text("x"));
    twice.set("k", text("x"));
    assert_eq!(twice.get("k"), text("x"));
    assert_eq!(listing(&twice), listing(&once));
}

#[test]
fn missing_property_reads_as_zero() {
    let props = Props::new();
    assert_eq!(props.get("missing").as_bool(), false);
    assert_eq!(props.get("missing").as_number().to_bits(), 0.0f32.to_bits());
    assert_eq!(float(props.get("missing")), 0.0);
    assert_eq!(props.get("missing").as_text().as_str(), "");
    assert_eq!(props.get("missing"), Value::Bool(false));
}

#[test]
fn property_of_another_type_reads_as_zero() {
    let props = Props::new().with("str_prop", text("string")).with("flag", Value::Bool(true));
    assert_eq!(float(props.get("str_prop")), 0.0);
    assert_eq!(props.get("str_prop").as_bool(), false);
    assert_eq!(props.get("flag").as_text().as_str(), "");
    assert_eq!(props.get("flag").as_number().to_bits(), 0);
}

#[test]
fn get_does_not_set() {
    let props = Props::new().with("a", Value::Bool(true));
    let _ = props.get("missing");
    assert_eq!(props.len(), 1);
}

#[test]
fn write_access_replaces_a_property_of_another_type() {
    let mut props = Props::new();
    props.set("p", Value::Bool(true));
    let _ = props.get_mut("p").as_number_mut();
    assert_eq!(float(props.get("p")), 0.0);
    assert_eq!(props.get("p"), num(0.0));
    assert_eq!(props.get("p").as_bool(), false);
}

#[test]
fn write_access_sets_a_missing_property() {
    let mut props = Props::new();
    assert_eq!(*props.get_mut("fresh"), Value::Bool(false));
    assert_eq!(props.len(), 1);
    assert_eq!(listing(&props), vec![("fresh".to_string(), Value::Bool(false))]);
    *props.get_mut("str_prop").as_text_mut() = Estr::from("hello world");
    assert_eq!(props.get("str_prop"), text("hello world"));
    assert_eq!(props.len(), 2);
}

#[test]
fn write_access_keeps_a_property_of_the_same_type() {
    let mut props = Props::new().with("n", num(2.0));
    let slot = props.get_mut("n").as_number_mut();
    assert_eq!(f32::from_bits(slot.to_bits()), 2.0);
    assert_eq!(props.get("n"), num(2.0));
}

#[test]
fn with_builds_in_key_order() {
    let props = Props::new().with("a", Value::Bool(true)).with("b", num(1.0)).with("c", text("x"));
    assert_eq!(
        listing(&props),
        vec![
            ("a".to_string(), Value::Bool(true)),
            ("b".to_string(), num(1.0)),
            ("c".to_string(), text("x")),
        ]
    );
}

#[test]
fn iteration_is_in_key_order_whatever_the_order_of_setting() {
    let props = Props::new()
        .with("c", text("x"))
        .with("a", Value::Bool(true))
        .with("b", num(1.0))
        .with("", num(0.5))
        .with("ab", Value::Bool(false))
        .with("B", num(2.0));
    let names: Vec<&str> = props.keys().iter().map(|name| name.as_str()).collect();
    assert_eq!(names, vec!["", "B", "a", "ab", "b", "c"]);
    assert_eq!(
        props.values().to_vec(),
        vec![num(0.5), num(2.0), Value::Bool(true), Value::Bool(false), num(1.0), text("x")]
    );
    let listed: Vec<String> = listing(&props).into_iter().map(|(name, _)| name).collect();
    assert_eq!(listed, vec!["", "B", "a", "ab", "b", "c"]);
}

#[test]
fn many_properties_are_found_again() {
    let mut props = Props::new();
    for i in 0..200u32 {
        let name = format!("prop_{}", (i * 37) % 200);
        props.set(&name, num(((i * 37) % 200) as f32));
    }
    assert_eq!(props.len(), 200);
    for i in 0..200u32 {
        assert_eq!(float(props.get(&format!("prop_{i}"))), i as f32);
    }
    let names: Vec<String> = props.keys().iter().map(|name| name.as_str().to_string()).collect();
    let mut sorted = names.clone();
    sorted.sort();
    assert_eq!(names, sorted);
}

#[test]
fn adding_in_place() {
    let mut props = Props::new();
    let slot = props.get_mut("n");
    *slot = finish(slot.add(num(5.0)));
    let slot = props.get_mut("n");
    *slot = finish(slot.sub(num(2.0)));
    assert_eq!(float(props.get("n")), 3.0);
    assert_eq!(props.get("n"), num(3.0));
}

#[test]
fn adding_in_place_to_a_text() {
    let mut props = Props::new().with("str_prop", text("string"));
    let slot = props.get_mut("str_prop");
    *slot = finish(slot.add(num(10.0)));
    assert_eq!(props.get("str_prop"), num(10.0));
    let slot = props.get_mut("prop_2");
    *slot = finish(slot.sub(num(32.0)));
    assert_eq!(props.get("prop_2"), num(-32.0));
}

#[test]
fn remove_makes_a_property_read_as_default() {
    let mut props = Props::new().with("a", num(1.0)).with("b", num(2.0)).with("c", num(3.0));
    props.remove("b");
    assert_eq!(props.get("b"), Value::Bool(false));
    assert_eq!(props.len(), 2);
    assert_eq!(listing(&props), vec![("a".to_string(), num(1.0)), ("c".to_string(), num(3.0))]);
}

#[test]
fn remove_of_a_missing_property_changes_nothing() {
    let mut props = Props::new().with("a", num(1.0));
    props.remove("b");
    props.remove("");
    assert_eq!(listing(&props), vec![("a".to_string(), num(1.0))]);
    let mut empty = Props::new();
    empty.remove("a");
    assert_eq!(empty.len(), 0);
}

#[test]
fn clear_removes_everything() {
    let mut props = Props::new().with("a", num(1.0)).with("b", text("x"));
    props.clear();
    assert_eq!(props.len(), 0);
    assert_eq!(props.get("a"), Value::Bool(false));
    props.clear();
    assert_eq!(props.len(), 0);
    props.set("a", num(2.0));
    assert_eq!(props.get("a"), num(2.0));
}

#[test]
fn entry_is_there_only_for_what_is_set() {
    let mut props = Props::new().with("a", num(1.0));
    assert!(props.entry("b").is_none());
    assert_eq!(props.len(), 1);
    match props.entry("a") {
        Some(value) => {
            assert_eq!(*value, num(1.0));
            *value = text("changed");
        }
        None => panic!("a is set"),
    }
    assert_eq!(props.get("a"), text("changed"));
}

#[test]
fn keys_and_values_go_together() {
    let props = Props::new().with("y", num(2.0)).with("x", num(1.0)).with("z", num(3.0));
    let keys: Vec<&str> = props.keys().iter().map(|name| name.as_str()).collect();
    assert_eq!(keys, vec!["x", "y", "z"]);
    assert_eq!(props.values().to_vec(), vec![num(1.0), num(2.0), num(3.0)]);
    let pairs = props.iter();
    for (i, (name, value)) in pairs.iter().enumerate() {
        assert_eq!(name.as_str(), keys[i]);
        assert_eq!(*value, props.values()[i]);
    }
}

#[test]
fn into_keys_and_into_values_hand_out_in_key_order() {
    let build = || Props::new().with("y", num(2.0)).with("x", text("one")).with("z", Value::Bool(true));
    let keys: Vec<&str> = build().into_keys().into_iter().map(|name| name.as_str()).collect();
    assert_eq!(keys, vec!["x", "y", "z"]);
    assert_eq!(build().into_values(), vec![text("one"), num(2.0), Value::Bool(true)]);
}

#[test]
fn values_mut_reaches_each_value_by_position() {
    let mut props = Props::new().with("y", num(2.0)).with("x", num(1.0));
    let mut i = 0;
    while let Some(value) = props.values_mut(i) {
        *value = finish(value.mul(num(10.0)));
        i += 1;
    }
    assert_eq!(i, 2);
    assert_eq!(props.get("x"), num(10.0));
    assert_eq!(props.get("y"), num(20.0));
    assert!(props.values_mut(2).is_none());
}

#[test]
fn names_differing_in_case_or_length_are_different_properties() {
    let props = Props::new().with("hp", num(1.0)).with("HP", num(2.0)).with("hp ", num(3.0));
    assert_eq!(props.get("hp"), num(1.0));
    assert_eq!(props.get("HP"), num(2.0));
    assert_eq!(props.get("hp "), num(3.0));
    assert_eq!(props.get("h"), Value::Bool(false));
}

#[test]
fn index_reads_and_index_mut_writes() {
    let mut props = Props::new().with("bool_prop", Value::Bool(true)).with("num_prop", num(42.0));
    assert_eq!(props["bool_prop"], Value::Bool(true));
    assert_eq!(props["num_prop"], num(42.0));
    assert_eq!(props["non_existant"], Value::Bool(false));
    assert_eq!(props.len(), 2);
    props["num_prop"] = num(1.0);
    assert_eq!(props["num_prop"], num(1.0));
    props["fresh"] = text("x");
    assert_eq!(props["fresh"], text("x"));
    assert_eq!(props.len(), 3);
}

#[test]
fn adding_in_place_through_the_index() {
    let mut props = Props::new();
    let arithmetic = |operator: Operator, lhs: Number, rhs: Number| {
        let lhs = f32::from_bits(lhs.to_bits());
        let rhs = f32::from_bits(rhs.to_bits());
        Number::from_bits(match operator {
            Operator::Add => (lhs + rhs).to_bits(),
            Operator::Sub => (lhs - rhs).to_bits(),
            Operator::Mul => (lhs * rhs).to_bits(),
            Operator::Div => (lhs / rhs).to_bits(),
        })
    };
    props["n"] = props["n"].add(num(5.0)).finish(arithmetic);
    props["n"] = props["n"].sub(num(2.0)).finish(arithmetic);
    assert_eq!(float(props.get("n")), 3.0);
    props["n"] = props["n"].mul(num(4.0)).finish(arithmetic);
    props["n"] = props["n"].div(num(8.0)).finish(arithmetic);
    assert_eq!(float(props.get("n")), 1.5);
}

#[test]
fn clone_and_default() {
    let props = Props::new().with("a", num(1.0)).with("b", text("x"));
    let mut copy = props.clone();
    assert_eq!(listing(&copy), listing(&props));
    copy.set("a", num(2.0));
    assert_eq!(props.get("a"), num(1.0));
    assert_eq!(copy.get("a"), num(2.0));
    assert_eq!(Props::default().len(), 0);
}

#[test]
fn into_iter_hands_out_in_key_order() {
    let props = Props::new().with("b", num(2.0)).with("a", text("one"));
    let entries: Vec<(String, Value)> =
        props.into_iter().into_iter().map(|(name, value)| (name.as_str().to_string(), value)).collect();
    assert_eq!(entries, vec![("a".to_string(), text("one")), ("b".to_string(), num(2.0))]);
}
