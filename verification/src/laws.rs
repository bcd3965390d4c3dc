//! What holds of values and of properties whatever they are.

use crate::arith::Outcome;
use crate::name_map::{lemma_model_at, lemma_model_remove, model, sorted};
use crate::number::Number;
use crate::props::lookup;
use crate::text::{before, lemma_asymmetric, lemma_total, lemma_transitive};
use crate::value::ValueView;
use core::cmp::Ordering;
use vstd::prelude::*;

verus! {

/// A value read as the type it holds gives what it holds; read as another
/// type, it gives that type's zero value.
pub proof fn law_read_gives_held_or_zero(value: ValueView)
    ensures
        value matches ValueView::Bool(held) ==> value.truth() == held,
        !(value is Bool) ==> value.truth() == false,
        value matches ValueView::Num(held) ==> value.number() == held,
        !(value is Num) ==> value.number() == Number::zero(),
        value matches ValueView::Str(held) ==> value.text() == held,
        !(value is Str) ==> value.text() == Seq::<char>::empty(),
{
}

/// Two values are equal exactly where they are ordered as equal: in
/// particular a NaN, which equals nothing, is ordered beside nothing.
pub proof fn law_equal_is_ordered_equal(a: ValueView, b: ValueView)
    ensures
        a.same(b) <==> a.order(b) == Some(Ordering::Equal),
        a.same(b) <==> b.same(a),
{
}

/// Texts are in a strict total order: of two different texts exactly one
/// comes before the other, no text comes before itself, and a text that
/// comes before a second comes before all that the second comes before.
pub proof fn law_texts_are_in_order(a: Seq<char>, b: Seq<char>, c: Seq<char>)
    ensures
        !before(a, a),
        !(before(a, b) && before(b, a)),
        a != b ==> before(a, b) || before(b, a),
        before(a, b) && before(b, c) ==> before(a, c),
{
    lemma_asymmetric(a, b);
    lemma_total(a, b);
    if before(a, b) && before(b, c) {
        lemma_transitive(a, b, c);
    }
}

/// Where the right operand holds no number, a quotient is the left operand
/// read as a number, a sum likewise, and a product is zero.
pub proof fn law_operand_without_number(lhs: ValueView, rhs: ValueView)
    requires
        !(rhs is Num),
    ensures
        lhs.quotient(rhs) == Outcome::Known(lhs.number()),
        lhs.sum(rhs) == Outcome::Known(lhs.number()),
        lhs.product(rhs) == Outcome::Known(Number::zero()),
{
}

/// Setting a property twice to one value is the same as setting it once,
/// and the property then reads as that value.
pub proof fn law_set_is_idempotent(
    props: Map<Seq<char>, ValueView>,
    name: Seq<char>,
    value: ValueView,
)
    ensures
        props.insert(name, value).insert(name, value) == props.insert(name, value),
        lookup(props.insert(name, value), name) == value,
{
    assert(props.insert(name, value).insert(name, value) =~= props.insert(name, value));
}

/// Where no property is set, every property reads as `false`, as positive
/// zero and as the empty text.
pub proof fn law_missing_reads_as_zero(name: Seq<char>)
    ensures
        lookup(Map::empty(), name).truth() == false,
        lookup(Map::empty(), name).number() == Number::zero(),
        lookup(Map::empty(), name).text() == Seq::<char>::empty(),
{
}

/// Access for writing as a number to a property that holds `true` replaces
/// it by positive zero, whatever else is set: the property then reads as
/// zero and as `false`.
///
/// Such an access leaves the property at `Value::Num` of what it read as a
/// number before, unless something is written.
pub proof fn law_write_access_replaces(props: Map<Seq<char>, ValueView>, name: Seq<char>)
    ensures
        ({
            let set = props.insert(name, ValueView::Bool(true));
            let accessed = set.insert(name, ValueView::Num(lookup(set, name).number()));
            &&& lookup(accessed, name).number() == Number::zero()
            &&& lookup(accessed, name).truth() == false
        }),
{
}

/// The order in which properties are walked is fixed by which properties
/// are set: two sorted sequences of names that stand for the same map are
/// the same sequence, with the same values.
pub proof fn law_order_is_fixed(
    names: Seq<Seq<char>>,
    values: Seq<ValueView>,
    other_names: Seq<Seq<char>>,
    other_values: Seq<ValueView>,
)
    requires
        sorted(names),
        sorted(other_names),
        names.len() == values.len(),
        other_names.len() == other_values.len(),
        model(names, values) == model(other_names, other_values),
    ensures
        names == other_names,
        values == other_values,
    decreases names.len(),
{
    if names.len() == 0 {
        if other_names.len() > 0 {
            lemma_model_at(other_names, other_values, 0);
            assert(names.contains(other_names[0]));
        }
        assert(names =~= other_names);
        assert(values =~= other_values);
    } else if other_names.len() == 0 {
        lemma_model_at(names, values, 0);
        assert(other_names.contains(names[0]));
    } else {
        lemma_model_at(names, values, 0);
        lemma_model_at(other_names, other_values, 0);
        // Each first name is the least name of the map, so the two are one.
        if names[0] != other_names[0] {
            assert(other_names.contains(names[0]));
            assert(names.contains(other_names[0]));
            let i = other_names.index_of(names[0]);
            let j = names.index_of(other_names[0]);
            assert(before(other_names[0], other_names[i]));
            assert(before(names[0], names[j]));
            lemma_asymmetric(names[0], other_names[0]);
        }
        // Without their first entries the sequences stand for one map again.
        lemma_model_remove(names, values, 0);
        lemma_model_remove(other_names, other_values, 0);
        law_order_is_fixed(names.remove(0), values.remove(0), other_names.remove(0), other_values.remove(0));
        assert(names =~= seq![names[0]] + names.remove(0));
        assert(other_names =~= seq![other_names[0]] + other_names.remove(0));
        assert(values =~= seq![values[0]] + values.remove(0));
        assert(other_values =~= seq![other_values[0]] + other_values.remove(0));
    }
}

} // verus!
