//! Values of properties: a boolean, a number or a text.
//!
//! A value can be read as any of the three types. Read as the type it holds,
//! it gives what it holds; read as another type, it gives that type's zero
//! value: `false`, positive zero, or the empty text. Access for writing
//! first turns the value into the type asked for, so that a value of another
//! type is replaced by the zero value.

use crate::number::Number;
use crate::names::estr_text;
use crate::text::{compare, order};
use core::cmp::Ordering;
use estr::Estr;
use vstd::pervasive::unreached;
use vstd::prelude::*;
use vstd::std_specs::cmp::{PartialEqSpecImpl, PartialOrdSpecImpl};

verus! {

/// A boolean, a number or a text.
#[derive(Clone, Copy, Debug)]
pub enum Value {
    Bool(bool),
    Num(Number),
    Str(Estr),
}

/// What a value holds: the model of a [`Value`], with the text itself in
/// place of the handle to it.
pub enum ValueView {
    Bool(bool),
    Num(Number),
    Str(Seq<char>),
}

impl ValueView {
    /// What is held, read as a boolean.
    pub open spec fn truth(self) -> bool {
        match self {
            ValueView::Bool(truth) => truth,
            _ => false,
        }
    }

    /// What is held, read as a number.
    pub open spec fn number(self) -> Number {
        match self {
            ValueView::Num(number) => number,
            _ => Number::zero(),
        }
    }

    /// What is held, read as a text.
    pub open spec fn text(self) -> Seq<char> {
        match self {
            ValueView::Str(text) => text,
            _ => Seq::empty(),
        }
    }

    /// Equality of values: two values of one type that hold the same, where
    /// a NaN is the same as nothing. Values of different types are never
    /// equal.
    pub open spec fn same(self, other: ValueView) -> bool {
        match (self, other) {
            (ValueView::Bool(a), ValueView::Bool(b)) => a == b,
            (ValueView::Num(a), ValueView::Num(b)) => a.same(b),
            (ValueView::Str(a), ValueView::Str(b)) => a == b,
            _ => false,
        }
    }

    /// How a value stands to another: values of one type as what they hold
    /// (`false` before `true`, numbers as IEEE-754 orders them, texts
    /// lexicographically), values of different types not at all.
    pub open spec fn order(self, other: ValueView) -> Option<Ordering> {
        match (self, other) {
            (ValueView::Bool(a), ValueView::Bool(b)) => Some(truth_order(a, b)),
            (ValueView::Num(a), ValueView::Num(b)) => a.order(b),
            (ValueView::Str(a), ValueView::Str(b)) => Some(order(a, b)),
            _ => None,
        }
    }
}

impl View for Value {
    type V = ValueView;

    open spec fn view(&self) -> ValueView {
        match *self {
            Value::Bool(truth) => ValueView::Bool(truth),
            Value::Num(number) => ValueView::Num(number),
            Value::Str(name) => ValueView::Str(estr_text(name)),
        }
    }
}

impl Value {
    /// A text as a value.
    pub fn from_text(text: &str) -> (value: Value)
        ensures
            value@ == ValueView::Str(text@),
    {
        Value::Str(Estr::from(text))
    }

    /// What the value holds, if it is a boolean.
    pub fn to_bool(self) -> (held: Option<bool>)
        ensures
            held == (match self {
                Value::Bool(truth) => Some(truth),
                _ => None,
            }),
    {
        match self {
            Value::Bool(truth) => Some(truth),
            _ => None,
        }
    }

    /// What the value holds, if it is a number.
    pub fn to_number(self) -> (held: Option<Number>)
        ensures
            held == (match self {
                Value::Num(number) => Some(number),
                _ => None,
            }),
    {
        match self {
            Value::Num(number) => Some(number),
            _ => None,
        }
    }

    /// What the value holds, if it is a text.
    pub fn to_text(self) -> (held: Option<Estr>)
        ensures
            held == (match self {
                Value::Str(name) => Some(name),
                _ => None,
            }),
    {
        match self {
            Value::Str(name) => Some(name),
            _ => None,
        }
    }

    /// The boolean that the value holds, or `false`.
    pub fn as_bool(&self) -> (truth: bool)
        ensures
            truth == self@.truth(),
    {
        match self {
            Value::Bool(truth) => *truth,
            _ => false,
        }
    }

    /// The number that the value holds, or positive zero.
    pub fn as_number(&self) -> (number: Number)
        ensures
            number == self@.number(),
    {
        match self {
            Value::Num(number) => *number,
            _ => Number::default(),
        }
    }

    /// The text that the value holds, or the empty text.
    pub fn as_text(&self) -> (name: Estr)
        ensures
            estr_text(name) == self@.text(),
            self matches Value::Str(held) ==> name == held,
    {
        match self {
            Value::Str(name) => *name,
            _ => {
                proof {
                    reveal_strlit("");
                    assert(""@ =~= Seq::<char>::empty());
                }
                Estr::from("")
            },
        }
    }

    /// The boolean in the value, for writing. A value that holds no boolean
    /// becomes `false` first.
    pub fn as_bool_mut(&mut self) -> (slot: &mut bool)
        ensures
            *slot == old(self)@.truth(),
            *final(self) == Value::Bool(*final(slot)),
    {
        match self {
            Value::Bool(slot) => slot,
            _ => {
                *self = Value::Bool(false);
                match self {
                    Value::Bool(slot) => slot,
                    _ => unreached(),
                }
            },
        }
    }

    /// The number in the value, for writing. A value that holds no number
    /// becomes positive zero first.
    pub fn as_number_mut(&mut self) -> (slot: &mut Number)
        ensures
            *slot == old(self)@.number(),
            *final(self) == Value::Num(*final(slot)),
    {
        match self {
            Value::Num(slot) => slot,
            _ => {
                *self = Value::Num(Number::default());
                match self {
                    Value::Num(slot) => slot,
                    _ => unreached(),
                }
            },
        }
    }

    /// The text in the value, for writing. A value that holds no text
    /// becomes the empty text first.
    pub fn as_text_mut(&mut self) -> (slot: &mut Estr)
        ensures
            estr_text(*slot) == old(self)@.text(),
            *old(self) matches Value::Str(held) ==> *slot == held,
            *final(self) == Value::Str(*final(slot)),
    {
        match self {
            Value::Str(slot) => slot,
            _ => {
                proof {
                    reveal_strlit("");
                    assert(""@ =~= Seq::<char>::empty());
                }
                *self = Value::Str(Estr::from(""));
                match self {
                    Value::Str(slot) => slot,
                    _ => unreached(),
                }
            },
        }
    }
}

impl Default for Value {
    fn default() -> (value: Value)
        ensures
            value == Value::Bool(false),
    {
        Value::Bool(false)
    }
}

impl PartialEq for Value {
    fn eq(&self, other: &Value) -> (r: bool) {
        match (self, other) {
            (Value::Bool(a), Value::Bool(b)) => *a == *b,
            (Value::Num(a), Value::Num(b)) => *a == *b,
            (Value::Str(a), Value::Str(b)) => *a == *b,
            _ => false,
        }
    }
}

impl PartialEqSpecImpl for Value {
    open spec fn obeys_eq_spec() -> bool {
        true
    }

    open spec fn eq_spec(&self, other: &Value) -> bool {
        self@.same(other@)
    }
}

/// How one boolean stands to another: `false` comes before `true`.
pub open spec fn truth_order(a: bool, b: bool) -> Ordering {
    if a == b {
        Ordering::Equal
    } else if b {
        Ordering::Less
    } else {
        Ordering::Greater
    }
}

impl PartialOrd for Value {
    fn partial_cmp(&self, other: &Value) -> (r: Option<Ordering>) {
        match (self, other) {
            (Value::Bool(a), Value::Bool(b)) => {
                if *a == *b {
                    Some(Ordering::Equal)
                } else if *b {
                    Some(Ordering::Less)
                } else {
                    Some(Ordering::Greater)
                }
            },
            (Value::Num(a), Value::Num(b)) => a.partial_cmp(b),
            (Value::Str(a), Value::Str(b)) => Some(compare(a.as_str(), b.as_str())),
            _ => None,
        }
    }
}

impl PartialOrdSpecImpl for Value {
    open spec fn obeys_partial_cmp_spec() -> bool {
        true
    }

    open spec fn partial_cmp_spec(&self, other: &Value) -> Option<Ordering> {
        self@.order(other@)
    }
}

} // verus!
