//! Values beside plain booleans, numbers and texts: a value made of one,
//! one read out of a value, and a value held against one for equality and
//! for order.
//!
//! To hold a value against a plain boolean, number or text is to hold it
//! against the value made of it.
//!
//! A conversion that makes or hands out a text has no spec function: a
//! specification cannot name the handle that a text is interned to, nor an
//! owned string. What such a conversion gives is stated in the `ensures` of
//! its `from`.

use crate::names::estr_text;
use crate::number::Number;
use crate::value::{Value, ValueView};
use core::cmp::Ordering;
use estr::Estr;
use vstd::prelude::*;
use vstd::std_specs::cmp::{PartialEqSpecImpl, PartialOrdSpecImpl};
use vstd::std_specs::convert::FromSpecImpl;

verus! {

impl From<bool> for Value {
    fn from(truth: bool) -> (value: Value) {
        Value::Bool(truth)
    }
}

impl FromSpecImpl<bool> for Value {
    open spec fn obeys_from_spec() -> bool {
        true
    }

    open spec fn from_spec(truth: bool) -> Value {
        Value::Bool(truth)
    }
}

impl From<Number> for Value {
    fn from(number: Number) -> (value: Value) {
        Value::Num(number)
    }
}

impl FromSpecImpl<Number> for Value {
    open spec fn obeys_from_spec() -> bool {
        true
    }

    open spec fn from_spec(number: Number) -> Value {
        Value::Num(number)
    }
}

impl From<Estr> for Value {
    fn from(name: Estr) -> (value: Value) {
        Value::Str(name)
    }
}

impl FromSpecImpl<Estr> for Value {
    open spec fn obeys_from_spec() -> bool {
        true
    }

    open spec fn from_spec(name: Estr) -> Value {
        Value::Str(name)
    }
}

impl<'a> From<&'a str> for Value {
    fn from(text: &'a str) -> (value: Value)
        ensures
            value@ == ValueView::Str(text@),
    {
        Value::from_text(text)
    }
}

impl<'a> FromSpecImpl<&'a str> for Value {
    open spec fn obeys_from_spec() -> bool {
        false
    }

    open spec fn from_spec(text: &'a str) -> Value {
        arbitrary()
    }
}

impl From<String> for Value {
    fn from(text: String) -> (value: Value)
        ensures
            value@ == ValueView::Str(text@),
    {
        Value::from_text(text.as_str())
    }
}

impl FromSpecImpl<String> for Value {
    open spec fn obeys_from_spec() -> bool {
        false
    }

    open spec fn from_spec(text: String) -> Value {
        arbitrary()
    }
}

impl From<Value> for Option<bool> {
    fn from(value: Value) -> (held: Option<bool>) {
        value.to_bool()
    }
}

impl FromSpecImpl<Value> for Option<bool> {
    open spec fn obeys_from_spec() -> bool {
        true
    }

    open spec fn from_spec(value: Value) -> Option<bool> {
        match value {
            Value::Bool(truth) => Some(truth),
            _ => None,
        }
    }
}

impl From<Value> for bool {
    fn from(value: Value) -> (truth: bool) {
        value.as_bool()
    }
}

impl FromSpecImpl<Value> for bool {
    open spec fn obeys_from_spec() -> bool {
        true
    }

    open spec fn from_spec(value: Value) -> bool {
        value@.truth()
    }
}

impl From<Value> for Option<Number> {
    fn from(value: Value) -> (held: Option<Number>) {
        value.to_number()
    }
}

impl FromSpecImpl<Value> for Option<Number> {
    open spec fn obeys_from_spec() -> bool {
        true
    }

    open spec fn from_spec(value: Value) -> Option<Number> {
        match value {
            Value::Num(number) => Some(number),
            _ => None,
        }
    }
}

impl From<Value> for Number {
    fn from(value: Value) -> (number: Number) {
        value.as_number()
    }
}

impl FromSpecImpl<Value> for Number {
    open spec fn obeys_from_spec() -> bool {
        true
    }

    open spec fn from_spec(value: Value) -> Number {
        value@.number()
    }
}

impl From<Value> for Option<Estr> {
    fn from(value: Value) -> (held: Option<Estr>) {
        value.to_text()
    }
}

impl FromSpecImpl<Value> for Option<Estr> {
    open spec fn obeys_from_spec() -> bool {
        true
    }

    open spec fn from_spec(value: Value) -> Option<Estr> {
        match value {
            Value::Str(name) => Some(name),
            _ => None,
        }
    }
}

impl From<Value> for Option<&'static str> {
    fn from(value: Value) -> (held: Option<&'static str>)
        ensures
            match held {
                Some(text) => value is Str && text@ == value@.text(),
                None => !(value is Str),
            },
    {
        match value {
            Value::Str(name) => Some(name.as_str()),
            _ => None,
        }
    }
}

impl FromSpecImpl<Value> for Option<&'static str> {
    open spec fn obeys_from_spec() -> bool {
        false
    }

    open spec fn from_spec(value: Value) -> Option<&'static str> {
        arbitrary()
    }
}

impl From<Value> for &'static str {
    fn from(value: Value) -> (text: &'static str)
        ensures
            text@ == value@.text(),
    {
        value.as_text().as_str()
    }
}

impl FromSpecImpl<Value> for &'static str {
    open spec fn obeys_from_spec() -> bool {
        false
    }

    open spec fn from_spec(value: Value) -> &'static str {
        arbitrary()
    }
}

impl From<Value> for Option<String> {
    fn from(value: Value) -> (held: Option<String>)
        ensures
            match held {
                Some(text) => value is Str && text@ == value@.text(),
                None => !(value is Str),
            },
    {
        match value {
            Value::Str(name) => Some(name.as_str().to_owned()),
            _ => None,
        }
    }
}

impl FromSpecImpl<Value> for Option<String> {
    open spec fn obeys_from_spec() -> bool {
        false
    }

    open spec fn from_spec(value: Value) -> Option<String> {
        arbitrary()
    }
}

impl From<Value> for String {
    fn from(value: Value) -> (text: String)
        ensures
            text@ == value@.text(),
    {
        value.as_text().as_str().to_owned()
    }
}

impl FromSpecImpl<Value> for String {
    open spec fn obeys_from_spec() -> bool {
        false
    }

    open spec fn from_spec(value: Value) -> String {
        arbitrary()
    }
}

impl PartialEq<bool> for Value {
    fn eq(&self, other: &bool) -> (r: bool) {
        *self == Value::Bool(*other)
    }
}

impl PartialEqSpecImpl<bool> for Value {
    open spec fn obeys_eq_spec() -> bool {
        true
    }

    open spec fn eq_spec(&self, other: &bool) -> bool {
        self@.same(ValueView::Bool(*other))
    }
}

impl PartialEq<Value> for bool {
    fn eq(&self, other: &Value) -> (r: bool) {
        Value::Bool(*self) == *other
    }
}

impl PartialEqSpecImpl<Value> for bool {
    open spec fn obeys_eq_spec() -> bool {
        true
    }

    open spec fn eq_spec(&self, other: &Value) -> bool {
        ValueView::Bool(*self).same(other@)
    }
}

impl PartialEq<Number> for Value {
    fn eq(&self, other: &Number) -> (r: bool) {
        *self == Value::Num(*other)
    }
}

impl PartialEqSpecImpl<Number> for Value {
    open spec fn obeys_eq_spec() -> bool {
        true
    }

    open spec fn eq_spec(&self, other: &Number) -> bool {
        self@.same(ValueView::Num(*other))
    }
}

impl PartialEq<Value> for Number {
    fn eq(&self, other: &Value) -> (r: bool) {
        Value::Num(*self) == *other
    }
}

impl PartialEqSpecImpl<Value> for Number {
    open spec fn obeys_eq_spec() -> bool {
        true
    }

    open spec fn eq_spec(&self, other: &Value) -> bool {
        ValueView::Num(*self).same(other@)
    }
}

impl PartialEq<Estr> for Value {
    fn eq(&self, other: &Estr) -> (r: bool) {
        *self == Value::Str(*other)
    }
}

impl PartialEqSpecImpl<Estr> for Value {
    open spec fn obeys_eq_spec() -> bool {
        true
    }

    open spec fn eq_spec(&self, other: &Estr) -> bool {
        self@.same(ValueView::Str(estr_text(*other)))
    }
}

impl PartialEq<Value> for Estr {
    fn eq(&self, other: &Value) -> (r: bool) {
        Value::Str(*self) == *other
    }
}

impl PartialEqSpecImpl<Value> for Estr {
    open spec fn obeys_eq_spec() -> bool {
        true
    }

    open spec fn eq_spec(&self, other: &Value) -> bool {
        ValueView::Str(estr_text(*self)).same(other@)
    }
}

impl<'a> PartialEq<&'a str> for Value {
    fn eq(&self, other: &&'a str) -> (r: bool) {
        *self == Value::Str(Estr::from(*other))
    }
}

impl<'a> PartialEqSpecImpl<&'a str> for Value {
    open spec fn obeys_eq_spec() -> bool {
        true
    }

    open spec fn eq_spec(&self, other: &&'a str) -> bool {
        self@.same(ValueView::Str(other@))
    }
}

impl<'a> PartialEq<Value> for &'a str {
    fn eq(&self, other: &Value) -> (r: bool) {
        Value::Str(Estr::from(*self)) == *other
    }
}

impl<'a> PartialEqSpecImpl<Value> for &'a str {
    open spec fn obeys_eq_spec() -> bool {
        true
    }

    open spec fn eq_spec(&self, other: &Value) -> bool {
        ValueView::Str(self@).same(other@)
    }
}

impl PartialEq<String> for Value {
    fn eq(&self, other: &String) -> (r: bool) {
        *self == Value::Str(Estr::from(other.as_str()))
    }
}

impl PartialEqSpecImpl<String> for Value {
    open spec fn obeys_eq_spec() -> bool {
        true
    }

    open spec fn eq_spec(&self, other: &String) -> bool {
        self@.same(ValueView::Str(other@))
    }
}

impl PartialEq<Value> for String {
    fn eq(&self, other: &Value) -> (r: bool) {
        Value::Str(Estr::from(self.as_str())) == *other
    }
}

impl PartialEqSpecImpl<Value> for String {
    open spec fn obeys_eq_spec() -> bool {
        true
    }

    open spec fn eq_spec(&self, other: &Value) -> bool {
        ValueView::Str(self@).same(other@)
    }
}

impl PartialOrd<bool> for Value {
    fn partial_cmp(&self, other: &bool) -> (r: Option<Ordering>) {
        self.partial_cmp(&Value::Bool(*other))
    }
}

impl PartialOrdSpecImpl<bool> for Value {
    open spec fn obeys_partial_cmp_spec() -> bool {
        true
    }

    open spec fn partial_cmp_spec(&self, other: &bool) -> Option<Ordering> {
        self@.order(ValueView::Bool(*other))
    }
}

impl PartialOrd<Value> for bool {
    fn partial_cmp(&self, other: &Value) -> (r: Option<Ordering>) {
        Value::Bool(*self).partial_cmp(other)
    }
}

impl PartialOrdSpecImpl<Value> for bool {
    open spec fn obeys_partial_cmp_spec() -> bool {
        true
    }

    open spec fn partial_cmp_spec(&self, other: &Value) -> Option<Ordering> {
        ValueView::Bool(*self).order(other@)
    }
}

impl PartialOrd<Number> for Value {
    fn partial_cmp(&self, other: &Number) -> (r: Option<Ordering>) {
        self.partial_cmp(&Value::Num(*other))
    }
}

impl PartialOrdSpecImpl<Number> for Value {
    open spec fn obeys_partial_cmp_spec() -> bool {
        true
    }

    open spec fn partial_cmp_spec(&self, other: &Number) -> Option<Ordering> {
        self@.order(ValueView::Num(*other))
    }
}

impl PartialOrd<Value> for Number {
    fn partial_cmp(&self, other: &Value) -> (r: Option<Ordering>) {
        Value::Num(*self).partial_cmp(other)
    }
}

impl PartialOrdSpecImpl<Value> for Number {
    open spec fn obeys_partial_cmp_spec() -> bool {
        true
    }

    open spec fn partial_cmp_spec(&self, other: &Value) -> Option<Ordering> {
        ValueView::Num(*self).order(other@)
    }
}

impl PartialOrd<Estr> for Value {
    fn partial_cmp(&self, other: &Estr) -> (r: Option<Ordering>) {
        self.partial_cmp(&Value::Str(*other))
    }
}

impl PartialOrdSpecImpl<Estr> for Value {
    open spec fn obeys_partial_cmp_spec() -> bool {
        true
    }

    open spec fn partial_cmp_spec(&self, other: &Estr) -> Option<Ordering> {
        self@.order(ValueView::Str(estr_text(*other)))
    }
}

impl PartialOrd<Value> for Estr {
    fn partial_cmp(&self, other: &Value) -> (r: Option<Ordering>) {
        Value::Str(*self).partial_cmp(other)
    }
}

impl PartialOrdSpecImpl<Value> for Estr {
    open spec fn obeys_partial_cmp_spec() -> bool {
        true
    }

    open spec fn partial_cmp_spec(&self, other: &Value) -> Option<Ordering> {
        ValueView::Str(estr_text(*self)).order(other@)
    }
}

} // verus!
