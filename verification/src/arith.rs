//! Arithmetic on values.
//!
//! Every value can be added to, subtracted from, multiplied with and divided
//! by every other, and the result is always a number. A value that holds no
//! number counts as zero, with one exception: to divide by such a value is
//! to divide by one, so the dividend comes back unchanged.
//!
//! Where both operands hold numbers, the result is that of IEEE-754
//! arithmetic on the two. That one step is left to the caller: an operation
//! here comes to an [`Outcome`], which either is the result or names the
//! operator and the two numbers to apply it to.

use crate::number::Number;
use crate::value::{Value, ValueView};
use vstd::prelude::*;

verus! {

/// An operator of arithmetic.
#[derive(Clone, Copy, Debug, PartialEq, Eq, Structural)]
pub enum Operator {
    Add,
    Sub,
    Mul,
    Div,
}

/// What an operation on two values comes to.
#[derive(Clone, Copy, Debug)]
pub enum Outcome {
    /// The result is this number.
    Known(Number),
    /// Both operands hold numbers: the result is what the operator gives for
    /// the first number and the second in IEEE-754 arithmetic.
    Apply(Operator, Number, Number),
}

impl Outcome {
    /// The value that the outcome stands for, given the arithmetic: a
    /// function that applies an operator to two numbers. The function is
    /// called only where the outcome leaves an operator to apply.
    pub fn finish<F: Fn(Operator, Number, Number) -> Number>(self, arithmetic: F) -> (value: Value)
        requires
            self matches Outcome::Apply(operator, lhs, rhs) ==> arithmetic.requires(
                (operator, lhs, rhs),
            ),
        ensures
            value is Num,
            match self {
                Outcome::Known(number) => value == Value::Num(number),
                Outcome::Apply(operator, lhs, rhs) => arithmetic.ensures(
                    (operator, lhs, rhs),
                    value@.number(),
                ),
            },
    {
        match self {
            Outcome::Known(number) => Value::Num(number),
            Outcome::Apply(operator, lhs, rhs) => Value::Num(arithmetic(operator, lhs, rhs)),
        }
    }
}

impl ValueView {
    /// What `self + rhs` comes to.
    pub open spec fn sum(self, rhs: ValueView) -> Outcome {
        if self is Num && rhs is Num {
            Outcome::Apply(Operator::Add, self.number(), rhs.number())
        } else if self is Num {
            Outcome::Known(self.number())
        } else {
            Outcome::Known(rhs.number())
        }
    }

    /// What `self - rhs` comes to.
    pub open spec fn difference(self, rhs: ValueView) -> Outcome {
        if self is Num && rhs is Num {
            Outcome::Apply(Operator::Sub, self.number(), rhs.number())
        } else if self is Num {
            Outcome::Known(self.number())
        } else if rhs is Num {
            Outcome::Known(rhs.number().negated())
        } else {
            Outcome::Known(Number::zero())
        }
    }

    /// What `self * rhs` comes to.
    pub open spec fn product(self, rhs: ValueView) -> Outcome {
        if self is Num && rhs is Num {
            Outcome::Apply(Operator::Mul, self.number(), rhs.number())
        } else {
            Outcome::Known(Number::zero())
        }
    }

    /// What `self / rhs` comes to.
    pub open spec fn quotient(self, rhs: ValueView) -> Outcome {
        if self is Num && rhs is Num {
            Outcome::Apply(Operator::Div, self.number(), rhs.number())
        } else {
            Outcome::Known(self.number())
        }
    }
}

impl Value {
    /// Adds two values.
    pub fn add(self, rhs: Value) -> (outcome: Outcome)
        ensures
            outcome == self@.sum(rhs@),
    {
        match (self, rhs) {
            (Value::Num(lhs), Value::Num(rhs)) => Outcome::Apply(Operator::Add, lhs, rhs),
            (Value::Num(number), _) => Outcome::Known(number),
            (_, Value::Num(number)) => Outcome::Known(number),
            _ => Outcome::Known(Number::default()),
        }
    }

    /// Subtracts a value from another.
    pub fn sub(self, rhs: Value) -> (outcome: Outcome)
        ensures
            outcome == self@.difference(rhs@),
    {
        match (self, rhs) {
            (Value::Num(lhs), Value::Num(rhs)) => Outcome::Apply(Operator::Sub, lhs, rhs),
            (Value::Num(number), _) => Outcome::Known(number),
            (_, Value::Num(number)) => Outcome::Known(number.neg()),
            _ => Outcome::Known(Number::default()),
        }
    }

    /// Multiplies two values.
    pub fn mul(self, rhs: Value) -> (outcome: Outcome)
        ensures
            outcome == self@.product(rhs@),
    {
        match (self, rhs) {
            (Value::Num(lhs), Value::Num(rhs)) => Outcome::Apply(Operator::Mul, lhs, rhs),
            _ => Outcome::Known(Number::default()),
        }
    }

    /// Divides a value by another.
    pub fn div(self, rhs: Value) -> (outcome: Outcome)
        ensures
            outcome == self@.quotient(rhs@),
    {
        match (self, rhs) {
            (Value::Num(lhs), Value::Num(rhs)) => Outcome::Apply(Operator::Div, lhs, rhs),
            (Value::Num(lhs), _) => Outcome::Known(lhs),
            _ => Outcome::Known(Number::default()),
        }
    }
}

} // verus!
