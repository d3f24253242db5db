//! The order of values, as far as they have one.

use vstd::prelude::*;
use crate::scalar::{Scalar, ScalarModel};
use crate::text::chars_of;
use crate::value::{models_of, Value, ValueModel};
use crate::view::ValueView;

verus! {

/// How one thing stands to another that it can be compared with.
#[derive(Clone, Copy, Debug, PartialEq, Eq, Structural)]
pub enum Order {
    Less,
    Equal,
    Greater,
}

/// The order of two integers.
pub open spec fn int_order(a: int, b: int) -> Order {
    if a < b {
        Order::Less
    } else if a == b {
        Order::Equal
    } else {
        Order::Greater
    }
}

/// The order of two texts: by the first character in which they differ, the one
/// with the smaller code point first; a text comes before every longer one that
/// starts with it.
pub open spec fn text_order(a: Seq<char>, b: Seq<char>) -> Order
    decreases a.len(),
{
    if a.len() == 0 && b.len() == 0 {
        Order::Equal
    } else if a.len() == 0 {
        Order::Less
    } else if b.len() == 0 {
        Order::Greater
    } else if a[0] == b[0] {
        text_order(a.drop_first(), b.drop_first())
    } else if a[0] < b[0] {
        Order::Less
    } else {
        Order::Greater
    }
}

/// The order of two scalars: two numbers by size, two truth values with `false`
/// first, two strings as texts, two days and two points in time with the
/// earlier first. Scalars of different kinds have no order.
pub open spec fn scalar_order(a: ScalarModel, b: ScalarModel) -> Option<Order> {
    match (a, b) {
        (ScalarModel::Integer(x), ScalarModel::Integer(y)) => Some(int_order(x, y)),
        (ScalarModel::Bool(x), ScalarModel::Bool(y)) => Some(
            int_order(if x { 1 } else { 0 }, if y { 1 } else { 0 }),
        ),
        (ScalarModel::Str(x), ScalarModel::Str(y)) => Some(text_order(x, y)),
        (ScalarModel::Date(x), ScalarModel::Date(y)) => Some(
            int_order(x.day_number(), y.day_number()),
        ),
        (ScalarModel::DateTime(x), ScalarModel::DateTime(y)) => Some(
            int_order(x.instant(), y.instant()),
        ),
        _ => None,
    }
}

/// The order of two values: scalars as scalars, arrays by the first pair of
/// elements that is not equal (an array coming before every longer one that
/// starts with it), objects by their number of fields. Nothing else has an order.
pub open spec fn values_order(a: ValueModel, b: ValueModel) -> Option<Order>
    decreases a,
{
    match (a, b) {
        (ValueModel::Scalar(x), ValueModel::Scalar(y)) => scalar_order(x, y),
        (ValueModel::Array(x), ValueModel::Array(y)) => items_order(x, y),
        (ValueModel::Object(x), ValueModel::Object(y)) => Some(
            int_order(x.len() as int, y.len() as int),
        ),
        _ => None,
    }
}

/// The order of two sequences of values, element by element.
pub open spec fn items_order(x: Seq<ValueModel>, y: Seq<ValueModel>) -> Option<Order>
    decreases x,
{
    if x.len() == 0 && y.len() == 0 {
        Some(Order::Equal)
    } else if x.len() == 0 {
        Some(Order::Less)
    } else if y.len() == 0 {
        Some(Order::Greater)
    } else {
        match values_order(x[0], y[0]) {
            Some(Order::Equal) => items_order(x.drop_first(), y.drop_first()),
            other => other,
        }
    }
}

fn order_of_numbers(a: i64, b: i64) -> (out: Order)
    ensures
        out == int_order(a as int, b as int),
{
    if a < b {
        Order::Less
    } else if a == b {
        Order::Equal
    } else {
        Order::Greater
    }
}

fn order_of_lengths(a: usize, b: usize) -> (out: Order)
    ensures
        out == int_order(a as int, b as int),
{
    if a < b {
        Order::Less
    } else if a == b {
        Order::Equal
    } else {
        Order::Greater
    }
}

/// The order of two strings.
pub fn order_texts(a: &str, b: &str) -> (out: Order)
    ensures
        out == text_order(a@, b@),
{
    let x = chars_of(a);
    let y = chars_of(b);
    let mut i: usize = 0;
    assert(x@.skip(0) == x@ && y@.skip(0) == y@);
    while i < x.len() && i < y.len()
        invariant
            i <= x.len(),
            i <= y.len(),
            x@ == a@,
            y@ == b@,
            text_order(a@, b@) == text_order(x@.skip(i as int), y@.skip(i as int)),
        decreases x.len() - i,
    {
        proof {
            assert(x@.skip(i as int).drop_first() == x@.skip(i + 1));
            assert(y@.skip(i as int).drop_first() == y@.skip(i + 1));
            assert(x@.skip(i as int)[0] == x@[i as int]);
            assert(y@.skip(i as int)[0] == y@[i as int]);
        }
        if x[i] != y[i] {
            return if x[i] < y[i] {
                Order::Less
            } else {
                Order::Greater
            };
        }
        i += 1;
    }
    order_of_lengths(x.len() - i, y.len() - i)
}

impl Scalar {
    /// The order of two scalars, if they have one.
    pub fn order(&self, other: &Scalar) -> (out: Option<Order>)
        ensures
            out == scalar_order(self@, other@),
    {
        match (self, other) {
            (Scalar::Integer(x), Scalar::Integer(y)) => Some(
                if *x < *y {
                    Order::Less
                } else if *x == *y {
                    Order::Equal
                } else {
                    Order::Greater
                },
            ),
            (Scalar::Bool(x), Scalar::Bool(y)) => Some(
                if !*x && *y {
                    Order::Less
                } else if *x == *y {
                    Order::Equal
                } else {
                    Order::Greater
                },
            ),
            (Scalar::Str(x), Scalar::Str(y)) => Some(order_texts(x.as_str(), y.as_str())),
            (Scalar::Date(x), Scalar::Date(y)) => Some(
                order_of_numbers(x.to_day_number(), y.to_day_number()),
            ),
            (Scalar::DateTime(x), Scalar::DateTime(y)) => Some(
                order_of_numbers(x.to_instant(), y.to_instant()),
            ),
            _ => None,
        }
    }
}

/// The order of two arrays, element by element.
pub fn arrays_order(x: &Vec<Value>, y: &Vec<Value>) -> (out: Option<Order>)
    ensures
        out == items_order(models_of(x@), models_of(y@)),
    decreases x, 0nat,
{
    let ghost xs = models_of(x@);
    let ghost ys = models_of(y@);
    let mut i: usize = 0;
    assert(xs.skip(0) == xs && ys.skip(0) == ys);
    while i < x.len() && i < y.len()
        invariant
            i <= x.len(),
            i <= y.len(),
            xs == models_of(x@),
            ys == models_of(y@),
            items_order(xs, ys) == items_order(xs.skip(i as int), ys.skip(i as int)),
        decreases x.len() - i,
    {
        proof {
            assert(xs.skip(i as int).drop_first() == xs.skip(i + 1));
            assert(ys.skip(i as int).drop_first() == ys.skip(i + 1));
        }
        match x[i].order(&y[i]) {
            Some(Order::Equal) => {},
            other => {
                return other;
            },
        }
        i += 1;
    }
    Some(order_of_lengths(x.len() - i, y.len() - i))
}

impl Value {
    /// The order of two values, if they have one.
    pub fn order(&self, other: &Value) -> (out: Option<Order>)
        ensures
            out == values_order(self@, other@),
        decreases self, 1nat,
    {
        match (self, other) {
            (Value::Scalar(x), Value::Scalar(y)) => x.order(y),
            (Value::Array(x), Value::Array(y)) => {
                proof {
                    assert(models_of(x@) =~= self@->Array_0);
                    assert(models_of(y@) =~= other@->Array_0);
                }
                arrays_order(x, y)
            },
            (Value::Object(x), Value::Object(y)) => Some(order_of_lengths(x.len(), y.len())),
            _ => None,
        }
    }
}

/// The order of what two views show, if it has one.
pub fn views_order<A: ValueView, B: ValueView>(a: &A, b: &B) -> (out: Option<Order>)
    ensures
        out == values_order(a.shown(), b.shown()),
{
    if let Some(x) = a.as_scalar() {
        match b.as_scalar() {
            Some(y) => x.order(y),
            None => None,
        }
    } else if let Some(x) = a.as_array() {
        match b.as_array() {
            Some(y) => arrays_order(x, y),
            None => None,
        }
    } else if let Some(x) = a.as_object() {
        match b.as_object() {
            Some(y) => Some(order_of_lengths(x.len(), y.len())),
            None => None,
        }
    } else {
        None
    }
}

} // verus!
