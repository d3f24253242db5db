//! A value that is either owned or shared, behind one type.

use std::cmp::Ordering;
use std::rc::Rc;
use vstd::prelude::*;
use crate::order::{values_order, views_order, Order};
use crate::datetime::{CivilDate, DateTime};
use crate::scalar::{Scalar, ScalarModel, State};
use crate::shared::Held;
use crate::value::{rendered, sourced, values_equal, Object, Value, ValueModel};
use crate::view::{views_equal, ValueView};

verus! {

/// Either a value of one's own or a handle on a shared one. Whoever holds it
/// reads the same value either way. What is shared may be a value or a view of a
/// type `V` of the caller's own.
#[derive(Debug)]
pub enum ValueCow<'s, V = Value> {
    /// A value that this wrapper alone holds.
    Owned(Value),
    /// A handle on a value that others may hold too. It is never written through.
    Shared(Rc<Held<'s, V>>),
}

impl<'s, V: ValueView> View for ValueCow<'s, V> {
    type V = ValueModel;

    open spec fn view(&self) -> ValueModel {
        match self {
            ValueCow::Owned(v) => v@,
            ValueCow::Shared(h) => h@,
        }
    }
}

impl<'s, V: ValueView> ValueCow<'s, V> {
    /// The value, owned. An owned value is handed over as it is; of a shared one
    /// a deep copy is made, and what it was shared from stays as it is.
    pub fn into_owned(self) -> (out: Value)
        ensures
            out@ == self@,
            self matches ValueCow::Owned(v) ==> out == v,
    {
        match self {
            ValueCow::Owned(x) => x,
            ValueCow::Shared(x) => x.to_value(),
        }
    }

    /// A shared handle on the value: a new one that lends out the owned value, or
    /// one more on the value that is shared already. No value is copied.
    pub fn as_shared(&'s self) -> (out: Rc<Held<'s, V>>)
        ensures
            out@ == self@,
            match self {
                ValueCow::Owned(o) => *out matches Held::Lent(v) && v == o,
                ValueCow::Shared(s) => *out == **s,
            },
    {
        match self {
            ValueCow::Owned(o) => Rc::new(Held::Lent(o)),
            ValueCow::Shared(s) => s.clone(),
        }
    }

    /// A shared handle that needs the wrapper no longer: an owned value is kept by
    /// the handle, a shared one stays shared. No value is copied.
    pub fn into_shared(self) -> (out: Rc<Held<'s, V>>)
        ensures
            out@ == self@,
            match self {
                ValueCow::Owned(o) => *out matches Held::Kept(v) && v == o,
                ValueCow::Shared(s) => out == s,
            },
    {
        match self {
            ValueCow::Owned(o) => Rc::new(Held::Kept(o)),
            ValueCow::Shared(s) => s,
        }
    }

    /// A wrapper that shares the value `other` without copying it.
    pub fn borrowed(other: &'s Value) -> (out: Self)
        ensures
            out@ == other@,
            out matches ValueCow::Shared(h) && *h matches Held::Lent(v) && v == other,
    {
        ValueCow::Shared(Rc::new(Held::Lent(other)))
    }

    /// A wrapper that shares the view `other` without copying what it shows.
    pub fn viewing(other: &'s V) -> (out: Self)
        ensures
            out@ == other.shown(),
            out matches ValueCow::Shared(h) && *h matches Held::View(v) && v == other,
    {
        ValueCow::Shared(Rc::new(Held::View(other)))
    }
}

impl<'s> ValueCow<'s> {
    /// The value, read in place.
    pub fn as_view(&self) -> (out: &Value)
        ensures
            out@ == self@,
    {
        match self {
            ValueCow::Owned(o) => o.as_view(),
            ValueCow::Shared(s) => s.as_view(),
        }
    }
}

/// A wrapper that shares a source shows the source, and so does every owned copy
/// made of what it shows.
pub proof fn lemma_shared_shows_source(source: &Value, copy: Value)
    requires
        copy@ == ValueCow::<Value>::Shared(Rc::new(Held::Lent(source)))@,
    ensures
        ValueCow::<Value>::Shared(Rc::new(Held::Lent(source)))@ == source@,
        copy@ == source@,
{
}

/// A copy of what a view shows, wrapped as owned, renders as the view does, to a
/// template and in diagnostics.
pub proof fn lemma_round_trip(shown: ValueModel, copy: Value)
    requires
        copy@ == shown,
    ensures
        rendered(ValueCow::<Value>::Owned(copy)@) == rendered(shown),
        sourced(ValueCow::<Value>::Owned(copy)@) == sourced(shown),
{
}

impl<'s, V: ValueView> ValueView for ValueCow<'s, V> {
    open spec fn shown(&self) -> ValueModel {
        self@
    }

    fn render(&self) -> (out: String) {
        let out = match self {
            ValueCow::Owned(v) => v.render(),
            ValueCow::Shared(h) => h.render(),
        };
        assert(out@ == rendered(self.shown()));
        out
    }

    fn source(&self) -> (out: String) {
        let out = match self {
            ValueCow::Owned(v) => v.source(),
            ValueCow::Shared(h) => h.source(),
        };
        assert(out@ == sourced(self.shown()));
        out
    }

    fn kind_name(&self) -> (out: &'static str) {
        match self {
            ValueCow::Owned(v) => v.kind_name(),
            ValueCow::Shared(h) => h.kind_name(),
        }
    }

    fn query_state(&self, state: State) -> (out: bool) {
        match self {
            ValueCow::Owned(v) => v.query_state(state),
            ValueCow::Shared(h) => h.query_state(state),
        }
    }

    fn to_kstr(&self) -> (out: String) {
        let out = match self {
            ValueCow::Owned(v) => v.to_kstr(),
            ValueCow::Shared(h) => h.to_kstr(),
        };
        assert(out@ == rendered(self.shown()));
        out
    }

    fn to_value(&self) -> (out: Value) {
        match self {
            ValueCow::Owned(v) => v.to_value(),
            ValueCow::Shared(h) => h.to_value(),
        }
    }

    fn as_scalar(&self) -> (out: Option<&Scalar>) {
        match self {
            ValueCow::Owned(v) => v.as_scalar(),
            ValueCow::Shared(h) => h.as_scalar(),
        }
    }

    fn as_array(&self) -> (out: Option<&Vec<Value>>) {
        match self {
            ValueCow::Owned(v) => v.as_array(),
            ValueCow::Shared(h) => h.as_array(),
        }
    }

    fn as_object(&self) -> (out: Option<&Object>) {
        match self {
            ValueCow::Owned(v) => v.as_object(),
            ValueCow::Shared(h) => h.as_object(),
        }
    }

    fn as_state(&self) -> (out: Option<State>) {
        match self {
            ValueCow::Owned(v) => v.as_state(),
            ValueCow::Shared(h) => h.as_state(),
        }
    }

    fn is_nil(&self) -> (out: bool) {
        match self {
            ValueCow::Owned(v) => v.is_nil(),
            ValueCow::Shared(h) => h.is_nil(),
        }
    }
}

impl From<Value> for ValueCow<'static> {
    fn from(other: Value) -> (out: Self) {
        ValueCow::Owned(other)
    }
}

impl vstd::std_specs::convert::FromSpecImpl<Value> for ValueCow<'static> {
    open spec fn obeys_from_spec() -> bool {
        true
    }

    open spec fn from_spec(other: Value) -> Self {
        ValueCow::Owned(other)
    }
}

impl<'s> From<&'s Value> for ValueCow<'s> {
    fn from(other: &'s Value) -> (out: Self)
        ensures
            out@ == other@,
            out matches ValueCow::Shared(h) && *h matches Held::Lent(v) && v == other,
    {
        ValueCow::borrowed(other)
    }
}

impl<'s> vstd::std_specs::convert::FromSpecImpl<&'s Value> for ValueCow<'s> {
    open spec fn obeys_from_spec() -> bool {
        true
    }

    open spec fn from_spec(other: &'s Value) -> Self {
        ValueCow::Shared(Rc::new(Held::Lent(other)))
    }
}

impl From<Scalar> for ValueCow<'static> {
    fn from(other: Scalar) -> (out: Self) {
        ValueCow::Owned(Value::Scalar(other))
    }
}

impl vstd::std_specs::convert::FromSpecImpl<Scalar> for ValueCow<'static> {
    open spec fn obeys_from_spec() -> bool {
        true
    }

    open spec fn from_spec(other: Scalar) -> Self {
        ValueCow::Owned(Value::Scalar(other))
    }
}

impl From<Vec<Value>> for ValueCow<'static> {
    fn from(other: Vec<Value>) -> (out: Self) {
        ValueCow::Owned(Value::Array(other))
    }
}

impl vstd::std_specs::convert::FromSpecImpl<Vec<Value>> for ValueCow<'static> {
    open spec fn obeys_from_spec() -> bool {
        true
    }

    open spec fn from_spec(other: Vec<Value>) -> Self {
        ValueCow::Owned(Value::Array(other))
    }
}

impl From<Object> for ValueCow<'static> {
    fn from(other: Object) -> (out: Self) {
        ValueCow::Owned(Value::Object(other))
    }
}

impl vstd::std_specs::convert::FromSpecImpl<Object> for ValueCow<'static> {
    open spec fn obeys_from_spec() -> bool {
        true
    }

    open spec fn from_spec(other: Object) -> Self {
        ValueCow::Owned(Value::Object(other))
    }
}

impl From<State> for ValueCow<'static> {
    fn from(other: State) -> (out: Self) {
        ValueCow::Owned(Value::State(other))
    }
}

impl vstd::std_specs::convert::FromSpecImpl<State> for ValueCow<'static> {
    open spec fn obeys_from_spec() -> bool {
        true
    }

    open spec fn from_spec(other: State) -> Self {
        ValueCow::Owned(Value::State(other))
    }
}

impl<'v> Default for ValueCow<'v> {
    /// The owned value nothing.
    fn default() -> (out: Self)
        ensures
            out == ValueCow::<'v, Value>::Owned(Value::Nil),
    {
        ValueCow::Owned(Value::default())
    }
}

impl<'s, V: ValueView> Clone for ValueCow<'s, V> {
    /// An owned value is copied; of a shared one another handle is taken.
    fn clone(&self) -> (out: Self)
        ensures
            out@ == self@,
    {
        match self {
            ValueCow::Owned(v) => ValueCow::Owned(v.clone()),
            ValueCow::Shared(h) => ValueCow::Shared(h.clone()),
        }
    }
}

impl<'v, V: ValueView> PartialEq for ValueCow<'v, V> {
    fn eq(&self, other: &Self) -> (out: bool) {
        views_equal(self, other)
    }
}

impl<'v, V: ValueView> vstd::std_specs::cmp::PartialEqSpecImpl for ValueCow<'v, V> {
    open spec fn obeys_eq_spec() -> bool {
        true
    }

    open spec fn eq_spec(&self, other: &Self) -> bool {
        values_equal(self@, other@)
    }
}

impl<'v, V: ValueView> PartialEq<Value> for ValueCow<'v, V> {
    fn eq(&self, other: &Value) -> (out: bool) {
        views_equal(self, other)
    }
}

impl<'v, V: ValueView> vstd::std_specs::cmp::PartialEqSpecImpl<Value> for ValueCow<'v, V> {
    open spec fn obeys_eq_spec() -> bool {
        true
    }

    open spec fn eq_spec(&self, other: &Value) -> bool {
        values_equal(self@, other@)
    }
}

impl<'v, V: ValueView> PartialEq<i64> for ValueCow<'v, V> {
    fn eq(&self, other: &i64) -> (out: bool) {
        views_equal(self, &Value::Scalar(Scalar::Integer(*other)))
    }
}

impl<'v, V: ValueView> vstd::std_specs::cmp::PartialEqSpecImpl<i64> for ValueCow<'v, V> {
    open spec fn obeys_eq_spec() -> bool {
        true
    }

    open spec fn eq_spec(&self, other: &i64) -> bool {
        values_equal(self@, Value::Scalar(Scalar::Integer(*other))@)
    }
}

impl<'v, V: ValueView> PartialEq<bool> for ValueCow<'v, V> {
    fn eq(&self, other: &bool) -> (out: bool) {
        views_equal(self, &Value::Scalar(Scalar::Bool(*other)))
    }
}

impl<'v, V: ValueView> vstd::std_specs::cmp::PartialEqSpecImpl<bool> for ValueCow<'v, V> {
    open spec fn obeys_eq_spec() -> bool {
        true
    }

    open spec fn eq_spec(&self, other: &bool) -> bool {
        values_equal(self@, ValueModel::Scalar(ScalarModel::Bool(*other)))
    }
}

impl<'v, V: ValueView> PartialEq<str> for ValueCow<'v, V> {
    fn eq(&self, other: &str) -> (out: bool) {
        views_equal(self, &Value::Scalar(Scalar::new(other)))
    }
}

impl<'v, V: ValueView> vstd::std_specs::cmp::PartialEqSpecImpl<str> for ValueCow<'v, V> {
    open spec fn obeys_eq_spec() -> bool {
        true
    }

    open spec fn eq_spec(&self, other: &str) -> bool {
        values_equal(self@, ValueModel::Scalar(ScalarModel::Str(other@)))
    }
}

impl<'v, V: ValueView> PartialEq<String> for ValueCow<'v, V> {
    fn eq(&self, other: &String) -> (out: bool) {
        views_equal(self, &Value::Scalar(Scalar::new(other.as_str())))
    }
}

impl<'v, V: ValueView> vstd::std_specs::cmp::PartialEqSpecImpl<String> for ValueCow<'v, V> {
    open spec fn obeys_eq_spec() -> bool {
        true
    }

    open spec fn eq_spec(&self, other: &String) -> bool {
        values_equal(self@, ValueModel::Scalar(ScalarModel::Str(other@)))
    }
}

/// A wrapper on a `ValueCow` that compares as values do: for equality and for order.
#[derive(Debug)]
pub struct ValueCowCmp<'v, V = Value>(pub ValueCow<'v, V>);

impl<'v, V: ValueView> View for ValueCowCmp<'v, V> {
    type V = ValueModel;

    open spec fn view(&self) -> ValueModel {
        self.0@
    }
}

impl<'v, V: ValueView> ValueCowCmp<'v, V> {
    /// Wraps `v` for comparison.
    pub fn new(v: ValueCow<'v, V>) -> (out: ValueCowCmp<'v, V>)
        ensures
            out.0 == v,
    {
        ValueCowCmp(v)
    }
}

impl<'v, V: ValueView> PartialEq for ValueCowCmp<'v, V> {
    fn eq(&self, other: &Self) -> (out: bool) {
        views_equal(&self.0, &other.0)
    }
}

impl<'v, V: ValueView> vstd::std_specs::cmp::PartialEqSpecImpl for ValueCowCmp<'v, V> {
    open spec fn obeys_eq_spec() -> bool {
        true
    }

    open spec fn eq_spec(&self, other: &Self) -> bool {
        values_equal(self@, other@)
    }
}

impl<'v, V: ValueView> PartialEq<i64> for ValueCowCmp<'v, V> {
    fn eq(&self, other: &i64) -> (out: bool) {
        views_equal(&self.0, &Value::Scalar(Scalar::Integer(*other)))
    }
}

impl<'v, V: ValueView> vstd::std_specs::cmp::PartialEqSpecImpl<i64> for ValueCowCmp<'v, V> {
    open spec fn obeys_eq_spec() -> bool {
        true
    }

    open spec fn eq_spec(&self, other: &i64) -> bool {
        values_equal(self@, Value::Scalar(Scalar::Integer(*other))@)
    }
}

impl<'v, V: ValueView> PartialEq<bool> for ValueCowCmp<'v, V> {
    fn eq(&self, other: &bool) -> (out: bool) {
        views_equal(&self.0, &Value::Scalar(Scalar::Bool(*other)))
    }
}

impl<'v, V: ValueView> vstd::std_specs::cmp::PartialEqSpecImpl<bool> for ValueCowCmp<'v, V> {
    open spec fn obeys_eq_spec() -> bool {
        true
    }

    open spec fn eq_spec(&self, other: &bool) -> bool {
        values_equal(self@, ValueModel::Scalar(ScalarModel::Bool(*other)))
    }
}

impl<'v, V: ValueView> PartialEq<str> for ValueCowCmp<'v, V> {
    fn eq(&self, other: &str) -> (out: bool) {
        views_equal(&self.0, &Value::Scalar(Scalar::new(other)))
    }
}

impl<'v, V: ValueView> vstd::std_specs::cmp::PartialEqSpecImpl<str> for ValueCowCmp<'v, V> {
    open spec fn obeys_eq_spec() -> bool {
        true
    }

    open spec fn eq_spec(&self, other: &str) -> bool {
        values_equal(self@, ValueModel::Scalar(ScalarModel::Str(other@)))
    }
}

impl<'v, V: ValueView> PartialEq<String> for ValueCowCmp<'v, V> {
    fn eq(&self, other: &String) -> (out: bool) {
        views_equal(&self.0, &Value::Scalar(Scalar::new(other.as_str())))
    }
}

impl<'v, V: ValueView> vstd::std_specs::cmp::PartialEqSpecImpl<String> for ValueCowCmp<'v, V> {
    open spec fn obeys_eq_spec() -> bool {
        true
    }

    open spec fn eq_spec(&self, other: &String) -> bool {
        values_equal(self@, ValueModel::Scalar(ScalarModel::Str(other@)))
    }
}

impl<'v, V: ValueView> PartialOrd for ValueCowCmp<'v, V> {
    fn partial_cmp(&self, other: &Self) -> (out: Option<Ordering>) {
        match views_order(&self.0, &other.0) {
            Some(Order::Less) => Some(Ordering::Less),
            Some(Order::Equal) => Some(Ordering::Equal),
            Some(Order::Greater) => Some(Ordering::Greater),
            None => None,
        }
    }
}

impl<'v, V: ValueView> vstd::std_specs::cmp::PartialOrdSpecImpl for ValueCowCmp<'v, V> {
    open spec fn obeys_partial_cmp_spec() -> bool {
        true
    }

    open spec fn partial_cmp_spec(&self, other: &Self) -> Option<Ordering> {
        match values_order(self@, other@) {
            Some(Order::Less) => Some(Ordering::Less),
            Some(Order::Equal) => Some(Ordering::Equal),
            Some(Order::Greater) => Some(Ordering::Greater),
            None => None,
        }
    }
}

impl<'v, V: ValueView> PartialEq<&'v str> for ValueCow<'v, V> {
    fn eq(&self, other: &&'v str) -> (out: bool) {
        views_equal(self, &Value::Scalar(Scalar::new(*other)))
    }
}

impl<'v, V: ValueView> vstd::std_specs::cmp::PartialEqSpecImpl<&'v str> for ValueCow<'v, V> {
    open spec fn obeys_eq_spec() -> bool {
        true
    }

    open spec fn eq_spec(&self, other: &&'v str) -> bool {
        values_equal(self@, ValueModel::Scalar(ScalarModel::Str((*other)@)))
    }
}

impl<'v, V: ValueView> PartialEq<&'v str> for ValueCowCmp<'v, V> {
    fn eq(&self, other: &&'v str) -> (out: bool) {
        views_equal(&self.0, &Value::Scalar(Scalar::new(*other)))
    }
}

impl<'v, V: ValueView> vstd::std_specs::cmp::PartialEqSpecImpl<&'v str> for ValueCowCmp<'v, V> {
    open spec fn obeys_eq_spec() -> bool {
        true
    }

    open spec fn eq_spec(&self, other: &&'v str) -> bool {
        values_equal(self@, ValueModel::Scalar(ScalarModel::Str((*other)@)))
    }
}

impl<'v, V: ValueView> Clone for ValueCowCmp<'v, V> {
    fn clone(&self) -> (out: Self)
        ensures
            out@ == self@,
    {
        ValueCowCmp(self.0.clone())
    }
}

impl<'v, V: ValueView> PartialEq<CivilDate> for ValueCow<'v, V> {
    fn eq(&self, other: &CivilDate) -> (out: bool) {
        views_equal(self, &Value::Scalar(Scalar::Date(*other)))
    }
}

impl<'v, V: ValueView> vstd::std_specs::cmp::PartialEqSpecImpl<CivilDate> for ValueCow<'v, V> {
    open spec fn obeys_eq_spec() -> bool {
        true
    }

    open spec fn eq_spec(&self, other: &CivilDate) -> bool {
        values_equal(self@, ValueModel::Scalar(ScalarModel::Date(*other)))
    }
}

impl<'v, V: ValueView> PartialEq<DateTime> for ValueCow<'v, V> {
    fn eq(&self, other: &DateTime) -> (out: bool) {
        views_equal(self, &Value::Scalar(Scalar::DateTime(*other)))
    }
}

impl<'v, V: ValueView> vstd::std_specs::cmp::PartialEqSpecImpl<DateTime> for ValueCow<'v, V> {
    open spec fn obeys_eq_spec() -> bool {
        true
    }

    open spec fn eq_spec(&self, other: &DateTime) -> bool {
        values_equal(self@, ValueModel::Scalar(ScalarModel::DateTime(*other)))
    }
}

impl<'v, V: ValueView> PartialEq<CivilDate> for ValueCowCmp<'v, V> {
    fn eq(&self, other: &CivilDate) -> (out: bool) {
        views_equal(&self.0, &Value::Scalar(Scalar::Date(*other)))
    }
}

impl<'v, V: ValueView> vstd::std_specs::cmp::PartialEqSpecImpl<CivilDate> for ValueCowCmp<'v, V> {
    open spec fn obeys_eq_spec() -> bool {
        true
    }

    open spec fn eq_spec(&self, other: &CivilDate) -> bool {
        values_equal(self@, ValueModel::Scalar(ScalarModel::Date(*other)))
    }
}

impl<'v, V: ValueView> PartialEq<DateTime> for ValueCowCmp<'v, V> {
    fn eq(&self, other: &DateTime) -> (out: bool) {
        views_equal(&self.0, &Value::Scalar(Scalar::DateTime(*other)))
    }
}

impl<'v, V: ValueView> vstd::std_specs::cmp::PartialEqSpecImpl<DateTime> for ValueCowCmp<'v, V> {
    open spec fn obeys_eq_spec() -> bool {
        true
    }

    open spec fn eq_spec(&self, other: &DateTime) -> bool {
        values_equal(self@, ValueModel::Scalar(ScalarModel::DateTime(*other)))
    }
}

} // verus!
