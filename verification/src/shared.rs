//! A handle with shared ownership on something that can be read as a value.

use std::rc::Rc;
use vstd::prelude::*;
use crate::datetime::{CivilDate, DateTime};
use crate::scalar::{Scalar, ScalarModel, State};
use crate::value::{rendered, sourced, values_equal, Object, Value, ValueModel};
use crate::view::{views_equal, ValueView};

verus! {

/// What a shared handle points at: a value that it keeps, a value that lives
/// elsewhere for at least `'s`, or a view of a type of the caller's own that
/// lives elsewhere. It is read, never written.
#[derive(Debug)]
pub enum Held<'s, V = Value> {
    Kept(Value),
    Lent(&'s Value),
    View(&'s V),
}

impl<'s, V: ValueView> View for Held<'s, V> {
    type V = ValueModel;

    open spec fn view(&self) -> ValueModel {
        match self {
            Held::Kept(v) => v@,
            Held::Lent(v) => v@,
            Held::View(v) => v.shown(),
        }
    }
}

impl<'s, V: ValueView> Held<'s, V> {
    /// The value that was lent, for as long as it was lent.
    pub(crate) fn lent(&self) -> (out: &'s Value)
        requires
            self is Lent,
        ensures
            *self == Held::<'s, V>::Lent(out),
    {
        match self {
            Held::Lent(v) => *v,
            _ => vstd::pervasive::unreached(),
        }
    }
}

impl<'s> Held<'s> {
    /// The value pointed at.
    pub fn as_view(&self) -> (out: &Value)
        ensures
            out@ == self@,
    {
        match self {
            Held::Kept(v) => v,
            Held::Lent(v) => v,
            Held::View(v) => v,
        }
    }
}

impl<'s, V: ValueView> ValueView for Held<'s, V> {
    open spec fn shown(&self) -> ValueModel {
        self@
    }

    fn render(&self) -> (out: String) {
        let out = match self {
            Held::Kept(v) => v.render(),
            Held::Lent(v) => v.render(),
            Held::View(v) => v.render(),
        };
        assert(out@ == rendered(self.shown()));
        out
    }

    fn source(&self) -> (out: String) {
        let out = match self {
            Held::Kept(v) => v.source(),
            Held::Lent(v) => v.source(),
            Held::View(v) => v.source(),
        };
        assert(out@ == sourced(self.shown()));
        out
    }

    fn kind_name(&self) -> (out: &'static str) {
        match self {
            Held::Kept(v) => v.kind_name(),
            Held::Lent(v) => v.kind_name(),
            Held::View(v) => v.kind_name(),
        }
    }

    fn query_state(&self, state: State) -> (out: bool) {
        match self {
            Held::Kept(v) => v.query_state(state),
            Held::Lent(v) => v.query_state(state),
            Held::View(v) => v.query_state(state),
        }
    }

    fn to_kstr(&self) -> (out: String) {
        let out = match self {
            Held::Kept(v) => v.to_kstr(),
            Held::Lent(v) => v.to_kstr(),
            Held::View(v) => v.to_kstr(),
        };
        assert(out@ == rendered(self.shown()));
        out
    }

    fn to_value(&self) -> (out: Value) {
        match self {
            Held::Kept(v) => v.to_value(),
            Held::Lent(v) => v.to_value(),
            Held::View(v) => v.to_value(),
        }
    }

    fn as_scalar(&self) -> (out: Option<&Scalar>) {
        match self {
            Held::Kept(v) => v.as_scalar(),
            Held::Lent(v) => v.as_scalar(),
            Held::View(v) => v.as_scalar(),
        }
    }

    fn as_array(&self) -> (out: Option<&Vec<Value>>) {
        match self {
            Held::Kept(v) => v.as_array(),
            Held::Lent(v) => v.as_array(),
            Held::View(v) => v.as_array(),
        }
    }

    fn as_object(&self) -> (out: Option<&Object>) {
        match self {
            Held::Kept(v) => v.as_object(),
            Held::Lent(v) => v.as_object(),
            Held::View(v) => v.as_object(),
        }
    }

    fn as_state(&self) -> (out: Option<State>) {
        match self {
            Held::Kept(v) => v.as_state(),
            Held::Lent(v) => v.as_state(),
            Held::View(v) => v.as_state(),
        }
    }

    fn is_nil(&self) -> (out: bool) {
        match self {
            Held::Kept(v) => v.is_nil(),
            Held::Lent(v) => v.is_nil(),
            Held::View(v) => v.is_nil(),
        }
    }
}

/// A reference-counted handle on something that can be read as a value. Cloning
/// the handle copies no value.
#[derive(Debug)]
pub struct SharedValueView<'s, V = Value>(pub Rc<Held<'s, V>>);

impl<'s, V: ValueView> View for SharedValueView<'s, V> {
    type V = ValueModel;

    open spec fn view(&self) -> ValueModel {
        self.0@
    }
}

impl<'s, V: ValueView> SharedValueView<'s, V> {
    /// A handle on a view that lives elsewhere; nothing is copied.
    pub fn from_view(view: &'s V) -> (out: Self)
        ensures
            out@ == view.shown(),
            *out.0 == Held::View(view),
    {
        SharedValueView(Rc::new(Held::View(view)))
    }

    /// A handle on what `view` holds.
    pub fn from_boxed_view(view: Box<Held<'s, V>>) -> (out: Self)
        ensures
            out@ == view@,
            *out.0 == *view,
    {
        SharedValueView(Rc::new(*view))
    }

    /// An owned deep copy of the value. What the handle points at stays as it is.
    pub fn into_owned(self) -> (out: Value)
        ensures
            out@ == self@,
    {
        self.0.to_value()
    }
}

impl<'s> SharedValueView<'s> {
    /// A handle that keeps `value`.
    pub fn from_value(value: Value) -> (out: Self)
        ensures
            out@ == value@,
            *out.0 matches Held::Kept(v) && v == value,
    {
        SharedValueView(Rc::new(Held::Kept(value)))
    }

    /// The value pointed at.
    pub fn as_view(&self) -> (out: &Value)
        ensures
            out@ == self@,
    {
        self.0.as_view()
    }
}

impl<'s, V: ValueView> Clone for SharedValueView<'s, V> {
    /// Another handle on the same value.
    fn clone(&self) -> (out: Self)
        ensures
            out == *self,
    {
        SharedValueView(self.0.clone())
    }
}

impl<'s, V: ValueView> ValueView for SharedValueView<'s, V> {
    open spec fn shown(&self) -> ValueModel {
        self@
    }

    fn render(&self) -> (out: String) {
        let out = self.0.render();
        assert(out@ == rendered(self.shown()));
        out
    }

    fn source(&self) -> (out: String) {
        let out = self.0.source();
        assert(out@ == sourced(self.shown()));
        out
    }

    fn kind_name(&self) -> (out: &'static str) {
        self.0.kind_name()
    }

    fn query_state(&self, state: State) -> (out: bool) {
        self.0.query_state(state)
    }

    fn to_kstr(&self) -> (out: String) {
        let out = self.0.to_kstr();
        assert(out@ == rendered(self.shown()));
        out
    }

    fn to_value(&self) -> (out: Value) {
        self.0.to_value()
    }

    fn as_scalar(&self) -> (out: Option<&Scalar>) {
        self.0.as_scalar()
    }

    fn as_array(&self) -> (out: Option<&Vec<Value>>) {
        self.0.as_array()
    }

    fn as_object(&self) -> (out: Option<&Object>) {
        self.0.as_object()
    }

    fn as_state(&self) -> (out: Option<State>) {
        self.0.as_state()
    }

    fn is_nil(&self) -> (out: bool) {
        self.0.is_nil()
    }
}

impl From<Value> for SharedValueView<'static> {
    fn from(other: Value) -> (out: Self) {
        SharedValueView::from_value(other)
    }
}

impl vstd::std_specs::convert::FromSpecImpl<Value> for SharedValueView<'static> {
    open spec fn obeys_from_spec() -> bool {
        true
    }

    open spec fn from_spec(other: Value) -> Self {
        SharedValueView(Rc::new(Held::Kept(other)))
    }
}

impl From<Scalar> for SharedValueView<'static> {
    fn from(other: Scalar) -> (out: Self) {
        SharedValueView::from_value(Value::Scalar(other))
    }
}

impl vstd::std_specs::convert::FromSpecImpl<Scalar> for SharedValueView<'static> {
    open spec fn obeys_from_spec() -> bool {
        true
    }

    open spec fn from_spec(other: Scalar) -> Self {
        SharedValueView(Rc::new(Held::Kept(Value::Scalar(other))))
    }
}

impl From<Vec<Value>> for SharedValueView<'static> {
    fn from(other: Vec<Value>) -> (out: Self) {
        SharedValueView::from_value(Value::Array(other))
    }
}

impl vstd::std_specs::convert::FromSpecImpl<Vec<Value>> for SharedValueView<'static> {
    open spec fn obeys_from_spec() -> bool {
        true
    }

    open spec fn from_spec(other: Vec<Value>) -> Self {
        SharedValueView(Rc::new(Held::Kept(Value::Array(other))))
    }
}

impl From<Object> for SharedValueView<'static> {
    fn from(other: Object) -> (out: Self) {
        SharedValueView::from_value(Value::Object(other))
    }
}

impl vstd::std_specs::convert::FromSpecImpl<Object> for SharedValueView<'static> {
    open spec fn obeys_from_spec() -> bool {
        true
    }

    open spec fn from_spec(other: Object) -> Self {
        SharedValueView(Rc::new(Held::Kept(Value::Object(other))))
    }
}

impl From<State> for SharedValueView<'static> {
    fn from(other: State) -> (out: Self) {
        SharedValueView::from_value(Value::State(other))
    }
}

impl vstd::std_specs::convert::FromSpecImpl<State> for SharedValueView<'static> {
    open spec fn obeys_from_spec() -> bool {
        true
    }

    open spec fn from_spec(other: State) -> Self {
        SharedValueView(Rc::new(Held::Kept(Value::State(other))))
    }
}

impl<'s> From<&'s Value> for SharedValueView<'s> {
    fn from(other: &'s Value) -> (out: Self) {
        SharedValueView::from_view(other)
    }
}

impl<'s> vstd::std_specs::convert::FromSpecImpl<&'s Value> for SharedValueView<'s> {
    open spec fn obeys_from_spec() -> bool {
        true
    }

    open spec fn from_spec(other: &'s Value) -> Self {
        SharedValueView(Rc::new(Held::View(other)))
    }
}

impl<'s> From<Box<Held<'s>>> for SharedValueView<'s> {
    fn from(other: Box<Held<'s>>) -> (out: Self) {
        SharedValueView::from_boxed_view(other)
    }
}

impl<'s> vstd::std_specs::convert::FromSpecImpl<Box<Held<'s>>> for SharedValueView<'s> {
    open spec fn obeys_from_spec() -> bool {
        true
    }

    open spec fn from_spec(other: Box<Held<'s>>) -> Self {
        SharedValueView(Rc::new(*other))
    }
}

impl<'v> Default for SharedValueView<'v> {
    /// A handle that keeps the value nothing.
    fn default() -> (out: Self)
        ensures
            out@ == ValueModel::Nil,
    {
        SharedValueView::from_value(Value::default())
    }
}

impl<'v, V: ValueView> PartialEq for SharedValueView<'v, V> {
    fn eq(&self, other: &Self) -> (out: bool) {
        views_equal(self, other)
    }
}

impl<'v, V: ValueView> vstd::std_specs::cmp::PartialEqSpecImpl for SharedValueView<'v, V> {
    open spec fn obeys_eq_spec() -> bool {
        true
    }

    open spec fn eq_spec(&self, other: &Self) -> bool {
        values_equal(self@, other@)
    }
}

impl<'v, V: ValueView> PartialEq<Value> for SharedValueView<'v, V> {
    fn eq(&self, other: &Value) -> (out: bool) {
        views_equal(self, other)
    }
}

impl<'v, V: ValueView> vstd::std_specs::cmp::PartialEqSpecImpl<Value> for SharedValueView<'v, V> {
    open spec fn obeys_eq_spec() -> bool {
        true
    }

    open spec fn eq_spec(&self, other: &Value) -> bool {
        values_equal(self@, other@)
    }
}

impl<'v, V: ValueView> PartialEq<i64> for SharedValueView<'v, V> {
    fn eq(&self, other: &i64) -> (out: bool) {
        views_equal(self, &Value::Scalar(Scalar::Integer(*other)))
    }
}

impl<'v, V: ValueView> vstd::std_specs::cmp::PartialEqSpecImpl<i64> for SharedValueView<'v, V> {
    open spec fn obeys_eq_spec() -> bool {
        true
    }

    open spec fn eq_spec(&self, other: &i64) -> bool {
        values_equal(self@, Value::Scalar(Scalar::Integer(*other))@)
    }
}

impl<'v, V: ValueView> PartialEq<bool> for SharedValueView<'v, V> {
    fn eq(&self, other: &bool) -> (out: bool) {
        views_equal(self, &Value::Scalar(Scalar::Bool(*other)))
    }
}

impl<'v, V: ValueView> vstd::std_specs::cmp::PartialEqSpecImpl<bool> for SharedValueView<'v, V> {
    open spec fn obeys_eq_spec() -> bool {
        true
    }

    open spec fn eq_spec(&self, other: &bool) -> bool {
        values_equal(self@, ValueModel::Scalar(ScalarModel::Bool(*other)))
    }
}

impl<'v, V: ValueView> PartialEq<str> for SharedValueView<'v, V> {
    fn eq(&self, other: &str) -> (out: bool) {
        views_equal(self, &Value::Scalar(Scalar::new(other)))
    }
}

impl<'v, V: ValueView> vstd::std_specs::cmp::PartialEqSpecImpl<str> for SharedValueView<'v, V> {
    open spec fn obeys_eq_spec() -> bool {
        true
    }

    open spec fn eq_spec(&self, other: &str) -> bool {
        values_equal(self@, ValueModel::Scalar(ScalarModel::Str(other@)))
    }
}

impl<'v, V: ValueView> PartialEq<String> for SharedValueView<'v, V> {
    fn eq(&self, other: &String) -> (out: bool) {
        views_equal(self, &Value::Scalar(Scalar::new(other.as_str())))
    }
}

impl<'v, V: ValueView> vstd::std_specs::cmp::PartialEqSpecImpl<String> for SharedValueView<'v, V> {
    open spec fn obeys_eq_spec() -> bool {
        true
    }

    open spec fn eq_spec(&self, other: &String) -> bool {
        values_equal(self@, ValueModel::Scalar(ScalarModel::Str(other@)))
    }
}

impl<'v, V: ValueView> PartialEq<&'v str> for SharedValueView<'v, V> {
    fn eq(&self, other: &&'v str) -> (out: bool) {
        views_equal(self, &Value::Scalar(Scalar::new(*other)))
    }
}

impl<'v, V: ValueView> vstd::std_specs::cmp::PartialEqSpecImpl<&'v str> for SharedValueView<'v, V> {
    open spec fn obeys_eq_spec() -> bool {
        true
    }

    open spec fn eq_spec(&self, other: &&'v str) -> bool {
        values_equal(self@, ValueModel::Scalar(ScalarModel::Str((*other)@)))
    }
}

impl<'v, V: ValueView> PartialEq<CivilDate> for SharedValueView<'v, V> {
    fn eq(&self, other: &CivilDate) -> (out: bool) {
        views_equal(self, &Value::Scalar(Scalar::Date(*other)))
    }
}

impl<'v, V: ValueView> vstd::std_specs::cmp::PartialEqSpecImpl<CivilDate> for SharedValueView<'v, V> {
    open spec fn obeys_eq_spec() -> bool {
        true
    }

    open spec fn eq_spec(&self, other: &CivilDate) -> bool {
        values_equal(self@, ValueModel::Scalar(ScalarModel::Date(*other)))
    }
}

impl<'v, V: ValueView> PartialEq<DateTime> for SharedValueView<'v, V> {
    fn eq(&self, other: &DateTime) -> (out: bool) {
        views_equal(self, &Value::Scalar(Scalar::DateTime(*other)))
    }
}

impl<'v, V: ValueView> vstd::std_specs::cmp::PartialEqSpecImpl<DateTime> for SharedValueView<'v, V> {
    open spec fn obeys_eq_spec() -> bool {
        true
    }

    open spec fn eq_spec(&self, other: &DateTime) -> bool {
        values_equal(self@, ValueModel::Scalar(ScalarModel::DateTime(*other)))
    }
}

} // verus!
