//! The capability that every value-like type offers.

use vstd::prelude::*;
use crate::scalar::{Scalar, State};
use crate::value::{
    arrays_equal, in_state, kind_name_of, models_of, objects_equal, rendered, sourced,
    values_equal, Object, Value, ValueModel,
};

verus! {

/// Something that can be read as a value. What it shows is `shown()`; every
/// method answers for that model.
pub trait ValueView {
    /// The value that this view shows. An implementation states this; where it
    /// is left unsaid nothing is known of it.
    open spec fn shown(&self) -> ValueModel {
        arbitrary()
    }

    /// The text that a template shows.
    fn render(&self) -> (out: String)
        ensures
            out@ == rendered(self.shown()),
    ;

    /// The text that diagnostics show.
    fn source(&self) -> (out: String)
        ensures
            out@ == sourced(self.shown()),
    ;

    /// The name of the value's kind.
    fn kind_name(&self) -> (out: &'static str)
        ensures
            out@ == kind_name_of(self.shown()),
    ;

    /// Whether the value is in `state`.
    fn query_state(&self, state: State) -> (out: bool)
        ensures
            out == in_state(self.shown(), state),
    ;

    /// The value as a string; the same text as `render` gives.
    fn to_kstr(&self) -> (out: String)
        ensures
            out@ == rendered(self.shown()),
    ;

    /// An owned deep copy of the value.
    fn to_value(&self) -> (out: Value)
        ensures
            out@ == self.shown(),
    ;

    /// The scalar, if the value is one.
    fn as_scalar(&self) -> (out: Option<&Scalar>)
        ensures
            match self.shown() {
                ValueModel::Scalar(m) => out matches Some(s) && s@ == m,
                _ => out is None,
            },
    ;

    /// The elements, if the value is an array.
    fn as_array(&self) -> (out: Option<&Vec<Value>>)
        ensures
            match self.shown() {
                ValueModel::Array(items) => out matches Some(v) && models_of(v@) == items,
                _ => out is None,
            },
    ;

    /// The fields, if the value is an object.
    fn as_object(&self) -> (out: Option<&Object>)
        ensures
            match self.shown() {
                ValueModel::Object(entries) => out matches Some(o) && o@ == entries,
                _ => out is None,
            },
    ;

    /// The state, if the value is one.
    fn as_state(&self) -> (out: Option<State>)
        ensures
            match self.shown() {
                ValueModel::State(s) => out == Some(s),
                _ => out is None,
            },
    ;

    /// Whether the value is nothing.
    fn is_nil(&self) -> (out: bool)
        ensures
            out == (self.shown() is Nil),
    ;
}

impl Value {
    /// The value as a view of itself.
    pub fn as_view(&self) -> (out: &Value)
        ensures
            out == self,
    {
        self
    }
}

impl ValueView for Value {
    open spec fn shown(&self) -> ValueModel {
        self@
    }

    fn render(&self) -> (out: String) {
        let mut out = String::new();
        self.render_into(&mut out);
        assert(Seq::<char>::empty() + rendered(self@) == rendered(self@));
        assert(out@ == rendered(self.shown()));
        out
    }

    fn source(&self) -> (out: String) {
        let mut out = String::new();
        self.source_into(&mut out);
        assert(Seq::<char>::empty() + sourced(self@) == sourced(self@));
        assert(out@ == sourced(self.shown()));
        out
    }

    fn kind_name(&self) -> (out: &'static str) {
        match self {
            Value::Nil => "nil",
            Value::Scalar(s) => s.kind_name(),
            Value::Array(_) => "array",
            Value::Object(_) => "object",
            Value::State(_) => "state",
        }
    }

    fn query_state(&self, state: State) -> (out: bool) {
        match self {
            Value::Nil => match state {
                State::Truthy => false,
                _ => true,
            },
            Value::Scalar(s) => s.query_state(state),
            Value::Array(items) => match state {
                State::Truthy => true,
                _ => items.len() == 0,
            },
            Value::Object(o) => match state {
                State::Truthy => true,
                _ => o.len() == 0,
            },
            Value::State(s) => *s == state,
        }
    }

    fn to_kstr(&self) -> (out: String) {
        self.render()
    }

    fn to_value(&self) -> (out: Value) {
        self.clone()
    }

    fn as_scalar(&self) -> (out: Option<&Scalar>) {
        match self {
            Value::Scalar(s) => Some(s),
            _ => None,
        }
    }

    fn as_array(&self) -> (out: Option<&Vec<Value>>) {
        match self {
            Value::Array(items) => {
                assert(models_of(items@) =~= self@->Array_0);
                Some(items)
            },
            _ => None,
        }
    }

    fn as_object(&self) -> (out: Option<&Object>) {
        match self {
            Value::Object(o) => Some(o),
            _ => None,
        }
    }

    fn as_state(&self) -> (out: Option<State>) {
        match self {
            Value::State(s) => Some(*s),
            _ => None,
        }
    }

    fn is_nil(&self) -> (out: bool) {
        match self {
            Value::Nil => true,
            _ => false,
        }
    }
}

/// Whether what two views show is equal as values.
pub fn views_equal<A: ValueView, B: ValueView>(a: &A, b: &B) -> (out: bool)
    ensures
        out == values_equal(a.shown(), b.shown()),
{
    if let Some(s) = a.as_state() {
        b.query_state(s)
    } else if let Some(s) = b.as_state() {
        a.query_state(s)
    } else if a.is_nil() {
        b.is_nil()
    } else if let Some(x) = a.as_scalar() {
        match b.as_scalar() {
            Some(y) => x.equals(y),
            None => false,
        }
    } else if let Some(x) = a.as_array() {
        match b.as_array() {
            Some(y) => arrays_equal(x, y),
            None => false,
        }
    } else if let Some(x) = a.as_object() {
        match b.as_object() {
            Some(y) => objects_equal(x, y),
            None => false,
        }
    } else {
        false
    }
}

} // verus!
