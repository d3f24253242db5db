//! What a render is evaluated against, and the expressions that are evaluated.

use vstd::prelude::*;
use crate::cow::ValueCow;
use crate::error::{Error, ErrorModel};
use crate::find::{find, found, segment_texts, segments_of, Path};
use crate::scalar::{Scalar, ScalarModel};
use crate::shared::Held;
use crate::text::joined;
use crate::value::{sourced, Value, ValueModel};
use crate::view::ValueView;

verus! {

/// What the variables of a render are bound to: for every path a value, or the
/// reason why it cannot be read.
pub type Bindings = spec_fn(Seq<ScalarModel>) -> Result<ValueModel, ErrorModel>;

/// The variables of one render. How they are stored is the implementor's matter;
/// what they are bound to is `bindings`.
pub trait Runtime {
    /// What each path is bound to. An implementation states this; where it is
    /// left unsaid nothing is known of it.
    open spec fn bindings(&self) -> Bindings {
        arbitrary()
    }

    /// Reads the variable at `path`.
    fn get<'s>(&'s self, path: &[Scalar]) -> (out: Result<ValueCow<'s>, Error>)
        ensures
            match (self.bindings())(segments_of(path@)) {
                Ok(m) => out matches Ok(c) && c@ == m,
                Err(e) => out matches Err(x) && x@ == e,
            },
    ;
}

/// The simplest runtime: a value whose inside is the variables. A variable that
/// is not there reads as nothing.
impl Runtime for Value {
    open spec fn bindings(&self) -> Bindings {
        |path: Seq<ScalarModel>| Ok::<ValueModel, ErrorModel>(found(self@, path))
    }

    fn get<'s>(&'s self, path: &[Scalar]) -> (out: Result<ValueCow<'s>, Error>) {
        find(self, path)
    }
}

/// The runtime as a render sees it: what every node and every filter is handed.
pub struct Scope<'r> {
    /// The variables of this render.
    pub store: &'r dyn Runtime,
}

impl<'r> Scope<'r> {
    /// What each path is bound to.
    pub open spec fn bindings(&self) -> Bindings {
        self.store.bindings()
    }

    /// Reads the variable at `path`.
    pub fn get<'s>(&'s self, path: &[Scalar]) -> (out: Result<ValueCow<'s>, Error>)
        ensures
            match (self.bindings())(segments_of(path@)) {
                Ok(m) => out matches Ok(c) && c@ == m,
                Err(e) => out matches Err(x) && x@ == e,
            },
    {
        self.store.get(path)
    }
}

/// Something that evaluates to a value: a literal, or a variable named by a path.
pub enum Expression {
    Literal(Value),
    Variable(Path),
}

impl Expression {
    /// What the expression evaluates to under `bindings`.
    pub open spec fn value_in(&self, bindings: Bindings) -> Result<ValueModel, ErrorModel> {
        match self {
            Expression::Literal(v) => Ok(v@),
            Expression::Variable(p) => bindings(p@),
        }
    }

    /// The expression as written: a literal as diagnostics show it, a variable as
    /// its path.
    pub open spec fn shown(&self) -> Seq<char> {
        match self {
            Expression::Literal(v) => sourced(v@),
            Expression::Variable(p) => joined(segment_texts(p@), seq!['.']),
        }
    }

    /// Evaluates the expression. A literal is lent, not copied.
    pub fn evaluate<'s>(&'s self, runtime: &'s Scope<'_>) -> (out: Result<ValueCow<'s>, Error>)
        ensures
            match self.value_in(runtime.bindings()) {
                Ok(m) => out matches Ok(c) && c@ == m,
                Err(e) => out matches Err(x) && x@ == e,
            },
            self matches Expression::Literal(v) ==> (out matches Ok(ValueCow::Shared(h)) && *h
                matches Held::Lent(l) && *l == v),
    {
        match self {
            Expression::Literal(v) => Ok(ValueCow::borrowed(v)),
            Expression::Variable(p) => runtime.get(p.as_slice()),
        }
    }

    /// The expression as text.
    pub fn to_string(&self) -> (out: String)
        ensures
            out@ == self.shown(),
    {
        match self {
            Expression::Literal(v) => v.source(),
            Expression::Variable(p) => p.to_string(),
        }
    }
}

} // verus!
