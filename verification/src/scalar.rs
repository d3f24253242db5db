//! Scalars: the atomic leaves of a value, and the tokens of a path.

use vstd::prelude::*;
use vstd::string::StringExecFns;
use crate::datetime::{CivilDate, DateTime};
use crate::text::{chars_of, decimal_of, decimal_string, parse_integer, parsed_integer};

verus! {

/// `From<T> for T` of std: converting a value to its own type hands the value back.
pub assume_specification<T>[ <T as From<T>>::from ](t: T) -> (out: T)
    ensures
        out == t,
;

/// A condition a value can be asked about.
#[derive(Clone, Copy, Debug, PartialEq, Eq, Structural)]
pub enum State {
    /// Counts as true in a condition.
    Truthy,
    /// Is what a missing value defaults from.
    DefaultValue,
    /// Holds nothing.
    Empty,
    /// Holds nothing but white space.
    Blank,
}

/// What a scalar is, mathematically.
pub enum ScalarModel {
    Integer(int),
    Bool(bool),
    Str(Seq<char>),
    Date(CivilDate),
    DateTime(DateTime),
}

/// An atomic value: a whole number, a truth value, a string, a day of the
/// calendar or a point in time.
#[derive(Debug)]
pub enum Scalar {
    Integer(i64),
    Bool(bool),
    Str(String),
    Date(CivilDate),
    DateTime(DateTime),
}

impl View for Scalar {
    type V = ScalarModel;

    open spec fn view(&self) -> ScalarModel {
        match self {
            Scalar::Integer(i) => ScalarModel::Integer(*i as int),
            Scalar::Bool(b) => ScalarModel::Bool(*b),
            Scalar::Str(s) => ScalarModel::Str(s@),
            Scalar::Date(d) => ScalarModel::Date(*d),
            Scalar::DateTime(t) => ScalarModel::DateTime(*t),
        }
    }
}

/// The text of a scalar, as it is rendered and as it is used for a key.
pub open spec fn scalar_text(m: ScalarModel) -> Seq<char> {
    match m {
        ScalarModel::Integer(i) => decimal_of(i),
        ScalarModel::Bool(b) => if b { "true"@ } else { "false"@ },
        ScalarModel::Str(s) => s,
        ScalarModel::Date(d) => d.text(),
        ScalarModel::DateTime(t) => t.text(),
    }
}

/// The text of a scalar in diagnostics: a string stands between double quotes,
/// the others are written as they are rendered.
pub open spec fn scalar_source(m: ScalarModel) -> Seq<char> {
    match m {
        ScalarModel::Str(s) => seq!['"'] + s + seq!['"'],
        _ => scalar_text(m),
    }
}

/// The name of a scalar's kind.
pub open spec fn scalar_kind_name(m: ScalarModel) -> Seq<char> {
    match m {
        ScalarModel::Integer(_) => "whole number"@,
        ScalarModel::Bool(_) => "boolean"@,
        ScalarModel::Str(_) => "string"@,
        ScalarModel::Date(_) => "date"@,
        ScalarModel::DateTime(_) => "date time"@,
    }
}

/// The integer that a scalar strictly is: a whole number itself, a string that is
/// the numeral of one; nothing else.
pub open spec fn scalar_integer(m: ScalarModel) -> Option<int> {
    match m {
        ScalarModel::Integer(i) => Some(i),
        ScalarModel::Str(s) => parsed_integer(s),
        _ => None,
    }
}

/// One of the six ASCII white space characters.
pub open spec fn is_blank_char(c: char) -> bool {
    c == ' ' || c == '\t' || c == '\n' || c == '\r' || c == '\x0B' || c == '\x0C'
}

/// Whether every character of `s` is white space.
pub open spec fn all_blank(s: Seq<char>) -> bool {
    forall|i: int| 0 <= i < s.len() ==> is_blank_char(#[trigger] s[i])
}

/// Whether a scalar is in a state. Only `false` is not truthy; `false` and the
/// empty string are default values; only the empty string is empty; only strings
/// of white space are blank.
pub open spec fn scalar_in_state(m: ScalarModel, state: State) -> bool {
    match state {
        State::Truthy => m != ScalarModel::Bool(false),
        State::DefaultValue => m == ScalarModel::Bool(false) || m == ScalarModel::Str(Seq::empty()),
        State::Empty => m == ScalarModel::Str(Seq::empty()),
        State::Blank => m matches ScalarModel::Str(s) && all_blank(s),
    }
}

/// Equality of scalars: two of one kind are equal when they hold the same, two
/// points in time when they are the same instant, whatever their clocks show; a
/// truth value equals any scalar of another kind exactly when it is `true`;
/// other scalars of different kinds are never equal.
pub open spec fn scalars_equal(a: ScalarModel, b: ScalarModel) -> bool {
    match (a, b) {
        (ScalarModel::Integer(x), ScalarModel::Integer(y)) => x == y,
        (ScalarModel::Bool(x), ScalarModel::Bool(y)) => x == y,
        (ScalarModel::Str(x), ScalarModel::Str(y)) => x == y,
        (ScalarModel::Date(x), ScalarModel::Date(y)) => x == y,
        (ScalarModel::DateTime(x), ScalarModel::DateTime(y)) => x.instant() == y.instant(),
        (_, ScalarModel::Bool(y)) => y,
        (ScalarModel::Bool(x), _) => x,
        _ => false,
    }
}

fn is_blank(s: &str) -> (out: bool)
    ensures
        out == all_blank(s@),
{
    let chars = chars_of(s);
    let mut i: usize = 0;
    while i < chars.len()
        invariant
            i <= chars.len(),
            chars@ == s@,
            all_blank(s@.take(i as int)),
        decreases chars.len() - i,
    {
        let c = chars[i];
        if !(c == ' ' || c == '\t' || c == '\n' || c == '\r' || c == '\x0B' || c == '\x0C') {
            assert(!is_blank_char(s@[i as int]));
            return false;
        }
        assert forall|j: int| 0 <= j < i + 1 implies is_blank_char(
            #[trigger] s@.take(i + 1)[j],
        ) by {
            if j < i {
                assert(is_blank_char(s@.take(i as int)[j]));
            }
        }
        i += 1;
    }
    assert(s@.take(i as int) == s@);
    true
}

impl Scalar {
    /// A string scalar with the text of `s`.
    pub fn new(s: &str) -> (out: Scalar)
        ensures
            out@ == ScalarModel::Str(s@),
    {
        Scalar::Str(String::from_str(s))
    }

    /// The text of the scalar.
    pub fn to_kstr(&self) -> (out: String)
        ensures
            out@ == scalar_text(self@),
    {
        match self {
            Scalar::Integer(i) => decimal_string(*i),
            Scalar::Bool(b) => if *b {
                String::from_str("true")
            } else {
                String::from_str("false")
            },
            Scalar::Str(s) => s.clone(),
            Scalar::Date(d) => {
                let mut out = String::new();
                d.write_to(&mut out);
                assert(out@ =~= d.text());
                out
            },
            Scalar::DateTime(t) => {
                let mut out = String::new();
                t.write_to(&mut out);
                assert(out@ =~= t.text());
                out
            },
        }
    }

    /// The text that a template shows for the scalar.
    pub fn render(&self) -> (out: String)
        ensures
            out@ == scalar_text(self@),
    {
        self.to_kstr()
    }

    /// The text that diagnostics show for the scalar.
    pub fn source(&self) -> (out: String)
        ensures
            out@ == scalar_source(self@),
    {
        match self {
            Scalar::Str(s) => {
                let mut out = String::new();
                out.push('"');
                out.append(s.as_str());
                out.push('"');
                assert(out@ == seq!['"'] + s@ + seq!['"']);
                out
            },
            _ => self.to_kstr(),
        }
    }

    /// The name of the scalar's kind.
    pub fn kind_name(&self) -> (out: &'static str)
        ensures
            out@ == scalar_kind_name(self@),
    {
        match self {
            Scalar::Integer(_) => "whole number",
            Scalar::Bool(_) => "boolean",
            Scalar::Str(_) => "string",
            Scalar::Date(_) => "date",
            Scalar::DateTime(_) => "date time",
        }
    }

    /// The integer that the scalar strictly is, if it is one.
    pub fn to_integer_strict(&self) -> (out: Option<i64>)
        ensures
            out matches Some(v) ==> scalar_integer(self@) == Some(v as int),
            out is None ==> scalar_integer(self@) is None,
    {
        match self {
            Scalar::Integer(i) => Some(*i),
            Scalar::Str(s) => parse_integer(s.as_str()),
            _ => None,
        }
    }

    /// Whether the scalar is in `state`.
    pub fn query_state(&self, state: State) -> (out: bool)
        ensures
            out == scalar_in_state(self@, state),
    {
        match state {
            State::Truthy => match self {
                Scalar::Bool(b) => *b,
                _ => true,
            },
            State::DefaultValue => match self {
                Scalar::Bool(b) => !*b,
                Scalar::Str(s) => {
                    let empty = s.as_str().is_empty();
                    assert(empty == (s@ =~= Seq::<char>::empty()));
                    empty
                },
                _ => false,
            },
            State::Empty => match self {
                Scalar::Str(s) => {
                    let empty = s.as_str().is_empty();
                    assert(empty == (s@ =~= Seq::<char>::empty()));
                    empty
                },
                _ => false,
            },
            State::Blank => match self {
                Scalar::Str(s) => is_blank(s.as_str()),
                _ => false,
            },
        }
    }

    /// Whether two scalars are equal as values.
    pub fn equals(&self, other: &Scalar) -> (out: bool)
        ensures
            out == scalars_equal(self@, other@),
    {
        match (self, other) {
            (Scalar::Integer(x), Scalar::Integer(y)) => *x == *y,
            (Scalar::Bool(x), Scalar::Bool(y)) => *x == *y,
            (Scalar::Str(x), Scalar::Str(y)) => *x == *y,
            (Scalar::Date(x), Scalar::Date(y)) => *x == *y,
            (Scalar::DateTime(x), Scalar::DateTime(y)) => x.to_instant() == y.to_instant(),
            (_, Scalar::Bool(y)) => *y,
            (Scalar::Bool(x), _) => *x,
            _ => false,
        }
    }
}

impl Clone for Scalar {
    fn clone(&self) -> (out: Scalar)
        ensures
            out@ == self@,
    {
        match self {
            Scalar::Integer(i) => Scalar::Integer(*i),
            Scalar::Bool(b) => Scalar::Bool(*b),
            Scalar::Str(s) => Scalar::Str(s.clone()),
            Scalar::Date(d) => Scalar::Date(*d),
            Scalar::DateTime(t) => Scalar::DateTime(*t),
        }
    }
}

impl From<i64> for Scalar {
    fn from(other: i64) -> (out: Self) {
        Scalar::Integer(other)
    }
}

impl vstd::std_specs::convert::FromSpecImpl<i64> for Scalar {
    open spec fn obeys_from_spec() -> bool {
        true
    }

    open spec fn from_spec(other: i64) -> Self {
        Scalar::Integer(other)
    }
}

impl From<bool> for Scalar {
    fn from(other: bool) -> (out: Self) {
        Scalar::Bool(other)
    }
}

impl vstd::std_specs::convert::FromSpecImpl<bool> for Scalar {
    open spec fn obeys_from_spec() -> bool {
        true
    }

    open spec fn from_spec(other: bool) -> Self {
        Scalar::Bool(other)
    }
}

impl From<String> for Scalar {
    fn from(other: String) -> (out: Self) {
        Scalar::Str(other)
    }
}

impl vstd::std_specs::convert::FromSpecImpl<String> for Scalar {
    open spec fn obeys_from_spec() -> bool {
        true
    }

    open spec fn from_spec(other: String) -> Self {
        Scalar::Str(other)
    }
}

impl From<CivilDate> for Scalar {
    fn from(other: CivilDate) -> (out: Self) {
        Scalar::Date(other)
    }
}

impl vstd::std_specs::convert::FromSpecImpl<CivilDate> for Scalar {
    open spec fn obeys_from_spec() -> bool {
        true
    }

    open spec fn from_spec(other: CivilDate) -> Self {
        Scalar::Date(other)
    }
}

impl From<DateTime> for Scalar {
    fn from(other: DateTime) -> (out: Self) {
        Scalar::DateTime(other)
    }
}

impl vstd::std_specs::convert::FromSpecImpl<DateTime> for Scalar {
    open spec fn obeys_from_spec() -> bool {
        true
    }

    open spec fn from_spec(other: DateTime) -> Self {
        Scalar::DateTime(other)
    }
}

impl<'a> From<&'a str> for Scalar {
    fn from(other: &'a str) -> (out: Self)
        ensures
            out@ == ScalarModel::Str(other@),
    {
        Scalar::new(other)
    }
}

impl<'a> vstd::std_specs::convert::FromSpecImpl<&'a str> for Scalar {
    open spec fn obeys_from_spec() -> bool {
        false
    }

    open spec fn from_spec(other: &'a str) -> Self {
        arbitrary()
    }
}

} // verus!
