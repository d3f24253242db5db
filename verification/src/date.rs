//! The decisions of the filter `date`, which shows a point in time in a given format.
//!
//! Reading a point in time out of a value and writing it in a format are the
//! work of a calendar, which this library does not hold. The filter's own part is
//! to say when the calendar is asked and what becomes of its answer.

use vstd::prelude::*;
use vstd::string::StringExecFns;
use crate::error::{Error, ErrorModel, TraceModel};
use crate::runtime::{Bindings, Expression, Scope};
use crate::scalar::{Scalar, ScalarModel};
use crate::value::{rendered, Value, ValueModel};
use crate::view::ValueView;

verus! {

/// What the filter does with its input once the format is known.
pub enum DatePlan {
    /// The input is handed back as it is.
    Keep,
    /// The calendar is asked to write the input's point in time in this format.
    Format(String),
}

/// What the filter does: a point in time is formatted if the format is not
/// empty; everything else is kept.
pub open spec fn planned(is_date_time: bool, format: Seq<char>) -> Option<Seq<char>> {
    if is_date_time && format.len() > 0 {
        Some(format)
    } else {
        None
    }
}

/// The error of a format that the calendar cannot write.
pub open spec fn invalid_format(format: Seq<char>) -> ErrorModel {
    ErrorModel {
        msg: "Invalid date-format string: "@ + format,
        frames: seq![TraceModel { label: None, context: Seq::empty() }],
    }
}

/// What becomes of the calendar's answer: its text as a string value, or the
/// error of an invalid format where it has none.
pub open spec fn settled(format: Seq<char>, written: Option<Seq<char>>) -> Result<
    ValueModel,
    ErrorModel,
> {
    match written {
        Some(text) => Ok(ValueModel::Scalar(ScalarModel::Str(text))),
        None => Err(invalid_format(format)),
    }
}

/// The filter `date` with its one argument, the format.
pub struct Date {
    format: Expression,
}

impl Date {
    /// The filter that formats with what `format` evaluates to.
    pub fn new(format: Expression) -> (out: Date)
        ensures
            out.format() == format,
    {
        Date { format }
    }

    /// The expression of the format.
    pub closed spec fn format(&self) -> Expression {
        self.format
    }

    /// The filter as written: its name, a colon, and the format expression.
    pub open spec fn shown(&self) -> Seq<char> {
        "date: "@ + self.format().shown()
    }

    /// The filter as text.
    pub fn to_string(&self) -> (out: String)
        ensures
            out@ == self.shown(),
    {
        let mut out = String::from_str("date: ");
        let format = self.format.to_string();
        out.append(format.as_str());
        out
    }

    /// The format in `runtime`: the text of what the format expression evaluates to.
    pub fn format_in(&self, runtime: &Scope<'_>) -> (out: Result<String, Error>)
        ensures
            match self.format().value_in(runtime.bindings()) {
                Ok(m) => out matches Ok(s) && s@ == rendered(m),
                Err(e) => out matches Err(x) && x@ == e,
            },
    {
        match self.format.evaluate(runtime) {
            Ok(value) => Ok(value.to_kstr()),
            Err(e) => Err(e),
        }
    }

    /// Decides what to do with an input, given whether the calendar reads a
    /// point in time out of it.
    pub fn plan(is_date_time: bool, format: &str) -> (out: DatePlan)
        ensures
            match planned(is_date_time, format@) {
                Some(f) => out matches DatePlan::Format(s) && s@ == f,
                None => out is Keep,
            },
    {
        if is_date_time && !format.is_empty() {
            DatePlan::Format(String::from_str(format))
        } else {
            DatePlan::Keep
        }
    }

    /// Turns the calendar's answer into the filter's result.
    pub fn settle(format: &str, written: Option<String>) -> (out: Result<Value, Error>)
        ensures
            match settled(
                format@,
                match written {
                    Some(s) => Some(s@),
                    None => None,
                },
            ) {
                Ok(m) => out matches Ok(v) && v@ == m,
                Err(e) => out matches Err(x) && x@ == e,
            },
    {
        match written {
            Some(text) => Ok(Value::scalar(Scalar::Str(text))),
            None => {
                let mut msg = String::from_str("Invalid date-format string: ");
                msg.append(format);
                Err(Error::with_msg(msg.as_str()))
            },
        }
    }
}

} // verus!
