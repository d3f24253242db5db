//! An expression followed by filters, applied left to right.

use vstd::prelude::*;
use vstd::string::StringExecFns;
use crate::error::{noted, traced, Error, ErrorModel};
use crate::renderable::RenderableReflection;
use crate::runtime::{Bindings, Expression, Scope};
use crate::shared::SharedValueView;
use crate::text::{join_strings, joined, texts};
use crate::value::{sourced, ValueModel};
use crate::view::ValueView;

verus! {

/// One transformation of a value. What it makes of an input in a runtime is
/// `applied`; how it is written in a template is `shown`. A filter is part of a
/// parsed template, which threads may share.
pub trait Filter: Send + Sync {
    /// The filter as written: its name and its arguments. An implementation
    /// states this; where it is left unsaid nothing is known of it.
    open spec fn shown(&self) -> Seq<char> {
        arbitrary()
    }

    /// What the filter makes of `input`, or why it fails. An implementation
    /// states this; where it is left unsaid nothing is known of it.
    open spec fn applied(&self, input: ValueModel, bindings: Bindings) -> Result<
        ValueModel,
        ErrorModel,
    > {
        arbitrary()
    }

    /// The filter as text.
    fn to_string(&self) -> (out: String)
        ensures
            out@ == self.shown(),
    ;

    /// Applies the filter to `input`, which it may hand back, read or drop.
    fn evaluate<'s>(&'s self, input: SharedValueView<'s>, runtime: &'s Scope<'_>) -> (out:
        Result<SharedValueView<'s>, Error>)
        ensures
            match self.applied(input@, runtime.bindings()) {
                Ok(m) => out matches Ok(v) && v@ == m,
                Err(e) => out matches Err(x) && x@ == e,
            },
    ;
}

/// The error of a filter as it leaves the chain: a step `Filter error` is opened
/// on its trail, and the filter and the source of its input are noted there,
/// in that order, under `filter` and `input`.
pub open spec fn annotated(e: ErrorModel, filter: Seq<char>, input: Seq<char>) -> ErrorModel {
    noted(noted(traced(e, "Filter error"@), "filter"@, filter), "input"@, input)
}

/// Notes on `e` which filter failed and what it was given.
pub fn annotate(e: Error, filter: &str, input: &str) -> (out: Error)
    ensures
        out@ == annotated(e@, filter@, input@),
{
    e.trace("Filter error").context("filter", filter).context("input", input)
}

/// The filters from position `from` on, applied in order to `current`. The first
/// failure ends the fold: it is the result, annotated, and no later filter counts.
pub open spec fn folded(
    current: ValueModel,
    filters: Seq<Box<dyn Filter>>,
    bindings: Bindings,
    from: int,
) -> Result<ValueModel, ErrorModel>
    decreases filters.len() - from,
{
    if 0 <= from < filters.len() {
        match filters[from].applied(current, bindings) {
            Ok(next) => folded(next, filters, bindings, from + 1),
            Err(e) => Err(annotated(e, filters[from].shown(), sourced(current))),
        }
    } else {
        Ok(current)
    }
}

/// The value that reaches position `to` when the filters from `from` up to there
/// are applied in order to `current`; nothing if one of them fails.
pub open spec fn passed(
    current: ValueModel,
    filters: Seq<Box<dyn Filter>>,
    bindings: Bindings,
    from: int,
    to: int,
) -> Option<ValueModel>
    decreases to - from,
{
    if 0 <= from < to <= filters.len() {
        match filters[from].applied(current, bindings) {
            Ok(next) => passed(next, filters, bindings, from + 1, to),
            Err(_) => None,
        }
    } else {
        Some(current)
    }
}

/// Where the filters before position `k` pass and the one at `k` fails, the fold
/// is that failure, annotated with that filter and with the source of the value
/// that the filters before it produced. No later filter has a say.
pub proof fn lemma_first_failure_decides(
    current: ValueModel,
    filters: Seq<Box<dyn Filter>>,
    bindings: Bindings,
    from: int,
    k: int,
    v: ValueModel,
    e: ErrorModel,
)
    requires
        0 <= from <= k < filters.len(),
        passed(current, filters, bindings, from, k) == Some(v),
        filters[k].applied(v, bindings) == Err::<ValueModel, ErrorModel>(e),
    ensures
        folded(current, filters, bindings, from) == Err::<ValueModel, ErrorModel>(
            annotated(e, filters[k].shown(), sourced(v)),
        ),
    decreases k - from,
{
    if from < k {
        match filters[from].applied(current, bindings) {
            Ok(next) => {
                lemma_first_failure_decides(next, filters, bindings, from + 1, k, v, e);
            },
            Err(_) => {},
        }
    }
}

/// Where every filter passes, the fold is the value that the last one produced.
pub proof fn lemma_all_pass(
    current: ValueModel,
    filters: Seq<Box<dyn Filter>>,
    bindings: Bindings,
    from: int,
    v: ValueModel,
)
    requires
        0 <= from <= filters.len(),
        passed(current, filters, bindings, from, filters.len() as int) == Some(v),
    ensures
        folded(current, filters, bindings, from) == Ok::<ValueModel, ErrorModel>(v),
    decreases filters.len() - from,
{
    if from < filters.len() {
        match filters[from].applied(current, bindings) {
            Ok(next) => {
                lemma_all_pass(next, filters, bindings, from + 1, v);
            },
            Err(_) => {},
        }
    }
}

/// The texts of the filters, in order.
pub open spec fn filter_texts(filters: Seq<Box<dyn Filter>>) -> Seq<Seq<char>> {
    Seq::new(filters.len(), |i: int| filters[i].shown())
}

/// An expression and the filters that its value runs through.
pub struct FilterChain {
    entry: Expression,
    filters: Vec<Box<dyn Filter>>,
}

impl FilterChain {
    /// The chain of `entry` followed by `filters`.
    pub fn new(entry: Expression, filters: Vec<Box<dyn Filter>>) -> (out: Self)
        ensures
            out.entry() == entry,
            out.filters() == filters@,
    {
        Self { entry, filters }
    }

    /// The expression at the head of the chain.
    pub closed spec fn entry(&self) -> Expression {
        self.entry
    }

    /// The filters, in the order in which they are applied.
    pub closed spec fn filters(&self) -> Seq<Box<dyn Filter>> {
        self.filters@
    }

    /// What the chain evaluates to in `runtime`: the entry's value run through the
    /// filters, or the failure of the entry, or the first failure of a filter.
    pub open spec fn value_in(&self, bindings: Bindings) -> Result<ValueModel, ErrorModel> {
        match self.entry().value_in(bindings) {
            Ok(m) => folded(m, self.filters(), bindings, 0),
            Err(e) => Err(e),
        }
    }

    /// The chain as written: the entry, a bar, and the filters with bars between them.
    pub open spec fn shown(&self) -> Seq<char> {
        self.entry().shown() + seq![' ', '|', ' '] + joined(
            filter_texts(self.filters()),
            seq![' ', '|', ' '],
        )
    }

    /// Evaluates the entry once, then applies the filters strictly left to right.
    /// The first filter that fails ends the evaluation with its annotated error.
    pub fn evaluate<'s>(&'s self, runtime: &'s Scope<'_>) -> (out: Result<
        SharedValueView<'s>,
        Error,
    >)
        ensures
            match self.value_in(runtime.bindings()) {
                Ok(m) => out matches Ok(v) && v@ == m,
                Err(e) => out matches Err(x) && x@ == e,
            },
    {
        let mut entry = match self.entry.evaluate(runtime) {
            Ok(value) => SharedValueView(value.into_shared()),
            Err(e) => {
                return Err(e);
            },
        };
        let mut i: usize = 0;
        while i < self.filters.len()
            invariant
                i <= self.filters.len(),
                self.value_in(runtime.bindings()) == folded(
                    entry@,
                    self.filters@,
                    runtime.bindings(),
                    i as int,
                ),
            decreases self.filters.len() - i,
        {
            let filter = &self.filters[i];
            let source = entry.source();
            entry = match filter.evaluate(entry, runtime) {
                Ok(next) => next,
                Err(e) => {
                    let name = filter.to_string();
                    return Err(annotate(e, name.as_str(), source.as_str()));
                },
            };
            i += 1;
        }
        Ok(entry)
    }

    /// The entry and the filters, for tools that inspect a template.
    pub fn parts(&self) -> (out: RenderableReflection<'_>)
        ensures
            out matches RenderableReflection::FilterChain { entry, filters } && *entry
                == self.entry() && filters@ == self.filters(),
    {
        RenderableReflection::FilterChain {
            entry: &self.entry,
            filters: self.filters.as_slice(),
        }
    }

    /// The chain as text.
    pub fn to_string(&self) -> (out: String)
        ensures
            out@ == self.shown(),
    {
        let mut parts: Vec<String> = Vec::new();
        let mut i: usize = 0;
        while i < self.filters.len()
            invariant
                i <= self.filters.len(),
                parts.len() == i,
                forall|j: int| 0 <= j < i ==> (#[trigger] parts[j])@ == self.filters[j].shown(),
            decreases self.filters.len() - i,
        {
            parts.push(self.filters[i].to_string());
            i += 1;
        }
        proof {
            reveal_strlit(" | ");
            assert(" | "@ =~= seq![' ', '|', ' ']);
            assert(texts(parts@) =~= filter_texts(self.filters()));
        }
        let mut out = self.entry.to_string();
        out.append(" | ");
        let tail = join_strings(&parts, " | ");
        out.append(tail.as_str());
        out
    }
}

} // verus!
