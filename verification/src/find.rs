//! Paths into nested values, and the walk that resolves them.

use vstd::prelude::*;
use vstd::std_specs::convert::IntoSpec;
use vstd::string::StrSliceExecFns;
use crate::cow::ValueCow;
use crate::error::Error;
use crate::scalar::{scalar_integer, scalar_text, scalars_equal, Scalar, ScalarModel};
use crate::shared::Held;
use crate::text::{is_digit, join_strings, joined, parsed_integer, same_text, texts};
use crate::value::{
    array_first, array_get, array_last, array_size, count_of, element_at, field_of, Value,
    ValueModel,
};
use crate::view::ValueView;

verus! {

/// The models of the scalars in `segments`, in order.
pub open spec fn segments_of(segments: Seq<Scalar>) -> Seq<ScalarModel> {
    Seq::new(segments.len(), |i: int| segments[i]@)
}

/// The texts of the segments, in order.
pub open spec fn segment_texts(segments: Seq<ScalarModel>) -> Seq<Seq<char>> {
    Seq::new(segments.len(), |i: int| scalar_text(segments[i]))
}

/// The place of a value inside a nested value: keys and indexes, outermost first.
/// A path has at least one segment.
#[derive(Debug)]
pub struct Path(Vec<Scalar>);

impl View for Path {
    type V = Seq<ScalarModel>;

    closed spec fn view(&self) -> Seq<ScalarModel> {
        segments_of(self.0@)
    }
}

impl Path {
    #[verifier::type_invariant]
    spec fn non_empty(&self) -> bool {
        self.0.len() >= 1
    }

    /// The path of the one segment that `value` converts to.
    pub fn with_index<I: Into<Scalar>>(value: I) -> (out: Self)
        ensures
            exists|s: Scalar| #[trigger] call_ensures(I::into, (value,), s) && out@ == seq![s@],
            I::obeys_into_spec() ==> out@ == seq![value.into_spec()@],
    {
        let first: Scalar = value.into();
        let ghost model = first@;
        let mut indexes: Vec<Scalar> = Vec::new();
        indexes.push(first);
        let out = Path(indexes);
        assert(out@ =~= seq![model]);
        out
    }

    /// Appends the segment that `value` converts to.
    pub fn push<I: Into<Scalar>>(&mut self, value: I)
        ensures
            exists|s: Scalar| #[trigger]
                call_ensures(I::into, (value,), s) && final(self)@ == old(self)@.push(s@),
            I::obeys_into_spec() ==> final(self)@ == old(self)@.push(value.into_spec()@),
    {
        let value: Scalar = value.into();
        let mut taken = Path::with_index(Scalar::Bool(false));
        core::mem::swap(self, &mut taken);
        let Path(segments) = taken;
        let mut segments = segments;
        segments.push(value);
        *self = Path(segments);
        assert(self@ =~= old(self)@.push(value@));
    }

    /// Makes room for `additional` more segments. The path stays as it is.
    pub fn reserve(&mut self, additional: usize)
        ensures
            final(self)@ == old(self)@,
    {
        proof {
            use_type_invariant(&*self);
        }
        let mut taken = Path::with_index(Scalar::Bool(false));
        core::mem::swap(self, &mut taken);
        let Path(segments) = taken;
        let mut segments = segments;
        segments.reserve(additional);
        *self = Path(segments);
    }

    /// Appends the segments of `more`, in order.
    pub fn extend(&mut self, more: Vec<Scalar>)
        ensures
            final(self)@ == old(self)@ + segments_of(more@),
    {
        proof {
            use_type_invariant(&*self);
        }
        let mut taken = Path::with_index(Scalar::Bool(false));
        core::mem::swap(self, &mut taken);
        let Path(segments) = taken;
        let mut segments = segments;
        let mut rest = more;
        segments.append(&mut rest);
        *self = Path(segments);
        assert(self@ =~= old(self)@ + segments_of(more@));
    }

    /// The number of segments; at least one.
    pub fn len(&self) -> (out: usize)
        ensures
            out == self@.len(),
            out >= 1,
    {
        proof {
            use_type_invariant(self);
        }
        self.0.len()
    }

    /// An iterator over the segments, outermost first.
    pub fn iter(&self) -> (out: PathIter<'_>)
        ensures
            out@ == self@,
    {
        let out = PathIter { segments: self.0.as_slice(), at: 0 };
        assert(out@ =~= self@);
        out
    }

    /// The segments as a slice; it is never empty.
    pub fn as_slice(&self) -> (out: &[Scalar])
        ensures
            segments_of(out@) == self@,
            out@.len() >= 1,
    {
        proof {
            use_type_invariant(self);
        }
        self.0.as_slice()
    }

    /// The path as text: the segments as they render, with a dot between each two.
    pub fn to_string(&self) -> (out: String)
        ensures
            out@ == joined(segment_texts(self@), seq!['.']),
    {
        let mut parts: Vec<String> = Vec::new();
        let mut i: usize = 0;
        while i < self.0.len()
            invariant
                i <= self.0.len(),
                parts.len() == i,
                forall|j: int| 0 <= j < i ==> (#[trigger] parts[j])@ == scalar_text(self.0[j]@),
            decreases self.0.len() - i,
        {
            parts.push(self.0[i].render());
            i += 1;
        }
        proof {
            reveal_strlit(".");
            assert("."@ =~= seq!['.']);
            assert(texts(parts@) =~= segment_texts(self@));
        }
        join_strings(&parts, ".")
    }
}

impl Clone for Path {
    fn clone(&self) -> (out: Path)
        ensures
            out@ == self@,
    {
        proof {
            use_type_invariant(self);
        }
        let mut segments: Vec<Scalar> = Vec::new();
        let mut i: usize = 0;
        while i < self.0.len()
            invariant
                i <= self.0.len(),
                segments.len() == i,
                forall|j: int| 0 <= j < i ==> (#[trigger] segments[j])@ == self.0[j]@,
            decreases self.0.len() - i,
        {
            segments.push(self.0[i].clone());
            i += 1;
        }
        let out = Path(segments);
        assert(out@ =~= self@);
        out
    }
}

/// Whether two paths have as many segments and equal ones at each place.
pub open spec fn paths_equal(a: Seq<ScalarModel>, b: Seq<ScalarModel>) -> bool {
    a.len() == b.len() && forall|i: int|
        #![trigger a[i]]
        0 <= i < a.len() ==> scalars_equal(a[i], b[i])
}

impl PartialEq for Path {
    fn eq(&self, other: &Self) -> (out: bool) {
        if self.0.len() != other.0.len() {
            return false;
        }
        let mut i: usize = 0;
        while i < self.0.len()
            invariant
                i <= self.0.len(),
                self.0.len() == other.0.len(),
                forall|j: int| #![trigger self@[j]] 0 <= j < i ==> scalars_equal(self@[j], other@[j]),
            decreases self.0.len() - i,
        {
            if !self.0[i].equals(&other.0[i]) {
                assert(!scalars_equal(self@[i as int], other@[i as int]));
                return false;
            }
            i += 1;
        }
        true
    }
}

impl vstd::std_specs::cmp::PartialEqSpecImpl for Path {
    open spec fn obeys_eq_spec() -> bool {
        true
    }

    open spec fn eq_spec(&self, other: &Self) -> bool {
        paths_equal(self@, other@)
    }
}

impl Eq for Path {

}

/// Walks the segments of a path, outermost first.
#[derive(Debug)]
pub struct PathIter<'i> {
    segments: &'i [Scalar],
    at: usize,
}

impl<'i> View for PathIter<'i> {
    type V = Seq<ScalarModel>;

    /// The segments still to come.
    closed spec fn view(&self) -> Seq<ScalarModel> {
        segments_of(self.segments@).skip(self.at as int)
    }
}

impl<'i> PathIter<'i> {
    #[verifier::type_invariant]
    spec fn in_range(&self) -> bool {
        self.at <= self.segments@.len()
    }

    /// The next segment, if one is left.
    pub fn next(&mut self) -> (out: Option<&'i Scalar>)
        ensures
            old(self)@.len() == 0 ==> out is None && final(self)@ == old(self)@,
            old(self)@.len() > 0 ==> (out matches Some(s) && s@ == old(self)@[0]),
            old(self)@.len() > 0 ==> final(self)@ == old(self)@.drop_first(),
    {
        proof {
            use_type_invariant(&*self);
        }
        if self.at < self.segments.len() {
            let s = &self.segments[self.at];
            self.at = self.at + 1;
            assert(self@ =~= old(self)@.drop_first());
            Some(s)
        } else {
            None
        }
    }

    /// The number of segments still to come.
    pub fn len(&self) -> (out: usize)
        ensures
            out == self@.len(),
    {
        proof {
            use_type_invariant(self);
        }
        self.segments.len() - self.at
    }

    /// The bounds on the number of segments still to come: both are that number.
    pub fn size_hint(&self) -> (out: (usize, Option<usize>))
        ensures
            out.0 == self@.len(),
            out.1 == Some(out.0),
    {
        let n = self.len();
        (n, Some(n))
    }

    /// Uses the iterator up and says how many segments were left.
    pub fn count(self) -> (out: usize)
        ensures
            out == self@.len(),
    {
        self.len()
    }
}

/// Whether a segment asks a value for its synthetic size: on an array a segment
/// that is no integer and reads `size`; on an object a segment that reads `size`
/// where no field has that name; on a scalar a segment that reads `size`.
pub open spec fn counts(m: ValueModel, segment: ScalarModel) -> bool {
    let word = scalar_text(segment);
    match m {
        ValueModel::Array(_) => scalar_integer(segment) is None && word == "size"@,
        ValueModel::Object(entries) => field_of(entries, word) is None && word == "size"@,
        ValueModel::Scalar(_) => word == "size"@,
        _ => false,
    }
}

/// The size that a value reports: the number of elements of an array, of fields of
/// an object, of characters of a scalar's text.
pub open spec fn size_of(m: ValueModel) -> int {
    match m {
        ValueModel::Array(items) => count_of(items.len()),
        ValueModel::Object(entries) => count_of(entries.len()),
        ValueModel::Scalar(s) => count_of(scalar_text(s).len()),
        _ => 0,
    }
}

/// One step of a walk: what the segment finds in the value, if anything.
///
/// In an array, a segment that is strictly an integer is an index, negative ones
/// counting back from the end; otherwise `first`, `last` and `size` are answered
/// and every other word finds nothing. In an object the segment's text is a key;
/// only where no field has that name is `size` answered with the number of fields.
/// A scalar answers `size` alone. Nothing else can be walked into.
pub open spec fn stepped(m: ValueModel, segment: ScalarModel) -> Option<ValueModel> {
    let word = scalar_text(segment);
    if counts(m, segment) {
        Some(ValueModel::Scalar(ScalarModel::Integer(size_of(m))))
    } else {
        match m {
            ValueModel::Array(items) => match scalar_integer(segment) {
                Some(i) => element_at(items, i),
                None => if word == "first"@ {
                    element_at(items, 0)
                } else if word == "last"@ {
                    element_at(items, -1)
                } else {
                    None
                },
            },
            ValueModel::Object(entries) => field_of(entries, word),
            _ => None,
        }
    }
}

/// The walk along a whole path: step by step from the root, giving up at the
/// first segment that finds nothing. The empty path finds the root itself.
pub open spec fn resolved(m: ValueModel, path: Seq<ScalarModel>) -> Option<ValueModel>
    decreases path.len(),
{
    if path.len() == 0 {
        Some(m)
    } else {
        match stepped(m, path[0]) {
            Some(next) => resolved(next, path.drop_first()),
            None => None,
        }
    }
}

/// The three reserved words are different words, and none is the numeral of an integer.
pub proof fn lemma_reserved_words()
    ensures
        "first"@ == seq!['f', 'i', 'r', 's', 't'],
        "last"@ == seq!['l', 'a', 's', 't'],
        "size"@ == seq!['s', 'i', 'z', 'e'],
        "first"@ != "last"@,
        "first"@ != "size"@,
        "last"@ != "size"@,
        parsed_integer("first"@) is None,
        parsed_integer("last"@) is None,
        parsed_integer("size"@) is None,
{
    reveal_strlit("first");
    reveal_strlit("last");
    reveal_strlit("size");
    assert("first"@ =~= seq!['f', 'i', 'r', 's', 't']);
    assert("last"@ =~= seq!['l', 'a', 's', 't']);
    assert("size"@ =~= seq!['s', 'i', 'z', 'e']);
    assert("first"@.len() == 5);
    assert("last"@[0] == 'l');
    assert("size"@[0] == 's');
    assert(!is_digit("first"@[0]));
    assert(!is_digit("last"@[0]));
    assert(!is_digit("size"@[0]));
}

/// A field named `size` shadows the synthetic size: looking up `size` in an
/// object that has such a field finds the field's value, not the number of fields.
pub proof fn lemma_size_field_shadows_count(entries: Seq<(Seq<char>, ValueModel)>, v: ValueModel)
    requires
        field_of(entries, "size"@) == Some(v),
    ensures
        stepped(ValueModel::Object(entries), ScalarModel::Str("size"@)) == Some(v),
        resolved(ValueModel::Object(entries), seq![ScalarModel::Str("size"@)]) == Some(v),
{
    lemma_resolved_one(ValueModel::Object(entries), ScalarModel::Str("size"@));
}

/// Every key of an object finds its field, whatever the key reads.
pub proof fn lemma_field_shadows(
    entries: Seq<(Seq<char>, ValueModel)>,
    segment: ScalarModel,
    v: ValueModel,
)
    requires
        field_of(entries, scalar_text(segment)) == Some(v),
    ensures
        stepped(ValueModel::Object(entries), segment) == Some(v),
{
}

/// In every array `first` finds the first element and `last` the last one, both
/// nothing in an empty array, and `size` finds the number of elements.
pub proof fn lemma_array_accessors(items: Seq<ValueModel>)
    ensures
        stepped(ValueModel::Array(items), ScalarModel::Str("first"@)) == if items.len() > 0 {
            Some(items[0])
        } else {
            None
        },
        stepped(ValueModel::Array(items), ScalarModel::Str("last"@)) == if items.len() > 0 {
            Some(items[items.len() - 1])
        } else {
            None
        },
        stepped(ValueModel::Array(items), ScalarModel::Str("size"@)) == Some(
            ValueModel::Scalar(ScalarModel::Integer(count_of(items.len()))),
        ),
{
    lemma_reserved_words();
}

/// Every scalar answers `size` with the number of characters of its text, a
/// number as well as a string.
pub proof fn lemma_scalar_size(s: ScalarModel)
    ensures
        stepped(ValueModel::Scalar(s), ScalarModel::Str("size"@)) == Some(
            ValueModel::Scalar(ScalarModel::Integer(count_of(scalar_text(s).len()))),
        ),
{
}

/// A path of one segment finds what the one step finds.
pub proof fn lemma_resolved_one(m: ValueModel, segment: ScalarModel)
    ensures
        resolved(m, seq![segment]) == stepped(m, segment),
{
    let path = seq![segment];
    assert(path.drop_first() =~= Seq::<ScalarModel>::empty());
    match stepped(m, segment) {
        Some(next) => {
            assert(resolved(next, path.drop_first()) == Some(next));
        },
        None => {},
    }
}

/// Where a walk finds nothing, `found` is the value nothing, and a walk that finds
/// something is `found` as it is: absence never is a failure.
pub proof fn lemma_absent_is_nil(m: ValueModel, path: Seq<ScalarModel>)
    ensures
        resolved(m, path) is None ==> found(m, path) == ValueModel::Nil,
        resolved(m, path) matches Some(v) ==> found(m, path) == v,
{
}

fn lend<'o, V: ValueView>(found: Option<&'o Value>) -> (out: Option<ValueCow<'o, V>>)
    ensures
        match found {
            Some(v) => out matches Some(ValueCow::Shared(h)) && *h matches Held::Lent(l) && l
                == v,
            None => out is None,
        },
{
    match found {
        Some(v) => Some(ValueCow::borrowed(v)),
        None => None,
    }
}

fn counted<'o, V: ValueView>(n: i64) -> (out: Option<ValueCow<'o, V>>)
    ensures
        out matches Some(ValueCow::Owned(v)) && v == Value::Scalar(Scalar::Integer(n)),
{
    Some(ValueCow::Owned(Value::scalar(Scalar::Integer(n))))
}

/// Takes one step from `value` along `index`.
///
/// What is found inside `value` is lent, not copied; a size is a fresh value that
/// the result owns.
pub fn augmented_get<'o, V: ValueView>(value: &'o V, index: &Scalar) -> (out: Option<
    ValueCow<'o, V>,
>)
    ensures
        match stepped(value.shown(), index@) {
            Some(m) => out matches Some(c) && c@ == m,
            None => out is None,
        },
        out matches Some(c) ==> (match c {
            ValueCow::Owned(_) => counts(value.shown(), index@),
            ValueCow::Shared(h) => !counts(value.shown(), index@) && *h is Lent,
        }),
{
    proof {
        lemma_reserved_words();
    }
    if let Some(arr) = value.as_array() {
        if let Some(i) = index.to_integer_strict() {
            lend(array_get(arr, i))
        } else {
            let word = index.to_kstr();
            if same_text(word.as_str(), "first") {
                lend(array_first(arr))
            } else if same_text(word.as_str(), "last") {
                lend(array_last(arr))
            } else if same_text(word.as_str(), "size") {
                counted(array_size(arr))
            } else {
                None
            }
        }
    } else if let Some(obj) = value.as_object() {
        let key = index.to_kstr();
        match obj.get(key.as_str()) {
            Some(v) => lend(Some(v)),
            None => if same_text(key.as_str(), "size") {
                counted(obj.size())
            } else {
                None
            },
        }
    } else if let Some(scalar) = value.as_scalar() {
        let word = index.to_kstr();
        if same_text(word.as_str(), "size") {
            let text = scalar.to_kstr();
            counted(crate::value::count(text.as_str().unicode_len()))
        } else {
            None
        }
    } else {
        None
    }
}

/// Whether some step of the walk asks for a size. Up to such a step the walk stays
/// inside the root; from it on the walk goes on in a fresh number.
pub open spec fn counted_on_way(m: ValueModel, path: Seq<ScalarModel>) -> bool
    decreases path.len(),
{
    if path.len() == 0 {
        false
    } else if counts(m, path[0]) {
        true
    } else {
        match stepped(m, path[0]) {
            Some(next) => counted_on_way(next, path.drop_first()),
            None => false,
        }
    }
}

/// What a walk finds, with nothing standing for a path that finds nothing.
pub open spec fn found(m: ValueModel, path: Seq<ScalarModel>) -> ValueModel {
    match resolved(m, path) {
        Some(v) => v,
        None => ValueModel::Nil,
    }
}

proof fn lemma_resolved_step(m: ValueModel, path: Seq<ScalarModel>, i: int)
    requires
        0 <= i < path.len(),
    ensures
        resolved(m, path.skip(i)) == match stepped(m, path[i]) {
            Some(next) => resolved(next, path.skip(i + 1)),
            None => None,
        },
        counted_on_way(m, path.skip(i)) == (counts(m, path[i]) || match stepped(m, path[i]) {
            Some(next) => counted_on_way(next, path.skip(i + 1)),
            None => false,
        }),
{
    assert(path.skip(i)[0] == path[i]);
    assert(path.skip(i).drop_first() == path.skip(i + 1));
}

fn walk_owned<'o, V: ValueView>(start: Value, path: &[Scalar], from: usize) -> (out: Option<
    ValueCow<'o, V>,
>)
    requires
        from <= path@.len(),
    ensures
        match resolved(start@, segments_of(path@).skip(from as int)) {
            Some(m) => out matches Some(c) && c@ == m,
            None => out is None,
        },
        out matches Some(c) ==> c is Owned,
{
    let ghost segments = segments_of(path@);
    let mut owned = start;
    let mut i: usize = from;
    while i < path.len()
        invariant
            from <= i <= path@.len(),
            segments == segments_of(path@),
            resolved(start@, segments.skip(from as int)) == resolved(owned@, segments.skip(i as int)),
        decreases path@.len() - i,
    {
        proof {
            lemma_resolved_step(owned@, segments, i as int);
        }
        let next = match augmented_get(&owned, &path[i]) {
            Some(c) => c.into_owned(),
            None => {
                return None;
            },
        };
        owned = next;
        i += 1;
    }
    assert(segments.skip(i as int) =~= Seq::<ScalarModel>::empty());
    Some(ValueCow::Owned(owned))
}

fn walk_lent<'o, V: ValueView>(start: &'o Value, path: &[Scalar], from: usize) -> (out: Option<
    ValueCow<'o, V>,
>)
    requires
        from <= path@.len(),
    ensures
        match resolved(start@, segments_of(path@).skip(from as int)) {
            Some(m) => out matches Some(c) && c@ == m,
            None => out is None,
        },
        out matches Some(c) ==> (match c {
            ValueCow::Owned(_) => counted_on_way(start@, segments_of(path@).skip(from as int)),
            ValueCow::Shared(h) => !counted_on_way(start@, segments_of(path@).skip(from as int))
                && *h is Lent,
        }),
{
    let ghost segments = segments_of(path@);
    let mut cursor: &'o Value = start;
    let mut i: usize = from;
    while i < path.len()
        invariant
            from <= i <= path@.len(),
            segments == segments_of(path@),
            resolved(start@, segments.skip(from as int)) == resolved(
                cursor@,
                segments.skip(i as int),
            ),
            counted_on_way(start@, segments.skip(from as int)) == counted_on_way(
                cursor@,
                segments.skip(i as int),
            ),
        decreases path@.len() - i,
    {
        proof {
            lemma_resolved_step(cursor@, segments, i as int);
        }
        match augmented_get(cursor, &path[i]) {
            None => {
                return None;
            },
            Some(ValueCow::Owned(v)) => {
                return walk_owned(v, path, i + 1);
            },
            Some(ValueCow::Shared(h)) => {
                cursor = h.lent();
            },
        }
        i += 1;
    }
    assert(segments.skip(i as int) =~= Seq::<ScalarModel>::empty());
    Some(ValueCow::borrowed(cursor))
}

/// Walks from `value` along `path` and hands out what stands there, or nothing if
/// some segment finds nothing. The root may be a value or any other view.
///
/// The root is not copied: the empty path hands out a handle on the root itself,
/// and as long as the walk stays inside the root the result is lent from it. After
/// a step that asks for a size the walk goes on in that fresh number, and the
/// result is owned.
pub fn try_find<'o, V: ValueView>(value: &'o V, path: &[Scalar]) -> (out: Option<ValueCow<'o, V>>)
    ensures
        match resolved(value.shown(), segments_of(path@)) {
            Some(m) => out matches Some(c) && c@ == m,
            None => out is None,
        },
        out matches Some(c) ==> (match c {
            ValueCow::Owned(_) => counted_on_way(value.shown(), segments_of(path@)),
            ValueCow::Shared(h) => !counted_on_way(value.shown(), segments_of(path@)) && (
            if path@.len() == 0 {
                *h matches Held::View(v) && v == value
            } else {
                *h is Lent
            }),
        }),
{
    let ghost segments = segments_of(path@);
    if path.len() == 0 {
        return Some(ValueCow::viewing(value));
    }
    proof {
        assert(segments.skip(0) =~= segments);
        lemma_resolved_step(value.shown(), segments, 0);
    }
    match augmented_get(value, &path[0]) {
        None => None,
        Some(ValueCow::Owned(v)) => walk_owned(v, path, 1),
        Some(ValueCow::Shared(h)) => walk_lent(h.lent(), path, 1),
    }
}

/// Walks from `value` along `path` and hands out what stands there. A path that
/// finds nothing is no failure: it yields an owned value nothing. What is found is
/// handed out as `try_find` finds it, lent or owned.
pub fn find<'o, V: ValueView>(value: &'o V, path: &[Scalar]) -> (out: Result<
    ValueCow<'o, V>,
    Error,
>)
    ensures
        out matches Ok(c) && c@ == found(value.shown(), segments_of(path@)),
        resolved(value.shown(), segments_of(path@)) is None ==> (out matches Ok(
            ValueCow::Owned(n),
        ) && n == Value::Nil),
        resolved(value.shown(), segments_of(path@)) is Some ==> (out matches Ok(c) && match c {
            ValueCow::Owned(_) => counted_on_way(value.shown(), segments_of(path@)),
            ValueCow::Shared(h) => !counted_on_way(value.shown(), segments_of(path@)) && (
            if path@.len() == 0 {
                *h matches Held::View(v) && v == value
            } else {
                *h is Lent
            }),
        }),
{
    if let Some(res) = try_find(value, path) {
        Ok(res)
    } else {
        Ok(ValueCow::Owned(Value::Nil))
    }
}

} // verus!
