//! The owned value: nothing, a scalar, an array, an object or a state.

use vstd::prelude::*;
use vstd::string::StringExecFns;
use crate::text::same_text;
use crate::view::ValueView;
use crate::scalar::{
    scalar_in_state, scalar_kind_name, scalar_source, scalar_text, scalars_equal, Scalar,
    ScalarModel, State,
};

verus! {

/// What a value is, mathematically. An object is the sequence of its fields in the
/// order in which they were first inserted.
pub enum ValueModel {
    Nil,
    Scalar(ScalarModel),
    Array(Seq<ValueModel>),
    Object(Seq<(Seq<char>, ValueModel)>),
    State(State),
}

/// A mapping from string keys to values that keeps the order of insertion.
/// No key occurs twice.
#[derive(Debug)]
pub struct Object {
    entries: Vec<(String, Value)>,
}

/// An owned, self-contained value.
#[derive(Debug)]
pub enum Value {
    Nil,
    Scalar(Scalar),
    Array(Vec<Value>),
    Object(Object),
    State(State),
}

impl View for Object {
    type V = Seq<(Seq<char>, ValueModel)>;

    closed spec fn view(&self) -> Seq<(Seq<char>, ValueModel)>
        decreases self,
    {
        Seq::new(
            self.entries.len() as nat,
            |i: int|
                if 0 <= i < self.entries.len() {
                    (self.entries[i].0@, self.entries[i].1.view())
                } else {
                    (Seq::empty(), ValueModel::Nil)
                },
        )
    }
}

impl View for Value {
    type V = ValueModel;

    open spec fn view(&self) -> ValueModel
        decreases self,
    {
        match self {
            Value::Nil => ValueModel::Nil,
            Value::Scalar(s) => ValueModel::Scalar(s@),
            Value::Array(items) => ValueModel::Array(
                Seq::new(
                    items.len() as nat,
                    |i: int|
                        if 0 <= i < items.len() {
                            items[i].view()
                        } else {
                            ValueModel::Nil
                        },
                ),
            ),
            Value::Object(o) => ValueModel::Object(o.view()),
            Value::State(s) => ValueModel::State(*s),
        }
    }
}

/// The models of the values in `items`, in order.
pub open spec fn models_of(items: Seq<Value>) -> Seq<ValueModel> {
    Seq::new(items.len(), |i: int| items[i]@)
}

/// Whether no key occurs twice among `entries`.
pub open spec fn distinct_keys(entries: Seq<(Seq<char>, ValueModel)>) -> bool {
    forall|i: int, j: int| 0 <= i < j < entries.len() ==> entries[i].0 != entries[j].0
}

/// The position of the first field named `key`; the number of fields if none is.
pub open spec fn key_index(entries: Seq<(Seq<char>, ValueModel)>, key: Seq<char>) -> int
    decreases entries.len(),
{
    if entries.len() == 0 {
        0
    } else if entries[0].0 == key {
        0
    } else {
        1 + key_index(entries.drop_first(), key)
    }
}

/// The value of the field named `key`, if there is one.
pub open spec fn field_of(entries: Seq<(Seq<char>, ValueModel)>, key: Seq<char>) -> Option<
    ValueModel,
> {
    let i = key_index(entries, key);
    if i < entries.len() {
        Some(entries[i].1)
    } else {
        None
    }
}

/// The fields after `key` has been set to `value`: a field of that name keeps its
/// place and takes the new value, a new name goes to the end.
pub open spec fn with_field(
    entries: Seq<(Seq<char>, ValueModel)>,
    key: Seq<char>,
    value: ValueModel,
) -> Seq<(Seq<char>, ValueModel)> {
    let i = key_index(entries, key);
    if i < entries.len() {
        entries.update(i, (key, value))
    } else {
        entries.push((key, value))
    }
}

/// `key_index` is the least position that holds `key`.
pub proof fn lemma_key_index(entries: Seq<(Seq<char>, ValueModel)>, key: Seq<char>)
    ensures
        0 <= key_index(entries, key) <= entries.len(),
        forall|j: int| 0 <= j < key_index(entries, key) ==> (#[trigger] entries[j]).0 != key,
        key_index(entries, key) < entries.len() ==> entries[key_index(entries, key)].0 == key,
    decreases entries.len(),
{
    if entries.len() > 0 && entries[0].0 != key {
        let rest = entries.drop_first();
        lemma_key_index(rest, key);
        assert forall|j: int| 0 <= j < key_index(entries, key) implies (#[trigger] entries[j]).0
            != key by {
            if j > 0 {
                assert(rest[j - 1] == entries[j]);
            }
        }
        if key_index(entries, key) < entries.len() {
            assert(rest[key_index(rest, key)] == entries[key_index(entries, key)]);
        }
    }
}

/// A position that holds `key` and has no earlier one that does is `key_index`.
pub proof fn lemma_key_index_is(entries: Seq<(Seq<char>, ValueModel)>, key: Seq<char>, i: int)
    requires
        0 <= i <= entries.len(),
        forall|j: int| 0 <= j < i ==> (#[trigger] entries[j]).0 != key,
        i < entries.len() ==> entries[i].0 == key,
    ensures
        key_index(entries, key) == i,
{
    lemma_key_index(entries, key);
    let k = key_index(entries, key);
    if k < i {
        assert(entries[k].0 != key);
    }
    if i < k {
        assert(entries[i].0 != key);
    }
}

/// The number of elements as a 64-bit integer, which is as far as such a count goes.
pub open spec fn count_of(len: nat) -> int {
    if len > i64::MAX {
        i64::MAX as int
    } else {
        len as int
    }
}

/// The element at `index`, where a negative index counts back from the end
/// (`-1` is the last element); nothing outside the array.
pub open spec fn element_at(items: Seq<ValueModel>, index: int) -> Option<ValueModel> {
    let i = if index < 0 { items.len() + index } else { index };
    if 0 <= i < items.len() {
        Some(items[i])
    } else {
        None
    }
}

/// The name of the state, as diagnostics show it.
pub open spec fn state_name(s: State) -> Seq<char> {
    match s {
        State::Truthy => "truthy"@,
        State::DefaultValue => "default"@,
        State::Empty => "empty"@,
        State::Blank => "blank"@,
    }
}

/// The text that a template shows for a value. Nothing and a state show as
/// nothing; an array shows its elements one after another; an object shows each
/// key followed by its value.
pub open spec fn rendered(m: ValueModel) -> Seq<char>
    decreases m,
{
    match m {
        ValueModel::Nil => Seq::empty(),
        ValueModel::Scalar(s) => scalar_text(s),
        ValueModel::Array(items) => rendered_items(items),
        ValueModel::Object(entries) => rendered_entries(entries),
        ValueModel::State(_) => Seq::empty(),
    }
}

/// The renderings of `items`, one after another.
pub open spec fn rendered_items(items: Seq<ValueModel>) -> Seq<char>
    decreases items,
{
    if items.len() == 0 {
        Seq::empty()
    } else {
        rendered_items(items.drop_last()) + rendered(items.last())
    }
}

/// For each entry its key and the rendering of its value, one after another.
pub open spec fn rendered_entries(entries: Seq<(Seq<char>, ValueModel)>) -> Seq<char>
    decreases entries,
{
    if entries.len() == 0 {
        Seq::empty()
    } else {
        rendered_entries(entries.drop_last()) + entries.last().0 + rendered(entries.last().1)
    }
}

/// The text that diagnostics show for a value: `nil`, a scalar's source, the name
/// of a state, an array between square brackets, an object between braces.
pub open spec fn sourced(m: ValueModel) -> Seq<char>
    decreases m,
{
    match m {
        ValueModel::Nil => "nil"@,
        ValueModel::Scalar(s) => scalar_source(s),
        ValueModel::Array(items) => seq!['['] + sourced_items(items) + seq![']'],
        ValueModel::Object(entries) => seq!['{'] + sourced_entries(entries) + seq!['}'],
        ValueModel::State(s) => state_name(s),
    }
}

/// The sources of `items`, separated by a comma and a space.
pub open spec fn sourced_items(items: Seq<ValueModel>) -> Seq<char>
    decreases items,
{
    if items.len() == 0 {
        Seq::empty()
    } else if items.len() == 1 {
        sourced(items[0])
    } else {
        sourced_items(items.drop_last()) + seq![',', ' '] + sourced(items.last())
    }
}

/// One entry in diagnostics: the key between double quotes, a colon, a space, and
/// the source of the value.
pub open spec fn entry_source(key: Seq<char>, value_source: Seq<char>) -> Seq<char> {
    seq!['"'] + key + seq!['"', ':', ' '] + value_source
}

/// The entries in diagnostics, separated by a comma and a space.
pub open spec fn sourced_entries(entries: Seq<(Seq<char>, ValueModel)>) -> Seq<char>
    decreases entries,
{
    if entries.len() == 0 {
        Seq::empty()
    } else if entries.len() == 1 {
        entry_source(entries[0].0, sourced(entries[0].1))
    } else {
        sourced_entries(entries.drop_last()) + seq![',', ' '] + entry_source(
            entries.last().0,
            sourced(entries.last().1),
        )
    }
}

/// The name of a value's kind.
pub open spec fn kind_name_of(m: ValueModel) -> Seq<char> {
    match m {
        ValueModel::Nil => "nil"@,
        ValueModel::Scalar(s) => scalar_kind_name(s),
        ValueModel::Array(_) => "array"@,
        ValueModel::Object(_) => "object"@,
        ValueModel::State(_) => "state"@,
    }
}

/// Whether a value is in a state. Nothing is in every state but truthy; an array
/// or an object is truthy, and in each other state exactly when it holds nothing;
/// a state value is in the state that it names and in no other.
pub open spec fn in_state(m: ValueModel, state: State) -> bool {
    match m {
        ValueModel::Nil => state != State::Truthy,
        ValueModel::Scalar(s) => scalar_in_state(s, state),
        ValueModel::Array(items) => state == State::Truthy || items.len() == 0,
        ValueModel::Object(entries) => state == State::Truthy || entries.len() == 0,
        ValueModel::State(s) => s == state,
    }
}

/// Equality of values. A state equals whatever is in that state; nothing equals
/// nothing; scalars are equal as scalars; arrays are equal element by element;
/// objects are equal when they have as many fields and each field of the first
/// has an equal one of the same name in the second. Nothing else is equal.
pub open spec fn values_equal(a: ValueModel, b: ValueModel) -> bool
    decreases a,
{
    match (a, b) {
        (ValueModel::State(s), _) => in_state(b, s),
        (_, ValueModel::State(s)) => in_state(a, s),
        (ValueModel::Nil, ValueModel::Nil) => true,
        (ValueModel::Scalar(x), ValueModel::Scalar(y)) => scalars_equal(x, y),
        (ValueModel::Array(x), ValueModel::Array(y)) => x.len() == y.len() && forall|i: int|
            #![trigger x[i]]
            0 <= i < x.len() ==> values_equal(x[i], y[i]),
        (ValueModel::Object(x), ValueModel::Object(y)) => x.len() == y.len() && forall|i: int|
            #![trigger x[i]]
            0 <= i < x.len() ==> match field_of(y, x[i].0) {
                Some(v) => values_equal(x[i].1, v),
                None => false,
            },
        _ => false,
    }
}

/// The count `len` as a 64-bit integer.
pub fn count(len: usize) -> (out: i64)
    ensures
        out == count_of(len as nat),
{
    if len as u64 > 0x7fff_ffff_ffff_ffff {
        0x7fff_ffff_ffff_ffff
    } else {
        len as i64
    }
}

/// The number of elements of an array.
pub fn array_size(items: &Vec<Value>) -> (out: i64)
    ensures
        out == count_of(models_of(items@).len()),
{
    count(items.len())
}

/// The element of an array at `index`; a negative index counts back from the end.
pub fn array_get(items: &Vec<Value>, index: i64) -> (out: Option<&Value>)
    ensures
        match element_at(models_of(items@), index as int) {
            Some(m) => out matches Some(v) && v@ == m,
            None => out is None,
        },
{
    let n = items.len();
    if index >= 0 {
        if (index as u64) < (n as u64) {
            Some(&items[index as usize])
        } else {
            None
        }
    } else {
        let back: u64 = (-(index + 1)) as u64 + 1;
        if back <= n as u64 {
            Some(&items[n - (back as usize)])
        } else {
            None
        }
    }
}

/// The first element of an array, if it has one.
pub fn array_first(items: &Vec<Value>) -> (out: Option<&Value>)
    ensures
        match element_at(models_of(items@), 0) {
            Some(m) => out matches Some(v) && v@ == m,
            None => out is None,
        },
{
    array_get(items, 0)
}

/// The last element of an array, if it has one.
pub fn array_last(items: &Vec<Value>) -> (out: Option<&Value>)
    ensures
        match element_at(models_of(items@), -1) {
            Some(m) => out matches Some(v) && v@ == m,
            None => out is None,
        },
{
    array_get(items, -1)
}

impl Object {
    #[verifier::type_invariant]
    spec fn keys_unique(&self) -> bool {
        forall|i: int, j: int|
            0 <= i < j < self.entries.len() ==> self.entries[i].0@ != self.entries[j].0@
    }

    /// An object without fields.
    pub fn new() -> (out: Object)
        ensures
            out@ == Seq::<(Seq<char>, ValueModel)>::empty(),
    {
        Object { entries: Vec::new() }
    }

    /// The number of fields. No two of them have the same key.
    pub fn len(&self) -> (out: usize)
        ensures
            out == self@.len(),
            distinct_keys(self@),
    {
        proof {
            use_type_invariant(self);
        }
        self.entries.len()
    }

    /// The number of fields, as templates count.
    pub fn size(&self) -> (out: i64)
        ensures
            out == count_of(self@.len()),
    {
        count(self.entries.len())
    }

    /// The key of the field at position `i`, if there are that many fields.
    pub fn key_at(&self, i: usize) -> (out: Option<&String>)
        ensures
            i < self@.len() ==> (out matches Some(k) && k@ == self@[i as int].0),
            i >= self@.len() ==> out is None,
    {
        if i < self.entries.len() {
            Some(&self.entries[i].0)
        } else {
            None
        }
    }

    /// The value of the field at position `i`, if there are that many fields.
    pub fn value_at(&self, i: usize) -> (out: Option<&Value>)
        ensures
            i < self@.len() ==> (out matches Some(v) && v@ == self@[i as int].1),
            i >= self@.len() ==> out is None,
    {
        if i < self.entries.len() {
            Some(&self.entries[i].1)
        } else {
            None
        }
    }

    fn position(&self, key: &str) -> (out: usize)
        ensures
            out == key_index(self@, key@),
    {
        let mut i: usize = 0;
        while i < self.entries.len()
            invariant
                i <= self.entries.len(),
                forall|j: int| 0 <= j < i ==> (#[trigger] self@[j]).0 != key@,
            decreases self.entries.len() - i,
        {
            if same_text(self.entries[i].0.as_str(), key) {
                proof {
                    lemma_key_index_is(self@, key@, i as int);
                }
                return i;
            }
            i += 1;
        }
        proof {
            lemma_key_index_is(self@, key@, i as int);
        }
        i
    }

    /// The value of the field named `key`, if there is one.
    pub fn get(&self, key: &str) -> (out: Option<&Value>)
        ensures
            match field_of(self@, key@) {
                Some(m) => out matches Some(v) && v@ == m,
                None => out is None,
            },
    {
        let i = self.position(key);
        if i < self.entries.len() {
            Some(&self.entries[i].1)
        } else {
            None
        }
    }

    /// Sets the field named `key` to `value`.
    pub fn insert(&mut self, key: String, value: Value)
        ensures
            final(self)@ == with_field(old(self)@, key@, value@),
    {
        let i = self.position(key.as_str());
        let mut taken = Object::new();
        core::mem::swap(self, &mut taken);
        proof {
            use_type_invariant(&taken);
            lemma_key_index(taken@, key@);
        }
        let ghost before = taken@;
        let Object { entries } = taken;
        let mut entries = entries;
        if i < entries.len() {
            entries.set(i, (key, value));
        } else {
            entries.push((key, value));
        }
        proof {
            assert forall|a: int, b: int| 0 <= a < b < entries.len() implies entries[a].0@
                != entries[b].0@ by {
                if a != i && b != i {
                    assert(before[a].0 != before[b].0);
                } else if a == i {
                    assert(before[b].0 != key@);
                } else {
                    assert(before[a].0 != key@);
                }
            }
        }
        *self = Object { entries };
        assert(self@ =~= with_field(before, key@, value@));
    }
}

proof fn lemma_rendered_items_step(items: Seq<ValueModel>, i: int)
    requires
        0 <= i < items.len(),
    ensures
        rendered_items(items.take(i + 1)) == rendered_items(items.take(i)) + rendered(items[i]),
{
    assert(items.take(i + 1).drop_last() == items.take(i));
}

proof fn lemma_rendered_entries_step(entries: Seq<(Seq<char>, ValueModel)>, i: int)
    requires
        0 <= i < entries.len(),
    ensures
        rendered_entries(entries.take(i + 1)) == rendered_entries(entries.take(i)) + entries[i].0
            + rendered(entries[i].1),
{
    assert(entries.take(i + 1).drop_last() == entries.take(i));
}

proof fn lemma_sourced_items_step(items: Seq<ValueModel>, i: int)
    requires
        0 <= i < items.len(),
    ensures
        sourced_items(items.take(i + 1)) == if i == 0 {
            sourced(items[i])
        } else {
            sourced_items(items.take(i)) + seq![',', ' '] + sourced(items[i])
        },
{
    assert(items.take(i + 1).drop_last() == items.take(i));
}

proof fn lemma_sourced_entries_step(entries: Seq<(Seq<char>, ValueModel)>, i: int)
    requires
        0 <= i < entries.len(),
    ensures
        sourced_entries(entries.take(i + 1)) == if i == 0 {
            entry_source(entries[i].0, sourced(entries[i].1))
        } else {
            sourced_entries(entries.take(i)) + seq![',', ' '] + entry_source(
                entries[i].0,
                sourced(entries[i].1),
            )
        },
{
    assert(entries.take(i + 1).drop_last() == entries.take(i));
}

proof fn lemma_entry_is_smaller(v: &Value, i: int)
    requires
        v is Object,
        0 <= i < v->Object_0.entries.len(),
    ensures
        decreases_to!(v => v->Object_0.entries[i].1),
{
    assert(decreases_to!(v => v->Object_0));
    assert(decreases_to!(v->Object_0 => v->Object_0.entries));
    assert(decreases_to!(v->Object_0.entries => v->Object_0.entries[i]));
    assert(decreases_to!(v->Object_0.entries[i] => v->Object_0.entries[i].1));
}

proof fn lemma_item_is_smaller(v: &Value, i: int)
    requires
        v is Array,
        0 <= i < v->Array_0.len(),
    ensures
        decreases_to!(v => v->Array_0[i]),
{
    assert(decreases_to!(v => v->Array_0));
    assert(decreases_to!(v->Array_0 => v->Array_0[i]));
}

impl Value {
    /// A scalar value.
    pub fn scalar(s: Scalar) -> (out: Value)
        ensures
            out@ == ValueModel::Scalar(s@),
    {
        Value::Scalar(s)
    }

    /// An array value.
    pub fn array(items: Vec<Value>) -> (out: Value)
        ensures
            out@ == ValueModel::Array(models_of(items@)),
    {
        let out = Value::Array(items);
        assert(out@->Array_0 =~= models_of(items@));
        out
    }

    /// Appends to `out` the text that a template shows for the value.
    pub fn render_into(&self, out: &mut String)
        ensures
            final(out)@ == old(out)@ + rendered(self@),
        decreases self,
    {
        match self {
            Value::Nil => {
                assert(out@ + Seq::<char>::empty() == out@);
            },
            Value::Scalar(s) => {
                let text = s.to_kstr();
                out.append(text.as_str());
            },
            Value::Array(items) => {
                let ghost models = self@->Array_0;
                let ghost start = out@;
                let mut i: usize = 0;
                assert(start + rendered_items(models.take(0)) == start);
                while i < items.len()
                    invariant
                        i <= items.len(),
                        self == Value::Array(*items),
                        models == self@->Array_0,
                        out@ == start + rendered_items(models.take(i as int)),
                    decreases items.len() - i,
                {
                    proof {
                        lemma_rendered_items_step(models, i as int);
                    }
                    items[i].render_into(out);
                    assert(out@ == start + rendered_items(models.take(i + 1)));
                    i += 1;
                }
                assert(models.take(i as int) == models);
            },
            Value::Object(o) => {
                let ghost models = o@;
                let ghost start = out@;
                let mut i: usize = 0;
                assert(start + rendered_entries(models.take(0)) == start);
                while i < o.entries.len()
                    invariant
                        i <= o.entries.len(),
                        self == Value::Object(*o),
                        models == o@,
                        out@ == start + rendered_entries(models.take(i as int)),
                    decreases o.entries.len() - i,
                {
                    proof {
                        lemma_rendered_entries_step(models, i as int);
                        lemma_entry_is_smaller(self, i as int);
                    }
                    out.append(o.entries[i].0.as_str());
                    o.entries[i].1.render_into(out);
                    assert(out@ == start + rendered_entries(models.take(i + 1)));
                    i += 1;
                }
                assert(models.take(i as int) == models);
            },
            Value::State(_) => {
                assert(out@ + Seq::<char>::empty() == out@);
            },
        }
    }

    /// Appends to `out` the text that diagnostics show for the value.
    pub fn source_into(&self, out: &mut String)
        ensures
            final(out)@ == old(out)@ + sourced(self@),
        decreases self,
    {
        match self {
            Value::Nil => {
                out.append("nil");
            },
            Value::Scalar(s) => {
                let text = s.source();
                out.append(text.as_str());
            },
            Value::Array(items) => {
                let ghost models = self@->Array_0;
                let ghost start = out@;
                out.push('[');
                let mut i: usize = 0;
                assert(start + seq!['['] + sourced_items(models.take(0)) == start + seq!['[']);
                while i < items.len()
                    invariant
                        i <= items.len(),
                        self == Value::Array(*items),
                        models == self@->Array_0,
                        out@ == start + seq!['['] + sourced_items(models.take(i as int)),
                    decreases items.len() - i,
                {
                    proof {
                        lemma_sourced_items_step(models, i as int);
                    }
                    if i > 0 {
                        out.push(',');
                        out.push(' ');
                    }
                    items[i].source_into(out);
                    assert(out@ == start + seq!['['] + sourced_items(models.take(i + 1)));
                    i += 1;
                }
                assert(models.take(i as int) == models);
                out.push(']');
                assert(out@ == start + (seq!['['] + sourced_items(models) + seq![']']));
            },
            Value::Object(o) => {
                let ghost models = o@;
                let ghost start = out@;
                out.push('{');
                let mut i: usize = 0;
                assert(start + seq!['{'] + sourced_entries(models.take(0)) == start + seq!['{']);
                while i < o.entries.len()
                    invariant
                        i <= o.entries.len(),
                        self == Value::Object(*o),
                        models == o@,
                        out@ == start + seq!['{'] + sourced_entries(models.take(i as int)),
                    decreases o.entries.len() - i,
                {
                    proof {
                        lemma_sourced_entries_step(models, i as int);
                        lemma_entry_is_smaller(self, i as int);
                    }
                    if i > 0 {
                        out.push(',');
                        out.push(' ');
                    }
                    let ghost sofar = out@;
                    out.push('"');
                    out.append(o.entries[i].0.as_str());
                    out.push('"');
                    out.push(':');
                    out.push(' ');
                    o.entries[i].1.source_into(out);
                    assert(out@ == sofar + entry_source(models[i as int].0, sourced(models[i as int].1)));
                    assert(out@ == start + seq!['{'] + sourced_entries(models.take(i + 1)));
                    i += 1;
                }
                assert(models.take(i as int) == models);
                out.push('}');
                assert(out@ == start + (seq!['{'] + sourced_entries(models) + seq!['}']));
            },
            Value::State(s) => {
                match s {
                    State::Truthy => out.append("truthy"),
                    State::DefaultValue => out.append("default"),
                    State::Empty => out.append("empty"),
                    State::Blank => out.append("blank"),
                }
            },
        }
    }
}

impl Value {
    /// Whether the two are equal as values.
    pub fn equals(&self, other: &Value) -> (out: bool)
        ensures
            out == values_equal(self@, other@),
        decreases self, 1nat,
    {
        match (self, other) {
            (Value::State(s), _) => other.query_state(*s),
            (_, Value::State(s)) => self.query_state(*s),
            (Value::Nil, Value::Nil) => true,
            (Value::Scalar(x), Value::Scalar(y)) => x.equals(y),
            (Value::Array(x), Value::Array(y)) => {
                proof {
                    assert(models_of(x@) =~= self@->Array_0);
                    assert(models_of(y@) =~= other@->Array_0);
                }
                arrays_equal(x, y)
            },
            (Value::Object(x), Value::Object(y)) => objects_equal(x, y),
            _ => false,
        }
    }
}

/// Whether two arrays are equal: as long, and equal element by element.
pub fn arrays_equal(x: &Vec<Value>, y: &Vec<Value>) -> (out: bool)
    ensures
        out == values_equal(ValueModel::Array(models_of(x@)), ValueModel::Array(models_of(y@))),
    decreases x, 0nat,
{
    if x.len() != y.len() {
        return false;
    }
    let ghost xs = models_of(x@);
    let ghost ys = models_of(y@);
    let mut i: usize = 0;
    while i < x.len()
        invariant
            i <= x.len(),
            x.len() == y.len(),
            xs == models_of(x@),
            ys == models_of(y@),
            forall|j: int| #![trigger xs[j]] 0 <= j < i ==> values_equal(xs[j], ys[j]),
        decreases x.len() - i,
    {
        if !x[i].equals(&y[i]) {
            assert(!values_equal(xs[i as int], ys[i as int]));
            return false;
        }
        i += 1;
    }
    true
}

/// Whether two objects are equal: they have as many fields, and each field of the
/// first has an equal one of the same name in the second.
pub fn objects_equal(x: &Object, y: &Object) -> (out: bool)
    ensures
        out == values_equal(ValueModel::Object(x@), ValueModel::Object(y@)),
    decreases x, 0nat,
{
    if x.entries.len() != y.entries.len() {
        return false;
    }
    let mut i: usize = 0;
    while i < x.entries.len()
        invariant
            i <= x.entries.len(),
            x.entries.len() == y.entries.len(),
            forall|j: int|
                #![trigger x@[j]]
                0 <= j < i ==> match field_of(y@, x@[j].0) {
                    Some(v) => values_equal(x@[j].1, v),
                    None => false,
                },
        decreases x.entries.len() - i,
    {
        proof {
            assert(decreases_to!(x => x.entries));
            assert(decreases_to!(x.entries => x.entries[i as int]));
            assert(decreases_to!(x.entries[i as int] => x.entries[i as int].1));
        }
        match y.get(x.entries[i].0.as_str()) {
            Some(v) => {
                if !x.entries[i].1.equals(v) {
                    assert(!(match field_of(y@, x@[i as int].0) {
                        Some(v) => values_equal(x@[i as int].1, v),
                        None => false,
                    }));
                    return false;
                }
            },
            None => {
                assert(field_of(y@, x@[i as int].0) is None);
                return false;
            },
        }
        i += 1;
    }
    true
}

impl Default for Value {
    /// The value nothing.
    fn default() -> (out: Value)
        ensures
            out == Value::Nil,
    {
        Value::Nil
    }
}

impl PartialEq for Value {
    fn eq(&self, other: &Self) -> (out: bool) {
        self.equals(other)
    }
}

impl vstd::std_specs::cmp::PartialEqSpecImpl for Value {
    open spec fn obeys_eq_spec() -> bool {
        true
    }

    open spec fn eq_spec(&self, other: &Self) -> bool {
        values_equal(self@, other@)
    }
}

impl Clone for Value {
    /// A deep copy.
    fn clone(&self) -> (out: Value)
        ensures
            out@ == self@,
        decreases self,
    {
        match self {
            Value::Nil => Value::Nil,
            Value::Scalar(s) => Value::Scalar(s.clone()),
            Value::Array(items) => {
                let mut copy: Vec<Value> = Vec::new();
                let mut i: usize = 0;
                while i < items.len()
                    invariant
                        i <= items.len(),
                        self == Value::Array(*items),
                        copy.len() == i,
                        forall|j: int| 0 <= j < i ==> (#[trigger] copy[j])@ == items[j]@,
                    decreases items.len() - i,
                {
                    proof {
                        lemma_item_is_smaller(self, i as int);
                    }
                    let item = items[i].clone();
                    copy.push(item);
                    i += 1;
                }
                let out = Value::Array(copy);
                assert(out@->Array_0 =~= self@->Array_0);
                out
            },
            Value::Object(o) => {
                proof {
                    use_type_invariant(o);
                }
                let mut copy: Vec<(String, Value)> = Vec::new();
                let mut i: usize = 0;
                while i < o.entries.len()
                    invariant
                        i <= o.entries.len(),
                        self == Value::Object(*o),
                        copy.len() == i,
                        forall|j: int|
                            0 <= j < i ==> (#[trigger] copy[j]).0@ == o.entries[j].0@ && copy[j].1@
                                == o.entries[j].1@,
                    decreases o.entries.len() - i,
                {
                    proof {
                        lemma_entry_is_smaller(self, i as int);
                    }
                    let key = o.entries[i].0.clone();
                    let value = o.entries[i].1.clone();
                    copy.push((key, value));
                    i += 1;
                }
                let fields = Object { entries: copy };
                assert(fields@ =~= o@);
                Value::Object(fields)
            },
            Value::State(s) => Value::State(*s),
        }
    }
}

} // verus!
