use liquid_values::{
    CivilDate, DateTime, Held, Object, Order, Scalar, SharedValueView, State, Value, ValueCow, ValueCowCmp, ValueView,
};
use std::cmp::Ordering;

fn whole(i: i64) -> Value {
    Value::scalar(Scalar::Integer(i))
}

fn text(s: &str) -> Value {
    Value::scalar(Scalar::new(s))
}

fn sample() -> Value {
    let mut fields = Object::new();
    fields.insert("name".to_string(), text("Ann"));
    fields.insert("tags".to_string(), Value::array(vec![text("a"), whole(2), Value::Nil]));
    fields.insert("ok".to_string(), Value::scalar(Scalar::Bool(true)));
    Value::Object(fields)
}

#[test]
fn owned_into_owned_hands_the_value_over() {
    let cow = ValueCow::from(sample());
    assert!(matches!(cow, ValueCow::Owned(_)));
    assert_eq!(cow.into_owned(), sample());
}

#[test]
fn shared_into_owned_copies_and_leaves_the_source() {
    let source = sample();
    let cow = ValueCow::from(&source);
    match &cow {
        ValueCow::Shared(handle) => assert!(std::ptr::eq(handle.as_view(), &source)),
        ValueCow::Owned(_) => panic!("the source was copied"),
    }
    let mut copy = cow.into_owned();
    assert_eq!(copy, source);
    assert!(!std::ptr::eq(&copy, &source));
    if let Value::Object(fields) = &mut copy {
        fields.insert("name".to_string(), text("Bob"));
    }
    assert_eq!(source, sample());
    assert!(copy != source);
}

#[test]
fn as_shared_copies_nothing() {
    let owned = ValueCow::from(sample());
    let handle = owned.as_shared();
    assert!(std::ptr::eq(handle.as_view(), owned.as_view()));
    assert!(matches!(&*handle, Held::Lent(_)));
    let source = sample();
    let shared = ValueCow::from(&source);
    let again = shared.as_shared();
    assert!(std::ptr::eq(again.as_view(), &source));
    match &shared {
        ValueCow::Shared(h) => assert!(std::rc::Rc::ptr_eq(h, &again)),
        ValueCow::Owned(_) => unreachable!(),
    }
}

#[test]
fn round_trip_renders_identically() {
    let source = sample();
    let view = SharedValueView::from_view(&source);
    let back: ValueCow = ValueCow::Owned(view.to_value());
    assert_eq!(back.render(), view.render());
    assert_eq!(back.source(), view.source());
    assert_eq!(back.kind_name(), view.kind_name());
}

#[test]
fn renders_and_sources() {
    let v = sample();
    assert_eq!(v.render(), "nameAnntagsa2oktrue");
    assert_eq!(
        v.source(),
        "{\"name\": \"Ann\", \"tags\": [\"a\", 2, nil], \"ok\": true}"
    );
    assert_eq!(Value::Nil.render(), "");
    assert_eq!(Value::Nil.source(), "nil");
    assert_eq!(Value::array(vec![]).source(), "[]");
    assert_eq!(Value::Object(Object::new()).source(), "{}");
    assert_eq!(Value::State(State::Blank).render(), "");
    assert_eq!(Value::State(State::Blank).source(), "blank");
    assert_eq!(whole(i64::MIN).render(), "-9223372036854775808");
    assert_eq!(whole(i64::MAX).to_kstr(), "9223372036854775807");
    assert_eq!(whole(0).source(), "0");
    assert_eq!(text("a\"b").source(), "\"a\"b\"");
}

#[test]
fn kind_names() {
    assert_eq!(Value::Nil.kind_name(), "nil");
    assert_eq!(whole(1).kind_name(), "whole number");
    assert_eq!(text("").kind_name(), "string");
    assert_eq!(Value::scalar(Scalar::Bool(false)).kind_name(), "boolean");
    assert_eq!(Value::array(vec![]).kind_name(), "array");
    assert_eq!(sample().kind_name(), "object");
    assert_eq!(Value::State(State::Empty).kind_name(), "state");
}

#[test]
fn down_casts_say_which_shape() {
    let v = ValueCow::from(sample());
    assert!(v.as_object().is_some());
    assert!(v.as_array().is_none() && v.as_scalar().is_none() && v.as_state().is_none());
    assert!(!v.is_nil());
    let v = SharedValueView::from_value(Value::array(vec![whole(1)]));
    assert_eq!(v.as_array().unwrap().len(), 1);
    assert!(v.as_object().is_none());
    let v = ValueCow::from(Scalar::Integer(3));
    assert_eq!(v.as_scalar().unwrap().to_integer_strict(), Some(3));
    let v = ValueCow::from(State::Empty);
    assert_eq!(v.as_state(), Some(State::Empty));
    assert!(ValueCow::default().is_nil());
    assert!(SharedValueView::default().is_nil());
}

#[test]
fn states() {
    assert!(!Value::Nil.query_state(State::Truthy));
    assert!(Value::Nil.query_state(State::DefaultValue));
    assert!(Value::Nil.query_state(State::Empty));
    assert!(Value::Nil.query_state(State::Blank));
    assert!(text("").query_state(State::Truthy));
    assert!(text("").query_state(State::Empty));
    assert!(text(" \t\n").query_state(State::Blank));
    assert!(!text(" \t\n").query_state(State::Empty));
    assert!(!text(" x ").query_state(State::Blank));
    assert!(!Value::scalar(Scalar::Bool(false)).query_state(State::Truthy));
    assert!(Value::scalar(Scalar::Bool(false)).query_state(State::DefaultValue));
    assert!(whole(0).query_state(State::Truthy));
    assert!(!whole(0).query_state(State::DefaultValue));
    assert!(Value::array(vec![]).query_state(State::Empty));
    assert!(!Value::array(vec![Value::Nil]).query_state(State::Empty));
    assert!(sample().query_state(State::Truthy));
    assert!(Value::State(State::Empty).query_state(State::Empty));
    assert!(!Value::State(State::Empty).query_state(State::Blank));
}

#[test]
fn equality_is_by_value() {
    let source = sample();
    let shared = ValueCow::from(&source);
    let owned = ValueCow::from(sample());
    assert!(shared == owned);
    assert!(shared == source);
    assert!(SharedValueView::from_view(&source) == SharedValueView::from_value(sample()));
    assert!(ValueCow::from(Scalar::Integer(3)) == 3i64);
    assert!(ValueCow::from(Scalar::Integer(3)) != 4i64);
    assert!(ValueCow::from(Scalar::new("3")) != 3i64);
    assert!(ValueCow::from(Scalar::new("abc")) == *"abc");
    assert!(ValueCow::from(Scalar::new("abc")) == "abc".to_string());
    assert!(ValueCow::from(Scalar::Bool(true)) == true);
    assert!(ValueCow::from(Scalar::Integer(0)) == true);
    assert!(ValueCow::from(Scalar::Integer(0)) != false);
    assert!(SharedValueView::from_value(whole(7)) == 7i64);
    assert!(ValueCowCmp::new(ValueCow::from(Scalar::new("x"))) == *"x");
    assert!(ValueCow::from(Scalar::new("abc")) == "abc");
    assert!(SharedValueView::from_value(text("abc")) == "abc");
    assert!(ValueCowCmp::new(ValueCow::from(Scalar::new("abc"))) != "abd");
    let wrapped = ValueCowCmp::new(ValueCow::from(sample()));
    assert!(wrapped.clone() == wrapped);
}

#[test]
fn equality_of_objects_ignores_field_order() {
    let mut a = Object::new();
    a.insert("x".to_string(), whole(1));
    a.insert("y".to_string(), whole(2));
    let mut b = Object::new();
    b.insert("y".to_string(), whole(2));
    b.insert("x".to_string(), whole(1));
    assert_eq!(Value::Object(a), Value::Object(b));
    let mut c = Object::new();
    c.insert("x".to_string(), whole(1));
    c.insert("y".to_string(), whole(3));
    let mut d = Object::new();
    d.insert("x".to_string(), whole(1));
    d.insert("y".to_string(), whole(2));
    assert!(Value::Object(c) != Value::Object(d));
}

#[test]
fn equality_with_states_asks_the_state() {
    assert_eq!(Value::State(State::Empty), text(""));
    assert_eq!(Value::array(vec![]), Value::State(State::Empty));
    assert!(Value::State(State::Empty) != text("x"));
    assert_eq!(Value::State(State::Blank), Value::Nil);
    assert!(Value::Nil != whole(0));
    assert!(Value::array(vec![whole(1)]) != Value::array(vec![whole(1), whole(2)]));
}

#[test]
fn order_of_values() {
    let cmp = |a: Value, b: Value| {
        ValueCowCmp::new(ValueCow::from(a)).partial_cmp(&ValueCowCmp::new(ValueCow::from(b)))
    };
    assert_eq!(cmp(whole(1), whole(2)), Some(Ordering::Less));
    assert_eq!(cmp(whole(2), whole(2)), Some(Ordering::Equal));
    assert_eq!(cmp(whole(3), whole(-2)), Some(Ordering::Greater));
    assert_eq!(cmp(text("abc"), text("abd")), Some(Ordering::Less));
    assert_eq!(cmp(text("ab"), text("abc")), Some(Ordering::Less));
    assert_eq!(cmp(text("b"), text("abc")), Some(Ordering::Greater));
    assert_eq!(cmp(text(""), text("")), Some(Ordering::Equal));
    assert_eq!(cmp(text("1"), whole(1)), None);
    assert_eq!(
        cmp(Value::scalar(Scalar::Bool(false)), Value::scalar(Scalar::Bool(true))),
        Some(Ordering::Less)
    );
    assert_eq!(
        cmp(Value::array(vec![whole(1), whole(2)]), Value::array(vec![whole(1), whole(3)])),
        Some(Ordering::Less)
    );
    assert_eq!(
        cmp(Value::array(vec![whole(1)]), Value::array(vec![whole(1), whole(3)])),
        Some(Ordering::Less)
    );
    assert_eq!(
        cmp(Value::array(vec![whole(1), text("a")]), Value::array(vec![whole(1), whole(3)])),
        None
    );
    assert_eq!(cmp(sample(), Value::Object(Object::new())), Some(Ordering::Greater));
    assert_eq!(cmp(Value::Nil, Value::Nil), None);
    assert!(ValueCowCmp::new(ValueCow::from(whole(1))) < ValueCowCmp::new(ValueCow::from(whole(2))));
    assert_eq!(whole(1).order(&whole(1)), Some(Order::Equal));
}

#[test]
fn object_insert_replaces_in_place() {
    let mut o = Object::new();
    o.insert("a".to_string(), whole(1));
    o.insert("b".to_string(), whole(2));
    o.insert("a".to_string(), whole(3));
    assert_eq!(o.len(), 2);
    assert_eq!(o.size(), 2);
    assert_eq!(o.key_at(0).unwrap(), "a");
    assert_eq!(o.value_at(0), Some(&whole(3)));
    assert_eq!(o.key_at(1).unwrap(), "b");
    assert!(o.key_at(2).is_none() && o.value_at(2).is_none());
    assert_eq!(o.get("b"), Some(&whole(2)));
    assert_eq!(o.get("c"), None);
}

#[test]
fn handles_share_without_copying() {
    let view = SharedValueView::from_value(sample());
    let other = view.clone();
    assert!(std::ptr::eq(view.as_view(), other.as_view()));
    assert_eq!(other.into_owned(), sample());
    assert_eq!(view.as_view(), &sample());
    let boxed: SharedValueView = SharedValueView::from_boxed_view(Box::new(Held::Kept(whole(5))));
    assert_eq!(boxed.into_owned(), whole(5));
}

fn day(year: u16, month: u8, day: u8) -> CivilDate {
    CivilDate::from_ymd(year, month, day).unwrap()
}

#[test]
fn days_must_exist() {
    assert!(CivilDate::from_ymd(2016, 6, 13).is_some());
    assert!(CivilDate::from_ymd(2016, 2, 29).is_some());
    assert!(CivilDate::from_ymd(2015, 2, 29).is_none());
    assert!(CivilDate::from_ymd(1900, 2, 29).is_none());
    assert!(CivilDate::from_ymd(2000, 2, 29).is_some());
    assert!(CivilDate::from_ymd(2016, 4, 31).is_none());
    assert!(CivilDate::from_ymd(2016, 0, 1).is_none());
    assert!(CivilDate::from_ymd(2016, 13, 1).is_none());
    assert!(CivilDate::from_ymd(2016, 1, 0).is_none());
    assert!(CivilDate::from_ymd(10000, 1, 1).is_none());
    assert!(CivilDate::from_ymd(0, 1, 1).is_some());
    let d = day(2016, 6, 13);
    assert_eq!((d.year(), d.month(), d.day()), (2016, 6, 13));
}

#[test]
fn day_numbers_count_days() {
    assert_eq!(day(0, 1, 1).to_day_number(), 0);
    assert_eq!(day(0, 12, 31).to_day_number(), 365);
    assert_eq!(day(1, 1, 1).to_day_number(), 366);
    assert_eq!(day(1970, 1, 1).to_day_number(), 719528);
    assert_eq!(day(2016, 3, 1).to_day_number() - day(2016, 2, 28).to_day_number(), 2);
    assert_eq!(day(2015, 3, 1).to_day_number() - day(2015, 2, 28).to_day_number(), 1);
    assert_eq!(day(2017, 1, 1).to_day_number() - day(2016, 1, 1).to_day_number(), 366);
}

#[test]
fn clocks_must_exist() {
    let d = day(2016, 6, 13);
    assert!(DateTime::new(d, 23, 59, 59, 1439).is_some());
    assert!(DateTime::new(d, 24, 0, 0, 0).is_none());
    assert!(DateTime::new(d, 0, 60, 0, 0).is_none());
    assert!(DateTime::new(d, 0, 0, 60, 0).is_none());
    assert!(DateTime::new(d, 0, 0, 0, 1440).is_none());
    assert!(DateTime::new(d, 0, 0, 0, -1440).is_none());
    assert_eq!(DateTime::new(d, 1, 2, 3, 0).unwrap().date(), d);
}

#[test]
fn dates_render_padded() {
    assert_eq!(Scalar::from(day(2016, 6, 13)).to_kstr(), "2016-06-13");
    assert_eq!(Scalar::from(day(7, 12, 1)).render(), "0007-12-01");
    assert_eq!(Scalar::from(day(2016, 6, 13)).source(), "2016-06-13");
    assert_eq!(Scalar::from(day(2016, 6, 13)).kind_name(), "date");
    let t = DateTime::new(day(2016, 6, 13), 2, 30, 0, 180).unwrap();
    assert_eq!(Scalar::from(t).to_kstr(), "2016-06-13 02:30:00 +0300");
    assert_eq!(Scalar::from(t).kind_name(), "date time");
    let t = DateTime::new(day(2016, 6, 13), 23, 5, 9, -570).unwrap();
    assert_eq!(Scalar::from(t).to_kstr(), "2016-06-13 23:05:09 -0930");
    let t = DateTime::new(day(2016, 6, 13), 0, 0, 0, 0).unwrap();
    assert_eq!(Scalar::from(t).to_kstr(), "2016-06-13 00:00:00 +0000");
    assert_eq!(Scalar::from(t).to_integer_strict(), None);
    assert!(Scalar::from(t).query_state(State::Truthy));
    assert!(!Scalar::from(t).query_state(State::Empty));
    assert_eq!(
        liquid_values::try_find(&Value::scalar(Scalar::from(day(2016, 6, 13))), &[Scalar::new("size")])
            .unwrap()
            .into_owned(),
        whole(10)
    );
}

#[test]
fn points_in_time_compare_as_instants() {
    let here = DateTime::new(day(2016, 6, 13), 2, 30, 0, 180).unwrap();
    let utc = DateTime::new(day(2016, 6, 12), 23, 30, 0, 0).unwrap();
    let later = DateTime::new(day(2016, 6, 13), 2, 30, 1, 180).unwrap();
    assert!(here == utc);
    assert!(here != later);
    assert_eq!(utc.to_instant() - here.to_instant(), 0);
    assert_eq!(later.to_instant() - here.to_instant(), 1);
    assert!(ValueCow::from(Scalar::from(here)) == utc);
    assert!(ValueCow::from(Scalar::from(here)) != later);
    assert!(SharedValueView::from_value(Value::scalar(Scalar::from(here))) == utc);
    assert!(ValueCowCmp::new(ValueCow::from(Scalar::from(here))) == utc);
    assert!(ValueCow::from(Scalar::from(day(2016, 6, 13))) == day(2016, 6, 13));
    assert!(ValueCow::from(Scalar::from(day(2016, 6, 13))) != day(2016, 6, 14));
    assert!(ValueCow::from(Scalar::from(day(2016, 6, 13))) != here);
    assert!(ValueCow::from(Scalar::new("2016-06-13")) != day(2016, 6, 13));
    let order = |a: Scalar, b: Scalar| a.order(&b);
    assert_eq!(order(Scalar::from(here), Scalar::from(later)), Some(Order::Less));
    assert_eq!(order(Scalar::from(here), Scalar::from(utc)), Some(Order::Equal));
    assert_eq!(
        order(Scalar::from(day(2016, 6, 14)), Scalar::from(day(2016, 6, 13))),
        Some(Order::Greater)
    );
    assert_eq!(order(Scalar::from(day(2016, 6, 14)), Scalar::from(here)), None);
}
