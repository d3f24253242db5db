use liquid_values::{
    augmented_get, find, try_find, Object, Path, Scalar, Value, ValueCow, ValueView,
};

fn whole(i: i64) -> Value {
    Value::scalar(Scalar::Integer(i))
}

fn text(s: &str) -> Value {
    Value::scalar(Scalar::new(s))
}

fn key(s: &str) -> Scalar {
    Scalar::new(s)
}

fn letters() -> Value {
    Value::array(vec![text("a"), text("b"), text("c")])
}

#[test]
fn object_field_named_size_wins() {
    let mut fields = Object::new();
    fields.insert("size".to_string(), text("large"));
    fields.insert("colour".to_string(), text("red"));
    let root = Value::Object(fields);
    let found = find(&root, &[key("size")]).unwrap();
    assert_eq!(found.render(), "large");
    assert_eq!(try_find(&root, &[key("size")]).unwrap().into_owned(), text("large"));
}

#[test]
fn object_without_size_field_counts_fields() {
    let mut fields = Object::new();
    fields.insert("width".to_string(), whole(3));
    fields.insert("colour".to_string(), text("red"));
    let root = Value::Object(fields);
    assert_eq!(find(&root, &[key("size")]).unwrap().into_owned(), whole(2));
    assert_eq!(find(&root, &[key("width")]).unwrap().into_owned(), whole(3));
    assert!(try_find(&root, &[key("height")]).is_none());
}

#[test]
fn array_first_last_size() {
    let root = letters();
    assert_eq!(try_find(&root, &[key("first")]).unwrap().into_owned(), text("a"));
    assert_eq!(try_find(&root, &[key("last")]).unwrap().into_owned(), text("c"));
    assert_eq!(try_find(&root, &[key("size")]).unwrap().into_owned(), whole(3));
    assert!(try_find(&root, &[key("second")]).is_none());
}

#[test]
fn empty_array_has_size_but_no_ends() {
    let root = Value::array(vec![]);
    assert!(try_find(&root, &[key("first")]).is_none());
    assert!(try_find(&root, &[key("last")]).is_none());
    assert_eq!(try_find(&root, &[key("size")]).unwrap().into_owned(), whole(0));
}

#[test]
fn array_index_by_number_and_by_numeral() {
    let root = letters();
    assert_eq!(try_find(&root, &[Scalar::Integer(0)]).unwrap().into_owned(), text("a"));
    assert_eq!(try_find(&root, &[Scalar::Integer(2)]).unwrap().into_owned(), text("c"));
    assert_eq!(try_find(&root, &[key("1")]).unwrap().into_owned(), text("b"));
    assert_eq!(try_find(&root, &[key("+1")]).unwrap().into_owned(), text("b"));
}

#[test]
fn array_index_at_and_beyond_the_ends() {
    let root = letters();
    assert!(try_find(&root, &[Scalar::Integer(3)]).is_none());
    assert_eq!(try_find(&root, &[Scalar::Integer(-1)]).unwrap().into_owned(), text("c"));
    assert_eq!(try_find(&root, &[Scalar::Integer(-3)]).unwrap().into_owned(), text("a"));
    assert!(try_find(&root, &[Scalar::Integer(-4)]).is_none());
    assert!(try_find(&root, &[Scalar::Integer(i64::MIN)]).is_none());
    assert!(try_find(&root, &[Scalar::Integer(i64::MAX)]).is_none());
    assert!(try_find(&root, &[Scalar::Bool(true)]).is_none());
}

#[test]
fn scalar_size_counts_characters() {
    assert_eq!(try_find(&text("hello"), &[key("size")]).unwrap().into_owned(), whole(5));
    assert_eq!(try_find(&text("h\u{e9}llo"), &[key("size")]).unwrap().into_owned(), whole(5));
    assert_eq!(try_find(&whole(-1234), &[key("size")]).unwrap().into_owned(), whole(5));
    assert_eq!(try_find(&Value::scalar(Scalar::Bool(true)), &[key("size")]).unwrap().into_owned(), whole(4));
    assert!(try_find(&text("hello"), &[key("first")]).is_none());
}

#[test]
fn nil_and_state_cannot_be_walked_into() {
    assert!(try_find(&Value::Nil, &[key("size")]).is_none());
    assert!(try_find(&Value::State(liquid_values::State::Empty), &[key("size")]).is_none());
}

#[test]
fn find_turns_absence_into_nil() {
    let root = letters();
    let path = [key("missing"), key("size")];
    assert!(try_find(&root, &path).is_none());
    let found = find(&root, &path).unwrap();
    assert!(found.is_nil());
    assert_eq!(found.into_owned(), Value::Nil);
}

#[test]
fn walk_continues_from_each_step() {
    let mut inner = Object::new();
    inner.insert("tags".to_string(), letters());
    let mut outer = Object::new();
    outer.insert("post".to_string(), Value::Object(inner));
    let root = Value::Object(outer);
    let path = [key("post"), key("tags"), key("last")];
    assert_eq!(try_find(&root, &path).unwrap().into_owned(), text("c"));
    let path = [key("post"), key("tags"), key("size"), key("size")];
    assert_eq!(try_find(&root, &path).unwrap().into_owned(), whole(1));
    let path = [key("post"), key("tags"), key("size"), key("first")];
    assert!(try_find(&root, &path).is_none());
}

#[test]
fn empty_path_lends_the_root() {
    let root = letters();
    match try_find(&root, &[]).unwrap() {
        ValueCow::Shared(handle) => assert!(std::ptr::eq(handle.as_view(), &root)),
        ValueCow::Owned(_) => panic!("the root was copied"),
    }
}

#[test]
fn step_lends_elements_and_owns_sizes() {
    let root = letters();
    match augmented_get(&root, &key("first")).unwrap() {
        ValueCow::Shared(handle) => {
            match &root {
                Value::Array(items) => assert!(std::ptr::eq(handle.as_view(), &items[0])),
                _ => unreachable!(),
            }
        }
        ValueCow::Owned(_) => panic!("the element was copied"),
    }
    assert!(matches!(augmented_get(&root, &key("size")), Some(ValueCow::Owned(_))));
}

#[test]
fn path_grows_and_shows_itself() {
    let mut path = Path::with_index("post");
    assert_eq!(path.len(), 1);
    path.reserve(4);
    path.push("tags".to_string());
    path.extend(vec![Scalar::Integer(0), key("size")]);
    assert_eq!(path.len(), 4);
    assert_eq!(path.as_slice().len(), 4);
    assert_eq!(path.to_string(), "post.tags.0.size");
    assert_eq!(Path::with_index(-7).to_string(), "-7");
    assert_eq!(Path::with_index(true).to_string(), "true");
    assert_eq!(Path::with_index(Scalar::new("x")).to_string(), "x");
}

#[test]
fn path_iter_walks_in_order() {
    let mut path = Path::with_index(key("a"));
    path.push(Scalar::Integer(1));
    let mut iter = path.iter();
    assert_eq!(iter.len(), 2);
    assert_eq!(iter.size_hint(), (2, Some(2)));
    assert_eq!(iter.next().unwrap().to_kstr(), "a");
    assert_eq!(iter.len(), 1);
    assert_eq!(iter.next().unwrap().to_kstr(), "1");
    assert!(iter.next().is_none());
    assert!(iter.next().is_none());
    assert_eq!(iter.count(), 0);
    assert_eq!(path.iter().count(), 2);
}

#[test]
fn path_resolves_through_its_slice() {
    let mut inner = Object::new();
    inner.insert("tags".to_string(), letters());
    let root = Value::Object(inner);
    let mut path = Path::with_index(key("tags"));
    path.push(key("first"));
    assert_eq!(find(&root, path.as_slice()).unwrap().into_owned(), text("a"));
}

#[test]
fn paths_compare_segment_by_segment() {
    let mut a = Path::with_index("post");
    a.push(1);
    let mut b = Path::with_index("post");
    b.push(1);
    assert_eq!(a, b);
    assert_eq!(a.clone(), a);
    b.push("x");
    assert!(a != b);
    assert!(Path::with_index("1") != Path::with_index(1));
}

struct Basket {
    items: Vec<Value>,
}

impl ValueView for Basket {
    fn render(&self) -> String {
        self.items.iter().map(|v| v.render()).collect()
    }

    fn source(&self) -> String {
        self.to_value().source()
    }

    fn kind_name(&self) -> &'static str {
        "array"
    }

    fn query_state(&self, state: liquid_values::State) -> bool {
        self.to_value().query_state(state)
    }

    fn to_kstr(&self) -> String {
        self.render()
    }

    fn to_value(&self) -> Value {
        Value::array(self.items.clone())
    }

    fn as_scalar(&self) -> Option<&Scalar> {
        None
    }

    fn as_array(&self) -> Option<&Vec<Value>> {
        Some(&self.items)
    }

    fn as_object(&self) -> Option<&Object> {
        None
    }

    fn as_state(&self) -> Option<liquid_values::State> {
        None
    }

    fn is_nil(&self) -> bool {
        false
    }
}

#[test]
fn a_view_of_ones_own_can_be_walked_and_shared() {
    let basket = Basket { items: vec![text("a"), letters()] };
    assert_eq!(try_find(&basket, &[key("size")]).unwrap().into_owned(), whole(2));
    assert_eq!(find(&basket, &[key("last"), key("first")]).unwrap().into_owned(), text("a"));
    match try_find(&basket, &[Scalar::Integer(0)]).unwrap() {
        ValueCow::Shared(handle) => match &*handle {
            liquid_values::Held::Lent(v) => assert!(std::ptr::eq(*v, &basket.items[0])),
            _ => panic!("the element was not lent"),
        },
        ValueCow::Owned(_) => panic!("the element was copied"),
    };
    match try_find(&basket, &[]).unwrap() {
        ValueCow::Shared(handle) => match &*handle {
            liquid_values::Held::View(v) => assert!(std::ptr::eq(*v, &basket)),
            _ => panic!("the root was not shared as it is"),
        },
        ValueCow::Owned(_) => panic!("the root was copied"),
    };
    let shared = liquid_values::SharedValueView::from_view(&basket);
    assert_eq!(shared.render(), "aabc");
    assert_eq!(shared.clone().into_owned(), basket.to_value());
    let cow = ValueCow::viewing(&basket);
    assert!(cow == basket.to_value());
    assert!(cow == ValueCow::viewing(&basket));
    assert!(shared == liquid_values::SharedValueView::from_view(&basket));
    assert!(cow != 3i64);
    assert!(liquid_values::views_equal(&basket, &basket.to_value()));
    assert_eq!(
        liquid_values::views_order(&basket, &Value::array(vec![text("b")])),
        Some(liquid_values::Order::Less)
    );
    assert_eq!(cow.source(), "[\"a\", [\"a\", \"b\", \"c\"]]");
    assert_eq!(cow.as_array().unwrap().len(), 2);
    assert_eq!(cow.into_owned(), basket.to_value());
}

#[test]
fn a_wrapper_can_be_the_root_of_a_walk() {
    let source = letters();
    let cow = ValueCow::from(&source);
    assert_eq!(try_find(&cow, &[key("last")]).unwrap().into_owned(), text("c"));
    assert_eq!(find(&cow, &[key("none")]).unwrap().into_owned(), Value::Nil);
}
