use liquid_values::{
    Error, Filter, Runtime, Scalar, Scope, SharedValueView, UrlDecode, UrlEncode, Value, ValueCow,
    ValueView,
};

struct NoVariables;

impl Runtime for NoVariables {
    fn get<'s>(&'s self, _path: &[Scalar]) -> Result<ValueCow<'s>, Error> {
        Err(Error::with_msg("Unknown variable"))
    }
}

fn call(filter: &dyn Filter, input: Value) -> Result<Value, Error> {
    let store = NoVariables;
    let scope = Scope { store: &store };
    filter
        .evaluate(SharedValueView::from_value(input), &scope)
        .map(|v| v.to_value())
}

fn text(s: &str) -> Value {
    Value::scalar(Scalar::new(s))
}

#[test]
fn unit_url_encode() {
    assert_eq!(call(&UrlEncode, text("foo bar")).unwrap(), text("foo%20bar"));
    assert_eq!(
        call(&UrlEncode, text("foo+1@example.com")).unwrap(),
        text("foo%2B1%40example.com")
    );
}

#[test]
fn unit_url_decode() {
    assert_eq!(call(&UrlDecode, text("foo%20bar")).unwrap(), text("foo bar"));
    assert_eq!(
        call(&UrlDecode, text("foo%2B1%40example.com")).unwrap(),
        text("foo+1@example.com")
    );
}

#[test]
fn url_encode_keeps_unreserved_bytes() {
    assert_eq!(
        call(&UrlEncode, text("Az09-._~/")).unwrap(),
        text("Az09-._%7E%2F")
    );
    assert_eq!(call(&UrlEncode, text("")).unwrap(), text(""));
}

#[test]
fn url_encode_encodes_each_utf8_byte() {
    assert_eq!(call(&UrlEncode, text("\u{e9}")).unwrap(), text("%C3%A9"));
    assert_eq!(call(&UrlEncode, text("\u{1f496}")).unwrap(), text("%F0%9F%92%96"));
}

#[test]
fn url_encode_takes_the_text_of_any_value() {
    assert_eq!(call(&UrlEncode, Value::scalar(Scalar::Integer(-5))).unwrap(), text("-5"));
    assert_eq!(
        call(&UrlEncode, Value::array(vec![text("a b"), text("c")])).unwrap(),
        text("a%20bc")
    );
}

#[test]
fn url_filters_pass_nil_through() {
    assert_eq!(call(&UrlEncode, Value::Nil).unwrap(), Value::Nil);
    assert_eq!(call(&UrlDecode, Value::Nil).unwrap(), Value::Nil);
}

#[test]
fn url_decode_turns_plus_into_space() {
    assert_eq!(call(&UrlDecode, text("foo+bar")).unwrap(), text("foo bar"));
}

#[test]
fn url_decode_leaves_broken_triplets() {
    assert_eq!(call(&UrlDecode, text("100%")).unwrap(), text("100%"));
    assert_eq!(call(&UrlDecode, text("%zz%4")).unwrap(), text("%zz%4"));
    assert_eq!(call(&UrlDecode, text("%41%4a%4A")).unwrap(), text("AJJ"));
    assert_eq!(call(&UrlDecode, text("%C3%A9")).unwrap(), text("\u{e9}"));
}

#[test]
fn url_decode_rejects_malformed_utf8() {
    let err = call(&UrlDecode, text("%00%9F%92%96")).unwrap_err();
    assert_eq!(err.msg(), "Invalid input");
    let frames = err.frames();
    assert_eq!(frames.len(), 1);
    assert_eq!(frames[0].label, None);
    assert_eq!(
        frames[0].context,
        vec![("cause".to_string(), "Malformed UTF-8".to_string())]
    );
}

#[test]
fn url_round_trip() {
    let plain = text("caf\u{e9} & cr\u{e8}me: 100%");
    let encoded = call(&UrlEncode, plain.clone()).unwrap();
    assert_eq!(call(&UrlDecode, encoded).unwrap(), plain);
}

#[test]
fn url_filters_name_themselves() {
    assert_eq!(Filter::to_string(&UrlEncode), "url_encode");
    assert_eq!(Filter::to_string(&UrlDecode), "url_decode");
}
