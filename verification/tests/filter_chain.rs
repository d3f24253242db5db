use liquid_values::{
    annotate, Date, DatePlan, Error, Expression, Filter, FilterChain, Object, Path, Renderable,
    RenderableReflection, Runtime, Scalar, Scope, SharedValueView, Template, Text, UrlEncode,
    Value, ValueCow, ValueView,
};
use std::sync::atomic::{AtomicU32, Ordering};
use std::sync::Arc;

struct Exclaim;

impl Filter for Exclaim {
    fn to_string(&self) -> String {
        "exclaim".to_string()
    }

    fn evaluate<'s>(
        &'s self,
        input: SharedValueView<'s>,
        _runtime: &'s Scope<'_>,
    ) -> Result<SharedValueView<'s>, Error> {
        let mut text = input.to_kstr();
        text.push('!');
        Ok(SharedValueView::from_value(Value::scalar(Scalar::Str(text))))
    }
}

struct Fail;

impl Filter for Fail {
    fn to_string(&self) -> String {
        "fail: 1".to_string()
    }

    fn evaluate<'s>(
        &'s self,
        _input: SharedValueView<'s>,
        _runtime: &'s Scope<'_>,
    ) -> Result<SharedValueView<'s>, Error> {
        Err(Error::with_msg("Invalid input"))
    }
}

struct Counted {
    calls: Arc<AtomicU32>,
}

impl Filter for Counted {
    fn to_string(&self) -> String {
        "counted".to_string()
    }

    fn evaluate<'s>(
        &'s self,
        input: SharedValueView<'s>,
        _runtime: &'s Scope<'_>,
    ) -> Result<SharedValueView<'s>, Error> {
        self.calls.fetch_add(1, Ordering::SeqCst);
        Ok(input)
    }
}

struct Plus(i64);

impl Filter for Plus {
    fn to_string(&self) -> String {
        format!("plus: {}", self.0)
    }

    fn evaluate<'s>(
        &'s self,
        input: SharedValueView<'s>,
        _runtime: &'s Scope<'_>,
    ) -> Result<SharedValueView<'s>, Error> {
        match input.as_scalar().and_then(|s| s.to_integer_strict()) {
            Some(n) => Ok(SharedValueView::from_value(Value::scalar(Scalar::Integer(n + self.0)))),
            None => Err(Error::with_msg("Invalid input")),
        }
    }
}

struct Broken;

impl Runtime for Broken {
    fn get<'s>(&'s self, _path: &[Scalar]) -> Result<ValueCow<'s>, Error> {
        Err(Error::with_msg("Unknown variable"))
    }
}

fn text(s: &str) -> Value {
    Value::scalar(Scalar::new(s))
}

fn numbers() -> Value {
    let mut fields = Object::new();
    fields.insert(
        "items".to_string(),
        Value::array(vec![
            Value::scalar(Scalar::Integer(1)),
            Value::scalar(Scalar::Integer(2)),
            Value::scalar(Scalar::Integer(3)),
        ]),
    );
    Value::Object(fields)
}

fn variable(segments: &[&str]) -> Expression {
    let mut path = Path::with_index(Scalar::new(segments[0]));
    for s in &segments[1..] {
        path.push(Scalar::new(s));
    }
    Expression::Variable(path)
}

#[test]
fn chain_without_filters_is_its_entry() {
    let root = Value::Nil;
    let scope = Scope { store: &root };
    let chain = FilterChain::new(Expression::Literal(text("x")), vec![]);
    assert_eq!(chain.evaluate(&scope).unwrap().to_value(), text("x"));
}

#[test]
fn chain_applies_filters_left_to_right() {
    let root = Value::Nil;
    let scope = Scope { store: &root };
    let chain = FilterChain::new(
        Expression::Literal(text("a b")),
        vec![Box::new(Exclaim), Box::new(UrlEncode)],
    );
    assert_eq!(chain.evaluate(&scope).unwrap().to_value(), text("a%20b%21"));
    let chain = FilterChain::new(
        Expression::Literal(text("a b")),
        vec![Box::new(UrlEncode), Box::new(Exclaim)],
    );
    assert_eq!(chain.evaluate(&scope).unwrap().to_value(), text("a%20b!"));
}

#[test]
fn chain_stops_at_first_failure_and_says_where() {
    let root = Value::Nil;
    let scope = Scope { store: &root };
    let calls = Arc::new(AtomicU32::new(0));
    let chain = FilterChain::new(
        Expression::Literal(text("x")),
        vec![
            Box::new(Exclaim),
            Box::new(Fail),
            Box::new(Counted { calls: calls.clone() }),
        ],
    );
    let err = chain.evaluate(&scope).err().unwrap();
    assert_eq!(calls.load(Ordering::SeqCst), 0);
    assert_eq!(err.msg(), "Invalid input");
    let frames = err.frames();
    assert_eq!(frames.len(), 2);
    assert_eq!(frames[0].label, None);
    assert!(frames[0].context.is_empty());
    assert_eq!(frames[1].label.as_deref(), Some("Filter error"));
    assert_eq!(
        frames[1].context,
        vec![
            ("filter".to_string(), "fail: 1".to_string()),
            ("input".to_string(), "\"x!\"".to_string()),
        ]
    );
}

#[test]
fn chain_runs_every_filter_that_is_reached() {
    let root = Value::Nil;
    let scope = Scope { store: &root };
    let calls = Arc::new(AtomicU32::new(0));
    let chain = FilterChain::new(
        Expression::Literal(text("x")),
        vec![
            Box::new(Counted { calls: calls.clone() }),
            Box::new(Counted { calls: calls.clone() }),
        ],
    );
    assert_eq!(chain.evaluate(&scope).unwrap().to_value(), text("x"));
    assert_eq!(calls.load(Ordering::SeqCst), 2);
    assert_eq!(chain.evaluate(&scope).unwrap().to_value(), text("x"));
    assert_eq!(calls.load(Ordering::SeqCst), 4);
}

#[test]
fn chain_passes_the_entry_failure_on_untouched() {
    let store = Broken;
    let scope = Scope { store: &store };
    let calls = Arc::new(AtomicU32::new(0));
    let chain = FilterChain::new(
        variable(&["user"]),
        vec![Box::new(Counted { calls: calls.clone() })],
    );
    let err = chain.evaluate(&scope).err().unwrap();
    assert_eq!(calls.load(Ordering::SeqCst), 0);
    assert_eq!(err.msg(), "Unknown variable");
    assert_eq!(err.frames().len(), 1);
}

#[test]
fn size_then_plus_one_renders_four() {
    let root = numbers();
    let scope = Scope { store: &root };
    let chain = FilterChain::new(variable(&["items", "size"]), vec![Box::new(Plus(1))]);
    assert_eq!(
        chain.evaluate(&scope).unwrap().to_value(),
        Value::scalar(Scalar::Integer(4))
    );
    assert_eq!(chain.render(&scope).unwrap(), "4");
    let mut out = b"n=".to_vec();
    chain.render_to(&mut out, &scope).unwrap();
    assert_eq!(out, b"n=4");
}

#[test]
fn missing_variable_renders_as_nothing() {
    let root = numbers();
    let scope = Scope { store: &root };
    let chain = FilterChain::new(variable(&["nobody", "home"]), vec![]);
    assert!(chain.evaluate(&scope).unwrap().is_nil());
    assert_eq!(chain.render(&scope).unwrap(), "");
}

#[test]
fn chain_shows_itself_with_bars() {
    let chain = FilterChain::new(
        variable(&["items", "size"]),
        vec![Box::new(Plus(1)), Box::new(UrlEncode)],
    );
    assert_eq!(chain.to_string(), "items.size | plus: 1 | url_encode");
    let chain = FilterChain::new(Expression::Literal(text("x")), vec![Box::new(Exclaim)]);
    assert_eq!(chain.to_string(), "\"x\" | exclaim");
    let chain = FilterChain::new(Expression::Literal(Value::Nil), vec![]);
    assert_eq!(chain.to_string(), "nil | ");
}

#[test]
fn annotate_opens_a_step_and_notes_filter_then_input() {
    let err = annotate(Error::with_msg("boom").context("cause", "test"), "upcase", "\"a\"");
    assert_eq!(err.msg(), "boom");
    let frames = err.frames();
    assert_eq!(frames.len(), 2);
    assert_eq!(
        frames[0].context,
        vec![("cause".to_string(), "test".to_string())]
    );
    assert_eq!(frames[1].label.as_deref(), Some("Filter error"));
    assert_eq!(
        frames[1].context,
        vec![
            ("filter".to_string(), "upcase".to_string()),
            ("input".to_string(), "\"a\"".to_string()),
        ]
    );
}

#[test]
fn nested_chains_leave_a_trail_outermost_last() {
    let inner = annotate(Error::with_msg("boom"), "inner", "1");
    let outer = annotate(inner, "outer", "2");
    let labels: Vec<Option<&str>> = outer.frames().iter().map(|f| f.label.as_deref()).collect();
    assert_eq!(labels, vec![None, Some("Filter error"), Some("Filter error")]);
    assert_eq!(outer.frames()[1].context[0].1, "inner");
    assert_eq!(outer.frames()[2].context[0].1, "outer");
}

#[test]
fn text_renders_as_it_is() {
    let root = Value::Nil;
    let scope = Scope { store: &root };
    let node = Text::new("caf\u{e9} {{ raw }}");
    assert_eq!(node.render(&scope).unwrap(), "caf\u{e9} {{ raw }}");
    let mut out = Vec::new();
    node.render_to(&mut out, &scope).unwrap();
    assert_eq!(out, "caf\u{e9} {{ raw }}".as_bytes());
    assert!(matches!(node.reflection(), RenderableReflection::Text("caf\u{e9} {{ raw }}")));
}

#[test]
fn chain_reflects_its_parts() {
    let chain = FilterChain::new(
        Expression::Literal(text("x")),
        vec![Box::new(Exclaim), Box::new(UrlEncode)],
    );
    match chain.reflection() {
        RenderableReflection::FilterChain { entry, filters } => {
            assert_eq!(entry.to_string(), "\"x\"");
            assert_eq!(filters.len(), 2);
            assert_eq!(filters[1].to_string(), "url_encode");
        }
        _ => panic!("a chain reflects as a chain"),
    };
}

#[test]
fn template_renders_nodes_in_order() {
    let root = numbers();
    let scope = Scope { store: &root };
    let template = Template::new(vec![
        Box::new(Text::new("count: ")),
        Box::new(FilterChain::new(variable(&["items", "size"]), vec![])),
        Box::new(Text::new(".")),
    ]);
    assert_eq!(template.render(&scope).unwrap(), "count: 3.");
    assert!(matches!(
        template.reflection(),
        RenderableReflection::Template { children: 3 }
    ));
    assert_eq!(template.nodes().len(), 3);
    assert!(matches!(template.nodes()[0].reflection(), RenderableReflection::Text("count: ")));
}

#[test]
fn template_keeps_what_was_written_before_a_failure() {
    let root = numbers();
    let scope = Scope { store: &root };
    let template = Template::new(vec![
        Box::new(Text::new("before ")),
        Box::new(FilterChain::new(variable(&["items"]), vec![Box::new(Fail)])),
        Box::new(Text::new(" after")),
    ]);
    let mut out = Vec::new();
    let err = template.render_to(&mut out, &scope).err().unwrap();
    assert_eq!(out, b"before ");
    assert_eq!(err.frames()[1].context[1].1, "[1, 2, 3]");
    assert_eq!(template.render(&scope).err().unwrap().msg(), "Invalid input");
}

#[test]
fn expression_literal_is_lent() {
    let root = Value::Nil;
    let scope = Scope { store: &root };
    let literal = Expression::Literal(text("x"));
    match literal.evaluate(&scope).unwrap() {
        ValueCow::Shared(handle) => match &literal {
            Expression::Literal(v) => assert!(std::ptr::eq(handle.as_view(), v)),
            _ => unreachable!(),
        },
        ValueCow::Owned(_) => panic!("the literal was copied"),
    };
}

#[test]
fn date_formats_only_points_in_time_with_a_format() {
    assert!(matches!(Date::plan(true, "%Y-%m-%d"), DatePlan::Format(f) if f == "%Y-%m-%d"));
    assert!(matches!(Date::plan(true, ""), DatePlan::Keep));
    assert!(matches!(Date::plan(false, "%Y-%m-%d"), DatePlan::Keep));
    assert!(matches!(Date::plan(false, ""), DatePlan::Keep));
}

#[test]
fn date_settles_the_calendars_answer() {
    assert_eq!(
        Date::settle("%Y-%m-%d", Some("2016-06-13".to_string())).unwrap(),
        text("2016-06-13")
    );
    let err = Date::settle("%Y %h %8", None).unwrap_err();
    assert_eq!(err.msg(), "Invalid date-format string: %Y %h %8");
    assert_eq!(err.frames().len(), 1);
}

#[test]
fn date_reads_its_format_from_the_runtime() {
    let mut fields = Object::new();
    fields.insert("fmt".to_string(), text("%Y"));
    let root = Value::Object(fields);
    let scope = Scope { store: &root };
    let date = Date::new(variable(&["fmt"]));
    assert_eq!(date.format_in(&scope).unwrap(), "%Y");
    assert_eq!(date.to_string(), "date: fmt");
    let date = Date::new(Expression::Literal(Value::scalar(Scalar::Integer(0))));
    assert_eq!(date.format_in(&scope).unwrap(), "0");
    assert_eq!(date.to_string(), "date: 0");
    let store = Broken;
    let scope = Scope { store: &store };
    let date = Date::new(variable(&["fmt"]));
    assert_eq!(date.format_in(&scope).unwrap_err().msg(), "Unknown variable");
}

fn shareable<Shared: Send + Sync>(_: &Shared) {}

#[test]
fn templates_and_chains_can_be_shared() {
    let chain = FilterChain::new(variable(&["items", "size"]), vec![Box::new(Plus(1))]);
    shareable(&chain);
    let template = Arc::new(Template::new(vec![Box::new(Text::new("n=")), Box::new(chain)]));
    shareable(&template);
    let other = template.clone();
    let root = numbers();
    let scope = Scope { store: &root };
    assert_eq!(template.render(&scope).unwrap(), "n=4");
    assert_eq!(other.render(&scope).unwrap(), "n=4");
}

#[test]
fn text_nodes_compare_and_copy() {
    let a = Text::new("x");
    let b = a.clone();
    assert_eq!(a, b);
    assert!(a != Text::new("y"));
}
