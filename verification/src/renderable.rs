//! The nodes of a parsed template and how they render.

use vstd::prelude::*;
use vstd::utf8::{encode_utf8, encode_utf8_decode_utf8, encode_utf8_valid_utf8};
use crate::error::{Error, ErrorModel};
use crate::filter_chain::{Filter, FilterChain};
use crate::runtime::{Bindings, Expression, Scope};
use crate::text::string_from_utf8;
use crate::value::rendered;
use crate::view::ValueView;

verus! {

/// What a tag says of itself to tools.
pub trait TagReflection {
    fn tag(&self) -> &str;

    fn description(&self) -> &str;
}

/// What a block says of itself to tools.
pub trait BlockReflection {
    fn start_tag(&self) -> &str;

    fn end_tag(&self) -> &str;

    fn description(&self) -> &str;
}

/// Which kind of node a renderable is, with its immediate parts. It serves tools;
/// rendering never asks for it.
pub enum RenderableReflection<'a> {
    Block(&'a dyn BlockReflection),
    FilterChain { entry: &'a Expression, filters: &'a [Box<dyn Filter>] },
    Tag(Box<dyn TagReflection + 'a>),
    /// A nested template, with the number of its nodes.
    Template { children: usize },
    Text(&'a str),
}

/// A node of a parsed template. What it renders under given bindings is `text_in`.
/// A node is never changed once it is built, and threads may share it.
pub trait Renderable: Send + Sync {
    /// The text that the node renders, or the error that ends the render. An
    /// implementation states this; where it is left unsaid nothing is known of it.
    open spec fn text_in(&self, bindings: Bindings) -> Result<Seq<char>, ErrorModel> {
        arbitrary()
    }

    /// The text that the node has written when its render ends in an error. An
    /// implementation states this; where it is left unsaid nothing is known of it.
    open spec fn partial_in(&self, bindings: Bindings) -> Seq<char> {
        arbitrary()
    }

    /// Appends the rendered text to `writer` as UTF-8. On an error what was
    /// written before it stays written: that is `partial_in`, and nothing else.
    fn render_to(&self, writer: &mut Vec<u8>, runtime: &Scope<'_>) -> (out: Result<(), Error>)
        ensures
            match self.text_in(runtime.bindings()) {
                Ok(t) => out is Ok && final(writer)@ == old(writer)@ + encode_utf8(t),
                Err(e) => out matches Err(x) && x@ == e && final(writer)@ == old(writer)@
                    + encode_utf8(self.partial_in(runtime.bindings())),
            },
    ;

    /// The rendered text as a string.
    fn render(&self, runtime: &Scope<'_>) -> (out: Result<String, Error>)
        ensures
            match self.text_in(runtime.bindings()) {
                Ok(t) => out matches Ok(s) && s@ == t,
                Err(e) => out matches Err(x) && x@ == e,
            },
    {
        let mut data: Vec<u8> = Vec::new();
        match self.render_to(&mut data, runtime) {
            Ok(()) => {
                proof {
                    let t = self.text_in(runtime.bindings())->Ok_0;
                    assert(data@ =~= encode_utf8(t));
                    encode_utf8_valid_utf8(t);
                    encode_utf8_decode_utf8(t);
                }
                match string_from_utf8(data) {
                    Some(s) => Ok(s),
                    None => vstd::pervasive::unreached(),
                }
            },
            Err(e) => Err(e),
        }
    }

    /// The kind of the node and its parts.
    fn reflection(&self) -> RenderableReflection<'_>;
}

/// Literal text of a template.
#[derive(Debug)]
pub struct Text {
    text: String,
}

impl Text {
    /// The node that renders `text` as it is.
    pub fn new(text: &str) -> (out: Text)
        ensures
            out@ == text@,
    {
        Text { text: text.to_owned() }
    }
}

impl View for Text {
    type V = Seq<char>;

    closed spec fn view(&self) -> Seq<char> {
        self.text@
    }
}

impl Clone for Text {
    fn clone(&self) -> (out: Text)
        ensures
            out@ == self@,
    {
        Text { text: self.text.clone() }
    }
}

impl PartialEq for Text {
    fn eq(&self, other: &Self) -> (out: bool) {
        self.text == other.text
    }
}

impl vstd::std_specs::cmp::PartialEqSpecImpl for Text {
    open spec fn obeys_eq_spec() -> bool {
        true
    }

    open spec fn eq_spec(&self, other: &Self) -> bool {
        self@ == other@
    }
}

impl Eq for Text {

}

fn write_text(writer: &mut Vec<u8>, text: &str)
    ensures
        final(writer)@ == old(writer)@ + encode_utf8(text@),
{
    writer.extend_from_slice(text.as_bytes());
    assert(writer@ =~= old(writer)@ + encode_utf8(text@));
}

impl Renderable for Text {
    open spec fn text_in(&self, bindings: Bindings) -> Result<Seq<char>, ErrorModel> {
        Ok(self@)
    }

    open spec fn partial_in(&self, bindings: Bindings) -> Seq<char> {
        Seq::empty()
    }

    fn render_to(&self, writer: &mut Vec<u8>, runtime: &Scope<'_>) -> (out: Result<(), Error>) {
        write_text(writer, self.text.as_str());
        Ok(())
    }

    fn reflection(&self) -> (out: RenderableReflection<'_>)
        ensures
            out matches RenderableReflection::Text(t) && t@ == self@,
    {
        RenderableReflection::Text(self.text.as_str())
    }
}

impl Renderable for FilterChain {
    open spec fn text_in(&self, bindings: Bindings) -> Result<Seq<char>, ErrorModel> {
        match self.value_in(bindings) {
            Ok(m) => Ok(rendered(m)),
            Err(e) => Err(e),
        }
    }

    /// A chain writes nothing unless its evaluation succeeds.
    open spec fn partial_in(&self, bindings: Bindings) -> Seq<char> {
        Seq::empty()
    }

    fn render_to(&self, writer: &mut Vec<u8>, runtime: &Scope<'_>) -> (out: Result<(), Error>)
        ensures
            self.value_in(runtime.bindings()) is Err ==> final(writer)@ == old(writer)@,
    {
        let entry = match self.evaluate(runtime) {
            Ok(entry) => entry,
            Err(e) => {
                proof {
                    assert(encode_utf8(Seq::<char>::empty()) =~= Seq::<u8>::empty());
                    assert(writer@ =~= old(writer)@ + encode_utf8(
                        self.partial_in(runtime.bindings()),
                    ));
                }
                return Err(e);
            },
        };
        let text = entry.render();
        write_text(writer, text.as_str());
        Ok(())
    }

    fn reflection(&self) -> (out: RenderableReflection<'_>)
        ensures
            out matches RenderableReflection::FilterChain { entry, filters } && *entry
                == self.entry() && filters@ == self.filters(),
    {
        self.parts()
    }
}

/// The texts of the nodes from position `from` on, one after another; the first
/// error among them if there is one.
pub open spec fn texts_in(elements: Seq<Box<dyn Renderable>>, bindings: Bindings, from: int) -> Result<
    Seq<char>,
    ErrorModel,
>
    decreases elements.len() - from,
{
    if 0 <= from < elements.len() {
        match elements[from].text_in(bindings) {
            Ok(t) => match texts_in(elements, bindings, from + 1) {
                Ok(rest) => Ok(t + rest),
                Err(e) => Err(e),
            },
            Err(e) => Err(e),
        }
    } else {
        Ok(Seq::empty())
    }
}

/// What the nodes from position `from` on have written when one of them fails:
/// the texts of those before the first that fails, and what that one wrote itself.
pub open spec fn partials_in(elements: Seq<Box<dyn Renderable>>, bindings: Bindings, from: int) -> Seq<
    char,
>
    decreases elements.len() - from,
{
    if 0 <= from < elements.len() {
        match elements[from].text_in(bindings) {
            Ok(t) => t + partials_in(elements, bindings, from + 1),
            Err(_) => elements[from].partial_in(bindings),
        }
    } else {
        Seq::empty()
    }
}

/// A sequence of nodes that render one after another.
pub struct Template {
    elements: Vec<Box<dyn Renderable>>,
}

impl Template {
    /// The template of `elements`, in order.
    pub fn new(elements: Vec<Box<dyn Renderable>>) -> (out: Template)
        ensures
            out.elements() == elements@,
    {
        Template { elements }
    }

    /// The nodes, in the order in which they render.
    pub closed spec fn elements(&self) -> Seq<Box<dyn Renderable>> {
        self.elements@
    }

    /// The nodes, for tools that inspect a template.
    pub fn nodes(&self) -> (out: &[Box<dyn Renderable>])
        ensures
            out@ == self.elements(),
    {
        self.elements.as_slice()
    }
}

proof fn lemma_encode_concat(a: Seq<char>, b: Seq<char>)
    ensures
        encode_utf8(a + b) == encode_utf8(a) + encode_utf8(b),
    decreases a.len(),
{
    if a.len() == 0 {
        assert(a + b =~= b);
        assert(encode_utf8(a) =~= Seq::<u8>::empty());
        assert(encode_utf8(a) + encode_utf8(b) =~= encode_utf8(b));
    } else {
        lemma_encode_concat(a.drop_first(), b);
        assert((a + b).drop_first() =~= a.drop_first() + b);
        assert((a + b)[0] == a[0]);
        assert(encode_utf8(a + b) =~= encode_utf8(a) + encode_utf8(b));
    }
}

impl Renderable for Template {
    open spec fn text_in(&self, bindings: Bindings) -> Result<Seq<char>, ErrorModel> {
        texts_in(self.elements(), bindings, 0)
    }

    open spec fn partial_in(&self, bindings: Bindings) -> Seq<char> {
        partials_in(self.elements(), bindings, 0)
    }

    fn render_to(&self, writer: &mut Vec<u8>, runtime: &Scope<'_>) -> (out: Result<(), Error>) {
        let ghost b = runtime.bindings();
        let ghost mut done: Seq<char> = Seq::empty();
        let mut i: usize = 0;
        proof {
            assert(encode_utf8(done) =~= Seq::<u8>::empty());
            assert(writer@ =~= old(writer)@ + encode_utf8(done));
            assert(done + partials_in(self.elements@, b, 0) =~= partials_in(self.elements@, b, 0));
        }
        while i < self.elements.len()
            invariant
                i <= self.elements.len(),
                b == runtime.bindings(),
                writer@ == old(writer)@ + encode_utf8(done),
                self.text_in(b) == match texts_in(self.elements@, b, i as int) {
                    Ok(rest) => Ok::<Seq<char>, ErrorModel>(done + rest),
                    Err(e) => Err(e),
                },
                self.partial_in(b) == done + partials_in(self.elements@, b, i as int),
            decreases self.elements.len() - i,
        {
            let ghost before = writer@;
            match self.elements[i].render_to(writer, runtime) {
                Ok(()) => {
                    proof {
                        let t = self.elements@[i as int].text_in(b)->Ok_0;
                        lemma_encode_concat(done, t);
                        match texts_in(self.elements@, b, i + 1) {
                            Ok(rest) => {
                                assert(done + (t + rest) =~= (done + t) + rest);
                            },
                            Err(_) => {},
                        }
                        assert(done + (t + partials_in(self.elements@, b, i + 1)) =~= (done + t)
                            + partials_in(self.elements@, b, i + 1));
                        done = done + t;
                        assert(writer@ =~= old(writer)@ + encode_utf8(done));
                    }
                },
                Err(e) => {
                    proof {
                        let p = self.elements@[i as int].partial_in(b);
                        lemma_encode_concat(done, p);
                        assert(writer@ =~= old(writer)@ + encode_utf8(done + p));
                    }
                    return Err(e);
                },
            }
            i += 1;
        }
        proof {
            assert(done + Seq::<char>::empty() =~= done);
        }
        Ok(())
    }

    fn reflection(&self) -> (out: RenderableReflection<'_>)
        ensures
            out matches RenderableReflection::Template { children } && children
                == self.elements().len(),
    {
        RenderableReflection::Template { children: self.elements.len() }
    }
}

} // verus!
