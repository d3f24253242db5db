//! The error of a render: a message and the trail of context gathered on the way out.

use vstd::prelude::*;
use vstd::string::StringExecFns;

verus! {

/// One step of the trail, mathematically.
pub struct TraceModel {
    pub label: Option<Seq<char>>,
    pub context: Seq<(Seq<char>, Seq<char>)>,
}

/// An error, mathematically.
pub struct ErrorModel {
    pub msg: Seq<char>,
    pub frames: Seq<TraceModel>,
}

/// One step of the trail: what was going on, and the key/value pairs noted there,
/// in the order in which they were noted.
#[derive(Debug)]
pub struct Trace {
    pub label: Option<String>,
    pub context: Vec<(String, String)>,
}

/// An error with its trail. The trail always has at least one step; context is
/// noted on the last one.
#[derive(Debug)]
pub struct Error {
    msg: String,
    frames: Vec<Trace>,
}

/// The pairs of `context` as texts.
pub open spec fn context_model(context: Seq<(String, String)>) -> Seq<(Seq<char>, Seq<char>)> {
    Seq::new(context.len(), |i: int| (context[i].0@, context[i].1@))
}

impl View for Trace {
    type V = TraceModel;

    open spec fn view(&self) -> TraceModel {
        TraceModel {
            label: match self.label {
                Some(l) => Some(l@),
                None => None,
            },
            context: context_model(self.context@),
        }
    }
}

impl View for Error {
    type V = ErrorModel;

    closed spec fn view(&self) -> ErrorModel {
        ErrorModel { msg: self.msg@, frames: Seq::new(self.frames.len() as nat, |i: int| self.frames[i]@) }
    }
}

/// The trail after a new step labelled `label` has been opened at its end.
pub open spec fn traced(e: ErrorModel, label: Seq<char>) -> ErrorModel {
    ErrorModel {
        msg: e.msg,
        frames: e.frames.push(TraceModel { label: Some(label), context: Seq::empty() }),
    }
}

/// The trail after `key` and `value` have been noted on its last step.
pub open spec fn noted(e: ErrorModel, key: Seq<char>, value: Seq<char>) -> ErrorModel {
    ErrorModel {
        msg: e.msg,
        frames: e.frames.update(
            e.frames.len() - 1,
            TraceModel {
                label: e.frames.last().label,
                context: e.frames.last().context.push((key, value)),
            },
        ),
    }
}

/// The noted pairs as lines: four spaces, the key, an equals sign, the value.
pub open spec fn context_text(context: Seq<(Seq<char>, Seq<char>)>) -> Seq<char>
    decreases context.len(),
{
    if context.len() == 0 {
        Seq::empty()
    } else {
        context_text(context.drop_last()) + "    "@ + context.last().0 + "="@ + context.last().1
            + "\n"@
    }
}

/// One step of the trail as text: a line `from:` with the label if there is one,
/// a line `with:` if anything was noted, and the noted pairs.
pub open spec fn frame_text(frame: TraceModel) -> Seq<char> {
    (match frame.label {
        Some(label) => "from: "@ + label + "\n"@,
        None => Seq::empty(),
    }) + (if frame.context.len() > 0 {
        "  with:\n"@
    } else {
        Seq::empty()
    }) + context_text(frame.context)
}

/// The steps of the trail as text, oldest first.
pub open spec fn frames_text(frames: Seq<TraceModel>) -> Seq<char>
    decreases frames.len(),
{
    if frames.len() == 0 {
        Seq::empty()
    } else {
        frames_text(frames.drop_last()) + frame_text(frames.last())
    }
}

/// An error as a reader sees it: a title line with the message, then the trail.
pub open spec fn error_text(e: ErrorModel) -> Seq<char> {
    "liquid: "@ + e.msg + "\n"@ + frames_text(e.frames)
}

impl Trace {
    /// Appends the step to `out` as text.
    pub fn write_to(&self, out: &mut String)
        ensures
            final(out)@ == old(out)@ + frame_text(self@),
    {
        let ghost start = out@;
        match &self.label {
            Some(label) => {
                out.append("from: ");
                out.append(label.as_str());
                out.append("\n");
            },
            None => {},
        }
        if self.context.len() > 0 {
            out.append("  with:\n");
        }
        let ghost head = out@;
        let ghost pairs = self@.context;
        let mut i: usize = 0;
        assert(head + context_text(pairs.take(0)) =~= head);
        while i < self.context.len()
            invariant
                i <= self.context.len(),
                pairs == self@.context,
                out@ == head + context_text(pairs.take(i as int)),
            decreases self.context.len() - i,
        {
            proof {
                assert(pairs.take(i + 1).drop_last() == pairs.take(i as int));
            }
            out.append("    ");
            out.append(self.context[i].0.as_str());
            out.append("=");
            out.append(self.context[i].1.as_str());
            out.append("\n");
            assert(out@ =~= head + context_text(pairs.take(i + 1)));
            i += 1;
        }
        assert(pairs.take(i as int) == pairs);
        assert(out@ =~= start + frame_text(self@));
    }
}

impl Error {
    #[verifier::type_invariant]
    spec fn has_frame(&self) -> bool {
        self.frames.len() >= 1
    }

    /// An error with the message `msg` and a trail of one step without label or context.
    pub fn with_msg(msg: &str) -> (out: Error)
        ensures
            out@ == (ErrorModel {
                msg: msg@,
                frames: seq![TraceModel { label: None, context: Seq::empty() }],
            }),
    {
        let mut frames: Vec<Trace> = Vec::new();
        frames.push(Trace { label: None, context: Vec::new() });
        let out = Error { msg: String::from_str(msg), frames };
        assert(out@.frames =~= seq![TraceModel { label: None, context: Seq::empty() }]) by {
            assert(out@.frames[0].context =~= Seq::empty());
        }
        out
    }

    /// The same error with a new step labelled `label` opened at the end of the trail.
    pub fn trace(self, label: &str) -> (out: Error)
        ensures
            out@ == traced(self@, label@),
    {
        let Error { msg, frames } = self;
        let mut frames = frames;
        frames.push(Trace { label: Some(String::from_str(label)), context: Vec::new() });
        let out = Error { msg, frames };
        assert(out@.frames =~= traced(self@, label@).frames) by {
            assert(out@.frames.last().context =~= Seq::empty());
        }
        out
    }

    /// The same error with `key` and `value` noted on the last step of the trail.
    pub fn context(self, key: &str, value: &str) -> (out: Error)
        ensures
            out@ == noted(self@, key@, value@),
    {
        proof {
            use_type_invariant(&self);
        }
        let Error { msg, frames } = self;
        let mut frames = frames;
        let Trace { label, context } = frames.remove(frames.len() - 1);
        let mut context = context;
        context.push((String::from_str(key), String::from_str(value)));
        frames.push(Trace { label, context });
        let out = Error { msg, frames };
        assert(out@.frames =~= noted(self@, key@, value@).frames) by {
            assert(out@.frames.last().context =~= self@.frames.last().context.push((key@, value@)));
        }
        out
    }

    /// The error as a reader sees it.
    pub fn to_string(&self) -> (out: String)
        ensures
            out@ == error_text(self@),
    {
        let mut out = String::new();
        out.append("liquid: ");
        out.append(self.msg.as_str());
        out.append("\n");
        let ghost head = out@;
        let ghost frames = self@.frames;
        let mut i: usize = 0;
        assert(head + frames_text(frames.take(0)) =~= head);
        while i < self.frames.len()
            invariant
                i <= self.frames.len(),
                frames == self@.frames,
                out@ == head + frames_text(frames.take(i as int)),
            decreases self.frames.len() - i,
        {
            proof {
                assert(frames.take(i + 1).drop_last() == frames.take(i as int));
            }
            self.frames[i].write_to(&mut out);
            assert(out@ =~= head + frames_text(frames.take(i + 1)));
            i += 1;
        }
        assert(frames.take(i as int) == frames);
        assert(out@ =~= error_text(self@));
        out
    }

    /// The message.
    pub fn msg(&self) -> (out: &str)
        ensures
            out@ == self@.msg,
    {
        self.msg.as_str()
    }

    /// The trail, oldest step first. It is never empty.
    pub fn frames(&self) -> (out: &Vec<Trace>)
        ensures
            out@.len() == self@.frames.len(),
            out@.len() >= 1,
            forall|i: int| 0 <= i < out@.len() ==> (#[trigger] out@[i])@ == self@.frames[i],
    {
        proof {
            use_type_invariant(self);
        }
        &self.frames
    }
}

} // verus!
