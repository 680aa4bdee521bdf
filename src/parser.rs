//! Reassembly of the model's streamed response into text, tool uses and a
//! complete assistant message.
use vstd::prelude::*;
use crate::json::{empty_object, json_accepts, parse_json};
use crate::model::{AssistantMessage, ToolUse, use_ids};
use crate::text::{last_boundary_at_most, split_at_boundary};
use vstd::utf8::encode_utf8;

verus! {

/// One event of the model's response stream.
pub enum StreamEvent {
    /// A fragment of assistant prose.
    AssistantResponse { content: String },
    /// A fragment of a tool use; `input` is the next piece of its JSON arguments.
    ToolUseEvent { tool_use_id: String, name: String, input: Option<String>, stop: Option<bool> },
    /// The server's id for the message being streamed.
    MessageMetadata { message_id: String },
}

/// What the parser hands to the session for each stream event.
pub enum ResponseEvent {
    AssistantText(String),
    ToolUseStart { name: String },
    ToolUse(ToolUse),
    EndStream { message: AssistantMessage },
}

pub enum RecvErrorKind {
    /// The stream stalled for `duration_secs` seconds.
    StreamTimeout { description: String, duration_secs: u64 },
    /// The stream ended in the middle of a tool use.
    UnexpectedToolUseEos { tool_use_id: String, name: String, message: AssistantMessage },
    Other { description: String },
}

/// A failure while reading the response stream, with the id of the request.
pub struct RecvError {
    pub request_id: Option<String>,
    pub source: RecvErrorKind,
}

/// The tool use being received: its id, its name and the arguments so far.
pub struct PartialToolUse {
    pub id: String,
    pub name: String,
    pub input: String,
}

pub open spec fn opt_text(o: Option<String>) -> Seq<char> {
    match o {
        Some(s) => s@,
        None => seq![],
    }
}

/// The tool use in progress after a fragment of tool use `id` named `name`
/// with `input` arrives while `cur` was in progress: fragments of one id are
/// joined in arrival order, and another id starts afresh.
pub open spec fn continued(
    cur: Option<(Seq<char>, Seq<char>, Seq<char>)>,
    id: Seq<char>,
    name: Seq<char>,
    input: Seq<char>,
) -> (Seq<char>, Seq<char>, Seq<char>) {
    match cur {
        Some(c) if c.0 == id => (c.0, c.1, c.2 + input),
        _ => (id, name, input),
    }
}

pub open spec fn starts_new(cur: Option<(Seq<char>, Seq<char>, Seq<char>)>, id: Seq<char>) -> bool {
    match cur {
        Some(c) => c.0 != id,
        None => true,
    }
}

/// Whether the arguments `text` can be read: empty text stands for no arguments.
pub open spec fn readable_args(text: Seq<char>) -> bool {
    text.len() == 0 || json_accepts(text)
}

/// Reads the model's stream events one by one.
pub struct ResponseParser {
    message_id: Option<String>,
    content: String,
    tool_uses: Vec<ToolUse>,
    current: Option<PartialToolUse>,
}

impl ToolUse {
    pub fn duplicate(&self) -> (r: ToolUse)
        ensures
            r.id@ == self.id@,
            r.name@ == self.name@,
            r.args == self.args,
            r.args_text@ == self.args_text@,
    {
        ToolUse {
            id: self.id.clone(),
            name: self.name.clone(),
            args: self.args.clone(),
            args_text: self.args_text.clone(),
        }
    }
}

impl ResponseParser {
    pub closed spec fn spec_content(&self) -> Seq<char> {
        self.content@
    }

    pub closed spec fn spec_tool_ids(&self) -> Seq<Seq<char>> {
        use_ids(self.tool_uses@)
    }

    pub closed spec fn spec_current(&self) -> Option<(Seq<char>, Seq<char>, Seq<char>)> {
        match self.current {
            Some(c) => Some((c.id@, c.name@, c.input@)),
            None => None,
        }
    }

    pub closed spec fn spec_message_id(&self) -> Option<Seq<char>> {
        match self.message_id {
            Some(m) => Some(m@),
            None => None,
        }
    }

    pub fn new() -> (r: Self)
        ensures
            r.spec_content().len() == 0,
            r.spec_tool_ids().len() == 0,
            r.spec_current() is None,
            r.spec_message_id() is None,
    {
        let r = ResponseParser { message_id: None, content: String::new(), tool_uses: Vec::new(), current: None };
        assert(r.spec_tool_ids() =~= seq![]);
        r
    }

    fn take_input(input: Option<String>) -> (r: String)
        ensures
            r@ == opt_text(input),
    {
        match input {
            Some(s) => s,
            None => String::new(),
        }
    }

    /// Takes in one stream event and hands out what it completes, in order.
    pub fn step(&mut self, event: StreamEvent) -> (r: Result<Vec<ResponseEvent>, RecvError>)
        ensures
            match event {
                StreamEvent::AssistantResponse { content } => {
                    &&& r matches Ok(evs) && evs@.len() == 1 && (evs@[0] matches ResponseEvent::AssistantText(t)
                        && t@ == content@)
                    &&& final(self).spec_content() == old(self).spec_content() + content@
                    &&& final(self).spec_tool_ids() == old(self).spec_tool_ids()
                    &&& final(self).spec_current() == old(self).spec_current()
                    &&& final(self).spec_message_id() == old(self).spec_message_id()
                },
                StreamEvent::MessageMetadata { message_id } => {
                    &&& r matches Ok(evs) && evs@.len() == 0
                    &&& final(self).spec_content() == old(self).spec_content()
                    &&& final(self).spec_tool_ids() == old(self).spec_tool_ids()
                    &&& final(self).spec_current() == old(self).spec_current()
                    &&& final(self).spec_message_id() == Some(message_id@)
                },
                StreamEvent::ToolUseEvent { tool_use_id, name, input, stop } => {
                    let cur = old(self).spec_current();
                    let next = continued(cur, tool_use_id@, name@, opt_text(input));
                    let fresh = starts_new(cur, tool_use_id@);
                    &&& final(self).spec_content() == old(self).spec_content()
                    &&& final(self).spec_message_id() == old(self).spec_message_id()
                    &&& if stop == Some(true) {
                        &&& final(self).spec_current() is None
                        &&& (r is Ok <==> readable_args(next.2))
                        &&& r is Ok ==> final(self).spec_tool_ids() == old(self).spec_tool_ids().push(next.0)
                        &&& r matches Ok(evs) ==> {
                            &&& fresh ==> evs@.len() == 2
                            &&& !fresh ==> evs@.len() == 1
                            &&& fresh ==> (evs@[0] matches ResponseEvent::ToolUseStart { name: n } && n@ == name@)
                            &&& evs@.last() matches ResponseEvent::ToolUse(u) && u.id@ == next.0 && u.name@ == next.1
                                && u.args_text@ == next.2
                        }
                        &&& r matches Err(e) ==> e.source is Other
                    } else {
                        &&& final(self).spec_current() == Some(next)
                        &&& final(self).spec_tool_ids() == old(self).spec_tool_ids()
                        &&& r matches Ok(evs) && (fresh ==> evs@.len() == 1) && (!fresh ==> evs@.len() == 0)
                        &&& fresh ==> (r->Ok_0@[0] matches ResponseEvent::ToolUseStart { name: n } && n@ == name@)
                    }
                },
            },
    {
        match event {
            StreamEvent::AssistantResponse { content } => {
                self.content.append(content.as_str());
                Ok(vec![ResponseEvent::AssistantText(content)])
            },
            StreamEvent::MessageMetadata { message_id } => {
                self.message_id = Some(message_id);
                Ok(Vec::new())
            },
            StreamEvent::ToolUseEvent { tool_use_id, name, input, stop } => {
                let mut out: Vec<ResponseEvent> = Vec::new();
                let piece = Self::take_input(input);
                let cur = self.current.take();
                let mut partial = match cur {
                    Some(c) if c.id == tool_use_id => c,
                    _ => {
                        out.push(ResponseEvent::ToolUseStart { name: name.clone() });
                        PartialToolUse { id: tool_use_id, name, input: String::new() }
                    },
                };
                partial.input.append(piece.as_str());
                if stop == Some(true) {
                    let args = if partial.input.as_str().unicode_len() == 0 {
                        empty_object()
                    } else {
                        match parse_json(partial.input.as_str()) {
                            Some(v) => v,
                            None => {
                                return Err(
                                    RecvError {
                                        request_id: None,
                                        source: RecvErrorKind::Other {
                                            description: partial.input.clone(),
                                        },
                                    },
                                );
                            },
                        }
                    };
                    let tool_use = ToolUse { id: partial.id, name: partial.name, args, args_text: partial.input };
                    let ghost before = self.tool_uses@;
                    self.tool_uses.push(tool_use.duplicate());
                    assert(use_ids(self.tool_uses@) =~= use_ids(before).push(tool_use.id@));
                    out.push(ResponseEvent::ToolUse(tool_use));
                } else {
                    self.current = Some(partial);
                }
                Ok(out)
            },
        }
    }

    fn take_uses(&mut self) -> (r: Vec<ToolUse>)
        ensures
            use_ids(r@) == old(self).spec_tool_ids(),
            final(self).spec_tool_ids().len() == 0,
            final(self).spec_content() == old(self).spec_content(),
            final(self).spec_current() == old(self).spec_current(),
            final(self).spec_message_id() == old(self).spec_message_id(),
    {
        let mut r: Vec<ToolUse> = Vec::new();
        std::mem::swap(&mut r, &mut self.tool_uses);
        assert(use_ids(self.tool_uses@) =~= seq![]);
        r
    }

    /// The stream has ended: hands out the whole assistant message, or the
    /// error that a tool use was cut off.
    pub fn finish(&mut self) -> (r: Result<ResponseEvent, RecvError>)
        ensures
            (r is Ok) <==> old(self).spec_current() is None,
            r matches Ok(ResponseEvent::EndStream { message }) ==> {
                &&& message.content@ == old(self).spec_content()
                &&& use_ids(message.tool_uses@) == old(self).spec_tool_ids()
                &&& (message.message_id matches Some(m) ==> Some(m@) == old(self).spec_message_id())
                &&& (message.message_id is None ==> old(self).spec_message_id() is None)
            },
            r is Ok ==> r->Ok_0 is EndStream,
            r matches Err(e) ==> e.source matches RecvErrorKind::UnexpectedToolUseEos { tool_use_id, name, message }
                && (old(self).spec_current() matches Some(c) && c.0 == tool_use_id@ && c.1 == name@)
                && message.content@ == old(self).spec_content()
                && use_ids(message.tool_uses@) == old(self).spec_tool_ids(),
    {
        let tool_uses = self.take_uses();
        let mut content = String::new();
        std::mem::swap(&mut content, &mut self.content);
        let message_id = self.message_id.take();
        let message = AssistantMessage { message_id, content, tool_uses };
        match self.current.take() {
            None => Ok(ResponseEvent::EndStream { message }),
            Some(c) => Err(
                RecvError {
                    request_id: None,
                    source: RecvErrorKind::UnexpectedToolUseEos { tool_use_id: c.id, name: c.name, message },
                },
            ),
        }
    }
}

/// The four fragments that stand for one whole tool use with arguments `args`:
/// a start without input, the first and the second half of the arguments, and
/// a stop. The first half ends at half the bytes of the UTF-8 text, rounded
/// down, or at the last character boundary before that byte.
pub open spec fn split_events_ok(evs: Seq<StreamEvent>, id: Seq<char>, name: Seq<char>, args: Seq<char>) -> bool {
    &&& evs.len() == 4
    &&& evs[0] matches StreamEvent::ToolUseEvent { tool_use_id: i, name: n, input: None, stop: None }
        && i@ == id && n@ == name
    &&& evs[1] matches StreamEvent::ToolUseEvent { tool_use_id: i, name: n, input: Some(a), stop: None }
        && i@ == id && n@ == name
    &&& evs[2] matches StreamEvent::ToolUseEvent { tool_use_id: i, name: n, input: Some(b), stop: None }
        && i@ == id && n@ == name
    &&& evs[3] matches StreamEvent::ToolUseEvent { tool_use_id: i, name: n, input: None, stop: Some(true) }
        && i@ == id && n@ == name
    &&& (evs[1] matches StreamEvent::ToolUseEvent { input: Some(a), .. } && evs[2] matches StreamEvent::ToolUseEvent {
        input: Some(b),
        ..
    } && a@ + b@ == args && encode_utf8(a@) == encode_utf8(args).subrange(
        0,
        last_boundary_at_most(encode_utf8(args), encode_utf8(args).len() as int / 2),
    ))
}

/// Splits one tool use into the fragments that a streamed response would carry.
pub fn split_tool_use_event(tool_use_id: &String, name: &String, args: &str) -> (r: Vec<StreamEvent>)
    ensures
        split_events_ok(r@, tool_use_id@, name@, args@),
{
    let n = args.as_bytes().len();
    let (head, tail) = split_at_boundary(args, n / 2);
    let first = head.to_owned();
    let second = tail.to_owned();
    vec![
        StreamEvent::ToolUseEvent { tool_use_id: tool_use_id.clone(), name: name.clone(), input: None, stop: None },
        StreamEvent::ToolUseEvent {
            tool_use_id: tool_use_id.clone(),
            name: name.clone(),
            input: Some(first),
            stop: None,
        },
        StreamEvent::ToolUseEvent {
            tool_use_id: tool_use_id.clone(),
            name: name.clone(),
            input: Some(second),
            stop: None,
        },
        StreamEvent::ToolUseEvent {
            tool_use_id: tool_use_id.clone(),
            name: name.clone(),
            input: None,
            stop: Some(true),
        },
    ]
}

pub open spec fn event_fragment(ev: StreamEvent) -> (Seq<char>, Seq<char>, Seq<char>) {
    match ev {
        StreamEvent::ToolUseEvent { tool_use_id, name, input, .. } => (tool_use_id@, name@, opt_text(input)),
        _ => (seq![], seq![], seq![]),
    }
}

/// Feeding the fragments of a split tool use to the parser, with no tool use in
/// progress, joins its arguments back exactly: the text read at the stop is the
/// text that was split, and the tool use keeps its id and name.
pub proof fn lemma_split_reassembles(evs: Seq<StreamEvent>, id: Seq<char>, name: Seq<char>, args: Seq<char>)
    requires
        split_events_ok(evs, id, name, args),
    ensures
        ({
            let c0 = continued(None, event_fragment(evs[0]).0, event_fragment(evs[0]).1, event_fragment(evs[0]).2);
            let c1 = continued(Some(c0), event_fragment(evs[1]).0, event_fragment(evs[1]).1, event_fragment(evs[1]).2);
            let c2 = continued(Some(c1), event_fragment(evs[2]).0, event_fragment(evs[2]).1, event_fragment(evs[2]).2);
            let c3 = continued(Some(c2), event_fragment(evs[3]).0, event_fragment(evs[3]).1, event_fragment(evs[3]).2);
            c3 == (id, name, args)
        }),
{
    let e1 = evs[1];
    let e2 = evs[2];
    assert(seq![] + event_fragment(e1).2 =~= event_fragment(e1).2);
    assert(event_fragment(e1).2 + event_fragment(e2).2 + seq![] =~= event_fragment(e1).2 + event_fragment(e2).2);
}

} // verus!
