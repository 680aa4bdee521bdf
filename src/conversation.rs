//! The conversation with the model: its turns, their pairing of tool uses and
//! tool results, and a transcript of what the user saw.
use vstd::prelude::*;
use crate::model::{
    AssistantMessage, ToolResult, ToolResultContent, ToolResultStatus, ToolUse, Turn, UserMessage,
    error_result, is_error_result, result_ids, use_ids,
};

verus! {

/// The ids of the tool uses that turn `t` asks for (none for a user turn).
pub open spec fn requested_ids(t: Turn) -> Seq<Seq<char>> {
    match t {
        Turn::Assistant(m) => use_ids(m.tool_uses@),
        Turn::User(_) => seq![],
    }
}

/// The ids of the tool results that turn `t` carries (none for an assistant turn).
pub open spec fn answered_ids(t: Turn) -> Seq<Seq<char>> {
    match t {
        Turn::User(m) => result_ids(m.tool_results@),
        Turn::Assistant(_) => seq![],
    }
}

/// Turn `i` of `h` is in order: tool uses that it requests are answered by the
/// next turn, one result per use and in the same order, and results that it
/// carries answer exactly the uses of the turn before it.
pub open spec fn sound_at(h: Seq<Turn>, i: int) -> bool {
    &&& requested_ids(h[i]).len() > 0 ==> {
        &&& i + 1 < h.len()
        &&& h[i + 1] is User
        &&& answered_ids(h[i + 1]) == requested_ids(h[i])
    }
    &&& answered_ids(h[i]).len() > 0 ==> {
        &&& i > 0
        &&& h[i - 1] is Assistant
        &&& requested_ids(h[i - 1]) == answered_ids(h[i])
    }
}

/// Every tool use in `h` is answered in the next turn, and every tool result
/// answers the turn before it.
pub open spec fn paired(h: Seq<Turn>) -> bool {
    forall|i: int| 0 <= i < h.len() ==> #[trigger] sound_at(h, i)
}

/// `h` is paired but for its last turn, an assistant turn whose tool uses
/// `ids` still wait for their results.
pub open spec fn awaiting(h: Seq<Turn>, ids: Seq<Seq<char>>) -> bool {
    &&& h.len() > 0
    &&& paired(h.drop_last())
    &&& h.last() is Assistant
    &&& ids.len() > 0
    &&& requested_ids(h.last()) == ids
}

/// `h` with trailing turns dropped until the pairing holds.
pub open spec fn repaired(h: Seq<Turn>) -> Seq<Turn>
    decreases h.len(),
{
    if h.len() == 0 || paired(h) {
        h
    } else {
        repaired(h.drop_last())
    }
}

/// `m` is a user turn with text `text` that carries one failed result with
/// text `reason` for each of `uses`, in order.
pub open spec fn abandons(m: UserMessage, uses: Seq<ToolUse>, text: Seq<char>, reason: Seq<char>) -> bool {
    &&& m.content@ == text
    &&& m.tool_results@.len() == uses.len()
    &&& forall|k: int| 0 <= k < uses.len() ==> is_error_result(#[trigger] m.tool_results@[k], uses[k].id@, reason)
}

pub open spec fn has_no_tools(t: Turn) -> bool {
    requested_ids(t).len() == 0 && answered_ids(t).len() == 0
}

proof fn lemma_repaired(h: Seq<Turn>)
    ensures
        paired(repaired(h)),
        repaired(h).len() <= h.len(),
        repaired(h) == h.subrange(0, repaired(h).len() as int),
    decreases h.len(),
{
    if h.len() == 0 || paired(h) {
        assert(h == h.subrange(0, h.len() as int));
    } else {
        lemma_repaired(h.drop_last());
        let r = repaired(h.drop_last());
        assert(r == h.subrange(0, r.len() as int));
    }
}

/// Repairing a conversation twice leaves it as repairing it once does.
pub proof fn lemma_repair_idempotent(h: Seq<Turn>)
    ensures
        repaired(repaired(h)) == repaired(h),
        paired(repaired(h)),
{
    lemma_repaired(h);
}

/// A conversation whose last assistant turn waits for results is paired once a
/// user turn answers each of its tool uses, in order.
pub proof fn lemma_answer_completes_pairing(h: Seq<Turn>, reply: Turn)
    requires
        awaiting(h, requested_ids(h.last())),
        reply is User,
        answered_ids(reply) == requested_ids(h.last()),
    ensures
        paired(h.push(reply)),
{
    let n = h.len() as int;
    let g = h.push(reply);
    let p = h.drop_last();
    assert forall|i: int| 0 <= i < g.len() implies #[trigger] sound_at(g, i) by {
        if i < n - 1 {
            assert(sound_at(p, i));
            assert(g[i] == p[i]);
            if i + 1 < n - 1 {
                assert(g[i + 1] == p[i + 1]);
            }
            if i > 0 {
                assert(g[i - 1] == p[i - 1]);
            }
        }
    }
}

/// Appending a turn without tool uses or results to a paired conversation
/// keeps it paired.
pub proof fn lemma_push_plain_keeps_pairing(h: Seq<Turn>, t: Turn)
    requires
        paired(h),
        has_no_tools(t),
    ensures
        paired(h.push(t)),
{
    let g = h.push(t);
    assert forall|i: int| 0 <= i < g.len() implies #[trigger] sound_at(g, i) by {
        if i < h.len() {
            assert(sound_at(h, i));
            assert(g[i] == h[i]);
            if i > 0 {
                assert(g[i - 1] == h[i - 1]);
            }
            if i + 1 < h.len() {
                assert(g[i + 1] == h[i + 1]);
            }
        }
    }
}

fn same_ids(uses: &Vec<ToolUse>, results: &Vec<ToolResult>) -> (r: bool)
    ensures
        r == (use_ids(uses@) == result_ids(results@)),
{
    if uses.len() != results.len() {
        assert(use_ids(uses@).len() != result_ids(results@).len());
        return false;
    }
    let mut i: usize = 0;
    while i < uses.len()
        invariant
            uses.len() == results.len(),
            i <= uses.len(),
            forall|k: int| 0 <= k < i ==> uses@[k].id@ == results@[k].tool_use_id@,
        decreases uses.len() - i,
    {
        if uses[i].id != results[i].tool_use_id {
            assert(use_ids(uses@)[i as int] != result_ids(results@)[i as int]);
            return false;
        }
        i = i + 1;
    }
    assert(use_ids(uses@) =~= result_ids(results@));
    true
}

fn sound_at_exec(h: &Vec<Turn>, i: usize) -> (r: bool)
    requires
        i < h.len(),
    ensures
        r == sound_at(h@, i as int),
{
    match &h[i] {
        Turn::Assistant(m) => {
            if m.tool_uses.len() == 0 {
                true
            } else if i + 1 < h.len() {
                match &h[i + 1] {
                    Turn::User(u) => same_ids(&m.tool_uses, &u.tool_results),
                    Turn::Assistant(_) => false,
                }
            } else {
                false
            }
        },
        Turn::User(u) => {
            if u.tool_results.len() == 0 {
                true
            } else if i > 0 {
                match &h[i - 1] {
                    Turn::Assistant(m) => same_ids(&m.tool_uses, &u.tool_results),
                    Turn::User(_) => false,
                }
            } else {
                false
            }
        },
    }
}

fn is_paired(h: &Vec<Turn>) -> (r: bool)
    ensures
        r == paired(h@),
{
    let mut i: usize = 0;
    while i < h.len()
        invariant
            i <= h.len(),
            forall|k: int| 0 <= k < i ==> #[trigger] sound_at(h@, k),
        decreases h.len() - i,
    {
        if !sound_at_exec(h, i) {
            return false;
        }
        i = i + 1;
    }
    true
}

/// The turns of one chat session, with the session's id, the transcript of
/// what the user saw, and the id of the latest assistant message.
pub struct ConversationState {
    conversation_id: String,
    history: Vec<Turn>,
    transcript: Vec<String>,
    message_id: Option<String>,
}

impl ConversationState {
    pub closed spec fn spec_id(&self) -> Seq<char> {
        self.conversation_id@
    }

    pub closed spec fn spec_history(&self) -> Seq<Turn> {
        self.history@
    }

    pub closed spec fn spec_transcript(&self) -> Seq<Seq<char>> {
        self.transcript@.map_values(|s: String| s@)
    }

    pub closed spec fn spec_message_id(&self) -> Option<Seq<char>> {
        match self.message_id {
            Some(m) => Some(m@),
            None => None,
        }
    }

    /// A conversation with no turns yet, under the id `conversation_id`.
    pub fn new(conversation_id: String) -> (r: Self)
        ensures
            r.spec_id() == conversation_id@,
            r.spec_history().len() == 0,
            r.spec_transcript().len() == 0,
            r.spec_message_id() is None,
    {
        let r = ConversationState {
            conversation_id,
            history: Vec::new(),
            transcript: Vec::new(),
            message_id: None,
        };
        assert(r.spec_transcript() =~= seq![]);
        r
    }

    pub fn conversation_id(&self) -> (r: &str)
        ensures
            r@ == self.spec_id(),
    {
        self.conversation_id.as_str()
    }

    pub fn history(&self) -> (r: &Vec<Turn>)
        ensures
            r@ == self.spec_history(),
    {
        &self.history
    }

    pub fn transcript(&self) -> (r: &Vec<String>)
        ensures
            r@.map_values(|s: String| s@) == self.spec_transcript(),
    {
        &self.transcript
    }

    /// The id of the latest assistant message, if the server gave it one.
    pub fn message_id(&self) -> (r: Option<&String>)
        ensures
            r is Some <==> self.spec_message_id() is Some,
            r is Some ==> Some(r->0@) == self.spec_message_id(),
    {
        match &self.message_id {
            Some(m) => Some(m),
            None => None,
        }
    }

    /// Adds a user turn of plain text.
    pub fn append_new_user_message(&mut self, text: String)
        ensures
            final(self).spec_history().len() == old(self).spec_history().len() + 1,
            final(self).spec_history().drop_last() == old(self).spec_history(),
            final(self).spec_history().last() matches Turn::User(u) && u.content@ == text@
                && u.tool_results@.len() == 0,
            final(self).spec_id() == old(self).spec_id(),
            final(self).spec_transcript() == old(self).spec_transcript(),
            final(self).spec_message_id() == old(self).spec_message_id(),
    {
        self.history.push(Turn::User(UserMessage { content: text, tool_results: Vec::new() }));
        assert(self.history@.drop_last() =~= old(self).history@);
    }

    /// Records a line of the transcript.
    pub fn append_transcript(&mut self, text: String)
        ensures
            final(self).spec_transcript() == old(self).spec_transcript().push(text@),
            final(self).spec_history() == old(self).spec_history(),
            final(self).spec_id() == old(self).spec_id(),
            final(self).spec_message_id() == old(self).spec_message_id(),
    {
        self.transcript.push(text);
        assert(self.spec_transcript() =~= old(self).spec_transcript().push(self.transcript@.last()@));
    }

    /// Records what the user typed in the transcript.
    pub fn append_user_transcript(&mut self, text: &str)
        ensures
            final(self).spec_transcript() == old(self).spec_transcript().push(text@),
            final(self).spec_history() == old(self).spec_history(),
            final(self).spec_id() == old(self).spec_id(),
            final(self).spec_message_id() == old(self).spec_message_id(),
    {
        self.append_transcript(text.to_owned());
    }

    /// Adds an assistant turn and records its message id.
    pub fn push_assistant_message(&mut self, msg: AssistantMessage)
        ensures
            final(self).spec_history() == old(self).spec_history().push(Turn::Assistant(msg)),
            final(self).spec_message_id() == (match msg.message_id {
                Some(m) => Some(m@),
                None => None,
            }),
            final(self).spec_id() == old(self).spec_id(),
            final(self).spec_transcript() == old(self).spec_transcript(),
    {
        self.message_id = match &msg.message_id {
            Some(m) => Some(m.clone()),
            None => None,
        };
        self.history.push(Turn::Assistant(msg));
    }

    /// Adds a user turn that carries `results` and no text.
    pub fn add_tool_results(&mut self, results: Vec<ToolResult>)
        ensures
            final(self).spec_history().len() == old(self).spec_history().len() + 1,
            final(self).spec_history().drop_last() == old(self).spec_history(),
            final(self).spec_history().last() matches Turn::User(u) && u.content@.len() == 0
                && u.tool_results@ == results@,
            final(self).spec_id() == old(self).spec_id(),
            final(self).spec_transcript() == old(self).spec_transcript(),
            final(self).spec_message_id() == old(self).spec_message_id(),
    {
        self.history.push(Turn::User(UserMessage { content: String::new(), tool_results: results }));
        assert(self.history@.drop_last() =~= old(self).history@);
    }

    /// Answers each of `tool_uses` with a failed result that gives `reason`,
    /// in a user turn whose text is `reason`.
    pub fn abandon_tool_use(&mut self, tool_uses: &Vec<ToolUse>, reason: String)
        ensures
            final(self).spec_history().len() == old(self).spec_history().len() + 1,
            final(self).spec_history().drop_last() == old(self).spec_history(),
            final(self).spec_history().last() matches Turn::User(u) && abandons(
                u,
                tool_uses@,
                reason@,
                reason@,
            ),
            answered_ids(final(self).spec_history().last()) == use_ids(tool_uses@),
            final(self).spec_id() == old(self).spec_id(),
            final(self).spec_transcript() == old(self).spec_transcript(),
            final(self).spec_message_id() == old(self).spec_message_id(),
    {
        let mut results: Vec<ToolResult> = Vec::new();
        let mut i: usize = 0;
        while i < tool_uses.len()
            invariant
                i <= tool_uses.len(),
                results@.len() == i,
                forall|k: int| 0 <= k < i ==> is_error_result(#[trigger] results@[k], tool_uses@[k].id@, reason@),
            decreases tool_uses.len() - i,
        {
            results.push(error_result(tool_uses[i].id.clone(), reason.clone()));
            i = i + 1;
        }
        let ghost rs = results@;
        assert(result_ids(rs) =~= use_ids(tool_uses@));
        self.history.push(Turn::User(UserMessage { content: reason, tool_results: results }));
        assert(self.history@.drop_last() =~= old(self).history@);
    }

    /// Drops every turn; the id and the transcript stay.
    pub fn clear(&mut self)
        ensures
            final(self).spec_history().len() == 0,
            final(self).spec_id() == old(self).spec_id(),
            final(self).spec_transcript() == old(self).spec_transcript(),
            final(self).spec_message_id() == old(self).spec_message_id(),
    {
        self.history = Vec::new();
    }

    /// Drops trailing turns until every tool use is answered in the next turn
    /// and every tool result answers the turn before it.
    pub fn fix_history(&mut self)
        ensures
            final(self).spec_history() == repaired(old(self).spec_history()),
            paired(final(self).spec_history()),
            final(self).spec_id() == old(self).spec_id(),
            final(self).spec_transcript() == old(self).spec_transcript(),
            final(self).spec_message_id() == old(self).spec_message_id(),
    {
        proof {
            lemma_repaired(self.history@);
        }
        while !is_paired(&self.history)
            invariant
                repaired(self.history@) == repaired(old(self).history@),
                self.conversation_id == old(self).conversation_id,
                self.transcript == old(self).transcript,
                self.message_id == old(self).message_id,
            decreases self.history@.len(),
        {
            self.history.pop();
        }
    }
}

} // verus!
