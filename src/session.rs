//! The decisions of a chat session: from its state and what happened to the
//! next state and what the terminal should show.
use vstd::prelude::*;
use crate::command::{
    Command, CommandView, ContextSubcommand, ProfileSubcommand, parse_view, word_is,
};
use crate::conversation::{
    ConversationState, abandons, awaiting, lemma_answer_completes_pairing,
    lemma_push_plain_keeps_pairing, paired, repaired, requested_ids, answered_ids,
};
use crate::escapes::{cleaned, strip_escapes};
use crate::model::{
    AssistantMessage, ToolResult, ToolResultContent, ToolResultStatus, ToolUse, Turn, error_result,
    is_error_result, use_ids,
};
use crate::words::strings_view;
use crate::parser::{RecvError, RecvErrorKind, ResponseEvent};
use crate::telemetry::{ToolTelemetry, ToolUseEventBuilder, marked, record_id};

verus! {

/// Whether the next tool use answers an earlier failure, for telemetry.
pub enum ToolUseStatus {
    Idle,
    /// A retry after a failed tool use; holds the utterance id of the request
    /// that first asked for it.
    RetryInProgress(String),
}

/// The state of the chat session.
pub enum ChatState {
    /// Read the next line of the user, offering `tool_uses` for approval.
    PromptUser { tool_uses: Option<Vec<ToolUse>>, skip_printing_tools: bool },
    /// Act on one line of input.
    HandleInput { input: String, tool_uses: Option<Vec<ToolUse>> },
    /// Check the tool uses that the model asked for.
    ValidateTools(Vec<ToolUse>),
    /// Run the tool uses.
    ExecuteTools(Vec<ToolUse>),
    /// Send the conversation and read the model's answer.
    HandleResponseStream,
    Exit,
}

impl Default for ChatState {
    fn default() -> (r: Self)
        ensures
            r matches ChatState::PromptUser { tool_uses: None, skip_printing_tools: false },
    {
        ChatState::PromptUser { tool_uses: None, skip_printing_tools: false }
    }
}

/// What the terminal should do for a line of input, beside the next state.
pub enum InputEffect {
    Nothing,
    /// Show this parse error.
    ShowError(String),
    /// Run this command in a shell.
    RunShell(String),
    /// Say that the conversation was cleared.
    Cleared,
    ShowHelp,
    /// Say whether acceptance prompting is now off.
    AcceptAllToggled(bool),
    /// Carry out this profile command.
    Profile(ProfileSubcommand),
    /// Carry out this context command.
    Context(ContextSubcommand),
}

pub struct InputStep {
    pub effect: InputEffect,
    pub next: ChatState,
}

/// A failure of the model service.
pub enum ClientError {
    /// The account is over its quota; the message is the server's own.
    QuotaBreach(String),
    Other(String),
}

/// What can go wrong while the session handles one state.
pub enum ChatError {
    Client(ClientError),
    ResponseStream(RecvError),
    Std(String),
    Readline(String),
    Custom(String),
    /// The user pressed Ctrl+C; `tool_uses` are those that were running.
    Interrupted { tool_uses: Option<Vec<ToolUse>> },
    NonInteractiveToolApproval,
}

impl ChatError {
    /// The text that describes this error.
    pub open spec fn message_view(&self) -> Seq<char> {
        match self {
            ChatError::Client(ClientError::QuotaBreach(m)) => m@,
            ChatError::Client(ClientError::Other(m)) => m@,
            ChatError::ResponseStream(e) => match e.source {
                RecvErrorKind::StreamTimeout { description, .. } => description@,
                RecvErrorKind::UnexpectedToolUseEos { .. } => "The response stream ended before the entire tool use was received"@,
                RecvErrorKind::Other { description } => description@,
            },
            ChatError::Std(m) => m@,
            ChatError::Readline(m) => m@,
            ChatError::Custom(m) => m@,
            ChatError::Interrupted { .. } => "interrupted"@,
            ChatError::NonInteractiveToolApproval => "Tool approval required but --no-interactive was specified. Use --accept-all to automatically approve tools."@,
        }
    }

    /// The text that describes this error.
    pub fn message(&self) -> (r: String)
        ensures
            r@ == self.message_view(),
    {
        match self {
            ChatError::Client(ClientError::QuotaBreach(m)) => m.clone(),
            ChatError::Client(ClientError::Other(m)) => m.clone(),
            ChatError::ResponseStream(e) => match &e.source {
                RecvErrorKind::StreamTimeout { description, .. } => description.clone(),
                RecvErrorKind::UnexpectedToolUseEos { .. } => "The response stream ended before the entire tool use was received".to_owned(),
                RecvErrorKind::Other { description } => description.clone(),
            },
            ChatError::Std(m) => m.clone(),
            ChatError::Readline(m) => m.clone(),
            ChatError::Custom(m) => m.clone(),
            ChatError::Interrupted { .. } => "interrupted".to_owned(),
            ChatError::NonInteractiveToolApproval => "Tool approval required but --no-interactive was specified. Use --accept-all to automatically approve tools.".to_owned(),
        }
    }
}

/// What one answer of the model has produced so far.
pub struct ResponseTurn {
    /// The text to render, in the order it arrived.
    pub buf: String,
    pub ended: bool,
    pub tool_uses: Vec<ToolUse>,
    /// The name of the tool use being received, if one is.
    pub tool_name_being_recvd: Option<String>,
}

impl ResponseTurn {
    pub fn new() -> (r: Self)
        ensures
            r.buf@.len() == 0,
            !r.ended,
            r.tool_uses@.len() == 0,
            r.tool_name_being_recvd is None,
    {
        ResponseTurn { buf: String::new(), ended: false, tool_uses: Vec::new(), tool_name_being_recvd: None }
    }
}

/// The spinner changes after one response event.
pub struct ResponseStep {
    pub stop_spinner: bool,
    /// Show a spinner for the tool use of this name.
    pub start_spinner_for: Option<String>,
}

/// The text that a response event adds to the render buffer.
pub open spec fn rendered_piece(e: ResponseEvent) -> Seq<char> {
    match e {
        ResponseEvent::AssistantText(t) => t@,
        ResponseEvent::ToolUseStart { .. } => "\n"@,
        ResponseEvent::ToolUse(_) => seq![],
        ResponseEvent::EndStream { .. } => "\n"@,
    }
}

pub open spec fn timeout_note() -> Seq<char> {
    "Response timed out - message took too long to generate"@
}

pub open spec fn timeout_request() -> Seq<char> {
    "You took too long to respond - try to split up the work into smaller steps."@
}

pub open spec fn too_large_note() -> Seq<char> {
    "The generated tool was too large, try again but this time split up the work between multiple tool uses"@
}

/// What checking one tool use found.
pub enum ToolCheck {
    /// It names a known tool with valid parameters; whether the user must approve it.
    Valid { requires_acceptance: bool },
    /// It names no tool that this client supports; the text says why.
    Unsupported(String),
    /// Its parameters are invalid; the text says why.
    Invalid(String),
}

/// What running one tool gave.
pub enum ToolOutcome {
    Success(ToolResultContent),
    Failure(String),
}

/// What an issue report is told about the session.
pub struct IssueContext {
    pub transcript: Vec<String>,
    pub failed_request_ids: Vec<String>,
    pub accept_all: bool,
    pub interactive: bool,
}

pub open spec fn invalid_text(reason: Seq<char>) -> Seq<char> {
    "Failed to validate tool parameters: "@ + reason
}

pub open spec fn failure_text(reason: Seq<char>) -> Seq<char> {
    "An error occurred processing the tool: \n"@ + reason
}

pub open spec fn no_utterance_id() -> Seq<char> {
    "No utterance id found"@
}

/// `e` records whether tool use `id` passed its checks.
pub open spec fn records_validity(e: ToolUseEventBuilder, id: Seq<char>, valid: bool) -> bool {
    record_id(e) == Some(id) && e.is_valid == Some(valid)
}

/// No tool use after the `k`-th of `uses`, up to `end`, has its id.
pub open spec fn last_with_id(uses: Seq<ToolUse>, k: int, end: int) -> bool {
    forall|m: int| k < m < end ==> #[trigger] uses[m].id@ != uses[k].id@
}

/// `t` holds a record of tool use `id` that says whether it passed its checks.
pub open spec fn has_validity(t: Seq<ToolUseEventBuilder>, id: Seq<char>, valid: bool) -> bool {
    exists|j: int| 0 <= j < t.len() && #[trigger] records_validity(t[j], id, valid)
}

/// Record `e` names none of the first `end` tool uses of `uses`.
pub open spec fn untouched(e: ToolUseEventBuilder, uses: Seq<ToolUse>, end: int) -> bool {
    forall|k: int| 0 <= k < end ==> record_id(e) != Some(#[trigger] uses[k].id@)
}

/// No two of `uses` share an id.
pub open spec fn ids_distinct(uses: Seq<ToolUse>) -> bool {
    forall|a: int, b: int| 0 <= a < b < uses.len() ==> #[trigger] uses[a].id@ != #[trigger] uses[b].id@
}

/// `r` is the result that answers tool use `u` with check `c` in a batch that
/// failed validation: a failed check gives its reason, a valid one says that
/// it was not run.
pub open spec fn reports_check(u: ToolUse, c: ToolCheck, r: ToolResult) -> bool {
    match c {
        ToolCheck::Valid { .. } => is_error_result(r, u.id@, batch_rejected_text()),
        ToolCheck::Unsupported(t) => is_error_result(r, u.id@, t@),
        ToolCheck::Invalid(m) => is_error_result(r, u.id@, invalid_text(m@)),
    }
}

pub open spec fn batch_rejected_text() -> Seq<char> {
    "This tool use was not run: another tool use of the same request failed validation."@
}

pub open spec fn all_valid(checks: Seq<ToolCheck>) -> bool {
    forall|k: int| 0 <= k < checks.len() ==> #[trigger] checks[k] is Valid
}

pub open spec fn none_need_approval(checks: Seq<ToolCheck>) -> bool {
    forall|k: int| 0 <= k < checks.len() ==> !(#[trigger] checks[k] matches ToolCheck::Valid { requires_acceptance: true })
}

/// `r` is the result that reports outcome `o` of tool use `u`.
pub open spec fn reports_outcome(u: ToolUse, o: ToolOutcome, r: ToolResult) -> bool {
    match o {
        ToolOutcome::Success(c) => {
            &&& r.tool_use_id@ == u.id@
            &&& r.status == ToolResultStatus::Success
            &&& r.content@ == seq![c]
        },
        ToolOutcome::Failure(m) => is_error_result(r, u.id@, failure_text(m@)),
    }
}

/// The status after a failure: a retry of the latest message, unless one was already under way.
pub open spec fn status_after_failure(old_status: ToolUseStatus, message_id: Option<Seq<char>>) -> Option<Seq<char>> {
    match old_status {
        ToolUseStatus::Idle => Some(
            match message_id {
                Some(m) => m,
                None => no_utterance_id(),
            },
        ),
        ToolUseStatus::RetryInProgress(_) => None,
    }
}

/// What the terminal shows after an error, and where the session goes next.
pub struct ErrorReport {
    /// The line to show in bold red, if any.
    pub text: Option<String>,
    /// Whether the spinner's line must be cleared.
    pub clear_spinner: bool,
    /// Whether the process must end with a failure status.
    pub fatal: bool,
    pub next: ChatState,
}

/// A step of the terminal's teardown.
#[derive(Clone, Copy, Debug, PartialEq, Eq, Structural)]
pub enum TerminalOp {
    MoveToColumnZero,
    ResetAttributes,
    ResetColors,
    ShowCursor,
    Flush,
}

pub open spec fn interrupt_reason() -> Seq<char> {
    "The user interrupted the tool execution."@
}

pub open spec fn interrupt_note() -> Seq<char> {
    "Tool uses were interrupted, waiting for the next user prompt"@
}

pub open spec fn trouble_header() -> Seq<char> {
    "Amazon Q is having trouble responding right now"@
}

/// `g` is `h` followed by the turns that record an interrupt of `uses`: a user
/// turn that abandons each of them, and the assistant's note.
pub open spec fn interrupt_recorded(g: Seq<Turn>, h: Seq<Turn>, uses: Seq<ToolUse>) -> bool {
    &&& g.len() == h.len() + 2
    &&& g.subrange(0, h.len() as int) == h
    &&& g[h.len() as int] matches Turn::User(u) && abandons(u, uses, interrupt_reason(), interrupt_reason())
    &&& answered_ids(g[h.len() as int]) == use_ids(uses)
    &&& g[h.len() as int + 1] matches Turn::Assistant(m) && m.message_id is None && m.content@ == interrupt_note()
        && m.tool_uses@.len() == 0
}

/// When the interrupted tool uses are the ones that the last assistant turn
/// asked for, recording the interrupt leaves the conversation paired, so
/// repairing it removes nothing, and it ends with the interrupt note.
pub proof fn lemma_interrupt_keeps_pairing(g: Seq<Turn>, h: Seq<Turn>, uses: Seq<ToolUse>)
    requires
        awaiting(h, use_ids(uses)),
        interrupt_recorded(g, h, uses),
    ensures
        paired(g),
        repaired(g) == g,
        g.last() matches Turn::Assistant(m) && m.content@ == interrupt_note() && m.tool_uses@.len() == 0,
{
    let n = h.len() as int;
    let h1 = g.drop_last();
    assert(h1 =~= h.push(g[n]));
    lemma_answer_completes_pairing(h, g[n]);
    let last = g[n + 1];
    assert(last matches Turn::Assistant(m) && m.tool_uses@.len() == 0);
    if let Turn::Assistant(m) = last {
        assert(use_ids(m.tool_uses@) =~= seq![]);
    }
    lemma_push_plain_keeps_pairing(h1, last);
    assert(h1.push(last) =~= g);
}

/// One chat session: the conversation and the session's settings.
pub struct ChatContext {
    pub conversation: ConversationState,
    pub interactive: bool,
    pub accept_all: bool,
    /// Whether a spinner is on screen.
    pub spinner: bool,
    pub tool_use_status: ToolUseStatus,
    /// Request ids of failed requests, for issue reports.
    pub failed_request_ids: Vec<String>,
    /// Telemetry records of tool uses not yet sent.
    pub tool_use_telemetry_events: ToolTelemetry,
}

pub open spec fn pending_of(o: Option<Vec<ToolUse>>) -> Seq<ToolUse> {
    match o {
        Some(v) => v@,
        None => seq![],
    }
}

/// The prompt that `/issue` sends, with the user's words if any.
pub open spec fn issue_text(p: Option<Seq<char>>) -> Seq<char> {
    match p {
        Some(t) => "I would like to report an issue or make a feature request"@ + ": "@ + t,
        None => "I would like to report an issue or make a feature request"@,
    }
}

/// Whether `p` approves the pending tool uses.
pub open spec fn approves(p: Seq<char>) -> bool {
    p == "y"@ || p == "Y"@
}

pub fn issue_prompt(prompt: Option<String>) -> (r: String)
    ensures
        r@ == issue_text(match prompt {
            Some(p) => Some(p@),
            None => None,
        }),
{
    let base = "I would like to report an issue or make a feature request".to_owned();
    match prompt {
        Some(p) => base.concat(": ").concat(p.as_str()),
        None => base,
    }
}

/// What prompting does with the line it read: a line is handled; the first
/// end of input in a row only shows how to exit, the second exits.
pub enum PromptOutcome {
    Line(String),
    ExitHint,
    Exit,
}

pub fn read_outcome(line: Option<String>, ended_before: bool) -> (r: PromptOutcome)
    ensures
        match line {
            Some(l) => r matches PromptOutcome::Line(x) && x@ == l@,
            None => if ended_before { r is Exit } else { r is ExitHint },
        },
{
    match line {
        Some(l) => PromptOutcome::Line(l),
        None => if ended_before {
            PromptOutcome::Exit
        } else {
            PromptOutcome::ExitHint
        },
    }
}

/// How the approval prompt names the pending tool uses.
pub fn tools_phrase(count: usize) -> (r: &'static str)
    ensures
        count == 1 ==> r@ == "this tool"@,
        count != 1 ==> r@ == "these tools"@,
{
    if count == 1 {
        "this tool"
    } else {
        "these tools"
    }
}

/// Whether the session talks with a user: not when asked not to, nor when
/// standard input is not a terminal.
pub fn is_interactive(no_interactive: bool, stdin_is_terminal: bool) -> (r: bool)
    ensures
        r == (!no_interactive && stdin_is_terminal),
{
    !no_interactive && stdin_is_terminal
}

/// The first input of a session: the given input followed by what was piped
/// to standard input, if anything was.
pub fn with_piped_input(input: Option<String>, piped: Option<String>) -> (r: Option<String>)
    ensures
        match piped {
            Some(p) => r matches Some(x) && x@ == (match input {
                Some(i) => i@,
                None => Seq::<char>::empty(),
            }) + p@,
            None => r == input,
        },
{
    match piped {
        Some(p) => {
            let head = match input {
                Some(i) => i,
                None => String::new(),
            };
            Some(head.concat(p.as_str()))
        },
        None => input,
    }
}

/// The words `ws` with `sep` between each two.
pub open spec fn joined_with(ws: Seq<Seq<char>>, sep: Seq<char>) -> Seq<char>
    decreases ws.len(),
{
    if ws.len() == 0 {
        seq![]
    } else if ws.len() == 1 {
        ws[0]
    } else {
        joined_with(ws.drop_last(), sep) + sep + ws.last()
    }
}

/// Checks that the profile asked for at start exists; the error names the
/// profiles that do.
pub fn check_profile(profile: &String, profiles: &Vec<String>) -> (r: Result<(), String>)
    ensures
        r is Ok <==> exists|k: int| 0 <= k < profiles@.len() && (#[trigger] profiles@[k])@ == profile@,
        r matches Err(m) ==> m@ == "Profile '"@ + profile@ + "' does not exist. Available profiles: "@
            + joined_with(strings_view(profiles@), ", "@),
{
    let mut i: usize = 0;
    while i < profiles.len()
        invariant
            i <= profiles@.len(),
            forall|k: int| 0 <= k < i ==> (#[trigger] profiles@[k])@ != profile@,
        decreases profiles@.len() - i,
    {
        if profiles[i] == *profile {
            return Ok(());
        }
        i = i + 1;
    }
    let ghost v = strings_view(profiles@);
    let mut list = String::new();
    let mut j: usize = 0;
    while j < profiles.len()
        invariant
            v == strings_view(profiles@),
            j <= profiles@.len(),
            list@ == joined_with(v.subrange(0, j as int), ", "@),
        decreases profiles@.len() - j,
    {
        proof {
            let p = v.subrange(0, j + 1);
            assert(p.drop_last() =~= v.subrange(0, j as int));
            if j == 0 {
                assert(p =~= seq![v[0]]);
            }
        }
        if j > 0 {
            list.append(", ");
        }
        list.append(profiles[j].as_str());
        proof {
            if j == 0 {
                assert(list@ =~= joined_with(v.subrange(0, 1), ", "@));
            }
        }
        j = j + 1;
    }
    proof {
        assert(v.subrange(0, j as int) =~= v);
    }
    Err("Profile '".to_owned().concat(profile.as_str()).concat("' does not exist. Available profiles: ").concat(
        list.as_str(),
    ))
}

/// The terminal width, or 80 columns where it is unknown.
pub fn terminal_width(provided: Option<usize>) -> (r: usize)
    ensures
        r == match provided {
            Some(w) => w,
            None => 80,
        },
{
    match provided {
        Some(w) => w,
        None => 80,
    }
}

impl ChatContext {
    pub fn new(conversation_id: String, interactive: bool, accept_all: bool) -> (r: Self)
        ensures
            r.conversation.spec_id() == conversation_id@,
            r.conversation.spec_history().len() == 0,
            r.interactive == interactive,
            r.accept_all == accept_all,
            !r.spinner,
            r.tool_use_status is Idle,
            r.failed_request_ids@.len() == 0,
            r.tool_use_telemetry_events@.len() == 0,
    {
        ChatContext {
            conversation: ConversationState::new(conversation_id),
            interactive,
            accept_all,
            spinner: false,
            tool_use_status: ToolUseStatus::Idle,
            failed_request_ids: Vec::new(),
            tool_use_telemetry_events: ToolTelemetry::new(),
        }
    }

    /// The first state: the initial input if there is one, else the prompt.
    pub fn initial_state(initial_input: Option<String>) -> (r: ChatState)
        ensures
            match initial_input {
                Some(i) => r matches ChatState::HandleInput { input, tool_uses: None } && input@ == i@,
                None => r matches ChatState::PromptUser { tool_uses: None, skip_printing_tools: true },
            },
    {
        match initial_input {
            Some(input) => ChatState::HandleInput { input, tool_uses: None },
            None => ChatState::PromptUser { tool_uses: None, skip_printing_tools: true },
        }
    }

    /// Takes a line that the user typed: records it in the transcript and
    /// hands it on with the pending tool uses.
    pub fn accept_line(&mut self, line: String, tool_uses: Option<Vec<ToolUse>>) -> (r: ChatState)
        ensures
            r matches ChatState::HandleInput { input, tool_uses: Some(ts) } && input@ == line@ && ts@
                == pending_of(tool_uses),
            final(self).conversation.spec_transcript() == old(self).conversation.spec_transcript().push(
                line@,
            ),
            final(self).conversation.spec_history() == old(self).conversation.spec_history(),
            final(self).conversation.spec_id() == old(self).conversation.spec_id(),
    {
        self.conversation.append_user_transcript(line.as_str());
        let pending = match tool_uses {
            Some(v) => v,
            None => Vec::new(),
        };
        ChatState::HandleInput { input: line, tool_uses: Some(pending) }
    }

    /// Acts on one line of input, given the tool uses waiting for approval.
    pub fn handle_input(&mut self, input: String, tool_uses: Option<Vec<ToolUse>>) -> (r: InputStep)
        ensures
            final(self).conversation.spec_id() == old(self).conversation.spec_id(),
            final(self).interactive == old(self).interactive,
            match parse_view(input@) {
                Err(e) => {
                    &&& r.effect matches InputEffect::ShowError(m) && m@ == e
                    &&& r.next == (ChatState::PromptUser { tool_uses, skip_printing_tools: true })
                    &&& *final(self) == *old(self)
                },
                Ok(CommandView::Ask(p)) => if approves(p) && pending_of(tool_uses).len() > 0 {
                    &&& r.effect is Nothing
                    &&& r.next matches ChatState::ExecuteTools(ts) && ts@ == pending_of(tool_uses)
                    &&& *final(self) == *old(self)
                } else {
                    &&& r.effect is Nothing
                    &&& r.next is HandleResponseStream
                    &&& final(self).tool_use_status is Idle
                    &&& final(self).spinner == (old(self).spinner || old(self).interactive)
                    &&& final(self).accept_all == old(self).accept_all
                    &&& final(self).conversation.spec_history().drop_last() == old(self).conversation.spec_history()
                    &&& final(self).conversation.spec_history().len() == old(self).conversation.spec_history().len() + 1
                    &&& final(self).conversation.spec_history().last() matches crate::model::Turn::User(u)
                        && abandons(u, pending_of(tool_uses), input@, input@)
                    &&& awaiting(old(self).conversation.spec_history(), use_ids(pending_of(tool_uses)))
                        ==> paired(final(self).conversation.spec_history())
                },
                Ok(CommandView::Execute(c)) => {
                    &&& r.effect matches InputEffect::RunShell(x) && x@ == c
                    &&& r.next matches ChatState::PromptUser { tool_uses: None, skip_printing_tools: false }
                    &&& *final(self) == *old(self)
                },
                Ok(CommandView::Clear) => {
                    &&& r.effect is Cleared
                    &&& r.next matches ChatState::PromptUser { tool_uses: None, skip_printing_tools: true }
                    &&& final(self).conversation.spec_history().len() == 0
                    &&& final(self).accept_all == old(self).accept_all
                },
                Ok(CommandView::Help) => {
                    &&& r.effect is ShowHelp
                    &&& r.next matches ChatState::PromptUser { tool_uses: Some(ts), skip_printing_tools: true }
                        && ts@ == pending_of(tool_uses)
                    &&& *final(self) == *old(self)
                },
                Ok(CommandView::Issue(p)) => {
                    &&& r.effect is Nothing
                    &&& r.next matches ChatState::HandleInput { input: i, tool_uses: Some(ts) } && i@ == issue_text(p)
                        && ts@ == pending_of(tool_uses)
                    &&& *final(self) == *old(self)
                },
                Ok(CommandView::AcceptAll) => {
                    &&& r.effect == InputEffect::AcceptAllToggled(!old(self).accept_all)
                    &&& r.next matches ChatState::PromptUser { tool_uses: Some(ts), skip_printing_tools: true }
                        && ts@ == pending_of(tool_uses)
                    &&& final(self).accept_all == !old(self).accept_all
                    &&& final(self).conversation == old(self).conversation
                },
                Ok(CommandView::Quit) => {
                    &&& r.effect is Nothing
                    &&& r.next is Exit
                    &&& *final(self) == *old(self)
                },
                Ok(CommandView::Profile(pv)) => {
                    &&& r.effect matches InputEffect::Profile(s) && s@ == pv
                    &&& r.next matches ChatState::PromptUser { tool_uses: Some(ts), skip_printing_tools: true }
                        && ts@ == pending_of(tool_uses)
                    &&& *final(self) == *old(self)
                },
                Ok(CommandView::Context(cv)) => {
                    &&& r.effect matches InputEffect::Context(s) && s@ == cv
                    &&& r.next matches ChatState::PromptUser { tool_uses: Some(ts), skip_printing_tools: true }
                        && ts@ == pending_of(tool_uses)
                    &&& *final(self) == *old(self)
                },
            },
    {
        let command = match Command::parse(input.as_str()) {
            Ok(c) => c,
            Err(message) => {
                return InputStep {
                    effect: InputEffect::ShowError(message),
                    next: ChatState::PromptUser { tool_uses, skip_printing_tools: true },
                };
            },
        };
        let pending = match tool_uses {
            Some(v) => v,
            None => Vec::new(),
        };
        match command {
            Command::Ask { prompt } => {
                if (word_is(&prompt, "y") || word_is(&prompt, "Y")) && pending.len() > 0 {
                    return InputStep { effect: InputEffect::Nothing, next: ChatState::ExecuteTools(pending) };
                }
                self.tool_use_status = ToolUseStatus::Idle;
                if self.interactive {
                    self.spinner = true;
                }
                let ghost h0 = self.conversation.spec_history();
                if pending.len() == 0 {
                    self.conversation.append_new_user_message(input);
                } else {
                    self.conversation.abandon_tool_use(&pending, input);
                    proof {
                        let h = self.conversation.spec_history();
                        if awaiting(h0, use_ids(pending@)) {
                            assert(h =~= h0.push(h.last()));
                            lemma_answer_completes_pairing(h0, h.last());
                        }
                    }
                }
                InputStep { effect: InputEffect::Nothing, next: ChatState::HandleResponseStream }
            },
            Command::Execute { command } => InputStep {
                effect: InputEffect::RunShell(command),
                next: ChatState::PromptUser { tool_uses: None, skip_printing_tools: false },
            },
            Command::Clear => {
                self.conversation.clear();
                InputStep {
                    effect: InputEffect::Cleared,
                    next: ChatState::PromptUser { tool_uses: None, skip_printing_tools: true },
                }
            },
            Command::Help => InputStep {
                effect: InputEffect::ShowHelp,
                next: ChatState::PromptUser { tool_uses: Some(pending), skip_printing_tools: true },
            },
            Command::Issue { prompt } => InputStep {
                effect: InputEffect::Nothing,
                next: ChatState::HandleInput { input: issue_prompt(prompt), tool_uses: Some(pending) },
            },
            Command::AcceptAll => {
                self.accept_all = !self.accept_all;
                InputStep {
                    effect: InputEffect::AcceptAllToggled(self.accept_all),
                    next: ChatState::PromptUser { tool_uses: Some(pending), skip_printing_tools: true },
                }
            },
            Command::Quit => InputStep { effect: InputEffect::Nothing, next: ChatState::Exit },
            Command::Profile { subcommand } => InputStep {
                effect: InputEffect::Profile(subcommand),
                next: ChatState::PromptUser { tool_uses: Some(pending), skip_printing_tools: true },
            },
            Command::Context { subcommand } => InputStep {
                effect: InputEffect::Context(subcommand),
                next: ChatState::PromptUser { tool_uses: Some(pending), skip_printing_tools: true },
            },
        }
    }

    /// Takes in one event of the model's answer. The render buffer only grows,
    /// by the event's text in arrival order.
    pub fn on_response_event(&mut self, turn: &mut ResponseTurn, event: ResponseEvent) -> (r: ResponseStep)
        ensures
            final(turn).buf@ == old(turn).buf@ + rendered_piece(event),
            final(self).interactive == old(self).interactive,
            final(self).accept_all == old(self).accept_all,
            final(self).conversation.spec_id() == old(self).conversation.spec_id(),
            match event {
                ResponseEvent::ToolUseStart { name } => {
                    &&& final(turn).tool_name_being_recvd matches Some(n) && n@ == name@
                    &&& final(turn).tool_uses == old(turn).tool_uses
                    &&& final(turn).ended == old(turn).ended
                    &&& final(self).conversation == old(self).conversation
                },
                ResponseEvent::AssistantText(_) => {
                    &&& final(turn).tool_name_being_recvd == old(turn).tool_name_being_recvd
                    &&& final(turn).tool_uses == old(turn).tool_uses
                    &&& final(turn).ended == old(turn).ended
                    &&& final(self).conversation == old(self).conversation
                },
                ResponseEvent::ToolUse(u) => {
                    &&& final(turn).tool_name_being_recvd is None
                    &&& final(turn).tool_uses@ == old(turn).tool_uses@.push(u)
                    &&& final(turn).ended == old(turn).ended
                    &&& final(self).conversation == old(self).conversation
                },
                ResponseEvent::EndStream { message } => {
                    &&& final(turn).tool_name_being_recvd == old(turn).tool_name_being_recvd
                    &&& final(turn).tool_uses == old(turn).tool_uses
                    &&& final(turn).ended
                    &&& final(self).conversation.spec_history() == old(self).conversation.spec_history().push(
                        Turn::Assistant(message),
                    )
                    &&& final(self).conversation.spec_message_id() == crate::telemetry::opt_view(message.message_id)
                },
            },
            ({
                let tool_done = event is ToolUse;
                let shown = final(turn).tool_name_being_recvd is None && final(turn).buf@.len() > 0;
                let kept = old(self).spinner && !(old(self).interactive && (tool_done || shown));
                let start = old(self).interactive && final(turn).tool_name_being_recvd is Some;
                &&& r.stop_spinner == (old(self).spinner && !kept)
                &&& (r.start_spinner_for is Some) == start
                &&& final(self).spinner == (kept || start)
            }),
    {
        let mut tool_done = false;
        match event {
            ResponseEvent::ToolUseStart { name } => {
                turn.buf.append("\n");
                turn.tool_name_being_recvd = Some(name);
            },
            ResponseEvent::AssistantText(text) => {
                turn.buf.append(text.as_str());
            },
            ResponseEvent::ToolUse(tool_use) => {
                tool_done = true;
                turn.tool_uses.push(tool_use);
                turn.tool_name_being_recvd = None;
            },
            ResponseEvent::EndStream { message } => {
                self.conversation.push_assistant_message(message);
                turn.ended = true;
                turn.buf.append("\n");
            },
        }
        let was = self.spinner;
        let shown = turn.tool_name_being_recvd.is_none() && turn.buf.as_str().unicode_len() > 0;
        if self.interactive && (tool_done || shown) {
            self.spinner = false;
        }
        let stop_spinner = was && !self.spinner;
        let mut start_spinner_for: Option<String> = None;
        if self.interactive {
            if let Some(name) = &turn.tool_name_being_recvd {
                self.spinner = true;
                start_spinner_for = Some(name.clone());
            }
        }
        ResponseStep { stop_spinner, start_spinner_for }
    }

    /// The state after the model's answer has ended.
    pub fn finish_response(turn: ResponseTurn) -> (r: ChatState)
        ensures
            turn.tool_uses@.len() > 0 ==> r == ChatState::ValidateTools(turn.tool_uses),
            turn.tool_uses@.len() == 0 ==> r matches ChatState::PromptUser {
                tool_uses: None,
                skip_printing_tools: false,
            },
    {
        if turn.tool_uses.len() > 0 {
            ChatState::ValidateTools(turn.tool_uses)
        } else {
            ChatState::PromptUser { tool_uses: None, skip_printing_tools: false }
        }
    }

    /// Handles a failure to read the model's answer: a stall or a cut-off tool
    /// use is answered by asking the model to split up its work; any other
    /// failure is handed back.
    pub fn on_recv_error(&mut self, err: RecvError) -> (r: Result<ChatState, ChatError>)
        ensures
            final(self).failed_request_ids@ == match err.request_id {
                Some(id) => old(self).failed_request_ids@.push(id),
                None => old(self).failed_request_ids@,
            },
            final(self).interactive == old(self).interactive,
            final(self).accept_all == old(self).accept_all,
            final(self).conversation.spec_id() == old(self).conversation.spec_id(),
            match err.source {
                RecvErrorKind::StreamTimeout { .. } => {
                    let h = final(self).conversation.spec_history();
                    let n = old(self).conversation.spec_history().len() as int;
                    &&& r matches Ok(ChatState::HandleResponseStream)
                    &&& final(self).spinner == (old(self).spinner || old(self).interactive)
                    &&& h.len() == n + 2
                    &&& h.subrange(0, n) == old(self).conversation.spec_history()
                    &&& h[n] matches Turn::Assistant(m) && m.message_id is None
                        && m.content@ == timeout_note() && m.tool_uses@.len() == 0
                    &&& h[n + 1] matches Turn::User(u) && u.content@ == timeout_request()
                        && u.tool_results@.len() == 0
                },
                RecvErrorKind::UnexpectedToolUseEos { tool_use_id, message, .. } => {
                    let h = final(self).conversation.spec_history();
                    let n = old(self).conversation.spec_history().len() as int;
                    &&& r matches Ok(ChatState::HandleResponseStream)
                    &&& final(self).spinner == (old(self).spinner || old(self).interactive)
                    &&& h.len() == n + 2
                    &&& h.subrange(0, n) == old(self).conversation.spec_history()
                    &&& h[n] == Turn::Assistant(message)
                    &&& h[n + 1] matches Turn::User(u) && u.tool_results@.len() == 1
                        && is_error_result(u.tool_results@[0], tool_use_id@, too_large_note())
                },
                RecvErrorKind::Other { .. } => {
                    &&& r matches Err(ChatError::ResponseStream(e)) && e == err
                    &&& final(self).conversation == old(self).conversation
                    &&& final(self).spinner == old(self).spinner
                },
            },
    {
        if let Some(id) = &err.request_id {
            self.failed_request_ids.push(id.clone());
        }
        let RecvError { request_id, source } = err;
        match source {
            RecvErrorKind::StreamTimeout { .. } => {
                if self.interactive {
                    self.spinner = true;
                }
                let ghost h0 = self.conversation.spec_history();
                self.conversation.push_assistant_message(
                    AssistantMessage {
                        message_id: None,
                        content: "Response timed out - message took too long to generate".to_owned(),
                        tool_uses: Vec::new(),
                    },
                );
                self.conversation.append_new_user_message(
                    "You took too long to respond - try to split up the work into smaller steps.".to_owned(),
                );
                proof {
                    let h = self.conversation.spec_history();
                    assert(h.subrange(0, h0.len() as int) =~= h0);
                    assert(h[h0.len() as int] == h.drop_last()[h0.len() as int]);
                    assert(h[h0.len() as int + 1] == h.last());
                }
                Ok(ChatState::HandleResponseStream)
            },
            RecvErrorKind::UnexpectedToolUseEos { tool_use_id, message, .. } => {
                if self.interactive {
                    self.spinner = true;
                }
                let ghost h0 = self.conversation.spec_history();
                self.conversation.push_assistant_message(message);
                let result = error_result(
                    tool_use_id,
                    "The generated tool was too large, try again but this time split up the work between multiple tool uses".to_owned(),
                );
                self.conversation.add_tool_results(vec![result]);
                proof {
                    let h = self.conversation.spec_history();
                    assert(h.subrange(0, h0.len() as int) =~= h0);
                    assert(h[h0.len() as int] == h.drop_last()[h0.len() as int]);
                    assert(h[h0.len() as int + 1] == h.last());
                }
                Ok(ChatState::HandleResponseStream)
            },
            RecvErrorKind::Other { description } => Err(
                ChatError::ResponseStream(
                    RecvError { request_id, source: RecvErrorKind::Other { description } },
                ),
            ),
        }
    }

    fn retry_id(&self) -> (r: String)
        ensures
            r@ == match self.conversation.spec_message_id() {
                Some(m) => m,
                None => no_utterance_id(),
            },
    {
        match self.conversation.message_id() {
            Some(m) => m.clone(),
            None => "No utterance id found".to_owned(),
        }
    }

    /// Marks the session as retrying after a failed tool use, unless it is already.
    fn note_failure(&mut self)
        ensures
            match status_after_failure(old(self).tool_use_status, old(self).conversation.spec_message_id()) {
                Some(id) => final(self).tool_use_status matches ToolUseStatus::RetryInProgress(x) && x@ == id,
                None => final(self).tool_use_status == old(self).tool_use_status,
            },
            final(self).conversation == old(self).conversation,
            final(self).interactive == old(self).interactive,
            final(self).accept_all == old(self).accept_all,
            final(self).spinner == old(self).spinner,
            final(self).tool_use_telemetry_events == old(self).tool_use_telemetry_events,
    {
        if let ToolUseStatus::Idle = self.tool_use_status {
            self.tool_use_status = ToolUseStatus::RetryInProgress(self.retry_id());
        }
    }

    /// Decides on the checked tool uses: when any check failed, every tool use
    /// is answered at once with a failed result, in order, and none runs; otherwise they run without asking when the session
    /// accepts all or none needs approval, wait for the user's approval when
    /// the session is interactive, and fail when it is not.
    pub fn validate_tools(&mut self, tool_uses: Vec<ToolUse>, checks: Vec<ToolCheck>) -> (r: Result<ChatState, ChatError>)
        requires
            checks@.len() == tool_uses@.len(),
        ensures
            final(self).interactive == old(self).interactive,
            final(self).accept_all == old(self).accept_all,
            final(self).spinner == old(self).spinner,
            final(self).conversation.spec_id() == old(self).conversation.spec_id(),
            forall|k: int| 0 <= k < tool_uses@.len() && last_with_id(tool_uses@, k, tool_uses@.len() as int)
                ==> has_validity(final(self).tool_use_telemetry_events@, #[trigger] tool_uses@[k].id@, checks@[k] is Valid),
            !all_valid(checks@) ==> {
                let h = final(self).conversation.spec_history();
                &&& r matches Ok(ChatState::HandleResponseStream)
                &&& h.drop_last() == old(self).conversation.spec_history()
                &&& h.len() == old(self).conversation.spec_history().len() + 1
                &&& h.last() matches Turn::User(u) && u.content@.len() == 0
                    && u.tool_results@.len() == tool_uses@.len()
                    && forall|k: int| 0 <= k < tool_uses@.len() ==> reports_check(tool_uses@[k], checks@[k], #[trigger] u.tool_results@[k])
                &&& awaiting(old(self).conversation.spec_history(), use_ids(tool_uses@)) ==> paired(h)
                &&& match status_after_failure(old(self).tool_use_status, old(self).conversation.spec_message_id()) {
                    Some(id) => final(self).tool_use_status matches ToolUseStatus::RetryInProgress(x) && x@ == id,
                    None => final(self).tool_use_status == old(self).tool_use_status,
                }
            },
            all_valid(checks@) ==> {
                &&& final(self).conversation.spec_history() == old(self).conversation.spec_history()
                &&& if old(self).accept_all || none_need_approval(checks@) {
                    r == Ok::<ChatState, ChatError>(ChatState::ExecuteTools(tool_uses))
                } else if old(self).interactive {
                    r == Ok::<ChatState, ChatError>(ChatState::PromptUser { tool_uses: Some(tool_uses), skip_printing_tools: false })
                } else {
                    r matches Err(ChatError::NonInteractiveToolApproval)
                }
            },
    {
        let n = tool_uses.len();
        let mut results: Vec<ToolResult> = Vec::new();
        let mut failed = false;
        let mut needs_approval = false;
        let mut i: usize = 0;
        while i < n
            invariant
                n == tool_uses@.len() == checks@.len(),
                i <= n,
                results@.len() == i,
                forall|k: int| 0 <= k < i ==> reports_check(tool_uses@[k], checks@[k], #[trigger] results@[k]),
                failed == !all_valid(checks@.subrange(0, i as int)),
                forall|k: int| 0 <= k < i && last_with_id(tool_uses@, k, i as int)
                    ==> has_validity(self.tool_use_telemetry_events@, #[trigger] tool_uses@[k].id@, checks@[k] is Valid),
                needs_approval == !none_need_approval(checks@.subrange(0, i as int)),
                self.conversation == old(self).conversation,
                self.interactive == old(self).interactive,
                self.accept_all == old(self).accept_all,
                self.spinner == old(self).spinner,
                self.tool_use_status == old(self).tool_use_status,
            decreases n - i,
        {
            let tool_use = &tool_uses[i];
            let ghost us = tool_uses@.subrange(0, i + 1);
            let ghost cs = checks@.subrange(0, i + 1);
            assert(us.drop_last() =~= tool_uses@.subrange(0, i as int));
            assert(cs.drop_last() =~= checks@.subrange(0, i as int));
            let utterance = match self.conversation.message_id() {
                Some(m) => Some(m.clone()),
                None => None,
            };
            let mut event = ToolUseEventBuilder::new(
                self.conversation.conversation_id().to_owned(),
                tool_use.id.clone(),
            ).set_tool_use_id(tool_use.id.clone()).set_tool_name(tool_use.name.clone()).utterance_id(utterance);
            let ghost before = results@;
            match &checks[i] {
                ToolCheck::Valid { requires_acceptance } => {
                    event.is_valid = Some(true);
                    if *requires_acceptance {
                        needs_approval = true;
                    }
                    let text = "This tool use was not run: another tool use of the same request failed validation.".to_owned();
                    results.push(error_result(tool_use.id.clone(), text));
                },
                ToolCheck::Unsupported(text) => {
                    event.is_valid = Some(false);
                    failed = true;
                    results.push(error_result(tool_use.id.clone(), text.clone()));
                },
                ToolCheck::Invalid(reason) => {
                    event.is_valid = Some(false);
                    failed = true;
                    let text = "Failed to validate tool parameters: ".to_owned().concat(reason.as_str());
                    results.push(error_result(tool_use.id.clone(), text));
                },
            }
            proof {
                assert forall|k: int| 0 <= k < i + 1 implies reports_check(tool_uses@[k], checks@[k], #[trigger] results@[k]) by {
                    if k < i {
                        assert(results@[k] == before[k]);
                    }
                }
                assert(all_valid(cs) == (all_valid(checks@.subrange(0, i as int)) && checks@[i as int] is Valid)) by {
                    if all_valid(cs) {
                        assert(cs[i as int] == checks@[i as int]);
                        assert forall|k: int| 0 <= k < i implies #[trigger] checks@.subrange(0, i as int)[k] is Valid by {
                            assert(cs[k] == checks@.subrange(0, i as int)[k]);
                        }
                    }
                }
                assert(none_need_approval(cs) == (none_need_approval(checks@.subrange(0, i as int))
                    && !(checks@[i as int] matches ToolCheck::Valid { requires_acceptance: true }))) by {
                    if none_need_approval(cs) {
                        assert(cs[i as int] == checks@[i as int]);
                        assert forall|k: int| 0 <= k < i implies !(#[trigger] checks@.subrange(0, i as int)[k] matches ToolCheck::Valid { requires_acceptance: true }) by {
                            assert(cs[k] == checks@.subrange(0, i as int)[k]);
                        }
                    }
                }
            }
            let ghost t0 = self.tool_use_telemetry_events@;
            let ghost valid = checks@[i as int] is Valid;
            assert(records_validity(event, tool_use.id@, valid));
            self.tool_use_telemetry_events.record(event);
            proof {
                let t1 = self.tool_use_telemetry_events@;
                assert forall|k: int| 0 <= k < i + 1 && last_with_id(tool_uses@, k, i + 1)
                    implies has_validity(t1, #[trigger] tool_uses@[k].id@, checks@[k] is Valid) by {
                    if k < i {
                        assert(last_with_id(tool_uses@, k, i as int));
                        assert(tool_uses@[i as int].id@ != tool_uses@[k].id@);
                        assert(has_validity(t0, tool_uses@[k].id@, checks@[k] is Valid));
                        let j = choose|j: int| 0 <= j < t0.len() && #[trigger] records_validity(t0[j], tool_uses@[k].id@, checks@[k] is Valid);
                        assert(t1[j] == t0[j]);
                        assert(records_validity(t1[j], tool_uses@[k].id@, checks@[k] is Valid));
                    } else {
                        let j = choose|j: int| 0 <= j < t1.len() && #[trigger] t1[j] == event;
                        assert(records_validity(t1[j], tool_uses@[k].id@, checks@[k] is Valid));
                    }
                }
            }
            i = i + 1;
        }
        proof {
            assert(tool_uses@.subrange(0, n as int) =~= tool_uses@);
            assert(checks@.subrange(0, n as int) =~= checks@);
        }
        if failed {
            let ghost h0 = self.conversation.spec_history();
            let ghost rs = results@;
            self.conversation.add_tool_results(results);
            proof {
                let h = self.conversation.spec_history();
                if awaiting(h0, use_ids(tool_uses@)) {
                    assert(crate::model::result_ids(rs) =~= use_ids(tool_uses@));
                    assert(h =~= h0.push(h.last()));
                    lemma_answer_completes_pairing(h0, h.last());
                }
            }
            self.note_failure();
            return Ok(ChatState::HandleResponseStream);
        }
        if self.accept_all || !needs_approval {
            Ok(ChatState::ExecuteTools(tool_uses))
        } else if self.interactive {
            Ok(ChatState::PromptUser { tool_uses: Some(tool_uses), skip_printing_tools: false })
        } else {
            Err(ChatError::NonInteractiveToolApproval)
        }
    }

    /// Records what running each tool gave, in order, and sends the results.
    pub fn record_tool_outcomes(&mut self, tool_uses: &Vec<ToolUse>, outcomes: Vec<ToolOutcome>) -> (r: ChatState)
        requires
            outcomes@.len() == tool_uses@.len(),
        ensures
            r is HandleResponseStream,
            final(self).interactive == old(self).interactive,
            final(self).accept_all == old(self).accept_all,
            final(self).spinner == old(self).spinner,
            final(self).conversation.spec_id() == old(self).conversation.spec_id(),
            ({
                let h = final(self).conversation.spec_history();
                &&& h.drop_last() == old(self).conversation.spec_history()
                &&& h.len() == old(self).conversation.spec_history().len() + 1
                &&& h.last() matches Turn::User(u) && u.content@.len() == 0
                    && u.tool_results@.len() == tool_uses@.len()
                    && forall|k: int| 0 <= k < tool_uses@.len() ==> reports_outcome(tool_uses@[k], outcomes@[k], #[trigger] u.tool_results@[k])
            }),
            (exists|k: int| 0 <= k < outcomes@.len() && #[trigger] outcomes@[k] is Failure) ==> match status_after_failure(old(self).tool_use_status, old(self).conversation.spec_message_id()) {
                Some(id) => final(self).tool_use_status matches ToolUseStatus::RetryInProgress(x) && x@ == id,
                None => final(self).tool_use_status == old(self).tool_use_status,
            },
            (forall|k: int| 0 <= k < outcomes@.len() ==> #[trigger] outcomes@[k] is Success) ==> final(self).tool_use_status == old(self).tool_use_status,
            awaiting(old(self).conversation.spec_history(), use_ids(tool_uses@)) ==> paired(final(self).conversation.spec_history()),
            ({
                let t0 = old(self).tool_use_telemetry_events@;
                let t1 = final(self).tool_use_telemetry_events@;
                &&& t1.len() == t0.len()
                &&& forall|j: int| 0 <= j < t0.len() && untouched(t0[j], tool_uses@, tool_uses@.len() as int) ==> #[trigger] t1[j] == t0[j]
                &&& ids_distinct(tool_uses@) ==> forall|j: int, k: int|
                    #![trigger t1[j], tool_uses@[k]]
                    0 <= j < t0.len() && 0 <= k < tool_uses@.len() && record_id(t0[j]) == Some(tool_uses@[k].id@)
                        ==> t1[j] == marked(t0[j], outcomes@[k] is Success)
            }),
    {
        let ghost all = outcomes@;
        let ghost t0 = self.tool_use_telemetry_events@;
        let ghost good = ids_distinct(tool_uses@);
        let mut rest = outcomes;
        let n = tool_uses.len();
        let mut results: Vec<ToolResult> = Vec::new();
        let mut failed = false;
        let mut i: usize = 0;
        while i < n
            invariant
                n == tool_uses@.len() == all.len(),
                i <= n,
                rest@ == all.subrange(i as int, n as int),
                results@.len() == i,
                forall|k: int| 0 <= k < i ==> reports_outcome(tool_uses@[k], all[k], #[trigger] results@[k]),
                failed == exists|k: int| 0 <= k < i && #[trigger] all[k] is Failure,
                t0 == old(self).tool_use_telemetry_events@,
                good == ids_distinct(tool_uses@),
                self.tool_use_telemetry_events@.len() == t0.len(),
                forall|j: int| 0 <= j < t0.len() ==> record_id(#[trigger] self.tool_use_telemetry_events@[j]) == record_id(t0[j]),
                forall|j: int| 0 <= j < t0.len() && untouched(t0[j], tool_uses@, i as int) ==> #[trigger] self.tool_use_telemetry_events@[j] == t0[j],
                good ==> forall|j: int, k: int|
                    #![trigger self.tool_use_telemetry_events@[j], tool_uses@[k]]
                    0 <= j < t0.len() && 0 <= k < i && record_id(t0[j]) == Some(tool_uses@[k].id@)
                        ==> self.tool_use_telemetry_events@[j] == marked(t0[j], all[k] is Success),
                self.conversation == old(self).conversation,
                self.interactive == old(self).interactive,
                self.accept_all == old(self).accept_all,
                self.spinner == old(self).spinner,
                self.tool_use_status == old(self).tool_use_status,
            decreases n - i,
        {
            let outcome = rest.remove(0);
            assert(outcome == all[i as int]);
            let id = tool_uses[i].id.clone();
            let ghost tp = self.tool_use_telemetry_events@;
            let ghost success = all[i as int] is Success;
            let result = match outcome {
                ToolOutcome::Success(content) => {
                    self.tool_use_telemetry_events.mark(&id, true);
                    let ghost c = content;
                    let blocks = vec![content];
                    assert(blocks@ =~= seq![c]);
                    ToolResult { tool_use_id: id, status: ToolResultStatus::Success, content: blocks }
                },
                ToolOutcome::Failure(reason) => {
                    self.tool_use_telemetry_events.mark(&id, false);
                    failed = true;
                    error_result(id, "An error occurred processing the tool: \n".to_owned().concat(reason.as_str()))
                },
            };
            proof {
                let tn = self.tool_use_telemetry_events@;
                assert forall|j: int| 0 <= j < t0.len() && untouched(t0[j], tool_uses@, i + 1) implies #[trigger] tn[j] == t0[j] by {
                    assert(untouched(t0[j], tool_uses@, i as int));
                    assert(record_id(t0[j]) != Some(tool_uses@[i as int].id@));
                    assert(tp[j] == t0[j]);
                }
                assert forall|j: int| 0 <= j < t0.len() implies record_id(#[trigger] tn[j]) == record_id(t0[j]) by {
                    assert(record_id(tn[j]) == record_id(tp[j]));
                }
                if good {
                    assert forall|j: int, k: int|
                        #![trigger tn[j], tool_uses@[k]]
                        0 <= j < t0.len() && 0 <= k < i + 1 && record_id(t0[j]) == Some(tool_uses@[k].id@)
                            implies tn[j] == marked(t0[j], all[k] is Success) by {
                        if k < i {
                            assert(tool_uses@[k].id@ != tool_uses@[i as int].id@);
                            assert(record_id(tp[j]) == record_id(t0[j]));
                            assert(tp[j] == marked(t0[j], all[k] is Success));
                        } else {
                            assert forall|m: int| 0 <= m < i implies record_id(t0[j]) != Some(#[trigger] tool_uses@[m].id@) by {
                                assert(tool_uses@[m].id@ != tool_uses@[i as int].id@);
                            }
                            assert(untouched(t0[j], tool_uses@, i as int));
                            assert(tp[j] == t0[j]);
                        }
                    }
                }
            }
            assert(reports_outcome(tool_uses@[i as int], all[i as int], result));
            let ghost before = results@;
            results.push(result);
            assert forall|k: int| 0 <= k < i + 1 implies reports_outcome(tool_uses@[k], all[k], #[trigger] results@[k]) by {
                if k < i {
                    assert(results@[k] == before[k]);
                }
            }
            assert(rest@ =~= all.subrange(i + 1, n as int));
            i = i + 1;
        }
        let ghost h0 = self.conversation.spec_history();
        let ghost rs = results@;
        self.conversation.add_tool_results(results);
        proof {
            let h = self.conversation.spec_history();
            if awaiting(h0, use_ids(tool_uses@)) {
                assert(crate::model::result_ids(rs) =~= use_ids(tool_uses@));
                assert(h =~= h0.push(h.last()));
                lemma_answer_completes_pairing(h0, h.last());
            }
        }
        if failed {
            self.note_failure();
        }
        ChatState::HandleResponseStream
    }

    /// Hands out the telemetry records of tool uses, each marked with the
    /// request it answers, and forgets them.
    pub fn take_tool_telemetry(&mut self) -> (r: Vec<ToolUseEventBuilder>)
        ensures
            r@.len() == old(self).tool_use_telemetry_events@.len(),
            final(self).tool_use_telemetry_events@.len() == 0,
            forall|k: int| 0 <= k < r@.len() ==> crate::telemetry::opt_view(#[trigger] r@[k].user_input_id) == match old(self).tool_use_status {
                ToolUseStatus::Idle => old(self).conversation.spec_message_id(),
                ToolUseStatus::RetryInProgress(id) => Some(id@),
            },
            forall|k: int| 0 <= k < r@.len() ==> #[trigger] r@[k] == (ToolUseEventBuilder {
                user_input_id: r@[k].user_input_id,
                ..old(self).tool_use_telemetry_events@[k]
            }),
            final(self).conversation == old(self).conversation,
            final(self).tool_use_status == old(self).tool_use_status,
            final(self).interactive == old(self).interactive,
            final(self).accept_all == old(self).accept_all,
            final(self).spinner == old(self).spinner,
    {
        let mut events = self.tool_use_telemetry_events.take();
        let ghost orig = events@;
        let mut out: Vec<ToolUseEventBuilder> = Vec::new();
        let mut i: usize = 0;
        let n = events.len();
        while i < n
            invariant
                n == orig.len(),
                i <= n,
                events@ == orig.subrange(i as int, n as int),
                out@.len() == i,
                forall|k: int| 0 <= k < i ==> crate::telemetry::opt_view(#[trigger] out@[k].user_input_id) == match self.tool_use_status {
                    ToolUseStatus::Idle => self.conversation.spec_message_id(),
                    ToolUseStatus::RetryInProgress(id) => Some(id@),
                },
                forall|k: int| 0 <= k < i ==> #[trigger] out@[k] == (ToolUseEventBuilder {
                    user_input_id: out@[k].user_input_id,
                    ..orig[k]
                }),
                self.conversation == old(self).conversation,
                self.tool_use_status == old(self).tool_use_status,
                self.interactive == old(self).interactive,
                self.accept_all == old(self).accept_all,
                self.spinner == old(self).spinner,
                self.tool_use_telemetry_events@.len() == 0,
            decreases n - i,
        {
            let mut event = events.remove(0);
            assert(event == orig[i as int]);
            event.user_input_id = match &self.tool_use_status {
                ToolUseStatus::Idle => match self.conversation.message_id() {
                    Some(m) => Some(m.clone()),
                    None => None,
                },
                ToolUseStatus::RetryInProgress(id) => Some(id.clone()),
            };
            out.push(event);
            assert(events@ =~= orig.subrange(i + 1, n as int));
            i = i + 1;
        }
        out
    }

    /// What an issue report learns of the session: copies, not references.
    pub fn issue_context(&self) -> (r: IssueContext)
        ensures
            strings_view(r.transcript@) == self.conversation.spec_transcript(),
            strings_view(r.failed_request_ids@) == strings_view(self.failed_request_ids@),
            r.accept_all == self.accept_all,
            r.interactive == self.interactive,
    {
        let t = copy_strings(self.conversation.transcript());
        IssueContext {
            transcript: t,
            failed_request_ids: copy_strings(&self.failed_request_ids),
            accept_all: self.accept_all,
            interactive: self.interactive,
        }
    }

    /// Recovers from an error: the spinner goes, the error is shown and
    /// recorded (an interrupt instead records the abandoned tool uses and a
    /// note), the history is repaired, and the user is prompted again.
    pub fn handle_error(&mut self, err: ChatError) -> (r: ErrorReport)
        ensures
            r.next matches ChatState::PromptUser { tool_uses: None, skip_printing_tools: false },
            !final(self).spinner,
            r.clear_spinner == (old(self).interactive && old(self).spinner),
            r.fatal == (err is NonInteractiveToolApproval),
            final(self).interactive == old(self).interactive,
            final(self).accept_all == old(self).accept_all,
            final(self).conversation.spec_id() == old(self).conversation.spec_id(),
            paired(final(self).conversation.spec_history()),
            match err {
                ChatError::Interrupted { tool_uses: Some(ts) } => {
                    &&& r.text is None
                    &&& final(self).conversation.spec_transcript() == old(self).conversation.spec_transcript()
                    &&& exists|g: Seq<Turn>| interrupt_recorded(g, old(self).conversation.spec_history(), ts@)
                        && final(self).conversation.spec_history() == repaired(g)
                    &&& awaiting(old(self).conversation.spec_history(), use_ids(ts@)) ==> interrupt_recorded(
                        final(self).conversation.spec_history(),
                        old(self).conversation.spec_history(),
                        ts@,
                    )
                },
                ChatError::Interrupted { tool_uses: None } => {
                    &&& r.text is None
                    &&& final(self).conversation.spec_transcript() == old(self).conversation.spec_transcript()
                    &&& final(self).conversation.spec_history() == repaired(old(self).conversation.spec_history())
                },
                ChatError::Client(ClientError::QuotaBreach(m)) => {
                    &&& r.text matches Some(t) && t@ == m@
                    &&& final(self).conversation.spec_transcript() == old(self).conversation.spec_transcript().push(m@)
                    &&& final(self).conversation.spec_history() == repaired(old(self).conversation.spec_history())
                },
                _ => {
                    &&& r.text matches Some(t) && t@ == cleaned(trouble_header() + ": "@ + err.message_view() + "\n"@)
                    &&& final(self).conversation.spec_transcript() == old(self).conversation.spec_transcript().push(
                        r.text->Some_0@,
                    )
                    &&& final(self).conversation.spec_history() == repaired(old(self).conversation.spec_history())
                },
            },
    {
        let ghost e0 = err;
        let clear_spinner = self.interactive && self.spinner;
        self.spinner = false;
        let fatal = match &err {
            ChatError::NonInteractiveToolApproval => true,
            _ => false,
        };
        let ghost h0 = self.conversation.spec_history();
        let text = match err {
            ChatError::Interrupted { tool_uses } => {
                if let Some(ts) = tool_uses {
                    self.conversation.abandon_tool_use(&ts, "The user interrupted the tool execution.".to_owned());
                    self.conversation.push_assistant_message(
                        AssistantMessage {
                            message_id: None,
                            content: "Tool uses were interrupted, waiting for the next user prompt".to_owned(),
                            tool_uses: Vec::new(),
                        },
                    );
                    proof {
                        let g = self.conversation.spec_history();
                        assert(g.subrange(0, h0.len() as int) =~= h0);
                        assert(g[h0.len() as int] == g.drop_last().last());
                        assert(g[h0.len() as int + 1] == g.last());
                        assert(interrupt_recorded(g, h0, ts@));
                    }
                }
                None
            },
            ChatError::Client(ClientError::QuotaBreach(m)) => {
                self.conversation.append_transcript(m.clone());
                Some(m)
            },
            other => {
                let raw = "Amazon Q is having trouble responding right now".to_owned().concat(": ").concat(
                    other.message().as_str(),
                ).concat("\n");
                let t = strip_escapes(raw.as_str());
                self.conversation.append_transcript(t.clone());
                Some(t)
            },
        };
        let ghost g = self.conversation.spec_history();
        self.conversation.fix_history();
        proof {
            if let ChatError::Interrupted { tool_uses: Some(ts) } = e0 {
                if awaiting(h0, use_ids(ts@)) {
                    lemma_interrupt_keeps_pairing(g, h0, ts@);
                }
            }
        }
        ErrorReport {
            text,
            clear_spinner,
            fatal,
            next: ChatState::PromptUser { tool_uses: None, skip_printing_tools: false },
        }
    }

    /// Tears the terminal down at the end of the session, whatever its mode:
    /// the spinner stops, the cursor comes back and colours and attributes are
    /// reset before the output is flushed.
    pub fn shutdown(&mut self) -> (r: Vec<TerminalOp>)
        ensures
            !final(self).spinner,
            r@ == seq![
                TerminalOp::MoveToColumnZero,
                TerminalOp::ResetAttributes,
                TerminalOp::ResetColors,
                TerminalOp::ShowCursor,
                TerminalOp::Flush,
            ],
    {
        self.spinner = false;
        let ops = vec![
            TerminalOp::MoveToColumnZero,
            TerminalOp::ResetAttributes,
            TerminalOp::ResetColors,
            TerminalOp::ShowCursor,
            TerminalOp::Flush,
        ];
        assert(ops@ =~= seq![
            TerminalOp::MoveToColumnZero,
            TerminalOp::ResetAttributes,
            TerminalOp::ResetColors,
            TerminalOp::ShowCursor,
            TerminalOp::Flush,
        ]);
        ops
    }
}

fn copy_strings(v: &Vec<String>) -> (r: Vec<String>)
    ensures
        strings_view(r@) == strings_view(v@),
{
    let mut r: Vec<String> = Vec::new();
    let mut i: usize = 0;
    while i < v.len()
        invariant
            i <= v@.len(),
            strings_view(r@) == strings_view(v@).subrange(0, i as int),
        decreases v.len() - i,
    {
        let ghost before = r@;
        r.push(v[i].clone());
        assert(strings_view(r@) =~= strings_view(before).push(v@[i as int]@));
        assert(strings_view(v@).subrange(0, i + 1) =~= strings_view(v@).subrange(0, i as int).push(v@[i as int]@));
        i = i + 1;
    }
    assert(strings_view(v@).subrange(0, i as int) =~= strings_view(v@));
    r
}

} // verus!
