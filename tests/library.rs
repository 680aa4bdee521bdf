use qchat::command::{Command, ContextSubcommand, ProfileSubcommand};
use qchat::conversation::ConversationState;
use qchat::doc_metrics::DocMetrics;
use qchat::escapes::strip_escapes;
use qchat::model::{AssistantMessage, ToolResultContent, ToolResultStatus, ToolUse, Turn};
use qchat::parser::{RecvError, RecvErrorKind, ResponseEvent, ResponseParser, StreamEvent, split_tool_use_event};
use qchat::script::{ScriptElement, ScriptJson, ScriptMember, script_elements, script_events, script_turns};
use qchat::session::{
    ChatContext, ChatError, ChatState, ClientError, check_profile, InputEffect, PromptOutcome, ResponseTurn, TerminalOp,
    ToolCheck, ToolOutcome, ToolUseStatus, is_interactive, issue_prompt, read_outcome, terminal_width,
    tools_phrase, with_piped_input,
};
use qchat::telemetry::ToolUseEventBuilder;
use qchat::{elapsed_text, truncate_safe};

fn json(text: &str) -> serde_json::Value {
    serde_json::from_str(text).unwrap()
}

fn tool_use(id: &str) -> ToolUse {
    let text = r#"{"command":"create","file_text":"Hello, world!","path":"/file.txt"}"#;
    ToolUse { id: id.to_string(), name: "fs_write".to_string(), args: json(text), args_text: text.to_string() }
}

fn script(v: &serde_json::Value) -> ScriptJson {
    match v {
        serde_json::Value::String(s) => ScriptJson::Str(s.clone()),
        serde_json::Value::Array(xs) => ScriptJson::Arr(xs.iter().map(script).collect()),
        serde_json::Value::Object(m) => ScriptJson::Obj(
            m.iter()
                .map(|(k, v)| ScriptMember { key: k.clone(), value: script(v), text: v.to_string() })
                .collect(),
        ),
        _ => ScriptJson::Other,
    }
}

fn assistant_with_tools(ids: &[&str]) -> AssistantMessage {
    AssistantMessage {
        message_id: Some("m1".to_string()),
        content: "Sure, I'll create a file for you".to_string(),
        tool_uses: ids.iter().map(|i| tool_use(i)).collect(),
    }
}

fn user_texts(h: &[Turn]) -> Vec<String> {
    h.iter()
        .filter_map(|t| match t {
            Turn::User(u) => Some(u.content.clone()),
            Turn::Assistant(_) => None,
        })
        .collect()
}

#[test]
fn truncate_safe_keeps_short_text() {
    assert_eq!(truncate_safe("hello", 10), "hello");
    assert_eq!(truncate_safe("hello", 5), "hello");
}

#[test]
fn truncate_safe_cuts_ascii() {
    assert_eq!(truncate_safe("hello world", 5), "hello");
    assert_eq!(truncate_safe("hello", 0), "");
}

#[test]
fn truncate_safe_respects_char_boundaries() {
    // 'é' takes two bytes, starting at byte 1.
    assert_eq!(truncate_safe("héllo", 2), "h");
    assert_eq!(truncate_safe("héllo", 3), "hé");
}

#[test]
fn elapsed_text_has_three_decimals() {
    assert_eq!(elapsed_text(1234), "1.234");
    assert_eq!(elapsed_text(5), "0.005");
    assert_eq!(elapsed_text(60_070), "60.070");
}

#[test]
fn parse_plain_prompt_is_trimmed() {
    match Command::parse("  hello there \n").unwrap() {
        Command::Ask { prompt } => assert_eq!(prompt, "hello there"),
        _ => panic!("expected a prompt"),
    }
}

#[test]
fn parse_simple_commands() {
    assert!(matches!(Command::parse("/clear").unwrap(), Command::Clear));
    assert!(matches!(Command::parse("/help").unwrap(), Command::Help));
    assert!(matches!(Command::parse("/acceptall").unwrap(), Command::AcceptAll));
    assert!(matches!(Command::parse("/quit").unwrap(), Command::Quit));
}

#[test]
fn parse_shell_escape() {
    match Command::parse("!ls -la").unwrap() {
        Command::Execute { command } => assert_eq!(command, "ls -la"),
        _ => panic!("expected a shell command"),
    }
}

#[test]
fn parse_issue_joins_words() {
    match Command::parse("/issue  it   broke").unwrap() {
        Command::Issue { prompt } => assert_eq!(prompt.as_deref(), Some("it broke")),
        _ => panic!("expected an issue"),
    }
    assert!(matches!(Command::parse("/issue").unwrap(), Command::Issue { prompt: None }));
}

#[test]
fn parse_unknown_slash_is_a_prompt() {
    match Command::parse("/unknown thing").unwrap() {
        Command::Ask { prompt } => assert_eq!(prompt, "/unknown thing"),
        _ => panic!("expected a prompt"),
    }
}

#[test]
fn parse_profile_commands() {
    assert!(matches!(
        Command::parse("/profile").unwrap(),
        Command::Profile { subcommand: ProfileSubcommand::Help }
    ));
    match Command::parse("/profile create work").unwrap() {
        Command::Profile { subcommand: ProfileSubcommand::Create { name } } => assert_eq!(name, "work"),
        _ => panic!("expected create"),
    }
    match Command::parse("/profile rename a b").unwrap() {
        Command::Profile { subcommand: ProfileSubcommand::Rename { old_name, new_name } } => {
            assert_eq!(old_name, "a");
            assert_eq!(new_name, "b");
        },
        _ => panic!("expected rename"),
    }
}

#[test]
fn parse_profile_errors() {
    assert_eq!(
        Command::parse("/profile create").err().unwrap(),
        "Usage: /profile create <profile_name>"
    );
    assert_eq!(
        Command::parse("/profile frobnicate").err().unwrap(),
        "Unknown /profile subcommand: frobnicate"
    );
}

#[test]
fn parse_context_add_flags_and_paths() {
    match Command::parse("/context add --global a.md -f b.md").unwrap() {
        Command::Context { subcommand: ContextSubcommand::Add { global, force, paths } } => {
            assert!(global);
            assert!(force);
            assert_eq!(paths, vec!["a.md".to_string(), "b.md".to_string()]);
        },
        _ => panic!("expected add"),
    }
    assert!(Command::parse("/context add --global").is_err());
    assert!(Command::parse("/context rm").is_err());
    assert!(matches!(
        Command::parse("/context show --expand").unwrap(),
        Command::Context { subcommand: ContextSubcommand::Show { expand: true } }
    ));
}

#[test]
fn canonical_profile_and_context_round_trip() {
    let lines = [
        "/profile list",
        "/profile create work",
        "/profile delete work",
        "/profile set work",
        "/profile rename a b",
        "/profile help",
        "/context show",
        "/context show --expand",
        "/context add --global --force a.md b.md",
        "/context add c.md",
        "/context rm --global a.md",
        "/context clear",
        "/context clear --global",
        "/context help",
    ];
    for line in lines {
        let command = Command::parse(line).unwrap();
        assert_eq!(command.to_canonical(), line);
        assert_eq!(Command::parse(&command.to_canonical()).unwrap().to_canonical(), line);
    }
}

#[test]
fn canonical_form_normalizes_flag_order() {
    let command = Command::parse("/context add -f x --global").unwrap();
    assert_eq!(command.to_canonical(), "/context add --global --force x");
}

#[test]
fn fix_history_drops_unanswered_tool_uses_and_is_idempotent() {
    let mut c = ConversationState::new("conv".to_string());
    c.append_new_user_message("create a new file".to_string());
    c.push_assistant_message(assistant_with_tools(&["1"]));
    assert_eq!(c.history().len(), 2);
    c.fix_history();
    assert_eq!(c.history().len(), 1);
    c.fix_history();
    assert_eq!(c.history().len(), 1);
    assert_eq!(c.conversation_id(), "conv");
}

#[test]
fn fix_history_keeps_answered_tool_uses() {
    let mut c = ConversationState::new("conv".to_string());
    c.append_new_user_message("create a new file".to_string());
    c.push_assistant_message(assistant_with_tools(&["1", "2"]));
    c.abandon_tool_use(&vec![tool_use("1"), tool_use("2")], "no".to_string());
    c.fix_history();
    assert_eq!(c.history().len(), 3);
    match &c.history()[2] {
        Turn::User(u) => {
            let ids: Vec<&str> = u.tool_results.iter().map(|r| r.tool_use_id.as_str()).collect();
            assert_eq!(ids, vec!["1", "2"]);
            assert!(u.tool_results.iter().all(|r| r.status == ToolResultStatus::Error));
        },
        _ => panic!("expected a user turn"),
    }
}

#[test]
fn fix_history_drops_results_without_tool_uses() {
    let mut c = ConversationState::new("conv".to_string());
    c.append_new_user_message("hi".to_string());
    c.abandon_tool_use(&vec![tool_use("9")], "stray".to_string());
    c.fix_history();
    assert_eq!(c.history().len(), 1);
}

#[test]
fn clear_keeps_conversation_id() {
    let mut c = ConversationState::new("abc".to_string());
    c.append_new_user_message("hello".to_string());
    c.clear();
    assert_eq!(c.history().len(), 0);
    assert_eq!(c.conversation_id(), "abc");
}

#[test]
fn push_assistant_message_records_message_id() {
    let mut c = ConversationState::new("abc".to_string());
    assert!(c.message_id().is_none());
    c.push_assistant_message(assistant_with_tools(&[]));
    assert_eq!(c.message_id().map(|s| s.as_str()), Some("m1"));
}

#[test]
fn split_tool_use_event_makes_four_fragments() {
    let args = r#"{"command":"create","file_text":"Hello, world!","path":"/file.txt"}"#;
    let events = split_tool_use_event(&"1".to_string(), &"fs_write".to_string(), args);
    assert_eq!(events.len(), 4);
    let mut joined = String::new();
    for e in &events {
        if let StreamEvent::ToolUseEvent { input: Some(i), .. } = e {
            joined.push_str(i);
        }
    }
    assert_eq!(joined, args);
    assert!(matches!(events[3], StreamEvent::ToolUseEvent { stop: Some(true), .. }));
}

#[test]
fn parser_reassembles_split_tool_use() {
    let original = json(r#"{"command":"create","file_text":"Hello, world!","path":"/file.txt"}"#);
    let text = original.to_string();
    let mut parser = ResponseParser::new();
    let mut out = Vec::new();
    for e in split_tool_use_event(&"1".to_string(), &"fs_write".to_string(), &text) {
        out.extend(parser.step(e).ok().unwrap());
    }
    assert_eq!(out.len(), 2);
    assert!(matches!(&out[0], ResponseEvent::ToolUseStart { name } if name == "fs_write"));
    match &out[1] {
        ResponseEvent::ToolUse(u) => {
            assert_eq!(u.id, "1");
            assert_eq!(u.args, original);
            assert_eq!(u.args.to_string(), text);
        },
        _ => panic!("expected a tool use"),
    }
}

#[test]
fn parser_rejects_invalid_arguments() {
    let mut parser = ResponseParser::new();
    let start = StreamEvent::ToolUseEvent {
        tool_use_id: "1".to_string(),
        name: "fs_write".to_string(),
        input: Some("{not json".to_string()),
        stop: None,
    };
    let stop = StreamEvent::ToolUseEvent { tool_use_id: "1".to_string(), name: "fs_write".to_string(), input: None, stop: Some(true) };
    assert!(parser.step(start).is_ok());
    let err = parser.step(stop).err().unwrap();
    assert!(matches!(err.source, RecvErrorKind::Other { .. }));
}

#[test]
fn parser_ends_with_whole_message() {
    let mut parser = ResponseParser::new();
    parser.step(StreamEvent::MessageMetadata { message_id: "mid".to_string() }).ok().unwrap();
    parser.step(StreamEvent::AssistantResponse { content: "Hope that ".to_string() }).ok().unwrap();
    parser.step(StreamEvent::AssistantResponse { content: "looks good".to_string() }).ok().unwrap();
    match parser.finish().ok().unwrap() {
        ResponseEvent::EndStream { message } => {
            assert_eq!(message.content, "Hope that looks good");
            assert_eq!(message.message_id.as_deref(), Some("mid"));
            assert!(message.tool_uses.is_empty());
        },
        _ => panic!("expected the end of the stream"),
    }
}

#[test]
fn parser_reports_cut_off_tool_use() {
    let mut parser = ResponseParser::new();
    let start = StreamEvent::ToolUseEvent { tool_use_id: "7".to_string(), name: "x".to_string(), input: Some("{".to_string()), stop: None };
    parser.step(start).ok().unwrap();
    match parser.finish().err().unwrap().source {
        RecvErrorKind::UnexpectedToolUseEos { tool_use_id, name, .. } => {
            assert_eq!(tool_use_id, "7");
            assert_eq!(name, "x");
        },
        _ => panic!("expected a cut-off tool use"),
    }
}

#[test]
fn parser_gives_empty_arguments_an_empty_object() {
    let mut parser = ResponseParser::new();
    let stop = StreamEvent::ToolUseEvent { tool_use_id: "1".to_string(), name: "n".to_string(), input: None, stop: Some(true) };
    let out = parser.step(stop).ok().unwrap();
    match &out[1] {
        ResponseEvent::ToolUse(u) => assert_eq!(u.args, json("{}")),
        _ => panic!("expected a tool use"),
    }
}

#[test]
fn script_turns_reads_create_file_script() {
    let value = json(
        r#"[["Sure, I'll create a file for you", {"tool_use_id": "1", "name": "fs_write", "args": {"command": "create", "file_text": "Hello, world!", "path": "/file.txt"}}], ["Hope that looks good to you!"]]"#,
    );
    let turns = script_turns(&script(&value));
    assert_eq!(turns.len(), 2);
    assert_eq!(turns[0].len(), 5);
    assert_eq!(turns[1].len(), 1);
    assert!(script_elements(&script(&json("[[1]]"))).is_none());
    assert!(script_elements(&script(&json("{}"))).is_none());
    assert!(script_elements(&script(&json(r#"[[{"tool_use_id": 1, "name": "n", "args": {}}]]"#))).is_none());
    match &script_elements(&script(&value)).unwrap()[0][1] {
        ScriptElement::ToolUse { tool_use_id, name, args } => {
            assert_eq!(tool_use_id, "1");
            assert_eq!(name, "fs_write");
            assert_eq!(json(args), json(r#"{"command":"create","file_text":"Hello, world!","path":"/file.txt"}"#));
        },
        ScriptElement::Text(_) => panic!("expected a tool use"),
    }
}

#[test]
fn strip_escapes_removes_ansi_and_non_ascii() {
    assert_eq!(strip_escapes("\x1b[31mred\x1b[0m caf\u{e9}!"), "red caf!");
    assert_eq!(strip_escapes("plain"), "plain");
}

#[test]
fn doc_metrics_builder_defaults_character_counts_to_zero() {
    let m = DocMetrics::builder().accepted_number_of_add_files(3).characters_added_total(40).build();
    assert_eq!(m.accepted_number_of_add_files(), Some(3));
    assert_eq!(m.total_number_of_add_files(), None);
    assert_eq!(m.characters_added_total(), 40);
    assert_eq!(m.characters_added_accepted(), 0);
    assert_eq!(m.characters_updated_total(), 0);
}

#[test]
fn doc_metrics_builder_setters_and_getters() {
    let b = DocMetrics::builder()
        .set_total_number_of_update_lines(Some(9))
        .set_characters_updated_accepted(Some(-2))
        .total_number_of_add_lines(4);
    assert_eq!(*b.get_total_number_of_update_lines(), Some(9));
    assert_eq!(*b.get_characters_updated_accepted(), Some(-2));
    assert_eq!(*b.get_total_number_of_add_lines(), Some(4));
    assert_eq!(*b.get_accepted_number_of_update_files(), None);
    let m = b.set_total_number_of_update_lines(None).build();
    assert_eq!(m.total_number_of_update_lines(), None);
    assert_eq!(m.characters_updated_accepted(), -2);
}

#[test]
fn tool_use_event_builder_sets_fields() {
    let e = ToolUseEventBuilder::new("conv".to_string(), "t1".to_string())
        .set_tool_use_id("t2".to_string())
        .set_tool_name("fs_read".to_string())
        .utterance_id(Some("u".to_string()));
    assert_eq!(e.conversation_id, "conv");
    assert_eq!(e.tool_use_id.as_deref(), Some("t2"));
    assert_eq!(e.tool_name.as_deref(), Some("fs_read"));
    assert_eq!(e.utterance_id.as_deref(), Some("u"));
    assert!(!e.is_accepted);
    assert_eq!(e.is_valid, None);
}

#[test]
fn prompt_requires_two_ends_of_input_to_exit() {
    assert!(matches!(read_outcome(None, false), PromptOutcome::ExitHint));
    assert!(matches!(read_outcome(None, true), PromptOutcome::Exit));
    assert!(matches!(read_outcome(Some("x".to_string()), true), PromptOutcome::Line(l) if l == "x"));
}

#[test]
fn small_helpers() {
    assert_eq!(tools_phrase(1), "this tool");
    assert_eq!(tools_phrase(2), "these tools");
    assert_eq!(terminal_width(None), 80);
    assert_eq!(terminal_width(Some(120)), 120);
    assert!(is_interactive(false, true));
    assert!(!is_interactive(true, true));
    assert!(!is_interactive(false, false));
    assert_eq!(with_piped_input(Some("a ".to_string()), Some("b".to_string())).as_deref(), Some("a b"));
    assert_eq!(with_piped_input(None, Some("b".to_string())).as_deref(), Some("b"));
    assert_eq!(with_piped_input(Some("a".to_string()), None).as_deref(), Some("a"));
    assert_eq!(issue_prompt(None), "I would like to report an issue or make a feature request");
    assert_eq!(
        issue_prompt(Some("crash".to_string())),
        "I would like to report an issue or make a feature request: crash"
    );
}

#[test]
fn initial_input_is_handled_first() {
    assert!(matches!(
        ChatContext::initial_state(Some("hi".to_string())),
        ChatState::HandleInput { input, tool_uses: None } if input == "hi"
    ));
    assert!(matches!(
        ChatContext::initial_state(None),
        ChatState::PromptUser { tool_uses: None, skip_printing_tools: true }
    ));
    assert!(matches!(ChatState::default(), ChatState::PromptUser { tool_uses: None, skip_printing_tools: false }));
}

fn session_awaiting_approval(interactive: bool) -> ChatContext {
    let mut s = ChatContext::new("conv".to_string(), interactive, false);
    s.handle_input("create a new file".to_string(), None);
    s.conversation.push_assistant_message(assistant_with_tools(&["1"]));
    s
}

#[test]
fn approving_runs_pending_tools() {
    let mut s = session_awaiting_approval(true);
    let step = s.handle_input("y".to_string(), Some(vec![tool_use("1")]));
    match step.next {
        ChatState::ExecuteTools(ts) => assert_eq!(ts[0].id, "1"),
        _ => panic!("expected the tools to run"),
    }
    assert_eq!(s.conversation.history().len(), 2);
}

#[test]
fn other_input_abandons_pending_tools() {
    let mut s = session_awaiting_approval(true);
    let step = s.handle_input("no, actually delete it".to_string(), Some(vec![tool_use("1")]));
    assert!(matches!(step.next, ChatState::HandleResponseStream));
    let h = s.conversation.history();
    assert_eq!(h.len(), 3);
    match &h[2] {
        Turn::User(u) => {
            assert_eq!(u.content, "no, actually delete it");
            assert_eq!(u.tool_results.len(), 1);
            assert_eq!(u.tool_results[0].tool_use_id, "1");
            assert_eq!(u.tool_results[0].status, ToolResultStatus::Error);
        },
        _ => panic!("expected a user turn"),
    }
    assert!(s.spinner);
    assert_eq!(user_texts(h), vec!["create a new file".to_string(), "no, actually delete it".to_string()]);
}

#[test]
fn clear_command_empties_history() {
    let mut s = ChatContext::new("conv-id".to_string(), true, false);
    s.handle_input("hello".to_string(), None);
    let step = s.handle_input("/clear".to_string(), None);
    assert!(matches!(step.effect, InputEffect::Cleared));
    assert!(matches!(step.next, ChatState::PromptUser { tool_uses: None, skip_printing_tools: true }));
    assert_eq!(s.conversation.history().len(), 0);
    assert_eq!(s.conversation.conversation_id(), "conv-id");
    let step = s.handle_input("/quit".to_string(), None);
    assert!(matches!(step.next, ChatState::Exit));
}

#[test]
fn acceptall_toggles() {
    let mut s = ChatContext::new("c".to_string(), true, false);
    let step = s.handle_input("/acceptall".to_string(), None);
    assert!(matches!(step.effect, InputEffect::AcceptAllToggled(true)));
    assert!(s.accept_all);
    s.handle_input("/acceptall".to_string(), None);
    assert!(!s.accept_all);
}

#[test]
fn parse_error_keeps_pending_tools() {
    let mut s = ChatContext::new("c".to_string(), true, false);
    let step = s.handle_input("/profile delete".to_string(), Some(vec![tool_use("1")]));
    assert!(matches!(step.effect, InputEffect::ShowError(_)));
    match step.next {
        ChatState::PromptUser { tool_uses: Some(ts), skip_printing_tools: true } => assert_eq!(ts.len(), 1),
        _ => panic!("expected the prompt"),
    }
}

#[test]
fn issue_command_becomes_a_prompt() {
    let mut s = ChatContext::new("c".to_string(), true, false);
    let step = s.handle_input("/issue it crashed".to_string(), None);
    match step.next {
        ChatState::HandleInput { input, .. } => {
            assert_eq!(input, "I would like to report an issue or make a feature request: it crashed")
        },
        _ => panic!("expected input"),
    }
}

#[test]
fn interrupt_during_tools_records_note_and_keeps_pairing() {
    let mut s = session_awaiting_approval(true);
    s.spinner = true;
    let report = s.handle_error(ChatError::Interrupted { tool_uses: Some(vec![tool_use("1")]) });
    assert!(matches!(report.next, ChatState::PromptUser { tool_uses: None, skip_printing_tools: false }));
    assert!(report.text.is_none());
    assert!(!s.spinner);
    let h = s.conversation.history();
    assert_eq!(h.len(), 4);
    match &h[2] {
        Turn::User(u) => assert_eq!(u.tool_results[0].tool_use_id, "1"),
        _ => panic!("expected the abandoned results"),
    }
    match &h[3] {
        Turn::Assistant(m) => {
            assert_eq!(m.content, "Tool uses were interrupted, waiting for the next user prompt")
        },
        _ => panic!("expected the interrupt note"),
    }
}

#[test]
fn errors_return_to_prompt_without_spinner() {
    let mut s = session_awaiting_approval(true);
    s.spinner = true;
    let report = s.handle_error(ChatError::Custom("boom \x1b[1mbold\x1b[0m".to_string()));
    assert!(report.clear_spinner);
    assert!(!s.spinner);
    assert!(!report.fatal);
    assert!(matches!(report.next, ChatState::PromptUser { tool_uses: None, skip_printing_tools: false }));
    assert_eq!(
        report.text.as_deref(),
        Some("Amazon Q is having trouble responding right now: boom bold\n")
    );
    assert_eq!(s.conversation.transcript().last().map(|t| t.as_str()), report.text.as_deref());
    // the unanswered tool use was dropped
    assert_eq!(s.conversation.history().len(), 1);
}

#[test]
fn quota_breach_is_shown_verbatim() {
    let mut s = ChatContext::new("c".to_string(), false, false);
    let report = s.handle_error(ChatError::Client(ClientError::QuotaBreach("Monthly limit reached".to_string())));
    assert_eq!(report.text.as_deref(), Some("Monthly limit reached"));
}

#[test]
fn non_interactive_approval_is_fatal() {
    let mut s = session_awaiting_approval(false);
    let result = s.validate_tools(vec![tool_use("1")], vec![ToolCheck::Valid { requires_acceptance: true }]);
    let err = result.err().unwrap();
    assert!(matches!(err, ChatError::NonInteractiveToolApproval));
    assert_eq!(
        err.message(),
        "Tool approval required but --no-interactive was specified. Use --accept-all to automatically approve tools."
    );
    let report = s.handle_error(err);
    assert!(report.fatal);
}

#[test]
fn validation_decides_approval() {
    let mut s = session_awaiting_approval(true);
    match s.validate_tools(vec![tool_use("1")], vec![ToolCheck::Valid { requires_acceptance: false }]) {
        Ok(ChatState::ExecuteTools(ts)) => assert_eq!(ts.len(), 1),
        _ => panic!("expected the tools to run"),
    }
    match s.validate_tools(vec![tool_use("1")], vec![ToolCheck::Valid { requires_acceptance: true }]) {
        Ok(ChatState::PromptUser { tool_uses: Some(ts), skip_printing_tools: false }) => assert_eq!(ts.len(), 1),
        _ => panic!("expected approval to be asked for"),
    }
    s.accept_all = true;
    assert!(matches!(
        s.validate_tools(vec![tool_use("1")], vec![ToolCheck::Valid { requires_acceptance: true }]),
        Ok(ChatState::ExecuteTools(_))
    ));
}

#[test]
fn validation_failure_reports_error_and_retries() {
    let mut s = session_awaiting_approval(true);
    s.conversation.push_assistant_message(AssistantMessage {
        message_id: Some("msg-7".to_string()),
        content: String::new(),
        tool_uses: vec![tool_use("1"), tool_use("2")],
    });
    let result = s.validate_tools(
        vec![tool_use("1"), tool_use("2")],
        vec![ToolCheck::Valid { requires_acceptance: false }, ToolCheck::Invalid("bad path".to_string())],
    );
    assert!(matches!(result, Ok(ChatState::HandleResponseStream)));
    match &s.tool_use_status {
        ToolUseStatus::RetryInProgress(id) => assert_eq!(id, "msg-7"),
        ToolUseStatus::Idle => panic!("expected a retry"),
    }
    match s.conversation.history().last().unwrap() {
        Turn::User(u) => {
            assert_eq!(u.tool_results.len(), 2);
            assert_eq!(u.tool_results[0].tool_use_id, "1");
            assert_eq!(u.tool_results[1].tool_use_id, "2");
            assert!(u.tool_results.iter().all(|r| r.status == ToolResultStatus::Error));
            match &u.tool_results[0].content[0] {
                ToolResultContent::Text(t) => assert_eq!(
                    t,
                    "This tool use was not run: another tool use of the same request failed validation."
                ),
                ToolResultContent::Json(_) => panic!("expected text"),
            }
            match &u.tool_results[1].content[0] {
                ToolResultContent::Text(t) => assert_eq!(t, "Failed to validate tool parameters: bad path"),
                ToolResultContent::Json(_) => panic!("expected text"),
            }
        },
        _ => panic!("expected the results"),
    }
    let events = s.take_tool_telemetry();
    assert_eq!(events.len(), 2);
    assert_eq!(events[0].is_valid, Some(true));
    assert_eq!(events[1].is_valid, Some(false));
    assert_eq!(events[1].tool_name.as_deref(), Some("fs_write"));
    assert_eq!(events[0].user_input_id.as_deref(), Some("msg-7"));
    assert!(s.take_tool_telemetry().is_empty());
}

#[test]
fn tool_outcomes_become_results_in_order() {
    let mut s = session_awaiting_approval(true);
    s.conversation.push_assistant_message(assistant_with_tools(&["1", "2"]));
    let uses = vec![tool_use("1"), tool_use("2")];
    let next = s.record_tool_outcomes(
        &uses,
        vec![ToolOutcome::Success(ToolResultContent::Text("done".to_string())), ToolOutcome::Failure("disk full".to_string())],
    );
    assert!(matches!(next, ChatState::HandleResponseStream));
    match s.conversation.history().last().unwrap() {
        Turn::User(u) => {
            assert_eq!(u.tool_results[0].status, ToolResultStatus::Success);
            assert_eq!(u.tool_results[1].status, ToolResultStatus::Error);
            match &u.tool_results[1].content[0] {
                ToolResultContent::Text(t) => assert_eq!(t, "An error occurred processing the tool: \ndisk full"),
                ToolResultContent::Json(_) => panic!("expected text"),
            }
        },
        _ => panic!("expected the results"),
    }
    assert!(matches!(&s.tool_use_status, ToolUseStatus::RetryInProgress(id) if id == "m1"));
}

#[test]
fn response_events_build_render_buffer_in_order() {
    let mut s = ChatContext::new("c".to_string(), true, false);
    s.spinner = true;
    let mut turn = ResponseTurn::new();
    let step = s.on_response_event(&mut turn, ResponseEvent::AssistantText("Sure, ".to_string()));
    assert!(step.stop_spinner);
    s.on_response_event(&mut turn, ResponseEvent::AssistantText("here".to_string()));
    let step = s.on_response_event(&mut turn, ResponseEvent::ToolUseStart { name: "fs_write".to_string() });
    assert_eq!(step.start_spinner_for.as_deref(), Some("fs_write"));
    let step = s.on_response_event(&mut turn, ResponseEvent::ToolUse(tool_use("1")));
    assert!(step.stop_spinner);
    s.on_response_event(
        &mut turn,
        ResponseEvent::EndStream { message: assistant_with_tools(&["1"]) },
    );
    assert_eq!(turn.buf, "Sure, here\n\n");
    assert!(turn.ended);
    assert_eq!(s.conversation.history().len(), 1);
    match ChatContext::finish_response(turn) {
        ChatState::ValidateTools(ts) => assert_eq!(ts.len(), 1),
        _ => panic!("expected validation"),
    }
}

#[test]
fn stream_timeout_asks_to_split_work() {
    let mut s = ChatContext::new("c".to_string(), false, false);
    let err = RecvError {
        request_id: Some("req-1".to_string()),
        source: RecvErrorKind::StreamTimeout { description: "timeout".to_string(), duration_secs: 30 },
    };
    assert!(matches!(s.on_recv_error(err), Ok(ChatState::HandleResponseStream)));
    assert_eq!(s.failed_request_ids, vec!["req-1".to_string()]);
    assert_eq!(
        user_texts(s.conversation.history()),
        vec!["You took too long to respond - try to split up the work into smaller steps.".to_string()]
    );
    let other = RecvError { request_id: None, source: RecvErrorKind::Other { description: "x".to_string() } };
    assert!(matches!(s.on_recv_error(other), Err(ChatError::ResponseStream(_))));
}

#[test]
fn shutdown_restores_terminal() {
    let mut s = ChatContext::new("c".to_string(), true, false);
    s.spinner = true;
    let ops = s.shutdown();
    assert!(!s.spinner);
    assert_eq!(
        ops,
        vec![
            TerminalOp::MoveToColumnZero,
            TerminalOp::ResetAttributes,
            TerminalOp::ResetColors,
            TerminalOp::ShowCursor,
            TerminalOp::Flush
        ]
    );
    let mut quiet = ChatContext::new("c".to_string(), false, false);
    assert_eq!(quiet.shutdown(), ops);
}

#[test]
fn issue_context_copies_session_facts() {
    let mut s = ChatContext::new("c".to_string(), true, true);
    s.accept_line("hello".to_string(), None);
    s.failed_request_ids.push("r".to_string());
    let ctx = s.issue_context();
    assert_eq!(ctx.transcript, vec!["hello".to_string()]);
    assert_eq!(ctx.failed_request_ids, vec!["r".to_string()]);
    assert!(ctx.accept_all);
    assert!(ctx.interactive);
}

#[test]
fn finished_message_carries_reassembled_tool_uses() {
    let original = json(r#"{"path":"/tmp/a","mode":"read"}"#);
    let mut parser = ResponseParser::new();
    parser.step(StreamEvent::AssistantResponse { content: "Reading".to_string() }).ok().unwrap();
    for e in split_tool_use_event(&"t9".to_string(), &"fs_read".to_string(), &original.to_string()) {
        parser.step(e).ok().unwrap();
    }
    match parser.finish().ok().unwrap() {
        ResponseEvent::EndStream { message } => {
            assert_eq!(message.content, "Reading");
            assert_eq!(message.tool_uses.len(), 1);
            assert_eq!(message.tool_uses[0].id, "t9");
            assert_eq!(message.tool_uses[0].name, "fs_read");
            assert_eq!(message.tool_uses[0].args, original);
        },
        _ => panic!("expected the end of the stream"),
    }
}

fn run_turn(s: &mut ChatContext, events: Vec<StreamEvent>) -> ChatState {
    let mut parser = ResponseParser::new();
    let mut turn = ResponseTurn::new();
    for e in events {
        for ev in parser.step(e).ok().unwrap() {
            s.on_response_event(&mut turn, ev);
        }
    }
    let end = parser.finish().ok().unwrap();
    s.on_response_event(&mut turn, end);
    ChatContext::finish_response(turn)
}

#[test]
fn create_file_flow() {
    let value = json(
        r#"[["Sure, I'll create a file for you", {"tool_use_id": "1", "name": "fs_write", "args": {"command": "create", "file_text": "Hello, world!", "path": "/file.txt"}}], ["Hope that looks good to you!"]]"#,
    );
    let mut turns = script_turns(&script(&value)).into_iter();
    let mut s = ChatContext::new("conv".to_string(), true, false);

    let state = s.accept_line("create a new file".to_string(), None);
    let ChatState::HandleInput { input, tool_uses } = state else { panic!("expected input") };
    assert!(matches!(s.handle_input(input, tool_uses).next, ChatState::HandleResponseStream));

    let ChatState::ValidateTools(uses) = run_turn(&mut s, turns.next().unwrap()) else { panic!("expected tools") };
    assert_eq!(uses[0].name, "fs_write");
    assert_eq!(uses[0].args, json(r#"{"command":"create","file_text":"Hello, world!","path":"/file.txt"}"#));

    let Ok(ChatState::PromptUser { tool_uses, skip_printing_tools: false }) =
        s.validate_tools(uses, vec![ToolCheck::Valid { requires_acceptance: true }])
    else {
        panic!("expected approval to be asked for")
    };
    let ChatState::HandleInput { input, tool_uses } = s.accept_line("y".to_string(), tool_uses) else { panic!() };
    let ChatState::ExecuteTools(uses) = s.handle_input(input, tool_uses).next else { panic!("expected execution") };

    let next = s.record_tool_outcomes(&uses, vec![ToolOutcome::Success(ToolResultContent::Text(String::new()))]);
    assert!(matches!(next, ChatState::HandleResponseStream));
    assert!(matches!(
        run_turn(&mut s, turns.next().unwrap()),
        ChatState::PromptUser { tool_uses: None, skip_printing_tools: false }
    ));

    let h = s.conversation.history();
    assert_eq!(h.len(), 4);
    match &h[3] {
        Turn::Assistant(m) => assert_eq!(m.content, "Hope that looks good to you!"),
        _ => panic!("expected the last answer"),
    }
    let before = h.len();
    s.conversation.fix_history();
    assert_eq!(s.conversation.history().len(), before);
    assert_eq!(s.conversation.transcript(), &vec!["create a new file".to_string(), "y".to_string()]);
}

#[test]
fn script_events_expand_elements_in_order() {
    let events = script_events(&vec![
        ScriptElement::Text("a".to_string()),
        ScriptElement::ToolUse { tool_use_id: "1".to_string(), name: "n".to_string(), args: "{}".to_string() },
        ScriptElement::Text("b".to_string()),
    ]);
    assert_eq!(events.len(), 6);
    assert!(matches!(&events[0], StreamEvent::AssistantResponse { content } if content == "a"));
    assert!(matches!(&events[1], StreamEvent::ToolUseEvent { input: None, stop: None, .. }));
    assert!(matches!(&events[4], StreamEvent::ToolUseEvent { stop: Some(true), .. }));
    assert!(matches!(&events[5], StreamEvent::AssistantResponse { content } if content == "b"));
}

#[test]
fn split_puts_half_the_characters_first() {
    let events = split_tool_use_event(&"1".to_string(), &"n".to_string(), "abcde");
    let StreamEvent::ToolUseEvent { input: Some(first), .. } = &events[1] else { panic!() };
    let StreamEvent::ToolUseEvent { input: Some(second), .. } = &events[2] else { panic!() };
    assert_eq!(first, "ab");
    assert_eq!(second, "cde");
}

#[test]
fn parser_keeps_argument_text() {
    let mut parser = ResponseParser::new();
    let mut out = Vec::new();
    for e in split_tool_use_event(&"1".to_string(), &"n".to_string(), r#"{"a": [1, 2]}"#) {
        out.extend(parser.step(e).ok().unwrap());
    }
    match &out[1] {
        ResponseEvent::ToolUse(u) => {
            assert_eq!(u.args_text, r#"{"a": [1, 2]}"#);
            assert_eq!(u.args, json(r#"{"a":[1,2]}"#));
        },
        _ => panic!("expected a tool use"),
    }
}

#[test]
fn profile_must_exist() {
    let profiles = vec!["default".to_string(), "work".to_string()];
    assert!(check_profile(&"work".to_string(), &profiles).is_ok());
    assert_eq!(
        check_profile(&"home".to_string(), &profiles).err().unwrap(),
        "Profile 'home' does not exist. Available profiles: default, work"
    );
    assert_eq!(
        check_profile(&"x".to_string(), &vec![]).err().unwrap(),
        "Profile 'x' does not exist. Available profiles: "
    );
}

#[test]
fn tool_outcomes_mark_telemetry() {
    let mut s = session_awaiting_approval(true);
    s.conversation.push_assistant_message(assistant_with_tools(&["1", "2"]));
    let uses = vec![tool_use("1"), tool_use("2")];
    s.validate_tools(uses, vec![ToolCheck::Valid { requires_acceptance: false }, ToolCheck::Valid { requires_acceptance: false }]).ok();
    let uses = vec![tool_use("1"), tool_use("2")];
    s.record_tool_outcomes(
        &uses,
        vec![ToolOutcome::Failure("no".to_string()), ToolOutcome::Success(ToolResultContent::Text("ok".to_string()))],
    );
    let events = s.take_tool_telemetry();
    assert_eq!(events.len(), 2);
    assert!(events.iter().all(|e| e.is_accepted));
    assert_eq!(events[0].is_success, Some(false));
    assert_eq!(events[1].is_success, Some(true));
}

#[test]
fn split_cuts_at_half_the_bytes() {
    let args = r#"["éé","a"]"#;
    assert_eq!(args.len(), 12);
    let events = split_tool_use_event(&"1".to_string(), &"n".to_string(), args);
    let StreamEvent::ToolUseEvent { input: Some(first), .. } = &events[1] else { panic!() };
    let StreamEvent::ToolUseEvent { input: Some(second), .. } = &events[2] else { panic!() };
    assert_eq!(first, r#"["éé"#);
    assert_eq!(second, r#"","a"]"#);
}

#[test]
fn split_falls_back_to_the_previous_boundary() {
    // 5 bytes; half is byte 2, inside the 'é' (bytes 1..3).
    let args = "\"éa\"";
    assert_eq!(args.len(), 5);
    let events = split_tool_use_event(&"1".to_string(), &"n".to_string(), args);
    let StreamEvent::ToolUseEvent { input: Some(first), .. } = &events[1] else { panic!() };
    assert_eq!(first, "\"");
}

#[test]
fn end_of_stream_records_message_id() {
    let mut s = ChatContext::new("c".to_string(), false, false);
    let mut turn = ResponseTurn::new();
    s.on_response_event(&mut turn, ResponseEvent::EndStream { message: assistant_with_tools(&[]) });
    assert_eq!(s.conversation.message_id().map(|m| m.as_str()), Some("m1"));
}
