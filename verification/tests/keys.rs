use goose_tui::commands::cycle_mode;
use goose_tui::completion::{slash_completions, AgentCommand, CommandCatalog};
use goose_tui::keyboard::{Key, KeyCommand, KeyPress, CONTROL, SHIFT};
use goose_tui::prompt::MAX_QUEUE;
use goose_tui::state::AppState;
use goose_tui::types::{
    Action, AgentMsg, AppProps, CtrlMsg, ElicitationReq, ExtensionEntry, GooseMode, ModelInfo,
    PermissionChoice, PermissionOption, PermissionReq, ToolCallInfo, ToolStatus,
};
use iocraft::prelude::KeyModifiers;

fn catalog() -> CommandCatalog {
    CommandCatalog {
        agent_commands: vec![
            AgentCommand { name: "prompts".to_string(), description: String::new() },
            AgentCommand { name: "prompt".to_string(), description: String::new() },
            AgentCommand { name: "clear".to_string(), description: String::new() },
        ],
        recipes: Vec::new(),
    }
}

fn press(state: &mut AppState, key: Key, modifiers: u8) -> Option<Action> {
    let press = KeyPress { key, modifiers, released: false };
    assert!(state.can_accept(press, &catalog()));
    state.on_key(press, &catalog())
}

fn hit(state: &mut AppState, key: Key) -> Option<Action> {
    press(state, key, 0)
}

fn ready() -> AppState {
    let mut state = AppState::new(GooseMode::Auto, true);
    state.on_control_started();
    state.on_channels_opened();
    state.on_agent_built("~/work".to_string());
    state.on_worker_started(&AppProps::default());
    state
}

fn submit(state: &mut AppState, text: &str) -> Option<Action> {
    state.set_input(text.to_string());
    hit(state, Key::Enter)
}

fn report(state: &mut AppState, msg: AgentMsg) -> Option<Action> {
    state.on_rendered_msg(msg, String::new(), &AppProps::default())
}

fn finish(state: &mut AppState) -> Option<Action> {
    report(state, AgentMsg::Finished { stop_reason: "end_turn".to_string() })
}

fn permission() -> AgentMsg {
    let option = |id: &str, key: char| PermissionOption {
        id: id.to_string(),
        label: id.to_string(),
        key,
    };
    AgentMsg::PermissionRequest(PermissionReq {
        title: "run a command".to_string(),
        options: vec![option("allow", 'y'), option("always", 'a'), option("deny", 'n')],
    })
}

fn elicitation() -> AgentMsg {
    AgentMsg::ElicitationRequest(ElicitationReq { message: "your name?".to_string() })
}

fn submitted(text: &str) -> Option<Action> {
    Some(Action::SubmitPrompt { text: text.to_string(), share_token: true })
}

#[test]
fn the_modifier_bits_are_those_of_the_terminal_library() {
    assert_eq!(KeyModifiers::SHIFT.bits(), SHIFT);
    assert_eq!(KeyModifiers::CONTROL.bits(), CONTROL);
}

#[test]
fn a_modifier_counts_beside_others() {
    let mut state = ready();
    let all: u8 = KeyModifiers::all().bits();
    press(&mut state, Key::Char('c'), all);
    assert!(state.should_exit);
    let mut other = ready();
    press(&mut other, Key::Char('c'), SHIFT);
    assert!(!other.should_exit);
}

#[test]
fn the_state_at_the_start() {
    let state = AppState::new(GooseMode::SmartApprove, false);
    assert!(state.loading);
    assert_eq!(state.status, "connecting…");
    assert!(!state.banner_visible);
    assert!(!state.should_exit);
    assert_eq!(state.session.goose_mode, GooseMode::SmartApprove);
    assert!(!state.links.prompt_ready);
    assert!(!state.links.job_control);
}

#[test]
fn a_tick_moves_the_spinner_round() {
    let mut state = ready();
    let mut seen: Vec<usize> = Vec::new();
    for _ in 0..5 {
        state.on_tick();
        seen.push(state.spin_idx);
    }
    assert_eq!(seen, vec![1, 2, 3, 0, 1]);
    assert_eq!(state.anim_frame, 5);
}

#[test]
fn releases_do_nothing() {
    let mut state = ready();
    let release = KeyPress { key: Key::Char('c'), modifiers: CONTROL, released: true };
    assert_eq!(state.command(release, &catalog()), KeyCommand::Ignore);
    assert_eq!(state.on_key(release, &catalog()), None);
    assert!(!state.should_exit);
}

#[test]
fn escape_stops_a_turn_and_never_exits() {
    let mut state = ready();
    assert_eq!(hit(&mut state, Key::Esc), None);
    assert!(!state.should_exit);
    submit(&mut state, "hello");
    assert_eq!(hit(&mut state, Key::Esc), Some(Action::CancelTurn));
    assert_eq!(state.status, "stopping…");
    assert!(!state.should_exit);
    assert!(state.loading);
}

#[test]
fn escape_closes_one_dialog_after_the_other() {
    let mut state = ready();
    report(&mut state, permission());
    report(&mut state, elicitation());
    state.dialogs.model_visible = true;
    state.dialogs.ext_visible = true;
    assert_eq!(hit(&mut state, Key::Esc), None);
    assert!(!state.dialogs.ext_visible);
    assert!(state.dialogs.model_visible);
    assert_eq!(hit(&mut state, Key::Esc), None);
    assert!(!state.dialogs.model_visible);
    assert_eq!(hit(&mut state, Key::Esc), Some(Action::ReplyElicitation(String::new())));
    assert_eq!(
        hit(&mut state, Key::Esc),
        Some(Action::ReplyPermission(PermissionChoice::Cancelled))
    );
    assert_eq!(hit(&mut state, Key::Esc), None);
    assert!(!state.should_exit);
}

#[test]
fn interrupt_refuses_then_stops_then_exits() {
    let mut state = ready();
    submit(&mut state, "hello");
    report(&mut state, permission());
    assert_eq!(
        press(&mut state, Key::Char('c'), CONTROL),
        Some(Action::ReplyPermission(PermissionChoice::Cancelled))
    );
    assert_eq!(press(&mut state, Key::Char('c'), CONTROL), Some(Action::CancelTurn));
    assert!(!state.should_exit);
    finish(&mut state);
    assert_eq!(press(&mut state, Key::Char('c'), CONTROL), None);
    assert!(state.should_exit);
}

#[test]
fn interrupt_works_while_a_dialog_of_the_client_is_open() {
    let mut state = ready();
    state.dialogs.ext_visible = true;
    press(&mut state, Key::Char('c'), CONTROL);
    assert!(state.should_exit);
}

#[test]
fn suspending_needs_job_control() {
    let mut state = ready();
    assert_eq!(press(&mut state, Key::Char('z'), CONTROL), Some(Action::Suspend));
    assert_eq!(hit(&mut state, Key::Char('z')), None);
    let mut other = AppState::new(GooseMode::Auto, false);
    assert_eq!(press(&mut other, Key::Char('z'), CONTROL), None);
}

#[test]
fn modes_go_round() {
    assert_eq!(cycle_mode(GooseMode::Auto), GooseMode::Approve);
    assert_eq!(cycle_mode(GooseMode::Approve), GooseMode::SmartApprove);
    assert_eq!(cycle_mode(GooseMode::SmartApprove), GooseMode::Chat);
    assert_eq!(cycle_mode(GooseMode::Chat), GooseMode::Auto);
}

#[test]
fn back_tab_asks_for_the_next_mode() {
    let mut state = ready();
    assert_eq!(
        hit(&mut state, Key::BackTab),
        Some(Action::Control(CtrlMsg::SetMode(GooseMode::Approve)))
    );
    assert_eq!(state.session.goose_mode, GooseMode::Auto);
    let mut alone = AppState::new(GooseMode::Chat, true);
    assert_eq!(hit(&mut alone, Key::BackTab), None);
}

fn extensions() -> Vec<ExtensionEntry> {
    vec![
        ExtensionEntry { key: "dev".to_string(), name: "Developer".to_string(), enabled: true },
        ExtensionEntry { key: "mem".to_string(), name: "Memory".to_string(), enabled: false },
    ]
}

#[test]
fn the_extension_command_opens_its_dialog() {
    let mut state = ready();
    state.dialogs.ext_idx = 7;
    assert_eq!(submit(&mut state, "/ext"), Some(Action::ListExtensions));
    assert!(state.dialogs.ext_visible);
    assert_eq!(state.dialogs.ext_idx, 0);
    assert_eq!(state.prompt.input, "");
    assert_eq!(state.prompt.prompt_history, vec!["/ext"]);
    assert!(state.transcript.turns.is_empty());
    state.set_extensions(extensions());
    assert_eq!(state.dialogs.ext_entries.len(), 2);
}

#[test]
fn extensions_are_selected_and_toggled() {
    let mut state = ready();
    state.set_extensions(extensions());
    state.dialogs.ext_visible = true;
    hit(&mut state, Key::Up);
    assert_eq!(state.dialogs.ext_idx, 1);
    hit(&mut state, Key::Down);
    assert_eq!(state.dialogs.ext_idx, 0);
    let toggled = Some(Action::Control(CtrlMsg::ToggleExt(extensions()[0].clone())));
    assert_eq!(hit(&mut state, Key::Char(' ')), toggled);
    assert_eq!(hit(&mut state, Key::Enter), toggled);
    assert!(state.dialogs.ext_visible);
    assert_eq!(hit(&mut state, Key::Char('x')), None);
}

#[test]
fn an_empty_extension_dialog_has_nothing_to_select() {
    let mut state = ready();
    state.dialogs.ext_visible = true;
    assert_eq!(hit(&mut state, Key::Up), None);
    assert_eq!(hit(&mut state, Key::Down), None);
    assert_eq!(hit(&mut state, Key::Enter), None);
    assert_eq!(state.dialogs.ext_idx, 0);
}

#[test]
fn models_are_selected_and_switched() {
    let mut state = ready();
    state.dialogs.model_entries =
        vec![ModelInfo { name: "small".to_string() }, ModelInfo { name: "large".to_string() }];
    assert_eq!(submit(&mut state, "/model"), None);
    assert!(state.dialogs.model_visible);
    hit(&mut state, Key::Down);
    assert_eq!(
        hit(&mut state, Key::Enter),
        Some(Action::Control(CtrlMsg::SwitchModel("large".to_string())))
    );
    assert!(!state.dialogs.model_visible);
    submit(&mut state, "/model");
    assert_eq!(state.dialogs.model_idx, 0);
    assert_eq!(hit(&mut state, Key::Up), None);
    assert_eq!(state.dialogs.model_idx, 1);
}

#[test]
fn an_empty_model_dialog_closes_without_a_message() {
    let mut state = ready();
    submit(&mut state, "/model");
    assert_eq!(hit(&mut state, Key::Enter), None);
    assert!(!state.dialogs.model_visible);
}

#[test]
fn a_permission_is_given_with_the_selected_option() {
    let mut state = ready();
    report(&mut state, permission());
    hit(&mut state, Key::Up);
    assert_eq!(state.requests.perm_idx, 2);
    hit(&mut state, Key::Down);
    hit(&mut state, Key::Down);
    assert_eq!(state.requests.perm_idx, 1);
    let reply = Some(Action::ReplyPermission(PermissionChoice::Selected("always".to_string())));
    assert_eq!(hit(&mut state, Key::Enter), reply);
    assert!(state.requests.pending_perm.is_none());
    assert!(!state.requests.perm_reply);
}

#[test]
fn a_permission_is_given_with_a_shortcut() {
    let mut state = ready();
    report(&mut state, permission());
    assert_eq!(hit(&mut state, Key::Char('q')), None);
    assert!(state.requests.pending_perm.is_some());
    assert_eq!(
        hit(&mut state, Key::Char('n')),
        Some(Action::ReplyPermission(PermissionChoice::Selected("deny".to_string())))
    );
    assert_eq!(hit(&mut state, Key::Esc), None);
}

#[test]
fn a_request_without_options_takes_no_arrow_keys() {
    let mut state = ready();
    report(
        &mut state,
        AgentMsg::PermissionRequest(PermissionReq { title: String::new(), options: Vec::new() }),
    );
    let up = KeyPress { key: Key::Up, modifiers: 0, released: false };
    let down = KeyPress { key: Key::Down, modifiers: 0, released: false };
    assert!(!state.can_accept(up, &catalog()));
    assert!(!state.can_accept(down, &catalog()));
    assert_eq!(hit(&mut state, Key::Enter), None);
    assert!(state.requests.pending_perm.is_none());
}

#[test]
fn an_elicitation_is_answered_without_surrounding_white_space() {
    let mut state = ready();
    report(&mut state, elicitation());
    state.set_elicit_input("  Ada \n".to_string());
    assert_eq!(press(&mut state, Key::Enter, SHIFT), None);
    assert!(state.requests.pending_elicit.is_some());
    assert_eq!(hit(&mut state, Key::Enter), Some(Action::ReplyElicitation("Ada".to_string())));
    assert!(state.requests.pending_elicit.is_none());
    assert_eq!(state.requests.elicit_input, "");
}

#[test]
fn a_prompt_is_sent_without_surrounding_white_space() {
    let mut state = ready();
    assert_eq!(submit(&mut state, "  hello \n"), submitted("hello"));
    assert_eq!(state.transcript.turns.len(), 1);
    assert_eq!(state.transcript.turns[0].user_text, "hello");
    assert_eq!(state.transcript.turns[0].agent_text, "");
    assert!(state.loading);
    assert_eq!(state.status, "thinking…");
    assert_eq!(state.prompt.input, "");
    assert_eq!(state.prompt.prompt_history, vec!["hello"]);
}

#[test]
fn a_rejected_prompt_leaves_its_turn() {
    let mut state = ready();
    submit(&mut state, "hello");
    state.prompt_rejected();
    assert!(!state.loading);
    assert_eq!(state.status, "error: agent channel full");
    assert_eq!(state.transcript.turns.len(), 1);
}

#[test]
fn blank_input_is_not_submitted() {
    let mut state = ready();
    assert_eq!(submit(&mut state, " \t\n"), None);
    assert_eq!(state.prompt.input, " \t\n");
    assert!(state.prompt.prompt_history.is_empty());
}

#[test]
fn prompts_wait_while_the_agent_is_busy() {
    let mut state = ready();
    submit(&mut state, "zero");
    for text in ["one", "two", "three"] {
        assert_eq!(submit(&mut state, text), None);
    }
    assert_eq!(state.prompt.queue.len(), 3);
    assert_eq!(finish(&mut state), submitted("one"));
    assert_eq!(finish(&mut state), submitted("two"));
    assert_eq!(submit(&mut state, "four"), None);
    assert_eq!(finish(&mut state), submitted("three"));
    assert_eq!(finish(&mut state), submitted("four"));
    assert_eq!(finish(&mut state), None);
    let asked: Vec<String> = state.transcript.turns.iter().map(|t| t.user_text.clone()).collect();
    assert_eq!(asked, vec!["zero", "one", "two", "three", "four"]);
    assert_eq!(state.status, "ready");
}

#[test]
fn a_full_queue_keeps_the_input() {
    let mut state = ready();
    submit(&mut state, "busy");
    for i in 0..MAX_QUEUE {
        submit(&mut state, &format!("prompt {i}"));
    }
    assert_eq!(state.prompt.queue.len(), 10);
    assert_eq!(submit(&mut state, "too much"), None);
    assert_eq!(state.status, "queue full — please wait");
    assert_eq!(state.prompt.input, "too much");
    assert_eq!(state.prompt.queue.len(), 10);
    assert_eq!(state.prompt.prompt_history.len(), 11);
}

#[test]
fn a_full_queue_holds_back_the_client_s_own_commands_too() {
    let mut state = ready();
    submit(&mut state, "busy");
    for i in 0..MAX_QUEUE {
        submit(&mut state, &format!("prompt {i}"));
    }
    assert_eq!(submit(&mut state, "/exit"), None);
    assert!(!state.should_exit);
}

#[test]
fn the_client_leaves_on_command() {
    for word in ["/exit", "/quit", " /exit "] {
        let mut state = ready();
        assert_eq!(submit(&mut state, word), None);
        assert!(state.should_exit);
        assert!(state.transcript.turns.is_empty());
    }
}

#[test]
fn own_commands_are_run_while_the_agent_is_busy() {
    let mut state = ready();
    submit(&mut state, "busy");
    submit(&mut state, "/exit");
    assert!(state.should_exit);
    assert!(state.prompt.queue.is_empty());
}

#[test]
fn enter_submits_the_selected_completion() {
    let mut state = ready();
    state.set_input("/ex".to_string());
    hit(&mut state, Key::Down);
    assert_eq!(hit(&mut state, Key::Enter), Some(Action::ListExtensions));
    assert_eq!(state.prompt.prompt_history, vec!["/ext"]);
    assert_eq!(state.prompt.completion_idx, 0);
}

#[test]
fn commands_of_the_agent_are_sent() {
    let mut state = ready();
    assert_eq!(submit(&mut state, "/cl"), submitted("/clear"));
}

#[test]
fn shift_enter_does_not_submit() {
    let mut state = ready();
    state.set_input("hello".to_string());
    assert_eq!(press(&mut state, Key::Enter, SHIFT), None);
    assert_eq!(state.prompt.input, "hello");
}

#[test]
fn enter_does_not_submit_while_looking_back() {
    let mut state = ready();
    submit(&mut state, "one");
    finish(&mut state);
    submit(&mut state, "two");
    finish(&mut state);
    press(&mut state, Key::Up, SHIFT);
    assert_eq!(submit(&mut state, "three"), None);
    assert_eq!(state.prompt.input, "three");
}

#[test]
fn tab_completes_and_keeps_the_selection() {
    let mut state = ready();
    state.set_input("/".to_string());
    for _ in 0..2 {
        hit(&mut state, Key::Down);
    }
    assert_eq!(hit(&mut state, Key::Tab), None);
    assert_eq!(state.prompt.input, "/ext");
    hit(&mut state, Key::Tab);
    assert_eq!(state.prompt.input, "/ext");
    assert_eq!(hit(&mut state, Key::Enter), Some(Action::ListExtensions));
}

#[test]
fn tab_keeps_the_selection_where_the_command_begins_another_one() {
    let mut state = ready();
    state.set_input("/".to_string());
    for _ in 0..5 {
        hit(&mut state, Key::Down);
    }
    hit(&mut state, Key::Up);
    hit(&mut state, Key::Tab);
    assert_eq!(state.prompt.input, "/prompt");
    hit(&mut state, Key::Tab);
    assert_eq!(state.prompt.input, "/prompt");
    assert_eq!(hit(&mut state, Key::Enter), submitted("/prompt"));
}

#[test]
fn tab_keeps_the_selected_one_of_equal_commands() {
    let twice = CommandCatalog {
        agent_commands: vec![AgentCommand {
            name: "clear".to_string(),
            description: "clear history".to_string(),
        }],
        recipes: vec!["clear".to_string(), "clearer".to_string()],
    };
    let mut state = ready();
    state.set_input("/c".to_string());
    state.prompt.completion_idx = 1;
    let tab = KeyPress { key: Key::Tab, modifiers: 0, released: false };
    state.on_key(tab, &twice);
    assert_eq!(state.prompt.input, "/clear");
    let found = slash_completions("/clear", &twice);
    assert_eq!(found.len(), 3);
    let selected = &found[state.prompt.completion_idx % found.len()];
    assert_eq!(selected, &("/clear".to_string(), "recipe".to_string()));
}

#[test]
fn tab_completes_to_a_recipe_with_a_space() {
    let spaced = CommandCatalog { agent_commands: Vec::new(), recipes: vec!["do it".to_string()] };
    let mut state = ready();
    state.set_input("/d".to_string());
    state.on_key(KeyPress { key: Key::Tab, modifiers: 0, released: false }, &spaced);
    assert_eq!(state.prompt.input, "/do it");
    assert!(slash_completions("/do it", &spaced).is_empty());
}

#[test]
fn completions_are_selected_round_and_round() {
    let mut state = ready();
    state.set_input("/ex".to_string());
    hit(&mut state, Key::Up);
    assert_eq!(state.prompt.completion_idx, 1);
    hit(&mut state, Key::Down);
    assert_eq!(state.prompt.completion_idx, 0);
    hit(&mut state, Key::Down);
    hit(&mut state, Key::Char('t'));
    assert_eq!(state.prompt.completion_idx, 0);
}

#[test]
fn arrows_scroll_where_there_is_nothing_to_recall() {
    let mut state = ready();
    hit(&mut state, Key::Up);
    hit(&mut state, Key::Up);
    assert_eq!(state.transcript.scroll_offset, 6);
    hit(&mut state, Key::Down);
    assert_eq!(state.transcript.scroll_offset, 3);
    hit(&mut state, Key::Down);
    hit(&mut state, Key::Down);
    assert_eq!(state.transcript.scroll_offset, 0);
}

#[test]
fn scrolling_up_stops_at_the_largest_offset() {
    let mut state = ready();
    state.transcript.scroll_offset = i32::MAX - 2;
    let up = KeyPress { key: Key::Up, modifiers: 0, released: false };
    assert!(!state.can_accept(up, &catalog()));
    state.transcript.scroll_offset = i32::MAX - 3;
    hit(&mut state, Key::Up);
    assert_eq!(state.transcript.scroll_offset, i32::MAX);
}

#[test]
fn earlier_prompts_are_recalled() {
    let mut state = ready();
    for text in ["one", "two", "three"] {
        submit(&mut state, text);
        finish(&mut state);
    }
    let mut seen: Vec<String> = Vec::new();
    for _ in 0..4 {
        hit(&mut state, Key::Up);
        seen.push(state.prompt.input.clone());
    }
    assert_eq!(seen, vec!["three", "two", "one", "one"]);
    hit(&mut state, Key::Down);
    assert_eq!(state.prompt.input, "two");
    hit(&mut state, Key::Down);
    hit(&mut state, Key::Down);
    assert_eq!(state.prompt.input, "");
    assert_eq!(state.prompt.history_cursor, None);
    assert_eq!(state.transcript.scroll_offset, 0);
}

#[test]
fn recall_starts_only_from_an_empty_input() {
    let mut state = ready();
    submit(&mut state, "one");
    finish(&mut state);
    state.set_input("draft".to_string());
    hit(&mut state, Key::Up);
    assert_eq!(state.prompt.input, "draft");
    assert_eq!(state.transcript.scroll_offset, 3);
    state.set_input("  ".to_string());
    hit(&mut state, Key::Up);
    assert_eq!(state.prompt.input, "one");
    assert_eq!(state.prompt.history_cursor, Some(0));
    hit(&mut state, Key::Backspace);
    assert_eq!(state.prompt.history_cursor, None);
}

#[test]
fn turns_are_looked_through() {
    let mut state = ready();
    for text in ["one", "two", "three"] {
        submit(&mut state, text);
        finish(&mut state);
    }
    state.transcript.scroll_offset = 9;
    press(&mut state, Key::Up, SHIFT);
    assert_eq!(state.transcript.view_turn_idx, Some(1));
    assert_eq!(state.transcript.scroll_offset, 0);
    press(&mut state, Key::Up, SHIFT);
    press(&mut state, Key::Up, SHIFT);
    assert_eq!(state.transcript.view_turn_idx, Some(0));
    press(&mut state, Key::Down, SHIFT);
    press(&mut state, Key::Down, SHIFT);
    assert_eq!(state.transcript.view_turn_idx, Some(2));
    press(&mut state, Key::Down, SHIFT);
    assert_eq!(state.transcript.view_turn_idx, None);
}

#[test]
fn a_single_turn_has_none_before_it() {
    let mut state = ready();
    submit(&mut state, "one");
    assert_eq!(press(&mut state, Key::Up, SHIFT), None);
    assert_eq!(state.transcript.view_turn_idx, None);
}

fn call(id: &str) -> AgentMsg {
    AgentMsg::ToolCallUpdate(ToolCallInfo {
        id: id.to_string(),
        title: "shell".to_string(),
        status: ToolStatus::Running,
        input_preview: None,
        output_preview: None,
    })
}

#[test]
fn tab_expands_and_collapses_the_latest_tool_call() {
    let mut state = ready();
    hit(&mut state, Key::Tab);
    assert_eq!(state.transcript.expanded_tc, None);
    submit(&mut state, "go");
    report(&mut state, call("a"));
    report(&mut state, call("b"));
    hit(&mut state, Key::Tab);
    assert_eq!(state.transcript.expanded_tc, Some("b".to_string()));
    hit(&mut state, Key::Tab);
    assert_eq!(state.transcript.expanded_tc, None);
    hit(&mut state, Key::Tab);
    report(&mut state, call("c"));
    hit(&mut state, Key::Tab);
    assert_eq!(state.transcript.expanded_tc, Some("c".to_string()));
}

#[test]
fn the_splash_screen_submits_too() {
    let mut state = ready();
    state.banner_visible = true;
    assert_eq!(submit(&mut state, ""), None);
    assert!(state.banner_visible);
    assert_eq!(submit(&mut state, "/ext"), Some(Action::ListExtensions));
    state.dialogs.ext_visible = false;
    assert_eq!(submit(&mut state, "hello"), submitted("hello"));
    assert!(!state.banner_visible);
    assert_eq!(state.prompt.prompt_history, vec!["/ext", "hello"]);
}

#[test]
fn submitting_shows_the_latest_turn_again() {
    let mut state = ready();
    submit(&mut state, "one");
    finish(&mut state);
    state.transcript.scroll_offset = 6;
    state.transcript.expanded_tc = Some("x".to_string());
    submit(&mut state, "two");
    assert_eq!(state.transcript.scroll_offset, 0);
    assert_eq!(state.transcript.expanded_tc, None);
}

#[test]
fn other_keys_do_nothing() {
    let mut state = ready();
    state.set_input("draft".to_string());
    assert_eq!(hit(&mut state, Key::Other), None);
    assert_eq!(state.prompt.input, "draft");
}

#[test]
fn nothing_is_sent_without_a_channel() {
    let mut state = AppState::new(GooseMode::Auto, true);
    state.loading = false;
    assert_eq!(submit(&mut state, "hello"), None);
    assert!(state.transcript.turns.is_empty());
    assert!(!state.loading);
    assert_eq!(state.prompt.prompt_history, vec!["hello"]);
}

#[test]
fn slash_commands_are_checked_and_run() {
    let mut state = ready();
    assert_eq!(state.check_slash_command("hello"), (false, None));
    assert_eq!(state.check_slash_command("/exits"), (false, None));
    assert_eq!(state.check_slash_command(" /ext "), (true, Some(Action::ListExtensions)));
    assert_eq!(state.check_slash_command("/model"), (true, None));
    assert!(!state.should_exit);
    assert_eq!(state.check_slash_command("/quit"), (true, None));
    assert!(state.should_exit);
}

#[test]
fn the_token_is_shared_where_there_is_a_channel_for_it() {
    let mut state = AppState::new(GooseMode::Auto, true);
    state.links.prompt_ready = true;
    assert_eq!(
        state.send_prompt_to_agent("hello".to_string()),
        Some(Action::SubmitPrompt { text: "hello".to_string(), share_token: false })
    );
}
