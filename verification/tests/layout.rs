use goose_tui::completion::CommandCatalog;
use goose_tui::screen::App;
use goose_tui::state::AppState;
use goose_tui::turn_view::{ToolCallView, TurnView, TurnViewProps};
use goose_tui::types::{
    AgentMsg, AppProps, ElicitationReq, ExtensionEntry, GooseMode, ModelInfo, PermissionOption,
    PermissionReq, ToolCallInfo, ToolStatus, Turn,
};

fn no_commands() -> CommandCatalog {
    CommandCatalog { agent_commands: Vec::new(), recipes: Vec::new() }
}

fn answered(text: &str) -> Turn {
    let mut turn = Turn::asked("question".to_string());
    turn.add_text(text, text.to_string());
    turn
}

fn shown(text: &str, height: u16, scroll_offset: i32) -> Option<Vec<String>> {
    let props = TurnViewProps {
        turn: Some(answered(text)),
        height,
        scroll_offset,
        ..TurnViewProps::default()
    };
    TurnView(&props).and_then(|layout| layout.lines)
}

fn call(id: &str, status: ToolStatus) -> ToolCallInfo {
    ToolCallInfo {
        id: id.to_string(),
        title: id.to_string(),
        status,
        input_preview: None,
        output_preview: None,
    }
}

fn cards(statuses: Vec<(&str, ToolStatus)>, expanded: Option<&str>) -> Vec<(String, bool, bool)> {
    let mut turn = Turn::asked("question".to_string());
    for (id, status) in statuses {
        turn.update_call(call(id, status));
    }
    let props = TurnViewProps {
        turn: Some(turn),
        expanded_tool_call: expanded.map(|s| s.to_string()),
        ..TurnViewProps::default()
    };
    let layout = TurnView(&props).unwrap();
    layout
        .calls
        .into_iter()
        .map(|view| match view {
            ToolCallView::Card { id, info, expanded } => {
                assert_eq!(info.unwrap().id, id);
                (id, true, expanded)
            }
            ToolCallView::Compact { id, info } => {
                assert_eq!(info.unwrap().id, id);
                (id, false, false)
            }
        })
        .collect()
}

#[test]
fn without_a_turn_there_is_no_layout() {
    assert_eq!(TurnView(&TurnViewProps::default()), None);
}

#[test]
fn unscrolled_text_shows_its_end() {
    assert_eq!(shown("a\nb\nc\nd", 6, 0).unwrap(), vec!["c", "d"]);
    assert_eq!(shown("a\nb", 24, 0).unwrap(), vec!["a", "b"]);
}

#[test]
fn scrolling_moves_line_by_line() {
    assert_eq!(shown("a\nb\nc\nd", 6, 1).unwrap(), vec!["b", "c"]);
    assert_eq!(shown("a\nb\nc\nd", 6, 2).unwrap(), vec!["a", "b"]);
    assert_eq!(shown("a\nb\nc\nd", 6, 3).unwrap(), vec!["a"]);
    assert_eq!(shown("a\nb\nc\nd", 6, 99).unwrap(), vec!["a"]);
}

#[test]
fn an_offset_below_zero_shows_the_first_line() {
    assert_eq!(shown("a\nb\nc", 24, -1).unwrap(), vec!["a"]);
}

#[test]
fn a_low_terminal_shows_no_line() {
    assert_eq!(shown("a\nb", 4, 0).unwrap(), Vec::<String>::new());
    assert_eq!(shown("a\nb", 0, 0).unwrap(), Vec::<String>::new());
    assert_eq!(shown("a\nb", 5, 0).unwrap(), vec!["b"]);
}

#[test]
fn an_empty_answer_has_no_lines() {
    assert_eq!(shown("", 24, 0), None);
    assert_eq!(shown("\n", 24, 0).unwrap(), vec![""]);
}

#[test]
fn the_last_unsettled_call_is_featured() {
    assert_eq!(
        cards(
            vec![
                ("a", ToolStatus::Error),
                ("b", ToolStatus::Running),
                ("c", ToolStatus::Success),
            ],
            None
        ),
        vec![
            ("a".to_string(), false, false),
            ("b".to_string(), true, false),
            ("c".to_string(), false, false),
        ]
    );
}

#[test]
fn the_last_call_is_featured_when_all_succeeded() {
    assert_eq!(
        cards(vec![("a", ToolStatus::Success), ("b", ToolStatus::Success)], None),
        vec![("a".to_string(), false, false), ("b".to_string(), true, false)]
    );
}

#[test]
fn an_expanded_call_is_a_card_with_details() {
    assert_eq!(
        cards(vec![("a", ToolStatus::Success), ("b", ToolStatus::Pending)], Some("a")),
        vec![("a".to_string(), true, true), ("b".to_string(), true, false)]
    );
    assert_eq!(
        cards(vec![("a", ToolStatus::Success)], Some("a")),
        vec![("a".to_string(), true, true)]
    );
}

#[test]
fn the_status_stands_in_for_an_answer() {
    let mut props = TurnViewProps {
        turn: Some(Turn::asked("question".to_string())),
        active: true,
        status: "thinking…".to_string(),
        width: 76,
        ..TurnViewProps::default()
    };
    let layout = TurnView(&props).unwrap();
    assert_eq!(layout.note, Some("thinking…".to_string()));
    assert_eq!(layout.width, 76);
    assert!(layout.calls.is_empty());
    props.active = false;
    assert_eq!(TurnView(&props).unwrap().note, None);
    props.active = true;
    props.turn = Some(answered("x"));
    assert_eq!(TurnView(&props).unwrap().note, None);
    let mut busy = Turn::asked("question".to_string());
    busy.update_call(call("a", ToolStatus::Running));
    props.turn = Some(busy);
    assert_eq!(TurnView(&props).unwrap().note, None);
}

fn two_turns() -> AppState {
    let mut state = AppState::new(GooseMode::Auto, true);
    state.on_channels_opened();
    state.on_agent_built("~/work".to_string());
    state.on_worker_started(&AppProps::default());
    state.send_prompt_to_agent("one".to_string());
    let done = AgentMsg::Finished { stop_reason: "end_turn".to_string() };
    state.on_rendered_msg(done, String::new(), &AppProps::default());
    state.send_prompt_to_agent("two".to_string());
    state
}

#[test]
fn the_screen_shows_the_latest_turn() {
    let state = two_turns();
    let screen = App(&AppProps::default(), &state, 80, 24, &no_commands());
    assert!(!screen.exit);
    assert_eq!((screen.width, screen.height), (80, 24));
    assert_eq!(screen.splash, None);
    let main = screen.main.unwrap();
    assert_eq!(main.width, 76);
    assert_eq!(main.header.turn_info, Some((2, 2)));
    assert_eq!(main.header.working_dir, "~/work");
    assert_eq!(main.header.status, "thinking…");
    assert!(main.header.loading);
    assert_eq!(main.prompt, Some("two".to_string()));
    assert!(!main.scrolled);
    assert!(main.turn.active);
    assert_eq!(main.turn.width, 76);
    assert_eq!(main.turn.height, 24);
    assert_eq!(main.footer.history, None);
    assert_eq!(main.footer.input_bar, Some(false));
}

#[test]
fn the_screen_shows_an_earlier_turn() {
    let mut state = two_turns();
    state.transcript.view_turn_idx = Some(0);
    state.transcript.scroll_offset = 3;
    let main = App(&AppProps::default(), &state, 6, 24, &no_commands()).main.unwrap();
    assert_eq!(main.prompt, Some("one".to_string()));
    assert!(!main.turn.active);
    assert!(main.scrolled);
    assert_eq!(main.header.turn_info, Some((1, 2)));
    assert_eq!(main.footer.history, Some(("──────".to_string(), (1, 2))));
    assert_eq!(main.footer.input_bar, None);
}

#[test]
fn a_single_turn_has_no_number() {
    let mut state = AppState::new(GooseMode::Auto, true);
    let empty = App(&AppProps::default(), &state, 80, 24, &no_commands()).main.unwrap();
    assert_eq!(empty.prompt, None);
    assert_eq!(empty.turn.turn, None);
    assert_eq!(empty.header.turn_info, None);
    state.on_channels_opened();
    state.send_prompt_to_agent("one".to_string());
    let main = App(&AppProps::default(), &state, 80, 24, &no_commands()).main.unwrap();
    assert_eq!(main.header.turn_info, None);
}

#[test]
fn a_turn_that_is_gone_is_not_shown() {
    let mut state = two_turns();
    state.transcript.view_turn_idx = Some(1);
    state.on_rendered_msg(AgentMsg::ConversationCleared, String::new(), &AppProps::default());
    let main = App(&AppProps::default(), &state, 80, 24, &no_commands()).main.unwrap();
    assert_eq!(main.prompt, None);
    assert_eq!(main.footer.history, None);
    assert_eq!(main.footer.input_bar, Some(false));
}

#[test]
fn the_input_bar_gives_way_to_dialogs() {
    let props = AppProps::default();
    let bar = |state: &AppState| {
        App(&props, state, 80, 24, &no_commands()).main.unwrap().footer.input_bar
    };
    let mut state = two_turns();
    assert!(bar(&state).is_some());
    state.dialogs.ext_visible = true;
    assert!(bar(&state).is_none());
    state.dialogs.ext_visible = false;
    state.dialogs.model_visible = true;
    assert!(bar(&state).is_none());
    state.dialogs.model_visible = false;
    let req = PermissionReq { title: "t".to_string(), options: Vec::new() };
    state.on_rendered_msg(AgentMsg::PermissionRequest(req), String::new(), &props);
    assert!(bar(&state).is_none());
    let mut other = two_turns();
    let ask = ElicitationReq { message: "m".to_string() };
    other.on_rendered_msg(AgentMsg::ElicitationRequest(ask), String::new(), &props);
    assert!(bar(&other).is_none());
    let fixed = AppProps { initial_prompt: Some("x".to_string()), session_id: None };
    let main = App(&fixed, &two_turns(), 80, 24, &no_commands()).main.unwrap();
    assert_eq!(main.footer.input_bar, None);
}

#[test]
fn open_dialogs_are_shown_with_their_selection() {
    let props = AppProps::default();
    let mut state = two_turns();
    let option = PermissionOption { id: "o".to_string(), label: "ok".to_string(), key: 'y' };
    let req = PermissionReq { title: "t".to_string(), options: vec![option] };
    state.on_rendered_msg(AgentMsg::PermissionRequest(req.clone()), String::new(), &props);
    let ask = ElicitationReq { message: "m".to_string() };
    state.on_rendered_msg(AgentMsg::ElicitationRequest(ask.clone()), String::new(), &props);
    let entry = ExtensionEntry { key: "k".to_string(), name: "n".to_string(), enabled: true };
    state.set_extensions(vec![entry.clone()]);
    state.dialogs.ext_visible = true;
    state.dialogs.ext_idx = 4;
    state.dialogs.model_entries = vec![ModelInfo { name: "m1".to_string() }];
    state.dialogs.model_visible = true;
    state.session.current_model = "m1".to_string();
    let dialogs = App(&props, &state, 80, 24, &no_commands()).main.unwrap().dialogs;
    assert_eq!(dialogs.permission, Some((req, 0)));
    assert_eq!(dialogs.elicitation, Some(ask));
    assert_eq!(dialogs.extensions, Some((vec![entry], 4)));
    let models = dialogs.models.unwrap();
    assert_eq!(models.models.len(), 1);
    assert_eq!(models.current_model, "m1");
    assert_eq!(models.selected_idx, 0);
}

#[test]
fn completions_are_shown_while_typing() {
    let props = AppProps::default();
    let mut state = two_turns();
    state.set_input("/ex".to_string());
    state.prompt.completion_idx = 3;
    let footer = App(&props, &state, 80, 24, &no_commands()).main.unwrap().footer;
    let (items, at) = footer.completions.unwrap();
    assert_eq!(items.len(), 2);
    assert_eq!(at, 1);
    assert_eq!(items[at].0, "/ext");
    state.dialogs.ext_visible = true;
    let hidden = App(&props, &state, 80, 24, &no_commands()).main.unwrap().footer;
    assert_eq!(hidden.completions, None);
}

#[test]
fn waiting_prompts_are_shown() {
    let mut state = two_turns();
    state.prompt.enqueue("later".to_string());
    state.prompt.enqueue("last".to_string());
    let footer = App(&AppProps::default(), &state, 80, 24, &no_commands()).main.unwrap().footer;
    assert_eq!(footer.queued, vec!["later", "last"]);
    assert_eq!(footer.input_bar, Some(true));
}

#[test]
fn the_splash_takes_the_whole_screen() {
    let mut state = AppState::new(GooseMode::Auto, true);
    state.banner_visible = true;
    state.on_tick();
    let screen = App(&AppProps::default(), &state, 2, 1, &no_commands());
    assert_eq!(screen.main, None);
    let splash = screen.splash.unwrap();
    assert_eq!(splash.status, "connecting…");
    assert_eq!(splash.anim_frame, 1);
    assert!(!splash.show_input);
    state.on_agent_built("/".to_string());
    let ready = App(&AppProps::default(), &state, 2, 1, &no_commands());
    assert!(ready.splash.unwrap().show_input);
    let fixed = AppProps { initial_prompt: Some("x".to_string()), session_id: None };
    assert!(!App(&fixed, &state, 2, 1, &no_commands()).splash.unwrap().show_input);
}

#[test]
fn leaving_shows() {
    let mut state = two_turns();
    state.should_exit = true;
    assert!(App(&AppProps::default(), &state, 80, 24, &no_commands()).exit);
}
