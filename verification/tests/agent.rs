use goose_tui::agent::{directory_label, known_models, label_directory, ProviderEntry};
use goose_tui::completion::CommandCatalog;
use goose_tui::control::ControlStep;
use goose_tui::keyboard::{Key, KeyPress};
use goose_tui::state::AppState;
use goose_tui::types::{
    Action, AgentMsg, AppProps, CtrlMsg, ExtensionEntry, GooseMode, ModelInfo, ToolCallInfo,
    ToolStatus, Turn,
};

fn connected() -> AppState {
    let mut state = AppState::new(GooseMode::Auto, true);
    state.on_control_started();
    state.on_channels_opened();
    state
}

fn started(props: &AppProps) -> AppState {
    let mut state = connected();
    state.on_agent_built("~/work".to_string());
    state.on_worker_started(props);
    state
}

fn interactive() -> AppProps {
    AppProps::default()
}

fn one_shot() -> AppProps {
    AppProps { initial_prompt: Some("summarise".to_string()), session_id: None }
}

fn shout(raw: &str) -> String {
    raw.to_uppercase()
}

fn tell(state: &mut AppState, msg: AgentMsg) -> Option<Action> {
    state.on_agent_msg(msg, shout, &interactive())
}

fn enter(state: &mut AppState, text: &str) -> Option<Action> {
    let catalog = CommandCatalog { agent_commands: Vec::new(), recipes: Vec::new() };
    state.set_input(text.to_string());
    state.on_key(KeyPress { key: Key::Enter, modifiers: 0, released: false }, &catalog)
}

fn call(
    id: &str,
    title: &str,
    status: ToolStatus,
    input: Option<&str>,
    output: Option<&str>,
) -> ToolCallInfo {
    ToolCallInfo {
        id: id.to_string(),
        title: title.to_string(),
        status,
        input_preview: input.map(|s| s.to_string()),
        output_preview: output.map(|s| s.to_string()),
    }
}

#[test]
fn a_directory_below_home_is_shortened() {
    assert_eq!(directory_label("/home/ada/src/goose", "/home/ada"), "~/src/goose");
    assert_eq!(directory_label("/srv/data", "/home/ada"), "/srv/data");
    assert_eq!(directory_label("/home/adam", "/home/ada"), "/home/adam");
    assert_eq!(directory_label("/home/ada", "/home/ada"), "~/");
    assert_eq!(directory_label("/", "/"), "~/");
    assert_eq!(directory_label("/srv", "/"), "~/srv");
    assert_eq!(directory_label("work/x", "work"), "~/x");
    assert_eq!(directory_label("/work", "work"), "/work");
    assert_eq!(directory_label("../x/y", ".."), "~/x/y");
    assert_eq!(directory_label("/home/ada/.config", "/home/ada"), "~/.config");
}

#[test]
fn the_spelling_of_a_directory_does_not_matter() {
    for home in ["/home/ada/", "/home//ada", "/home/./ada", "/home/ada/.", "/home/ada///"] {
        assert_eq!(directory_label("/home/ada/src/goose", home), "~/src/goose");
        assert_eq!(directory_label("/home/ada", home), "~/");
        assert_eq!(directory_label("/home/adam", home), "/home/adam");
        assert_eq!(directory_label("/srv//data/", home), "/srv//data/");
    }
    for dir in ["/home/ada/x/", "/home/ada//x", "/home/ada/./x", "/home//ada/x/."] {
        assert_eq!(directory_label(dir, "/home/ada"), "~/x");
    }
    assert_eq!(directory_label("./a/b", "."), "~/a/b");
    assert_eq!(directory_label("./a", "a"), "./a");
    assert_eq!(directory_label("/./a", "/"), "~/a");
}

#[test]
fn a_colon_in_a_name_does_not_matter() {
    assert_eq!(directory_label("/home/u/a:b", "/home/u"), "~/a:b");
    assert_eq!(directory_label("/home/u:v/x", "/home/u:v"), "~/x");
    assert_eq!(directory_label("/home/u:v/x", "/home/u"), "/home/u:v/x");
}

#[test]
fn the_way_from_home_is_a_piece_of_the_path() {
    assert_eq!(directory_label("/home/u/a//b", "/home/u"), "~/a//b");
    assert_eq!(directory_label("/home/u/a/./b", "/home/u"), "~/a/./b");
}

#[test]
fn without_a_home_every_directory_counts_as_below_it() {
    assert_eq!(directory_label("/srv/data", ""), "~//srv/data");
}

#[test]
fn a_label_is_made_of_what_is_left_of_the_path() {
    assert_eq!(label_directory("/home/ada/x", &Some("x".to_string())), "~/x");
    assert_eq!(label_directory("/home/ada/x", &None), "/home/ada/x");
}

#[test]
fn the_agent_starts() {
    let mut state = connected();
    assert!(state.links.prompt_ready);
    assert!(state.links.cancel_ready);
    assert!(state.links.control_ready);
    state.on_agent_built("~/work".to_string());
    assert!(!state.loading);
    assert_eq!(state.status, "ready");
    assert_eq!(state.session.working_dir, "~/work");
    state.on_session_read(GooseMode::Chat, "s1".to_string());
    assert_eq!(state.session.goose_mode, GooseMode::Chat);
    assert_eq!(state.session.session_id, "s1");
    assert!(!state.links.agent_ready);
    assert_eq!(state.on_worker_started(&interactive()), None);
    assert!(state.links.agent_ready);
}

#[test]
fn the_models_of_the_provider_are_known() {
    let model = |name: &str| ModelInfo { name: name.to_string() };
    let providers = vec![
        ProviderEntry { name: "x".to_string(), known_models: vec![model("x1")] },
        ProviderEntry { name: "y".to_string(), known_models: vec![model("y1"), model("y2")] },
        ProviderEntry { name: "y".to_string(), known_models: vec![model("y3")] },
    ];
    assert_eq!(known_models(&providers, "y"), vec![model("y1"), model("y2")]);
    assert_eq!(known_models(&providers, "z"), Vec::<ModelInfo>::new());
    let mut state = connected();
    state.on_provider_read("y".to_string(), "y2".to_string(), &providers);
    assert_eq!(state.session.provider_name, "y");
    assert_eq!(state.session.current_model, "y2");
    assert_eq!(state.dialogs.model_entries.len(), 2);
}

#[test]
fn a_failed_start_closes_the_way_to_the_agent() {
    let mut state = connected();
    state.on_agent_failed("no provider", &interactive());
    assert!(!state.loading);
    assert_eq!(state.status, "failed: no provider");
    assert!(!state.links.prompt_ready);
    assert!(!state.should_exit);
    assert_eq!(enter(&mut state, "hello"), None);
    assert!(state.transcript.turns.is_empty());
}

#[test]
fn a_failed_start_ends_a_one_shot_client() {
    let mut state = connected();
    state.on_agent_failed("no provider", &one_shot());
    assert!(state.should_exit);
}

#[test]
fn a_one_shot_client_sends_its_prompt_and_leaves() {
    let mut state = connected();
    state.on_agent_built("/".to_string());
    assert_eq!(
        state.on_worker_started(&one_shot()),
        Some(Action::SubmitPrompt { text: "summarise".to_string(), share_token: true })
    );
    assert_eq!(state.transcript.turns[0].user_text, "summarise");
    assert!(!state.should_exit);
    let done = AgentMsg::Finished { stop_reason: "end_turn".to_string() };
    state.on_rendered_msg(done, String::new(), &one_shot());
    assert!(state.should_exit);
}

#[test]
fn prompts_from_before_the_start_wait() {
    let mut state = connected();
    assert_eq!(enter(&mut state, "one"), None);
    assert_eq!(enter(&mut state, "two"), None);
    assert_eq!(state.prompt.queue.len(), 2);
    state.on_agent_built("/".to_string());
    assert_eq!(
        state.on_worker_started(&interactive()),
        Some(Action::SubmitPrompt { text: "one".to_string(), share_token: true })
    );
    assert_eq!(state.prompt.queue.len(), 1);
    assert!(state.loading);
}

#[test]
fn the_answer_grows_and_is_rendered_as_a_whole() {
    let mut state = started(&interactive());
    enter(&mut state, "hi");
    let first = AgentMsg::TextChunk("hel".to_string());
    assert_eq!(state.to_render(&first), Some("hel".to_string()));
    assert_eq!(tell(&mut state, first), None);
    let second = AgentMsg::TextChunk("lo".to_string());
    assert_eq!(state.to_render(&second), Some("hello".to_string()));
    tell(&mut state, second);
    assert_eq!(state.transcript.turns[0].agent_raw, "hello");
    assert_eq!(state.transcript.turns[0].agent_text, "HELLO");
}

#[test]
fn an_answer_without_a_turn_is_lost() {
    let mut state = started(&interactive());
    let msg = AgentMsg::TextChunk("x".to_string());
    assert_eq!(state.to_render(&msg), None);
    tell(&mut state, msg);
    tell(&mut state, AgentMsg::ToolCallUpdate(call("a", "t", ToolStatus::Pending, None, None)));
    assert!(state.transcript.turns.is_empty());
}

#[test]
fn only_the_latest_turn_takes_the_answer() {
    let mut state = started(&interactive());
    enter(&mut state, "one");
    tell(&mut state, AgentMsg::TextChunk("a".to_string()));
    tell(&mut state, AgentMsg::Finished { stop_reason: "end_turn".to_string() });
    enter(&mut state, "two");
    tell(&mut state, AgentMsg::TextChunk("b".to_string()));
    assert_eq!(state.transcript.turns[0].agent_raw, "a");
    assert_eq!(state.transcript.turns[1].agent_raw, "b");
}

#[test]
fn tool_calls_are_merged_in_the_order_first_seen() {
    let mut turn = Turn::asked("go".to_string());
    turn.update_call(call("a", "read", ToolStatus::Running, Some("in"), None));
    turn.update_call(call("b", "write", ToolStatus::Pending, None, None));
    turn.update_call(call("a", "", ToolStatus::Success, None, Some("out")));
    assert_eq!(turn.tool_call_order, vec!["a", "b"]);
    assert_eq!(turn.tool_calls.len(), 2);
    let merged = call("a", "read", ToolStatus::Success, Some("in"), Some("out"));
    assert_eq!(turn.call("a"), Some(merged));
    assert_eq!(turn.call("b"), Some(call("b", "write", ToolStatus::Pending, None, None)));
    assert_eq!(turn.call("c"), None);
    turn.update_call(call("b", "append", ToolStatus::Error, Some("x"), None));
    assert_eq!(turn.call("b"), Some(call("b", "append", ToolStatus::Error, Some("x"), None)));
}

#[test]
fn the_status_tells_how_a_turn_ended() {
    let mut state = started(&interactive());
    enter(&mut state, "one");
    tell(&mut state, AgentMsg::Finished { stop_reason: "max_tokens".to_string() });
    assert_eq!(state.status, "stopped: max_tokens");
    assert!(!state.loading);
    assert!(!state.should_exit);
    enter(&mut state, "two");
    assert_eq!(tell(&mut state, AgentMsg::Error("timeout".to_string())), None);
    assert_eq!(state.status, "error: timeout");
    assert!(!state.loading);
}

#[test]
fn an_error_does_not_start_the_next_prompt() {
    let mut state = started(&interactive());
    enter(&mut state, "one");
    enter(&mut state, "two");
    assert_eq!(tell(&mut state, AgentMsg::Error("x".to_string())), None);
    assert_eq!(state.prompt.queue.len(), 1);
}

#[test]
fn tokens_are_counted_and_cleared() {
    let mut state = started(&interactive());
    enter(&mut state, "one");
    tell(&mut state, AgentMsg::TokenUsage { total: 1234 });
    assert_eq!(state.session.token_total, 1234);
    tell(&mut state, AgentMsg::ConversationCleared);
    assert_eq!(state.session.token_total, 0);
    assert!(state.transcript.turns.is_empty());
    assert_eq!(state.prompt.prompt_history, vec!["one"]);
}

fn agreed(state: &mut AppState, step: ControlStep) -> ControlStep {
    state.advance_control(step, true)
}

#[test]
fn the_mode_changes_when_the_agent_agrees() {
    let mut state = started(&interactive());
    state.on_session_read(GooseMode::Auto, "s1".to_string());
    let step = state.begin_control(CtrlMsg::SetMode(GooseMode::Approve));
    let expected =
        ControlStep::UpdateMode { mode: GooseMode::Approve, session_id: "s1".to_string() };
    assert_eq!(step, expected);
    assert_eq!(state.advance_control(step, false), ControlStep::Done);
    assert_eq!(state.session.goose_mode, GooseMode::Auto);
    let again = state.begin_control(CtrlMsg::SetMode(GooseMode::Approve));
    assert_eq!(agreed(&mut state, again), ControlStep::Done);
    assert_eq!(state.session.goose_mode, GooseMode::Approve);
}

#[test]
fn without_an_agent_neither_mode_nor_model_changes() {
    let state = connected();
    assert_eq!(state.begin_control(CtrlMsg::SetMode(GooseMode::Chat)), ControlStep::Done);
    assert_eq!(state.begin_control(CtrlMsg::SwitchModel("m".to_string())), ControlStep::Done);
}

fn entry(enabled: bool) -> ExtensionEntry {
    ExtensionEntry { key: "dev".to_string(), name: "Developer".to_string(), enabled }
}

#[test]
fn an_extension_is_switched_on() {
    let mut state = started(&interactive());
    state.on_session_read(GooseMode::Auto, "s1".to_string());
    let first = state.begin_control(CtrlMsg::ToggleExt(entry(false)));
    assert_eq!(
        first,
        ControlStep::PersistExtension {
            key: "dev".to_string(),
            name: "Developer".to_string(),
            enabled: true,
            agent: true,
            session_id: "s1".to_string(),
        }
    );
    let second = agreed(&mut state, first);
    assert_eq!(
        second,
        ControlStep::AddExtension { key: "dev".to_string(), session_id: "s1".to_string() }
    );
    let third = state.advance_control(second, false);
    assert_eq!(third, ControlStep::ListExtensions);
    assert_eq!(agreed(&mut state, third), ControlStep::Done);
}

#[test]
fn an_extension_is_switched_off() {
    let mut state = started(&interactive());
    let first = state.begin_control(CtrlMsg::ToggleExt(entry(true)));
    let second = agreed(&mut state, first);
    assert_eq!(
        second,
        ControlStep::RemoveExtension { name: "Developer".to_string(), session_id: String::new() }
    );
    assert_eq!(agreed(&mut state, second), ControlStep::ListExtensions);
}

#[test]
fn without_an_agent_an_extension_is_only_configured() {
    let mut state = connected();
    let first = state.begin_control(CtrlMsg::ToggleExt(entry(true)));
    assert_eq!(agreed(&mut state, first), ControlStep::ListExtensions);
}

#[test]
fn a_model_is_switched_when_all_goes_well() {
    for failing in 0..4usize {
        let mut state = started(&interactive());
        state.on_provider_read("p".to_string(), "old".to_string(), &Vec::new());
        let mut step = state.begin_control(CtrlMsg::SwitchModel("new".to_string()));
        let mut steps: usize = 0;
        while step != ControlStep::Done {
            step = state.advance_control(step, steps != failing);
            steps += 1;
        }
        let expected = if failing == 0 { "new" } else { "old" };
        assert_eq!(state.session.current_model, expected);
        assert_eq!(steps, if failing == 0 { 4 } else { failing + 1 });
    }
}
