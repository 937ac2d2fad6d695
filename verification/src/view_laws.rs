//! A model holds what its value holds, field by field.

use vstd::prelude::*;

use crate::agent::ProviderEntry;
use crate::completion::{AgentCommand, CommandCatalog};
use crate::control::{ControlStep, ControlStepModel};
use crate::screen::{DialogsView, FooterView, HeaderView, MainView, ModelsView, Screen, SplashView};
use crate::state::AppState;
use crate::turn_view::{ToolCallView, ToolCallViewModel, TurnLayout, TurnViewProps};
use crate::types::{
    Action, ActionModel, AgentMsg, AgentMsgModel, AppProps, CtrlModel, CtrlMsg, ElicitationReq,
    ExtensionEntry, ModelInfo, PermissionChoice, PermissionChoiceModel, PermissionOption,
    PermissionReq, ToolCallInfo, Turn,
};

verus! {

/// The model of the state holds what the state holds.
pub proof fn law_the_model_of_the_state(state: AppState)
    ensures
        ({
            let model = state@;
            &&& model.should_exit == state.should_exit
            &&& model.loading == state.loading
            &&& model.status == state.status@
            &&& model.banner_visible == state.banner_visible
            &&& model.spin_idx == state.spin_idx
            &&& model.anim_frame == state.anim_frame
            &&& model.links == state.links
            &&& model.prompt.input == state.prompt.input@
            &&& model.prompt.queue == state.prompt.queue.deep_view()
            &&& model.prompt.completion_idx == state.prompt.completion_idx
            &&& model.prompt.prompt_history == state.prompt.prompt_history.deep_view()
            &&& model.prompt.history_cursor == state.prompt.history_cursor
            &&& model.transcript.turns == state.transcript.turns.deep_view()
            &&& model.transcript.view_turn_idx == state.transcript.view_turn_idx
            &&& model.transcript.expanded_tc == state.transcript.expanded_tc.deep_view()
            &&& model.transcript.scroll_offset == state.transcript.scroll_offset
            &&& model.dialogs.ext_visible == state.dialogs.ext_visible
            &&& model.dialogs.ext_entries == state.dialogs.ext_entries.deep_view()
            &&& model.dialogs.ext_idx == state.dialogs.ext_idx
            &&& model.dialogs.model_visible == state.dialogs.model_visible
            &&& model.dialogs.model_entries == state.dialogs.model_entries.deep_view()
            &&& model.dialogs.model_idx == state.dialogs.model_idx
            &&& model.requests.pending_perm == state.requests.pending_perm.deep_view()
            &&& model.requests.perm_idx == state.requests.perm_idx
            &&& model.requests.perm_reply == state.requests.perm_reply
            &&& model.requests.pending_elicit == state.requests.pending_elicit.deep_view()
            &&& model.requests.elicit_input == state.requests.elicit_input@
            &&& model.requests.elicit_reply == state.requests.elicit_reply
            &&& model.session.working_dir == state.session.working_dir@
            &&& model.session.token_total == state.session.token_total
            &&& model.session.session_id == state.session.session_id@
            &&& model.session.goose_mode == state.session.goose_mode
            &&& model.session.current_model == state.session.current_model@
            &&& model.session.provider_name == state.session.provider_name@
        }),
{
}

/// The models of turns, tool calls and requests hold what these hold.
pub proof fn law_the_models_of_turns_and_requests(
    turn: Turn,
    call: ToolCallInfo,
    permission: PermissionReq,
    option: PermissionOption,
    elicitation: ElicitationReq,
)
    ensures
        turn.deep_view().user_text == turn.user_text@,
        turn.deep_view().agent_raw == turn.agent_raw@,
        turn.deep_view().agent_text == turn.agent_text@,
        turn.deep_view().tool_calls == turn.tool_calls.deep_view(),
        turn.deep_view().tool_call_order == turn.tool_call_order.deep_view(),
        call.deep_view().id == call.id@,
        call.deep_view().title == call.title@,
        call.deep_view().status == call.status,
        call.deep_view().input_preview == call.input_preview.deep_view(),
        call.deep_view().output_preview == call.output_preview.deep_view(),
        permission.deep_view().title == permission.title@,
        permission.deep_view().options == permission.options.deep_view(),
        option.deep_view().id == option.id@,
        option.deep_view().label == option.label@,
        option.deep_view().key == option.key,
        elicitation.deep_view().message == elicitation.message@,
{
}

/// The models of what the client is given hold what it is given.
pub proof fn law_the_models_of_what_is_given(
    props: AppProps,
    entry: ExtensionEntry,
    info: ModelInfo,
    provider: ProviderEntry,
    catalog: CommandCatalog,
    command: AgentCommand,
    msg: AgentMsg,
)
    ensures
        props.deep_view().initial_prompt == props.initial_prompt.deep_view(),
        props.deep_view().session_id == props.session_id.deep_view(),
        entry.deep_view().key == entry.key@,
        entry.deep_view().name == entry.name@,
        entry.deep_view().enabled == entry.enabled,
        info.deep_view().name == info.name@,
        provider.deep_view().name == provider.name@,
        provider.deep_view().known_models == provider.known_models.deep_view(),
        catalog.deep_view().agent_commands == catalog.agent_commands.deep_view(),
        catalog.deep_view().recipes == catalog.recipes.deep_view(),
        command.deep_view() == (command.name@, command.description@),
        match msg {
            AgentMsg::TextChunk(chunk) => msg.deep_view() == AgentMsgModel::TextChunk(chunk@),
            AgentMsg::ToolCallUpdate(call) => msg.deep_view() == AgentMsgModel::ToolCallUpdate(
                call.deep_view(),
            ),
            AgentMsg::PermissionRequest(req) => msg.deep_view()
                == AgentMsgModel::PermissionRequest(req.deep_view()),
            AgentMsg::ElicitationRequest(req) => msg.deep_view()
                == AgentMsgModel::ElicitationRequest(req.deep_view()),
            AgentMsg::ConversationCleared => msg.deep_view() is ConversationCleared,
            AgentMsg::TokenUsage { total } => msg.deep_view() == (AgentMsgModel::TokenUsage {
                total,
            }),
            AgentMsg::Finished { stop_reason } => msg.deep_view() == (AgentMsgModel::Finished {
                stop_reason: stop_reason@,
            }),
            AgentMsg::Error(e) => msg.deep_view() == AgentMsgModel::Error(e@),
        },
{
}

/// The models of what is to be done hold what is to be done.
pub proof fn law_the_models_of_what_is_to_be_done(
    action: Action,
    msg: CtrlMsg,
    choice: PermissionChoice,
    step: ControlStep,
)
    ensures
        match action {
            Action::ReplyElicitation(text) => action.deep_view() == ActionModel::ReplyElicitation(
                text@,
            ),
            Action::ReplyPermission(c) => action.deep_view() == ActionModel::ReplyPermission(
                c.deep_view(),
            ),
            Action::CancelTurn => action.deep_view() is CancelTurn,
            Action::Suspend => action.deep_view() is Suspend,
            Action::Control(m) => action.deep_view() == ActionModel::Control(m.deep_view()),
            Action::ListExtensions => action.deep_view() is ListExtensions,
            Action::SubmitPrompt { text, share_token } => action.deep_view() == (
            ActionModel::SubmitPrompt { text: text@, share_token }),
        },
        match msg {
            CtrlMsg::SetMode(mode) => msg.deep_view() == CtrlModel::SetMode(mode),
            CtrlMsg::ToggleExt(entry) => msg.deep_view() == CtrlModel::ToggleExt(entry.deep_view()),
            CtrlMsg::SwitchModel(name) => msg.deep_view() == CtrlModel::SwitchModel(name@),
        },
        match choice {
            PermissionChoice::Selected(id) => choice.deep_view()
                == PermissionChoiceModel::Selected(id@),
            PermissionChoice::Cancelled => choice.deep_view() is Cancelled,
        },
        match step {
            ControlStep::UpdateMode { mode, session_id } => step.deep_view() == (
            ControlStepModel::UpdateMode { mode, session_id: session_id@ }),
            ControlStep::PersistExtension { key, name, enabled, agent, session_id } => {
                step.deep_view() == (ControlStepModel::PersistExtension {
                    key: key@,
                    name: name@,
                    enabled,
                    agent,
                    session_id: session_id@,
                })
            },
            ControlStep::AddExtension { key, session_id } => step.deep_view() == (
            ControlStepModel::AddExtension { key: key@, session_id: session_id@ }),
            ControlStep::RemoveExtension { name, session_id } => step.deep_view() == (
            ControlStepModel::RemoveExtension { name: name@, session_id: session_id@ }),
            ControlStep::ListExtensions => step.deep_view() is ListExtensions,
            ControlStep::CollectExtensions { model, provider, session_id } => {
                step.deep_view() == (ControlStepModel::CollectExtensions {
                    model: model@,
                    provider: provider@,
                    session_id: session_id@,
                })
            },
            ControlStep::ConfigureModel { model, provider, session_id } => {
                step.deep_view() == (ControlStepModel::ConfigureModel {
                    model: model@,
                    provider: provider@,
                    session_id: session_id@,
                })
            },
            ControlStep::CreateProvider { model, provider, session_id } => {
                step.deep_view() == (ControlStepModel::CreateProvider {
                    model: model@,
                    provider: provider@,
                    session_id: session_id@,
                })
            },
            ControlStep::UpdateProvider { model, session_id } => step.deep_view() == (
            ControlStepModel::UpdateProvider { model: model@, session_id: session_id@ }),
            ControlStep::Done => step.deep_view() is Done,
        },
{
}

/// The models of a turn and its layout hold what these hold.
pub proof fn law_the_models_of_a_layout(
    props: TurnViewProps,
    layout: TurnLayout,
    view: ToolCallView,
)
    ensures
        props.deep_view().turn == props.turn.deep_view(),
        props.deep_view().expanded_tool_call == props.expanded_tool_call.deep_view(),
        props.deep_view().active == props.active,
        props.deep_view().status == props.status@,
        props.deep_view().width == props.width,
        props.deep_view().height == props.height,
        props.deep_view().scroll_offset == props.scroll_offset,
        layout.deep_view().width == layout.width,
        layout.deep_view().calls == layout.calls.deep_view(),
        layout.deep_view().lines == layout.lines.deep_view(),
        layout.deep_view().note == layout.note.deep_view(),
        match view {
            ToolCallView::Card { id, info, expanded } => view.deep_view() == (
            ToolCallViewModel::Card { id: id@, info: info.deep_view(), expanded }),
            ToolCallView::Compact { id, info } => view.deep_view() == (ToolCallViewModel::Compact {
                id: id@,
                info: info.deep_view(),
            }),
        },
{
}

/// The models of the parts of the screen hold what these hold.
pub proof fn law_the_models_of_the_screen(
    screen: Screen,
    splash: SplashView,
    main: MainView,
    header: HeaderView,
    dialogs: DialogsView,
    models: ModelsView,
    footer: FooterView,
)
    ensures
        screen.deep_view().exit == screen.exit,
        screen.deep_view().width == screen.width,
        screen.deep_view().height == screen.height,
        screen.deep_view().splash == screen.splash.deep_view(),
        screen.deep_view().main == screen.main.deep_view(),
        splash.deep_view().status == splash.status@,
        splash.deep_view().anim_frame == splash.anim_frame,
        splash.deep_view().show_input == splash.show_input,
        main.deep_view().width == main.width,
        main.deep_view().header == main.header.deep_view(),
        main.deep_view().prompt == main.prompt.deep_view(),
        main.deep_view().scrolled == main.scrolled,
        main.deep_view().turn == main.turn.deep_view(),
        main.deep_view().dialogs == main.dialogs.deep_view(),
        main.deep_view().footer == main.footer.deep_view(),
        header.deep_view().status == header.status@,
        header.deep_view().loading == header.loading,
        header.deep_view().spin_idx == header.spin_idx,
        header.deep_view().turn_info == header.turn_info,
        header.deep_view().working_dir == header.working_dir@,
        header.deep_view().token_total == header.token_total,
        header.deep_view().goose_mode == header.goose_mode,
        dialogs.deep_view().permission == dialogs.permission.deep_view(),
        dialogs.deep_view().elicitation == dialogs.elicitation.deep_view(),
        dialogs.deep_view().models == dialogs.models.deep_view(),
        dialogs.deep_view().extensions == dialogs.extensions.deep_view(),
        models.deep_view().models == models.models.deep_view(),
        models.deep_view().current_model == models.current_model@,
        models.deep_view().selected_idx == models.selected_idx,
        footer.deep_view().history == footer.history.deep_view(),
        footer.deep_view().queued == footer.queued.deep_view(),
        footer.deep_view().completions == footer.completions.deep_view(),
        footer.deep_view().input_bar == footer.input_bar,
{
}

} // verus!
