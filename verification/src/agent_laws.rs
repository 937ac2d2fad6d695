//! What starting the agent, its reports and the control loop do, told by what can be
//! seen of the state before and after.

use vstd::prelude::*;

use crate::agent::{directory_label_of, models_of, renders, ProviderModel};
use crate::commands::{commanding, local_command};
use crate::control::{step_after, ControlStepModel};
use crate::dialogs::DialogModel;
use crate::key_laws::turn_for;
use crate::prompt::PromptModel;
use crate::requests::RequestModel;
use crate::selection::lemma_first_position;
use crate::state::{AppModel, Links, SessionModel};
use crate::text::trimmed;
use crate::transcript::TranscriptModel;
use crate::types::{
    ActionModel, AgentMsgModel, AppPropsModel, CtrlModel, ElicitationModel, ExtensionModel,
    GooseMode, ModelInfoModel, PermissionModel, ToolCallModel, TurnModel,
};

verus! {

/// At the start the client is busy connecting, nothing was said, nothing is open, and
/// there is no way out.
pub proof fn law_the_start(mode: GooseMode, job_control: bool)
    ensures
        ({
            let state = AppModel::initial(mode, job_control);
            &&& state.wf()
            &&& state.loading && !state.should_exit && !state.banner_visible
            &&& state.status == "connecting…"@
            &&& state.spin_idx == 0 && state.anim_frame == 0
            &&& state.prompt.input.len() == 0 && state.prompt.queue.len() == 0
            &&& state.prompt.prompt_history.len() == 0 && state.prompt.history_cursor is None
            &&& state.prompt.completion_idx == 0
            &&& state.transcript.turns.len() == 0 && state.transcript.view_turn_idx is None
            &&& state.transcript.expanded_tc is None && state.transcript.scroll_offset == 0
            &&& !state.dialogs.ext_visible && !state.dialogs.model_visible
            &&& state.dialogs.ext_entries.len() == 0 && state.dialogs.model_entries.len() == 0
            &&& state.requests.pending_perm is None && state.requests.pending_elicit is None
            &&& !state.requests.perm_reply && !state.requests.elicit_reply
            &&& state.dialogs.ext_idx == 0 && state.dialogs.model_idx == 0
            &&& state.requests.perm_idx == 0 && state.requests.elicit_input.len() == 0
            &&& state.session.goose_mode == mode && state.session.token_total == 0
            &&& state.session.session_id.len() == 0 && state.session.working_dir.len() == 0
            &&& state.session.current_model.len() == 0 && state.session.provider_name.len() == 0
            &&& !state.links.prompt_ready && !state.links.cancel_ready
            &&& !state.links.control_ready && !state.links.agent_ready
            &&& state.links.job_control == job_control
        }),
{
}

/// A tick moves the spinner on among its four pictures and the animation by one frame,
/// and nothing more.
pub proof fn law_a_tick_moves_the_spinner(state: AppModel)
    requires
        state.wf(),
        state.anim_frame < usize::MAX,
    ensures
        ({
            let next = state.ticked();
            &&& next == AppModel {
                spin_idx: next.spin_idx,
                anim_frame: next.anim_frame,
                ..state
            }
            &&& next.spin_idx == if state.spin_idx == 3 {
                0
            } else {
                state.spin_idx + 1
            }
            &&& next.anim_frame == state.anim_frame + 1
        }),
{
}

/// What the user types is what the prompt, or the answer to the agent, holds; the list
/// of extensions that was read is what the dialog holds.
pub proof fn law_what_is_typed_is_kept(
    state: AppModel,
    text: Seq<char>,
    entries: Seq<ExtensionModel>,
)
    ensures
        state.prompt_typed(text) == (AppModel {
            prompt: PromptModel { input: text, ..state.prompt },
            ..state
        }),
        state.answer_typed(text) == (AppModel {
            requests: RequestModel { elicit_input: text, ..state.requests },
            ..state
        }),
        state.extensions_listed(entries) == (AppModel {
            dialogs: DialogModel { ext_entries: entries, ..state.dialogs },
            ..state
        }),
{
}

/// Starting the control loop and opening the channels to the agent make just these
/// ways out.
pub proof fn law_which_ways_out_open(state: AppModel)
    ensures
        state.control_started() == (AppModel {
            links: Links { control_ready: true, ..state.links },
            ..state
        }),
        state.channels_opened() == (AppModel {
            links: Links { prompt_ready: true, cancel_ready: true, ..state.links },
            ..state
        }),
{
}

/// A failed start is reported, closes the way for prompts, and ends a client that was
/// started for one prompt.
pub proof fn law_what_a_failed_start_does(
    state: AppModel,
    error: Seq<char>,
    props: AppPropsModel,
)
    ensures
        state.agent_failed(error, props) == (AppModel {
            loading: false,
            status: "failed: "@ + error,
            links: Links { prompt_ready: false, ..state.links },
            should_exit: state.should_exit || props.initial_prompt is Some,
            ..state
        }),
{
}

/// What is learnt of the agent as it starts is what the client shows of it.
pub proof fn law_what_is_learnt_at_the_start(
    state: AppModel,
    working_dir: Seq<char>,
    mode: GooseMode,
    session_id: Seq<char>,
)
    ensures
        state.agent_built(working_dir) == (AppModel {
            loading: false,
            status: "ready"@,
            session: SessionModel { working_dir, ..state.session },
            ..state
        }),
        state.session_read(mode, session_id) == (AppModel {
            session: SessionModel { goose_mode: mode, session_id, ..state.session },
            ..state
        }),
{
}

/// The models to choose from are those of the first provider with the name of the
/// agent's one; an unknown provider offers none. Its name and model are kept.
pub proof fn law_the_models_of_the_provider_are_offered(
    state: AppModel,
    name: Seq<char>,
    model: Seq<char>,
    providers: Seq<ProviderModel>,
    i: int,
)
    requires
        0 <= i <= providers.len(),
        forall|j: int| 0 <= j < i ==> (#[trigger] providers[j]).name != name,
        i < providers.len() ==> providers[i].name == name,
    ensures
        state.provider_read(name, model, providers) == (AppModel {
            session: SessionModel {
                provider_name: name,
                current_model: model,
                ..state.session
            },
            dialogs: DialogModel {
                model_entries: if i < providers.len() {
                    providers[i].known_models
                } else {
                    Seq::<ModelInfoModel>::empty()
                },
                ..state.dialogs
            },
            ..state
        }),
{
    let picked = |p: ProviderModel| p.name == name;
    lemma_first_position(providers, picked, i);
    assert(models_of(providers, name) == if i < providers.len() {
        providers[i].known_models
    } else {
        Seq::<ModelInfoModel>::empty()
    });
}

/// The way from home makes a label with a tilde and a slash in front; without a way the
/// directory is its own label.
pub proof fn law_what_a_directory_is_called(dir: Seq<char>, way: Seq<char>)
    ensures
        directory_label_of(dir, Some(way)) == seq!['~', '/'] + way,
        directory_label_of(dir, None) == dir,
{
    reveal_strlit("~/");
    assert("~/"@ =~= seq!['~', '/']);
}

/// The state when `text` was sent, where there is a way to send it.
pub open spec fn with_prompt_sent(state: AppModel, text: Seq<char>) -> AppModel {
    if state.links.prompt_ready {
        AppModel {
            loading: true,
            status: "thinking…"@,
            banner_visible: false,
            transcript: TranscriptModel {
                turns: state.transcript.turns.push(turn_for(text)),
                ..state.transcript
            },
            ..state
        }
    } else {
        state
    }
}

/// The request to submit `text`, where there is a way to.
pub open spec fn submission_of(state: AppModel, text: Seq<char>) -> Option<ActionModel> {
    if state.links.prompt_ready {
        Some(ActionModel::SubmitPrompt { text, share_token: state.links.cancel_ready })
    } else {
        None
    }
}

/// Sending a prompt opens a turn for it at the end and makes the client busy; without
/// a way to the agent it does nothing. A rejected prompt leaves the client idle.
pub proof fn law_what_sending_does(state: AppModel, text: Seq<char>)
    ensures
        state.sent(text) == with_prompt_sent(state, text),
        state.sending(text) == submission_of(state, text),
        state.rejected() == (AppModel {
            loading: false,
            status: "error: agent channel full"@,
            ..state
        }),
{
}

/// The words that the client answers itself, and what it does: leave, open the
/// extension dialog at its first entry and have the extensions listed, or open the
/// model dialog at its first model. No other word is one of them.
pub proof fn law_the_client_s_own_commands(state: AppModel, text: Seq<char>)
    ensures
        ({
            let word = trimmed(text);
            match local_command(text) {
                Some(command) => if word == "/exit"@ || word == "/quit"@ {
                    &&& state.commanded(command) == AppModel { should_exit: true, ..state }
                    &&& commanding(command) is None
                } else if word == "/ext"@ {
                    &&& state.commanded(command) == AppModel {
                        dialogs: DialogModel { ext_visible: true, ext_idx: 0, ..state.dialogs },
                        ..state
                    }
                    &&& commanding(command) == Some(ActionModel::ListExtensions)
                } else {
                    &&& word == "/model"@
                    &&& state.commanded(command) == AppModel {
                        dialogs: DialogModel {
                            model_visible: true,
                            model_idx: 0,
                            ..state.dialogs
                        },
                        ..state
                    }
                    &&& commanding(command) is None
                },
                None => {
                    &&& word != "/exit"@ && word != "/quit"@
                    &&& word != "/ext"@ && word != "/model"@
                },
            }
        }),
{
}

/// When the worker starts, the prompt that the client was started with is sent, or
/// else the first that waits, which then waits no more.
pub proof fn law_what_the_start_of_the_worker_does(state: AppModel, props: AppPropsModel)
    ensures
        ({
            let ready = AppModel { links: Links { agent_ready: true, ..state.links }, ..state };
            let next = state.worker_started(props);
            let effect = state.worker_starting(props);
            match props.initial_prompt {
                Some(text) => {
                    &&& next == with_prompt_sent(ready, text)
                    &&& effect == submission_of(state, text)
                },
                None => if state.prompt.queue.len() > 0 {
                    let text = state.prompt.queue[0];
                    let rest = AppModel {
                        prompt: PromptModel {
                            queue: state.prompt.queue.drop_first(),
                            ..state.prompt
                        },
                        ..ready
                    };
                    next == with_prompt_sent(rest, text) && effect == submission_of(state, text)
                } else {
                    next == ready && effect is None
                },
            }
        }),
{
}

/// When a turn ends the client is idle and says how it ended; a client that was
/// started for one prompt leaves. The first prompt that waits is sent, and waits no
/// more.
pub proof fn law_what_the_end_of_a_turn_does(
    state: AppModel,
    stop_reason: Seq<char>,
    rendered: Seq<char>,
    props: AppPropsModel,
)
    ensures
        ({
            let msg = AgentMsgModel::Finished { stop_reason };
            let idle = AppModel {
                loading: false,
                status: if stop_reason == "end_turn"@ {
                    "ready"@
                } else {
                    "stopped: "@ + stop_reason
                },
                should_exit: state.should_exit || props.initial_prompt is Some,
                ..state
            };
            let next = state.agent_step(msg, rendered, props);
            let effect = state.agent_effect(msg);
            if state.prompt.queue.len() > 0 {
                let text = state.prompt.queue[0];
                let rest = AppModel {
                    prompt: PromptModel {
                        queue: state.prompt.queue.drop_first(),
                        ..state.prompt
                    },
                    ..idle
                };
                next == with_prompt_sent(rest, text) && effect == submission_of(state, text)
            } else {
                next == idle && effect is None
            }
        }),
{
}

/// What the agent asks is what is open next, at its first option or with an empty
/// answer, and it can be answered. An error is reported and ends the turn; tokens are
/// counted; a conversation that starts over drops its turns and its tokens. None of
/// these has anything to be done outside.
pub proof fn law_what_plain_reports_do(
    state: AppModel,
    permission: PermissionModel,
    elicitation: ElicitationModel,
    total: i64,
    error: Seq<char>,
    rendered: Seq<char>,
    props: AppPropsModel,
    msg: AgentMsgModel,
)
    ensures
        state.agent_step(AgentMsgModel::PermissionRequest(permission), rendered, props) == (
        AppModel {
            requests: RequestModel {
                pending_perm: Some(permission),
                perm_idx: 0,
                perm_reply: true,
                ..state.requests
            },
            ..state
        }),
        state.agent_step(AgentMsgModel::ElicitationRequest(elicitation), rendered, props) == (
        AppModel {
            requests: RequestModel {
                pending_elicit: Some(elicitation),
                elicit_input: Seq::empty(),
                elicit_reply: true,
                ..state.requests
            },
            ..state
        }),
        state.agent_step(AgentMsgModel::ConversationCleared, rendered, props) == (AppModel {
            transcript: TranscriptModel { turns: Seq::empty(), ..state.transcript },
            session: SessionModel { token_total: 0, ..state.session },
            ..state
        }),
        state.agent_step(AgentMsgModel::TokenUsage { total }, rendered, props) == (AppModel {
            session: SessionModel { token_total: total, ..state.session },
            ..state
        }),
        state.agent_step(AgentMsgModel::Error(error), rendered, props) == (AppModel {
            loading: false,
            status: "error: "@ + error,
            ..state
        }),
        !(msg is Finished) ==> state.agent_effect(msg) is None,
{
}

/// A piece of the answer goes behind what the latest turn holds already. The whole is
/// what is to be rendered, and what comes of that is what the turn shows. Nothing else
/// changes, and without a turn nothing does.
pub proof fn law_what_a_piece_of_the_answer_does(
    state: AppModel,
    chunk: Seq<char>,
    rendered: Seq<char>,
    props: AppPropsModel,
)
    ensures
        ({
            let msg = AgentMsgModel::TextChunk(chunk);
            let next = state.agent_step(msg, rendered, props);
            let turns = state.transcript.turns;
            if turns.len() > 0 {
                let last = turns[turns.len() - 1];
                &&& state.to_render(msg) == Some(last.agent_raw + chunk)
                &&& next == AppModel {
                    transcript: TranscriptModel {
                        turns: turns.update(
                            turns.len() - 1,
                            TurnModel {
                                agent_raw: last.agent_raw + chunk,
                                agent_text: rendered,
                                ..last
                            },
                        ),
                        ..state.transcript
                    },
                    ..state
                }
            } else {
                state.to_render(msg) is None && next == state
            }
        }),
{
    let turns = state.transcript.turns;
    if turns.len() > 0 {
        let turn = turns.last().text_added(chunk, rendered);
        assert(turns.drop_last().push(turn) =~= turns.update(turns.len() - 1, turn));
    }
}

/// What is shown of an answer came out of the renderer when it was given that answer.
pub proof fn law_what_is_shown_came_from_the_renderer<F: Fn(&str) -> String>(
    render: F,
    raw: Seq<char>,
    shown: Seq<char>,
)
    requires
        renders(render, raw, shown),
    ensures
        exists|input: &str, output: String|
            #[trigger] call_ensures(render, (input,), output) && input@ == raw && output@ == shown,
{
}

/// Only a piece of the answer leaves something to be rendered.
pub proof fn law_only_the_answer_is_rendered(state: AppModel, msg: AgentMsgModel)
    requires
        !(msg is TextChunk),
    ensures
        state.to_render(msg) is None,
{
}

/// A report on a tool call that the latest turn knows keeps the call where it is and
/// its id. The status is always taken over; the title where the report has one that is
/// not empty; each preview where the report has one.
pub proof fn law_what_a_report_on_a_known_call_does(
    state: AppModel,
    info: ToolCallModel,
    i: int,
    rendered: Seq<char>,
    props: AppPropsModel,
)
    requires
        state.wf(),
        state.transcript.turns.len() > 0,
        0 <= i < state.transcript.turns.last().tool_calls.len(),
        state.transcript.turns.last().tool_calls[i].id == info.id,
    ensures
        ({
            let turns = state.transcript.turns;
            let last = turns[turns.len() - 1];
            let call = last.tool_calls[i];
            let next = state.agent_step(AgentMsgModel::ToolCallUpdate(info), rendered, props);
            let after = next.transcript.turns[turns.len() - 1];
            let merged = after.tool_calls[i];
            &&& next == AppModel {
                transcript: TranscriptModel {
                    turns: turns.update(turns.len() - 1, after),
                    ..state.transcript
                },
                ..state
            }
            &&& after == TurnModel { tool_calls: last.tool_calls.update(i, merged), ..last }
            &&& merged.id == call.id
            &&& merged.status == info.status
            &&& merged.title == if info.title.len() == 0 {
                call.title
            } else {
                info.title
            }
            &&& info.input_preview is Some ==> merged.input_preview == info.input_preview
            &&& info.input_preview is None ==> merged.input_preview == call.input_preview
            &&& info.output_preview is Some ==> merged.output_preview == info.output_preview
            &&& info.output_preview is None ==> merged.output_preview == call.output_preview
        }),
{
    let turns = state.transcript.turns;
    let last = turns[turns.len() - 1];
    assert(turns.last() == last);
    assert(last.wf());
    let picked = |c: ToolCallModel| c.id == info.id;
    assert forall|j: int| 0 <= j < i implies !picked(#[trigger] last.tool_calls[j]) by {
        assert(last.tool_calls[j].id == last.tool_call_order[j]);
        assert(last.tool_calls[i].id == last.tool_call_order[i]);
    }
    lemma_first_position(last.tool_calls, picked, i);
    let after = last.call_updated(info);
    assert(turns.drop_last().push(after) =~= turns.update(turns.len() - 1, after));
}

/// A report on a tool call that the latest turn does not know puts the call, as it is
/// reported, behind the others.
pub proof fn law_what_a_report_on_a_new_call_does(
    state: AppModel,
    info: ToolCallModel,
    rendered: Seq<char>,
    props: AppPropsModel,
)
    requires
        state.wf(),
        state.transcript.turns.len() > 0,
        forall|j: int|
            0 <= j < state.transcript.turns.last().tool_calls.len() ==> (
            #[trigger] state.transcript.turns.last().tool_calls[j]).id != info.id,
    ensures
        ({
            let turns = state.transcript.turns;
            let last = turns[turns.len() - 1];
            state.agent_step(AgentMsgModel::ToolCallUpdate(info), rendered, props) == AppModel {
                transcript: TranscriptModel {
                    turns: turns.update(
                        turns.len() - 1,
                        TurnModel {
                            tool_calls: last.tool_calls.push(info),
                            tool_call_order: last.tool_call_order.push(info.id),
                            ..last
                        },
                    ),
                    ..state.transcript
                },
                ..state
            }
        }),
{
    let turns = state.transcript.turns;
    let last = turns[turns.len() - 1];
    assert(turns.last() == last);
    assert(last.wf());
    let picked = |c: ToolCallModel| c.id == info.id;
    lemma_first_position(last.tool_calls, picked, last.tool_calls.len() as int);
    if last.tool_call_order.contains(info.id) {
        let k = last.tool_call_order.index_of(info.id);
        assert(last.tool_calls[k].id == info.id);
    }
    let after = last.call_updated(info);
    assert(turns.drop_last().push(after) =~= turns.update(turns.len() - 1, after));
}

/// Without a turn a report on a tool call is lost.
pub proof fn law_a_report_without_a_turn_is_lost(
    state: AppModel,
    info: ToolCallModel,
    rendered: Seq<char>,
    props: AppPropsModel,
)
    requires
        state.transcript.turns.len() == 0,
    ensures
        state.agent_step(AgentMsgModel::ToolCallUpdate(info), rendered, props) == state,
{
}

/// The agent is asked for the very mode of the message, in its session, and when it
/// agrees that mode is the client's. That is all there is to it.
pub proof fn law_what_a_change_of_mode_does(state: AppModel, mode: GooseMode, ok: bool)
    ensures
        ({
            let step = state.first_step(CtrlModel::SetMode(mode));
            &&& !state.links.agent_ready ==> step == ControlStepModel::Done
            &&& state.links.agent_ready ==> {
                &&& step == ControlStepModel::UpdateMode {
                    mode,
                    session_id: state.session.session_id,
                }
                &&& step_after(step, ok) == ControlStepModel::Done
                &&& state.stepped(step, ok).session.goose_mode == if ok {
                    mode
                } else {
                    state.session.goose_mode
                }
                &&& state.stepped(step, ok) == AppModel {
                    session: SessionModel {
                        goose_mode: state.stepped(step, ok).session.goose_mode,
                        ..state.session
                    },
                    ..state
                }
            }
        }),
{
}

/// Toggling an extension writes the opposite of what it was under its key. A running
/// agent is then given the extension by its key where it is on now, or loses it by its
/// name where it is off, in its session. Then the list is read, and that is the end.
/// The state changes at none of these steps.
pub proof fn law_what_toggling_an_extension_does(
    state: AppModel,
    entry: ExtensionModel,
    a: bool,
    b: bool,
    c: bool,
)
    ensures
        ({
            let first = state.first_step(CtrlModel::ToggleExt(entry));
            let second = step_after(first, a);
            let third = step_after(second, b);
            &&& first == ControlStepModel::PersistExtension {
                key: entry.key,
                name: entry.name,
                enabled: !entry.enabled,
                agent: state.links.agent_ready,
                session_id: state.session.session_id,
            }
            &&& if !state.links.agent_ready {
                &&& second == ControlStepModel::ListExtensions
                &&& third == ControlStepModel::Done
            } else {
                &&& second == if entry.enabled {
                    ControlStepModel::RemoveExtension {
                        name: entry.name,
                        session_id: state.session.session_id,
                    }
                } else {
                    ControlStepModel::AddExtension {
                        key: entry.key,
                        session_id: state.session.session_id,
                    }
                }
                &&& third == ControlStepModel::ListExtensions
                &&& step_after(third, c) == ControlStepModel::Done
            }
            &&& state.stepped(first, a) == state
            &&& state.stepped(second, b) == state
            &&& state.stepped(third, c) == state
        }),
{
}

/// Switching to a model names that model at every step, the provider of the session
/// wherever one is named, and the session throughout. The steps are to collect the
/// extensions, to configure the model, to create the provider and to hand it to the
/// agent; from the second on a failure ends it. The model is the client's when the
/// last step went well, and the state changes at no other.
pub proof fn law_what_switching_a_model_does(
    state: AppModel,
    model: Seq<char>,
    collected: bool,
    configured: bool,
    created: bool,
    updated: bool,
)
    requires
        state.links.agent_ready,
    ensures
        ({
            let provider = state.session.provider_name;
            let session_id = state.session.session_id;
            let s1 = state.first_step(CtrlModel::SwitchModel(model));
            let s2 = step_after(s1, collected);
            let s3 = step_after(s2, configured);
            let s4 = step_after(s3, created);
            &&& s1 == ControlStepModel::CollectExtensions { model, provider, session_id }
            &&& s2 == ControlStepModel::ConfigureModel { model, provider, session_id }
            &&& s3 == if configured {
                ControlStepModel::CreateProvider { model, provider, session_id }
            } else {
                ControlStepModel::Done
            }
            &&& configured ==> s4 == if created {
                ControlStepModel::UpdateProvider { model, session_id }
            } else {
                ControlStepModel::Done
            }
            &&& configured && created ==> step_after(s4, updated) == ControlStepModel::Done
            &&& state.stepped(s1, collected) == state
            &&& state.stepped(s2, configured) == state
            &&& state.stepped(s3, created) == state
            &&& configured && created ==> state.stepped(s4, updated) == if updated {
                AppModel {
                    session: SessionModel { current_model: model, ..state.session },
                    ..state
                }
            } else {
                state
            }
        }),
{
}

} // verus!
