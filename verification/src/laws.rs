//! What holds of the client as a whole, whatever it is told.

use vstd::arithmetic::div_mod::{
    lemma_mod_add_multiples_vanish, lemma_mod_self_0, lemma_small_mod,
};
use vstd::prelude::*;

use crate::agent::{directory_label_of, is_one_shot, ProviderModel};
use crate::commands::{local_command, next_mode};
use crate::completion::CatalogModel;
use crate::control::{step_after, ControlStepModel};
use crate::keyboard::{Key, KeyCommand, KeyPress};
use crate::paths::{
    is_piece_of, is_plain_path, leads_to, lemma_no_parts, lemma_parts_of_joined, path_head,
    path_parts, path_text,
};
use crate::prompt::PromptModel;
use crate::selection::{lemma_first_position_is_first, lemma_moved_in_range, next_of, previous_of};
use crate::state::{AppModel, SessionModel};
use crate::transcript::{merged, TranscriptCommand, TranscriptModel};
use crate::types::{
    ActionModel, AgentMsgModel, AppPropsModel, CtrlModel, ExtensionModel, GooseMode,
    PermissionChoiceModel, PermissionOptionModel, ToolCallModel, TurnModel,
};

verus! {

/// How many dialogs are open.
pub open spec fn open_dialogs(state: AppModel) -> int {
    let one = |open: bool| if open { 1int } else { 0 };
    one(state.dialogs.ext_visible) + one(state.dialogs.model_visible) + one(
        state.requests.pending_elicit is Some,
    ) + one(state.requests.pending_perm is Some)
}

/// Whether a prompt is to be submitted.
pub open spec fn submits(effect: Option<ActionModel>) -> bool {
    effect matches Some(action) && action is SubmitPrompt
}

/// Whether a permission request is to be answered.
pub open spec fn answers_permission(effect: Option<ActionModel>) -> bool {
    effect matches Some(action) && action is ReplyPermission
}

/// Whether a request for a line of text is to be answered.
pub open spec fn answers_elicitation(effect: Option<ActionModel>) -> bool {
    effect matches Some(action) && action is ReplyElicitation
}

/// Whether nothing stands between the keyboard and the prompt.
pub open spec fn at_the_prompt(state: AppModel) -> bool {
    &&& !state.dialogs.ext_visible
    &&& !state.dialogs.model_visible
    &&& state.requests.pending_perm is None
    &&& state.requests.pending_elicit is None
}

/// The release of a key does nothing.
pub proof fn law_releases_are_ignored(state: AppModel, press: KeyPress, catalog: CatalogModel)
    requires
        press.released,
    ensures
        state.key_step(press, catalog) == state,
        state.key_effect(press, catalog) is None,
{
}

/// Escape never leaves the client. It closes one dialog where one is open; else it
/// stops the turn that is under way; else it does nothing.
pub proof fn law_escape_dismisses_and_never_exits(
    state: AppModel,
    press: KeyPress,
    catalog: CatalogModel,
)
    requires
        press.key == Key::Esc,
        !press.released,
    ensures
        state.key_step(press, catalog).should_exit == state.should_exit,
        open_dialogs(state) > 0 ==> open_dialogs(state.key_step(press, catalog)) == open_dialogs(
            state,
        ) - 1,
        open_dialogs(state) == 0 ==> state.key_step(press, catalog) == if state.loading {
            state.stopping()
        } else {
            state
        },
        state.key_effect(press, catalog) == Some(ActionModel::CancelTurn) <==> open_dialogs(state)
            == 0 && state.loading,
{
}

/// Control-C leaves the client exactly when the agent asks nothing and no turn is
/// under way. While a turn is under way, and nothing is asked, it stops the turn.
pub proof fn law_interrupt_exits_only_when_idle(
    state: AppModel,
    press: KeyPress,
    catalog: CatalogModel,
)
    requires
        press.key == Key::Char('c'),
        press.control(),
        !press.released,
    ensures
        ({
            let asked = state.requests.pending_elicit is Some
                || state.requests.pending_perm is Some;
            let next = state.key_step(press, catalog);
            let effect = state.key_effect(press, catalog);
            &&& next.should_exit == (state.should_exit || (!asked && !state.loading))
            &&& effect == Some(ActionModel::CancelTurn) <==> !asked && state.loading
        }),
{
}

/// Suspending changes nothing, and happens only where the process can be put into
/// the background.
pub proof fn law_suspending_changes_nothing(
    state: AppModel,
    press: KeyPress,
    catalog: CatalogModel,
)
    requires
        state.key_effect(press, catalog) == Some(ActionModel::Suspend),
    ensures
        state.key_step(press, catalog) == state,
        state.links.job_control,
        press.key == Key::Char('z') && press.control(),
{
}

/// Once the client is to be left, nothing takes that back.
pub proof fn law_leaving_is_final(
    state: AppModel,
    press: KeyPress,
    catalog: CatalogModel,
    msg: AgentMsgModel,
    rendered: Seq<char>,
    props: AppPropsModel,
    error: Seq<char>,
    step: ControlStepModel,
    ok: bool,
)
    requires
        state.should_exit,
    ensures
        state.key_step(press, catalog).should_exit,
        state.agent_step(msg, rendered, props).should_exit,
        state.worker_started(props).should_exit,
        state.agent_failed(error, props).should_exit,
        state.stepped(step, ok).should_exit,
        state.ticked().should_exit,
{
}

/// Nothing raises the splash screen again. As it is down at the start, it never
/// shows.
pub proof fn law_the_splash_stays_down(
    state: AppModel,
    press: KeyPress,
    catalog: CatalogModel,
    msg: AgentMsgModel,
    rendered: Seq<char>,
    props: AppPropsModel,
    error: Seq<char>,
    step: ControlStepModel,
    ok: bool,
    mode: GooseMode,
    job_control: bool,
)
    ensures
        !AppModel::initial(mode, job_control).banner_visible,
        !state.banner_visible ==> {
            &&& !state.key_step(press, catalog).banner_visible
            &&& !state.agent_step(msg, rendered, props).banner_visible
            &&& !state.worker_started(props).banner_visible
            &&& !state.agent_failed(error, props).banner_visible
            &&& !state.stepped(step, ok).banner_visible
            &&& !state.ticked().banner_visible
        },
{
}

/// A key press leaves the session and the ways out as they are: the mode and the
/// model change only through the control loop.
pub proof fn law_keys_leave_the_session_alone(
    state: AppModel,
    press: KeyPress,
    catalog: CatalogModel,
)
    ensures
        state.key_step(press, catalog).session == state.session,
        state.key_step(press, catalog).links == state.links,
        state.key_step(press, catalog).spin_idx == state.spin_idx,
        state.key_step(press, catalog).anim_frame == state.anim_frame,
{
}

/// A key press opens a turn exactly when it has a prompt submitted, and the turn is
/// for that prompt. Turns never go away by a key press.
pub proof fn law_a_turn_for_each_submitted_prompt(
    state: AppModel,
    press: KeyPress,
    catalog: CatalogModel,
)
    ensures
        state.key_step(press, catalog).transcript.turns == match state.key_effect(press, catalog) {
            Some(ActionModel::SubmitPrompt { text, share_token }) => state.transcript.turns.push(
                TurnModel::asked(text),
            ),
            _ => state.transcript.turns,
        },
        submits(state.key_effect(press, catalog)) ==> state.key_step(press, catalog).loading,
{
}

/// Whenever a prompt is submitted, a cancellation token goes along if there is a
/// channel for it, and the client counts as busy.
pub proof fn law_sending_makes_busy(state: AppModel, text: Seq<char>)
    ensures
        state.sending(text) is Some <==> state.links.prompt_ready,
        state.sending(text) matches Some(action) ==> {
            &&& action == ActionModel::SubmitPrompt { text, share_token: state.links.cancel_ready }
            &&& state.sent(text).loading
            &&& state.sent(text).transcript.turns.last() == TurnModel::asked(text)
        },
        state.sending(text) is None ==> state.sent(text) == state,
{
}

/// A prompt that the channel takes no more leaves its turn, and the client is idle
/// again.
pub proof fn law_rejection_leaves_the_turn(state: AppModel, text: Seq<char>)
    requires
        state.links.prompt_ready,
    ensures
        !state.sent(text).rejected().loading,
        state.sent(text).rejected().transcript == state.transcript.asked(text),
        state.sent(text).rejected().prompt == state.prompt,
{
}

/// When the queue is full a submission is refused with a note, and neither the input
/// nor anything else is lost.
pub proof fn law_a_full_queue_loses_nothing(
    state: AppModel,
    press: KeyPress,
    catalog: CatalogModel,
)
    requires
        state.command(press, catalog) == KeyCommand::Submit,
        state.prompt.submission(catalog).len() > 0,
        state.loading,
        state.prompt.full(),
    ensures
        state.key_step(press, catalog) == (AppModel {
            status: "queue full — please wait"@,
            ..state
        }),
        state.key_effect(press, catalog) is None,
{
}

/// An input of nothing but white space is not submitted.
pub proof fn law_blank_input_is_not_submitted(
    state: AppModel,
    press: KeyPress,
    catalog: CatalogModel,
)
    requires
        state.command(press, catalog) == KeyCommand::Submit || state.command(press, catalog)
            == KeyCommand::SubmitFromSplash,
        state.prompt.submission(catalog).len() == 0,
    ensures
        state.key_step(press, catalog) == state,
        state.key_effect(press, catalog) is None,
{
}

/// The commands that the client answers itself never reach the agent: they open no
/// turn, do not wait in the queue and are not sent.
pub proof fn law_local_commands_stay_local(
    state: AppModel,
    press: KeyPress,
    catalog: CatalogModel,
)
    requires
        state.command(press, catalog) == KeyCommand::Submit || state.command(press, catalog)
            == KeyCommand::SubmitFromSplash,
        local_command(state.prompt.submission(catalog)) is Some,
    ensures
        state.key_step(press, catalog).transcript.turns == state.transcript.turns,
        state.key_step(press, catalog).prompt.queue == state.prompt.queue,
        !submits(state.key_effect(press, catalog)),
{
}

/// Shift-Enter submits nothing: at the prompt it changes nothing at all.
pub proof fn law_shift_enter_does_not_submit(
    state: AppModel,
    press: KeyPress,
    catalog: CatalogModel,
)
    requires
        press.key == Key::Enter,
        press.shift(),
        at_the_prompt(state),
    ensures
        state.key_step(press, catalog) == state,
        state.key_effect(press, catalog) is None,
{
}

/// While an earlier turn is looked at, Enter submits nothing: at the prompt it
/// changes nothing at all.
pub proof fn law_enter_does_not_submit_while_looking_back(
    state: AppModel,
    press: KeyPress,
    catalog: CatalogModel,
)
    requires
        press.key == Key::Enter,
        at_the_prompt(state),
        !state.banner_visible,
        state.transcript.view_turn_idx is Some,
    ensures
        state.key_step(press, catalog) == state,
        state.key_effect(press, catalog) is None,
{
}

/// Typing and deleting at the prompt start the selection of a completion over and
/// end the recall of earlier prompts.
pub proof fn law_editing_starts_over(state: AppModel, press: KeyPress, catalog: CatalogModel)
    requires
        at_the_prompt(state),
        !press.released,
        press.key is Char || press.key == Key::Backspace || press.key == Key::Delete,
        !press.control(),
    ensures
        state.key_step(press, catalog).prompt.completion_idx == 0,
        state.key_step(press, catalog).prompt.history_cursor is None,
        state.key_step(press, catalog).prompt.input == state.prompt.input,
{
}

/// The arrow keys go to the completions before they go to the history of prompts,
/// and to that before they scroll.
pub proof fn law_arrows_complete_then_recall_then_scroll(
    state: AppModel,
    press: KeyPress,
    catalog: CatalogModel,
)
    requires
        at_the_prompt(state),
        !press.released,
        press.key == Key::Up || press.key == Key::Down,
        !press.shift(),
    ensures
        ({
            let next = state.key_step(press, catalog);
            let completing = state.prompt.completions(catalog).len() > 0;
            &&& completing ==> next.prompt.input == state.prompt.input && next.transcript
                == state.transcript
            &&& !completing && state.prompt.history_cursor is Some
                && state.prompt.prompt_history.len() > 0 ==> next.transcript == state.transcript
            &&& next.transcript != state.transcript ==> next.prompt == state.prompt
        }),
{
}

proof fn lemma_nothing_is_sent_without_a_channel(
    state: AppModel,
    press: KeyPress,
    catalog: CatalogModel,
)
    requires
        !state.links.prompt_ready,
    ensures
        !submits(state.key_effect(press, catalog)),
        !state.key_step(press, catalog).links.prompt_ready,
{
}

/// An agent that could not be started leaves no way to send a prompt: no key press
/// has one submitted, and no key press brings the way back.
pub proof fn law_nothing_is_sent_after_a_failed_start(
    state: AppModel,
    error: Seq<char>,
    props: AppPropsModel,
    press: KeyPress,
    catalog: CatalogModel,
)
    ensures
        ({
            let failed = state.agent_failed(error, props);
            &&& !failed.links.prompt_ready
            &&& !failed.loading
            &&& !submits(failed.key_effect(press, catalog))
            &&& !failed.key_step(press, catalog).links.prompt_ready
        }),
        !state.links.prompt_ready ==> {
            &&& !submits(state.key_effect(press, catalog))
            &&& !state.key_step(press, catalog).links.prompt_ready
        },
{
    lemma_nothing_is_sent_without_a_channel(state.agent_failed(error, props), press, catalog);
    if !state.links.prompt_ready {
        lemma_nothing_is_sent_without_a_channel(state, press, catalog);
    }
}

/// A client that was started for one prompt leaves when its turn is over or the
/// agent could not be started. Any other client stays.
pub proof fn law_one_shot_clients_leave(
    state: AppModel,
    error: Seq<char>,
    stop_reason: Seq<char>,
    rendered: Seq<char>,
    props: AppPropsModel,
)
    ensures
        ({
            let finished = state.agent_step(
                AgentMsgModel::Finished { stop_reason },
                rendered,
                props,
            );
            let failed = state.agent_failed(error, props);
            &&& is_one_shot(props) ==> finished.should_exit && failed.should_exit
            &&& !is_one_shot(props) ==> finished.should_exit == state.should_exit
                && failed.should_exit == state.should_exit
        }),
{
}

/// A prompt that waits comes out behind those that waited before it.
pub proof fn law_first_in_first_out(prompt: PromptModel, text: Seq<char>)
    ensures
        prompt.queue.len() == 0 ==> prompt.enqueued(text).waiting() == Some(text),
        prompt.queue.len() == 0 ==> prompt.enqueued(text).dequeued() == prompt,
        prompt.queue.len() > 0 ==> prompt.enqueued(text).waiting() == prompt.waiting(),
        prompt.queue.len() > 0 ==> prompt.enqueued(text).dequeued() == prompt.dequeued().enqueued(
            text,
        ),
{
    if prompt.queue.len() == 0 {
        assert(prompt.queue.push(text).drop_first() =~= prompt.queue);
    } else {
        assert(prompt.queue.push(text).drop_first() =~= prompt.queue.drop_first().push(text));
    }
}

/// A key press changes the queue only by letting the prompt that is submitted wait
/// behind the others, and does so only while the agent is busy. No empty prompt
/// comes to wait.
pub proof fn law_keys_only_append_to_the_queue(
    state: AppModel,
    press: KeyPress,
    catalog: CatalogModel,
)
    ensures
        ({
            let next = state.key_step(press, catalog);
            let text = state.prompt.submission(catalog);
            next.prompt.queue != state.prompt.queue ==> {
                &&& next.prompt.queue == state.prompt.queue.push(text)
                &&& text.len() > 0
                &&& state.loading
                &&& !state.prompt.full()
            }
        }),
{
}

/// A waiting prompt leaves the queue only at the front, one at a time, and only when
/// the worker of a client without a prompt of its own starts or when a turn ends.
/// Nothing else that happens to the client touches the queue.
pub proof fn law_prompts_leave_the_queue_one_by_one(
    state: AppModel,
    msg: AgentMsgModel,
    rendered: Seq<char>,
    props: AppPropsModel,
    text: Seq<char>,
    mode: GooseMode,
    name: Seq<char>,
    providers: Seq<ProviderModel>,
    entries: Seq<ExtensionModel>,
    step: ControlStepModel,
    ok: bool,
)
    ensures
        state.agent_step(msg, rendered, props).prompt.queue == if msg is Finished {
            state.prompt.dequeued().queue
        } else {
            state.prompt.queue
        },
        state.worker_started(props).prompt.queue == if is_one_shot(props) {
            state.prompt.queue
        } else {
            state.prompt.dequeued().queue
        },
        state.prompt.queue.len() > 0 ==> state.prompt.dequeued().queue
            == state.prompt.queue.drop_first(),
        state.prompt.queue.len() == 0 ==> state.prompt.dequeued() == state.prompt,
        state.control_started().prompt == state.prompt,
        state.channels_opened().prompt == state.prompt,
        state.agent_failed(text, props).prompt == state.prompt,
        state.agent_built(text).prompt == state.prompt,
        state.session_read(mode, text).prompt == state.prompt,
        state.provider_read(name, text, providers).prompt == state.prompt,
        state.sent(text).prompt == state.prompt,
        state.rejected().prompt == state.prompt,
        state.stepped(step, ok).prompt == state.prompt,
        state.ticked().prompt == state.prompt,
        state.extensions_listed(entries).prompt == state.prompt,
        state.answer_typed(text).prompt == state.prompt,
        state.prompt_typed(text).prompt.queue == state.prompt.queue,
{
}

/// The state after `n` turns have ended one after the other.
pub open spec fn after_turns(
    state: AppModel,
    n: nat,
    stop_reason: Seq<char>,
    props: AppPropsModel,
) -> AppModel
    decreases n,
{
    if n == 0 {
        state
    } else {
        after_turns(state, (n - 1) as nat, stop_reason, props).agent_step(
            AgentMsgModel::Finished { stop_reason },
            Seq::empty(),
            props,
        )
    }
}

/// The prompts that wait are sent one by one as turns end, in the order in which they
/// were submitted.
pub proof fn law_waiting_prompts_are_sent_in_order(
    state: AppModel,
    n: nat,
    stop_reason: Seq<char>,
    props: AppPropsModel,
)
    requires
        state.links.prompt_ready,
        n <= state.prompt.queue.len(),
    ensures
        ({
            let after = after_turns(state, n, stop_reason, props);
            &&& after.prompt.queue == state.prompt.queue.skip(n as int)
            &&& after.transcript.turns == state.transcript.turns + Seq::new(
                n,
                |i: int| TurnModel::asked(state.prompt.queue[i]),
            )
            &&& after.links == state.links
        }),
    decreases n,
{
    let sent = |k: nat| Seq::new(k, |i: int| TurnModel::asked(state.prompt.queue[i]));
    if n == 0 {
        assert(state.prompt.queue.skip(0) =~= state.prompt.queue);
        assert(state.transcript.turns + sent(0) =~= state.transcript.turns);
    } else {
        let k = (n - 1) as nat;
        law_waiting_prompts_are_sent_in_order(state, k, stop_reason, props);
        assert(state.prompt.queue.skip(k as int).drop_first() =~= state.prompt.queue.skip(
            n as int,
        ));
        assert(state.transcript.turns + sent(n) =~= (state.transcript.turns + sent(k)).push(
            TurnModel::asked(state.prompt.queue[k as int]),
        ));
    }
}

/// A prompt that was submitted is the first that is recalled, and going forward from
/// it leads to an empty input.
pub proof fn law_the_latest_prompt_is_recalled_first(prompt: PromptModel, text: Seq<char>)
    ensures
        prompt.recorded(text).older_prompt().input == text,
        prompt.recorded(text).older_prompt().newer_prompt() == prompt.recorded(text),
{
}

/// Going one prompt back and one forward again leads to where it started.
pub proof fn law_recall_goes_back_and_forth(prompt: PromptModel, i: usize)
    requires
        i + 1 < prompt.prompt_history.len(),
        i < usize::MAX,
        prompt.history_cursor == Some(i),
        prompt.input == prompt.prompt_history[prompt.prompt_history.len() - 1 - i],
    ensures
        prompt.older_prompt().newer_prompt() == prompt,
{
}

/// Moving a selection down and up again leads to where it was, and so does up and
/// down. It never leaves the list.
pub proof fn law_selections_go_round(idx: int, n: int)
    requires
        0 <= idx < n,
    ensures
        previous_of(next_of(idx, n), n) == idx,
        next_of(previous_of(idx, n), n) == idx,
        0 <= previous_of(idx, n) < n,
        0 <= next_of(idx, n) < n,
{
    lemma_moved_in_range(idx, n);
    if idx + 1 < n {
        lemma_small_mod((idx + 1) as nat, n as nat);
        lemma_mod_add_multiples_vanish(idx, n);
        lemma_small_mod(idx as nat, n as nat);
    } else {
        lemma_mod_self_0(n);
        lemma_small_mod((n - 1) as nat, n as nat);
    }
    if idx > 0 {
        lemma_mod_add_multiples_vanish(idx - 1, n);
        lemma_small_mod((idx - 1) as nat, n as nat);
        lemma_small_mod(idx as nat, n as nat);
    } else {
        lemma_small_mod((n - 1) as nat, n as nat);
        lemma_mod_self_0(n);
    }
}

/// The round of modes visits all four and comes back.
pub proof fn law_modes_go_round(mode: GooseMode, other: GooseMode)
    ensures
        next_mode(next_mode(next_mode(next_mode(mode)))) == mode,
        other == mode || other == next_mode(mode) || other == next_mode(next_mode(mode)) || other
            == next_mode(next_mode(next_mode(mode))),
{
}

/// Scrolling up and down again leads to where it was.
pub proof fn law_scrolling_goes_back_and_forth(transcript: TranscriptModel)
    requires
        transcript.wf(),
        transcript.accepts(TranscriptCommand::ScrollUp),
    ensures
        transcript.performed(TranscriptCommand::ScrollUp).performed(TranscriptCommand::ScrollDown)
            == transcript,
{
}

/// Going one turn back and one forward again shows the same turn, from its end.
pub proof fn law_turns_go_back_and_forth(transcript: TranscriptModel)
    requires
        0 < transcript.shown_turn() < transcript.turns.len() <= usize::MAX,
    ensures
        ({
            let back = transcript.performed(TranscriptCommand::OlderTurn);
            let again = back.performed(TranscriptCommand::NewerTurn);
            &&& back.shown_turn() == transcript.shown_turn() - 1
            &&& back.is_history()
            &&& again.shown_turn() == transcript.shown_turn()
            &&& again.scroll_offset == 0
            &&& again.expanded_tc is None
        }),
{
}

/// Going forward from the last turn shows the latest one, whichever it will be.
pub proof fn law_going_forward_ends_at_the_latest_turn(transcript: TranscriptModel)
    requires
        transcript.shown_turn() + 1 >= transcript.turns.len(),
    ensures
        transcript.performed(TranscriptCommand::NewerTurn).view_turn_idx is None,
{
}

/// Expanding the latest tool call and collapsing it again changes nothing, and so
/// does collapsing and expanding.
pub proof fn law_tool_calls_expand_and_collapse(transcript: TranscriptModel)
    requires
        transcript.shown_turn() < transcript.turns.len(),
        transcript.expanded_tc matches Some(id) ==> {
            let order = transcript.turns[transcript.shown_turn()].tool_call_order;
            order.len() > 0 && id == order.last()
        },
    ensures
        transcript.tool_call_toggled().tool_call_toggled() == transcript,
{
}

/// A permission request is answered at most once, and with one of its options unless
/// it is declined. When a key press ends a request that has options, it is answered.
pub proof fn law_permissions_are_answered_once(
    state: AppModel,
    press: KeyPress,
    catalog: CatalogModel,
)
    requires
        state.wf(),
    ensures
        ({
            let next = state.key_step(press, catalog);
            let effect = state.key_effect(press, catalog);
            &&& effect matches Some(ActionModel::ReplyPermission(choice)) ==> {
                &&& state.requests.pending_perm is Some
                &&& next.requests.pending_perm is None
                &&& !next.requests.perm_reply
                &&& choice matches PermissionChoiceModel::Selected(id) ==> exists|i: int|
                    0 <= i < state.requests.option_count()
                        && id == #[trigger] state.requests.pending_perm->0.options[i].id
            }
            &&& state.requests.has_options() && next.requests.pending_perm is None
                ==> answers_permission(effect)
        }),
{
    if let Some(req) = state.requests.pending_perm {
        if let Key::Char(c) = press.key {
            lemma_first_position_is_first(
                req.options,
                |o: PermissionOptionModel| o.key == c,
            );
        }
    }
}

/// A request for a line of text is answered at most once. When a key press ends the
/// request, it is answered.
pub proof fn law_elicitations_are_answered_once(
    state: AppModel,
    press: KeyPress,
    catalog: CatalogModel,
)
    requires
        state.wf(),
    ensures
        ({
            let next = state.key_step(press, catalog);
            let effect = state.key_effect(press, catalog);
            &&& answers_elicitation(effect) ==> {
                &&& state.requests.pending_elicit is Some
                &&& next.requests.pending_elicit is None
                &&& !next.requests.elicit_reply
            }
            &&& state.requests.pending_elicit is Some && next.requests.pending_elicit is None
                ==> answers_elicitation(effect)
        }),
{
}

/// A report on a tool call leaves the order in which the calls were first seen, and
/// puts a new call last.
pub proof fn law_tool_calls_keep_their_order(turn: TurnModel, info: ToolCallModel)
    requires
        turn.wf(),
    ensures
        turn.call_updated(info).tool_call_order == if turn.tool_call_order.contains(info.id) {
            turn.tool_call_order
        } else {
            turn.tool_call_order.push(info.id)
        },
        turn.call_updated(info).wf(),
{
    turn.lemma_call_updated_wf(info);
    lemma_known_call(turn, info.id);
}

proof fn lemma_known_call(turn: TurnModel, id: Seq<char>)
    requires
        turn.wf(),
    ensures
        turn.call(id) is Some <==> turn.tool_call_order.contains(id),
        0 <= turn.call_position(id) <= turn.tool_calls.len(),
        turn.call(id) matches Some(call) ==> call.id == id,
{
    let picked = |c: ToolCallModel| c.id == id;
    lemma_first_position_is_first(turn.tool_calls, picked);
    let at = turn.call_position(id);
    if at < turn.tool_calls.len() {
        assert(turn.tool_calls[at].id == turn.tool_call_order[at]);
    }
    if turn.tool_call_order.contains(id) {
        let i = turn.tool_call_order.index_of(id);
        assert(turn.tool_calls[i].id == id);
        assert(picked(turn.tool_calls[i]));
    }
}

/// The tool call at a place is the one that is found under the id at that place.
pub proof fn lemma_call_at(turn: TurnModel, i: int)
    requires
        turn.wf(),
        0 <= i < turn.tool_calls.len(),
    ensures
        turn.call(turn.tool_call_order[i]) == Some(turn.tool_calls[i]),
{
    let id = turn.tool_call_order[i];
    lemma_known_call(turn, id);
    let at = turn.call_position(id);
    assert(turn.tool_calls[at].id == turn.tool_call_order[at]);
}

/// A report on a tool call changes that call only. A known call takes over what the
/// report says of it; an unknown one is as reported.
pub proof fn law_reports_change_one_tool_call(
    turn: TurnModel,
    info: ToolCallModel,
    other: Seq<char>,
)
    requires
        turn.wf(),
    ensures
        turn.call_updated(info).call(info.id) == match turn.call(info.id) {
            Some(call) => Some(merged(call, info)),
            None => Some(info),
        },
        other != info.id ==> turn.call_updated(info).call(other) == turn.call(other),
{
    let next = turn.call_updated(info);
    turn.lemma_call_updated_wf(info);
    lemma_known_call(turn, info.id);
    lemma_known_call(next, info.id);
    lemma_known_call(turn, other);
    lemma_known_call(next, other);
    let at = turn.call_position(info.id);
    if at < turn.tool_calls.len() {
        assert(turn.tool_calls[at].id == turn.tool_call_order[at]);
        lemma_call_at(next, at);
    } else {
        lemma_call_at(next, turn.tool_calls.len() as int);
    }
    if other != info.id && turn.tool_call_order.contains(other) {
        let i = turn.tool_call_order.index_of(other);
        assert(next.tool_call_order[i] == other);
        lemma_call_at(turn, i);
        lemma_call_at(next, i);
    }
    if next.tool_call_order.contains(other) && other != info.id {
        let i = next.tool_call_order.index_of(other);
        assert(turn.tool_call_order[i] == other);
    }
}

/// A piece of the answer is put behind what came before, in the latest turn only.
pub proof fn law_answers_grow_at_the_end(
    transcript: TranscriptModel,
    chunk: Seq<char>,
    rendered: Seq<char>,
    i: int,
)
    requires
        0 <= i < transcript.turns.len(),
    ensures
        ({
            let next = transcript.text_added(chunk, rendered);
            &&& next.turns.len() == transcript.turns.len()
            &&& i < transcript.turns.len() - 1 ==> next.turns[i] == transcript.turns[i]
            &&& next.turns.last().agent_raw == transcript.turns.last().agent_raw + chunk
            &&& next.turns.last().agent_text == rendered
            &&& next.turns.last().user_text == transcript.turns.last().user_text
        }),
{
}

/// Starting the conversation over drops the turns and the count of tokens, and keeps
/// the prompt, its history and the prompts that wait.
pub proof fn law_clearing_keeps_the_prompt(
    state: AppModel,
    rendered: Seq<char>,
    props: AppPropsModel,
)
    ensures
        ({
            let next = state.agent_step(AgentMsgModel::ConversationCleared, rendered, props);
            &&& next.transcript.turns.len() == 0
            &&& next.session.token_total == 0
            &&& next.prompt == state.prompt
            &&& next.loading == state.loading
        }),
{
}

/// Prompts submitted while the agent starts wait, and the first of them goes out
/// when it has started, unless the client was started with a prompt of its own.
pub proof fn law_early_prompts_wait_for_the_agent(
    state: AppModel,
    props: AppPropsModel,
    working_dir: Seq<char>,
)
    requires
        state.links.prompt_ready,
        state.prompt.queue.len() > 0,
        !is_one_shot(props),
    ensures
        ({
            let started = state.agent_built(working_dir).worker_started(props);
            &&& state.agent_built(working_dir).worker_starting(props) == Some(
                ActionModel::SubmitPrompt {
                    text: state.prompt.queue.first(),
                    share_token: state.links.cancel_ready,
                },
            )
            &&& started.prompt.queue == state.prompt.queue.drop_first()
            &&& started.loading
        }),
{
}

/// A directory below the home directory is shown as the way from there, in the
/// plainest spelling where the directory is given so.
pub proof fn law_directories_below_home_are_shortened(
    home: Seq<char>,
    rel: Seq<char>,
    relative: Option<Seq<char>>,
)
    requires
        home.len() > 0,
        path_head(rel).len() == 0,
        leads_to(home + seq!['/'] + rel, home, relative),
    ensures
        ({
            let dir = home + seq!['/'] + rel;
            let label = directory_label_of(dir, relative);
            &&& relative matches Some(way) && path_parts(way) == path_parts(rel) && is_piece_of(
                way,
                dir,
            ) && label == "~/"@ + way
            &&& is_plain_path(dir) ==> label == "~/"@ + path_text(path_parts(rel))
        }),
{
    lemma_parts_of_joined(home, rel);
    let base = path_parts(home);
    let whole = base + path_parts(rel);
    assert(whole.subrange(0, base.len() as int) =~= base);
    assert(whole.skip(base.len() as int) =~= path_parts(rel));
}

/// The home directory itself is shown as nothing but the way home, however it is
/// spelled.
pub proof fn law_home_is_shown_as_home(
    home: Seq<char>,
    dir: Seq<char>,
    relative: Option<Seq<char>>,
)
    requires
        path_parts(dir) == path_parts(home),
        leads_to(dir, home, relative),
    ensures
        directory_label_of(dir, relative) == "~/"@,
{
    let parts = path_parts(home);
    assert(parts.subrange(0, parts.len() as int) =~= parts);
    assert(relative is Some);
    lemma_no_parts(relative->0);
    assert("~/"@ + relative->0 =~= "~/"@);
}

/// A directory that does not lie below the home directory is shown as it is given.
pub proof fn law_other_directories_are_shown_as_they_are(
    home: Seq<char>,
    dir: Seq<char>,
    relative: Option<Seq<char>>,
)
    requires
        !path_parts(home).is_prefix_of(path_parts(dir)),
        leads_to(dir, home, relative),
    ensures
        directory_label_of(dir, relative) == dir,
{
}

/// The mode and the model change only when the agent has taken them: a step that
/// failed changes nothing.
pub proof fn law_failed_steps_change_nothing(state: AppModel, step: ControlStepModel)
    ensures
        state.stepped(step, false) == state,
{
}

/// Without an agent a message about the mode or the model is dropped.
pub proof fn law_no_control_without_an_agent(state: AppModel, mode: GooseMode, model: Seq<char>)
    requires
        !state.links.agent_ready,
    ensures
        state.first_step(CtrlModel::SetMode(mode)) == ControlStepModel::Done,
        state.first_step(CtrlModel::SwitchModel(model)) == ControlStepModel::Done,
{
}

/// How many steps are left at most.
pub open spec fn steps_left(step: ControlStepModel) -> nat {
    match step {
        ControlStepModel::Done => 0,
        ControlStepModel::UpdateMode { .. }
        | ControlStepModel::ListExtensions
        | ControlStepModel::UpdateProvider { .. } => 1,
        ControlStepModel::AddExtension { .. }
        | ControlStepModel::RemoveExtension { .. }
        | ControlStepModel::CreateProvider { .. } => 2,
        ControlStepModel::PersistExtension { .. } | ControlStepModel::ConfigureModel { .. } => 3,
        ControlStepModel::CollectExtensions { .. } => 4,
    }
}

/// Every message is worked off in at most four steps.
pub proof fn law_control_comes_to_an_end(
    state: AppModel,
    msg: CtrlModel,
    step: ControlStepModel,
    ok: bool,
)
    ensures
        steps_left(state.first_step(msg)) <= 4,
        step != ControlStepModel::Done ==> steps_left(step_after(step, ok)) < steps_left(step),
        step_after(ControlStepModel::Done, ok) == ControlStepModel::Done,
{
}

/// However the steps go, toggling an extension ends with the list of extensions being
/// read again.
pub proof fn law_toggling_reads_the_list_again(
    state: AppModel,
    entry: ExtensionModel,
    persisted: bool,
    applied: bool,
)
    ensures
        ({
            let first = state.first_step(CtrlModel::ToggleExt(entry));
            let second = step_after(first, persisted);
            if state.links.agent_ready {
                &&& (if entry.enabled {
                    second is RemoveExtension
                } else {
                    second is AddExtension
                })
                &&& step_after(second, applied) == ControlStepModel::ListExtensions
            } else {
                second == ControlStepModel::ListExtensions
            }
        }),
{
}

/// The model is switched if and only if it could be configured, its provider be
/// created, and the agent took it. The outcome of collecting the extensions does not
/// matter.
pub proof fn law_a_model_is_switched_only_when_all_goes_well(
    state: AppModel,
    model: Seq<char>,
    collected: bool,
    configured: bool,
    created: bool,
    updated: bool,
)
    requires
        state.links.agent_ready,
    ensures
        ({
            let s1 = state.first_step(CtrlModel::SwitchModel(model));
            let s2 = step_after(s1, collected);
            let s3 = step_after(s2, configured);
            let s4 = step_after(s3, created);
            let after = state.stepped(s1, collected).stepped(s2, configured).stepped(
                s3,
                created,
            ).stepped(s4, updated);
            after == if configured && created && updated {
                AppModel {
                    session: SessionModel { current_model: model, ..state.session },
                    ..state
                }
            } else {
                state
            }
        }),
{
}

} // verus!
