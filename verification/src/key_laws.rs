//! What each key does, told by what can be seen of the state before and after.

use vstd::arithmetic::div_mod::{
    lemma_add_mod_noop, lemma_mod_add_multiples_vanish, lemma_mod_bound, lemma_mod_self_0,
    lemma_mod_twice, lemma_small_mod,
};
use vstd::prelude::*;

use crate::completion::{completions, has_command, CatalogModel};
use crate::dialogs::DialogModel;
use crate::keyboard::{Key, KeyPress};
use crate::prompt::PromptModel;
use crate::requests::RequestModel;
use crate::selection::{lemma_first_position, next_of, previous_of};
use crate::state::AppModel;
use crate::text::trimmed;
use crate::transcript::TranscriptModel;
use crate::types::{
    ActionModel, CtrlModel, GooseMode, PermissionChoiceModel, PermissionOptionModel, TurnModel,
};

verus! {

/// Whether the shift key is held with a key.
pub open spec fn shift_held(press: KeyPress) -> bool {
    press.modifiers & 1u8 == 1u8
}

/// Whether the control key is held with a key.
pub open spec fn control_held(press: KeyPress) -> bool {
    press.modifiers & 2u8 == 2u8
}

/// Whether a key goes to what is open on the screen: it is pressed, and it is none of
/// those that work everywhere.
pub open spec fn goes_to_the_screen(state: AppModel, press: KeyPress) -> bool {
    &&& !press.released
    &&& press.key != Key::Esc
    &&& !(press.key == Key::Char('c') && control_held(press))
    &&& !(press.key == Key::Char('z') && control_held(press) && state.links.job_control)
}

/// Whether a key goes past the dialogs of the client.
pub open spec fn goes_past_the_dialogs(state: AppModel, press: KeyPress) -> bool {
    &&& goes_to_the_screen(state, press)
    &&& !state.dialogs.ext_visible
    &&& !state.dialogs.model_visible
}

/// Whether a key goes to the prompt and the transcript.
pub open spec fn goes_to_the_prompt(state: AppModel, press: KeyPress) -> bool {
    &&& goes_past_the_dialogs(state, press)
    &&& press.key != Key::BackTab
    &&& state.requests.pending_perm is None
    &&& !(press.key == Key::Enter && !shift_held(press) && state.requests.pending_elicit is Some)
}

/// The place before `idx` in a list of `n`; before the first comes the last.
pub open spec fn place_before(idx: int, n: int) -> int {
    if idx > 0 {
        idx - 1
    } else {
        n - 1
    }
}

/// The place behind `idx` in a list of `n`; behind the last comes the first.
pub open spec fn place_behind(idx: int, n: int) -> int {
    if idx + 1 < n {
        idx + 1
    } else {
        0
    }
}

/// A selection moves by one place, and round at the ends.
pub proof fn law_selections_move_by_one(idx: int, n: int)
    requires
        0 <= idx < n,
    ensures
        previous_of(idx, n) == place_before(idx, n),
        next_of(idx, n) == place_behind(idx, n),
{
    if idx > 0 {
        lemma_mod_add_multiples_vanish(idx - 1, n);
        lemma_small_mod((idx - 1) as nat, n as nat);
    } else {
        lemma_small_mod((n - 1) as nat, n as nat);
    }
    if idx + 1 < n {
        lemma_small_mod((idx + 1) as nat, n as nat);
    } else {
        lemma_mod_self_0(n);
    }
}

proof fn lemma_moved_modulo(idx: int, n: int)
    requires
        0 < n,
        0 <= idx,
    ensures
        previous_of(idx, n) == place_before(idx % n, n),
        next_of(idx, n) == place_behind(idx % n, n),
{
    lemma_mod_bound(idx, n);
    law_selections_move_by_one(idx % n, n);
    lemma_add_mod_noop(idx, n - 1, n);
    lemma_add_mod_noop(idx % n, n - 1, n);
    lemma_add_mod_noop(idx, 1, n);
    lemma_add_mod_noop(idx % n, 1, n);
    lemma_mod_twice(idx, n);
}

/// Escape closes the extension dialog, or else the model dialog, or else answers the
/// request for a line of text with nothing, or else refuses the permission, or else
/// stops the turn that is under way. It does one of these and nothing more.
pub proof fn law_what_escape_does(state: AppModel, press: KeyPress, catalog: CatalogModel)
    requires
        state.wf(),
        press.key == Key::Esc,
        !press.released,
    ensures
        ({
            let next = state.key_step(press, catalog);
            let effect = state.key_effect(press, catalog);
            if state.dialogs.ext_visible {
                &&& next == AppModel {
                    dialogs: DialogModel { ext_visible: false, ..state.dialogs },
                    ..state
                }
                &&& effect is None
            } else if state.dialogs.model_visible {
                &&& next == AppModel {
                    dialogs: DialogModel { model_visible: false, ..state.dialogs },
                    ..state
                }
                &&& effect is None
            } else if state.requests.pending_elicit is Some {
                &&& next == AppModel {
                    requests: RequestModel {
                        pending_elicit: None,
                        elicit_reply: false,
                        ..state.requests
                    },
                    ..state
                }
                &&& effect == Some(ActionModel::ReplyElicitation(Seq::empty()))
            } else if state.requests.pending_perm is Some {
                &&& next == AppModel {
                    requests: RequestModel {
                        pending_perm: None,
                        perm_reply: false,
                        ..state.requests
                    },
                    ..state
                }
                &&& effect == Some(ActionModel::ReplyPermission(PermissionChoiceModel::Cancelled))
            } else if state.loading {
                &&& next == AppModel { status: "stopping…"@, ..state }
                &&& effect == Some(ActionModel::CancelTurn)
            } else {
                &&& next == state
                &&& effect is None
            }
        }),
{
}

/// Control-C answers the request for a line of text with nothing, or else refuses the
/// permission, or else stops the turn that is under way, or else leaves. The dialogs
/// of the client do not keep it from that.
pub proof fn law_what_control_c_does(state: AppModel, press: KeyPress, catalog: CatalogModel)
    requires
        state.wf(),
        press.key == Key::Char('c'),
        control_held(press),
        !press.released,
    ensures
        ({
            let next = state.key_step(press, catalog);
            let effect = state.key_effect(press, catalog);
            if state.requests.pending_elicit is Some {
                &&& next == AppModel {
                    requests: RequestModel {
                        pending_elicit: None,
                        elicit_reply: false,
                        ..state.requests
                    },
                    ..state
                }
                &&& effect == Some(ActionModel::ReplyElicitation(Seq::empty()))
            } else if state.requests.pending_perm is Some {
                &&& next == AppModel {
                    requests: RequestModel {
                        pending_perm: None,
                        perm_reply: false,
                        ..state.requests
                    },
                    ..state
                }
                &&& effect == Some(ActionModel::ReplyPermission(PermissionChoiceModel::Cancelled))
            } else if state.loading {
                &&& next == AppModel { status: "stopping…"@, ..state }
                &&& effect == Some(ActionModel::CancelTurn)
            } else {
                &&& next == AppModel { should_exit: true, ..state }
                &&& effect is None
            }
        }),
{
}

/// Control-Z puts the client into the background where that can be done, whatever is
/// open, and changes nothing.
pub proof fn law_what_control_z_does(state: AppModel, press: KeyPress, catalog: CatalogModel)
    requires
        press.key == Key::Char('z'),
        control_held(press),
        !press.released,
        state.links.job_control,
    ensures
        state.key_step(press, catalog) == state,
        state.key_effect(press, catalog) == Some(ActionModel::Suspend),
{
}

/// While the extension dialog is open, Enter and Space ask the control loop, where it
/// runs, to toggle the very entry that the dialog highlights. Nothing changes yet.
pub proof fn law_the_highlighted_extension_is_toggled(
    state: AppModel,
    press: KeyPress,
    catalog: CatalogModel,
)
    requires
        goes_to_the_screen(state, press),
        state.dialogs.ext_visible,
        press.key == Key::Enter || press.key == Key::Char(' '),
    ensures
        state.key_step(press, catalog) == state,
        ({
            let shown = state.dialog_views().extensions->0;
            let effect = state.key_effect(press, catalog);
            &&& shown == (state.dialogs.ext_entries, state.dialogs.ext_idx)
            &&& state.links.control_ready && state.dialogs.ext_idx
                < state.dialogs.ext_entries.len() ==> effect == Some(
                ActionModel::Control(
                    CtrlModel::ToggleExt(
                        state.dialogs.ext_entries[state.dialogs.ext_idx as int],
                    ),
                ),
            )
            &&& !state.links.control_ready || state.dialogs.ext_idx
                >= state.dialogs.ext_entries.len() ==> effect is None
        }),
{
}

/// While the extension dialog is open, the arrow keys move its highlight by one entry
/// and round at the ends, counted modulo their number, and all other keys do nothing.
pub proof fn law_arrows_move_the_highlighted_extension(
    state: AppModel,
    press: KeyPress,
    catalog: CatalogModel,
)
    requires
        goes_to_the_screen(state, press),
        state.dialogs.ext_visible,
        press.key != Key::Enter,
        press.key != Key::Char(' '),
        state.dialogs.ext_entries.len() <= usize::MAX,
    ensures
        state.key_effect(press, catalog) is None,
        ({
            let n = state.dialogs.ext_entries.len() as int;
            let at = state.dialogs.ext_idx as int;
            let next = state.key_step(press, catalog);
            &&& next == AppModel {
                dialogs: DialogModel { ext_idx: next.dialogs.ext_idx, ..state.dialogs },
                ..state
            }
            &&& press.key == Key::Up && n > 0 ==> next.dialogs.ext_idx == place_before(at % n, n)
            &&& press.key == Key::Down && n > 0 ==> next.dialogs.ext_idx == place_behind(at % n, n)
            &&& press.key != Key::Up && press.key != Key::Down ==> next == state
            &&& n == 0 ==> next == state
        }),
{
    let n = state.dialogs.ext_entries.len() as int;
    let at = state.dialogs.ext_idx as int;
    if n > 0 {
        lemma_moved_modulo(at, n);
    }
}

/// While the model dialog is open, Enter asks the control loop, where it runs, to
/// switch to the very model that the dialog highlights, and closes the dialog.
pub proof fn law_the_highlighted_model_is_picked(
    state: AppModel,
    press: KeyPress,
    catalog: CatalogModel,
)
    requires
        goes_to_the_screen(state, press),
        !state.dialogs.ext_visible,
        state.dialogs.model_visible,
        press.key == Key::Enter,
    ensures
        state.key_step(press, catalog) == (AppModel {
            dialogs: DialogModel { model_visible: false, ..state.dialogs },
            ..state
        }),
        ({
            let shown = state.dialog_views().models->0;
            let effect = state.key_effect(press, catalog);
            &&& shown.models == state.dialogs.model_entries
            &&& shown.selected_idx == state.dialogs.model_idx
            &&& state.links.control_ready && state.dialogs.model_idx
                < state.dialogs.model_entries.len() ==> effect == Some(
                ActionModel::Control(
                    CtrlModel::SwitchModel(
                        state.dialogs.model_entries[state.dialogs.model_idx as int].name,
                    ),
                ),
            )
            &&& !state.links.control_ready || state.dialogs.model_idx
                >= state.dialogs.model_entries.len() ==> effect is None
        }),
{
}

/// While the model dialog is open, the arrow keys move its highlight by one model and
/// round at the ends, counted modulo their number, and all other keys but Enter do
/// nothing.
pub proof fn law_arrows_move_the_highlighted_model(
    state: AppModel,
    press: KeyPress,
    catalog: CatalogModel,
)
    requires
        goes_to_the_screen(state, press),
        !state.dialogs.ext_visible,
        state.dialogs.model_visible,
        press.key != Key::Enter,
        state.dialogs.model_entries.len() <= usize::MAX,
    ensures
        state.key_effect(press, catalog) is None,
        ({
            let n = state.dialogs.model_entries.len() as int;
            let at = state.dialogs.model_idx as int;
            let next = state.key_step(press, catalog);
            &&& next == AppModel {
                dialogs: DialogModel { model_idx: next.dialogs.model_idx, ..state.dialogs },
                ..state
            }
            &&& press.key == Key::Up && n > 0 ==> next.dialogs.model_idx == place_before(at % n, n)
            &&& press.key == Key::Down && n > 0 ==> next.dialogs.model_idx == place_behind(
                at % n,
                n,
            )
            &&& press.key != Key::Up && press.key != Key::Down ==> next == state
            &&& n == 0 ==> next == state
        }),
{
    let n = state.dialogs.model_entries.len() as int;
    let at = state.dialogs.model_idx as int;
    if n > 0 {
        lemma_moved_modulo(at, n);
    }
}

/// Shift-Tab asks the control loop, where it runs, for the mode after the present one,
/// also while the agent asks something. The mode itself does not change yet.
pub proof fn law_shift_tab_asks_for_the_next_mode(
    state: AppModel,
    press: KeyPress,
    catalog: CatalogModel,
)
    requires
        goes_past_the_dialogs(state, press),
        press.key == Key::BackTab,
    ensures
        state.key_step(press, catalog) == state,
        !state.links.control_ready ==> state.key_effect(press, catalog) is None,
        state.links.control_ready ==> state.key_effect(press, catalog) == Some(
            ActionModel::Control(
                CtrlModel::SetMode(
                    match state.session.goose_mode {
                        GooseMode::Auto => GooseMode::Approve,
                        GooseMode::Approve => GooseMode::SmartApprove,
                        GooseMode::SmartApprove => GooseMode::Chat,
                        GooseMode::Chat => GooseMode::Auto,
                    },
                ),
            ),
        ),
{
}

/// Enter answers a permission request with the very option that the screen shows as
/// selected, and the request is gone.
pub proof fn law_enter_answers_with_the_shown_option(
    state: AppModel,
    press: KeyPress,
    catalog: CatalogModel,
)
    requires
        state.wf(),
        goes_past_the_dialogs(state, press),
        press.key == Key::Enter,
        state.requests.pending_perm is Some,
    ensures
        state.key_step(press, catalog).requests.pending_perm is None,
        ({
            let (req, selected) = state.dialog_views().permission->0;
            let next = state.key_step(press, catalog);
            let effect = state.key_effect(press, catalog);
            &&& req == state.requests.pending_perm->0
            &&& selected == state.requests.perm_idx
            &&& req.options.len() > 0 ==> {
                &&& effect == Some(
                    ActionModel::ReplyPermission(
                        PermissionChoiceModel::Selected(
                            req.options[state.requests.perm_idx as int].id,
                        ),
                    ),
                )
                &&& next == AppModel {
                    requests: RequestModel {
                        pending_perm: None,
                        perm_reply: false,
                        ..state.requests
                    },
                    ..state
                }
            }
            &&& req.options.len() == 0 ==> {
                &&& effect is None
                &&& next == AppModel {
                    requests: RequestModel { pending_perm: None, ..state.requests },
                    ..state
                }
            }
        }),
{
}

/// The arrow keys move the selected option of a permission request by one place and
/// round at the ends.
pub proof fn law_arrows_move_the_selected_option(
    state: AppModel,
    press: KeyPress,
    catalog: CatalogModel,
)
    requires
        state.wf(),
        goes_past_the_dialogs(state, press),
        press.key == Key::Up || press.key == Key::Down,
        state.requests.pending_perm is Some,
        0 < state.requests.pending_perm->0.options.len() <= usize::MAX,
    ensures
        state.key_effect(press, catalog) is None,
        ({
            let n = state.requests.pending_perm->0.options.len() as int;
            let at = state.requests.perm_idx as int;
            let next = state.key_step(press, catalog);
            &&& next == AppModel {
                requests: RequestModel { perm_idx: next.requests.perm_idx, ..state.requests },
                ..state
            }
            &&& next.requests.perm_idx == if press.key == Key::Up {
                place_before(at, n)
            } else {
                place_behind(at, n)
            }
        }),
{
    law_selections_move_by_one(
        state.requests.perm_idx as int,
        state.requests.pending_perm->0.options.len() as int,
    );
}

/// A letter answers a permission request with the first option that has it as its
/// key. A letter that no option has does nothing.
pub proof fn law_a_shortcut_answers_with_its_option(
    state: AppModel,
    press: KeyPress,
    catalog: CatalogModel,
    c: char,
    i: int,
)
    requires
        state.wf(),
        goes_past_the_dialogs(state, press),
        press.key == Key::Char(c),
        state.requests.pending_perm is Some,
        0 <= i <= state.requests.pending_perm->0.options.len(),
        forall|j: int|
            0 <= j < i ==> (#[trigger] state.requests.pending_perm->0.options[j]).key != c,
        i < state.requests.pending_perm->0.options.len()
            ==> state.requests.pending_perm->0.options[i].key == c,
    ensures
        ({
            let options = state.requests.pending_perm->0.options;
            let next = state.key_step(press, catalog);
            let effect = state.key_effect(press, catalog);
            if i < options.len() {
                &&& effect == Some(
                    ActionModel::ReplyPermission(PermissionChoiceModel::Selected(options[i].id)),
                )
                &&& next == AppModel {
                    requests: RequestModel {
                        pending_perm: None,
                        perm_reply: false,
                        ..state.requests
                    },
                    ..state
                }
            } else {
                effect is None && next == state
            }
        }),
{
    let options = state.requests.pending_perm->0.options;
    let picked = |o: PermissionOptionModel| o.key == c;
    lemma_first_position(options, picked, i);
}

/// While a permission is asked for, all other keys do nothing.
pub proof fn law_other_keys_leave_the_permission_alone(
    state: AppModel,
    press: KeyPress,
    catalog: CatalogModel,
)
    requires
        goes_past_the_dialogs(state, press),
        state.requests.pending_perm is Some,
        !(press.key is Char),
        press.key != Key::Up && press.key != Key::Down && press.key != Key::Enter && press.key
            != Key::BackTab,
    ensures
        state.key_step(press, catalog) == state,
        state.key_effect(press, catalog) is None,
{
}

/// Enter answers a request for a line of text with what was typed, without surrounding
/// white space. The request and what was typed are gone.
pub proof fn law_enter_answers_with_what_was_typed(
    state: AppModel,
    press: KeyPress,
    catalog: CatalogModel,
)
    requires
        state.wf(),
        goes_past_the_dialogs(state, press),
        press.key == Key::Enter,
        !shift_held(press),
        state.requests.pending_perm is None,
        state.requests.pending_elicit is Some,
    ensures
        state.key_step(press, catalog) == (AppModel {
            requests: RequestModel {
                pending_elicit: None,
                elicit_input: Seq::empty(),
                elicit_reply: false,
                ..state.requests
            },
            ..state
        }),
        state.key_effect(press, catalog) == Some(
            ActionModel::ReplyElicitation(trimmed(state.requests.elicit_input)),
        ),
{
}

/// Typing and deleting at the prompt start the selection of a completion over and end
/// the recall of earlier prompts, and do nothing more.
pub proof fn law_what_editing_does(state: AppModel, press: KeyPress, catalog: CatalogModel)
    requires
        goes_to_the_prompt(state, press),
        press.key is Char || press.key == Key::Backspace || press.key == Key::Delete,
    ensures
        state.key_step(press, catalog) == (AppModel {
            prompt: PromptModel { completion_idx: 0, history_cursor: None, ..state.prompt },
            ..state
        }),
        state.key_effect(press, catalog) is None,
{
}

/// While there are completions, the arrow keys move the highlighted one by one place
/// and round at the ends, counted modulo their number, and do nothing more.
pub proof fn law_arrows_move_the_highlighted_completion(
    state: AppModel,
    press: KeyPress,
    catalog: CatalogModel,
)
    requires
        goes_to_the_prompt(state, press),
        press.key == Key::Up || press.key == Key::Down,
        !shift_held(press),
        0 < completions(state.prompt.input, catalog).len() <= usize::MAX,
    ensures
        state.key_effect(press, catalog) is None,
        ({
            let n = completions(state.prompt.input, catalog).len() as int;
            let at = state.prompt.completion_idx as int;
            let next = state.key_step(press, catalog);
            &&& next == AppModel {
                prompt: PromptModel {
                    completion_idx: next.prompt.completion_idx,
                    ..state.prompt
                },
                ..state
            }
            &&& next.prompt.completion_idx == if press.key == Key::Up {
                place_before(at % n, n)
            } else {
                place_behind(at % n, n)
            }
        }),
{
    let n = completions(state.prompt.input, catalog).len() as int;
    let at = state.prompt.completion_idx as int;
    lemma_moved_modulo(at, n);
}

/// Without completions, the arrow up recalls the prompt before the one recalled now,
/// or the latest where none is, and stays at the oldest. It does so where the input is
/// blank or a prompt is recalled already.
pub proof fn law_up_recalls_the_prompt_before(
    state: AppModel,
    press: KeyPress,
    catalog: CatalogModel,
)
    requires
        state.wf(),
        goes_to_the_prompt(state, press),
        press.key == Key::Up,
        !shift_held(press),
        completions(state.prompt.input, catalog).len() == 0,
        0 < state.prompt.prompt_history.len() <= usize::MAX,
        trimmed(state.prompt.input).len() == 0 || state.prompt.history_cursor is Some,
    ensures
        state.key_effect(press, catalog) is None,
        ({
            let history = state.prompt.prompt_history;
            let next = state.key_step(press, catalog);
            let steps: int = match state.prompt.history_cursor {
                None => 0,
                Some(i) => if i as int == history.len() - 1 {
                    i as int
                } else {
                    i + 1
                },
            };
            next == AppModel {
                prompt: PromptModel {
                    input: history[history.len() - 1 - steps],
                    history_cursor: Some(steps as usize),
                    ..state.prompt
                },
                ..state
            }
        }),
{
}

/// Without completions, the arrow down recalls the prompt behind the one recalled now,
/// and behind the latest comes an empty input.
pub proof fn law_down_recalls_the_prompt_behind(
    state: AppModel,
    press: KeyPress,
    catalog: CatalogModel,
    i: usize,
)
    requires
        state.wf(),
        goes_to_the_prompt(state, press),
        press.key == Key::Down,
        !shift_held(press),
        completions(state.prompt.input, catalog).len() == 0,
        state.prompt.history_cursor == Some(i),
    ensures
        state.key_effect(press, catalog) is None,
        ({
            let history = state.prompt.prompt_history;
            let next = state.key_step(press, catalog);
            next == AppModel {
                prompt: PromptModel {
                    input: if i == 0 {
                        Seq::empty()
                    } else {
                        history[history.len() - i]
                    },
                    history_cursor: if i == 0 {
                        None
                    } else {
                        Some((i - 1) as usize)
                    },
                    ..state.prompt
                },
                ..state
            }
        }),
{
}

/// Where there is nothing to complete and nothing to recall, the arrow keys scroll the
/// answer by three lines, down to its end.
pub proof fn law_arrows_scroll_by_three_lines(
    state: AppModel,
    press: KeyPress,
    catalog: CatalogModel,
)
    requires
        state.wf(),
        goes_to_the_prompt(state, press),
        press.key == Key::Up || press.key == Key::Down,
        !shift_held(press),
        completions(state.prompt.input, catalog).len() == 0,
        state.prompt.history_cursor is None,
        press.key == Key::Up ==> {
            &&& trimmed(state.prompt.input).len() > 0 || state.prompt.prompt_history.len() == 0
            &&& state.transcript.scroll_offset <= i32::MAX - 3
        },
    ensures
        state.key_effect(press, catalog) is None,
        ({
            let next = state.key_step(press, catalog);
            let offset = state.transcript.scroll_offset as int;
            &&& next == AppModel {
                transcript: TranscriptModel {
                    scroll_offset: next.transcript.scroll_offset,
                    ..state.transcript
                },
                ..state
            }
            &&& next.transcript.scroll_offset == if press.key == Key::Up {
                offset + 3
            } else if offset >= 3 {
                offset - 3
            } else {
                0
            }
        }),
{
}

/// Shift and the arrow up show the turn before the one shown, and stay at the first.
/// With at most one turn they do nothing.
pub proof fn law_shift_up_shows_the_turn_before(
    state: AppModel,
    press: KeyPress,
    catalog: CatalogModel,
)
    requires
        goes_to_the_prompt(state, press),
        press.key == Key::Up,
        shift_held(press),
        state.transcript.turns.len() <= usize::MAX,
    ensures
        state.key_effect(press, catalog) is None,
        ({
            let next = state.key_step(press, catalog);
            let shown: int = match state.transcript.view_turn_idx {
                Some(i) => i as int,
                None => state.transcript.turns.len() - 1,
            };
            if state.transcript.turns.len() <= 1 {
                next == state
            } else {
                &&& next == AppModel {
                    transcript: TranscriptModel {
                        view_turn_idx: next.transcript.view_turn_idx,
                        expanded_tc: None,
                        scroll_offset: 0,
                        ..state.transcript
                    },
                    ..state
                }
                &&& next.transcript.view_turn_idx matches Some(now) && now == if shown == 0 {
                    0
                } else {
                    shown - 1
                }
            }
        }),
{
}

/// Shift and the arrow down show the turn behind the one shown, and from the last one
/// on the latest.
pub proof fn law_shift_down_shows_the_turn_behind(
    state: AppModel,
    press: KeyPress,
    catalog: CatalogModel,
)
    requires
        goes_to_the_prompt(state, press),
        press.key == Key::Down,
        shift_held(press),
        state.transcript.turns.len() <= usize::MAX,
    ensures
        state.key_effect(press, catalog) is None,
        ({
            let next = state.key_step(press, catalog);
            &&& next == AppModel {
                transcript: TranscriptModel {
                    view_turn_idx: next.transcript.view_turn_idx,
                    expanded_tc: None,
                    scroll_offset: 0,
                    ..state.transcript
                },
                ..state
            }
            &&& match state.transcript.view_turn_idx {
                Some(i) => if i + 1 < state.transcript.turns.len() {
                    next.transcript.view_turn_idx matches Some(now) && now == i + 1
                } else {
                    next.transcript.view_turn_idx is None
                },
                None => next.transcript.view_turn_idx is None,
            }
        }),
{
}

/// Tab puts the completion that is highlighted into the prompt. The highlight goes to
/// the place that the completion has among those with the same command.
pub proof fn law_tab_takes_the_highlighted_completion(
    state: AppModel,
    press: KeyPress,
    catalog: CatalogModel,
)
    requires
        goes_to_the_prompt(state, press),
        press.key == Key::Tab,
        0 < completions(state.prompt.input, catalog).len() <= usize::MAX,
    ensures
        state.key_effect(press, catalog) is None,
        ({
            let found = completions(state.prompt.input, catalog);
            let at = state.prompt.completion_idx as int % found.len() as int;
            let next = state.key_step(press, catalog);
            &&& next == AppModel {
                prompt: PromptModel {
                    input: found[at].0,
                    completion_idx: next.prompt.completion_idx,
                    ..state.prompt
                },
                ..state
            }
            &&& next.prompt.completion_idx == found.take(at).filter(has_command(found[at].0)).len()
        }),
{
    let found = completions(state.prompt.input, catalog);
    let at = state.prompt.completion_idx as int % found.len() as int;
    lemma_mod_bound(state.prompt.completion_idx as int, found.len() as int);
    found.take(at).lemma_filter_len(has_command(found[at].0));
}

/// Without completions, Tab shows the details of the latest tool call of the turn that
/// is on the screen, or hides them where they show. Without a tool call it does
/// nothing.
pub proof fn law_tab_toggles_the_latest_tool_call(
    state: AppModel,
    press: KeyPress,
    catalog: CatalogModel,
)
    requires
        goes_to_the_prompt(state, press),
        press.key == Key::Tab,
        completions(state.prompt.input, catalog).len() == 0,
    ensures
        state.key_effect(press, catalog) is None,
        ({
            let next = state.key_step(press, catalog);
            let turns = state.transcript.turns;
            let at: int = match state.transcript.view_turn_idx {
                Some(i) => i as int,
                None => turns.len() - 1,
            };
            if 0 <= at < turns.len() && turns[at].tool_call_order.len() > 0 {
                let order = turns[at].tool_call_order;
                let latest = order[order.len() - 1];
                &&& next == AppModel {
                    transcript: TranscriptModel {
                        expanded_tc: next.transcript.expanded_tc,
                        ..state.transcript
                    },
                    ..state
                }
                &&& state.transcript.expanded_tc == Some(latest)
                    ==> next.transcript.expanded_tc is None
                &&& state.transcript.expanded_tc != Some(latest) ==> next.transcript.expanded_tc
                    == Some(latest)
            } else {
                next == state
            }
        }),
{
}

/// The text that Enter takes from the prompt: the highlighted completion where there
/// are some, or else the input without surrounding white space.
pub open spec fn taken_text(state: AppModel, catalog: CatalogModel) -> Seq<char> {
    let word = trimmed(state.prompt.input);
    let found = completions(word, catalog);
    if found.len() > 0 {
        found[state.prompt.completion_idx as int % found.len() as int].0
    } else {
        word
    }
}

/// The prompt after a text was taken from it.
pub open spec fn emptied(prompt: PromptModel, text: Seq<char>) -> PromptModel {
    PromptModel {
        input: Seq::empty(),
        queue: prompt.queue,
        completion_idx: 0,
        prompt_history: prompt.prompt_history.push(text),
        history_cursor: None,
    }
}

/// The transcript when the latest turn is shown from its end, with nothing expanded.
pub open spec fn at_the_end(transcript: TranscriptModel) -> TranscriptModel {
    TranscriptModel {
        turns: transcript.turns,
        view_turn_idx: None,
        expanded_tc: None,
        scroll_offset: 0,
    }
}

/// A turn in which nothing but `text` was said.
pub open spec fn turn_for(text: Seq<char>) -> TurnModel {
    TurnModel {
        user_text: text,
        agent_raw: Seq::empty(),
        agent_text: Seq::empty(),
        tool_calls: Seq::empty(),
        tool_call_order: Seq::empty(),
    }
}

/// Enter takes the text of the prompt. Nothing is not taken; while the agent is busy
/// and ten prompts wait, the text stays where it is. Otherwise it goes into the
/// history and the input is empty again, and then the client leaves, opens one of its
/// dialogs, lets the prompt wait, or has it submitted in a turn of its own.
pub proof fn law_what_enter_does(state: AppModel, press: KeyPress, catalog: CatalogModel)
    requires
        goes_to_the_prompt(state, press),
        press.key == Key::Enter,
        !shift_held(press),
        !state.banner_visible,
        state.transcript.view_turn_idx is None,
    ensures
        ({
            let text = taken_text(state, catalog);
            let word = trimmed(text);
            let next = state.key_step(press, catalog);
            let effect = state.key_effect(press, catalog);
            let prompt = emptied(state.prompt, text);
            let transcript = at_the_end(state.transcript);
            if text.len() == 0 {
                next == state && effect is None
            } else if state.loading && state.prompt.queue.len() >= 10 {
                &&& next == AppModel { status: "queue full — please wait"@, ..state }
                &&& effect is None
            } else if word == "/exit"@ || word == "/quit"@ {
                &&& next == AppModel { should_exit: true, prompt, transcript, ..state }
                &&& effect is None
            } else if word == "/ext"@ {
                &&& next == AppModel {
                    prompt,
                    transcript,
                    dialogs: DialogModel { ext_visible: true, ext_idx: 0, ..state.dialogs },
                    ..state
                }
                &&& effect == Some(ActionModel::ListExtensions)
            } else if word == "/model"@ {
                &&& next == AppModel {
                    prompt,
                    transcript,
                    dialogs: DialogModel { model_visible: true, model_idx: 0, ..state.dialogs },
                    ..state
                }
                &&& effect is None
            } else if state.loading {
                &&& next == AppModel {
                    prompt: PromptModel { queue: state.prompt.queue.push(text), ..prompt },
                    transcript,
                    ..state
                }
                &&& effect is None
            } else if state.links.prompt_ready {
                &&& next == AppModel {
                    loading: true,
                    status: "thinking…"@,
                    banner_visible: false,
                    prompt,
                    transcript: TranscriptModel {
                        turns: state.transcript.turns.push(turn_for(text)),
                        ..transcript
                    },
                    ..state
                }
                &&& effect == Some(
                    ActionModel::SubmitPrompt { text, share_token: state.links.cancel_ready },
                )
            } else {
                &&& next == AppModel { prompt, transcript, ..state }
                &&& effect is None
            }
        }),
{
}

/// On the splash screen Enter takes the text of the prompt likewise, but never lets it
/// wait, and leaves the transcript as it is shown.
pub proof fn law_what_enter_does_on_the_splash(
    state: AppModel,
    press: KeyPress,
    catalog: CatalogModel,
)
    requires
        goes_to_the_prompt(state, press),
        press.key == Key::Enter,
        !shift_held(press),
        state.banner_visible,
    ensures
        ({
            let text = taken_text(state, catalog);
            let word = trimmed(text);
            let next = state.key_step(press, catalog);
            let effect = state.key_effect(press, catalog);
            let prompt = emptied(state.prompt, text);
            if text.len() == 0 {
                next == state && effect is None
            } else if word == "/exit"@ || word == "/quit"@ {
                next == AppModel { should_exit: true, prompt, ..state } && effect is None
            } else if word == "/ext"@ {
                &&& next == AppModel {
                    prompt,
                    dialogs: DialogModel { ext_visible: true, ext_idx: 0, ..state.dialogs },
                    ..state
                }
                &&& effect == Some(ActionModel::ListExtensions)
            } else if word == "/model"@ {
                &&& next == AppModel {
                    prompt,
                    dialogs: DialogModel { model_visible: true, model_idx: 0, ..state.dialogs },
                    ..state
                }
                &&& effect is None
            } else if state.links.prompt_ready {
                &&& next == AppModel {
                    loading: true,
                    status: "thinking…"@,
                    banner_visible: false,
                    prompt,
                    transcript: TranscriptModel {
                        turns: state.transcript.turns.push(turn_for(text)),
                        ..state.transcript
                    },
                    ..state
                }
                &&& effect == Some(
                    ActionModel::SubmitPrompt { text, share_token: state.links.cancel_ready },
                )
            } else {
                next == AppModel { prompt, ..state } && effect is None
            }
        }),
{
}

/// Enter with Shift, Enter while an earlier turn is looked at, and every key without a
/// meaning leave the prompt and all else as they are.
pub proof fn law_the_prompt_ignores_other_keys(
    state: AppModel,
    press: KeyPress,
    catalog: CatalogModel,
)
    requires
        goes_to_the_prompt(state, press),
        press.key == Key::Other || (press.key == Key::Enter && (shift_held(press) || (
        !state.banner_visible && state.transcript.view_turn_idx is Some))),
    ensures
        state.key_step(press, catalog) == state,
        state.key_effect(press, catalog) is None,
{
}

/// A key press can be handled unless it moves the selection among no options or
/// scrolls beyond the largest offset.
pub proof fn law_which_keys_can_be_handled(
    state: AppModel,
    press: KeyPress,
    catalog: CatalogModel,
)
    requires
        state.wf(),
    ensures
        !state.accepts(press, catalog) ==> {
            &&& !press.released
            &&& press.key == Key::Up || press.key == Key::Down
            &&& {
                ||| state.requests.pending_perm matches Some(req) && req.options.len() == 0
                ||| press.key == Key::Up && state.transcript.scroll_offset > i32::MAX - 3
            }
        },
{
}

} // verus!
