//! What holds of the screen and of the layout of a turn.

use vstd::arithmetic::div_mod::lemma_mod_bound;
use vstd::prelude::*;

use crate::completion::{completions, CatalogModel};
use crate::laws::{at_the_prompt, lemma_call_at};
use crate::selection::{last_position, lemma_last_position_is_last};
use crate::state::AppModel;
use crate::text::lines_of;
use crate::turn_view::{
    layout_of, visible_rows, window, window_end, window_start, ToolCallViewModel,
    TurnViewModel,
};
use crate::types::{AppPropsModel, ToolStatus, TurnModel};

verus! {

/// The lines in view lie within the text, and are as many as fit or as there are.
pub proof fn law_the_window_fits(lines: Seq<Seq<char>>, height: int, scroll_offset: int)
    ensures
        0 <= window_start(lines.len() as int, height, scroll_offset) <= window_end(
            lines.len() as int,
            scroll_offset,
        ) <= lines.len(),
        window(lines, height, scroll_offset).len() == if window_end(
            lines.len() as int,
            scroll_offset,
        ) < visible_rows(height) {
            window_end(lines.len() as int, scroll_offset)
        } else {
            visible_rows(height)
        },
{
}

/// Without scrolling the last lines are in view.
pub proof fn law_unscrolled_text_shows_its_end(lines: Seq<Seq<char>>, height: int)
    ensures
        lines.len() <= visible_rows(height) ==> window(lines, height, 0) == lines,
        lines.len() > visible_rows(height) ==> window(lines, height, 0) == lines.skip(
            lines.len() - visible_rows(height),
        ),
{
    if lines.len() <= visible_rows(height) {
        assert(window(lines, height, 0) =~= lines);
    } else {
        assert(window(lines, height, 0) =~= lines.skip(lines.len() - visible_rows(height)));
    }
}

/// Each line of scrolling moves the view one line towards the beginning, until the
/// first line is the last one in view.
pub proof fn law_scrolling_moves_by_one_line(n: int, height: int, scroll_offset: int)
    requires
        0 <= scroll_offset,
    ensures
        scroll_offset + 1 < n ==> window_end(n, scroll_offset + 1) == window_end(n, scroll_offset)
            - 1,
        scroll_offset + 1 < n && window_start(n, height, scroll_offset) > 0 ==> window_start(
            n,
            height,
            scroll_offset + 1,
        ) == window_start(n, height, scroll_offset) - 1,
        n > 0 && scroll_offset + 1 >= n ==> window_end(n, scroll_offset) == 1,
{
}

/// Where there is a row for the answer, at least one line of it stays in view.
pub proof fn law_something_stays_in_view(
    lines: Seq<Seq<char>>,
    height: int,
    scroll_offset: int,
)
    requires
        lines.len() > 0,
        visible_rows(height) > 0,
    ensures
        window(lines, height, scroll_offset).len() > 0,
{
}

/// The featured tool call is the last one that has not succeeded; where all have, it
/// is the last one. There is one exactly where there is a tool call.
pub proof fn law_the_last_unsettled_call_is_featured(turn: TurnModel)
    ensures
        turn.featured() is Some <==> turn.tool_call_order.len() > 0,
        turn.featured() matches Some(id) ==> exists|i: int|
            {
                &&& 0 <= i < turn.tool_call_order.len()
                &&& id == #[trigger] turn.tool_call_order[i]
                &&& forall|j: int|
                    i < j < turn.tool_call_order.len() ==> !turn.is_unsettled(
                        #[trigger] turn.tool_call_order[j],
                    )
                &&& turn.is_unsettled(id) || (i == turn.tool_call_order.len() - 1 && forall|j: int|
                    0 <= j < turn.tool_call_order.len() ==> !turn.is_unsettled(
                        #[trigger] turn.tool_call_order[j],
                    ))
            },
{
    let picked = |id: Seq<char>| turn.is_unsettled(id);
    let order = turn.tool_call_order;
    lemma_last_position_is_last(order, picked);
    let at = last_position(order, picked);
    assert forall|j: int| at < j < order.len() implies !turn.is_unsettled(#[trigger] order[j]) by {
        assert(!picked(order[j]));
    }
    if at >= 0 {
        assert(picked(order[at]));
        assert(turn.featured() == Some(order[at]));
    } else if order.len() > 0 {
        assert(turn.featured() == Some(order[order.len() - 1]));
    }
}

/// Every tool call is drawn once, in the order in which the calls were first seen,
/// with what is known of it. A call is drawn as a card exactly when it is expanded or
/// featured, and with its details exactly when it is expanded.
pub proof fn law_cards_are_expanded_or_featured(
    turn: TurnModel,
    expanded: Option<Seq<char>>,
    i: int,
)
    requires
        0 <= i < turn.tool_call_order.len(),
    ensures
        turn.call_views(expanded).len() == turn.tool_call_order.len(),
        ({
            let id = turn.tool_call_order[i];
            match turn.call_views(expanded)[i] {
                ToolCallViewModel::Card { id: shown, info, expanded: open } => {
                    &&& shown == id
                    &&& info == turn.call(id)
                    &&& open == (expanded == Some(id))
                    &&& expanded == Some(id) || turn.featured() == Some(id)
                },
                ToolCallViewModel::Compact { id: shown, info } => {
                    &&& shown == id
                    &&& info == turn.call(id)
                    &&& expanded != Some(id)
                    &&& turn.featured() != Some(id)
                },
            }
        }),
{
}

/// The status stands in for the answer only while the agent writes and has given
/// neither text nor tool calls. It is never shown beside them.
pub proof fn law_the_note_stands_in_for_the_answer(props: TurnViewModel)
    ensures
        layout_of(props) is Some <==> props.turn is Some,
        layout_of(props) matches Some(layout) ==> {
            &&& layout.note is Some ==> layout.calls.len() == 0 && layout.lines is None
                && props.active
            &&& layout.lines is Some <==> props.turn->0.agent_text.len() > 0
        },
{
}

/// How many lines lie below the view when the answer has `n` lines: as many as it is
/// scrolled by, but never so many that the first line is not in view. A negative
/// offset counts as the largest.
pub open spec fn scrolled_away(n: int, scroll_offset: int) -> int {
    if scroll_offset < 0 || scroll_offset > n - 1 {
        n - 1
    } else {
        scroll_offset
    }
}

/// An answer in a terminal of `h` rows shows `h - 4` lines, or as many as there are:
/// the last ones when it is not scrolled, and one line further up for each line that
/// it is scrolled by, until just its first line shows. An empty answer shows no
/// lines at all.
pub proof fn law_which_lines_are_shown(props: TurnViewModel, turn: TurnModel)
    requires
        props.turn == Some(turn),
    ensures
        turn.agent_text.len() == 0 ==> layout_of(props)->0.lines is None,
        turn.agent_text.len() > 0 ==> {
            let lines = lines_of(turn.agent_text);
            let n = lines.len() as int;
            let h = props.height as int;
            let shown = layout_of(props)->0.lines->0;
            let end = n - scrolled_away(n, props.scroll_offset as int);
            &&& n > 0
            &&& layout_of(props)->0.lines is Some
            &&& h <= 4 ==> shown.len() == 0
            &&& h > 4 && end <= h - 4 ==> shown == lines.take(end)
            &&& h > 4 && end > h - 4 ==> shown == lines.subrange(end - (h - 4), end)
        },
{
    if turn.agent_text.len() > 0 {
        let lines = lines_of(turn.agent_text);
        let end = lines.len() - scrolled_away(lines.len() as int, props.scroll_offset as int);
        if props.height > 4 && end <= props.height - 4 {
            assert(lines.subrange(0, end) =~= lines.take(end));
        }
    }
}

/// An answer that is not scrolled shows its last lines, `h - 4` of them in a terminal
/// of `h` rows; one of at most that many lines is shown in full.
pub proof fn law_an_unscrolled_answer_shows_its_last_lines(props: TurnViewModel, turn: TurnModel)
    requires
        props.turn == Some(turn),
        turn.agent_text.len() > 0,
        props.scroll_offset == 0,
        props.height >= 4,
    ensures
        ({
            let lines = lines_of(turn.agent_text);
            let shown = layout_of(props)->0.lines->0;
            let rows = props.height - 4;
            &&& lines.len() <= rows ==> shown == lines
            &&& lines.len() > rows ==> shown == lines.skip(lines.len() - rows)
        }),
{
    law_which_lines_are_shown(props, turn);
    let lines = lines_of(turn.agent_text);
    let rows = props.height - 4;
    assert(lines.take(lines.len() as int) =~= lines);
    if lines.len() > rows {
        assert(layout_of(props)->0.lines->0 =~= lines.skip(lines.len() - rows));
    }
}

/// In a turn with tool calls the featured one is the last whose status is not success,
/// or the last of all where every call has succeeded.
pub proof fn law_which_call_is_featured(turn: TurnModel, f: int)
    requires
        turn.wf(),
        0 <= f < turn.tool_calls.len(),
        turn.tool_calls[f].status != ToolStatus::Success || (f == turn.tool_calls.len() - 1
            && forall|j: int|
            0 <= j < f ==> (#[trigger] turn.tool_calls[j]).status == ToolStatus::Success),
        forall|j: int|
            f < j < turn.tool_calls.len() ==> (#[trigger] turn.tool_calls[j]).status
                == ToolStatus::Success,
    ensures
        turn.featured() == Some(turn.tool_calls[f].id),
{
    let order = turn.tool_call_order;
    let picked = |id: Seq<char>| turn.is_unsettled(id);
    assert forall|i: int| 0 <= i < order.len() implies turn.call(#[trigger] order[i]) == Some(
        turn.tool_calls[i],
    ) by {
        lemma_call_at(turn, i);
    }
    lemma_last_position_is_last(order, picked);
    let at = last_position(order, picked);
    assert forall|j: int| f < j < order.len() implies !picked(#[trigger] order[j]) by {
        assert(turn.tool_calls[j].status == ToolStatus::Success);
    }
    if at >= 0 {
        assert(picked(order[at]));
        assert(turn.tool_calls[at].status != ToolStatus::Success);
    }
    if turn.tool_calls[f].status != ToolStatus::Success {
        assert(picked(order[f]));
        assert(at == f);
    }
    assert(turn.tool_calls[f].id == order[f]);
}

/// Of the tool calls of a turn each is drawn in its place with all that is known of it.
/// The featured one and the one whose details are wanted are cards, the latter with
/// its details; the others take one line each.
pub proof fn law_how_the_calls_are_drawn(props: TurnViewModel, turn: TurnModel, f: int, i: int)
    requires
        props.turn == Some(turn),
        turn.wf(),
        0 <= f < turn.tool_calls.len(),
        turn.featured() == Some(turn.tool_calls[f].id),
        0 <= i < turn.tool_calls.len(),
    ensures
        ({
            let calls = layout_of(props)->0.calls;
            let call = turn.tool_calls[i];
            let open = props.expanded_tool_call == Some(call.id);
            &&& calls.len() == turn.tool_calls.len()
            &&& open || i == f ==> calls[i] == ToolCallViewModel::Card {
                id: call.id,
                info: Some(call),
                expanded: open,
            }
            &&& !open && i != f ==> calls[i] == ToolCallViewModel::Compact {
                id: call.id,
                info: Some(call),
            }
        }),
{
    lemma_call_at(turn, i);
    assert(turn.tool_calls[i].id == turn.tool_call_order[i]);
    assert(turn.tool_calls[f].id == turn.tool_call_order[f]);
}

/// The layout is as wide as it is asked to be. The status stands in it exactly while
/// the agent writes and has given neither text nor a tool call.
pub proof fn law_when_the_status_is_shown(props: TurnViewModel, turn: TurnModel)
    requires
        props.turn == Some(turn),
    ensures
        layout_of(props)->0.width == props.width,
        layout_of(props)->0.note == if props.active && turn.agent_text.len() == 0
            && turn.tool_call_order.len() == 0 {
            Some(props.status)
        } else {
            None
        },
{
}

/// The place of the turn that is on the screen: the one that is looked at, or the
/// latest.
pub open spec fn place_on_screen(state: AppModel) -> int {
    match state.transcript.view_turn_idx {
        Some(i) => i as int,
        None => state.transcript.turns.len() - 1,
    }
}

/// Whether a turn before the latest one is on the screen.
pub open spec fn looks_back(state: AppModel) -> bool {
    0 <= place_on_screen(state) < state.transcript.turns.len() - 1
        && state.transcript.view_turn_idx is Some
}

/// The screen has the size of the terminal, leaves when the client does, and shows the
/// splash, with an input once the client is idle and was not started for one prompt,
/// or else the rest.
pub proof fn law_what_the_screen_is(
    state: AppModel,
    props: AppPropsModel,
    term_width: u16,
    term_height: u16,
    catalog: CatalogModel,
)
    ensures
        ({
            let screen = state.screen(props, term_width, term_height, catalog);
            &&& screen.exit == state.should_exit
            &&& screen.width == term_width && screen.height == term_height
            &&& screen.main is Some <==> !state.banner_visible
            &&& screen.splash is Some <==> state.banner_visible
            &&& screen.splash matches Some(splash) ==> {
                &&& splash.status == state.status
                &&& splash.anim_frame == state.anim_frame
                &&& splash.show_input == (!state.loading && props.initial_prompt is None)
            }
        }),
{
}

/// The header tells how the client and the session stand. Where there is more than one
/// turn it tells which one is on the screen, counted from one, and how many there are.
pub proof fn law_what_the_header_tells(
    state: AppModel,
    props: AppPropsModel,
    term_width: u16,
    term_height: u16,
    catalog: CatalogModel,
)
    requires
        state.wf(),
        !state.banner_visible,
        term_width >= 4,
        state.transcript.turns.len() <= usize::MAX,
    ensures
        ({
            let main = state.screen(props, term_width, term_height, catalog).main->0;
            let header = main.header;
            &&& main.width == term_width - 4
            &&& header.status == state.status
            &&& header.loading == state.loading
            &&& header.spin_idx == state.spin_idx
            &&& header.working_dir == state.session.working_dir
            &&& header.token_total == state.session.token_total
            &&& header.goose_mode == state.session.goose_mode
            &&& header.turn_info is Some <==> state.transcript.turns.len() > 1
            &&& header.turn_info matches Some((number, total)) ==> {
                &&& number == place_on_screen(state) + 1
                &&& total == state.transcript.turns.len()
            }
        }),
{
}

/// The screen shows the prompt of the turn that is on it, marks that the answer is
/// scrolled, and hands the turn on to be laid out between the margins. The agent
/// writes into it while it is busy, unless an earlier turn is looked at.
pub proof fn law_which_turn_the_screen_shows(
    state: AppModel,
    props: AppPropsModel,
    term_width: u16,
    term_height: u16,
    catalog: CatalogModel,
)
    requires
        !state.banner_visible,
        term_width >= 4,
    ensures
        ({
            let main = state.screen(props, term_width, term_height, catalog).main->0;
            let turns = state.transcript.turns;
            let at = place_on_screen(state);
            &&& 0 <= at < turns.len() ==> main.turn.turn == Some(turns[at]) && main.prompt == Some(
                turns[at].user_text,
            )
            &&& !(0 <= at < turns.len()) ==> main.turn.turn is None && main.prompt is None
            &&& main.scrolled == (state.transcript.scroll_offset > 0)
            &&& main.turn.expanded_tool_call == state.transcript.expanded_tc
            &&& main.turn.active == (state.loading && !looks_back(state))
            &&& main.turn.status == state.status
            &&& main.turn.width == term_width - 4
            &&& main.turn.height == term_height
            &&& main.turn.scroll_offset == state.transcript.scroll_offset
        }),
{
}

/// Every dialog that is open is on the screen with what it offers and what is selected
/// in it, and no other is.
pub proof fn law_which_dialogs_the_screen_shows(
    state: AppModel,
    props: AppPropsModel,
    term_width: u16,
    term_height: u16,
    catalog: CatalogModel,
)
    requires
        !state.banner_visible,
    ensures
        ({
            let shown = state.screen(props, term_width, term_height, catalog).main->0.dialogs;
            &&& state.requests.pending_perm is None ==> shown.permission is None
            &&& state.requests.pending_perm matches Some(req) ==> shown.permission == Some(
                (req, state.requests.perm_idx),
            )
            &&& shown.elicitation == state.requests.pending_elicit
            &&& shown.models is Some <==> state.dialogs.model_visible
            &&& shown.models matches Some(models) ==> {
                &&& models.models == state.dialogs.model_entries
                &&& models.current_model == state.session.current_model
                &&& models.selected_idx == state.dialogs.model_idx
            }
            &&& shown.extensions is Some <==> state.dialogs.ext_visible
            &&& shown.extensions matches Some((entries, selected)) ==> {
                &&& entries == state.dialogs.ext_entries
                &&& selected == state.dialogs.ext_idx
            }
        }),
{
}

/// Below the transcript stand a rule as wide as the terminal with the number of the
/// turn while an earlier one is looked at, the prompts that wait, the completions of
/// the input with the highlighted one, and the input bar. The last two need the latest
/// turn on the screen, no dialog open, and a client that was not started for one
/// prompt.
pub proof fn law_what_stands_below_the_transcript(
    state: AppModel,
    props: AppPropsModel,
    term_width: u16,
    term_height: u16,
    catalog: CatalogModel,
)
    requires
        state.wf(),
        !state.banner_visible,
        state.transcript.turns.len() <= usize::MAX,
        completions(state.prompt.input, catalog).len() <= usize::MAX,
    ensures
        ({
            let footer = state.screen(props, term_width, term_height, catalog).main->0.footer;
            let found = completions(state.prompt.input, catalog);
            let writable = at_the_prompt(state) && !looks_back(state) && props.initial_prompt
                is None;
            &&& footer.history is Some <==> looks_back(state)
            &&& footer.history matches Some((rule, (number, total))) ==> {
                &&& rule.len() == term_width
                &&& forall|i: int| 0 <= i < rule.len() ==> #[trigger] rule[i] == '─'
                &&& number == place_on_screen(state) + 1
                &&& total == state.transcript.turns.len()
            }
            &&& footer.queued == state.prompt.queue
            &&& footer.input_bar is Some <==> writable
            &&& footer.input_bar matches Some(waiting) ==> waiting == (state.prompt.queue.len()
                > 0)
            &&& footer.completions is Some <==> writable && found.len() > 0
            &&& footer.completions matches Some((items, at)) ==> {
                &&& items == found
                &&& at == state.prompt.completion_idx as int % found.len() as int
            }
        }),
{
    let found = completions(state.prompt.input, catalog);
    if found.len() > 0 {
        lemma_mod_bound(state.prompt.completion_idx as int, found.len() as int);
    }
}

/// The screen is either the splash or the rest, never both.
pub proof fn law_splash_or_main(
    state: AppModel,
    props: AppPropsModel,
    term_width: u16,
    term_height: u16,
    catalog: CatalogModel,
)
    ensures
        ({
            let screen = state.screen(props, term_width, term_height, catalog);
            &&& screen.splash is Some <==> state.banner_visible
            &&& screen.main is Some <==> !state.banner_visible
            &&& screen.exit == state.should_exit
        }),
{
}

/// The input bar is hidden while a dialog is open, while an earlier turn is shown,
/// and in a client that was started for one prompt; otherwise it is there. The
/// completions show only together with it.
pub proof fn law_the_input_bar_gives_way(
    state: AppModel,
    props: AppPropsModel,
    term_width: u16,
    catalog: CatalogModel,
)
    ensures
        ({
            let footer = state.footer(props, term_width, catalog);
            &&& footer.input_bar is Some <==> at_the_prompt(state)
                && !state.transcript.is_history() && props.initial_prompt is None
            &&& footer.completions is Some ==> footer.input_bar is Some
            &&& footer.history is Some ==> footer.input_bar is None
        }),
{
}

/// The prompts that wait are all shown, in their order, and the input bar knows
/// whether there are any.
pub proof fn law_waiting_prompts_are_shown(
    state: AppModel,
    props: AppPropsModel,
    term_width: u16,
    catalog: CatalogModel,
)
    ensures
        ({
            let footer = state.footer(props, term_width, catalog);
            &&& footer.queued == state.prompt.queue
            &&& footer.input_bar matches Some(waiting) ==> waiting == (footer.queued.len() > 0)
        }),
{
}

/// What is highlighted among the completions is what Tab would put into the prompt.
pub proof fn law_the_highlight_is_what_tab_takes(
    state: AppModel,
    props: AppPropsModel,
    catalog: CatalogModel,
)
    requires
        state.prompt.completions(catalog).len() <= usize::MAX,
    ensures
        state.completion_popup(props, catalog) matches Some((items, at)) ==> {
            &&& 0 <= at < items.len()
            &&& items[at as int].0 == state.prompt.selected_completion(state.prompt.input, catalog)
        },
{
    let found = state.prompt.completions(catalog);
    if found.len() > 0 {
        lemma_mod_bound(
            state.prompt.completion_idx as int,
            found.len() as int,
        );
    }
}

/// While an earlier turn is shown the agent never seems to write into it.
pub proof fn law_earlier_turns_are_not_active(state: AppModel, width: u16, height: u16)
    requires
        state.transcript.is_history(),
    ensures
        !state.turn_props(width, height).active,
        layout_of(state.turn_props(width, height)) matches Some(layout) ==> layout.note is None,
{
}

} // verus!
