//! How a turn is laid out: its tool calls, and the lines of the answer that are in
//! view.

use vstd::prelude::*;

use crate::selection::last_position;
use crate::text::{lines_of, same, split_lines};
use crate::types::{ToolCallInfo, ToolCallModel, ToolStatus, Turn, TurnModel};

verus! {

/// How many rows of the screen are kept for tool calls and decoration.
pub const RESERVED_ROWS: usize = 4;

/// What there is to lay out.
#[derive(Debug, PartialEq, Eq)]
pub struct TurnViewProps {
    pub turn: Option<Turn>,
    pub expanded_tool_call: Option<String>,
    /// Whether the agent is writing into this turn.
    pub active: bool,
    pub status: String,
    pub width: u16,
    /// The height of the terminal in rows.
    pub height: u16,
    /// How many lines the answer is scrolled up from its end.
    pub scroll_offset: i32,
}

/// The model of [`TurnViewProps`].
#[verifier::ext_equal]
pub struct TurnViewModel {
    pub turn: Option<TurnModel>,
    pub expanded_tool_call: Option<Seq<char>>,
    pub active: bool,
    pub status: Seq<char>,
    pub width: u16,
    pub height: u16,
    pub scroll_offset: i32,
}

impl DeepView for TurnViewProps {
    type V = TurnViewModel;

    open spec fn deep_view(&self) -> TurnViewModel {
        TurnViewModel {
            turn: self.turn.deep_view(),
            expanded_tool_call: self.expanded_tool_call.deep_view(),
            active: self.active,
            status: self.status@,
            width: self.width,
            height: self.height,
            scroll_offset: self.scroll_offset,
        }
    }
}

impl Default for TurnViewProps {
    fn default() -> (res: Self)
        ensures
            res.turn is None,
            res.expanded_tool_call is None,
            !res.active,
            res.status@.len() == 0,
            res.width == 0,
            res.height == 0,
            res.scroll_offset == 0,
    {
        TurnViewProps {
            turn: None,
            expanded_tool_call: None,
            active: false,
            status: String::new(),
            width: 0,
            height: 0,
            scroll_offset: 0,
        }
    }
}

/// How a tool call is drawn: as a card, with or without its details, or as one
/// line.
#[derive(Debug, PartialEq, Eq)]
pub enum ToolCallView {
    Card { id: String, info: Option<ToolCallInfo>, expanded: bool },
    Compact { id: String, info: Option<ToolCallInfo> },
}

/// The model of a [`ToolCallView`].
#[verifier::ext_equal]
pub enum ToolCallViewModel {
    Card { id: Seq<char>, info: Option<ToolCallModel>, expanded: bool },
    Compact { id: Seq<char>, info: Option<ToolCallModel> },
}

impl DeepView for ToolCallView {
    type V = ToolCallViewModel;

    open spec fn deep_view(&self) -> ToolCallViewModel {
        match self {
            ToolCallView::Card { id, info, expanded } => ToolCallViewModel::Card {
                id: id@,
                info: info.deep_view(),
                expanded: *expanded,
            },
            ToolCallView::Compact { id, info } => ToolCallViewModel::Compact {
                id: id@,
                info: info.deep_view(),
            },
        }
    }
}

/// A turn as it is drawn: the tool calls, the lines of the answer where there is
/// one, and a note in place of both while the agent has given neither.
#[derive(Debug, PartialEq, Eq)]
pub struct TurnLayout {
    pub width: u16,
    pub calls: Vec<ToolCallView>,
    pub lines: Option<Vec<String>>,
    pub note: Option<String>,
}

/// The model of a [`TurnLayout`].
#[verifier::ext_equal]
pub struct TurnLayoutModel {
    pub width: u16,
    pub calls: Seq<ToolCallViewModel>,
    pub lines: Option<Seq<Seq<char>>>,
    pub note: Option<Seq<char>>,
}

impl DeepView for TurnLayout {
    type V = TurnLayoutModel;

    open spec fn deep_view(&self) -> TurnLayoutModel {
        TurnLayoutModel {
            width: self.width,
            calls: self.calls.deep_view(),
            lines: self.lines.deep_view(),
            note: self.note.deep_view(),
        }
    }
}

impl TurnModel {
    /// Whether the tool call with the given id is known and has not succeeded.
    pub open spec fn is_unsettled(self, id: Seq<char>) -> bool {
        self.call(id) matches Some(call) && call.status != ToolStatus::Success
    }

    /// The id of the tool call that is drawn as a card: the last one that has not
    /// succeeded, or else the last one.
    pub open spec fn featured(self) -> Option<Seq<char>> {
        let at = last_position(self.tool_call_order, |id: Seq<char>| self.is_unsettled(id));
        if at >= 0 {
            Some(self.tool_call_order[at])
        } else if self.tool_call_order.len() > 0 {
            Some(self.tool_call_order.last())
        } else {
            None
        }
    }

    /// How the tool call with the given id is drawn.
    pub open spec fn call_view(
        self,
        id: Seq<char>,
        expanded: Option<Seq<char>>,
    ) -> ToolCallViewModel {
        if expanded == Some(id) || self.featured() == Some(id) {
            ToolCallViewModel::Card { id, info: self.call(id), expanded: expanded == Some(id) }
        } else {
            ToolCallViewModel::Compact { id, info: self.call(id) }
        }
    }

    /// How the tool calls are drawn, oldest first.
    pub open spec fn call_views(self, expanded: Option<Seq<char>>) -> Seq<ToolCallViewModel> {
        Seq::new(
            self.tool_call_order.len(),
            |i: int| self.call_view(self.tool_call_order[i], expanded),
        )
    }
}

/// How many of `n` lines lie below the view. At least the first line stays in view,
/// and an offset below zero shows just that line.
pub open spec fn lines_below(n: int, scroll_offset: int) -> int {
    let most = if n > 0 {
        n - 1
    } else {
        0
    };
    if 0 <= scroll_offset <= most {
        scroll_offset
    } else {
        most
    }
}

/// How many rows there are for the answer.
pub open spec fn visible_rows(height: int) -> int {
    if height > RESERVED_ROWS {
        height - RESERVED_ROWS
    } else {
        0
    }
}

/// Where the view ends in `n` lines.
pub open spec fn window_end(n: int, scroll_offset: int) -> int {
    n - lines_below(n, scroll_offset)
}

/// Where the view starts in `n` lines.
pub open spec fn window_start(n: int, height: int, scroll_offset: int) -> int {
    let end = window_end(n, scroll_offset);
    if end > visible_rows(height) {
        end - visible_rows(height)
    } else {
        0
    }
}

/// The lines that are in view.
pub open spec fn window(lines: Seq<Seq<char>>, height: int, scroll_offset: int) -> Seq<Seq<char>> {
    lines.subrange(
        window_start(lines.len() as int, height, scroll_offset),
        window_end(lines.len() as int, scroll_offset),
    )
}

/// The layout of a turn. Without a turn there is none.
pub open spec fn layout_of(props: TurnViewModel) -> Option<TurnLayoutModel> {
    match props.turn {
        Some(turn) => Some(
            TurnLayoutModel {
                width: props.width,
                calls: turn.call_views(props.expanded_tool_call),
                lines: if turn.agent_text.len() > 0 {
                    Some(
                        window(
                            lines_of(turn.agent_text),
                            props.height as int,
                            props.scroll_offset as int,
                        ),
                    )
                } else {
                    None
                },
                note: if props.active && turn.agent_text.len() == 0 && turn.tool_call_order.len()
                    == 0 {
                    Some(props.status)
                } else {
                    None
                },
            },
        ),
        None => None,
    }
}

/// Whether an optional text is `id`.
fn is_id(text: &Option<String>, id: &str) -> (res: bool)
    ensures
        res == (text.deep_view() == Some(id@)),
{
    match text {
        Some(t) => same(t.as_str(), id),
        None => false,
    }
}

impl Turn {
    /// The tool call with the given id.
    pub fn call(&self, id: &str) -> (res: Option<ToolCallInfo>)
        ensures
            res.deep_view() == self.deep_view().call(id@),
    {
        let at: usize = self.call_position(id);
        if at < self.tool_calls.len() {
            Some(self.tool_calls[at].clone())
        } else {
            None
        }
    }

    fn is_unsettled(&self, id: &str) -> (res: bool)
        ensures
            res == self.deep_view().is_unsettled(id@),
    {
        match self.call(id) {
            Some(call) => call.status != ToolStatus::Success,
            None => false,
        }
    }

    /// The id of the tool call that is drawn as a card.
    pub fn featured(&self) -> (res: Option<String>)
        ensures
            res.deep_view() == self.deep_view().featured(),
    {
        let ghost order = self.tool_call_order.deep_view();
        let ghost picked = |id: Seq<char>| self.deep_view().is_unsettled(id);
        let n: usize = self.tool_call_order.len();
        let mut i: usize = n;
        assert(order.take(i as int) =~= order);
        while i > 0
            invariant
                i <= n == self.tool_call_order.len(),
                order == self.tool_call_order.deep_view(),
                picked == (|id: Seq<char>| self.deep_view().is_unsettled(id)),
                last_position(order, picked) == last_position(order.take(i as int), picked),
            decreases i,
        {
            let id: &String = &self.tool_call_order[i - 1];
            assert(order.take(i as int).last() == id@);
            assert(order.take(i as int).drop_last() =~= order.take(i - 1));
            if self.is_unsettled(id.as_str()) {
                return Some(id.clone());
            }
            i -= 1;
        }
        if n > 0 {
            Some(self.tool_call_order[n - 1].clone())
        } else {
            None
        }
    }

    fn call_views(&self, expanded: &Option<String>) -> (res: Vec<ToolCallView>)
        ensures
            res.deep_view() == self.deep_view().call_views(expanded.deep_view()),
    {
        let featured: Option<String> = self.featured();
        let ghost views = self.deep_view().call_views(expanded.deep_view());
        let mut res: Vec<ToolCallView> = Vec::new();
        let mut i: usize = 0;
        while i < self.tool_call_order.len()
            invariant
                i <= self.tool_call_order.len(),
                featured.deep_view() == self.deep_view().featured(),
                views == self.deep_view().call_views(expanded.deep_view()),
                res.deep_view() =~= views.take(i as int),
            decreases self.tool_call_order.len() - i,
        {
            let id: &String = &self.tool_call_order[i];
            let ghost before = res.deep_view();
            let info: Option<ToolCallInfo> = self.call(id.as_str());
            let open: bool = is_id(expanded, id.as_str());
            let view: ToolCallView = if open || is_id(&featured, id.as_str()) {
                ToolCallView::Card { id: id.clone(), info, expanded: open }
            } else {
                ToolCallView::Compact { id: id.clone(), info }
            };
            assert(view.deep_view() == views[i as int]);
            res.push(view);
            assert(res.deep_view() =~= before.push(views[i as int]));
            assert(views.take(i + 1) =~= views.take(i as int).push(views[i as int]));
            i += 1;
        }
        assert(views.take(i as int) =~= views);
        res
    }
}

/// How many of `n` lines lie below the view.
fn count_below(n: usize, scroll_offset: i32) -> (res: usize)
    ensures
        res == lines_below(n as int, scroll_offset as int),
        n > 0 ==> res < n,
        n == 0 ==> res == 0,
{
    let most: usize = if n > 0 {
        n - 1
    } else {
        0
    };
    if scroll_offset < 0 || scroll_offset as usize > most {
        most
    } else {
        scroll_offset as usize
    }
}

/// The lines that are in view.
fn visible_lines(lines: &Vec<String>, height: u16, scroll_offset: i32) -> (res: Vec<String>)
    ensures
        res.deep_view() == window(lines.deep_view(), height as int, scroll_offset as int),
{
    let n: usize = lines.len();
    let rows: usize = if height as usize > RESERVED_ROWS {
        height as usize - RESERVED_ROWS
    } else {
        0
    };
    let end: usize = n - count_below(n, scroll_offset);
    let start: usize = if end > rows {
        end - rows
    } else {
        0
    };
    let ghost shown = lines.deep_view().subrange(start as int, end as int);
    let mut res: Vec<String> = Vec::new();
    let mut i: usize = start;
    while i < end
        invariant
            start <= i <= end <= lines.len(),
            shown == lines.deep_view().subrange(start as int, end as int),
            res.deep_view() =~= shown.take(i - start),
        decreases end - i,
    {
        let ghost before = res.deep_view();
        res.push(lines[i].clone());
        assert(res.deep_view() =~= before.push(shown[i - start]));
        assert(shown.take(i - start + 1) =~= shown.take(i - start).push(shown[i - start]));
        i += 1;
    }
    assert(shown.take(end - start) =~= shown);
    res
}

/// Lays out a turn: every tool call as a card or a line, the lines of the answer
/// that are in view, and the status while the agent has given neither. Without a
/// turn there is nothing to lay out.
#[allow(non_snake_case)]
pub fn TurnView(props: &TurnViewProps) -> (res: Option<TurnLayout>)
    ensures
        res.deep_view() == layout_of(props.deep_view()),
{
    match &props.turn {
        Some(turn) => {
            let calls: Vec<ToolCallView> = turn.call_views(&props.expanded_tool_call);
            let empty: bool = turn.agent_text.as_str().is_empty();
            let lines: Option<Vec<String>> = if empty {
                None
            } else {
                let all: Vec<String> = split_lines(turn.agent_text.as_str());
                Some(visible_lines(&all, props.height, props.scroll_offset))
            };
            let note: Option<String> = if props.active && empty && turn.tool_call_order.len() == 0 {
                Some(props.status.clone())
            } else {
                None
            };
            Some(TurnLayout { width: props.width, calls, lines, note })
        },
        None => None,
    }
}

} // verus!
