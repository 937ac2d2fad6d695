//! The transcript: the turns of the conversation and which part of them is shown.

use vstd::prelude::*;

use crate::selection::{first_position, lemma_first_position, lemma_first_position_is_first};
use crate::text::same;
use crate::types::{ToolCallInfo, ToolCallModel, Turn, TurnModel};

verus! {

/// How many lines one press of an arrow key scrolls.
pub const SCROLL_STEP: i32 = 3;

/// A command of the transcript.
#[derive(Clone, Copy, Debug, PartialEq, Eq, Structural)]
pub enum TranscriptCommand {
    ScrollUp,
    ScrollDown,
    /// Show an earlier turn.
    OlderTurn,
    /// Show a later turn.
    NewerTurn,
    /// Show or hide the details of the latest tool call.
    ToggleToolCall,
}

/// The transcript.
///
/// `view_turn_idx` is `None` while the latest turn is shown. `expanded_tc` is the id
/// of the tool call whose details are shown. `scroll_offset` counts lines from the
/// end of the answer.
#[derive(Debug)]
pub struct TranscriptState {
    pub turns: Vec<Turn>,
    pub view_turn_idx: Option<usize>,
    pub expanded_tc: Option<String>,
    pub scroll_offset: i32,
}

/// The model of [`TranscriptState`].
#[verifier::ext_equal]
pub struct TranscriptModel {
    pub turns: Seq<TurnModel>,
    pub view_turn_idx: Option<usize>,
    pub expanded_tc: Option<Seq<char>>,
    pub scroll_offset: i32,
}

impl View for TranscriptState {
    type V = TranscriptModel;

    open spec fn view(&self) -> TranscriptModel {
        TranscriptModel {
            turns: self.turns.deep_view(),
            view_turn_idx: self.view_turn_idx,
            expanded_tc: self.expanded_tc.deep_view(),
            scroll_offset: self.scroll_offset,
        }
    }
}

/// A tool call after the agent reported on it again. An empty title and a missing
/// preview leave the old one.
pub open spec fn merged(call: ToolCallModel, info: ToolCallModel) -> ToolCallModel {
    ToolCallModel {
        id: call.id,
        title: if info.title.len() > 0 {
            info.title
        } else {
            call.title
        },
        status: info.status,
        input_preview: if info.input_preview is Some {
            info.input_preview
        } else {
            call.input_preview
        },
        output_preview: if info.output_preview is Some {
            info.output_preview
        } else {
            call.output_preview
        },
    }
}

impl TurnModel {
    /// The position of the tool call with the given id, or the number of calls.
    pub open spec fn call_position(self, id: Seq<char>) -> int {
        first_position(self.tool_calls, |c: ToolCallModel| c.id == id)
    }

    /// The tool call with the given id.
    pub open spec fn call(self, id: Seq<char>) -> Option<ToolCallModel> {
        let at = self.call_position(id);
        if at < self.tool_calls.len() {
            Some(self.tool_calls[at])
        } else {
            None
        }
    }

    /// The turn with more of the answer, and the answer as it is shown now.
    pub open spec fn text_added(self, chunk: Seq<char>, rendered: Seq<char>) -> TurnModel {
        TurnModel { agent_raw: self.agent_raw + chunk, agent_text: rendered, ..self }
    }

    /// The turn after a report on a tool call. A call that is not known yet comes
    /// last.
    pub open spec fn call_updated(self, info: ToolCallModel) -> TurnModel {
        let at = self.call_position(info.id);
        if at < self.tool_calls.len() {
            TurnModel {
                tool_calls: self.tool_calls.update(at, merged(self.tool_calls[at], info)),
                ..self
            }
        } else {
            TurnModel {
                tool_calls: self.tool_calls.push(info),
                tool_call_order: if self.tool_call_order.contains(info.id) {
                    self.tool_call_order
                } else {
                    self.tool_call_order.push(info.id)
                },
                ..self
            }
        }
    }

    /// A report on a tool call keeps the turn well formed.
    pub proof fn lemma_call_updated_wf(self, info: ToolCallModel)
        requires
            self.wf(),
        ensures
            self.call_updated(info).wf(),
    {
        lemma_first_position_is_first(self.tool_calls, |c: ToolCallModel| c.id == info.id);
        let at = self.call_position(info.id);
        if at >= self.tool_calls.len() && self.tool_call_order.contains(info.id) {
            let i = self.tool_call_order.index_of(info.id);
            assert(self.tool_calls[i].id == info.id);
            assert(false);
        }
    }
}

impl TranscriptModel {
    /// The scroll offset is not negative, and the turns are well formed.
    pub open spec fn wf(self) -> bool {
        &&& self.scroll_offset >= 0
        &&& self.view_turn_idx matches Some(i) ==> i < usize::MAX
        &&& forall|i: int| 0 <= i < self.turns.len() ==> (#[trigger] self.turns[i]).wf()
    }

    /// An empty transcript.
    pub open spec fn initial() -> TranscriptModel {
        TranscriptModel {
            turns: Seq::empty(),
            view_turn_idx: None,
            expanded_tc: None,
            scroll_offset: 0,
        }
    }

    /// Another turn is shown, from its end and with nothing expanded.
    pub open spec fn turn_shown(self, idx: Option<usize>) -> TranscriptModel {
        TranscriptModel { view_turn_idx: idx, expanded_tc: None, scroll_offset: 0, ..self }
    }

    /// The turn before the one shown; the first turn stays.
    pub open spec fn older_turn(self) -> TranscriptModel {
        let shown = match self.view_turn_idx {
            Some(i) => i as int,
            None => self.turns.len() - 1,
        };
        self.turn_shown(Some(if shown > 0 { shown - 1 } else { 0 } as usize))
    }

    /// The turn after the one shown, and from the last one on the latest.
    pub open spec fn newer_turn(self) -> TranscriptModel {
        match self.view_turn_idx {
            Some(i) if i + 1 < self.turns.len() => self.turn_shown(Some((i + 1) as usize)),
            _ => self.turn_shown(None),
        }
    }

    /// The position of the turn that is shown.
    pub open spec fn shown_turn(self) -> int {
        match self.view_turn_idx {
            Some(i) => i as int,
            None => if self.turns.len() > 0 {
                self.turns.len() - 1
            } else {
                0
            },
        }
    }

    /// Whether a turn before the latest one is shown.
    pub open spec fn is_history(self) -> bool {
        self.view_turn_idx matches Some(i) && i + 1 < self.turns.len()
    }

    /// The latest tool call of the turn that is shown is expanded, or collapsed
    /// where it was expanded.
    pub open spec fn tool_call_toggled(self) -> TranscriptModel {
        let at = self.shown_turn();
        if at < self.turns.len() && self.turns[at].tool_call_order.len() > 0 {
            let latest = self.turns[at].tool_call_order.last();
            TranscriptModel {
                expanded_tc: if self.expanded_tc == Some(latest) {
                    None
                } else {
                    Some(latest)
                },
                ..self
            }
        } else {
            self
        }
    }

    /// The transcript after a command.
    pub open spec fn performed(self, command: TranscriptCommand) -> TranscriptModel {
        match command {
            TranscriptCommand::ScrollUp => TranscriptModel {
                scroll_offset: (self.scroll_offset + SCROLL_STEP) as i32,
                ..self
            },
            TranscriptCommand::ScrollDown => TranscriptModel {
                scroll_offset: if self.scroll_offset > SCROLL_STEP {
                    self.scroll_offset - SCROLL_STEP
                } else {
                    0
                } as i32,
                ..self
            },
            TranscriptCommand::OlderTurn => self.older_turn(),
            TranscriptCommand::NewerTurn => self.newer_turn(),
            TranscriptCommand::ToggleToolCall => self.tool_call_toggled(),
        }
    }

    /// Whether a command can be performed: scrolling up needs room in the offset,
    /// going back needs a turn.
    pub open spec fn accepts(self, command: TranscriptCommand) -> bool {
        match command {
            TranscriptCommand::ScrollUp => self.scroll_offset <= i32::MAX - SCROLL_STEP,
            TranscriptCommand::OlderTurn => self.turns.len() > 0,
            _ => true,
        }
    }

    /// A prompt opens a turn.
    pub open spec fn asked(self, text: Seq<char>) -> TranscriptModel {
        TranscriptModel { turns: self.turns.push(TurnModel::asked(text)), ..self }
    }

    /// The raw answer of the latest turn with `chunk` behind it.
    pub open spec fn raw_with(self, chunk: Seq<char>) -> Option<Seq<char>> {
        if self.turns.len() > 0 {
            Some(self.turns.last().agent_raw + chunk)
        } else {
            None
        }
    }

    /// The latest turn changed to `turn`.
    pub open spec fn latest_changed(self, turn: TurnModel) -> TranscriptModel {
        TranscriptModel { turns: self.turns.drop_last().push(turn), ..self }
    }

    /// More of the answer came. Without a turn it is lost.
    pub open spec fn text_added(self, chunk: Seq<char>, rendered: Seq<char>) -> TranscriptModel {
        if self.turns.len() > 0 {
            self.latest_changed(self.turns.last().text_added(chunk, rendered))
        } else {
            self
        }
    }

    /// The agent reported on a tool call. Without a turn the report is lost.
    pub open spec fn call_updated(self, info: ToolCallModel) -> TranscriptModel {
        if self.turns.len() > 0 {
            self.latest_changed(self.turns.last().call_updated(info))
        } else {
            self
        }
    }

    /// The conversation starts over.
    pub open spec fn cleared(self) -> TranscriptModel {
        TranscriptModel { turns: Seq::empty(), ..self }
    }
}

impl Turn {
    /// The position of the tool call with the given id, or the number of calls.
    pub fn call_position(&self, id: &str) -> (res: usize)
        ensures
            res == self.deep_view().call_position(id@),
            res <= self.tool_calls.len(),
    {
        let ghost picked = |c: ToolCallModel| c.id == id@;
        let mut i: usize = 0;
        while i < self.tool_calls.len() && !same(self.tool_calls[i].id.as_str(), id)
            invariant
                i <= self.tool_calls.len(),
                picked == (|c: ToolCallModel| c.id == id@),
                forall|j: int| 0 <= j < i ==> !picked(#[trigger] self.tool_calls.deep_view()[j]),
            decreases self.tool_calls.len() - i,
        {
            assert(!picked(self.tool_calls.deep_view()[i as int]));
            i += 1;
        }
        proof {
            lemma_first_position(self.tool_calls.deep_view(), picked, i as int);
        }
        i
    }

    /// Adds to the answer.
    pub fn add_text(&mut self, chunk: &str, rendered: String)
        ensures
            final(self).deep_view() == old(self).deep_view().text_added(chunk@, rendered@),
    {
        self.agent_raw.append(chunk);
        self.agent_text = rendered;
    }

    fn is_ordered(&self, id: &str) -> (res: bool)
        ensures
            res == self.deep_view().tool_call_order.contains(id@),
    {
        let mut i: usize = 0;
        while i < self.tool_call_order.len()
            invariant
                i <= self.tool_call_order.len(),
                forall|j: int| 0 <= j < i ==> #[trigger] self.tool_call_order.deep_view()[j] != id@,
            decreases self.tool_call_order.len() - i,
        {
            if same(self.tool_call_order[i].as_str(), id) {
                assert(self.deep_view().tool_call_order[i as int] == id@);
                return true;
            }
            i += 1;
        }
        false
    }

    /// Takes in a report on a tool call.
    pub fn update_call(&mut self, info: ToolCallInfo)
        ensures
            final(self).deep_view() == old(self).deep_view().call_updated(info.deep_view()),
    {
        let at: usize = self.call_position(info.id.as_str());
        let ghost calls = self.tool_calls.deep_view();
        if at < self.tool_calls.len() {
            let ghost report = info.deep_view();
            let mut call: ToolCallInfo = self.tool_calls[at].clone();
            if !info.title.as_str().is_empty() {
                call.title = info.title;
            }
            call.status = info.status;
            if info.input_preview.is_some() {
                call.input_preview = info.input_preview;
            }
            if info.output_preview.is_some() {
                call.output_preview = info.output_preview;
            }
            assert(call.deep_view() == merged(calls[at as int], report));
            self.tool_calls.set(at, call);
            assert(self.tool_calls.deep_view() =~= calls.update(
                at as int,
                merged(calls[at as int], report),
            ));
        } else {
            let ghost order = self.tool_call_order.deep_view();
            if !self.is_ordered(info.id.as_str()) {
                self.tool_call_order.push(info.id.clone());
                assert(self.tool_call_order.deep_view() =~= order.push(info.id@));
            }
            self.tool_calls.push(info);
            assert(self.tool_calls.deep_view() =~= calls.push(info.deep_view()));
        }
    }
}

impl TranscriptState {
    /// An empty transcript.
    pub fn new() -> (res: TranscriptState)
        ensures
            res@ == TranscriptModel::initial(),
            res@.wf(),
    {
        let res = TranscriptState {
            turns: Vec::new(),
            view_turn_idx: None,
            expanded_tc: None,
            scroll_offset: 0,
        };
        assert(res@ =~= TranscriptModel::initial());
        res
    }

    /// Shows another turn, from its end and with nothing expanded.
    pub fn show_turn(&mut self, idx: Option<usize>)
        requires
            old(self)@.wf(),
            idx matches Some(i) ==> i < usize::MAX,
        ensures
            final(self)@ == old(self)@.turn_shown(idx),
            final(self)@.wf(),
    {
        self.view_turn_idx = idx;
        self.expanded_tc = None;
        self.scroll_offset = 0;
    }

    fn older_turn(&mut self)
        requires
            old(self)@.wf(),
            old(self)@.turns.len() > 0,
        ensures
            final(self)@ == old(self)@.older_turn(),
            final(self)@.wf(),
    {
        let shown: usize = match self.view_turn_idx {
            Some(i) => i,
            None => self.turns.len() - 1,
        };
        self.show_turn(Some(if shown > 0 { shown - 1 } else { 0 }));
    }

    fn newer_turn(&mut self)
        requires
            old(self)@.wf(),
        ensures
            final(self)@ == old(self)@.newer_turn(),
            final(self)@.wf(),
    {
        let total: usize = self.turns.len();
        let next: Option<usize> = match self.view_turn_idx {
            Some(i) if i < total && i + 1 < total => Some(i + 1),
            _ => None,
        };
        self.show_turn(next);
    }

    /// The position of the turn that is shown.
    pub fn shown_turn(&self) -> (res: usize)
        ensures
            res == self@.shown_turn(),
    {
        match self.view_turn_idx {
            Some(i) => i,
            None => if self.turns.len() > 0 {
                self.turns.len() - 1
            } else {
                0
            },
        }
    }

    /// Whether a turn before the latest one is shown.
    pub fn is_history(&self) -> (res: bool)
        ensures
            res == self@.is_history(),
    {
        match self.view_turn_idx {
            Some(i) => i < self.turns.len() && i + 1 < self.turns.len(),
            None => false,
        }
    }

    fn toggle_tool_call(&mut self)
        requires
            old(self)@.wf(),
        ensures
            final(self)@ == old(self)@.tool_call_toggled(),
            final(self)@.wf(),
    {
        let at: usize = self.shown_turn();
        if at < self.turns.len() && self.turns[at].tool_call_order.len() > 0 {
            let order: &Vec<String> = &self.turns[at].tool_call_order;
            let latest: String = order[order.len() - 1].clone();
            let open: bool = match &self.expanded_tc {
                Some(id) => same(id.as_str(), latest.as_str()),
                None => false,
            };
            self.expanded_tc = if open {
                None
            } else {
                Some(latest)
            };
        }
    }

    /// Whether a command can be performed.
    pub fn can_perform(&self, command: TranscriptCommand) -> (res: bool)
        ensures
            res == self@.accepts(command),
    {
        match command {
            TranscriptCommand::ScrollUp => self.scroll_offset <= i32::MAX - SCROLL_STEP,
            TranscriptCommand::OlderTurn => self.turns.len() > 0,
            _ => true,
        }
    }

    /// Performs a command.
    pub fn perform(&mut self, command: TranscriptCommand)
        requires
            old(self)@.wf(),
            old(self)@.accepts(command),
        ensures
            final(self)@ == old(self)@.performed(command),
            final(self)@.wf(),
    {
        match command {
            TranscriptCommand::ScrollUp => {
                self.scroll_offset = self.scroll_offset + SCROLL_STEP;
            },
            TranscriptCommand::ScrollDown => {
                self.scroll_offset = if self.scroll_offset > SCROLL_STEP {
                    self.scroll_offset - SCROLL_STEP
                } else {
                    0
                };
            },
            TranscriptCommand::OlderTurn => self.older_turn(),
            TranscriptCommand::NewerTurn => self.newer_turn(),
            TranscriptCommand::ToggleToolCall => self.toggle_tool_call(),
        }
    }

    /// Opens a turn for a prompt.
    pub fn ask(&mut self, text: String)
        requires
            old(self)@.wf(),
        ensures
            final(self)@ == old(self)@.asked(text@),
            final(self)@.wf(),
    {
        let ghost before = self@.turns;
        self.turns.push(Turn::asked(text));
        assert(self@.turns =~= before.push(TurnModel::asked(text@)));
    }

    /// The raw answer of the latest turn with `chunk` behind it.
    pub fn raw_with(&self, chunk: &str) -> (res: Option<String>)
        ensures
            res.deep_view() == self@.raw_with(chunk@),
    {
        if self.turns.len() > 0 {
            let mut raw: String = self.turns[self.turns.len() - 1].agent_raw.clone();
            raw.append(chunk);
            Some(raw)
        } else {
            None
        }
    }

    /// Adds to the answer of the latest turn.
    pub fn add_text(&mut self, chunk: &str, rendered: String)
        requires
            old(self)@.wf(),
        ensures
            final(self)@ == old(self)@.text_added(chunk@, rendered@),
            final(self)@.wf(),
    {
        let ghost before = self@.turns;
        if let Some(mut last) = self.turns.pop() {
            assert(self@.turns =~= before.drop_last());
            last.add_text(chunk, rendered);
            self.turns.push(last);
            assert(self@.turns =~= before.drop_last().push(last.deep_view()));
        }
    }

    /// Takes in a report on a tool call of the latest turn.
    pub fn update_call(&mut self, info: ToolCallInfo)
        requires
            old(self)@.wf(),
        ensures
            final(self)@ == old(self)@.call_updated(info.deep_view()),
            final(self)@.wf(),
    {
        let ghost before = self@.turns;
        if let Some(mut last) = self.turns.pop() {
            proof {
                assert(self@.turns =~= before.drop_last());
                before.last().lemma_call_updated_wf(info.deep_view());
            }
            last.update_call(info);
            self.turns.push(last);
            assert(self@.turns =~= before.drop_last().push(last.deep_view()));
        }
    }

    /// Starts the conversation over.
    pub fn clear(&mut self)
        requires
            old(self)@.wf(),
        ensures
            final(self)@ == old(self)@.cleared(),
            final(self)@.wf(),
    {
        self.turns.clear();
        assert(self@.turns =~= Seq::<TurnModel>::empty());
    }
}

} // verus!
