//! The prompt: its text, its completions, its history and the prompts that wait.

use std::collections::VecDeque;

use vstd::prelude::*;

use crate::completion::{
    completions, has_command, slash_completions, with_command, CatalogModel, CommandCatalog,
    CompletionModel,
};
use crate::selection::{next, next_of, previous, previous_of};
use crate::text::{owned, same, trimmed};

verus! {

/// How many prompts may wait while the agent is busy.
pub const MAX_QUEUE: usize = 10;

/// A command of the prompt.
#[derive(Clone, Copy, Debug, PartialEq, Eq, Structural)]
pub enum PromptCommand {
    /// The prompt is being edited.
    Edit,
    PreviousCompletion,
    NextCompletion,
    /// Put the selected completion into the prompt.
    Complete,
    /// Recall an earlier prompt.
    OlderPrompt,
    /// Recall a later prompt.
    NewerPrompt,
}

/// The prompt.
///
/// `queue` holds the prompts that wait while the agent is busy. `history_cursor` is
/// `None` while no earlier prompt is recalled; otherwise it counts the steps back
/// from the latest prompt of `prompt_history`.
#[derive(Debug)]
pub struct PromptState {
    pub input: String,
    pub queue: VecDeque<String>,
    pub completion_idx: usize,
    pub prompt_history: Vec<String>,
    pub history_cursor: Option<usize>,
}

/// The model of [`PromptState`].
#[verifier::ext_equal]
pub struct PromptModel {
    pub input: Seq<char>,
    pub queue: Seq<Seq<char>>,
    pub completion_idx: usize,
    pub prompt_history: Seq<Seq<char>>,
    pub history_cursor: Option<usize>,
}

impl View for PromptState {
    type V = PromptModel;

    open spec fn view(&self) -> PromptModel {
        PromptModel {
            input: self.input@,
            queue: self.queue.deep_view(),
            completion_idx: self.completion_idx,
            prompt_history: self.prompt_history.deep_view(),
            history_cursor: self.history_cursor,
        }
    }
}

impl PromptModel {
    /// The queue never overflows and holds no empty prompt, and the cursor points at a
    /// prompt of the history.
    pub open spec fn wf(self) -> bool {
        &&& self.queue.len() <= MAX_QUEUE
        &&& forall|i: int| 0 <= i < self.queue.len() ==> (#[trigger] self.queue[i]).len() > 0
        &&& self.history_cursor matches Some(i) ==> i < self.prompt_history.len()
    }

    /// An empty prompt.
    pub open spec fn initial() -> PromptModel {
        PromptModel {
            input: Seq::empty(),
            queue: Seq::empty(),
            completion_idx: 0,
            prompt_history: Seq::empty(),
            history_cursor: None,
        }
    }

    /// The text of the prompt is `text`.
    pub open spec fn typed(self, text: Seq<char>) -> PromptModel {
        PromptModel { input: text, ..self }
    }

    /// The prompt that lies `i` steps back in the history, in the input.
    pub open spec fn recalled(self, i: int) -> PromptModel {
        PromptModel {
            input: self.prompt_history[self.prompt_history.len() - 1 - i],
            history_cursor: Some(i as usize),
            ..self
        }
    }

    /// One step back in the history of prompts, as far as there is one.
    pub open spec fn older_prompt(self) -> PromptModel {
        match self.history_cursor {
            Some(i) => self.recalled(
                if i + 1 < self.prompt_history.len() {
                    i + 1
                } else {
                    self.prompt_history.len() - 1
                },
            ),
            None => self.recalled(0),
        }
    }

    /// One step forward in the history of prompts; from the latest one to an empty
    /// input.
    pub open spec fn newer_prompt(self) -> PromptModel {
        match self.history_cursor {
            Some(i) if i > 0 => self.recalled(i - 1),
            _ => PromptModel { input: Seq::empty(), history_cursor: None, ..self },
        }
    }

    /// The completions of the input.
    pub open spec fn completions(self, catalog: CatalogModel) -> Seq<(Seq<char>, Seq<char>)> {
        completions(self.input, catalog)
    }

    /// The selected one of the completions of `word`.
    pub open spec fn selected_completion(self, word: Seq<char>, catalog: CatalogModel) -> Seq<
        char,
    > {
        let found = completions(word, catalog);
        found[self.completion_idx as int % found.len() as int].0
    }

    /// The selected completion is the input. It stays selected: equal commands come
    /// first among the completions of a command, so the selection goes to the place
    /// that the completion has among those.
    pub open spec fn completed(self, catalog: CatalogModel) -> PromptModel {
        let found = self.completions(catalog);
        let at = self.completion_idx as int % found.len() as int;
        PromptModel {
            input: found[at].0,
            completion_idx: with_command(found.take(at), found[at].0).len() as usize,
            ..self
        }
    }

    /// The prompt after a command.
    pub open spec fn performed(self, command: PromptCommand, catalog: CatalogModel) -> PromptModel {
        match command {
            PromptCommand::Edit => PromptModel { completion_idx: 0, history_cursor: None, ..self },
            PromptCommand::PreviousCompletion => PromptModel {
                completion_idx: previous_of(
                    self.completion_idx as int,
                    self.completions(catalog).len() as int,
                ) as usize,
                ..self
            },
            PromptCommand::NextCompletion => PromptModel {
                completion_idx: next_of(
                    self.completion_idx as int,
                    self.completions(catalog).len() as int,
                ) as usize,
                ..self
            },
            PromptCommand::Complete => self.completed(catalog),
            PromptCommand::OlderPrompt => self.older_prompt(),
            PromptCommand::NewerPrompt => self.newer_prompt(),
        }
    }

    /// Whether a command can be performed: those on completions where there are
    /// some, going back where there is a history.
    pub open spec fn accepts(self, command: PromptCommand, catalog: CatalogModel) -> bool {
        match command {
            PromptCommand::PreviousCompletion
            | PromptCommand::NextCompletion
            | PromptCommand::Complete => self.completions(catalog).len() > 0,
            PromptCommand::OlderPrompt => self.prompt_history.len() > 0,
            PromptCommand::Edit | PromptCommand::NewerPrompt => true,
        }
    }

    /// What is submitted: the selected completion where the input has any, else the
    /// input without surrounding white space.
    pub open spec fn submission(self, catalog: CatalogModel) -> Seq<char> {
        let word = trimmed(self.input);
        if completions(word, catalog).len() > 0 {
            self.selected_completion(word, catalog)
        } else {
            word
        }
    }

    /// A submitted prompt goes into the history, and the input is empty again.
    pub open spec fn recorded(self, text: Seq<char>) -> PromptModel {
        PromptModel {
            input: Seq::empty(),
            completion_idx: 0,
            prompt_history: self.prompt_history.push(text),
            history_cursor: None,
            ..self
        }
    }

    /// Whether the queue takes no more.
    pub open spec fn full(self) -> bool {
        self.queue.len() >= MAX_QUEUE
    }

    /// A prompt waits behind the others.
    pub open spec fn enqueued(self, text: Seq<char>) -> PromptModel {
        PromptModel { queue: self.queue.push(text), ..self }
    }

    /// The first of the waiting prompts is taken out.
    pub open spec fn dequeued(self) -> PromptModel {
        if self.queue.len() > 0 {
            PromptModel { queue: self.queue.drop_first(), ..self }
        } else {
            self
        }
    }

    /// The first of the waiting prompts.
    pub open spec fn waiting(self) -> Option<Seq<char>> {
        if self.queue.len() > 0 {
            Some(self.queue.first())
        } else {
            None
        }
    }
}

impl PromptState {
    /// An empty prompt.
    pub fn new() -> (res: PromptState)
        ensures
            res@ == PromptModel::initial(),
            res@.wf(),
    {
        let res = PromptState {
            input: String::new(),
            queue: VecDeque::new(),
            completion_idx: 0,
            prompt_history: Vec::new(),
            history_cursor: None,
        };
        assert(res@ =~= PromptModel::initial());
        res
    }

    /// Whether the prompt has completions.
    pub fn is_completing(&self, catalog: &CommandCatalog) -> (res: bool)
        ensures
            res == (self@.completions(catalog.deep_view()).len() > 0),
    {
        self.completion_count(catalog) > 0
    }

    fn completion_count(&self, catalog: &CommandCatalog) -> (res: usize)
        ensures
            res == self@.completions(catalog.deep_view()).len(),
    {
        let found: Vec<(String, String)> = slash_completions(self.input.as_str(), catalog);
        assert(found.deep_view().len() == found.len());
        found.len()
    }

    fn recall(&mut self, i: usize)
        requires
            i < old(self)@.prompt_history.len(),
        ensures
            final(self)@ == old(self)@.recalled(i as int),
    {
        self.input = self.prompt_history[self.prompt_history.len() - 1 - i].clone();
        self.history_cursor = Some(i);
    }

    fn older_prompt(&mut self)
        requires
            old(self)@.prompt_history.len() > 0,
        ensures
            final(self)@ == old(self)@.older_prompt(),
    {
        let last: usize = self.prompt_history.len() - 1;
        let at: usize = match self.history_cursor {
            Some(i) => if i < last {
                i + 1
            } else {
                last
            },
            None => 0,
        };
        self.recall(at);
    }

    fn newer_prompt(&mut self)
        requires
            old(self)@.wf(),
        ensures
            final(self)@ == old(self)@.newer_prompt(),
    {
        match self.history_cursor {
            Some(i) if i > 0 => self.recall(i - 1),
            _ => {
                self.input = String::new();
                self.history_cursor = None;
            },
        }
    }

    fn selected_completion(&self, word: &str, catalog: &CommandCatalog) -> (res: Option<String>)
        ensures
            res is Some == (completions(word@, catalog.deep_view()).len() > 0),
            res matches Some(text) ==> text@ == self@.selected_completion(
                word@,
                catalog.deep_view(),
            ),
    {
        let found: Vec<(String, String)> = slash_completions(word, catalog);
        assert(found.deep_view().len() == found.len());
        if found.len() > 0 {
            let at: usize = self.completion_idx % found.len();
            assert(found.deep_view()[at as int] == found[at as int].deep_view());
            Some(found[at].0.clone())
        } else {
            None
        }
    }

    fn complete(&mut self, catalog: &CommandCatalog)
        requires
            old(self)@.completions(catalog.deep_view()).len() > 0,
        ensures
            final(self)@ == old(self)@.completed(catalog.deep_view()),
    {
        let found: Vec<(String, String)> = slash_completions(self.input.as_str(), catalog);
        let ghost all = found.deep_view();
        assert(all.len() == found.len());
        let at: usize = self.completion_idx % found.len();
        let command: String = found[at].0.clone();
        assert(all[at as int].0 == command@);
        let ghost picked = has_command(command@);
        let mut equal: usize = 0;
        let mut i: usize = 0;
        assert(all.take(0).filter(picked).len() == 0) by {
            reveal(Seq::filter);
        }
        while i < at
            invariant
                i <= at < found.len(),
                equal <= i,
                all == found.deep_view(),
                picked == has_command(command@),
                equal == all.take(i as int).filter(picked).len(),
            decreases at - i,
        {
            let ghost item: CompletionModel = all[i as int];
            proof {
                all.take(i as int).lemma_filter_push(item, picked);
                assert(all.take(i + 1) =~= all.take(i as int).push(item));
                assert(item == found[i as int].deep_view());
            }
            if same(found[i].0.as_str(), command.as_str()) {
                equal += 1;
            }
            i += 1;
        }
        self.input = command;
        self.completion_idx = equal;
    }

    /// Performs a command.
    pub fn perform(&mut self, command: PromptCommand, catalog: &CommandCatalog)
        requires
            old(self)@.wf(),
            old(self)@.accepts(command, catalog.deep_view()),
        ensures
            final(self)@ == old(self)@.performed(command, catalog.deep_view()),
            final(self)@.wf(),
    {
        match command {
            PromptCommand::Edit => {
                self.completion_idx = 0;
                self.history_cursor = None;
            },
            PromptCommand::PreviousCompletion => {
                let n: usize = self.completion_count(catalog);
                self.completion_idx = previous(self.completion_idx, n);
            },
            PromptCommand::NextCompletion => {
                let n: usize = self.completion_count(catalog);
                self.completion_idx = next(self.completion_idx, n);
            },
            PromptCommand::Complete => self.complete(catalog),
            PromptCommand::OlderPrompt => self.older_prompt(),
            PromptCommand::NewerPrompt => self.newer_prompt(),
        }
    }

    /// What is submitted: the selected completion where the input has any, else the
    /// input without surrounding white space.
    pub fn submission(&self, catalog: &CommandCatalog) -> (res: String)
        ensures
            res@ == self@.submission(catalog.deep_view()),
    {
        let word: &str = self.input.as_str().trim();
        match self.selected_completion(word, catalog) {
            Some(text) => text,
            None => owned(word),
        }
    }

    /// Puts a submitted prompt into the history and empties the input.
    pub fn record(&mut self, text: String)
        requires
            old(self)@.wf(),
        ensures
            final(self)@ == old(self)@.recorded(text@),
            final(self)@.wf(),
    {
        let ghost before = self@.prompt_history;
        self.prompt_history.push(text);
        assert(self@.prompt_history =~= before.push(text@));
        self.history_cursor = None;
        self.input = String::new();
        self.completion_idx = 0;
    }

    /// Whether the queue takes no more.
    pub fn is_full(&self) -> (res: bool)
        ensures
            res == self@.full(),
    {
        self.queue.len() >= MAX_QUEUE
    }

    /// Lets a prompt wait behind the others.
    pub fn enqueue(&mut self, text: String)
        requires
            old(self)@.wf(),
            !old(self)@.full(),
            text@.len() > 0,
        ensures
            final(self)@ == old(self)@.enqueued(text@),
            final(self)@.wf(),
    {
        let ghost before = self@.queue;
        self.queue.push_back(text);
        assert(self@.queue =~= before.push(text@));
    }

    /// Takes out the first of the waiting prompts.
    pub fn dequeue(&mut self) -> (res: Option<String>)
        requires
            old(self)@.wf(),
        ensures
            final(self)@ == old(self)@.dequeued(),
            res.deep_view() == old(self)@.waiting(),
            final(self)@.wf(),
    {
        let ghost before = self@.queue;
        let res: Option<String> = self.queue.pop_front();
        assert(before.len() > 0 ==> self@.queue =~= before.drop_first());
        assert(before.len() == 0 ==> self@.queue =~= before);
        res
    }
}

} // verus!
