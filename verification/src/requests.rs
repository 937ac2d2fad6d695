//! What the agent asks of the user: permissions and lines of text.

use vstd::prelude::*;

use crate::selection::{
    first_position, lemma_first_position, lemma_moved_in_range, next, next_of, previous,
    previous_of,
};
use crate::text::{owned, trimmed};
use crate::types::{
    Action, ActionModel, ElicitationModel, ElicitationReq, PermissionChoice,
    PermissionChoiceModel, PermissionModel, PermissionOption, PermissionOptionModel,
    PermissionReq,
};

verus! {

/// A command of the dialogs in which the agent asks something.
#[derive(Clone, Copy, Debug, PartialEq, Eq, Structural)]
pub enum RequestCommand {
    /// Answer the elicitation with nothing.
    DeclineElicitation,
    /// Answer the elicitation with what was typed.
    AnswerElicitation,
    /// Answer the permission request with a refusal.
    DeclinePermission,
    PreviousOption,
    NextOption,
    /// Answer the permission request with the selected option.
    AcceptOption,
    /// Answer the permission request with the option of this key.
    OptionShortcut(char),
}

/// What the agent asks. `perm_reply` and `elicit_reply` tell whether the channel
/// for the answer is still there: an answer uses it up.
#[derive(Debug)]
pub struct RequestState {
    pub pending_perm: Option<PermissionReq>,
    pub perm_idx: usize,
    pub perm_reply: bool,
    pub pending_elicit: Option<ElicitationReq>,
    pub elicit_input: String,
    pub elicit_reply: bool,
}

/// The model of [`RequestState`].
#[verifier::ext_equal]
pub struct RequestModel {
    pub pending_perm: Option<PermissionModel>,
    pub perm_idx: usize,
    pub perm_reply: bool,
    pub pending_elicit: Option<ElicitationModel>,
    pub elicit_input: Seq<char>,
    pub elicit_reply: bool,
}

impl View for RequestState {
    type V = RequestModel;

    open spec fn view(&self) -> RequestModel {
        RequestModel {
            pending_perm: self.pending_perm.deep_view(),
            perm_idx: self.perm_idx,
            perm_reply: self.perm_reply,
            pending_elicit: self.pending_elicit.deep_view(),
            elicit_input: self.elicit_input@,
            elicit_reply: self.elicit_reply,
        }
    }
}

impl RequestModel {
    /// What is asked can still be answered, and the selection is one of the
    /// options.
    pub open spec fn wf(self) -> bool {
        &&& self.pending_perm matches Some(req) ==> {
            &&& self.perm_reply
            &&& req.options.len() > 0 ==> self.perm_idx < req.options.len()
        }
        &&& self.pending_elicit is Some ==> self.elicit_reply
    }

    /// Nothing is asked.
    pub open spec fn initial() -> RequestModel {
        RequestModel {
            pending_perm: None,
            perm_idx: 0,
            perm_reply: false,
            pending_elicit: None,
            elicit_input: Seq::empty(),
            elicit_reply: false,
        }
    }

    /// The agent asks for a permission. A request that is still open is dropped.
    pub open spec fn permission_asked(self, req: PermissionModel) -> RequestModel {
        RequestModel { pending_perm: Some(req), perm_idx: 0, perm_reply: true, ..self }
    }

    /// The agent asks for a line of text. A request that is still open is dropped.
    pub open spec fn elicitation_asked(self, req: ElicitationModel) -> RequestModel {
        RequestModel {
            pending_elicit: Some(req),
            elicit_input: Seq::empty(),
            elicit_reply: true,
            ..self
        }
    }

    /// The answer to the elicitation was edited.
    pub open spec fn typed(self, text: Seq<char>) -> RequestModel {
        RequestModel { elicit_input: text, ..self }
    }

    /// Whether the permission request that is open has an option to select.
    pub open spec fn has_options(self) -> bool {
        self.pending_perm matches Some(req) && req.options.len() > 0
    }

    /// The number of options of the permission request that is open.
    pub open spec fn option_count(self) -> nat {
        self.pending_perm->0.options.len()
    }

    /// The id of the selected option of the permission request.
    pub open spec fn selected_option(self) -> Option<Seq<char>> {
        match self.pending_perm {
            Some(req) => if self.perm_idx < req.options.len() {
                Some(req.options[self.perm_idx as int].id)
            } else {
                None
            },
            None => None,
        }
    }

    /// The id of the first option of the permission request that has the key `c`.
    pub open spec fn option_for_key(self, c: char) -> Option<Seq<char>> {
        match self.pending_perm {
            Some(req) => {
                let at = first_position(req.options, |o: PermissionOptionModel| o.key == c);
                if at < req.options.len() {
                    Some(req.options[at].id)
                } else {
                    None
                }
            },
            None => None,
        }
    }

    /// The permission request is answered and gone.
    pub open spec fn permission_closed(self) -> RequestModel {
        RequestModel { pending_perm: None, perm_reply: false, ..self }
    }

    /// The answer to the permission request, where there is a channel for it.
    pub open spec fn permission_reply(self, choice: PermissionChoiceModel) -> Option<ActionModel> {
        if self.perm_reply {
            Some(ActionModel::ReplyPermission(choice))
        } else {
            None
        }
    }

    /// The elicitation is answered and gone.
    pub open spec fn elicitation_closed(self) -> RequestModel {
        RequestModel { pending_elicit: None, elicit_reply: false, ..self }
    }

    /// The answer to the elicitation, where there is a channel for it.
    pub open spec fn elicitation_reply(self, text: Seq<char>) -> Option<ActionModel> {
        if self.elicit_reply {
            Some(ActionModel::ReplyElicitation(text))
        } else {
            None
        }
    }

    /// What is asked after a command. Accepting a selection beyond the options
    /// closes the dialog without an answer; a key that no option has does nothing.
    pub open spec fn performed(self, command: RequestCommand) -> RequestModel {
        match command {
            RequestCommand::DeclineElicitation => self.elicitation_closed(),
            RequestCommand::AnswerElicitation => self.elicitation_closed().typed(Seq::empty()),
            RequestCommand::DeclinePermission => self.permission_closed(),
            RequestCommand::PreviousOption => RequestModel {
                perm_idx: previous_of(self.perm_idx as int, self.option_count() as int) as usize,
                ..self
            },
            RequestCommand::NextOption => RequestModel {
                perm_idx: next_of(self.perm_idx as int, self.option_count() as int) as usize,
                ..self
            },
            RequestCommand::AcceptOption => if self.selected_option() is Some {
                self.permission_closed()
            } else {
                RequestModel { pending_perm: None, ..self }
            },
            RequestCommand::OptionShortcut(c) => if self.option_for_key(c) is Some {
                self.permission_closed()
            } else {
                self
            },
        }
    }

    /// What a command answers the agent.
    pub open spec fn reply(self, command: RequestCommand) -> Option<ActionModel> {
        match command {
            RequestCommand::DeclineElicitation => self.elicitation_reply(Seq::empty()),
            RequestCommand::AnswerElicitation => self.elicitation_reply(
                trimmed(self.elicit_input),
            ),
            RequestCommand::DeclinePermission => self.permission_reply(
                PermissionChoiceModel::Cancelled,
            ),
            RequestCommand::PreviousOption | RequestCommand::NextOption => None,
            RequestCommand::AcceptOption => match self.selected_option() {
                Some(id) => self.permission_reply(PermissionChoiceModel::Selected(id)),
                None => None,
            },
            RequestCommand::OptionShortcut(c) => match self.option_for_key(c) {
                Some(id) => self.permission_reply(PermissionChoiceModel::Selected(id)),
                None => None,
            },
        }
    }

    /// Whether a command can be performed: the selection can move only where there
    /// is an option.
    pub open spec fn accepts(self, command: RequestCommand) -> bool {
        command == RequestCommand::PreviousOption || command == RequestCommand::NextOption
            ==> self.has_options()
    }

    /// Commands keep the requests well formed.
    pub proof fn lemma_performed_wf(self, command: RequestCommand)
        requires
            self.wf(),
            self.accepts(command),
            self.pending_perm matches Some(req) ==> req.options.len() <= usize::MAX,
        ensures
            self.performed(command).wf(),
    {
        if self.has_options() {
            lemma_moved_in_range(self.perm_idx as int, self.option_count() as int);
        }
    }
}

/// The position of the first option with the key `c`, or the number of options.
fn option_with_key(options: &Vec<PermissionOption>, c: char) -> (res: usize)
    ensures
        res == first_position(options.deep_view(), |o: PermissionOptionModel| o.key == c),
        res <= options.len(),
{
    let ghost picked = |o: PermissionOptionModel| o.key == c;
    let mut i: usize = 0;
    while i < options.len() && options[i].key != c
        invariant
            i <= options.len(),
            picked == (|o: PermissionOptionModel| o.key == c),
            forall|j: int| 0 <= j < i ==> !picked(#[trigger] options.deep_view()[j]),
        decreases options.len() - i,
    {
        assert(!picked(options.deep_view()[i as int]));
        i += 1;
    }
    proof {
        lemma_first_position(options.deep_view(), picked, i as int);
    }
    i
}

impl RequestState {
    /// Nothing is asked.
    pub fn new() -> (res: RequestState)
        ensures
            res@ == RequestModel::initial(),
            res@.wf(),
    {
        RequestState {
            pending_perm: None,
            perm_idx: 0,
            perm_reply: false,
            pending_elicit: None,
            elicit_input: String::new(),
            elicit_reply: false,
        }
    }

    /// The agent asks for a permission.
    pub fn ask_permission(&mut self, req: PermissionReq)
        ensures
            final(self)@ == old(self)@.permission_asked(req.deep_view()),
    {
        self.perm_reply = true;
        self.perm_idx = 0;
        self.pending_perm = Some(req);
    }

    /// The agent asks for a line of text.
    pub fn ask_elicitation(&mut self, req: ElicitationReq)
        ensures
            final(self)@ == old(self)@.elicitation_asked(req.deep_view()),
    {
        self.elicit_reply = true;
        self.elicit_input = String::new();
        self.pending_elicit = Some(req);
    }

    /// Whether the permission request that is open has an option to select.
    fn has_options(&self) -> (res: bool)
        ensures
            res == self@.has_options(),
    {
        match &self.pending_perm {
            Some(req) => req.options.len() > 0,
            None => false,
        }
    }

    /// Whether a command can be performed.
    pub fn can_perform(&self, command: RequestCommand) -> (res: bool)
        ensures
            res == self@.accepts(command),
    {
        match command {
            RequestCommand::PreviousOption | RequestCommand::NextOption => self.has_options(),
            _ => true,
        }
    }

    fn option_count(&self) -> (res: usize)
        requires
            self@.has_options(),
        ensures
            res == self@.option_count(),
    {
        match &self.pending_perm {
            Some(req) => req.options.len(),
            None => 0,
        }
    }

    fn selected_option(&self) -> (res: Option<String>)
        ensures
            res.deep_view() == self@.selected_option(),
    {
        match &self.pending_perm {
            Some(req) => {
                if self.perm_idx < req.options.len() {
                    Some(req.options[self.perm_idx].id.clone())
                } else {
                    None
                }
            },
            None => None,
        }
    }

    fn option_for_key(&self, c: char) -> (res: Option<String>)
        ensures
            res.deep_view() == self@.option_for_key(c),
    {
        match &self.pending_perm {
            Some(req) => {
                let at: usize = option_with_key(&req.options, c);
                if at < req.options.len() {
                    Some(req.options[at].id.clone())
                } else {
                    None
                }
            },
            None => None,
        }
    }

    fn answer_elicitation(&mut self, text: String) -> (res: Option<Action>)
        ensures
            final(self)@ == old(self)@.elicitation_closed(),
            res.deep_view() == old(self)@.elicitation_reply(text@),
    {
        let waiting: bool = self.elicit_reply;
        self.pending_elicit = None;
        self.elicit_reply = false;
        if waiting {
            Some(Action::ReplyElicitation(text))
        } else {
            None
        }
    }

    fn answer_permission(&mut self, choice: PermissionChoice) -> (res: Option<Action>)
        ensures
            final(self)@ == old(self)@.permission_closed(),
            res.deep_view() == old(self)@.permission_reply(choice.deep_view()),
    {
        let waiting: bool = self.perm_reply;
        self.pending_perm = None;
        self.perm_reply = false;
        if waiting {
            Some(Action::ReplyPermission(choice))
        } else {
            None
        }
    }

    /// Performs a command. The result is the answer to the agent, if there is one.
    pub fn perform(&mut self, command: RequestCommand) -> (res: Option<Action>)
        requires
            old(self)@.wf(),
            old(self)@.accepts(command),
        ensures
            final(self)@ == old(self)@.performed(command),
            res.deep_view() == old(self)@.reply(command),
            final(self)@.wf(),
    {
        proof {
            if let Some(req) = &self.pending_perm {
                assert(req.options.deep_view().len() == req.options.len());
            }
            self@.lemma_performed_wf(command);
        }
        match command {
            RequestCommand::DeclineElicitation => self.answer_elicitation(String::new()),
            RequestCommand::AnswerElicitation => {
                let text: String = owned(self.elicit_input.as_str().trim());
                let action: Option<Action> = self.answer_elicitation(text);
                self.elicit_input = String::new();
                action
            },
            RequestCommand::DeclinePermission => self.answer_permission(
                PermissionChoice::Cancelled,
            ),
            RequestCommand::PreviousOption => {
                let n: usize = self.option_count();
                self.perm_idx = previous(self.perm_idx, n);
                None
            },
            RequestCommand::NextOption => {
                let n: usize = self.option_count();
                self.perm_idx = next(self.perm_idx, n);
                None
            },
            RequestCommand::AcceptOption => match self.selected_option() {
                Some(id) => self.answer_permission(PermissionChoice::Selected(id)),
                None => {
                    self.pending_perm = None;
                    None
                },
            },
            RequestCommand::OptionShortcut(c) => match self.option_for_key(c) {
                Some(id) => self.answer_permission(PermissionChoice::Selected(id)),
                None => None,
            },
        }
    }
}

} // verus!
