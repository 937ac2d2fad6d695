//! What the commands of the keyboard do.

use vstd::prelude::*;

use crate::commands::{commanding, cycle_mode, local_command, next_mode, LocalCommand};
use crate::completion::{CatalogModel, CommandCatalog};
use crate::dialogs::DialogCommand;
use crate::keyboard::{KeyCommand, KeyPress};
use crate::prompt::PromptCommand;
use crate::requests::RequestCommand;
use crate::state::{AppModel, AppState};
use crate::text::owned;
use crate::transcript::TranscriptCommand;
use crate::types::{Action, ActionModel, CtrlModel, CtrlMsg};

verus! {

impl AppModel {
    /// The turn is asked to stop.
    pub open spec fn stopping(self) -> AppModel {
        AppModel { status: "stopping…"@, ..self }
    }

    /// A message for the control loop, where it runs.
    pub open spec fn controlling(self, msg: Option<CtrlModel>) -> Option<ActionModel> {
        match msg {
            Some(m) if self.links.control_ready => Some(ActionModel::Control(m)),
            _ => None,
        }
    }

    /// The control loop is asked for the mode after the present one.
    pub open spec fn asking_for_next_mode(self) -> Option<ActionModel> {
        self.controlling(Some(CtrlModel::SetMode(next_mode(self.session.goose_mode))))
    }

    /// The state after a command of the dialogs.
    pub open spec fn dialog_performed(self, command: DialogCommand) -> AppModel {
        AppModel { dialogs: self.dialogs.performed(command), ..self }
    }

    /// The state after an answer to the agent.
    pub open spec fn request_performed(self, command: RequestCommand) -> AppModel {
        AppModel { requests: self.requests.performed(command), ..self }
    }

    /// The state after a command of the prompt.
    pub open spec fn prompt_performed(
        self,
        command: PromptCommand,
        catalog: CatalogModel,
    ) -> AppModel {
        AppModel { prompt: self.prompt.performed(command, catalog), ..self }
    }

    /// The state after a command of the transcript.
    pub open spec fn transcript_performed(self, command: TranscriptCommand) -> AppModel {
        AppModel { transcript: self.transcript.performed(command), ..self }
    }

    /// The state when a text was submitted and its input is done with.
    pub open spec fn recorded(self, text: Seq<char>) -> AppModel {
        AppModel { prompt: self.prompt.recorded(text), ..self }
    }

    /// A submission from the splash screen: one of the client's own commands is run,
    /// anything else goes to the agent. Nothing at all is not submitted.
    pub open spec fn submitted_from_splash(self, catalog: CatalogModel) -> AppModel {
        let text = self.prompt.submission(catalog);
        if text.len() == 0 {
            self
        } else {
            match local_command(text) {
                Some(command) => self.recorded(text).commanded(command),
                None => self.recorded(text).sent(text),
            }
        }
    }

    /// What is to be done after a submission from the splash screen.
    pub open spec fn submitting_from_splash(self, catalog: CatalogModel) -> Option<ActionModel> {
        let text = self.prompt.submission(catalog);
        if text.len() == 0 {
            None
        } else {
            match local_command(text) {
                Some(command) => commanding(command),
                None => self.sending(text),
            }
        }
    }

    /// Whether a submission from the input bar finds no room: the agent is busy and
    /// as many prompts wait as may.
    pub open spec fn is_crowded(self) -> bool {
        self.loading && self.prompt.full()
    }

    /// The state when a text was submitted from the input bar: the latest turn is
    /// shown again.
    pub open spec fn taken(self, text: Seq<char>) -> AppModel {
        AppModel {
            prompt: self.prompt.recorded(text),
            transcript: self.transcript.turn_shown(None),
            ..self
        }
    }

    /// A prompt waits for the agent.
    pub open spec fn enqueued(self, text: Seq<char>) -> AppModel {
        AppModel { prompt: self.prompt.enqueued(text), ..self }
    }

    /// A submission from the input bar. One of the client's own commands is run.
    /// While the agent is busy a prompt waits in the queue. When the queue is full
    /// the input stays as it is.
    pub open spec fn submitted(self, catalog: CatalogModel) -> AppModel {
        let text = self.prompt.submission(catalog);
        if text.len() == 0 {
            self
        } else if self.is_crowded() {
            AppModel { status: "queue full — please wait"@, ..self }
        } else {
            match local_command(text) {
                Some(command) => self.taken(text).commanded(command),
                None => if self.loading {
                    self.taken(text).enqueued(text)
                } else {
                    self.taken(text).sent(text)
                },
            }
        }
    }

    /// What is to be done after a submission from the input bar.
    pub open spec fn submitting(self, catalog: CatalogModel) -> Option<ActionModel> {
        let text = self.prompt.submission(catalog);
        if text.len() == 0 || self.is_crowded() {
            None
        } else {
            match local_command(text) {
                Some(command) => commanding(command),
                None => if self.loading {
                    None
                } else {
                    self.sending(text)
                },
            }
        }
    }

    /// The state after a command.
    pub open spec fn performed(self, command: KeyCommand, catalog: CatalogModel) -> AppModel {
        match command {
            KeyCommand::Ignore | KeyCommand::Suspend | KeyCommand::CycleMode => self,
            KeyCommand::CancelTurn => self.stopping(),
            KeyCommand::Exit => self.commanded(LocalCommand::Exit),
            KeyCommand::SubmitFromSplash => self.submitted_from_splash(catalog),
            KeyCommand::Submit => self.submitted(catalog),
            KeyCommand::Dialog(c) => self.dialog_performed(c),
            KeyCommand::Request(c) => self.request_performed(c),
            KeyCommand::Prompt(c) => self.prompt_performed(c, catalog),
            KeyCommand::Transcript(c) => self.transcript_performed(c),
        }
    }

    /// What is to be done outside after a command.
    pub open spec fn effect(self, command: KeyCommand, catalog: CatalogModel) -> Option<
        ActionModel,
    > {
        match command {
            KeyCommand::Ignore
            | KeyCommand::Exit
            | KeyCommand::Prompt(_)
            | KeyCommand::Transcript(_) => None,
            KeyCommand::CancelTurn => Some(ActionModel::CancelTurn),
            KeyCommand::Suspend => Some(ActionModel::Suspend),
            KeyCommand::CycleMode => self.asking_for_next_mode(),
            KeyCommand::SubmitFromSplash => self.submitting_from_splash(catalog),
            KeyCommand::Submit => self.submitting(catalog),
            KeyCommand::Dialog(c) => self.controlling(self.dialogs.request(c)),
            KeyCommand::Request(c) => self.requests.reply(c),
        }
    }

    /// Whether a command can be performed.
    pub open spec fn allows(self, command: KeyCommand, catalog: CatalogModel) -> bool {
        match command {
            KeyCommand::Request(c) => self.requests.accepts(c),
            KeyCommand::Prompt(c) => self.prompt.accepts(c, catalog),
            KeyCommand::Transcript(c) => self.transcript.accepts(c),
            _ => true,
        }
    }

    /// Whether a key press can be handled in this state.
    ///
    /// Two cannot: an arrow key while a permission request without any option is
    /// open, and scrolling up beyond the largest offset.
    pub open spec fn accepts(self, press: KeyPress, catalog: CatalogModel) -> bool {
        self.allows(self.command(press, catalog), catalog)
    }

    /// The state after a key press.
    pub open spec fn key_step(self, press: KeyPress, catalog: CatalogModel) -> AppModel {
        self.performed(self.command(press, catalog), catalog)
    }

    /// What is to be done outside after a key press.
    pub open spec fn key_effect(self, press: KeyPress, catalog: CatalogModel) -> Option<
        ActionModel,
    > {
        self.effect(self.command(press, catalog), catalog)
    }
}

impl AppState {
    fn control(&self, msg: Option<CtrlMsg>) -> (res: Option<Action>)
        ensures
            res.deep_view() == self@.controlling(msg.deep_view()),
    {
        match msg {
            Some(m) if self.links.control_ready => Some(Action::Control(m)),
            _ => None,
        }
    }

    fn submit_from_splash(&mut self, catalog: &CommandCatalog) -> (res: Option<Action>)
        requires
            old(self)@.wf(),
        ensures
            final(self)@ == old(self)@.submitted_from_splash(catalog.deep_view()),
            res.deep_view() == old(self)@.submitting_from_splash(catalog.deep_view()),
            final(self)@.wf(),
    {
        let text: String = self.prompt.submission(catalog);
        if text.as_str().is_empty() {
            return None;
        }
        self.prompt.record(text.clone());
        let (handled, action): (bool, Option<Action>) = self.check_slash_command(text.as_str());
        if handled {
            return action;
        }
        self.send_prompt_to_agent(text)
    }

    fn submit(&mut self, catalog: &CommandCatalog) -> (res: Option<Action>)
        requires
            old(self)@.wf(),
        ensures
            final(self)@ == old(self)@.submitted(catalog.deep_view()),
            res.deep_view() == old(self)@.submitting(catalog.deep_view()),
            final(self)@.wf(),
    {
        let text: String = self.prompt.submission(catalog);
        if text.as_str().is_empty() {
            return None;
        }
        if self.loading && self.prompt.is_full() {
            self.status = owned("queue full — please wait");
            return None;
        }
        self.prompt.record(text.clone());
        self.transcript.show_turn(None);
        let (handled, action): (bool, Option<Action>) = self.check_slash_command(text.as_str());
        if handled {
            return action;
        }
        if self.loading {
            self.prompt.enqueue(text);
            None
        } else {
            self.send_prompt_to_agent(text)
        }
    }

    /// Whether a key press can be handled in this state.
    pub fn can_accept(&self, press: KeyPress, catalog: &CommandCatalog) -> (res: bool)
        ensures
            res == self@.accepts(press, catalog.deep_view()),
    {
        match self.command(press, catalog) {
            KeyCommand::Request(c) => self.requests.can_perform(c),
            KeyCommand::Transcript(c) => self.transcript.can_perform(c),
            _ => true,
        }
    }

    fn stop(&mut self)
        requires
            old(self)@.wf(),
        ensures
            final(self)@ == old(self)@.stopping(),
            final(self)@.wf(),
    {
        self.status = owned("stopping…");
    }

    fn exit(&mut self)
        requires
            old(self)@.wf(),
        ensures
            final(self)@ == old(self)@.commanded(LocalCommand::Exit),
            final(self)@.wf(),
    {
        self.should_exit = true;
    }

    fn ask_for_next_mode(&self) -> (res: Option<Action>)
        ensures
            res.deep_view() == self@.asking_for_next_mode(),
    {
        self.control(Some(CtrlMsg::SetMode(cycle_mode(self.session.goose_mode))))
    }

    fn perform_dialog(&mut self, command: DialogCommand) -> (res: Option<Action>)
        requires
            old(self)@.wf(),
        ensures
            final(self)@ == old(self)@.dialog_performed(command),
            res.deep_view() == old(self)@.controlling(old(self)@.dialogs.request(command)),
            final(self)@.wf(),
    {
        let msg: Option<CtrlMsg> = self.dialogs.perform(command);
        self.control(msg)
    }

    fn perform_request(&mut self, command: RequestCommand) -> (res: Option<Action>)
        requires
            old(self)@.wf(),
            old(self)@.requests.accepts(command),
        ensures
            final(self)@ == old(self)@.request_performed(command),
            res.deep_view() == old(self)@.requests.reply(command),
            final(self)@.wf(),
    {
        self.requests.perform(command)
    }

    fn perform_prompt(&mut self, command: PromptCommand, catalog: &CommandCatalog)
        requires
            old(self)@.wf(),
            old(self)@.prompt.accepts(command, catalog.deep_view()),
        ensures
            final(self)@ == old(self)@.prompt_performed(command, catalog.deep_view()),
            final(self)@.wf(),
    {
        self.prompt.perform(command, catalog);
    }

    fn perform_transcript(&mut self, command: TranscriptCommand)
        requires
            old(self)@.wf(),
            old(self)@.transcript.accepts(command),
        ensures
            final(self)@ == old(self)@.transcript_performed(command),
            final(self)@.wf(),
    {
        self.transcript.perform(command);
    }

    /// Handles a key press: the state moves on, and the effect outside comes back.
    pub fn on_key(&mut self, press: KeyPress, catalog: &CommandCatalog) -> (res: Option<Action>)
        requires
            old(self)@.wf(),
            old(self)@.accepts(press, catalog.deep_view()),
        ensures
            final(self)@ == old(self)@.key_step(press, catalog.deep_view()),
            res.deep_view() == old(self)@.key_effect(press, catalog.deep_view()),
            final(self)@.wf(),
    {
        match self.command(press, catalog) {
            KeyCommand::Ignore => None,
            KeyCommand::CancelTurn => {
                self.stop();
                Some(Action::CancelTurn)
            },
            KeyCommand::Exit => {
                self.exit();
                None
            },
            KeyCommand::Suspend => Some(Action::Suspend),
            KeyCommand::CycleMode => self.ask_for_next_mode(),
            KeyCommand::SubmitFromSplash => self.submit_from_splash(catalog),
            KeyCommand::Submit => self.submit(catalog),
            KeyCommand::Dialog(c) => self.perform_dialog(c),
            KeyCommand::Request(c) => self.perform_request(c),
            KeyCommand::Prompt(c) => {
                self.perform_prompt(c, catalog);
                None
            },
            KeyCommand::Transcript(c) => {
                self.perform_transcript(c);
                None
            },
        }
    }
}

} // verus!
