//! Sending prompts, and the commands that the client answers itself.

use vstd::prelude::*;

use crate::state::{AppModel, AppState};
use crate::text::{owned, same, trimmed};
use crate::types::{Action, ActionModel, GooseMode};

verus! {

/// The mode that follows `current` in the round of modes.
pub open spec fn next_mode(current: GooseMode) -> GooseMode {
    match current {
        GooseMode::Auto => GooseMode::Approve,
        GooseMode::Approve => GooseMode::SmartApprove,
        GooseMode::SmartApprove => GooseMode::Chat,
        GooseMode::Chat => GooseMode::Auto,
    }
}

/// The mode that follows `current` in the round of modes.
pub fn cycle_mode(current: GooseMode) -> (res: GooseMode)
    ensures
        res == next_mode(current),
{
    match current {
        GooseMode::Auto => GooseMode::Approve,
        GooseMode::Approve => GooseMode::SmartApprove,
        GooseMode::SmartApprove => GooseMode::Chat,
        GooseMode::Chat => GooseMode::Auto,
    }
}

/// The commands that the client answers itself.
#[derive(Clone, Copy, Debug, PartialEq, Eq, Structural)]
pub enum LocalCommand {
    Exit,
    Extensions,
    Models,
}

/// The client's own command that `text` is, if it is one.
pub open spec fn local_command(text: Seq<char>) -> Option<LocalCommand> {
    let word = trimmed(text);
    if word == "/exit"@ || word == "/quit"@ {
        Some(LocalCommand::Exit)
    } else if word == "/ext"@ {
        Some(LocalCommand::Extensions)
    } else if word == "/model"@ {
        Some(LocalCommand::Models)
    } else {
        None
    }
}

impl AppModel {
    /// The state after one of the client's own commands.
    pub open spec fn commanded(self, command: LocalCommand) -> AppModel {
        match command {
            LocalCommand::Exit => AppModel { should_exit: true, ..self },
            LocalCommand::Extensions => AppModel {
                dialogs: self.dialogs.extensions_opened(),
                ..self
            },
            LocalCommand::Models => AppModel { dialogs: self.dialogs.models_opened(), ..self },
        }
    }

    /// The state when a prompt goes to the agent. Without a channel to the agent
    /// nothing happens.
    pub open spec fn sent(self, text: Seq<char>) -> AppModel {
        if self.links.prompt_ready {
            AppModel {
                loading: true,
                status: "thinking…"@,
                banner_visible: false,
                transcript: self.transcript.asked(text),
                ..self
            }
        } else {
            self
        }
    }

    /// What is to be done when a prompt goes to the agent.
    pub open spec fn sending(self, text: Seq<char>) -> Option<ActionModel> {
        if self.links.prompt_ready {
            Some(ActionModel::SubmitPrompt { text, share_token: self.links.cancel_ready })
        } else {
            None
        }
    }

    /// The state after the prompt channel took no more.
    pub open spec fn rejected(self) -> AppModel {
        AppModel { loading: false, status: "error: agent channel full"@, ..self }
    }
}

/// What is to be done after one of the client's own commands: the extension dialog
/// shows the extensions as they are now.
pub open spec fn commanding(command: LocalCommand) -> Option<ActionModel> {
    if command == LocalCommand::Extensions {
        Some(ActionModel::ListExtensions)
    } else {
        None
    }
}

/// Which of the client's own commands `text` is.
fn parse_local_command(text: &str) -> (res: Option<LocalCommand>)
    ensures
        res == local_command(text@),
{
    let word: &str = text.trim();
    if same(word, "/exit") || same(word, "/quit") {
        Some(LocalCommand::Exit)
    } else if same(word, "/ext") {
        Some(LocalCommand::Extensions)
    } else if same(word, "/model") {
        Some(LocalCommand::Models)
    } else {
        None
    }
}

impl AppState {
    /// Runs `text` where it is one of the client's own commands. The first result
    /// tells whether it was. The extension dialog shows what
    /// `Action::ListExtensions` brings.
    pub fn check_slash_command(&mut self, text: &str) -> (res: (bool, Option<Action>))
        requires
            old(self)@.wf(),
        ensures
            res.0 == (local_command(text@) is Some),
            final(self)@ == match local_command(text@) {
                Some(command) => old(self)@.commanded(command),
                None => old(self)@,
            },
            res.1.deep_view() == match local_command(text@) {
                Some(command) => commanding(command),
                None => None,
            },
            final(self)@.wf(),
    {
        match parse_local_command(text) {
            Some(LocalCommand::Exit) => {
                self.should_exit = true;
                (true, None)
            },
            Some(LocalCommand::Extensions) => {
                self.dialogs.open_extensions();
                (true, Some(Action::ListExtensions))
            },
            Some(LocalCommand::Models) => {
                self.dialogs.open_models();
                (true, None)
            },
            None => (false, None),
        }
    }

    /// Sends a prompt to the agent: opens a turn for it and asks for the prompt to
    /// be submitted. Without a channel to the agent nothing happens.
    pub fn send_prompt_to_agent(&mut self, text: String) -> (res: Option<Action>)
        requires
            old(self)@.wf(),
        ensures
            final(self)@ == old(self)@.sent(text@),
            res.deep_view() == old(self)@.sending(text@),
            final(self)@.wf(),
    {
        if !self.links.prompt_ready {
            return None;
        }
        self.transcript.ask(text.clone());
        self.banner_visible = false;
        self.loading = true;
        self.status = owned("thinking…");
        Some(Action::SubmitPrompt { text, share_token: self.links.cancel_ready })
    }

    /// The prompt channel took no more: the turn stays, the client is idle again.
    pub fn prompt_rejected(&mut self)
        requires
            old(self)@.wf(),
        ensures
            final(self)@ == old(self)@.rejected(),
            final(self)@.wf(),
    {
        self.loading = false;
        self.status = owned("error: agent channel full");
    }
}

} // verus!
