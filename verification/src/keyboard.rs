//! What a key press asks for.
//!
//! A dialog takes the keys before the prompt does, and within each the first rule
//! that fits decides. The result is a [`KeyCommand`].

use vstd::prelude::*;

use crate::completion::{CatalogModel, CommandCatalog};
use crate::dialogs::DialogCommand;
use crate::prompt::PromptCommand;
use crate::requests::RequestCommand;
use crate::state::{AppModel, AppState};
use crate::text::trimmed;
use crate::transcript::TranscriptCommand;

verus! {

/// The keys that mean something to the client.
#[derive(Clone, Copy, Debug, PartialEq, Eq, Structural)]
pub enum Key {
    Esc,
    Enter,
    Tab,
    BackTab,
    Up,
    Down,
    Backspace,
    Delete,
    Char(char),
    Other,
}

/// A key event: the key, the bits of the modifiers that are held, and whether it
/// reports the release of the key.
#[derive(Clone, Copy, Debug, PartialEq, Eq, Structural)]
pub struct KeyPress {
    pub key: Key,
    pub modifiers: u8,
    pub released: bool,
}

/// The bit of the shift key among the modifiers.
pub const SHIFT: u8 = 1;

/// The bit of the control key among the modifiers.
pub const CONTROL: u8 = 2;

/// `KeyModifiers::contains` of iocraft, on the bits of the two sets: all the flags
/// of `flags` are among those of `bits`. `KeyModifiers::from_bits_retain` takes the
/// bits as they are.
#[verifier::external_body]
fn modifiers_contain(bits: u8, flags: u8) -> (res: bool)
    ensures
        res == (bits & flags == flags),
{
    iocraft::prelude::KeyModifiers::from_bits_retain(bits).contains(
        iocraft::prelude::KeyModifiers::from_bits_retain(flags),
    )
}

impl KeyPress {
    /// Whether the shift key is held.
    pub open spec fn shift(self) -> bool {
        self.modifiers & SHIFT == SHIFT
    }

    /// Whether the control key is held.
    pub open spec fn control(self) -> bool {
        self.modifiers & CONTROL == CONTROL
    }

    /// Whether the shift key is held.
    fn has_shift(&self) -> (res: bool)
        ensures
            res == self.shift(),
    {
        modifiers_contain(self.modifiers, SHIFT)
    }

    /// Whether the control key is held.
    fn has_control(&self) -> (res: bool)
        ensures
            res == self.control(),
    {
        modifiers_contain(self.modifiers, CONTROL)
    }
}

/// What a key press asks for.
#[derive(Clone, Copy, Debug, PartialEq, Eq, Structural)]
pub enum KeyCommand {
    /// Nothing.
    Ignore,
    /// Stop the turn that is under way.
    CancelTurn,
    /// Leave the client.
    Exit,
    /// Put the client into the background.
    Suspend,
    /// Go to the next mode.
    CycleMode,
    /// Submit the prompt from the splash screen.
    SubmitFromSplash,
    /// Submit the prompt from the input bar.
    Submit,
    Dialog(DialogCommand),
    Request(RequestCommand),
    Prompt(PromptCommand),
    Transcript(TranscriptCommand),
}

impl AppModel {
    /// Escape closes a dialog or stops the turn.
    pub open spec fn escape_command(self) -> KeyCommand {
        if self.dialogs.ext_visible {
            KeyCommand::Dialog(DialogCommand::CloseExtensions)
        } else if self.dialogs.model_visible {
            KeyCommand::Dialog(DialogCommand::CloseModels)
        } else if self.requests.pending_elicit is Some {
            KeyCommand::Request(RequestCommand::DeclineElicitation)
        } else if self.requests.pending_perm is Some {
            KeyCommand::Request(RequestCommand::DeclinePermission)
        } else if self.loading {
            KeyCommand::CancelTurn
        } else {
            KeyCommand::Ignore
        }
    }

    /// Control-C refuses what the agent asks, stops the turn, or leaves.
    pub open spec fn interrupt_command(self) -> KeyCommand {
        if self.requests.pending_elicit is Some {
            KeyCommand::Request(RequestCommand::DeclineElicitation)
        } else if self.requests.pending_perm is Some {
            KeyCommand::Request(RequestCommand::DeclinePermission)
        } else if self.loading {
            KeyCommand::CancelTurn
        } else {
            KeyCommand::Exit
        }
    }

    /// The keys of the prompt, the transcript and the completions.
    pub open spec fn prompt_command(self, press: KeyPress, catalog: CatalogModel) -> KeyCommand {
        let completing = self.prompt.completions(catalog).len() > 0;
        match press.key {
            Key::Char(_) | Key::Backspace | Key::Delete => KeyCommand::Prompt(PromptCommand::Edit),
            Key::Up => if press.shift() {
                if self.transcript.turns.len() > 1 {
                    KeyCommand::Transcript(TranscriptCommand::OlderTurn)
                } else {
                    KeyCommand::Ignore
                }
            } else if completing {
                KeyCommand::Prompt(PromptCommand::PreviousCompletion)
            } else if self.prompt.prompt_history.len() > 0 && (trimmed(self.prompt.input).len() == 0
                || self.prompt.history_cursor is Some) {
                KeyCommand::Prompt(PromptCommand::OlderPrompt)
            } else {
                KeyCommand::Transcript(TranscriptCommand::ScrollUp)
            },
            Key::Down => if press.shift() {
                KeyCommand::Transcript(TranscriptCommand::NewerTurn)
            } else if completing {
                KeyCommand::Prompt(PromptCommand::NextCompletion)
            } else if self.prompt.history_cursor is Some {
                KeyCommand::Prompt(PromptCommand::NewerPrompt)
            } else {
                KeyCommand::Transcript(TranscriptCommand::ScrollDown)
            },
            Key::Tab => if completing {
                KeyCommand::Prompt(PromptCommand::Complete)
            } else {
                KeyCommand::Transcript(TranscriptCommand::ToggleToolCall)
            },
            Key::Enter => if press.shift() {
                KeyCommand::Ignore
            } else if self.banner_visible {
                KeyCommand::SubmitFromSplash
            } else if self.transcript.view_turn_idx is None {
                KeyCommand::Submit
            } else {
                KeyCommand::Ignore
            },
            _ => KeyCommand::Ignore,
        }
    }

    /// What a key press asks for.
    pub open spec fn command(self, press: KeyPress, catalog: CatalogModel) -> KeyCommand {
        if press.released {
            KeyCommand::Ignore
        } else if press.key == Key::Esc {
            self.escape_command()
        } else if press.key == Key::Char('c') && press.control() {
            self.interrupt_command()
        } else if press.key == Key::Char('z') && press.control() && self.links.job_control {
            KeyCommand::Suspend
        } else if self.dialogs.ext_visible {
            match press.key {
                Key::Up => KeyCommand::Dialog(DialogCommand::PreviousExtension),
                Key::Down => KeyCommand::Dialog(DialogCommand::NextExtension),
                Key::Char(' ') | Key::Enter => KeyCommand::Dialog(DialogCommand::ToggleExtension),
                _ => KeyCommand::Ignore,
            }
        } else if self.dialogs.model_visible {
            match press.key {
                Key::Up => KeyCommand::Dialog(DialogCommand::PreviousModel),
                Key::Down => KeyCommand::Dialog(DialogCommand::NextModel),
                Key::Enter => KeyCommand::Dialog(DialogCommand::PickModel),
                _ => KeyCommand::Ignore,
            }
        } else if press.key == Key::BackTab {
            KeyCommand::CycleMode
        } else if self.requests.pending_perm is Some {
            match press.key {
                Key::Up => KeyCommand::Request(RequestCommand::PreviousOption),
                Key::Down => KeyCommand::Request(RequestCommand::NextOption),
                Key::Enter => KeyCommand::Request(RequestCommand::AcceptOption),
                Key::Char(c) => KeyCommand::Request(RequestCommand::OptionShortcut(c)),
                _ => KeyCommand::Ignore,
            }
        } else if press.key == Key::Enter && !press.shift()
            && self.requests.pending_elicit is Some {
            KeyCommand::Request(RequestCommand::AnswerElicitation)
        } else {
            self.prompt_command(press, catalog)
        }
    }
}

impl AppState {
    /// Escape closes a dialog or stops the turn.
    fn escape_command(&self) -> (res: KeyCommand)
        ensures
            res == self@.escape_command(),
    {
        if self.dialogs.ext_visible {
            KeyCommand::Dialog(DialogCommand::CloseExtensions)
        } else if self.dialogs.model_visible {
            KeyCommand::Dialog(DialogCommand::CloseModels)
        } else if self.requests.pending_elicit.is_some() {
            KeyCommand::Request(RequestCommand::DeclineElicitation)
        } else if self.requests.pending_perm.is_some() {
            KeyCommand::Request(RequestCommand::DeclinePermission)
        } else if self.loading {
            KeyCommand::CancelTurn
        } else {
            KeyCommand::Ignore
        }
    }

    /// Control-C refuses what the agent asks, stops the turn, or leaves.
    fn interrupt_command(&self) -> (res: KeyCommand)
        ensures
            res == self@.interrupt_command(),
    {
        if self.requests.pending_elicit.is_some() {
            KeyCommand::Request(RequestCommand::DeclineElicitation)
        } else if self.requests.pending_perm.is_some() {
            KeyCommand::Request(RequestCommand::DeclinePermission)
        } else if self.loading {
            KeyCommand::CancelTurn
        } else {
            KeyCommand::Exit
        }
    }

    /// The keys of the prompt, the transcript and the completions.
    fn prompt_command(&self, press: KeyPress, catalog: &CommandCatalog) -> (res: KeyCommand)
        ensures
            res == self@.prompt_command(press, catalog.deep_view()),
    {
        match press.key {
            Key::Char(_) | Key::Backspace | Key::Delete => KeyCommand::Prompt(PromptCommand::Edit),
            Key::Up => {
                if press.has_shift() {
                    if self.transcript.turns.len() > 1 {
                        KeyCommand::Transcript(TranscriptCommand::OlderTurn)
                    } else {
                        KeyCommand::Ignore
                    }
                } else if self.prompt.is_completing(catalog) {
                    KeyCommand::Prompt(PromptCommand::PreviousCompletion)
                } else if self.prompt.prompt_history.len() > 0
                    && (self.prompt.input.as_str().trim().is_empty()
                    || self.prompt.history_cursor.is_some()) {
                    KeyCommand::Prompt(PromptCommand::OlderPrompt)
                } else {
                    KeyCommand::Transcript(TranscriptCommand::ScrollUp)
                }
            },
            Key::Down => {
                if press.has_shift() {
                    KeyCommand::Transcript(TranscriptCommand::NewerTurn)
                } else if self.prompt.is_completing(catalog) {
                    KeyCommand::Prompt(PromptCommand::NextCompletion)
                } else if self.prompt.history_cursor.is_some() {
                    KeyCommand::Prompt(PromptCommand::NewerPrompt)
                } else {
                    KeyCommand::Transcript(TranscriptCommand::ScrollDown)
                }
            },
            Key::Tab => {
                if self.prompt.is_completing(catalog) {
                    KeyCommand::Prompt(PromptCommand::Complete)
                } else {
                    KeyCommand::Transcript(TranscriptCommand::ToggleToolCall)
                }
            },
            Key::Enter => {
                if press.has_shift() {
                    KeyCommand::Ignore
                } else if self.banner_visible {
                    KeyCommand::SubmitFromSplash
                } else if self.transcript.view_turn_idx.is_none() {
                    KeyCommand::Submit
                } else {
                    KeyCommand::Ignore
                }
            },
            _ => KeyCommand::Ignore,
        }
    }

    /// What a key press asks for.
    pub fn command(&self, press: KeyPress, catalog: &CommandCatalog) -> (res: KeyCommand)
        ensures
            res == self@.command(press, catalog.deep_view()),
    {
        if press.released {
            return KeyCommand::Ignore;
        }
        if press.key == Key::Esc {
            return self.escape_command();
        }
        if press.key == Key::Char('c') && press.has_control() {
            return self.interrupt_command();
        }
        if press.key == Key::Char('z') && press.has_control() && self.links.job_control {
            return KeyCommand::Suspend;
        }
        if self.dialogs.ext_visible {
            return match press.key {
                Key::Up => KeyCommand::Dialog(DialogCommand::PreviousExtension),
                Key::Down => KeyCommand::Dialog(DialogCommand::NextExtension),
                Key::Char(' ') | Key::Enter => KeyCommand::Dialog(DialogCommand::ToggleExtension),
                _ => KeyCommand::Ignore,
            };
        }
        if self.dialogs.model_visible {
            return match press.key {
                Key::Up => KeyCommand::Dialog(DialogCommand::PreviousModel),
                Key::Down => KeyCommand::Dialog(DialogCommand::NextModel),
                Key::Enter => KeyCommand::Dialog(DialogCommand::PickModel),
                _ => KeyCommand::Ignore,
            };
        }
        if press.key == Key::BackTab {
            return KeyCommand::CycleMode;
        }
        if self.requests.pending_perm.is_some() {
            return match press.key {
                Key::Up => KeyCommand::Request(RequestCommand::PreviousOption),
                Key::Down => KeyCommand::Request(RequestCommand::NextOption),
                Key::Enter => KeyCommand::Request(RequestCommand::AcceptOption),
                Key::Char(c) => KeyCommand::Request(RequestCommand::OptionShortcut(c)),
                _ => KeyCommand::Ignore,
            };
        }
        if press.key == Key::Enter && !press.has_shift() && self.requests.pending_elicit.is_some() {
            return KeyCommand::Request(RequestCommand::AnswerElicitation);
        }
        self.prompt_command(press, catalog)
    }
}

} // verus!
