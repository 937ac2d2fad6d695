//! The state of the client.

use vstd::prelude::*;

use crate::dialogs::{DialogModel, DialogState};
use crate::prompt::{PromptModel, PromptState};
use crate::requests::{RequestModel, RequestState};
use crate::text::owned;
use crate::transcript::{TranscriptModel, TranscriptState};
use crate::types::{ExtensionEntry, ExtensionModel, GooseMode};

verus! {

/// How many pictures the spinner has.
pub const SPINNER_FRAMES: usize = 4;

/// What is known of the session with the agent.
#[derive(Debug)]
pub struct SessionState {
    pub working_dir: String,
    pub token_total: i64,
    pub session_id: String,
    pub goose_mode: GooseMode,
    pub current_model: String,
    pub provider_name: String,
}

/// The model of [`SessionState`].
pub struct SessionModel {
    pub working_dir: Seq<char>,
    pub token_total: i64,
    pub session_id: Seq<char>,
    pub goose_mode: GooseMode,
    pub current_model: Seq<char>,
    pub provider_name: Seq<char>,
}

impl View for SessionState {
    type V = SessionModel;

    open spec fn view(&self) -> SessionModel {
        SessionModel {
            working_dir: self.working_dir@,
            token_total: self.token_total,
            session_id: self.session_id@,
            goose_mode: self.goose_mode,
            current_model: self.current_model@,
            provider_name: self.provider_name@,
        }
    }
}

impl SessionModel {
    /// Nothing is known but a mode.
    pub open spec fn initial(mode: GooseMode) -> SessionModel {
        SessionModel {
            working_dir: Seq::empty(),
            token_total: 0,
            session_id: Seq::empty(),
            goose_mode: mode,
            current_model: Seq::empty(),
            provider_name: Seq::empty(),
        }
    }
}

/// Which ways out there are: the channel for prompts, the channel for cancellation
/// tokens, the channel to the control loop, the agent itself, and whether the
/// process can be put into the background from the keyboard.
#[derive(Clone, Copy, Debug, PartialEq, Eq, Structural)]
pub struct Links {
    pub prompt_ready: bool,
    pub cancel_ready: bool,
    pub control_ready: bool,
    pub agent_ready: bool,
    pub job_control: bool,
}

/// Everything that the client remembers.
#[derive(Debug)]
pub struct AppState {
    pub should_exit: bool,
    pub loading: bool,
    pub status: String,
    pub banner_visible: bool,
    pub spin_idx: usize,
    pub anim_frame: usize,
    pub prompt: PromptState,
    pub transcript: TranscriptState,
    pub dialogs: DialogState,
    pub requests: RequestState,
    pub session: SessionState,
    pub links: Links,
}

/// The model of [`AppState`].
pub struct AppModel {
    pub should_exit: bool,
    pub loading: bool,
    pub status: Seq<char>,
    pub banner_visible: bool,
    pub spin_idx: usize,
    pub anim_frame: usize,
    pub prompt: PromptModel,
    pub transcript: TranscriptModel,
    pub dialogs: DialogModel,
    pub requests: RequestModel,
    pub session: SessionModel,
    pub links: Links,
}

impl View for AppState {
    type V = AppModel;

    open spec fn view(&self) -> AppModel {
        AppModel {
            should_exit: self.should_exit,
            loading: self.loading,
            status: self.status@,
            banner_visible: self.banner_visible,
            spin_idx: self.spin_idx,
            anim_frame: self.anim_frame,
            prompt: self.prompt@,
            transcript: self.transcript@,
            dialogs: self.dialogs@,
            requests: self.requests@,
            session: self.session@,
            links: self.links,
        }
    }
}

impl AppModel {
    /// What holds of the state at all times.
    pub open spec fn wf(self) -> bool {
        &&& self.spin_idx < SPINNER_FRAMES
        &&& self.prompt.wf()
        &&& self.transcript.wf()
        &&& self.requests.wf()
    }

    /// The state at the start.
    pub open spec fn initial(mode: GooseMode, job_control: bool) -> AppModel {
        AppModel {
            should_exit: false,
            loading: true,
            status: "connecting…"@,
            banner_visible: false,
            spin_idx: 0,
            anim_frame: 0,
            prompt: PromptModel::initial(),
            transcript: TranscriptModel::initial(),
            dialogs: DialogModel::initial(),
            requests: RequestModel::initial(),
            session: SessionModel::initial(mode),
            links: Links {
                prompt_ready: false,
                cancel_ready: false,
                control_ready: false,
                agent_ready: false,
                job_control,
            },
        }
    }

    /// The state after one tick of the animation.
    pub open spec fn ticked(self) -> AppModel {
        AppModel {
            spin_idx: ((self.spin_idx + 1) % SPINNER_FRAMES as int) as usize,
            anim_frame: (self.anim_frame + 1) as usize,
            ..self
        }
    }

    /// The user edited the prompt.
    pub open spec fn prompt_typed(self, text: Seq<char>) -> AppModel {
        AppModel { prompt: self.prompt.typed(text), ..self }
    }

    /// The user edited the answer to an elicitation.
    pub open spec fn answer_typed(self, text: Seq<char>) -> AppModel {
        AppModel { requests: self.requests.typed(text), ..self }
    }

    /// The list of extensions was read anew.
    pub open spec fn extensions_listed(self, entries: Seq<ExtensionModel>) -> AppModel {
        AppModel { dialogs: DialogModel { ext_entries: entries, ..self.dialogs }, ..self }
    }
}

impl AppState {
    /// The state at the start.
    pub fn new(mode: GooseMode, job_control: bool) -> (res: AppState)
        ensures
            res@ == AppModel::initial(mode, job_control),
            res@.wf(),
    {
        AppState {
            should_exit: false,
            loading: true,
            status: owned("connecting…"),
            banner_visible: false,
            spin_idx: 0,
            anim_frame: 0,
            prompt: PromptState::new(),
            transcript: TranscriptState::new(),
            dialogs: DialogState::new(),
            requests: RequestState::new(),
            session: SessionState {
                working_dir: String::new(),
                token_total: 0,
                session_id: String::new(),
                goose_mode: mode,
                current_model: String::new(),
                provider_name: String::new(),
            },
            links: Links {
                prompt_ready: false,
                cancel_ready: false,
                control_ready: false,
                agent_ready: false,
                job_control,
            },
        }
    }

    /// One tick of the animation: the spinner goes round, the splash goes on.
    pub fn on_tick(&mut self)
        requires
            old(self)@.wf(),
            old(self)@.anim_frame < usize::MAX,
        ensures
            final(self)@ == old(self)@.ticked(),
            final(self)@.wf(),
    {
        self.spin_idx = (self.spin_idx + 1) % SPINNER_FRAMES;
        self.anim_frame = self.anim_frame + 1;
    }

    /// The user edited the prompt.
    pub fn set_input(&mut self, text: String)
        requires
            old(self)@.wf(),
        ensures
            final(self)@ == old(self)@.prompt_typed(text@),
            final(self)@.wf(),
    {
        self.prompt.input = text;
    }

    /// The user edited the answer to an elicitation.
    pub fn set_elicit_input(&mut self, text: String)
        requires
            old(self)@.wf(),
        ensures
            final(self)@ == old(self)@.answer_typed(text@),
            final(self)@.wf(),
    {
        self.requests.elicit_input = text;
    }

    /// The list of extensions was read anew.
    pub fn set_extensions(&mut self, entries: Vec<ExtensionEntry>)
        requires
            old(self)@.wf(),
        ensures
            final(self)@ == old(self)@.extensions_listed(entries.deep_view()),
            final(self)@.wf(),
    {
        self.dialogs.ext_entries = entries;
    }
}

} // verus!
