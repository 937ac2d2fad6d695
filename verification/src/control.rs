//! The control loop: changing the mode, the extensions and the model.
//!
//! A message of the keyboard is worked off in steps. Each step is something to do
//! outside; whether it went well decides what comes next and what changes.

use vstd::prelude::*;

use crate::state::{AppModel, AppState, SessionModel};
use crate::types::{CtrlModel, CtrlMsg, GooseMode};

verus! {

/// The next thing to do for a message.
///
/// What a later step needs travels along. `PersistExtension` carries whether an
/// agent runs that has to be told of the change.
#[derive(Debug, PartialEq, Eq)]
pub enum ControlStep {
    /// Ask the agent to work in another mode.
    UpdateMode { mode: GooseMode, session_id: String },
    /// Write to the configuration whether an extension is on.
    PersistExtension {
        key: String,
        name: String,
        enabled: bool,
        agent: bool,
        session_id: String,
    },
    /// Let the running agent use an extension.
    AddExtension { key: String, session_id: String },
    /// Take an extension from the running agent.
    RemoveExtension { name: String, session_id: String },
    /// Read the list of extensions for the dialog.
    ListExtensions,
    /// Read which extensions the agent uses.
    CollectExtensions { model: String, provider: String, session_id: String },
    /// Make a configuration for the model.
    ConfigureModel { model: String, provider: String, session_id: String },
    /// Create a provider with that configuration and those extensions.
    CreateProvider { model: String, provider: String, session_id: String },
    /// Ask the agent to use that provider.
    UpdateProvider { model: String, session_id: String },
    /// Nothing is left to do.
    Done,
}

/// The model of a [`ControlStep`].
#[verifier::ext_equal]
pub enum ControlStepModel {
    UpdateMode { mode: GooseMode, session_id: Seq<char> },
    PersistExtension {
        key: Seq<char>,
        name: Seq<char>,
        enabled: bool,
        agent: bool,
        session_id: Seq<char>,
    },
    AddExtension { key: Seq<char>, session_id: Seq<char> },
    RemoveExtension { name: Seq<char>, session_id: Seq<char> },
    ListExtensions,
    CollectExtensions { model: Seq<char>, provider: Seq<char>, session_id: Seq<char> },
    ConfigureModel { model: Seq<char>, provider: Seq<char>, session_id: Seq<char> },
    CreateProvider { model: Seq<char>, provider: Seq<char>, session_id: Seq<char> },
    UpdateProvider { model: Seq<char>, session_id: Seq<char> },
    Done,
}

impl DeepView for ControlStep {
    type V = ControlStepModel;

    open spec fn deep_view(&self) -> ControlStepModel {
        match self {
            ControlStep::UpdateMode { mode, session_id } => ControlStepModel::UpdateMode {
                mode: *mode,
                session_id: session_id@,
            },
            ControlStep::PersistExtension { key, name, enabled, agent, session_id } => {
                ControlStepModel::PersistExtension {
                    key: key@,
                    name: name@,
                    enabled: *enabled,
                    agent: *agent,
                    session_id: session_id@,
                }
            },
            ControlStep::AddExtension { key, session_id } => ControlStepModel::AddExtension {
                key: key@,
                session_id: session_id@,
            },
            ControlStep::RemoveExtension { name, session_id } => ControlStepModel::RemoveExtension {
                name: name@,
                session_id: session_id@,
            },
            ControlStep::ListExtensions => ControlStepModel::ListExtensions,
            ControlStep::CollectExtensions { model, provider, session_id } => {
                ControlStepModel::CollectExtensions {
                    model: model@,
                    provider: provider@,
                    session_id: session_id@,
                }
            },
            ControlStep::ConfigureModel { model, provider, session_id } => {
                ControlStepModel::ConfigureModel {
                    model: model@,
                    provider: provider@,
                    session_id: session_id@,
                }
            },
            ControlStep::CreateProvider { model, provider, session_id } => {
                ControlStepModel::CreateProvider {
                    model: model@,
                    provider: provider@,
                    session_id: session_id@,
                }
            },
            ControlStep::UpdateProvider { model, session_id } => ControlStepModel::UpdateProvider {
                model: model@,
                session_id: session_id@,
            },
            ControlStep::Done => ControlStepModel::Done,
        }
    }
}

/// What comes after a step that went well or not.
///
/// An extension is listed again whether or not the agent took the change. A model
/// is switched only as long as everything goes well.
pub open spec fn step_after(step: ControlStepModel, ok: bool) -> ControlStepModel {
    match step {
        ControlStepModel::PersistExtension { key, name, enabled, agent, session_id } => if !agent {
            ControlStepModel::ListExtensions
        } else if enabled {
            ControlStepModel::AddExtension { key, session_id }
        } else {
            ControlStepModel::RemoveExtension { name, session_id }
        },
        ControlStepModel::AddExtension { .. }
        | ControlStepModel::RemoveExtension { .. } => ControlStepModel::ListExtensions,
        ControlStepModel::CollectExtensions { model, provider, session_id } => {
            ControlStepModel::ConfigureModel { model, provider, session_id }
        },
        ControlStepModel::ConfigureModel { model, provider, session_id } if ok => {
            ControlStepModel::CreateProvider { model, provider, session_id }
        },
        ControlStepModel::CreateProvider { model, provider, session_id } if ok => {
            ControlStepModel::UpdateProvider { model, session_id }
        },
        _ => ControlStepModel::Done,
    }
}

impl AppModel {
    /// The first thing to do for a message. Without an agent neither the mode nor
    /// the model can change.
    pub open spec fn first_step(self, msg: CtrlModel) -> ControlStepModel {
        let session_id = self.session.session_id;
        match msg {
            CtrlModel::SetMode(mode) => if self.links.agent_ready {
                ControlStepModel::UpdateMode { mode, session_id }
            } else {
                ControlStepModel::Done
            },
            CtrlModel::ToggleExt(entry) => ControlStepModel::PersistExtension {
                key: entry.key,
                name: entry.name,
                enabled: !entry.enabled,
                agent: self.links.agent_ready,
                session_id,
            },
            CtrlModel::SwitchModel(model) => if self.links.agent_ready {
                ControlStepModel::CollectExtensions {
                    model,
                    provider: self.session.provider_name,
                    session_id,
                }
            } else {
                ControlStepModel::Done
            },
        }
    }

    /// The state after a step. The mode and the model change when the agent has
    /// taken them.
    pub open spec fn stepped(self, step: ControlStepModel, ok: bool) -> AppModel {
        match step {
            ControlStepModel::UpdateMode { mode, session_id } if ok => AppModel {
                session: SessionModel { goose_mode: mode, ..self.session },
                ..self
            },
            ControlStepModel::UpdateProvider { model, session_id } if ok => AppModel {
                session: SessionModel { current_model: model, ..self.session },
                ..self
            },
            _ => self,
        }
    }
}

/// What comes after a step that went well or not.
fn next_step(step: ControlStep, ok: bool) -> (res: ControlStep)
    ensures
        res.deep_view() == step_after(step.deep_view(), ok),
{
    match step {
        ControlStep::PersistExtension { key, name, enabled, agent, session_id } => {
            if !agent {
                ControlStep::ListExtensions
            } else if enabled {
                ControlStep::AddExtension { key, session_id }
            } else {
                ControlStep::RemoveExtension { name, session_id }
            }
        },
        ControlStep::AddExtension { key: _, session_id: _ } => ControlStep::ListExtensions,
        ControlStep::RemoveExtension { name: _, session_id: _ } => ControlStep::ListExtensions,
        ControlStep::CollectExtensions { model, provider, session_id } => {
            ControlStep::ConfigureModel { model, provider, session_id }
        },
        ControlStep::ConfigureModel { model, provider, session_id } => {
            if ok {
                ControlStep::CreateProvider { model, provider, session_id }
            } else {
                ControlStep::Done
            }
        },
        ControlStep::CreateProvider { model, provider: _, session_id } => {
            if ok {
                ControlStep::UpdateProvider { model, session_id }
            } else {
                ControlStep::Done
            }
        },
        _ => ControlStep::Done,
    }
}

impl AppState {
    /// The first thing to do for a message.
    pub fn begin_control(&self, msg: CtrlMsg) -> (res: ControlStep)
        ensures
            res.deep_view() == self@.first_step(msg.deep_view()),
    {
        let session_id: String = self.session.session_id.clone();
        match msg {
            CtrlMsg::SetMode(mode) => {
                if self.links.agent_ready {
                    ControlStep::UpdateMode { mode, session_id }
                } else {
                    ControlStep::Done
                }
            },
            CtrlMsg::ToggleExt(entry) => ControlStep::PersistExtension {
                key: entry.key,
                name: entry.name,
                enabled: !entry.enabled,
                agent: self.links.agent_ready,
                session_id,
            },
            CtrlMsg::SwitchModel(model) => {
                if self.links.agent_ready {
                    ControlStep::CollectExtensions {
                        model,
                        provider: self.session.provider_name.clone(),
                        session_id,
                    }
                } else {
                    ControlStep::Done
                }
            },
        }
    }

    fn take_step(&mut self, step: &ControlStep, ok: bool)
        requires
            old(self)@.wf(),
        ensures
            final(self)@ == old(self)@.stepped(step.deep_view(), ok),
            final(self)@.wf(),
    {
        if !ok {
            return;
        }
        match step {
            ControlStep::UpdateMode { mode, session_id: _ } => {
                self.session.goose_mode = *mode;
            },
            ControlStep::UpdateProvider { model, session_id: _ } => {
                self.session.current_model = model.clone();
            },
            _ => {},
        }
    }

    /// A step is done, and went well or not. The result is what comes next.
    pub fn advance_control(&mut self, step: ControlStep, ok: bool) -> (res: ControlStep)
        requires
            old(self)@.wf(),
        ensures
            final(self)@ == old(self)@.stepped(step.deep_view(), ok),
            res.deep_view() == step_after(step.deep_view(), ok),
            final(self)@.wf(),
    {
        self.take_step(&step, ok);
        next_step(step, ok)
    }
}

} // verus!
