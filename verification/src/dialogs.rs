//! The extension dialog and the model dialog.

use vstd::prelude::*;

use crate::selection::{next, next_of, previous, previous_of};
use crate::types::{CtrlModel, CtrlMsg, ExtensionEntry, ExtensionModel, ModelInfo, ModelInfoModel};

verus! {

/// A command of one of the two dialogs.
#[derive(Clone, Copy, Debug, PartialEq, Eq, Structural)]
pub enum DialogCommand {
    CloseExtensions,
    CloseModels,
    PreviousExtension,
    NextExtension,
    /// Turn the selected extension on or off.
    ToggleExtension,
    PreviousModel,
    NextModel,
    /// Use the selected model.
    PickModel,
}

/// What the two dialogs show, whether they are open, and what is selected.
#[derive(Debug)]
pub struct DialogState {
    pub ext_visible: bool,
    pub ext_entries: Vec<ExtensionEntry>,
    pub ext_idx: usize,
    pub model_visible: bool,
    pub model_entries: Vec<ModelInfo>,
    pub model_idx: usize,
}

/// The model of [`DialogState`].
#[verifier::ext_equal]
pub struct DialogModel {
    pub ext_visible: bool,
    pub ext_entries: Seq<ExtensionModel>,
    pub ext_idx: usize,
    pub model_visible: bool,
    pub model_entries: Seq<ModelInfoModel>,
    pub model_idx: usize,
}

impl View for DialogState {
    type V = DialogModel;

    open spec fn view(&self) -> DialogModel {
        DialogModel {
            ext_visible: self.ext_visible,
            ext_entries: self.ext_entries.deep_view(),
            ext_idx: self.ext_idx,
            model_visible: self.model_visible,
            model_entries: self.model_entries.deep_view(),
            model_idx: self.model_idx,
        }
    }
}

impl DialogModel {
    /// Both dialogs closed, with nothing in them.
    pub open spec fn initial() -> DialogModel {
        DialogModel {
            ext_visible: false,
            ext_entries: Seq::empty(),
            ext_idx: 0,
            model_visible: false,
            model_entries: Seq::empty(),
            model_idx: 0,
        }
    }

    /// The extension dialog open, at its first entry.
    pub open spec fn extensions_opened(self) -> DialogModel {
        DialogModel { ext_idx: 0, ext_visible: true, ..self }
    }

    /// The model dialog open, at its first entry.
    pub open spec fn models_opened(self) -> DialogModel {
        DialogModel { model_idx: 0, model_visible: true, ..self }
    }

    /// The selection of the extension dialog goes to `idx`, unless there is nothing
    /// to select.
    pub open spec fn extension_selected(self, idx: int) -> DialogModel {
        if self.ext_entries.len() > 0 {
            DialogModel { ext_idx: idx as usize, ..self }
        } else {
            self
        }
    }

    /// The selection of the model dialog goes to `idx`, unless there is nothing to
    /// select.
    pub open spec fn model_selected(self, idx: int) -> DialogModel {
        if self.model_entries.len() > 0 {
            DialogModel { model_idx: idx as usize, ..self }
        } else {
            self
        }
    }

    /// The dialogs after a command.
    pub open spec fn performed(self, command: DialogCommand) -> DialogModel {
        match command {
            DialogCommand::CloseExtensions => DialogModel { ext_visible: false, ..self },
            DialogCommand::CloseModels | DialogCommand::PickModel => DialogModel {
                model_visible: false,
                ..self
            },
            DialogCommand::PreviousExtension => self.extension_selected(
                previous_of(self.ext_idx as int, self.ext_entries.len() as int),
            ),
            DialogCommand::NextExtension => self.extension_selected(
                next_of(self.ext_idx as int, self.ext_entries.len() as int),
            ),
            DialogCommand::ToggleExtension => self,
            DialogCommand::PreviousModel => self.model_selected(
                previous_of(self.model_idx as int, self.model_entries.len() as int),
            ),
            DialogCommand::NextModel => self.model_selected(
                next_of(self.model_idx as int, self.model_entries.len() as int),
            ),
        }
    }

    /// What a command asks of the control loop: to toggle the selected extension or
    /// to switch to the selected model. Where nothing is selected it asks nothing.
    pub open spec fn request(self, command: DialogCommand) -> Option<CtrlModel> {
        match command {
            DialogCommand::ToggleExtension => if self.ext_idx < self.ext_entries.len() {
                Some(CtrlModel::ToggleExt(self.ext_entries[self.ext_idx as int]))
            } else {
                None
            },
            DialogCommand::PickModel => if self.model_idx < self.model_entries.len() {
                Some(CtrlModel::SwitchModel(self.model_entries[self.model_idx as int].name))
            } else {
                None
            },
            _ => None,
        }
    }
}

impl DialogState {
    /// Both dialogs closed, with nothing in them.
    pub fn new() -> (res: DialogState)
        ensures
            res@ == DialogModel::initial(),
    {
        let res = DialogState {
            ext_visible: false,
            ext_entries: Vec::new(),
            ext_idx: 0,
            model_visible: false,
            model_entries: Vec::new(),
            model_idx: 0,
        };
        assert(res@ =~= DialogModel::initial());
        res
    }

    /// Opens the extension dialog.
    pub fn open_extensions(&mut self)
        ensures
            final(self)@ == old(self)@.extensions_opened(),
    {
        self.ext_idx = 0;
        self.ext_visible = true;
    }

    /// Opens the model dialog.
    pub fn open_models(&mut self)
        ensures
            final(self)@ == old(self)@.models_opened(),
    {
        self.model_idx = 0;
        self.model_visible = true;
    }

    fn selected_extension(&self) -> (res: Option<CtrlMsg>)
        ensures
            res.deep_view() == self@.request(DialogCommand::ToggleExtension),
    {
        if self.ext_idx < self.ext_entries.len() {
            Some(CtrlMsg::ToggleExt(self.ext_entries[self.ext_idx].clone()))
        } else {
            None
        }
    }

    fn selected_model(&self) -> (res: Option<CtrlMsg>)
        ensures
            res.deep_view() == self@.request(DialogCommand::PickModel),
    {
        if self.model_idx < self.model_entries.len() {
            Some(CtrlMsg::SwitchModel(self.model_entries[self.model_idx].name.clone()))
        } else {
            None
        }
    }

    /// Performs a command. The result is what it asks of the control loop.
    pub fn perform(&mut self, command: DialogCommand) -> (res: Option<CtrlMsg>)
        ensures
            final(self)@ == old(self)@.performed(command),
            res.deep_view() == old(self)@.request(command),
    {
        match command {
            DialogCommand::CloseExtensions => {
                self.ext_visible = false;
                None
            },
            DialogCommand::CloseModels => {
                self.model_visible = false;
                None
            },
            DialogCommand::PreviousExtension => {
                if self.ext_entries.len() > 0 {
                    self.ext_idx = previous(self.ext_idx, self.ext_entries.len());
                }
                None
            },
            DialogCommand::NextExtension => {
                if self.ext_entries.len() > 0 {
                    self.ext_idx = next(self.ext_idx, self.ext_entries.len());
                }
                None
            },
            DialogCommand::ToggleExtension => self.selected_extension(),
            DialogCommand::PreviousModel => {
                if self.model_entries.len() > 0 {
                    self.model_idx = previous(self.model_idx, self.model_entries.len());
                }
                None
            },
            DialogCommand::NextModel => {
                if self.model_entries.len() > 0 {
                    self.model_idx = next(self.model_idx, self.model_entries.len());
                }
                None
            },
            DialogCommand::PickModel => {
                let msg: Option<CtrlMsg> = self.selected_model();
                self.model_visible = false;
                msg
            },
        }
    }
}

} // verus!
