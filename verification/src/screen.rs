//! What the screen shows.

use vstd::prelude::*;

use crate::completion::{completions, slash_completions, CatalogModel, CommandCatalog};
use crate::state::{AppModel, AppState};
use crate::text::repeated;
use crate::turn_view::{TurnViewModel, TurnViewProps};
use crate::types::{
    AppProps, AppPropsModel, ElicitationModel, ElicitationReq, ExtensionEntry, ExtensionModel,
    GooseMode, ModelInfo, ModelInfoModel, PermissionModel, PermissionReq, Turn, TurnModel,
};

verus! {

/// How many columns the margins take on both sides together.
pub const MARGIN: u16 = 4;

/// The splash screen.
#[derive(Debug, PartialEq, Eq)]
pub struct SplashView {
    pub status: String,
    pub anim_frame: usize,
    pub show_input: bool,
}

/// The model of a [`SplashView`].
#[verifier::ext_equal]
pub struct SplashModel {
    pub status: Seq<char>,
    pub anim_frame: usize,
    pub show_input: bool,
}

impl DeepView for SplashView {
    type V = SplashModel;

    open spec fn deep_view(&self) -> SplashModel {
        SplashModel {
            status: self.status@,
            anim_frame: self.anim_frame,
            show_input: self.show_input,
        }
    }
}

/// The header. `turn_info` is the number of the turn shown and the number of turns,
/// where there is more than one.
#[derive(Debug, PartialEq, Eq)]
pub struct HeaderView {
    pub status: String,
    pub loading: bool,
    pub spin_idx: usize,
    pub turn_info: Option<(usize, usize)>,
    pub working_dir: String,
    pub token_total: i64,
    pub goose_mode: GooseMode,
}

/// The model of a [`HeaderView`].
#[verifier::ext_equal]
pub struct HeaderModel {
    pub status: Seq<char>,
    pub loading: bool,
    pub spin_idx: usize,
    pub turn_info: Option<(usize, usize)>,
    pub working_dir: Seq<char>,
    pub token_total: i64,
    pub goose_mode: GooseMode,
}

impl DeepView for HeaderView {
    type V = HeaderModel;

    open spec fn deep_view(&self) -> HeaderModel {
        HeaderModel {
            status: self.status@,
            loading: self.loading,
            spin_idx: self.spin_idx,
            turn_info: self.turn_info,
            working_dir: self.working_dir@,
            token_total: self.token_total,
            goose_mode: self.goose_mode,
        }
    }
}

/// The dialogs that are open, each with its selection.
#[derive(Debug, PartialEq, Eq)]
pub struct DialogsView {
    pub permission: Option<(PermissionReq, usize)>,
    pub elicitation: Option<ElicitationReq>,
    pub models: Option<ModelsView>,
    pub extensions: Option<(Vec<ExtensionEntry>, usize)>,
}

/// The model dialog.
#[derive(Debug, PartialEq, Eq)]
pub struct ModelsView {
    pub models: Vec<ModelInfo>,
    pub current_model: String,
    pub selected_idx: usize,
}

/// The model of a [`ModelsView`].
#[verifier::ext_equal]
pub struct ModelsModel {
    pub models: Seq<ModelInfoModel>,
    pub current_model: Seq<char>,
    pub selected_idx: usize,
}

/// The model of a [`DialogsView`].
#[verifier::ext_equal]
pub struct DialogsModel {
    pub permission: Option<(PermissionModel, usize)>,
    pub elicitation: Option<ElicitationModel>,
    pub models: Option<ModelsModel>,
    pub extensions: Option<(Seq<ExtensionModel>, usize)>,
}

impl DeepView for ModelsView {
    type V = ModelsModel;

    open spec fn deep_view(&self) -> ModelsModel {
        ModelsModel {
            models: self.models.deep_view(),
            current_model: self.current_model@,
            selected_idx: self.selected_idx,
        }
    }
}

impl DeepView for DialogsView {
    type V = DialogsModel;

    open spec fn deep_view(&self) -> DialogsModel {
        DialogsModel {
            permission: self.permission.deep_view(),
            elicitation: self.elicitation.deep_view(),
            models: self.models.deep_view(),
            extensions: self.extensions.deep_view(),
        }
    }
}

/// What stands below the transcript: the note that an earlier turn is shown, with a
/// rule, its number and the number of turns; the prompts that wait; the completions
/// with the selected one; and the input bar, with whether prompts wait.
#[derive(Debug, PartialEq, Eq)]
pub struct FooterView {
    pub history: Option<(String, (usize, usize))>,
    pub queued: Vec<String>,
    pub completions: Option<(Vec<(String, String)>, usize)>,
    pub input_bar: Option<bool>,
}

/// The model of a [`FooterView`].
#[verifier::ext_equal]
pub struct FooterModel {
    pub history: Option<(Seq<char>, (usize, usize))>,
    pub queued: Seq<Seq<char>>,
    pub completions: Option<(Seq<(Seq<char>, Seq<char>)>, usize)>,
    pub input_bar: Option<bool>,
}

impl DeepView for FooterView {
    type V = FooterModel;

    open spec fn deep_view(&self) -> FooterModel {
        FooterModel {
            history: self.history.deep_view(),
            queued: self.queued.deep_view(),
            completions: self.completions.deep_view(),
            input_bar: self.input_bar,
        }
    }
}

/// The screen without the splash. `prompt` is the prompt of the turn that is shown,
/// `scrolled` tells whether the answer is scrolled up.
#[derive(Debug, PartialEq, Eq)]
pub struct MainView {
    pub width: u16,
    pub header: HeaderView,
    pub prompt: Option<String>,
    pub scrolled: bool,
    pub turn: TurnViewProps,
    pub dialogs: DialogsView,
    pub footer: FooterView,
}

/// The model of a [`MainView`].
#[verifier::ext_equal]
pub struct MainModel {
    pub width: u16,
    pub header: HeaderModel,
    pub prompt: Option<Seq<char>>,
    pub scrolled: bool,
    pub turn: TurnViewModel,
    pub dialogs: DialogsModel,
    pub footer: FooterModel,
}

impl DeepView for MainView {
    type V = MainModel;

    open spec fn deep_view(&self) -> MainModel {
        MainModel {
            width: self.width,
            header: self.header.deep_view(),
            prompt: self.prompt.deep_view(),
            scrolled: self.scrolled,
            turn: self.turn.deep_view(),
            dialogs: self.dialogs.deep_view(),
            footer: self.footer.deep_view(),
        }
    }
}

/// The screen: its size, whether the client leaves, and either the splash or the
/// rest.
#[derive(Debug, PartialEq, Eq)]
pub struct Screen {
    pub exit: bool,
    pub width: u16,
    pub height: u16,
    pub splash: Option<SplashView>,
    pub main: Option<MainView>,
}

/// The model of a [`Screen`].
#[verifier::ext_equal]
pub struct ScreenModel {
    pub exit: bool,
    pub width: u16,
    pub height: u16,
    pub splash: Option<SplashModel>,
    pub main: Option<MainModel>,
}

impl DeepView for Screen {
    type V = ScreenModel;

    open spec fn deep_view(&self) -> ScreenModel {
        ScreenModel {
            exit: self.exit,
            width: self.width,
            height: self.height,
            splash: self.splash.deep_view(),
            main: self.main.deep_view(),
        }
    }
}

impl AppModel {
    /// The turn that is shown.
    pub open spec fn current_turn(self) -> Option<TurnModel> {
        let at = self.transcript.shown_turn();
        if at < self.transcript.turns.len() {
            Some(self.transcript.turns[at])
        } else {
            None
        }
    }

    /// The number of the turn that is shown, counted from one, and the number of
    /// turns.
    pub open spec fn turn_numbers(self) -> (usize, usize) {
        (
            (self.transcript.shown_turn() + 1) as usize,
            self.transcript.turns.len() as usize,
        )
    }

    /// The splash screen.
    pub open spec fn splash(self, props: AppPropsModel) -> SplashModel {
        SplashModel {
            status: self.status,
            anim_frame: self.anim_frame,
            show_input: !self.loading && props.initial_prompt is None,
        }
    }

    /// The header.
    pub open spec fn header(self) -> HeaderModel {
        HeaderModel {
            status: self.status,
            loading: self.loading,
            spin_idx: self.spin_idx,
            turn_info: if self.transcript.turns.len() > 1 {
                Some(self.turn_numbers())
            } else {
                None
            },
            working_dir: self.session.working_dir,
            token_total: self.session.token_total,
            goose_mode: self.session.goose_mode,
        }
    }

    /// What there is to lay out of the turn that is shown.
    pub open spec fn turn_props(self, width: u16, height: u16) -> TurnViewModel {
        TurnViewModel {
            turn: self.current_turn(),
            expanded_tool_call: self.transcript.expanded_tc,
            active: !self.transcript.is_history() && self.loading,
            status: self.status,
            width,
            height,
            scroll_offset: self.transcript.scroll_offset,
        }
    }

    /// The dialogs that are open.
    pub open spec fn dialog_views(self) -> DialogsModel {
        DialogsModel {
            permission: match self.requests.pending_perm {
                Some(req) => Some((req, self.requests.perm_idx)),
                None => None,
            },
            elicitation: self.requests.pending_elicit,
            models: if self.dialogs.model_visible {
                Some(
                    ModelsModel {
                        models: self.dialogs.model_entries,
                        current_model: self.session.current_model,
                        selected_idx: self.dialogs.model_idx,
                    },
                )
            } else {
                None
            },
            extensions: if self.dialogs.ext_visible {
                Some((self.dialogs.ext_entries, self.dialogs.ext_idx))
            } else {
                None
            },
        }
    }

    /// Whether the user can write a prompt: the latest turn is shown, no dialog is
    /// open, and the client was not started for one prompt.
    pub open spec fn takes_input(self, props: AppPropsModel) -> bool {
        &&& !self.transcript.is_history()
        &&& self.requests.pending_perm is None
        &&& self.requests.pending_elicit is None
        &&& !self.dialogs.ext_visible
        &&& !self.dialogs.model_visible
        &&& props.initial_prompt is None
    }

    /// The completions and the selected one, where there are some and the user can
    /// write.
    pub open spec fn completion_popup(self, props: AppPropsModel, catalog: CatalogModel) -> Option<
        (Seq<(Seq<char>, Seq<char>)>, usize),
    > {
        let found = completions(self.prompt.input, catalog);
        if self.takes_input(props) && found.len() > 0 {
            Some((found, (self.prompt.completion_idx as int % found.len() as int) as usize))
        } else {
            None
        }
    }

    /// What stands below the transcript.
    pub open spec fn footer(
        self,
        props: AppPropsModel,
        term_width: u16,
        catalog: CatalogModel,
    ) -> FooterModel {
        FooterModel {
            history: if self.transcript.is_history() {
                Some((Seq::new(term_width as nat, |i: int| '─'), self.turn_numbers()))
            } else {
                None
            },
            queued: self.prompt.queue,
            completions: self.completion_popup(props, catalog),
            input_bar: if self.takes_input(props) {
                Some(self.prompt.queue.len() > 0)
            } else {
                None
            },
        }
    }

    /// The screen without the splash.
    pub open spec fn main_view(
        self,
        props: AppPropsModel,
        term_width: u16,
        term_height: u16,
        catalog: CatalogModel,
    ) -> MainModel {
        let width = (term_width - MARGIN) as u16;
        MainModel {
            width,
            header: self.header(),
            prompt: match self.current_turn() {
                Some(turn) => Some(turn.user_text),
                None => None,
            },
            scrolled: self.transcript.scroll_offset > 0,
            turn: self.turn_props(width, term_height),
            dialogs: self.dialog_views(),
            footer: self.footer(props, term_width, catalog),
        }
    }

    /// What the screen shows.
    pub open spec fn screen(
        self,
        props: AppPropsModel,
        term_width: u16,
        term_height: u16,
        catalog: CatalogModel,
    ) -> ScreenModel {
        ScreenModel {
            exit: self.should_exit,
            width: term_width,
            height: term_height,
            splash: if self.banner_visible {
                Some(self.splash(props))
            } else {
                None
            },
            main: if self.banner_visible {
                None
            } else {
                Some(self.main_view(props, term_width, term_height, catalog))
            },
        }
    }
}

impl AppState {
    fn current_turn(&self) -> (res: Option<Turn>)
        ensures
            res.deep_view() == self@.current_turn(),
    {
        let at: usize = self.transcript.shown_turn();
        if at < self.transcript.turns.len() {
            Some(self.transcript.turns[at].clone())
        } else {
            None
        }
    }

    fn turn_numbers(&self) -> (res: (usize, usize))
        requires
            self@.wf(),
            self@.transcript.turns.len() > 0,
        ensures
            res == self@.turn_numbers(),
    {
        assert(self@.transcript.turns.len() == self.transcript.turns.len());
        (self.transcript.shown_turn() + 1, self.transcript.turns.len())
    }

    fn splash(&self, props: &AppProps) -> (res: SplashView)
        ensures
            res.deep_view() == self@.splash(props.deep_view()),
    {
        SplashView {
            status: self.status.clone(),
            anim_frame: self.anim_frame,
            show_input: !self.loading && props.initial_prompt.is_none(),
        }
    }

    fn header(&self) -> (res: HeaderView)
        requires
            self@.wf(),
        ensures
            res.deep_view() == self@.header(),
    {
        HeaderView {
            status: self.status.clone(),
            loading: self.loading,
            spin_idx: self.spin_idx,
            turn_info: if self.transcript.turns.len() > 1 {
                Some(self.turn_numbers())
            } else {
                None
            },
            working_dir: self.session.working_dir.clone(),
            token_total: self.session.token_total,
            goose_mode: self.session.goose_mode,
        }
    }

    fn turn_props(&self, width: u16, height: u16) -> (res: TurnViewProps)
        ensures
            res.deep_view() == self@.turn_props(width, height),
    {
        TurnViewProps {
            turn: self.current_turn(),
            expanded_tool_call: self.transcript.expanded_tc.clone(),
            active: !self.transcript.is_history() && self.loading,
            status: self.status.clone(),
            width,
            height,
            scroll_offset: self.transcript.scroll_offset,
        }
    }

    fn models_view(&self) -> (res: ModelsView)
        ensures
            res.deep_view() == (ModelsModel {
                models: self@.dialogs.model_entries,
                current_model: self@.session.current_model,
                selected_idx: self@.dialogs.model_idx,
            }),
    {
        let models: Vec<ModelInfo> = self.dialogs.model_entries.clone();
        assert(models.deep_view() =~= self.dialogs.model_entries.deep_view());
        ModelsView {
            models,
            current_model: self.session.current_model.clone(),
            selected_idx: self.dialogs.model_idx,
        }
    }

    fn dialog_views(&self) -> (res: DialogsView)
        ensures
            res.deep_view() == self@.dialog_views(),
    {
        let permission: Option<(PermissionReq, usize)> = match &self.requests.pending_perm {
            Some(req) => Some((req.clone(), self.requests.perm_idx)),
            None => None,
        };
        let elicitation: Option<ElicitationReq> = match &self.requests.pending_elicit {
            Some(req) => Some(req.clone()),
            None => None,
        };
        let models: Option<ModelsView> = if self.dialogs.model_visible {
            Some(self.models_view())
        } else {
            None
        };
        let extensions: Option<(Vec<ExtensionEntry>, usize)> = if self.dialogs.ext_visible {
            let entries: Vec<ExtensionEntry> = self.dialogs.ext_entries.clone();
            assert(entries.deep_view() =~= self.dialogs.ext_entries.deep_view());
            Some((entries, self.dialogs.ext_idx))
        } else {
            None
        };
        DialogsView { permission, elicitation, models, extensions }
    }

    /// Whether the user can write a prompt.
    pub fn takes_input(&self, props: &AppProps) -> (res: bool)
        ensures
            res == self@.takes_input(props.deep_view()),
    {
        !self.transcript.is_history() && self.requests.pending_perm.is_none()
            && self.requests.pending_elicit.is_none() && !self.dialogs.ext_visible
            && !self.dialogs.model_visible && props.initial_prompt.is_none()
    }

    fn completion_popup(&self, props: &AppProps, catalog: &CommandCatalog) -> (res: Option<
        (Vec<(String, String)>, usize),
    >)
        ensures
            res.deep_view() == self@.completion_popup(props.deep_view(), catalog.deep_view()),
    {
        let found: Vec<(String, String)> = slash_completions(self.prompt.input.as_str(), catalog);
        assert(found.deep_view().len() == found.len());
        if self.takes_input(props) && found.len() > 0 {
            let at: usize = self.prompt.completion_idx % found.len();
            Some((found, at))
        } else {
            None
        }
    }

    fn queued(&self) -> (res: Vec<String>)
        ensures
            res.deep_view() == self@.prompt.queue,
    {
        let mut res: Vec<String> = Vec::new();
        let ghost all = self.prompt.queue.deep_view();
        let mut i: usize = 0;
        while i < self.prompt.queue.len()
            invariant
                i <= self.prompt.queue.len(),
                all == self.prompt.queue.deep_view(),
                res.deep_view() =~= all.take(i as int),
            decreases self.prompt.queue.len() - i,
        {
            let ghost before = res.deep_view();
            res.push(self.prompt.queue[i].clone());
            assert(res.deep_view() =~= before.push(all[i as int]));
            assert(all.take(i + 1) =~= all.take(i as int).push(all[i as int]));
            i += 1;
        }
        assert(all.take(i as int) =~= all);
        res
    }

    fn footer(&self, props: &AppProps, term_width: u16, catalog: &CommandCatalog) -> (res:
        FooterView)
        requires
            self@.wf(),
        ensures
            res.deep_view() == self@.footer(props.deep_view(), term_width, catalog.deep_view()),
    {
        let history: Option<(String, (usize, usize))> = if self.transcript.is_history() {
            Some((repeated('─', term_width as usize), self.turn_numbers()))
        } else {
            None
        };
        let queued: Vec<String> = self.queued();
        let completions: Option<(Vec<(String, String)>, usize)> = self.completion_popup(
            props,
            catalog,
        );
        let input_bar: Option<bool> = if self.takes_input(props) {
            Some(self.prompt.queue.len() > 0)
        } else {
            None
        };
        FooterView { history, queued, completions, input_bar }
    }

    fn main_view(
        &self,
        props: &AppProps,
        term_width: u16,
        term_height: u16,
        catalog: &CommandCatalog,
    ) -> (res: MainView)
        requires
            self@.wf(),
            term_width >= MARGIN,
        ensures
            res.deep_view() == self@.main_view(
                props.deep_view(),
                term_width,
                term_height,
                catalog.deep_view(),
            ),
    {
        let width: u16 = term_width - MARGIN;
        let prompt: Option<String> = match self.current_turn() {
            Some(turn) => Some(turn.user_text),
            None => None,
        };
        MainView {
            width,
            header: self.header(),
            prompt,
            scrolled: self.transcript.scroll_offset > 0,
            turn: self.turn_props(width, term_height),
            dialogs: self.dialog_views(),
            footer: self.footer(props, term_width, catalog),
        }
    }
}

/// What the screen shows in a terminal of the given size: the splash, or the
/// header, the turn that is shown, the open dialogs and the input bar.
#[allow(non_snake_case)]
pub fn App(
    props: &AppProps,
    state: &AppState,
    term_width: u16,
    term_height: u16,
    catalog: &CommandCatalog,
) -> (res: Screen)
    requires
        state@.wf(),
        state@.banner_visible || term_width >= MARGIN,
    ensures
        res.deep_view() == state@.screen(
            props.deep_view(),
            term_width,
            term_height,
            catalog.deep_view(),
        ),
{
    Screen {
        exit: state.should_exit,
        width: term_width,
        height: term_height,
        splash: if state.banner_visible {
            Some(state.splash(props))
        } else {
            None
        },
        main: if state.banner_visible {
            None
        } else {
            Some(state.main_view(props, term_width, term_height, catalog))
        },
    }
}

} // verus!
