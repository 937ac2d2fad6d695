//! The values that the client works on, each with its mathematical model.
//!
//! A model holds sequences of characters where the value holds strings. It is
//! the deep view of the value.

use vstd::prelude::*;

verus! {

/// How much the agent may do without asking.
#[derive(Clone, Copy, Debug, PartialEq, Eq, Structural)]
pub enum GooseMode {
    Auto,
    Approve,
    SmartApprove,
    Chat,
}

/// How far a tool call has come.
#[derive(Clone, Copy, Debug, PartialEq, Eq, Structural)]
pub enum ToolStatus {
    Pending,
    Running,
    Success,
    Error,
}

/// A tool call of the agent, as shown to the user.
#[derive(Debug, PartialEq, Eq)]
pub struct ToolCallInfo {
    pub id: String,
    pub title: String,
    pub status: ToolStatus,
    pub input_preview: Option<String>,
    pub output_preview: Option<String>,
}

/// The model of a [`ToolCallInfo`].
#[verifier::ext_equal]
pub struct ToolCallModel {
    pub id: Seq<char>,
    pub title: Seq<char>,
    pub status: ToolStatus,
    pub input_preview: Option<Seq<char>>,
    pub output_preview: Option<Seq<char>>,
}

impl DeepView for ToolCallInfo {
    type V = ToolCallModel;

    open spec fn deep_view(&self) -> ToolCallModel {
        ToolCallModel {
            id: self.id@,
            title: self.title@,
            status: self.status,
            input_preview: self.input_preview.deep_view(),
            output_preview: self.output_preview.deep_view(),
        }
    }
}

impl Clone for ToolCallInfo {
    fn clone(&self) -> (res: Self)
        ensures
            res.deep_view() == self.deep_view(),
    {
        ToolCallInfo {
            id: self.id.clone(),
            title: self.title.clone(),
            status: self.status,
            input_preview: self.input_preview.clone(),
            output_preview: self.output_preview.clone(),
        }
    }
}

/// A prompt of the user and what the agent made of it.
///
/// `agent_raw` is the answer as it came in, `agent_text` the answer as it is
/// shown. `tool_call_order` lists the ids of the tool calls, oldest first.
#[derive(Debug, PartialEq, Eq)]
pub struct Turn {
    pub user_text: String,
    pub agent_raw: String,
    pub agent_text: String,
    pub tool_calls: Vec<ToolCallInfo>,
    pub tool_call_order: Vec<String>,
}

/// The model of a [`Turn`].
#[verifier::ext_equal]
pub struct TurnModel {
    pub user_text: Seq<char>,
    pub agent_raw: Seq<char>,
    pub agent_text: Seq<char>,
    pub tool_calls: Seq<ToolCallModel>,
    pub tool_call_order: Seq<Seq<char>>,
}

impl DeepView for Turn {
    type V = TurnModel;

    open spec fn deep_view(&self) -> TurnModel {
        TurnModel {
            user_text: self.user_text@,
            agent_raw: self.agent_raw@,
            agent_text: self.agent_text@,
            tool_calls: self.tool_calls.deep_view(),
            tool_call_order: self.tool_call_order.deep_view(),
        }
    }
}

impl Clone for Turn {
    fn clone(&self) -> (res: Self)
        ensures
            res.deep_view() == self.deep_view(),
    {
        let res = Turn {
            user_text: self.user_text.clone(),
            agent_raw: self.agent_raw.clone(),
            agent_text: self.agent_text.clone(),
            tool_calls: self.tool_calls.clone(),
            tool_call_order: self.tool_call_order.clone(),
        };
        assert(res.tool_calls.deep_view() =~= self.tool_calls.deep_view());
        assert(res.tool_call_order.deep_view() =~= self.tool_call_order.deep_view());
        res
    }
}

impl TurnModel {
    /// A turn that holds a prompt and nothing else.
    pub open spec fn asked(text: Seq<char>) -> TurnModel {
        TurnModel {
            user_text: text,
            agent_raw: Seq::empty(),
            agent_text: Seq::empty(),
            tool_calls: Seq::empty(),
            tool_call_order: Seq::empty(),
        }
    }

    /// No id occurs twice, and the order lists exactly the calls that there are.
    pub open spec fn wf(self) -> bool {
        &&& self.tool_call_order.no_duplicates()
        &&& self.tool_calls.len() == self.tool_call_order.len()
        &&& forall|i: int|
            0 <= i < self.tool_calls.len() ==> (#[trigger] self.tool_calls[i]).id
                == self.tool_call_order[i]
    }
}

impl Turn {
    /// A turn that holds a prompt and nothing else.
    pub fn asked(text: String) -> (res: Turn)
        ensures
            res.deep_view() == TurnModel::asked(text@),
    {
        let res = Turn {
            user_text: text,
            agent_raw: String::new(),
            agent_text: String::new(),
            tool_calls: Vec::new(),
            tool_call_order: Vec::new(),
        };
        assert(res.tool_calls.deep_view() =~= Seq::<ToolCallModel>::empty());
        assert(res.tool_call_order.deep_view() =~= Seq::<Seq<char>>::empty());
        res
    }
}

/// One of the answers that a permission request allows.
#[derive(Debug, PartialEq, Eq)]
pub struct PermissionOption {
    pub id: String,
    pub label: String,
    pub key: char,
}

/// The model of a [`PermissionOption`].
#[verifier::ext_equal]
pub struct PermissionOptionModel {
    pub id: Seq<char>,
    pub label: Seq<char>,
    pub key: char,
}

impl DeepView for PermissionOption {
    type V = PermissionOptionModel;

    open spec fn deep_view(&self) -> PermissionOptionModel {
        PermissionOptionModel { id: self.id@, label: self.label@, key: self.key }
    }
}

impl Clone for PermissionOption {
    fn clone(&self) -> (res: Self)
        ensures
            res.deep_view() == self.deep_view(),
    {
        PermissionOption { id: self.id.clone(), label: self.label.clone(), key: self.key }
    }
}

/// The agent asks whether it may go on.
#[derive(Debug, PartialEq, Eq)]
pub struct PermissionReq {
    pub title: String,
    pub options: Vec<PermissionOption>,
}

/// The model of a [`PermissionReq`].
#[verifier::ext_equal]
pub struct PermissionModel {
    pub title: Seq<char>,
    pub options: Seq<PermissionOptionModel>,
}

impl DeepView for PermissionReq {
    type V = PermissionModel;

    open spec fn deep_view(&self) -> PermissionModel {
        PermissionModel { title: self.title@, options: self.options.deep_view() }
    }
}

impl Clone for PermissionReq {
    fn clone(&self) -> (res: Self)
        ensures
            res.deep_view() == self.deep_view(),
    {
        let res = PermissionReq { title: self.title.clone(), options: self.options.clone() };
        assert(res.options.deep_view() =~= self.options.deep_view());
        res
    }
}

/// The user's answer to a permission request.
#[derive(Debug, PartialEq, Eq)]
pub enum PermissionChoice {
    Selected(String),
    Cancelled,
}

/// The model of a [`PermissionChoice`].
#[verifier::ext_equal]
pub enum PermissionChoiceModel {
    Selected(Seq<char>),
    Cancelled,
}

impl DeepView for PermissionChoice {
    type V = PermissionChoiceModel;

    open spec fn deep_view(&self) -> PermissionChoiceModel {
        match self {
            PermissionChoice::Selected(id) => PermissionChoiceModel::Selected(id@),
            PermissionChoice::Cancelled => PermissionChoiceModel::Cancelled,
        }
    }
}

/// The agent asks for a line of text.
#[derive(Debug, PartialEq, Eq)]
pub struct ElicitationReq {
    pub message: String,
}

/// The model of an [`ElicitationReq`].
#[verifier::ext_equal]
pub struct ElicitationModel {
    pub message: Seq<char>,
}

impl DeepView for ElicitationReq {
    type V = ElicitationModel;

    open spec fn deep_view(&self) -> ElicitationModel {
        ElicitationModel { message: self.message@ }
    }
}

impl Clone for ElicitationReq {
    fn clone(&self) -> (res: Self)
        ensures
            res.deep_view() == self.deep_view(),
    {
        ElicitationReq { message: self.message.clone() }
    }
}

/// An extension of the agent: the key under which it is configured, its name,
/// and whether it is on.
#[derive(Debug, PartialEq, Eq)]
pub struct ExtensionEntry {
    pub key: String,
    pub name: String,
    pub enabled: bool,
}

/// The model of an [`ExtensionEntry`].
#[verifier::ext_equal]
pub struct ExtensionModel {
    pub key: Seq<char>,
    pub name: Seq<char>,
    pub enabled: bool,
}

impl DeepView for ExtensionEntry {
    type V = ExtensionModel;

    open spec fn deep_view(&self) -> ExtensionModel {
        ExtensionModel { key: self.key@, name: self.name@, enabled: self.enabled }
    }
}

impl Clone for ExtensionEntry {
    fn clone(&self) -> (res: Self)
        ensures
            res.deep_view() == self.deep_view(),
    {
        ExtensionEntry { key: self.key.clone(), name: self.name.clone(), enabled: self.enabled }
    }
}

/// A model that the provider offers.
#[derive(Debug, PartialEq, Eq)]
pub struct ModelInfo {
    pub name: String,
}

/// The model of a [`ModelInfo`].
#[verifier::ext_equal]
pub struct ModelInfoModel {
    pub name: Seq<char>,
}

impl DeepView for ModelInfo {
    type V = ModelInfoModel;

    open spec fn deep_view(&self) -> ModelInfoModel {
        ModelInfoModel { name: self.name@ }
    }
}

impl Clone for ModelInfo {
    fn clone(&self) -> (res: Self)
        ensures
            res.deep_view() == self.deep_view(),
    {
        ModelInfo { name: self.name.clone() }
    }
}

/// A request of the keyboard to the control loop.
#[derive(Debug, PartialEq, Eq)]
pub enum CtrlMsg {
    SetMode(GooseMode),
    ToggleExt(ExtensionEntry),
    SwitchModel(String),
}

/// The model of a [`CtrlMsg`].
#[verifier::ext_equal]
pub enum CtrlModel {
    SetMode(GooseMode),
    ToggleExt(ExtensionModel),
    SwitchModel(Seq<char>),
}

impl DeepView for CtrlMsg {
    type V = CtrlModel;

    open spec fn deep_view(&self) -> CtrlModel {
        match self {
            CtrlMsg::SetMode(mode) => CtrlModel::SetMode(*mode),
            CtrlMsg::ToggleExt(entry) => CtrlModel::ToggleExt(entry.deep_view()),
            CtrlMsg::SwitchModel(name) => CtrlModel::SwitchModel(name@),
        }
    }
}

/// What the agent worker reports.
#[derive(Debug, PartialEq, Eq)]
pub enum AgentMsg {
    TextChunk(String),
    ToolCallUpdate(ToolCallInfo),
    PermissionRequest(PermissionReq),
    ElicitationRequest(ElicitationReq),
    ConversationCleared,
    TokenUsage { total: i64 },
    Finished { stop_reason: String },
    Error(String),
}

/// The model of an [`AgentMsg`].
#[verifier::ext_equal]
pub enum AgentMsgModel {
    TextChunk(Seq<char>),
    ToolCallUpdate(ToolCallModel),
    PermissionRequest(PermissionModel),
    ElicitationRequest(ElicitationModel),
    ConversationCleared,
    TokenUsage { total: i64 },
    Finished { stop_reason: Seq<char> },
    Error(Seq<char>),
}

impl DeepView for AgentMsg {
    type V = AgentMsgModel;

    open spec fn deep_view(&self) -> AgentMsgModel {
        match self {
            AgentMsg::TextChunk(chunk) => AgentMsgModel::TextChunk(chunk@),
            AgentMsg::ToolCallUpdate(info) => AgentMsgModel::ToolCallUpdate(info.deep_view()),
            AgentMsg::PermissionRequest(req) => AgentMsgModel::PermissionRequest(req.deep_view()),
            AgentMsg::ElicitationRequest(req) => AgentMsgModel::ElicitationRequest(
                req.deep_view(),
            ),
            AgentMsg::ConversationCleared => AgentMsgModel::ConversationCleared,
            AgentMsg::TokenUsage { total } => AgentMsgModel::TokenUsage { total: *total },
            AgentMsg::Finished { stop_reason } => AgentMsgModel::Finished {
                stop_reason: stop_reason@,
            },
            AgentMsg::Error(e) => AgentMsgModel::Error(e@),
        }
    }
}

/// What is to be done outside after a step.
///
/// `SubmitPrompt` asks for a fresh cancellation token, shared with the agent
/// worker where `share_token` says so, and then for the text to be put into the
/// prompt channel.
#[derive(Debug, PartialEq, Eq)]
pub enum Action {
    ReplyElicitation(String),
    ReplyPermission(PermissionChoice),
    CancelTurn,
    Suspend,
    Control(CtrlMsg),
    ListExtensions,
    SubmitPrompt { text: String, share_token: bool },
}

/// The model of an [`Action`].
#[verifier::ext_equal]
pub enum ActionModel {
    ReplyElicitation(Seq<char>),
    ReplyPermission(PermissionChoiceModel),
    CancelTurn,
    Suspend,
    Control(CtrlModel),
    ListExtensions,
    SubmitPrompt { text: Seq<char>, share_token: bool },
}

impl DeepView for Action {
    type V = ActionModel;

    open spec fn deep_view(&self) -> ActionModel {
        match self {
            Action::ReplyElicitation(text) => ActionModel::ReplyElicitation(text@),
            Action::ReplyPermission(choice) => ActionModel::ReplyPermission(choice.deep_view()),
            Action::CancelTurn => ActionModel::CancelTurn,
            Action::Suspend => ActionModel::Suspend,
            Action::Control(msg) => ActionModel::Control(msg.deep_view()),
            Action::ListExtensions => ActionModel::ListExtensions,
            Action::SubmitPrompt { text, share_token } => ActionModel::SubmitPrompt {
                text: text@,
                share_token: *share_token,
            },
        }
    }
}

/// What the client was started with.
#[derive(Debug, PartialEq, Eq)]
pub struct AppProps {
    pub initial_prompt: Option<String>,
    pub session_id: Option<String>,
}

/// The model of [`AppProps`].
#[verifier::ext_equal]
pub struct AppPropsModel {
    pub initial_prompt: Option<Seq<char>>,
    pub session_id: Option<Seq<char>>,
}

impl DeepView for AppProps {
    type V = AppPropsModel;

    open spec fn deep_view(&self) -> AppPropsModel {
        AppPropsModel {
            initial_prompt: self.initial_prompt.deep_view(),
            session_id: self.session_id.deep_view(),
        }
    }
}

impl Default for AppProps {
    fn default() -> (res: Self)
        ensures
            res.initial_prompt is None,
            res.session_id is None,
    {
        AppProps { initial_prompt: None, session_id: None }
    }
}

} // verus!
