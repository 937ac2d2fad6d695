//! Starting the agent, and what it reports.

use vstd::prelude::*;

use crate::dialogs::DialogModel;
use crate::paths::{is_portable_path, leads_to};
use crate::selection::{first_position, lemma_first_position};
use crate::state::{AppModel, AppState, Links, SessionModel};
use crate::text::{joined, owned, same};
use crate::types::{
    Action, ActionModel, AgentMsg, AgentMsgModel, AppProps, AppPropsModel, ElicitationModel,
    ElicitationReq, GooseMode, ModelInfo, ModelInfoModel, PermissionModel, PermissionReq,
    ToolCallInfo, ToolCallModel,
};

verus! {

/// A provider and the models that it is known to offer.
#[derive(Debug, PartialEq, Eq)]
pub struct ProviderEntry {
    pub name: String,
    pub known_models: Vec<ModelInfo>,
}

/// The model of a [`ProviderEntry`].
#[verifier::ext_equal]
pub struct ProviderModel {
    pub name: Seq<char>,
    pub known_models: Seq<ModelInfoModel>,
}

impl DeepView for ProviderEntry {
    type V = ProviderModel;

    open spec fn deep_view(&self) -> ProviderModel {
        ProviderModel { name: self.name@, known_models: self.known_models.deep_view() }
    }
}

/// The models of the first provider with the given name. An unknown provider has
/// none.
pub open spec fn models_of(providers: Seq<ProviderModel>, name: Seq<char>) -> Seq<ModelInfoModel> {
    let at = first_position(providers, |p: ProviderModel| p.name == name);
    if at < providers.len() {
        providers[at].known_models
    } else {
        Seq::empty()
    }
}

/// The models of the first provider with the given name.
pub fn known_models(providers: &Vec<ProviderEntry>, name: &str) -> (res: Vec<ModelInfo>)
    ensures
        res.deep_view() == models_of(providers.deep_view(), name@),
{
    let ghost picked = |p: ProviderModel| p.name == name@;
    let mut i: usize = 0;
    while i < providers.len() && !same(providers[i].name.as_str(), name)
        invariant
            i <= providers.len(),
            picked == (|p: ProviderModel| p.name == name@),
            forall|j: int| 0 <= j < i ==> !picked(#[trigger] providers.deep_view()[j]),
        decreases providers.len() - i,
    {
        assert(!picked(providers.deep_view()[i as int]));
        i += 1;
    }
    proof {
        lemma_first_position(providers.deep_view(), picked, i as int);
    }
    if i < providers.len() {
        let res: Vec<ModelInfo> = providers[i].known_models.clone();
        assert(res.deep_view() =~= providers[i as int].known_models.deep_view());
        res
    } else {
        let res: Vec<ModelInfo> = Vec::new();
        assert(res.deep_view() =~= Seq::<ModelInfoModel>::empty());
        res
    }
}

/// The label of a working directory that lies at `relative` below the home
/// directory, or elsewhere.
pub open spec fn directory_label_of(dir: Seq<char>, relative: Option<Seq<char>>) -> Seq<char> {
    match relative {
        Some(rel) => "~/"@ + rel,
        None => dir,
    }
}

/// The label of a working directory that lies at `relative` below the home
/// directory, or elsewhere.
pub fn label_directory(dir: &str, relative: &Option<String>) -> (res: String)
    ensures
        res@ == directory_label_of(dir@, relative.deep_view()),
{
    match relative {
        Some(rel) => joined("~/", rel.as_str()),
        None => owned(dir),
    }
}

/// `Path::strip_prefix` of std: the path that leads from `base` to `path`, or nothing
/// where `path` does not lie below `base`. Paths are held against each other
/// component by component, so that repeated slashes, a slash at the end and lone dots
/// do not matter. The way borrows from `path`, so it is a piece of it. A path lies
/// below itself, and nothing leads there. Left unsaid is whether slashes and dots at
/// the end of `path` go along with the way, and all that concerns paths with a
/// backslash, with a colon in the second place or with two slashes at the beginning:
/// how those fall into components rests on the machine.
#[verifier::external_body]
fn strip_prefix(path: &str, base: &str) -> (res: Option<String>)
    ensures
        is_portable_path(path@) && is_portable_path(base@) ==> leads_to(
            path@,
            base@,
            res.deep_view(),
        ),
        path@ == base@ ==> res.deep_view() == Some(Seq::<char>::empty()),
{
    match std::path::Path::new(path).strip_prefix(base) {
        Ok(rel) => Some(rel.display().to_string()),
        Err(_) => None,
    }
}

/// The label of a working directory: below the home directory it starts with `~/`
/// and goes on from there, elsewhere it is the path itself. Which of the two it is
/// is said of paths that every machine reads alike, and of the home directory
/// itself.
pub fn directory_label(dir: &str, home: &str) -> (res: String)
    ensures
        exists|relative: Option<Seq<char>>|
            {
                &&& res@ == #[trigger] directory_label_of(dir@, relative)
                &&& is_portable_path(dir@) && is_portable_path(home@) ==> leads_to(
                    dir@,
                    home@,
                    relative,
                )
            },
        dir@ == home@ ==> res@ == "~/"@,
{
    let relative: Option<String> = strip_prefix(dir, home);
    let res: String = label_directory(dir, &relative);
    assert(res@ == directory_label_of(dir@, relative.deep_view()));
    assert("~/"@ + Seq::<char>::empty() =~= "~/"@);
    res
}

/// Whether the client was started to answer one prompt and leave.
pub open spec fn is_one_shot(props: AppPropsModel) -> bool {
    props.initial_prompt is Some
}

impl AppModel {
    /// The control loop runs.
    pub open spec fn control_started(self) -> AppModel {
        AppModel { links: Links { control_ready: true, ..self.links }, ..self }
    }

    /// The channels to the agent worker are there. Prompts can be sent.
    pub open spec fn channels_opened(self) -> AppModel {
        AppModel { links: Links { cancel_ready: true, prompt_ready: true, ..self.links }, ..self }
    }

    /// The agent could not be started. No prompt can be sent any more, and a client
    /// that was started for one prompt leaves.
    pub open spec fn agent_failed(self, error: Seq<char>, props: AppPropsModel) -> AppModel {
        AppModel {
            loading: false,
            status: "failed: "@ + error,
            links: Links { prompt_ready: false, ..self.links },
            should_exit: self.should_exit || is_one_shot(props),
            ..self
        }
    }

    /// The agent is there and works in the directory with the given label.
    pub open spec fn agent_built(self, working_dir: Seq<char>) -> AppModel {
        AppModel {
            loading: false,
            status: "ready"@,
            session: SessionModel { working_dir, ..self.session },
            ..self
        }
    }

    /// The mode of the agent and the id of its session are known.
    pub open spec fn session_read(self, mode: GooseMode, session_id: Seq<char>) -> AppModel {
        AppModel {
            session: SessionModel { goose_mode: mode, session_id, ..self.session },
            ..self
        }
    }

    /// The provider of the agent, its model and the models to choose from are known.
    pub open spec fn provider_read(
        self,
        name: Seq<char>,
        model: Seq<char>,
        providers: Seq<ProviderModel>,
    ) -> AppModel {
        AppModel {
            session: SessionModel { provider_name: name, current_model: model, ..self.session },
            dialogs: DialogModel { model_entries: models_of(providers, name), ..self.dialogs },
            ..self
        }
    }

    /// The first of the waiting prompts goes to the agent.
    pub open spec fn next_sent(self) -> AppModel {
        let rest = AppModel { prompt: self.prompt.dequeued(), ..self };
        match self.prompt.waiting() {
            Some(text) => rest.sent(text),
            None => rest,
        }
    }

    /// What is to be done when the first of the waiting prompts goes to the agent.
    pub open spec fn next_sending(self) -> Option<ActionModel> {
        match self.prompt.waiting() {
            Some(text) => self.sending(text),
            None => None,
        }
    }

    /// The worker runs. The prompt that the client was started with goes to it, or
    /// else the first of those that wait.
    pub open spec fn worker_started(self, props: AppPropsModel) -> AppModel {
        let ready = AppModel { links: Links { agent_ready: true, ..self.links }, ..self };
        match props.initial_prompt {
            Some(text) => ready.sent(text),
            None => ready.next_sent(),
        }
    }

    /// What is to be done when the worker runs.
    pub open spec fn worker_starting(self, props: AppPropsModel) -> Option<ActionModel> {
        match props.initial_prompt {
            Some(text) => self.sending(text),
            None => self.next_sending(),
        }
    }

    /// More of the answer came.
    pub open spec fn text_added(self, chunk: Seq<char>, rendered: Seq<char>) -> AppModel {
        AppModel { transcript: self.transcript.text_added(chunk, rendered), ..self }
    }

    /// The agent reported on a tool call.
    pub open spec fn call_updated(self, info: ToolCallModel) -> AppModel {
        AppModel { transcript: self.transcript.call_updated(info), ..self }
    }

    /// The agent asks for a permission.
    pub open spec fn permission_asked(self, req: PermissionModel) -> AppModel {
        AppModel { requests: self.requests.permission_asked(req), ..self }
    }

    /// The agent asks for a line of text.
    pub open spec fn elicitation_asked(self, req: ElicitationModel) -> AppModel {
        AppModel { requests: self.requests.elicitation_asked(req), ..self }
    }

    /// The conversation starts over, and so does the count of tokens.
    pub open spec fn conversation_cleared(self) -> AppModel {
        AppModel {
            transcript: self.transcript.cleared(),
            session: SessionModel { token_total: 0, ..self.session },
            ..self
        }
    }

    /// The count of tokens is known.
    pub open spec fn tokens_counted(self, total: i64) -> AppModel {
        AppModel { session: SessionModel { token_total: total, ..self.session }, ..self }
    }

    /// The turn failed.
    pub open spec fn error_reported(self, error: Seq<char>) -> AppModel {
        AppModel { loading: false, status: "error: "@ + error, ..self }
    }

    /// A turn is over. A client that was started for one prompt leaves.
    pub open spec fn turn_finished(self, stop_reason: Seq<char>, props: AppPropsModel) -> AppModel {
        AppModel {
            loading: false,
            status: if stop_reason == "end_turn"@ {
                "ready"@
            } else {
                "stopped: "@ + stop_reason
            },
            should_exit: self.should_exit || is_one_shot(props),
            ..self
        }
    }

    /// The raw answer so far that a report leaves to be rendered.
    pub open spec fn to_render(self, msg: AgentMsgModel) -> Option<Seq<char>> {
        match msg {
            AgentMsgModel::TextChunk(chunk) => self.transcript.raw_with(chunk),
            _ => None,
        }
    }

    /// The state after a report. `rendered` is the answer so far as it is to be
    /// shown; only a piece of the answer makes use of it.
    pub open spec fn agent_step(
        self,
        msg: AgentMsgModel,
        rendered: Seq<char>,
        props: AppPropsModel,
    ) -> AppModel {
        match msg {
            AgentMsgModel::TextChunk(chunk) => self.text_added(chunk, rendered),
            AgentMsgModel::ToolCallUpdate(info) => self.call_updated(info),
            AgentMsgModel::PermissionRequest(req) => self.permission_asked(req),
            AgentMsgModel::ElicitationRequest(req) => self.elicitation_asked(req),
            AgentMsgModel::ConversationCleared => self.conversation_cleared(),
            AgentMsgModel::TokenUsage { total } => self.tokens_counted(total),
            AgentMsgModel::Finished { stop_reason } => self.turn_finished(
                stop_reason,
                props,
            ).next_sent(),
            AgentMsgModel::Error(e) => self.error_reported(e),
        }
    }

    /// What is to be done after a report: when a turn is over, the next one starts.
    pub open spec fn agent_effect(self, msg: AgentMsgModel) -> Option<ActionModel> {
        if msg is Finished {
            self.next_sending()
        } else {
            None
        }
    }
}

/// Whether `render` may show the text `raw` as `shown`.
pub open spec fn renders<F: Fn(&str) -> String>(
    render: F,
    raw: Seq<char>,
    shown: Seq<char>,
) -> bool {
    exists|input: &str, output: String|
        input@ == raw && output@ == shown && #[trigger] call_ensures(render, (input,), output)
}

impl AppState {
    /// The control loop runs.
    pub fn on_control_started(&mut self)
        requires
            old(self)@.wf(),
        ensures
            final(self)@ == old(self)@.control_started(),
            final(self)@.wf(),
    {
        self.links.control_ready = true;
    }

    /// The channels to the agent worker are there.
    pub fn on_channels_opened(&mut self)
        requires
            old(self)@.wf(),
        ensures
            final(self)@ == old(self)@.channels_opened(),
            final(self)@.wf(),
    {
        self.links.cancel_ready = true;
        self.links.prompt_ready = true;
    }

    /// The agent could not be started.
    pub fn on_agent_failed(&mut self, error: &str, props: &AppProps)
        requires
            old(self)@.wf(),
        ensures
            final(self)@ == old(self)@.agent_failed(error@, props.deep_view()),
            final(self)@.wf(),
    {
        self.loading = false;
        self.status = joined("failed: ", error);
        self.links.prompt_ready = false;
        if props.initial_prompt.is_some() {
            self.should_exit = true;
        }
    }

    /// The agent is there and works in the directory with the given label.
    pub fn on_agent_built(&mut self, working_dir: String)
        requires
            old(self)@.wf(),
        ensures
            final(self)@ == old(self)@.agent_built(working_dir@),
            final(self)@.wf(),
    {
        self.loading = false;
        self.status = owned("ready");
        self.session.working_dir = working_dir;
    }

    /// The mode of the agent and the id of its session are known.
    pub fn on_session_read(&mut self, mode: GooseMode, session_id: String)
        requires
            old(self)@.wf(),
        ensures
            final(self)@ == old(self)@.session_read(mode, session_id@),
            final(self)@.wf(),
    {
        self.session.goose_mode = mode;
        self.session.session_id = session_id;
    }

    /// The provider of the agent, its model and all providers are known.
    pub fn on_provider_read(
        &mut self,
        name: String,
        model: String,
        providers: &Vec<ProviderEntry>,
    )
        requires
            old(self)@.wf(),
        ensures
            final(self)@ == old(self)@.provider_read(name@, model@, providers.deep_view()),
            final(self)@.wf(),
    {
        self.dialogs.model_entries = known_models(providers, name.as_str());
        self.session.provider_name = name;
        self.session.current_model = model;
    }

    fn send_next(&mut self) -> (res: Option<Action>)
        requires
            old(self)@.wf(),
        ensures
            final(self)@ == old(self)@.next_sent(),
            res.deep_view() == old(self)@.next_sending(),
            final(self)@.wf(),
    {
        match self.prompt.dequeue() {
            Some(text) => self.send_prompt_to_agent(text),
            None => None,
        }
    }

    /// The worker runs.
    pub fn on_worker_started(&mut self, props: &AppProps) -> (res: Option<Action>)
        requires
            old(self)@.wf(),
        ensures
            final(self)@ == old(self)@.worker_started(props.deep_view()),
            res.deep_view() == old(self)@.worker_starting(props.deep_view()),
            final(self)@.wf(),
    {
        self.links.agent_ready = true;
        match &props.initial_prompt {
            Some(text) => self.send_prompt_to_agent(text.clone()),
            None => self.send_next(),
        }
    }

    /// The raw answer so far that a report leaves to be rendered.
    pub fn to_render(&self, msg: &AgentMsg) -> (res: Option<String>)
        ensures
            res.deep_view() == self@.to_render(msg.deep_view()),
    {
        match msg {
            AgentMsg::TextChunk(chunk) => self.transcript.raw_with(chunk.as_str()),
            _ => None,
        }
    }

    fn add_text(&mut self, chunk: &str, rendered: String)
        requires
            old(self)@.wf(),
        ensures
            final(self)@ == old(self)@.text_added(chunk@, rendered@),
            final(self)@.wf(),
    {
        self.transcript.add_text(chunk, rendered);
    }

    fn update_call(&mut self, info: ToolCallInfo)
        requires
            old(self)@.wf(),
        ensures
            final(self)@ == old(self)@.call_updated(info.deep_view()),
            final(self)@.wf(),
    {
        self.transcript.update_call(info);
    }

    fn ask_permission(&mut self, req: PermissionReq)
        requires
            old(self)@.wf(),
        ensures
            final(self)@ == old(self)@.permission_asked(req.deep_view()),
            final(self)@.wf(),
    {
        self.requests.ask_permission(req);
    }

    fn ask_elicitation(&mut self, req: ElicitationReq)
        requires
            old(self)@.wf(),
        ensures
            final(self)@ == old(self)@.elicitation_asked(req.deep_view()),
            final(self)@.wf(),
    {
        self.requests.ask_elicitation(req);
    }

    fn clear_conversation(&mut self)
        requires
            old(self)@.wf(),
        ensures
            final(self)@ == old(self)@.conversation_cleared(),
            final(self)@.wf(),
    {
        self.transcript.clear();
        self.session.token_total = 0;
    }

    fn count_tokens(&mut self, total: i64)
        requires
            old(self)@.wf(),
        ensures
            final(self)@ == old(self)@.tokens_counted(total),
            final(self)@.wf(),
    {
        self.session.token_total = total;
    }

    fn finish_turn(&mut self, stop_reason: &str, props: &AppProps)
        requires
            old(self)@.wf(),
        ensures
            final(self)@ == old(self)@.turn_finished(stop_reason@, props.deep_view()),
            final(self)@.wf(),
    {
        self.loading = false;
        self.status = if same(stop_reason, "end_turn") {
            owned("ready")
        } else {
            joined("stopped: ", stop_reason)
        };
        if props.initial_prompt.is_some() {
            self.should_exit = true;
        }
    }

    fn report_error(&mut self, error: &str)
        requires
            old(self)@.wf(),
        ensures
            final(self)@ == old(self)@.error_reported(error@),
            final(self)@.wf(),
    {
        self.loading = false;
        self.status = joined("error: ", error);
    }

    /// Takes in a report of the agent. `rendered` is the answer so far as it is to
    /// be shown; only a piece of the answer makes use of it.
    pub fn on_rendered_msg(&mut self, msg: AgentMsg, rendered: String, props: &AppProps) -> (res:
        Option<Action>)
        requires
            old(self)@.wf(),
        ensures
            final(self)@ == old(self)@.agent_step(msg.deep_view(), rendered@, props.deep_view()),
            res.deep_view() == old(self)@.agent_effect(msg.deep_view()),
            final(self)@.wf(),
    {
        match msg {
            AgentMsg::TextChunk(chunk) => {
                self.add_text(chunk.as_str(), rendered);
                None
            },
            AgentMsg::ToolCallUpdate(info) => {
                self.update_call(info);
                None
            },
            AgentMsg::PermissionRequest(req) => {
                self.ask_permission(req);
                None
            },
            AgentMsg::ElicitationRequest(req) => {
                self.ask_elicitation(req);
                None
            },
            AgentMsg::ConversationCleared => {
                self.clear_conversation();
                None
            },
            AgentMsg::TokenUsage { total } => {
                self.count_tokens(total);
                None
            },
            AgentMsg::Finished { stop_reason } => {
                self.finish_turn(stop_reason.as_str(), props);
                self.send_next()
            },
            AgentMsg::Error(e) => {
                self.report_error(e.as_str());
                None
            },
        }
    }

    /// Takes in a report of the agent. A piece of the answer is put behind what came
    /// before, and `render` makes of the whole what is shown.
    pub fn on_agent_msg<F: Fn(&str) -> String>(
        &mut self,
        msg: AgentMsg,
        render: F,
        props: &AppProps,
    ) -> (res: Option<Action>)
        requires
            old(self)@.wf(),
            forall|raw: &str| call_requires(render, (raw,)),
        ensures
            exists|rendered: Seq<char>|
                {
                    &&& final(self)@ == #[trigger] old(self)@.agent_step(
                        msg.deep_view(),
                        rendered,
                        props.deep_view(),
                    )
                    &&& old(self)@.to_render(msg.deep_view()) matches Some(raw) ==> renders(
                        render,
                        raw,
                        rendered,
                    )
                },
            res.deep_view() == old(self)@.agent_effect(msg.deep_view()),
            final(self)@.wf(),
    {
        let rendered: String = match self.to_render(&msg) {
            Some(raw) => {
                let input: &str = raw.as_str();
                let output: String = render(input);
                assert(call_ensures(render, (input,), output));
                output
            },
            None => String::new(),
        };
        let ghost shown = rendered@;
        assert(self@.to_render(msg.deep_view()) matches Some(raw) ==> renders(render, raw, shown));
        let res: Option<Action> = self.on_rendered_msg(msg, rendered, props);
        assert(self@ == old(self)@.agent_step(msg.deep_view(), shown, props.deep_view()));
        res
    }
}

} // verus!
