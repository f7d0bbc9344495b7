//! The order in which a session comes up and goes down, as a state
//! machine: find the board to track, start the listener, make sure it
//! answers, only then tell Trello where to report, serve until an
//! interrupt, stop the listener.
//!
//! The machine decides; its driver acts. [`Bootstrap::launch`] and
//! [`Bootstrap::step`] each hand back the next [`Action`]; the driver
//! performs it and comes back with the [`Event`] that tells how it went.

use vstd::prelude::*;
use vstd::string::*;
use crate::config::{
    config_of,
    error_message,
    Config,
    ConfigError,
    ConfigView,
    Environment,
    EnvironmentView,
};
use crate::http::{status_is_success, Method, Request, RequestView};
use crate::persistent_info::{callback_url, PersistentInfo, PersistentInfoView};
use crate::text::{decimal, u16_to_decimal};
use crate::trello::{
    board_named,
    board_views,
    boards_url,
    webhook_url,
    TrelloAPI,
    TrelloAPIView,
    TrelloBoard,
    TrelloBoardView,
};

verus! {

/// The name of the board that a session tracks.
pub open spec fn todo_board_name() -> Seq<char> {
    "To-Dos"@
}

/// The address of the probe: the listener's own port, on this machine.
pub open spec fn probe_url(port: u16) -> Seq<char> {
    "http://localhost:"@ + decimal(port as nat) + "/"@
}

/// The address on which the listener binds: every address of the
/// machine.
pub open spec fn listen_host() -> Seq<char> {
    "0.0.0.0"@
}

/// The number of workers that serve the listener's connections.
pub const WORKERS: usize = 4;

/// The exit status of a session that came up and was stopped by an
/// interrupt.
pub const EXIT_SUCCESS: i32 = 0;

/// The exit status of a session that could not be configured or could not
/// come up.
pub const EXIT_FAILURE: i32 = 1;

/// Why a session did not come up.
#[derive(Clone, Copy, Debug, PartialEq, Eq, Structural)]
pub enum StartupError {
    /// The environment does not make a configuration.
    Config(ConfigError),
    /// The boards could not be fetched, or the answer was no list of
    /// boards.
    BoardsUnavailable,
    /// The account has no board with the name of the to-do board.
    BoardMissing,
    /// The listener could not bind its port.
    Bind,
    /// The probe got no answer.
    ProbeUnanswered,
    /// The probe was answered with this status, which is no success.
    ProbeRefused(u16),
    /// The request that registers the webhook could not be sent.
    WebhookUnregistered,
}

/// What is printed for `error`.
pub open spec fn startup_message(error: StartupError) -> Seq<char> {
    match error {
        StartupError::Config(cause) => error_message(cause),
        StartupError::BoardsUnavailable => "Failed to get the boards from Trello"@,
        StartupError::BoardMissing => "Failed to find the `To-Dos` board"@,
        StartupError::Bind =>
            "Unable to bind server (probably due to incorrect PUBLIC_IP or TRELLO_CANVAS_PORT environment variables)"@,
        StartupError::ProbeUnanswered => "Failed to validate HTTP server"@,
        StartupError::ProbeRefused(_) =>
            "Local server gave error when validating, terminating process..."@,
        StartupError::WebhookUnregistered => "Failed to set up webhooks"@,
    }
}

impl StartupError {
    /// The message that names what went wrong.
    pub fn message(&self) -> (message: String)
        ensures
            message@ == startup_message(*self),
    {
        match self {
            StartupError::Config(cause) => cause.message(),
            StartupError::BoardsUnavailable => String::from_str(
                "Failed to get the boards from Trello",
            ),
            StartupError::BoardMissing => String::from_str("Failed to find the `To-Dos` board"),
            StartupError::Bind => String::from_str(
                "Unable to bind server (probably due to incorrect PUBLIC_IP or TRELLO_CANVAS_PORT environment variables)",
            ),
            StartupError::ProbeUnanswered => String::from_str("Failed to validate HTTP server"),
            StartupError::ProbeRefused(_) => String::from_str(
                "Local server gave error when validating, terminating process...",
            ),
            StartupError::WebhookUnregistered => String::from_str("Failed to set up webhooks"),
        }
    }
}

/// What the driver reports back.
#[derive(Debug)]
pub enum Event {
    /// The boards of the account, as Trello listed them.
    BoardsFetched(Vec<TrelloBoard>),
    /// The boards could not be fetched or decoded.
    BoardsFailed,
    /// The listener has bound its port and accepts connections.
    ListenerBound,
    /// The listener could not bind its port.
    ListenerBindFailed,
    /// The probe was answered with this status.
    ProbeAnswered(u16),
    /// The probe got no answer.
    ProbeFailed,
    /// The request that registers the webhook was sent and answered. The
    /// status of the answer is not looked at.
    WebhookRegistered,
    /// The request that registers the webhook could not be sent.
    WebhookFailed,
    /// The operator asked the session to end.
    Interrupted,
    /// The listener has finished what it was serving and is down.
    ListenerStopped,
}

/// What an [`Event`] is in contracts.
pub enum EventView {
    BoardsFetched(Seq<TrelloBoardView>),
    BoardsFailed,
    ListenerBound,
    ListenerBindFailed,
    ProbeAnswered(u16),
    ProbeFailed,
    WebhookRegistered,
    WebhookFailed,
    Interrupted,
    ListenerStopped,
}

impl View for Event {
    type V = EventView;

    open spec fn view(&self) -> EventView {
        match *self {
            Event::BoardsFetched(boards) => EventView::BoardsFetched(board_views(boards@)),
            Event::BoardsFailed => EventView::BoardsFailed,
            Event::ListenerBound => EventView::ListenerBound,
            Event::ListenerBindFailed => EventView::ListenerBindFailed,
            Event::ProbeAnswered(status) => EventView::ProbeAnswered(status),
            Event::ProbeFailed => EventView::ProbeFailed,
            Event::WebhookRegistered => EventView::WebhookRegistered,
            Event::WebhookFailed => EventView::WebhookFailed,
            Event::Interrupted => EventView::Interrupted,
            Event::ListenerStopped => EventView::ListenerStopped,
        }
    }
}

/// What the driver is to do next.
#[derive(Debug)]
pub enum Action {
    /// Send the request and decode the answer as a list of boards.
    FetchBoards(Request),
    /// Bind `port` on the address `host` and serve the session `session`
    /// there, on `workers` workers.
    Listen { host: String, port: u16, workers: usize, session: PersistentInfo },
    /// Send the request to the listener itself and report its status.
    Probe(Request),
    /// Send the request, which asks Trello to report every change of the
    /// board with id `board_id` to `callback_url`.
    RegisterWebhook { request: Request, callback_url: String, board_id: String },
    /// Wait until the operator interrupts.
    AwaitInterrupt,
    /// Stop the listener. Where `graceful` is set, what is being served is
    /// finished first and only new connections are refused.
    StopListener { graceful: bool },
    /// End the process with `status`; `failure` says why, where the
    /// session did not come up.
    Exit { status: i32, failure: Option<StartupError> },
    /// The event was not awaited in this state: do nothing.
    Nothing,
}

/// What an [`Action`] is in contracts.
pub enum ActionView {
    FetchBoards(RequestView),
    Listen { host: Seq<char>, port: u16, workers: usize, session: PersistentInfoView },
    Probe(RequestView),
    RegisterWebhook { request: RequestView, callback_url: Seq<char>, board_id: Seq<char> },
    AwaitInterrupt,
    StopListener { graceful: bool },
    Exit { status: i32, failure: Option<StartupError> },
    Nothing,
}

impl View for Action {
    type V = ActionView;

    open spec fn view(&self) -> ActionView {
        match *self {
            Action::FetchBoards(request) => ActionView::FetchBoards(request@),
            Action::Listen { host, port, workers, session } => ActionView::Listen {
                host: host@,
                port,
                workers,
                session: session@,
            },
            Action::Probe(request) => ActionView::Probe(request@),
            Action::RegisterWebhook { request, callback_url, board_id } => ActionView::RegisterWebhook {
                request: request@,
                callback_url: callback_url@,
                board_id: board_id@,
            },
            Action::AwaitInterrupt => ActionView::AwaitInterrupt,
            Action::StopListener { graceful } => ActionView::StopListener { graceful },
            Action::Exit { status, failure } => ActionView::Exit { status, failure },
            Action::Nothing => ActionView::Nothing,
        }
    }
}

/// Where a session stands.
#[derive(Debug)]
pub enum Bootstrap {
    /// The boards have been asked for.
    FetchingBoards { config: Config },
    /// The board is known; the listener has been told to bind.
    Binding { info: PersistentInfo },
    /// The listener is bound; the probe is out.
    Probing { info: PersistentInfo },
    /// The probe succeeded; the registration is out.
    Registering,
    /// The webhook is registered; the session serves until interrupted.
    Serving,
    /// The listener has been told to stop.
    Stopping,
    /// The session is over.
    Stopped,
    /// The session did not come up.
    Failed(StartupError),
}

/// What a [`Bootstrap`] is in contracts.
pub enum BootstrapView {
    FetchingBoards { config: ConfigView },
    Binding { info: PersistentInfoView },
    Probing { info: PersistentInfoView },
    Registering,
    Serving,
    Stopping,
    Stopped,
    Failed(StartupError),
}

impl View for Bootstrap {
    type V = BootstrapView;

    open spec fn view(&self) -> BootstrapView {
        match *self {
            Bootstrap::FetchingBoards { config } => BootstrapView::FetchingBoards { config: config@ },
            Bootstrap::Binding { info } => BootstrapView::Binding { info: info@ },
            Bootstrap::Probing { info } => BootstrapView::Probing { info: info@ },
            Bootstrap::Registering => BootstrapView::Registering,
            Bootstrap::Serving => BootstrapView::Serving,
            Bootstrap::Stopping => BootstrapView::Stopping,
            Bootstrap::Stopped => BootstrapView::Stopped,
            Bootstrap::Failed(error) => BootstrapView::Failed(error),
        }
    }
}

/// The Trello client that `config` describes.
pub open spec fn client_of(config: ConfigView) -> TrelloAPIView {
    TrelloAPIView { key: config.trello_api_key, token: config.trello_api_token }
}

/// The session that `config` describes once `board` is the board to
/// track.
pub open spec fn session_of(config: ConfigView, board: TrelloBoardView) -> PersistentInfoView {
    PersistentInfoView {
        todo_board: board,
        ip: config.public_ip,
        port: config.port,
        trello_api: client_of(config),
    }
}

/// The listener that serves `session`: bound on every address of the
/// machine, on the session's port.
pub open spec fn listener_of(session: PersistentInfoView) -> ActionView {
    ActionView::Listen { host: listen_host(), port: session.port, workers: WORKERS, session }
}

/// The probe of the listener on `port`.
pub open spec fn probe_of(port: u16) -> ActionView {
    ActionView::Probe(RequestView { method: Method::Head, url: probe_url(port) })
}

/// The registration that the session `info` asks for.
pub open spec fn registration_of(info: PersistentInfoView) -> ActionView {
    ActionView::RegisterWebhook {
        request: RequestView {
            method: Method::Post,
            url: webhook_url(info.trello_api, callback_url(info.ip, info.port), info.todo_board.id),
        },
        callback_url: callback_url(info.ip, info.port),
        board_id: info.todo_board.id,
    }
}

/// A session that gives up for `error`.
pub open spec fn failure_of(error: StartupError) -> (BootstrapView, ActionView) {
    (BootstrapView::Failed(error), ActionView::Exit { status: EXIT_FAILURE, failure: Some(error) })
}

/// How a session begins: it asks for the boards of the account.
pub open spec fn first_step(config: ConfigView) -> (BootstrapView, ActionView) {
    (
        BootstrapView::FetchingBoards { config },
        ActionView::FetchBoards(
            RequestView { method: Method::Get, url: boards_url(client_of(config)) },
        ),
    )
}

/// How a process begins: with the first step of a session where the
/// environment makes a configuration, and else with the end of one that
/// never sent anything.
pub open spec fn launch_step(environment: EnvironmentView) -> (BootstrapView, ActionView) {
    match config_of(environment) {
        Ok(config) => first_step(config),
        Err(cause) => failure_of(StartupError::Config(cause)),
    }
}

/// The state that follows `state` on `event`, and what is to be done. An
/// event that the state does not await changes nothing and asks for
/// nothing.
pub open spec fn next_step(state: BootstrapView, event: EventView) -> (BootstrapView, ActionView) {
    match (state, event) {
        (BootstrapView::FetchingBoards { config }, EventView::BoardsFetched(boards)) => {
            match board_named(boards, todo_board_name()) {
                Some(board) => (
                    BootstrapView::Binding { info: session_of(config, board) },
                    listener_of(session_of(config, board)),
                ),
                None => failure_of(StartupError::BoardMissing),
            }
        },
        (BootstrapView::FetchingBoards { .. }, EventView::BoardsFailed) => failure_of(
            StartupError::BoardsUnavailable,
        ),
        (BootstrapView::Binding { info }, EventView::ListenerBound) => (
            BootstrapView::Probing { info },
            probe_of(info.port),
        ),
        (BootstrapView::Binding { .. }, EventView::ListenerBindFailed) => failure_of(
            StartupError::Bind,
        ),
        (BootstrapView::Probing { info }, EventView::ProbeAnswered(status)) => {
            if status_is_success(status) {
                (BootstrapView::Registering, registration_of(info))
            } else {
                failure_of(StartupError::ProbeRefused(status))
            }
        },
        (BootstrapView::Probing { .. }, EventView::ProbeFailed) => failure_of(
            StartupError::ProbeUnanswered,
        ),
        (BootstrapView::Registering, EventView::WebhookRegistered) => (
            BootstrapView::Serving,
            ActionView::AwaitInterrupt,
        ),
        (BootstrapView::Registering, EventView::WebhookFailed) => failure_of(
            StartupError::WebhookUnregistered,
        ),
        (BootstrapView::Serving, EventView::Interrupted) => (
            BootstrapView::Stopping,
            ActionView::StopListener { graceful: true },
        ),
        (BootstrapView::Stopping, EventView::ListenerStopped) => (
            BootstrapView::Stopped,
            ActionView::Exit { status: EXIT_SUCCESS, failure: None },
        ),
        _ => (state, ActionView::Nothing),
    }
}

/// A session that gives up for `error`.
fn fail(error: StartupError) -> (next: (Bootstrap, Action))
    ensures
        (next.0@, next.1@) == failure_of(error),
{
    (Bootstrap::Failed(error), Action::Exit { status: EXIT_FAILURE, failure: Some(error) })
}

impl Bootstrap {
    /// Begins a process on what the environment holds. Where that makes a
    /// configuration, the session begins as [`Bootstrap::start`] says;
    /// where it does not, the process is to exit at once, with a status
    /// other than zero and before anything is sent.
    pub fn launch(environment: Environment) -> (next: (Bootstrap, Action))
        ensures
            (next.0@, next.1@) == launch_step(environment@),
    {
        match Config::from_environment(environment) {
            Ok(config) => Bootstrap::start(config),
            Err(cause) => fail(StartupError::Config(cause)),
        }
    }

    /// Begins a session: the first thing to do is to ask Trello for the
    /// boards of the account.
    pub fn start(config: Config) -> (next: (Bootstrap, Action))
        ensures
            (next.0@, next.1@) == first_step(config@),
    {
        let api = TrelloAPI::new(config.trello_api_key.clone(), config.trello_api_token.clone());
        let request = api.get_boards();
        (Bootstrap::FetchingBoards { config }, Action::FetchBoards(request))
    }

    /// Takes the report of what the last action led to, and says what is
    /// to be done next.
    pub fn step(self, event: Event) -> (next: (Bootstrap, Action))
        ensures
            (next.0@, next.1@) == next_step(self@, event@),
    {
        match self {
            Bootstrap::FetchingBoards { config } => match event {
                Event::BoardsFetched(boards) => {
                    let api = TrelloAPI::new(
                        config.trello_api_key.clone(),
                        config.trello_api_token.clone(),
                    );
                    proof {
                        reveal_strlit("To-Dos");
                    }
                    match api.get_board(boards, "To-Dos") {
                        Some(board) => {
                            let info = PersistentInfo::new(
                                &board,
                                &api,
                                config.public_ip.as_str(),
                                config.port,
                            );
                            let session = info.clone();
                            let host = String::from_str("0.0.0.0");
                            (
                                Bootstrap::Binding { info },
                                Action::Listen { host, port: config.port, workers: WORKERS, session },
                            )
                        },
                        None => fail(StartupError::BoardMissing),
                    }
                },
                Event::BoardsFailed => fail(StartupError::BoardsUnavailable),
                _ => (Bootstrap::FetchingBoards { config }, Action::Nothing),
            },
            Bootstrap::Binding { info } => match event {
                Event::ListenerBound => {
                    let mut url = String::from_str("http://localhost:");
                    url.append(u16_to_decimal(info.port()).as_str());
                    url.append("/");
                    let probe = Request { method: Method::Head, url };
                    (Bootstrap::Probing { info }, Action::Probe(probe))
                },
                Event::ListenerBindFailed => fail(StartupError::Bind),
                _ => (Bootstrap::Binding { info }, Action::Nothing),
            },
            Bootstrap::Probing { info } => match event {
                Event::ProbeAnswered(status) => {
                    if crate::http::is_success(status) {
                        let request = info.setup_webhooks();
                        let callback_url = info.callback_url();
                        let board_id = info.tracked_board().id();
                        (
                            Bootstrap::Registering,
                            Action::RegisterWebhook { request, callback_url, board_id },
                        )
                    } else {
                        fail(StartupError::ProbeRefused(status))
                    }
                },
                Event::ProbeFailed => fail(StartupError::ProbeUnanswered),
                _ => (Bootstrap::Probing { info }, Action::Nothing),
            },
            Bootstrap::Registering => match event {
                Event::WebhookRegistered => (Bootstrap::Serving, Action::AwaitInterrupt),
                Event::WebhookFailed => fail(StartupError::WebhookUnregistered),
                _ => (Bootstrap::Registering, Action::Nothing),
            },
            Bootstrap::Serving => match event {
                Event::Interrupted => (
                    Bootstrap::Stopping,
                    Action::StopListener { graceful: true },
                ),
                _ => (Bootstrap::Serving, Action::Nothing),
            },
            Bootstrap::Stopping => match event {
                Event::ListenerStopped => (
                    Bootstrap::Stopped,
                    Action::Exit { status: EXIT_SUCCESS, failure: None },
                ),
                _ => (Bootstrap::Stopping, Action::Nothing),
            },
            Bootstrap::Stopped => (Bootstrap::Stopped, Action::Nothing),
            Bootstrap::Failed(error) => (Bootstrap::Failed(error), Action::Nothing),
        }
    }
}

/// The state in which a session that stands in `state` is left by
/// `events`, taken one after the other.
pub open spec fn state_after(state: BootstrapView, events: Seq<EventView>) -> BootstrapView
    decreases events.len(),
{
    if events.len() == 0 {
        state
    } else {
        state_after(next_step(state, events.first()).0, events.drop_first())
    }
}

/// What a session that stands in `state` asks for on each of `events`,
/// taken one after the other.
pub open spec fn actions_of(state: BootstrapView, events: Seq<EventView>) -> Seq<ActionView>
    decreases events.len(),
{
    if events.len() == 0 {
        Seq::empty()
    } else {
        seq![next_step(state, events.first()).1] + actions_of(
            next_step(state, events.first()).0,
            events.drop_first(),
        )
    }
}

/// Whether `event` says that the probe did not succeed: it got no answer,
/// or an answer whose status is no success.
pub open spec fn is_failed_probe(event: EventView) -> bool {
    match event {
        EventView::ProbeFailed => true,
        EventView::ProbeAnswered(status) => !status_is_success(status),
        _ => false,
    }
}

/// Whether `event` says that the probe succeeded.
pub open spec fn is_live_probe(event: EventView) -> bool {
    event matches EventView::ProbeAnswered(status) && status_is_success(status)
}

/// A session asks for one action on each event, and the action on the
/// event at `i` is the one that the state reached by the events before it
/// gives.
pub proof fn lemma_action_at(state: BootstrapView, events: Seq<EventView>, i: int)
    requires
        0 <= i < events.len(),
    ensures
        actions_of(state, events).len() == events.len(),
        actions_of(state, events)[i] == next_step(state_after(state, events.take(i)), events[i]).1,
    decreases events.len(),
{
    lemma_actions_len(state, events);
    let after = next_step(state, events.first()).0;
    let rest = events.drop_first();
    if i == 0 {
        assert(events.take(0) =~= Seq::<EventView>::empty());
    } else {
        lemma_action_at(after, rest, i - 1);
        lemma_actions_len(after, rest);
        assert(events.take(i).first() == events.first());
        assert(events.take(i).drop_first() =~= rest.take(i - 1));
    }
}

/// A session asks for one action on each event.
pub proof fn lemma_actions_len(state: BootstrapView, events: Seq<EventView>)
    ensures
        actions_of(state, events).len() == events.len(),
    decreases events.len(),
{
    if events.len() > 0 {
        lemma_actions_len(next_step(state, events.first()).0, events.drop_first());
    }
}

/// The webhook is registered on one occasion only: the session was
/// probing its listener and the probe has just been answered with a
/// success status.
pub proof fn lemma_registration_needs_live_probe(state: BootstrapView, event: EventView)
    requires
        next_step(state, event).1 is RegisterWebhook,
    ensures
        state is Probing,
        is_live_probe(event),
        next_step(state, event).1 == registration_of(state->Probing_info),
{
}

/// In any run, whatever the driver reports, each registration of the
/// webhook answers a probe that has just succeeded.
pub proof fn lemma_run_registers_only_after_live_probe(
    state: BootstrapView,
    events: Seq<EventView>,
    i: int,
)
    requires
        0 <= i < events.len(),
        actions_of(state, events)[i] is RegisterWebhook,
    ensures
        is_live_probe(events[i]),
        state_after(state, events.take(i)) is Probing,
{
    lemma_action_at(state, events, i);
    lemma_registration_needs_live_probe(state_after(state, events.take(i)), events[i]);
}

/// A session that has not yet been told that its listener is bound comes
/// to probe, and so to register, only after it has been told so.
pub proof fn lemma_probing_follows_listener_bound(state: BootstrapView, events: Seq<EventView>)
    requires
        state is FetchingBoards || state is Binding,
        state_after(state, events) is Probing,
    ensures
        exists|j: int| 0 <= j < events.len() && #[trigger] events[j] is ListenerBound,
    decreases events.len(),
{
    if events.len() > 0 {
        let after = next_step(state, events.first()).0;
        let rest = events.drop_first();
        if state is Binding && events.first() is ListenerBound {
            assert(events[0] is ListenerBound);
        } else if after is Failed {
            if rest.len() > 0 {
                lemma_ended_session_is_inert(after, rest, 0);
            }
        } else {
            lemma_probing_follows_listener_bound(after, rest);
            let j = choose|j: int| 0 <= j < rest.len() && #[trigger] rest[j] is ListenerBound;
            assert(events[j + 1] is ListenerBound);
        }
    }
}

/// In a whole run from the launch on, the webhook is registered only
/// after the listener has been reported bound and a probe of it has just
/// succeeded: a callback address that is not live is never registered.
pub proof fn lemma_registration_follows_listener_and_probe(
    environment: EnvironmentView,
    events: Seq<EventView>,
    i: int,
)
    requires
        0 <= i < events.len(),
        actions_of(launch_step(environment).0, events)[i] is RegisterWebhook,
    ensures
        !(launch_step(environment).1 is RegisterWebhook),
        is_live_probe(events[i]),
        exists|j: int| 0 <= j < i && #[trigger] events[j] is ListenerBound,
{
    let start = launch_step(environment).0;
    let before = events.take(i);
    lemma_run_registers_only_after_live_probe(start, events, i);
    if start is Failed {
        if before.len() > 0 {
            lemma_ended_session_is_inert(start, before, 0);
        }
    } else {
        lemma_probing_follows_listener_bound(start, before);
        let j = choose|j: int| 0 <= j < before.len() && #[trigger] before[j] is ListenerBound;
        assert(events[j] is ListenerBound);
    }
}

/// Where the environment makes no configuration, the process exits at
/// once with a status other than zero, and whatever is reported to it
/// afterwards it words no request and asks for nothing.
pub proof fn lemma_bad_environment_exits_before_any_request(
    environment: EnvironmentView,
    events: Seq<EventView>,
    i: int,
)
    requires
        config_of(environment) is Err,
        0 <= i < events.len(),
    ensures
        launch_step(environment).1 == (ActionView::Exit {
            status: EXIT_FAILURE,
            failure: Some(StartupError::Config(config_of(environment)->Err_0)),
        }),
        EXIT_FAILURE != 0,
        actions_of(launch_step(environment).0, events)[i] == ActionView::Nothing,
{
    lemma_ended_session_is_inert(launch_step(environment).0, events, i);
}

/// A probe that fails ends the session at once: the state is a failure,
/// the action is to exit with a status other than zero, and the webhook
/// is not registered.
pub proof fn lemma_failed_probe_aborts(info: PersistentInfoView, event: EventView)
    requires
        is_failed_probe(event),
    ensures
        next_step(BootstrapView::Probing { info }, event).0 is Failed,
        next_step(BootstrapView::Probing { info }, event).1 matches ActionView::Exit {
            status,
            failure,
        } && status != 0 && failure is Some,
{
}

/// A session that has failed or has stopped stays as it is and asks for
/// nothing more, whatever is reported to it.
pub proof fn lemma_ended_session_is_inert(state: BootstrapView, events: Seq<EventView>, i: int)
    requires
        state is Failed || state is Stopped,
        0 <= i < events.len(),
    ensures
        state_after(state, events) == state,
        actions_of(state, events)[i] == ActionView::Nothing,
    decreases events.len(),
{
    let rest = events.drop_first();
    lemma_actions_len(state, rest);
    if rest.len() > 0 {
        lemma_ended_session_is_inert(state, rest, if i == 0 {
            0
        } else {
            i - 1
        });
    } else {
        assert(state_after(state, rest) == state);
    }
}

/// Once a probe has failed, the webhook is never registered: the session
/// exits with a status other than zero on the failed probe and asks for
/// nothing on anything that is reported after it.
pub proof fn lemma_no_registration_after_failed_probe(
    info: PersistentInfoView,
    events: Seq<EventView>,
    i: int,
)
    requires
        0 <= i < events.len(),
        is_failed_probe(events[0]),
    ensures
        !(actions_of(BootstrapView::Probing { info }, events)[i] is RegisterWebhook),
        i > 0 ==> actions_of(BootstrapView::Probing { info }, events)[i] == ActionView::Nothing,
        state_after(BootstrapView::Probing { info }, events) is Failed,
{
    let probing = BootstrapView::Probing { info };
    let failed = next_step(probing, events.first()).0;
    let rest = events.drop_first();
    lemma_failed_probe_aborts(info, events[0]);
    lemma_actions_len(failed, rest);
    if rest.len() > 0 {
        lemma_ended_session_is_inert(failed, rest, if i == 0 {
            0
        } else {
            i - 1
        });
    } else {
        assert(state_after(failed, rest) == failed);
    }
}

/// The callback address is never a probe address: whatever the host and
/// the ports, the address that Trello is told to report to differs from
/// the address on which the listener probes itself.
pub proof fn lemma_callback_url_is_no_probe_url(ip: Seq<char>, port: u16, probe_port: u16)
    ensures
        callback_url(ip, port) != probe_url(probe_port),
{
    reveal_strlit("/trellocallbacks/todo-board");
    reveal_strlit("/");
    let callback = callback_url(ip, port);
    let probe = probe_url(probe_port);
    assert(callback.last() == 'd');
    assert(probe.last() == '/');
}

/// The webhook is registered with the full callback address: plain HTTP,
/// the host under which the process is reached from outside, its port and
/// the callback path, for the board that the session tracks; and that
/// address is not the probe's.
pub proof fn lemma_registration_uses_callback_url(state: BootstrapView, event: EventView)
    requires
        next_step(state, event).1 is RegisterWebhook,
    ensures
        state matches BootstrapView::Probing { info } && next_step(state, event).1
            == (ActionView::RegisterWebhook {
            request: RequestView {
                method: Method::Post,
                url: webhook_url(
                    info.trello_api,
                    "http://"@ + info.ip + ":"@ + decimal(info.port as nat)
                        + "/trellocallbacks/todo-board"@,
                    info.todo_board.id,
                ),
            },
            callback_url: "http://"@ + info.ip + ":"@ + decimal(info.port as nat)
                + "/trellocallbacks/todo-board"@,
            board_id: info.todo_board.id,
        }),
        forall|probe_port: u16|
            next_step(state, event).1->RegisterWebhook_callback_url != #[trigger] probe_url(
                probe_port,
            ),
{
    let info = state->Probing_info;
    assert forall|probe_port: u16|
        callback_url(info.ip, info.port) != #[trigger] probe_url(probe_port) by {
        lemma_callback_url_is_no_probe_url(info.ip, info.port, probe_port);
    }
}

} // verus!
