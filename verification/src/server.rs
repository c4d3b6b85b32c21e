//! The life of the HTTP server: bind, announce readiness, serve until told
//! to shut down, run the shutdown callback, stop.
//!
//! The listener and the signals live outside this library. The server is
//! told what happened and says what to do next.

use vstd::prelude::*;
use vstd::string::StringExecFns;
use crate::cli::{parse_ranged, ranged};
use crate::error::AppError;
use crate::text::{chars_of, decimal, push_decimal, string_of};

verus! {

/// The arguments of a server that serves one model file.
#[derive(Debug, Clone, PartialEq)]
pub struct ServerArgs {
    pub host: String,
    pub port: u16,
    pub model: String,
    pub lazy_load_model: bool,
}

/// Something to run when the server shuts down.
pub trait ShutdownCallback {
    fn shutdown(&self);
}

/// For how many seconds a server that shuts down waits for the requests
/// in flight before it stops without them.
pub const SHUTDOWN_GRACE_SECONDS: u64 = 30;

/// What the server answers to a ping: the status 200 and the body `pong`.
pub fn ping() -> (answer: (u16, &'static str))
    ensures
        answer.0 == 200,
        answer.1@ == "pong"@,
{
    (200, "pong")
}

/// The port that serves where none is given.
pub open spec fn default_port() -> u16 {
    1135
}

/// The port that the environment asks for: the number that the variable
/// holds where it holds a port, else the default.
pub open spec fn env_port(value: Option<Seq<char>>) -> u16 {
    match value {
        Some(text) => match ranged(text, 0, 65535) {
            Ok(port) => port as u16,
            Err(_) => default_port(),
        },
        None => default_port(),
    }
}

/// What is said of a model file that is not there.
pub open spec fn no_model_message(model: Seq<char>) -> Seq<char> {
    "model file does not exist at location: '"@ + model + "'"@
}

/// The port that the environment asks for.
pub fn port_from_env_vars(value: Option<String>) -> (port: u16)
    ensures
        port == env_port(value.deep_view()),
{
    match value {
        Some(text) => match parse_ranged(text.as_str(), 0, 65535) {
            Ok(port) => port as u16,
            Err(_) => 1135,
        },
        None => 1135,
    }
}

impl ServerArgs {
    /// The arguments of a server for one model file: the host, `127.0.0.1`
    /// unless given; the port, from the environment unless given; and the
    /// model, which must exist.
    pub fn resolve(
        host: Option<String>,
        port: Option<u16>,
        env: Option<String>,
        model: String,
        model_exists: bool,
    ) -> (r: Result<ServerArgs, AppError>)
        ensures
            r is Ok <==> model_exists,
            r matches Ok(args) ==> {
                &&& args.host@ == (match host {
                    Some(host) => host@,
                    None => "127.0.0.1"@,
                })
                &&& args.port == (match port {
                    Some(port) => port,
                    None => env_port(env.deep_view()),
                })
                &&& args.model == model
                &&& !args.lazy_load_model
            },
            r matches Err(e) ==> e matches AppError::BadRequest(m) && m@ == no_model_message(model@),
    {
        if !model_exists {
            return Err(
                AppError::BadRequest(
                    crate::text::concat3(
                        "model file does not exist at location: '",
                        model.as_str(),
                        "'",
                    ),
                ),
            );
        }
        let host = match host {
            Some(host) => host,
            None => String::from_str("127.0.0.1"),
        };
        let port = match port {
            Some(port) => port,
            None => port_from_env_vars(env),
        };
        Ok(ServerArgs { host, port, model, lazy_load_model: false })
    }
}

/// Where a server stands in its life.
#[derive(Debug, Clone, Copy, PartialEq, Eq, Structural)]
pub enum ServerState {
    Created,
    Binding,
    Listening,
    Draining,
    Stopped,
}

/// What happens to a server.
#[derive(Debug, PartialEq)]
pub enum ServerEvent {
    /// The server is started.
    Start,
    /// The listener is bound.
    Bound,
    /// The listener could not be bound.
    BindFailed(String),
    /// A shutdown was requested, by the shutdown channel or by a signal.
    Shutdown,
    /// The server has served its last request.
    Served,
    /// Serving failed.
    ServeFailed(String),
}

/// What the driver of a server does next.
#[derive(Debug, Clone, Copy, PartialEq, Eq, Structural)]
pub enum ServerAction {
    /// Bind a listener to the server's address.
    Bind,
    /// Announce that the server listens, and serve.
    Ready,
    /// Run the shutdown callback, then let the requests in flight finish.
    Callback,
    /// Return success.
    Finish,
    /// Return the failure.
    Fail,
    /// Nothing.
    Ignore,
}

/// A server bound for one address.
#[derive(Debug, PartialEq)]
pub struct Server {
    pub host: String,
    pub port: u16,
    pub state: ServerState,
}

/// The address `host:port`.
pub open spec fn address(host: Seq<char>, port: u16) -> Seq<char> {
    host + ":"@ + decimal(port as nat)
}

/// The state of a server after an event.
pub open spec fn server_next(state: ServerState, event: ServerEvent) -> ServerState {
    match (state, event) {
        (ServerState::Created, ServerEvent::Start) => ServerState::Binding,
        (ServerState::Binding, ServerEvent::Bound) => ServerState::Listening,
        (ServerState::Binding, ServerEvent::BindFailed(_)) => ServerState::Stopped,
        (ServerState::Listening, ServerEvent::Shutdown) => ServerState::Draining,
        (ServerState::Listening, ServerEvent::Served) => ServerState::Stopped,
        (ServerState::Listening, ServerEvent::ServeFailed(_)) => ServerState::Stopped,
        (ServerState::Draining, ServerEvent::Served) => ServerState::Stopped,
        (ServerState::Draining, ServerEvent::ServeFailed(_)) => ServerState::Stopped,
        _ => state,
    }
}

/// What the driver does after an event.
pub open spec fn server_action(state: ServerState, event: ServerEvent) -> ServerAction {
    match (state, event) {
        (ServerState::Created, ServerEvent::Start) => ServerAction::Bind,
        (ServerState::Binding, ServerEvent::Bound) => ServerAction::Ready,
        (ServerState::Binding, ServerEvent::BindFailed(_)) => ServerAction::Fail,
        (ServerState::Listening, ServerEvent::Shutdown) => ServerAction::Callback,
        (ServerState::Listening, ServerEvent::Served) => ServerAction::Finish,
        (ServerState::Listening, ServerEvent::ServeFailed(_)) => ServerAction::Fail,
        (ServerState::Draining, ServerEvent::Served) => ServerAction::Finish,
        (ServerState::Draining, ServerEvent::ServeFailed(_)) => ServerAction::Fail,
        _ => ServerAction::Ignore,
    }
}

/// How far a server is from having stopped.
pub open spec fn remaining(state: ServerState) -> nat {
    match state {
        ServerState::Created => 4,
        ServerState::Binding => 3,
        ServerState::Listening => 2,
        ServerState::Draining => 1,
        ServerState::Stopped => 0,
    }
}

impl Server {
    /// A server for `host:port` that has not started.
    pub fn new(host: &str, port: u16) -> (server: Self)
        ensures
            server.host@ == host@,
            server.port == port,
            server.state == ServerState::Created,
    {
        Server { host: String::from_str(host), port, state: ServerState::Created }
    }

    /// The address to bind, `host:port`.
    pub fn addr(&self) -> (a: String)
        ensures
            a@ == address(self.host@, self.port),
    {
        let mut out = chars_of(self.host.as_str());
        out.push(':');
        proof {
            reveal_strlit(":");
            assert(out@ =~= self.host@ + ":"@);
        }
        push_decimal(&mut out, self.port as u64);
        string_of(&out)
    }

    /// Takes one event and says what to do next. An event that does not
    /// belong to the state changes nothing.
    pub fn step(&mut self, event: &ServerEvent) -> (action: ServerAction)
        ensures
            action == server_action(old(self).state, *event),
            final(self).state == server_next(old(self).state, *event),
            final(self).host == old(self).host,
            final(self).port == old(self).port,
    {
        let (state, action) = match (self.state, event) {
            (ServerState::Created, ServerEvent::Start) => (ServerState::Binding, ServerAction::Bind),
            (ServerState::Binding, ServerEvent::Bound) => (
                ServerState::Listening,
                ServerAction::Ready,
            ),
            (ServerState::Binding, ServerEvent::BindFailed(_)) => (
                ServerState::Stopped,
                ServerAction::Fail,
            ),
            (ServerState::Listening, ServerEvent::Shutdown) => (
                ServerState::Draining,
                ServerAction::Callback,
            ),
            (ServerState::Listening, ServerEvent::Served) => (
                ServerState::Stopped,
                ServerAction::Finish,
            ),
            (ServerState::Listening, ServerEvent::ServeFailed(_)) => (
                ServerState::Stopped,
                ServerAction::Fail,
            ),
            (ServerState::Draining, ServerEvent::Served) => (
                ServerState::Stopped,
                ServerAction::Finish,
            ),
            (ServerState::Draining, ServerEvent::ServeFailed(_)) => (
                ServerState::Stopped,
                ServerAction::Fail,
            ),
            (state, _) => (state, ServerAction::Ignore),
        };
        self.state = state;
        action
    }
}

/// Runs the callback, where there is one. Tells whether one was run.
pub fn run_shutdown<C: ShutdownCallback>(callback: &Option<C>) -> (ran: bool)
    ensures
        ran == callback.is_some(),
{
    match callback {
        Some(callback) => {
            callback.shutdown();
            true
        },
        None => false,
    }
}

/// What the server returns for the event that stopped it.
pub fn server_result(event: ServerEvent) -> (r: Result<(), AppError>)
    ensures
        r == (match event {
            ServerEvent::BindFailed(detail) => Err::<(), AppError>(AppError::InternalServer(detail)),
            ServerEvent::ServeFailed(detail) => Err(AppError::InternalServer(detail)),
            _ => Ok(()),
        }),
{
    match event {
        ServerEvent::BindFailed(detail) => Err(AppError::InternalServer(detail)),
        ServerEvent::ServeFailed(detail) => Err(AppError::InternalServer(detail)),
        _ => Ok(()),
    }
}

/// No event takes a server back: every event leaves it where it is or
/// brings it closer to `Stopped`, and the shutdown callback is asked for at
/// most once, on the way from `Listening` to `Draining`.
pub proof fn lemma_server_advances(state: ServerState, event: ServerEvent)
    ensures
        remaining(server_next(state, event)) <= remaining(state),
        server_action(state, event) != ServerAction::Ignore ==> remaining(
            server_next(state, event),
        ) < remaining(state),
        server_action(state, event) == ServerAction::Callback <==> state == ServerState::Listening
            && event == ServerEvent::Shutdown,
        server_action(state, event) == ServerAction::Ready <==> state == ServerState::Binding
            && event == ServerEvent::Bound,
{
}

} // verus!
