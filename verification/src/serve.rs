//! The `serve` command.

use vstd::prelude::*;
use vstd::string::StringExecFns;
use crate::cli::{command_name, Command};
use crate::error::AppError;
use crate::server::{Server, ServerState};

verus! {

/// How to serve.
#[derive(Debug, Clone, PartialEq)]
pub enum ServeCommand {
    ByParams { host: String, port: u16 },
}

impl ServeCommand {
    /// Reads a `serve` command line; another command is refused with
    /// `ConvertCommand`.
    pub fn try_from(value: Command) -> (r: Result<ServeCommand, AppError>)
        ensures
            match value {
                Command::Serve { host, port } => r == Ok::<ServeCommand, AppError>(
                    ServeCommand::ByParams { host, port },
                ),
                other => r matches Err(AppError::ConvertCommand(from, to)) && from@ == command_name(
                    other,
                ) && to@ == "serve"@,
            },
    {
        match value {
            Command::Serve { host, port } => Ok(ServeCommand::ByParams { host, port }),
            other => Err(AppError::ConvertCommand(other.to_string(), String::from_str("serve"))),
        }
    }

    /// The server that this command starts: bound for the command's host
    /// and port, and not started yet.
    pub fn execute(&self) -> (server: Server)
        ensures
            self matches ServeCommand::ByParams { host, port } && server.host@ == host@
                && server.port == port,
            server.state == ServerState::Created,
    {
        match self {
            ServeCommand::ByParams { host, port } => Server::new(host.as_str(), *port),
        }
    }
}

} // verus!
