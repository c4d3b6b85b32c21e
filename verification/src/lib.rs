//! The serving runtime for locally hosted language models, with its
//! decisions verified.
//!
//! The runtime serves chat completions from one live inference engine. This
//! library holds what the runtime decides and computes; the disk, the
//! network, the terminal and the engine itself are reached by the program
//! around it, which hands their answers in as plain values.
//!
//! - [`shared_rw`]: the shared model context, which knows whether an engine
//!   is live and says what the engine must be told to do;
//! - [`tokenizer_config`]: chat messages, the tokenizer configuration, and
//!   the rendering of its chat template into a prompt;
//! - [`chat`]: the chat-completion pipeline, from a request to a prepared
//!   completion and from the engine's chunks to the answer;
//! - [`request`]: the text of the request that the engine takes;
//! - [`interactive`]: a conversation on the terminal, turn by turn;
//! - [`server`]: the life of the HTTP server;
//! - [`db`]: the clock of the conversation store;
//! - [`cli`] and [`args`]: the command line;
//! - [`serve`], [`list`], [`pull`], [`create`], [`native`]: the commands;
//! - [`objs`], [`error`], [`service`], [`text`]: the objects, the errors,
//!   the collaborators and the text operations that the rest stands on.
//!
//! Contracts speak of strings by their characters (`s@`). A function that
//! calls the template engine or the regular expression engine states its
//! result over a named function of the call's arguments; each call into
//! another crate stands in one small function whose contract is taken on
//! trust and says so.

pub mod args;
pub mod chat;
pub mod cli;
pub mod create;
pub mod db;
pub mod error;
pub mod interactive;
pub mod list;
pub mod native;
pub mod objs;
pub mod pull;
pub mod request;
pub mod serve;
pub mod server;
pub mod service;
pub mod shared_rw;
pub mod text;
pub mod tokenizer_config;
