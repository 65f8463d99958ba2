//! A gateway that serves bare Git repositories over Git's smart HTTP
//! protocol. The library decides and frames; it runs no program and touches
//! no file. Its caller probes and creates directories, runs `git`, and
//! hands what came of it back.

pub mod command;
pub mod config;
pub mod error;
pub mod gzip;
pub mod handler;
pub mod hooks;
pub mod parser;
pub mod pktline;
pub mod repo;
pub mod rpc;
pub mod server;
pub mod setup;
pub mod text;

pub use crate::command::GitCommand;
pub use crate::config::GitServerConfig;
pub use crate::error::GatewayError;
pub use crate::gzip::{DecodeError, MaybeGzip};
pub use crate::handler::GitHandler;
pub use crate::hooks::{HookFile, HookScripts};
pub use crate::parser::GitRequest;
pub use crate::repo::{RepoError, RepositoryRef};
pub use crate::rpc::{GitRpc, ParseError};
pub use crate::server::{GitOutput, GitResponse, GitRun, RpcError, RpcOutcome};
pub use crate::setup::{DirOutcome, RepoAction, RepoEvent, RepoSetup, Stage};
