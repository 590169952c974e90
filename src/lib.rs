//! Lifecycle logic for locally run, containerised game servers.
//!
//! - `status`: the server status and its reconciliation with container states.
//! - `server`: the persisted server and the decisions of each lifecycle command.
//! - `streams`: the table of live log streams and the log-following task's decisions.
//! - `install`: the install runner's decisions and the sign-in links in its output.
//! - `runtime`: what is asked of the container runtime (container specifications, ids).
//! - `games`, `catalog`, `manager`: game templates, the built-in ones, and their store.
//! - `processor`: rewriting configuration files from template variables.
//! - `daemon`, `files`: reports about the daemon and about a server's files.
//! - `text`, `vars`: text operations and the ordered name-to-value map they rest on.

pub mod status;
pub mod text;
pub mod vars;
pub mod catalog;
pub mod daemon;
pub mod files;
pub mod games;
pub mod install;
pub mod manager;
pub mod processor;
pub mod runtime;
pub mod server;
pub mod streams;
