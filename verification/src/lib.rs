//! Verified core of a render-worker process supervisor.
//!
//! The crate models the decision logic of a small daemon that launches,
//! signals, and tracks external render-client processes, one per worker
//! name, and of the control surface that directs it:
//!
//! - [`registry`]: the authoritative mapping from worker name to running
//!   process handle, and the decisions taken for start, send and status.
//! - [`command`]: the closed set of advisory commands a worker understands
//!   and their exact wire encoding.
//! - [`launch`]: the preparation steps that guarantee the worker executable
//!   and its directories exist before a spawn, and the assembled command
//!   line.
//! - [`protocol`]: the instruction set of the network control endpoint and
//!   the request body the control client sends.
//! - [`config`]: the static configuration and its derived defaults.
//! - [`hardware`]: GPU enumeration used to seed the generated configuration.
//! - [`text`]: small verified text utilities the other modules build on.
//!
//! All process, file and network I/O lives outside this crate; the library
//! is handed the outcome of each outside step as a plain value and decides
//! what happens next.

pub mod command;
pub mod config;
pub mod hardware;
pub mod launch;
pub mod protocol;
pub mod registry;
pub mod text;
