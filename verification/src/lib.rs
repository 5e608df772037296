//! Launch configuration for the Storyblok MCP bridge.
//!
//! An editor starts the bridge as a context server. Before it can, a helper
//! package has to be installed at one pinned version, and the command to
//! run has to be put together: the runtime, the entry script of the package,
//! the endpoint to connect to, and the credentials as environment
//! variables. This library decides what has to be done and in what order;
//! it does none of the work itself. The host asks `launch::Launcher` what
//! to do next, does it, and reports back, until it is handed the command.
//!
//! Credentials come from one of two places, fixed for a deployment: the
//! settings that the editor keeps for the context server (`settings`), or a
//! flat environment file (`env_file`). `configuration` holds what the
//! editor shows to a user who sets the context server up.
//!
//! Every function is verified against its contract. The contracts speak of
//! sequences of characters; `run` states what holds of a launch as a whole.

pub mod command;
pub mod configuration;
pub mod env_file;
pub mod json;
pub mod launch;
pub mod package;
pub mod run;
pub mod settings;
pub mod source;
pub mod text;
