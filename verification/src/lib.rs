//! The decisions of a daemon that hosts sessions: shells in sandboxes, with
//! their packages and their files, that clients attach to and leave again.
//!
//! Everything here takes plain values and gives plain values. What reads,
//! writes and waits is the driver's part: it reports what happened, is told
//! what to do next, and does that. So every decision, and every order of steps
//! that matters, is stated as a contract and proved.
//!
//! From the outside in:
//! - [`cli`] and [`boot`]: the command line, and how the daemon comes up.
//! - [`maintenance`]: when the cache is cleaned.
//! - [`rpc`] and [`upload`]: the calls that clients make, and the files that
//!   they send.
//! - [`session`], [`promotion`] and [`attach`]: the life of a session.
//! - [`launch`], [`host`], [`terminal`], [`queue`]: its shell, and the
//!   terminal that the shell runs in.
//! - [`binding`] and [`exit_prompt`]: a client that is attached, and what it
//!   is asked when the shell exits.
//! - [`hooks`], [`hook_attempt`], [`session_command`] and [`nsenter`]: programs
//!   that run in a session besides its shell.
//! - [`env`], [`paths`], [`text`]: variables, paths and words.

pub mod attach;
pub mod binding;
pub mod boot;
pub mod cli;
pub mod env;
pub mod exit_prompt;
pub mod hook_attempt;
pub mod hooks;
pub mod host;
pub mod launch;
pub mod maintenance;
pub mod nsenter;
pub mod paths;
pub mod promotion;
pub mod queue;
pub mod rpc;
pub mod session;
pub mod session_command;
pub mod terminal;
pub mod text;
pub mod upload;
