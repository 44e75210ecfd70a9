//! Handling of model turns that end in a failure.
//!
//! A thread may have a failure handler: prose of the user's that the model is to follow when a
//! request of a turn fails, and the number of times that it may be followed within one turn.
//!
//! - [`handler`] has the rules on handlers, [`store`] the statements that keep them in a table,
//!   and [`table`] what follows on a model of that table.
//! - [`tools`] serves the calls by which a model reads, writes and clears its thread's handler;
//!   [`tool_spec`] presents them.
//! - [`continuation`] decides whether a turn goes on after a failure, and [`failure`] writes what
//!   the model is then told, with [`summary`] on what the tools of the turn did, according to its
//!   [`history`].
//! - [`unload`] decides on requests to unload a thread, and [`requests`] follows them one after the
//!   other.
//!
//! The library decides and computes. Databases, hosts and clients are its callers' business: where
//! something has to be waited for, a function says what, and another takes what came of it.

pub mod continuation;
pub mod failure;
pub mod handler;
pub mod history;
pub mod json;
pub mod lines;
pub mod outcome;
pub mod requests;
pub mod store;
pub mod summary;
pub mod table;
pub mod text;
pub mod thread_id;
pub mod tool_spec;
pub mod tools;
pub mod trim;
pub mod unload;
