//! Controller core of a desktop list/task manager.
//!
//! The crate is an event-driven reducer: every discrete input event is a
//! `Message`, the controller folds a `Message` into its own state and
//! returns an ordered batch of `Command` values describing the
//! asynchronous work to run. Results of that work re-enter the same loop
//! as new messages. Rendering, persistence and the backend service live
//! outside; only the data and control contracts that drive them are here.

pub mod app;
pub mod content;
pub mod details;
pub mod key_bind;
pub mod laws;
pub mod models;
pub mod nav;
