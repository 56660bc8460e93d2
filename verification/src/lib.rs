//! Command handlers and start-up rules of the Chronicle Builder desktop shell.
//!
//! The handlers are plain functions over strings; the windowing runtime that
//! invokes them lives outside this library and only passes values in and out.

pub mod commands;
pub mod startup;
