//! A client library for driving long-running operations against a search
//! cluster: it tracks asynchronous server-side jobs to completion, resolves
//! cluster connection settings, frames the JSON request bodies the commands
//! send, and models the interactive index browser's state.

#![allow(unused_imports)]

use vstd::prelude::*;

pub mod application;
pub mod commands;
pub mod config;
pub mod json_text;
pub mod stubs;
pub mod text;
pub mod tracker;
pub mod ui_app;
pub mod utils;
