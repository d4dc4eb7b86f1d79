use vstd::prelude::*;

pub mod json;
pub mod codec;
pub mod text;
pub mod seqs;
pub mod model;
pub mod client;
pub mod requests;
pub mod worker;
pub mod prefs;
pub mod command;
pub mod config;
pub mod messages;
pub mod cache;
pub mod state;
pub mod events;
pub mod actions;
pub mod layout;
pub mod keys;
pub mod mouse;
pub mod flow;
pub mod steps;
pub mod driver;
pub mod window;

verus! {

} // verus!
