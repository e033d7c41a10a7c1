//! Password authentication with server-tracked login sessions: credential
//! checks, session issue and resolution with inactivity expiry, optimistic
//! password changes, and the decisions of the background expiry sweeper.
use vstd::prelude::*;

pub mod args;
pub mod configs;
pub mod reaper;
pub mod sessions;
pub mod state;
pub mod users;
pub mod web;
