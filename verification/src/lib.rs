//! Timed, authenticated course registration: the data and the decisions of
//! the workflow.

pub mod cli;
pub mod course;
pub mod html;
pub mod json;
pub mod login;
pub mod requester;
pub mod retry;
pub mod schedule;
