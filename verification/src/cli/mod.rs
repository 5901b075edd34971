//! The decisions of the command-line tool: which command does what, where
//! downloads go, and how cached article lists are read.

pub mod download;
pub mod auth;
pub mod graduate_school;
