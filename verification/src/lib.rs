//! Verified core of a client for Nanjing University web services: unified
//! authentication, the aTrust Web VPN, the graduate school site and the
//! command-line and MCP front ends built on them.

pub mod text;
pub mod weburl;
pub mod html;
pub mod webvpn;
pub mod graduate_school;
pub mod auth;
pub mod ehall;
pub mod cli;
pub mod mcp;
