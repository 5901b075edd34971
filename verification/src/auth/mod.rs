//! Nanjing University's unified authentication: the form it expects, the
//! encryption it applies and the slider captcha it asks to solve.

pub mod crypto;
pub mod form;
pub mod login;
pub mod captcha;
pub mod device;
pub mod models;
pub mod secret;
mod random;
