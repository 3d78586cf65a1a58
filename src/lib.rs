//! Balloon notification client: rendering of award slips, login-page token
//! extraction, request paths for the two server styles, and the pause-aware
//! dispatch loop that drives fetching, printing and acknowledgement.
pub mod balloon;
pub mod client;
pub mod console;
pub mod csrf;
pub mod dispatch;
pub mod encode;
pub mod error;
pub mod text;
