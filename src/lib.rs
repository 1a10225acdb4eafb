//! A single-shot Chrome DevTools session driver.
//!
//! The library holds the decisions of a session: which command-line flags
//! combine into a valid configuration, how a browser is launched, which
//! cookies a clean pass deletes, and the order of every step of a run.
//! The program around it performs each step against a real browser.
pub mod config;
pub mod cookies;
pub mod launch;
pub mod laws;
pub mod session;
