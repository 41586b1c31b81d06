//! Decision logic of a dynamic-DNS updater for one Cloudflare `A` record.
//!
//! The crate decides; it performs no I/O. A caller carries out the HTTP
//! requests the library asks for and hands the replies back.

pub mod cloudflare;
pub mod config;
pub mod cycle;
pub mod http;
pub mod ip;
pub mod json;
pub mod launch;
pub mod scheduler;
pub mod text;
