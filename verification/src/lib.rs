//! Checks how close the TLS certificates of a list of hosts are to expiring.
//!
//! The library holds every decision of a check: which host names are
//! acceptable, what a network exchange amounts to, how many whole days a leaf
//! certificate has left, and whether that is enough. Opening sockets and
//! printing are left to the program around it.

pub mod cert;
pub mod cli;
pub mod client_auth;
pub mod clock;
pub mod error;
pub mod prefix;
pub mod run;
pub mod ssl_config;
pub mod text;
pub mod types;
pub mod x509;
