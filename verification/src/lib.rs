//! Verified core of a custom-emoji registration service.
//!
//! The service receives a slash-command naming a remote image and a desired
//! emoji name, fetches the image, stages it in a uniquely named temporary
//! file, re-uploads it to the workspace's emoji-registration endpoint, and
//! reports the outcome back to the caller.
//!
//! This crate holds the verified logic of that pipeline: command parsing,
//! staging-path generation, request construction, reply interpretation, and
//! the state machine that drives one request from start to finish.  The
//! unverifiable edges (the HTTP server, the actual network and file system
//! calls, configuration loading) live outside and talk to this crate through
//! plain values.

pub mod config;
pub mod errors;
pub mod parse;
pub mod pipeline;
pub mod port;
pub mod reply;
pub mod staging;
pub mod text;
