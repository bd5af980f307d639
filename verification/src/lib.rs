//! Deployment of a kit's CI pipeline definition, as a verified decision core.
//!
//! The crate decides; it performs no I/O. A [`command::RepipeCommand`] is
//! driven by events: each call of `execute` takes what the outside world
//! answered to the previous request and returns the next request, until the
//! command finishes. Every decision on the way (which settings file, which
//! files to merge, which target, which remote calls) is a function with a
//! contract of its own.

pub mod text;

pub mod error;

pub mod options;

pub mod meta;

pub mod locate;

pub mod settings;

pub mod requirements;

pub mod scripts;

pub mod yaml;

pub mod json;

pub mod template;

pub mod merge;

pub mod credentials;

pub mod dispatch;

pub mod protocol;

pub mod command;

pub mod laws;

pub mod status;

pub mod jobs;
