//! The core of a bulk HTTP endpoint prober.
//!
//! Given a list of base URLs and a list of candidate paths, a run requests
//! every pair of them and stores each response as a transcript file named by
//! the URL that was requested. This library holds the decisions of such a
//! run; sending the requests and writing the files is left to its caller.
//!
//! - [`target`] generates the targets: per path, that path with every URL.
//! - [`dispatch`] decides which probe is started when, with a cap on the
//!   probes in flight and one batch drained before the next is begun.
//! - [`outcome`] classifies what came back as a success or a failure.
//! - [`route`] sends a success to the writer and a failure to the operator.
//! - [`transcript`] places and encodes the transcript of a success.
//! - [`digest`] and [`status`] hold the two calls into outside crates: the
//!   SHA-256 of a URL and the reason phrase of a status code.
//! - [`settings`] holds the fixed settings of a run.

pub mod digest;
pub mod dispatch;
pub mod outcome;
pub mod route;
pub mod settings;
pub mod status;
pub mod target;
pub mod transcript;
