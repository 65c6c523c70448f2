//! Coverage of running Rust applications over HTTP.
//!
//! Two sides meet here. The server, in an instrumented application, answers with the profile data
//! of its process ([`server`], [`headers`]). The client collects that data, directly or from a
//! Kubernetes pod, and makes reports of it ([`client`] and the modules of its operations).
//!
//! Nothing in this library touches a file, a program, the network or the clock. An operation of
//! the client says as a [`request::Request`] what is to be done next and goes on from the
//! [`request::Reply`]; the server is handed what it answers with. Every step has a contract, and
//! what holds of whole runs is proved in functions whose names begin with `law_`.
//!
//! - [`pod`]: which pod; [`collect`]: profile data from a server or a pod;
//! - [`merge`]: raw profiles into one; [`report`]: what `llvm-cov` makes of it;
//!   [`pipeline`]: both in order; [`tool_search`]: where the LLVM tools are;
//! - [`summary`]: the printed summary, and the reset of the counters;
//! - [`round_trip`]: server and client together; [`operations`]: what the functions of the library
//!   give for what they are given;
//! - [`demo`]: the routes of the demo application;
//! - [`text`], [`path`], [`encoding`], [`status`], [`error`]: what the others are made of.

pub mod client;
pub mod collect;
pub mod demo;
pub mod encoding;
pub mod error;
pub mod headers;
pub mod merge;
pub mod operations;
pub mod path;
pub mod pipeline;
pub mod pod;
pub mod report;
pub mod request;
pub mod round_trip;
pub mod server;
pub mod status;
pub mod summary;
pub mod text;
pub mod tool_search;
