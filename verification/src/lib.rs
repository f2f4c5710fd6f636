//! Safe, verified core of the Astrid capsule SDK.
//!
//! The SDK is the user-space "libc" of Astrid OS: every kernel service is
//! reached through a host call. This crate holds everything the SDK decides
//! or computes around those calls (request builders, wire envelopes, input
//! validation, response interpretation), each with a contract checked by
//! Verus. The host calls themselves are made by the embedding program.
//!
//! | Module          | Purpose                                          |
//! |-----------------|--------------------------------------------------|
//! | [`fs`]          | Virtual filesystem metadata and directory lists  |
//! | [`net`]         | Socket addresses, timeouts and framed reads      |
//! | [`process`]     | Host process commands and records                |
//! | [`env`]         | Capsule configuration                            |
//! | [`time`]        | Wall-clock and monotonic time                    |
//! | [`runtime`]     | Kernel socket path and caller context            |
//! | [`ipc`]         | Event bus messages and request/response          |
//! | [`kv`]          | Versioned key-value envelopes                    |
//! | [`http`]        | Outbound HTTP requests and responses             |
//! | [`uplink`]      | Direct frontend messaging                        |
//! | [`elicit`]      | Interactive install/upgrade prompts              |
//! | [`identity`]    | Platform user identity resolution                |
//! | [`approval`]    | Human approval for sensitive actions             |
//! | [`hook`]        | Lifecycle hook events and replies                |
//! | [`io`]          | Readiness polling                                |
//! | [`interceptors`]| Interceptor bindings of run-loop capsules        |
//! | [`compute`]     | Compute worker groups                            |
//! | [`llm`]         | LLM conversation types                           |
//! | [`host_result`] | The status-byte wire format of host replies      |
//! | [`capsule`]     | The dispatch plan of a `#[capsule]` impl block   |
//! | [`capsule_syntax`] | Reading a `#[capsule]` impl block's source    |
//! | [`wit`], [`wit_types`] | Rust items generated from WIT contracts   |
//!
//! [`json`], [`text`], [`strings`], [`duration`] and [`error`] hold the
//! shared data model: JSON values, character sequences, durations and the
//! SDK error.

pub mod error;
pub mod duration;
pub mod text;
pub mod json;
pub mod kv;
pub mod strings;
pub mod net;
pub mod http;
pub mod process;
pub mod fs;
pub mod hook;
pub mod ipc;
pub mod uplink;
pub mod env;
pub mod time;
pub mod runtime;
pub mod approval;
pub mod compute;
pub mod elicit;
pub mod identity;
pub mod io;
pub mod interceptors;
pub mod llm;
pub mod host_result;
pub mod wit;
pub mod wit_types;
pub mod capsule;
pub mod capsule_syntax;
