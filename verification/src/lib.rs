//! A library for hosting game-server processes inside isolated container
//! environments. The core is a polymorphic "process runner" contract together
//! with a driver that realizes that contract against a local container daemon:
//! it translates a declarative runner configuration (memory limit, networking
//! intent, launch arguments) into daemon-level resource descriptors, drives the
//! runner through an explicit lifecycle state machine, and reconciles the
//! believed state against the daemon's answers. Everything the daemon itself
//! does (the RPCs, the live streams) is performed by a thin unverified shell
//! around this library; the decisions, translations and state transitions are
//! all here, each with a proved contract.

pub mod decimal;
pub mod error;
pub mod models;
pub mod providers;
pub mod runners;
pub mod security;
pub mod text;
pub mod types;

pub use error::{ApiError, ApiResult, Error, Res};
