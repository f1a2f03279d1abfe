//! Request-scoped orchestration for deploying a contract module into a
//! throwaway ledger snapshot and invoking one of its exported functions,
//! with typed marshalling of string-encoded arguments.

pub mod catalogue;
pub mod flow;
pub mod marshal;
pub mod numparse;
pub mod snapshot;
pub mod types;
pub mod wasm;
