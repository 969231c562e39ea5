//! Operator approvals, configuration and the agent-facing decision logic of a headless Zcash
//! wallet, with their contracts proved by Verus.
pub mod approval;
pub mod commands;
pub mod config;
pub mod mcp;
pub mod operator;
pub mod primitives;
pub mod send;
pub mod setup;
pub mod text;
pub mod tools;
pub mod wallet;
