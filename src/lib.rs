//! A task board whose task lifecycle is tied to a git working tree.
//!
//! The library holds the board's data model, the lifecycle engine that moves
//! tasks between columns, the branch-name derivation, the review-link rules and
//! the export formats. Reading and writing the store, running git and talking
//! to the terminal are left to the caller, which hands the outcomes of those
//! side effects to the engine as plain values.
pub mod board;
pub mod branch;
pub mod csv;
pub mod export;
pub mod github;
pub mod lifecycle;
pub mod text;
