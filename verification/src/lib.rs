//! The navigation-state and query-orchestration core of a terminal
//! blockchain explorer: a stack of drill-down views, a command channel to a
//! background fetch worker, and the reconciliation of late-arriving,
//! partially overlapping fetch results into whichever views still want
//! them. Rendering, transport and disk access live outside this crate and
//! hand it plain values.

pub mod app;
pub mod cache;
pub mod channel;
pub mod command;
pub mod parse;
pub mod reconcile;
pub mod route;
pub mod text;
pub mod types;
