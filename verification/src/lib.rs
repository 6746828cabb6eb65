//! Session engine for a terminal front-end that drives an external
//! text-generation executable: prompt formatting, per-turn process lifecycle,
//! echo stripping, timeouts, and an ordered history of completed turns.

pub mod config;
pub mod mode;
pub mod paths;
pub mod process;
pub mod session;
pub mod store;
pub mod text;
pub mod turn;
