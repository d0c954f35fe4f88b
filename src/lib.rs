//! Bridge between an editor engine running on an async runtime and a GUI's
//! reactive model: a lock-guarded engine handle, the update type delivered to
//! the GUI, and the decisions of the polling task that moves events across.
pub mod bridge;
pub mod handle;
pub mod update;
