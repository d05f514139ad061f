//! Decision logic of a Wayland event loop: cursor styling, the control-flow
//! state machine that drives a loop iteration, per-window updates after a
//! dispatch, seat device bookkeeping, monitors and event channels.

pub mod proxies;
pub mod handoff;
pub mod cursor;
pub mod control;
pub mod window;
pub mod monitor;
pub mod channel;
pub mod seat;
