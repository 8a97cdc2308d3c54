//! Verified core of the wezterm-backed terminal restore sidecar.
//!
//! The sidecar mirrors a PTY's output into a headless terminal engine, pushes sealed
//! checkpoints to the PTY daemon on a debounce schedule, and serves rehydrate / cold-paint
//! requests to terminal plugins. This crate holds the decisions of that service as verified
//! functions over plain values:
//!
//! * [`checkpoint`]: the checkpoint debounce state machine (idle + cap deadlines).
//! * [`text`]: small verified text helpers (decimal rendering, concatenation, trimming).
//! * [`proto`]: the daemon wire constants, socket / token / checkpoint path derivation,
//!   the hello message and the reply envelope check.
//! * [`frame`]: tee frame encoding / decoding and the daemon reply readers.
//! * [`modes`]: DEC private mode tracking and the mouse / wheel routing rules.
//! * [`grid`]: alignment of engine lines into contract-shaped grid cells.
//! * [`service`]: request routing, reply construction and the per-session ledger.
pub mod checkpoint;
pub mod frame;
pub mod grid;
pub mod modes;
pub mod proto;
pub mod service;
pub mod text;
