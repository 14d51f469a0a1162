//! Core logic of an auto-splitter for a 3D platformer: it watches a running
//! game process (through an unverified host runtime) and drives a speedrun
//! timer. This crate holds everything that can be stated and proved as pure
//! logic: the byte-signature scanner that locates the watched memory
//! addresses, the address-resolution arithmetic, the debounced value
//! watchers, the decoders from raw memory reads to game state, and the
//! decision engine that turns state transitions into timer commands.
//!
//! All process I/O (attaching, reading memory, issuing timer commands) lives
//! outside this crate; the functions here consume plain values that the host
//! glue read and hand back the commands to issue.

pub mod config;
pub mod engine;
pub mod game;
pub mod locator;
pub mod sampler;
pub mod scanner;
pub mod tick;
pub mod watcher;
