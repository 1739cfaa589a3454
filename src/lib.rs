//! Split and game-time logic for a timer that watches the memory of a running
//! Minish Cap (NTSC-J) game.
//!
//! The library is pure: it takes decoded memory readings and the timer's state,
//! and hands back what the timer should do. Reading the process and talking to
//! the timer are left to the host.

pub mod change_cell;
pub mod clock;
pub mod display;
pub mod memory;
pub mod milestone;
pub mod session;
pub mod splits;
