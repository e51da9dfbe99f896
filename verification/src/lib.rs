//! A verified core for painting a solid-colored rectangle into a
//! CPU-accessible pixel buffer that backs an on-screen surface.
//!
//! The library owns the logic that is worth proving: the pixel-format
//! byte-width table, rectangle validity against a window's geometry,
//! the row-major stride-based blit into a byte buffer, and the render-cycle
//! state machine that keeps the platform's acquire/release and
//! lock/unlock-and-present calls balanced on every exit path. The platform
//! calls themselves (surface lookup, locking, presenting) are performed by
//! the surrounding application, which drives the state machine.

pub mod blit;
pub mod demo;
pub mod driver;
pub mod format;
pub mod rect;
