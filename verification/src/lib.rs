//! The hardware-facing core of a small freestanding kernel: a teletype-style
//! writer for the 80x25 text-mode display, and the set-up of the CPU's
//! exception table with its breakpoint report.
//!
//! Every function in this crate is verified; the few places where it relies on
//! code from other crates are marked `external_body` and documented as such.

pub mod interrupts;
pub mod screen;
pub mod vga_buffer;
