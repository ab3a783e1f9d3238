//! An interactive line-editing console for a UART serial peripheral.
//!
//! The crate holds the hardware-independent core of the console:
//!
//! - [`queue`]: a bounded byte FIFO shared between an interrupt-context
//!   producer and a foreground consumer, backed by `heapless::spsc::Queue`;
//! - [`uart`]: the register-level configuration protocol of the serial
//!   peripheral, modelled over a plain register file, including the exact
//!   baud-rate divisor computation;
//! - [`terminal`]: the escape-sequence-aware line editor, a state machine
//!   over the line buffer, the cursor and the escape state, which emits the
//!   bytes that keep the remote terminal's display in step with the buffer;
//! - [`cli`]: the thin console facade over the editor.
//!
//! Register access, interrupt masking and the busy-wait transmit path live
//! outside this crate: the editor consumes plain bytes and returns the bytes
//! to transmit.

pub mod cli;
pub mod constants;
pub mod queue;
pub mod terminal;
pub mod uart;
