//! Decoding and state core of a terminal emulator.
//!
//! Raw bytes from a child shell run through a byte-at-a-time escape-sequence
//! parser ([`vt`]), whose low-level actions a stateless interpreter ([`ansi`])
//! turns into semantic terminal commands. Those commands are applied to a
//! sparse screen model ([`cell`]). The [`control`] module holds the fixed
//! C0/C1 control-code tables, and [`session`] the decisions of the
//! pseudo-terminal reader loop; the descriptor I/O itself lives outside this
//! crate.

pub mod ansi;
pub mod cell;
pub mod control;
pub mod session;
pub mod vt;
