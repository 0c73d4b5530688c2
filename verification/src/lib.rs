//! Verified core of a small phone operating system kernel: the bump heap,
//! page-table entries, interrupt-controller and device register encodings,
//! power and touch state machines, text consoles and UI widgets.
pub mod arch;
pub mod drivers;
pub mod kernel;
