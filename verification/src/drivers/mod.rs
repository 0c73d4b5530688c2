pub mod mmio;
pub mod power;
pub mod touch;
pub mod uart;
pub mod vga;
pub mod framebuffer;
pub mod font;
pub mod ui;
pub mod ui_demo;
