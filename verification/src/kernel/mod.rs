pub mod memory;
pub mod event_loop;
