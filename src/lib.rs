//! Verified control core of a telescope-mount tracking controller: a
//! stepper-motor pulse generator driven by textual serial commands, with
//! persisted defaults and a watchdog.
pub mod command;
pub mod controller;
pub mod eeprom;
pub mod isr;
pub mod serial;
pub mod serial_buffer;
pub mod state_machine;
pub mod timer;
pub mod watchdog;
