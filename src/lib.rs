//! Firmware library of a small tile-game console, over a model of its
//! microcontroller: typed registers, pin ports, a millisecond clock, an
//! interrupt-driven two-wire bus master (with a simulated bus and slave),
//! debounced buttons, a debug serial port, the display's command layer, and
//! the game played on it.
pub mod register;
pub mod ports;
pub mod hal;
pub mod clock;
pub mod twi;
pub mod button;
pub mod usart;
pub mod rng;
pub mod input;
pub mod progmem;
pub mod display;
pub mod tiles;
pub mod game;
