//! Verified core of a shiny-hunting toolkit: the Switch gamepad report and the
//! HID controller logic of the Pico firmware, and the detection rules of the
//! desktop watchers.

pub mod app;
pub mod cli;
pub mod enumdev;
pub mod geometry;
pub mod pico_timer;
pub mod presets;
pub mod shiny_watch;
pub mod text;
