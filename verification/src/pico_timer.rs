pub mod hid;
pub mod hid_laws;
pub mod request_handler;
pub mod router;
pub mod startup;
pub mod status_led;
pub mod switch_descriptor;
