pub mod opts;
pub mod presets;
pub mod state;
