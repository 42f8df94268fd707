pub mod audio;
pub mod clipboard;
pub mod config;
pub mod evdev;
pub mod overlay;
pub mod socket;
pub mod state;
pub mod sysdirs;
pub mod text;
pub mod uinput;
