//! Rolling screen-clip capture: a fixed-capacity buffer of recent frames, an
//! edge-triggered hotkey detector, the capture loop's decisions and the
//! preparation of a snapshot for encoding.

pub mod circular_buffer;
pub mod hotkey;
pub mod frame;
pub mod capture;
pub mod text;
pub mod logger;
pub mod clip;
pub mod config;
