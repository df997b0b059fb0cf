//! Core logic of a desktop utility that dims unused screen area on OLED
//! displays: monitor records, overlay window bookkeeping, and the numeric
//! conversions behind the opacity controls.
//!
//! The library itself performs no window-system calls. It decides *what*
//! should happen — which monitors get an overlay, which window handles
//! receive a close or opacity message — and an unverified shell performs
//! those actions and reports window handles back.

pub mod config;
pub mod controller;
pub mod manager;
pub mod messages;
pub mod monitor;
pub mod slider;
pub mod text;

pub use config::{OverlayConfig, OverlayState};
pub use controller::{Controller, PanelStatus, ProtectionChange, DEFAULT_OPACITY};
pub use manager::OverlayManager;
pub use messages::{classify_overlay_message, OverlayMessageAction, WM_UPDATE_OPACITY};
pub use monitor::MonitorInfo;
pub use slider::{opacity_from_position, opacity_to_percent, preset_is_current, preset_target};
pub use text::{
    clean_device_name, decimal_string, display_name, percent_label, position_string,
    resolution_string, signed_decimal_string,
};
