//! Screen-capture-to-encoded-frame pipeline of a remote-desktop server:
//! quality negotiation, display selection, frame pacing and the capture loop.

pub mod capture_loop;
pub mod clock;
pub mod display;
pub mod encoder;
pub mod error;
pub mod frame_controller;
pub mod message;
pub mod notifier;
pub mod privacy;
pub mod quality;
pub mod state;

pub use capture_loop::new;
pub use display::{get_displays, switch_display, switch_to_primary};
pub use notifier::notify_video_frame_feched;
pub use privacy::{get_privacy_mode_conn_id, is_privacy_mode_supported, set_privacy_mode_conn_id};
pub use quality::{update_image_quality, update_test_latency};
pub use state::refresh;
