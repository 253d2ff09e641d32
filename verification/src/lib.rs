//! Verified state and decision logic for a small windowing and view toolkit.

pub mod gpu;
pub mod render;
pub mod selector;
pub mod surface;
pub mod units;
pub mod view;
pub mod widgets;
pub mod window_id;
pub mod window_view;
