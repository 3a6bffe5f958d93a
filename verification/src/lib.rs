//! A small desktop widget that shows live CPU and memory usage.
//!
//! The library holds everything the widget decides and computes: unit
//! conversions from raw counters to fixed-point display values, the
//! percentage arithmetic, the decimal formatting of the two text lines,
//! the tick/refresh state transition, and the window placement numbers.
//! The GUI shell around it only polls the operating system and renders
//! the strings this library produces.

mod format;
mod geometry;
mod metrics;
mod widget;

pub use format::dec_rep;
pub use format::digit_char;
pub use format::fmt_hundredths;
pub use format::fmt_tenths;
pub use format::hundredths_rep;
pub use format::tenths_rep;
pub use format::u64_to_string;
pub use geometry::window_position;
pub use geometry::window_x;
pub use geometry::PLACEMENT_WIDTH;
pub use geometry::RIGHT_MARGIN;
pub use geometry::SCREEN_WIDTH;
pub use geometry::WINDOW_HEIGHT;
pub use geometry::WINDOW_WIDTH;
pub use geometry::WINDOW_Y;
pub use metrics::bytes_to_gb_hundredths;
pub use metrics::gb_hundredths_of;
pub use metrics::percent_tenths;
pub use metrics::percent_tenths_of;
pub use metrics::rounded_div;
pub use metrics::Snapshot;
pub use metrics::BYTES_PER_GB;
pub use widget::boot;
pub use widget::refresh_label;
pub use widget::update;
pub use widget::Message;
pub use widget::WidgetState;
pub use widget::REFRESH_INTERVAL_SECS;
