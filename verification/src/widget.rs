//! The widget's state and its two-message event model.
//!
//! The state holds what the window shows: CPU usage in tenths of a
//! percent and the used and total memory in hundredths of a gigabyte.
//! It is rebuilt wholesale from a fresh reading on every timer tick or
//! manual refresh, and rendered as two text lines and a button label.

use crate::format::hundredths_rep;
use crate::format::tenths_rep;
use crate::metrics::bytes_to_gb_hundredths;
use crate::metrics::gb_hundredths_of;
use crate::metrics::percent_tenths;
use crate::metrics::percent_tenths_of;
use crate::metrics::Snapshot;
use crate::metrics::BYTES_PER_GB;
use vstd::prelude::*;

verus! {

/// Seconds between two timer ticks.
pub const REFRESH_INTERVAL_SECS: u64 = 2;

/// The two events the widget reacts to: the periodic timer tick and a
/// press of the refresh button. Both trigger the same refresh.
#[derive(Clone, Copy, Debug, PartialEq, Eq, Structural)]
pub enum Message {
    Tick,
    RefreshNow,
}

/// What the widget currently displays.
#[derive(Clone, Copy, Debug, PartialEq, Eq, Structural)]
pub struct WidgetState {
    /// Global CPU usage in tenths of a percent (375 means 37.5%).
    pub cpu_tenths: u32,
    /// Used memory in hundredths of a gigabyte (two decimal places).
    pub used_gb_hundredths: u64,
    /// Total memory in hundredths of a gigabyte.
    pub total_gb_hundredths: u64,
}

impl WidgetState {
    /// The state never shows more than 100% CPU or more used memory
    /// than total.
    pub open spec fn wf(self) -> bool {
        self.cpu_tenths <= 1000 && self.used_gb_hundredths <= self.total_gb_hundredths
    }

    /// The state a well-formed reading converts to: CPU tenths kept as
    /// they are, byte counts turned into hundredths of a gigabyte.
    pub open spec fn of_snapshot(reading: Snapshot) -> WidgetState {
        WidgetState {
            cpu_tenths: reading.cpu_tenths,
            used_gb_hundredths: gb_hundredths_of(reading.used_memory_bytes as int) as u64,
            total_gb_hundredths: gb_hundredths_of(reading.total_memory_bytes as int) as u64,
        }
    }

    /// The memory percentage the widget shows, in tenths of a percent:
    /// the used share of the displayed gigabyte amounts, or zero when
    /// the total displays as zero.
    pub open spec fn displayed_percent_tenths(self) -> int {
        if self.total_gb_hundredths > 0 {
            percent_tenths_of(self.used_gb_hundredths as int, self.total_gb_hundredths as int)
        } else {
            0
        }
    }
}

/// Rounding to hundredths of a gigabyte keeps the order of byte counts,
/// so a well-formed reading converts to a well-formed state.
proof fn lemma_conversion_keeps_order(a: int, b: int)
    requires
        0 <= a <= b,
    ensures
        gb_hundredths_of(a) <= gb_hundredths_of(b),
{
    vstd::arithmetic::div_mod::lemma_div_is_ordered(
        a * 100 + BYTES_PER_GB / 2,
        b * 100 + BYTES_PER_GB / 2,
        BYTES_PER_GB as int,
    );
}

/// Builds the initial state from the first reading.
pub fn boot(reading: Snapshot) -> (state: WidgetState)
    requires
        reading.wf(),
    ensures
        state == WidgetState::of_snapshot(reading),
        state.wf(),
{
    proof {
        lemma_conversion_keeps_order(
            reading.used_memory_bytes as int,
            reading.total_memory_bytes as int,
        );
    }
    WidgetState {
        cpu_tenths: reading.cpu_tenths,
        used_gb_hundredths: bytes_to_gb_hundredths(reading.used_memory_bytes),
        total_gb_hundredths: bytes_to_gb_hundredths(reading.total_memory_bytes),
    }
}

/// Reacts to an event. A timer tick and a manual refresh do the same
/// thing: the state is replaced wholesale by the fresh reading.
pub fn update(state: &mut WidgetState, message: Message, reading: Snapshot)
    requires
        reading.wf(),
    ensures
        *final(state) == WidgetState::of_snapshot(reading),
        final(state).wf(),
{
    match message {
        Message::Tick | Message::RefreshNow => {
            *state = boot(reading);
        },
    }
}

impl WidgetState {
    /// The first text line: `CPU: <usage>%` with one decimal place.
    pub fn cpu_line(&self) -> (s: String)
        ensures
            s@ == "CPU: "@ + tenths_rep(self.cpu_tenths as nat) + "%"@,
    {
        let mut s = String::from_str("CPU: ");
        s.append(crate::format::fmt_tenths(self.cpu_tenths as u64).as_str());
        s.append("%");
        s
    }

    /// The second text line: `Memory: <used> / <total> GB (<percent>%)`,
    /// gigabytes with two decimal places and the percentage with one.
    pub fn memory_line(&self) -> (s: String)
        requires
            self.wf(),
        ensures
            s@ == "Memory: "@ + hundredths_rep(self.used_gb_hundredths as nat) + " / "@
                + hundredths_rep(self.total_gb_hundredths as nat) + " GB ("@
                + tenths_rep(self.displayed_percent_tenths() as nat) + "%)"@,
    {
        let percent = percent_tenths(self.used_gb_hundredths, self.total_gb_hundredths);
        let mut s = String::from_str("Memory: ");
        s.append(crate::format::fmt_hundredths(self.used_gb_hundredths).as_str());
        s.append(" / ");
        s.append(crate::format::fmt_hundredths(self.total_gb_hundredths).as_str());
        s.append(" GB (");
        s.append(crate::format::fmt_tenths(percent).as_str());
        s.append("%)");
        s
    }
}

/// The caption of the widget's one button.
pub fn refresh_label() -> (s: &'static str)
    ensures
        s@ == "Refresh Now"@,
{
    "Refresh Now"
}

} // verus!
