//! The two status bars: counters on top, key hints at the bottom.

use vstd::prelude::*;
use vstd::string::StringExecFns;

use crate::app::Stats;
use crate::utils::text::decimal_text;
use crate::utils::text::spec_decimal;

verus! {

/// The status bars. They have no state of their own.
#[derive(Debug, Clone, Copy, PartialEq, Eq, Structural)]
pub struct StatusBar {}

impl Default for StatusBar {
    fn default() -> (bar: StatusBar)
        ensures
            bar == (StatusBar {  }),
    {
        StatusBar {  }
    }
}

/// The word for a connection state.
pub open spec fn status_word(connected: bool) -> Seq<char> {
    if connected {
        "Connected"@
    } else {
        "Disconnected"@
    }
}

/// The text of the top bar for some counters.
pub open spec fn spec_top_bar_text(sent_bytes: usize, received_bytes: usize, connected: bool)
    -> Seq<char> {
    " Sent: "@ + spec_decimal(sent_bytes as nat) + " bytes | Received: "@ + spec_decimal(
        received_bytes as nat,
    ) + " bytes | Status: "@ + status_word(connected) + " "@
}

impl StatusBar {
    /// The text of the top bar: the bytes sent and received so far, in
    /// decimal, and whether a connection is up.
    pub fn top_bar_text(&self, stats: &Stats) -> (text: String)
        ensures
            text@ == spec_top_bar_text(stats.sent_bytes, stats.received_bytes, stats.connected),
    {
        let sent = decimal_text(stats.sent_bytes);
        let received = decimal_text(stats.received_bytes);
        let status = if stats.connected {
            "Connected"
        } else {
            "Disconnected"
        };
        String::from_str(" Sent: ").concat(sent.as_str()).concat(" bytes | Received: ").concat(
            received.as_str(),
        ).concat(" bytes | Status: ").concat(status).concat(" ")
    }

    /// The text of the bottom bar: the keys that the program answers to.
    pub fn bottom_bar_text(&self) -> (text: &'static str)
        ensures
            text@ == " Ctrl+C: Quit | I: Input Message "@,
    {
        " Ctrl+C: Quit | I: Input Message "
    }
}

} // verus!
