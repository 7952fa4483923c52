//! Telemetry line formatting and observer routing.
//!
//! The hub tracks at most one observer, identified by a caller-chosen
//! numeric handle; the transport that carries a formatted line to the
//! observer's connection lives outside the library.

use vstd::prelude::*;
use vstd::string::StringExecFns;

verus! {

/// The text of one telemetry line: `[<tag>] <payload>` followed by a newline.
pub open spec fn line_of(tag: Seq<char>, payload: Seq<char>) -> Seq<char> {
    "["@ + tag + "] "@ + payload + "\n"@
}

/// Formats a tag and payload into one telemetry line.
pub fn format_line(tag: &str, payload: &str) -> (line: String)
    ensures
        line@ == line_of(tag@, payload@),
{
    let mut line = "[".to_owned();
    line.append(tag);
    line.append("] ");
    line.append(payload);
    line.append("\n");
    line
}

/// Registering a client always makes it the current observer, displacing
/// whatever was there before.
pub open spec fn register_transition(observer: Option<u64>, client: u64) -> Option<u64> {
    Some(client)
}

/// A hub that routes telemetry lines to at most one observer.
///
/// Observers are identified by a numeric handle chosen by the caller that
/// owns the connections; the hub only decides which handle, if any, a
/// line is addressed to. Delivery is fire-and-forget: a failed or absent
/// observer is the caller's routine condition to log, never an error here,
/// and a dead observer stays registered until a newer one replaces it.
pub struct TelemetryHub {
    /// The handle of the current observer, if one has connected.
    observer: Option<u64>,
}

impl TelemetryHub {
    /// The current observer's handle, if any.
    pub closed spec fn current_observer(&self) -> Option<u64> {
        self.observer
    }

    /// Creates a hub with no connected observer.
    pub fn new() -> (hub: TelemetryHub)
        ensures
            hub.current_observer() is None,
    {
        TelemetryHub { observer: None }
    }

    /// Makes `client` the current observer, atomically replacing any
    /// previous one; the displaced observer is simply no longer addressed.
    pub fn add_client(&mut self, client: u64)
        ensures
            final(self).current_observer() == register_transition(old(self).current_observer(), client),
    {
        self.observer = Some(client);
    }

    /// Formats one telemetry line and says which observer it is addressed
    /// to: the observer current at this call, or none if none is connected.
    /// The hub's state is never changed by sending, so a failed write
    /// leaves the (presumably dead) observer in place.
    pub fn send_telemetry(&self, tag: &str, payload: &str) -> (r: (String, Option<u64>))
        ensures
            r.0@ == line_of(tag@, payload@),
            r.1 == self.current_observer(),
    {
        (format_line(tag, payload), self.observer)
    }
}

/// Registering a second observer displaces the first: from then on every
/// line is addressed to the second handle only, and none to the first.
pub proof fn lemma_observer_replacement(observer: Option<u64>, first: u64, second: u64)
    requires
        first != second,
    ensures
        ({
            let after = register_transition(register_transition(observer, first), second);
            after == Some(second) && after != Some(first)
        }),
{
}

} // verus!
