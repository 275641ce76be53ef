pub mod auth;
pub mod chars;
pub mod decode;
pub mod json;
pub mod liveset;
pub mod monitoring;
pub mod pconfig;
pub mod radius;

use vstd::prelude::*;

verus! {

/// Host lifecycle events the core reacts to. Any event outside these three
/// is acknowledged and otherwise ignored.
#[derive(Debug, Clone, Copy, PartialEq, Eq, Structural)]
pub enum HostEvent {
    ClientConnect,
    ClientDisconnect,
    AuthVerify,
    Other,
}

/// The core's immediate reply to a host event: plain success, or "pending" —
/// an authentication attempt was handed to a background task and its result
/// will only be observable through the control file.
#[derive(Debug, Clone, Copy, PartialEq, Eq, Structural)]
pub enum EventReply {
    Success,
    DeferAuth,
}

/// State the core keeps between host callbacks.
#[derive(Debug)]
pub struct Handle {
    pub connections_counter: u64,
    pub config: pconfig::PluginConfig,
    pub ccd: Option<String>,
}

/// Connection-counter update on one host event: up on connect, down on
/// disconnect, both wrapping at the type bounds, untouched otherwise.
pub open spec fn spec_counter_after(counter: u64, event: HostEvent) -> u64 {
    match event {
        HostEvent::ClientConnect => if counter == u64::MAX {
            0
        } else {
            (counter + 1) as u64
        },
        HostEvent::ClientDisconnect => if counter == 0 {
            u64::MAX
        } else {
            (counter - 1) as u64
        },
        _ => counter,
    }
}

impl Handle {
    /// Reacts to one host event: keeps the connection counter current, and
    /// answers `DeferAuth` exactly for an authentication-verify event — the
    /// host must then start a dispatcher task and wait on the control file.
    pub fn handle_event(&mut self, event: HostEvent) -> (r: EventReply)
        ensures
            final(self).connections_counter == spec_counter_after(
                old(self).connections_counter,
                event,
            ),
            final(self).config == old(self).config,
            final(self).ccd == old(self).ccd,
            r == EventReply::DeferAuth <==> event == HostEvent::AuthVerify,
    {
        match event {
            HostEvent::ClientConnect => {
                self.connections_counter = if self.connections_counter == u64::MAX {
                    0
                } else {
                    self.connections_counter + 1
                };
                EventReply::Success
            },
            HostEvent::ClientDisconnect => {
                self.connections_counter = if self.connections_counter == 0 {
                    u64::MAX
                } else {
                    self.connections_counter - 1
                };
                EventReply::Success
            },
            HostEvent::AuthVerify => EventReply::DeferAuth,
            HostEvent::Other => EventReply::Success,
        }
    }
}

} // verus!
