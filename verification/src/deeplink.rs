//! Deep-link dispatch.
//!
//! The process registers one custom URI scheme with the operating system,
//! exactly once; activations arriving afterwards are turned into
//! `DeepLinkEvent`s and forwarded over the event bus with at-most-once
//! delivery. The operating-system registration call itself is made by the
//! surrounding application, which hands its outcome in as a plain boolean.

use vstd::prelude::*;
use crate::bus::{emitted, Delivery, EventBus};

verus! {

use vstd::string::StringExecFns;

/// Whether the process holds a URI-scheme registration, and for which scheme.
/// The state moves from `Unregistered` to `Registered` at most once and is
/// never cleared.
#[derive(Debug, Clone, PartialEq, Eq)]
pub enum RegistrationState {
    Unregistered,
    Registered(String),
}

/// Why deep-link setup failed. Logged at startup and non-fatal: the process
/// continues without deep-link support.
#[derive(Debug, Clone, Copy, PartialEq, Eq, Structural)]
pub enum DeepLinkError {
    RegistrationFailed,
}

/// An inbound link activation: the raw URI and the moment it was received.
/// Ephemeral: it is consumed at most once, by whichever subscriber is attached
/// at delivery time.
#[derive(Debug, Clone, PartialEq, Eq)]
pub struct DeepLinkEvent {
    pub raw_uri: String,
    pub received_at: u64,
}

/// Registers the URI scheme once per process and forwards activations.
#[derive(Debug, Clone, PartialEq, Eq)]
pub struct DeepLinkDispatcher {
    pub registration: RegistrationState,
}

impl DeepLinkDispatcher {
    /// A fresh dispatcher: nothing registered yet.
    pub fn new() -> (r: DeepLinkDispatcher)
        ensures
            r.registration == RegistrationState::Unregistered,
    {
        DeepLinkDispatcher { registration: RegistrationState::Unregistered }
    }

    /// Whether the application still has to ask the operating system to
    /// register a scheme for this process.
    pub fn needs_registration(&self) -> (r: bool)
        ensures
            r == (self.registration == RegistrationState::Unregistered),
    {
        match &self.registration {
            RegistrationState::Unregistered => true,
            RegistrationState::Registered(_) => false,
        }
    }

    /// Records the scheme registration. `os_accepted` is the outcome of the
    /// operating-system call.
    ///
    /// Once a scheme is registered for the process, any further call is a
    /// no-op returning success, not an error: only one handler may exist per
    /// process. A refused first registration leaves the dispatcher
    /// unregistered and is reported, so the caller may log it and continue in
    /// a degraded mode.
    pub fn register_scheme(&mut self, scheme: String, os_accepted: bool) -> (r: Result<
        (),
        DeepLinkError,
    >)
        ensures
            old(self).registration matches RegistrationState::Registered(_) ==> *final(self)
                == *old(self) && r is Ok,
            old(self).registration == RegistrationState::Unregistered && os_accepted
                ==> final(self).registration == RegistrationState::Registered(scheme) && r is Ok,
            old(self).registration == RegistrationState::Unregistered && !os_accepted
                ==> *final(self) == *old(self) && r == Err::<(), DeepLinkError>(
                DeepLinkError::RegistrationFailed,
            ),
    {
        match &self.registration {
            RegistrationState::Registered(_) => Ok(()),
            RegistrationState::Unregistered => {
                if os_accepted {
                    self.registration = RegistrationState::Registered(scheme);
                    Ok(())
                } else {
                    Err(DeepLinkError::RegistrationFailed)
                }
            },
        }
    }

    /// Handles a link activation dispatched by the operating system: builds
    /// the event and forwards its raw URI over the bus under the "deep-link"
    /// name, fire-and-forget. Whether it was delivered or dropped follows the
    /// bus's subscription state; there is no buffering and no replay.
    pub fn on_link(&self, bus: &mut EventBus, raw_uri: String, received_at: u64) -> (r: (
        DeepLinkEvent,
        Delivery,
    ))
        ensures
            r.0.raw_uri@ == raw_uri@,
            r.0.received_at == received_at,
            final(bus).subscribed == old(bus).subscribed,
            old(bus).subscribed ==> r.1 == Delivery::Delivered && emitted(
                old(bus).delivered@,
                final(bus).delivered@,
                "deep-link"@,
                raw_uri@,
            ),
            !old(bus).subscribed ==> r.1 == Delivery::Dropped
                && final(bus).delivered@ == old(bus).delivered@,
    {
        let ghost pre = bus.delivered@;
        let payload = raw_uri.clone();
        let event = DeepLinkEvent { raw_uri, received_at };
        let name = String::from_str("deep-link");
        let outcome = bus.emit(name, payload);
        proof {
            if bus.subscribed {
                assert(bus.delivered@.subrange(0, pre.len() as int) =~= pre);
            }
        }
        (event, outcome)
    }
}

} // verus!
