//! The synchronous half of the hardware driver's contract.
//!
//! The driver turns electrical bus activity into discrete [`Event`]s and
//! performs raw packet transfer.  Awaiting the next event or Setup packet is
//! the run loop's business, outside this crate; the calls a control handler
//! makes in the middle of its logic — reset, suspend, per-endpoint stall
//! control — are synchronous and are declared here.

use vstd::prelude::*;

verus! {

/// A bus-level event the driver reports.
#[derive(PartialEq, Eq, Copy, Clone, Debug, Structural)]
pub enum Event {
    /// The host reset the bus.
    Reset,
    /// The host resumed the bus after a suspend.
    Resume,
    /// The host suspended the bus.
    Suspend,
}

/// Bus-level signaling: driver reinitialization, suspend, and per-endpoint
/// stall control.
///
/// `stalled` is the implementation's own model of its per-endpoint stall
/// flags; `set_stalled` and `is_stalled` are bound to it, which is what lets
/// the device core state what a GET_STATUS(Endpoint) reply reports.  `reset`
/// and `suspend` promise nothing: what they do to the hardware is the
/// driver's business.
pub trait Bus: Sized {
    /// Whether the endpoint with the given address is stalled.  A verified
    /// implementation overrides this with its own model of the stall flags;
    /// the default reports nothing stalled.
    open spec fn stalled(&self, ep_addr: u8) -> bool {
        false
    }

    /// The driver after `reset` has reinitialized it.  A verified
    /// implementation overrides this with its own model; the default leaves
    /// the model unchanged.
    open spec fn after_reset(&self) -> Self {
        *self
    }

    /// The driver after `suspend` has put it in its low-power state.  A
    /// verified implementation overrides this with its own model; the
    /// default leaves the model unchanged.
    open spec fn after_suspend(&self) -> Self {
        *self
    }

    /// Driver-level reinitialization after a bus reset.
    fn reset(&mut self)
        ensures
            *final(self) == old(self).after_reset(),
    ;

    /// Puts the bus in its suspended, low-power state.
    fn suspend(&mut self)
        ensures
            *final(self) == old(self).after_suspend(),
    ;

    /// Stalls or un-stalls one endpoint, leaving every other endpoint as it
    /// was.
    fn set_stalled(&mut self, ep_addr: u8, stalled: bool)
        ensures
            forall|e: u8|
                final(self).stalled(e) == if e == ep_addr {
                    stalled
                } else {
                    old(self).stalled(e)
                },
    ;

    /// Reports whether one endpoint is stalled.
    fn is_stalled(&self, ep_addr: u8) -> (r: bool)
        ensures
            r == self.stalled(ep_addr),
    ;
}

} // verus!
