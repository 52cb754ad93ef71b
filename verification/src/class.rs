//! The capability contract every pluggable function unit ("class") implements.
//!
//! A class may claim a subset of control requests before the standard request
//! table is consulted.  Its answer is tri-state: `Accepted` ends dispatch and
//! acknowledges the transfer, `Rejected` ends dispatch and stalls, and
//! `Unhandled` passes the request on to the next class in registration order,
//! or to the standard table.
//!
//! The two spec functions `out_response` and `in_response` are each
//! implementation's own model of which requests it claims; the executable
//! handlers are bound to them, which is what lets the device core state
//! exactly how a control transfer ends.

use vstd::prelude::*;

use crate::control::Request;

verus! {

/// Tri-state outcome a class returns for a control request.
#[derive(PartialEq, Eq, Copy, Clone, Debug, Structural)]
pub enum RequestStatus {
    /// The class claims the request and acknowledges it.
    Accepted,
    /// The class claims the request and rejects it: the transfer is stalled.
    Rejected,
    /// The request is not for this class; dispatch continues.
    Unhandled,
}

/// Outcome of a control-IN request: the tri-state status and, when accepted,
/// the reply payload.
#[derive(Debug)]
pub struct ControlInRequestStatus {
    /// The tri-state outcome.
    pub status: RequestStatus,
    /// The reply payload; meaningful only when `status` is `Accepted`.
    pub data: Vec<u8>,
}

/// A pluggable function unit, offered each control request before the
/// standard request table.
pub trait UsbClass: Sized {
    /// Which outcome this class gives a control-OUT request with the given
    /// data-stage payload.  A verified implementation overrides this with
    /// its own model; the default claims no request.
    open spec fn out_response(&self, req: Request, data: Seq<u8>) -> RequestStatus {
        RequestStatus::Unhandled
    }

    /// Which outcome this class gives a control-IN request.  A verified
    /// implementation overrides this with its own model; the default claims
    /// no request.
    open spec fn in_response(&self, req: Request) -> RequestStatus {
        RequestStatus::Unhandled
    }

    /// The reply payload this class produces for a control-IN request it
    /// accepts.  A verified implementation overrides this with its own
    /// model.
    open spec fn in_data(&self, req: Request) -> Seq<u8> {
        Seq::empty()
    }

    /// The class after its reset hook has reinitialized its internal
    /// protocol state.  A verified implementation overrides this with its
    /// own model; the default leaves the model unchanged.
    open spec fn after_reset(&self) -> Self {
        *self
    }

    /// Called after a bus reset; the class must reinitialize any internal
    /// protocol state here.  This is the only hook for that.
    fn reset(&mut self)
        ensures
            *final(self) == old(self).after_reset(),
    ;

    /// Offers a control-OUT request and its data-stage payload to the class.
    fn control_out(&mut self, req: Request, data: &[u8]) -> (r: RequestStatus)
        ensures
            r == old(self).out_response(req, data@),
    ;

    /// Offers a control-IN request to the class.
    fn control_in(&mut self, req: Request) -> (r: ControlInRequestStatus)
        ensures
            r.status == old(self).in_response(req),
            r.status == RequestStatus::Accepted ==> r.data@ == old(self).in_data(req),
    ;
}

/// The dispatch priority of a control-OUT request: the position of the first
/// class, in registration order, that answers other than `Unhandled`, or the
/// length of the registry when every class passes.
pub open spec fn first_out_decider<C: UsbClass>(cs: Seq<C>, req: Request, data: Seq<u8>) -> int
    decreases cs.len(),
{
    if cs.len() == 0 {
        0
    } else if cs[0].out_response(req, data) != RequestStatus::Unhandled {
        0
    } else {
        1 + first_out_decider(cs.drop_first(), req, data)
    }
}

/// The dispatch priority of a control-IN request: the position of the first
/// class, in registration order, that answers other than `Unhandled`, or the
/// length of the registry when every class passes.
pub open spec fn first_in_decider<C: UsbClass>(cs: Seq<C>, req: Request) -> int
    decreases cs.len(),
{
    if cs.len() == 0 {
        0
    } else if cs[0].in_response(req) != RequestStatus::Unhandled {
        0
    } else {
        1 + first_in_decider(cs.drop_first(), req)
    }
}

/// Dispatch priority for control-OUT requests: when classes before position
/// `k` all answer `Unhandled` and the class at `k` (if any) claims the
/// request, then `k` is where dispatch stops — classes after it are never
/// consulted.
pub proof fn lemma_out_dispatch_priority<C: UsbClass>(
    cs: Seq<C>,
    req: Request,
    data: Seq<u8>,
    k: int,
)
    requires
        0 <= k <= cs.len(),
        forall|j: int|
            0 <= j < k ==> #[trigger] cs[j].out_response(req, data) == RequestStatus::Unhandled,
        k < cs.len() ==> cs[k].out_response(req, data) != RequestStatus::Unhandled,
    ensures
        first_out_decider(cs, req, data) == k,
    decreases k,
{
    if k == 0 {
    } else {
        assert(cs[0].out_response(req, data) == RequestStatus::Unhandled);
        let tail = cs.drop_first();
        assert forall|j: int| 0 <= j < k - 1 implies #[trigger] tail[j].out_response(req, data)
            == RequestStatus::Unhandled by {
            assert(tail[j] == cs[j + 1]);
        }
        if k - 1 < tail.len() {
            assert(tail[k - 1] == cs[k]);
        }
        lemma_out_dispatch_priority(tail, req, data, k - 1);
    }
}

/// Dispatch priority for control-IN requests: when classes before position
/// `k` all answer `Unhandled` and the class at `k` (if any) claims the
/// request, then `k` is where dispatch stops — classes after it are never
/// consulted.
pub proof fn lemma_in_dispatch_priority<C: UsbClass>(cs: Seq<C>, req: Request, k: int)
    requires
        0 <= k <= cs.len(),
        forall|j: int| 0 <= j < k ==> #[trigger] cs[j].in_response(req) == RequestStatus::Unhandled,
        k < cs.len() ==> cs[k].in_response(req) != RequestStatus::Unhandled,
    ensures
        first_in_decider(cs, req) == k,
    decreases k,
{
    if k == 0 {
    } else {
        assert(cs[0].in_response(req) == RequestStatus::Unhandled);
        let tail = cs.drop_first();
        assert forall|j: int| 0 <= j < k - 1 implies #[trigger] tail[j].in_response(req)
            == RequestStatus::Unhandled by {
            assert(tail[j] == cs[j + 1]);
        }
        if k - 1 < tail.len() {
            assert(tail[k - 1] == cs[k]);
        }
        lemma_in_dispatch_priority(tail, req, k - 1);
    }
}

} // verus!
