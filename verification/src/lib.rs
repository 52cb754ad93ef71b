//! Device-side control-plane engine of a USB peripheral stack.
//!
//! The crate owns the device's lifecycle state, arbitrates the shared control
//! endpoint among a fixed set of functional units ("classes"), and answers the
//! mandatory USB standard control requests.  The hardware driver (the `Bus`
//! and the control pipe) lives outside: the run loop that awaits bus events
//! and Setup packets hands each of them to the verified handlers here, and
//! performs the accept/reject/data actions those handlers return.

use vstd::prelude::*;

pub use crate::builder::Config;

use crate::builder::config_strings_fit;
use crate::builder::identity_string;
use crate::class::RequestStatus;
use crate::class::UsbClass;
use crate::class::first_in_decider;
use crate::class::first_out_decider;
use crate::class::lemma_in_dispatch_priority;
use crate::class::lemma_out_dispatch_priority;
use crate::control::Recipient;
use crate::control::Request;
use crate::control::RequestType;
use crate::control::UsbDirection;
use crate::descriptor::DescriptorWriter;
use crate::descriptor::descriptor_bytes;
use crate::descriptor::le16;
use crate::descriptor::string_descriptor;
use crate::driver::Bus;
use crate::driver::Event;

pub mod builder;
pub mod class;
pub mod control;
pub mod descriptor;
pub mod descriptor_type;
pub mod driver;
pub mod lang_id;

verus! {

/// The global state of the USB device.
///
/// In general class traffic is only possible in the `Configured` state.
#[derive(PartialEq, Eq, Copy, Clone, Debug, Structural)]
pub enum UsbDeviceState {
    /// The USB device has just been created or reset.
    Default,
    /// The USB device has received an address from the host.
    Addressed,
    /// The USB device has been configured and is fully functional.
    Configured,
    /// The USB device has been suspended by the host or it has been unplugged from the USB bus.
    Suspend,
}

/// The bConfiguration value for the not configured state.
pub const CONFIGURATION_NONE: u8 = 0;

/// The bConfiguration value for the single configuration supported by this device.
pub const CONFIGURATION_VALUE: u8 = 1;

/// The default value for bAlternateSetting for all interfaces.
pub const DEFAULT_ALTERNATE_SETTING: u8 = 0;

/// How many classes the device's registry can hold.
pub const MAX_CLASS_COUNT: usize = 4;

/// Every control-OUT data stage is read into a scratch buffer of this many
/// bytes; data beyond it is truncated, a policy constraint of this core.
pub const OUT_BUF_LEN: usize = 128;

/// The capacity of the scratch buffer a synthesized descriptor is written to.
pub const WRITER_BUF_LEN: usize = 256;

/// How a control-OUT transfer ends: an empty status-stage acknowledgement, or
/// a STALL.
#[derive(PartialEq, Eq, Copy, Clone, Debug, Structural)]
pub enum OutResponse {
    /// Acknowledge the transfer.
    Accept,
    /// Reject the transfer: the control pipe stalls.
    Reject,
}

/// How a control-IN transfer ends: a reply payload, or a STALL.
#[derive(PartialEq, Eq, Debug)]
pub enum InResponse {
    /// Reply with these bytes, already truncated to the requested length.
    Accept(Vec<u8>),
    /// Reject the transfer: the control pipe stalls.
    Reject,
}

/// Whether `req` is a standard request for the given recipient with the given
/// request code.
pub open spec fn is_std(req: Request, recipient: Recipient, code: u8) -> bool {
    req.request_type == RequestType::Standard && req.recipient == recipient && req.request == code
}

/// Which control-OUT requests the standard table accepts; everything else it
/// rejects.
pub open spec fn std_out_accepts(req: Request) -> bool {
    ||| is_std(req, Recipient::Device, Request::CLEAR_FEATURE) && req.value
        == Request::FEATURE_DEVICE_REMOTE_WAKEUP
    ||| is_std(req, Recipient::Endpoint, Request::CLEAR_FEATURE) && req.value
        == Request::FEATURE_ENDPOINT_HALT
    ||| is_std(req, Recipient::Device, Request::SET_FEATURE) && req.value
        == Request::FEATURE_DEVICE_REMOTE_WAKEUP
    ||| is_std(req, Recipient::Endpoint, Request::SET_FEATURE) && req.value
        == Request::FEATURE_ENDPOINT_HALT
    ||| is_std(req, Recipient::Device, Request::SET_ADDRESS) && 1 <= req.value <= 127
    ||| is_std(req, Recipient::Device, Request::SET_CONFIGURATION) && req.value
        == CONFIGURATION_VALUE as u16
    ||| is_std(req, Recipient::Device, Request::SET_CONFIGURATION) && req.value
        == CONFIGURATION_NONE as u16
    ||| is_std(req, Recipient::Interface, Request::SET_INTERFACE) && req.value
        == DEFAULT_ALTERNATE_SETTING as u16
}

/// The device state after the standard table handles a control-OUT request:
/// SET_CONFIGURATION(1) configures, SET_CONFIGURATION(0) falls back to
/// Addressed unless the device is still Default, and nothing else moves it.
pub open spec fn std_out_state(state: UsbDeviceState, req: Request) -> UsbDeviceState {
    if is_std(req, Recipient::Device, Request::SET_CONFIGURATION) && req.value
        == CONFIGURATION_VALUE as u16 {
        UsbDeviceState::Configured
    } else if is_std(req, Recipient::Device, Request::SET_CONFIGURATION) && req.value
        == CONFIGURATION_NONE as u16 {
        if state == UsbDeviceState::Default {
            UsbDeviceState::Default
        } else {
            UsbDeviceState::Addressed
        }
    } else {
        state
    }
}

/// The remote-wakeup flag after the standard table handles a control-OUT
/// request: SET_FEATURE sets it, CLEAR_FEATURE clears it.
pub open spec fn std_out_remote_wakeup(enabled: bool, req: Request) -> bool {
    if is_std(req, Recipient::Device, Request::CLEAR_FEATURE) && req.value
        == Request::FEATURE_DEVICE_REMOTE_WAKEUP {
        false
    } else if is_std(req, Recipient::Device, Request::SET_FEATURE) && req.value
        == Request::FEATURE_DEVICE_REMOTE_WAKEUP {
        true
    } else {
        enabled
    }
}

/// The pending address after the standard table handles a control-OUT
/// request: SET_ADDRESS with a value in 1..=127 latches it; 0 and values of
/// 128 or more are not matched, and so reject.
pub open spec fn std_out_pending_address(pending: u8, req: Request) -> u8 {
    if is_std(req, Recipient::Device, Request::SET_ADDRESS) && 1 <= req.value <= 127 {
        req.value as u8
    } else {
        pending
    }
}

/// Whether the standard table answers a control-OUT request by stalling an
/// endpoint at the bus.
pub open spec fn std_out_stalls_endpoint(req: Request) -> bool {
    is_std(req, Recipient::Endpoint, Request::SET_FEATURE) && req.value
        == Request::FEATURE_ENDPOINT_HALT
}

/// The endpoint address named by a request's `index` field: the 7 address
/// bits and the direction bit.
pub open spec fn ep_addr_of(index: u16) -> u8 {
    ((index % 256) as u8) & 0x8f
}

/// A 16-bit status word from its two defined bits; the rest are zero.
pub open spec fn status_word(bit0: bool, bit1: bool) -> u16 {
    ((if bit0 {
        1int
    } else {
        0int
    }) + (if bit1 {
        2int
    } else {
        0int
    })) as u16
}

/// An IN reply truncated to the requested length: the host gets the first
/// `min(serialized length, requested length)` bytes of the serialization,
/// never more.
pub open spec fn truncated(full: Seq<u8>, requested: u16) -> Seq<u8> {
    if full.len() <= requested {
        full
    } else {
        full.take(requested as int)
    }
}

/// Truncation law: what is sent is never more than the requested length, and
/// is byte for byte a prefix of the full serialization.
pub proof fn lemma_truncation(full: Seq<u8>, requested: u16)
    ensures
        truncated(full, requested).len() == if full.len() <= requested {
            full.len()
        } else {
            requested as nat
        },
        forall|i: int|
            0 <= i < truncated(full, requested).len() ==> truncated(full, requested)[i] == full[i],
{
}

/// The two bytes of a 16-bit word, least-significant first.
fn le16_bytes(w: u16) -> (v: Vec<u8>)
    ensures
        v@ == le16(w as int),
{
    let mut v: Vec<u8> = Vec::new();
    v.push((w % 256) as u8);
    v.push(((w / 256) % 256) as u8);
    proof {
        assert(v@ =~= le16(w as int));
    }
    v
}

/// Truncates an IN reply to the requested length before it is handed to the
/// control pipe, per the USB control-transfer convention.
fn truncate_reply(data: Vec<u8>, requested: u16) -> (r: Vec<u8>)
    ensures
        r@ == truncated(data@, requested),
{
    let ghost full = data@;
    let mut data = data;
    let limit = requested as usize;
    if data.len() > limit {
        data.truncate(limit);
        proof {
            assert(data@ =~= truncated(full, requested));
        }
    }
    data
}

/// The device core: owns the device's lifecycle state, the class registry
/// and the static descriptors, and resolves every control request a class
/// does not claim against the standard request table.
pub struct UsbDevice<B: Bus, C: UsbClass> {
    /// The bus half of the hardware driver.
    pub bus: B,
    /// Construction-time configuration.
    pub config: Config,
    /// The pre-built device descriptor, replied verbatim.
    pub device_descriptor: Vec<u8>,
    /// The pre-built configuration descriptor, replied verbatim.
    pub config_descriptor: Vec<u8>,
    /// The pre-built Binary Object Store descriptor, replied verbatim.
    pub bos_descriptor: Vec<u8>,
    /// Where the device stands in its lifecycle.
    pub device_state: UsbDeviceState,
    /// Whether the host enabled remote wakeup.
    pub remote_wakeup_enabled: bool,
    /// Whether the device powers itself; reported by GET_STATUS(Device).
    pub self_powered: bool,
    /// The address SET_ADDRESS latched, for protocol bookkeeping; applying
    /// it is the driver's concern.
    pub pending_address: u8,
    /// The registered classes; insertion order is dispatch priority.
    pub classes: Vec<C>,
}

impl<B: Bus, C: UsbClass> UsbDevice<B, C> {
    /// The device's invariant: the class registry respects its fixed
    /// capacity, and every identity string fits a string descriptor.
    pub open spec fn wf(&self) -> bool {
        &&& self.classes@.len() <= MAX_CLASS_COUNT
        &&& config_strings_fit(self.config)
    }

    /// The descriptor-resolution table: BOS, DEVICE and CONFIGURATION reply
    /// with the pre-built buffer; STRING index 0 replies with the language
    /// table, indices 1 to 3 with an identity string when it is configured;
    /// everything else is unresolved.
    pub open spec fn descriptor_reply(&self, descriptor_type: u8, index: u8) -> Option<Seq<u8>> {
        if descriptor_type == descriptor_type::BOS {
            Some(self.bos_descriptor@)
        } else if descriptor_type == descriptor_type::DEVICE {
            Some(self.device_descriptor@)
        } else if descriptor_type == descriptor_type::CONFIGURATION {
            Some(self.config_descriptor@)
        } else if descriptor_type == descriptor_type::STRING {
            if index == 0 {
                Some(descriptor_bytes(descriptor_type::STRING, le16(lang_id::ENGLISH_US as int)))
            } else {
                match identity_string(self.config, index) {
                    Some(s) => Some(string_descriptor(s)),
                    None => None,
                }
            }
        } else {
            None
        }
    }

    /// The full (untruncated) reply the standard table gives a control-IN
    /// request, or `None` where it rejects.
    pub open spec fn std_in_reply(&self, req: Request) -> Option<Seq<u8>> {
        if is_std(req, Recipient::Device, Request::GET_STATUS) {
            Some(le16(status_word(self.self_powered, self.remote_wakeup_enabled) as int))
        } else if is_std(req, Recipient::Interface, Request::GET_STATUS) {
            Some(le16(0))
        } else if is_std(req, Recipient::Endpoint, Request::GET_STATUS) {
            Some(le16(status_word(self.bus.stalled(ep_addr_of(req.index)), false) as int))
        } else if is_std(req, Recipient::Device, Request::GET_DESCRIPTOR) {
            self.descriptor_reply((req.value / 256) as u8, (req.value % 256) as u8)
        } else if is_std(req, Recipient::Device, Request::GET_CONFIGURATION) {
            Some(
                seq![
                    if self.device_state == UsbDeviceState::Configured {
                        CONFIGURATION_VALUE
                    } else {
                        CONFIGURATION_NONE
                    },
                ],
            )
        } else if is_std(req, Recipient::Interface, Request::GET_INTERFACE) {
            Some(seq![DEFAULT_ALTERNATE_SETTING])
        } else {
            None
        }
    }

    /// Builds the device core over a bus, a configuration, the pre-built
    /// descriptors and the ordered class registry.
    pub fn build(
        bus: B,
        config: Config,
        device_descriptor: Vec<u8>,
        config_descriptor: Vec<u8>,
        bos_descriptor: Vec<u8>,
        classes: Vec<C>,
    ) -> (r: Self)
        requires
            classes@.len() <= MAX_CLASS_COUNT,
            config_strings_fit(config),
        ensures
            r.wf(),
            r.bus == bus,
            r.config == config,
            r.device_descriptor == device_descriptor,
            r.config_descriptor == config_descriptor,
            r.bos_descriptor == bos_descriptor,
            r.device_state == UsbDeviceState::Default,
            !r.remote_wakeup_enabled,
            !r.self_powered,
            r.pending_address == 0,
            r.classes == classes,
    {
        UsbDevice {
            bus,
            config,
            device_descriptor,
            config_descriptor,
            bos_descriptor,
            device_state: UsbDeviceState::Default,
            remote_wakeup_enabled: false,
            self_powered: false,
            pending_address: 0,
            classes,
        }
    }

    /// Handles one bus-level event.
    ///
    /// A Reset always forces the device state back to Default and clears the
    /// remote-wakeup flag and the pending address, whatever the prior state,
    /// and runs every class's reset hook.  A Suspend suspends the bus and
    /// records the Suspend state.  A Resume changes nothing: resumption is
    /// implicit in returning to normal polling.
    pub fn handle_bus_event(&mut self, event: Event)
        requires
            old(self).wf(),
        ensures
            final(self).wf(),
            final(self).config == old(self).config,
            final(self).device_descriptor == old(self).device_descriptor,
            final(self).config_descriptor == old(self).config_descriptor,
            final(self).bos_descriptor == old(self).bos_descriptor,
            final(self).self_powered == old(self).self_powered,
            final(self).classes@.len() == old(self).classes@.len(),
            match event {
                Event::Reset => {
                    &&& final(self).device_state == UsbDeviceState::Default
                    &&& !final(self).remote_wakeup_enabled
                    &&& final(self).pending_address == 0
                    &&& final(self).bus == old(self).bus.after_reset()
                    &&& forall|i: int|
                        0 <= i < old(self).classes@.len() ==> final(self).classes@[i] == old(
                            self,
                        ).classes@[i].after_reset()
                },
                Event::Resume => *final(self) == *old(self),
                Event::Suspend => {
                    &&& final(self).device_state == UsbDeviceState::Suspend
                    &&& final(self).remote_wakeup_enabled == old(self).remote_wakeup_enabled
                    &&& final(self).pending_address == old(self).pending_address
                    &&& final(self).classes == old(self).classes
                    &&& final(self).bus == old(self).bus.after_suspend()
                },
            },
    {
        match event {
            Event::Reset => {
                self.bus.reset();
                self.device_state = UsbDeviceState::Default;
                self.remote_wakeup_enabled = false;
                self.pending_address = 0;
                let n = self.classes.len();
                let mut i: usize = 0;
                while i < n
                    invariant
                        i <= n,
                        n == self.classes@.len(),
                        self.config == old(self).config,
                        self.device_descriptor == old(self).device_descriptor,
                        self.config_descriptor == old(self).config_descriptor,
                        self.bos_descriptor == old(self).bos_descriptor,
                        self.self_powered == old(self).self_powered,
                        n == old(self).classes@.len(),
                        self.device_state == UsbDeviceState::Default,
                        !self.remote_wakeup_enabled,
                        self.pending_address == 0,
                        self.bus == old(self).bus.after_reset(),
                        forall|j: int|
                            0 <= j < i ==> self.classes@[j] == old(
                                self,
                            ).classes@[j].after_reset(),
                        forall|j: int| i <= j < n ==> self.classes@[j] == old(self).classes@[j],
                    decreases n - i,
                {
                    self.classes[i].reset();
                    i = i + 1;
                }
            },
            Event::Resume => {},
            Event::Suspend => {
                self.bus.suspend();
                self.device_state = UsbDeviceState::Suspend;
            },
        }
    }

    /// Resolves a GET_DESCRIPTOR request against the descriptor table and
    /// truncates the reply to the requested length.
    fn handle_get_descriptor(&self, req: Request) -> (r: InResponse)
        requires
            self.wf(),
        ensures
            match self.descriptor_reply((req.value / 256) as u8, (req.value % 256) as u8) {
                Some(full) => r matches InResponse::Accept(d) && d@ == truncated(full, req.length),
                None => r == InResponse::Reject,
            },
    {
        let (dtype, index) = req.descriptor_type_index();
        if dtype == descriptor_type::BOS {
            InResponse::Accept(
                truncate_reply(vstd::slice::slice_to_vec(self.bos_descriptor.as_slice()), req.length),
            )
        } else if dtype == descriptor_type::DEVICE {
            InResponse::Accept(
                truncate_reply(
                    vstd::slice::slice_to_vec(self.device_descriptor.as_slice()),
                    req.length,
                ),
            )
        } else if dtype == descriptor_type::CONFIGURATION {
            InResponse::Accept(
                truncate_reply(
                    vstd::slice::slice_to_vec(self.config_descriptor.as_slice()),
                    req.length,
                ),
            )
        } else if dtype == descriptor_type::STRING {
            if index == 0 {
                // String descriptor 0 is the language table: one fixed
                // language code point.
                let mut w = DescriptorWriter::new(WRITER_BUF_LEN);
                let lang = le16_bytes(lang_id::ENGLISH_US);
                let res = w.write(descriptor_type::STRING, lang.as_slice());
                assert(res is Ok);
                InResponse::Accept(truncate_reply(w.into_bytes(), req.length))
            } else {
                let s: Option<&String> = if index == 1 {
                    self.config.manufacturer.as_ref()
                } else if index == 2 {
                    self.config.product.as_ref()
                } else if index == 3 {
                    self.config.serial_number.as_ref()
                } else {
                    // Indices above 3 are a reserved extension point for
                    // class-supplied strings, unresolved in this revision.
                    None
                };
                match s {
                    Some(s) => {
                        let mut w = DescriptorWriter::new(WRITER_BUF_LEN);
                        let res = w.string(s.as_str());
                        assert(res is Ok);
                        InResponse::Accept(truncate_reply(w.into_bytes(), req.length))
                    },
                    None => InResponse::Reject,
                }
            }
        } else {
            InResponse::Reject
        }
    }

    /// Handles a control-OUT request whose data stage has already been read.
    ///
    /// The request and its payload are offered to each class in registration
    /// order; the first class not answering `Unhandled` decides, and the
    /// classes after it are left untouched.  When every class passes, the
    /// standard request table decides: the feature, address, configuration
    /// and interface requests it matches are accepted with their effect on
    /// the device state, and everything else rejects.
    pub fn handle_control_out(&mut self, req: Request, data: &[u8]) -> (r: OutResponse)
        requires
            old(self).wf(),
            req.direction == UsbDirection::Out,
        ensures
            final(self).wf(),
            final(self).config == old(self).config,
            final(self).device_descriptor == old(self).device_descriptor,
            final(self).config_descriptor == old(self).config_descriptor,
            final(self).bos_descriptor == old(self).bos_descriptor,
            final(self).self_powered == old(self).self_powered,
            final(self).classes@.len() == old(self).classes@.len(),
            ({
                let cs = old(self).classes@;
                let k = first_out_decider(cs, req, data@);
                &&& (forall|i: int| k < i < cs.len() ==> final(self).classes@[i] == cs[i])
                &&& if k < cs.len() {
                    &&& r == (if cs[k].out_response(req, data@) == RequestStatus::Accepted {
                        OutResponse::Accept
                    } else {
                        OutResponse::Reject
                    })
                    &&& final(self).device_state == old(self).device_state
                    &&& final(self).remote_wakeup_enabled == old(self).remote_wakeup_enabled
                    &&& final(self).pending_address == old(self).pending_address
                    &&& final(self).bus == old(self).bus
                } else {
                    &&& r == (if std_out_accepts(req) {
                        OutResponse::Accept
                    } else {
                        OutResponse::Reject
                    })
                    &&& final(self).device_state == std_out_state(old(self).device_state, req)
                    &&& final(self).remote_wakeup_enabled == std_out_remote_wakeup(
                        old(self).remote_wakeup_enabled,
                        req,
                    )
                    &&& final(self).pending_address == std_out_pending_address(
                        old(self).pending_address,
                        req,
                    )
                    &&& if std_out_stalls_endpoint(req) {
                        forall|e: u8|
                            final(self).bus.stalled(e) == if e == ep_addr_of(req.index) {
                                true
                            } else {
                                old(self).bus.stalled(e)
                            }
                    } else {
                        final(self).bus == old(self).bus
                    }
                }
            }),
    {
        let ghost cs = self.classes@;
        let n = self.classes.len();
        let mut i: usize = 0;
        while i < n
            invariant
                i <= n,
                n == cs.len(),
                cs == old(self).classes@,
                self.classes@.len() == n,
                forall|j: int| i <= j < n ==> self.classes@[j] == cs[j],
                forall|j: int|
                    0 <= j < i ==> #[trigger] cs[j].out_response(req, data@)
                        == RequestStatus::Unhandled,
                self.bus == old(self).bus,
                self.config == old(self).config,
                self.device_descriptor == old(self).device_descriptor,
                self.config_descriptor == old(self).config_descriptor,
                self.bos_descriptor == old(self).bos_descriptor,
                self.device_state == old(self).device_state,
                self.remote_wakeup_enabled == old(self).remote_wakeup_enabled,
                self.self_powered == old(self).self_powered,
                self.pending_address == old(self).pending_address,
                self.wf(),
            decreases n - i,
        {
            let status = self.classes[i].control_out(req, data);
            match status {
                RequestStatus::Accepted => {
                    proof {
                        lemma_out_dispatch_priority(cs, req, data@, i as int);
                    }
                    return OutResponse::Accept;
                },
                RequestStatus::Rejected => {
                    proof {
                        lemma_out_dispatch_priority(cs, req, data@, i as int);
                    }
                    return OutResponse::Reject;
                },
                RequestStatus::Unhandled => {},
            }
            i = i + 1;
        }
        proof {
            lemma_out_dispatch_priority(cs, req, data@, n as int);
        }
        match req.request_type {
            RequestType::Standard => match req.recipient {
                Recipient::Device => {
                    if req.request == Request::CLEAR_FEATURE && req.value
                        == Request::FEATURE_DEVICE_REMOTE_WAKEUP {
                        self.remote_wakeup_enabled = false;
                        OutResponse::Accept
                    } else if req.request == Request::SET_FEATURE && req.value
                        == Request::FEATURE_DEVICE_REMOTE_WAKEUP {
                        self.remote_wakeup_enabled = true;
                        OutResponse::Accept
                    } else if req.request == Request::SET_ADDRESS && 1 <= req.value && req.value
                        <= 127 {
                        // The driver may apply addressing autonomously; the
                        // field is protocol bookkeeping.
                        self.pending_address = (req.value % 256) as u8;
                        OutResponse::Accept
                    } else if req.request == Request::SET_CONFIGURATION && req.value
                        == CONFIGURATION_VALUE as u16 {
                        self.device_state = UsbDeviceState::Configured;
                        OutResponse::Accept
                    } else if req.request == Request::SET_CONFIGURATION && req.value
                        == CONFIGURATION_NONE as u16 {
                        match self.device_state {
                            UsbDeviceState::Default => OutResponse::Accept,
                            _ => {
                                self.device_state = UsbDeviceState::Addressed;
                                OutResponse::Accept
                            },
                        }
                    } else {
                        OutResponse::Reject
                    }
                },
                Recipient::Endpoint => {
                    if req.request == Request::CLEAR_FEATURE && req.value
                        == Request::FEATURE_ENDPOINT_HALT {
                        // Endpoint un-stall is not yet wired to the bus; the
                        // request is acknowledged all the same.
                        OutResponse::Accept
                    } else if req.request == Request::SET_FEATURE && req.value
                        == Request::FEATURE_ENDPOINT_HALT {
                        self.bus.set_stalled(((req.index % 256) as u8) & 0x8f, true);
                        OutResponse::Accept
                    } else {
                        OutResponse::Reject
                    }
                },
                Recipient::Interface => {
                    if req.request == Request::SET_INTERFACE && req.value
                        == DEFAULT_ALTERNATE_SETTING as u16 {
                        // Alternate settings are unimplemented by design:
                        // only the default setting is acknowledged.
                        OutResponse::Accept
                    } else {
                        OutResponse::Reject
                    }
                },
                Recipient::Other => OutResponse::Reject,
            },
            _ => OutResponse::Reject,
        }
    }

    /// Handles a control-IN request.
    ///
    /// The request is offered to each class in registration order; the first
    /// class not answering `Unhandled` decides, and the classes after it are
    /// left untouched.  When every class passes, the standard request table
    /// decides: status, descriptor, configuration and interface queries it
    /// matches reply, and everything else rejects.  Every reply is truncated
    /// to the requested length.  No control-IN request moves the device
    /// state.
    pub fn handle_control_in(&mut self, req: Request) -> (r: InResponse)
        requires
            old(self).wf(),
            req.direction == UsbDirection::In,
        ensures
            final(self).wf(),
            final(self).bus == old(self).bus,
            final(self).config == old(self).config,
            final(self).device_descriptor == old(self).device_descriptor,
            final(self).config_descriptor == old(self).config_descriptor,
            final(self).bos_descriptor == old(self).bos_descriptor,
            final(self).device_state == old(self).device_state,
            final(self).remote_wakeup_enabled == old(self).remote_wakeup_enabled,
            final(self).self_powered == old(self).self_powered,
            final(self).pending_address == old(self).pending_address,
            final(self).classes@.len() == old(self).classes@.len(),
            ({
                let cs = old(self).classes@;
                let k = first_in_decider(cs, req);
                &&& (forall|i: int| k < i < cs.len() ==> final(self).classes@[i] == cs[i])
                &&& if k < cs.len() {
                    if cs[k].in_response(req) == RequestStatus::Accepted {
                        r matches InResponse::Accept(d) && d@ == truncated(
                            cs[k].in_data(req),
                            req.length,
                        )
                    } else {
                        r == InResponse::Reject
                    }
                } else {
                    match old(self).std_in_reply(req) {
                        Some(full) => r matches InResponse::Accept(d) && d@ == truncated(
                            full,
                            req.length,
                        ),
                        None => r == InResponse::Reject,
                    }
                }
            }),
    {
        let ghost cs = self.classes@;
        let n = self.classes.len();
        let mut i: usize = 0;
        while i < n
            invariant
                i <= n,
                n == cs.len(),
                cs == old(self).classes@,
                self.classes@.len() == n,
                forall|j: int| i <= j < n ==> self.classes@[j] == cs[j],
                forall|j: int|
                    0 <= j < i ==> #[trigger] cs[j].in_response(req) == RequestStatus::Unhandled,
                self.bus == old(self).bus,
                self.config == old(self).config,
                self.device_descriptor == old(self).device_descriptor,
                self.config_descriptor == old(self).config_descriptor,
                self.bos_descriptor == old(self).bos_descriptor,
                self.device_state == old(self).device_state,
                self.remote_wakeup_enabled == old(self).remote_wakeup_enabled,
                self.self_powered == old(self).self_powered,
                self.pending_address == old(self).pending_address,
                self.wf(),
            decreases n - i,
        {
            let resp = self.classes[i].control_in(req);
            match resp.status {
                RequestStatus::Accepted => {
                    proof {
                        lemma_in_dispatch_priority(cs, req, i as int);
                    }
                    return InResponse::Accept(truncate_reply(resp.data, req.length));
                },
                RequestStatus::Rejected => {
                    proof {
                        lemma_in_dispatch_priority(cs, req, i as int);
                    }
                    return InResponse::Reject;
                },
                RequestStatus::Unhandled => {},
            }
            i = i + 1;
        }
        proof {
            lemma_in_dispatch_priority(cs, req, n as int);
        }
        match req.request_type {
            RequestType::Standard => match req.recipient {
                Recipient::Device => {
                    if req.request == Request::GET_STATUS {
                        // Bit 0 reports self-powered, bit 1 remote wakeup.
                        let w: u16 = (if self.self_powered {
                            1
                        } else {
                            0
                        }) + (if self.remote_wakeup_enabled {
                            2
                        } else {
                            0
                        });
                        InResponse::Accept(truncate_reply(le16_bytes(w), req.length))
                    } else if req.request == Request::GET_DESCRIPTOR {
                        self.handle_get_descriptor(req)
                    } else if req.request == Request::GET_CONFIGURATION {
                        let v: u8 = match self.device_state {
                            UsbDeviceState::Configured => CONFIGURATION_VALUE,
                            _ => CONFIGURATION_NONE,
                        };
                        let mut d: Vec<u8> = Vec::new();
                        d.push(v);
                        proof {
                            assert(d@ =~= seq![v]);
                        }
                        InResponse::Accept(truncate_reply(d, req.length))
                    } else {
                        InResponse::Reject
                    }
                },
                Recipient::Interface => {
                    if req.request == Request::GET_STATUS {
                        InResponse::Accept(truncate_reply(le16_bytes(0), req.length))
                    } else if req.request == Request::GET_INTERFACE {
                        // Alternate settings are unimplemented by design:
                        // the default setting is the only value reported.
                        let mut d: Vec<u8> = Vec::new();
                        d.push(DEFAULT_ALTERNATE_SETTING);
                        proof {
                            assert(d@ =~= seq![DEFAULT_ALTERNATE_SETTING]);
                        }
                        InResponse::Accept(truncate_reply(d, req.length))
                    } else {
                        InResponse::Reject
                    }
                },
                Recipient::Endpoint => {
                    if req.request == Request::GET_STATUS {
                        let stalled = self.bus.is_stalled(((req.index % 256) as u8) & 0x8f);
                        let w: u16 = if stalled {
                            1
                        } else {
                            0
                        };
                        InResponse::Accept(truncate_reply(le16_bytes(w), req.length))
                    } else {
                        InResponse::Reject
                    }
                },
                Recipient::Other => InResponse::Reject,
            },
            _ => InResponse::Reject,
        }
    }
}

/// Status round-trip: when no class claims the requests, SET_FEATURE of
/// DEVICE_REMOTE_WAKEUP followed immediately by GET_STATUS(Device) reports
/// bit 1 of the status word set, and CLEAR_FEATURE of the same feature
/// followed by GET_STATUS(Device) reports bit 1 clear.
pub proof fn lemma_status_round_trip<B: Bus, C: UsbClass>(
    dev: UsbDevice<B, C>,
    feature_req: Request,
    status_req: Request,
    enable: bool,
)
    requires
        feature_req.request_type == RequestType::Standard,
        feature_req.recipient == Recipient::Device,
        feature_req.request == (if enable {
            Request::SET_FEATURE
        } else {
            Request::CLEAR_FEATURE
        }),
        feature_req.value == Request::FEATURE_DEVICE_REMOTE_WAKEUP,
        is_std(status_req, Recipient::Device, Request::GET_STATUS),
    ensures
        std_out_accepts(feature_req),
        std_out_remote_wakeup(dev.remote_wakeup_enabled, feature_req) == enable,
        ({
            let dev1 = UsbDevice {
                device_state: std_out_state(dev.device_state, feature_req),
                remote_wakeup_enabled: std_out_remote_wakeup(
                    dev.remote_wakeup_enabled,
                    feature_req,
                ),
                pending_address: std_out_pending_address(dev.pending_address, feature_req),
                ..dev
            };
            &&& dev1.std_in_reply(status_req) == Some(
                le16(status_word(dev.self_powered, enable) as int),
            )
            &&& (status_word(dev.self_powered, enable) / 2) % 2 == (if enable {
                1int
            } else {
                0int
            })
        }),
{
}

/// Configuration round-trip: when no class claims the requests,
/// SET_CONFIGURATION(1) then GET_CONFIGURATION reports 1, and
/// SET_CONFIGURATION(0) from the Configured state then GET_CONFIGURATION
/// reports 0 with the device left Addressed, not Default.
pub proof fn lemma_configuration_round_trip<B: Bus, C: UsbClass>(
    dev: UsbDevice<B, C>,
    set_req: Request,
    get_req: Request,
)
    requires
        is_std(set_req, Recipient::Device, Request::SET_CONFIGURATION),
        set_req.value == CONFIGURATION_VALUE as u16 || set_req.value == CONFIGURATION_NONE as u16,
        is_std(get_req, Recipient::Device, Request::GET_CONFIGURATION),
    ensures
        std_out_accepts(set_req),
        ({
            let dev1 = UsbDevice {
                device_state: std_out_state(dev.device_state, set_req),
                remote_wakeup_enabled: std_out_remote_wakeup(dev.remote_wakeup_enabled, set_req),
                pending_address: std_out_pending_address(dev.pending_address, set_req),
                ..dev
            };
            &&& set_req.value == CONFIGURATION_VALUE as u16 ==> dev1.std_in_reply(get_req)
                == Some(seq![CONFIGURATION_VALUE])
            &&& set_req.value == CONFIGURATION_NONE as u16 && dev.device_state
                == UsbDeviceState::Configured ==> {
                &&& dev1.std_in_reply(get_req) == Some(seq![CONFIGURATION_NONE])
                &&& dev1.device_state == UsbDeviceState::Addressed
            }
        }),
{
}

} // verus!
