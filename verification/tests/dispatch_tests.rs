use embassy_usb::builder::Config;
use embassy_usb::class::ControlInRequestStatus;
use embassy_usb::class::RequestStatus;
use embassy_usb::class::UsbClass;
use embassy_usb::control::Recipient;
use embassy_usb::control::Request;
use embassy_usb::control::RequestType;
use embassy_usb::control::UsbDirection;
use embassy_usb::driver::Bus;
use embassy_usb::InResponse;
use embassy_usb::OutResponse;
use embassy_usb::UsbDevice;

struct QuietBus;

impl Bus for QuietBus {
    fn reset(&mut self) {}

    fn suspend(&mut self) {}

    fn set_stalled(&mut self, _ep_addr: u8, _stalled: bool) {}

    fn is_stalled(&self, _ep_addr: u8) -> bool {
        false
    }
}

/// A class scripted to give one fixed answer to every request, counting how
/// often it is consulted.
struct ScriptedClass {
    answer: RequestStatus,
    in_payload: Vec<u8>,
    out_calls: usize,
    in_calls: usize,
}

impl ScriptedClass {
    fn new(answer: RequestStatus, in_payload: Vec<u8>) -> Self {
        ScriptedClass { answer, in_payload, out_calls: 0, in_calls: 0 }
    }
}

impl UsbClass for ScriptedClass {
    fn reset(&mut self) {}

    fn control_out(&mut self, _req: Request, _data: &[u8]) -> RequestStatus {
        self.out_calls += 1;
        self.answer
    }

    fn control_in(&mut self, _req: Request) -> ControlInRequestStatus {
        self.in_calls += 1;
        ControlInRequestStatus { status: self.answer, data: self.in_payload.clone() }
    }
}

fn device(classes: Vec<ScriptedClass>) -> UsbDevice<QuietBus, ScriptedClass> {
    UsbDevice::build(
        QuietBus,
        Config {
            manufacturer: None,
            product: None,
            serial_number: None,
            max_packet_size_0: 8,
        },
        vec![18, 1],
        vec![9, 2],
        vec![5, 15],
        classes,
    )
}

fn class_out() -> Request {
    Request {
        direction: UsbDirection::Out,
        request_type: RequestType::Class,
        recipient: Recipient::Interface,
        request: 0x22,
        value: 1,
        index: 0,
        length: 0,
    }
}

fn class_in(length: u16) -> Request {
    Request {
        direction: UsbDirection::In,
        request_type: RequestType::Class,
        recipient: Recipient::Interface,
        request: 0x21,
        value: 0,
        index: 0,
        length,
    }
}

#[test]
fn out_dispatch_stops_at_first_decider() {
    let mut dev = device(vec![
        ScriptedClass::new(RequestStatus::Unhandled, Vec::new()),
        ScriptedClass::new(RequestStatus::Accepted, Vec::new()),
        ScriptedClass::new(RequestStatus::Accepted, Vec::new()),
        ScriptedClass::new(RequestStatus::Rejected, Vec::new()),
    ]);
    let r = dev.handle_control_out(class_out(), &[1, 2, 3]);
    assert_eq!(r, OutResponse::Accept);
    assert_eq!(dev.classes[0].out_calls, 1);
    assert_eq!(dev.classes[1].out_calls, 1);
    // Dispatch priority: classes after the decider are never consulted.
    assert_eq!(dev.classes[2].out_calls, 0);
    assert_eq!(dev.classes[3].out_calls, 0);
}

#[test]
fn in_dispatch_stops_at_first_decider() {
    let mut dev = device(vec![
        ScriptedClass::new(RequestStatus::Unhandled, Vec::new()),
        ScriptedClass::new(RequestStatus::Unhandled, Vec::new()),
        ScriptedClass::new(RequestStatus::Rejected, Vec::new()),
        ScriptedClass::new(RequestStatus::Accepted, vec![1]),
    ]);
    let r = dev.handle_control_in(class_in(8));
    assert_eq!(r, InResponse::Reject);
    assert_eq!(dev.classes[0].in_calls, 1);
    assert_eq!(dev.classes[1].in_calls, 1);
    assert_eq!(dev.classes[2].in_calls, 1);
    assert_eq!(dev.classes[3].in_calls, 0);
}

#[test]
fn class_rejection_stalls_out_transfer() {
    let mut dev = device(vec![ScriptedClass::new(RequestStatus::Rejected, Vec::new())]);
    let r = dev.handle_control_out(class_out(), &[]);
    assert_eq!(r, OutResponse::Reject);
}

#[test]
fn class_accepted_in_reply_is_sent() {
    let mut dev = device(vec![ScriptedClass::new(RequestStatus::Accepted, vec![10, 20, 30])]);
    let r = dev.handle_control_in(class_in(8));
    assert_eq!(r, InResponse::Accept(vec![10, 20, 30]));
}

#[test]
fn class_accepted_in_reply_is_truncated() {
    let mut dev = device(vec![ScriptedClass::new(RequestStatus::Accepted, vec![10, 20, 30])]);
    let r = dev.handle_control_in(class_in(2));
    assert_eq!(r, InResponse::Accept(vec![10, 20]));
}

#[test]
fn unhandled_class_request_falls_through_and_rejects() {
    let mut dev = device(vec![ScriptedClass::new(RequestStatus::Unhandled, Vec::new())]);
    // No class claims it and the standard table does not match class
    // requests: the transfer stalls.
    let r = dev.handle_control_out(class_out(), &[]);
    assert_eq!(r, OutResponse::Reject);
    assert_eq!(dev.classes[0].out_calls, 1);
}

#[test]
fn class_decision_leaves_device_state_alone() {
    let mut dev = device(vec![ScriptedClass::new(RequestStatus::Accepted, Vec::new())]);
    // Even a request that spells SET_CONFIGURATION is the class's once the
    // class claims it: the standard table is not consulted.
    let req = Request {
        direction: UsbDirection::Out,
        request_type: RequestType::Standard,
        recipient: Recipient::Device,
        request: Request::SET_CONFIGURATION,
        value: 1,
        index: 0,
        length: 0,
    };
    let r = dev.handle_control_out(req, &[]);
    assert_eq!(r, OutResponse::Accept);
    assert_eq!(dev.device_state, embassy_usb::UsbDeviceState::Default);
}
