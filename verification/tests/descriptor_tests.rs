use embassy_usb::builder::Config;
use embassy_usb::class::ControlInRequestStatus;
use embassy_usb::class::RequestStatus;
use embassy_usb::class::UsbClass;
use embassy_usb::control::Recipient;
use embassy_usb::control::Request;
use embassy_usb::control::RequestType;
use embassy_usb::control::UsbDirection;
use embassy_usb::descriptor::utf16le_of;
use embassy_usb::descriptor::DescriptorWriter;
use embassy_usb::driver::Bus;
use embassy_usb::InResponse;
use embassy_usb::UsbDevice;

struct QuietBus;

impl Bus for QuietBus {
    fn reset(&mut self) {}

    fn suspend(&mut self) {}

    fn set_stalled(&mut self, _ep_addr: u8, _stalled: bool) {}

    fn is_stalled(&self, _ep_addr: u8) -> bool {
        false
    }
}

struct NoClass;

impl UsbClass for NoClass {
    fn reset(&mut self) {}

    fn control_out(&mut self, _req: Request, _data: &[u8]) -> RequestStatus {
        RequestStatus::Unhandled
    }

    fn control_in(&mut self, _req: Request) -> ControlInRequestStatus {
        ControlInRequestStatus { status: RequestStatus::Unhandled, data: Vec::new() }
    }
}

fn device() -> UsbDevice<QuietBus, NoClass> {
    UsbDevice::build(
        QuietBus,
        Config {
            manufacturer: Some(String::from("Ada")),
            product: Some(String::from("B\u{e9}")),
            serial_number: None,
            max_packet_size_0: 64,
        },
        vec![18, 1, 0, 2, 0, 0, 0, 64],
        vec![9, 2, 25, 0, 1, 1, 0, 0xC0],
        vec![5, 15, 5, 0, 0],
        Vec::new(),
    )
}

fn get_descriptor(value: u16, length: u16) -> Request {
    Request {
        direction: UsbDirection::In,
        request_type: RequestType::Standard,
        recipient: Recipient::Device,
        request: Request::GET_DESCRIPTOR,
        value,
        index: 0,
        length,
    }
}

fn reply(dev: &mut UsbDevice<QuietBus, NoClass>, req: Request) -> Vec<u8> {
    match dev.handle_control_in(req) {
        InResponse::Accept(data) => data,
        InResponse::Reject => panic!("request was rejected"),
    }
}

#[test]
fn device_descriptor_replied_verbatim() {
    let mut dev = device();
    let got = reply(&mut dev, get_descriptor(0x0100, 255));
    assert_eq!(got, vec![18, 1, 0, 2, 0, 0, 0, 64]);
}

#[test]
fn configuration_descriptor_replied_verbatim() {
    let mut dev = device();
    let got = reply(&mut dev, get_descriptor(0x0200, 255));
    assert_eq!(got, vec![9, 2, 25, 0, 1, 1, 0, 0xC0]);
}

#[test]
fn bos_descriptor_replied_verbatim() {
    let mut dev = device();
    let got = reply(&mut dev, get_descriptor(0x0F00, 255));
    assert_eq!(got, vec![5, 15, 5, 0, 0]);
}

#[test]
fn descriptor_reply_truncated_to_requested_length() {
    let mut dev = device();
    // Serialized length 8, requested 4: exactly the first 4 bytes.
    let got = reply(&mut dev, get_descriptor(0x0100, 4));
    assert_eq!(got, vec![18, 1, 0, 2]);
    // Requested more than serialized: never more than the serialization.
    let got = reply(&mut dev, get_descriptor(0x0100, 300));
    assert_eq!(got.len(), 8);
}

#[test]
fn string_descriptor_zero_is_the_language_table() {
    let mut dev = device();
    let got = reply(&mut dev, get_descriptor(0x0300, 255));
    // Length 4, STRING type, then English (US) in little-endian.
    assert_eq!(got, vec![4, 3, 0x09, 0x04]);
}

#[test]
fn string_descriptor_manufacturer() {
    let mut dev = device();
    let got = reply(&mut dev, get_descriptor(0x0301, 255));
    assert_eq!(got, vec![8, 3, b'A', 0, b'd', 0, b'a', 0]);
}

#[test]
fn string_descriptor_non_ascii_product() {
    let mut dev = device();
    let got = reply(&mut dev, get_descriptor(0x0302, 255));
    assert_eq!(got, vec![6, 3, b'B', 0, 0xE9, 0]);
}

#[test]
fn string_descriptor_without_configured_string_rejects() {
    let mut dev = device();
    // Serial number is not configured.
    let r = dev.handle_control_in(get_descriptor(0x0303, 255));
    assert_eq!(r, InResponse::Reject);
}

#[test]
fn string_descriptor_unknown_index_rejects() {
    let mut dev = device();
    // Index 99: no class claims it; the reply is a STALL, not a zero-length
    // accept.
    let r = dev.handle_control_in(get_descriptor(0x0363, 255));
    assert_eq!(r, InResponse::Reject);
}

#[test]
fn unknown_descriptor_type_rejects() {
    let mut dev = device();
    let r = dev.handle_control_in(get_descriptor(0x2100, 255));
    assert_eq!(r, InResponse::Reject);
}

#[test]
fn utf16_encoding_of_surrogate_pair() {
    let bytes = utf16le_of("\u{1D11E}");
    assert_eq!(bytes, vec![0x34, 0xD8, 0x1E, 0xDD]);
}

#[test]
fn utf16_encoding_of_mixed_text() {
    let bytes = utf16le_of("a\u{e9}");
    assert_eq!(bytes, vec![0x61, 0x00, 0xE9, 0x00]);
}

#[test]
fn writer_frames_fragments() {
    let mut w = DescriptorWriter::new(16);
    assert_eq!(w.position(), 0);
    assert_eq!(w.write(4, &[7, 8]), Ok(()));
    assert_eq!(w.position(), 4);
    assert_eq!(w.write(5, &[]), Ok(()));
    assert_eq!(w.into_bytes(), vec![4, 4, 7, 8, 2, 5]);
}

#[test]
fn writer_rejects_fragment_beyond_capacity() {
    let mut w = DescriptorWriter::new(4);
    assert_eq!(w.write(4, &[7, 8, 9]), Err(()));
    assert_eq!(w.position(), 0);
    // A fragment that exactly fills the buffer still fits.
    assert_eq!(w.write(4, &[7, 8]), Ok(()));
    assert_eq!(w.position(), 4);
}

#[test]
fn writer_rejects_fragment_beyond_length_byte() {
    let mut w = DescriptorWriter::new(400);
    let long = vec![0u8; 254];
    assert_eq!(w.write(4, &long), Err(()));
    assert_eq!(w.position(), 0);
}

#[test]
fn writer_serializes_string_descriptors() {
    let mut w = DescriptorWriter::new(64);
    assert_eq!(w.string("hi"), Ok(()));
    assert_eq!(w.into_bytes(), vec![6, 3, b'h', 0, b'i', 0]);
}

#[test]
fn config_strings_fit_checks_the_framing_bound() {
    let mut cfg = Config {
        manufacturer: Some("x".repeat(126)),
        product: None,
        serial_number: None,
        max_packet_size_0: 64,
    };
    assert!(cfg.strings_fit());
    cfg.product = Some("y".repeat(127));
    assert!(!cfg.strings_fit());
}

#[test]
fn descriptor_type_index_decomposes_value() {
    let req = get_descriptor(0x0363, 0);
    assert_eq!(req.descriptor_type_index(), (3, 0x63));
}
