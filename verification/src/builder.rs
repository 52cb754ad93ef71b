//! Construction-time configuration of the device.

use vstd::prelude::*;

use crate::descriptor::utf16le;
use crate::descriptor::utf16le_of;

verus! {

/// Construction-time inputs the device core reads: the identity strings and
/// the control endpoint's packet size.
pub struct Config {
    /// The manufacturer string, reported as string descriptor 1.
    pub manufacturer: Option<String>,
    /// The product string, reported as string descriptor 2.
    pub product: Option<String>,
    /// The serial-number string, reported as string descriptor 3.
    pub serial_number: Option<String>,
    /// Packet size of the control endpoint.
    pub max_packet_size_0: u8,
}

/// Whether a synthesized string descriptor for `s` fits the descriptor
/// framing: its UTF-16 text, plus the two framing bytes, must fit both the
/// length byte and the 256-byte scratch buffer.
pub open spec fn string_fits(s: Seq<char>) -> bool {
    utf16le(s).len() + 2 <= 255
}

/// Whether every identity string of `config` can be serialized as a string
/// descriptor.  Descriptor fragments are statically bounded by design:
/// the device core requires this of its configuration.
pub open spec fn config_strings_fit(config: Config) -> bool {
    &&& (config.manufacturer matches Some(s) ==> string_fits(s@))
    &&& (config.product matches Some(s) ==> string_fits(s@))
    &&& (config.serial_number matches Some(s) ==> string_fits(s@))
}

/// The identity string a string-descriptor index names: 1 is the
/// manufacturer, 2 the product, 3 the serial number.  Every other index is
/// unresolved here: 0 is the language table, and indices above 3 are a
/// reserved extension point for class-supplied strings.
pub open spec fn identity_string(config: Config, index: u8) -> Option<Seq<char>> {
    if index == 1 {
        match config.manufacturer {
            Some(s) => Some(s@),
            None => None,
        }
    } else if index == 2 {
        match config.product {
            Some(s) => Some(s@),
            None => None,
        }
    } else if index == 3 {
        match config.serial_number {
            Some(s) => Some(s@),
            None => None,
        }
    } else {
        None
    }
}

/// Checks one identity string against the descriptor framing bound.
fn check_string_fits(s: &Option<String>) -> (r: bool)
    ensures
        r == (s matches Some(t) ==> string_fits(t@)),
{
    match s {
        Some(t) => {
            let bytes = utf16le_of(t.as_str());
            bytes.len() <= 253
        },
        None => true,
    }
}

impl Config {
    /// Checks that every identity string can be serialized as a string
    /// descriptor.  The device core requires this of its configuration; an
    /// unverified caller tests it here before constructing the device.
    pub fn strings_fit(&self) -> (r: bool)
        ensures
            r == config_strings_fit(*self),
    {
        let m = check_string_fits(&self.manufacturer);
        let p = check_string_fits(&self.product);
        let s = check_string_fits(&self.serial_number);
        m && p && s
    }
}

} // verus!
