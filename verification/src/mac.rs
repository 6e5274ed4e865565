//! Hardware addresses of network interfaces.

use vstd::prelude::*;
use crate::error::{Error, ErrorKind};

verus! {

/// The character of a hexadecimal digit, in upper case.
pub open spec fn upper_hex_char(d: nat) -> char {
    if d == 0 {
        '0'
    } else if d == 1 {
        '1'
    } else if d == 2 {
        '2'
    } else if d == 3 {
        '3'
    } else if d == 4 {
        '4'
    } else if d == 5 {
        '5'
    } else if d == 6 {
        '6'
    } else if d == 7 {
        '7'
    } else if d == 8 {
        '8'
    } else if d == 9 {
        '9'
    } else if d == 10 {
        'A'
    } else if d == 11 {
        'B'
    } else if d == 12 {
        'C'
    } else if d == 13 {
        'D'
    } else if d == 14 {
        'E'
    } else {
        'F'
    }
}

/// A byte as two hexadecimal digits in upper case, the high one first.
pub open spec fn upper_hex_byte(b: u8) -> Seq<char> {
    seq![upper_hex_char(b as nat / 16), upper_hex_char(b as nat % 16)]
}

/// Six bytes as a hardware address: upper-case pairs of hexadecimal digits
/// separated by colons.
pub open spec fn mac_text(b: Seq<u8>) -> Seq<char>
    recommends
        b.len() == 6,
{
    upper_hex_byte(b[0]) + seq![':'] + upper_hex_byte(b[1]) + seq![':'] + upper_hex_byte(b[2])
        + seq![':'] + upper_hex_byte(b[3]) + seq![':'] + upper_hex_byte(b[4]) + seq![':']
        + upper_hex_byte(b[5])
}

/// The six bytes that a text denotes as a hardware address, if it denotes one.
pub uninterp spec fn mac_parse(s: Seq<char>) -> Option<Seq<u8>>;

/// `Display` of `macaddr::MacAddr6`: the six bytes as upper-case pairs of
/// hexadecimal digits separated by colons.
#[verifier::external_body]
fn mac_to_string(bytes: &[u8; 6]) -> (s: String)
    ensures
        s@ == mac_text(bytes@),
{
    macaddr::MacAddr6::from(*bytes).to_string()
}

/// `FromStr` of `macaddr::MacAddr6`: the address that the text denotes, if it
/// denotes one; an address has six bytes.
#[verifier::external_body]
fn mac_from_str(s: &str) -> (r: Option<[u8; 6]>)
    ensures
        match r {
            Some(bytes) => mac_parse(s@) == Some(bytes@),
            None => mac_parse(s@).is_none(),
        },
{
    match s.parse::<macaddr::MacAddr6>() {
        Ok(m) => Some(m.into_array()),
        Err(_) => None,
    }
}

/// The hardware address of an interface: six bytes.
#[derive(Clone, Copy, Debug, PartialEq, Eq, Hash)]
pub struct MacAddr {
    pub bytes: [u8; 6],
}

impl Default for MacAddr {
    /// The all-zero address.
    fn default() -> (m: MacAddr)
        ensures
            m.bytes@ == seq![0u8, 0u8, 0u8, 0u8, 0u8, 0u8],
    {
        let m = MacAddr { bytes: [0, 0, 0, 0, 0, 0] };
        assert(m.bytes@ =~= seq![0u8, 0u8, 0u8, 0u8, 0u8, 0u8]);
        m
    }
}

impl MacAddr {
    /// The bytes of the address that a kernel-reported byte string denotes:
    /// none reported means the all-zero address, six are taken as they are,
    /// and any other number of bytes denotes no address.
    pub open spec fn spec_try_from(value: Seq<u8>) -> Option<Seq<u8>> {
        if value.len() == 0 {
            Some(seq![0u8, 0u8, 0u8, 0u8, 0u8, 0u8])
        } else if value.len() == 6 {
            Some(value)
        } else {
            None
        }
    }

    /// The address with the given bytes.
    pub fn from(bytes: [u8; 6]) -> (m: MacAddr)
        ensures
            m.bytes == bytes,
    {
        MacAddr { bytes }
    }

    /// The address that a kernel-reported byte string denotes, or a `Config`
    /// error if its length is neither zero nor six.
    pub fn try_from(value: &[u8]) -> (r: Result<MacAddr, Error>)
        ensures
            match r {
                Ok(m) => Self::spec_try_from(value@) == Some(m.bytes@),
                Err(e) => Self::spec_try_from(value@).is_none() && e.kind == ErrorKind::Config,
            },
    {
        if value.len() == 0 {
            return Ok(MacAddr::default());
        }
        if value.len() != 6 {
            return Err(Error::new(ErrorKind::Config, "invalid mac address"));
        }
        let m = MacAddr { bytes: [value[0], value[1], value[2], value[3], value[4], value[5]] };
        assert(m.bytes@ =~= value@);
        Ok(m)
    }

    /// The address as text.
    pub fn to_string(&self) -> (s: String)
        ensures
            s@ == mac_text(self.bytes@),
    {
        mac_to_string(&self.bytes)
    }

    /// The address that a text denotes, or a `Config` error if it denotes none.
    pub fn from_str(s: &str) -> (r: Result<MacAddr, Error>)
        ensures
            match r {
                Ok(m) => mac_parse(s@) == Some(m.bytes@),
                Err(e) => mac_parse(s@).is_none() && e.kind == ErrorKind::Config,
            },
    {
        match mac_from_str(s) {
            Some(bytes) => Ok(MacAddr { bytes }),
            None => Err(Error::new(ErrorKind::Config, "invalid mac address")),
        }
    }
}

} // verus!
