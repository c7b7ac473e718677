//! Bluetooth device addresses and their textual form `XX:XX:XX:XX:XX:XX`.
use vstd::prelude::*;
use vstd::string::StringSliceAdditionalSpecFns;

verus! {

/// A six-byte Bluetooth device address, kept as one 48-bit number whose most
/// significant byte is the first one written in the textual form.
#[derive(Clone, Copy, Debug, PartialEq, Eq, Structural, Hash)]
pub struct RawAddress {
    pub address: u64,
}

/// Value of an ASCII hexadecimal digit (either case), if `c` is one.
pub open spec fn hex_digit_value(c: u8) -> Option<int> {
    if 48 <= c <= 57 {
        Some(c - 48)
    } else if 65 <= c <= 70 {
        Some(c - 55)
    } else if 97 <= c <= 102 {
        Some(c - 87)
    } else {
        None
    }
}

/// Byte `k` (0 = first) of the textual form, read as two hex digits at `3 * k`.
pub open spec fn group_value(b: Seq<u8>, k: int) -> int {
    hex_digit_value(b[3 * k])->0 * 16 + hex_digit_value(b[3 * k + 1])->0
}

/// `b` is six groups of two hex digits separated by single colons.
pub open spec fn is_address_text(b: Seq<u8>) -> bool {
    &&& b.len() == 17
    &&& forall|k: int| 0 <= k < 6 ==> (#[trigger] hex_digit_value(b[3 * k])) is Some
    &&& forall|k: int| 0 <= k < 6 ==> (#[trigger] hex_digit_value(b[3 * k + 1])) is Some
    &&& forall|k: int| 0 <= k < 5 ==> #[trigger] b[3 * k + 2] == 58u8
}

/// The 48-bit number spelled by a well-formed address text.
pub open spec fn address_text_value(b: Seq<u8>) -> int {
    group_value(b, 0) * 0x100_0000_0000 + group_value(b, 1) * 0x1_0000_0000 + group_value(b, 2)
        * 0x100_0000 + group_value(b, 3) * 0x1_0000 + group_value(b, 4) * 0x100 + group_value(b, 5)
}

/// The address that the bytes `b` denote, if they are an address text.
#[verifier::opaque]
pub open spec fn parse_address(b: Seq<u8>) -> Option<RawAddress> {
    if is_address_text(b) {
        Some(RawAddress { address: address_text_value(b) as u64 })
    } else {
        None
    }
}

/// Uppercase hex digit for a nibble.
pub open spec fn hex_char(n: int) -> char {
    if n < 10 {
        (48 + n) as char
    } else {
        (55 + n) as char
    }
}

/// Two uppercase hex digits for a byte.
pub open spec fn byte_text(b: u8) -> Seq<char> {
    seq![hex_char(b as int / 16), hex_char(b as int % 16)]
}

/// Text of six bytes in the form `XX:XX:XX:XX:XX:XX`.
pub open spec fn bytes_text(b0: u8, b1: u8, b2: u8, b3: u8, b4: u8, b5: u8) -> Seq<char> {
    byte_text(b0) + seq![':'] + byte_text(b1) + seq![':'] + byte_text(b2) + seq![':'] + byte_text(
        b3,
    ) + seq![':'] + byte_text(b4) + seq![':'] + byte_text(b5)
}

/// Text of an address.
pub open spec fn address_text(a: RawAddress) -> Seq<char> {
    let v = a.address;
    bytes_text(
        ((v / 0x100_0000_0000) % 256) as u8,
        ((v / 0x1_0000_0000) % 256) as u8,
        ((v / 0x100_0000) % 256) as u8,
        ((v / 0x1_0000) % 256) as u8,
        ((v / 0x100) % 256) as u8,
        (v % 256) as u8,
    )
}

fn hex_digit(c: u8) -> (r: Option<u8>)
    ensures
        r matches Some(v) ==> hex_digit_value(c) == Some(v as int),
        r is None ==> hex_digit_value(c) is None,
{
    if 48 <= c && c <= 57 {
        Some(c - 48)
    } else if 65 <= c && c <= 70 {
        Some(c - 55)
    } else if 97 <= c && c <= 102 {
        Some(c - 87)
    } else {
        None
    }
}

fn read_group(b: &[u8], k: usize) -> (r: Option<u64>)
    requires
        k < 6,
        b@.len() == 17,
    ensures
        r matches Some(v) ==> hex_digit_value(b@[3 * k as int]) is Some && hex_digit_value(
            b@[3 * k as int + 1],
        ) is Some && v == group_value(b@, k as int) && v < 256,
        r is None ==> hex_digit_value(b@[3 * k as int]) is None || hex_digit_value(
            b@[3 * k as int + 1],
        ) is None,
{
    let hi = match hex_digit(b[3 * k]) {
        Some(v) => v,
        None => return None,
    };
    let lo = match hex_digit(b[3 * k + 1]) {
        Some(v) => v,
        None => return None,
    };
    Some(hi as u64 * 16 + lo as u64)
}

/// Relies on std's `format!` with `{:02X}`: each byte as two uppercase hex
/// digits, zero-padded, joined by the literal colons.
#[verifier::external_body]
fn format_address_bytes(b0: u8, b1: u8, b2: u8, b3: u8, b4: u8, b5: u8) -> (r: String)
    ensures
        r@ == bytes_text(b0, b1, b2, b3, b4, b5),
{
    format!("{:02X}:{:02X}:{:02X}:{:02X}:{:02X}:{:02X}", b0, b1, b2, b3, b4, b5)
}

impl RawAddress {
    /// Parses `XX:XX:XX:XX:XX:XX` (hex digits of either case); `None` for any
    /// other text.
    pub fn from_string(s: &str) -> (r: Option<RawAddress>)
        ensures
            r == parse_address(s.spec_bytes()),
    {
        reveal(parse_address);
        let b = s.as_bytes();
        if b.len() != 17 {
            return None;
        }
        let mut groups: [u64; 6] = [0; 6];
        let mut k: usize = 0;
        while k < 6
            invariant
                0 <= k <= 6,
                b@ == s.spec_bytes(),
                b@.len() == 17,
                forall|j: int|
                    0 <= j < k ==> (#[trigger] hex_digit_value(b@[3 * j])) is Some
                        && hex_digit_value(b@[3 * j + 1]) is Some && groups[j] == group_value(
                        b@,
                        j,
                    ) && groups[j] < 256,
                forall|j: int| 0 <= j < k && j < 5 ==> #[trigger] b@[3 * j + 2] == 58u8,
            decreases 6 - k,
        {
            proof {
                reveal(parse_address);
            }
            match read_group(b, k) {
                Some(v) => {
                    groups[k] = v;
                },
                None => {
                    return None;
                },
            }
            if k < 5 && b[3 * k + 2] != 58 {
                return None;
            }
            k = k + 1;
        }
        assert(is_address_text(b@)) by {
            assert forall|j: int| 0 <= j < 6 implies (#[trigger] hex_digit_value(b@[3 * j + 1])) is Some by {
                assert(hex_digit_value(b@[3 * j]) is Some);
            }
        }
        let v = groups[0] * 0x100_0000_0000 + groups[1] * 0x1_0000_0000 + groups[2] * 0x100_0000
            + groups[3] * 0x1_0000 + groups[4] * 0x100 + groups[5];
        Some(RawAddress { address: v })
    }

    /// The address as `XX:XX:XX:XX:XX:XX` with uppercase hex digits.
    pub fn to_string(&self) -> (r: String)
        ensures
            r@ == address_text(*self),
    {
        let v = self.address;
        let b0 = ((v / 0x100_0000_0000) % 256) as u8;
        let b1 = ((v / 0x1_0000_0000) % 256) as u8;
        let b2 = ((v / 0x100_0000) % 256) as u8;
        let b3 = ((v / 0x1_0000) % 256) as u8;
        let b4 = ((v / 0x100) % 256) as u8;
        let b5 = (v % 256) as u8;
        format_address_bytes(b0, b1, b2, b3, b4, b5)
    }
}

} // verus!
