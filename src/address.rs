//! Bluetooth device addresses: six octets, most significant first.
use vstd::prelude::*;

verus! {

/// A six-octet Bluetooth device address, stored in the order in which it is
/// written out (`octets[0]` is the leftmost pair of `XX:XX:XX:XX:XX:XX`).
#[derive(Clone, Copy, Debug)]
pub struct DeviceAddress {
    pub octets: [u8; 6],
}

/// The sixteen upper-case hexadecimal digits.
pub open spec fn hex_digits() -> Seq<char> {
    seq!['0', '1', '2', '3', '4', '5', '6', '7', '8', '9', 'A', 'B', 'C', 'D', 'E', 'F']
}

/// Two upper-case hexadecimal digits for one octet.
pub open spec fn hex_pair(b: u8) -> Seq<char> {
    seq![hex_digits()[(b / 16) as int], hex_digits()[(b % 16) as int]]
}

/// The colon-separated text of an address, e.g. `FF:EE:DD:CC:BB:AA`.
pub open spec fn address_text(o: Seq<u8>) -> Seq<char> {
    hex_pair(o[0]) + seq![':'] + hex_pair(o[1]) + seq![':'] + hex_pair(o[2]) + seq![':']
        + hex_pair(o[3]) + seq![':'] + hex_pair(o[4]) + seq![':'] + hex_pair(o[5])
}

/// The address read as a 48-bit big-endian number.
pub open spec fn address_key(o: Seq<u8>) -> int {
    ((((o[0] as int * 256 + o[1] as int) * 256 + o[2] as int) * 256 + o[3] as int) * 256
        + o[4] as int) * 256 + o[5] as int
}

/// Appends the two hexadecimal digits of `b` to `s`.
fn push_hex_pair(s: &mut String, b: u8)
    ensures
        final(s)@ == old(s)@ + hex_pair(b),
{
    let digits = "0123456789ABCDEF";
    proof {
        reveal_strlit("0123456789ABCDEF");
    }
    assert(digits@ =~= hex_digits());
    let hi = (b / 16) as usize;
    let lo = (b % 16) as usize;
    s.append(digits.substring_char(hi, hi + 1));
    s.append(digits.substring_char(lo, lo + 1));
    assert(final(s)@ =~= old(s)@ + hex_pair(b));
}

impl DeviceAddress {
    /// Builds an address from its six octets, in written order.
    pub fn new(octets: [u8; 6]) -> (r: DeviceAddress)
        ensures
            r.octets@ == octets@,
    {
        DeviceAddress { octets }
    }

    /// The colon-separated upper-case hexadecimal text of the address.
    pub fn to_text(&self) -> (r: String)
        ensures
            r@ == address_text(self.octets@),
    {
        let mut s = String::new();
        let colon = ":";
        proof {
            reveal_strlit(":");
        }
        push_hex_pair(&mut s, self.octets[0]);
        s.append(colon);
        push_hex_pair(&mut s, self.octets[1]);
        s.append(colon);
        push_hex_pair(&mut s, self.octets[2]);
        s.append(colon);
        push_hex_pair(&mut s, self.octets[3]);
        s.append(colon);
        push_hex_pair(&mut s, self.octets[4]);
        s.append(colon);
        push_hex_pair(&mut s, self.octets[5]);
        s
    }

    /// The address as a 48-bit number, used to key lookups.
    pub fn key(&self) -> (r: u64)
        ensures
            r as int == address_key(self.octets@),
    {
        let o = self.octets;
        let mut k: u64 = o[0] as u64;
        k = k * 256 + o[1] as u64;
        k = k * 256 + o[2] as u64;
        k = k * 256 + o[3] as u64;
        k = k * 256 + o[4] as u64;
        k = k * 256 + o[5] as u64;
        k
    }
}

} // verus!
