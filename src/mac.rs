use crate::codec::DhcpError;
use vstd::prelude::*;

verus! {

pub open spec fn is_hex_digit(c: char) -> bool {
    ('0' <= c && c <= '9') || ('a' <= c && c <= 'f') || ('A' <= c && c <= 'F')
}

/// The value of a hex digit, either case.
pub open spec fn hex_value(c: char) -> int {
    if '0' <= c && c <= '9' {
        c as int - '0' as int
    } else if 'a' <= c && c <= 'f' {
        c as int - 'a' as int + 10
    } else {
        c as int - 'A' as int + 10
    }
}

/// Octet `k` of a hardware address written as text: two hex digits at `3 * k`,
/// followed by the separator unless it is the last.
pub open spec fn octet_text_ok(s: Seq<char>, k: int, sep: char) -> bool {
    &&& is_hex_digit(s[3 * k])
    &&& is_hex_digit(s[3 * k + 1])
    &&& (k < 5 ==> s[3 * k + 2] == sep)
}

/// Six octets of two hex digits each, joined all by `:` or all by `-`.
pub open spec fn mac_text_ok(s: Seq<char>) -> bool {
    &&& s.len() == 17
    &&& (s[2] == ':' || s[2] == '-')
    &&& forall|k: int| 0 <= k < 6 ==> #[trigger] octet_text_ok(s, k, s[2])
}

pub open spec fn octet_of(s: Seq<char>, k: int) -> u8 {
    (hex_value(s[3 * k]) * 16 + hex_value(s[3 * k + 1])) as u8
}

/// The six octets that a well-formed text stands for.
pub open spec fn mac_octets(s: Seq<char>) -> Seq<u8> {
    Seq::new(6, |k: int| octet_of(s, k))
}

/// The value of a hex digit, or `None` for any other character.
pub fn hex_digit(c: char) -> (r: Option<u8>)
    ensures
        r is Some <==> is_hex_digit(c),
        r is Some ==> r->Some_0 as int == hex_value(c),
{
    if '0' <= c && c <= '9' {
        Some((c as u32 - '0' as u32) as u8)
    } else if 'a' <= c && c <= 'f' {
        Some((c as u32 - 'a' as u32 + 10) as u8)
    } else if 'A' <= c && c <= 'F' {
        Some((c as u32 - 'A' as u32 + 10) as u8)
    } else {
        None
    }
}

/// Reads a hardware address written as six hex octets joined by `:` or `-`
/// (`F6-6D-3F-C0-8A-6F`); anything else is `InvalidHardwareAddress`.
pub fn parse_hardware_address(mac: &str) -> (r: Result<Vec<u8>, DhcpError>)
    ensures
        r is Ok <==> mac_text_ok(mac@),
        r is Ok ==> r->Ok_0@ == mac_octets(mac@),
        r is Err ==> r->Err_0 == DhcpError::InvalidHardwareAddress,
{
    let n = mac.unicode_len();
    if n != 17 {
        return Err(DhcpError::InvalidHardwareAddress);
    }
    let sep = mac.get_char(2);
    if sep != ':' && sep != '-' {
        return Err(DhcpError::InvalidHardwareAddress);
    }
    let mut octets: Vec<u8> = Vec::new();
    let mut k: usize = 0;
    let mut i: usize = 0;
    while k < 6
        invariant
            mac@.len() == 17,
            sep == mac@[2],
            sep == ':' || sep == '-',
            k <= 6,
            i == 3 * k,
            forall|j: int| 0 <= j < k ==> #[trigger] octet_text_ok(mac@, j, sep),
            octets@ == mac_octets(mac@).take(k as int),
        decreases 6 - k,
    {
        let hi = hex_digit(mac.get_char(i));
        let lo = hex_digit(mac.get_char(i + 1));
        let (h, l) = match (hi, lo) {
            (Some(h), Some(l)) => (h, l),
            _ => {
                assert(!octet_text_ok(mac@, k as int, sep));
                return Err(DhcpError::InvalidHardwareAddress);
            },
        };
        if k < 5 && mac.get_char(i + 2) != sep {
            assert(!octet_text_ok(mac@, k as int, sep));
            return Err(DhcpError::InvalidHardwareAddress);
        }
        octets.push(h * 16 + l);
        proof {
            assert(octet_text_ok(mac@, k as int, sep));
            assert(octets@ =~= mac_octets(mac@).take(k + 1));
        }
        k += 1;
        i += 3;
    }
    assert(octets@ =~= mac_octets(mac@));
    Ok(octets)
}

} // verus!
