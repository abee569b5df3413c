use crate::codec::{
    lemma_options_round_trip, option_carries_value, options_bytes, raws_of,
    DHCPOPTIONS,
};
use crate::header::{op_of_byte, op_byte};
use crate::mac::{mac_octets, mac_text_ok};
use crate::message::{
    cookie_bytes, discover_frame, frame_decodes, offer_decoded, pad16, zeros, DHCPDiscover,
    DHCPOffer, FRAME_PREFIX_LEN, MAGIC_COOKIE,
};
use crate::wire::{be16, be32, lemma_be16_read, lemma_be32_read, read_be16, read_be32};
use vstd::prelude::*;

verus! {

/// Two option lists agree tag by tag, length by length and value by value.
pub open spec fn same_options(a: Seq<DHCPOPTIONS>, b: Seq<DHCPOPTIONS>) -> bool {
    &&& a.len() == b.len()
    &&& forall|i: int|
        0 <= i < a.len() ==> {
            &&& (#[trigger] a[i]).tp == b[i].tp
            &&& a[i].len == b[i].len
            &&& a[i].va@ == b[i].va@
        }
}

proof fn lemma_read_be32_at(s: Seq<u8>, at: int, n: u32)
    requires
        0 <= at,
        at + 4 <= s.len(),
        s.subrange(at, at + 4) == be32(n),
    ensures
        read_be32(s, at) == n,
{
    lemma_be32_read(n);
    let t = s.subrange(at, at + 4);
    assert(t[0] == s[at] && t[1] == s[at + 1] && t[2] == s[at + 2] && t[3] == s[at + 3]);
}

proof fn lemma_read_be16_at(s: Seq<u8>, at: int, n: u16)
    requires
        0 <= at,
        at + 2 <= s.len(),
        s.subrange(at, at + 2) == be16(n),
    ensures
        read_be16(s, at) == n,
{
    lemma_be16_read(n);
    let t = s.subrange(at, at + 2);
    assert(t[0] == s[at] && t[1] == s[at + 1]);
}

/// A Discover whose options are the cookie, options that carry values, and End
/// decodes again: every header field and every option comes back as it was
/// written, and the cookie reads as valid.
pub proof fn lemma_discover_round_trip(d: DHCPDiscover, os: Seq<DHCPOPTIONS>, m: DHCPOffer)
    requires
        forall|i: int| 0 <= i < os.len() ==> option_carries_value(#[trigger] os[i]),
        d.options@ == cookie_bytes() + options_bytes(os) + seq![0xFFu8],
    ensures
        frame_decodes(discover_frame(d)),
        offer_decoded(m, discover_frame(d)) ==> {
            &&& m.op == d.op && m.hops == d.hops
            &&& m.xid == d.xid && m.secs == d.secs && m.flags == d.flags
            &&& m.ciaddr@ == be32(d.ciaddr) && m.yiaddr@ == be32(d.yiaddr)
            &&& m.siaddr@ == be32(d.siaddr) && m.giaddr@ == be32(d.giaddr)
            &&& m.chaddr@ == d.chaddr@ && m.sname@ == d.sname@ && m.file@ == d.file@
            &&& m.cookie_valid
            &&& same_options(m.options@, os)
        },
{
    let s = discover_frame(d);
    let head = seq![op_byte(d.op), 1u8, 6u8, d.hops];
    assert(s =~= head + be32(d.xid) + be16(d.secs) + be16(d.flags) + be32(d.ciaddr) + be32(d.yiaddr)
        + be32(d.siaddr) + be32(d.giaddr) + d.chaddr@ + d.sname@ + d.file@ + cookie_bytes()
        + (options_bytes(os) + seq![0xFFu8] + Seq::<u8>::empty()));
    assert(s.skip(FRAME_PREFIX_LEN as int) =~= options_bytes(os) + seq![0xFFu8] + Seq::<u8>::empty());
    lemma_options_round_trip(os, Seq::<u8>::empty());
    assert(s.subrange(4, 8) =~= be32(d.xid));
    assert(s.subrange(8, 10) =~= be16(d.secs));
    assert(s.subrange(10, 12) =~= be16(d.flags));
    assert(s.subrange(12, 16) =~= be32(d.ciaddr));
    assert(s.subrange(16, 20) =~= be32(d.yiaddr));
    assert(s.subrange(20, 24) =~= be32(d.siaddr));
    assert(s.subrange(24, 28) =~= be32(d.giaddr));
    assert(s.subrange(28, 44) =~= d.chaddr@);
    assert(s.subrange(44, 108) =~= d.sname@);
    assert(s.subrange(108, 236) =~= d.file@);
    assert(s.subrange(236, 240) =~= cookie_bytes());
    lemma_read_be32_at(s, 4, d.xid);
    lemma_read_be16_at(s, 8, d.secs);
    lemma_read_be16_at(s, 10, d.flags);
    assert(cookie_bytes() == be32(MAGIC_COOKIE));
    lemma_read_be32_at(s, 236, MAGIC_COOKIE);
    assert(op_of_byte(op_byte(d.op)) == d.op);
    if offer_decoded(m, s) {
        assert forall|i: int| 0 <= i < m.options@.len() implies {
            &&& (#[trigger] m.options@[i]).tp == os[i].tp
            &&& m.options@[i].len == os[i].len
            &&& m.options@[i].va@ == os[i].va@
        } by {
            assert(m.options@[i].va@ == raws_of(os)[i].value);
        }
    }
}

/// A six-octet hardware address stands in the encoded frame as its six bytes
/// followed by ten zero bytes.
pub proof fn lemma_chaddr_in_frame(mac: Seq<char>, d: DHCPDiscover)
    requires
        mac_text_ok(mac),
        d.chaddr@ == pad16(mac_octets(mac)),
    ensures
        discover_frame(d).subrange(28, 44) == mac_octets(mac) + zeros(10),
{
    let s = discover_frame(d);
    let head = seq![op_byte(d.op), 1u8, 6u8, d.hops];
    assert(s =~= head + be32(d.xid) + be16(d.secs) + be16(d.flags) + be32(d.ciaddr) + be32(d.yiaddr)
        + be32(d.siaddr) + be32(d.giaddr) + d.chaddr@ + (d.sname@ + d.file@ + d.options@));
    assert(s.subrange(28, 44) =~= d.chaddr@);
    assert(pad16(mac_octets(mac)) =~= mac_octets(mac) + zeros(10));
}

/// Whatever the four cookie bytes hold, a frame decodes or not as before, and
/// every header field and option reads the same: a wrong cookie only clears
/// `cookie_valid`.
pub proof fn lemma_cookie_not_fatal(s: Seq<u8>, cookie: Seq<u8>, m: DHCPOffer, n: DHCPOffer)
    requires
        s.len() >= FRAME_PREFIX_LEN,
        cookie.len() == 4,
    ensures
        ({
            let t = s.subrange(0, 236) + cookie + s.skip(FRAME_PREFIX_LEN as int);
            &&& frame_decodes(t) == frame_decodes(s)
            &&& (offer_decoded(m, s) && offer_decoded(n, t)) ==> {
                &&& n.op == m.op && n.hops == m.hops
                &&& n.xid == m.xid && n.secs == m.secs && n.flags == m.flags
                &&& n.ciaddr == m.ciaddr && n.yiaddr == m.yiaddr
                &&& n.siaddr == m.siaddr && n.giaddr == m.giaddr
                &&& n.chaddr == m.chaddr && n.sname == m.sname && n.file == m.file
                &&& same_options(n.options@, m.options@)
            }
        }),
{
    let t = s.subrange(0, 236) + cookie + s.skip(FRAME_PREFIX_LEN as int);
    assert(t.skip(FRAME_PREFIX_LEN as int) =~= s.skip(FRAME_PREFIX_LEN as int));
    assert(t.subrange(0, 236) =~= s.subrange(0, 236));
    assert(forall|i: int| 0 <= i < 236 ==> t[i] == s[i]);
    if offer_decoded(m, s) && offer_decoded(n, t) {
        assert(n.ciaddr@ =~= m.ciaddr@);
        assert(n.yiaddr@ =~= m.yiaddr@);
        assert(n.siaddr@ =~= m.siaddr@);
        assert(n.giaddr@ =~= m.giaddr@);
        assert(n.chaddr@ =~= m.chaddr@);
        assert(n.sname@ =~= m.sname@);
        assert(n.file@ =~= m.file@);
    }
}

} // verus!
