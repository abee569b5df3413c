use crate::codec::{
    decode_option_stream, decode_options, encode_options, options_bytes, options_match, option_wf,
    DhcpError, RawOption, DHCPOPTIONS,
};
use crate::header::{htype_byte, hlen_byte, op_byte, op_of_byte, DHCPHLen, DHCPHType, DHCPOP};
use crate::mac::{mac_octets, mac_text_ok, parse_hardware_address};
use crate::wire::{
    be16, be32, buffer_bytes, buffer_new, buffer_put_slice, buffer_put_u16, buffer_put_u32,
    buffer_put_u8, read_be16, read_be32,
};
use bytes::BytesMut;
use vstd::prelude::*;

verus! {

/// The marker between the BOOTP header and the options.
pub const MAGIC_COOKIE: u32 = 0x6382_5363;

/// Bytes of the fixed header together with the magic cookie.
pub const FRAME_PREFIX_LEN: usize = 240;

pub open spec fn cookie_bytes() -> Seq<u8> {
    seq![99u8, 130u8, 83u8, 99u8]
}

pub open spec fn zeros(n: nat) -> Seq<u8> {
    Seq::new(n, |i: int| 0u8)
}

/// A hardware address left-justified in the 16-byte `chaddr` field.
pub open spec fn pad16(a: Seq<u8>) -> Seq<u8> {
    a + zeros((16 - a.len()) as nat)
}

/// Copies a hardware address into a zero-padded `chaddr` field.
pub(crate) fn chaddr_of(a: &Vec<u8>) -> (r: [u8; 16])
    requires
        a@.len() <= 16,
    ensures
        r@ == pad16(a@),
{
    let mut r = [0u8; 16];
    let mut i: usize = 0;
    while i < a.len()
        invariant
            a@.len() <= 16,
            i <= a@.len(),
            forall|j: int| 0 <= j < i ==> r@[j] == a@[j],
            forall|j: int| i <= j < 16 ==> r@[j] == 0u8,
        decreases a@.len() - i,
    {
        r[i] = a[i];
        i += 1;
    }
    assert(r@ =~= pad16(a@));
    r
}

/// Copies `N` bytes of `buf` from `at` into an array.
fn read_array<const N: usize>(buf: &[u8], at: usize) -> (r: [u8; N])
    requires
        at + N <= buf@.len(),
    ensures
        r@ == buf@.subrange(at as int, at + N),
{
    let mut r = [0u8; N];
    let n = buf.len();
    let mut i: usize = 0;
    while i < N
        invariant
            n == buf@.len(),
            at + N <= buf@.len(),
            i <= N,
            r@.len() == N,
            forall|j: int| 0 <= j < i ==> r@[j] == buf@[at + j],
        decreases N - i,
    {
        r[i] = buf[at + i];
        i += 1;
    }
    assert(r@ =~= buf@.subrange(at as int, at + N));
    r
}

fn read_u16(buf: &[u8], at: usize) -> (r: u16)
    requires
        at + 2 <= buf@.len(),
    ensures
        r == read_be16(buf@, at as int),
{
    buf[at] as u16 * 0x100 + buf[at + 1] as u16
}

fn read_u32(buf: &[u8], at: usize) -> (r: u32)
    requires
        at + 4 <= buf@.len(),
    ensures
        r == read_be32(buf@, at as int),
{
    buf[at] as u32 * 0x100_0000 + buf[at + 1] as u32 * 0x1_0000 + buf[at + 2] as u32 * 0x100
        + buf[at + 3] as u32
}

/// A message that can be written to the wire.
pub trait DHCPBytes {
    /// The bytes of the message on the wire.
    spec fn frame(&self) -> Seq<u8>;

    /// Writes the message: the header fields big-endian, the fixed-size fields
    /// as they are, then the option bytes.
    fn to_bytes(&self) -> (r: BytesMut)
        requires
            self.frame().len() <= isize::MAX,
        ensures
            buffer_bytes(r) == self.frame(),
    ;
}

/// A DHCPDISCOVER, as the client sends it. `options` holds the bytes after the
/// fixed header: the magic cookie, then the encoded options.
#[derive(Debug, Clone)]
pub struct DHCPDiscover {
    pub op: DHCPOP,
    pub htype: DHCPHType,
    pub hlen: DHCPHLen,
    pub hops: u8,
    pub xid: u32,
    pub secs: u16,
    pub flags: u16,
    pub ciaddr: u32,
    pub yiaddr: u32,
    pub siaddr: u32,
    pub giaddr: u32,
    pub chaddr: [u8; 16],
    pub sname: [u8; 64],
    pub file: [u8; 128],
    pub options: Vec<u8>,
}

/// A DHCPREQUEST, as the client sends it; laid out as `DHCPDiscover`.
#[derive(Debug, Clone)]
pub struct DHCPRequest {
    pub op: DHCPOP,
    pub htype: DHCPHType,
    pub hlen: DHCPHLen,
    pub hops: u8,
    pub xid: u32,
    pub secs: u16,
    pub flags: u16,
    pub ciaddr: [u8; 4],
    pub yiaddr: [u8; 4],
    pub siaddr: [u8; 4],
    pub giaddr: [u8; 4],
    pub chaddr: [u8; 16],
    pub sname: [u8; 64],
    pub file: [u8; 128],
    pub options: Vec<u8>,
}

/// A DHCPOFFER read from the wire. `cookie_valid` tells whether the magic
/// cookie was the expected one; a wrong cookie does not stop decoding.
#[derive(Debug, Clone)]
pub struct DHCPOffer {
    pub op: DHCPOP,
    pub htype: DHCPHType,
    pub hlen: DHCPHLen,
    pub hops: u8,
    pub xid: u32,
    pub secs: u16,
    pub flags: u16,
    pub ciaddr: [u8; 4],
    pub yiaddr: [u8; 4],
    pub siaddr: [u8; 4],
    pub giaddr: [u8; 4],
    pub chaddr: [u8; 16],
    pub sname: [u8; 64],
    pub file: [u8; 128],
    pub cookie_valid: bool,
    pub options: Vec<DHCPOPTIONS>,
}

/// A DHCPACK read from the wire; laid out as `DHCPOffer`.
#[derive(Debug, Clone)]
pub struct DHCPAck {
    pub op: DHCPOP,
    pub htype: DHCPHType,
    pub hlen: DHCPHLen,
    pub hops: u8,
    pub xid: u32,
    pub secs: u16,
    pub flags: u16,
    pub ciaddr: [u8; 4],
    pub yiaddr: [u8; 4],
    pub siaddr: [u8; 4],
    pub giaddr: [u8; 4],
    pub chaddr: [u8; 16],
    pub sname: [u8; 64],
    pub file: [u8; 128],
    pub cookie_valid: bool,
    pub options: Vec<DHCPOPTIONS>,
}

#[derive(Debug, Clone, Copy)]
pub struct DHCPDecline {}

#[derive(Debug, Clone, Copy)]
pub struct DHCPNak {}

#[derive(Debug, Clone, Copy)]
pub struct DHCPRelease {}

#[derive(Debug, Clone, Copy)]
pub struct DHCPInform {}

pub open spec fn discover_frame(d: DHCPDiscover) -> Seq<u8> {
    seq![op_byte(d.op), htype_byte(d.htype), hlen_byte(d.hlen), d.hops] + be32(d.xid) + be16(d.secs)
        + be16(d.flags) + be32(d.ciaddr) + be32(d.yiaddr) + be32(d.siaddr) + be32(d.giaddr)
        + d.chaddr@ + d.sname@ + d.file@ + d.options@
}

pub open spec fn request_frame(d: DHCPRequest) -> Seq<u8> {
    seq![op_byte(d.op), htype_byte(d.htype), hlen_byte(d.hlen), d.hops] + be32(d.xid) + be16(d.secs)
        + be16(d.flags) + d.ciaddr@ + d.yiaddr@ + d.siaddr@ + d.giaddr@ + d.chaddr@ + d.sname@
        + d.file@ + d.options@
}

/// A fresh Discover: a request from an Ethernet client with every number and
/// address zero, empty `sname` and `file`, and the magic cookie as its options.
pub open spec fn discover_is_fresh(d: DHCPDiscover) -> bool {
    &&& d.op == DHCPOP::BOOTREQUEST
    &&& d.hops == 0 && d.xid == 0 && d.secs == 0 && d.flags == 0
    &&& d.ciaddr == 0 && d.yiaddr == 0 && d.siaddr == 0 && d.giaddr == 0
    &&& d.sname@ == zeros(64) && d.file@ == zeros(128)
    &&& d.options@ == cookie_bytes()
}

/// A fresh Request, laid out as a fresh Discover.
pub open spec fn request_is_fresh(d: DHCPRequest) -> bool {
    &&& d.op == DHCPOP::BOOTREQUEST
    &&& d.hops == 0 && d.xid == 0 && d.secs == 0 && d.flags == 0
    &&& d.ciaddr@ == zeros(4) && d.yiaddr@ == zeros(4)
    &&& d.siaddr@ == zeros(4) && d.giaddr@ == zeros(4)
    &&& d.sname@ == zeros(64) && d.file@ == zeros(128)
}

/// A received frame decodes when it holds the whole fixed header and cookie,
/// and its option stream is not truncated.
pub open spec fn frame_decodes(s: Seq<u8>) -> bool {
    &&& s.len() >= FRAME_PREFIX_LEN
    &&& decode_options(s.skip(FRAME_PREFIX_LEN as int)) is Some
}

/// The options of a frame that decodes.
pub open spec fn frame_options(s: Seq<u8>) -> Seq<RawOption> {
    decode_options(s.skip(FRAME_PREFIX_LEN as int))->Some_0
}

/// `m` holds the fields of frame `s`, each read at its fixed place.
pub open spec fn offer_decoded(m: DHCPOffer, s: Seq<u8>) -> bool {
    &&& m.op == op_of_byte(s[0])
    &&& m.hops == s[3]
    &&& m.xid == read_be32(s, 4)
    &&& m.secs == read_be16(s, 8)
    &&& m.flags == read_be16(s, 10)
    &&& m.ciaddr@ == s.subrange(12, 16)
    &&& m.yiaddr@ == s.subrange(16, 20)
    &&& m.siaddr@ == s.subrange(20, 24)
    &&& m.giaddr@ == s.subrange(24, 28)
    &&& m.chaddr@ == s.subrange(28, 44)
    &&& m.sname@ == s.subrange(44, 108)
    &&& m.file@ == s.subrange(108, 236)
    &&& m.cookie_valid == (read_be32(s, 236) == MAGIC_COOKIE)
    &&& options_match(m.options@, frame_options(s))
}

/// `m` holds the fields of frame `s`, each read at its fixed place.
pub open spec fn ack_decoded(m: DHCPAck, s: Seq<u8>) -> bool {
    &&& m.op == op_of_byte(s[0])
    &&& m.hops == s[3]
    &&& m.xid == read_be32(s, 4)
    &&& m.secs == read_be16(s, 8)
    &&& m.flags == read_be16(s, 10)
    &&& m.ciaddr@ == s.subrange(12, 16)
    &&& m.yiaddr@ == s.subrange(16, 20)
    &&& m.siaddr@ == s.subrange(20, 24)
    &&& m.giaddr@ == s.subrange(24, 28)
    &&& m.chaddr@ == s.subrange(28, 44)
    &&& m.sname@ == s.subrange(44, 108)
    &&& m.file@ == s.subrange(108, 236)
    &&& m.cookie_valid == (read_be32(s, 236) == MAGIC_COOKIE)
    &&& options_match(m.options@, frame_options(s))
}

impl Default for DHCPDiscover {
    fn default() -> (r: Self)
        ensures
            discover_is_fresh(r),
            r.chaddr@ == zeros(16),
    {
        let r = DHCPDiscover {
            op: DHCPOP::BOOTREQUEST,
            htype: DHCPHType::ETHERNET,
            hlen: DHCPHLen::ETHERNET,
            hops: 0,
            xid: 0,
            secs: 0,
            flags: 0,
            ciaddr: 0,
            yiaddr: 0,
            siaddr: 0,
            giaddr: 0,
            chaddr: [0u8; 16],
            sname: [0u8; 64],
            file: [0u8; 128],
            options: vec![99u8, 130u8, 83u8, 99u8],
        };
        assert(r.chaddr@ =~= zeros(16));
        assert(r.sname@ =~= zeros(64));
        assert(r.file@ =~= zeros(128));
        assert(r.options@ =~= cookie_bytes());
        r
    }
}

/// The fields of two Discovers agree, the options aside.
pub open spec fn discover_header_eq(a: DHCPDiscover, b: DHCPDiscover) -> bool {
    &&& a.op == b.op && a.htype == b.htype && a.hlen == b.hlen && a.hops == b.hops
    &&& a.xid == b.xid && a.secs == b.secs && a.flags == b.flags
    &&& a.ciaddr == b.ciaddr && a.yiaddr == b.yiaddr && a.siaddr == b.siaddr && a.giaddr == b.giaddr
    &&& a.chaddr == b.chaddr && a.sname == b.sname && a.file == b.file
}

impl DHCPDiscover {
    /// A fresh Discover for the hardware address written in `mac`.
    pub fn with_mac(mac: &str) -> (r: Result<Self, DhcpError>)
        ensures
            r is Ok <==> mac_text_ok(mac@),
            r is Ok ==> discover_is_fresh(r->Ok_0) && r->Ok_0.chaddr@ == pad16(mac_octets(mac@)),
            r is Err ==> r->Err_0 == DhcpError::InvalidHardwareAddress,
    {
        let octets = match parse_hardware_address(mac) {
            Ok(o) => o,
            Err(e) => {
                return Err(e);
            },
        };
        let mut discover = DHCPDiscover::default();
        discover.chaddr = chaddr_of(&octets);
        Ok(discover)
    }

    /// Appends the options, in order, and then the End tag.
    pub fn insert_options(&mut self, options: Vec<DHCPOPTIONS>)
        requires
            forall|i: int| 0 <= i < options@.len() ==> option_wf(#[trigger] options@[i]),
        ensures
            discover_header_eq(*final(self), *old(self)),
            final(self).options@ == old(self).options@ + options_bytes(options@) + seq![0xFFu8],
    {
        encode_options(&options, &mut self.options);
        self.options.push(0xFF);
    }
}

impl DHCPBytes for DHCPDiscover {
    open spec fn frame(&self) -> Seq<u8> {
        discover_frame(*self)
    }

    fn to_bytes(&self) -> (r: BytesMut) {
        let mut b = buffer_new();
        buffer_put_u8(&mut b, self.op.code());
        buffer_put_u8(&mut b, self.htype.code());
        buffer_put_u8(&mut b, self.hlen.code());
        buffer_put_u8(&mut b, self.hops);
        buffer_put_u32(&mut b, self.xid);
        buffer_put_u16(&mut b, self.secs);
        buffer_put_u16(&mut b, self.flags);
        buffer_put_u32(&mut b, self.ciaddr);
        buffer_put_u32(&mut b, self.yiaddr);
        buffer_put_u32(&mut b, self.siaddr);
        buffer_put_u32(&mut b, self.giaddr);
        buffer_put_slice(&mut b, self.chaddr.as_slice());
        buffer_put_slice(&mut b, self.sname.as_slice());
        buffer_put_slice(&mut b, self.file.as_slice());
        buffer_put_slice(&mut b, self.options.as_slice());
        assert(buffer_bytes(b) =~= discover_frame(*self));
        b
    }
}

impl Default for DHCPRequest {
    fn default() -> (r: Self)
        ensures
            request_is_fresh(r),
            r.chaddr@ == zeros(16),
            r.options@ == cookie_bytes(),
    {
        let r = DHCPRequest {
            op: DHCPOP::BOOTREQUEST,
            htype: DHCPHType::ETHERNET,
            hlen: DHCPHLen::ETHERNET,
            hops: 0,
            xid: 0,
            secs: 0,
            flags: 0,
            ciaddr: [0u8; 4],
            yiaddr: [0u8; 4],
            siaddr: [0u8; 4],
            giaddr: [0u8; 4],
            chaddr: [0u8; 16],
            sname: [0u8; 64],
            file: [0u8; 128],
            options: vec![99u8, 130u8, 83u8, 99u8],
        };
        assert(r.ciaddr@ =~= zeros(4));
        assert(r.yiaddr@ =~= zeros(4));
        assert(r.siaddr@ =~= zeros(4));
        assert(r.giaddr@ =~= zeros(4));
        assert(r.chaddr@ =~= zeros(16));
        assert(r.sname@ =~= zeros(64));
        assert(r.file@ =~= zeros(128));
        assert(r.options@ =~= cookie_bytes());
        r
    }
}

impl DHCPRequest {
    /// A fresh Request for the hardware address written in `mac`, carrying
    /// the options in order and then the End tag.
    pub fn with_mac_ip_options(mac: &str, options: Vec<DHCPOPTIONS>) -> (r: Result<Self, DhcpError>)
        requires
            forall|i: int| 0 <= i < options@.len() ==> option_wf(#[trigger] options@[i]),
        ensures
            r is Ok <==> mac_text_ok(mac@),
            r is Ok ==> {
                &&& request_is_fresh(r->Ok_0)
                &&& r->Ok_0.chaddr@ == pad16(mac_octets(mac@))
                &&& r->Ok_0.options@ == cookie_bytes() + options_bytes(options@) + seq![0xFFu8]
            },
            r is Err ==> r->Err_0 == DhcpError::InvalidHardwareAddress,
    {
        let octets = match parse_hardware_address(mac) {
            Ok(o) => o,
            Err(e) => {
                return Err(e);
            },
        };
        let mut request = DHCPRequest::default();
        request.chaddr = chaddr_of(&octets);
        encode_options(&options, &mut request.options);
        request.options.push(0xFF);
        Ok(request)
    }
}

impl DHCPBytes for DHCPRequest {
    open spec fn frame(&self) -> Seq<u8> {
        request_frame(*self)
    }

    fn to_bytes(&self) -> (r: BytesMut) {
        let mut b = buffer_new();
        buffer_put_u8(&mut b, self.op.code());
        buffer_put_u8(&mut b, self.htype.code());
        buffer_put_u8(&mut b, self.hlen.code());
        buffer_put_u8(&mut b, self.hops);
        buffer_put_u32(&mut b, self.xid);
        buffer_put_u16(&mut b, self.secs);
        buffer_put_u16(&mut b, self.flags);
        buffer_put_slice(&mut b, self.ciaddr.as_slice());
        buffer_put_slice(&mut b, self.yiaddr.as_slice());
        buffer_put_slice(&mut b, self.siaddr.as_slice());
        buffer_put_slice(&mut b, self.giaddr.as_slice());
        buffer_put_slice(&mut b, self.chaddr.as_slice());
        buffer_put_slice(&mut b, self.sname.as_slice());
        buffer_put_slice(&mut b, self.file.as_slice());
        buffer_put_slice(&mut b, self.options.as_slice());
        assert(buffer_bytes(b) =~= request_frame(*self));
        b
    }
}

impl DHCPOffer {
    /// An empty reply: every number and address zero, a valid cookie, no options.
    pub fn default() -> (r: Self)
        ensures
            r.op == DHCPOP::BOOTREPLY,
            r.hops == 0 && r.xid == 0 && r.secs == 0 && r.flags == 0,
            r.ciaddr@ == zeros(4) && r.yiaddr@ == zeros(4),
            r.siaddr@ == zeros(4) && r.giaddr@ == zeros(4),
            r.chaddr@ == zeros(16) && r.sname@ == zeros(64) && r.file@ == zeros(128),
            r.cookie_valid,
            r.options@.len() == 0,
    {
        let r = DHCPOffer {
            op: DHCPOP::BOOTREPLY,
            htype: DHCPHType::ETHERNET,
            hlen: DHCPHLen::ETHERNET,
            hops: 0,
            xid: 0,
            secs: 0,
            flags: 0,
            ciaddr: [0u8; 4],
            yiaddr: [0u8; 4],
            siaddr: [0u8; 4],
            giaddr: [0u8; 4],
            chaddr: [0u8; 16],
            sname: [0u8; 64],
            file: [0u8; 128],
            cookie_valid: true,
            options: Vec::new(),
        };
        assert(r.ciaddr@ =~= zeros(4));
        assert(r.yiaddr@ =~= zeros(4));
        assert(r.siaddr@ =~= zeros(4));
        assert(r.giaddr@ =~= zeros(4));
        assert(r.chaddr@ =~= zeros(16));
        assert(r.sname@ =~= zeros(64));
        assert(r.file@ =~= zeros(128));
        r
    }

    /// Decodes a received frame, bounded to exactly the bytes in `buf`: the
    /// fixed header, the cookie (a mismatch only clears `cookie_valid`), then
    /// the options up to End or the end of `buf`.
    pub fn from_bytes(buf: &[u8]) -> (r: Result<DHCPOffer, DhcpError>)
        ensures
            r is Ok <==> frame_decodes(buf@),
            r is Ok ==> offer_decoded(r->Ok_0, buf@),
            r is Err ==> r->Err_0 == DhcpError::Truncated,
    {
        if buf.len() < FRAME_PREFIX_LEN {
            return Err(DhcpError::Truncated);
        }
        let options = match decode_option_stream(buf, FRAME_PREFIX_LEN) {
            Ok(o) => o,
            Err(e) => {
                return Err(e);
            },
        };
        let cookie = read_u32(buf, 236);
        Ok(DHCPOffer {
            op: DHCPOP::from_code(buf[0]),
            htype: DHCPHType::ETHERNET,
            hlen: DHCPHLen::ETHERNET,
            hops: buf[3],
            xid: read_u32(buf, 4),
            secs: read_u16(buf, 8),
            flags: read_u16(buf, 10),
            ciaddr: read_array(buf, 12),
            yiaddr: read_array(buf, 16),
            siaddr: read_array(buf, 20),
            giaddr: read_array(buf, 24),
            chaddr: read_array(buf, 28),
            sname: read_array(buf, 44),
            file: read_array(buf, 108),
            cookie_valid: cookie == MAGIC_COOKIE,
            options,
        })
    }
}

impl DHCPAck {
    /// Decodes a received frame exactly as `DHCPOffer::from_bytes` does.
    pub fn from_bytes(buf: &[u8]) -> (r: Result<DHCPAck, DhcpError>)
        ensures
            r is Ok <==> frame_decodes(buf@),
            r is Ok ==> ack_decoded(r->Ok_0, buf@),
            r is Err ==> r->Err_0 == DhcpError::Truncated,
    {
        match DHCPOffer::from_bytes(buf) {
            Ok(m) => Ok(DHCPAck {
                op: m.op,
                htype: m.htype,
                hlen: m.hlen,
                hops: m.hops,
                xid: m.xid,
                secs: m.secs,
                flags: m.flags,
                ciaddr: m.ciaddr,
                yiaddr: m.yiaddr,
                siaddr: m.siaddr,
                giaddr: m.giaddr,
                chaddr: m.chaddr,
                sname: m.sname,
                file: m.file,
                cookie_valid: m.cookie_valid,
                options: m.options,
            }),
            Err(e) => Err(e),
        }
    }
}

} // verus!
