use crate::codec::{
    copy_range, encode_options, find_option, first_with_tag, lemma_frame_options_wf, lemma_first_with_tag_same,
    lemma_options_bytes_push, option_carries_value, option_wf, options_bytes, DhcpError, DHCPOPTIONS,
};
use crate::message::{
    ack_decoded, chaddr_of, cookie_bytes, discover_frame, frame_decodes, frame_options, offer_decoded,
    pad16, request_frame, zeros, DHCPAck, DHCPBytes, DHCPDiscover, DHCPOffer, DHCPRequest,
};
use crate::mac::{mac_octets, mac_text_ok, parse_hardware_address};
use crate::tag::{tag_byte, DHCPOPTION};
use crate::wire::{be32, buffer_bytes};
use bytes::BytesMut;
use vstd::prelude::*;

verus! {

/// Where a lease-acquisition attempt stands.
#[derive(Debug, Clone, Copy, PartialEq, Eq, Structural)]
pub enum ClientState {
    Init,
    Selecting,
    Requesting,
    Bound,
    Failed,
}

/// What the transport hands the session.
pub enum ClientEvent {
    /// Begin the exchange.
    Start,
    /// A datagram arrived; the vector holds exactly the bytes received.
    Received(Vec<u8>),
    /// Sending or receiving failed.
    TransportFailed,
}

/// What the session asks of the transport.
pub enum ClientAction {
    /// Broadcast these bytes to the server port, then wait for a datagram.
    Send(BytesMut),
    /// The server acknowledged the lease; nothing more is sent.
    Bound(DHCPAck),
    /// The attempt is over.
    Fail(DhcpError),
    /// The event does not apply in this state.
    Ignore,
}

/// The state of one Discover / Offer / Request / Ack exchange.
pub struct ClientSession {
    pub xid: u32,
    /// The six octets of the client's hardware address.
    pub hardware: Vec<u8>,
    /// The address offered by the server, once an Offer was read.
    pub yiaddr: Option<[u8; 4]>,
    /// The value of the Offer's first server-identifier option, if it had one.
    pub server_id: Option<Vec<u8>>,
    pub state: ClientState,
}

/// The client identifier: hardware type Ethernet, then the address.
pub open spec fn client_id(hw: Seq<u8>) -> Seq<u8> {
    seq![1u8] + hw
}

/// The parameters asked for: subnet mask, router, name servers, time servers.
pub open spec fn parameter_request_list() -> Seq<u8> {
    seq![1u8, 3u8, 6u8, 42u8]
}

/// Options of a Discover: message type DISCOVER, client identifier, parameter request list.
pub open spec fn discover_option_bytes(hw: Seq<u8>) -> Seq<u8> {
    seq![53u8, 1u8, 1u8] + seq![61u8, 7u8] + client_id(hw) + seq![55u8, 4u8] + parameter_request_list()
}

pub open spec fn server_option_bytes(server: Option<DHCPOPTIONS>) -> Seq<u8> {
    match server {
        Some(o) => seq![54u8, o.len] + o.va@,
        None => Seq::empty(),
    }
}

/// Options of a Request: the server identifier first where the Offer had one,
/// then message type REQUEST, client identifier, the requested address, and
/// the parameter request list.
pub open spec fn request_option_bytes(server: Option<DHCPOPTIONS>, hw: Seq<u8>, yiaddr: Seq<u8>) -> Seq<u8> {
    server_option_bytes(server) + seq![53u8, 1u8, 3u8] + seq![61u8, 7u8] + client_id(hw) + seq![50u8, 4u8]
        + yiaddr + seq![55u8, 4u8] + parameter_request_list()
}

/// The fixed header of a message the client sends, up to `chaddr`.
pub open spec fn client_header(xid: u32) -> Seq<u8> {
    seq![1u8, 1u8, 6u8, 0u8] + be32(xid) + zeros(20)
}

pub open spec fn discover_frame_for(xid: u32, hw: Seq<u8>) -> Seq<u8> {
    client_header(xid) + pad16(hw) + zeros(192) + cookie_bytes() + discover_option_bytes(hw) + seq![0xFFu8]
}

pub open spec fn request_frame_for(xid: u32, hw: Seq<u8>, server: Option<DHCPOPTIONS>, yiaddr: Seq<u8>) -> Seq<u8> {
    client_header(xid) + pad16(hw) + zeros(192) + cookie_bytes() + request_option_bytes(server, hw, yiaddr)
        + seq![0xFFu8]
}

pub open spec fn value_of(o: Option<DHCPOPTIONS>) -> Option<Seq<u8>> {
    match o {
        Some(x) => Some(x.va@),
        None => None,
    }
}

pub open spec fn bytes_view(o: Option<Vec<u8>>) -> Option<Seq<u8>> {
    match o {
        Some(v) => Some(v@),
        None => None,
    }
}

fn option_with(tp: DHCPOPTION, va: Vec<u8>) -> (r: DHCPOPTIONS)
    requires
        va@.len() <= 255,
    ensures
        r.tp == tp,
        r.len as nat == va@.len(),
        r.va@ == va@,
{
    let len = va.len() as u8;
    DHCPOPTIONS { tp, len, va }
}

fn client_id_bytes(hw: &Vec<u8>) -> (r: Vec<u8>)
    requires
        hw@.len() == 6,
    ensures
        r@ == client_id(hw@),
{
    let mut r: Vec<u8> = vec![1u8];
    let mut i: usize = 0;
    while i < hw.len()
        invariant
            i <= hw@.len() == 6,
            r@ == seq![1u8] + hw@.take(i as int),
        decreases hw@.len() - i,
    {
        r.push(hw[i]);
        i += 1;
        assert(r@ =~= seq![1u8] + hw@.take(i as int));
    }
    assert(hw@.take(6) =~= hw@);
    r
}

/// Appends one option to a list, keeping track of the list's bytes.
fn push_option(os: &mut Vec<DHCPOPTIONS>, o: DHCPOPTIONS)
    requires
        option_carries_value(o),
        forall|i: int| 0 <= i < old(os)@.len() ==> option_carries_value(#[trigger] old(os)@[i]),
    ensures
        final(os)@ == old(os)@.push(o),
        forall|i: int| 0 <= i < final(os)@.len() ==> option_carries_value(#[trigger] final(os)@[i]),
        options_bytes(final(os)@) == options_bytes(old(os)@) + seq![tag_byte(o.tp), o.len] + o.va@,
{
    proof {
        lemma_options_bytes_push(old(os)@, o);
    }
    os.push(o);
}

/// The options of a Discover for hardware address `hw`.
pub fn discover_options(hw: &Vec<u8>) -> (r: Vec<DHCPOPTIONS>)
    requires
        hw@.len() == 6,
    ensures
        forall|i: int| 0 <= i < r@.len() ==> option_carries_value(#[trigger] r@[i]),
        options_bytes(r@) == discover_option_bytes(hw@),
{
    let mut os: Vec<DHCPOPTIONS> = Vec::new();
    assert(options_bytes(os@) =~= Seq::<u8>::empty());
    push_option(&mut os, option_with(DHCPOPTION::DHCPMessageType, vec![1u8]));
    push_option(&mut os, option_with(DHCPOPTION::ClientIdentifier, client_id_bytes(hw)));
    push_option(&mut os, option_with(DHCPOPTION::ParameterRequestList, vec![1u8, 3u8, 6u8, 42u8]));
    assert(options_bytes(os@) =~= discover_option_bytes(hw@));
    os
}

/// The options of the Request that answers `offer`: the Offer's first
/// server-identifier option, where it has one, then message type REQUEST,
/// client identifier, the offered address as requested address, and the
/// parameter request list.
pub fn request_options(offer: &DHCPOffer, hw: &Vec<u8>) -> (r: Vec<DHCPOPTIONS>)
    requires
        hw@.len() == 6,
        forall|i: int| 0 <= i < offer.options@.len() ==> option_wf(#[trigger] offer.options@[i]),
    ensures
        forall|i: int| 0 <= i < r@.len() ==> option_carries_value(#[trigger] r@[i]),
        options_bytes(r@) == request_option_bytes(
            first_with_tag(offer.options@, DHCPOPTION::ServerIdentifier),
            hw@,
            offer.yiaddr@,
        ),
{
    let mut os: Vec<DHCPOPTIONS> = Vec::new();
    assert(options_bytes(os@) =~= Seq::<u8>::empty());
    match find_option(&offer.options, DHCPOPTION::ServerIdentifier) {
        Some(i) => {
            let found = &offer.options[i];
            assert(option_wf(offer.options@[i as int]));
            let va = copy_range(found.va.as_slice(), 0, found.va.len());
            assert(va@ =~= found.va@);
            push_option(&mut os, DHCPOPTIONS { tp: DHCPOPTION::ServerIdentifier, len: found.len, va });
        },
        None => {},
    }
    let ghost server_part = options_bytes(os@);
    assert(server_part =~= server_option_bytes(first_with_tag(offer.options@, DHCPOPTION::ServerIdentifier)));
    push_option(&mut os, option_with(DHCPOPTION::DHCPMessageType, vec![3u8]));
    push_option(&mut os, option_with(DHCPOPTION::ClientIdentifier, client_id_bytes(hw)));
    let y = copy_range(offer.yiaddr.as_slice(), 0, 4);
    push_option(&mut os, option_with(DHCPOPTION::RequestedIPAddress, y));
    push_option(&mut os, option_with(DHCPOPTION::ParameterRequestList, vec![1u8, 3u8, 6u8, 42u8]));
    assert(options_bytes(os@) =~= request_option_bytes(
        first_with_tag(offer.options@, DHCPOPTION::ServerIdentifier),
        hw@,
        offer.yiaddr@,
    ));
    os
}

impl ClientSession {
    pub open spec fn wf(&self) -> bool {
        self.hardware@.len() == 6
    }

    /// A session in `Init` for the hardware address written in `mac`, using
    /// transaction id `xid` for every message it sends.
    pub fn new(mac: &str, xid: u32) -> (r: Result<ClientSession, DhcpError>)
        ensures
            r is Ok <==> mac_text_ok(mac@),
            r is Ok ==> {
                let c = r->Ok_0;
                &&& c.wf()
                &&& c.xid == xid
                &&& c.hardware@ == mac_octets(mac@)
                &&& c.yiaddr is None && c.server_id is None
                &&& c.state == ClientState::Init
            },
            r is Err ==> r->Err_0 == DhcpError::InvalidHardwareAddress,
    {
        match parse_hardware_address(mac) {
            Ok(hardware) => Ok(ClientSession {
                xid,
                hardware,
                yiaddr: None,
                server_id: None,
                state: ClientState::Init,
            }),
            Err(e) => Err(e),
        }
    }

    fn discover_bytes(&self) -> (r: BytesMut)
        requires
            self.wf(),
        ensures
            buffer_bytes(r) == discover_frame_for(self.xid, self.hardware@),
    {
        let mut d = DHCPDiscover::default();
        d.xid = self.xid;
        d.chaddr = chaddr_of(&self.hardware);
        d.insert_options(discover_options(&self.hardware));
        assert(discover_frame(d) =~= discover_frame_for(self.xid, self.hardware@));
        d.to_bytes()
    }

    fn request_bytes(&self, offer: &DHCPOffer) -> (r: BytesMut)
        requires
            self.wf(),
            forall|i: int| 0 <= i < offer.options@.len() ==> option_wf(#[trigger] offer.options@[i]),
        ensures
            buffer_bytes(r) == request_frame_for(
                self.xid,
                self.hardware@,
                first_with_tag(offer.options@, DHCPOPTION::ServerIdentifier),
                offer.yiaddr@,
            ),
    {
        let mut q = DHCPRequest::default();
        q.xid = self.xid;
        q.chaddr = chaddr_of(&self.hardware);
        encode_options(&request_options(offer, &self.hardware), &mut q.options);
        q.options.push(0xFF);
        assert(request_frame(q) =~= request_frame_for(
            self.xid,
            self.hardware@,
            first_with_tag(offer.options@, DHCPOPTION::ServerIdentifier),
            offer.yiaddr@,
        ));
        q.to_bytes()
    }

    /// Advances the exchange by one event. `Start` in `Init` sends a Discover;
    /// a datagram in `Selecting` is read as an Offer and answered with a
    /// Request; a datagram in `Requesting` is read as an Ack and binds. A
    /// datagram that does not decode, or a transport failure, fails the
    /// attempt. Any other event leaves the session as it is. No transaction
    /// id is compared: the first datagram is taken as the reply.
    pub fn step(&mut self, event: ClientEvent) -> (r: ClientAction)
        requires
            old(self).wf(),
        ensures
            final(self).wf(),
            final(self).xid == old(self).xid,
            final(self).hardware@ == old(self).hardware@,
            match (old(self).state, event) {
                (ClientState::Init, ClientEvent::Start) => {
                    &&& final(self).state == ClientState::Selecting
                    &&& final(self).yiaddr == old(self).yiaddr
                    &&& bytes_view(final(self).server_id) == bytes_view(old(self).server_id)
                    &&& r is Send
                    &&& buffer_bytes(r->Send_0) == discover_frame_for(old(self).xid, old(self).hardware@)
                },
                (ClientState::Selecting, ClientEvent::Received(b)) => if frame_decodes(b@) {
                    &&& final(self).state == ClientState::Requesting
                    &&& final(self).yiaddr is Some
                    &&& final(self).yiaddr->Some_0@ == b@.subrange(16, 20)
                    &&& r is Send
                    &&& forall|m: DHCPOffer| #[trigger] offer_decoded(m, b@) ==> {
                        let server = first_with_tag(m.options@, DHCPOPTION::ServerIdentifier);
                        &&& bytes_view(final(self).server_id) == value_of(server)
                        &&& buffer_bytes(r->Send_0) == request_frame_for(
                            old(self).xid,
                            old(self).hardware@,
                            server,
                            b@.subrange(16, 20),
                        )
                    }
                } else {
                    &&& final(self).state == ClientState::Failed
                    &&& r == ClientAction::Fail(DhcpError::Truncated)
                },
                (ClientState::Requesting, ClientEvent::Received(b)) => if frame_decodes(b@) {
                    &&& final(self).state == ClientState::Bound
                    &&& final(self).yiaddr == old(self).yiaddr
                    &&& bytes_view(final(self).server_id) == bytes_view(old(self).server_id)
                    &&& r is Bound
                    &&& ack_decoded(r->Bound_0, b@)
                } else {
                    &&& final(self).state == ClientState::Failed
                    &&& r == ClientAction::Fail(DhcpError::Truncated)
                },
                (ClientState::Init, ClientEvent::TransportFailed)
                | (ClientState::Selecting, ClientEvent::TransportFailed)
                | (ClientState::Requesting, ClientEvent::TransportFailed) => {
                    &&& final(self).state == ClientState::Failed
                    &&& final(self).yiaddr == old(self).yiaddr
                    &&& bytes_view(final(self).server_id) == bytes_view(old(self).server_id)
                    &&& r == ClientAction::Fail(DhcpError::TransportError)
                },
                _ => {
                    &&& final(self).state == old(self).state
                    &&& final(self).yiaddr == old(self).yiaddr
                    &&& bytes_view(final(self).server_id) == bytes_view(old(self).server_id)
                    &&& r is Ignore
                },
            },
    {
        match (self.state, event) {
            (ClientState::Init, ClientEvent::Start) => {
                let bytes = self.discover_bytes();
                self.state = ClientState::Selecting;
                ClientAction::Send(bytes)
            },
            (ClientState::Selecting, ClientEvent::Received(b)) => {
                match DHCPOffer::from_bytes(b.as_slice()) {
                    Ok(offer) => {
                        proof {
                            lemma_frame_options_wf(offer.options@, frame_options(b@));
                        }
                        let bytes = self.request_bytes(&offer);
                        let server_id = match find_option(&offer.options, DHCPOPTION::ServerIdentifier) {
                            Some(i) => Some(copy_range(offer.options[i].va.as_slice(), 0, offer.options[i].va.len())),
                            None => None,
                        };
                        proof {
                            assert forall|m: DHCPOffer| #[trigger] offer_decoded(m, b@) implies {
                                let server = first_with_tag(m.options@, DHCPOPTION::ServerIdentifier);
                                &&& bytes_view(server_id) == value_of(server)
                                &&& buffer_bytes(bytes) == request_frame_for(
                                    self.xid,
                                    self.hardware@,
                                    server,
                                    b@.subrange(16, 20),
                                )
                            } by {
                                lemma_first_with_tag_same(
                                    offer.options@,
                                    m.options@,
                                    frame_options(b@),
                                    DHCPOPTION::ServerIdentifier,
                                );
                                let s1 = first_with_tag(offer.options@, DHCPOPTION::ServerIdentifier);
                                let s2 = first_with_tag(m.options@, DHCPOPTION::ServerIdentifier);
                                assert(server_option_bytes(s1) == server_option_bytes(s2));
                                assert(request_frame_for(self.xid, self.hardware@, s1, offer.yiaddr@)
                                    == request_frame_for(self.xid, self.hardware@, s2, b@.subrange(16, 20)));
                            }
                        }
                        self.yiaddr = Some(offer.yiaddr);
                        self.server_id = server_id;
                        self.state = ClientState::Requesting;
                        ClientAction::Send(bytes)
                    },
                    Err(e) => {
                        self.state = ClientState::Failed;
                        ClientAction::Fail(e)
                    },
                }
            },
            (ClientState::Requesting, ClientEvent::Received(b)) => {
                match DHCPAck::from_bytes(b.as_slice()) {
                    Ok(ack) => {
                        self.state = ClientState::Bound;
                        ClientAction::Bound(ack)
                    },
                    Err(e) => {
                        self.state = ClientState::Failed;
                        ClientAction::Fail(e)
                    },
                }
            },
            (ClientState::Init, ClientEvent::TransportFailed)
            | (ClientState::Selecting, ClientEvent::TransportFailed)
            | (ClientState::Requesting, ClientEvent::TransportFailed) => {
                self.state = ClientState::Failed;
                ClientAction::Fail(DhcpError::TransportError)
            },
            _ => ClientAction::Ignore,
        }
    }
}

} // verus!
