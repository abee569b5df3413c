use dhcp_client::client::{discover_options, request_options};
use dhcp_client::{
    ClientAction, ClientEvent, ClientSession, ClientState, DHCPOffer, DhcpError, DHCPOPTION,
};

const MAC: &str = "F6-6D-3F-C0-8A-6F";
const HW: [u8; 6] = [0xF6, 0x6D, 0x3F, 0xC0, 0x8A, 0x6F];

fn reply(op_type: u8, yiaddr: [u8; 4], extra: &[u8]) -> Vec<u8> {
    let mut f = vec![0u8; 240];
    f[0] = 2;
    f[1] = 1;
    f[2] = 6;
    f[16..20].copy_from_slice(&yiaddr);
    f[28..34].copy_from_slice(&HW);
    f[236..240].copy_from_slice(&[99, 130, 83, 99]);
    f.extend_from_slice(&[53, 1, op_type]);
    f.extend_from_slice(extra);
    f.push(255);
    f
}

fn sent(a: ClientAction) -> Vec<u8> {
    match a {
        ClientAction::Send(b) => b.to_vec(),
        _ => panic!("expected a datagram to send"),
    }
}

#[test]
fn offer_drives_request_options() {
    let f = reply(2, [10, 0, 0, 42], &[54, 4, 10, 0, 0, 1, 51, 4, 0, 1, 81, 128]);
    let offer = DHCPOffer::from_bytes(&f).unwrap();
    let os = request_options(&offer, &HW.to_vec());
    assert_eq!(os[0].tp, DHCPOPTION::ServerIdentifier);
    assert_eq!(os[0].len, 4);
    assert_eq!(os[0].va, vec![10, 0, 0, 1]);
    assert!(os
        .iter()
        .any(|o| o.tp == DHCPOPTION::RequestedIPAddress && o.va == vec![10, 0, 0, 42]));
    let tags: Vec<DHCPOPTION> = os.iter().map(|o| o.tp).collect();
    assert_eq!(
        tags,
        vec![
            DHCPOPTION::ServerIdentifier,
            DHCPOPTION::DHCPMessageType,
            DHCPOPTION::ClientIdentifier,
            DHCPOPTION::RequestedIPAddress,
            DHCPOPTION::ParameterRequestList,
        ]
    );
    assert_eq!(os[1].va, vec![3]);
    assert_eq!(os[2].va, vec![1, 0xF6, 0x6D, 0x3F, 0xC0, 0x8A, 0x6F]);
}

#[test]
fn offer_without_server_identifier() {
    let f = reply(2, [192, 168, 1, 9], &[]);
    let offer = DHCPOffer::from_bytes(&f).unwrap();
    let os = request_options(&offer, &HW.to_vec());
    assert_eq!(os.len(), 4);
    assert_eq!(os[0].tp, DHCPOPTION::DHCPMessageType);
    assert_eq!(os[2].va, vec![192, 168, 1, 9]);
}

#[test]
fn discover_option_set() {
    let os = discover_options(&HW.to_vec());
    assert_eq!(os.len(), 3);
    assert_eq!(os[0].tp, DHCPOPTION::DHCPMessageType);
    assert_eq!(os[0].va, vec![1]);
    assert_eq!(os[1].tp, DHCPOPTION::ClientIdentifier);
    assert_eq!(os[2].va, vec![1, 3, 6, 42]);
}

#[test]
fn full_exchange_binds() {
    let mut s = ClientSession::new(MAC, 0xCAFE_F00D).unwrap();
    assert_eq!(s.state, ClientState::Init);

    let d = sent(s.step(ClientEvent::Start));
    assert_eq!(s.state, ClientState::Selecting);
    assert_eq!(&d[0..8], &[1, 1, 6, 0, 0xCA, 0xFE, 0xF0, 0x0D]);
    assert_eq!(&d[28..34], &HW);
    assert_eq!(
        &d[240..],
        &[53, 1, 1, 61, 7, 1, 0xF6, 0x6D, 0x3F, 0xC0, 0x8A, 0x6F, 55, 4, 1, 3, 6, 42, 255]
    );

    let offer = reply(2, [10, 0, 0, 42], &[54, 4, 10, 0, 0, 1]);
    let r = sent(s.step(ClientEvent::Received(offer)));
    assert_eq!(s.state, ClientState::Requesting);
    assert_eq!(s.yiaddr, Some([10, 0, 0, 42]));
    assert_eq!(s.server_id, Some(vec![10, 0, 0, 1]));
    assert_eq!(&r[4..8], &[0xCA, 0xFE, 0xF0, 0x0D]);
    assert_eq!(
        &r[240..],
        &[
            54, 4, 10, 0, 0, 1, 53, 1, 3, 61, 7, 1, 0xF6, 0x6D, 0x3F, 0xC0, 0x8A, 0x6F, 50, 4, 10,
            0, 0, 42, 55, 4, 1, 3, 6, 42, 255
        ]
    );

    let ack = reply(5, [10, 0, 0, 42], &[51, 4, 0, 0, 14, 16]);
    match s.step(ClientEvent::Received(ack)) {
        ClientAction::Bound(a) => {
            assert_eq!(a.yiaddr, [10, 0, 0, 42]);
            assert_eq!(a.options.len(), 2);
        }
        _ => panic!("expected the session to bind"),
    }
    assert_eq!(s.state, ClientState::Bound);
    assert!(matches!(s.step(ClientEvent::Start), ClientAction::Ignore));
    assert_eq!(s.state, ClientState::Bound);
}

#[test]
fn bad_offer_fails_session() {
    let mut s = ClientSession::new(MAC, 1).unwrap();
    sent(s.step(ClientEvent::Start));
    let a = s.step(ClientEvent::Received(vec![2, 1, 6, 0]));
    assert!(matches!(a, ClientAction::Fail(DhcpError::Truncated)));
    assert_eq!(s.state, ClientState::Failed);
    assert!(matches!(s.step(ClientEvent::Received(vec![])), ClientAction::Ignore));
}

#[test]
fn transport_failure_fails_session() {
    let mut s = ClientSession::new(MAC, 1).unwrap();
    sent(s.step(ClientEvent::Start));
    sent(s.step(ClientEvent::Received(reply(2, [1, 2, 3, 4], &[]))));
    let a = s.step(ClientEvent::TransportFailed);
    assert!(matches!(a, ClientAction::Fail(DhcpError::TransportError)));
    assert_eq!(s.state, ClientState::Failed);
}

#[test]
fn events_out_of_order_are_ignored() {
    let mut s = ClientSession::new(MAC, 1).unwrap();
    assert!(matches!(s.step(ClientEvent::Received(vec![])), ClientAction::Ignore));
    assert_eq!(s.state, ClientState::Init);
    sent(s.step(ClientEvent::Start));
    assert!(matches!(s.step(ClientEvent::Start), ClientAction::Ignore));
    assert_eq!(s.state, ClientState::Selecting);
}

#[test]
fn session_rejects_bad_mac() {
    assert!(matches!(
        ClientSession::new("F6-6D-3F", 1),
        Err(DhcpError::InvalidHardwareAddress)
    ));
}
