use dhcp_client::codec::{decode_option, decode_option_stream, encode_option, find_option};
use dhcp_client::mac::{hex_digit, parse_hardware_address};
use dhcp_client::{
    DHCPAck, DHCPBytes, DHCPDiscover, DHCPHLen, DHCPHType, DHCPMessageType, DHCPOffer, DHCPRequest,
    DhcpError, OptionStep, DHCPOP, DHCPOPTION, DHCPOPTIONS,
};

fn opt(tp: DHCPOPTION, va: Vec<u8>) -> DHCPOPTIONS {
    DHCPOPTIONS { tp, len: va.len() as u8, va }
}

/// A reply frame: header with the given yiaddr, the magic cookie, then `options` as given.
fn reply_frame(yiaddr: [u8; 4], options: &[u8]) -> Vec<u8> {
    let mut f = vec![0u8; 240];
    f[0] = 2;
    f[1] = 1;
    f[2] = 6;
    f[4..8].copy_from_slice(&[0xDE, 0xAD, 0xBE, 0xEF]);
    f[16..20].copy_from_slice(&yiaddr);
    f[236..240].copy_from_slice(&[99, 130, 83, 99]);
    f.extend_from_slice(options);
    f
}

#[test]
fn discover_for_example_mac() {
    let d = DHCPDiscover::with_mac("F6-6D-3F-C0-8A-6F").unwrap();
    assert_eq!(
        d.chaddr,
        [0xF6, 0x6D, 0x3F, 0xC0, 0x8A, 0x6F, 0, 0, 0, 0, 0, 0, 0, 0, 0, 0]
    );
    let bytes = d.to_bytes();
    assert_eq!(bytes[0], 1);
    assert_eq!(bytes[1], 1);
    assert_eq!(bytes[2], 6);
    assert_eq!(
        &bytes[28..44],
        &[0xF6, 0x6D, 0x3F, 0xC0, 0x8A, 0x6F, 0, 0, 0, 0, 0, 0, 0, 0, 0, 0]
    );
    assert_eq!(bytes.len(), 240);
    assert_eq!(&bytes[236..240], &[99, 130, 83, 99]);
}

#[test]
fn discover_colon_and_lower_case() {
    let d = DHCPDiscover::with_mac("f6:6d:3f:c0:8a:6f").unwrap();
    assert_eq!(&d.chaddr[..6], &[0xF6, 0x6D, 0x3F, 0xC0, 0x8A, 0x6F]);
    assert_eq!(&d.chaddr[6..], &[0u8; 10]);
}

#[test]
fn bad_hardware_addresses() {
    for mac in [
        "F6-6D-3F-C0-8A",
        "F6-6D-3F-C0-8A-6F-01",
        "G6-6D-3F-C0-8A-6F",
        "F6-6D:3F-C0-8A-6F",
        "F6:6D:3F:C0:8A-6F",
        "F6.6D.3F.C0.8A.6F",
        "",
    ] {
        assert_eq!(
            DHCPDiscover::with_mac(mac).unwrap_err(),
            DhcpError::InvalidHardwareAddress,
            "{}",
            mac
        );
        assert!(DHCPRequest::with_mac_ip_options(mac, vec![]).is_err());
    }
}

#[test]
fn parse_hardware_address_values() {
    assert_eq!(
        parse_hardware_address("00-1a-FF-10-09-a0").unwrap(),
        vec![0x00, 0x1A, 0xFF, 0x10, 0x09, 0xA0]
    );
    assert_eq!(hex_digit('7'), Some(7));
    assert_eq!(hex_digit('b'), Some(11));
    assert_eq!(hex_digit('F'), Some(15));
    assert_eq!(hex_digit('g'), None);
}

#[test]
fn insert_options_encodes_in_order_then_end() {
    let mut d = DHCPDiscover::with_mac("F6-6D-3F-C0-8A-6F").unwrap();
    d.insert_options(vec![
        opt(DHCPOPTION::DHCPMessageType, vec![DHCPMessageType::DHCPDISCOVER.code()]),
        opt(DHCPOPTION::ParameterRequestList, vec![1, 3, 6, 42]),
    ]);
    assert_eq!(d.options, vec![99, 130, 83, 99, 53, 1, 1, 55, 4, 1, 3, 6, 42, 255]);
}

#[test]
fn pad_and_end_encode_as_tag_only() {
    let mut out = vec![];
    encode_option(&opt(DHCPOPTION::PadOption, vec![]), &mut out);
    encode_option(&opt(DHCPOPTION::EndOption, vec![]), &mut out);
    encode_option(&opt(DHCPOPTION::Unknown(200), vec![7]), &mut out);
    assert_eq!(out, vec![0, 255, 200, 1, 7]);
}

#[test]
fn header_fields_big_endian() {
    let mut d = DHCPDiscover::default();
    d.xid = 0x0102_0304;
    d.secs = 0x0506;
    d.flags = 0x8000;
    d.ciaddr = 0x0A00_0001;
    let b = d.to_bytes();
    assert_eq!(&b[4..8], &[1, 2, 3, 4]);
    assert_eq!(&b[8..10], &[5, 6]);
    assert_eq!(&b[10..12], &[0x80, 0]);
    assert_eq!(&b[12..16], &[10, 0, 0, 1]);
}

#[test]
fn discover_round_trip() {
    let mut d = DHCPDiscover::with_mac("F6-6D-3F-C0-8A-6F").unwrap();
    d.xid = 0x1234_5678;
    d.secs = 9;
    d.giaddr = 0xC0A8_0001;
    let os = vec![
        opt(DHCPOPTION::DHCPMessageType, vec![1]),
        opt(DHCPOPTION::ClientIdentifier, vec![1, 0xF6, 0x6D, 0x3F, 0xC0, 0x8A, 0x6F]),
        opt(DHCPOPTION::HostNameOption, vec![]),
        opt(DHCPOPTION::Unknown(0xE0), vec![1, 2]),
        opt(DHCPOPTION::DHCPMessageType, vec![3]),
    ];
    d.insert_options(os.clone());
    let bytes = d.to_bytes();
    let m = DHCPOffer::from_bytes(&bytes).unwrap();
    assert_eq!(m.op, DHCPOP::BOOTREQUEST);
    assert_eq!(m.htype, DHCPHType::ETHERNET);
    assert_eq!(m.hlen, DHCPHLen::ETHERNET);
    assert_eq!(m.xid, 0x1234_5678);
    assert_eq!(m.secs, 9);
    assert_eq!(m.flags, 0);
    assert_eq!(m.ciaddr, [0, 0, 0, 0]);
    assert_eq!(m.giaddr, [192, 168, 0, 1]);
    assert_eq!(m.chaddr, d.chaddr);
    assert!(m.cookie_valid);
    assert_eq!(m.options.len(), os.len());
    for (a, b) in m.options.iter().zip(os.iter()) {
        assert_eq!(a.tp, b.tp);
        assert_eq!(a.len, b.len);
        assert_eq!(a.va, b.va);
    }
}

#[test]
fn request_builder_bytes() {
    let r = DHCPRequest::with_mac_ip_options(
        "F6-6D-3F-C0-8A-6F",
        vec![opt(DHCPOPTION::RequestedIPAddress, vec![10, 0, 0, 42])],
    )
    .unwrap();
    assert_eq!(r.options, vec![99, 130, 83, 99, 50, 4, 10, 0, 0, 42, 255]);
    let b = r.to_bytes();
    assert_eq!(b.len(), 236 + 11);
    assert_eq!(&b[0..4], &[1, 1, 6, 0]);
    assert_eq!(&b[28..34], &[0xF6, 0x6D, 0x3F, 0xC0, 0x8A, 0x6F]);
    assert_eq!(&b[236..], &[99, 130, 83, 99, 50, 4, 10, 0, 0, 42, 255]);
}

#[test]
fn wrong_cookie_still_decodes() {
    let mut f = reply_frame([10, 0, 0, 42], &[53, 1, 2, 255]);
    f[236..240].copy_from_slice(&[1, 2, 3, 4]);
    let m = DHCPOffer::from_bytes(&f).unwrap();
    assert!(!m.cookie_valid);
    assert_eq!(m.op, DHCPOP::BOOTREPLY);
    assert_eq!(m.xid, 0xDEAD_BEEF);
    assert_eq!(m.yiaddr, [10, 0, 0, 42]);
    assert_eq!(m.options.len(), 1);
    assert_eq!(m.options[0].tp, DHCPOPTION::DHCPMessageType);
    assert_eq!(m.options[0].va, vec![2]);
}

#[test]
fn end_stops_scan_and_trailing_bytes_ignored() {
    let f = reply_frame([0; 4], &[51, 4, 0, 0, 14, 16, 255, 7, 200, 0, 0, 1]);
    let m = DHCPOffer::from_bytes(&f).unwrap();
    assert_eq!(m.options.len(), 1);
    assert_eq!(m.options[0].tp, DHCPOPTION::IPAddressLeaseTime);
    assert_eq!(m.options[0].va, vec![0, 0, 14, 16]);
}

#[test]
fn truncated_option_fails() {
    let f = reply_frame([0; 4], &[53, 1, 2, 54, 4, 10, 0]);
    assert_eq!(DHCPOffer::from_bytes(&f).unwrap_err(), DhcpError::Truncated);
    let g = reply_frame([0; 4], &[53]);
    assert_eq!(DHCPAck::from_bytes(&g).unwrap_err(), DhcpError::Truncated);
    let h = vec![2u8; 239];
    assert_eq!(DHCPOffer::from_bytes(&h).unwrap_err(), DhcpError::Truncated);
}

#[test]
fn exhaustion_before_end_is_tolerated() {
    let f = reply_frame([0; 4], &[0, 0, 53, 1, 5, 0]);
    let a = DHCPAck::from_bytes(&f).unwrap();
    assert_eq!(a.options.len(), 1);
    assert_eq!(a.options[0].tp, DHCPOPTION::DHCPMessageType);
    assert_eq!(a.options[0].va, vec![5]);
    let bare = reply_frame([0; 4], &[]);
    assert_eq!(DHCPAck::from_bytes(&bare).unwrap().options.len(), 0);
}

#[test]
fn unknown_tag_is_kept_not_end() {
    let f = reply_frame([0; 4], &[0xE0, 2, 9, 9, 53, 1, 5, 255]);
    let m = DHCPOffer::from_bytes(&f).unwrap();
    assert_eq!(m.options.len(), 2);
    assert_eq!(m.options[0].tp, DHCPOPTION::Unknown(0xE0));
    assert_eq!(m.options[1].tp, DHCPOPTION::DHCPMessageType);
}

#[test]
fn decode_option_steps() {
    let buf = [0u8, 255, 54, 4, 10, 0, 0, 1, 51, 4, 1];
    assert!(matches!(decode_option(&buf, 0), Ok(OptionStep::Pad)));
    assert!(matches!(decode_option(&buf, 1), Ok(OptionStep::End)));
    match decode_option(&buf, 2) {
        Ok(OptionStep::Item(o, next)) => {
            assert_eq!(o.tp, DHCPOPTION::ServerIdentifier);
            assert_eq!(o.len, 4);
            assert_eq!(o.va, vec![10, 0, 0, 1]);
            assert_eq!(next, 8);
        }
        _ => panic!("expected an option"),
    }
    assert!(matches!(decode_option(&buf, 8), Err(DhcpError::Truncated)));
    let opts = decode_option_stream(&buf, 2).unwrap_err();
    assert_eq!(opts, DhcpError::Truncated);
}

#[test]
fn tag_codes_round_trip() {
    for b in 0..=255u8 {
        assert_eq!(DHCPOPTION::from_code(b).code(), b);
    }
    assert_eq!(DHCPOPTION::from_code(0x36), DHCPOPTION::ServerIdentifier);
    assert_eq!(DHCPOPTION::from_code(0x3E), DHCPOPTION::Unknown(0x3E));
    assert_eq!(DHCPOPTION::from_code(0xFF), DHCPOPTION::EndOption);
    assert_eq!(DHCPOPTION::StreetTalkDirectoryAssistanceServerOption.code(), 0x4C);
    assert_eq!(DHCPOP::from_code(2), DHCPOP::BOOTREPLY);
    assert_eq!(DHCPOP::from_code(7), DHCPOP::BOOTREQUEST);
    assert_eq!(DHCPMessageType::DHCPINFORM.code(), 8);
}

#[test]
fn find_option_first_match_wins() {
    let os = vec![
        opt(DHCPOPTION::SubnetMask, vec![255, 255, 255, 0]),
        opt(DHCPOPTION::ServerIdentifier, vec![1, 1, 1, 1]),
        opt(DHCPOPTION::ServerIdentifier, vec![2, 2, 2, 2]),
    ];
    assert_eq!(find_option(&os, DHCPOPTION::ServerIdentifier), Some(1));
    assert_eq!(find_option(&os, DHCPOPTION::RouterOption), None);
}

#[test]
fn offer_default_is_empty_reply() {
    let o = DHCPOffer::default();
    assert_eq!(o.op, DHCPOP::BOOTREPLY);
    assert_eq!(o.yiaddr, [0; 4]);
    assert!(o.cookie_valid);
    assert!(o.options.is_empty());
    let r = DHCPRequest::default();
    assert_eq!(r.options, vec![99, 130, 83, 99]);
}
