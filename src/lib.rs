//! A DHCP client: the BOOTP/DHCP wire codec, the message builders and parsers,
//! and the Discover / Offer / Request / Ack exchange as a state machine.
pub mod client;
pub mod codec;
pub mod header;
pub mod laws;
pub mod mac;
pub mod message;
pub mod tag;
pub mod wire;

pub use client::{ClientAction, ClientEvent, ClientSession, ClientState};
pub use codec::{DhcpError, OptionStep, DHCPOPTIONS};
pub use header::{DHCPHLen, DHCPHType, DHCPMessageType, DHCPOP};
pub use message::{
    DHCPAck, DHCPBytes, DHCPDecline, DHCPDiscover, DHCPInform, DHCPNak, DHCPOffer, DHCPRelease,
    DHCPRequest,
};
pub use tag::DHCPOPTION;
