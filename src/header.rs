use vstd::prelude::*;

verus! {

/// BOOTP operation code.
#[derive(Debug, Clone, Copy, PartialEq, Eq, Structural)]
pub enum DHCPOP {
    BOOTREQUEST,
    BOOTREPLY,
}

/// Hardware type; Ethernet is the only one this client speaks.
#[derive(Debug, Clone, Copy, PartialEq, Eq, Structural)]
pub enum DHCPHType {
    ETHERNET,
}

/// Hardware address length; six octets for Ethernet.
#[derive(Debug, Clone, Copy, PartialEq, Eq, Structural)]
pub enum DHCPHLen {
    ETHERNET,
}

/// Value of the DHCP message type option.
#[derive(Debug, Clone, Copy, PartialEq, Eq, Structural)]
pub enum DHCPMessageType {
    DHCPDISCOVER,
    DHCPOFFER,
    DHCPREQUEST,
    DHCPDECLINE,
    DHCPACK,
    DHCPNAK,
    DHCPRELEASE,
    DHCPINFORM,
}

pub open spec fn op_byte(op: DHCPOP) -> u8 {
    match op {
        DHCPOP::BOOTREQUEST => 1,
        DHCPOP::BOOTREPLY => 2,
    }
}

/// A reply is code 2; any other code reads as a request.
pub open spec fn op_of_byte(b: u8) -> DHCPOP {
    if b == 2 {
        DHCPOP::BOOTREPLY
    } else {
        DHCPOP::BOOTREQUEST
    }
}

pub open spec fn htype_byte(h: DHCPHType) -> u8 {
    1
}

pub open spec fn hlen_byte(h: DHCPHLen) -> u8 {
    6
}

pub open spec fn message_type_byte(m: DHCPMessageType) -> u8 {
    match m {
        DHCPMessageType::DHCPDISCOVER => 1,
        DHCPMessageType::DHCPOFFER => 2,
        DHCPMessageType::DHCPREQUEST => 3,
        DHCPMessageType::DHCPDECLINE => 4,
        DHCPMessageType::DHCPACK => 5,
        DHCPMessageType::DHCPNAK => 6,
        DHCPMessageType::DHCPRELEASE => 7,
        DHCPMessageType::DHCPINFORM => 8,
    }
}

impl DHCPOP {
    pub fn code(&self) -> (r: u8)
        ensures
            r == op_byte(*self),
    {
        match self {
            DHCPOP::BOOTREQUEST => 1,
            DHCPOP::BOOTREPLY => 2,
        }
    }

    pub fn from_code(b: u8) -> (r: DHCPOP)
        ensures
            r == op_of_byte(b),
    {
        if b == 2 {
            DHCPOP::BOOTREPLY
        } else {
            DHCPOP::BOOTREQUEST
        }
    }
}

impl DHCPHType {
    pub fn code(&self) -> (r: u8)
        ensures
            r == htype_byte(*self),
    {
        1
    }
}

impl DHCPHLen {
    pub fn code(&self) -> (r: u8)
        ensures
            r == hlen_byte(*self),
    {
        6
    }
}

impl DHCPMessageType {
    pub fn code(&self) -> (r: u8)
        ensures
            r == message_type_byte(*self),
    {
        match self {
            DHCPMessageType::DHCPDISCOVER => 1,
            DHCPMessageType::DHCPOFFER => 2,
            DHCPMessageType::DHCPREQUEST => 3,
            DHCPMessageType::DHCPDECLINE => 4,
            DHCPMessageType::DHCPACK => 5,
            DHCPMessageType::DHCPNAK => 6,
            DHCPMessageType::DHCPRELEASE => 7,
            DHCPMessageType::DHCPINFORM => 8,
        }
    }
}

} // verus!
