use vstd::prelude::*;

verus! {

/// Tag of a DHCP option: one byte on the wire.
///
/// Every assigned code has its own variant; any other byte is kept as
/// `Unknown(code)`, so that decoding never turns an unassigned tag into `EndOption`.
#[derive(Debug, Clone, Copy, PartialEq, Eq, Structural)]
pub enum DHCPOPTION {
    PadOption,
    SubnetMask,
    TimeOffset,
    RouterOption,
    TimeServerOption,
    NameServerOption,
    DomainNameServerOption,
    LogServerOption,
    CookieServerOption,
    LPRServerOption,
    ImpressServerOption,
    ResourceLocationServerOption,
    HostNameOption,
    BootFileSizeOption,
    MeritDumpFile,
    DomainName,
    SwapServer,
    RootPath,
    ExtensionsPath,
    IPForwardingOption,
    NonLocalSourceRoutingOption,
    PolicyFilterOption,
    MaximumDatagramReassemblySize,
    DefaultIPTimeTolive,
    PathMTUAgingTimeoutOption,
    PathMTUPlateauTableOption,
    InterfaceMTUOption,
    AllSubnetsAreLocalOption,
    BroadcastAddressOption,
    PerformMaskDiscoveryOption,
    MaskSupplierOption,
    PerformRouterDiscoveryOption,
    RouterSolicitationAddressOption,
    StaticRouteOption,
    TrailerEncapsulationOption,
    ARPCacheTimeoutOption,
    EthernetEncapsulationOption,
    TCPDefaultTTLOption,
    TCPKeepaliveIntervalOption,
    TCPKeepaliveGarbageOption,
    NetworkInformationServiceDomainOption,
    NetworkInformationServersOption,
    NetworkTimeProtocolServersOption,
    VendorSpecificInformation,
    NetBIOSOverTCPIPNameServerOption,
    NetBIOSOverTCPIPDatagramDistributionServerOption,
    NetBIOSOverTCPIPNodeTypeOption,
    NetBIOSOverTCPIPScopeOption,
    XWindowSystemFontServerOption,
    XWindowSystemDisplayManagerOption,
    RequestedIPAddress,
    IPAddressLeaseTime,
    OptionOverload,
    DHCPMessageType,
    ServerIdentifier,
    ParameterRequestList,
    Message,
    MaximumDHCPMessageSize,
    RenewalTimeValue,
    RebindingTimeValue,
    VendorClassIdentifier,
    ClientIdentifier,
    NetworkInformationServicePlusDomainOption,
    NetworkInformationServicePlusServersOption,
    TFTPServerName,
    BootfileName,
    MobileIPHomeAgentOption,
    SMTPServerOption,
    POP3ServerOption,
    NNTPServerOption,
    DefaultWWWServerOption,
    DefaultFingerServerOption,
    DefaultIRCServerOption,
    StreetTalkServerOption,
    StreetTalkDirectoryAssistanceServerOption,
    EndOption,
    Unknown(u8),
}

/// The wire byte of a tag.
pub open spec fn tag_byte(t: DHCPOPTION) -> u8 {
    match t {
        DHCPOPTION::PadOption => 0x00,
        DHCPOPTION::SubnetMask => 0x01,
        DHCPOPTION::TimeOffset => 0x02,
        DHCPOPTION::RouterOption => 0x03,
        DHCPOPTION::TimeServerOption => 0x04,
        DHCPOPTION::NameServerOption => 0x05,
        DHCPOPTION::DomainNameServerOption => 0x06,
        DHCPOPTION::LogServerOption => 0x07,
        DHCPOPTION::CookieServerOption => 0x08,
        DHCPOPTION::LPRServerOption => 0x09,
        DHCPOPTION::ImpressServerOption => 0x0A,
        DHCPOPTION::ResourceLocationServerOption => 0x0B,
        DHCPOPTION::HostNameOption => 0x0C,
        DHCPOPTION::BootFileSizeOption => 0x0D,
        DHCPOPTION::MeritDumpFile => 0x0E,
        DHCPOPTION::DomainName => 0x0F,
        DHCPOPTION::SwapServer => 0x10,
        DHCPOPTION::RootPath => 0x11,
        DHCPOPTION::ExtensionsPath => 0x12,
        DHCPOPTION::IPForwardingOption => 0x13,
        DHCPOPTION::NonLocalSourceRoutingOption => 0x14,
        DHCPOPTION::PolicyFilterOption => 0x15,
        DHCPOPTION::MaximumDatagramReassemblySize => 0x16,
        DHCPOPTION::DefaultIPTimeTolive => 0x17,
        DHCPOPTION::PathMTUAgingTimeoutOption => 0x18,
        DHCPOPTION::PathMTUPlateauTableOption => 0x19,
        DHCPOPTION::InterfaceMTUOption => 0x1A,
        DHCPOPTION::AllSubnetsAreLocalOption => 0x1B,
        DHCPOPTION::BroadcastAddressOption => 0x1C,
        DHCPOPTION::PerformMaskDiscoveryOption => 0x1D,
        DHCPOPTION::MaskSupplierOption => 0x1E,
        DHCPOPTION::PerformRouterDiscoveryOption => 0x1F,
        DHCPOPTION::RouterSolicitationAddressOption => 0x20,
        DHCPOPTION::StaticRouteOption => 0x21,
        DHCPOPTION::TrailerEncapsulationOption => 0x22,
        DHCPOPTION::ARPCacheTimeoutOption => 0x23,
        DHCPOPTION::EthernetEncapsulationOption => 0x24,
        DHCPOPTION::TCPDefaultTTLOption => 0x25,
        DHCPOPTION::TCPKeepaliveIntervalOption => 0x26,
        DHCPOPTION::TCPKeepaliveGarbageOption => 0x27,
        DHCPOPTION::NetworkInformationServiceDomainOption => 0x28,
        DHCPOPTION::NetworkInformationServersOption => 0x29,
        DHCPOPTION::NetworkTimeProtocolServersOption => 0x2A,
        DHCPOPTION::VendorSpecificInformation => 0x2B,
        DHCPOPTION::NetBIOSOverTCPIPNameServerOption => 0x2C,
        DHCPOPTION::NetBIOSOverTCPIPDatagramDistributionServerOption => 0x2D,
        DHCPOPTION::NetBIOSOverTCPIPNodeTypeOption => 0x2E,
        DHCPOPTION::NetBIOSOverTCPIPScopeOption => 0x2F,
        DHCPOPTION::XWindowSystemFontServerOption => 0x30,
        DHCPOPTION::XWindowSystemDisplayManagerOption => 0x31,
        DHCPOPTION::RequestedIPAddress => 0x32,
        DHCPOPTION::IPAddressLeaseTime => 0x33,
        DHCPOPTION::OptionOverload => 0x34,
        DHCPOPTION::DHCPMessageType => 0x35,
        DHCPOPTION::ServerIdentifier => 0x36,
        DHCPOPTION::ParameterRequestList => 0x37,
        DHCPOPTION::Message => 0x38,
        DHCPOPTION::MaximumDHCPMessageSize => 0x39,
        DHCPOPTION::RenewalTimeValue => 0x3A,
        DHCPOPTION::RebindingTimeValue => 0x3B,
        DHCPOPTION::VendorClassIdentifier => 0x3C,
        DHCPOPTION::ClientIdentifier => 0x3D,
        DHCPOPTION::NetworkInformationServicePlusDomainOption => 0x40,
        DHCPOPTION::NetworkInformationServicePlusServersOption => 0x41,
        DHCPOPTION::TFTPServerName => 0x42,
        DHCPOPTION::BootfileName => 0x43,
        DHCPOPTION::MobileIPHomeAgentOption => 0x44,
        DHCPOPTION::SMTPServerOption => 0x45,
        DHCPOPTION::POP3ServerOption => 0x46,
        DHCPOPTION::NNTPServerOption => 0x47,
        DHCPOPTION::DefaultWWWServerOption => 0x48,
        DHCPOPTION::DefaultFingerServerOption => 0x49,
        DHCPOPTION::DefaultIRCServerOption => 0x4A,
        DHCPOPTION::StreetTalkServerOption => 0x4B,
        DHCPOPTION::StreetTalkDirectoryAssistanceServerOption => 0x4C,
        DHCPOPTION::EndOption => 0xFF,
        DHCPOPTION::Unknown(b) => b,
    }
}

/// The tag that a wire byte stands for.
pub open spec fn tag_of_byte(b: u8) -> DHCPOPTION {
    match b {
        0x00 => DHCPOPTION::PadOption,
        0x01 => DHCPOPTION::SubnetMask,
        0x02 => DHCPOPTION::TimeOffset,
        0x03 => DHCPOPTION::RouterOption,
        0x04 => DHCPOPTION::TimeServerOption,
        0x05 => DHCPOPTION::NameServerOption,
        0x06 => DHCPOPTION::DomainNameServerOption,
        0x07 => DHCPOPTION::LogServerOption,
        0x08 => DHCPOPTION::CookieServerOption,
        0x09 => DHCPOPTION::LPRServerOption,
        0x0A => DHCPOPTION::ImpressServerOption,
        0x0B => DHCPOPTION::ResourceLocationServerOption,
        0x0C => DHCPOPTION::HostNameOption,
        0x0D => DHCPOPTION::BootFileSizeOption,
        0x0E => DHCPOPTION::MeritDumpFile,
        0x0F => DHCPOPTION::DomainName,
        0x10 => DHCPOPTION::SwapServer,
        0x11 => DHCPOPTION::RootPath,
        0x12 => DHCPOPTION::ExtensionsPath,
        0x13 => DHCPOPTION::IPForwardingOption,
        0x14 => DHCPOPTION::NonLocalSourceRoutingOption,
        0x15 => DHCPOPTION::PolicyFilterOption,
        0x16 => DHCPOPTION::MaximumDatagramReassemblySize,
        0x17 => DHCPOPTION::DefaultIPTimeTolive,
        0x18 => DHCPOPTION::PathMTUAgingTimeoutOption,
        0x19 => DHCPOPTION::PathMTUPlateauTableOption,
        0x1A => DHCPOPTION::InterfaceMTUOption,
        0x1B => DHCPOPTION::AllSubnetsAreLocalOption,
        0x1C => DHCPOPTION::BroadcastAddressOption,
        0x1D => DHCPOPTION::PerformMaskDiscoveryOption,
        0x1E => DHCPOPTION::MaskSupplierOption,
        0x1F => DHCPOPTION::PerformRouterDiscoveryOption,
        0x20 => DHCPOPTION::RouterSolicitationAddressOption,
        0x21 => DHCPOPTION::StaticRouteOption,
        0x22 => DHCPOPTION::TrailerEncapsulationOption,
        0x23 => DHCPOPTION::ARPCacheTimeoutOption,
        0x24 => DHCPOPTION::EthernetEncapsulationOption,
        0x25 => DHCPOPTION::TCPDefaultTTLOption,
        0x26 => DHCPOPTION::TCPKeepaliveIntervalOption,
        0x27 => DHCPOPTION::TCPKeepaliveGarbageOption,
        0x28 => DHCPOPTION::NetworkInformationServiceDomainOption,
        0x29 => DHCPOPTION::NetworkInformationServersOption,
        0x2A => DHCPOPTION::NetworkTimeProtocolServersOption,
        0x2B => DHCPOPTION::VendorSpecificInformation,
        0x2C => DHCPOPTION::NetBIOSOverTCPIPNameServerOption,
        0x2D => DHCPOPTION::NetBIOSOverTCPIPDatagramDistributionServerOption,
        0x2E => DHCPOPTION::NetBIOSOverTCPIPNodeTypeOption,
        0x2F => DHCPOPTION::NetBIOSOverTCPIPScopeOption,
        0x30 => DHCPOPTION::XWindowSystemFontServerOption,
        0x31 => DHCPOPTION::XWindowSystemDisplayManagerOption,
        0x32 => DHCPOPTION::RequestedIPAddress,
        0x33 => DHCPOPTION::IPAddressLeaseTime,
        0x34 => DHCPOPTION::OptionOverload,
        0x35 => DHCPOPTION::DHCPMessageType,
        0x36 => DHCPOPTION::ServerIdentifier,
        0x37 => DHCPOPTION::ParameterRequestList,
        0x38 => DHCPOPTION::Message,
        0x39 => DHCPOPTION::MaximumDHCPMessageSize,
        0x3A => DHCPOPTION::RenewalTimeValue,
        0x3B => DHCPOPTION::RebindingTimeValue,
        0x3C => DHCPOPTION::VendorClassIdentifier,
        0x3D => DHCPOPTION::ClientIdentifier,
        0x40 => DHCPOPTION::NetworkInformationServicePlusDomainOption,
        0x41 => DHCPOPTION::NetworkInformationServicePlusServersOption,
        0x42 => DHCPOPTION::TFTPServerName,
        0x43 => DHCPOPTION::BootfileName,
        0x44 => DHCPOPTION::MobileIPHomeAgentOption,
        0x45 => DHCPOPTION::SMTPServerOption,
        0x46 => DHCPOPTION::POP3ServerOption,
        0x47 => DHCPOPTION::NNTPServerOption,
        0x48 => DHCPOPTION::DefaultWWWServerOption,
        0x49 => DHCPOPTION::DefaultFingerServerOption,
        0x4A => DHCPOPTION::DefaultIRCServerOption,
        0x4B => DHCPOPTION::StreetTalkServerOption,
        0x4C => DHCPOPTION::StreetTalkDirectoryAssistanceServerOption,
        0xFF => DHCPOPTION::EndOption,
        _ => DHCPOPTION::Unknown(b),
    }
}

/// A tag is canonical when `Unknown` holds only a code that no variant names.
pub open spec fn tag_canonical(t: DHCPOPTION) -> bool {
    match t {
        DHCPOPTION::Unknown(b) => tag_of_byte(b) is Unknown,
        _ => true,
    }
}

impl DHCPOPTION {
    /// The byte written on the wire for this tag.
    pub fn code(&self) -> (r: u8)
        ensures
            r == tag_byte(*self),
    {
        match self {
            DHCPOPTION::PadOption => 0x00,
            DHCPOPTION::SubnetMask => 0x01,
            DHCPOPTION::TimeOffset => 0x02,
            DHCPOPTION::RouterOption => 0x03,
            DHCPOPTION::TimeServerOption => 0x04,
            DHCPOPTION::NameServerOption => 0x05,
            DHCPOPTION::DomainNameServerOption => 0x06,
            DHCPOPTION::LogServerOption => 0x07,
            DHCPOPTION::CookieServerOption => 0x08,
            DHCPOPTION::LPRServerOption => 0x09,
            DHCPOPTION::ImpressServerOption => 0x0A,
            DHCPOPTION::ResourceLocationServerOption => 0x0B,
            DHCPOPTION::HostNameOption => 0x0C,
            DHCPOPTION::BootFileSizeOption => 0x0D,
            DHCPOPTION::MeritDumpFile => 0x0E,
            DHCPOPTION::DomainName => 0x0F,
            DHCPOPTION::SwapServer => 0x10,
            DHCPOPTION::RootPath => 0x11,
            DHCPOPTION::ExtensionsPath => 0x12,
            DHCPOPTION::IPForwardingOption => 0x13,
            DHCPOPTION::NonLocalSourceRoutingOption => 0x14,
            DHCPOPTION::PolicyFilterOption => 0x15,
            DHCPOPTION::MaximumDatagramReassemblySize => 0x16,
            DHCPOPTION::DefaultIPTimeTolive => 0x17,
            DHCPOPTION::PathMTUAgingTimeoutOption => 0x18,
            DHCPOPTION::PathMTUPlateauTableOption => 0x19,
            DHCPOPTION::InterfaceMTUOption => 0x1A,
            DHCPOPTION::AllSubnetsAreLocalOption => 0x1B,
            DHCPOPTION::BroadcastAddressOption => 0x1C,
            DHCPOPTION::PerformMaskDiscoveryOption => 0x1D,
            DHCPOPTION::MaskSupplierOption => 0x1E,
            DHCPOPTION::PerformRouterDiscoveryOption => 0x1F,
            DHCPOPTION::RouterSolicitationAddressOption => 0x20,
            DHCPOPTION::StaticRouteOption => 0x21,
            DHCPOPTION::TrailerEncapsulationOption => 0x22,
            DHCPOPTION::ARPCacheTimeoutOption => 0x23,
            DHCPOPTION::EthernetEncapsulationOption => 0x24,
            DHCPOPTION::TCPDefaultTTLOption => 0x25,
            DHCPOPTION::TCPKeepaliveIntervalOption => 0x26,
            DHCPOPTION::TCPKeepaliveGarbageOption => 0x27,
            DHCPOPTION::NetworkInformationServiceDomainOption => 0x28,
            DHCPOPTION::NetworkInformationServersOption => 0x29,
            DHCPOPTION::NetworkTimeProtocolServersOption => 0x2A,
            DHCPOPTION::VendorSpecificInformation => 0x2B,
            DHCPOPTION::NetBIOSOverTCPIPNameServerOption => 0x2C,
            DHCPOPTION::NetBIOSOverTCPIPDatagramDistributionServerOption => 0x2D,
            DHCPOPTION::NetBIOSOverTCPIPNodeTypeOption => 0x2E,
            DHCPOPTION::NetBIOSOverTCPIPScopeOption => 0x2F,
            DHCPOPTION::XWindowSystemFontServerOption => 0x30,
            DHCPOPTION::XWindowSystemDisplayManagerOption => 0x31,
            DHCPOPTION::RequestedIPAddress => 0x32,
            DHCPOPTION::IPAddressLeaseTime => 0x33,
            DHCPOPTION::OptionOverload => 0x34,
            DHCPOPTION::DHCPMessageType => 0x35,
            DHCPOPTION::ServerIdentifier => 0x36,
            DHCPOPTION::ParameterRequestList => 0x37,
            DHCPOPTION::Message => 0x38,
            DHCPOPTION::MaximumDHCPMessageSize => 0x39,
            DHCPOPTION::RenewalTimeValue => 0x3A,
            DHCPOPTION::RebindingTimeValue => 0x3B,
            DHCPOPTION::VendorClassIdentifier => 0x3C,
            DHCPOPTION::ClientIdentifier => 0x3D,
            DHCPOPTION::NetworkInformationServicePlusDomainOption => 0x40,
            DHCPOPTION::NetworkInformationServicePlusServersOption => 0x41,
            DHCPOPTION::TFTPServerName => 0x42,
            DHCPOPTION::BootfileName => 0x43,
            DHCPOPTION::MobileIPHomeAgentOption => 0x44,
            DHCPOPTION::SMTPServerOption => 0x45,
            DHCPOPTION::POP3ServerOption => 0x46,
            DHCPOPTION::NNTPServerOption => 0x47,
            DHCPOPTION::DefaultWWWServerOption => 0x48,
            DHCPOPTION::DefaultFingerServerOption => 0x49,
            DHCPOPTION::DefaultIRCServerOption => 0x4A,
            DHCPOPTION::StreetTalkServerOption => 0x4B,
            DHCPOPTION::StreetTalkDirectoryAssistanceServerOption => 0x4C,
            DHCPOPTION::EndOption => 0xFF,
            DHCPOPTION::Unknown(b) => *b,
        }
    }

    /// The tag read from a wire byte; unassigned codes become `Unknown`.
    pub fn from_code(b: u8) -> (r: DHCPOPTION)
        ensures
            r == tag_of_byte(b),
    {
        match b {
            0x00 => DHCPOPTION::PadOption,
            0x01 => DHCPOPTION::SubnetMask,
            0x02 => DHCPOPTION::TimeOffset,
            0x03 => DHCPOPTION::RouterOption,
            0x04 => DHCPOPTION::TimeServerOption,
            0x05 => DHCPOPTION::NameServerOption,
            0x06 => DHCPOPTION::DomainNameServerOption,
            0x07 => DHCPOPTION::LogServerOption,
            0x08 => DHCPOPTION::CookieServerOption,
            0x09 => DHCPOPTION::LPRServerOption,
            0x0A => DHCPOPTION::ImpressServerOption,
            0x0B => DHCPOPTION::ResourceLocationServerOption,
            0x0C => DHCPOPTION::HostNameOption,
            0x0D => DHCPOPTION::BootFileSizeOption,
            0x0E => DHCPOPTION::MeritDumpFile,
            0x0F => DHCPOPTION::DomainName,
            0x10 => DHCPOPTION::SwapServer,
            0x11 => DHCPOPTION::RootPath,
            0x12 => DHCPOPTION::ExtensionsPath,
            0x13 => DHCPOPTION::IPForwardingOption,
            0x14 => DHCPOPTION::NonLocalSourceRoutingOption,
            0x15 => DHCPOPTION::PolicyFilterOption,
            0x16 => DHCPOPTION::MaximumDatagramReassemblySize,
            0x17 => DHCPOPTION::DefaultIPTimeTolive,
            0x18 => DHCPOPTION::PathMTUAgingTimeoutOption,
            0x19 => DHCPOPTION::PathMTUPlateauTableOption,
            0x1A => DHCPOPTION::InterfaceMTUOption,
            0x1B => DHCPOPTION::AllSubnetsAreLocalOption,
            0x1C => DHCPOPTION::BroadcastAddressOption,
            0x1D => DHCPOPTION::PerformMaskDiscoveryOption,
            0x1E => DHCPOPTION::MaskSupplierOption,
            0x1F => DHCPOPTION::PerformRouterDiscoveryOption,
            0x20 => DHCPOPTION::RouterSolicitationAddressOption,
            0x21 => DHCPOPTION::StaticRouteOption,
            0x22 => DHCPOPTION::TrailerEncapsulationOption,
            0x23 => DHCPOPTION::ARPCacheTimeoutOption,
            0x24 => DHCPOPTION::EthernetEncapsulationOption,
            0x25 => DHCPOPTION::TCPDefaultTTLOption,
            0x26 => DHCPOPTION::TCPKeepaliveIntervalOption,
            0x27 => DHCPOPTION::TCPKeepaliveGarbageOption,
            0x28 => DHCPOPTION::NetworkInformationServiceDomainOption,
            0x29 => DHCPOPTION::NetworkInformationServersOption,
            0x2A => DHCPOPTION::NetworkTimeProtocolServersOption,
            0x2B => DHCPOPTION::VendorSpecificInformation,
            0x2C => DHCPOPTION::NetBIOSOverTCPIPNameServerOption,
            0x2D => DHCPOPTION::NetBIOSOverTCPIPDatagramDistributionServerOption,
            0x2E => DHCPOPTION::NetBIOSOverTCPIPNodeTypeOption,
            0x2F => DHCPOPTION::NetBIOSOverTCPIPScopeOption,
            0x30 => DHCPOPTION::XWindowSystemFontServerOption,
            0x31 => DHCPOPTION::XWindowSystemDisplayManagerOption,
            0x32 => DHCPOPTION::RequestedIPAddress,
            0x33 => DHCPOPTION::IPAddressLeaseTime,
            0x34 => DHCPOPTION::OptionOverload,
            0x35 => DHCPOPTION::DHCPMessageType,
            0x36 => DHCPOPTION::ServerIdentifier,
            0x37 => DHCPOPTION::ParameterRequestList,
            0x38 => DHCPOPTION::Message,
            0x39 => DHCPOPTION::MaximumDHCPMessageSize,
            0x3A => DHCPOPTION::RenewalTimeValue,
            0x3B => DHCPOPTION::RebindingTimeValue,
            0x3C => DHCPOPTION::VendorClassIdentifier,
            0x3D => DHCPOPTION::ClientIdentifier,
            0x40 => DHCPOPTION::NetworkInformationServicePlusDomainOption,
            0x41 => DHCPOPTION::NetworkInformationServicePlusServersOption,
            0x42 => DHCPOPTION::TFTPServerName,
            0x43 => DHCPOPTION::BootfileName,
            0x44 => DHCPOPTION::MobileIPHomeAgentOption,
            0x45 => DHCPOPTION::SMTPServerOption,
            0x46 => DHCPOPTION::POP3ServerOption,
            0x47 => DHCPOPTION::NNTPServerOption,
            0x48 => DHCPOPTION::DefaultWWWServerOption,
            0x49 => DHCPOPTION::DefaultFingerServerOption,
            0x4A => DHCPOPTION::DefaultIRCServerOption,
            0x4B => DHCPOPTION::StreetTalkServerOption,
            0x4C => DHCPOPTION::StreetTalkDirectoryAssistanceServerOption,
            0xFF => DHCPOPTION::EndOption,
            _ => DHCPOPTION::Unknown(b),
        }
    }
}

/// Reading a tag back from its byte gives the byte again, for every byte.
pub proof fn lemma_byte_tag_byte(b: u8)
    ensures
        tag_byte(tag_of_byte(b)) == b,
        tag_canonical(tag_of_byte(b)),
{
}

/// A canonical tag survives being written and read back.
pub proof fn lemma_tag_byte_tag(t: DHCPOPTION)
    requires
        tag_canonical(t),
    ensures
        tag_of_byte(tag_byte(t)) == t,
{
}

} // verus!
