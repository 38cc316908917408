use vstd::prelude::*;

verus! {

/// Octets in one Ethernet address.
pub const ALEN: usize = 6;

/// Octets in the Ethernet type field.
pub const TLEN: usize = 2;

/// Total octets in the header.
pub const HLEN: usize = 14;

/// Minimal octet count in a frame without the frame check sequence.
pub const ZLEN: usize = 60;

/// Maximal octet count in the payload.
pub const DATA_LEN: usize = 1500;

/// Maximal octet count in a frame without the frame check sequence.
pub const FRAME_LEN: usize = 1514;

/// Octets in the frame check sequence.
pub const FCS_LEN: usize = 4;

/// Minimal MTU; RFC 791 fixes it at 68 octets for IPv4.
pub const MIN_MTU: usize = 68;

/// Maximal MTU.
pub const MAX_MTU: usize = 0xFFFF;

/// Ethernet protocol identifiers. Each stands for the 16-bit ethertype of
/// an Ethernet II header; the values below 0x0600 are pseudo identifiers
/// for non-DIX framings.
#[derive(Clone, Copy, PartialEq, Eq, Structural, Debug)]
pub enum Proto {
    /// Ethernet loopback protocol
    Loop,
    /// Xerox PUP packet
    Pup,
    /// Xerox PUP address transfer packet
    PupAddrTrans,
    /// TSN (IEEE 1722) packet
    Tsn,
    /// ERSPAN version 2 (type III)
    Erspan2,
    /// Internet Protocol v4 packet
    Ip,
    /// CCITT X.25
    X25,
    /// Address resolution protocol
    Arp,
    /// G8BPQ AX.25 Ethernet packet (not an officially registered id)
    Bpq,
    /// Xerox IEEE802.3 PUP packet
    IeeePup,
    /// Xerox IEEE802.3 PUP address transfer packet
    IeeePupAddrTrans,
    /// B.A.T.M.A.N.-advanced packet (not an officially registered id)
    Batman,
    /// DEC assigned protocol
    Dec,
    /// DEC DNA dump/load
    DNADumpLoad,
    /// DEC DNA remote control
    DNARemoteControl,
    /// DEC DNA routing
    DNARouting,
    /// DEC LAT
    Lat,
    /// DEC diagnostics
    Diag,
    /// DEC customer use
    Cust,
    /// DEC systems communications architecture
    Sca,
    /// Transparent Ethernet bridging
    Teb,
    /// Reverse address resolution packet
    Rarp,
    /// Appletalk DDP
    ATalk,
    /// Appletalk AARP
    AArp,
    /// 802.1Q VLAN extended header
    IEEE8021Q,
    /// ERSPAN type II
    Erspan,
    /// IPX over DIX
    Ipx,
    /// Internet Protocol v6
    IpV6,
    /// IEEE pause frames, see 802.3 31B
    Pause,
    /// Slow protocol, see 802.3ad 43B
    Slow,
    /// Web cache coordination protocol
    Wccp,
    /// MPLS unicast traffic
    MplsUnicast,
    /// MPLS multicast traffic
    MplsMulticast,
    /// Multi-protocol over ATM
    AtmMpOa,
    /// PPPoE discovery messages
    PppDisc,
    /// PPPoE session messages
    PppSes,
    /// HPNA, wlan link-local tunnel
    LinkCtl,
    /// Frame-based ATM transport over Ethernet
    AtmFate,
    /// Port access entity (IEEE 802.1X)
    Pae,
    /// PROFINET
    Profinet,
    /// Multiple proprietary protocols
    Realtek,
    /// ATA over Ethernet
    Aoe,
    /// EtherCAT
    EtherCat,
    /// 802.1ad service VLAN
    _8021ad,
    /// 802.1 local experimental 1
    _802Ex1,
    /// 802.11 pre-authentication
    PreAuth,
    /// TIPC
    Tipc,
    /// Link layer discovery protocol
    Lldp,
    /// Media redundancy protocol
    Mrp,
    /// 802.1ae MACsec
    MacSec,
    /// 802.1ah backbone service tag
    _8021ah,
    /// 802.1Q multiple VLAN registration protocol
    Mvrp,
    /// IEEE 1588 timesync
    _1588,
    /// NCSI protocol
    Ncsi,
    /// IEC 62439-3 PRP/HSRv0
    Prp,
    /// Connectivity fault management
    Cfm,
    /// Fibre Channel over Ethernet
    FcoE,
    /// InfiniBand over Ethernet
    IboE,
    /// TDLS
    Tdls,
    /// FCoE initialization protocol
    Fip,
    /// 802.21 media independent handover protocol
    _80221,
    /// IEC 62439-3 HSRv1
    Hsr,
    /// Network service header
    Nsh,
    /// Ethernet loopback packet, per IEEE 802.3
    Loopback,
    /// Deprecated QinQ VLAN (not an officially registered id)
    QinQ1,
    /// Deprecated QinQ VLAN (not an officially registered id)
    QinQ2,
    /// Deprecated QinQ VLAN (not an officially registered id)
    QinQ3,
    /// Ethertype DSA (not an officially registered id)
    Edsa,
    /// Fake VLAN header tag for DSA (not an officially registered id)
    Dsa8021Q,
    /// A5PSW tag value (not an officially registered id)
    DsaA5Psw,
    /// ForCES inter-FE LFB type
    Ife,
    /// IBM af_iucv (not an officially registered id)
    AfIucv,
    /// Minimal Ethernet II protocol value; anything below is 802.3
    Min8023,
    /// Dummy type for 802.3 frames
    _8023,
    /// Dummy protocol id for AX.25
    Ax25,
    /// Every packet
    All,
    /// 802.2 frames
    _8022,
    /// Internal only
    Snap,
    /// DEC DDCMP: internal only
    DDcmp,
    /// Dummy type for WAN PPP frames
    WanPpp,
    /// Dummy type for PPP MP frames
    PppMp,
    /// Localtalk pseudo type
    LocalTalk,
    /// Controller area network
    Can,
    /// CAN flexible data rate
    CanFd,
    /// CAN extended frame length
    CanXl,
    /// Dummy type for Appletalk over PPP
    PppTalk,
    /// 802.2 frames over token ring
    Tr8022,
    /// Mobitex
    Mobitex,
    /// Card specific control frames
    Control,
    /// Linux IrDA
    Irda,
    /// Acorn Econet
    Econet,
    /// HDLC frames
    Hdlc,
    /// 1A for ArcNet
    ArcNet,
    /// Distributed switch architecture
    Dsa,
    /// Trailer switch tagging
    Trailer,
    /// Nokia Phonet frames
    Phonet,
    /// IEEE 802.15.4 frame
    IEEE802154,
    /// ST-Ericsson CAIF protocol
    Caif,
    /// Multiplexed DSA protocol
    XDsa,
    /// Qualcomm multiplexing and aggregation protocol
    QcMap,
    /// Management component transport protocol packets
    Mctp,
}

/// Unknown Ethernet protocol number.
#[derive(Clone, Copy, PartialEq, Eq, Structural, Debug)]
pub struct UnknownProtoError(pub u16);

impl Proto {
    /// The identifier's 16-bit protocol number, for contracts.
    pub open spec fn spec_number(self) -> u16 {
        match self {
            Proto::Loop => 0x0060,
            Proto::Pup => 0x0200,
            Proto::PupAddrTrans => 0x0201,
            Proto::Tsn => 0x22F0,
            Proto::Erspan2 => 0x22EB,
            Proto::Ip => 0x0800,
            Proto::X25 => 0x0805,
            Proto::Arp => 0x0806,
            Proto::Bpq => 0x08FF,
            Proto::IeeePup => 0x0A00,
            Proto::IeeePupAddrTrans => 0x0A01,
            Proto::Batman => 0x4305,
            Proto::Dec => 0x6000,
            Proto::DNADumpLoad => 0x6001,
            Proto::DNARemoteControl => 0x6002,
            Proto::DNARouting => 0x6003,
            Proto::Lat => 0x6004,
            Proto::Diag => 0x6005,
            Proto::Cust => 0x6006,
            Proto::Sca => 0x6007,
            Proto::Teb => 0x6558,
            Proto::Rarp => 0x8035,
            Proto::ATalk => 0x809B,
            Proto::AArp => 0x80F3,
            Proto::IEEE8021Q => 0x8100,
            Proto::Erspan => 0x88BE,
            Proto::Ipx => 0x8137,
            Proto::IpV6 => 0x86DD,
            Proto::Pause => 0x8808,
            Proto::Slow => 0x8809,
            Proto::Wccp => 0x883E,
            Proto::MplsUnicast => 0x8847,
            Proto::MplsMulticast => 0x8848,
            Proto::AtmMpOa => 0x884C,
            Proto::PppDisc => 0x8863,
            Proto::PppSes => 0x8864,
            Proto::LinkCtl => 0x886C,
            Proto::AtmFate => 0x8884,
            Proto::Pae => 0x888E,
            Proto::Profinet => 0x8892,
            Proto::Realtek => 0x8899,
            Proto::Aoe => 0x88A2,
            Proto::EtherCat => 0x88A4,
            Proto::_8021ad => 0x88A8,
            Proto::_802Ex1 => 0x88B5,
            Proto::PreAuth => 0x88C7,
            Proto::Tipc => 0x88CA,
            Proto::Lldp => 0x88CC,
            Proto::Mrp => 0x88E3,
            Proto::MacSec => 0x88E5,
            Proto::_8021ah => 0x88E7,
            Proto::Mvrp => 0x88F5,
            Proto::_1588 => 0x88F7,
            Proto::Ncsi => 0x88F8,
            Proto::Prp => 0x88FB,
            Proto::Cfm => 0x8902,
            Proto::FcoE => 0x8906,
            Proto::IboE => 0x8915,
            Proto::Tdls => 0x890D,
            Proto::Fip => 0x8914,
            Proto::_80221 => 0x8917,
            Proto::Hsr => 0x892F,
            Proto::Nsh => 0x894F,
            Proto::Loopback => 0x9000,
            Proto::QinQ1 => 0x9100,
            Proto::QinQ2 => 0x9200,
            Proto::QinQ3 => 0x9300,
            Proto::Edsa => 0xDADA,
            Proto::Dsa8021Q => 0xDADB,
            Proto::DsaA5Psw => 0xE001,
            Proto::Ife => 0xED3E,
            Proto::AfIucv => 0xFBFB,
            Proto::Min8023 => 0x0600,
            Proto::_8023 => 0x0001,
            Proto::Ax25 => 0x0002,
            Proto::All => 0x0003,
            Proto::_8022 => 0x0004,
            Proto::Snap => 0x0005,
            Proto::DDcmp => 0x0006,
            Proto::WanPpp => 0x0007,
            Proto::PppMp => 0x0008,
            Proto::LocalTalk => 0x0009,
            Proto::Can => 0x000C,
            Proto::CanFd => 0x000D,
            Proto::CanXl => 0x000E,
            Proto::PppTalk => 0x0010,
            Proto::Tr8022 => 0x0011,
            Proto::Mobitex => 0x0015,
            Proto::Control => 0x0016,
            Proto::Irda => 0x0017,
            Proto::Econet => 0x0018,
            Proto::Hdlc => 0x0019,
            Proto::ArcNet => 0x001A,
            Proto::Dsa => 0x001B,
            Proto::Trailer => 0x001C,
            Proto::Phonet => 0x00F5,
            Proto::IEEE802154 => 0x00F6,
            Proto::Caif => 0x00F7,
            Proto::XDsa => 0x00F8,
            Proto::QcMap => 0x00F9,
            Proto::Mctp => 0x00FA,
        }
    }

    /// The identifier's 16-bit protocol number.
    pub fn number(self) -> (r: u16)
        ensures
            r == self.spec_number(),
    {
        match self {
            Proto::Loop => 0x0060,
            Proto::Pup => 0x0200,
            Proto::PupAddrTrans => 0x0201,
            Proto::Tsn => 0x22F0,
            Proto::Erspan2 => 0x22EB,
            Proto::Ip => 0x0800,
            Proto::X25 => 0x0805,
            Proto::Arp => 0x0806,
            Proto::Bpq => 0x08FF,
            Proto::IeeePup => 0x0A00,
            Proto::IeeePupAddrTrans => 0x0A01,
            Proto::Batman => 0x4305,
            Proto::Dec => 0x6000,
            Proto::DNADumpLoad => 0x6001,
            Proto::DNARemoteControl => 0x6002,
            Proto::DNARouting => 0x6003,
            Proto::Lat => 0x6004,
            Proto::Diag => 0x6005,
            Proto::Cust => 0x6006,
            Proto::Sca => 0x6007,
            Proto::Teb => 0x6558,
            Proto::Rarp => 0x8035,
            Proto::ATalk => 0x809B,
            Proto::AArp => 0x80F3,
            Proto::IEEE8021Q => 0x8100,
            Proto::Erspan => 0x88BE,
            Proto::Ipx => 0x8137,
            Proto::IpV6 => 0x86DD,
            Proto::Pause => 0x8808,
            Proto::Slow => 0x8809,
            Proto::Wccp => 0x883E,
            Proto::MplsUnicast => 0x8847,
            Proto::MplsMulticast => 0x8848,
            Proto::AtmMpOa => 0x884C,
            Proto::PppDisc => 0x8863,
            Proto::PppSes => 0x8864,
            Proto::LinkCtl => 0x886C,
            Proto::AtmFate => 0x8884,
            Proto::Pae => 0x888E,
            Proto::Profinet => 0x8892,
            Proto::Realtek => 0x8899,
            Proto::Aoe => 0x88A2,
            Proto::EtherCat => 0x88A4,
            Proto::_8021ad => 0x88A8,
            Proto::_802Ex1 => 0x88B5,
            Proto::PreAuth => 0x88C7,
            Proto::Tipc => 0x88CA,
            Proto::Lldp => 0x88CC,
            Proto::Mrp => 0x88E3,
            Proto::MacSec => 0x88E5,
            Proto::_8021ah => 0x88E7,
            Proto::Mvrp => 0x88F5,
            Proto::_1588 => 0x88F7,
            Proto::Ncsi => 0x88F8,
            Proto::Prp => 0x88FB,
            Proto::Cfm => 0x8902,
            Proto::FcoE => 0x8906,
            Proto::IboE => 0x8915,
            Proto::Tdls => 0x890D,
            Proto::Fip => 0x8914,
            Proto::_80221 => 0x8917,
            Proto::Hsr => 0x892F,
            Proto::Nsh => 0x894F,
            Proto::Loopback => 0x9000,
            Proto::QinQ1 => 0x9100,
            Proto::QinQ2 => 0x9200,
            Proto::QinQ3 => 0x9300,
            Proto::Edsa => 0xDADA,
            Proto::Dsa8021Q => 0xDADB,
            Proto::DsaA5Psw => 0xE001,
            Proto::Ife => 0xED3E,
            Proto::AfIucv => 0xFBFB,
            Proto::Min8023 => 0x0600,
            Proto::_8023 => 0x0001,
            Proto::Ax25 => 0x0002,
            Proto::All => 0x0003,
            Proto::_8022 => 0x0004,
            Proto::Snap => 0x0005,
            Proto::DDcmp => 0x0006,
            Proto::WanPpp => 0x0007,
            Proto::PppMp => 0x0008,
            Proto::LocalTalk => 0x0009,
            Proto::Can => 0x000C,
            Proto::CanFd => 0x000D,
            Proto::CanXl => 0x000E,
            Proto::PppTalk => 0x0010,
            Proto::Tr8022 => 0x0011,
            Proto::Mobitex => 0x0015,
            Proto::Control => 0x0016,
            Proto::Irda => 0x0017,
            Proto::Econet => 0x0018,
            Proto::Hdlc => 0x0019,
            Proto::ArcNet => 0x001A,
            Proto::Dsa => 0x001B,
            Proto::Trailer => 0x001C,
            Proto::Phonet => 0x00F5,
            Proto::IEEE802154 => 0x00F6,
            Proto::Caif => 0x00F7,
            Proto::XDsa => 0x00F8,
            Proto::QcMap => 0x00F9,
            Proto::Mctp => 0x00FA,
        }
    }

    /// The identifier a 16-bit protocol number stands for, for contracts.
    pub open spec fn spec_from_number(u: u16) -> Result<Proto, UnknownProtoError> {
        if u == 0 {
            Err(UnknownProtoError(u))
    } else if u == 0x0060 {
        Ok(Proto::Loop)
    } else if u == 0x0200 {
        Ok(Proto::Pup)
    } else if u == 0x0201 {
        Ok(Proto::PupAddrTrans)
    } else if u == 0x22F0 {
        Ok(Proto::Tsn)
    } else if u == 0x22EB {
        Ok(Proto::Erspan2)
    } else if u == 0x0800 {
        Ok(Proto::Ip)
    } else if u == 0x0805 {
        Ok(Proto::X25)
    } else if u == 0x0806 {
        Ok(Proto::Arp)
    } else if u == 0x08FF {
        Ok(Proto::Bpq)
    } else if u == 0x0A00 {
        Ok(Proto::IeeePup)
    } else if u == 0x0A01 {
        Ok(Proto::IeeePupAddrTrans)
    } else if u == 0x4305 {
        Ok(Proto::Batman)
    } else if u == 0x6000 {
        Ok(Proto::Dec)
    } else if u == 0x6001 {
        Ok(Proto::DNADumpLoad)
    } else if u == 0x6002 {
        Ok(Proto::DNARemoteControl)
    } else if u == 0x6003 {
        Ok(Proto::DNARouting)
    } else if u == 0x6004 {
        Ok(Proto::Lat)
    } else if u == 0x6005 {
        Ok(Proto::Diag)
    } else if u == 0x6006 {
        Ok(Proto::Cust)
    } else if u == 0x6007 {
        Ok(Proto::Sca)
    } else if u == 0x6558 {
        Ok(Proto::Teb)
    } else if u == 0x8035 {
        Ok(Proto::Rarp)
    } else if u == 0x809B {
        Ok(Proto::ATalk)
    } else if u == 0x80F3 {
        Ok(Proto::AArp)
    } else if u == 0x8100 {
        Ok(Proto::IEEE8021Q)
    } else if u == 0x88BE {
        Ok(Proto::Erspan)
    } else if u == 0x8137 {
        Ok(Proto::Ipx)
    } else if u == 0x86DD {
        Ok(Proto::IpV6)
    } else if u == 0x8808 {
        Ok(Proto::Pause)
    } else if u == 0x8809 {
        Ok(Proto::Slow)
    } else if u == 0x883E {
        Ok(Proto::Wccp)
    } else if u == 0x8847 {
        Ok(Proto::MplsUnicast)
    } else if u == 0x8848 {
        Ok(Proto::MplsMulticast)
    } else if u == 0x884C {
        Ok(Proto::AtmMpOa)
    } else if u == 0x8863 {
        Ok(Proto::PppDisc)
    } else if u == 0x8864 {
        Ok(Proto::PppSes)
    } else if u == 0x886C {
        Ok(Proto::LinkCtl)
    } else if u == 0x8884 {
        Ok(Proto::AtmFate)
    } else if u == 0x888E {
        Ok(Proto::Pae)
    } else if u == 0x8892 {
        Ok(Proto::Profinet)
    } else if u == 0x8899 {
        Ok(Proto::Realtek)
    } else if u == 0x88A2 {
        Ok(Proto::Aoe)
    } else if u == 0x88A4 {
        Ok(Proto::EtherCat)
    } else if u == 0x88A8 {
        Ok(Proto::_8021ad)
    } else if u == 0x88B5 {
        Ok(Proto::_802Ex1)
    } else if u == 0x88C7 {
        Ok(Proto::PreAuth)
    } else if u == 0x88CA {
        Ok(Proto::Tipc)
    } else if u == 0x88CC {
        Ok(Proto::Lldp)
    } else if u == 0x88E3 {
        Ok(Proto::Mrp)
    } else if u == 0x88E5 {
        Ok(Proto::MacSec)
    } else if u == 0x88E7 {
        Ok(Proto::_8021ah)
    } else if u == 0x88F5 {
        Ok(Proto::Mvrp)
    } else if u == 0x88F7 {
        Ok(Proto::_1588)
    } else if u == 0x88F8 {
        Ok(Proto::Ncsi)
    } else if u == 0x88FB {
        Ok(Proto::Prp)
    } else if u == 0x8902 {
        Ok(Proto::Cfm)
    } else if u == 0x8906 {
        Ok(Proto::FcoE)
    } else if u == 0x8915 {
        Ok(Proto::IboE)
    } else if u == 0x890D {
        Ok(Proto::Tdls)
    } else if u == 0x8914 {
        Ok(Proto::Fip)
    } else if u == 0x8917 {
        Ok(Proto::_80221)
    } else if u == 0x892F {
        Ok(Proto::Hsr)
    } else if u == 0x894F {
        Ok(Proto::Nsh)
    } else if u == 0x9000 {
        Ok(Proto::Loopback)
    } else if u == 0x9100 {
        Ok(Proto::QinQ1)
    } else if u == 0x9200 {
        Ok(Proto::QinQ2)
    } else if u == 0x9300 {
        Ok(Proto::QinQ3)
    } else if u == 0xDADA {
        Ok(Proto::Edsa)
    } else if u == 0xDADB {
        Ok(Proto::Dsa8021Q)
    } else if u == 0xE001 {
        Ok(Proto::DsaA5Psw)
    } else if u == 0xED3E {
        Ok(Proto::Ife)
    } else if u == 0xFBFB {
        Ok(Proto::AfIucv)
    } else if u == 0x0600 {
        Ok(Proto::Min8023)
    } else if u == 0x0001 {
        Ok(Proto::_8023)
    } else if u == 0x0002 {
        Ok(Proto::Ax25)
    } else if u == 0x0003 {
        Ok(Proto::All)
    } else if u == 0x0004 {
        Ok(Proto::_8022)
    } else if u == 0x0005 {
        Ok(Proto::Snap)
    } else if u == 0x0006 {
        Ok(Proto::DDcmp)
    } else if u == 0x0007 {
        Ok(Proto::WanPpp)
    } else if u == 0x0008 {
        Ok(Proto::PppMp)
    } else if u == 0x0009 {
        Ok(Proto::LocalTalk)
    } else if u == 0x000C {
        Ok(Proto::Can)
    } else if u == 0x000D {
        Ok(Proto::CanFd)
    } else if u == 0x000E {
        Ok(Proto::CanXl)
    } else if u == 0x0010 {
        Ok(Proto::PppTalk)
    } else if u == 0x0011 {
        Ok(Proto::Tr8022)
    } else if u == 0x0015 {
        Ok(Proto::Mobitex)
    } else if u == 0x0016 {
        Ok(Proto::Control)
    } else if u == 0x0017 {
        Ok(Proto::Irda)
    } else if u == 0x0018 {
        Ok(Proto::Econet)
    } else if u == 0x0019 {
        Ok(Proto::Hdlc)
    } else if u == 0x001A {
        Ok(Proto::ArcNet)
    } else if u == 0x001B {
        Ok(Proto::Dsa)
    } else if u == 0x001C {
        Ok(Proto::Trailer)
    } else if u == 0x00F5 {
        Ok(Proto::Phonet)
    } else if u == 0x00F6 {
        Ok(Proto::IEEE802154)
    } else if u == 0x00F7 {
        Ok(Proto::Caif)
    } else if u == 0x00F8 {
        Ok(Proto::XDsa)
    } else if u == 0x00F9 {
        Ok(Proto::QcMap)
    } else if u == 0x00FA {
        Ok(Proto::Mctp)
    } else {
            Err(UnknownProtoError(u))
        }
    }

    /// Looks the identifier of a 16-bit protocol number up; an unknown
    /// number is handed back inside the error.
    pub fn from_number(u: u16) -> (r: Result<Proto, UnknownProtoError>)
        ensures
            r == Proto::spec_from_number(u),
            r is Ok ==> r->Ok_0.spec_number() == u,
    {
        match u {
            0x0060 => Ok(Proto::Loop),
            0x0200 => Ok(Proto::Pup),
            0x0201 => Ok(Proto::PupAddrTrans),
            0x22F0 => Ok(Proto::Tsn),
            0x22EB => Ok(Proto::Erspan2),
            0x0800 => Ok(Proto::Ip),
            0x0805 => Ok(Proto::X25),
            0x0806 => Ok(Proto::Arp),
            0x08FF => Ok(Proto::Bpq),
            0x0A00 => Ok(Proto::IeeePup),
            0x0A01 => Ok(Proto::IeeePupAddrTrans),
            0x4305 => Ok(Proto::Batman),
            0x6000 => Ok(Proto::Dec),
            0x6001 => Ok(Proto::DNADumpLoad),
            0x6002 => Ok(Proto::DNARemoteControl),
            0x6003 => Ok(Proto::DNARouting),
            0x6004 => Ok(Proto::Lat),
            0x6005 => Ok(Proto::Diag),
            0x6006 => Ok(Proto::Cust),
            0x6007 => Ok(Proto::Sca),
            0x6558 => Ok(Proto::Teb),
            0x8035 => Ok(Proto::Rarp),
            0x809B => Ok(Proto::ATalk),
            0x80F3 => Ok(Proto::AArp),
            0x8100 => Ok(Proto::IEEE8021Q),
            0x88BE => Ok(Proto::Erspan),
            0x8137 => Ok(Proto::Ipx),
            0x86DD => Ok(Proto::IpV6),
            0x8808 => Ok(Proto::Pause),
            0x8809 => Ok(Proto::Slow),
            0x883E => Ok(Proto::Wccp),
            0x8847 => Ok(Proto::MplsUnicast),
            0x8848 => Ok(Proto::MplsMulticast),
            0x884C => Ok(Proto::AtmMpOa),
            0x8863 => Ok(Proto::PppDisc),
            0x8864 => Ok(Proto::PppSes),
            0x886C => Ok(Proto::LinkCtl),
            0x8884 => Ok(Proto::AtmFate),
            0x888E => Ok(Proto::Pae),
            0x8892 => Ok(Proto::Profinet),
            0x8899 => Ok(Proto::Realtek),
            0x88A2 => Ok(Proto::Aoe),
            0x88A4 => Ok(Proto::EtherCat),
            0x88A8 => Ok(Proto::_8021ad),
            0x88B5 => Ok(Proto::_802Ex1),
            0x88C7 => Ok(Proto::PreAuth),
            0x88CA => Ok(Proto::Tipc),
            0x88CC => Ok(Proto::Lldp),
            0x88E3 => Ok(Proto::Mrp),
            0x88E5 => Ok(Proto::MacSec),
            0x88E7 => Ok(Proto::_8021ah),
            0x88F5 => Ok(Proto::Mvrp),
            0x88F7 => Ok(Proto::_1588),
            0x88F8 => Ok(Proto::Ncsi),
            0x88FB => Ok(Proto::Prp),
            0x8902 => Ok(Proto::Cfm),
            0x8906 => Ok(Proto::FcoE),
            0x8915 => Ok(Proto::IboE),
            0x890D => Ok(Proto::Tdls),
            0x8914 => Ok(Proto::Fip),
            0x8917 => Ok(Proto::_80221),
            0x892F => Ok(Proto::Hsr),
            0x894F => Ok(Proto::Nsh),
            0x9000 => Ok(Proto::Loopback),
            0x9100 => Ok(Proto::QinQ1),
            0x9200 => Ok(Proto::QinQ2),
            0x9300 => Ok(Proto::QinQ3),
            0xDADA => Ok(Proto::Edsa),
            0xDADB => Ok(Proto::Dsa8021Q),
            0xE001 => Ok(Proto::DsaA5Psw),
            0xED3E => Ok(Proto::Ife),
            0xFBFB => Ok(Proto::AfIucv),
            0x0600 => Ok(Proto::Min8023),
            0x0001 => Ok(Proto::_8023),
            0x0002 => Ok(Proto::Ax25),
            0x0003 => Ok(Proto::All),
            0x0004 => Ok(Proto::_8022),
            0x0005 => Ok(Proto::Snap),
            0x0006 => Ok(Proto::DDcmp),
            0x0007 => Ok(Proto::WanPpp),
            0x0008 => Ok(Proto::PppMp),
            0x0009 => Ok(Proto::LocalTalk),
            0x000C => Ok(Proto::Can),
            0x000D => Ok(Proto::CanFd),
            0x000E => Ok(Proto::CanXl),
            0x0010 => Ok(Proto::PppTalk),
            0x0011 => Ok(Proto::Tr8022),
            0x0015 => Ok(Proto::Mobitex),
            0x0016 => Ok(Proto::Control),
            0x0017 => Ok(Proto::Irda),
            0x0018 => Ok(Proto::Econet),
            0x0019 => Ok(Proto::Hdlc),
            0x001A => Ok(Proto::ArcNet),
            0x001B => Ok(Proto::Dsa),
            0x001C => Ok(Proto::Trailer),
            0x00F5 => Ok(Proto::Phonet),
            0x00F6 => Ok(Proto::IEEE802154),
            0x00F7 => Ok(Proto::Caif),
            0x00F8 => Ok(Proto::XDsa),
            0x00F9 => Ok(Proto::QcMap),
            0x00FA => Ok(Proto::Mctp),
            _ => Err(UnknownProtoError(u)),
        }
    }
}

/// Looking a protocol identifier's own number up finds the identifier
/// again: the numbering is injective.
pub proof fn lemma_proto_number_round_trip(p: Proto)
    ensures
        Proto::spec_from_number(p.spec_number()) == Ok::<Proto, UnknownProtoError>(p),
{
}

/// An Ethernet address.
#[derive(Clone, Copy, PartialEq, Eq, Debug)]
pub struct Address(pub [u8; 6]);

impl Address {
    /// The unspecified Ethernet address, all zeroes.
    pub fn unspecified() -> (r: Self)
        ensures
            forall|i: int| 0 <= i < 6 ==> r.0[i] == 0x00u8,
    {
        Address([0x00; 6])
    }

    /// The broadcast Ethernet address, all ones.
    pub fn broadcast() -> (r: Self)
        ensures
            forall|i: int| 0 <= i < 6 ==> r.0[i] == 0xffu8,
    {
        Address([0xff; 6])
    }
}

/// The 16-bit protocol number in network byte order, as a little-endian
/// host holds it: the two bytes exchanged.
pub open spec fn spec_to_net(x: u16) -> u16 {
    ((((x & 0xff) * 0x100) as u16) | ((x / 0x100) as u16)) as u16
}

fn to_net(x: u16) -> (r: u16)
    ensures
        r == spec_to_net(x),
{
    proof {
        assert(((x & 0xff) << 8u16) == (x & 0xff) * 0x100) by (bit_vector);
        assert((x >> 8u16) == x / 0x100) by (bit_vector);
        assert((x & 0xff) * 0x100 <= 0xff00) by (bit_vector);
    }
    ((x & 0xff) << 8u16) | (x >> 8u16)
}

/// An Ethernet II protocol header.
#[derive(Clone, Copy, PartialEq, Eq, Debug)]
pub struct Header {
    /// Destination address.
    pub h_dest: [u8; 6],
    /// Source address.
    pub h_source: [u8; 6],
    /// Protocol number, kept in network byte order.
    pub h_proto: u16,
}

impl Header {
    /// Builds a new Ethernet header from all necessary information.
    ///
    /// The ethertype is converted into a network-endian 16-bit value.
    pub fn new(dst: Address, src: Address, proto: Proto) -> (r: Self)
        ensures
            r.h_dest == dst.0,
            r.h_source == src.0,
            r.h_proto == spec_to_net(proto.spec_number()),
    {
        Header { h_dest: dst.0, h_source: src.0, h_proto: to_net(proto.number()) }
    }

    /// The source address contained in the header.
    pub fn src_hwaddr(&self) -> (r: Address)
        ensures
            r.0 == self.h_source,
    {
        Address(self.h_source)
    }

    /// The destination address contained in the header.
    pub fn dst_hwaddr(&self) -> (r: Address)
        ensures
            r.0 == self.h_dest,
    {
        Address(self.h_dest)
    }

    /// The protocol number contained in the header, still in network byte
    /// order.
    pub fn proto_number(&self) -> (r: u16)
        ensures
            r == self.h_proto,
    {
        self.h_proto
    }
}

} // verus!
