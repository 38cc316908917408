use vstd::prelude::*;

verus! {

/// Holds a set of device feature bits to give to an interface via
/// [`NetDevice::set_features`] and its relatives.
#[derive(Clone, Copy, PartialEq, Eq, Structural, Debug)]
pub struct Features(pub u64);

impl Features {
    /// A feature set with no feature in it.
    pub fn empty() -> (r: Self)
        ensures
            r.0 == 0,
    {
        Features(0)
    }

    /// Adds the given feature bits to the set.
    pub fn insert(&mut self, flag: u64)
        ensures
            final(self).0 == old(self).0 | flag,
    {
        self.0 = self.0 | flag;
    }

    /// Removes the given feature bits from the set.
    pub fn remove(&mut self, flag: u64)
        ensures
            final(self).0 == old(self).0 & !flag,
    {
        self.0 = self.0 & !(flag);
    }
}

/// Interface flags, one bit each.
#[allow(non_camel_case_types)]
#[derive(Clone, Copy, PartialEq, Eq, Structural, Debug)]
pub enum Flag {
    /// Interface is up
    UP,
    /// Broadcast address valid
    BROADCAST,
    /// Turn on debugging
    DEBUG,
    /// Is a loopback net
    LOOPBACK,
    /// Interface is a point-to-point link
    POINTOPOINT,
    /// Avoid use of trailers
    NOTRAILERS,
    /// Interface is operationally up
    RUNNING,
    /// No address-resolution protocol
    NOARP,
    /// Receive all packets
    PROMISC,
    /// Receive all multicast packets
    ALLMULTI,
    /// Master of a load balancer
    MASTER,
    /// Slave of a load balancer
    SLAVE,
    /// Supports multicast
    MULTICAST,
    /// Can set media type
    PORTSEL,
    /// Auto media select is active
    AUTOMEDIA,
    /// Dial-up device with changing addresses
    DYNAMIC,
    /// Driver signals L1 up
    LOWER,
    /// Driver signals dormant
    DORMANT,
    /// Echo sent packets
    ECHO,
}

impl Flag {
    /// The flag's bit, for contracts.
    pub open spec fn spec_value(self) -> u32 {
        match self {
            Flag::UP => 0x1,
            Flag::BROADCAST => 0x2,
            Flag::DEBUG => 0x4,
            Flag::LOOPBACK => 0x8,
            Flag::POINTOPOINT => 0x10,
            Flag::NOTRAILERS => 0x20,
            Flag::RUNNING => 0x40,
            Flag::NOARP => 0x80,
            Flag::PROMISC => 0x100,
            Flag::ALLMULTI => 0x200,
            Flag::MASTER => 0x400,
            Flag::SLAVE => 0x800,
            Flag::MULTICAST => 0x1000,
            Flag::PORTSEL => 0x2000,
            Flag::AUTOMEDIA => 0x4000,
            Flag::DYNAMIC => 0x8000,
            Flag::LOWER => 0x10000,
            Flag::DORMANT => 0x20000,
            Flag::ECHO => 0x40000,
        }
    }

    /// The flag's bit.
    pub fn value(self) -> (r: u32)
        ensures
            r == self.spec_value(),
    {
        match self {
            Flag::UP => 0x1,
            Flag::BROADCAST => 0x2,
            Flag::DEBUG => 0x4,
            Flag::LOOPBACK => 0x8,
            Flag::POINTOPOINT => 0x10,
            Flag::NOTRAILERS => 0x20,
            Flag::RUNNING => 0x40,
            Flag::NOARP => 0x80,
            Flag::PROMISC => 0x100,
            Flag::ALLMULTI => 0x200,
            Flag::MASTER => 0x400,
            Flag::SLAVE => 0x800,
            Flag::MULTICAST => 0x1000,
            Flag::PORTSEL => 0x2000,
            Flag::AUTOMEDIA => 0x4000,
            Flag::DYNAMIC => 0x8000,
            Flag::LOWER => 0x10000,
            Flag::DORMANT => 0x20000,
            Flag::ECHO => 0x40000,
        }
    }
}

/// Private interface flags, one bit each.
#[allow(non_camel_case_types)]
#[derive(Clone, Copy, PartialEq, Eq, Structural, Debug)]
pub enum PrivFlag {
    /// 802.1Q VLAN device.
    IFF_802_1Q_VLAN,
    /// Ethernet bridging device.
    EBRIDGE,
    /// Bonding master or slave.
    BONDING,
    /// ISATAP interface (RFC4214).
    ISATAP,
    /// WAN HDLC device.
    WAN_HDLC,
    /// The transmit path may release the destination cache entry.
    XMIT_DST_RELEASE,
    /// Disallow bridging this ether dev.
    DONT_BRIDGE,
    /// Disable netpoll at run-time.
    DISABLE_NETPOLL,
    /// Device used as macvlan port.
    MACVLAN_PORT,
    /// Device used as bridge port.
    BRIDGE_PORT,
    /// Device used as Open vSwitch datapath port.
    OVS_DATAPATH,
    /// The interface supports sharing skbs on transmit.
    TX_SKB_SHARING,
    /// Supports unicast filtering.
    UNICAST_FLT,
    /// Device used as team port.
    TEAM_PORT,
    /// Device supports sending custom FCS.
    SUPP_NOFCS,
    /// Device supports hardware address change when it's running.
    LIVE_ADDR_CHANGE,
    /// Macvlan device.
    MACVLAN,
    /// Destination release that ignores underlying stacked devices.
    XMIT_DST_RELEASE_PERM,
    /// Device is an L3 master device.
    L3MDEV_MASTER,
    /// Device can run without qdisc attached.
    NO_QUEUE,
    /// Device is an Open vSwitch master.
    OPENVSWITCH,
    /// Device is enslaved to an L3 master device.
    L3MDEV_SLAVE,
    /// Device is a team device.
    TEAM,
    /// Device has had Rx flow indirection table configured.
    RXFH_CONFIGURED,
    /// The headroom value is controlled by an external entity.
    PHONY_HEADROOM,
    /// Device is a MACsec device.
    MACSEC,
    /// Device doesn't support the rx_handler hook.
    NO_RX_HANDLER,
    /// Device is a failover master device.
    FAILOVER,
    /// Device is lower dev of a failover master device.
    FAILOVER_SLAVE,
    /// Only invoke the rx handler of the L3 master device.
    L3MDEV_RX_HANDLER,
    /// Rename is allowed while the device is up and running.
    LIVE_RENAME_OK,
}

impl PrivFlag {
    /// The flag's bit, for contracts.
    pub open spec fn spec_value(self) -> u32 {
        match self {
            PrivFlag::IFF_802_1Q_VLAN => 0x1,
            PrivFlag::EBRIDGE => 0x2,
            PrivFlag::BONDING => 0x4,
            PrivFlag::ISATAP => 0x8,
            PrivFlag::WAN_HDLC => 0x10,
            PrivFlag::XMIT_DST_RELEASE => 0x20,
            PrivFlag::DONT_BRIDGE => 0x40,
            PrivFlag::DISABLE_NETPOLL => 0x80,
            PrivFlag::MACVLAN_PORT => 0x100,
            PrivFlag::BRIDGE_PORT => 0x200,
            PrivFlag::OVS_DATAPATH => 0x400,
            PrivFlag::TX_SKB_SHARING => 0x800,
            PrivFlag::UNICAST_FLT => 0x1000,
            PrivFlag::TEAM_PORT => 0x2000,
            PrivFlag::SUPP_NOFCS => 0x4000,
            PrivFlag::LIVE_ADDR_CHANGE => 0x8000,
            PrivFlag::MACVLAN => 0x10000,
            PrivFlag::XMIT_DST_RELEASE_PERM => 0x20000,
            PrivFlag::L3MDEV_MASTER => 0x40000,
            PrivFlag::NO_QUEUE => 0x80000,
            PrivFlag::OPENVSWITCH => 0x100000,
            PrivFlag::L3MDEV_SLAVE => 0x200000,
            PrivFlag::TEAM => 0x400000,
            PrivFlag::RXFH_CONFIGURED => 0x800000,
            PrivFlag::PHONY_HEADROOM => 0x1000000,
            PrivFlag::MACSEC => 0x2000000,
            PrivFlag::NO_RX_HANDLER => 0x4000000,
            PrivFlag::FAILOVER => 0x8000000,
            PrivFlag::FAILOVER_SLAVE => 0x10000000,
            PrivFlag::L3MDEV_RX_HANDLER => 0x20000000,
            PrivFlag::LIVE_RENAME_OK => 0x40000000,
        }
    }

    /// The flag's bit.
    pub fn value(self) -> (r: u32)
        ensures
            r == self.spec_value(),
    {
        match self {
            PrivFlag::IFF_802_1Q_VLAN => 0x1,
            PrivFlag::EBRIDGE => 0x2,
            PrivFlag::BONDING => 0x4,
            PrivFlag::ISATAP => 0x8,
            PrivFlag::WAN_HDLC => 0x10,
            PrivFlag::XMIT_DST_RELEASE => 0x20,
            PrivFlag::DONT_BRIDGE => 0x40,
            PrivFlag::DISABLE_NETPOLL => 0x80,
            PrivFlag::MACVLAN_PORT => 0x100,
            PrivFlag::BRIDGE_PORT => 0x200,
            PrivFlag::OVS_DATAPATH => 0x400,
            PrivFlag::TX_SKB_SHARING => 0x800,
            PrivFlag::UNICAST_FLT => 0x1000,
            PrivFlag::TEAM_PORT => 0x2000,
            PrivFlag::SUPP_NOFCS => 0x4000,
            PrivFlag::LIVE_ADDR_CHANGE => 0x8000,
            PrivFlag::MACVLAN => 0x10000,
            PrivFlag::XMIT_DST_RELEASE_PERM => 0x20000,
            PrivFlag::L3MDEV_MASTER => 0x40000,
            PrivFlag::NO_QUEUE => 0x80000,
            PrivFlag::OPENVSWITCH => 0x100000,
            PrivFlag::L3MDEV_SLAVE => 0x200000,
            PrivFlag::TEAM => 0x400000,
            PrivFlag::RXFH_CONFIGURED => 0x800000,
            PrivFlag::PHONY_HEADROOM => 0x1000000,
            PrivFlag::MACSEC => 0x2000000,
            PrivFlag::NO_RX_HANDLER => 0x4000000,
            PrivFlag::FAILOVER => 0x8000000,
            PrivFlag::FAILOVER_SLAVE => 0x10000000,
            PrivFlag::L3MDEV_RX_HANDLER => 0x20000000,
            PrivFlag::LIVE_RENAME_OK => 0x40000000,
        }
    }
}

/// Interface name assignment types (the sysfs `name_assign_type`
/// attribute).
#[derive(Clone, Copy, PartialEq, Eq, Structural, Debug)]
pub enum NetNameAssingType {
    /// Unknown network name assignment type.
    Unknown,
    /// The name is assigned by enumeration.
    Enum,
}

impl NetNameAssingType {
    /// The numeric value the stack uses for this assignment type.
    pub fn value(self) -> (r: u8)
        ensures
            r == (match self {
                NetNameAssingType::Unknown => 0u8,
                NetNameAssingType::Enum => 1u8,
            }),
    {
        match self {
            NetNameAssingType::Unknown => 0,
            NetNameAssingType::Enum => 1,
        }
    }
}

/// The mutable per-interface values a network device driver configures:
/// flag words, feature sets and the MTU bounds.
#[derive(Clone, Copy, PartialEq, Eq, Structural, Debug)]
pub struct NetDevice {
    /// Interface flags, a bitwise union of [`Flag`] bits.
    pub flags: u32,
    /// Private interface flags, a bitwise union of [`PrivFlag`] bits.
    pub priv_flags: u32,
    /// Currently active device features.
    pub features: u64,
    /// Features changeable by the user.
    pub hw_features: u64,
    /// Features valid inside encapsulations.
    pub hw_enc_features: u64,
    /// Smallest MTU the interface accepts.
    pub min_mtu: u32,
    /// Largest MTU the interface accepts.
    pub max_mtu: u32,
}

impl NetDevice {
    /// An interface with no flag set, no feature and unconstrained MTU.
    pub fn new() -> (r: NetDevice)
        ensures
            r == (NetDevice {
                flags: 0,
                priv_flags: 0,
                features: 0,
                hw_features: 0,
                hw_enc_features: 0,
                min_mtu: 0,
                max_mtu: 0,
            }),
    {
        NetDevice {
            flags: 0,
            priv_flags: 0,
            features: 0,
            hw_features: 0,
            hw_enc_features: 0,
            min_mtu: 0,
            max_mtu: 0,
        }
    }

    /// Adds a [`Flag`] flag to the device.
    pub fn add_flag(&mut self, flag: Flag)
        ensures
            *final(self) == (NetDevice { flags: old(self).flags | flag.spec_value(), ..*old(self) }),
    {
        self.flags = self.flags | flag.value();
    }

    /// Removes a [`Flag`] flag from the device.
    pub fn remove_flag(&mut self, flag: Flag)
        ensures
            *final(self) == (NetDevice { flags: old(self).flags & !flag.spec_value(), ..*old(self) }),
    {
        self.flags = self.flags & !(flag.value());
    }

    /// Adds a [`PrivFlag`] private flag to the device.
    pub fn add_private_flag(&mut self, flag: PrivFlag)
        ensures
            *final(self) == (NetDevice {
                priv_flags: old(self).priv_flags | flag.spec_value(),
                ..*old(self)
            }),
    {
        self.priv_flags = self.priv_flags | flag.value();
    }

    /// Removes a [`PrivFlag`] private flag from the device.
    pub fn remove_private_flag(&mut self, flag: PrivFlag)
        ensures
            *final(self) == (NetDevice {
                priv_flags: old(self).priv_flags & !flag.spec_value(),
                ..*old(self)
            }),
    {
        self.priv_flags = self.priv_flags & !(flag.value());
    }

    /// Sets the active [`Features`] set of the device.
    pub fn set_features(&mut self, features: Features)
        ensures
            *final(self) == (NetDevice { features: features.0, ..*old(self) }),
    {
        self.features = features.0;
    }

    /// Gets the active [`Features`] set of the device.
    pub fn get_features(&self) -> (r: Result<Features, ()>)
        ensures
            r == Ok::<Features, ()>(Features(self.features)),
    {
        Ok(Features(self.features))
    }

    /// Sets the user-changeable [`Features`] set of the device.
    pub fn set_hw_features(&mut self, features: Features)
        ensures
            *final(self) == (NetDevice { hw_features: features.0, ..*old(self) }),
    {
        self.hw_features = features.0;
    }

    /// Gets the user-changeable [`Features`] set of the device.
    pub fn get_hw_features(&self) -> (r: Result<Features, ()>)
        ensures
            r == Ok::<Features, ()>(Features(self.hw_features)),
    {
        Ok(Features(self.hw_features))
    }

    /// Sets the encapsulated-traffic [`Features`] set of the device.
    pub fn set_hw_enc_features(&mut self, features: Features)
        ensures
            *final(self) == (NetDevice { hw_enc_features: features.0, ..*old(self) }),
    {
        self.hw_enc_features = features.0;
    }

    /// Gets the encapsulated-traffic [`Features`] set of the device.
    pub fn get_hw_enc_features(&self) -> (r: Result<Features, ()>)
        ensures
            r == Ok::<Features, ()>(Features(self.hw_enc_features)),
    {
        Ok(Features(self.hw_enc_features))
    }

    /// Sets the bounds on the MTU of the device.
    pub fn set_mtu(&mut self, min: u32, max: u32)
        ensures
            *final(self) == (NetDevice { min_mtu: min, max_mtu: max, ..*old(self) }),
    {
        self.min_mtu = min;
        self.max_mtu = max;
    }
}

} // verus!
