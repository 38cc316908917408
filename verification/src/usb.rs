use vstd::prelude::*;

verus! {

/// Match on the vendor id.
pub const USB_DEVICE_ID_MATCH_VENDOR: u16 = 0x0001;

/// Match on the product id.
pub const USB_DEVICE_ID_MATCH_PRODUCT: u16 = 0x0002;

/// Match on the low end of the device release range.
pub const USB_DEVICE_ID_MATCH_DEV_LO: u16 = 0x0004;

/// Match on the high end of the device release range.
pub const USB_DEVICE_ID_MATCH_DEV_HI: u16 = 0x0008;

/// Match on the device class.
pub const USB_DEVICE_ID_MATCH_DEV_CLASS: u16 = 0x0010;

/// Match on the device subclass.
pub const USB_DEVICE_ID_MATCH_DEV_SUBCLASS: u16 = 0x0020;

/// Match on the device protocol.
pub const USB_DEVICE_ID_MATCH_DEV_PROTOCOL: u16 = 0x0040;

/// Match on the interface class.
pub const USB_DEVICE_ID_MATCH_INT_CLASS: u16 = 0x0080;

/// Match on the interface subclass.
pub const USB_DEVICE_ID_MATCH_INT_SUBCLASS: u16 = 0x0100;

/// Match on the interface protocol.
pub const USB_DEVICE_ID_MATCH_INT_PROTOCOL: u16 = 0x0200;

/// Match on the interface number.
pub const USB_DEVICE_ID_MATCH_INT_NUMBER: u16 = 0x0400;

/// Match on vendor and product id: 0x0003.
pub const USB_DEVICE_ID_MATCH_DEVICE: u16 = 0x0001 | 0x0002;

/// Match on the device release range: 0x000c.
pub const USB_DEVICE_ID_MATCH_DEV_RANGE: u16 = 0x0004 | 0x0008;

/// Match on vendor, product and release range: 0x000f.
pub const USB_DEVICE_ID_MATCH_DEVICE_AND_VERSION: u16 = 0x0003 | 0x000c;

/// Match on device class, subclass and protocol: 0x0070.
pub const USB_DEVICE_ID_MATCH_DEV_INFO: u16 = 0x0010 | 0x0020 | 0x0040;

/// Match on interface class, subclass and protocol: 0x0380.
pub const USB_DEVICE_ID_MATCH_INT_INFO: u16 = 0x0080 | 0x0100 | 0x0200;

/// Device table entry for table-driven USB drivers.
#[derive(Clone, Copy, Default, PartialEq, Eq, Structural, Debug)]
pub struct DeviceId {
    /// Mask used to match against new devices.
    pub match_flags: u16,
    /// USB vendor ID for a device.
    pub id_vendor: u16,
    /// Vendor-assigned product ID.
    pub id_product: u16,
    /// Low end of the range of vendor-assigned product version numbers.
    pub bcd_device_lo: u16,
    /// High end of the version number range.
    pub bcd_device_hi: u16,
    /// Class of device.
    pub b_device_class: u8,
    /// Subclass of device.
    pub b_device_subclass: u8,
    /// Protocol of device.
    pub b_device_protocol: u8,
    /// Class of interface.
    pub b_interface_class: u8,
    /// Subclass of interface.
    pub b_interface_subclass: u8,
    /// Protocol of interface.
    pub b_interface_protocol: u8,
    /// Number of interface.
    pub b_interface_number: u8,
}

impl DeviceId {
    /// The all-zero entry.
    pub open spec fn zero() -> DeviceId {
        DeviceId {
            match_flags: 0,
            id_vendor: 0,
            id_product: 0,
            bcd_device_lo: 0,
            bcd_device_hi: 0,
            b_device_class: 0,
            b_device_subclass: 0,
            b_device_protocol: 0,
            b_interface_class: 0,
            b_interface_subclass: 0,
            b_interface_protocol: 0,
            b_interface_number: 0,
        }
    }

    /// Constructor that sets every field to `0`.
    pub fn default() -> (r: Self)
        ensures
            r == DeviceId::zero(),
    {
        DeviceId {
            match_flags: 0,
            id_vendor: 0,
            id_product: 0,
            bcd_device_lo: 0,
            bcd_device_hi: 0,
            b_device_class: 0,
            b_device_subclass: 0,
            b_device_protocol: 0,
            b_interface_class: 0,
            b_interface_subclass: 0,
            b_interface_protocol: 0,
            b_interface_number: 0,
        }
    }

    /// An entry that matches one device by vendor and product id.
    pub fn new(id_vendor: u16, id_product: u16) -> (r: Self)
        ensures
            r == (DeviceId {
                match_flags: USB_DEVICE_ID_MATCH_DEVICE,
                id_vendor,
                id_product,
                ..DeviceId::zero()
            }),
    {
        DeviceId { match_flags: USB_DEVICE_ID_MATCH_DEVICE, id_vendor, id_product, ..DeviceId::default() }
    }

    /// An entry that matches one device in a release-number range.
    pub fn with_version(
        id_vendor: u16,
        id_product: u16,
        bcd_device_lo: u16,
        bcd_device_hi: u16,
    ) -> (r: Self)
        ensures
            r == (DeviceId {
                match_flags: USB_DEVICE_ID_MATCH_DEVICE_AND_VERSION,
                id_vendor,
                id_product,
                bcd_device_lo,
                bcd_device_hi,
                ..DeviceId::zero()
            }),
    {
        DeviceId {
            match_flags: USB_DEVICE_ID_MATCH_DEVICE_AND_VERSION,
            id_vendor,
            id_product,
            bcd_device_lo,
            bcd_device_hi,
            ..DeviceId::default()
        }
    }

    /// An entry that matches one device with an interface of one class.
    pub fn with_interface_class(id_vendor: u16, id_product: u16, b_interface_class: u8) -> (r: Self)
        ensures
            r == (DeviceId {
                match_flags: USB_DEVICE_ID_MATCH_DEVICE | USB_DEVICE_ID_MATCH_INT_CLASS,
                id_vendor,
                id_product,
                b_interface_class,
                ..DeviceId::zero()
            }),
    {
        DeviceId {
            match_flags: USB_DEVICE_ID_MATCH_DEVICE | USB_DEVICE_ID_MATCH_INT_CLASS,
            id_vendor,
            id_product,
            b_interface_class,
            ..DeviceId::default()
        }
    }

    /// An entry that matches one device with an interface of one protocol.
    pub fn with_interface_protocol(
        id_vendor: u16,
        id_product: u16,
        b_interface_protocol: u8,
    ) -> (r: Self)
        ensures
            r == (DeviceId {
                match_flags: USB_DEVICE_ID_MATCH_DEVICE | USB_DEVICE_ID_MATCH_INT_PROTOCOL,
                id_vendor,
                id_product,
                b_interface_protocol,
                ..DeviceId::zero()
            }),
    {
        DeviceId {
            match_flags: USB_DEVICE_ID_MATCH_DEVICE | USB_DEVICE_ID_MATCH_INT_PROTOCOL,
            id_vendor,
            id_product,
            b_interface_protocol,
            ..DeviceId::default()
        }
    }

    /// An entry that matches one device with a numbered interface.
    pub fn with_interface_number(
        id_vendor: u16,
        id_product: u16,
        b_interface_number: u8,
    ) -> (r: Self)
        ensures
            r == (DeviceId {
                match_flags: USB_DEVICE_ID_MATCH_DEVICE | USB_DEVICE_ID_MATCH_INT_NUMBER,
                id_vendor,
                id_product,
                b_interface_number,
                ..DeviceId::zero()
            }),
    {
        DeviceId {
            match_flags: USB_DEVICE_ID_MATCH_DEVICE | USB_DEVICE_ID_MATCH_INT_NUMBER,
            id_vendor,
            id_product,
            b_interface_number,
            ..DeviceId::default()
        }
    }

    /// An entry that matches a class of devices.
    pub fn with_info(b_device_class: u8, b_device_subclass: u8, b_device_protocol: u8) -> (r: Self)
        ensures
            r == (DeviceId {
                match_flags: USB_DEVICE_ID_MATCH_DEV_INFO,
                b_device_class,
                b_device_subclass,
                b_device_protocol,
                ..DeviceId::zero()
            }),
    {
        DeviceId {
            match_flags: USB_DEVICE_ID_MATCH_DEV_INFO,
            b_device_class,
            b_device_subclass,
            b_device_protocol,
            ..DeviceId::default()
        }
    }

    /// An entry that matches a class of interfaces.
    pub fn with_interface_info(
        b_interface_class: u8,
        b_interface_subclass: u8,
        b_interface_protocol: u8,
    ) -> (r: Self)
        ensures
            r == (DeviceId {
                match_flags: USB_DEVICE_ID_MATCH_INT_INFO,
                b_interface_class,
                b_interface_subclass,
                b_interface_protocol,
                ..DeviceId::zero()
            }),
    {
        DeviceId {
            match_flags: USB_DEVICE_ID_MATCH_INT_INFO,
            b_interface_class,
            b_interface_subclass,
            b_interface_protocol,
            ..DeviceId::default()
        }
    }

    /// An entry that matches one device carrying a class of interfaces.
    pub fn with_device_and_interface_info(
        id_vendor: u16,
        id_product: u16,
        b_interface_class: u8,
        b_interface_subclass: u8,
        b_interface_protocol: u8,
    ) -> (r: Self)
        ensures
            r == (DeviceId {
                match_flags: USB_DEVICE_ID_MATCH_INT_INFO | USB_DEVICE_ID_MATCH_DEVICE,
                id_vendor,
                id_product,
                b_interface_class,
                b_interface_subclass,
                b_interface_protocol,
                ..DeviceId::zero()
            }),
    {
        DeviceId {
            match_flags: USB_DEVICE_ID_MATCH_INT_INFO | USB_DEVICE_ID_MATCH_DEVICE,
            id_vendor,
            id_product,
            b_interface_class,
            b_interface_subclass,
            b_interface_protocol,
            ..DeviceId::default()
        }
    }

    /// An entry that matches a vendor's devices carrying a class of
    /// interfaces.
    pub fn with_vendor_and_interface_info(
        id_vendor: u16,
        b_interface_class: u8,
        b_interface_subclass: u8,
        b_interface_protocol: u8,
    ) -> (r: Self)
        ensures
            r == (DeviceId {
                match_flags: USB_DEVICE_ID_MATCH_INT_INFO | USB_DEVICE_ID_MATCH_VENDOR,
                id_vendor,
                b_interface_class,
                b_interface_subclass,
                b_interface_protocol,
                ..DeviceId::zero()
            }),
    {
        DeviceId {
            match_flags: USB_DEVICE_ID_MATCH_INT_INFO | USB_DEVICE_ID_MATCH_VENDOR,
            id_vendor,
            b_interface_class,
            b_interface_subclass,
            b_interface_protocol,
            ..DeviceId::default()
        }
    }
}

/// The values of one USB device that pipe handles are built from.
#[derive(Clone, Copy, PartialEq, Eq, Structural, Debug)]
pub struct Device {
    /// Address of the device on its bus.
    pub devnum: u32,
}

/// A pipe handle: the transfer kind in the top two bits, the direction
/// bit, the device number and the endpoint number, packed as the host
/// stack expects them.
pub open spec fn spec_pipe(kind: u32, devnum: u32, endpoint: u32, dir_in: bool) -> u32 {
    let base = (kind << 30u32) | ((devnum << 8u32) | (endpoint << 15u32));
    if dir_in {
        base | 0x80u32
    } else {
        base
    }
}

impl Device {
    fn create_pipe(&self, endpoint: u32) -> (r: u32)
        ensures
            r == ((self.devnum << 8u32) | (endpoint << 15u32)),
    {
        (self.devnum << 8u32) | (endpoint << 15u32)
    }

    /// Gets the send control pipe of an endpoint.
    pub fn sndctrlpipe(&self, endpoint: u32) -> (r: u32)
        ensures
            r == spec_pipe(2, self.devnum, endpoint, false),
    {
        (2u32 << 30u32) | self.create_pipe(endpoint)
    }

    /// Gets the receive control pipe of an endpoint.
    pub fn rcvctrlpipe(&self, endpoint: u32) -> (r: u32)
        ensures
            r == spec_pipe(2, self.devnum, endpoint, true),
    {
        (2u32 << 30u32) | self.create_pipe(endpoint) | 0x80
    }

    /// Gets the send isochronous pipe of an endpoint.
    pub fn sndisocpipe(&self, endpoint: u32) -> (r: u32)
        ensures
            r == spec_pipe(0, self.devnum, endpoint, false),
    {
        (0u32 << 30u32) | self.create_pipe(endpoint)
    }

    /// Gets the receive isochronous pipe of an endpoint.
    pub fn rcvisocpipe(&self, endpoint: u32) -> (r: u32)
        ensures
            r == spec_pipe(0, self.devnum, endpoint, true),
    {
        (0u32 << 30u32) | self.create_pipe(endpoint) | 0x80
    }

    /// Gets the send bulk pipe of an endpoint.
    pub fn sndbulkpipe(&self, endpoint: u32) -> (r: u32)
        ensures
            r == spec_pipe(3, self.devnum, endpoint, false),
    {
        (3u32 << 30u32) | self.create_pipe(endpoint)
    }

    /// Gets the receive bulk pipe of an endpoint.
    pub fn rcvbulkpipe(&self, endpoint: u32) -> (r: u32)
        ensures
            r == spec_pipe(3, self.devnum, endpoint, true),
    {
        (3u32 << 30u32) | self.create_pipe(endpoint) | 0x80
    }

    /// Gets the send interrupt pipe of an endpoint.
    pub fn sndintpipe(&self, endpoint: u32) -> (r: u32)
        ensures
            r == spec_pipe(1, self.devnum, endpoint, false),
    {
        (1u32 << 30u32) | self.create_pipe(endpoint)
    }

    /// Gets the receive interrupt pipe of an endpoint.
    pub fn rcvintpipe(&self, endpoint: u32) -> (r: u32)
        ensures
            r == spec_pipe(1, self.devnum, endpoint, true),
    {
        (1u32 << 30u32) | self.create_pipe(endpoint) | 0x80
    }
}

} // verus!
