use vstd::prelude::*;

verus! {

/// A USB endpoint descriptor, with the multi-byte field already in host
/// byte order.
#[derive(Clone, Copy, Default, PartialEq, Eq, Structural, Debug)]
pub struct EndpointDescriptor {
    /// Size of the descriptor.
    pub b_length: u8,
    /// Descriptor type.
    pub b_descriptor_type: u8,
    /// Address of the endpoint on the USB device described by this
    /// descriptor: number in the low bits, direction in the top bit.
    pub b_endpoint_address: u8,
    /// Endpoint attributes under the chosen configuration: the transfer
    /// type sits in the two low bits.
    pub bm_attributes: u8,
    /// Maximum packet size of this endpoint, with the burst multiplier in
    /// bits 11 and 12.
    pub w_max_packet_size: u16,
    /// Interval for polling the endpoint for data transfers.
    pub b_interval: u8,
    /// Rate at which synchronization feedback is provided; only in audio
    /// endpoints.
    pub b_refresh: u8,
    /// Address of the synchronization endpoint; only in audio endpoints.
    pub b_synch_address: u8,
}

/// The endpoint's direction bit, 0x80 for IN and 0 for OUT.
pub open spec fn spec_ep_dir(ep: EndpointDescriptor) -> u8 {
    ep.b_endpoint_address & 0x80
}

/// The endpoint's transfer type: 0 control, 1 isochronous, 2 bulk,
/// 3 interrupt.
pub open spec fn spec_ep_xfer(ep: EndpointDescriptor) -> u8 {
    ep.bm_attributes & 0x03
}

impl EndpointDescriptor {
    /// Get the endpoint's number (`0..=15`).
    pub fn num(&self) -> (r: u8)
        ensures
            r == self.b_endpoint_address & 0x0f,
    {
        self.b_endpoint_address & 0x0f
    }

    /// Get the endpoint's transfer type.
    pub fn xfer_type(&self) -> (r: u8)
        ensures
            r == spec_ep_xfer(*self),
    {
        self.bm_attributes & 0x03
    }

    /// Check if the endpoint has IN direction.
    pub fn dir_in(&self) -> (r: bool)
        ensures
            r == (spec_ep_dir(*self) == 0x80),
    {
        (self.b_endpoint_address & 0x80) == 0x80
    }

    /// Check if the endpoint has OUT direction.
    pub fn dir_out(&self) -> (r: bool)
        ensures
            r == (spec_ep_dir(*self) == 0),
    {
        (self.b_endpoint_address & 0x80) == 0
    }

    /// Check if the endpoint has bulk transfer type.
    pub fn xfer_bulk(&self) -> (r: bool)
        ensures
            r == (spec_ep_xfer(*self) == 2),
    {
        (self.bm_attributes & 0x03) == 2
    }

    /// Check if the endpoint has control transfer type.
    pub fn xfer_control(&self) -> (r: bool)
        ensures
            r == (spec_ep_xfer(*self) == 0),
    {
        (self.bm_attributes & 0x03) == 0
    }

    /// Check if the endpoint has interrupt transfer type.
    pub fn xfer_int(&self) -> (r: bool)
        ensures
            r == (spec_ep_xfer(*self) == 3),
    {
        (self.bm_attributes & 0x03) == 3
    }

    /// Check if the endpoint has isochronous transfer type.
    pub fn xfer_isoc(&self) -> (r: bool)
        ensures
            r == (spec_ep_xfer(*self) == 1),
    {
        (self.bm_attributes & 0x03) == 1
    }

    /// Check if the endpoint is bulk IN.
    pub fn is_bulk_in(&self) -> (r: bool)
        ensures
            r == (spec_ep_dir(*self) == 0x80 && spec_ep_xfer(*self) == 2),
    {
        self.dir_in() && self.xfer_bulk()
    }

    /// Check if the endpoint is bulk OUT.
    pub fn is_bulk_out(&self) -> (r: bool)
        ensures
            r == (spec_ep_dir(*self) == 0 && spec_ep_xfer(*self) == 2),
    {
        self.dir_out() && self.xfer_bulk()
    }

    /// Check if the endpoint is interrupt IN.
    pub fn is_int_in(&self) -> (r: bool)
        ensures
            r == (spec_ep_dir(*self) == 0x80 && spec_ep_xfer(*self) == 3),
    {
        self.dir_in() && self.xfer_int()
    }

    /// Check if the endpoint is interrupt OUT.
    pub fn is_int_out(&self) -> (r: bool)
        ensures
            r == (spec_ep_dir(*self) == 0 && spec_ep_xfer(*self) == 3),
    {
        self.dir_out() && self.xfer_int()
    }

    /// Check if the endpoint is isochronous IN.
    pub fn is_isoc_in(&self) -> (r: bool)
        ensures
            r == (spec_ep_dir(*self) == 0x80 && spec_ep_xfer(*self) == 1),
    {
        self.dir_in() && self.xfer_isoc()
    }

    /// Check if the endpoint is isochronous OUT.
    pub fn is_isoc_out(&self) -> (r: bool)
        ensures
            r == (spec_ep_dir(*self) == 0 && spec_ep_xfer(*self) == 1),
    {
        self.dir_out() && self.xfer_isoc()
    }

    /// Get the endpoint's max packet size.
    pub fn maxp(&self) -> (r: u16)
        ensures
            r == self.w_max_packet_size & 0x07ff,
    {
        self.w_max_packet_size & 0x07ff
    }

    /// Get the endpoint's transactional opportunities.
    pub fn maxp_mult(&self) -> (r: u16)
        ensures
            r == (self.w_max_packet_size & 0x1800) >> 11u16,
    {
        (self.w_max_packet_size & 0x1800) >> 11u16
    }
}

/// A USB device descriptor, with the multi-byte fields already in host
/// byte order.
#[derive(Clone, Copy, Default, PartialEq, Eq, Structural, Debug)]
pub struct DeviceDescriptor {
    /// Size of the descriptor.
    pub b_length: u8,
    /// Descriptor type.
    pub b_descriptor_type: u8,
    /// USB specification release number in binary-coded decimal.
    pub bcd_usb: u16,
    /// Class of device.
    pub b_device_class: u8,
    /// Subclass of device.
    pub b_device_subclass: u8,
    /// Protocol of device.
    pub b_device_protocol: u8,
    /// Maximum packet size for endpoint zero (only 8, 16, 32, or 64 are
    /// valid).
    pub b_max_packet_size0: u8,
    /// USB vendor ID for a device.
    pub id_vendor: u16,
    /// Vendor-assigned product ID.
    pub id_product: u16,
    /// Device release number in binary-coded decimal.
    pub bcd_device: u16,
    /// Index of the string descriptor describing the manufacturer.
    pub i_manufacturer: u8,
    /// Index of the string descriptor describing the product.
    pub i_product: u8,
    /// Index of the string descriptor describing the device's serial
    /// number.
    pub i_serial_number: u8,
    /// Number of possible configurations.
    pub b_num_configurations: u8,
}

/// A USB interface descriptor.
#[derive(Clone, Copy, Default, PartialEq, Eq, Structural, Debug)]
pub struct InterfaceDescriptor {
    /// Size of the descriptor.
    pub b_length: u8,
    /// Descriptor type.
    pub b_descriptor_type: u8,
    /// Number of the interface.
    pub b_interface_number: u8,
    /// Alternate setting.
    pub b_alternate_setting: u8,
    /// Number of endpoints.
    pub b_num_endpoints: u8,
    /// Class of the interface.
    pub b_interface_class: u8,
    /// Subclass of the interface.
    pub b_interface_subclass: u8,
    /// Protocol of the interface.
    pub b_interface_protocol: u8,
    /// Index of the string descriptor.
    pub i_interface: u8,
}

/// A host-side view of one interface alternate setting: its descriptor
/// and the endpoint descriptors under it.
#[derive(Clone, Debug)]
pub struct HostInterface {
    /// Interface descriptor of the host interface.
    pub desc: InterfaceDescriptor,
    /// The endpoint descriptors of this alternate setting.
    pub endpoints: Vec<EndpointDescriptor>,
}

/// Whether an endpoint has the wanted direction bit and transfer type.
pub open spec fn spec_ep_matches(ep: EndpointDescriptor, dir: u8, xfer: u8) -> bool {
    spec_ep_dir(ep) == dir && spec_ep_xfer(ep) == xfer
}

impl HostInterface {
    /// The position of the first endpoint with the wanted direction and
    /// transfer type, if any.
    fn find_forward(&self, dir: u8, xfer: u8) -> (r: Option<usize>)
        ensures
            match r {
                Some(i) => 0 <= i < self.endpoints@.len() && spec_ep_matches(
                    self.endpoints@[i as int],
                    dir,
                    xfer,
                ) && forall|j: int|
                    0 <= j < i ==> !spec_ep_matches(self.endpoints@[j], dir, xfer),
                None => forall|j: int|
                    0 <= j < self.endpoints@.len() ==> !spec_ep_matches(
                        self.endpoints@[j],
                        dir,
                        xfer,
                    ),
            },
    {
        let n: usize = self.endpoints.len();
        let mut i: usize = 0;
        while i < n
            invariant
                n == self.endpoints@.len(),
                0 <= i <= n,
                forall|j: int| 0 <= j < i ==> !spec_ep_matches(self.endpoints@[j], dir, xfer),
            decreases n - i,
        {
            let ep = self.endpoints[i];
            if (ep.b_endpoint_address & 0x80) == dir && (ep.bm_attributes & 0x03) == xfer {
                return Some(i);
            }
            i = i + 1;
        }
        None
    }

    /// The position of the last endpoint with the wanted direction and
    /// transfer type, if any.
    fn find_backward(&self, dir: u8, xfer: u8) -> (r: Option<usize>)
        ensures
            match r {
                Some(i) => 0 <= i < self.endpoints@.len() && spec_ep_matches(
                    self.endpoints@[i as int],
                    dir,
                    xfer,
                ) && forall|j: int|
                    i < j < self.endpoints@.len() ==> !spec_ep_matches(
                        self.endpoints@[j],
                        dir,
                        xfer,
                    ),
                None => forall|j: int|
                    0 <= j < self.endpoints@.len() ==> !spec_ep_matches(
                        self.endpoints@[j],
                        dir,
                        xfer,
                    ),
            },
    {
        let n: usize = self.endpoints.len();
        let mut i: usize = n;
        while i > 0
            invariant
                n == self.endpoints@.len(),
                0 <= i <= n,
                forall|j: int| i <= j < n ==> !spec_ep_matches(self.endpoints@[j], dir, xfer),
            decreases i,
        {
            i = i - 1;
            let ep = self.endpoints[i];
            if (ep.b_endpoint_address & 0x80) == dir && (ep.bm_attributes & 0x03) == xfer {
                return Some(i);
            }
        }
        None
    }

    /// Finds the first bulk-in endpoint: hands it out through `bulk_in`,
    /// clearing it and failing exactly when the setting has none.
    pub fn find_bulk_in_endpoint(&self, bulk_in: &mut Option<EndpointDescriptor>) -> (r: Result<
        (),
        (),
    >)
        ensures
            spec_find_result(self.endpoints@, 0x80, 2, *final(bulk_in), r, false),
    {
        match self.find_forward(0x80, 2) {
            Some(i) => {
                *bulk_in = Some(self.endpoints[i]);
                Ok(())
            },
            None => {
                *bulk_in = None;
                Err(())
            },
        }
    }

    /// Finds the first bulk-out endpoint.
    pub fn find_bulk_out_endpoint(&self, bulk_out: &mut Option<EndpointDescriptor>) -> (r: Result<
        (),
        (),
    >)
        ensures
            spec_find_result(self.endpoints@, 0, 2, *final(bulk_out), r, false),
    {
        match self.find_forward(0, 2) {
            Some(i) => {
                *bulk_out = Some(self.endpoints[i]);
                Ok(())
            },
            None => {
                *bulk_out = None;
                Err(())
            },
        }
    }

    /// Finds the first interrupt-in endpoint.
    pub fn find_int_in_endpoint(&self, int_in: &mut Option<EndpointDescriptor>) -> (r: Result<
        (),
        (),
    >)
        ensures
            spec_find_result(self.endpoints@, 0x80, 3, *final(int_in), r, false),
    {
        match self.find_forward(0x80, 3) {
            Some(i) => {
                *int_in = Some(self.endpoints[i]);
                Ok(())
            },
            None => {
                *int_in = None;
                Err(())
            },
        }
    }

    /// Finds the first interrupt-out endpoint.
    pub fn find_int_out_endpoint(&self, int_out: &mut Option<EndpointDescriptor>) -> (r: Result<
        (),
        (),
    >)
        ensures
            spec_find_result(self.endpoints@, 0, 3, *final(int_out), r, false),
    {
        match self.find_forward(0, 3) {
            Some(i) => {
                *int_out = Some(self.endpoints[i]);
                Ok(())
            },
            None => {
                *int_out = None;
                Err(())
            },
        }
    }

    /// Finds the last bulk-in endpoint.
    pub fn find_last_bulk_in_endpoint(
        &self,
        bulk_in: &mut Option<EndpointDescriptor>,
    ) -> (r: Result<(), ()>)
        ensures
            spec_find_result(self.endpoints@, 0x80, 2, *final(bulk_in), r, true),
    {
        match self.find_backward(0x80, 2) {
            Some(i) => {
                *bulk_in = Some(self.endpoints[i]);
                Ok(())
            },
            None => {
                *bulk_in = None;
                Err(())
            },
        }
    }

    /// Finds the last bulk-out endpoint.
    pub fn find_last_bulk_out_endpoint(
        &self,
        bulk_out: &mut Option<EndpointDescriptor>,
    ) -> (r: Result<(), ()>)
        ensures
            spec_find_result(self.endpoints@, 0, 2, *final(bulk_out), r, true),
    {
        match self.find_backward(0, 2) {
            Some(i) => {
                *bulk_out = Some(self.endpoints[i]);
                Ok(())
            },
            None => {
                *bulk_out = None;
                Err(())
            },
        }
    }

    /// Finds the last interrupt-in endpoint.
    pub fn find_last_int_in_endpoint(
        &self,
        int_in: &mut Option<EndpointDescriptor>,
    ) -> (r: Result<(), ()>)
        ensures
            spec_find_result(self.endpoints@, 0x80, 3, *final(int_in), r, true),
    {
        match self.find_backward(0x80, 3) {
            Some(i) => {
                *int_in = Some(self.endpoints[i]);
                Ok(())
            },
            None => {
                *int_in = None;
                Err(())
            },
        }
    }

    /// Finds the last interrupt-out endpoint.
    pub fn find_last_int_out_endpoint(
        &self,
        int_out: &mut Option<EndpointDescriptor>,
    ) -> (r: Result<(), ()>)
        ensures
            spec_find_result(self.endpoints@, 0, 3, *final(int_out), r, true),
    {
        match self.find_backward(0, 3) {
            Some(i) => {
                *int_out = Some(self.endpoints[i]);
                Ok(())
            },
            None => {
                *int_out = None;
                Err(())
            },
        }
    }
}

/// What a search for one endpoint kind must deliver: the first (or, with
/// `last`, the final) endpoint with the wanted direction and transfer
/// type, and success exactly when one exists; otherwise the output slot is
/// cleared and the search fails.
pub open spec fn spec_find_result(
    eps: Seq<EndpointDescriptor>,
    dir: u8,
    xfer: u8,
    out: Option<EndpointDescriptor>,
    r: Result<(), ()>,
    last: bool,
) -> bool {
    if exists|i: int| 0 <= i < eps.len() && spec_ep_matches(eps[i], dir, xfer) {
        r is Ok && exists|i: int|
            0 <= i < eps.len() && spec_ep_matches(eps[i], dir, xfer) && out == Some(eps[i]) && (
            if last {
                forall|j: int| i < j < eps.len() ==> !spec_ep_matches(eps[j], dir, xfer)
            } else {
                forall|j: int| 0 <= j < i ==> !spec_ep_matches(eps[j], dir, xfer)
            })
    } else {
        r is Err && out is None
    }
}

} // verus!
