use tcp_cong::usb::{Device, DeviceId, USB_DEVICE_ID_MATCH_DEVICE, USB_DEVICE_ID_MATCH_INT_INFO};
use tcp_cong::usb_descriptors::{EndpointDescriptor, HostInterface, InterfaceDescriptor};

fn endpoint(address: u8, attributes: u8) -> EndpointDescriptor {
    EndpointDescriptor {
        b_length: 7,
        b_descriptor_type: 5,
        b_endpoint_address: address,
        bm_attributes: attributes,
        w_max_packet_size: 512,
        b_interval: 0,
        b_refresh: 0,
        b_synch_address: 0,
    }
}

fn interface_with(eps: Vec<EndpointDescriptor>) -> HostInterface {
    HostInterface { desc: InterfaceDescriptor::default(), endpoints: eps }
}

#[test]
fn device_id_builders_set_match_flags() {
    let id = DeviceId::new(0x1234, 0x5678);
    assert_eq!(id.match_flags, USB_DEVICE_ID_MATCH_DEVICE);
    assert_eq!(id.id_vendor, 0x1234);
    assert_eq!(id.id_product, 0x5678);
    assert_eq!(id.b_interface_class, 0);

    let id = DeviceId::with_version(1, 2, 3, 4);
    assert_eq!(id.match_flags, 0x000f);
    assert_eq!((id.bcd_device_lo, id.bcd_device_hi), (3, 4));

    let id = DeviceId::with_interface_class(1, 2, 9);
    assert_eq!(id.match_flags, 0x0083);
    assert_eq!(id.b_interface_class, 9);

    let id = DeviceId::with_interface_protocol(1, 2, 9);
    assert_eq!(id.match_flags, 0x0203);

    let id = DeviceId::with_interface_number(1, 2, 9);
    assert_eq!(id.match_flags, 0x0403);

    let id = DeviceId::with_info(10, 11, 12);
    assert_eq!(id.match_flags, 0x0070);
    assert_eq!((id.b_device_class, id.b_device_subclass, id.b_device_protocol), (10, 11, 12));

    let id = DeviceId::with_interface_info(10, 11, 12);
    assert_eq!(id.match_flags, USB_DEVICE_ID_MATCH_INT_INFO);

    let id = DeviceId::with_device_and_interface_info(1, 2, 10, 11, 12);
    assert_eq!(id.match_flags, 0x0383);

    let id = DeviceId::with_vendor_and_interface_info(1, 10, 11, 12);
    assert_eq!(id.match_flags, 0x0381);
    assert_eq!(id.id_product, 0);

    assert_eq!(DeviceId::default(), DeviceId { ..DeviceId::default() });
}

#[test]
fn pipes_pack_kind_device_and_endpoint() {
    let dev = Device { devnum: 5 };
    assert_eq!(dev.sndbulkpipe(2), 0xC0010500);
    assert_eq!(dev.rcvbulkpipe(2), 0xC0010580);
    assert_eq!(dev.sndctrlpipe(0), 0x80000500);
    assert_eq!(dev.rcvctrlpipe(0), 0x80000580);
    assert_eq!(dev.sndisocpipe(1), 0x00008500);
    assert_eq!(dev.rcvisocpipe(1), 0x00008580);
    assert_eq!(dev.sndintpipe(3), 0x40018500);
    assert_eq!(dev.rcvintpipe(3), 0x40018580);
}

#[test]
fn endpoint_descriptor_reads_fields() {
    // Bulk IN endpoint 2.
    let ep = endpoint(0x82, 0x02);
    assert_eq!(ep.num(), 2);
    assert_eq!(ep.xfer_type(), 2);
    assert!(ep.dir_in());
    assert!(!ep.dir_out());
    assert!(ep.xfer_bulk());
    assert!(!ep.xfer_control());
    assert!(!ep.xfer_int());
    assert!(!ep.xfer_isoc());
    assert!(ep.is_bulk_in());
    assert!(!ep.is_bulk_out());
    assert!(!ep.is_int_in());
    assert!(!ep.is_int_out());
    assert!(!ep.is_isoc_in());
    assert!(!ep.is_isoc_out());
    // A 1024-byte endpoint with two extra transactional opportunities.
    let mut ep = endpoint(0x01, 0x03);
    ep.w_max_packet_size = 0x1400;
    assert_eq!(ep.maxp(), 0x400);
    assert_eq!(ep.maxp_mult(), 2);
    assert!(ep.is_int_out());
}

#[test]
fn find_endpoints_first_and_last() {
    let hi = interface_with(vec![
        endpoint(0x81, 0x02),  // bulk in (first)
        endpoint(0x01, 0x02),  // bulk out
        endpoint(0x82, 0x02),  // bulk in (last)
        endpoint(0x83, 0x03),  // int in
    ]);
    let mut slot = None;
    assert_eq!(hi.find_bulk_in_endpoint(&mut slot), Ok(()));
    assert_eq!(slot.unwrap().b_endpoint_address, 0x81);
    assert_eq!(hi.find_last_bulk_in_endpoint(&mut slot), Ok(()));
    assert_eq!(slot.unwrap().b_endpoint_address, 0x82);
    assert_eq!(hi.find_bulk_out_endpoint(&mut slot), Ok(()));
    assert_eq!(slot.unwrap().b_endpoint_address, 0x01);
    assert_eq!(hi.find_last_bulk_out_endpoint(&mut slot), Ok(()));
    assert_eq!(slot.unwrap().b_endpoint_address, 0x01);
    assert_eq!(hi.find_int_in_endpoint(&mut slot), Ok(()));
    assert_eq!(slot.unwrap().b_endpoint_address, 0x83);
    assert_eq!(hi.find_last_int_in_endpoint(&mut slot), Ok(()));
    assert_eq!(slot.unwrap().b_endpoint_address, 0x83);
    // No interrupt OUT endpoint exists: the slot is cleared and the
    // search fails.
    let mut slot = Some(endpoint(0x81, 0x02));
    assert_eq!(hi.find_int_out_endpoint(&mut slot), Err(()));
    assert_eq!(slot, None);
    let mut slot = Some(endpoint(0x81, 0x02));
    assert_eq!(hi.find_last_int_out_endpoint(&mut slot), Err(()));
    assert_eq!(slot, None);
}
