use rfid_media_player::rfid_reader::usb::utils::{
    get_device, get_readable_endpoint, ConfigDescriptor, Device, DeviceDescriptor, Direction,
    EndPoint, EndpointDescriptor, Interface, InterfaceDescriptor, TransferType,
};
use rfid_media_player::rfid_reader::usb;
use rfid_media_player::rfid_reader::{Error, ProductId, VendorId};

fn endpoint(address: u8, direction: Direction, transfer_type: TransferType) -> EndpointDescriptor {
    EndpointDescriptor {
        address,
        direction,
        transfer_type,
    }
}

fn setting(
    interface_number: u8,
    setting_number: u8,
    endpoint_descriptors: Vec<EndpointDescriptor>,
) -> InterfaceDescriptor {
    InterfaceDescriptor {
        interface_number,
        setting_number,
        endpoint_descriptors,
    }
}

fn device(
    vendor_id: u16,
    product_id: u16,
    config_descriptors: Vec<Option<ConfigDescriptor>>,
) -> Device {
    Device {
        device_descriptor: Ok(DeviceDescriptor {
            vendor_id,
            product_id,
            num_configurations: config_descriptors.len() as u8,
        }),
        config_descriptors,
    }
}

/// A wireless adapter with one interrupt endpoint, and a card reader with
/// bulk endpoints only.
fn connected() -> Vec<Device> {
    vec![
        device(0x1d6b, 0x0002, vec![]),
        device(
            0x0cf3,
            0x3005,
            vec![Some(ConfigDescriptor {
                number: 1,
                interfaces: vec![Interface {
                    descriptors: vec![setting(
                        0,
                        0,
                        vec![
                            endpoint(129, Direction::In, TransferType::Interrupt),
                            endpoint(130, Direction::In, TransferType::Bulk),
                            endpoint(2, Direction::Out, TransferType::Bulk),
                        ],
                    )],
                }],
            })],
        ),
        device(
            0x058f,
            0xa004,
            vec![Some(ConfigDescriptor {
                number: 1,
                interfaces: vec![Interface {
                    descriptors: vec![setting(
                        0,
                        0,
                        vec![
                            endpoint(1, Direction::Out, TransferType::Bulk),
                            endpoint(0x83, Direction::In, TransferType::Interrupt),
                        ],
                    )],
                }],
            })],
        ),
    ]
}

#[test]
fn utils_test_get_device_not_found() {
    let devices = connected();
    let device = get_device(&devices, VendorId::from(0), ProductId::from(0));
    assert!(device.is_err());
    assert_eq!(
        Err(Error::DeviceNotFound(VendorId(0), ProductId(0))),
        device
    );
}

#[test]
fn utils_test_get_device() {
    let vendor_id = VendorId::from(0x0cf3);
    let product_id = ProductId::from(0x3005);

    let devices = connected();
    let device = get_device(&devices, vendor_id, product_id);

    assert!(device.is_ok());
    let (index, descriptor) = device.unwrap();
    assert_eq!(1, index);
    assert_eq!(Ok(descriptor), devices[1].device_descriptor);
}

#[test]
fn utils_test_get_readable_endpoint() {
    let devices = connected();

    let vendor_id = VendorId::from(0x0cf3);
    let product_id = ProductId::from(0x3005);
    let result = get_device(&devices, vendor_id, product_id);
    assert!(result.is_ok());
    let (index, device_descriptor) = result.unwrap();
    let endpoint = get_readable_endpoint(
        &devices[index],
        &device_descriptor,
        TransferType::Interrupt,
    );
    assert!(endpoint.is_ok());
    assert_eq!(
        EndPoint {
            config: 1,
            interface: 0,
            setting: 0,
            address: 129
        },
        endpoint.unwrap()
    );
}

#[test]
fn test_get_no_readable_endpoint() {
    let devices = connected();

    let vendor_id = VendorId::from(0x058f);
    let product_id = ProductId::from(0xa004);
    let result = get_device(&devices, vendor_id, product_id);
    assert!(result.is_ok());
    let (index, device_descriptor) = result.unwrap();
    let endpoint = get_readable_endpoint(&devices[index], &device_descriptor, TransferType::Bulk);
    assert_eq!(
        Err(Error::ReadableEndPointNotFound(vendor_id, product_id)),
        endpoint
    );
}

#[test]
fn test_endpoint() {
    let endpoint = EndPoint {
        config: 0,
        interface: 1,
        setting: 2,
        address: 3,
    };
    assert_eq!(0, endpoint.get_config());
    assert_eq!(1, endpoint.get_interface());
    assert_eq!(2, endpoint.get_setting());
    assert_eq!(3, endpoint.get_address());
}

#[test]
fn first_device_of_two_is_taken() {
    let mut devices = connected();
    devices.push(device(0x0cf3, 0x3005, vec![]));
    assert_eq!(
        1,
        get_device(&devices, VendorId(0x0cf3), ProductId(0x3005))
            .unwrap()
            .0
    );
    assert!(get_device(&devices, VendorId(0x0cf3), ProductId(0xa004)).is_err());
    assert!(get_device(&Vec::new(), VendorId(0x0cf3), ProductId(0x3005)).is_err());
}

#[test]
fn unreadable_device_descriptor_ends_the_search() {
    let mut devices = connected();
    devices.insert(
        2,
        Device {
            device_descriptor: Err(Error::Access),
            config_descriptors: vec![],
        },
    );
    // found before the device that cannot be asked
    assert!(get_device(&devices, VendorId(0x0cf3), ProductId(0x3005)).is_ok());
    // behind it
    assert_eq!(
        Err(Error::Access),
        get_device(&devices, VendorId(0x058f), ProductId(0xa004))
    );
    devices[2].device_descriptor = Err(Error::OtherUsbError("Input/Output Error".to_string()));
    assert_eq!(
        Err(Error::OtherUsbError("Input/Output Error".to_string())),
        get_device(&devices, VendorId(7), ProductId(7))
    );
}

#[test]
fn first_endpoint_in_order_of_enumeration() {
    let interrupt_in = |address| endpoint(address, Direction::In, TransferType::Interrupt);
    let config = |number, interfaces| Some(ConfigDescriptor { number, interfaces });
    let found = device(
        1,
        1,
        vec![
            None,
            config(5, vec![]),
            config(
                9,
                vec![
                    Interface {
                        descriptors: vec![],
                    },
                    Interface {
                        descriptors: vec![
                            setting(3, 0, vec![]),
                            setting(
                                3,
                                1,
                                vec![
                                    endpoint(0x81, Direction::In, TransferType::Bulk),
                                    endpoint(0x02, Direction::Out, TransferType::Interrupt),
                                    interrupt_in(0x84),
                                    interrupt_in(0x85),
                                ],
                            ),
                            setting(3, 2, vec![interrupt_in(0x86)]),
                        ],
                    },
                    Interface {
                        descriptors: vec![setting(4, 0, vec![interrupt_in(0x87)])],
                    },
                ],
            ),
            config(11, vec![Interface {
                descriptors: vec![setting(0, 0, vec![interrupt_in(0x88)])],
            }]),
        ],
    );
    let descriptor = *found.device_descriptor.as_ref().unwrap();
    assert_eq!(
        Ok(EndPoint {
            config: 9,
            interface: 3,
            setting: 1,
            address: 0x84
        }),
        get_readable_endpoint(&found, &descriptor, TransferType::Interrupt)
    );
    assert_eq!(
        Ok(EndPoint {
            config: 9,
            interface: 3,
            setting: 1,
            address: 0x81
        }),
        get_readable_endpoint(&found, &descriptor, TransferType::Bulk)
    );
    assert_eq!(
        Err(Error::ReadableEndPointNotFound(VendorId(1), ProductId(1))),
        get_readable_endpoint(&found, &descriptor, TransferType::Isochronous)
    );
    // only the configurations that the descriptor counts are searched
    let fewer = DeviceDescriptor {
        num_configurations: 2,
        ..descriptor
    };
    assert_eq!(
        Err(Error::ReadableEndPointNotFound(VendorId(1), ProductId(1))),
        get_readable_endpoint(&found, &fewer, TransferType::Interrupt)
    );
    let more = DeviceDescriptor {
        num_configurations: 200,
        ..descriptor
    };
    assert_eq!(
        Err(Error::ReadableEndPointNotFound(VendorId(1), ProductId(1))),
        get_readable_endpoint(&found, &more, TransferType::Control)
    );
    assert_eq!(Some(9), found.config_descriptor(2).map(|config| config.number));
    assert_eq!(None, found.config_descriptor(0));
    assert_eq!(None, found.config_descriptor(4));
}

#[test]
fn reader_is_found_with_its_endpoint() {
    let devices = connected();
    assert_eq!(
        Ok((
            1,
            EndPoint {
                config: 1,
                interface: 0,
                setting: 0,
                address: 129
            }
        )),
        usb::open(&devices, VendorId(0x0cf3), ProductId(0x3005))
    );
    assert_eq!(
        Ok((
            2,
            EndPoint {
                config: 1,
                interface: 0,
                setting: 0,
                address: 0x83
            }
        )),
        usb::open(&devices, VendorId(0x058f), ProductId(0xa004))
    );
    assert_eq!(
        Err(Error::ReadableEndPointNotFound(
            VendorId(0x1d6b),
            ProductId(2)
        )),
        usb::open(&devices, VendorId(0x1d6b), ProductId(2))
    );
    assert_eq!(
        Err(Error::DeviceNotFound(VendorId(1), ProductId(1))),
        usb::open(&devices, VendorId(1), ProductId(1))
    );
}
