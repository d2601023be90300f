use usbapi::descriptors::configuration::Configuration;
use usbapi::descriptors::descriptor::{Descriptor, DescriptorType};
use usbapi::descriptors::device::Device;
use usbapi::descriptors::endpoint::Endpoint;
use usbapi::descriptors::interface::Interface;
use usbapi::descriptors::join_le16;
use usbapi::error::UsbError;
use usbapi::UsbDevice;

fn device_bytes() -> Vec<u8> {
    vec![
        18, 1, 0x00, 0x02, 0xEF, 0x02, 0x01, 64, 0x83, 0x04, 0x40, 0x57, 0x00, 0x02, 1, 2, 3, 1,
    ]
}

fn configuration_bytes() -> Vec<u8> {
    vec![9, 2, 32, 0, 1, 1, 4, 0xC0, 50]
}

fn interface_bytes(number: u8) -> Vec<u8> {
    vec![9, 4, number, 0, 2, 0x0A, 0, 0, 5]
}

fn endpoint_bytes(address: u8) -> Vec<u8> {
    vec![7, 5, address, 2, 0x40, 0x00, 0]
}

#[test]
fn two_bytes_join_low_byte_first() {
    assert_eq!(join_le16(0x34, 0x12), 0x1234);
    assert_eq!(join_le16(0xFF, 0x00), 0x00FF);
    assert_eq!(join_le16(0x00, 0xFF), 0xFF00);
    assert_eq!(join_le16(0xFF, 0xFF), 0xFFFF);
}

#[test]
fn device_descriptor_fields() {
    let d = Device::new(&device_bytes()).unwrap();
    assert_eq!(d.length, 18);
    assert_eq!(d.kind, 1);
    assert_eq!(d.bcd_usb, 0x0200);
    assert_eq!(d.device_class, 0xEF);
    assert_eq!(d.device_sub_class, 2);
    assert_eq!(d.device_protocol, 1);
    assert_eq!(d.max_packet_size0, 64);
    assert_eq!(d.id_vendor, 0x0483);
    assert_eq!(d.id_product, 0x5740);
    assert_eq!(d.bcd_device, 0x0200);
    assert_eq!(d.imanufacturer, 1);
    assert_eq!(d.iproduct, 2);
    assert_eq!(d.iserial, 3);
    assert_eq!(d.num_configurations, 1);
    assert!(d.configurations.is_empty());
}

#[test]
fn device_descriptor_needs_eighteen_bytes() {
    let bytes = device_bytes();
    assert!(Device::new(&bytes[..17]).is_none());
    assert!(Device::new(&bytes[..3]).is_none());
    assert!(Device::new(&[]).is_none());
    let mut longer = device_bytes();
    longer.push(0xAA);
    assert_eq!(Device::new(&longer), Device::new(&bytes));
}

#[test]
fn configuration_descriptor_fields() {
    let c = Configuration::new(&[9, 2, 0x20, 0x01, 1, 1, 4, 0xC0, 50]).unwrap();
    assert_eq!(c.length, 9);
    assert_eq!(c.kind, 2);
    assert_eq!(c.total_length, 0x0120);
    assert_eq!(c.num_interfaces, 1);
    assert_eq!(c.configuration_value, 1);
    assert_eq!(c.iconfiguration, 4);
    assert_eq!(c.bmattributes, 0xC0);
    assert_eq!(c.max_power, 50);
    assert!(c.interfaces.is_empty());
    assert!(Configuration::new(&[9, 2, 0x20, 0x01, 1, 1, 4, 0xC0]).is_none());
}

#[test]
fn interface_descriptor_fields() {
    let i = Interface::new(&[9, 4, 1, 2, 3, 4, 5, 6, 7]).unwrap();
    assert_eq!(i.length, 9);
    assert_eq!(i.kind, 4);
    assert_eq!(i.interface_number, 1);
    assert_eq!(i.alternate_setting, 2);
    assert_eq!(i.num_endpoints, 3);
    assert_eq!(i.interface_class, 4);
    assert_eq!(i.interface_sub_class, 5);
    assert_eq!(i.interface_protocol, 6);
    assert_eq!(i.iinterface, 7);
    assert!(i.endpoints.is_empty());
    assert!(Interface::new(&[9, 4, 1, 2, 3, 4, 5, 6]).is_none());
}

#[test]
fn endpoint_descriptor_fields() {
    let e = Endpoint::new(&[7, 5, 0x81, 2, 0x00, 0x02, 9]).unwrap();
    assert_eq!(e.length, 7);
    assert_eq!(e.kind, 5);
    assert_eq!(e.endpoint_address, 0x81);
    assert_eq!(e.bm_attributes, 2);
    assert_eq!(e.max_packet_size, 512);
    assert_eq!(e.interval, 9);
    assert!(Endpoint::new(&[7, 5, 0x81, 2, 0x00, 0x02]).is_none());
}

#[test]
fn walk_takes_records_in_order() {
    let mut bytes = device_bytes();
    bytes.extend(configuration_bytes());
    bytes.extend(interface_bytes(0));
    bytes.extend(endpoint_bytes(0x81));
    let mut walk = Descriptor::from_bytes(bytes).unwrap();
    assert!(matches!(walk.next(), Some(DescriptorType::Device(_))));
    assert_eq!(walk.descriptor.len(), 25);
    assert!(matches!(walk.next(), Some(DescriptorType::Configuration(_))));
    assert!(matches!(walk.next(), Some(DescriptorType::Interface(_))));
    match walk.next() {
        Some(DescriptorType::Endpoint(e)) => assert_eq!(e.endpoint_address, 0x81),
        other => panic!("unexpected record {:?}", other),
    }
    assert!(walk.descriptor.is_empty());
    assert!(walk.next().is_none());
    assert!(walk.next().is_none());
}

#[test]
fn walk_hands_out_unknown_records_raw_and_ends() {
    let mut walk = Descriptor::from_bytes(vec![3, 0x24, 7, 9, 2, 32, 0, 1, 1, 4, 0xC0, 50]).unwrap();
    assert_eq!(walk.next(), Some(DescriptorType::Unknown(vec![3, 0x24, 7])));
    assert!(walk.descriptor.is_empty());
    assert!(walk.next().is_none());
}

#[test]
fn walk_ends_at_a_malformed_header() {
    let mut too_long = Descriptor::from_bytes(vec![10, 2, 0, 0]).unwrap();
    assert!(too_long.next().is_none());
    assert_eq!(too_long.descriptor, vec![10, 2, 0, 0]);

    let mut bare_header = Descriptor::from_bytes(vec![2, 4, 9, 9, 9, 9, 9, 9, 9, 9]).unwrap();
    assert!(bare_header.next().is_none());

    let mut one_byte = Descriptor::from_bytes(vec![1]).unwrap();
    assert!(one_byte.next().is_none());
    assert_eq!(one_byte.descriptor, vec![1]);

    let mut empty = Descriptor::from_bytes(vec![]).unwrap();
    assert!(empty.next().is_none());
}

#[test]
fn walk_ends_at_a_truncated_record() {
    let mut walk = Descriptor::from_bytes(vec![9, 4, 0, 0, 2, 0x0A, 0, 0]).unwrap();
    assert!(walk.next().is_none());
    assert_eq!(walk.descriptor.len(), 8);
    let mut device = Descriptor::from_bytes(device_bytes()[..17].to_vec()).unwrap();
    assert!(device.next().is_none());
}

#[test]
fn walk_ends_at_a_known_record_of_length_zero() {
    let mut bytes = vec![0, 5];
    bytes.extend(vec![0x81, 2, 0x40, 0, 0, 1, 1]);
    let mut walk = Descriptor::from_bytes(bytes.clone()).unwrap();
    assert!(walk.next().is_none());
    assert_eq!(walk.descriptor, bytes);
}

#[test]
fn walk_steps_by_the_stated_length() {
    let mut bytes = vec![1, 5, 0x81, 2, 0x40, 0, 0];
    bytes.extend(vec![9, 9]);
    let mut walk = Descriptor::from_bytes(bytes).unwrap();
    match walk.next() {
        Some(DescriptorType::Endpoint(e)) => {
            assert_eq!(e.length, 1);
            assert_eq!(e.endpoint_address, 0x81);
        }
        other => panic!("unexpected record {:?}", other),
    }
    assert_eq!(walk.descriptor, vec![5, 0x81, 2, 0x40, 0, 0, 9, 9]);
}

#[test]
fn walk_passes_over_string_records() {
    let mut walk = Descriptor::from_bytes(vec![4, 3, 0x09, 0x04, 7, 5, 1, 2, 8, 0, 0]).unwrap();
    assert_eq!(walk.next(), Some(DescriptorType::String(String::new())));
    assert_eq!(walk.descriptor.len(), 7);
    assert!(matches!(walk.next(), Some(DescriptorType::Endpoint(_))));
}

#[test]
fn tree_is_built_from_the_records() {
    let mut bytes = device_bytes();
    bytes.extend(configuration_bytes());
    bytes.extend(interface_bytes(0));
    bytes.extend(endpoint_bytes(0x81));
    bytes.extend(endpoint_bytes(0x01));
    bytes.extend(interface_bytes(1));
    bytes.extend(endpoint_bytes(0x82));
    bytes.extend(configuration_bytes());
    let device = UsbDevice::from_bytes(bytes).unwrap();
    assert_eq!(device.bus_num, 0);
    assert_eq!(device.dev_num, 0);
    assert_eq!(device.manufacturer, "");
    assert_eq!(device.product, "");
    assert_eq!(device.serial, "");
    assert_eq!(device.device.id_vendor, 0x0483);
    let configs = &device.device.configurations;
    assert_eq!(configs.len(), 2);
    assert_eq!(configs[0].interfaces.len(), 2);
    assert_eq!(configs[0].interfaces[0].interface_number, 0);
    assert_eq!(configs[0].interfaces[0].endpoints.len(), 2);
    assert_eq!(configs[0].interfaces[0].endpoints[0].endpoint_address, 0x81);
    assert_eq!(configs[0].interfaces[0].endpoints[1].endpoint_address, 0x01);
    assert_eq!(configs[0].interfaces[1].interface_number, 1);
    assert_eq!(configs[0].interfaces[1].endpoints.len(), 1);
    assert_eq!(configs[0].interfaces[1].endpoints[0].endpoint_address, 0x82);
    assert!(configs[1].interfaces.is_empty());
}

#[test]
fn tree_drops_records_that_have_no_place() {
    let mut bytes = device_bytes();
    bytes.extend(interface_bytes(0));
    bytes.extend(endpoint_bytes(0x81));
    bytes.extend(configuration_bytes());
    bytes.extend(endpoint_bytes(0x82));
    bytes.extend(vec![4, 3, 0x09, 0x04]);
    bytes.extend(device_bytes());
    bytes.extend(interface_bytes(3));
    let device = UsbDevice::from_bytes(bytes).unwrap();
    let configs = &device.device.configurations;
    assert_eq!(configs.len(), 1);
    assert_eq!(configs[0].interfaces.len(), 1);
    assert_eq!(configs[0].interfaces[0].interface_number, 3);
    assert!(configs[0].interfaces[0].endpoints.is_empty());
}

#[test]
fn tree_stops_at_an_unknown_record() {
    let mut bytes = device_bytes();
    bytes.extend(configuration_bytes());
    bytes.extend(vec![5, 0x24, 0, 0x10, 1]);
    bytes.extend(interface_bytes(0));
    let device = UsbDevice::from_bytes(bytes).unwrap();
    assert_eq!(device.device.configurations.len(), 1);
    assert!(device.device.configurations[0].interfaces.is_empty());
}

#[test]
fn tree_needs_a_device_record_first() {
    assert_eq!(UsbDevice::from_bytes(vec![]).unwrap_err(), UsbError::ParseError);
    assert_eq!(UsbDevice::from_bytes(configuration_bytes()).unwrap_err(), UsbError::ParseError);
    assert_eq!(UsbDevice::from_bytes(device_bytes()[..17].to_vec()).unwrap_err(), UsbError::ParseError);
    assert_eq!(UsbDevice::from_bytes(vec![3, 0x24, 7]).unwrap_err(), UsbError::ParseError);
    assert!(UsbDevice::from_bytes(device_bytes()).is_ok());
}

#[test]
fn device_record_from_parts() {
    let d = Device::new(&device_bytes()).unwrap();
    let device = UsbDevice::new(1, 2, d.clone(), "maker".to_string(), "thing".to_string(), "0001".to_string());
    assert_eq!(device.bus_num, 1);
    assert_eq!(device.dev_num, 2);
    assert_eq!(device.manufacturer, "maker");
    assert_eq!(device.product, "thing");
    assert_eq!(device.serial, "0001");
    assert_eq!(device.device, d);
}
