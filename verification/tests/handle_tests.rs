use usbapi::endpoint::Endpoint;
use usbapi::error::UsbError;
use usbapi::os::linux::usbfs::{
    claim_plan, decode_descriptor_string, descriptor_units, device_node_path, CBulkTransfer, ClaimStep,
    ControlWait,
};
use usbapi::os::linux::usbfsurb::UsbFsUrb;
use usbapi::{BufferSlice, BulkTransfer, TimeoutMillis, TransferKind, UsbCore, UsbCoreDriver, UsbDevice};

const EAGAIN: i32 = 11;
const EPERM: i32 = 1;
const ENODEV: i32 = 19;

fn device_stream() -> Vec<u8> {
    let mut bytes = vec![18, 1, 0x00, 0x02, 0, 0, 0, 64, 0x83, 0x04, 0x40, 0x57, 0x00, 0x02, 1, 2, 3, 1];
    bytes.extend(vec![9, 2, 25, 0, 1, 1, 0, 0xC0, 50]);
    bytes.extend(vec![9, 4, 0, 0, 1, 0x0A, 0, 0, 0]);
    bytes.extend(vec![7, 5, 0x81, 2, 0x40, 0x00, 0]);
    bytes
}

#[test]
fn a_new_handle_is_idle() {
    let usb = UsbCore::from_bus_device(1, 2, Ok(())).unwrap();
    assert_eq!(usb.bus_dev(), (1, 2));
    assert!(!usb.read_only());
    assert!(usb.claims().is_empty());
    assert_eq!(usb.cached_capabilities(), None);
    assert_eq!(usb.staged_len(), 0);
    assert!(usb.descriptors().is_none());
    for ep in 0u8..=255 {
        assert!(!usb.in_flight(ep));
    }
    let read_only = UsbCore::from_bus_device_read_only(3, 4, Ok(())).unwrap();
    assert_eq!(read_only.bus_dev(), (3, 4));
    assert!(read_only.read_only());
    let mut device = UsbDevice::from_bytes(device_stream()).unwrap();
    device.bus_num = 5;
    device.dev_num = 6;
    let from_device = UsbCore::from_device(&device, Ok(())).unwrap();
    assert_eq!(from_device.bus_dev(), (5, 6));
    assert!(!from_device.read_only());
}

#[test]
fn node_path_has_three_digits_each() {
    assert_eq!(device_node_path(1, 2), b"/dev/bus/usb/001/002".to_vec());
    assert_eq!(device_node_path(0, 0), b"/dev/bus/usb/000/000".to_vec());
    assert_eq!(device_node_path(12, 255), b"/dev/bus/usb/012/255".to_vec());
    assert_eq!(device_node_path(100, 90), b"/dev/bus/usb/100/090".to_vec());
}

#[test]
fn capabilities_are_cached_once_known() {
    let mut usb = UsbCore::from_bus_device(1, 2, Ok(())).unwrap();
    assert_eq!(usb.capabilities(Err(ENODEV)), Err(UsbError::IoctlFailed(ENODEV)));
    assert_eq!(usb.cached_capabilities(), None);
    assert_eq!(usb.capabilities(Ok(0x7D)), Ok(0x7D));
    assert_eq!(usb.cached_capabilities(), Some(0x7D));
    assert_eq!(usb.capabilities(Ok(0x01)), Ok(0x7D));
    assert_eq!(usb.capabilities(Err(ENODEV)), Ok(0x7D));
    let mut zero = UsbCore::from_bus_device(1, 2, Ok(())).unwrap();
    assert_eq!(zero.capabilities(Ok(0)), Ok(0));
    assert_eq!(zero.cached_capabilities(), None);
    assert_eq!(zero.capabilities(Ok(5)), Ok(5));
}

#[test]
fn claim_on_a_read_only_handle_fails_as_the_kernel_says() {
    let mut usb = UsbCore::from_bus_device_read_only(1, 2, Ok(())).unwrap();
    assert_eq!(usb.capabilities(Ok(0x1FF)), Ok(0x1FF));
    assert_eq!(usb.claim_interface(0, Err(EPERM)), Err(UsbError::IoctlFailed(EPERM)));
    assert!(usb.claims().is_empty());
    assert!(!usb.is_claimed(0));
}

#[test]
fn claims_are_kept_once_each() {
    let mut usb = UsbCore::from_bus_device(1, 2, Ok(())).unwrap();
    assert_eq!(usb.claim_interface(1, Ok(())), Ok(()));
    assert_eq!(usb.claim_interface(2, Ok(())), Ok(()));
    assert_eq!(usb.claim_interface(1, Ok(())), Ok(()));
    assert_eq!(usb.claim_interface(3, Ok(())), Ok(()));
    assert_eq!(usb.claim_interface(4, Err(16)), Err(UsbError::IoctlFailed(16)));
    assert_eq!(usb.claims(), &[1, 2, 3][..]);
    assert!(usb.is_claimed(2));
    assert!(!usb.is_claimed(4));
}

#[test]
fn closing_releases_every_claim() {
    let mut usb = UsbCore::from_bus_device(1, 2, Ok(())).unwrap();
    usb.claim_interface(1, Ok(())).unwrap();
    usb.claim_interface(2, Ok(())).unwrap();
    usb.claim_interface(3, Ok(())).unwrap();
    assert_eq!(usb.release_claims(), vec![1, 2, 3]);
    assert!(usb.claims().is_empty());
    assert!(!usb.is_claimed(1));
    assert_eq!(usb.release_claims(), Vec::<u32>::new());
}

#[test]
fn claim_plan_follows_the_bound_driver() {
    assert_eq!(claim_plan(None), ClaimStep::Claim);
    let mut name = [0u8; 256];
    name[..5].copy_from_slice(b"usbfs");
    assert_eq!(claim_plan(Some(&name)), ClaimStep::Claim);
    assert_eq!(claim_plan(Some(b"usbfs")), ClaimStep::Claim);
    assert_eq!(claim_plan(Some(b"usbfs\0junk")), ClaimStep::Claim);
    let mut other = [0u8; 256];
    other[..7].copy_from_slice(b"cdc_acm");
    assert_eq!(claim_plan(Some(&other)), ClaimStep::DisconnectThenClaim);
    assert_eq!(claim_plan(Some(b"usbfs2\0")), ClaimStep::DisconnectThenClaim);
    assert_eq!(claim_plan(Some(b"usbf\0")), ClaimStep::DisconnectThenClaim);
    assert_eq!(claim_plan(Some(b"usbhs\0")), ClaimStep::DisconnectThenClaim);
    assert_eq!(claim_plan(Some(&[0u8; 256])), ClaimStep::DisconnectThenClaim);
    assert_eq!(claim_plan(Some(b"")), ClaimStep::DisconnectThenClaim);
}

#[test]
fn clear_halt_drops_the_direction_bit() {
    let usb = UsbCore::from_bus_device(1, 2, Ok(())).unwrap();
    assert_eq!(usb.clear_halt(0x81), 1);
    assert_eq!(usb.clear_halt(0x02), 2);
    assert_eq!(usb.clear_halt(0xFF), 0x7F);
    assert_eq!(usb.clear_halt(0x80), 0);
}

#[test]
fn blocking_bulk_requests() {
    let usb = UsbCore::from_bus_device(1, 2, Ok(())).unwrap();
    let mem = [0u8; 64];
    assert_eq!(
        usb.bulk_read(1, &mem, TimeoutMillis::from(1u32)),
        CBulkTransfer { ep: 0x81, length: 64, timeout_ms: 1 }
    );
    assert_eq!(
        usb.bulk_read(0x25, &mem[..3], TimeoutMillis::from(250u32)),
        CBulkTransfer { ep: 0x85, length: 3, timeout_ms: 250 }
    );
    assert_eq!(
        usb.bulk_write(1, b"$", 1.into()),
        CBulkTransfer { ep: 1, length: 1, timeout_ms: 1 }
    );
    assert_eq!(
        usb.bulk_write(0x92, b"", TimeoutMillis::from(7u32)),
        CBulkTransfer { ep: 0x12, length: 0, timeout_ms: 7 }
    );
    assert_eq!(UsbCore::bulk(Ok(17)), Ok(17));
    assert_eq!(UsbCore::bulk(Ok(0)), Ok(0));
    assert_eq!(UsbCore::bulk(Err(110)), Err(UsbError::IoctlFailed(110)));
    assert_eq!(UsbCore::bulk(Err(EAGAIN)), Err(UsbError::WouldBlock));
}

#[test]
fn bulk_out_submit_and_reap() {
    let mut usb = UsbCore::from_bus_device(1, 2, Ok(())).unwrap();
    let mut t = usb.new_bulk_out(1, 64).unwrap();
    t.write_all("$".as_bytes()).unwrap();
    let mut urb = usb.submit_bulk(t).unwrap();
    assert!(usb.in_flight(0x01));
    assert_eq!(urb.buffer_length(), 1);
    assert_eq!(usb.async_response(Err(EAGAIN)).unwrap_err(), UsbError::WouldBlock);
    assert!(usb.in_flight(0x01));
    urb.complete(0, 1);
    match usb.async_response(Ok(urb)).unwrap() {
        TransferKind::Bulk(bulk) => {
            assert_eq!(bulk.status(), 0);
            assert_eq!(bulk.actual_length(), 1);
            assert!(bulk.endpoint().is_bulk_out());
            assert_eq!(bulk.endpoint(), Endpoint::new(1));
            assert_eq!(bulk.buffer_from_raw(), b"$");
        }
        other => panic!("unexpected completion {:?}", other),
    }
    assert!(!usb.in_flight(0x01));
}

#[test]
fn one_transfer_in_flight_per_endpoint() {
    let mut usb = UsbCore::from_bus_device(1, 2, Ok(())).unwrap();
    let first = usb.new_bulk_in(0x81, 64).unwrap();
    let mut urb = usb.submit_bulk(first).unwrap();
    assert_eq!(urb.endpoint(), 0x81);
    let second = usb.new_bulk_in(0x81, 64).unwrap();
    assert_eq!(usb.submit_bulk(second).unwrap_err(), UsbError::AlreadyExists);
    assert!(usb.in_flight(0x81));
    assert!(!usb.in_flight(0x01));
    assert_eq!(usb.staged_len(), 0);
    let other = usb.new_bulk_out(1, 8).unwrap();
    assert!(usb.submit_bulk(other).is_ok());
    urb.complete(0, 10);
    assert!(matches!(usb.async_response(Ok(urb)), Ok(TransferKind::Bulk(_))));
    assert!(!usb.in_flight(0x81));
    let second = usb.new_bulk_in(0x81, 64).unwrap();
    assert!(usb.submit_bulk(second).is_ok());
    assert!(usb.in_flight(0x81));
}

#[test]
fn a_dirty_transfer_is_refused() {
    let mut usb = UsbCore::from_bus_device(1, 2, Ok(())).unwrap();
    let t = usb.new_bulk_in(1, 8).unwrap();
    let mut urb = usb.submit_bulk(t).unwrap();
    urb.complete(0, 3);
    let mut t = match usb.async_response(Ok(urb)).unwrap() {
        TransferKind::Bulk(t) => t,
        other => panic!("unexpected completion {:?}", other),
    };
    let another = usb.new_bulk_in(1, 8).unwrap();
    let pending = usb.submit_bulk(another).unwrap();
    let mut dirty = BulkTransfer::input(1, vec![0; 8]);
    std::mem::swap(&mut dirty, &mut t);
    assert_eq!(usb.submit_bulk(dirty).unwrap_err(), UsbError::InvalidInput);
    assert!(usb.in_flight(0x81));
    assert_eq!(usb.submit_failed(pending, ENODEV), UsbError::IoctlFailed(ENODEV));
    assert!(!usb.in_flight(0x81));

    let c = usb.new_control_in(0x80, 6, 0x0100, 0, 18).unwrap();
    let mut urb = usb.submit_control(c).unwrap();
    urb.complete(0, 18);
    let c = match usb.async_response(Ok(urb)).unwrap() {
        TransferKind::Control(c) => c,
        other => panic!("unexpected completion {:?}", other),
    };
    assert_eq!(usb.submit_control(c).unwrap_err(), UsbError::InvalidInput);
    assert!(!usb.in_flight(0));
}

#[test]
fn control_endpoint_takes_one_at_a_time() {
    let mut usb = UsbCore::from_bus_device(1, 2, Ok(())).unwrap();
    let a = usb.new_control_nodata(0x21, 0x22, 3, 0).unwrap();
    let b = usb.new_control_nodata(0x21, 0x22, 3, 0).unwrap();
    let urb = usb.submit_control(a).unwrap();
    assert!(usb.in_flight(0));
    assert_eq!(usb.submit_control(b).unwrap_err(), UsbError::AlreadyExists);
    assert!(matches!(usb.async_response(Ok(urb)), Ok(TransferKind::Control(_))));
    let b = usb.new_control_nodata(0x21, 0x22, 3, 0).unwrap();
    assert!(usb.submit_control(b).is_ok());
}

#[test]
fn reaping_nothing_changes_nothing() {
    let mut usb = UsbCore::from_bus_device(1, 2, Ok(())).unwrap();
    let t = usb.new_bulk_in(1, 8).unwrap();
    let _urb = usb.submit_bulk(t).unwrap();
    for _ in 0..3 {
        assert_eq!(usb.async_response(Err(EAGAIN)).unwrap_err(), UsbError::WouldBlock);
        assert!(usb.in_flight(0x81));
        assert_eq!(usb.staged_len(), 0);
    }
    assert_eq!(usb.async_response(Err(ENODEV)).unwrap_err(), UsbError::IoctlFailed(ENODEV));
    assert!(usb.in_flight(0x81));
    assert_eq!(usb.async_response_all(vec![Err(EAGAIN)]), Ok(0));
    assert_eq!(usb.async_response_all(vec![]), Ok(0));
    assert!(usb.collect_responses().is_empty());
}

#[test]
fn unowned_completions_are_reported_as_invalid() {
    let mut usb = UsbCore::from_bus_device(1, 2, Ok(())).unwrap();
    let stray = UsbFsUrb::new(1, Endpoint::new(0x83), 8, None);
    match usb.async_response(Ok(stray)).unwrap() {
        TransferKind::Invalid(ep) => assert_eq!(ep, Endpoint::new(0x83)),
        other => panic!("unexpected completion {:?}", other),
    }
    let odd = UsbFsUrb::new(0, Endpoint::new(0x80), 8, None);
    assert!(matches!(usb.async_response(Ok(odd)), Ok(TransferKind::Invalid(_))));
    let mut broken = UsbFsUrb::from(BulkTransfer::input(1, vec![0; 8]));
    broken.complete(0, 9);
    match usb.async_response(Ok(broken)).unwrap() {
        TransferKind::Invalid(ep) => assert_eq!(ep.address(), 0x81),
        other => panic!("unexpected completion {:?}", other),
    }
}

#[test]
fn completions_are_staged_and_collected_in_order() {
    let mut usb = UsbCore::from_bus_device(1, 2, Ok(())).unwrap();
    let a = usb.new_bulk_in(1, 8).unwrap();
    let b = usb.new_bulk_out(2, 8).unwrap();
    let c = usb.new_control_nodata(0x21, 0x22, 3, 0).unwrap();
    let mut urb_a = usb.submit_bulk(a).unwrap();
    let mut urb_b = usb.submit_bulk(b).unwrap();
    let urb_c = usb.submit_control(c).unwrap();
    urb_a.complete(0, 4);
    urb_b.complete(-32, 0);
    let never = UsbFsUrb::from(BulkTransfer::input(5, vec![0; 8]));
    assert_eq!(usb.async_response_all(vec![Ok(urb_b), Ok(urb_c), Err(EAGAIN), Ok(never)]), Ok(2));
    assert_eq!(usb.staged_len(), 2);
    assert!(usb.in_flight(0x81));
    assert!(!usb.in_flight(0x02));
    assert!(!usb.in_flight(0));
    assert_eq!(usb.async_response_all(vec![Ok(urb_a), Err(ENODEV)]), Err(UsbError::IoctlFailed(ENODEV)));
    assert_eq!(usb.staged_len(), 3);
    let out = usb.collect_responses();
    assert_eq!(out.len(), 3);
    match &out[0] {
        TransferKind::Bulk(t) => {
            assert_eq!(t.endpoint().address(), 0x02);
            assert_eq!(t.status(), -32);
        }
        other => panic!("unexpected completion {:?}", other),
    }
    assert!(matches!(&out[1], TransferKind::Control(_)));
    match &out[2] {
        TransferKind::Bulk(t) => {
            assert_eq!(t.endpoint().address(), 0x81);
            assert_eq!(t.actual_length(), 4);
        }
        other => panic!("unexpected completion {:?}", other),
    }
    assert_eq!(usb.staged_len(), 0);
    assert!(usb.collect_responses().is_empty());
    let more = usb.new_bulk_in(1, 8).unwrap();
    let urb = usb.submit_bulk(more).unwrap();
    assert_eq!(usb.async_response_all(vec![Ok(urb)]), Ok(1));
}

#[test]
fn control_wait_steps() {
    let mut usb = UsbCore::from_bus_device(1, 2, Ok(())).unwrap();
    let bulk = usb.new_bulk_in(1, 8).unwrap();
    let mut bulk_urb = usb.submit_bulk(bulk).unwrap();
    let ctrl = usb.new_control_in(0x80, 6, 0x0100, 0, 18).unwrap();
    let mut ctrl_urb = usb.submit_control(ctrl).unwrap();

    assert!(matches!(usb.control_async_wait(Err(EAGAIN)), ControlWait::Retry { sleep: true }));
    assert_eq!(usb.staged_len(), 0);

    bulk_urb.complete(0, 2);
    assert!(matches!(usb.control_async_wait(Ok(bulk_urb)), ControlWait::Retry { sleep: false }));
    assert_eq!(usb.staged_len(), 1);
    assert!(!usb.in_flight(0x81));
    assert!(usb.in_flight(0));

    ctrl_urb.complete(0, 18);
    match usb.control_async_wait(Ok(ctrl_urb)) {
        ControlWait::Done(c) => assert_eq!(c.actual_length(), 18),
        other => panic!("unexpected step {:?}", other),
    }
    assert!(!usb.in_flight(0));
    assert_eq!(usb.staged_len(), 1);
    assert!(matches!(usb.control_async_wait(Err(ENODEV)), ControlWait::Failed(UsbError::IoctlFailed(19))));
    let stray = UsbFsUrb::new(1, Endpoint::new(0x83), 8, None);
    assert!(matches!(usb.control_async_wait(Ok(stray)), ControlWait::Retry { sleep: false }));
    assert_eq!(usb.staged_len(), 2);
}

#[test]
fn control_wait_times_out_on_a_silent_endpoint() {
    let mut usb = UsbCore::from_bus_device(1, 2, Ok(())).unwrap();
    let ctrl = usb.new_control_nodata(0x21, 0x22, 3, 0).unwrap();
    let _urb = usb.submit_control(ctrl).unwrap();
    let timeout = TimeoutMillis::from(10u32);
    let mut elapsed: u128 = 0;
    let mut rounds = 0;
    let outcome = loop {
        match usb.control_async_wait(Err(EAGAIN)) {
            ControlWait::Retry { sleep } => {
                if sleep {
                    elapsed += 1_000_000;
                }
            }
            ControlWait::Done(_) => break Ok(()),
            ControlWait::Failed(e) => break Err(e),
        }
        rounds += 1;
        if timeout.expired(elapsed) {
            break Err(UsbError::TimedOut);
        }
    };
    assert_eq!(outcome, Err(UsbError::TimedOut));
    assert_eq!(rounds, 10);
    assert_eq!(elapsed, 10_000_000);
    assert!(usb.in_flight(0));
}

#[test]
fn string_request_layout() {
    let mut usb = UsbCore::from_bus_device(1, 2, Ok(())).unwrap();
    let t = usb.get_descriptor_string_iface(0x0409, 2).unwrap();
    assert_eq!(&t.buffer()[..8], &[0x80, 0x06, 0x02, 0x03, 0x09, 0x04, 0x00, 0x01][..]);
    assert_eq!(t.buffer_capacity(), 264);
    assert_eq!(t.buffer_length(), 264);
    assert_eq!(t.actual_length(), 0);
    let t = usb.get_descriptor_string(255).unwrap();
    assert_eq!(&t.buffer()[..8], &[0x80, 0x06, 0xFF, 0x03, 0x00, 0x00, 0x00, 0x01][..]);
    assert!(!usb.in_flight(0));
}

#[test]
fn string_request_is_refused_for_id_zero_and_read_only() {
    let mut usb = UsbCore::from_bus_device(1, 2, Ok(())).unwrap();
    assert_eq!(usb.get_descriptor_string(0).unwrap_err(), UsbError::InvalidInput);
    assert_eq!(usb.get_descriptor_string_iface(0x0409, 0).unwrap_err(), UsbError::InvalidInput);
    let mut read_only = UsbCore::from_bus_device_read_only(1, 2, Ok(())).unwrap();
    assert_eq!(read_only.get_descriptor_string(1).unwrap_err(), UsbError::InvalidInput);
    assert_eq!(read_only.get_descriptor_string_iface(0, 1).unwrap_err(), UsbError::InvalidInput);
}

#[test]
fn descriptor_string_hi() {
    let mut usb = UsbCore::from_bus_device(1, 2, Ok(())).unwrap();
    let request = usb.get_descriptor_string_iface(0, 1).unwrap();
    let mut urb = usb.submit_control(request).unwrap();
    let mut window = urb.buffer().unwrap().to_vec();
    let answer = [0x06, 0x03, b'H', 0x00, b'i', 0x00];
    window[8..14].copy_from_slice(&answer);
    urb.receive(&window).unwrap();
    urb.complete(0, 6);
    let response = match usb.control_async_wait(Ok(urb)) {
        ControlWait::Done(c) => c,
        other => panic!("unexpected step {:?}", other),
    };
    assert_eq!(response.buffer_from_raw(), &answer[..]);
    assert_eq!(UsbCore::descriptor_string(&response), "Hi");
}

#[test]
fn string_descriptors_decode_as_utf16() {
    assert_eq!(decode_descriptor_string(&[0x06, 0x03, b'H', 0x00, b'i', 0x00]), "Hi");
    assert_eq!(decode_descriptor_string(&[0x04, 0x03, 0xE9, 0x00]), "\u{e9}");
    assert_eq!(decode_descriptor_string(&[0x04, 0x03, 0x09, 0x04]), "\u{409}");
    assert_eq!(decode_descriptor_string(&[0x06, 0x03, 0x3D, 0xD8, 0x00, 0xDE]), "\u{1F600}");
    assert_eq!(decode_descriptor_string(&[0x06, 0x03, 0x3D, 0xD8, b'a', 0x00]), "\u{FFFD}a");
    assert_eq!(decode_descriptor_string(&[0x04, 0x03, 0x00, 0xDC]), "\u{FFFD}");
}

#[test]
fn odd_or_short_string_descriptors_give_the_placeholder() {
    assert_eq!(decode_descriptor_string(&[]), "Invalid descriptor");
    assert_eq!(decode_descriptor_string(&[0x02]), "Invalid descriptor");
    assert_eq!(decode_descriptor_string(&[0x02, 0x03]), "Invalid descriptor");
    assert_eq!(decode_descriptor_string(&[0x03, 0x03, b'H']), "Invalid descriptor");
    assert_eq!(decode_descriptor_string(&[0x05, 0x03, b'H', 0, b'i']), "Invalid descriptor");
    let mut usb = UsbCore::from_bus_device(1, 2, Ok(())).unwrap();
    let fresh = usb.get_descriptor_string(1).unwrap();
    assert_eq!(UsbCore::descriptor_string(&fresh), "Invalid descriptor");
}

#[test]
fn descriptors_are_loaded_once() {
    let mut usb = UsbCore::from_bus_device(7, 9, Ok(())).unwrap();
    usb.load_descriptors(vec![9, 2, 25, 0, 1, 1, 0, 0xC0, 50]);
    assert!(usb.descriptors().is_none());
    usb.set_descriptor_strings("a".to_string(), "b".to_string(), "c".to_string());
    assert!(usb.descriptors().is_none());
    usb.load_descriptors(device_stream());
    {
        let d = usb.descriptors().as_ref().unwrap();
        assert_eq!(d.bus_num, 7);
        assert_eq!(d.dev_num, 9);
        assert_eq!(d.device.id_product, 0x5740);
        assert_eq!(d.device.configurations.len(), 1);
        assert_eq!(d.device.configurations[0].interfaces[0].endpoints[0].endpoint_address, 0x81);
        assert_eq!(d.manufacturer, "");
    }
    usb.set_descriptor_strings("maker".to_string(), "thing".to_string(), "0001".to_string());
    let mut other = device_stream();
    other[10] = 0x41;
    usb.load_descriptors(other);
    let d = usb.descriptors().as_ref().unwrap();
    assert_eq!(d.device.id_product, 0x5740);
    assert_eq!(d.manufacturer, "maker");
    assert_eq!(d.product, "thing");
    assert_eq!(d.serial, "0001");
}

#[test]
fn string_descriptor_units() {
    assert_eq!(descriptor_units(&[0x06, 0x03, b'H', 0x00, b'i', 0x00]), Some(vec![0x0048, 0x0069]));
    assert_eq!(descriptor_units(&[0x04, 0x03, 0x34, 0x12]), Some(vec![0x1234]));
    assert_eq!(descriptor_units(&[0x04, 0x03, 0x34, 0x12, 0xFF, 0xFF, 0x00, 0xD8]), Some(vec![0x1234, 0xFFFF, 0xD800]));
    assert_eq!(descriptor_units(&[0x02, 0x03]), None);
    assert_eq!(descriptor_units(&[0x03, 0x03, 0x41]), None);
    assert_eq!(descriptor_units(&[]), None);
}

#[test]
fn a_node_that_does_not_open_gives_no_handle() {
    assert_eq!(UsbCore::from_bus_device(1, 2, Err(2)).unwrap_err(), UsbError::OpenFailed(2));
    assert_eq!(UsbCore::from_bus_device_read_only(1, 2, Err(13)).unwrap_err(), UsbError::OpenFailed(13));
    let device = UsbDevice::from_bytes(device_stream()).unwrap();
    assert_eq!(UsbCore::from_device(&device, Err(EAGAIN)).unwrap_err(), UsbError::OpenFailed(EAGAIN));
}

#[test]
fn a_buffer_beyond_all_memory_is_refused() {
    let mut usb = UsbCore::from_bus_device(1, 2, Ok(())).unwrap();
    assert_eq!(usb.new_bulk_in(1, usize::MAX).unwrap_err(), UsbError::OutOfMemory);
    assert_eq!(usb.new_bulk_out(1, usize::MAX).unwrap_err(), UsbError::OutOfMemory);
    assert!(usb.new_bulk_in(1, 0).is_ok());
    assert_eq!(usb.new_bulk_out(1, 4096).unwrap().buffer(), &[0u8; 4096][..]);
}

#[test]
fn a_control_completion_beyond_the_data_stage_still_comes_back() {
    let mut usb = UsbCore::from_bus_device(1, 2, Ok(())).unwrap();
    let request = usb.new_control_in(0x80, 0x06, 0x0100, 0, 4).unwrap();
    let mut urb = usb.submit_control(request).unwrap();
    urb.complete(0, 5);
    match usb.async_response(Ok(urb)).unwrap() {
        TransferKind::Control(c) => {
            assert_eq!(c.actual_length(), 5);
            assert_eq!(c.buffer_length(), 12);
            assert!(!c.data_stage_fits());
        }
        other => panic!("unexpected completion {:?}", other),
    }
    assert!(!usb.in_flight(0));
    let request = usb.new_control_in(0x80, 0x06, 0x0100, 0, 4).unwrap();
    let mut urb = usb.submit_control(request).unwrap();
    urb.complete(0, 12);
    assert!(matches!(usb.control_async_wait(Ok(urb)), ControlWait::Done(_)));
}

#[test]
fn a_default_enumerator_is_empty() {
    let mut en = usbapi::UsbEnumerate::default();
    assert!(en.devices().is_empty());
    assert!(en.get_device_from_bus(0, 0).is_none());
    assert_eq!(en.add_device(1, 2, device_stream()), Ok(()));
    assert_eq!(en.devices().len(), 1);
}
