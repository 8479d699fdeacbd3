use mic_scan::classify::{ProductIdentifier, VendorIdentifier};
use mic_scan::descriptor::{
    ConfigDescriptor, DeviceDescriptor, EndpointDescriptor, Interface, InterfaceDescriptor,
    UsbDevice,
};
use mic_scan::report::render_report;
use mic_scan::scan::{process_device, scan_devices, select_endpoint, ScanError};

fn endpoint(config: u8, iface: u8, setting: u8, address: u8) -> EndpointDescriptor {
    EndpointDescriptor { config, iface, setting, address }
}

/// A device with one configuration, one interface, one alternate setting, and
/// the given endpoint addresses.
fn simulated_device(vendor_id: u16, product_id: u16, addresses: &[u8]) -> UsbDevice {
    UsbDevice {
        device_descriptor: Some(DeviceDescriptor { vendor_id, product_id, num_configurations: 1 }),
        config_descriptors: vec![Some(ConfigDescriptor {
            number: 1,
            interfaces: vec![Interface {
                descriptors: vec![InterfaceDescriptor {
                    interface_number: 0,
                    setting_number: 0,
                    endpoint_addresses: addresses.to_vec(),
                }],
            }],
        })],
    }
}

#[test]
fn selection_picks_index_one_exactly() {
    let endpoints = vec![
        endpoint(1, 0, 0, 0x81),
        endpoint(1, 0, 0, 0x02),
        endpoint(1, 0, 0, 0x83),
    ];
    assert_eq!(select_endpoint(&endpoints), Ok(endpoint(1, 0, 0, 0x02)));
}

#[test]
fn selection_fails_with_fewer_than_two_endpoints() {
    assert_eq!(select_endpoint(&vec![]), Err(ScanError::NoConfigurableEndpoint));
    assert_eq!(
        select_endpoint(&vec![endpoint(1, 0, 0, 0x81)]),
        Err(ScanError::NoConfigurableEndpoint)
    );
}

#[test]
fn na_device_with_three_endpoints_reports_index_one() {
    let device = simulated_device(0x0951, 0x171f, &[0x81, 0x02, 0x83]);
    let reports = scan_devices(&vec![device]).unwrap();
    assert_eq!(reports.len(), 1);
    assert_eq!(reports[0].endpoint, endpoint(1, 0, 0, 0x02));
    let lines = render_report(&reports[0]);
    assert_eq!(
        lines,
        vec![
            "0x01".to_string(),
            "0x00".to_string(),
            "0x00".to_string(),
            "0x02".to_string(),
            "This is microphone type: NA.".to_string(),
        ]
    );
}

#[test]
fn eu3_device_with_two_endpoints_reports_index_one() {
    let device = simulated_device(0x03f0, 0x048c, &[0x81, 0x02]);
    let reports = scan_devices(&vec![device]).unwrap();
    assert_eq!(reports.len(), 1);
    assert_eq!(reports[0].classification.vendor, VendorIdentifier::EU);
    assert_eq!(reports[0].classification.product, ProductIdentifier::EU3);
    assert_eq!(reports[0].endpoint, endpoint(1, 0, 0, 0x02));
    let lines = render_report(&reports[0]);
    assert_eq!(lines[4], "This is microphone type: EU3.");
}

#[test]
fn unrecognized_vendor_is_skipped_and_scan_continues() {
    let stranger = simulated_device(0x1234, 0x171f, &[0x81, 0x02]);
    let target = simulated_device(0x0951, 0x171f, &[0x81, 0x02]);
    assert_eq!(process_device(&stranger), Ok(None));
    let reports = scan_devices(&vec![stranger, target]).unwrap();
    assert_eq!(reports.len(), 1);
    assert_eq!(reports[0].classification.vendor, VendorIdentifier::NA);
}

#[test]
fn unrecognized_product_is_skipped() {
    let device = simulated_device(0x0951, 0x9999, &[0x81, 0x02]);
    assert_eq!(process_device(&device), Ok(None));
}

#[test]
fn recognized_device_with_one_endpoint_fails_fatally() {
    let device = simulated_device(0x0951, 0x171f, &[0x81]);
    assert_eq!(process_device(&device), Err(ScanError::NoConfigurableEndpoint));
    assert_eq!(scan_devices(&vec![device]), Err(ScanError::NoConfigurableEndpoint));
}

#[test]
fn unreadable_device_descriptor_is_fatal() {
    let device = UsbDevice { device_descriptor: None, config_descriptors: vec![] };
    assert_eq!(process_device(&device), Err(ScanError::DescriptorReadFailure));
}

#[test]
fn fatal_device_stops_the_scan_at_the_earliest_failure() {
    let broken = simulated_device(0x0951, 0x171f, &[0x81]);
    let later = simulated_device(0x03f0, 0x048c, &[0x81, 0x02]);
    assert_eq!(
        scan_devices(&vec![broken, later]),
        Err(ScanError::NoConfigurableEndpoint)
    );
}
