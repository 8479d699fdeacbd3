//! The scanner: per-device orchestration of classification, the descriptor
//! walk, and the fixed endpoint selection policy, over a snapshot of the
//! attached devices.

use vstd::prelude::*;
use crate::classify::{classify_product, classify_vendor, spec_classify_product,
    spec_classify_vendor};
use crate::descriptor::{device_endpoints, find_endpoints, EndpointDescriptor, UsbDevice};
use crate::report::{DeviceClassification, DeviceReport};

verus! {

/// A condition fatal to scanning one device. An unrecognized identifier is
/// not one: it only means the device is not a target and is skipped silently.
#[derive(Clone, Copy, Debug, PartialEq, Eq, Structural)]
pub enum ScanError {
    /// The device descriptor could not be read; nothing else is possible for
    /// that device.
    DescriptorReadFailure,
    /// The walk found fewer than two endpoints, so the fixed selection policy
    /// has nothing to select.
    NoConfigurableEndpoint,
}

/// Selects the endpoint used for communication: deliberately the element at
/// index 1 of the enumeration-ordered list — the second endpoint, not the
/// first or any other. This assumes the second enumerated endpoint is always
/// the desired one, a known narrow assumption tied to the supported devices'
/// descriptor layout.
pub fn select_endpoint(endpoints: &Vec<EndpointDescriptor>) -> (r: Result<
    EndpointDescriptor,
    ScanError,
>)
    ensures
        endpoints@.len() >= 2 ==> r == Ok::<EndpointDescriptor, ScanError>(endpoints@[1]),
        endpoints@.len() < 2 ==> r == Err::<EndpointDescriptor, ScanError>(
            ScanError::NoConfigurableEndpoint,
        ),
{
    if endpoints.len() >= 2 {
        Ok(endpoints[1])
    } else {
        Err(ScanError::NoConfigurableEndpoint)
    }
}

/// The outcome of processing one device snapshot.
///
/// - The device descriptor was unreadable: fatal, `Err(DescriptorReadFailure)`.
/// - Either identifier is unrecognized: the device is ignored, `Ok(None)`.
/// - Both recognized but the walk found fewer than two endpoints: fatal,
///   `Err(NoConfigurableEndpoint)`.
/// - Otherwise: a report pairing the classification with the endpoint at
///   index 1 of the walk's list.
pub open spec fn spec_process_device(d: UsbDevice) -> Result<Option<DeviceReport>, ScanError> {
    if d.device_descriptor is None {
        Err(ScanError::DescriptorReadFailure)
    } else {
        let desc = d.device_descriptor->Some_0;
        if spec_classify_vendor(desc.vendor_id) is Ok && spec_classify_product(
            desc.product_id,
        ) is Ok {
            let endpoints = device_endpoints(d);
            if endpoints.len() < 2 {
                Err(ScanError::NoConfigurableEndpoint)
            } else {
                Ok(
                    Some(
                        DeviceReport {
                            classification: DeviceClassification {
                                vendor: spec_classify_vendor(desc.vendor_id)->Ok_0,
                                product: spec_classify_product(desc.product_id)->Ok_0,
                            },
                            endpoint: endpoints[1],
                        },
                    ),
                )
            }
        } else {
            Ok(None)
        }
    }
}

/// Processes one device: obtain the device descriptor (fatal if unreadable),
/// classify vendor and product (ignore the device if either is unrecognized),
/// walk the descriptor tree, and select the endpoint at index 1 (fatal if
/// fewer than two endpoints were found).
pub fn process_device(device: &UsbDevice) -> (r: Result<Option<DeviceReport>, ScanError>)
    ensures
        r == spec_process_device(*device),
{
    let desc = match &device.device_descriptor {
        Some(desc) => desc,
        None => {
            return Err(ScanError::DescriptorReadFailure);
        },
    };
    let vendor = match classify_vendor(desc.vendor_id) {
        Ok(v) => v,
        Err(_) => {
            return Ok(None);
        },
    };
    let product = match classify_product(desc.product_id) {
        Ok(p) => p,
        Err(_) => {
            return Ok(None);
        },
    };
    let endpoints = match find_endpoints(device) {
        Ok(endpoints) => endpoints,
        Err(_) => {
            // Unreachable: the device descriptor was read above, and that is
            // the walker's sole failure condition.
            return Err(ScanError::DescriptorReadFailure);
        },
    };
    let endpoint = match select_endpoint(&endpoints) {
        Ok(endpoint) => endpoint,
        Err(e) => {
            return Err(e);
        },
    };
    Ok(Some(DeviceReport { classification: DeviceClassification { vendor, product }, endpoint }))
}

/// The outcome of scanning the first `k` devices of the snapshot list in
/// order: the reports of the recognized devices, in device order, unless some
/// device among them fails fatally — then the error of the earliest such
/// device.
pub open spec fn spec_scan_upto(devices: Seq<UsbDevice>, k: int) -> Result<
    Seq<DeviceReport>,
    ScanError,
>
    decreases k,
{
    if k <= 0 {
        Ok(Seq::empty())
    } else {
        match spec_scan_upto(devices, k - 1) {
            Err(e) => Err(e),
            Ok(reports) => match spec_process_device(devices[k - 1]) {
                Err(e) => Err(e),
                Ok(None) => Ok(reports),
                Ok(Some(report)) => Ok(reports.push(report)),
            },
        }
    }
}

/// The outcome of scanning the whole snapshot list.
pub open spec fn spec_scan(devices: Seq<UsbDevice>) -> Result<Seq<DeviceReport>, ScanError> {
    spec_scan_upto(devices, devices.len() as int)
}

/// Scans the device snapshots strictly in order, with no cross-device state:
/// each recognized device contributes one report; an unrecognized device is
/// skipped silently and the scan continues; the first fatal condition stops
/// the scan with its error.
#[verifier::loop_isolation(false)]
pub fn scan_devices(devices: &Vec<UsbDevice>) -> (r: Result<Vec<DeviceReport>, ScanError>)
    ensures
        r is Ok <==> spec_scan(devices@) is Ok,
        r is Ok ==> r->Ok_0@ == spec_scan(devices@)->Ok_0,
        r is Err ==> r->Err_0 == spec_scan(devices@)->Err_0,
{
    let mut reports: Vec<DeviceReport> = Vec::new();
    let mut i: usize = 0;
    while i < devices.len()
        invariant
            i <= devices@.len(),
            spec_scan_upto(devices@, i as int) == Ok::<Seq<DeviceReport>, ScanError>(reports@),
        decreases devices@.len() - i,
    {
        match process_device(&devices[i]) {
            Err(e) => {
                proof {
                    assert(spec_scan_upto(devices@, i + 1) == Err::<Seq<DeviceReport>, ScanError>(
                        e,
                    ));
                    lemma_scan_error_persists(devices@, i + 1, devices@.len() as int);
                }
                return Err(e);
            },
            Ok(None) => {},
            Ok(Some(report)) => {
                reports.push(report);
            },
        }
        i = i + 1;
    }
    Ok(reports)
}

/// Once a prefix of the scan has failed, every longer prefix fails with the
/// same error: the scan stops at the earliest fatal device.
proof fn lemma_scan_error_persists(devices: Seq<UsbDevice>, k: int, m: int)
    requires
        0 <= k <= m,
        spec_scan_upto(devices, k) is Err,
    ensures
        spec_scan_upto(devices, m) == spec_scan_upto(devices, k),
    decreases m - k,
{
    if k < m {
        lemma_scan_error_persists(devices, k, m - 1);
    }
}

} // verus!
