//! The descriptor walker: flattening a device's configuration / interface /
//! alternate-setting / endpoint tree into an ordered list of endpoint records.
//!
//! A device is represented by the plain values that the walk reads: the
//! device descriptor, and for each configuration index the result of reading
//! that configuration's descriptor (`None` models a failed read). The walk
//! itself is pure: it queries nothing and is a function of the snapshot alone.

use vstd::prelude::*;

verus! {

/// The fields of a device descriptor that identification and the walk read.
#[derive(Clone, Copy, Debug, PartialEq, Eq, Structural)]
pub struct DeviceDescriptor {
    pub vendor_id: u16,
    pub product_id: u16,
    pub num_configurations: u8,
}

/// One alternate setting of an interface, with the addresses of its
/// endpoint descriptors in enumeration order.
#[derive(Debug)]
pub struct InterfaceDescriptor {
    pub interface_number: u8,
    pub setting_number: u8,
    pub endpoint_addresses: Vec<u8>,
}

/// One interface of a configuration: its alternate-setting descriptors in
/// enumeration order.
#[derive(Debug)]
pub struct Interface {
    pub descriptors: Vec<InterfaceDescriptor>,
}

/// One configuration: its number (the configuration value reported by the
/// device, not the read index) and its interfaces in enumeration order.
#[derive(Debug)]
pub struct ConfigDescriptor {
    pub number: u8,
    pub interfaces: Vec<Interface>,
}

/// Everything the walk can learn from one attached device.
///
/// `device_descriptor` is `None` when the device-descriptor read fails (the
/// walker's sole fatal condition). `config_descriptors[n]` is the outcome of
/// reading the configuration descriptor at index `n`; `None`, like an index
/// beyond the vector, models a failed read, which the walk skips.
#[derive(Debug)]
pub struct UsbDevice {
    pub device_descriptor: Option<DeviceDescriptor>,
    pub config_descriptors: Vec<Option<ConfigDescriptor>>,
}

/// The walker's error: the device descriptor itself could not be read.
/// Deeper read failures are not errors; they only skip one configuration.
#[derive(Clone, Copy, Debug, PartialEq, Eq, Structural)]
pub enum DescriptorError {
    DeviceDescriptorUnreadable,
}

/// An endpoint found by the walk, tagged with its owning configuration
/// number, interface number, and alternate-setting number.
#[derive(Clone, Copy, Debug, PartialEq, Eq, Structural)]
pub struct EndpointDescriptor {
    pub config: u8,
    pub iface: u8,
    pub setting: u8,
    pub address: u8,
}

/// The endpoints contributed by one alternate setting of configuration
/// `config`, in the order of its endpoint addresses.
pub open spec fn setting_endpoints(config: u8, ifd: InterfaceDescriptor) -> Seq<
    EndpointDescriptor,
> {
    ifd.endpoint_addresses@.map(
        |k: int, a: u8|
            EndpointDescriptor {
                config,
                iface: ifd.interface_number,
                setting: ifd.setting_number,
                address: a,
            },
    )
}

/// The endpoints contributed by the first `k` alternate settings of the list
/// `descs`, concatenated in order.
pub open spec fn settings_endpoints_upto(
    config: u8,
    descs: Seq<InterfaceDescriptor>,
    k: int,
) -> Seq<EndpointDescriptor>
    decreases k,
{
    if k <= 0 {
        Seq::empty()
    } else {
        settings_endpoints_upto(config, descs, k - 1) + setting_endpoints(config, descs[k - 1])
    }
}

/// The endpoints contributed by one interface of configuration `config`.
pub open spec fn interface_endpoints(config: u8, intf: Interface) -> Seq<EndpointDescriptor> {
    settings_endpoints_upto(config, intf.descriptors@, intf.descriptors@.len() as int)
}

/// The endpoints contributed by the first `k` interfaces of configuration `c`.
pub open spec fn interfaces_endpoints_upto(c: ConfigDescriptor, k: int) -> Seq<EndpointDescriptor>
    decreases k,
{
    if k <= 0 {
        Seq::empty()
    } else {
        interfaces_endpoints_upto(c, k - 1) + interface_endpoints(c.number, c.interfaces@[k - 1])
    }
}

/// All endpoints of one configuration, in enumeration order.
pub open spec fn config_endpoints(c: ConfigDescriptor) -> Seq<EndpointDescriptor> {
    interfaces_endpoints_upto(c, c.interfaces@.len() as int)
}

/// What reading configuration index `n` contributes to the walk: the
/// configuration's endpoints when the read succeeded, nothing otherwise.
pub open spec fn config_endpoints_at(d: UsbDevice, n: int) -> Seq<EndpointDescriptor> {
    if 0 <= n < d.config_descriptors@.len() && d.config_descriptors@[n] is Some {
        config_endpoints(d.config_descriptors@[n]->Some_0)
    } else {
        Seq::empty()
    }
}

/// The endpoints of the first `k` configuration indices, concatenated.
pub open spec fn device_endpoints_upto(d: UsbDevice, k: int) -> Seq<EndpointDescriptor>
    decreases k,
{
    if k <= 0 {
        Seq::empty()
    } else {
        device_endpoints_upto(d, k - 1) + config_endpoints_at(d, k - 1)
    }
}

/// The full flat endpoint list of a device whose descriptor was readable:
/// configurations ascending by index, then interfaces, then alternate
/// settings, then endpoints, each in enumeration order.
pub open spec fn device_endpoints(d: UsbDevice) -> Seq<EndpointDescriptor> {
    if d.device_descriptor is Some {
        device_endpoints_upto(d, d.device_descriptor->Some_0.num_configurations as int)
    } else {
        Seq::empty()
    }
}

/// The walk is a function of the snapshot alone: equal snapshots yield the
/// endpoint list in identical order, so walking an unchanged device twice
/// gives identical results.
pub proof fn lemma_walk_deterministic(d1: UsbDevice, d2: UsbDevice)
    requires
        d1 == d2,
    ensures
        device_endpoints(d1) == device_endpoints(d2),
{
}

/// A device that declares zero configurations contributes no endpoints.
pub proof fn lemma_no_configurations_no_endpoints(d: UsbDevice)
    requires
        d.device_descriptor is Some,
        d.device_descriptor->Some_0.num_configurations == 0,
    ensures
        device_endpoints(d) == Seq::<EndpointDescriptor>::empty(),
{
}

/// Walks the device's descriptor tree and returns its endpoints as one flat
/// ordered list.
///
/// Fails exactly when the device descriptor is unreadable. A configuration
/// whose read failed is skipped; a device that declares zero configurations,
/// or none of whose configurations were readable, yields an empty list and no
/// error.
#[verifier::loop_isolation(false)]
pub fn find_endpoints(device: &UsbDevice) -> (r: Result<
    Vec<EndpointDescriptor>,
    DescriptorError,
>)
    ensures
        r is Ok <==> device.device_descriptor is Some,
        r is Err ==> r->Err_0 == DescriptorError::DeviceDescriptorUnreadable,
        r is Ok ==> r->Ok_0@ == device_endpoints(*device),
{
    let device_desc = match &device.device_descriptor {
        Some(desc) => desc,
        None => {
            return Err(DescriptorError::DeviceDescriptorUnreadable);
        },
    };
    let mut endpoints: Vec<EndpointDescriptor> = Vec::new();
    let mut n: u8 = 0;
    while n < device_desc.num_configurations
        invariant
            n <= device_desc.num_configurations,
            endpoints@ == device_endpoints_upto(*device, n as int),
        decreases device_desc.num_configurations - n,
    {
        let read = if (n as usize) < device.config_descriptors.len() {
            device.config_descriptors[n as usize].as_ref()
        } else {
            None
        };
        if let Some(c) = read {
            let ghost base_config = endpoints@;
            let mut i: usize = 0;
            while i < c.interfaces.len()
                invariant
                    i <= c.interfaces@.len(),
                    endpoints@ == base_config + interfaces_endpoints_upto(*c, i as int),
                decreases c.interfaces@.len() - i,
            {
                let intf = &c.interfaces[i];
                let ghost base_interface = endpoints@;
                let mut j: usize = 0;
                while j < intf.descriptors.len()
                    invariant
                        j <= intf.descriptors@.len(),
                        endpoints@ == base_interface + settings_endpoints_upto(
                            c.number,
                            intf.descriptors@,
                            j as int,
                        ),
                    decreases intf.descriptors@.len() - j,
                {
                    let ifd = &intf.descriptors[j];
                    let ghost base_setting = endpoints@;
                    let mut k: usize = 0;
                    while k < ifd.endpoint_addresses.len()
                        invariant
                            k <= ifd.endpoint_addresses@.len(),
                            endpoints@ == base_setting + setting_endpoints(c.number, *ifd).take(
                                k as int,
                            ),
                        decreases ifd.endpoint_addresses@.len() - k,
                    {
                        endpoints.push(
                            EndpointDescriptor {
                                config: c.number,
                                iface: ifd.interface_number,
                                setting: ifd.setting_number,
                                address: ifd.endpoint_addresses[k],
                            },
                        );
                        proof {
                            let eps = setting_endpoints(c.number, *ifd);
                            assert(eps.take(k + 1) =~= eps.take(k as int).push(eps[k as int]));
                        }
                        k = k + 1;
                    }
                    proof {
                        let eps = setting_endpoints(c.number, *ifd);
                        assert(eps.take(eps.len() as int) =~= eps);
                        assert(base_interface + settings_endpoints_upto(
                            c.number,
                            intf.descriptors@,
                            j + 1,
                        ) =~= (base_interface + settings_endpoints_upto(
                            c.number,
                            intf.descriptors@,
                            j as int,
                        )) + eps);
                    }
                    j = j + 1;
                }
                proof {
                    assert(base_config + interfaces_endpoints_upto(*c, i + 1) =~= (base_config
                        + interfaces_endpoints_upto(*c, i as int)) + interface_endpoints(
                        c.number,
                        c.interfaces@[i as int],
                    ));
                }
                i = i + 1;
            }
            proof {
                assert(config_endpoints_at(*device, n as int) == config_endpoints(*c));
                assert(device_endpoints_upto(*device, n + 1) =~= device_endpoints_upto(
                    *device,
                    n as int,
                ) + config_endpoints_at(*device, n as int));
            }
        } else {
            proof {
                assert(config_endpoints_at(*device, n as int) =~= Seq::<
                    EndpointDescriptor,
                >::empty());
                assert(device_endpoints_upto(*device, n + 1) =~= device_endpoints_upto(
                    *device,
                    n as int,
                ));
            }
        }
        n = n + 1;
    }
    Ok(endpoints)
}

} // verus!
