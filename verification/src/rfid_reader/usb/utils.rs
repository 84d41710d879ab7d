//! Finding the device among those connected, and in it the endpoint to read.
//!
//! The descriptors are plain values here: whoever talks to the USB stack
//! copies what it reports into them.

use crate::rfid_reader::error::Error;
use crate::rfid_reader::id::{ProductId, VendorId};
use vstd::prelude::*;

verus! {

/// The direction of an endpoint, seen from the host.
#[derive(Debug, PartialEq, Eq, Clone, Copy, Structural)]
pub enum Direction {
    /// From the device to the host.
    In,
    /// From the host to the device.
    Out,
}

/// The kind of transfer that an endpoint makes.
#[derive(Debug, PartialEq, Eq, Clone, Copy, Structural)]
pub enum TransferType {
    Control,
    Isochronous,
    Bulk,
    Interrupt,
}

/// One endpoint of an alternate setting.
#[derive(Debug, PartialEq)]
pub struct EndpointDescriptor {
    pub address: u8,
    pub direction: Direction,
    pub transfer_type: TransferType,
}

/// One alternate setting of an interface.
#[derive(Debug, PartialEq)]
pub struct InterfaceDescriptor {
    pub interface_number: u8,
    pub setting_number: u8,
    pub endpoint_descriptors: Vec<EndpointDescriptor>,
}

/// An interface: its alternate settings, in the order the device lists them.
#[derive(Debug, PartialEq)]
pub struct Interface {
    pub descriptors: Vec<InterfaceDescriptor>,
}

/// One configuration of a device.
#[derive(Debug, PartialEq)]
pub struct ConfigDescriptor {
    pub number: u8,
    pub interfaces: Vec<Interface>,
}

/// What a device says of itself as a whole.
#[derive(Debug, PartialEq, Clone, Copy)]
pub struct DeviceDescriptor {
    pub vendor_id: u16,
    pub product_id: u16,
    pub num_configurations: u8,
}

/// A connected device: its descriptor, or the error that asking for it gave,
/// and its configurations by index, `None` where one could not be read.
#[derive(Debug, PartialEq)]
pub struct Device {
    pub device_descriptor: Result<DeviceDescriptor, Error>,
    pub config_descriptors: Vec<Option<ConfigDescriptor>>,
}

/// All that is needed to claim one endpoint and read from it.
#[derive(Debug, PartialEq)]
pub struct EndPoint {
    pub config: u8,
    pub interface: u8,
    pub setting: u8,
    pub address: u8,
}

/// Where an endpoint stands in a device: the indices of its configuration,
/// of its interface, of its alternate setting and its own.
pub ghost struct Position {
    pub config: int,
    pub interface: int,
    pub setting: int,
    pub endpoint: int,
}

impl Position {
    /// Whether the search comes to `self` before it comes to `other`.
    pub open spec fn precedes(self, other: Position) -> bool {
        ||| self.config < other.config
        ||| self.config == other.config && self.interface < other.interface
        ||| self.config == other.config && self.interface == other.interface && self.setting
            < other.setting
        ||| self.config == other.config && self.interface == other.interface && self.setting
            == other.setting && self.endpoint < other.endpoint
    }
}

impl EndPoint {
    pub fn get_interface(&self) -> (interface: u8)
        ensures
            interface == self.interface,
    {
        self.interface
    }

    pub fn get_address(&self) -> (address: u8)
        ensures
            address == self.address,
    {
        self.address
    }

    pub fn get_config(&self) -> (config: u8)
        ensures
            config == self.config,
    {
        self.config
    }

    pub fn get_setting(&self) -> (setting: u8)
        ensures
            setting == self.setting,
    {
        self.setting
    }
}

impl Device {
    /// The configuration with index `n`, where the device has one and it
    /// could be read.
    pub open spec fn configuration(self, n: int) -> Option<ConfigDescriptor> {
        if 0 <= n < self.config_descriptors@.len() {
            self.config_descriptors@[n]
        } else {
            None
        }
    }

    pub fn config_descriptor(&self, n: u8) -> (config: Option<&ConfigDescriptor>)
        ensures
            match config {
                Some(c) => self.configuration(n as int) == Some(*c),
                None => self.configuration(n as int) is None,
            },
    {
        if (n as usize) < self.config_descriptors.len() {
            self.config_descriptors[n as usize].as_ref()
        } else {
            None
        }
    }

    /// Whether the device is known to be the product of the vendor.
    pub open spec fn is(self, vendor_id: VendorId, product_id: ProductId) -> bool {
        self.device_descriptor matches Ok(d) && d.vendor_id == vendor_id.0 && d.product_id
            == product_id.0
    }

    /// Whether the device is known to be something else.
    pub open spec fn is_other_than(self, vendor_id: VendorId, product_id: ProductId) -> bool {
        self.device_descriptor is Ok && !self.is(vendor_id, product_id)
    }

    /// Whether the device has an endpoint at `p` that sends to the host by
    /// transfers of the given type, within the configurations that
    /// `device_descriptor` counts.
    pub open spec fn readable_at(
        self,
        device_descriptor: DeviceDescriptor,
        transfer_type: TransferType,
        p: Position,
    ) -> bool {
        &&& 0 <= p.config < device_descriptor.num_configurations
        &&& self.configuration(p.config) matches Some(c)
        &&& 0 <= p.interface < c.interfaces@.len()
        &&& 0 <= p.setting < c.interfaces@[p.interface].descriptors@.len()
        &&& 0 <= p.endpoint < c.interfaces@[p.interface].descriptors@[p.setting].endpoint_descriptors@.len()
        &&& c.interfaces@[p.interface].descriptors@[p.setting].endpoint_descriptors@[p.endpoint].direction
            == Direction::In
        &&& c.interfaces@[p.interface].descriptors@[p.setting].endpoint_descriptors@[p.endpoint].transfer_type
            == transfer_type
    }

    /// The addressing of the endpoint at `p`: the numbers of its
    /// configuration, interface and alternate setting, and its address.
    pub open spec fn end_point_at(self, p: Position) -> EndPoint {
        let c = self.configuration(p.config)->0;
        let s = c.interfaces@[p.interface].descriptors@[p.setting];
        EndPoint {
            config: c.number,
            interface: s.interface_number,
            setting: s.setting_number,
            address: s.endpoint_descriptors@[p.endpoint].address,
        }
    }
}

/// Whether the devices before the one at `index` are all known to be
/// something else than the product of the vendor.
pub open spec fn passes_over(
    devices: Seq<Device>,
    vendor_id: VendorId,
    product_id: ProductId,
    index: int,
) -> bool {
    forall|j: int| 0 <= j < index ==> (#[trigger] devices[j]).is_other_than(vendor_id, product_id)
}

/// Whether the search ends at `index` with `error`, because the device there
/// did not give its descriptor.
pub open spec fn fails_at(
    devices: Seq<Device>,
    vendor_id: VendorId,
    product_id: ProductId,
    index: int,
    error: Error,
) -> bool {
    &&& 0 <= index < devices.len()
    &&& devices[index].device_descriptor == Err::<DeviceDescriptor, Error>(error)
    &&& passes_over(devices, vendor_id, product_id, index)
}

/// Whether `result` is what the search for the product of the vendor gives:
/// the first device that is it, with its index and descriptor, if no device
/// before it failed to give its descriptor; else the error of the first
/// device that failed to; else `DeviceNotFound`.
pub open spec fn is_device_found(
    devices: Seq<Device>,
    vendor_id: VendorId,
    product_id: ProductId,
    result: Result<(usize, DeviceDescriptor), Error>,
) -> bool {
    match result {
        Ok((index, descriptor)) => {
            &&& index < devices.len()
            &&& devices[index as int].is(vendor_id, product_id)
            &&& devices[index as int].device_descriptor == Ok::<DeviceDescriptor, Error>(descriptor)
            &&& passes_over(devices, vendor_id, product_id, index as int)
        },
        Err(error) => {
            ||| {
                &&& error == Error::DeviceNotFound(vendor_id, product_id)
                &&& passes_over(devices, vendor_id, product_id, devices.len() as int)
            }
            ||| exists|index: int| #[trigger]
                fails_at(devices, vendor_id, product_id, index, error)
        },
    }
}

/// Whether `result` is what the search for a readable endpoint gives: the
/// addressing of the first endpoint, in the order of the search, that sends
/// to the host by transfers of the given type, or `ReadableEndPointNotFound`
/// with the vendor and product of the device where it has none.
pub open spec fn is_endpoint_found(
    device: Device,
    device_descriptor: DeviceDescriptor,
    transfer_type: TransferType,
    result: Result<EndPoint, Error>,
) -> bool {
    match result {
        Ok(end_point) => exists|p: Position|
            {
                &&& #[trigger] device.readable_at(device_descriptor, transfer_type, p)
                &&& end_point == device.end_point_at(p)
                &&& forall|q: Position| #[trigger]
                    device.readable_at(device_descriptor, transfer_type, q) ==> !q.precedes(p)
            },
        Err(error) => {
            &&& error == Error::ReadableEndPointNotFound(
                VendorId(device_descriptor.vendor_id),
                ProductId(device_descriptor.product_id),
            )
            &&& forall|q: Position|
                !#[trigger] device.readable_at(device_descriptor, transfer_type, q)
        },
    }
}

/// Looks for the first device that is the given product of the given
/// vendor, and returns its index with its descriptor.
///
/// A device whose descriptor could not be had ends the search with that
/// error, unless the wanted device came before it. Without either,
/// the error is `DeviceNotFound`.
pub fn get_device(devices: &Vec<Device>, vendor_id: VendorId, product_id: ProductId) -> (result:
    Result<(usize, DeviceDescriptor), Error>)
    ensures
        is_device_found(devices@, vendor_id, product_id, result),
{
    let mut index: usize = 0;
    while index < devices.len()
        invariant
            index <= devices@.len(),
            passes_over(devices@, vendor_id, product_id, index as int),
        decreases devices@.len() - index,
    {
        match &devices[index].device_descriptor {
            Ok(descriptor) => {
                if descriptor.vendor_id == vendor_id.0 && descriptor.product_id == product_id.0 {
                    return Ok((index, *descriptor));
                }
            },
            Err(error) => {
                let error = error.clone();
                assert(fails_at(devices@, vendor_id, product_id, index as int, error));
                return Err(error);
            },
        }
        index += 1;
    }
    Err(Error::DeviceNotFound(vendor_id, product_id))
}

/// Looks for the first endpoint of the device that sends to the host by
/// transfers of the given type.
///
/// The search goes through the configurations that the device descriptor
/// counts, in each through the interfaces, in each of those through the
/// alternate settings and in each setting through the endpoints. A
/// configuration that could not be read is passed over.
#[verifier::loop_isolation(false)]
pub fn get_readable_endpoint(
    device: &Device,
    device_descriptor: &DeviceDescriptor,
    transfer_type: TransferType,
) -> (result: Result<EndPoint, Error>)
    ensures
        is_endpoint_found(*device, *device_descriptor, transfer_type, result),
{
    let mut n: u8 = 0;
    while n < device_descriptor.num_configurations
        invariant
            forall|q: Position| #[trigger]
                device.readable_at(*device_descriptor, transfer_type, q) ==> q.config >= n,
        decreases device_descriptor.num_configurations - n,
    {
        if let Some(config) = device.config_descriptor(n) {
            let mut i: usize = 0;
            while i < config.interfaces.len()
                invariant
                    forall|q: Position| #[trigger]
                        device.readable_at(*device_descriptor, transfer_type, q) ==> q.config > n
                            || (q.config == n && q.interface >= i),
                decreases config.interfaces@.len() - i,
            {
                let interface = &config.interfaces[i];
                let mut k: usize = 0;
                while k < interface.descriptors.len()
                    invariant
                        forall|q: Position| #[trigger]
                            device.readable_at(*device_descriptor, transfer_type, q) ==> q.config
                                > n || (q.config == n && q.interface > i) || (q.config == n
                                && q.interface == i && q.setting >= k),
                    decreases interface.descriptors@.len() - k,
                {
                    let setting = &interface.descriptors[k];
                    let mut l: usize = 0;
                    while l < setting.endpoint_descriptors.len()
                        invariant
                            forall|q: Position| #[trigger]
                                device.readable_at(*device_descriptor, transfer_type, q)
                                    ==> q.config > n || (q.config == n && q.interface > i) || (
                                q.config == n && q.interface == i && q.setting > k) || (q.config
                                    == n && q.interface == i && q.setting == k && q.endpoint >= l),
                        decreases setting.endpoint_descriptors@.len() - l,
                    {
                        let endpoint_descriptor = &setting.endpoint_descriptors[l];
                        if endpoint_descriptor.direction == Direction::In
                            && endpoint_descriptor.transfer_type == transfer_type {
                            let end_point = EndPoint {
                                config: config.number,
                                interface: setting.interface_number,
                                setting: setting.setting_number,
                                address: endpoint_descriptor.address,
                            };
                            proof {
                                let p = Position {
                                    config: n as int,
                                    interface: i as int,
                                    setting: k as int,
                                    endpoint: l as int,
                                };
                                assert(device.readable_at(*device_descriptor, transfer_type, p));
                                assert(end_point == device.end_point_at(p));
                            }
                            return Ok(end_point);
                        }
                        l += 1;
                    }
                    k += 1;
                }
                i += 1;
            }
        }
        n += 1;
    }
    Err(
        Error::ReadableEndPointNotFound(
            VendorId(device_descriptor.vendor_id),
            ProductId(device_descriptor.product_id),
        ),
    )
}

/// The search for a device has one outcome only.
pub proof fn lemma_device_found_is_unique(
    devices: Seq<Device>,
    vendor_id: VendorId,
    product_id: ProductId,
    first: Result<(usize, DeviceDescriptor), Error>,
    second: Result<(usize, DeviceDescriptor), Error>,
)
    requires
        is_device_found(devices, vendor_id, product_id, first),
        is_device_found(devices, vendor_id, product_id, second),
    ensures
        first == second,
{
    // The place at which a search ends: that of the device found, or of the
    // device that gave no descriptor, or the end of the row.
    let a = lemma_end_of_search(devices, vendor_id, product_id, first);
    let b = lemma_end_of_search(devices, vendor_id, product_id, second);
    if a < b {
        assert(devices[a].is_other_than(vendor_id, product_id));
    } else if b < a {
        assert(devices[b].is_other_than(vendor_id, product_id));
    }
}

/// The place at which a search with this outcome ended: before it every
/// device is something else, and the device there decides the outcome.
proof fn lemma_end_of_search(
    devices: Seq<Device>,
    vendor_id: VendorId,
    product_id: ProductId,
    result: Result<(usize, DeviceDescriptor), Error>,
) -> (end: int)
    requires
        is_device_found(devices, vendor_id, product_id, result),
    ensures
        0 <= end <= devices.len(),
        passes_over(devices, vendor_id, product_id, end),
        end == devices.len() ==> result == Err::<(usize, DeviceDescriptor), Error>(
            Error::DeviceNotFound(vendor_id, product_id),
        ),
        end < devices.len() ==> !devices[end].is_other_than(vendor_id, product_id),
        end < devices.len() ==> match devices[end].device_descriptor {
            Ok(descriptor) => result == Ok::<(usize, DeviceDescriptor), Error>(
                (end as usize, descriptor),
            ),
            Err(error) => result == Err::<(usize, DeviceDescriptor), Error>(error),
        },
{
    match result {
        Ok((index, _)) => index as int,
        Err(error) => {
            if exists|index: int| #[trigger]
                fails_at(devices, vendor_id, product_id, index, error) {
                choose|index: int| #[trigger]
                    fails_at(devices, vendor_id, product_id, index, error)
            } else {
                devices.len() as int
            }
        },
    }
}

/// The search for a readable endpoint has one outcome only.
pub proof fn lemma_endpoint_found_is_unique(
    device: Device,
    device_descriptor: DeviceDescriptor,
    transfer_type: TransferType,
    first: Result<EndPoint, Error>,
    second: Result<EndPoint, Error>,
)
    requires
        is_endpoint_found(device, device_descriptor, transfer_type, first),
        is_endpoint_found(device, device_descriptor, transfer_type, second),
    ensures
        first == second,
{
    if first is Ok && second is Ok {
        let p = choose|p: Position|
            {
                &&& #[trigger] device.readable_at(device_descriptor, transfer_type, p)
                &&& first->Ok_0 == device.end_point_at(p)
                &&& forall|q: Position| #[trigger]
                    device.readable_at(device_descriptor, transfer_type, q) ==> !q.precedes(p)
            };
        let q = choose|q: Position|
            {
                &&& #[trigger] device.readable_at(device_descriptor, transfer_type, q)
                &&& second->Ok_0 == device.end_point_at(q)
                &&& forall|r: Position| #[trigger]
                    device.readable_at(device_descriptor, transfer_type, r) ==> !r.precedes(q)
            };
        assert(!q.precedes(p));
        assert(!p.precedes(q));
        assert(p == q);
    } else if first is Ok {
        let p = choose|p: Position| #[trigger]
            device.readable_at(device_descriptor, transfer_type, p);
        assert(false);
    } else if second is Ok {
        let q = choose|q: Position| #[trigger]
            device.readable_at(device_descriptor, transfer_type, q);
        assert(false);
    }
}

} // verus!
