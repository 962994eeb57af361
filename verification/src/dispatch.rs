//! Classifying a discovered PCI function as a virtio device and handing a
//! validated transport to the matching device-class driver.

use vstd::prelude::*;
use virtio_drivers::transport::pci::bus::{DeviceFunctionInfo, HeaderType};
use virtio_drivers::transport::pci::virtio_device_type;
use crate::cap::{CapabilitySet, ConfigAccess, scan_capabilities, scan_spec};
use crate::transport::{BarRegion, Transport, VirtioError, build_transport, build_spec};

verus! {

/// The PCI vendor id under which virtio devices appear.
pub const VIRTIO_VENDOR: u16 = 0x1af4;

/// The virtio device classes this crate tells apart.  Every class that a
/// transitional PCI device id can announce has a variant of its own; any
/// other class keeps its raw virtio device-type code.
#[derive(Clone, Copy, Debug, PartialEq, Eq, Structural)]
pub enum DeviceKind {
    Network,
    Block,
    Console,
    EntropySource,
    ScsiHost,
    NineP,
    MemoryBalloon,
    Other(u8),
}

/// The kind that a raw virtio device-type code names.
pub open spec fn kind_of_code_spec(code: u8) -> DeviceKind {
    if code == 1 {
        DeviceKind::Network
    } else if code == 2 {
        DeviceKind::Block
    } else if code == 3 {
        DeviceKind::Console
    } else if code == 4 {
        DeviceKind::EntropySource
    } else if code == 8 {
        DeviceKind::ScsiHost
    } else if code == 9 {
        DeviceKind::NineP
    } else if code == 13 {
        DeviceKind::MemoryBalloon
    } else {
        DeviceKind::Other(code)
    }
}

/// Name the device class behind a raw virtio device-type code.
pub fn kind_of_code(code: u8) -> (r: DeviceKind)
    ensures
        r == kind_of_code_spec(code),
{
    match code {
        1 => DeviceKind::Network,
        2 => DeviceKind::Block,
        3 => DeviceKind::Console,
        4 => DeviceKind::EntropySource,
        8 => DeviceKind::ScsiHost,
        9 => DeviceKind::NineP,
        13 => DeviceKind::MemoryBalloon,
        c => DeviceKind::Other(c),
    }
}

/// PCI function header kinds, as the bus enumerator reports them.
#[derive(Clone, Copy, Debug, PartialEq, Eq, Structural)]
pub enum HeaderKind {
    Standard,
    PciPciBridge,
    CardBusBridge,
    Unknown(u8),
}

/// Identity of one discovered PCI function, as the bus enumerator hands it
/// over.
#[derive(Clone, Copy, Debug, PartialEq, Eq, Structural)]
pub struct FunctionInfo {
    pub vendor_id: u16,
    pub device_id: u16,
    pub class: u8,
    pub subclass: u8,
    pub prog_if: u8,
    pub revision: u8,
    pub header: HeaderKind,
}

/// The virtio device-type code a raw virtio device id names, if any:
/// ids 1 through 13 and 16 through 25 are assigned, and id 5 is the older
/// spelling of the memory balloon, reported under the balloon's own code.
pub open spec fn canonical_code(id: int) -> Option<u8> {
    if id == 5 {
        Some(13u8)
    } else if 1 <= id <= 13 || 16 <= id <= 25 {
        Some(id as u8)
    } else {
        None
    }
}

/// The virtio device-type code behind a PCI (vendor, device) id pair:
/// virtio functions carry vendor id 0x1af4; transitional device ids have a
/// fixed table, and modern device ids announce 0x1040 plus the type code.
pub open spec fn virtio_type_code_spec(vendor_id: u16, device_id: u16) -> Option<u8> {
    if vendor_id != VIRTIO_VENDOR {
        None
    } else if device_id == 0x1000 {
        Some(1u8)
    } else if device_id == 0x1001 {
        Some(2u8)
    } else if device_id == 0x1002 {
        Some(13u8)
    } else if device_id == 0x1003 {
        Some(3u8)
    } else if device_id == 0x1004 {
        Some(8u8)
    } else if device_id == 0x1005 {
        Some(4u8)
    } else if device_id == 0x1009 {
        Some(9u8)
    } else if device_id >= 0x1040 {
        canonical_code(device_id - 0x1040)
    } else {
        None
    }
}

/// Relies on `virtio_drivers::transport::pci::virtio_device_type`, which
/// recognises a virtio function by vendor id 0x1af4 and reads nothing but
/// the vendor and device ids: transitional device ids 0x1000..=0x1005 and
/// 0x1009 map through a fixed table, modern ids are 0x1040 plus the type
/// code, and the type codes are the `repr(u8)` values of its device-type
/// enum (the old balloon id 5 canonicalised to 13).
#[verifier::external_body]
fn virtio_type_code(info: &FunctionInfo) -> (r: Option<u8>)
    ensures
        r == virtio_type_code_spec(info.vendor_id, info.device_id),
{
    let header_type = match info.header {
        HeaderKind::Standard => HeaderType::Standard,
        HeaderKind::PciPciBridge => HeaderType::PciPciBridge,
        HeaderKind::CardBusBridge => HeaderType::PciCardbusBridge,
        HeaderKind::Unknown(v) => HeaderType::Unrecognised(v),
    };
    let info = DeviceFunctionInfo {
        vendor_id: info.vendor_id, device_id: info.device_id, class: info.class,
        subclass: info.subclass, prog_if: info.prog_if, revision: info.revision, header_type,
    };
    virtio_device_type(&info).map(|t| t as u8)
}

/// The device class a discovered function announces, if it is a virtio
/// function at all.
pub open spec fn classify_spec(info: FunctionInfo) -> Option<DeviceKind> {
    match virtio_type_code_spec(info.vendor_id, info.device_id) {
        Some(code) => Some(kind_of_code_spec(code)),
        None => None,
    }
}

/// Classify a discovered PCI function: `None` for a function outside this
/// driver's interest, the virtio device class otherwise.
pub fn classify(info: &FunctionInfo) -> (r: Option<DeviceKind>)
    ensures
        r == classify_spec(*info),
{
    match virtio_type_code(info) {
        Some(code) => Some(kind_of_code(code)),
        None => None,
    }
}

/// What became of one discovered function.  A device the dispatcher cannot
/// serve is skipped, never an error: the bus may host devices outside this
/// driver's interest.
#[derive(Clone, Copy, Debug, PartialEq, Eq, Structural)]
pub enum DispatchOutcome {
    /// Not a virtio function.
    NotVirtio,
    /// A virtio device class without a driver here; noted and skipped.
    Unsupported(DeviceKind),
    /// A virtio function whose capabilities did not validate; noted and
    /// skipped.
    TransportFailed(VirtioError),
    /// A validated transport, ready for the block device-class driver.
    Ready(Transport),
}

/// One discovered function with everything the dispatcher reads: its
/// identity, its configuration space, the offsets of its vendor-specific
/// capabilities, and its resolved BAR table.
pub struct BusDevice<C> {
    pub info: FunctionInfo,
    pub config: C,
    pub cap_offsets: Vec<u16>,
    pub bars: Vec<Option<BarRegion>>,
}

/// The outcome the dispatcher owes one discovered function: classify,
/// scan, validate, and hand a transport to the one device class served
/// here (block).
pub open spec fn dispatch_spec<C: ConfigAccess>(d: BusDevice<C>) -> DispatchOutcome {
    match classify_spec(d.info) {
        None => DispatchOutcome::NotVirtio,
        Some(kind) => {
            let set = scan_spec(CapabilitySet::empty_spec(), &d.config, d.cap_offsets@);
            match build_spec(kind, set, d.bars@) {
                Err(e) => DispatchOutcome::TransportFailed(e),
                Ok(t) => if kind is Block {
                    DispatchOutcome::Ready(t)
                } else {
                    DispatchOutcome::Unsupported(kind)
                },
            }
        },
    }
}

/// Handle one discovered function: classify it, scan its capability list,
/// validate the transport, and dispatch.  Failures are outcomes, not
/// panics: the caller goes on with the next device.
pub fn dispatch_device<C: ConfigAccess>(d: &BusDevice<C>) -> (r: DispatchOutcome)
    ensures
        r == dispatch_spec(*d),
{
    let kind = match classify(&d.info) {
        Some(kind) => kind,
        None => {
            return DispatchOutcome::NotVirtio;
        },
    };
    let set = scan_capabilities(&d.config, &d.cap_offsets);
    match build_transport(kind, &set, &d.bars) {
        Err(e) => DispatchOutcome::TransportFailed(e),
        Ok(t) => match kind {
            DeviceKind::Block => DispatchOutcome::Ready(t),
            _ => DispatchOutcome::Unsupported(kind),
        },
    }
}

/// Walk every discovered function and dispatch each in turn.  One
/// malformed or unsupported device never stops the walk: the outcome list
/// answers one entry per device, in order.
pub fn dispatch_bus<C: ConfigAccess>(devices: &Vec<BusDevice<C>>) -> (r: Vec<DispatchOutcome>)
    ensures
        r@.len() == devices@.len(),
        forall|i: int| 0 <= i < devices@.len() ==> r@[i] == dispatch_spec(devices@[i]),
{
    let mut outcomes: Vec<DispatchOutcome> = Vec::new();
    let mut i: usize = 0;
    while i < devices.len()
        invariant
            i <= devices@.len(),
            outcomes@.len() == i,
            forall|j: int| 0 <= j < i ==> outcomes@[j] == dispatch_spec(devices@[j]),
        decreases devices@.len() - i,
    {
        let outcome = dispatch_device(&devices[i]);
        outcomes.push(outcome);
        i = i + 1;
    }
    outcomes
}

} // verus!
