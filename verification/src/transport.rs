//! The transport handle assembled from scanned capabilities, and the errors
//! of capability validation and bring-up.

use vstd::prelude::*;
use crate::cap::CapabilitySet;
use crate::dispatch::DeviceKind;

verus! {

/// Whether a base address register window is memory- or I/O-mapped.
#[derive(Clone, Copy, Debug, PartialEq, Eq, Structural)]
pub enum BarKind {
    Memory,
    Io,
}

/// A resolved base address register: a window of a device's registers.
#[derive(Clone, Copy, Debug, PartialEq, Eq, Structural)]
pub struct BarRegion {
    /// Index of the register in the device's BAR table.
    pub bar_index: u8,
    /// Bus-assigned physical base of the window.
    pub base: u64,
    /// Size of the window in bytes.
    pub size: u64,
    /// Memory- or I/O-mapped.
    pub kind: BarKind,
}

/// Why a device could not be validated, brought up or served.
#[derive(Clone, Copy, Debug, PartialEq, Eq, Structural)]
pub enum VirtioError {
    /// The mandatory common-configuration capability is absent.
    MissingCommonConfig,
    /// The mandatory notification capability is absent.
    MissingNotifyConfig,
    /// The mandatory ISR-status capability is absent.
    MissingIsrConfig,
    /// A capability points at a BAR index with no resolved region.
    BarOffsetOutOfRange,
    /// The notification offset multiplier is odd and cannot produce valid
    /// per-queue notify offsets.
    InvalidNotifyOffMultiplier(u32),
    /// The device did not echo `FEATURES_OK` back: it rejected the feature
    /// set the driver wrote.
    FeaturesNotAccepted,
    /// The device reported `FAILED` status during bring-up.
    DeviceFailed,
    /// The device asked for a reset during bring-up.
    DeviceNeedsReset,
    /// The DMA pool had no room for the requested pages.
    AllocationFailed,
    /// The device has no device-specific configuration structure.
    ConfigSpaceMissing,
    /// A device-specific configuration access fell outside the structure.
    ConfigSpaceTooSmall,
}

/// The validated transport of one virtio-pci device: where its register
/// structures sit.  Immutable once built; only bring-up may construct one.
#[derive(Clone, Copy, Debug, PartialEq, Eq, Structural)]
pub struct Transport {
    /// The device class the function announced.
    pub device_type: DeviceKind,
    /// Window of the common configuration structure.
    pub common_cfg: BarRegion,
    /// Window of the queue notification region.
    pub notify_region: BarRegion,
    /// Byte distance between the notify slots of consecutive notify offsets.
    pub notify_multiplier: u32,
    /// Window of the ISR status byte.
    pub isr_region: BarRegion,
    /// Window of the device-specific configuration, for device classes that
    /// have one.
    pub device_cfg: Option<BarRegion>,
}

/// The region the BAR table resolves index `idx` to, if any.
pub open spec fn resolve_bar_spec(bars: Seq<Option<BarRegion>>, idx: u8) -> Option<BarRegion> {
    if (idx as int) < bars.len() {
        bars[idx as int]
    } else {
        None
    }
}

/// What building a transport from `set` over the BAR table `bars` yields:
/// the three mandatory capabilities are demanded first, then the notify
/// multiplier must be even, then every referenced BAR must resolve.  The
/// device-specific capability alone is optional.
pub open spec fn build_spec(
    kind: DeviceKind,
    set: CapabilitySet,
    bars: Seq<Option<BarRegion>>,
) -> Result<Transport, VirtioError> {
    if set.common is None {
        Err(VirtioError::MissingCommonConfig)
    } else if set.notify is None {
        Err(VirtioError::MissingNotifyConfig)
    } else if set.isr is None {
        Err(VirtioError::MissingIsrConfig)
    } else if set.notify->Some_0.notify_multiplier % 2 != 0 {
        Err(VirtioError::InvalidNotifyOffMultiplier(set.notify->Some_0.notify_multiplier))
    } else if resolve_bar_spec(bars, set.common->Some_0.bar_index) is None {
        Err(VirtioError::BarOffsetOutOfRange)
    } else if resolve_bar_spec(bars, set.notify->Some_0.bar_index) is None {
        Err(VirtioError::BarOffsetOutOfRange)
    } else if resolve_bar_spec(bars, set.isr->Some_0.bar_index) is None {
        Err(VirtioError::BarOffsetOutOfRange)
    } else if set.device matches Some(d) && resolve_bar_spec(bars, d.bar_index) is None {
        Err(VirtioError::BarOffsetOutOfRange)
    } else {
        Ok(Transport {
            device_type: kind,
            common_cfg: resolve_bar_spec(bars, set.common->Some_0.bar_index)->Some_0,
            notify_region: resolve_bar_spec(bars, set.notify->Some_0.bar_index)->Some_0,
            notify_multiplier: set.notify->Some_0.notify_multiplier,
            isr_region: resolve_bar_spec(bars, set.isr->Some_0.bar_index)->Some_0,
            device_cfg: match set.device {
                Some(d) => Some(resolve_bar_spec(bars, d.bar_index)->Some_0),
                None => None,
            },
        })
    }
}

/// Look a BAR index up in the resolved table; `None` marks an index the bus
/// assigned no region to.
pub fn resolve_bar(bars: &Vec<Option<BarRegion>>, idx: u8) -> (r: Option<BarRegion>)
    ensures
        r == resolve_bar_spec(bars@, idx),
{
    if (idx as usize) < bars.len() {
        bars[idx as usize]
    } else {
        None
    }
}

/// Validate a scanned capability set against the device's resolved BAR
/// table and assemble the transport.  No register is touched before this
/// succeeds.
pub fn build_transport(
    kind: DeviceKind,
    set: &CapabilitySet,
    bars: &Vec<Option<BarRegion>>,
) -> (r: Result<Transport, VirtioError>)
    ensures
        r == build_spec(kind, *set, bars@),
{
    let common = match set.common {
        Some(c) => c,
        None => {
            return Err(VirtioError::MissingCommonConfig);
        },
    };
    let notify = match set.notify {
        Some(n) => n,
        None => {
            return Err(VirtioError::MissingNotifyConfig);
        },
    };
    let isr = match set.isr {
        Some(s) => s,
        None => {
            return Err(VirtioError::MissingIsrConfig);
        },
    };
    if notify.notify_multiplier % 2 != 0 {
        return Err(VirtioError::InvalidNotifyOffMultiplier(notify.notify_multiplier));
    }
    let common_cfg = match resolve_bar(bars, common.bar_index) {
        Some(region) => region,
        None => {
            return Err(VirtioError::BarOffsetOutOfRange);
        },
    };
    let notify_region = match resolve_bar(bars, notify.bar_index) {
        Some(region) => region,
        None => {
            return Err(VirtioError::BarOffsetOutOfRange);
        },
    };
    let isr_region = match resolve_bar(bars, isr.bar_index) {
        Some(region) => region,
        None => {
            return Err(VirtioError::BarOffsetOutOfRange);
        },
    };
    let device_cfg = match set.device {
        Some(d) => match resolve_bar(bars, d.bar_index) {
            Some(region) => Some(region),
            None => {
                return Err(VirtioError::BarOffsetOutOfRange);
            },
        },
        None => None,
    };
    Ok(Transport {
        device_type: kind,
        common_cfg,
        notify_region,
        notify_multiplier: notify.notify_multiplier,
        isr_region,
        device_cfg,
    })
}

/// Law: the builder fails with a missing-capability error exactly for the
/// first absent mandatory capability, in the order common, notify, ISR.
pub proof fn lemma_build_missing(kind: DeviceKind, set: CapabilitySet, bars: Seq<Option<BarRegion>>)
    ensures
        build_spec(kind, set, bars) == Err::<Transport, VirtioError>(
            VirtioError::MissingCommonConfig,
        ) <==> set.common is None,
        build_spec(kind, set, bars) == Err::<Transport, VirtioError>(
            VirtioError::MissingNotifyConfig,
        ) <==> set.common is Some && set.notify is None,
        build_spec(kind, set, bars) == Err::<Transport, VirtioError>(
            VirtioError::MissingIsrConfig,
        ) <==> set.common is Some && set.notify is Some && set.isr is None,
{
}

/// Law: when the three mandatory capabilities are present, an odd notify
/// multiplier always yields `InvalidNotifyOffMultiplier`, whatever the other
/// fields hold.  (An absent mandatory capability is reported first.)
pub proof fn lemma_build_odd_multiplier(
    kind: DeviceKind,
    set: CapabilitySet,
    bars: Seq<Option<BarRegion>>,
)
    requires
        set.common is Some,
        set.notify is Some,
        set.isr is Some,
        set.notify->Some_0.notify_multiplier % 2 != 0,
    ensures
        build_spec(kind, set, bars) == Err::<Transport, VirtioError>(
            VirtioError::InvalidNotifyOffMultiplier(set.notify->Some_0.notify_multiplier),
        ),
{
}

/// Law: a built transport carries a device-specific window exactly when the
/// device-specific capability was scanned; its absence alone never fails
/// the build.
pub proof fn lemma_build_device_optional(
    kind: DeviceKind,
    set: CapabilitySet,
    bars: Seq<Option<BarRegion>>,
)
    requires
        build_spec(kind, set, bars) is Ok,
    ensures
        build_spec(kind, set, bars)->Ok_0.device_cfg is None <==> set.device is None,
{
}

} // verus!
