use virtio_transport::cap::{CapabilityRecord, CapabilitySet, ConfigType};
use virtio_transport::dispatch::DeviceKind;
use virtio_transport::transport::{build_transport, BarKind, BarRegion, VirtioError};

fn record(t: ConfigType, bar: u8, mult: u32) -> CapabilityRecord {
    CapabilityRecord {
        config_type: t,
        bar_index: bar,
        bar_offset: 0,
        length: 0x100,
        notify_multiplier: mult,
    }
}

fn full_set() -> CapabilitySet {
    CapabilitySet {
        common: Some(record(ConfigType::Common, 0, 0)),
        notify: Some(record(ConfigType::Notify, 1, 4)),
        isr: Some(record(ConfigType::Isr, 2, 0)),
        device: Some(record(ConfigType::Device, 3, 0)),
    }
}

fn bar(i: u8) -> BarRegion {
    BarRegion {
        bar_index: i,
        base: 0x1000_0000u64 * (i as u64 + 1),
        size: 0x1000,
        kind: BarKind::Memory,
    }
}

fn bars() -> Vec<Option<BarRegion>> {
    vec![Some(bar(0)), Some(bar(1)), Some(bar(2)), Some(bar(3)), None, None]
}

#[test]
fn build_succeeds_with_all_capabilities() {
    let t = build_transport(DeviceKind::Block, &full_set(), &bars()).expect("build");
    assert_eq!(t.device_type, DeviceKind::Block);
    assert_eq!(t.common_cfg, bar(0));
    assert_eq!(t.notify_region, bar(1));
    assert_eq!(t.notify_multiplier, 4);
    assert_eq!(t.isr_region, bar(2));
    assert_eq!(t.device_cfg, Some(bar(3)));
}

#[test]
fn build_missing_common_fails() {
    let mut set = full_set();
    set.common = None;
    let r = build_transport(DeviceKind::Block, &set, &bars());
    assert_eq!(r, Err(VirtioError::MissingCommonConfig));
}

#[test]
fn build_missing_notify_fails() {
    let mut set = full_set();
    set.notify = None;
    let r = build_transport(DeviceKind::Block, &set, &bars());
    assert_eq!(r, Err(VirtioError::MissingNotifyConfig));
}

#[test]
fn build_missing_isr_fails() {
    let mut set = full_set();
    set.isr = None;
    let r = build_transport(DeviceKind::Block, &set, &bars());
    assert_eq!(r, Err(VirtioError::MissingIsrConfig));
}

#[test]
fn build_without_device_capability_succeeds_with_none() {
    let mut set = full_set();
    set.device = None;
    let t = build_transport(DeviceKind::Block, &set, &bars()).expect("build");
    assert_eq!(t.device_cfg, None);
}

#[test]
fn build_odd_multiplier_fails_whatever_else_holds() {
    let mut set = full_set();
    set.notify = Some(record(ConfigType::Notify, 1, 3));
    let r = build_transport(DeviceKind::Block, &set, &bars());
    assert_eq!(r, Err(VirtioError::InvalidNotifyOffMultiplier(3)));

    // Still the same error when every BAR reference is dangling too.
    let empty_bars: Vec<Option<BarRegion>> = Vec::new();
    let r2 = build_transport(DeviceKind::Block, &set, &empty_bars);
    assert_eq!(r2, Err(VirtioError::InvalidNotifyOffMultiplier(3)));
}

#[test]
fn build_unresolved_bar_fails() {
    let mut set = full_set();
    set.isr = Some(record(ConfigType::Isr, 5, 0)); // bars()[5] is None
    let r = build_transport(DeviceKind::Block, &set, &bars());
    assert_eq!(r, Err(VirtioError::BarOffsetOutOfRange));

    let mut set2 = full_set();
    set2.common = Some(record(ConfigType::Common, 9, 0)); // out of table
    let r2 = build_transport(DeviceKind::Block, &set2, &bars());
    assert_eq!(r2, Err(VirtioError::BarOffsetOutOfRange));
}
