use virtio_transport::cap::WordConfigSpace;
use virtio_transport::dispatch::{
    classify, dispatch_bus, BusDevice, DeviceKind, DispatchOutcome, FunctionInfo, HeaderKind,
};
use virtio_transport::transport::{BarKind, BarRegion, VirtioError};

fn info(vendor_id: u16, device_id: u16) -> FunctionInfo {
    FunctionInfo {
        vendor_id,
        device_id,
        class: 0x01,
        subclass: 0x00,
        prog_if: 0,
        revision: 1,
        header: HeaderKind::Standard,
    }
}

#[test]
fn classify_recognises_transitional_ids() {
    assert_eq!(classify(&info(0x1af4, 0x1000)), Some(DeviceKind::Network));
    assert_eq!(classify(&info(0x1af4, 0x1001)), Some(DeviceKind::Block));
    assert_eq!(classify(&info(0x1af4, 0x1002)), Some(DeviceKind::MemoryBalloon));
    assert_eq!(classify(&info(0x1af4, 0x1003)), Some(DeviceKind::Console));
    assert_eq!(classify(&info(0x1af4, 0x1004)), Some(DeviceKind::ScsiHost));
    assert_eq!(classify(&info(0x1af4, 0x1005)), Some(DeviceKind::EntropySource));
    assert_eq!(classify(&info(0x1af4, 0x1009)), Some(DeviceKind::NineP));
}

#[test]
fn classify_recognises_modern_ids() {
    assert_eq!(classify(&info(0x1af4, 0x1041)), Some(DeviceKind::Network));
    assert_eq!(classify(&info(0x1af4, 0x1042)), Some(DeviceKind::Block));
    // The old balloon code is answered under the balloon's own code.
    assert_eq!(classify(&info(0x1af4, 0x1045)), Some(DeviceKind::MemoryBalloon));
    assert_eq!(classify(&info(0x1af4, 0x1050)), Some(DeviceKind::Other(16)));
    assert_eq!(classify(&info(0x1af4, 0x1059)), Some(DeviceKind::Other(25)));
}

#[test]
fn classify_skips_foreign_functions() {
    assert_eq!(classify(&info(0x8086, 0x1001)), None);
    assert_eq!(classify(&info(0x1af4, 0x0001)), None);
    assert_eq!(classify(&info(0x1af4, 0x100a)), None); // gap in the tables
    assert_eq!(classify(&info(0x1af4, 0x104e)), None); // ids 14 and 15 are unassigned
    assert_eq!(classify(&info(0x1af4, 0x105a)), None); // past the last assigned id
}

/// A config space with the three mandatory capabilities; `with_common`
/// false leaves the common capability out.
fn config(with_common: bool) -> WordConfigSpace {
    let mut words = vec![0u32; 32];
    if with_common {
        words[16] = 0x0110_0000;
        words[17] = 0;
        words[19] = 0x100;
    }
    words[20] = 0x0214_0000;
    words[21] = 1;
    words[23] = 0x100;
    words[24] = 4;
    words[25] = 0x0310_0000;
    words[26] = 2;
    words[28] = 1;
    WordConfigSpace { words }
}

fn bars() -> Vec<Option<BarRegion>> {
    let bar = |i: u8| BarRegion {
        bar_index: i,
        base: 0x1000_0000u64 * (i as u64 + 1),
        size: 0x1000,
        kind: BarKind::Memory,
    };
    vec![Some(bar(0)), Some(bar(1)), Some(bar(2))]
}

fn bus_device(vendor_id: u16, device_id: u16, with_common: bool) -> BusDevice<WordConfigSpace> {
    BusDevice {
        info: info(vendor_id, device_id),
        config: config(with_common),
        cap_offsets: vec![0x40, 0x50, 0x64],
        bars: bars(),
    }
}

#[test]
fn dispatch_continues_past_broken_devices() {
    let devices = vec![
        bus_device(0x8086, 0x1001, true),  // not virtio
        bus_device(0x1af4, 0x1001, false), // block, common capability missing
        bus_device(0x1af4, 0x1000, true),  // network: no driver here
        bus_device(0x1af4, 0x1042, true),  // block, fine
    ];
    let outcomes = dispatch_bus(&devices);
    assert_eq!(outcomes.len(), 4);
    assert_eq!(outcomes[0], DispatchOutcome::NotVirtio);
    assert_eq!(
        outcomes[1],
        DispatchOutcome::TransportFailed(VirtioError::MissingCommonConfig)
    );
    assert_eq!(outcomes[2], DispatchOutcome::Unsupported(DeviceKind::Network));
    match &outcomes[3] {
        DispatchOutcome::Ready(t) => {
            assert_eq!(t.device_type, DeviceKind::Block);
            assert_eq!(t.notify_multiplier, 4);
            assert_eq!(t.notify_region.base, 0x2000_0000);
        },
        other => panic!("expected a transport, got {:?}", other),
    }
}
