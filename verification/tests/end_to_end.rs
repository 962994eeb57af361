use virtio_transport::cap::{scan_capabilities, WordConfigSpace};
use virtio_transport::dispatch::DeviceKind;
use virtio_transport::protocol::{
    bring_up, DeviceModel, NotifyWrite, QueueState, STATUS_ACKNOWLEDGE, STATUS_DRIVER,
    STATUS_DRIVER_OK, STATUS_FEATURES_OK,
};
use virtio_transport::transport::{build_transport, BarKind, BarRegion};

/// Bring a synthetic block device all the way up: common, notify and ISR
/// capabilities at BARs 0, 1 and 2, a notify multiplier of 4, and offered
/// feature bitmask 1.  A single queue is configured and notified once; the
/// one write must be value 0 at the notify region's base.
#[test]
fn synthetic_device_reaches_driver_ok_and_notifies() {
    let mut words = vec![0u32; 32];
    words[16] = 0x0110_0000; // common, bar 0
    words[17] = 0;
    words[19] = 0x100;
    words[20] = 0x0214_0000; // notify, bar 1
    words[21] = 1;
    words[23] = 0x100;
    words[24] = 4; // notify_off_multiplier
    words[25] = 0x0310_0000; // isr, bar 2
    words[26] = 2;
    words[28] = 1;
    let cs = WordConfigSpace { words };

    let set = scan_capabilities(&cs, &vec![0x40, 0x50, 0x64]);
    let bar = |i: u8, base: u64| BarRegion { bar_index: i, base, size: 0x1000, kind: BarKind::Memory };
    let bars = vec![
        Some(bar(0, 0x4000_0000)),
        Some(bar(1, 0x4001_0000)),
        Some(bar(2, 0x4002_0000)),
    ];
    let transport = build_transport(DeviceKind::Block, &set, &bars).expect("transport");
    assert_eq!(transport.notify_region.base, 0x4001_0000);
    assert_eq!(transport.notify_multiplier, 4);
    assert_eq!(transport.device_cfg, None);

    let mut dev = DeviceModel {
        device_features: 0x1,
        driver_features: 0,
        device_feature_select: 0,
        driver_feature_select: 0,
        queue_select: 0,
        queues: vec![QueueState {
            max_size: 8,
            size: 0,
            enabled: false,
            notify_off: 0,
            desc_addr: 0,
            driver_addr: 0,
            device_addr: 0,
        }],
        status: 0,
        isr: 0,
        generation: 0,
        accepts_features: true,
        config: Vec::new(),
        notify_log: Vec::new(),
    };

    let negotiated = bring_up(&mut dev, 0x1).expect("bring-up");
    assert_eq!(negotiated, 0x1);
    assert_eq!(
        dev.status,
        STATUS_ACKNOWLEDGE | STATUS_DRIVER | STATUS_FEATURES_OK | STATUS_DRIVER_OK
    );

    dev.queue_set(0, 8, 0x10_0000, 0x10_1000, 0x10_2000);
    transport.notify(&mut dev, 0);
    assert_eq!(dev.notify_log, vec![NotifyWrite { addr: 0x4001_0000, value: 0 }]);
}
