use virtio_transport::cap::{scan_capabilities, CapabilitySet, ConfigType, WordConfigSpace};

/// A config space of 32 words with one well-formed capability of each kind:
/// common at 0x40 (bar 0), notify at 0x50 (bar 1, multiplier 4), isr at
/// 0x64 (bar 2), device at 0x74 (bar 3).
fn synthetic_config() -> (WordConfigSpace, Vec<u16>) {
    let mut words = vec![0u32; 32];
    words[16] = 0x0110_0000; // common: cfg_type 1, cap_len 16
    words[17] = 0;
    words[18] = 0x0000;
    words[19] = 0x100;
    words[20] = 0x0214_0000; // notify: cfg_type 2, cap_len 20
    words[21] = 1;
    words[22] = 0x0000;
    words[23] = 0x100;
    words[24] = 4; // notify_off_multiplier
    words[25] = 0x0310_0000; // isr: cfg_type 3, cap_len 16
    words[26] = 2;
    words[27] = 0x0000;
    words[28] = 1;
    words[29] = 0x0410_0000; // device: cfg_type 4, cap_len 16
    words[30] = 3;
    words[31] = 0x200;
    let cs = WordConfigSpace { words };
    let offsets = vec![0x40u16, 0x50, 0x64, 0x74];
    (cs, offsets)
}

#[test]
fn scan_populates_all_four_kinds() {
    let (cs, offsets) = synthetic_config();
    let set = scan_capabilities(&cs, &offsets);

    let common = set.common.expect("common populated");
    assert_eq!(common.config_type, ConfigType::Common);
    assert_eq!(common.bar_index, 0);
    assert_eq!(common.bar_offset, 0);
    assert_eq!(common.length, 0x100);
    assert_eq!(common.notify_multiplier, 0);

    let notify = set.notify.expect("notify populated");
    assert_eq!(notify.config_type, ConfigType::Notify);
    assert_eq!(notify.bar_index, 1);
    assert_eq!(notify.notify_multiplier, 4);

    let isr = set.isr.expect("isr populated");
    assert_eq!(isr.config_type, ConfigType::Isr);
    assert_eq!(isr.bar_index, 2);
    assert_eq!(isr.length, 1);

    let device = set.device.expect("device populated");
    assert_eq!(device.config_type, ConfigType::Device);
    assert_eq!(device.bar_index, 3);
    // The device capability at 0x74 runs past the populated words: its
    // length field reads as zero.
    assert_eq!(device.length, 0);
}

#[test]
fn scan_ignores_duplicates_first_seen() {
    let (mut cs, mut offsets) = synthetic_config();
    // A second common capability at 0x00 pointing at bar 5 is appended to
    // the list after the first: it must be ignored.
    cs.words[0] = 0x0110_0000;
    cs.words[1] = 5;
    offsets.push(0x00);
    let set = scan_capabilities(&cs, &offsets);
    assert_eq!(set.common.unwrap().bar_index, 0);

    // Listed before the one at 0x40, it wins instead.
    let mut first = vec![0x00u16];
    first.extend_from_slice(&offsets[..4]);
    let set2 = scan_capabilities(&cs, &first);
    assert_eq!(set2.common.unwrap().bar_index, 5);
}

#[test]
fn scan_skips_short_entries_whatever_they_hold() {
    // cap_len 12 < 16, cfg_type 1 with a juicy-looking payload: never
    // populates anything.
    let words = vec![0x010c_0000u32, 2, 0x40, 0x100, 0, 0, 0, 0];
    let cs = WordConfigSpace { words };
    let set = scan_capabilities(&cs, &vec![0x00u16]);
    assert_eq!(set, CapabilitySet { common: None, notify: None, isr: None, device: None });
}

#[test]
fn scan_skips_notify_without_multiplier_room() {
    // A notify capability of cap_len 16 cannot hold its multiplier and is
    // skipped entirely.
    let words = vec![0x0210_0000u32, 1, 0, 0x100, 4, 0, 0, 0];
    let cs = WordConfigSpace { words };
    let set = scan_capabilities(&cs, &vec![0x00u16]);
    assert!(set.notify.is_none());
}

#[test]
fn scan_skips_unknown_kinds() {
    // cfg_type 9 is not a structure kind this driver knows.
    let words = vec![0x0910_0000u32, 1, 0, 0x100, 0, 0, 0, 0];
    let cs = WordConfigSpace { words };
    let set = scan_capabilities(&cs, &vec![0x00u16]);
    assert_eq!(set, CapabilitySet { common: None, notify: None, isr: None, device: None });
}
