use virtio_transport::icr::{
    combine_icr, icr_ready, init_command, split_icr, startup_command, trigger_mode_code,
    IpiTriggerMode, APIC_BASE, INTERRUPT_COMMAND_REGISTER_HIGH, INTERRUPT_COMMAND_REGISTER_LOW,
};

#[test]
fn init_command_sets_exactly_the_boot_fields() {
    // Current word: destination 0xab, logical destination mode, and some
    // reserved bits set; all of those must survive.
    let current: u64 = (0xab << 56) | (1 << 11) | (0xf << 20) | 0x3f;
    let cmd = init_command(current);
    assert_eq!(cmd & 0xff, 0); // vector cleared
    assert_eq!((cmd >> 8) & 7, 5); // INIT delivery mode
    assert_eq!((cmd >> 11) & 1, 1); // destination mode kept
    assert_eq!((cmd >> 14) & 1, 1); // level asserted
    assert_eq!((cmd >> 15) & 1, 0); // edge triggered
    assert_eq!((cmd >> 18) & 3, 3); // all cores but the current one
    assert_eq!((cmd >> 20) & 0xf, 0xf); // reserved bits kept
    assert_eq!(cmd >> 56, 0xab); // destination kept
}

#[test]
fn startup_command_carries_the_vector() {
    let cmd = startup_command(0, 0x08);
    assert_eq!(cmd & 0xff, 0x08);
    assert_eq!((cmd >> 8) & 7, 6); // STARTUP delivery mode
    assert_eq!((cmd >> 14) & 1, 1);
    assert_eq!((cmd >> 18) & 3, 3);
    assert_eq!(cmd >> 56, 0);
}

#[test]
fn split_and_combine_are_inverses() {
    let word: u64 = 0x0123_4567_89ab_cdef;
    let (high, low) = split_icr(word);
    assert_eq!(high, 0x0123_4567);
    assert_eq!(low, 0x89ab_cdef);
    assert_eq!(combine_icr(low, high), word);
}

#[test]
fn ready_watches_the_delivery_status_bit() {
    assert!(icr_ready(0));
    assert!(icr_ready(0xffff_efff));
    assert!(!icr_ready(1 << 12));
}

#[test]
fn trigger_modes_encode_their_field_values() {
    assert_eq!(trigger_mode_code(IpiTriggerMode::EdgeTriggered), 0);
    assert_eq!(trigger_mode_code(IpiTriggerMode::LevelTriggered), 1);
}

#[test]
fn register_locations_are_the_documented_ones() {
    assert_eq!(APIC_BASE, 0xfee0_0000);
    assert_eq!(INTERRUPT_COMMAND_REGISTER_LOW, 0x300);
    assert_eq!(INTERRUPT_COMMAND_REGISTER_HIGH, 0x310);
}
