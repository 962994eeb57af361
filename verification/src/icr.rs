//! Composing interrupt-command register values for the inter-processor
//! interrupts that boot application cores.
//!
//! The 64-bit interrupt command word packs several fields; the functions
//! here extract and set them as plain bit arithmetic, and compose the two
//! commands the boot path issues (INIT, and STARTUP with a vector).  The
//! volatile reads and writes of the local interrupt controller's registers
//! stay outside this crate; everything here is value to value.

use vstd::prelude::*;

verus! {

/// Byte offset of the high interrupt command register.
pub const INTERRUPT_COMMAND_REGISTER_HIGH: u32 = 0x310;

/// Byte offset of the low interrupt command register.
pub const INTERRUPT_COMMAND_REGISTER_LOW: u32 = 0x300;

/// Default base address of the interrupt controller's registers.
pub const APIC_BASE: u32 = 0xfee00000;

/// Delivery mode: initialization interrupt.
pub const DELIVERY_MODE_INIT: u64 = 5;
/// Delivery mode: dedicated startup interrupt.
pub const DELIVERY_MODE_STARTUP: u64 = 6;
/// Interrupt level: assert.
pub const LEVEL_ASSERT: u64 = 1;
/// Destination shorthand: all cores but the current one.
pub const TARGET_ALL_EXCLUDING_CURRENT: u64 = 3;

/// How an inter-processor interrupt is triggered.
#[derive(Clone, Copy, Debug, PartialEq, Eq, Structural)]
pub enum IpiTriggerMode {
    EdgeTriggered,
    LevelTriggered,
}

/// The trigger-mode field value an [`IpiTriggerMode`] encodes to.
pub open spec fn trigger_mode_code_spec(m: IpiTriggerMode) -> u64 {
    match m {
        IpiTriggerMode::EdgeTriggered => 0,
        IpiTriggerMode::LevelTriggered => 1,
    }
}

/// Encode a trigger mode as its field value.
pub fn trigger_mode_code(m: IpiTriggerMode) -> (r: u64)
    ensures
        r == trigger_mode_code_spec(m),
{
    match m {
        IpiTriggerMode::EdgeTriggered => 0,
        IpiTriggerMode::LevelTriggered => 1,
    }
}

/// Interrupt vector: bits 0..8 of the command word.
pub open spec fn icr_vector(bits: u64) -> u64 {
    bits & 0xff
}

/// Delivery mode: bits 8..11.
pub open spec fn icr_delivery_mode(bits: u64) -> u64 {
    (bits >> 8) & 7
}

/// Destination mode: bit 11.
pub open spec fn icr_destination_mode(bits: u64) -> u64 {
    (bits >> 11) & 1
}

/// Delivery status: bit 12; zero when the controller is idle.
pub open spec fn icr_delivery_status(bits: u64) -> u64 {
    (bits >> 12) & 1
}

/// Interrupt level: bit 14.
pub open spec fn icr_level(bits: u64) -> u64 {
    (bits >> 14) & 1
}

/// Trigger mode: bit 15.
pub open spec fn icr_trigger_mode(bits: u64) -> u64 {
    (bits >> 15) & 1
}

/// Destination shorthand: bits 18..20.
pub open spec fn icr_destination_target(bits: u64) -> u64 {
    (bits >> 18) & 3
}

/// Destination field: bits 56..64.
pub open spec fn icr_destination(bits: u64) -> u64 {
    (bits >> 56) & 0xff
}

/// Whether the low command word reports the controller idle, so the next
/// command may be written.  The register poll loops on this.
pub fn icr_ready(low: u32) -> (r: bool)
    ensures
        r == (icr_delivery_status(low as u64) == 0),
{
    proof {
        let l = low;
        assert(((l >> 12) & 1 == 0) == (((l as u64) >> 12) & 1 == 0)) by (bit_vector);
    }
    (low >> 12) & 1 == 0
}

/// Rebuild the 64-bit command word from the two 32-bit register reads.
pub fn combine_icr(low: u32, high: u32) -> (r: u64)
    ensures
        r & 0xffffffff == low,
        r >> 32 == high,
{
    let r = (low as u64) | ((high as u64) << 32);
    proof {
        let l = low;
        let h = high;
        assert((((l as u64) | ((h as u64) << 32)) & 0xffffffff == l) && (((l as u64) | ((
        h as u64) << 32)) >> 32 == h)) by (bit_vector);
    }
    r
}

/// Split a 64-bit command word into the two 32-bit register writes, high
/// word first.
pub fn split_icr(val: u64) -> (r: (u32, u32))
    ensures
        r.0 == val >> 32,
        r.1 == val & 0xffffffff,
{
    let high = (val >> 32) as u32;
    let low = (val & 0xffffffff) as u32;
    proof {
        let v = val;
        assert(((v >> 32) as u32 == v >> 32) && ((v & 0xffffffff) as u32 == v & 0xffffffff))
            by (bit_vector);
    }
    (high, low)
}

/// `bits` with the fields every boot command sets: the given vector,
/// delivery mode, asserted level, edge trigger, and the all-but-current
/// destination shorthand; every other bit of `bits` is kept.
pub open spec fn boot_command_spec(bits: u64, vector: u64, mode: u64) -> u64 {
    (bits & 0xffffffff_fff3_3800) | vector | (mode << 8) | (LEVEL_ASSERT << 14) | (
    TARGET_ALL_EXCLUDING_CURRENT << 18)
}

/// Compose a boot command over the current command word `bits`: set the
/// vector and delivery-mode fields, assert the level, pick edge
/// triggering, address all cores but the current one, and keep every
/// field outside those.
fn boot_command(bits: u64, vector: u8, mode: u64) -> (r: u64)
    requires
        mode == DELIVERY_MODE_INIT || mode == DELIVERY_MODE_STARTUP,
    ensures
        r == boot_command_spec(bits, vector as u64, mode),
        icr_vector(r) == vector,
        icr_delivery_mode(r) == mode,
        icr_level(r) == LEVEL_ASSERT,
        icr_trigger_mode(r) == 0,
        icr_destination_target(r) == TARGET_ALL_EXCLUDING_CURRENT,
        icr_destination_mode(r) == icr_destination_mode(bits),
        icr_destination(r) == icr_destination(bits),
{
    let r = (bits & 0xffffffff_fff3_3800) | (vector as u64) | (mode << 8) | (LEVEL_ASSERT << 14)
        | (TARGET_ALL_EXCLUDING_CURRENT << 18);
    proof {
        let b = bits;
        let v = vector;
        let m = mode;
        assert({
            let c = (b & 0xffffffff_fff3_3800) | (v as u64) | (m << 8) | (1u64 << 14) | (3u64
                << 18);
            (m == 5 || m == 6) ==> {
                &&& c & 0xff == v as u64
                &&& (c >> 8) & 7 == m
                &&& (c >> 14) & 1 == 1
                &&& (c >> 15) & 1 == 0
                &&& (c >> 18) & 3 == 3
                &&& (c >> 11) & 1 == (b >> 11) & 1
                &&& (c >> 56) & 0xff == (b >> 56) & 0xff
            }
        }) by (bit_vector);
    }
    r
}

/// The command word that re-initializes the application cores: an INIT
/// command with vector 0 over the current command word.
pub fn init_command(bits: u64) -> (r: u64)
    ensures
        r == boot_command_spec(bits, 0, DELIVERY_MODE_INIT),
        icr_vector(r) == 0,
        icr_delivery_mode(r) == DELIVERY_MODE_INIT,
        icr_level(r) == LEVEL_ASSERT,
        icr_trigger_mode(r) == 0,
        icr_destination_target(r) == TARGET_ALL_EXCLUDING_CURRENT,
        icr_destination_mode(r) == icr_destination_mode(bits),
        icr_destination(r) == icr_destination(bits),
{
    boot_command(bits, 0, DELIVERY_MODE_INIT)
}

/// The command word that starts the application cores at `vector`: a
/// STARTUP command over the current command word.
pub fn startup_command(bits: u64, vector: u8) -> (r: u64)
    ensures
        r == boot_command_spec(bits, vector as u64, DELIVERY_MODE_STARTUP),
        icr_vector(r) == vector,
        icr_delivery_mode(r) == DELIVERY_MODE_STARTUP,
        icr_level(r) == LEVEL_ASSERT,
        icr_trigger_mode(r) == 0,
        icr_destination_target(r) == TARGET_ALL_EXCLUDING_CURRENT,
        icr_destination_mode(r) == icr_destination_mode(bits),
        icr_destination(r) == icr_destination(bits),
{
    boot_command(bits, vector, DELIVERY_MODE_STARTUP)
}

} // verus!
