//! The virtio register protocol: status state machine, feature negotiation,
//! queue configuration, notification, interrupt acknowledgement and
//! generation-checked configuration access.
//!
//! Register traffic is modelled against [`DeviceModel`], a register-level
//! model of one virtio-pci device: every operation states exactly which
//! registers it reads or writes and what the device does in answer.  The
//! model covers the device's documented register behaviour; events that only
//! real hardware can raise asynchronously (a spontaneous `FAILED` or
//! `DEVICE_NEEDS_RESET` status) it never raises itself, but the driver-side
//! code still checks for them as the protocol demands.

use vstd::prelude::*;
use crate::transport::{Transport, VirtioError};
use crate::dma::PAGE_SIZE;

verus! {

/// Status bit: the driver noticed the device.
pub const STATUS_ACKNOWLEDGE: u8 = 1;
/// Status bit: the driver knows how to drive the device.
pub const STATUS_DRIVER: u8 = 2;
/// Status bit: the driver is ready; queues may be notified.
pub const STATUS_DRIVER_OK: u8 = 4;
/// Status bit: feature negotiation is complete, pending the device's echo.
pub const STATUS_FEATURES_OK: u8 = 8;
/// Status bit: the device hit an error and wants a reset.
pub const STATUS_DEVICE_NEEDS_RESET: u8 = 64;
/// Status bit: the driver gave the device up.
pub const STATUS_FAILED: u8 = 128;

/// The per-queue registers of the common configuration structure, as the
/// device holds them once the queue is selected.
#[derive(Clone, Copy, Debug, PartialEq, Eq, Structural)]
pub struct QueueState {
    /// Largest queue size the device supports here (device read-only).
    pub max_size: u16,
    /// Queue size the driver configured.
    pub size: u16,
    /// Whether the queue is enabled.
    pub enabled: bool,
    /// The queue's notification offset within the notify region, in units
    /// of the notify multiplier.
    pub notify_off: u16,
    /// Physical address of the descriptor area.
    pub desc_addr: u64,
    /// Physical address of the driver area.
    pub driver_addr: u64,
    /// Physical address of the device area.
    pub device_addr: u64,
}

/// One 16-bit write into the notify region.
#[derive(Clone, Copy, Debug, PartialEq, Eq, Structural)]
pub struct NotifyWrite {
    /// Physical address the write went to.
    pub addr: u64,
    /// The value written: the queue index.
    pub value: u16,
}

/// Register-level model of one virtio-pci device.  The fields are the
/// registers and latches the virtio-pci specification gives the device;
/// `notify_log` records every write into the notify region, newest last,
/// so that contracts can pin down exactly where notification traffic went.
pub struct DeviceModel {
    /// Feature bits the device offers (device read-only).
    pub device_features: u64,
    /// Feature bits the driver accepted (driver write-only).
    pub driver_features: u64,
    /// Selector for the device-feature word: 0 reads bits 0..32, 1 bits 32..64.
    pub device_feature_select: u32,
    /// Selector for the driver-feature word.
    pub driver_feature_select: u32,
    /// Which queue the per-queue registers address.
    pub queue_select: u16,
    /// The per-queue registers, indexed by queue.
    pub queues: Vec<QueueState>,
    /// The device status byte.
    pub status: u8,
    /// Pending-interrupt bits; bit 0 a queue interrupt, bit 1 a
    /// configuration change.  Cleared by the read itself.
    pub isr: u8,
    /// Configuration-change generation counter.
    pub generation: u32,
    /// Whether the device accepts the negotiated feature set: a device may
    /// refuse to echo `FEATURES_OK`.
    pub accepts_features: bool,
    /// The device-specific configuration bytes.
    pub config: Vec<u8>,
    /// Every write into the notify region so far, oldest first.
    pub notify_log: Vec<NotifyWrite>,
}

/// A status write the bring-up state machine may issue over current status
/// `cur`: zero (the reset), or an additive write that keeps every set bit
/// and, once `FEATURES_OK` is set, adds nothing beyond `DRIVER_OK`.
pub open spec fn status_write_allowed(cur: u8, new: u8) -> bool {
    ||| new == 0
    ||| (cur & new == cur && (cur & STATUS_FEATURES_OK != 0 ==> new & !cur & !STATUS_DRIVER_OK
        == 0))
}

/// Law: status writes are monotonic within one bring-up sequence — an
/// allowed non-reset write keeps every bit already set, and once
/// `FEATURES_OK` is set it can add no bit but `DRIVER_OK`.
pub proof fn lemma_status_monotonic(cur: u8, new: u8)
    requires
        status_write_allowed(cur, new),
        new != 0,
    ensures
        forall|b: u8| cur & b != 0 ==> new & b != 0,
        cur & STATUS_FEATURES_OK != 0 ==> new & !cur == new & !cur & STATUS_DRIVER_OK,
{
    assert forall|b: u8| cur & b != 0 implies new & b != 0 by {
        let c = cur;
        let n = new;
        assert(c & n == c && c & b != 0 ==> n & b != 0) by (bit_vector);
    }
    assert(new & !cur & !STATUS_DRIVER_OK == 0 ==> new & !cur == new & !cur & STATUS_DRIVER_OK)
        by (bit_vector);
}

/// What the queue registers hold after a reset: disabled, size and
/// addresses cleared, the device-owned fields kept.
pub open spec fn reset_queue_spec(q: QueueState) -> QueueState {
    QueueState {
        max_size: q.max_size,
        size: 0,
        enabled: false,
        notify_off: q.notify_off,
        desc_addr: 0,
        driver_addr: 0,
        device_addr: 0,
    }
}

/// `post` is `pre` after a device reset: status, feature latches, selectors,
/// pending interrupts and queue configuration clear; what the device itself
/// owns (offered features, queue capacities, notify offsets, configuration
/// bytes, generation) is kept, and the notify log is history, not a register.
pub open spec fn reset_state(pre: DeviceModel, post: DeviceModel) -> bool {
    &&& post.device_features == pre.device_features
    &&& post.driver_features == 0
    &&& post.device_feature_select == 0
    &&& post.driver_feature_select == 0
    &&& post.queue_select == 0
    &&& post.queues@ == pre.queues@.map_values(|q: QueueState| reset_queue_spec(q))
    &&& post.status == 0
    &&& post.isr == 0
    &&& post.generation == pre.generation
    &&& post.accepts_features == pre.accepts_features
    &&& post.config == pre.config
    &&& post.notify_log == pre.notify_log
}

/// The status byte a device in state `dev` latches when `new` is written:
/// the value itself, unless the device is unwilling to accept the
/// negotiated features, in which case it masks `FEATURES_OK` out instead of
/// echoing it.
pub open spec fn latched_status(dev: DeviceModel, new: u8) -> u8 {
    if dev.accepts_features {
        new
    } else {
        new & !STATUS_FEATURES_OK
    }
}

impl DeviceModel {
    /// Write `new` to the status register.  Writing zero is the reset; the
    /// bring-up state machine only ever issues allowed writes (zero, or an
    /// additive step), and the design contract demands as much of every
    /// caller.
    pub fn set_status(&mut self, new: u8)
        requires
            status_write_allowed(old(self).status, new),
        ensures
            new == 0 ==> reset_state(*old(self), *final(self)),
            new != 0 ==> *final(self) == (DeviceModel {
                status: latched_status(*old(self), new),
                ..*old(self)
            }),
    {
        if new == 0 {
            self.driver_features = 0;
            self.device_feature_select = 0;
            self.driver_feature_select = 0;
            self.queue_select = 0;
            self.status = 0;
            self.isr = 0;
            let ghost pre = *self;
            let n = self.queues.len();
            let mut i: usize = 0;
            while i < n
                invariant
                    i <= n,
                    n == self.queues.len(),
                    self.queues@.len() == pre.queues@.len(),
                    forall|j: int|
                        0 <= j < i ==> self.queues@[j] == reset_queue_spec(pre.queues@[j]),
                    forall|j: int| i <= j < n ==> self.queues@[j] == pre.queues@[j],
                    *self == (DeviceModel { queues: self.queues, ..pre }),
                decreases n - i,
            {
                let q = self.queues[i];
                self.queues[i] = QueueState {
                    max_size: q.max_size,
                    size: 0,
                    enabled: false,
                    notify_off: q.notify_off,
                    desc_addr: 0,
                    driver_addr: 0,
                    device_addr: 0,
                };
                i = i + 1;
            }
            proof {
                assert(self.queues@ =~= pre.queues@.map_values(
                    |q: QueueState| reset_queue_spec(q),
                ));
            }
        } else {
            if self.accepts_features {
                self.status = new;
            } else {
                self.status = new & !STATUS_FEATURES_OK;
            }
        }
    }

    /// Read the status register.
    pub fn get_status(&self) -> (r: u8)
        ensures
            r == self.status,
    {
        self.status
    }

    /// Read the 64-bit device feature set: select the low word, read it,
    /// select the high word, read it.  The two round trips compose one
    /// logical read; only the selector register is left changed.
    pub fn read_device_features(&mut self) -> (r: u64)
        ensures
            r == old(self).device_features,
            *final(self) == (DeviceModel { device_feature_select: 1u32, ..*old(self) }),
    {
        self.device_feature_select = 0;
        let lo = #[verifier::truncate] (self.device_features as u32);
        self.device_feature_select = 1;
        let hi = #[verifier::truncate] ((self.device_features >> 32) as u32);
        let r = (lo as u64) | ((hi as u64) << 32);
        proof {
            let f = self.device_features;
            assert(((f as u32) as u64) | ((((f >> 32) as u32) as u64) << 32) == f) by (bit_vector);
        }
        r
    }

    /// Write the 64-bit driver feature set: select the low word, write it,
    /// select the high word, write it.  Callers must not assume atomicity
    /// across the pair.
    pub fn write_driver_features(&mut self, features: u64)
        ensures
            *final(self) == (DeviceModel {
                driver_features: features,
                driver_feature_select: 1u32,
                ..*old(self)
            }),
    {
        self.driver_feature_select = 0;
        let lo = #[verifier::truncate] (features as u32);
        self.driver_feature_select = 1;
        let hi = #[verifier::truncate] ((features >> 32) as u32);
        let combined = (lo as u64) | ((hi as u64) << 32);
        proof {
            assert(((features as u32) as u64) | ((((features >> 32) as u32) as u64) << 32)
                == features) by (bit_vector);
        }
        self.driver_features = combined;
    }

    /// Largest size the device supports for `queue`: select the queue, read
    /// its size register.  A queue index beyond the device reads as 0.
    pub fn max_queue_size(&mut self, queue: u16) -> (r: u32)
        ensures
            *final(self) == (DeviceModel { queue_select: queue, ..*old(self) }),
            r == (if (queue as int) < old(self).queues@.len() {
                old(self).queues@[queue as int].max_size as u32
            } else {
                0u32
            }),
    {
        self.queue_select = queue;
        if (queue as usize) < self.queues.len() {
            self.queues[queue as usize].max_size as u32
        } else {
            0
        }
    }

    /// Configure and enable `queue`: select it, write its size and the
    /// physical addresses of its three areas.  The size must be a power of
    /// two no larger than the device's maximum, and the addresses must be
    /// page-aligned; the memory ownership layer is the sole issuer of such
    /// addresses, which must stay valid for the queue's lifetime.
    pub fn queue_set(&mut self, queue: u16, size: u32, desc_addr: u64, driver_addr: u64, device_addr: u64)
        requires
            (queue as int) < old(self).queues@.len(),
            is_power_of_two(size as int),
            size <= old(self).queues@[queue as int].max_size,
            desc_addr % PAGE_SIZE as u64 == 0,
            driver_addr % PAGE_SIZE as u64 == 0,
            device_addr % PAGE_SIZE as u64 == 0,
        ensures
            *final(self) == (DeviceModel {
                queue_select: queue,
                queues: final(self).queues,
                ..*old(self)
            }),
            final(self).queues@ == old(self).queues@.update(
                queue as int,
                QueueState {
                    max_size: old(self).queues@[queue as int].max_size,
                    size: size as u16,
                    enabled: true,
                    notify_off: old(self).queues@[queue as int].notify_off,
                    desc_addr,
                    driver_addr,
                    device_addr,
                },
            ),
    {
        self.queue_select = queue;
        let q = self.queues[queue as usize];
        proof {
            assert(size <= u16::MAX) by {
                assert(q.max_size <= u16::MAX);
            }
        }
        self.queues[queue as usize] = QueueState {
            max_size: q.max_size,
            size: size as u16,
            enabled: true,
            notify_off: q.notify_off,
            desc_addr,
            driver_addr,
            device_addr,
        };
    }

    /// Disable `queue` and clear its configuration: select it, zero its
    /// registers.  Callers serialize this against in-flight notification
    /// for the same queue.
    pub fn queue_unset(&mut self, queue: u16)
        requires
            (queue as int) < old(self).queues@.len(),
        ensures
            *final(self) == (DeviceModel {
                queue_select: queue,
                queues: final(self).queues,
                ..*old(self)
            }),
            final(self).queues@ == old(self).queues@.update(
                queue as int,
                reset_queue_spec(old(self).queues@[queue as int]),
            ),
    {
        self.queue_select = queue;
        let q = self.queues[queue as usize];
        self.queues[queue as usize] = QueueState {
            max_size: q.max_size,
            size: 0,
            enabled: false,
            notify_off: q.notify_off,
            desc_addr: 0,
            driver_addr: 0,
            device_addr: 0,
        };
    }

    /// Whether `queue` is enabled: select it, read its enable register.
    pub fn queue_used(&mut self, queue: u16) -> (r: bool)
        requires
            (queue as int) < old(self).queues@.len(),
        ensures
            *final(self) == (DeviceModel { queue_select: queue, ..*old(self) }),
            r == old(self).queues@[queue as int].enabled,
    {
        self.queue_select = queue;
        self.queues[queue as usize].enabled
    }

    /// Read and thereby clear the ISR status byte.  Returns whether a queue
    /// or configuration-change interrupt was pending; the read clears
    /// atomically, so it must happen exactly once per interrupt.
    pub fn ack_interrupt(&mut self) -> (r: bool)
        ensures
            *final(self) == (DeviceModel { isr: 0u8, ..*old(self) }),
            r == (old(self).isr & 3 != 0),
    {
        let pending = self.isr;
        self.isr = 0;
        pending & 3 != 0
    }

    /// Read the configuration-change generation counter.  A caller reading
    /// a multi-field configuration structure must read this before and
    /// after the fields and retry if it changed.
    pub fn read_config_generation(&self) -> (r: u32)
        ensures
            r == self.generation,
    {
        self.generation
    }
}

/// The physical address `queue`'s notification slot resolves to: the base
/// of the notify region plus the queue's notify offset times the
/// multiplier.
pub open spec fn notify_addr_spec(t: Transport, dev: DeviceModel, queue: u16) -> int {
    t.notify_region.base + dev.queues@[queue as int].notify_off * t.notify_multiplier
}

impl Transport {
    /// The device class this transport serves.
    pub fn device_type(&self) -> (r: crate::dispatch::DeviceKind)
        ensures
            r == self.device_type,
    {
        self.device_type
    }

    /// The modern virtio-pci layout has no guest page size register; the
    /// write is dropped.
    pub fn set_guest_page_size(&self, _guest_page_size: u32)
    {
    }

    /// The modern virtio-pci layout never requires the legacy layout.
    pub fn requires_legacy_layout(&self) -> (r: bool)
        ensures
            r == false,
    {
        false
    }

    /// Signal the device that `queue` has new work: write the queue index,
    /// once, to the queue's slot in the notify region.  This is the hot
    /// path — nothing beyond the bounds of the slot is validated, and no
    /// register outside the notify region is touched.  The queue must be
    /// live (`DRIVER_OK` set) and must not be reconfigured concurrently.
    pub fn notify(&self, dev: &mut DeviceModel, queue: u16)
        requires
            (queue as int) < old(dev).queues@.len(),
            old(dev).status & STATUS_DRIVER_OK != 0,
            self.notify_region.base + self.notify_region.size <= u64::MAX,
            old(dev).queues@[queue as int].notify_off * self.notify_multiplier + 2
                <= self.notify_region.size,
        ensures
            *final(dev) == (DeviceModel { notify_log: final(dev).notify_log, ..*old(dev) }),
            final(dev).notify_log@ == old(dev).notify_log@.push(
                NotifyWrite { addr: notify_addr_spec(*self, *old(dev), queue) as u64, value: queue },
            ),
    {
        let off = dev.queues[queue as usize].notify_off;
        let addr = self.notify_region.base + (off as u64) * (self.notify_multiplier as u64);
        dev.notify_log.push(NotifyWrite { addr, value: queue });
    }

    /// Read the byte at `offset` of the device-specific configuration
    /// structure.  Fails if the device has no such structure or the offset
    /// falls outside it.
    pub fn read_config_u8(&self, dev: &DeviceModel, offset: usize) -> (r: Result<u8, VirtioError>)
        ensures
            r == (if self.device_cfg is None {
                Err::<u8, VirtioError>(VirtioError::ConfigSpaceMissing)
            } else if offset + 1 > dev.config@.len() {
                Err::<u8, VirtioError>(VirtioError::ConfigSpaceTooSmall)
            } else {
                Ok::<u8, VirtioError>(dev.config@[offset as int])
            }),
    {
        if self.device_cfg.is_none() {
            return Err(VirtioError::ConfigSpaceMissing);
        }
        if offset >= dev.config.len() {
            return Err(VirtioError::ConfigSpaceTooSmall);
        }
        Ok(dev.config[offset])
    }

    /// Read the little-endian 32-bit word at `offset` of the
    /// device-specific configuration structure.  Multi-field readers must
    /// bracket their reads with [`DeviceModel::read_config_generation`].
    pub fn read_config_u32(&self, dev: &DeviceModel, offset: usize) -> (r: Result<
        u32,
        VirtioError,
    >)
        ensures
            r == (if self.device_cfg is None {
                Err::<u32, VirtioError>(VirtioError::ConfigSpaceMissing)
            } else if offset + 4 > dev.config@.len() {
                Err::<u32, VirtioError>(VirtioError::ConfigSpaceTooSmall)
            } else {
                Ok::<u32, VirtioError>(le_u32_at(dev.config@, offset as int))
            }),
    {
        if self.device_cfg.is_none() {
            return Err(VirtioError::ConfigSpaceMissing);
        }
        if dev.config.len() < 4 || offset > dev.config.len() - 4 {
            return Err(VirtioError::ConfigSpaceTooSmall);
        }
        let b0 = dev.config[offset];
        let b1 = dev.config[offset + 1];
        let b2 = dev.config[offset + 2];
        let b3 = dev.config[offset + 3];
        Ok((b0 as u32) | ((b1 as u32) << 8) | ((b2 as u32) << 16) | ((b3 as u32) << 24))
    }

    /// Write the little-endian 32-bit word at `offset` of the
    /// device-specific configuration structure.
    pub fn write_config_u32(&self, dev: &mut DeviceModel, offset: usize, value: u32) -> (r:
        Result<(), VirtioError>)
        ensures
            self.device_cfg is None ==> r == Err::<(), VirtioError>(
                VirtioError::ConfigSpaceMissing,
            ) && *final(dev) == *old(dev),
            self.device_cfg is Some && offset + 4 > old(dev).config@.len() ==> r == Err::<
                (),
                VirtioError,
            >(VirtioError::ConfigSpaceTooSmall) && *final(dev) == *old(dev),
            self.device_cfg is Some && offset + 4 <= old(dev).config@.len() ==> r == Ok::<
                (),
                VirtioError,
            >(()) && *final(dev) == (DeviceModel { config: final(dev).config, ..*old(dev) })
                && final(dev).config@ == le_u32_put(old(dev).config@, offset as int, value),
    {
        if self.device_cfg.is_none() {
            return Err(VirtioError::ConfigSpaceMissing);
        }
        if dev.config.len() < 4 || offset > dev.config.len() - 4 {
            return Err(VirtioError::ConfigSpaceTooSmall);
        }
        dev.config[offset] = #[verifier::truncate] (value as u8);
        dev.config[offset + 1] = #[verifier::truncate] ((value >> 8) as u8);
        dev.config[offset + 2] = #[verifier::truncate] ((value >> 16) as u8);
        dev.config[offset + 3] = #[verifier::truncate] ((value >> 24) as u8);
        proof {
            assert(dev.config@ =~= le_u32_put(old(dev).config@, offset as int, value));
        }
        Ok(())
    }
}

/// The little-endian 32-bit value stored at byte `i` of `bytes`.
pub open spec fn le_u32_at(bytes: Seq<u8>, i: int) -> u32 {
    (bytes[i] as u32) | ((bytes[i + 1] as u32) << 8) | ((bytes[i + 2] as u32) << 16) | ((bytes[i
        + 3] as u32) << 24)
}

/// `bytes` with the little-endian 32-bit value `v` stored at byte `i`.
pub open spec fn le_u32_put(bytes: Seq<u8>, i: int, v: u32) -> Seq<u8> {
    bytes.update(i, v as u8).update(i + 1, (v >> 8) as u8).update(i + 2, (v >> 16) as u8).update(
        i + 3,
        (v >> 24) as u8,
    )
}

/// Law: reading back a word just written to the configuration bytes yields
/// the written value.
pub proof fn lemma_config_word_roundtrip(bytes: Seq<u8>, i: int, v: u32)
    requires
        0 <= i,
        i + 4 <= bytes.len(),
    ensures
        le_u32_at(le_u32_put(bytes, i, v), i) == v,
{
    assert(((v as u8) as u32) | ((((v >> 8) as u8) as u32) << 8) | ((((v >> 16) as u8) as u32)
        << 16) | ((((v >> 24) as u8) as u32) << 24) == v) by (bit_vector);
}

/// Drive the bring-up state machine over a freshly discovered device:
/// reset, `ACKNOWLEDGE`, `DRIVER`, read the offered features, accept those
/// in `supported`, write `FEATURES_OK`, verify the device echoed it, then
/// `DRIVER_OK`.  On success the negotiated feature set is returned and the
/// device is live.  If the device refuses the features, the driver marks
/// the device `FAILED` and reports `FeaturesNotAccepted`; a `FAILED` or
/// `DEVICE_NEEDS_RESET` bit observed on the way aborts bring-up the same
/// way the specification demands.
pub fn bring_up(dev: &mut DeviceModel, supported: u64) -> (r: Result<u64, VirtioError>)
    ensures
        old(dev).accepts_features ==> r == Ok::<u64, VirtioError>(
            old(dev).device_features & supported,
        ) && final(dev).status == STATUS_ACKNOWLEDGE | STATUS_DRIVER | STATUS_FEATURES_OK
            | STATUS_DRIVER_OK,
        !old(dev).accepts_features ==> r == Err::<u64, VirtioError>(
            VirtioError::FeaturesNotAccepted,
        ) && final(dev).status == STATUS_ACKNOWLEDGE | STATUS_DRIVER | STATUS_FAILED,
        final(dev).driver_features == old(dev).device_features & supported,
        final(dev).device_features == old(dev).device_features,
        final(dev).queues@ == old(dev).queues@.map_values(|q: QueueState| reset_queue_spec(q)),
        final(dev).queue_select == 0,
        final(dev).isr == 0,
        final(dev).generation == old(dev).generation,
        final(dev).accepts_features == old(dev).accepts_features,
        final(dev).config == old(dev).config,
        final(dev).notify_log == old(dev).notify_log,
{
    proof {
        assert({
            &&& 0u8 & STATUS_ACKNOWLEDGE == 0
            &&& 0u8 & STATUS_FEATURES_OK == 0
            &&& STATUS_ACKNOWLEDGE & !STATUS_FEATURES_OK == STATUS_ACKNOWLEDGE
            &&& STATUS_ACKNOWLEDGE & (STATUS_ACKNOWLEDGE | STATUS_DRIVER) == STATUS_ACKNOWLEDGE
            &&& STATUS_ACKNOWLEDGE & STATUS_FEATURES_OK == 0
            &&& (STATUS_ACKNOWLEDGE | STATUS_DRIVER) & !STATUS_FEATURES_OK == (STATUS_ACKNOWLEDGE
                | STATUS_DRIVER)
            &&& (STATUS_ACKNOWLEDGE | STATUS_DRIVER) & (STATUS_ACKNOWLEDGE | STATUS_DRIVER
                | STATUS_FEATURES_OK) == (STATUS_ACKNOWLEDGE | STATUS_DRIVER)
            &&& (STATUS_ACKNOWLEDGE | STATUS_DRIVER) & STATUS_FEATURES_OK == 0
            &&& (STATUS_ACKNOWLEDGE | STATUS_DRIVER | STATUS_FEATURES_OK) & !STATUS_FEATURES_OK
                == (STATUS_ACKNOWLEDGE | STATUS_DRIVER)
            &&& (STATUS_ACKNOWLEDGE | STATUS_DRIVER | STATUS_FEATURES_OK) & STATUS_FAILED == 0
            &&& (STATUS_ACKNOWLEDGE | STATUS_DRIVER) & STATUS_FAILED == 0
            &&& (STATUS_ACKNOWLEDGE | STATUS_DRIVER | STATUS_FEATURES_OK)
                & STATUS_DEVICE_NEEDS_RESET == 0
            &&& (STATUS_ACKNOWLEDGE | STATUS_DRIVER) & STATUS_DEVICE_NEEDS_RESET == 0
            &&& (STATUS_ACKNOWLEDGE | STATUS_DRIVER | STATUS_FEATURES_OK) & STATUS_FEATURES_OK
                != 0
            &&& (STATUS_ACKNOWLEDGE | STATUS_DRIVER) & ((STATUS_ACKNOWLEDGE | STATUS_DRIVER)
                | STATUS_FAILED) == (STATUS_ACKNOWLEDGE | STATUS_DRIVER)
            &&& ((STATUS_ACKNOWLEDGE | STATUS_DRIVER) | STATUS_FAILED) & !STATUS_FEATURES_OK == (
            (STATUS_ACKNOWLEDGE | STATUS_DRIVER) | STATUS_FAILED)
            &&& ((STATUS_ACKNOWLEDGE | STATUS_DRIVER) | STATUS_FAILED) == (STATUS_ACKNOWLEDGE
                | STATUS_DRIVER | STATUS_FAILED)
            &&& (STATUS_ACKNOWLEDGE | STATUS_DRIVER | STATUS_FEATURES_OK) & (STATUS_ACKNOWLEDGE
                | STATUS_DRIVER | STATUS_FEATURES_OK | STATUS_DRIVER_OK) == (STATUS_ACKNOWLEDGE
                | STATUS_DRIVER | STATUS_FEATURES_OK)
            &&& (STATUS_ACKNOWLEDGE | STATUS_DRIVER | STATUS_FEATURES_OK | STATUS_DRIVER_OK) & !(
            STATUS_ACKNOWLEDGE | STATUS_DRIVER | STATUS_FEATURES_OK) & !STATUS_DRIVER_OK == 0
            &&& STATUS_ACKNOWLEDGE != 0
            &&& (STATUS_ACKNOWLEDGE | STATUS_DRIVER) != 0
            &&& (STATUS_ACKNOWLEDGE | STATUS_DRIVER | STATUS_FEATURES_OK) != 0
            &&& ((STATUS_ACKNOWLEDGE | STATUS_DRIVER) | STATUS_FAILED) != 0
            &&& (STATUS_ACKNOWLEDGE | STATUS_DRIVER | STATUS_FEATURES_OK | STATUS_DRIVER_OK) != 0
        }) by (bit_vector);
    }
    dev.set_status(0);
    dev.set_status(STATUS_ACKNOWLEDGE);
    dev.set_status(STATUS_ACKNOWLEDGE | STATUS_DRIVER);
    let offered = dev.read_device_features();
    let negotiated = offered & supported;
    dev.write_driver_features(negotiated);
    dev.set_status(STATUS_ACKNOWLEDGE | STATUS_DRIVER | STATUS_FEATURES_OK);
    let st = dev.get_status();
    if st & STATUS_FAILED != 0 {
        return Err(VirtioError::DeviceFailed);
    }
    if st & STATUS_DEVICE_NEEDS_RESET != 0 {
        return Err(VirtioError::DeviceNeedsReset);
    }
    if st & STATUS_FEATURES_OK == 0 {
        dev.set_status(st | STATUS_FAILED);
        return Err(VirtioError::FeaturesNotAccepted);
    }
    dev.set_status(STATUS_ACKNOWLEDGE | STATUS_DRIVER | STATUS_FEATURES_OK | STATUS_DRIVER_OK);
    Ok(negotiated)
}

/// `n` is a power of two.
pub open spec fn is_power_of_two(n: int) -> bool
    decreases n,
{
    if n <= 0 {
        false
    } else if n == 1 {
        true
    } else {
        n % 2 == 0 && is_power_of_two(n / 2)
    }
}

} // verus!
