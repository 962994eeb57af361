//! Scanning a device's vendor-specific PCI capabilities for the virtio
//! structure locations (common, notify, ISR and device configuration).

use vstd::prelude::*;

verus! {

/// Capability code of the common configuration structure.
pub const CFG_TYPE_COMMON: u8 = 1;
/// Capability code of the notification structure.
pub const CFG_TYPE_NOTIFY: u8 = 2;
/// Capability code of the ISR status structure.
pub const CFG_TYPE_ISR: u8 = 3;
/// Capability code of the device-specific configuration structure.
pub const CFG_TYPE_DEVICE: u8 = 4;

/// The four virtio structure kinds a vendor capability may describe.
#[derive(Clone, Copy, Debug, PartialEq, Eq, Structural)]
pub enum ConfigType {
    Common,
    Notify,
    Isr,
    Device,
}

/// Read access to one device's PCI configuration space, 32-bit words at byte
/// offsets.  The scanner is generic over this, so a synthetic configuration
/// space can stand in for the bus-wide accessor of a real machine.
pub trait ConfigAccess {
    /// The word a read at byte offset `offset` returns.
    spec fn word_at(&self, offset: int) -> u32;

    /// Read the 32-bit word at byte offset `offset`.
    fn read_word(&self, offset: u32) -> (r: u32)
        ensures
            r == self.word_at(offset as int),
    ;
}

/// A configuration space held as plain words: word `i` sits at byte offset
/// `4 * i`; reads outside the populated range, or misaligned reads, return 0.
pub struct WordConfigSpace {
    pub words: Vec<u32>,
}

impl ConfigAccess for WordConfigSpace {
    open spec fn word_at(&self, offset: int) -> u32 {
        if 0 <= offset && offset % 4 == 0 && offset / 4 < self.words.len() {
            self.words@[offset / 4]
        } else {
            0
        }
    }

    fn read_word(&self, offset: u32) -> (r: u32) {
        let idx = (offset / 4) as usize;
        if offset % 4 == 0 && idx < self.words.len() {
            self.words[idx]
        } else {
            0
        }
    }
}

/// One virtio structure location, extracted from a vendor capability.
///
/// `notify_multiplier` is meaningful only for `Notify` records; every other
/// record carries 0 there.
#[derive(Clone, Copy, Debug, PartialEq, Eq, Structural)]
pub struct CapabilityRecord {
    /// Which structure the record locates.
    pub config_type: ConfigType,
    /// The BAR in which the structure can be found.
    pub bar_index: u8,
    /// Byte offset of the structure within that BAR.
    pub bar_offset: u32,
    /// Length in bytes of the structure within the BAR.
    pub length: u32,
    /// Per-queue notification offset multiplier (`Notify` records only).
    pub notify_multiplier: u32,
}

/// At most one record per structure kind; the first occurrence of a kind in
/// the capability list wins, later duplicates are ignored.
#[derive(Clone, Copy, Debug, PartialEq, Eq, Structural)]
pub struct CapabilitySet {
    pub common: Option<CapabilityRecord>,
    pub notify: Option<CapabilityRecord>,
    pub isr: Option<CapabilityRecord>,
    pub device: Option<CapabilityRecord>,
}

impl CapabilitySet {
    /// The set with no record of any kind.
    pub fn empty() -> (r: CapabilitySet)
        ensures
            r == CapabilitySet::empty_spec(),
    {
        CapabilitySet { common: None, notify: None, isr: None, device: None }
    }

    /// The set with no record of any kind.
    pub open spec fn empty_spec() -> CapabilitySet {
        CapabilitySet { common: None, notify: None, isr: None, device: None }
    }

    /// The slot that holds records of kind `t`.
    pub open spec fn slot(self, t: ConfigType) -> Option<CapabilityRecord> {
        match t {
            ConfigType::Common => self.common,
            ConfigType::Notify => self.notify,
            ConfigType::Isr => self.isr,
            ConfigType::Device => self.device,
        }
    }
}

/// `cap_len` of a capability whose private header word reads `header`:
/// bits 16..24 of the word.
pub open spec fn cap_len_of(header: u32) -> u8 {
    (header >> 16) as u8
}

/// `cfg_type` of a capability whose private header word reads `header`:
/// bits 24..32 of the word.
pub open spec fn cfg_type_of(header: u32) -> u8 {
    (header >> 24) as u8
}

/// The record that a well-formed capability of kind `t` at byte offset `off`
/// decodes to: `bar` at `off + 4`, `bar_offset` at `off + 8`, `length` at
/// `off + 12`, and for `Notify` capabilities the multiplier at `off + 16`.
pub open spec fn record_at<C: ConfigAccess>(cs: &C, off: u16, t: ConfigType) -> CapabilityRecord {
    CapabilityRecord {
        config_type: t,
        bar_index: cs.word_at(off + 4) as u8,
        bar_offset: cs.word_at(off + 8),
        length: cs.word_at(off + 12),
        notify_multiplier: if t is Notify {
            cs.word_at(off + 16)
        } else {
            0
        },
    }
}

/// How one capability-list entry changes the set being collected: entries
/// shorter than 16 bytes are malformed and skipped, unknown kinds are
/// skipped, a notify entry must reach 20 bytes to hold its multiplier, and a
/// kind whose slot is already filled is ignored.
pub open spec fn scan_step<C: ConfigAccess>(set: CapabilitySet, cs: &C, off: u16) -> CapabilitySet {
    let header = cs.word_at(off as int);
    let len = cap_len_of(header);
    let t = cfg_type_of(header);
    if len < 16 {
        set
    } else if t == CFG_TYPE_COMMON && set.common is None {
        CapabilitySet { common: Some(record_at(cs, off, ConfigType::Common)), ..set }
    } else if t == CFG_TYPE_NOTIFY && len >= 20 && set.notify is None {
        CapabilitySet { notify: Some(record_at(cs, off, ConfigType::Notify)), ..set }
    } else if t == CFG_TYPE_ISR && set.isr is None {
        CapabilitySet { isr: Some(record_at(cs, off, ConfigType::Isr)), ..set }
    } else if t == CFG_TYPE_DEVICE && set.device is None {
        CapabilitySet { device: Some(record_at(cs, off, ConfigType::Device)), ..set }
    } else {
        set
    }
}

/// The set collected by walking the entries at `offs`, left to right,
/// starting from `set`.
pub open spec fn scan_spec<C: ConfigAccess>(set: CapabilitySet, cs: &C, offs: Seq<u16>) -> CapabilitySet
    decreases offs.len(),
{
    if offs.len() == 0 {
        set
    } else {
        scan_spec(scan_step(set, cs, offs[0]), cs, offs.skip(1))
    }
}

proof fn lemma_scan_snoc<C: ConfigAccess>(set: CapabilitySet, cs: &C, offs: Seq<u16>, off: u16)
    ensures
        scan_spec(set, cs, offs.push(off)) == scan_step(scan_spec(set, cs, offs), cs, off),
    decreases offs.len(),
{
    if offs.len() == 0 {
        assert(offs.push(off)[0] == off);
        assert(offs.push(off).skip(1) =~= Seq::<u16>::empty());
        assert(scan_spec(set, cs, offs.push(off)) == scan_spec(
            scan_step(set, cs, off),
            cs,
            Seq::<u16>::empty(),
        ));
        assert(scan_spec(set, cs, offs) == set);
    } else {
        assert(offs.push(off)[0] == offs[0]);
        assert(offs.push(off).skip(1) =~= offs.skip(1).push(off));
        assert(scan_spec(set, cs, offs.push(off)) == scan_spec(
            scan_step(set, cs, offs[0]),
            cs,
            offs.skip(1).push(off),
        ));
        lemma_scan_snoc(scan_step(set, cs, offs[0]), cs, offs.skip(1), off);
        assert(scan_spec(set, cs, offs) == scan_spec(scan_step(set, cs, offs[0]), cs, offs.skip(1)));
    }
}

/// The capability code that announces kind `t`.
pub open spec fn type_code(t: ConfigType) -> u8 {
    match t {
        ConfigType::Common => CFG_TYPE_COMMON,
        ConfigType::Notify => CFG_TYPE_NOTIFY,
        ConfigType::Isr => CFG_TYPE_ISR,
        ConfigType::Device => CFG_TYPE_DEVICE,
    }
}

/// The entry at `off` is a well-formed capability of kind `t`: its code
/// matches and it is long enough to carry every field the kind needs.
pub open spec fn wf_entry<C: ConfigAccess>(cs: &C, off: u16, t: ConfigType) -> bool {
    let header = cs.word_at(off as int);
    &&& cfg_type_of(header) == type_code(t)
    &&& cap_len_of(header) >= 16
    &&& (t is Notify ==> cap_len_of(header) >= 20)
}

/// Index of the first entry in `offs` that is well formed of kind `t`
/// (meaningful only when one exists).
pub open spec fn first_wf_index<C: ConfigAccess>(cs: &C, offs: Seq<u16>, t: ConfigType) -> int
    decreases offs.len(),
{
    if offs.len() == 0 {
        0
    } else if wf_entry(cs, offs[0], t) {
        0
    } else {
        1 + first_wf_index(cs, offs.skip(1), t)
    }
}

proof fn lemma_first_wf_index_in_range<C: ConfigAccess>(cs: &C, offs: Seq<u16>, t: ConfigType)
    requires
        exists|j: int| 0 <= j < offs.len() && wf_entry(cs, offs[j], t),
    ensures
        0 <= first_wf_index(cs, offs, t) < offs.len(),
        wf_entry(cs, offs[first_wf_index(cs, offs, t)], t),
    decreases offs.len(),
{
    if !wf_entry(cs, offs[0], t) {
        let j = choose|j: int| 0 <= j < offs.len() && wf_entry(cs, offs[j], t);
        assert(offs.skip(1)[j - 1] == offs[j]);
        assert(exists|k: int| 0 <= k < offs.skip(1).len() && wf_entry(cs, offs.skip(1)[k], t));
        lemma_first_wf_index_in_range(cs, offs.skip(1), t);
        assert(offs.skip(1)[first_wf_index(cs, offs.skip(1), t)] == offs[1 + first_wf_index(
            cs,
            offs.skip(1),
            t,
        )]);
    }
}

/// Law: once a slot is filled, walking further entries never changes it —
/// duplicate capabilities of a kind are ignored in first-seen order.
pub proof fn lemma_first_seen_wins<C: ConfigAccess>(
    set: CapabilitySet,
    cs: &C,
    offs: Seq<u16>,
    t: ConfigType,
)
    requires
        set.slot(t) is Some,
    ensures
        scan_spec(set, cs, offs).slot(t) == set.slot(t),
    decreases offs.len(),
{
    if offs.len() > 0 {
        assert(scan_step(set, cs, offs[0]).slot(t) == set.slot(t));
        lemma_first_seen_wins(scan_step(set, cs, offs[0]), cs, offs.skip(1), t);
    }
}

/// Law: if the slot of kind `t` starts empty and the list holds a
/// well-formed entry of that kind, the scan fills the slot from the first
/// such entry.
pub proof fn lemma_scan_finds_first<C: ConfigAccess>(
    set: CapabilitySet,
    cs: &C,
    offs: Seq<u16>,
    t: ConfigType,
)
    requires
        set.slot(t) is None,
        exists|j: int| 0 <= j < offs.len() && wf_entry(cs, offs[j], t),
    ensures
        scan_spec(set, cs, offs).slot(t) == Some(
            record_at(cs, offs[first_wf_index(cs, offs, t)], t),
        ),
    decreases offs.len(),
{
    if wf_entry(cs, offs[0], t) {
        assert(scan_step(set, cs, offs[0]).slot(t) == Some(record_at(cs, offs[0], t)));
        lemma_first_seen_wins(scan_step(set, cs, offs[0]), cs, offs.skip(1), t);
    } else {
        assert(scan_step(set, cs, offs[0]).slot(t) is None);
        let j = choose|j: int| 0 <= j < offs.len() && wf_entry(cs, offs[j], t);
        assert(j != 0);
        assert(offs.skip(1)[j - 1] == offs[j]);
        assert(exists|k: int| 0 <= k < offs.skip(1).len() && wf_entry(cs, offs.skip(1)[k], t));
        lemma_scan_finds_first(scan_step(set, cs, offs[0]), cs, offs.skip(1), t);
        lemma_first_wf_index_in_range(cs, offs.skip(1), t);
        assert(offs[first_wf_index(cs, offs, t)] == offs.skip(1)[first_wf_index(
            cs,
            offs.skip(1),
            t,
        )]);
    }
}

/// Law: a capability list holding a well-formed entry of every kind yields a
/// set with all four slots populated, each decoded from the first entry of
/// its kind.
/// The scan of `offs` from the empty set fills the slot of kind `t` from
/// the first well-formed entry of that kind.
pub open spec fn scan_fills<C: ConfigAccess>(cs: &C, offs: Seq<u16>, t: ConfigType) -> bool {
    scan_spec(CapabilitySet::empty_spec(), cs, offs).slot(t) == Some(
        record_at(cs, offs[first_wf_index(cs, offs, t)], t),
    )
}

pub proof fn lemma_scan_populates_all<C: ConfigAccess>(cs: &C, offs: Seq<u16>)
    requires
        exists|j: int| 0 <= j < offs.len() && #[trigger] wf_entry(cs, offs[j], ConfigType::Common),
        exists|j: int| 0 <= j < offs.len() && #[trigger] wf_entry(cs, offs[j], ConfigType::Notify),
        exists|j: int| 0 <= j < offs.len() && #[trigger] wf_entry(cs, offs[j], ConfigType::Isr),
        exists|j: int| 0 <= j < offs.len() && #[trigger] wf_entry(cs, offs[j], ConfigType::Device),
    ensures
        scan_fills(cs, offs, ConfigType::Common),
        scan_fills(cs, offs, ConfigType::Notify),
        scan_fills(cs, offs, ConfigType::Isr),
        scan_fills(cs, offs, ConfigType::Device),
{
    lemma_scan_finds_first(CapabilitySet::empty_spec(), cs, offs, ConfigType::Common);
    lemma_scan_finds_first(CapabilitySet::empty_spec(), cs, offs, ConfigType::Notify);
    lemma_scan_finds_first(CapabilitySet::empty_spec(), cs, offs, ConfigType::Isr);
    lemma_scan_finds_first(CapabilitySet::empty_spec(), cs, offs, ConfigType::Device);
}

/// Law: an entry whose `cap_len` is below 16 never changes the collected
/// set, whatever its other fields hold.
pub proof fn lemma_short_entry_skipped<C: ConfigAccess>(set: CapabilitySet, cs: &C, off: u16)
    requires
        cap_len_of(cs.word_at(off as int)) < 16,
    ensures
        scan_step(set, cs, off) == set,
{
}

/// Law: dropping a too-short entry from the capability list leaves the
/// scanned set unchanged.
pub proof fn lemma_short_entry_removed<C: ConfigAccess>(
    set: CapabilitySet,
    cs: &C,
    offs: Seq<u16>,
    i: int,
)
    requires
        0 <= i < offs.len(),
        cap_len_of(cs.word_at(offs[i] as int)) < 16,
    ensures
        scan_spec(set, cs, offs) == scan_spec(set, cs, offs.remove(i)),
    decreases offs.len(),
{
    if i == 0 {
        assert(offs.remove(0) =~= offs.skip(1));
        assert(scan_step(set, cs, offs[0]) == set);
    } else {
        assert(offs.remove(i)[0] == offs[0]);
        assert(offs.remove(i).skip(1) =~= offs.skip(1).remove(i - 1));
        assert(offs.skip(1)[i - 1] == offs[i]);
        lemma_short_entry_removed(scan_step(set, cs, offs[0]), cs, offs.skip(1), i - 1);
    }
}

/// Walk the capability list: `cap_offsets` holds the configuration-space
/// byte offset of each vendor-specific capability, in list order, and `cs`
/// answers the configuration-space reads.  The caller holds the bus-wide
/// configuration-space lock for the whole walk, so no partial reads from
/// concurrent probes interleave.
pub fn scan_capabilities<C: ConfigAccess>(cs: &C, cap_offsets: &Vec<u16>) -> (r: CapabilitySet)
    ensures
        r == scan_spec(CapabilitySet::empty_spec(), cs, cap_offsets@),
{
    let mut set = CapabilitySet::empty();
    let mut i: usize = 0;
    while i < cap_offsets.len()
        invariant
            i <= cap_offsets.len(),
            set == scan_spec(CapabilitySet::empty_spec(), cs, cap_offsets@.take(i as int)),
        decreases cap_offsets.len() - i,
    {
        let off = cap_offsets[i];
        let header = cs.read_word(off as u32);
        let cap_len = (header >> 16) as u8;
        let cfg_type = (header >> 24) as u8;
        if cap_len >= 16 {
            let bar_index = cs.read_word(off as u32 + 4) as u8;
            let bar_offset = cs.read_word(off as u32 + 8);
            let length = cs.read_word(off as u32 + 12);
            if cfg_type == CFG_TYPE_COMMON && set.common.is_none() {
                set.common = Some(CapabilityRecord {
                    config_type: ConfigType::Common,
                    bar_index,
                    bar_offset,
                    length,
                    notify_multiplier: 0,
                });
            } else if cfg_type == CFG_TYPE_NOTIFY && cap_len >= 20 && set.notify.is_none() {
                let notify_multiplier = cs.read_word(off as u32 + 16);
                set.notify = Some(CapabilityRecord {
                    config_type: ConfigType::Notify,
                    bar_index,
                    bar_offset,
                    length,
                    notify_multiplier,
                });
            } else if cfg_type == CFG_TYPE_ISR && set.isr.is_none() {
                set.isr = Some(CapabilityRecord {
                    config_type: ConfigType::Isr,
                    bar_index,
                    bar_offset,
                    length,
                    notify_multiplier: 0,
                });
            } else if cfg_type == CFG_TYPE_DEVICE && set.device.is_none() {
                set.device = Some(CapabilityRecord {
                    config_type: ConfigType::Device,
                    bar_index,
                    bar_offset,
                    length,
                    notify_multiplier: 0,
                });
            }
        }
        proof {
            lemma_scan_snoc(CapabilitySet::empty_spec(), cs, cap_offsets@.take(i as int), off);
            assert(cap_offsets@.take(i + 1) =~= cap_offsets@.take(i as int).push(off));
        }
        i = i + 1;
    }
    proof {
        assert(cap_offsets@.take(cap_offsets@.len() as int) =~= cap_offsets@);
    }
    set
}

} // verus!
