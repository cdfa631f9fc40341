//! Backup register domain.
//!
//! Forty-two 16-bit storage slots that survive standby and power reset,
//! plus the tamper-event monitor.  The slots live at two discontiguous
//! address ranges; the index-to-offset arithmetic is stated exactly and
//! shown to never alias two slots.

use vstd::prelude::*;
use crate::rcu::APB1;

verus! {

/// Number of backup data slots.
pub const BKP_DATA_SLOTS: usize = 42;

/// The bit index of the backup-domain clock enable in `APB1EN`.
pub const BKPIEN_BIT: usize = 27;

/// The bit index of the power-management clock enable in `APB1EN`.
pub const PMUEN_BIT: usize = 28;

/// The power management unit's control register, which gates write access
/// to the backup domain.
pub struct PMU {
    bkpwen: bool,
}

impl PMU {
    /// Whether backup-domain write access is enabled.
    pub closed spec fn bkpwen_spec(self) -> bool {
        self.bkpwen
    }

    /// Take the power management unit at its reset state.
    pub fn new() -> (p: PMU)
        ensures
            !p.bkpwen_spec(),
    {
        PMU { bkpwen: false }
    }

    /// Whether backup-domain write access is enabled.
    pub fn bkpwen(&self) -> (r: bool)
        ensures
            r == self.bkpwen_spec(),
    {
        self.bkpwen
    }
}

/// The raw backup-domain register block at its reset state.
pub struct BKP {
    _ownership: (),
}

impl BKP {
    /// Take the backup-domain register block.
    pub fn new() -> BKP {
        BKP { _ownership: () }
    }
}

/// Extension trait that constrains the `BKP` peripheral.
pub trait BkpExt {
    /// Split the `BKP` peripheral into stand-alone backup domain modules.
    fn split(self, apb1: &mut APB1, pmu: &mut PMU) -> Parts;
}

impl BkpExt for BKP {
    /// After a chip reset all writes to the backup domain are forbidden:
    /// splitting first clocks the power-management and backup units on
    /// APB1, then enables write access through the PMU control register.
    fn split(self, apb1: &mut APB1, pmu: &mut PMU) -> (parts: Parts)
        ensures
            final(apb1).en_spec() == (old(apb1).en_spec() | (1u32 << (BKPIEN_BIT as u32)) | (
            1u32 << (PMUEN_BIT as u32))),
            final(apb1).rst_spec() == old(apb1).rst_spec(),
            final(pmu).bkpwen_spec(),
            parts.data.wf(),
            parts.data.data_spec() =~= Seq::<u16>::new(42, |i: int| 0u16),
            !parts.tamper.tpen_spec(),
            !parts.tamper.tpal_spec(),
            !parts.tamper.tpie_spec(),
    {
        apb1.set_en(BKPIEN_BIT, true);
        apb1.set_en(PMUEN_BIT, true);
        pmu.bkpwen = true;
        let mut regs: Vec<u16> = Vec::new();
        let mut i: usize = 0;
        while i < BKP_DATA_SLOTS
            invariant
                i <= 42,
                regs@.len() == i,
                forall|j: int| 0 <= j < i ==> regs@[j] == 0u16,
            decreases 42 - i,
        {
            regs.push(0);
            i += 1;
        }
        proof {
            assert(regs@ =~= Seq::<u16>::new(42, |i: int| 0u16));
        }
        Parts {
            data: Data { regs },
            tamper: Tamper { tpen: false, tpal: false, tpie: false, tef: false, tif: false },
            octl: OCTL { _ownership: () },
        }
    }
}

/// `BKP` parts.
pub struct Parts {
    /// Backup data registers (all of `BKP_DATAx`, x in 0..=41).
    pub data: Data,
    /// Tamper event monitor (`BKP_TPCTL` and `BKP_TPCS`).
    pub tamper: Tamper,
    /// RTC signal output control register (`BKP_OCTL`).
    pub octl: OCTL,
}

/// The byte offset of backup data slot `idx` from the block's base
/// address: slots 0 through 9 sit behind the control registers at stride
/// four, slots 10 through 41 in a second range starting at 0x40.
pub open spec fn data_offset_spec(idx: int) -> int {
    if idx <= 9 {
        idx * 4 + 4
    } else {
        (idx - 10) * 4 + 0x40
    }
}

/// Compute the byte offset of backup data slot `idx`.
pub fn data_offset(idx: usize) -> (r: usize)
    requires
        idx < 42,
    ensures
        r == data_offset_spec(idx as int),
{
    if idx <= 9 {
        idx * 4 + 4
    } else {
        (idx - 10) * 4 + 0x40
    }
}

/// Two distinct slots never share a byte offset: the two address ranges do
/// not overlap, and offsets within a range are four bytes apart.
pub proof fn lemma_data_offsets_distinct(i: int, j: int)
    requires
        0 <= i < 42,
        0 <= j < 42,
        i != j,
    ensures
        data_offset_spec(i) != data_offset_spec(j),
{
}

/// Backup data registers: forty-two independent 16-bit storages that are
/// preserved across standby and power reset.
pub struct Data {
    regs: Vec<u16>,
}

impl Data {
    /// There is one stored value per slot.
    pub closed spec fn wf(self) -> bool {
        self.regs@.len() == 42
    }

    /// The stored slot values.
    pub closed spec fn data_spec(self) -> Seq<u16> {
        self.regs@
    }

    /// Read the 16-bit value of backup data slot `idx`; the index must
    /// address one of the forty-two slots.
    pub fn read(&self, idx: usize) -> (r: u16)
        requires
            self.wf(),
            idx < 42,
        ensures
            r == self.data_spec()[idx as int],
    {
        self.regs[idx]
    }

    /// Write a 16-bit value into backup data slot `idx`; the index must
    /// address one of the forty-two slots.  Every other slot keeps its
    /// value.
    pub fn write(&mut self, idx: usize, data: u16)
        requires
            old(self).wf(),
            idx < 42,
        ensures
            final(self).wf(),
            final(self).data_spec() =~= old(self).data_spec().update(idx as int, data),
            final(self).data_spec()[idx as int] == data,
            forall|j: int|
                0 <= j < 42 && j != idx ==> final(self).data_spec()[j] == old(
                self).data_spec()[j],
    {
        self.regs.set(idx, data);
    }
}

/// Writing one slot and reading it back yields the written value, and no
/// other slot changes: storage slots are independent.
pub proof fn lemma_data_round_trip(s: Seq<u16>, idx: int, v: u16)
    requires
        s.len() == 42,
        0 <= idx < 42,
    ensures
        s.update(idx, v)[idx] == v,
        forall|j: int| 0 <= j < 42 && j != idx ==> s.update(idx, v)[j] == s[j],
{
}

/// Tamper event.
pub enum Event {
    /// A tamper was detected on the TAMPER pin.
    Tamper,
}

/// Tamper event monitor.
pub struct Tamper {
    tpen: bool,
    tpal: bool,
    tpie: bool,
    tef: bool,
    tif: bool,
}

impl Tamper {
    /// Whether tamper detection is enabled.
    pub closed spec fn tpen_spec(self) -> bool {
        self.tpen
    }

    /// Whether the TAMPER pin is active low.
    pub closed spec fn tpal_spec(self) -> bool {
        self.tpal
    }

    /// Whether the tamper interrupt is enabled.
    pub closed spec fn tpie_spec(self) -> bool {
        self.tpie
    }

    /// Whether the tamper event flag is latched.
    pub closed spec fn tef_spec(self) -> bool {
        self.tef
    }

    /// Whether the tamper interrupt flag is latched.
    pub closed spec fn tif_spec(self) -> bool {
        self.tif
    }

    /// Enable tamper detection: the TAMPER pin becomes dedicated to the
    /// backup-reset function.
    pub fn enable(&mut self)
        ensures
            final(self).tpen_spec(),
            final(self).tpal_spec() == old(self).tpal_spec(),
            final(self).tpie_spec() == old(self).tpie_spec(),
            final(self).tef_spec() == old(self).tef_spec(),
            final(self).tif_spec() == old(self).tif_spec(),
    {
        self.tpen = true;
    }

    /// Disable tamper detection: the TAMPER pin is free for GPIO use.
    pub fn disable(&mut self)
        ensures
            !final(self).tpen_spec(),
            final(self).tpal_spec() == old(self).tpal_spec(),
            final(self).tpie_spec() == old(self).tpie_spec(),
            final(self).tef_spec() == old(self).tef_spec(),
            final(self).tif_spec() == old(self).tif_spec(),
    {
        self.tpen = false;
    }

    /// Set the TAMPER pin active high (the reset default).
    pub fn set_pin_active_high(&mut self)
        ensures
            !final(self).tpal_spec(),
            final(self).tpen_spec() == old(self).tpen_spec(),
            final(self).tpie_spec() == old(self).tpie_spec(),
            final(self).tef_spec() == old(self).tef_spec(),
            final(self).tif_spec() == old(self).tif_spec(),
    {
        self.tpal = false;
    }

    /// Set the TAMPER pin active low.
    pub fn set_pin_active_low(&mut self)
        ensures
            final(self).tpal_spec(),
            final(self).tpen_spec() == old(self).tpen_spec(),
            final(self).tpie_spec() == old(self).tpie_spec(),
            final(self).tef_spec() == old(self).tef_spec(),
            final(self).tif_spec() == old(self).tif_spec(),
    {
        self.tpal = true;
    }

    /// Record the hardware-latched event and interrupt flags, as read from
    /// the status register.
    pub fn sample_flags(&mut self, tef: bool, tif: bool)
        ensures
            final(self).tef_spec() == tef,
            final(self).tif_spec() == tif,
            final(self).tpen_spec() == old(self).tpen_spec(),
            final(self).tpal_spec() == old(self).tpal_spec(),
            final(self).tpie_spec() == old(self).tpie_spec(),
    {
        self.tef = tef;
        self.tif = tif;
    }

    /// Check the tamper event flag.
    pub fn check_event(&self) -> (r: bool)
        ensures
            r == self.tef_spec(),
    {
        self.tef
    }

    /// Clear the tamper event flag by writing one to the `TER` bit.
    pub fn clear_event_bit(&mut self)
        ensures
            !final(self).tef_spec(),
            final(self).tpen_spec() == old(self).tpen_spec(),
            final(self).tpal_spec() == old(self).tpal_spec(),
            final(self).tpie_spec() == old(self).tpie_spec(),
            final(self).tif_spec() == old(self).tif_spec(),
    {
        self.tef = false;
    }

    /// Enable the tamper interrupt.
    pub fn enable_interrupt(&mut self)
        ensures
            final(self).tpie_spec(),
            final(self).tpen_spec() == old(self).tpen_spec(),
            final(self).tpal_spec() == old(self).tpal_spec(),
            final(self).tef_spec() == old(self).tef_spec(),
            final(self).tif_spec() == old(self).tif_spec(),
    {
        self.tpie = true;
    }

    /// Disable the tamper interrupt.
    pub fn disable_interrupt(&mut self)
        ensures
            !final(self).tpie_spec(),
            final(self).tpen_spec() == old(self).tpen_spec(),
            final(self).tpal_spec() == old(self).tpal_spec(),
            final(self).tef_spec() == old(self).tef_spec(),
            final(self).tif_spec() == old(self).tif_spec(),
    {
        self.tpie = false;
    }

    /// Check the tamper interrupt flag.
    pub fn check_interrupt(&self) -> (r: bool)
        ensures
            r == self.tif_spec(),
    {
        self.tif
    }

    /// Clear the tamper interrupt flag by writing one to the `TIR` bit.
    pub fn clear_interrupt_bit(&mut self)
        ensures
            !final(self).tif_spec(),
            final(self).tpen_spec() == old(self).tpen_spec(),
            final(self).tpal_spec() == old(self).tpal_spec(),
            final(self).tpie_spec() == old(self).tpie_spec(),
            final(self).tef_spec() == old(self).tef_spec(),
    {
        self.tif = false;
    }

    /// Start listening to the given event by enabling its interrupt.
    pub fn listen(&mut self, event: Event)
        ensures
            final(self).tpie_spec(),
            final(self).tpen_spec() == old(self).tpen_spec(),
            final(self).tpal_spec() == old(self).tpal_spec(),
            final(self).tef_spec() == old(self).tef_spec(),
            final(self).tif_spec() == old(self).tif_spec(),
    {
        let Event::Tamper = event;
        self.enable_interrupt();
    }

    /// Stop listening to the given event by disabling its interrupt.
    pub fn unlisten(&mut self, event: Event)
        ensures
            !final(self).tpie_spec(),
            final(self).tpen_spec() == old(self).tpen_spec(),
            final(self).tpal_spec() == old(self).tpal_spec(),
            final(self).tef_spec() == old(self).tef_spec(),
            final(self).tif_spec() == old(self).tif_spec(),
    {
        let Event::Tamper = event;
        self.disable_interrupt();
    }
}

/// RTC signal output control register (`BKP_OCTL`).
pub struct OCTL {
    _ownership: (),
}

} // verus!
