//! Interrupt routing decisions of the APIC setup: source overrides, I/O APIC
//! selection and NMI sources.
use vstd::prelude::*;

verus! {

/// An ISA interrupt that the firmware routes to another global system
/// interrupt.
#[derive(Copy, Clone, Debug, PartialEq, Eq)]
pub struct InterruptSourceOverride {
    pub isa_source: u8,
    pub global_system_interrupt: u32,
    /// The interrupt is active when the line is low.
    pub active_low: bool,
    /// The interrupt is level triggered (otherwise edge triggered).
    pub level_triggered: bool,
}

/// The index of the first override for `source_irq`, if any.
pub open spec fn first_override_for_source(overrides: Seq<InterruptSourceOverride>, source_irq: u8) -> Option<int> {
    if exists|i: int| 0 <= i < overrides.len() && overrides[i].isa_source == source_irq {
        Some(choose|i: int| 0 <= i < overrides.len() && overrides[i].isa_source == source_irq
            && forall|j: int| 0 <= j < i ==> overrides[j].isa_source != source_irq)
    } else {
        None
    }
}

/// The first override for the ISA interrupt `source_irq`.
pub fn override_for_source(irq_overrides: &Vec<InterruptSourceOverride>, source_irq: u8) -> (r: Option<usize>)
    ensures
        r matches Some(i) ==> i < irq_overrides.len() && irq_overrides[i as int].isa_source == source_irq
            && forall|j: int| 0 <= j < i ==> irq_overrides[j].isa_source != source_irq,
        r is None ==> forall|j: int| 0 <= j < irq_overrides.len() ==> irq_overrides[j].isa_source != source_irq,
{
    let mut i: usize = 0;
    while i < irq_overrides.len()
        invariant
            i <= irq_overrides.len(),
            forall|j: int| 0 <= j < i ==> irq_overrides[j].isa_source != source_irq,
        decreases irq_overrides.len() - i,
    {
        if irq_overrides[i].isa_source == source_irq {
            return Some(i);
        }
        i = i + 1;
    }
    None
}

/// The first override that routes to the global system interrupt `target_gsi`.
pub fn override_for_target(irq_overrides: &Vec<InterruptSourceOverride>, target_gsi: u32) -> (r: Option<usize>)
    ensures
        r matches Some(i) ==> i < irq_overrides.len() && irq_overrides[i as int].global_system_interrupt == target_gsi
            && forall|j: int| 0 <= j < i ==> irq_overrides[j].global_system_interrupt != target_gsi,
        r is None ==> forall|j: int| 0 <= j < irq_overrides.len() ==> irq_overrides[j].global_system_interrupt != target_gsi,
{
    let mut i: usize = 0;
    while i < irq_overrides.len()
        invariant
            i <= irq_overrides.len(),
            forall|j: int| 0 <= j < i ==> irq_overrides[j].global_system_interrupt != target_gsi,
        decreases irq_overrides.len() - i,
    {
        if irq_overrides[i].global_system_interrupt == target_gsi {
            return Some(i);
        }
        i = i + 1;
    }
    None
}

/// The global system interrupt that the ISA interrupt `source_irq` arrives
/// at: its first override's target, or the same number without override.
pub fn target_gsi(irq_overrides: &Vec<InterruptSourceOverride>, source_irq: u8) -> (r: u32)
    ensures
        (exists|i: int| 0 <= i < irq_overrides.len() && irq_overrides[i].isa_source == source_irq
            && (forall|j: int| 0 <= j < i ==> irq_overrides[j].isa_source != source_irq)
            && r == irq_overrides[i].global_system_interrupt)
        || ((forall|j: int| 0 <= j < irq_overrides.len() ==> irq_overrides[j].isa_source != source_irq)
            && r == source_irq as u32),
{
    match override_for_source(irq_overrides, source_irq) {
        None => source_irq as u32,
        Some(i) => irq_overrides[i].global_system_interrupt,
    }
}

/// Whether an I/O APIC, given by its first global system interrupt and its
/// highest redirection entry, serves `gsi`.
pub open spec fn gsi_in_range(entry: (u32, u32), gsi: u32) -> bool {
    entry.0 <= gsi <= entry.0 + entry.1
}

/// The I/O APIC (given by its first global system interrupt and its highest
/// redirection entry) that serves `target_gsi`: the first one whose range
/// holds it.
pub fn io_apic_for_target(io_apics: &Vec<(u32, u32)>, target_gsi: u32) -> (r: Option<usize>)
    requires
        forall|j: int| 0 <= j < io_apics.len() ==> io_apics[j].0 + io_apics[j].1 <= u32::MAX,
    ensures
        r matches Some(i) ==> i < io_apics.len() && gsi_in_range(io_apics[i as int], target_gsi)
            && forall|j: int| 0 <= j < i ==> !gsi_in_range(io_apics[j], target_gsi),
        r is None ==> forall|j: int| 0 <= j < io_apics.len() ==> !gsi_in_range(io_apics[j], target_gsi),
{
    let mut i: usize = 0;
    while i < io_apics.len()
        invariant
            i <= io_apics.len(),
            forall|j: int| 0 <= j < io_apics.len() ==> io_apics[j].0 + io_apics[j].1 <= u32::MAX,
            forall|j: int| 0 <= j < i ==> !gsi_in_range(io_apics[j], target_gsi),
        decreases io_apics.len() - i,
    {
        let min_entry = io_apics[i].0;
        let max_entry = min_entry + io_apics[i].1;
        if target_gsi >= min_entry && target_gsi <= max_entry {
            return Some(i);
        }
        i = i + 1;
    }
    None
}

/// Whether the global system interrupt `gsi` is a non-maskable interrupt
/// source.
pub fn is_nmi(nmi_sources: &Vec<u32>, gsi: u32) -> (r: bool)
    ensures
        r == nmi_sources@.contains(gsi),
{
    let mut i: usize = 0;
    while i < nmi_sources.len()
        invariant
            i <= nmi_sources.len(),
            forall|j: int| 0 <= j < i ==> nmi_sources[j] != gsi,
        decreases nmi_sources.len() - i,
    {
        if nmi_sources[i] == gsi {
            assert(nmi_sources@[i as int] == gsi);
            return true;
        }
        i = i + 1;
    }
    false
}

/// The interrupt vector of ISA interrupt 0 (the PIT); hardware interrupts
/// follow it.
pub const IRQ_VECTOR_BASE: u8 = 32;

/// How an I/O APIC redirection entry delivers its interrupt.
#[derive(Copy, Clone, Debug, PartialEq, Eq)]
pub enum IrqMode {
    Fixed,
    NonMaskable,
}

/// A redirection table entry, by field.
#[derive(Copy, Clone, Debug, PartialEq, Eq)]
pub struct RedirectionEntry {
    pub mode: IrqMode,
    pub vector: u8,
    pub dest: u8,
    pub masked: bool,
    pub low_active: bool,
    pub level_triggered: bool,
}

pub open spec fn redirection_entry_spec(overrides: Seq<InterruptSourceOverride>, gsi: u32, boot_apic_id: u32) -> RedirectionEntry {
    let base = RedirectionEntry {
        mode: IrqMode::Fixed,
        vector: 0,
        dest: (boot_apic_id % 256) as u8,
        masked: true,
        low_active: false,
        level_triggered: false,
    };
    if exists|i: int| 0 <= i < overrides.len() && overrides[i].global_system_interrupt == gsi {
        let i = choose|i: int| 0 <= i < overrides.len() && overrides[i].global_system_interrupt == gsi
            && forall|j: int| 0 <= j < i ==> overrides[j].global_system_interrupt != gsi;
        RedirectionEntry {
            vector: (overrides[i].isa_source + IRQ_VECTOR_BASE) as u8,
            low_active: overrides[i].active_low,
            level_triggered: overrides[i].level_triggered,
            ..base
        }
    } else {
        RedirectionEntry { vector: ((gsi % 256) + IRQ_VECTOR_BASE) as u8, ..base }
    }
}

/// The masked entry for global system interrupt `gsi`, delivered to the
/// boot processor: an overridden interrupt keeps its ISA vector and takes
/// the override's polarity and trigger mode.
pub fn redirection_entry(irq_overrides: &Vec<InterruptSourceOverride>, gsi: u32, boot_apic_id: u32) -> (r: RedirectionEntry)
    requires
        forall|j: int| 0 <= j < irq_overrides.len() && #[trigger] irq_overrides[j].global_system_interrupt == gsi
            ==> irq_overrides[j].isa_source + IRQ_VECTOR_BASE <= 255,
        gsi % 256 + IRQ_VECTOR_BASE <= 255,
    ensures
        r == redirection_entry_spec(irq_overrides@, gsi, boot_apic_id),
{
    let dest = (boot_apic_id % 256) as u8;
    match override_for_target(irq_overrides, gsi) {
        None => RedirectionEntry {
            mode: IrqMode::Fixed,
            vector: (gsi % 256) as u8 + IRQ_VECTOR_BASE,
            dest,
            masked: true,
            low_active: false,
            level_triggered: false,
        },
        Some(i) => {
            let o = irq_overrides[i];
            proof {
                let k = choose|k: int| 0 <= k < irq_overrides@.len() && irq_overrides@[k].global_system_interrupt == gsi
                    && forall|j: int| 0 <= j < k ==> irq_overrides@[j].global_system_interrupt != gsi;
                assert(irq_overrides@[i as int].global_system_interrupt == gsi);
                assert(k == i) by {
                    if k < i { assert(irq_overrides@[k].global_system_interrupt != gsi); }
                    if k > i { assert(irq_overrides@[i as int].global_system_interrupt != gsi); }
                }
            }
            RedirectionEntry {
                mode: IrqMode::Fixed,
                vector: o.isa_source + IRQ_VECTOR_BASE,
                dest,
                masked: true,
                low_active: o.active_low,
                level_triggered: o.level_triggered,
            }
        },
    }
}

/// The entry for a non-maskable interrupt source, delivered to the local
/// APIC `local_apic_id`.
pub fn nmi_entry(active_low: bool, level_triggered: bool, local_apic_id: u32) -> (r: RedirectionEntry)
    ensures
        r == (RedirectionEntry {
            mode: IrqMode::NonMaskable,
            vector: 0,
            dest: (local_apic_id % 256) as u8,
            masked: false,
            low_active: active_low,
            level_triggered,
        }),
{
    RedirectionEntry {
        mode: IrqMode::NonMaskable,
        vector: 0,
        dest: (local_apic_id % 256) as u8,
        masked: false,
        low_active: active_low,
        level_triggered,
    }
}

/// Why an interrupt cannot be unmasked.
#[derive(Copy, Clone, Debug, PartialEq, Eq)]
pub enum AllowError {
    /// The interrupt arrives at a non-maskable interrupt source.
    NonMaskable,
    /// No I/O APIC serves the interrupt.
    NoIoApic,
}

/// Where unmasking the interrupt `vector` happens: the I/O APIC (by
/// position) that serves its global system interrupt, and that interrupt's
/// number as the APIC's entry.
pub fn allow_target(
    irq_overrides: &Vec<InterruptSourceOverride>,
    nmi_sources: &Vec<u32>,
    io_apics: &Vec<(u32, u32)>,
    vector: u8,
) -> (r: Result<(usize, u8), AllowError>)
    requires
        vector >= IRQ_VECTOR_BASE,
        forall|j: int| 0 <= j < io_apics.len() ==> io_apics[j].0 + io_apics[j].1 <= u32::MAX,
    ensures
        ({
            let source = (vector - IRQ_VECTOR_BASE) as u8;
            let gsi = match first_override_for_source(irq_overrides@, source) {
                Some(i) => irq_overrides@[i].global_system_interrupt,
                None => source as u32,
            };
            if nmi_sources@.contains(gsi) {
                r == Err::<(usize, u8), AllowError>(AllowError::NonMaskable)
            } else if forall|j: int| 0 <= j < io_apics.len() ==> !gsi_in_range(io_apics[j], gsi) {
                r == Err::<(usize, u8), AllowError>(AllowError::NoIoApic)
            } else {
                r matches Ok((k, irq)) && k < io_apics.len() && gsi_in_range(io_apics[k as int], gsi)
                    && (forall|j: int| 0 <= j < k ==> !gsi_in_range(io_apics[j], gsi))
                    && irq == gsi % 256
            }
        }),
{
    let source = vector - IRQ_VECTOR_BASE;
    let gsi = target_gsi(irq_overrides, source);
    proof {
        match first_override_for_source(irq_overrides@, source) {
            Some(i) => {
                assert(0 <= i < irq_overrides@.len() && irq_overrides@[i].isa_source == source
                    && forall|j: int| 0 <= j < i ==> irq_overrides@[j].isa_source != source);
            },
            None => {},
        }
    }
    if is_nmi(nmi_sources, gsi) {
        return Err(AllowError::NonMaskable);
    }
    match io_apic_for_target(io_apics, gsi) {
        None => Err(AllowError::NoIoApic),
        Some(k) => Ok((k, (gsi % 256) as u8)),
    }
}

/// The initial count of the periodic APIC timer for `interval_ms`
/// milliseconds: the product cut to 32 bits.
pub fn timer_initial_count(ticks_per_ms: usize, interval_ms: usize) -> (r: u32)
    requires
        ticks_per_ms * interval_ms <= usize::MAX,
    ensures
        r == (ticks_per_ms * interval_ms) % 0x1_0000_0000,
{
    let product = (ticks_per_ms * interval_ms) as u64;
    (product % 0x1_0000_0000) as u32
}

/// The APIC timer ticks per millisecond, from the count left after 50 ms
/// of counting down from `0xffffffff`.
pub fn calibrated_ticks_per_ms(current: u32) -> (r: usize)
    ensures
        r == (0xffff_ffff - current) / 50,
{
    ((0xffff_ffffu32 - current) / 50) as usize
}

} // verus!
