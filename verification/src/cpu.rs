//! CPU features read with `cpuid`.
use vstd::prelude::*;

verus! {

/// The CPU features that the kernel needs.
#[derive(Clone, Copy, Debug, PartialEq, Eq)]
pub struct Cpu {
    physical_address_bits: u8,
    linear_address_bits: u8,
    supports_1gib_pages: bool,
}

/// The physical and linear address widths that `cpuid` leaf 0x8000_0008
/// reports, or `None` when the processor lacks that leaf.
///
/// Calls `raw_cpuid::CpuId::new()` and
/// `CpuId::get_processor_capacity_feature_info`, and reads
/// `physical_address_bits` and `linear_address_bits` of the result. What the
/// processor reports depends on the machine, so nothing is claimed of it.
#[verifier::external_body]
fn read_address_widths() -> (r: Option<(u8, u8)>) {
    match raw_cpuid::CpuId::new().get_processor_capacity_feature_info() {
        Some(info) => Some((info.physical_address_bits(), info.linear_address_bits())),
        None => None,
    }
}

/// Whether `cpuid` leaf 0x8000_0001 reports 1 GiB pages, or `None` when the
/// processor lacks that leaf.
///
/// Calls `raw_cpuid::CpuId::new()` and
/// `CpuId::get_extended_processor_and_feature_identifiers`, and reads
/// `has_1gib_pages` of the result. What the processor reports depends on the
/// machine, so nothing is claimed of it.
#[verifier::external_body]
fn read_1gib_pages_support() -> (r: Option<bool>) {
    match raw_cpuid::CpuId::new().get_extended_processor_and_feature_identifiers() {
        Some(features) => Some(features.has_1gib_pages()),
        None => None,
    }
}

/// Why the CPU features could not be read.
#[derive(Clone, Copy, Debug, PartialEq, Eq)]
pub enum CpuError {
    /// CPUID leaf 0x8000_0008 is missing.
    NoCapacityInfo,
    /// CPUID leaf 0x8000_0001 is missing.
    NoExtendedFeatures,
}

impl Cpu {
    /// The features from what the two CPUID leaves report.
    pub fn from_features(address_widths: Option<(u8, u8)>, has_1gib_pages: Option<bool>) -> (r: Result<Self, CpuError>)
        ensures
            address_widths is None ==> r == Err::<Self, CpuError>(CpuError::NoCapacityInfo),
            address_widths is Some && has_1gib_pages is None ==> r == Err::<Self, CpuError>(CpuError::NoExtendedFeatures),
            address_widths is Some && has_1gib_pages is Some ==> ({
                &&& r is Ok
                &&& r->Ok_0.spec_physical_address_bits() == address_widths->Some_0.0
                &&& r->Ok_0.spec_linear_address_bits() == address_widths->Some_0.1
                &&& r->Ok_0.spec_supports_1gib_pages() == has_1gib_pages->Some_0
            }),
    {
        let (physical_bits, virtual_bits) = match address_widths {
            None => return Err(CpuError::NoCapacityInfo),
            Some(widths) => widths,
        };
        let has_1gib = match has_1gib_pages {
            None => return Err(CpuError::NoExtendedFeatures),
            Some(g) => g,
        };
        Ok(Cpu { physical_address_bits: physical_bits, linear_address_bits: virtual_bits, supports_1gib_pages: has_1gib })
    }

    /// Reads the features of the processor this runs on.
    pub fn new() -> (r: Result<Self, CpuError>) {
        let widths = read_address_widths();
        let gib = read_1gib_pages_support();
        Self::from_features(widths, gib)
    }

    pub closed spec fn spec_physical_address_bits(&self) -> u8 {
        self.physical_address_bits
    }

    pub closed spec fn spec_linear_address_bits(&self) -> u8 {
        self.linear_address_bits
    }

    pub closed spec fn spec_supports_1gib_pages(&self) -> bool {
        self.supports_1gib_pages
    }

    pub fn physical_address_bits(&self) -> (r: u8)
        ensures
            r == self.spec_physical_address_bits(),
    {
        self.physical_address_bits
    }

    pub fn linear_address_bits(&self) -> (r: u8)
        ensures
            r == self.spec_linear_address_bits(),
    {
        self.linear_address_bits
    }

    pub fn supports_1gib_pages(&self) -> (r: bool)
        ensures
            r == self.spec_supports_1gib_pages(),
    {
        self.supports_1gib_pages
    }

    /// Executes `cpuid` with the leaf `eax` and subleaf `ecx` and returns
    /// EAX, ECX and EDX.
    pub fn cpuid(&self, eax: u32, ecx: u32) -> (r: (u32, u32, u32)) {
        cpuid_count(eax, ecx)
    }

    /// Whether the processor has a time stamp counter: bit 4 of EDX of the
    /// query that [`tsc_feature_query`] names.
    pub fn has_tsc(&self) -> (r: bool) {
        let (leaf, subleaf) = tsc_feature_query();
        let (_eax, _ecx, edx) = self.cpuid(leaf, subleaf);
        tsc_bit(edx)
    }
}

/// EAX, ECX and EDX of `cpuid` with leaf `eax` and subleaf `ecx`.
///
/// Calls `raw_cpuid::native_cpuid::cpuid_count`. The result depends on the
/// machine, so nothing is claimed of it.
#[verifier::external_body]
fn cpuid_count(eax: u32, ecx: u32) -> (r: (u32, u32, u32)) {
    let res = raw_cpuid::native_cpuid::cpuid_count(eax, ecx);
    (res.eax, res.ecx, res.edx)
}

/// The `cpuid` leaf and subleaf whose EDX reports the time stamp counter:
/// leaf 1 (processor info and feature bits), subleaf 0.
pub fn tsc_feature_query() -> (r: (u32, u32))
    ensures
        r == (1u32, 0u32),
{
    (1, 0)
}

/// Whether EDX of `cpuid` leaf 1 reports a time stamp counter (bit 4).
pub fn tsc_bit(edx: u32) -> (r: bool)
    ensures
        r == (edx & 16 != 0),
{
    assert(1u32 << 4u32 == 16) by (bit_vector);
    (edx & (1 << 4)) != 0
}

} // verus!
