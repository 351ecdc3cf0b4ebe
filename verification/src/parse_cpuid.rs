use vstd::prelude::*;
use crate::utils::{CpuidResult, bit_field, extract_bits};
use crate::vendor::{Vendor, VendorInfo, vendor_from_regs};

verus! {

//
// Normal leafs:
//
pub const EAX_VENDOR_INFO: u32 = 0x0;
pub const EAX_FEATURE_INFO: u32 = 0x1;
pub const EAX_CACHE_INFO: u32 = 0x2;
pub const EAX_PROCESSOR_SERIAL: u32 = 0x3;
pub const EAX_CACHE_PARAMETERS: u32 = 0x4;
pub const EAX_MONITOR_MWAIT_INFO: u32 = 0x5;
pub const EAX_THERMAL_POWER_INFO: u32 = 0x6;
pub const EAX_STRUCTURED_EXTENDED_FEATURE_INFO: u32 = 0x7;
pub const EAX_DIRECT_CACHE_ACCESS_INFO: u32 = 0x9;
pub const EAX_PERFORMANCE_MONITOR_INFO: u32 = 0xA;
pub const EAX_EXTENDED_TOPOLOGY_INFO: u32 = 0xB;
pub const EAX_EXTENDED_STATE_INFO: u32 = 0xD;
pub const EAX_RDT_MONITORING: u32 = 0xF;
pub const EAX_RDT_ALLOCATION: u32 = 0x10;
pub const EAX_SGX: u32 = 0x12;
pub const EAX_TRACE_INFO: u32 = 0x14;
pub const EAX_TIME_STAMP_COUNTER_INFO: u32 = 0x15;
pub const EAX_FREQUENCY_INFO: u32 = 0x16;
pub const EAX_SOC_VENDOR_INFO: u32 = 0x17;
pub const EAX_DETERMINISTIC_ADDRESS_TRANSLATION_INFO: u32 = 0x18;
pub const EAX_EXTENDED_TOPOLOGY_INFO_V2: u32 = 0x1F;

/// Hypervisor leaf
pub const EAX_HYPERVISOR_INFO: u32 = 0x4000_0000;

//
// Extended leafs:
//
pub const EAX_EXTENDED_FUNCTION_INFO: u32 = 0x8000_0000;
pub const EAX_EXTENDED_PROCESSOR_AND_FEATURE_IDENTIFIERS: u32 = 0x8000_0001;
pub const EAX_EXTENDED_BRAND_STRING: u32 = 0x8000_0002;
pub const EAX_L1_CACHE_INFO: u32 = 0x8000_0005;
pub const EAX_L2_L3_CACHE_INFO: u32 = 0x8000_0006;
pub const EAX_ADVANCED_POWER_MGMT_INFO: u32 = 0x8000_0007;
pub const EAX_PROCESSOR_CAPACITY_INFO: u32 = 0x8000_0008;
pub const EAX_TLB_1GB_PAGE_INFO: u32 = 0x8000_0019;
pub const EAX_PERFORMANCE_OPTIMIZATION_INFO: u32 = 0x8000_001A;
pub const EAX_CACHE_PARAMETERS_AMD: u32 = 0x8000_001D;
pub const EAX_PROCESSOR_TOPOLOGY_INFO: u32 = 0x8000_001E;
pub const EAX_MEMORY_ENCRYPTION_INFO: u32 = 0x8000_001F;
pub const EAX_SVM_FEATURES: u32 = 0x8000_000A;

/// Executes CPUID through a function that can be swapped out, for example for one that returns
/// fixed data in tests.
#[derive(Clone, Copy)]
struct CpuIdReader<F: Fn(u32, u32) -> CpuidResult> {
    cpuid_fn: F,
}

impl<F: Fn(u32, u32) -> CpuidResult> CpuIdReader<F> {
    fn new(cpuid_fn: F) -> (r: Self)
        ensures
            r.cpuid_fn == cpuid_fn,
    {
        Self { cpuid_fn }
    }

    fn cpuid1(&self, eax: u32) -> (r: CpuidResult)
        requires
            call_requires(self.cpuid_fn, (eax, 0u32)),
        ensures
            call_ensures(self.cpuid_fn, (eax, 0u32), r),
    {
        (self.cpuid_fn)(eax, 0)
    }

    fn cpuid2(&self, eax: u32, ecx: u32) -> (r: CpuidResult)
        requires
            call_requires(self.cpuid_fn, (eax, ecx)),
        ensures
            call_ensures(self.cpuid_fn, (eax, ecx), r),
    {
        (self.cpuid_fn)(eax, ecx)
    }
}

/// What a `CpuId` learned when it was made: the vendor and the highest basic and extended leaf.
pub ghost struct CpuIdView {
    pub vendor: Vendor,
    pub supported_leafs: u32,
    pub supported_extended_leafs: u32,
}

/// Whether a leaf may be read: AMD reserves leaves 2 to 4 and 8 to Ah; other basic leaves are
/// supported up to the highest basic leaf, and extended leaves up to the highest extended leaf.
pub open spec fn leaf_supported(v: CpuIdView, val: u32) -> bool {
    if v.vendor == Vendor::Amd && ((0x2 <= val <= 0x4) || (0x8 <= val <= 0xa)) {
        false
    } else if val < EAX_EXTENDED_FUNCTION_INFO {
        val <= v.supported_leafs
    } else {
        val <= v.supported_extended_leafs
    }
}

/// What leaf 0 (`vendor_leaf`) and leaf 8000_0000h (`extended_leaf`) report: the vendor and the
/// highest basic and extended leaf.
pub open spec fn view_of_leaves(vendor_leaf: CpuidResult, extended_leaf: CpuidResult) -> CpuIdView {
    CpuIdView {
        vendor: vendor_from_regs(vendor_leaf.ebx, vendor_leaf.ecx, vendor_leaf.edx),
        supported_leafs: vendor_leaf.eax,
        supported_extended_leafs: extended_leaf.eax,
    }
}

/// `cpuid_fn` may be called on every leaf that `v` supports, subleaf 0.
pub open spec fn reads_supported_leaves<F: Fn(u32, u32) -> CpuidResult>(
    cpuid_fn: F,
    v: CpuIdView,
) -> bool {
    forall|leaf: u32| #[trigger] leaf_supported(v, leaf) ==> call_requires(cpuid_fn, (leaf, 0u32))
}

/// `cpuid_fn` may be called on leaves 0 and 8000_0000h, and then on every leaf that their
/// results report supported; it may refuse any other call.
pub open spec fn reads_reported_leaves<F: Fn(u32, u32) -> CpuidResult>(cpuid_fn: F) -> bool {
    &&& call_requires(cpuid_fn, (EAX_VENDOR_INFO, 0u32))
    &&& call_requires(cpuid_fn, (EAX_EXTENDED_FUNCTION_INFO, 0u32))
    &&& forall|vendor_leaf: CpuidResult, extended_leaf: CpuidResult|
        #![trigger call_ensures(cpuid_fn, (EAX_VENDOR_INFO, 0u32), vendor_leaf), call_ensures(cpuid_fn, (EAX_EXTENDED_FUNCTION_INFO, 0u32), extended_leaf)]
        call_ensures(cpuid_fn, (EAX_VENDOR_INFO, 0u32), vendor_leaf) && call_ensures(
            cpuid_fn,
            (EAX_EXTENDED_FUNCTION_INFO, 0u32),
            extended_leaf,
        ) ==> reads_supported_leaves(cpuid_fn, view_of_leaves(vendor_leaf, extended_leaf))
}

/// `cpuid_fn` gives at most one result for `leaf`, subleaf 0.
pub open spec fn answers_leaf_uniquely<F: Fn(u32, u32) -> CpuidResult>(cpuid_fn: F, leaf: u32) -> bool {
    forall|a: CpuidResult, b: CpuidResult|
        call_ensures(cpuid_fn, (leaf, 0u32), a) && call_ensures(cpuid_fn, (leaf, 0u32), b) ==> a == b
}

/// The main type used to query information about the CPU we're running on.
///
/// Other structs can be accessed by going through this type.
pub struct CpuId<F: Fn(u32, u32) -> CpuidResult> {
    read: CpuIdReader<F>,
    /// CPU vendor to differentiate cases where logic needs to differ in code.
    vendor: Vendor,
    /// How many basic leafs are supported (EAX < EAX_HYPERVISOR_INFO)
    supported_leafs: u32,
    /// How many extended leafs are supported (e.g., leafs with EAX > EAX_EXTENDED_FUNCTION_INFO)
    supported_extended_leafs: u32,
}

impl<F: Fn(u32, u32) -> CpuidResult + Copy> Clone for CpuId<F> {
    fn clone(&self) -> (r: Self)
        ensures
            r == *self,
    {
        *self
    }
}

impl<F: Fn(u32, u32) -> CpuidResult + Copy> Copy for CpuId<F> {

}

impl<F: Fn(u32, u32) -> CpuidResult> View for CpuId<F> {
    type V = CpuIdView;

    closed spec fn view(&self) -> CpuIdView {
        CpuIdView {
            vendor: self.vendor,
            supported_leafs: self.supported_leafs,
            supported_extended_leafs: self.supported_extended_leafs,
        }
    }
}

impl<F: Fn(u32, u32) -> CpuidResult> CpuId<F> {
    /// The reader may be called on every supported leaf, and the vendor and the highest basic
    /// leaf are those of a result that it gives for leaf 0.
    #[verifier::type_invariant]
    spec fn reader_total(self) -> bool {
        &&& reads_supported_leaves(self.read.cpuid_fn, self@)
        &&& exists|vendor_leaf: CpuidResult|
            {
                &&& call_ensures(self.read.cpuid_fn, (EAX_VENDOR_INFO, 0u32), vendor_leaf)
                &&& self.vendor == vendor_from_regs(vendor_leaf.ebx, vendor_leaf.ecx, vendor_leaf.edx)
                &&& self.supported_leafs == vendor_leaf.eax
            }
    }

    /// The function through which this `CpuId` executes CPUID.
    pub closed spec fn reader(self) -> F {
        self.read.cpuid_fn
    }

    /// Return new CpuId struct with custom reader function.
    ///
    /// This is useful for example when testing code or if we want to interpose
    /// on the CPUID calls this library makes. Leaf 0 gives the vendor and the highest basic leaf,
    /// leaf 8000_0000h the highest extended leaf. Later reads of `r` call `cpuid_fn` only on
    /// leaves that these report supported.
    pub fn with_cpuid_fn(cpuid_fn: F) -> (r: Self)
        requires
            reads_reported_leaves(cpuid_fn),
        ensures
            r.reader() == cpuid_fn,
            exists|vendor_leaf: CpuidResult, extended_leaf: CpuidResult|
                {
                    &&& call_ensures(cpuid_fn, (EAX_VENDOR_INFO, 0u32), vendor_leaf)
                    &&& call_ensures(cpuid_fn, (EAX_EXTENDED_FUNCTION_INFO, 0u32), extended_leaf)
                    &&& r@ == view_of_leaves(vendor_leaf, extended_leaf)
                },
    {
        let read = CpuIdReader::new(cpuid_fn);
        let vendor_leaf = read.cpuid1(EAX_VENDOR_INFO);
        let extended_leaf = read.cpuid1(EAX_EXTENDED_FUNCTION_INFO);
        let r = CpuId {
            supported_leafs: vendor_leaf.eax,
            supported_extended_leafs: extended_leaf.eax,
            vendor: Vendor::from_vendor_leaf(vendor_leaf),
            read,
        };
        assert(r@ == view_of_leaves(vendor_leaf, extended_leaf));
        r
    }

    /// Check if a non extended leaf  (`val`) is supported.
    fn leaf_is_supported(&self, val: u32) -> (r: bool)
        ensures
            r == leaf_supported(self@, val),
    {
        // Exclude reserved functions/leafs on AMD
        if self.vendor == Vendor::Amd && ((0x2 <= val && val <= 0x4) || (0x8 <= val && val <= 0xa))
        {
            return false;
        }

        if val < EAX_EXTENDED_FUNCTION_INFO {
            val <= self.supported_leafs
        } else {
            val <= self.supported_extended_leafs
        }
    }

    /// Return information about the vendor (LEAF=0x00).
    ///
    /// This leaf will contain a ASCII readable string such as "GenuineIntel"
    /// for Intel CPUs or "AuthenticAMD" for AMD CPUs. Leaf 0 is always supported, so the result
    /// is never `None`. Where the reader gives one fixed result for leaf 0, the registers name
    /// the vendor that `with_cpuid_fn` recorded.
    pub fn get_vendor_info(&self) -> (r: Option<VendorInfo>)
        ensures
            r is Some <==> leaf_supported(self@, EAX_VENDOR_INFO),
            r is Some,
            r matches Some(vi) ==> exists|res: CpuidResult|
                {
                    &&& call_ensures(self.reader(), (EAX_VENDOR_INFO, 0u32), res)
                    &&& vi == (VendorInfo { ebx: res.ebx, edx: res.edx, ecx: res.ecx })
                },
            answers_leaf_uniquely(self.reader(), EAX_VENDOR_INFO) ==> (r matches Some(vi)
                && vendor_from_regs(vi.ebx, vi.ecx, vi.edx) == self@.vendor),
    {
        proof {
            use_type_invariant(self);
        }
        if self.leaf_is_supported(EAX_VENDOR_INFO) {
            let res = self.read.cpuid1(EAX_VENDOR_INFO);
            Some(VendorInfo { ebx: res.ebx, ecx: res.ecx, edx: res.edx })
        } else {
            None
        }
    }

    /// EAX[3:0] := Stepping ID;
    pub fn get_stepping_id(&self) -> (r: Option<u32>)
        ensures
            reads_feature_field(*self, r, false, 3, 0),
    {
        proof {
            use_type_invariant(self);
        }
        if self.leaf_is_supported(EAX_FEATURE_INFO) {
            let res = self.read.cpuid1(EAX_FEATURE_INFO);
            Some(extract_bits(res.eax, 3, 0))
        } else {
            None
        }
    }

    /// EAX[7:4] := Model;
    pub fn get_model(&self) -> (r: Option<u32>)
        ensures
            reads_feature_field(*self, r, false, 7, 4),
    {
        proof {
            use_type_invariant(self);
        }
        if self.leaf_is_supported(EAX_FEATURE_INFO) {
            let res = self.read.cpuid1(EAX_FEATURE_INFO);
            Some(extract_bits(res.eax, 7, 4))
        } else {
            None
        }
    }

    /// EAX[11:8] := Family
    pub fn get_family(&self) -> (r: Option<u32>)
        ensures
            reads_feature_field(*self, r, false, 11, 8),
    {
        proof {
            use_type_invariant(self);
        }
        if self.leaf_is_supported(EAX_FEATURE_INFO) {
            let res = self.read.cpuid1(EAX_FEATURE_INFO);
            Some(extract_bits(res.eax, 11, 8))
        } else {
            None
        }
    }

    /// EAX[13:12] := Processor type;
    pub fn get_processor_type(&self) -> (r: Option<u32>)
        ensures
            reads_feature_field(*self, r, false, 13, 12),
    {
        proof {
            use_type_invariant(self);
        }
        if self.leaf_is_supported(EAX_FEATURE_INFO) {
            let res = self.read.cpuid1(EAX_FEATURE_INFO);
            Some(extract_bits(res.eax, 13, 12))
        } else {
            None
        }
    }

    /// EAX[19:16] := Extended Model;
    pub fn get_extended_model(&self) -> (r: Option<u32>)
        ensures
            reads_feature_field(*self, r, false, 19, 16),
    {
        proof {
            use_type_invariant(self);
        }
        if self.leaf_is_supported(EAX_FEATURE_INFO) {
            let res = self.read.cpuid1(EAX_FEATURE_INFO);
            Some(extract_bits(res.eax, 19, 16))
        } else {
            None
        }
    }

    /// EAX[27:20] := Extended Family;
    pub fn get_extended_family(&self) -> (r: Option<u32>)
        ensures
            reads_feature_field(*self, r, false, 27, 20),
    {
        proof {
            use_type_invariant(self);
        }
        if self.leaf_is_supported(EAX_FEATURE_INFO) {
            let res = self.read.cpuid1(EAX_FEATURE_INFO);
            Some(extract_bits(res.eax, 27, 20))
        } else {
            None
        }
    }

    /// EBX[16:23] := Reserved; (* Number of threads enabled = 2 if MT enable fuse set. *)
    pub fn get_logical_cores(&self) -> (r: Option<u32>)
        ensures
            reads_feature_field(*self, r, true, 23, 16),
    {
        proof {
            use_type_invariant(self);
        }
        if self.leaf_is_supported(EAX_FEATURE_INFO) {
            let res = self.read.cpuid1(EAX_FEATURE_INFO);
            Some(extract_bits(res.ebx, 23, 16))
        } else {
            None
        }
    }
}

/// `r` is what a getter of a field of leaf 1 returns: `Some` exactly when leaf 1 is supported,
/// holding the field `highbit..=lowbit` of `ebx` (where `in_ebx`) or `eax` of a result that the reader of `cpuid` gives for leaf 1, subleaf 0.
pub open spec fn reads_feature_field<F: Fn(u32, u32) -> CpuidResult>(
    cpuid: CpuId<F>,
    r: Option<u32>,
    in_ebx: bool,
    highbit: nat,
    lowbit: nat,
) -> bool {
    &&& (r is Some <==> leaf_supported(cpuid@, EAX_FEATURE_INFO))
    &&& (r matches Some(v) ==> exists|res: CpuidResult|
        {
            &&& call_ensures(cpuid.reader(), (EAX_FEATURE_INFO, 0u32), res)
            &&& v == bit_field(
                if in_ebx {
                    res.ebx
                } else {
                    res.eax
                },
                highbit,
                lowbit,
            )
        })
}

/// Get CPUID dump raw data for every cpu.
pub fn cpuid_get_all_raw_data() {
}

/// Leaf 0 is supported whatever a CPU reported: `get_vendor_info` never returns `None`.
pub proof fn lemma_vendor_leaf_always_supported(v: CpuIdView)
    ensures
        leaf_supported(v, EAX_VENDOR_INFO),
{
}

/// On an AMD CPU the reserved leaves 2 to 4 and 8 to Ah are never supported.
pub proof fn lemma_amd_reserved_leaves_unsupported(v: CpuIdView, val: u32)
    requires
        v.vendor == Vendor::Amd,
        (0x2 <= val <= 0x4) || (0x8 <= val <= 0xa),
    ensures
        !leaf_supported(v, val),
{
}

/// Basic leaves are supported from 0 up: where a basic leaf is supported, so is every lower one
/// that the vendor does not reserve.
pub proof fn lemma_basic_leaf_support_downward_closed(v: CpuIdView, lower: u32, upper: u32)
    requires
        lower <= upper < EAX_EXTENDED_FUNCTION_INFO,
        leaf_supported(v, upper),
        !(v.vendor == Vendor::Amd && ((0x2 <= lower <= 0x4) || (0x8 <= lower <= 0xa))),
    ensures
        leaf_supported(v, lower),
{
}

/// Extended leaves are supported from 8000_0000h up: where an extended leaf is supported, so is
/// every lower extended leaf.
pub proof fn lemma_extended_leaf_support_downward_closed(v: CpuIdView, lower: u32, upper: u32)
    requires
        EAX_EXTENDED_FUNCTION_INFO <= lower <= upper,
        leaf_supported(v, upper),
    ensures
        leaf_supported(v, lower),
{
}

/// With a reader that gives one fixed result for leaf 1, as a test reader does, a getter of a
/// field of leaf 1 returns that field of the fixed result, where leaf 1 is supported.
pub proof fn lemma_fixed_reader_gives_its_field<F: Fn(u32, u32) -> CpuidResult>(
    cpuid: CpuId<F>,
    r: Option<u32>,
    in_ebx: bool,
    highbit: nat,
    lowbit: nat,
    leaf1: CpuidResult,
)
    requires
        reads_feature_field(cpuid, r, in_ebx, highbit, lowbit),
        forall|res: CpuidResult|
            call_ensures(cpuid.reader(), (EAX_FEATURE_INFO, 0u32), res) ==> res == leaf1,
    ensures
        r is Some <==> leaf_supported(cpuid@, EAX_FEATURE_INFO),
        r matches Some(v) ==> v == bit_field(
            if in_ebx {
                leaf1.ebx
            } else {
                leaf1.eax
            },
            highbit,
            lowbit,
        ),
{
}

/// Which leaves a CPU supports follows from the limits that leaves 0 and 8000_0000h report:
/// AMD's reserved leaves (2 to 4, 8 to Ah) never are; any other basic leaf is exactly when it
/// is at most the highest basic leaf; an extended leaf exactly when it is at most the highest
/// extended leaf. In particular leaf 1 is supported whenever the highest basic leaf is 1 or more.
pub proof fn lemma_leaf_support_by_reported_limits(v: CpuIdView, val: u32)
    ensures
        v.vendor == Vendor::Amd && ((2 <= val && val <= 4) || (8 <= val && val <= 0xa))
            ==> !leaf_supported(v, val),
        !(v.vendor == Vendor::Amd && ((2 <= val && val <= 4) || (8 <= val && val <= 0xa)))
            && val < 0x8000_0000 ==> (leaf_supported(v, val) <==> val <= v.supported_leafs),
        val >= 0x8000_0000 ==> (leaf_supported(v, val) <==> val <= v.supported_extended_leafs),
        leaf_supported(v, 1) <==> 1 <= v.supported_leafs,
{
}

/// A getter of a field of leaf 1 answers `Some` exactly when the highest basic leaf that leaf 0
/// reported is 1 or more, whatever the vendor.
pub proof fn lemma_feature_field_present_iff_leaf1_reported<F: Fn(u32, u32) -> CpuidResult>(
    cpuid: CpuId<F>,
    r: Option<u32>,
    in_ebx: bool,
    highbit: nat,
    lowbit: nat,
)
    requires
        reads_feature_field(cpuid, r, in_ebx, highbit, lowbit),
    ensures
        r is Some <==> 1 <= cpuid@.supported_leafs,
{
    lemma_leaf_support_by_reported_limits(cpuid@, 1);
}

/// What `with_cpuid_fn` records from leaf 0 and leaf 8000_0000h: the highest basic leaf is `eax`
/// of leaf 0, the highest extended leaf `eax` of leaf 8000_0000h, and the vendor is the one that
/// the registers of leaf 0 name.
pub proof fn lemma_view_of_leaves_fields(vendor_leaf: CpuidResult, extended_leaf: CpuidResult)
    ensures
        view_of_leaves(vendor_leaf, extended_leaf).supported_leafs == vendor_leaf.eax,
        view_of_leaves(vendor_leaf, extended_leaf).supported_extended_leafs == extended_leaf.eax,
        view_of_leaves(vendor_leaf, extended_leaf).vendor == vendor_from_regs(
            vendor_leaf.ebx,
            vendor_leaf.ecx,
            vendor_leaf.edx,
        ),
{
}

} // verus!
