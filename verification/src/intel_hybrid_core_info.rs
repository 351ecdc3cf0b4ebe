use vstd::prelude::*;
use vstd::arithmetic::power2::{pow2, lemma2_to64};
use vstd::bits::lemma_u32_shr_is_div;
use vstd::arithmetic::div_mod::{
    lemma_small_mod, lemma_fundamental_div_mod, lemma_fundamental_div_mod_converse,
    lemma_mod_multiples_vanish,
};
use vstd::std_specs::convert::FromSpecImpl;
use crate::parse_cpuid::EAX_STRUCTURED_EXTENDED_FEATURE_INFO;
use crate::utils::{
    CpuidResult, bit_field, extract_bit, extract_bits, lemma_mask_is_field, lemma_shift_mask_is_field,
};

verus! {

/// CPUID leaf 1Ah: hybrid information.
pub const EAX_HYBRID_INFO: u32 = 0x1A;

/// The purpose of the core the code runs on.
#[derive(Debug, PartialEq, Eq, Structural)]
pub enum CpuPurpose {
    /// general purpose CPU core
    GeneralPurpose,
    /// performance CPU core
    PerformancePurpose,
    /// efficiency CPU core
    EfficiencyPurpose,
}

/// The purpose that a core type number (bits 31:24 of `eax` of leaf 1Ah) names: 20h is an Atom
/// (efficiency) core, 40h a Core (performance) core, and anything else general purpose.
pub open spec fn purpose_of_core_type_bits(bits: nat) -> CpuPurpose {
    if bits == 0x20 {
        CpuPurpose::EfficiencyPurpose
    } else if bits == 0x40 {
        CpuPurpose::PerformancePurpose
    } else {
        CpuPurpose::GeneralPurpose
    }
}

/// The purpose that leaf 7 (`leaf7`) and leaf 1Ah (`leaf1a`) report: where bit 15 of `edx` of
/// leaf 7 marks a hybrid part, the core type of leaf 1Ah decides; otherwise the core is general
/// purpose.
pub open spec fn purpose_of_leaves(leaf7: CpuidResult, leaf1a: CpuidResult) -> CpuPurpose {
    if bit_field(leaf7.edx, 15, 15) == 1 {
        purpose_of_core_type_bits(bit_field(leaf1a.eax, 31, 24))
    } else {
        CpuPurpose::GeneralPurpose
    }
}

/// `cpuid_fn` may be called on leaf 7, and on leaf 1Ah only where a result of leaf 7 marks a
/// hybrid part (bit 15 of `edx`): nothing else may be read.
pub open spec fn reads_purpose_leaves<F: Fn(u32, u32) -> CpuidResult>(cpuid_fn: F) -> bool {
    &&& call_requires(cpuid_fn, (EAX_STRUCTURED_EXTENDED_FEATURE_INFO, 0u32))
    &&& forall|leaf7: CpuidResult|
        #[trigger] call_ensures(cpuid_fn, (EAX_STRUCTURED_EXTENDED_FEATURE_INFO, 0u32), leaf7)
            && bit_field(leaf7.edx, 15, 15) == 1 ==> call_requires(cpuid_fn, (EAX_HYBRID_INFO, 0u32))
}

/// Check for hybrid architecture.
///
/// - CPUID[7h] is the structured extended feature flags enumeration leaf:
///   EDX, bit 15: Hybrid. If 1, the processor is identified as a hybrid part.
/// - CPUID[1Ah] is the hybrid information enumeration leaf (EAX = 1AH, ECX = 0):
///   EAX, bits 31-24: Core type.
///
/// `cpuid_fn` executes CPUID for a leaf and subleaf. Leaf 7 is read first, and leaf 1Ah only on a
/// hybrid part; what comes back is whatever `cpuid_fn` returns. The precondition lets `cpuid_fn`
/// refuse every other call, so no other leaf is read.
pub fn get_cpu_purpose<F: Fn(u32, u32) -> CpuidResult>(cpuid_fn: F) -> (r: CpuPurpose)
    requires
        reads_purpose_leaves(cpuid_fn),
    ensures
        exists|leaf7: CpuidResult|
            {
                &&& call_ensures(cpuid_fn, (EAX_STRUCTURED_EXTENDED_FEATURE_INFO, 0u32), leaf7)
                &&& if bit_field(leaf7.edx, 15, 15) == 1 {
                    exists|leaf1a: CpuidResult|
                        {
                            &&& call_ensures(cpuid_fn, (EAX_HYBRID_INFO, 0u32), leaf1a)
                            &&& r == purpose_of_leaves(leaf7, leaf1a)
                        }
                } else {
                    r == CpuPurpose::GeneralPurpose
                }
            },
{
    let cpuid = cpuid_fn(EAX_STRUCTURED_EXTENDED_FEATURE_INFO, 0x0);

    if extract_bit(cpuid.edx, 15) == 0x1 {
        let leaf7 = cpuid;
        let cpuid = cpuid_fn(EAX_HYBRID_INFO, 0x0);
        let r = match extract_bits(cpuid.eax, 31, 24) {
            // Atom
            0x20 => CpuPurpose::EfficiencyPurpose,
            // Core
            0x40 => CpuPurpose::PerformancePurpose,
            _ => CpuPurpose::GeneralPurpose,
        };
        assert(r == purpose_of_leaves(leaf7, cpuid));
        r
    } else {
        CpuPurpose::GeneralPurpose
    }
}

/// The type of a core of a hybrid part, as leaf 1Ah reports it in `eax[31:24]`.
#[derive(Debug, Clone, PartialEq, Eq, Structural, PartialOrd)]
pub enum HybridCoreType {
    /// Core type number 10h.
    _Reserved1,
    /// Core type number 20h.
    Atom,
    /// Core type number 30h.
    _Reserved2,
    /// Core type number 40h.
    Core,
    /// Any other number; its own number is 41h.
    Invalid,
}

/// The number of a core type.
pub open spec fn core_type_code(t: HybridCoreType) -> u32 {
    match t {
        HybridCoreType::_Reserved1 => 0x10,
        HybridCoreType::Atom => 0x20,
        HybridCoreType::_Reserved2 => 0x30,
        HybridCoreType::Core => 0x40,
        HybridCoreType::Invalid => 0x41,
    }
}

/// The core type that a core type number names.
pub open spec fn core_type_of_bits(bits: nat) -> HybridCoreType {
    if bits == 0x10 {
        HybridCoreType::_Reserved1
    } else if bits == 0x20 {
        HybridCoreType::Atom
    } else if bits == 0x30 {
        HybridCoreType::_Reserved2
    } else if bits == 0x40 {
        HybridCoreType::Core
    } else {
        HybridCoreType::Invalid
    }
}

/// The core type that an `eax` of leaf 1Ah reports in its bits 31:24.
pub open spec fn core_type_of_eax(eax: u32) -> HybridCoreType {
    core_type_of_bits(bit_field(eax, 31, 24))
}

impl HybridCoreType {
    /// The name of the core type, as `Debug` writes it.
    pub fn to_string(&self) -> (s: String)
        ensures
            s@ == core_type_name(*self),
    {
        match self {
            HybridCoreType::_Reserved1 => String::from_str("_Reserved1"),
            HybridCoreType::Atom => String::from_str("Atom"),
            HybridCoreType::_Reserved2 => String::from_str("_Reserved2"),
            HybridCoreType::Core => String::from_str("Core"),
            HybridCoreType::Invalid => String::from_str("Invalid"),
        }
    }
}

/// The name of a core type.
pub open spec fn core_type_name(t: HybridCoreType) -> Seq<char> {
    match t {
        HybridCoreType::_Reserved1 => "_Reserved1"@,
        HybridCoreType::Atom => "Atom"@,
        HybridCoreType::_Reserved2 => "_Reserved2"@,
        HybridCoreType::Core => "Core"@,
        HybridCoreType::Invalid => "Invalid"@,
    }
}

/// `eax >> 24` is the field `eax[31:24]`.
proof fn lemma_top_byte(eax: u32)
    ensures
        (eax >> 24) as nat == bit_field(eax, 31, 24),
{
    lemma2_to64();
    lemma_u32_shr_is_div(eax, 24);
    assert(eax as nat / pow2(24) < 256);
    lemma_small_mod(eax as nat / pow2(24), 256);
}

impl<'a> From<&'a CpuidResult> for HybridCoreType {
    fn from(cpuid: &'a CpuidResult) -> (r: Self) {
        proof {
            lemma_top_byte(cpuid.eax);
        }
        match cpuid.eax >> 24 {
            0x10 => HybridCoreType::_Reserved1,
            0x20 => HybridCoreType::Atom,
            0x30 => HybridCoreType::_Reserved2,
            0x40 => HybridCoreType::Core,
            _ => Self::Invalid,
        }
    }
}

impl<'a> FromSpecImpl<&'a CpuidResult> for HybridCoreType {
    open spec fn obeys_from_spec() -> bool {
        true
    }

    open spec fn from_spec(cpuid: &'a CpuidResult) -> Self {
        core_type_of_eax(cpuid.eax)
    }
}

/// The core type that an `eax` of leaf 1Ah reports, where it is a valid one.
pub open spec fn core_type_option(eax: u32) -> Option<HybridCoreType> {
    if core_type_of_eax(eax) == HybridCoreType::Invalid {
        None
    } else {
        Some(core_type_of_eax(eax))
    }
}

/// The native model id that an `eax` of leaf 1Ah reports in its bits 23:0.
pub open spec fn native_model_id_of(eax: u32) -> u32 {
    bit_field(eax, 23, 0) as u32
}

/// Reads the hybrid information leaf (1Ah).
pub struct HybridInfo;

impl HybridInfo {
    /// The core type and the native model id of a result of leaf 1Ah.
    pub fn get_hybrid_info_from_cpuid(cpuid: &CpuidResult) -> (r: (Option<HybridCoreType>, u32))
        ensures
            r == (core_type_option(cpuid.eax), native_model_id_of(cpuid.eax)),
    {
        (Self::get_core_type(cpuid), Self::get_native_model_id(cpuid))
    }

    /// Reads leaf 1Ah, subleaf 0, with `cpuid_fn` and returns its core type and native model id.
    pub fn get_hybrid_info<F: Fn(u32, u32) -> CpuidResult>(cpuid_fn: F) -> (r: (
        Option<HybridCoreType>,
        u32,
    ))
        requires
            call_requires(cpuid_fn, (EAX_HYBRID_INFO, 0u32)),
        ensures
            exists|leaf1a: CpuidResult|
                {
                    &&& call_ensures(cpuid_fn, (EAX_HYBRID_INFO, 0u32), leaf1a)
                    &&& r == (core_type_option(leaf1a.eax), native_model_id_of(leaf1a.eax))
                },
    {
        let cpuid = cpuid_fn(EAX_HYBRID_INFO, 0x0);

        Self::get_hybrid_info_from_cpuid(&cpuid)
    }

    /// The core type of a result of leaf 1Ah, or `None` where its number names no core type.
    pub fn get_core_type(cpuid: &CpuidResult) -> (r: Option<HybridCoreType>)
        ensures
            r == core_type_option(cpuid.eax),
    {
        let core_type = HybridCoreType::from(cpuid);

        if core_type == HybridCoreType::Invalid {
            return None;
        }

        Some(core_type)
    }

    /// The native model id of a result of leaf 1Ah: the low 24 bits of `eax`.
    pub fn get_native_model_id(cpuid: &CpuidResult) -> (r: u32)
        ensures
            r == native_model_id_of(cpuid.eax),
    {
        proof {
            lemma2_to64();
            lemma_mask_is_field(cpuid.eax, 0x00FFFFFF, 24);
        }
        cpuid.eax & 0x00FFFFFF
    }
}

/// The `eax` of leaf 1Ah that reports core type `core_type` and native model id `nid`: the core
/// type number in bits 31:24 and the low 24 bits of `nid` below it.
pub open spec fn gen_eax_spec(core_type: HybridCoreType, nid: u32) -> u32 {
    (core_type_code(core_type) * 0x100_0000 + nid % 0x100_0000) as u32
}

/// `eax` of leaf 1Ah of a Tremont (Atom) core.
pub const TNT: u32 = 0x2000_0000;
/// `eax` of leaf 1Ah of a Gracemont (Atom) core.
pub const GRT: u32 = 0x2000_0001;
/// `eax` of leaf 1Ah of a Crestmont (Atom) core.
pub const CMT: u32 = 0x2000_0002;
/// `eax` of leaf 1Ah of a Sunny Cove (Core) core.
pub const SNC: u32 = 0x4000_0000;
/// `eax` of leaf 1Ah of a Golden Cove (Core) core.
pub const GLC: u32 = 0x4000_0001;
/// `eax` of leaf 1Ah of a Redwood Cove (Core) core.
pub const RWC: u32 = 0x4000_0002;

/// Intel microarchitectures, named by the `eax` that leaf 1Ah reports for their cores.
#[derive(Debug, PartialEq, Eq, Structural)]
pub enum IntelNativeModelId {
    /* Atom */
    Tremont,
    Gracemont,
    Crestmont,
    /* Core */
    SunnyCove,
    GoldenCove,
    RedwoodCove,
    /* */
    _Reserved,
}

/// The `eax` of leaf 1Ah that stands for a microarchitecture; `_Reserved` follows the last one.
pub open spec fn native_model_code(m: IntelNativeModelId) -> u32 {
    match m {
        IntelNativeModelId::Tremont => TNT,
        IntelNativeModelId::Gracemont => GRT,
        IntelNativeModelId::Crestmont => CMT,
        IntelNativeModelId::SunnyCove => SNC,
        IntelNativeModelId::GoldenCove => GLC,
        IntelNativeModelId::RedwoodCove => RWC,
        IntelNativeModelId::_Reserved => 0x4000_0003,
    }
}

/// The microarchitecture whose `eax` of leaf 1Ah is `eax`, or `_Reserved`.
pub open spec fn native_model_of(eax: u32) -> IntelNativeModelId {
    if eax == TNT {
        IntelNativeModelId::Tremont
    } else if eax == GRT {
        IntelNativeModelId::Gracemont
    } else if eax == CMT {
        IntelNativeModelId::Crestmont
    } else if eax == SNC {
        IntelNativeModelId::SunnyCove
    } else if eax == GLC {
        IntelNativeModelId::GoldenCove
    } else if eax == RWC {
        IntelNativeModelId::RedwoodCove
    } else {
        IntelNativeModelId::_Reserved
    }
}

impl IntelNativeModelId {
    /// Composes an `eax` of leaf 1Ah from a core type and a native model id.
    pub fn gen_eax(core_type: HybridCoreType, nid: u32) -> (r: u32)
        ensures
            r == gen_eax_spec(core_type, nid),
    {
        let code: u32 = match core_type {
            HybridCoreType::_Reserved1 => 0x10,
            HybridCoreType::Atom => 0x20,
            HybridCoreType::_Reserved2 => 0x30,
            HybridCoreType::Core => 0x40,
            HybridCoreType::Invalid => 0x41,
        };
        assert((code << 24u32) | (nid & 0x00FF_FFFFu32) == code * 0x100_0000 + nid % 0x100_0000)
            by (bit_vector)
            requires
                code <= 0x41,
        ;
        (code << 24) | (nid & 0x00FFFFFF)
    }
}

impl From<u32> for IntelNativeModelId {
    fn from(eax: u32) -> (r: Self) {
        if eax == TNT {
            Self::Tremont
        } else if eax == GRT {
            Self::Gracemont
        } else if eax == CMT {
            Self::Crestmont
        } else if eax == SNC {
            Self::SunnyCove
        } else if eax == GLC {
            Self::GoldenCove
        } else if eax == RWC {
            Self::RedwoodCove
        } else {
            Self::_Reserved
        }
    }
}

impl FromSpecImpl<u32> for IntelNativeModelId {
    open spec fn obeys_from_spec() -> bool {
        true
    }

    open spec fn from_spec(eax: u32) -> Self {
        native_model_of(eax)
    }
}

/// Each named microarchitecture's `eax` is composed of its core type (Atom or Core) and a native
/// model id 0, 1 or 2.
pub proof fn lemma_native_model_codes_compose()
    ensures
        native_model_code(IntelNativeModelId::Tremont) == gen_eax_spec(HybridCoreType::Atom, 0),
        native_model_code(IntelNativeModelId::Gracemont) == gen_eax_spec(HybridCoreType::Atom, 1),
        native_model_code(IntelNativeModelId::Crestmont) == gen_eax_spec(HybridCoreType::Atom, 2),
        native_model_code(IntelNativeModelId::SunnyCove) == gen_eax_spec(HybridCoreType::Core, 0),
        native_model_code(IntelNativeModelId::GoldenCove) == gen_eax_spec(HybridCoreType::Core, 1),
        native_model_code(IntelNativeModelId::RedwoodCove) == gen_eax_spec(HybridCoreType::Core, 2),
{
}

/// Reading back the `eax` of a named microarchitecture gives that microarchitecture.
pub proof fn lemma_native_model_round_trip(m: IntelNativeModelId)
    requires
        m != IntelNativeModelId::_Reserved,
    ensures
        native_model_of(native_model_code(m)) == m,
{
}

/// Decoding an `eax` composed of a core type and a native model id gives back the core type
/// (`None` for `Invalid`) and the low 24 bits of the native model id.
pub proof fn lemma_decode_composed_eax(core_type: HybridCoreType, nid: u32)
    ensures
        core_type_of_eax(gen_eax_spec(core_type, nid)) == core_type,
        core_type_option(gen_eax_spec(core_type, nid)) == (if core_type == HybridCoreType::Invalid {
            None
        } else {
            Some(core_type)
        }),
        native_model_id_of(gen_eax_spec(core_type, nid)) == nid % 0x100_0000,
{
    lemma2_to64();
    let code = core_type_code(core_type);
    let low = nid % 0x100_0000;
    let eax = gen_eax_spec(core_type, nid);
    assert(eax == code * 0x100_0000 + low);
    lemma_fields_of_sum(code as nat, low as nat);
}

/// The fields 31:24 and 23:0 of `hi * 2^24 + lo`, for `hi < 2^8` and `lo < 2^24`.
proof fn lemma_fields_of_sum(hi: nat, lo: nat)
    requires
        hi < 0x100,
        lo < 0x100_0000,
    ensures
        bit_field((hi * 0x100_0000 + lo) as u32, 31, 24) == hi,
        bit_field((hi * 0x100_0000 + lo) as u32, 23, 0) == lo,
{
    lemma2_to64();
    let x = hi * 0x100_0000 + lo;
    assert(x < 0x1_0000_0000);
    lemma_fundamental_div_mod_converse(x as int, 0x100_0000, hi as int, lo as int);
    lemma_small_mod(hi, 0x100);
    lemma_small_mod(lo, 0x100_0000);
    lemma_mod_multiples_vanish(hi as int, lo as int, 0x100_0000);
}

/// Composing the core type and the native model id that an `eax` reports gives back that `eax`,
/// where its core type number names a core type.
pub proof fn lemma_compose_decoded_eax(eax: u32)
    requires
        core_type_of_eax(eax) != HybridCoreType::Invalid,
    ensures
        gen_eax_spec(core_type_of_eax(eax), native_model_id_of(eax)) == eax,
{
    lemma2_to64();
    lemma_fundamental_div_mod(eax as int, 0x100_0000);
    let hi = eax as nat / 0x100_0000;
    assert(hi < 0x100);
    lemma_small_mod(hi, 0x100);
    assert(bit_field(eax, 31, 24) == hi);
    assert(bit_field(eax, 23, 0) == eax as nat % 0x100_0000);
}

/// The purpose that `get_cpu_purpose` reports on a hybrid part follows the core type that
/// `HybridCoreType::from` reads from the same `eax`: Atom is efficiency, Core is performance, and
/// any other type general purpose.
pub proof fn lemma_purpose_follows_core_type(eax: u32)
    ensures
        purpose_of_core_type_bits(bit_field(eax, 31, 24)) == (match core_type_of_eax(eax) {
            HybridCoreType::Atom => CpuPurpose::EfficiencyPurpose,
            HybridCoreType::Core => CpuPurpose::PerformancePurpose,
            _ => CpuPurpose::GeneralPurpose,
        }),
{
}

/// On a part whose leaf-7 `edx` has bit 15 clear the purpose is general; on a hybrid part it
/// depends only on the top byte of leaf-1Ah `eax`: 20h (Atom) is efficiency, 40h (Core) is
/// performance, anything else is general, whatever the native model id in bits 23:0.
pub proof fn lemma_purpose_by_hybrid_bit_and_core_byte(leaf7: CpuidResult, leaf1a: CpuidResult)
    ensures
        (leaf7.edx >> 15u32) & 1 == 0 ==> purpose_of_leaves(leaf7, leaf1a)
            == CpuPurpose::GeneralPurpose,
        (leaf7.edx >> 15u32) & 1 == 1 && (leaf1a.eax >> 24u32) == 0x20 ==> purpose_of_leaves(
            leaf7,
            leaf1a,
        ) == CpuPurpose::EfficiencyPurpose,
        (leaf7.edx >> 15u32) & 1 == 1 && (leaf1a.eax >> 24u32) == 0x40 ==> purpose_of_leaves(
            leaf7,
            leaf1a,
        ) == CpuPurpose::PerformancePurpose,
        (leaf7.edx >> 15u32) & 1 == 1 && (leaf1a.eax >> 24u32) != 0x20 && (leaf1a.eax >> 24u32)
            != 0x40 ==> purpose_of_leaves(leaf7, leaf1a) == CpuPurpose::GeneralPurpose,
{
    lemma2_to64();
    lemma_shift_mask_is_field(leaf7.edx, 15, 1, 1);
    lemma_top_byte(leaf1a.eax);
}

/// The core type of leaf 1Ah depends only on the top byte of `eax`: 10h, 20h, 30h and 40h name
/// `_Reserved1`, `Atom`, `_Reserved2` and `Core`, and `get_core_type` returns them; any other byte
/// is `Invalid`, for which `get_core_type` returns `None`. The native model id is `eax & FFFFFFh`.
pub proof fn lemma_core_type_by_top_byte(eax: u32)
    ensures
        (eax >> 24u32) == 0x10 ==> core_type_of_eax(eax) == HybridCoreType::_Reserved1
            && core_type_option(eax) == Some(HybridCoreType::_Reserved1),
        (eax >> 24u32) == 0x20 ==> core_type_of_eax(eax) == HybridCoreType::Atom
            && core_type_option(eax) == Some(HybridCoreType::Atom),
        (eax >> 24u32) == 0x30 ==> core_type_of_eax(eax) == HybridCoreType::_Reserved2
            && core_type_option(eax) == Some(HybridCoreType::_Reserved2),
        (eax >> 24u32) == 0x40 ==> core_type_of_eax(eax) == HybridCoreType::Core
            && core_type_option(eax) == Some(HybridCoreType::Core),
        (eax >> 24u32) != 0x10 && (eax >> 24u32) != 0x20 && (eax >> 24u32) != 0x30 && (eax
            >> 24u32) != 0x40 ==> core_type_of_eax(eax) == HybridCoreType::Invalid
            && core_type_option(eax) is None,
        native_model_id_of(eax) == eax & 0x00FF_FFFF,
{
    lemma2_to64();
    lemma_top_byte(eax);
    lemma_mask_is_field(eax, 0x00FF_FFFF, 24);
}

} // verus!
