use vstd::prelude::*;
use vstd::arithmetic::power2::lemma2_to64;
use vstd::std_specs::convert::FromSpecImpl;
use crate::utils::{CpuidResult, bit_field, lemma_shift_mask_is_field, lemma_mask_is_field};

verus! {

/// The level type that CPUID leaves 0Bh and 1Fh report in `ecx[15:8]`.
#[derive(Debug, PartialEq, Eq, Structural)]
pub enum TopoLevelType {
    Invalid,
    SMT,
    Core,
    Module,
    Tile,
    Die,
}

/// The level type that a level-type number names; numbers other than 1 to 5 are invalid.
pub open spec fn topo_level_of(reg: u8) -> TopoLevelType {
    if reg == 0x1 {
        TopoLevelType::SMT
    } else if reg == 0x2 {
        TopoLevelType::Core
    } else if reg == 0x3 {
        TopoLevelType::Module
    } else if reg == 0x4 {
        TopoLevelType::Tile
    } else if reg == 0x5 {
        TopoLevelType::Die
    } else {
        TopoLevelType::Invalid
    }
}

/// The level type that an `ecx` value of leaf 0Bh or 1Fh reports: the number in its bits 15:8.
pub open spec fn topo_level_of_ecx(ecx: u32) -> TopoLevelType {
    topo_level_of(bit_field(ecx, 15, 8) as u8)
}

impl From<u8> for TopoLevelType {
    fn from(reg: u8) -> (r: Self) {
        match reg {
            0x1 => Self::SMT,
            0x2 => Self::Core,
            0x3 => Self::Module,
            0x4 => Self::Tile,
            0x5 => Self::Die,
            /* 0x0 | */
            _ => Self::Invalid,
        }
    }
}

impl FromSpecImpl<u8> for TopoLevelType {
    open spec fn obeys_from_spec() -> bool {
        true
    }

    open spec fn from_spec(reg: u8) -> Self {
        topo_level_of(reg)
    }
}

impl From<u32> for TopoLevelType {
    fn from(ecx: u32) -> (r: Self) {
        let reg = (ecx >> 8) & 0xFF;
        proof {
            lemma2_to64();
            lemma_shift_mask_is_field(ecx, 8, 0xFF, 8);
        }
        TopoLevelType::from(reg as u8)
    }
}

impl FromSpecImpl<u32> for TopoLevelType {
    open spec fn obeys_from_spec() -> bool {
        true
    }

    open spec fn from_spec(ecx: u32) -> Self {
        topo_level_of_ecx(ecx)
    }
}

impl From<CpuidResult> for TopoLevelType {
    fn from(cpuid: CpuidResult) -> (r: Self) {
        TopoLevelType::from(cpuid.ecx)
    }
}

impl FromSpecImpl<CpuidResult> for TopoLevelType {
    open spec fn obeys_from_spec() -> bool {
        true
    }

    open spec fn from_spec(cpuid: CpuidResult) -> Self {
        topo_level_of_ecx(cpuid.ecx)
    }
}

impl TopoLevelType {
    /// The name of the level type, as `Debug` writes it.
    pub fn to_string(&self) -> (s: String)
        ensures
            s@ == topo_level_name(*self),
    {
        match self {
            TopoLevelType::Invalid => String::from_str("Invalid"),
            TopoLevelType::SMT => String::from_str("SMT"),
            TopoLevelType::Core => String::from_str("Core"),
            TopoLevelType::Module => String::from_str("Module"),
            TopoLevelType::Tile => String::from_str("Tile"),
            TopoLevelType::Die => String::from_str("Die"),
        }
    }
}

/// The name of a level type.
pub open spec fn topo_level_name(t: TopoLevelType) -> Seq<char> {
    match t {
        TopoLevelType::Invalid => "Invalid"@,
        TopoLevelType::SMT => "SMT"@,
        TopoLevelType::Core => "Core"@,
        TopoLevelType::Module => "Module"@,
        TopoLevelType::Tile => "Tile"@,
        TopoLevelType::Die => "Die"@,
    }
}

/// One level of the extended topology that CPUID leaf 0Bh or 1Fh reports.
pub struct IntelExtTopo {
    pub next_level: u32,
    pub x2apic_id: u32,
    pub num_proc: u32,
    pub level_type: TopoLevelType,
}

/// The topology level that a result of leaf 0Bh or 1Fh describes: the shift to the next level
/// in `eax[3:0]`, the number of logical processors in `ebx[15:0]`, the x2APIC id in `edx` and
/// the level type in `ecx[15:8]`.
pub open spec fn ext_topo_of(cpuid: CpuidResult) -> IntelExtTopo {
    IntelExtTopo {
        next_level: bit_field(cpuid.eax, 3, 0) as u32,
        x2apic_id: cpuid.edx,
        num_proc: bit_field(cpuid.ebx, 15, 0) as u32,
        level_type: topo_level_of_ecx(cpuid.ecx),
    }
}

impl<'a> From<&'a CpuidResult> for IntelExtTopo {
    fn from(cpuid: &'a CpuidResult) -> (r: Self) {
        proof {
            lemma2_to64();
            lemma_mask_is_field(cpuid.eax, 0xF, 4);
            lemma_mask_is_field(cpuid.ebx, 0xFFFF, 16);
        }
        let next_level = cpuid.eax & 0xF;
        let num_proc = cpuid.ebx & 0xFFFF;
        let x2apic_id = cpuid.edx;
        let level_type = TopoLevelType::from(cpuid.ecx);

        Self { next_level, x2apic_id, level_type, num_proc }
    }
}

impl<'a> FromSpecImpl<&'a CpuidResult> for IntelExtTopo {
    open spec fn obeys_from_spec() -> bool {
        true
    }

    open spec fn from_spec(cpuid: &'a CpuidResult) -> Self {
        ext_topo_of(*cpuid)
    }
}

/// The level numbers of leaves 0Bh and 1Fh: 1 is SMT, 2 Core, 3 Module, 4 Tile, 5 Die, and any
/// other number (0 among them) is invalid.
pub proof fn lemma_level_numbers(n: u8)
    ensures
        n == 1 ==> topo_level_of(n) == TopoLevelType::SMT,
        n == 2 ==> topo_level_of(n) == TopoLevelType::Core,
        n == 3 ==> topo_level_of(n) == TopoLevelType::Module,
        n == 4 ==> topo_level_of(n) == TopoLevelType::Tile,
        n == 5 ==> topo_level_of(n) == TopoLevelType::Die,
        (n == 0 || n > 5) ==> topo_level_of(n) == TopoLevelType::Invalid,
{
}

/// The level type of an `ecx` of leaf 0Bh or 1Fh is the level that `(ecx >> 8) & FFh` numbers;
/// it does not depend on the other bits, so two `ecx` values that agree in bits 15:8 give the same
/// level type.
pub proof fn lemma_level_type_by_ecx_bits_15_8(ecx: u32, other: u32)
    ensures
        topo_level_of_ecx(ecx) == topo_level_of(((ecx >> 8u32) & 0xFF) as u8),
        (ecx >> 8u32) & 0xFF == (other >> 8u32) & 0xFF ==> topo_level_of_ecx(ecx)
            == topo_level_of_ecx(other),
{
    lemma2_to64();
    lemma_shift_mask_is_field(ecx, 8, 0xFF, 8);
    lemma_shift_mask_is_field(other, 8, 0xFF, 8);
}

/// A topology level read from leaf 0Bh or 1Fh holds `eax & Fh`, `ebx & FFFFh`, `edx`, and the
/// level type of `ecx`.
pub proof fn lemma_ext_topo_fields(cpuid: CpuidResult)
    ensures
        ext_topo_of(cpuid).next_level == cpuid.eax & 0xF,
        ext_topo_of(cpuid).num_proc == cpuid.ebx & 0xFFFF,
        ext_topo_of(cpuid).x2apic_id == cpuid.edx,
        ext_topo_of(cpuid).level_type == topo_level_of(((cpuid.ecx >> 8u32) & 0xFF) as u8),
{
    lemma2_to64();
    lemma_mask_is_field(cpuid.eax, 0xF, 4);
    lemma_mask_is_field(cpuid.ebx, 0xFFFF, 16);
    lemma_level_type_by_ecx_bits_15_8(cpuid.ecx, cpuid.ecx);
}

} // verus!
