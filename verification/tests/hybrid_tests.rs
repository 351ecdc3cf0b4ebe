use cpuinfo::intel_hybrid_core_info::{
    get_cpu_purpose, CpuPurpose, HybridCoreType, HybridInfo, IntelNativeModelId,
};
use cpuinfo::CpuidResult;

fn regs(eax: u32, edx: u32) -> CpuidResult {
    CpuidResult { eax, ebx: 0, ecx: 0, edx }
}

fn hybrid_atom(leaf: u32, _sub: u32) -> CpuidResult {
    match leaf {
        0x7 => regs(0, 1 << 15),
        0x1A => regs(0x2000_0001, 0),
        _ => regs(0, 0),
    }
}

fn hybrid_core(leaf: u32, _sub: u32) -> CpuidResult {
    match leaf {
        0x7 => regs(0, 0xFFFF_FFFF),
        0x1A => regs(0x4000_0002, 0),
        _ => regs(0, 0),
    }
}

fn hybrid_other(leaf: u32, _sub: u32) -> CpuidResult {
    match leaf {
        0x7 => regs(0, 1 << 15),
        0x1A => regs(0x3000_0000, 0),
        _ => regs(0, 0),
    }
}

fn not_hybrid(leaf: u32, _sub: u32) -> CpuidResult {
    match leaf {
        0x7 => regs(0, !(1u32 << 15)),
        0x1A => panic!("leaf 1Ah is read only on a hybrid part"),
        _ => regs(0, 0),
    }
}

#[test]
fn cpu_purpose_follows_core_type() {
    assert_eq!(get_cpu_purpose(hybrid_atom), CpuPurpose::EfficiencyPurpose);
    assert_eq!(get_cpu_purpose(hybrid_core), CpuPurpose::PerformancePurpose);
    assert_eq!(get_cpu_purpose(hybrid_other), CpuPurpose::GeneralPurpose);
    assert_eq!(get_cpu_purpose(not_hybrid), CpuPurpose::GeneralPurpose);
}

#[test]
fn core_type_from_leaf() {
    assert_eq!(HybridCoreType::from(&regs(0x1000_0000, 0)), HybridCoreType::_Reserved1);
    assert_eq!(HybridCoreType::from(&regs(0x20FF_FFFF, 0)), HybridCoreType::Atom);
    assert_eq!(HybridCoreType::from(&regs(0x3000_0001, 0)), HybridCoreType::_Reserved2);
    assert_eq!(HybridCoreType::from(&regs(0x4012_3456, 0)), HybridCoreType::Core);
    assert_eq!(HybridCoreType::from(&regs(0x4100_0000, 0)), HybridCoreType::Invalid);
    assert_eq!(HybridCoreType::from(&regs(0, 0)), HybridCoreType::Invalid);
}

#[test]
fn core_type_names() {
    assert_eq!(HybridCoreType::Atom.to_string(), "Atom");
    assert_eq!(HybridCoreType::_Reserved2.to_string(), "_Reserved2");
    assert_eq!(HybridCoreType::Invalid.to_string(), "Invalid");
}

#[test]
fn hybrid_info_from_leaf() {
    assert_eq!(
        HybridInfo::get_hybrid_info_from_cpuid(&regs(0x4012_3456, 0)),
        (Some(HybridCoreType::Core), 0x12_3456)
    );
    assert_eq!(HybridInfo::get_hybrid_info_from_cpuid(&regs(0x5012_3456, 0)), (None, 0x12_3456));
    assert_eq!(HybridInfo::get_core_type(&regs(0x0000_0001, 0)), None);
    assert_eq!(HybridInfo::get_native_model_id(&regs(0xFFFF_FFFF, 0)), 0x00FF_FFFF);
    assert_eq!(HybridInfo::get_hybrid_info(hybrid_atom), (Some(HybridCoreType::Atom), 1));
}

#[test]
fn gen_eax_composes_core_type_and_model_id() {
    assert_eq!(IntelNativeModelId::gen_eax(HybridCoreType::Atom, 0x1), 0x2000_0001);
    assert_eq!(IntelNativeModelId::gen_eax(HybridCoreType::Core, 0xFF12_3456), 0x4012_3456);
    assert_eq!(IntelNativeModelId::gen_eax(HybridCoreType::Invalid, 0), 0x4100_0000);
}

#[test]
fn decoding_a_composed_eax_gives_back_its_parts() {
    for ct in [HybridCoreType::Atom, HybridCoreType::Core, HybridCoreType::_Reserved1] {
        let eax = IntelNativeModelId::gen_eax(ct.clone(), 0xAB_CDEF);
        assert_eq!(HybridInfo::get_hybrid_info_from_cpuid(&regs(eax, 0)), (Some(ct), 0xAB_CDEF));
    }
    let eax = IntelNativeModelId::gen_eax(HybridCoreType::Invalid, 7);
    assert_eq!(HybridInfo::get_hybrid_info_from_cpuid(&regs(eax, 0)), (None, 7));
}

#[test]
fn native_model_from_eax() {
    assert_eq!(IntelNativeModelId::from(0x2000_0000u32), IntelNativeModelId::Tremont);
    assert_eq!(IntelNativeModelId::from(0x2000_0001u32), IntelNativeModelId::Gracemont);
    assert_eq!(IntelNativeModelId::from(0x2000_0002u32), IntelNativeModelId::Crestmont);
    assert_eq!(IntelNativeModelId::from(0x4000_0000u32), IntelNativeModelId::SunnyCove);
    assert_eq!(IntelNativeModelId::from(0x4000_0001u32), IntelNativeModelId::GoldenCove);
    assert_eq!(IntelNativeModelId::from(0x4000_0002u32), IntelNativeModelId::RedwoodCove);
    assert_eq!(IntelNativeModelId::from(0x4000_0003u32), IntelNativeModelId::_Reserved);
    assert_eq!(IntelNativeModelId::from(0u32), IntelNativeModelId::_Reserved);
    assert_eq!(
        IntelNativeModelId::from(IntelNativeModelId::gen_eax(HybridCoreType::Core, 1)),
        IntelNativeModelId::GoldenCove
    );
}

#[test]
fn composing_the_decoded_parts_gives_back_eax() {
    for eax in [0x2000_0001u32, 0x40AB_CDEF, 0x1000_0000, 0x30FF_FFFF] {
        let r = regs(eax, 0);
        let ct = HybridInfo::get_core_type(&r).unwrap();
        assert_eq!(IntelNativeModelId::gen_eax(ct, HybridInfo::get_native_model_id(&r)), eax);
    }
}

#[test]
fn purpose_matches_core_type_of_leaf_1a() {
    fn check(leaf1a_eax: u32) {
        let expected = match HybridCoreType::from(&regs(leaf1a_eax, 0)) {
            HybridCoreType::Atom => CpuPurpose::EfficiencyPurpose,
            HybridCoreType::Core => CpuPurpose::PerformancePurpose,
            _ => CpuPurpose::GeneralPurpose,
        };
        let reader = move |leaf: u32, _sub: u32| -> CpuidResult {
            if leaf == 0x7 { regs(0, 1 << 15) } else { regs(leaf1a_eax, 0) }
        };
        assert_eq!(get_cpu_purpose(reader), expected);
    }
    for eax in [0x2000_0000u32, 0x4000_0001, 0x1000_0000, 0x3000_0000, 0x4100_0000, 0] {
        check(eax);
    }
}
