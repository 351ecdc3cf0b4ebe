use cpuinfo::parse_cpuid::{cpuid_get_all_raw_data, CpuId};
use cpuinfo::vendor::{Vendor, VendorInfo};
use cpuinfo::CpuidResult;

fn regs(eax: u32, ebx: u32, ecx: u32, edx: u32) -> CpuidResult {
    CpuidResult { eax, ebx, ecx, edx }
}

/// An Intel CPU with basic leaves up to 16h and a family-model-stepping word 000906EAh.
fn intel_cpu(leaf: u32, _sub: u32) -> CpuidResult {
    match leaf {
        0x0 => regs(0x16, 0x756E6547, 0x6C65746E, 0x49656E69),
        0x1 => regs(0x0F1E_36EA, 0x00AB_0800, 0, 0),
        0x8000_0000 => regs(0x8000_0008, 0, 0, 0),
        _ => regs(0, 0, 0, 0),
    }
}

/// A CPU that reports no basic leaf beyond leaf 0.
fn leaf0_only_cpu(leaf: u32, _sub: u32) -> CpuidResult {
    match leaf {
        0x0 => regs(0x0, 0x68747541, 0x444D4163, 0x69746E65),
        0x1 => panic!("leaf 1 is not supported"),
        _ => regs(0, 0, 0, 0),
    }
}

#[test]
fn feature_info_fields() {
    let cpuid = CpuId::with_cpuid_fn(intel_cpu);
    assert_eq!(cpuid.get_stepping_id(), Some(0xA));
    assert_eq!(cpuid.get_model(), Some(0xE));
    assert_eq!(cpuid.get_family(), Some(0x6));
    assert_eq!(cpuid.get_processor_type(), Some(0x3));
    assert_eq!(cpuid.get_extended_model(), Some(0xE));
    assert_eq!(cpuid.get_extended_family(), Some(0xF1));
    assert_eq!(cpuid.get_logical_cores(), Some(0xAB));
}

#[test]
fn unsupported_leaf_gives_none() {
    let cpuid = CpuId::with_cpuid_fn(leaf0_only_cpu);
    assert_eq!(cpuid.get_stepping_id(), None);
    assert_eq!(cpuid.get_model(), None);
    assert_eq!(cpuid.get_family(), None);
    assert_eq!(cpuid.get_processor_type(), None);
    assert_eq!(cpuid.get_extended_model(), None);
    assert_eq!(cpuid.get_extended_family(), None);
    assert_eq!(cpuid.get_logical_cores(), None);
}

#[test]
fn vendor_info_is_always_there() {
    let cpuid = CpuId::with_cpuid_fn(leaf0_only_cpu);
    let vi = cpuid.get_vendor_info().unwrap();
    assert!(vi == VendorInfo { ebx: 0x68747541, edx: 0x69746E65, ecx: 0x444D4163 });
    assert_eq!(vi.as_string(), "AuthenticAMD");
    let cpuid = CpuId::with_cpuid_fn(intel_cpu);
    assert_eq!(cpuid.get_vendor_info().unwrap().as_string(), "GenuineIntel");
}

#[test]
fn closure_readers_work() {
    let cpuid = CpuId::with_cpuid_fn(|leaf: u32, _sub: u32| {
        if leaf == 0 { regs(1, 0, 0, 0) } else { regs(0x0000_0123, 0, 0, 0) }
    });
    assert_eq!(cpuid.get_stepping_id(), Some(0x3));
    assert_eq!(cpuid.get_model(), Some(0x2));
    assert_eq!(cpuid.get_family(), Some(0x1));
}

#[test]
fn raw_data_dump_does_nothing() {
    cpuid_get_all_raw_data();
}

#[test]
fn vendor_info_names_the_recorded_vendor() {
    let cpuid = CpuId::with_cpuid_fn(intel_cpu);
    let vi = cpuid.get_vendor_info().unwrap();
    let leaf0 = regs(0, vi.ebx, vi.ecx, vi.edx);
    assert_eq!(Vendor::from_vendor_leaf(leaf0), Vendor::Intel);
}

/// An AMD CPU reporting basic leaves up to 0xD.
fn amd_cpu(leaf: u32, _sub: u32) -> CpuidResult {
    match leaf {
        0x0 => regs(0xD, 0x68747541, 0x444D4163, 0x69746E65),
        0x1 => regs(0x00A2_0F12, 0x0010_0800, 0, 0),
        _ => regs(0, 0, 0, 0),
    }
}

#[test]
fn amd_feature_leaf_is_supported() {
    let cpuid = CpuId::with_cpuid_fn(amd_cpu);
    assert_eq!(cpuid.get_stepping_id(), Some(0x2));
    assert_eq!(cpuid.get_model(), Some(0x1));
    assert_eq!(cpuid.get_family(), Some(0xF));
    assert_eq!(cpuid.get_extended_model(), Some(0x2));
    assert_eq!(cpuid.get_extended_family(), Some(0xA));
    assert_eq!(cpuid.get_logical_cores(), Some(0x10));
    assert_eq!(cpuid.get_vendor_info().unwrap().as_string(), "AuthenticAMD");
}

#[test]
fn cpuid_copies_read_the_same_cpu() {
    let cpuid = CpuId::with_cpuid_fn(intel_cpu as fn(u32, u32) -> CpuidResult);
    let copy = cpuid;
    let cloned = cpuid.clone();
    assert_eq!(copy.get_family(), cpuid.get_family());
    assert_eq!(cloned.get_stepping_id(), Some(0xA));
}
