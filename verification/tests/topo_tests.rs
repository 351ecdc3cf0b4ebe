use cpuinfo::{CpuidResult, IntelExtTopo, TopoLevelType};

#[test]
fn topo_level_from_number() {
    assert_eq!(TopoLevelType::from(0u8), TopoLevelType::Invalid);
    assert_eq!(TopoLevelType::from(1u8), TopoLevelType::SMT);
    assert_eq!(TopoLevelType::from(2u8), TopoLevelType::Core);
    assert_eq!(TopoLevelType::from(3u8), TopoLevelType::Module);
    assert_eq!(TopoLevelType::from(4u8), TopoLevelType::Tile);
    assert_eq!(TopoLevelType::from(5u8), TopoLevelType::Die);
    assert_eq!(TopoLevelType::from(6u8), TopoLevelType::Invalid);
    assert_eq!(TopoLevelType::from(0xFFu8), TopoLevelType::Invalid);
}

#[test]
fn topo_level_from_ecx_reads_bits_15_to_8() {
    assert_eq!(TopoLevelType::from(0x0000_0201u32), TopoLevelType::Core);
    assert_eq!(TopoLevelType::from(0xFFFF_01FFu32), TopoLevelType::SMT);
    assert_eq!(TopoLevelType::from(0x0000_0005u32), TopoLevelType::Invalid);
    let r = CpuidResult { eax: 1, ebx: 2, ecx: 0x0000_0502, edx: 7 };
    assert_eq!(TopoLevelType::from(r), TopoLevelType::Die);
}

#[test]
fn topo_level_names() {
    assert_eq!(TopoLevelType::SMT.to_string(), "SMT");
    assert_eq!(TopoLevelType::Invalid.to_string(), "Invalid");
    assert_eq!(TopoLevelType::Die.to_string(), "Die");
    assert_eq!(TopoLevelType::Module.to_string(), "Module");
}

#[test]
fn ext_topo_from_leaf() {
    let r = CpuidResult { eax: 0xFFFF_FFF4, ebx: 0x1234_0010, ecx: 0x0000_0201, edx: 0x0000_002A };
    let t = IntelExtTopo::from(&r);
    assert_eq!(t.next_level, 4);
    assert_eq!(t.num_proc, 0x10);
    assert_eq!(t.x2apic_id, 0x2A);
    assert_eq!(t.level_type, TopoLevelType::Core);
}
