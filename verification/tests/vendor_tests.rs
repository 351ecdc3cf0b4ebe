use cpuinfo::vendor::{Vendor, VendorInfo};
use cpuinfo::CpuidResult;

fn leaf(ebx: u32, ecx: u32, edx: u32) -> CpuidResult {
    CpuidResult { eax: 0x16, ebx, ecx, edx }
}

#[test]
fn vendor_strings() {
    let intel = VendorInfo { ebx: 0x756E6547, edx: 0x49656E69, ecx: 0x6C65746E };
    assert_eq!(intel.as_string(), "GenuineIntel");
    assert_eq!(intel.as_str2(), "GenuineIntel");
    let amd = VendorInfo { ebx: 0x68747541, edx: 0x69746E65, ecx: 0x444D4163 };
    assert_eq!(amd.as_string(), "AuthenticAMD");
    assert_eq!(amd.as_str2(), "AuthenticAMD");
}

#[test]
fn as_str2_rejects_invalid_utf8() {
    let bad = VendorInfo { ebx: 0xFFFF_FFFF, edx: 0x49656E69, ecx: 0x6C65746E };
    assert_eq!(bad.as_str2(), "InvalidVendorString");
}

#[test]
fn as_str2_reads_characters_across_registers() {
    // "é" split over the last byte of ebx and the first byte of edx: each register alone is not
    // UTF-8, the twelve bytes are.
    let split = VendorInfo { ebx: 0xC361_6161, edx: 0x6262_62A9, ecx: 0x6363_6363 };
    assert_eq!(split.as_str2(), "aaaébbbcccc");
}

#[test]
fn as_str2_agrees_with_as_string_on_valid_registers() {
    let v = VendorInfo { ebx: 0x6261_A9C3, edx: 0x4B4F_4F4C, ecx: 0x2121_2121 };
    assert_eq!(v.as_string(), "éabLOOK!!!!");
    assert_eq!(v.as_str2(), v.as_string());
}

#[test]
fn from_vendor_leaf_names_vendors() {
    assert_eq!(Vendor::from_vendor_leaf(leaf(0x756E6547, 0x6C65746E, 0x49656E69)), Vendor::Intel);
    assert_eq!(Vendor::from_vendor_leaf(leaf(0x68747541, 0x444D4163, 0x69746E65)), Vendor::Amd);
    assert_eq!(
        Vendor::from_vendor_leaf(leaf(0x68747541, 0x6C65746E, 0x49656E69)),
        Vendor::Unknown(0x68747541, 0x6C65746E, 0x49656E69)
    );
}

#[test]
fn from_vendor_leaf_by_str_agrees_with_from_vendor_leaf() {
    let leaves = [
        leaf(0x756E6547, 0x6C65746E, 0x49656E69),
        leaf(0x68747541, 0x444D4163, 0x69746E65),
        // "HygonGenuine"
        leaf(0x6F677948, 0x656E6975, 0x6E65476E),
        leaf(0x6261_A9C3, 0x2121_2121, 0x4B4F_4F4C),
        leaf(0, 0, 0),
    ];
    for l in leaves {
        assert_eq!(Vendor::from_vendor_leaf_by_str(l), Vendor::from_vendor_leaf(l));
    }
    assert_eq!(
        Vendor::from_vendor_leaf_by_str(leaf(0x6F677948, 0x656E6975, 0x6E65476E)),
        Vendor::Unknown(0x6F677948, 0x656E6975, 0x6E65476E)
    );
}

#[test]
fn registers_that_are_not_utf8_are_unknown_by_number() {
    assert_eq!(
        Vendor::from_vendor_leaf(leaf(0xFFFF_FFFF, 0, 0)),
        Vendor::Unknown(0xFFFF_FFFF, 0, 0)
    );
}

#[test]
fn invalid_utf8_in_any_register_is_unknown_by_number() {
    // edx holds a lone continuation byte (80h)
    assert_eq!(
        Vendor::from_vendor_leaf(leaf(0x756E6547, 0x6C65746E, 0x4965_6E80)),
        Vendor::Unknown(0x756E6547, 0x6C65746E, 0x4965_6E80)
    );
}
