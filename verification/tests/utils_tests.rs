use cpuinfo::utils::{extract_bit, extract_bits, num_to_string};

#[test]
fn extract_bit_reads_single_bits() {
    assert_eq!(extract_bit(0x0000_8000, 15), 1);
    assert_eq!(extract_bit(0x0000_8000, 14), 0);
    assert_eq!(extract_bit(0x8000_0000, 31), 1);
    assert_eq!(extract_bit(0xFFFF_FFFE, 0), 0);
}

#[test]
fn extract_bits_reads_fields() {
    // family-model-stepping word of a CPU: stepping 0xA, model 0x7, family 0x6
    let eax: u32 = 0x0009_06EA;
    assert_eq!(extract_bits(eax, 3, 0), 0xA);
    assert_eq!(extract_bits(eax, 7, 4), 0xE);
    assert_eq!(extract_bits(eax, 11, 8), 0x6);
    assert_eq!(extract_bits(eax, 19, 16), 0x9);
    assert_eq!(extract_bits(0x4000_0001, 31, 24), 0x40);
    assert_eq!(extract_bits(0xFFFF_FFFF, 30, 0), 0x7FFF_FFFF);
}

#[test]
fn extract_bit_agrees_with_one_bit_field() {
    for reg in [0u32, 1, 0x8000_0000, 0xDEAD_BEEF, 0xFFFF_FFFF] {
        for bit in 0..32 {
            assert_eq!(extract_bit(reg, bit), extract_bits(reg, bit, bit));
        }
    }
}

#[test]
fn num_to_string_reads_little_endian_bytes() {
    assert_eq!(num_to_string(0x756E6547), "Genu");
    assert_eq!(num_to_string(0x49656E69), "ineI");
    assert_eq!(num_to_string(0x0041_0000), "\0\0A\0");
}

#[test]
fn num_to_string_decodes_multibyte_utf8() {
    // bytes C3 A9 ("é") then "ab"
    assert_eq!(num_to_string(0x6261_A9C3), "éab");
}

#[test]
fn extract_bits_accepts_full_width_fields() {
    assert_eq!(extract_bits(0xDEAD_BEEF, 31, 0), 0xDEAD_BEEF);
    assert_eq!(extract_bits(0xFFFF_FFFF, 31, 0), 0xFFFF_FFFF);
    assert_eq!(extract_bits(0xF000_0000, 40, 28), 0xF);
    assert_eq!(extract_bits(0x8000_0001, 62, 0), 0x8000_0001);
}
