use vstd::prelude::*;
use vstd::arithmetic::power2::{pow2, lemma_pow2_pos, lemma2_to64};
use vstd::bits::{
    low_bits_mask, lemma_u32_shr_is_div, lemma_u32_pow2_no_overflow,
    lemma_u32_low_bits_mask_is_mod, lemma_u64_pow2_no_overflow, lemma_u64_shl_is_mul,
    lemma_u64_low_bits_mask_is_mod,
};
use vstd::arithmetic::div_mod::lemma_mod_decreases;
use vstd::utf8::{valid_utf8, decode_utf8, encode_utf8_decode_utf8};
use vstd::string::StringSliceAdditionalSpecFns;

verus! {

/// The four registers that one execution of the `cpuid` instruction returns.
#[derive(Debug, Clone, Copy, PartialEq, Eq, Structural)]
pub struct CpuidResult {
    pub eax: u32,
    pub ebx: u32,
    pub ecx: u32,
    pub edx: u32,
}

/// The value of the bits `lowbit..=highbit` of `reg`, read as an unsigned number.
pub open spec fn bit_field(reg: u32, highbit: nat, lowbit: nat) -> nat {
    (reg as nat / pow2(lowbit)) % pow2((highbit - lowbit + 1) as nat)
}

/// The four bytes of `x`, least significant first.
pub open spec fn le_bytes(x: u32) -> Seq<u8> {
    seq![
        (x % 0x100) as u8,
        ((x / 0x100) % 0x100) as u8,
        ((x / 0x1_0000) % 0x100) as u8,
        (x / 0x100_0000) as u8,
    ]
}

/// The string that the bytes of `x`, least significant first, encode in UTF-8.
pub open spec fn num_string(x: u32) -> Seq<char> {
    decode_utf8(le_bytes(x))
}

/// Shifting right by `lowbit` and masking with `2^width - 1` reads the bits
/// `lowbit..lowbit + width` of `reg`.
pub proof fn lemma_shift_mask_is_field(reg: u32, lowbit: u32, mask: u32, width: nat)
    requires
        lowbit < 32,
        1 <= width < 32,
        mask == pow2(width) - 1,
    ensures
        ((reg >> lowbit) & mask) as nat == bit_field(reg, (lowbit + width - 1) as nat, lowbit as nat),
        (((reg >> lowbit) & mask) as nat) < pow2(width),
{
    lemma_u32_pow2_no_overflow(width);
    lemma_u32_shr_is_div(reg, lowbit);
    lemma_pow2_pos(width);
    assert(mask == low_bits_mask(width) as u32);
    lemma_u32_low_bits_mask_is_mod(reg >> lowbit, width);
}

/// Masking with `2^width - 1` reads the low `width` bits of `reg`.
pub proof fn lemma_mask_is_field(reg: u32, mask: u32, width: nat)
    requires
        1 <= width < 32,
        mask == pow2(width) - 1,
    ensures
        (reg & mask) as nat == bit_field(reg, (width - 1) as nat, 0),
        ((reg & mask) as nat) < pow2(width),
{
    assert(reg >> 0u32 == reg) by (bit_vector);
    lemma_shift_mask_is_field(reg, 0, mask, width);
}

/// Bit number `bit` of `reg` (0 or 1).
pub fn extract_bit(reg: u32, bit: u32) -> (r: u32)
    requires
        bit < 32,
    ensures
        r as nat == bit_field(reg, bit as nat, bit as nat),
        r <= 1,
{
    proof {
        lemma2_to64();
        lemma_shift_mask_is_field(reg, bit, 1, 1);
    }
    (reg >> bit) & 0x1
}

/// The bits `lowbit..=highbit` of `reg`, shifted down to bit 0.
///
/// As the C macro `EXTRACTS_BITS`, the mask `(1 << width) - 1` is built in 64 bits, so a field may
/// be up to 32 bits wide (and wider masks just keep every remaining bit); a width of 64 or more
/// would overflow that shift and is refused.
pub fn extract_bits(reg: u32, highbit: u32, lowbit: u32) -> (r: u32)
    requires
        lowbit <= highbit,
        highbit - lowbit < 63,
        lowbit < 32,
    ensures
        r as nat == bit_field(reg, highbit as nat, lowbit as nat),
        (r as nat) < pow2((highbit - lowbit + 1) as nat),
{
    let width: u32 = highbit - lowbit + 1;
    proof {
        lemma_u64_pow2_no_overflow(width as nat);
        lemma_u64_shl_is_mul(1, width as u64);
    }
    let mask: u64 = (1u64 << (width as u64)) - 1;
    let shifted: u32 = reg >> lowbit;
    proof {
        lemma_u32_shr_is_div(reg, lowbit);
        lemma_pow2_pos(width as nat);
        assert(mask == low_bits_mask(width as nat) as u64);
        lemma_u64_low_bits_mask_is_mod(shifted as u64, width as nat);
        lemma_mod_decreases(shifted as nat, pow2(width as nat));
    }
    ((shifted as u64) & mask) as u32
}

/// Calls `std::str::from_utf8`, dropping the error value.
///
/// Its documentation says that it succeeds exactly when the bytes are valid UTF-8, and that the
/// string slice it returns then is those bytes; the contract says so over vstd's UTF-8 definitions.
#[verifier::external_body]
pub(crate) fn str_from_utf8(v: &[u8]) -> (r: Option<&str>)
    ensures
        r is Some <==> valid_utf8(v@),
        r matches Some(s) ==> s.spec_bytes() == v@,
{
    std::str::from_utf8(v).ok()
}

/// Appends the four bytes of `x`, least significant first.
pub(crate) fn push_le_bytes(bytes: &mut Vec<u8>, x: u32)
    ensures
        final(bytes)@ == old(bytes)@ + le_bytes(x),
{
    bytes.push((x % 0x100) as u8);
    bytes.push(((x / 0x100) % 0x100) as u8);
    bytes.push(((x / 0x1_0000) % 0x100) as u8);
    bytes.push((x / 0x100_0000) as u8);
    assert(bytes@ =~= old(bytes)@ + le_bytes(x));
}

/// Reads the four bytes of `x` (least significant first) as UTF-8 text.
///
/// Bytes that are not valid UTF-8 are refused by the precondition.
pub fn num_to_string(x: u32) -> (s: String)
    requires
        valid_utf8(le_bytes(x)),
    ensures
        s@ == num_string(x),
{
    let mut b: Vec<u8> = Vec::new();
    push_le_bytes(&mut b, x);
    assert(b@ =~= le_bytes(x));
    let res = str_from_utf8(b.as_slice()).unwrap();
    proof {
        encode_utf8_decode_utf8(res@);
        broadcast use vstd::string::to_string_from_display_ensures_for_str;
    }
    res.to_string()
}

} // verus!
