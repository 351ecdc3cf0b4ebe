use vstd::prelude::*;
use vstd::utf8::{
    valid_utf8, decode_utf8, encode_utf8, encode_utf8_decode_utf8, decode_utf8_encode_utf8,
    encode_utf8_valid_utf8, is_ascii_chars, is_ascii_chars_encode_utf8,
    valid_leading_and_continuation_bytes_first_codepoint,
};
use crate::utils::{CpuidResult, le_bytes, num_string, num_to_string, push_le_bytes, str_from_utf8};

verus! {

/// `ebx` of the AMD vendor leaf ("Auth").
pub const AMD_EBX: u32 = 0x68747541;
/// `edx` of the AMD vendor leaf ("enti").
pub const AMD_EDX: u32 = 0x69746E65;
/// `ecx` of the AMD vendor leaf ("cAMD").
pub const AMD_ECX: u32 = 0x444D4163;
/// `ebx` of the Intel vendor leaf ("Genu").
pub const INTEL_EBX: u32 = 0x756E6547;
/// `edx` of the Intel vendor leaf ("ineI").
pub const INTEL_EDX: u32 = 0x49656E69;
/// `ecx` of the Intel vendor leaf ("ntel").
pub const INTEL_ECX: u32 = 0x6C65746E;

/// The vendor identification registers of CPUID leaf 0, in the order in which their bytes spell
/// the vendor string.
#[derive(PartialEq, Eq, Structural)]
pub struct VendorInfo {
    pub ebx: u32,
    pub edx: u32,
    pub ecx: u32,
}

/// The twelve bytes of the vendor string: those of `ebx`, `edx`, `ecx`, each least significant
/// first.
pub open spec fn vendor_bytes(ebx: u32, edx: u32, ecx: u32) -> Seq<u8> {
    le_bytes(ebx) + le_bytes(edx) + le_bytes(ecx)
}

/// Each of the three registers holds valid UTF-8 on its own.
pub open spec fn registers_are_utf8(ebx: u32, edx: u32, ecx: u32) -> bool {
    &&& valid_utf8(le_bytes(ebx))
    &&& valid_utf8(le_bytes(edx))
    &&& valid_utf8(le_bytes(ecx))
}

/// The vendor string read register by register.
pub open spec fn vendor_string(ebx: u32, edx: u32, ecx: u32) -> Seq<char> {
    num_string(ebx) + num_string(edx) + num_string(ecx)
}

impl VendorInfo {
    /// Return vendor identification as human readable string.
    ///
    /// Each register is read as UTF-8 on its own; a register whose bytes are not valid UTF-8 is
    /// refused by the precondition.
    pub fn as_string(&self) -> (s: String)
        requires
            registers_are_utf8(self.ebx, self.edx, self.ecx),
        ensures
            s@ == vendor_string(self.ebx, self.edx, self.ecx),
    {
        let s = num_to_string(self.ebx);
        let s = s.concat(num_to_string(self.edx).as_str());
        s.concat(num_to_string(self.ecx).as_str())
    }

    /// The vendor string read from the twelve bytes at once, or "InvalidVendorString" where they
    /// are not valid UTF-8.
    pub fn as_str2(&self) -> (s: String)
        ensures
            s@ == (if valid_utf8(vendor_bytes(self.ebx, self.edx, self.ecx)) {
                decode_utf8(vendor_bytes(self.ebx, self.edx, self.ecx))
            } else {
                "InvalidVendorString"@
            }),
    {
        let mut bytes: Vec<u8> = Vec::new();
        push_le_bytes(&mut bytes, self.ebx);
        push_le_bytes(&mut bytes, self.edx);
        push_le_bytes(&mut bytes, self.ecx);
        assert(bytes@ =~= vendor_bytes(self.ebx, self.edx, self.ecx));
        match str_from_utf8(bytes.as_slice()) {
            Some(text) => {
                proof {
                    encode_utf8_decode_utf8(text@);
                    broadcast use vstd::string::to_string_from_display_ensures_for_str;
                }
                text.to_string()
            },
            None => String::from_str("InvalidVendorString"),
        }
    }
}

/// CPU vendor to differentiate cases where logic needs to differ in code.
#[derive(Debug, Eq, PartialEq, Structural, Clone, Copy)]
pub enum Vendor {
    Intel,
    Amd,
    Unknown(u32, u32, u32),
}

/// The vendor that the registers of leaf 0 name: AMD, Intel, or neither, with the registers in the
/// order `ebx`, `ecx`, `edx`.
pub open spec fn vendor_from_regs(ebx: u32, ecx: u32, edx: u32) -> Vendor {
    if ebx == AMD_EBX && edx == AMD_EDX && ecx == AMD_ECX {
        Vendor::Amd
    } else if ebx == INTEL_EBX && edx == INTEL_EDX && ecx == INTEL_ECX {
        Vendor::Intel
    } else {
        Vendor::Unknown(ebx, ecx, edx)
    }
}

/// The vendor that a vendor string names.
pub open spec fn vendor_from_text(text: Seq<char>, ebx: u32, ecx: u32, edx: u32) -> Vendor {
    if text == "GenuineIntel"@ {
        Vendor::Intel
    } else if text == "AuthenticAMD"@ {
        Vendor::Amd
    } else {
        Vendor::Unknown(ebx, ecx, edx)
    }
}

impl Vendor {
    /// The vendor named by the registers of leaf 0, compared as numbers.
    pub fn from_vendor_leaf(res: CpuidResult) -> (r: Self)
        ensures
            r == vendor_from_regs(res.ebx, res.ecx, res.edx),
    {
        let vi = VendorInfo { ebx: res.ebx, ecx: res.ecx, edx: res.edx };
        if vi == (VendorInfo { ebx: AMD_EBX, edx: AMD_EDX, ecx: AMD_ECX }) {
            Vendor::Amd
        } else if vi == (VendorInfo { ebx: INTEL_EBX, edx: INTEL_EDX, ecx: INTEL_ECX }) {
            Vendor::Intel
        } else {
            Vendor::Unknown(res.ebx, res.ecx, res.edx)
        }
    }

    /// The vendor named by the registers of leaf 0, compared as text.
    ///
    /// A register whose bytes are not valid UTF-8 is refused by the precondition. On every other
    /// input the result is the one of `from_vendor_leaf`.
    pub fn from_vendor_leaf_by_str(res: CpuidResult) -> (r: Self)
        requires
            registers_are_utf8(res.ebx, res.edx, res.ecx),
        ensures
            r == vendor_from_text(vendor_string(res.ebx, res.edx, res.ecx), res.ebx, res.ecx, res.edx),
            r == vendor_from_regs(res.ebx, res.ecx, res.edx),
    {
        let vi = VendorInfo { ebx: res.ebx, ecx: res.ecx, edx: res.edx };
        let s = vi.as_string();
        let intel = String::from_str("GenuineIntel");
        let amd = String::from_str("AuthenticAMD");
        proof {
            lemma_text_names_intel(res.ebx, res.edx, res.ecx);
            lemma_text_names_amd(res.ebx, res.edx, res.ecx);
        }
        if s == intel {
            Vendor::Intel
        } else if s == amd {
            Vendor::Amd
        } else {
            Vendor::Unknown(res.ebx, res.ecx, res.edx)
        }
    }
}

/// UTF-8 encoding distributes over concatenation.
proof fn lemma_encode_utf8_concat(c1: Seq<char>, c2: Seq<char>)
    ensures
        encode_utf8(c1 + c2) == encode_utf8(c1) + encode_utf8(c2),
    decreases c1.len(),
{
    if c1.len() == 0 {
        assert(c1 + c2 =~= c2);
        assert(encode_utf8(c1) + encode_utf8(c2) =~= encode_utf8(c2));
    } else {
        lemma_encode_utf8_concat(c1.drop_first(), c2);
        assert((c1 + c2).drop_first() =~= c1.drop_first() + c2);
        assert((c1 + c2)[0] == c1[0]);
        assert(encode_utf8(c1 + c2) =~= encode_utf8(c1) + encode_utf8(c2));
    }
}

/// Reading the twelve bytes at once gives the same text as reading the registers one by one,
/// whenever each register is valid UTF-8 on its own.
pub proof fn lemma_vendor_bytes_decode(ebx: u32, edx: u32, ecx: u32)
    requires
        registers_are_utf8(ebx, edx, ecx),
    ensures
        encode_utf8(vendor_string(ebx, edx, ecx)) == vendor_bytes(ebx, edx, ecx),
        valid_utf8(vendor_bytes(ebx, edx, ecx)),
        decode_utf8(vendor_bytes(ebx, edx, ecx)) == vendor_string(ebx, edx, ecx),
{
    let d1 = num_string(ebx);
    let d2 = num_string(edx);
    let d3 = num_string(ecx);
    decode_utf8_encode_utf8(le_bytes(ebx));
    decode_utf8_encode_utf8(le_bytes(edx));
    decode_utf8_encode_utf8(le_bytes(ecx));
    lemma_encode_utf8_concat(d1 + d2, d3);
    lemma_encode_utf8_concat(d1, d2);
    encode_utf8_valid_utf8(vendor_string(ebx, edx, ecx));
    encode_utf8_decode_utf8(vendor_string(ebx, edx, ecx));
}

/// Different register values have different bytes.
proof fn lemma_le_bytes_injective(x: u32, y: u32)
    requires
        le_bytes(x) == le_bytes(y),
    ensures
        x == y,
{
    assert(le_bytes(x)[0] == le_bytes(y)[0]);
    assert(le_bytes(x)[1] == le_bytes(y)[1]);
    assert(le_bytes(x)[2] == le_bytes(y)[2]);
    assert(le_bytes(x)[3] == le_bytes(y)[3]);
}

/// The registers spell a given ASCII text exactly when their bytes are the text's bytes.
proof fn lemma_text_iff_bytes(ebx: u32, edx: u32, ecx: u32, text: Seq<char>)
    requires
        registers_are_utf8(ebx, edx, ecx),
    ensures
        vendor_string(ebx, edx, ecx) == text <==> vendor_bytes(ebx, edx, ecx) == encode_utf8(text),
{
    lemma_vendor_bytes_decode(ebx, edx, ecx);
    if vendor_bytes(ebx, edx, ecx) == encode_utf8(text) {
        encode_utf8_decode_utf8(text);
    }
}

/// Twelve bytes are those of three given registers exactly when the registers are equal.
proof fn lemma_vendor_bytes_eq(ebx: u32, edx: u32, ecx: u32, b: u32, d: u32, c: u32)
    ensures
        vendor_bytes(ebx, edx, ecx) == vendor_bytes(b, d, c) <==> (ebx == b && edx == d && ecx == c),
{
    if vendor_bytes(ebx, edx, ecx) == vendor_bytes(b, d, c) {
        let v1 = vendor_bytes(ebx, edx, ecx);
        let v2 = vendor_bytes(b, d, c);
        assert(le_bytes(ebx) =~= v1.subrange(0, 4));
        assert(le_bytes(b) =~= v2.subrange(0, 4));
        assert(le_bytes(edx) =~= v1.subrange(4, 8));
        assert(le_bytes(d) =~= v2.subrange(4, 8));
        assert(le_bytes(ecx) =~= v1.subrange(8, 12));
        assert(le_bytes(c) =~= v2.subrange(8, 12));
        lemma_le_bytes_injective(ebx, b);
        lemma_le_bytes_injective(edx, d);
        lemma_le_bytes_injective(ecx, c);
    }
}

/// The registers spell "GenuineIntel" exactly when they are Intel's.
#[verifier::spinoff_prover]
#[verifier::rlimit(40)]
proof fn lemma_text_names_intel(ebx: u32, edx: u32, ecx: u32)
    requires
        registers_are_utf8(ebx, edx, ecx),
    ensures
        vendor_string(ebx, edx, ecx) == "GenuineIntel"@
            <==> (ebx == INTEL_EBX && edx == INTEL_EDX && ecx == INTEL_ECX),
{
    reveal_strlit("GenuineIntel");
    let text = "GenuineIntel"@;
    assert(is_ascii_chars(text));
    is_ascii_chars_encode_utf8(text);
    assert(encode_utf8(text) =~= vendor_bytes(INTEL_EBX, INTEL_EDX, INTEL_ECX));
    lemma_text_iff_bytes(ebx, edx, ecx, text);
    lemma_vendor_bytes_eq(ebx, edx, ecx, INTEL_EBX, INTEL_EDX, INTEL_ECX);
}

/// The registers spell "AuthenticAMD" exactly when they are AMD's.
#[verifier::spinoff_prover]
#[verifier::rlimit(40)]
proof fn lemma_text_names_amd(ebx: u32, edx: u32, ecx: u32)
    requires
        registers_are_utf8(ebx, edx, ecx),
    ensures
        vendor_string(ebx, edx, ecx) == "AuthenticAMD"@
            <==> (ebx == AMD_EBX && edx == AMD_EDX && ecx == AMD_ECX),
{
    reveal_strlit("AuthenticAMD");
    let text = "AuthenticAMD"@;
    assert(is_ascii_chars(text));
    is_ascii_chars_encode_utf8(text);
    assert(encode_utf8(text) =~= vendor_bytes(AMD_EBX, AMD_EDX, AMD_ECX));
    lemma_text_iff_bytes(ebx, edx, ecx, text);
    lemma_vendor_bytes_eq(ebx, edx, ecx, AMD_EBX, AMD_EDX, AMD_ECX);
}

/// Four bytes that spell four ASCII characters are valid UTF-8.
proof fn lemma_ascii_register(x: u32, text: Seq<char>)
    requires
        text.len() == 4,
        is_ascii_chars(text),
        le_bytes(x) =~= text.map_values(|c: char| c as u8),
    ensures
        valid_utf8(le_bytes(x)),
{
    is_ascii_chars_encode_utf8(text);
    assert(encode_utf8(text) =~= le_bytes(x));
    encode_utf8_valid_utf8(text);
}

/// The Intel registers spell "GenuineIntel" and the AMD registers "AuthenticAMD".
#[verifier::spinoff_prover]
pub proof fn lemma_vendor_registers_spell_names()
    ensures
        registers_are_utf8(INTEL_EBX, INTEL_EDX, INTEL_ECX),
        vendor_string(INTEL_EBX, INTEL_EDX, INTEL_ECX) == "GenuineIntel"@,
        registers_are_utf8(AMD_EBX, AMD_EDX, AMD_ECX),
        vendor_string(AMD_EBX, AMD_EDX, AMD_ECX) == "AuthenticAMD"@,
{
    reveal_strlit("Genu");
    reveal_strlit("ineI");
    reveal_strlit("ntel");
    reveal_strlit("Auth");
    reveal_strlit("enti");
    reveal_strlit("cAMD");
    lemma_ascii_register(INTEL_EBX, "Genu"@);
    lemma_ascii_register(INTEL_EDX, "ineI"@);
    lemma_ascii_register(INTEL_ECX, "ntel"@);
    lemma_ascii_register(AMD_EBX, "Auth"@);
    lemma_ascii_register(AMD_EDX, "enti"@);
    lemma_ascii_register(AMD_ECX, "cAMD"@);
    lemma_text_names_intel(INTEL_EBX, INTEL_EDX, INTEL_ECX);
    lemma_text_names_amd(AMD_EBX, AMD_EDX, AMD_ECX);
}

/// A register whose first byte cannot start a UTF-8 character (a continuation byte, or F8h and
/// above, as in FFFF_FFFFh) makes the registers invalid UTF-8, so `from_vendor_leaf_by_str` refuses
/// them; `from_vendor_leaf` names such registers `Unknown`.
pub proof fn lemma_bad_first_byte_refused(ebx: u32, edx: u32, ecx: u32)
    requires
        (0x80 <= ebx % 0x100 <= 0xbf) || ebx % 0x100 >= 0xf8,
    ensures
        !registers_are_utf8(ebx, edx, ecx),
        vendor_from_regs(ebx, ecx, edx) == Vendor::Unknown(ebx, ecx, edx),
{
    let b = le_bytes(ebx);
    assert(b.len() == 4);
    assert(b[0] == (ebx % 0x100) as u8);
    assert(!valid_leading_and_continuation_bytes_first_codepoint(b));
    lemma_invalid_registers_are_unknown(ebx, edx, ecx);
}

/// Wherever some register is not valid UTF-8 on its own, `from_vendor_leaf_by_str` refuses the
/// registers (its precondition fails, where the original panics), and `from_vendor_leaf` names
/// them `Unknown(ebx, ecx, edx)`: the AMD and Intel registers are all valid UTF-8.
pub proof fn lemma_invalid_registers_are_unknown(ebx: u32, edx: u32, ecx: u32)
    requires
        !registers_are_utf8(ebx, edx, ecx),
    ensures
        vendor_from_regs(ebx, ecx, edx) == Vendor::Unknown(ebx, ecx, edx),
{
    lemma_vendor_registers_spell_names();
}

/// Compared as numbers, the registers of leaf 0 name Intel exactly when they are
/// 756E6547h/49656E69h/6C65746Eh ("GenuineIntel") in `ebx`/`edx`/`ecx`, AMD exactly when they are
/// 68747541h/69746E65h/444D4163h ("AuthenticAMD"), and otherwise an unknown vendor carrying
/// `ebx`, `ecx`, `edx` unchanged.
pub proof fn lemma_vendor_named_only_by_its_registers(ebx: u32, ecx: u32, edx: u32)
    ensures
        vendor_from_regs(ebx, ecx, edx) == Vendor::Intel <==> (ebx == 0x756E6547 && edx
            == 0x49656E69 && ecx == 0x6C65746E),
        vendor_from_regs(ebx, ecx, edx) == Vendor::Amd <==> (ebx == 0x68747541 && edx
            == 0x69746E65 && ecx == 0x444D4163),
        !(ebx == 0x756E6547 && edx == 0x49656E69 && ecx == 0x6C65746E) && !(ebx == 0x68747541
            && edx == 0x69746E65 && ecx == 0x444D4163) ==> vendor_from_regs(ebx, ecx, edx)
            == Vendor::Unknown(ebx, ecx, edx),
{
}

/// Compared as text, the registers of leaf 0 (each valid UTF-8) name Intel exactly when they are
/// Intel's registers, AMD exactly when they are AMD's, and otherwise an unknown vendor carrying
/// `ebx`, `ecx`, `edx` unchanged.
pub proof fn lemma_vendor_text_named_only_by_its_registers(ebx: u32, ecx: u32, edx: u32)
    requires
        registers_are_utf8(ebx, edx, ecx),
    ensures
        vendor_from_text(vendor_string(ebx, edx, ecx), ebx, ecx, edx) == Vendor::Intel <==> (ebx
            == 0x756E6547 && edx == 0x49656E69 && ecx == 0x6C65746E),
        vendor_from_text(vendor_string(ebx, edx, ecx), ebx, ecx, edx) == Vendor::Amd <==> (ebx
            == 0x68747541 && edx == 0x69746E65 && ecx == 0x444D4163),
        !(ebx == 0x756E6547 && edx == 0x49656E69 && ecx == 0x6C65746E) && !(ebx == 0x68747541
            && edx == 0x69746E65 && ecx == 0x444D4163) ==> vendor_from_text(
            vendor_string(ebx, edx, ecx),
            ebx,
            ecx,
            edx,
        ) == Vendor::Unknown(ebx, ecx, edx),
{
    lemma_text_names_intel(ebx, edx, ecx);
    lemma_text_names_amd(ebx, edx, ecx);
    reveal_strlit("GenuineIntel");
    reveal_strlit("AuthenticAMD");
    assert("GenuineIntel"@[0] != "AuthenticAMD"@[0]);
}

} // verus!
