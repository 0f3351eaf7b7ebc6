//! Opcode families, registers and the per-shape field sets of RV32I words.
use vstd::prelude::*;

verus! {

/// The coarse family selected by the low seven bits of a word.
#[derive(PartialEq, Eq, Structural, Clone, Copy, Debug)]
pub enum Opcode {
    LUI,
    AUIPC,
    JAL,
    JALR,
    /// BEQ, BNE, BLT, BGE, BLTU and BGEU.
    BXX,
    /// LB, LH, LW, LBU and LHU.
    LX,
    /// SB, SH and SW.
    SX,
    /// ADDI, SLTI, SLTIU, XORI, ORI, ANDI, SLLI, SRLI and SRAI.
    MATHI,
    /// ADD, SUB, SLL, SLT, SLTU, XOR, SRL, SRA, OR and AND.
    MATHX,
    /// Low bits that name no family of the supported subset.
    UNKNOWN,
}

/// The family that the low seven bits of `w` select.
pub open spec fn opcode_of(w: u32) -> Opcode {
    let low = w & 0x7f;
    if low == 0x37 {
        Opcode::LUI
    } else if low == 0x17 {
        Opcode::AUIPC
    } else if low == 0x6f {
        Opcode::JAL
    } else if low == 0x67 {
        Opcode::JALR
    } else if low == 0x63 {
        Opcode::BXX
    } else if low == 0x03 {
        Opcode::LX
    } else if low == 0x23 {
        Opcode::SX
    } else if low == 0x13 {
        Opcode::MATHI
    } else if low == 0x33 {
        Opcode::MATHX
    } else {
        Opcode::UNKNOWN
    }
}

impl From<u32> for Opcode {
    /// Classifies a word by its low seven bits; every word has a family.
    fn from(val: u32) -> (r: Opcode) {
        let low = val & 0x7f;
        if low == 0x37 {
            Opcode::LUI
        } else if low == 0x17 {
            Opcode::AUIPC
        } else if low == 0x6f {
            Opcode::JAL
        } else if low == 0x67 {
            Opcode::JALR
        } else if low == 0x63 {
            Opcode::BXX
        } else if low == 0x03 {
            Opcode::LX
        } else if low == 0x23 {
            Opcode::SX
        } else if low == 0x13 {
            Opcode::MATHI
        } else if low == 0x33 {
            Opcode::MATHX
        } else {
            Opcode::UNKNOWN
        }
    }
}

impl vstd::std_specs::convert::FromSpecImpl<u32> for Opcode {
    open spec fn obeys_from_spec() -> bool {
        true
    }

    open spec fn from_spec(v: u32) -> Opcode {
        opcode_of(v)
    }
}


/// One of the 32 integer registers, by its ABI name.
#[derive(PartialEq, Eq, Structural, Clone, Copy, Debug)]
pub enum Register {
    /// Hard-wired zero.
    Zero,
    /// Return address.
    Ra,
    /// Stack pointer.
    Sp,
    /// Global pointer.
    Gp,
    /// Thread pointer.
    Tp,
    /// Temporary, alternate link register.
    T0,
    T1,
    T2,
    /// Saved register, frame pointer.
    S0,
    S1,
    /// Argument, return value.
    A0,
    /// Argument, return value.
    A1,
    A2,
    A3,
    A4,
    A5,
    A6,
    A7,
    S2,
    S3,
    S4,
    S5,
    S6,
    S7,
    S8,
    S9,
    S10,
    S11,
    T3,
    T4,
    T5,
    T6,
}

/// The register whose index is `i` (`x0` for an index out of range).
pub open spec fn reg_of(i: u32) -> Register {
    match i {
        1 => Register::Ra,
        2 => Register::Sp,
        3 => Register::Gp,
        4 => Register::Tp,
        5 => Register::T0,
        6 => Register::T1,
        7 => Register::T2,
        8 => Register::S0,
        9 => Register::S1,
        10 => Register::A0,
        11 => Register::A1,
        12 => Register::A2,
        13 => Register::A3,
        14 => Register::A4,
        15 => Register::A5,
        16 => Register::A6,
        17 => Register::A7,
        18 => Register::S2,
        19 => Register::S3,
        20 => Register::S4,
        21 => Register::S5,
        22 => Register::S6,
        23 => Register::S7,
        24 => Register::S8,
        25 => Register::S9,
        26 => Register::S10,
        27 => Register::S11,
        28 => Register::T3,
        29 => Register::T4,
        30 => Register::T5,
        31 => Register::T6,
        _ => Register::Zero,
    }
}

impl Register {
    /// The index `i` such that this register is `x<i>`.
    pub open spec fn index(self) -> u32 {
        match self {
            Register::Zero => 0,
            Register::Ra => 1,
            Register::Sp => 2,
            Register::Gp => 3,
            Register::Tp => 4,
            Register::T0 => 5,
            Register::T1 => 6,
            Register::T2 => 7,
            Register::S0 => 8,
            Register::S1 => 9,
            Register::A0 => 10,
            Register::A1 => 11,
            Register::A2 => 12,
            Register::A3 => 13,
            Register::A4 => 14,
            Register::A5 => 15,
            Register::A6 => 16,
            Register::A7 => 17,
            Register::S2 => 18,
            Register::S3 => 19,
            Register::S4 => 20,
            Register::S5 => 21,
            Register::S6 => 22,
            Register::S7 => 23,
            Register::S8 => 24,
            Register::S9 => 25,
            Register::S10 => 26,
            Register::S11 => 27,
            Register::T3 => 28,
            Register::T4 => 29,
            Register::T5 => 30,
            Register::T6 => 31,
        }
    }

    /// The canonical lower-case ABI name.
    pub open spec fn spec_name(self) -> Seq<char> {
        match self {
            Register::Zero => "zero"@,
            Register::Ra => "ra"@,
            Register::Sp => "sp"@,
            Register::Gp => "gp"@,
            Register::Tp => "tp"@,
            Register::T0 => "t0"@,
            Register::T1 => "t1"@,
            Register::T2 => "t2"@,
            Register::S0 => "s0"@,
            Register::S1 => "s1"@,
            Register::A0 => "a0"@,
            Register::A1 => "a1"@,
            Register::A2 => "a2"@,
            Register::A3 => "a3"@,
            Register::A4 => "a4"@,
            Register::A5 => "a5"@,
            Register::A6 => "a6"@,
            Register::A7 => "a7"@,
            Register::S2 => "s2"@,
            Register::S3 => "s3"@,
            Register::S4 => "s4"@,
            Register::S5 => "s5"@,
            Register::S6 => "s6"@,
            Register::S7 => "s7"@,
            Register::S8 => "s8"@,
            Register::S9 => "s9"@,
            Register::S10 => "s10"@,
            Register::S11 => "s11"@,
            Register::T3 => "t3"@,
            Register::T4 => "t4"@,
            Register::T5 => "t5"@,
            Register::T6 => "t6"@,
        }
    }

    /// The register `x<v>`; every five-bit field names one.
    pub fn from_index(v: u32) -> (r: Register)
        requires
            v < 32,
        ensures
            r == reg_of(v),
            r.index() == v,
    {
        match v {
            1 => Register::Ra,
            2 => Register::Sp,
            3 => Register::Gp,
            4 => Register::Tp,
            5 => Register::T0,
            6 => Register::T1,
            7 => Register::T2,
            8 => Register::S0,
            9 => Register::S1,
            10 => Register::A0,
            11 => Register::A1,
            12 => Register::A2,
            13 => Register::A3,
            14 => Register::A4,
            15 => Register::A5,
            16 => Register::A6,
            17 => Register::A7,
            18 => Register::S2,
            19 => Register::S3,
            20 => Register::S4,
            21 => Register::S5,
            22 => Register::S6,
            23 => Register::S7,
            24 => Register::S8,
            25 => Register::S9,
            26 => Register::S10,
            27 => Register::S11,
            28 => Register::T3,
            29 => Register::T4,
            30 => Register::T5,
            31 => Register::T6,
            _ => Register::Zero,
        }
    }

    /// The canonical lower-case ABI name of the register.
    pub fn name(&self) -> (r: &'static str)
        ensures
            r@ == self.spec_name(),
    {
        match self {
            Register::Zero => "zero",
            Register::Ra => "ra",
            Register::Sp => "sp",
            Register::Gp => "gp",
            Register::Tp => "tp",
            Register::T0 => "t0",
            Register::T1 => "t1",
            Register::T2 => "t2",
            Register::S0 => "s0",
            Register::S1 => "s1",
            Register::A0 => "a0",
            Register::A1 => "a1",
            Register::A2 => "a2",
            Register::A3 => "a3",
            Register::A4 => "a4",
            Register::A5 => "a5",
            Register::A6 => "a6",
            Register::A7 => "a7",
            Register::S2 => "s2",
            Register::S3 => "s3",
            Register::S4 => "s4",
            Register::S5 => "s5",
            Register::S6 => "s6",
            Register::S7 => "s7",
            Register::S8 => "s8",
            Register::S9 => "s9",
            Register::S10 => "s10",
            Register::S11 => "s11",
            Register::T3 => "t3",
            Register::T4 => "t4",
            Register::T5 => "t5",
            Register::T6 => "t6",
        }
    }
}


/// Bits `lo ..` of `w` that `mask` keeps once shifted down.
pub open spec fn field(w: u32, lo: u32, mask: u32) -> u32 {
    (w >> lo) & mask
}

/// `raw` read as a two's-complement number whose sign bit has weight `half`.
pub open spec fn sext(raw: u32, half: int) -> int {
    if raw >= half {
        raw - 2 * half
    } else {
        raw as int
    }
}

/// The 12-bit store immediate: bits 31..25 above bits 11..7.
pub open spec fn s_imm_raw(w: u32) -> u32 {
    (field(w, 25, 0x7f) << 5u32) | field(w, 7, 0x1f)
}

/// The 13-bit branch offset: bit 31, bit 7, bits 30..25, bits 11..8, then a zero bit.
pub open spec fn b_imm_raw(w: u32) -> u32 {
    (field(w, 31, 1) << 12u32) | (field(w, 7, 1) << 11u32) | (field(w, 25, 0x3f) << 5u32) | (
    field(w, 8, 0xf) << 1u32)
}

/// The 21-bit jump offset: bit 31, bits 19..12, bit 20, bits 30..21, then a zero bit.
pub open spec fn j_imm_raw(w: u32) -> u32 {
    (field(w, 31, 1) << 20u32) | (field(w, 12, 0xff) << 12u32) | (field(w, 20, 1) << 11u32) | (
    field(w, 21, 0x3ff) << 1u32)
}

/// Marks the field sets of the encoding shapes.
pub trait InsType {

}

/// Register-register shape.
#[derive(PartialEq, Eq, Structural, Clone, Copy, Debug)]
pub struct RType {
    pub rd: Register,
    pub funct3: u32,
    pub rs1: Register,
    pub rs2: Register,
    pub funct7: u32,
}

/// Register-immediate shape, with the 12-bit immediate sign-extended.
#[derive(PartialEq, Eq, Structural, Clone, Copy, Debug)]
pub struct IType {
    pub rd: Register,
    pub funct3: u32,
    pub rs1: Register,
    pub imm: i32,
}

/// Store shape, with the split 12-bit immediate reassembled and sign-extended.
#[derive(PartialEq, Eq, Structural, Clone, Copy, Debug)]
pub struct SType {
    pub funct3: u32,
    pub rs1: Register,
    pub rs2: Register,
    pub imm: i32,
}

/// Conditional-branch shape, with the 13-bit even offset sign-extended.
#[derive(PartialEq, Eq, Structural, Clone, Copy, Debug)]
pub struct BType {
    pub funct3: u32,
    pub rs1: Register,
    pub rs2: Register,
    pub imm: i32,
}

/// Upper-immediate shape: the immediate holds bits 31..12 in place, its low twelve bits zero.
#[derive(PartialEq, Eq, Structural, Clone, Copy, Debug)]
pub struct UType {
    pub rd: Register,
    pub imm: i32,
}

/// Jump shape, with the 21-bit even offset sign-extended.
#[derive(PartialEq, Eq, Structural, Clone, Copy, Debug)]
pub struct JType {
    pub rd: Register,
    pub imm: i32,
}

impl InsType for RType {

}

impl InsType for IType {

}

impl InsType for SType {

}

impl InsType for BType {

}

impl InsType for UType {

}

impl InsType for JType {

}

/// The register-register fields of `w`: rd in bits 11..7, funct3 in 14..12, rs1 in 19..15,
/// rs2 in 24..20, funct7 in 31..25.
pub open spec fn rtype_of(w: u32) -> RType {
    RType {
        rd: reg_of(field(w, 7, 0x1f)),
        funct3: field(w, 12, 7),
        rs1: reg_of(field(w, 15, 0x1f)),
        rs2: reg_of(field(w, 20, 0x1f)),
        funct7: field(w, 25, 0x7f),
    }
}

/// The register-immediate fields of `w`: bits 31..20 as a signed 12-bit immediate.
pub open spec fn itype_of(w: u32) -> IType {
    IType {
        rd: reg_of(field(w, 7, 0x1f)),
        funct3: field(w, 12, 7),
        rs1: reg_of(field(w, 15, 0x1f)),
        imm: sext(field(w, 20, 0xfff), 0x800) as i32,
    }
}

/// The store fields of `w`, the immediate reassembled and sign-extended from bit 11.
pub open spec fn stype_of(w: u32) -> SType {
    SType {
        funct3: field(w, 12, 7),
        rs1: reg_of(field(w, 15, 0x1f)),
        rs2: reg_of(field(w, 20, 0x1f)),
        imm: sext(s_imm_raw(w), 0x800) as i32,
    }
}

/// The branch fields of `w`, the offset reassembled and sign-extended from bit 12.
pub open spec fn btype_of(w: u32) -> BType {
    BType {
        funct3: field(w, 12, 7),
        rs1: reg_of(field(w, 15, 0x1f)),
        rs2: reg_of(field(w, 20, 0x1f)),
        imm: sext(b_imm_raw(w), 0x1000) as i32,
    }
}

/// The upper-immediate fields of `w`: bits 31..12 kept in place, read as a 32-bit signed value.
pub open spec fn utype_of(w: u32) -> UType {
    UType { rd: reg_of(field(w, 7, 0x1f)), imm: sext(w & 0xfffff000u32, 0x8000_0000) as i32 }
}

/// The jump fields of `w`, the offset reassembled and sign-extended from bit 20.
pub open spec fn jtype_of(w: u32) -> JType {
    JType { rd: reg_of(field(w, 7, 0x1f)), imm: sext(j_imm_raw(w), 0x100000) as i32 }
}

/// The register named by the five bits of `w` that start at `lo`.
fn reg_field(w: u32, lo: u32) -> (r: Register)
    requires
        lo < 32,
    ensures
        r == reg_of(field(w, lo, 0x1f)),
{
    let v = (w >> lo) & 0x1f;
    assert(v < 32) by (bit_vector)
        requires
            v == (w >> lo) & 0x1f,
    ;
    Register::from_index(v)
}

/// Reads `raw` as a two's-complement number whose sign bit has weight `half`.
fn sign_extend(raw: u32, half: u32) -> (r: i32)
    requires
        0 < half <= 0x100000,
        raw < 2 * half,
    ensures
        r as int == sext(raw, half as int),
{
    if raw >= half {
        raw as i32 - 2 * (half as i32)
    } else {
        raw as i32
    }
}

impl From<u32> for RType {
    fn from(v: u32) -> (r: RType) {
        RType {
            rd: reg_field(v, 7),
            funct3: (v >> 12) & 7,
            rs1: reg_field(v, 15),
            rs2: reg_field(v, 20),
            funct7: (v >> 25) & 0x7f,
        }
    }
}

impl vstd::std_specs::convert::FromSpecImpl<u32> for RType {
    open spec fn obeys_from_spec() -> bool {
        true
    }

    open spec fn from_spec(v: u32) -> RType {
        rtype_of(v)
    }
}

impl From<u32> for IType {
    fn from(v: u32) -> (r: IType) {
        let raw = (v >> 20) & 0xfff;
        assert(raw < 0x1000) by (bit_vector)
            requires
                raw == (v >> 20) & 0xfff,
        ;
        IType {
            rd: reg_field(v, 7),
            funct3: (v >> 12) & 7,
            rs1: reg_field(v, 15),
            imm: sign_extend(raw, 0x800),
        }
    }
}

impl vstd::std_specs::convert::FromSpecImpl<u32> for IType {
    open spec fn obeys_from_spec() -> bool {
        true
    }

    open spec fn from_spec(v: u32) -> IType {
        itype_of(v)
    }
}

impl From<u32> for SType {
    fn from(v: u32) -> (r: SType) {
        let raw = (((v >> 25) & 0x7f) << 5u32) | ((v >> 7) & 0x1f);
        assert(raw == s_imm_raw(v) && raw < 0x1000) by (bit_vector)
            requires
                raw == (((v >> 25) & 0x7f) << 5u32) | ((v >> 7) & 0x1f),
        ;
        SType {
            funct3: (v >> 12) & 7,
            rs1: reg_field(v, 15),
            rs2: reg_field(v, 20),
            imm: sign_extend(raw, 0x800),
        }
    }
}

impl vstd::std_specs::convert::FromSpecImpl<u32> for SType {
    open spec fn obeys_from_spec() -> bool {
        true
    }

    open spec fn from_spec(v: u32) -> SType {
        stype_of(v)
    }
}

impl From<u32> for BType {
    fn from(v: u32) -> (r: BType) {
        let raw = (((v >> 31) & 1) << 12u32) | (((v >> 7) & 1) << 11u32) | (((v >> 25) & 0x3f)
            << 5u32) | (((v >> 8) & 0xf) << 1u32);
        assert(raw == b_imm_raw(v) && raw < 0x2000) by (bit_vector)
            requires
                raw == (((v >> 31) & 1) << 12u32) | (((v >> 7) & 1) << 11u32) | (((v >> 25)
                    & 0x3f) << 5u32) | (((v >> 8) & 0xf) << 1u32),
        ;
        BType {
            funct3: (v >> 12) & 7,
            rs1: reg_field(v, 15),
            rs2: reg_field(v, 20),
            imm: sign_extend(raw, 0x1000),
        }
    }
}

impl vstd::std_specs::convert::FromSpecImpl<u32> for BType {
    open spec fn obeys_from_spec() -> bool {
        true
    }

    open spec fn from_spec(v: u32) -> BType {
        btype_of(v)
    }
}

impl From<u32> for UType {
    fn from(v: u32) -> (r: UType) {
        let upper = v & 0xfffff000u32;
        let imm = if upper >= 0x8000_0000 {
            ((upper - 0x8000_0000) as i32) + i32::MIN
        } else {
            upper as i32
        };
        UType { rd: reg_field(v, 7), imm }
    }
}

impl vstd::std_specs::convert::FromSpecImpl<u32> for UType {
    open spec fn obeys_from_spec() -> bool {
        true
    }

    open spec fn from_spec(v: u32) -> UType {
        utype_of(v)
    }
}

impl From<u32> for JType {
    fn from(v: u32) -> (r: JType) {
        let raw = (((v >> 31) & 1) << 20u32) | (((v >> 12) & 0xff) << 12u32) | (((v >> 20) & 1)
            << 11u32) | (((v >> 21) & 0x3ff) << 1u32);
        assert(raw == j_imm_raw(v) && raw < 0x200000) by (bit_vector)
            requires
                raw == (((v >> 31) & 1) << 20u32) | (((v >> 12) & 0xff) << 12u32) | (((v >> 20)
                    & 1) << 11u32) | (((v >> 21) & 0x3ff) << 1u32),
        ;
        JType { rd: reg_field(v, 7), imm: sign_extend(raw, 0x100000) }
    }
}

impl vstd::std_specs::convert::FromSpecImpl<u32> for JType {
    open spec fn obeys_from_spec() -> bool {
        true
    }

    open spec fn from_spec(v: u32) -> JType {
        jtype_of(v)
    }
}

/// The base operation of a register-register ALU word, by `funct3`.
#[allow(non_camel_case_types)]
#[derive(PartialEq, Eq, Structural, Clone, Copy, Debug)]
pub enum MATHX_OPS {
    add_sub,
    sll,
    slt,
    sltu,
    xor,
    srl_sra,
    or,
    and,
}

/// The operation that `funct3` selects, or `None` for a value wider than three bits.
pub open spec fn mathx_ops_of(funct3: u32) -> Option<MATHX_OPS> {
    match funct3 {
        0 => Some(MATHX_OPS::add_sub),
        1 => Some(MATHX_OPS::sll),
        2 => Some(MATHX_OPS::slt),
        3 => Some(MATHX_OPS::sltu),
        4 => Some(MATHX_OPS::xor),
        5 => Some(MATHX_OPS::srl_sra),
        6 => Some(MATHX_OPS::or),
        7 => Some(MATHX_OPS::and),
        _ => None,
    }
}

impl MATHX_OPS {
    /// Resolves a `funct3` field; there is no operation for a value of four bits or more.
    pub fn from_funct3(v: u32) -> (r: Option<MATHX_OPS>)
        ensures
            r == mathx_ops_of(v),
            r is Some <==> v < 8,
    {
        match v {
            0 => Some(MATHX_OPS::add_sub),
            1 => Some(MATHX_OPS::sll),
            2 => Some(MATHX_OPS::slt),
            3 => Some(MATHX_OPS::sltu),
            4 => Some(MATHX_OPS::xor),
            5 => Some(MATHX_OPS::srl_sra),
            6 => Some(MATHX_OPS::or),
            7 => Some(MATHX_OPS::and),
            _ => None,
        }
    }
}

/// The base operation of a register-immediate ALU word, by `funct3`.
#[allow(non_camel_case_types)]
#[derive(PartialEq, Eq, Structural, Clone, Copy, Debug)]
pub enum MATHI_OPS {
    addi,
    slli,
    slti,
    sltiu,
    xori,
    srli_srai,
    ori,
    andi,
}

/// The operation that `funct3` selects, or `None` for a value wider than three bits.
pub open spec fn mathi_ops_of(funct3: u32) -> Option<MATHI_OPS> {
    match funct3 {
        0 => Some(MATHI_OPS::addi),
        1 => Some(MATHI_OPS::slli),
        2 => Some(MATHI_OPS::slti),
        3 => Some(MATHI_OPS::sltiu),
        4 => Some(MATHI_OPS::xori),
        5 => Some(MATHI_OPS::srli_srai),
        6 => Some(MATHI_OPS::ori),
        7 => Some(MATHI_OPS::andi),
        _ => None,
    }
}

impl MATHI_OPS {
    /// Resolves a `funct3` field; there is no operation for a value of four bits or more.
    pub fn from_funct3(v: u32) -> (r: Option<MATHI_OPS>)
        ensures
            r == mathi_ops_of(v),
            r is Some <==> v < 8,
    {
        match v {
            0 => Some(MATHI_OPS::addi),
            1 => Some(MATHI_OPS::slli),
            2 => Some(MATHI_OPS::slti),
            3 => Some(MATHI_OPS::sltiu),
            4 => Some(MATHI_OPS::xori),
            5 => Some(MATHI_OPS::srli_srai),
            6 => Some(MATHI_OPS::ori),
            7 => Some(MATHI_OPS::andi),
            _ => None,
        }
    }
}

} // verus!
