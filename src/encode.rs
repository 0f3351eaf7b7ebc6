//! Assembling words from field sets, and the laws that decoding takes them back apart.
use vstd::prelude::*;
use crate::decode::{
    branch_mnemonic, decode_of, imm_mnemonic, load_mnemonic, op_mnemonic, status_of, store_mnemonic,
    unsupported_of, Mnemonic, Operand, Status,
};
use crate::ins::{
    b_imm_raw, btype_of, field, itype_of, j_imm_raw, jtype_of, opcode_of, reg_of, rtype_of,
    s_imm_raw, sext, stype_of, utype_of, BType, IType, JType, Opcode, RType, Register, SType, UType,
};

verus! {

/// Every register is `x<i>` for the index `i` that it reports.
pub proof fn lemma_reg_index(r: Register)
    ensures
        r.index() < 32,
        reg_of(r.index()) == r,
{
}

/// The register `x<i>` reports index `i`.
pub proof fn lemma_index_reg(i: u32)
    requires
        i < 32,
    ensures
        reg_of(i).index() == i,
{
}

/// The low `2 * half` bits of the two's-complement form of `imm`.
pub open spec fn twos(imm: int, half: int) -> u32 {
    if imm < 0 {
        (imm + 2 * half) as u32
    } else {
        imm as u32
    }
}

/// Register-register layout of plain field values.
pub open spec fn pack_r(op: u32, rd: u32, f3: u32, rs1: u32, rs2: u32, f7: u32) -> u32 {
    (f7 << 25u32) | (rs2 << 20u32) | (rs1 << 15u32) | (f3 << 12u32) | (rd << 7u32) | op
}

/// Register-immediate layout of plain field values, `imm` the 12 immediate bits.
pub open spec fn pack_i(op: u32, rd: u32, f3: u32, rs1: u32, imm: u32) -> u32 {
    (imm << 20u32) | (rs1 << 15u32) | (f3 << 12u32) | (rd << 7u32) | op
}

/// Store layout, `imm` the 12 immediate bits split over bits 31..25 and 11..7.
pub open spec fn pack_s(op: u32, f3: u32, rs1: u32, rs2: u32, imm: u32) -> u32 {
    ((imm >> 5u32) << 25u32) | (rs2 << 20u32) | (rs1 << 15u32) | (f3 << 12u32) | ((imm & 0x1f)
        << 7u32) | op
}

/// Branch layout, `imm` the 13 offset bits scattered as the branch shape places them.
pub open spec fn pack_b(op: u32, f3: u32, rs1: u32, rs2: u32, imm: u32) -> u32 {
    (((imm >> 12u32) & 1) << 31u32) | (((imm >> 5u32) & 0x3f) << 25u32) | (rs2 << 20u32) | (rs1
        << 15u32) | (f3 << 12u32) | (((imm >> 1u32) & 0xf) << 8u32) | (((imm >> 11u32) & 1)
        << 7u32) | op
}

/// Upper-immediate layout, `upper` the word's bits 31..12 in place.
pub open spec fn pack_u(op: u32, rd: u32, upper: u32) -> u32 {
    upper | (rd << 7u32) | op
}

/// Jump layout, `imm` the 21 offset bits scattered as the jump shape places them.
pub open spec fn pack_j(op: u32, rd: u32, imm: u32) -> u32 {
    (((imm >> 20u32) & 1) << 31u32) | (((imm >> 1u32) & 0x3ff) << 21u32) | (((imm >> 11u32) & 1)
        << 20u32) | (((imm >> 12u32) & 0xff) << 12u32) | (rd << 7u32) | op
}

/// The register-register word with opcode bits `op` and the fields of `f`.
pub open spec fn encode_r(op: u32, f: RType) -> u32 {
    pack_r(op, f.rd.index(), f.funct3, f.rs1.index(), f.rs2.index(), f.funct7)
}

/// The register-immediate word with opcode bits `op` and the fields of `f`.
pub open spec fn encode_i(op: u32, f: IType) -> u32 {
    pack_i(op, f.rd.index(), f.funct3, f.rs1.index(), twos(f.imm as int, 0x800))
}

/// The store word with opcode bits `op` and the fields of `f`.
pub open spec fn encode_s(op: u32, f: SType) -> u32 {
    pack_s(op, f.funct3, f.rs1.index(), f.rs2.index(), twos(f.imm as int, 0x800))
}

/// The branch word with opcode bits `op` and the fields of `f`.
pub open spec fn encode_b(op: u32, f: BType) -> u32 {
    pack_b(op, f.funct3, f.rs1.index(), f.rs2.index(), twos(f.imm as int, 0x1000))
}

/// The upper-immediate word with opcode bits `op` and the fields of `f`.
pub open spec fn encode_u(op: u32, f: UType) -> u32 {
    pack_u(op, f.rd.index(), twos(f.imm as int, 0x8000_0000))
}

/// The jump word with opcode bits `op` and the fields of `f`.
pub open spec fn encode_j(op: u32, f: JType) -> u32 {
    pack_j(op, f.rd.index(), twos(f.imm as int, 0x100000))
}

proof fn lemma_unpack_r(op: u32, rd: u32, f3: u32, rs1: u32, rs2: u32, f7: u32)
    by (bit_vector)
    requires
        op < 128,
        rd < 32,
        f3 < 8,
        rs1 < 32,
        rs2 < 32,
        f7 < 128,
    ensures
        pack_r(op, rd, f3, rs1, rs2, f7) & 0x7f == op,
        field(pack_r(op, rd, f3, rs1, rs2, f7), 7, 0x1f) == rd,
        field(pack_r(op, rd, f3, rs1, rs2, f7), 12, 7) == f3,
        field(pack_r(op, rd, f3, rs1, rs2, f7), 15, 0x1f) == rs1,
        field(pack_r(op, rd, f3, rs1, rs2, f7), 20, 0x1f) == rs2,
        field(pack_r(op, rd, f3, rs1, rs2, f7), 25, 0x7f) == f7,
{
}

proof fn lemma_unpack_i(op: u32, rd: u32, f3: u32, rs1: u32, imm: u32)
    by (bit_vector)
    requires
        op < 128,
        rd < 32,
        f3 < 8,
        rs1 < 32,
        imm < 0x1000,
    ensures
        pack_i(op, rd, f3, rs1, imm) & 0x7f == op,
        field(pack_i(op, rd, f3, rs1, imm), 7, 0x1f) == rd,
        field(pack_i(op, rd, f3, rs1, imm), 12, 7) == f3,
        field(pack_i(op, rd, f3, rs1, imm), 15, 0x1f) == rs1,
        field(pack_i(op, rd, f3, rs1, imm), 20, 0xfff) == imm,
{
}

proof fn lemma_unpack_s(op: u32, f3: u32, rs1: u32, rs2: u32, imm: u32)
    by (bit_vector)
    requires
        op < 128,
        f3 < 8,
        rs1 < 32,
        rs2 < 32,
        imm < 0x1000,
    ensures
        pack_s(op, f3, rs1, rs2, imm) & 0x7f == op,
        field(pack_s(op, f3, rs1, rs2, imm), 12, 7) == f3,
        field(pack_s(op, f3, rs1, rs2, imm), 15, 0x1f) == rs1,
        field(pack_s(op, f3, rs1, rs2, imm), 20, 0x1f) == rs2,
        s_imm_raw(pack_s(op, f3, rs1, rs2, imm)) == imm,
{
}

proof fn lemma_unpack_b(op: u32, f3: u32, rs1: u32, rs2: u32, imm: u32)
    by (bit_vector)
    requires
        op < 128,
        f3 < 8,
        rs1 < 32,
        rs2 < 32,
        imm < 0x2000,
        imm & 1 == 0,
    ensures
        pack_b(op, f3, rs1, rs2, imm) & 0x7f == op,
        field(pack_b(op, f3, rs1, rs2, imm), 12, 7) == f3,
        field(pack_b(op, f3, rs1, rs2, imm), 15, 0x1f) == rs1,
        field(pack_b(op, f3, rs1, rs2, imm), 20, 0x1f) == rs2,
        b_imm_raw(pack_b(op, f3, rs1, rs2, imm)) == imm,
{
}

proof fn lemma_unpack_u(op: u32, rd: u32, upper: u32)
    by (bit_vector)
    requires
        op < 128,
        rd < 32,
        upper & 0xfff == 0,
    ensures
        pack_u(op, rd, upper) & 0x7f == op,
        field(pack_u(op, rd, upper), 7, 0x1f) == rd,
        pack_u(op, rd, upper) & 0xfffff000u32 == upper,
{
}

proof fn lemma_unpack_j(op: u32, rd: u32, imm: u32)
    by (bit_vector)
    requires
        op < 128,
        rd < 32,
        imm < 0x200000,
        imm & 1 == 0,
    ensures
        pack_j(op, rd, imm) & 0x7f == op,
        field(pack_j(op, rd, imm), 7, 0x1f) == rd,
        j_imm_raw(pack_j(op, rd, imm)) == imm,
{
}

proof fn lemma_even_low_bit(x: u32)
    by (bit_vector)
    requires
        x % 2 == 0,
    ensures
        x & 1 == 0,
{
}

/// Sign extension takes back the two's-complement form of an immediate that fits.
proof fn lemma_twos(imm: int, half: int)
    requires
        0 < half <= 0x8000_0000,
        -half <= imm < half,
    ensures
        twos(imm, half) < 2 * half,
        sext(twos(imm, half), half) == imm,
        imm % 2 == 0 ==> twos(imm, half) % 2 == 0,
{
}

/// Decoding a register-register word gives back the fields it was assembled from.
pub proof fn lemma_r_round_trip(op: u32, f: RType)
    requires
        op < 128,
        f.funct3 < 8,
        f.funct7 < 128,
    ensures
        encode_r(op, f) & 0x7f == op,
        rtype_of(encode_r(op, f)) == f,
{
    lemma_reg_index(f.rd);
    lemma_reg_index(f.rs1);
    lemma_reg_index(f.rs2);
    lemma_unpack_r(op, f.rd.index(), f.funct3, f.rs1.index(), f.rs2.index(), f.funct7);
}

/// Decoding a register-immediate word gives back the fields it was assembled from,
/// the immediate with its sign.
pub proof fn lemma_i_round_trip(op: u32, f: IType)
    requires
        op < 128,
        f.funct3 < 8,
        -0x800 <= f.imm < 0x800,
    ensures
        encode_i(op, f) & 0x7f == op,
        itype_of(encode_i(op, f)) == f,
{
    lemma_reg_index(f.rd);
    lemma_reg_index(f.rs1);
    lemma_twos(f.imm as int, 0x800);
    lemma_unpack_i(op, f.rd.index(), f.funct3, f.rs1.index(), twos(f.imm as int, 0x800));
}

/// Decoding a store word gives back the fields it was assembled from.
pub proof fn lemma_s_round_trip(op: u32, f: SType)
    requires
        op < 128,
        f.funct3 < 8,
        -0x800 <= f.imm < 0x800,
    ensures
        encode_s(op, f) & 0x7f == op,
        stype_of(encode_s(op, f)) == f,
{
    lemma_reg_index(f.rs1);
    lemma_reg_index(f.rs2);
    lemma_twos(f.imm as int, 0x800);
    lemma_unpack_s(op, f.funct3, f.rs1.index(), f.rs2.index(), twos(f.imm as int, 0x800));
}

/// Decoding a branch word gives back the fields it was assembled from; branch offsets
/// are even.
pub proof fn lemma_b_round_trip(op: u32, f: BType)
    requires
        op < 128,
        f.funct3 < 8,
        -0x1000 <= f.imm < 0x1000,
        f.imm % 2 == 0,
    ensures
        encode_b(op, f) & 0x7f == op,
        btype_of(encode_b(op, f)) == f,
{
    lemma_reg_index(f.rs1);
    lemma_reg_index(f.rs2);
    lemma_twos(f.imm as int, 0x1000);
    lemma_even_low_bit(twos(f.imm as int, 0x1000));
    lemma_unpack_b(op, f.funct3, f.rs1.index(), f.rs2.index(), twos(f.imm as int, 0x1000));
}

/// Decoding an upper-immediate word gives back the fields it was assembled from; the
/// immediate's low twelve bits are zero.
pub proof fn lemma_u_round_trip(op: u32, f: UType)
    requires
        op < 128,
        f.imm % 0x1000 == 0,
    ensures
        encode_u(op, f) & 0x7f == op,
        utype_of(encode_u(op, f)) == f,
{
    lemma_reg_index(f.rd);
    lemma_twos(f.imm as int, 0x8000_0000);
    let x = twos(f.imm as int, 0x8000_0000);
    assert(x % 0x1000 == 0);
    assert(x & 0xfff == 0) by (bit_vector)
        requires
            x % 0x1000 == 0,
    ;
    lemma_unpack_u(op, f.rd.index(), x);
}

/// Decoding a jump word gives back the fields it was assembled from; jump offsets are even.
pub proof fn lemma_j_round_trip(op: u32, f: JType)
    requires
        op < 128,
        -0x100000 <= f.imm < 0x100000,
        f.imm % 2 == 0,
    ensures
        encode_j(op, f) & 0x7f == op,
        jtype_of(encode_j(op, f)) == f,
{
    lemma_reg_index(f.rd);
    lemma_twos(f.imm as int, 0x100000);
    lemma_even_low_bit(twos(f.imm as int, 0x100000));
    lemma_unpack_j(op, f.rd.index(), twos(f.imm as int, 0x100000));
}

/// A register-register word assembled from fields whose `funct3` and `funct7` select an
/// operation decodes to that operation with operands `rd, rs1, rs2`.
pub proof fn lemma_op_round_trip(f: RType, m: Mnemonic)
    requires
        f.funct3 < 8,
        f.funct7 < 128,
        op_mnemonic(f) == Some(m),
    ensures
        decode_of(encode_r(0x33, f)) == (m, seq![Operand::Reg(f.rd), Operand::Reg(f.rs1), Operand::Reg(f.rs2)]),
{
    lemma_r_round_trip(0x33, f);
}

/// A register-immediate shift word decodes to `slli`, `srli` or `srai` with operands
/// `rd, rs1` and the unsigned shift amount, as its `funct3` and discriminant select.
pub proof fn lemma_shift_round_trip(rd: Register, rs1: Register, amount: u32, funct3: u32, disc: u32)
    requires
        amount < 32,
        funct3 == 1 || funct3 == 5,
        disc == 0 || (funct3 == 5 && disc == 0x20),
    ensures
        decode_of(encode_r(0x13, RType { rd, funct3, rs1, rs2: reg_of(amount), funct7: disc })) == (
            if funct3 == 1 {
                Mnemonic::Slli
            } else if disc == 0 {
                Mnemonic::Srli
            } else {
                Mnemonic::Srai
            },
            seq![Operand::Reg(rd), Operand::Reg(rs1), Operand::Imm(amount as i32)],
        ),
{
    let f = RType { rd, funct3, rs1, rs2: reg_of(amount), funct7: disc };
    lemma_r_round_trip(0x13, f);
    let w = encode_r(0x13, f);
    let v = field(w, 20, 0x1f);
    assert(v < 32) by (bit_vector)
        requires
            v == field(w, 20, 0x1f),
    ;
    lemma_index_reg(v);
    lemma_index_reg(amount);
}

/// A load word whose `funct3` selects a load decodes to it with operands `rd, rs1, imm`.
pub proof fn lemma_load_round_trip(f: IType, m: Mnemonic)
    requires
        f.funct3 < 8,
        -0x800 <= f.imm < 0x800,
        load_mnemonic(f.funct3) == Some(m),
    ensures
        decode_of(encode_i(0x03, f)) == (m, seq![Operand::Reg(f.rd), Operand::Reg(f.rs1), Operand::Imm(f.imm)]),
{
    lemma_i_round_trip(0x03, f);
}

/// A store word whose `funct3` selects a store decodes to it with operands `rs2, rs1, imm`.
pub proof fn lemma_store_round_trip(f: SType, m: Mnemonic)
    requires
        f.funct3 < 8,
        -0x800 <= f.imm < 0x800,
        store_mnemonic(f.funct3) == Some(m),
    ensures
        decode_of(encode_s(0x23, f)) == (m, seq![Operand::Reg(f.rs2), Operand::Reg(f.rs1), Operand::Imm(f.imm)]),
{
    lemma_s_round_trip(0x23, f);
}

/// A branch word whose `funct3` selects a branch decodes to it with operands
/// `rs1, rs2, offset`.
pub proof fn lemma_branch_round_trip(f: BType, m: Mnemonic)
    requires
        f.funct3 < 8,
        -0x1000 <= f.imm < 0x1000,
        f.imm % 2 == 0,
        branch_mnemonic(f.funct3) == Some(m),
    ensures
        decode_of(encode_b(0x63, f)) == (m, seq![Operand::Reg(f.rs1), Operand::Reg(f.rs2), Operand::Imm(f.imm)]),
{
    lemma_b_round_trip(0x63, f);
}

/// Upper-immediate words decode to `lui` and `auipc` with operands `rd, imm`.
pub proof fn lemma_upper_round_trip(f: UType)
    requires
        f.imm % 0x1000 == 0,
    ensures
        decode_of(encode_u(0x37, f)) == (Mnemonic::Lui, seq![Operand::Reg(f.rd), Operand::Imm(f.imm)]),
        decode_of(encode_u(0x17, f)) == (Mnemonic::Auipc, seq![Operand::Reg(f.rd), Operand::Imm(f.imm)]),
{
    lemma_u_round_trip(0x37, f);
    lemma_u_round_trip(0x17, f);
}

/// A jump word decodes to `jal` with operands `rd, offset`.
pub proof fn lemma_jal_round_trip(f: JType)
    requires
        -0x100000 <= f.imm < 0x100000,
        f.imm % 2 == 0,
    ensures
        decode_of(encode_j(0x6f, f)) == (Mnemonic::Jal, seq![Operand::Reg(f.rd), Operand::Imm(f.imm)]),
{
    lemma_j_round_trip(0x6f, f);
}

/// An indirect jump decodes to `ret` with no operands when it jumps to `ra` with offset
/// zero and links nothing; otherwise to `jalr` with operands `rd, rs1, imm`.
pub proof fn lemma_jalr_round_trip(f: IType)
    requires
        f.funct3 < 8,
        -0x800 <= f.imm < 0x800,
    ensures
        f.rd == Register::Zero && f.rs1 == Register::Ra && f.imm == 0 ==> decode_of(encode_i(0x67, f)) == (Mnemonic::Ret, Seq::<Operand>::empty()),
        !(f.rd == Register::Zero && f.rs1 == Register::Ra && f.imm == 0) ==> decode_of(encode_i(0x67, f)) == (Mnemonic::Jalr, seq![Operand::Reg(f.rd), Operand::Reg(f.rs1), Operand::Imm(f.imm)]),
{
    lemma_i_round_trip(0x67, f);
}

/// A register-immediate word whose twelve immediate bits are all ones carries the
/// immediate -1.
pub proof fn lemma_all_ones_immediate(w: u32)
    requires
        field(w, 20, 0xfff) == 0xfff,
    ensures
        itype_of(w).imm == -1,
{
}

/// Decoding never fails: every word gets a mnemonic, and the placeholder (status
/// `Unsupported`, operands the raw `funct3` and `funct7`) comes exactly for a word of no
/// known family, or of a known family whose function fields select no operation.
pub proof fn lemma_decode_total(w: u32)
    ensures
        status_of(decode_of(w).0) == Status::Supported || status_of(decode_of(w).0) == Status::Unsupported,
        (decode_of(w).0 == Mnemonic::Unsupported) <==> (
            opcode_of(w) == Opcode::UNKNOWN
            || (opcode_of(w) == Opcode::BXX && branch_mnemonic(field(w, 12, 7)) is None)
            || (opcode_of(w) == Opcode::LX && load_mnemonic(field(w, 12, 7)) is None)
            || (opcode_of(w) == Opcode::SX && store_mnemonic(field(w, 12, 7)) is None)
            || (opcode_of(w) == Opcode::MATHI && imm_mnemonic(w) is None)
            || (opcode_of(w) == Opcode::MATHX && op_mnemonic(rtype_of(w)) is None)
        ),
        decode_of(w).0 == Mnemonic::Unsupported ==> decode_of(w) == unsupported_of(w),
{
}

} // verus!
