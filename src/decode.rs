//! Resolution of a word into a mnemonic and its ordered operands.
use vstd::prelude::*;
use crate::ins::{
    btype_of, field, itype_of, jtype_of, mathi_ops_of, mathx_ops_of, opcode_of, rtype_of,
    stype_of, utype_of, BType, IType, JType, MATHI_OPS, MATHX_OPS, Opcode, RType, Register, SType,
    UType,
};

verus! {

/// The operation of a decoded word, or the placeholder of one that the subset does not cover.
#[derive(PartialEq, Eq, Structural, Clone, Copy, Debug)]
pub enum Mnemonic {
    Lui,
    Auipc,
    Jal,
    Jalr,
    Ret,
    Beq,
    Bne,
    Blt,
    Bge,
    Bltu,
    Bgeu,
    Lb,
    Lh,
    Lw,
    Lbu,
    Lhu,
    Sb,
    Sh,
    Sw,
    Addi,
    Slti,
    Sltiu,
    Xori,
    Ori,
    Andi,
    Slli,
    Srli,
    Srai,
    Add,
    Sub,
    Sll,
    Slt,
    Sltu,
    Xor,
    Srl,
    Sra,
    Or,
    And,
    /// A word whose family or function fields select no operation.
    Unsupported,
}

/// The token that names the operation in a text line.
pub open spec fn mnemonic_text(m: Mnemonic) -> Seq<char> {
    match m {
        Mnemonic::Lui => "lui"@,
        Mnemonic::Auipc => "auipc"@,
        Mnemonic::Jal => "jal"@,
        Mnemonic::Jalr => "jalr"@,
        Mnemonic::Ret => "ret"@,
        Mnemonic::Beq => "beq"@,
        Mnemonic::Bne => "bne"@,
        Mnemonic::Blt => "blt"@,
        Mnemonic::Bge => "bge"@,
        Mnemonic::Bltu => "bltu"@,
        Mnemonic::Bgeu => "bgeu"@,
        Mnemonic::Lb => "lb"@,
        Mnemonic::Lh => "lh"@,
        Mnemonic::Lw => "lw"@,
        Mnemonic::Lbu => "lbu"@,
        Mnemonic::Lhu => "lhu"@,
        Mnemonic::Sb => "sb"@,
        Mnemonic::Sh => "sh"@,
        Mnemonic::Sw => "sw"@,
        Mnemonic::Addi => "addi"@,
        Mnemonic::Slti => "slti"@,
        Mnemonic::Sltiu => "sltiu"@,
        Mnemonic::Xori => "xori"@,
        Mnemonic::Ori => "ori"@,
        Mnemonic::Andi => "andi"@,
        Mnemonic::Slli => "slli"@,
        Mnemonic::Srli => "srli"@,
        Mnemonic::Srai => "srai"@,
        Mnemonic::Add => "add"@,
        Mnemonic::Sub => "sub"@,
        Mnemonic::Sll => "sll"@,
        Mnemonic::Slt => "slt"@,
        Mnemonic::Sltu => "sltu"@,
        Mnemonic::Xor => "xor"@,
        Mnemonic::Srl => "srl"@,
        Mnemonic::Sra => "sra"@,
        Mnemonic::Or => "or"@,
        Mnemonic::And => "and"@,
        Mnemonic::Unsupported => "invalid"@,
    }
}

impl Mnemonic {
    /// The token that names the operation in a text line.
    pub fn text(&self) -> (r: &'static str)
        ensures
            r@ == mnemonic_text(*self),
    {
        match self {
            Mnemonic::Lui => "lui",
            Mnemonic::Auipc => "auipc",
            Mnemonic::Jal => "jal",
            Mnemonic::Jalr => "jalr",
            Mnemonic::Ret => "ret",
            Mnemonic::Beq => "beq",
            Mnemonic::Bne => "bne",
            Mnemonic::Blt => "blt",
            Mnemonic::Bge => "bge",
            Mnemonic::Bltu => "bltu",
            Mnemonic::Bgeu => "bgeu",
            Mnemonic::Lb => "lb",
            Mnemonic::Lh => "lh",
            Mnemonic::Lw => "lw",
            Mnemonic::Lbu => "lbu",
            Mnemonic::Lhu => "lhu",
            Mnemonic::Sb => "sb",
            Mnemonic::Sh => "sh",
            Mnemonic::Sw => "sw",
            Mnemonic::Addi => "addi",
            Mnemonic::Slti => "slti",
            Mnemonic::Sltiu => "sltiu",
            Mnemonic::Xori => "xori",
            Mnemonic::Ori => "ori",
            Mnemonic::Andi => "andi",
            Mnemonic::Slli => "slli",
            Mnemonic::Srli => "srli",
            Mnemonic::Srai => "srai",
            Mnemonic::Add => "add",
            Mnemonic::Sub => "sub",
            Mnemonic::Sll => "sll",
            Mnemonic::Slt => "slt",
            Mnemonic::Sltu => "sltu",
            Mnemonic::Xor => "xor",
            Mnemonic::Srl => "srl",
            Mnemonic::Sra => "sra",
            Mnemonic::Or => "or",
            Mnemonic::And => "and",
            Mnemonic::Unsupported => "invalid",
        }
    }
}

/// One operand, in assembly order.
#[derive(PartialEq, Eq, Structural, Clone, Copy, Debug)]
pub enum Operand {
    Reg(Register),
    Imm(i32),
}

/// Whether the word resolved to an operation of the subset.
#[derive(PartialEq, Eq, Structural, Clone, Copy, Debug)]
pub enum Status {
    Supported,
    Unsupported,
}

/// One word of the input with what it decodes to.
#[derive(Debug)]
pub struct DecodedInstruction {
    /// Where the word stands: the stream's base address plus its offset.
    pub address: usize,
    /// The word as read.
    pub raw: u32,
    pub mnemonic: Mnemonic,
    pub operands: Vec<Operand>,
    pub status: Status,
}

/// The placeholder for a word that selects no operation: the raw `funct3` and `funct7` fields.
pub open spec fn unsupported_of(w: u32) -> (Mnemonic, Seq<Operand>) {
    (
        Mnemonic::Unsupported,
        seq![Operand::Imm(field(w, 12, 7) as i32), Operand::Imm(field(w, 25, 0x7f) as i32)],
    )
}

/// The register-register operation: `funct7` tells add from sub and srl from sra.
pub open spec fn op_mnemonic(f: RType) -> Option<Mnemonic> {
    match mathx_ops_of(f.funct3) {
        Some(MATHX_OPS::add_sub) => if f.funct7 == 0 {
            Some(Mnemonic::Add)
        } else if f.funct7 == 0x20 {
            Some(Mnemonic::Sub)
        } else {
            None
        },
        Some(MATHX_OPS::srl_sra) => if f.funct7 == 0 {
            Some(Mnemonic::Srl)
        } else if f.funct7 == 0x20 {
            Some(Mnemonic::Sra)
        } else {
            None
        },
        Some(MATHX_OPS::sll) => Some(Mnemonic::Sll),
        Some(MATHX_OPS::slt) => Some(Mnemonic::Slt),
        Some(MATHX_OPS::sltu) => Some(Mnemonic::Sltu),
        Some(MATHX_OPS::xor) => Some(Mnemonic::Xor),
        Some(MATHX_OPS::or) => Some(Mnemonic::Or),
        Some(MATHX_OPS::and) => Some(Mnemonic::And),
        None => None,
    }
}

/// The register-immediate operation; for the shifts, bits 31..25 of the word are the
/// discriminant (zero for logical, `0b0100000` for arithmetic right shift).
pub open spec fn imm_mnemonic(w: u32) -> Option<Mnemonic> {
    let disc = field(w, 25, 0x7f);
    match mathi_ops_of(field(w, 12, 7)) {
        Some(MATHI_OPS::slli) => if disc == 0 {
            Some(Mnemonic::Slli)
        } else {
            None
        },
        Some(MATHI_OPS::srli_srai) => if disc == 0 {
            Some(Mnemonic::Srli)
        } else if disc == 0x20 {
            Some(Mnemonic::Srai)
        } else {
            None
        },
        Some(MATHI_OPS::addi) => Some(Mnemonic::Addi),
        Some(MATHI_OPS::slti) => Some(Mnemonic::Slti),
        Some(MATHI_OPS::sltiu) => Some(Mnemonic::Sltiu),
        Some(MATHI_OPS::xori) => Some(Mnemonic::Xori),
        Some(MATHI_OPS::ori) => Some(Mnemonic::Ori),
        Some(MATHI_OPS::andi) => Some(Mnemonic::Andi),
        None => None,
    }
}

/// The operands of a register-immediate word: a shift takes the unsigned amount in bits
/// 24..20, the others the sign-extended 12-bit immediate.
pub open spec fn imm_operands(w: u32) -> Seq<Operand> {
    let i = itype_of(w);
    let f3 = field(w, 12, 7);
    let amount = if f3 == 1 || f3 == 5 {
        field(w, 20, 0x1f) as i32
    } else {
        i.imm
    };
    seq![Operand::Reg(i.rd), Operand::Reg(i.rs1), Operand::Imm(amount)]
}

/// The conditional branch that `funct3` selects.
pub open spec fn branch_mnemonic(funct3: u32) -> Option<Mnemonic> {
    match funct3 {
        0 => Some(Mnemonic::Beq),
        1 => Some(Mnemonic::Bne),
        4 => Some(Mnemonic::Blt),
        5 => Some(Mnemonic::Bge),
        6 => Some(Mnemonic::Bltu),
        7 => Some(Mnemonic::Bgeu),
        _ => None,
    }
}

/// The load that `funct3` selects.
pub open spec fn load_mnemonic(funct3: u32) -> Option<Mnemonic> {
    match funct3 {
        0 => Some(Mnemonic::Lb),
        1 => Some(Mnemonic::Lh),
        2 => Some(Mnemonic::Lw),
        4 => Some(Mnemonic::Lbu),
        5 => Some(Mnemonic::Lhu),
        _ => None,
    }
}

/// The store that `funct3` selects.
pub open spec fn store_mnemonic(funct3: u32) -> Option<Mnemonic> {
    match funct3 {
        0 => Some(Mnemonic::Sb),
        1 => Some(Mnemonic::Sh),
        2 => Some(Mnemonic::Sw),
        _ => None,
    }
}

/// What a word decodes to: its mnemonic and its operands in assembly order.
pub open spec fn decode_of(w: u32) -> (Mnemonic, Seq<Operand>) {
    match opcode_of(w) {
        Opcode::LUI => (
            Mnemonic::Lui,
            seq![Operand::Reg(utype_of(w).rd), Operand::Imm(utype_of(w).imm)],
        ),
        Opcode::AUIPC => (
            Mnemonic::Auipc,
            seq![Operand::Reg(utype_of(w).rd), Operand::Imm(utype_of(w).imm)],
        ),
        Opcode::JAL => (
            Mnemonic::Jal,
            seq![Operand::Reg(jtype_of(w).rd), Operand::Imm(jtype_of(w).imm)],
        ),
        Opcode::JALR => {
            let i = itype_of(w);
            if i.rd == Register::Zero && i.rs1 == Register::Ra && i.imm == 0 {
                (Mnemonic::Ret, seq![])
            } else {
                (
                    Mnemonic::Jalr,
                    seq![Operand::Reg(i.rd), Operand::Reg(i.rs1), Operand::Imm(i.imm)],
                )
            }
        },
        Opcode::BXX => {
            let b = btype_of(w);
            match branch_mnemonic(b.funct3) {
                Some(m) => (
                    m,
                    seq![Operand::Reg(b.rs1), Operand::Reg(b.rs2), Operand::Imm(b.imm)],
                ),
                None => unsupported_of(w),
            }
        },
        Opcode::LX => {
            let i = itype_of(w);
            match load_mnemonic(i.funct3) {
                Some(m) => (m, seq![Operand::Reg(i.rd), Operand::Reg(i.rs1), Operand::Imm(i.imm)]),
                None => unsupported_of(w),
            }
        },
        Opcode::SX => {
            let s = stype_of(w);
            match store_mnemonic(s.funct3) {
                Some(m) => (m, seq![Operand::Reg(s.rs2), Operand::Reg(s.rs1), Operand::Imm(s.imm)]),
                None => unsupported_of(w),
            }
        },
        Opcode::MATHI => match imm_mnemonic(w) {
            Some(m) => (m, imm_operands(w)),
            None => unsupported_of(w),
        },
        Opcode::MATHX => {
            let r = rtype_of(w);
            match op_mnemonic(r) {
                Some(m) => (m, seq![Operand::Reg(r.rd), Operand::Reg(r.rs1), Operand::Reg(r.rs2)]),
                None => unsupported_of(w),
            }
        },
        Opcode::UNKNOWN => unsupported_of(w),
    }
}

/// `Unsupported` exactly for the placeholder mnemonic.
pub open spec fn status_of(m: Mnemonic) -> Status {
    if m == Mnemonic::Unsupported {
        Status::Unsupported
    } else {
        Status::Supported
    }
}


fn resolve_op(f: &RType) -> (r: Option<Mnemonic>)
    ensures
        r == op_mnemonic(*f),
{
    match MATHX_OPS::from_funct3(f.funct3) {
        Some(MATHX_OPS::add_sub) => if f.funct7 == 0 {
            Some(Mnemonic::Add)
        } else if f.funct7 == 0x20 {
            Some(Mnemonic::Sub)
        } else {
            None
        },
        Some(MATHX_OPS::srl_sra) => if f.funct7 == 0 {
            Some(Mnemonic::Srl)
        } else if f.funct7 == 0x20 {
            Some(Mnemonic::Sra)
        } else {
            None
        },
        Some(MATHX_OPS::sll) => Some(Mnemonic::Sll),
        Some(MATHX_OPS::slt) => Some(Mnemonic::Slt),
        Some(MATHX_OPS::sltu) => Some(Mnemonic::Sltu),
        Some(MATHX_OPS::xor) => Some(Mnemonic::Xor),
        Some(MATHX_OPS::or) => Some(Mnemonic::Or),
        Some(MATHX_OPS::and) => Some(Mnemonic::And),
        None => None,
    }
}

fn resolve_imm(w: u32) -> (r: Option<Mnemonic>)
    ensures
        r == imm_mnemonic(w),
{
    let disc = (w >> 25) & 0x7f;
    match MATHI_OPS::from_funct3((w >> 12) & 7) {
        Some(MATHI_OPS::slli) => if disc == 0 {
            Some(Mnemonic::Slli)
        } else {
            None
        },
        Some(MATHI_OPS::srli_srai) => if disc == 0 {
            Some(Mnemonic::Srli)
        } else if disc == 0x20 {
            Some(Mnemonic::Srai)
        } else {
            None
        },
        Some(MATHI_OPS::addi) => Some(Mnemonic::Addi),
        Some(MATHI_OPS::slti) => Some(Mnemonic::Slti),
        Some(MATHI_OPS::sltiu) => Some(Mnemonic::Sltiu),
        Some(MATHI_OPS::xori) => Some(Mnemonic::Xori),
        Some(MATHI_OPS::ori) => Some(Mnemonic::Ori),
        Some(MATHI_OPS::andi) => Some(Mnemonic::Andi),
        None => None,
    }
}

fn resolve_branch(funct3: u32) -> (r: Option<Mnemonic>)
    ensures
        r == branch_mnemonic(funct3),
{
    match funct3 {
        0 => Some(Mnemonic::Beq),
        1 => Some(Mnemonic::Bne),
        4 => Some(Mnemonic::Blt),
        5 => Some(Mnemonic::Bge),
        6 => Some(Mnemonic::Bltu),
        7 => Some(Mnemonic::Bgeu),
        _ => None,
    }
}

fn resolve_load(funct3: u32) -> (r: Option<Mnemonic>)
    ensures
        r == load_mnemonic(funct3),
{
    match funct3 {
        0 => Some(Mnemonic::Lb),
        1 => Some(Mnemonic::Lh),
        2 => Some(Mnemonic::Lw),
        4 => Some(Mnemonic::Lbu),
        5 => Some(Mnemonic::Lhu),
        _ => None,
    }
}

fn resolve_store(funct3: u32) -> (r: Option<Mnemonic>)
    ensures
        r == store_mnemonic(funct3),
{
    match funct3 {
        0 => Some(Mnemonic::Sb),
        1 => Some(Mnemonic::Sh),
        2 => Some(Mnemonic::Sw),
        _ => None,
    }
}

/// The mnemonic and operands of `ins`, without the address.
fn resolve(ins: u32) -> (r: (Mnemonic, Vec<Operand>))
    ensures
        r.0 == decode_of(ins).0,
        r.1@ == decode_of(ins).1,
{
    let placeholder = vec![
        Operand::Imm(((ins >> 12) & 7) as i32),
        Operand::Imm(((ins >> 25) & 0x7f) as i32),
    ];
    match Opcode::from(ins) {
        Opcode::LUI => {
            let u = UType::from(ins);
            (Mnemonic::Lui, vec![Operand::Reg(u.rd), Operand::Imm(u.imm)])
        },
        Opcode::AUIPC => {
            let u = UType::from(ins);
            (Mnemonic::Auipc, vec![Operand::Reg(u.rd), Operand::Imm(u.imm)])
        },
        Opcode::JAL => {
            let j = JType::from(ins);
            (Mnemonic::Jal, vec![Operand::Reg(j.rd), Operand::Imm(j.imm)])
        },
        Opcode::JALR => {
            let i = IType::from(ins);
            if i.rd == Register::Zero && i.rs1 == Register::Ra && i.imm == 0 {
                (Mnemonic::Ret, Vec::new())
            } else {
                (Mnemonic::Jalr, vec![Operand::Reg(i.rd), Operand::Reg(i.rs1), Operand::Imm(i.imm)])
            }
        },
        Opcode::BXX => {
            let b = BType::from(ins);
            match resolve_branch(b.funct3) {
                Some(m) => (m, vec![Operand::Reg(b.rs1), Operand::Reg(b.rs2), Operand::Imm(b.imm)]),
                None => (Mnemonic::Unsupported, placeholder),
            }
        },
        Opcode::LX => {
            let i = IType::from(ins);
            match resolve_load(i.funct3) {
                Some(m) => (m, vec![Operand::Reg(i.rd), Operand::Reg(i.rs1), Operand::Imm(i.imm)]),
                None => (Mnemonic::Unsupported, placeholder),
            }
        },
        Opcode::SX => {
            let s = SType::from(ins);
            match resolve_store(s.funct3) {
                Some(m) => (m, vec![Operand::Reg(s.rs2), Operand::Reg(s.rs1), Operand::Imm(s.imm)]),
                None => (Mnemonic::Unsupported, placeholder),
            }
        },
        Opcode::MATHI => match resolve_imm(ins) {
            Some(m) => {
                let i = IType::from(ins);
                let f3 = i.funct3;
                let amount = if f3 == 1 || f3 == 5 {
                    ((ins >> 20) & 0x1f) as i32
                } else {
                    i.imm
                };
                (m, vec![Operand::Reg(i.rd), Operand::Reg(i.rs1), Operand::Imm(amount)])
            },
            None => (Mnemonic::Unsupported, placeholder),
        },
        Opcode::MATHX => {
            let r = RType::from(ins);
            match resolve_op(&r) {
                Some(m) => (m, vec![Operand::Reg(r.rd), Operand::Reg(r.rs1), Operand::Reg(r.rs2)]),
                None => (Mnemonic::Unsupported, placeholder),
            }
        },
        Opcode::UNKNOWN => (Mnemonic::Unsupported, placeholder),
    }
}

/// Decodes the word `ins` found at address `i`. Every word decodes: one that selects no
/// operation of the subset gets the placeholder mnemonic and status `Unsupported`.
pub fn parse_ins(i: usize, ins: u32) -> (r: DecodedInstruction)
    ensures
        r.address == i,
        r.raw == ins,
        r.mnemonic == decode_of(ins).0,
        r.operands@ == decode_of(ins).1,
        r.status == status_of(r.mnemonic),
{
    let (mnemonic, operands) = resolve(ins);
    let status = if mnemonic == Mnemonic::Unsupported {
        Status::Unsupported
    } else {
        Status::Supported
    };
    DecodedInstruction { address: i, raw: ins, mnemonic, operands, status }
}

} // verus!
