use rvdisas::decode::{parse_ins, Mnemonic, Operand, Status};
use rvdisas::disas::{disassemble, parse_until_err, DisasError, Mode};
use rvdisas::ins::{
    BType, IType, JType, Opcode, RType, Register, SType, UType, MATHI_OPS, MATHX_OPS,
};
use rvdisas::render::{hex_string, operand_string, pad_text, render};

fn ops(d: &rvdisas::decode::DecodedInstruction) -> Vec<Operand> {
    d.operands.clone()
}

#[test]
fn add_sub_disambiguation() {
    let add = parse_ins(0, 0x0031_00b3);
    assert_eq!(add.mnemonic, Mnemonic::Add);
    assert_eq!(add.status, Status::Supported);
    assert_eq!(
        ops(&add),
        vec![Operand::Reg(Register::Ra), Operand::Reg(Register::Sp), Operand::Reg(Register::Gp)]
    );
    let sub = parse_ins(0, 0x4031_00b3);
    assert_eq!(sub.mnemonic, Mnemonic::Sub);
    assert_eq!(ops(&sub), ops(&add));
}

#[test]
fn shift_disambiguation() {
    let srli = parse_ins(0, 0x0033_5293);
    assert_eq!(srli.mnemonic, Mnemonic::Srli);
    assert_eq!(
        ops(&srli),
        vec![Operand::Reg(Register::T0), Operand::Reg(Register::T1), Operand::Imm(3)]
    );
    let srai = parse_ins(0, 0x4033_5293);
    assert_eq!(srai.mnemonic, Mnemonic::Srai);
    assert_eq!(ops(&srai), ops(&srli));
    // slli accepts only a zero discriminant
    let bad = parse_ins(0, 0x4033_1293);
    assert_eq!(bad.status, Status::Unsupported);
    assert_eq!(bad.mnemonic, Mnemonic::Unsupported);
    assert_eq!(ops(&bad), vec![Operand::Imm(1), Operand::Imm(0x20)]);
}

#[test]
fn return_idiom() {
    let ret = parse_ins(0, 0x0000_8067);
    assert_eq!(ret.mnemonic, Mnemonic::Ret);
    assert!(ret.operands.is_empty());
    assert_eq!(render(&ret, true), "   0:       8067        ret");

    let jalr = parse_ins(4, 0x0041_00e7);
    assert_eq!(jalr.mnemonic, Mnemonic::Jalr);
    assert_eq!(
        ops(&jalr),
        vec![Operand::Reg(Register::Ra), Operand::Reg(Register::Sp), Operand::Imm(4)]
    );
    assert_eq!(render(&jalr, true), "   4:     4100e7       jalr ra,sp,+0x4");

    // jalr zero, 0(ra) with a nonzero offset is no return
    let jump = parse_ins(0, 0x0040_8067);
    assert_eq!(jump.mnemonic, Mnemonic::Jalr);
}

#[test]
fn truncated_tail_is_skipped() {
    let buf: Vec<u8> = vec![0xb3, 0x00, 0x31, 0x00, 0xaa, 0xbb];
    let out = parse_until_err(&buf, 0);
    assert_eq!(out.len(), 1);
    assert_eq!(out[0].raw, 0x0031_00b3);
    assert_eq!(out[0].address, 0);
    assert_eq!(out[0].mnemonic, Mnemonic::Add);
}

#[test]
fn stream_addresses_follow_base() {
    let buf: Vec<u8> = vec![0x67, 0x80, 0x00, 0x00, 0x93, 0x00, 0xf0, 0xff];
    let out = parse_until_err(&buf, 0x100);
    assert_eq!(out.len(), 2);
    assert_eq!(out[0].address, 0x100);
    assert_eq!(out[1].address, 0x104);
    assert_eq!(out[1].raw, 0xfff0_0093);
    assert!(parse_until_err(&[1, 2, 3], 0).is_empty());
}

#[test]
fn immediate_sign_extension() {
    let i = IType::from(0xfff0_0093);
    assert_eq!(i.imm, -1);
    assert_eq!(i.rd, Register::Ra);
    assert_eq!(i.rs1, Register::Zero);
    let d = parse_ins(0x10, 0xfff0_0093);
    assert_eq!(d.mnemonic, Mnemonic::Addi);
    assert_eq!(
        ops(&d),
        vec![Operand::Reg(Register::Ra), Operand::Reg(Register::Zero), Operand::Imm(-1)]
    );
    assert_eq!(render(&d, true), "  10:   fff00093       addi ra,zero,-0x1");
    assert_eq!(IType::from(0x7ff0_0093).imm, 2047);
}

#[test]
fn field_shapes() {
    let r = RType::from(0x4031_00b3);
    assert_eq!(r.funct7, 0x20);
    assert_eq!(r.funct3, 0);
    assert_eq!(r.rs2, Register::Gp);
    let s = SType::from(0x0020_a623);
    assert_eq!((s.funct3, s.rs1, s.rs2, s.imm), (2, Register::Ra, Register::Sp, 12));
    assert_eq!(SType::from(0xfe31_0fa3).imm, -1);
    let b = BType::from(0xfe20_8ce3);
    assert_eq!((b.funct3, b.rs1, b.rs2, b.imm), (0, Register::Ra, Register::Sp, -8));
    let u = UType::from(0x1234_52b7);
    assert_eq!((u.rd, u.imm), (Register::T0, 0x1234_5000));
    let j = JType::from(0x0010_00ef);
    assert_eq!((j.rd, j.imm), (Register::Ra, 2048));
    assert_eq!(JType::from(0xffdf_f06f).imm, -4);
}

#[test]
fn every_family_decodes() {
    assert_eq!(parse_ins(0, 0x1234_52b7).mnemonic, Mnemonic::Lui);
    assert_eq!(parse_ins(0, 0x1234_5297).mnemonic, Mnemonic::Auipc);
    let jal = parse_ins(0, 0xffdf_f06f);
    assert_eq!(jal.mnemonic, Mnemonic::Jal);
    assert_eq!(ops(&jal), vec![Operand::Reg(Register::Zero), Operand::Imm(-4)]);
    let beq = parse_ins(0, 0xfe20_8ce3);
    assert_eq!(beq.mnemonic, Mnemonic::Beq);
    assert_eq!(
        ops(&beq),
        vec![Operand::Reg(Register::Ra), Operand::Reg(Register::Sp), Operand::Imm(-8)]
    );
    let sw = parse_ins(0, 0x0020_a623);
    assert_eq!(sw.mnemonic, Mnemonic::Sw);
    assert_eq!(
        ops(&sw),
        vec![Operand::Reg(Register::Sp), Operand::Reg(Register::Ra), Operand::Imm(12)]
    );
    let lw = parse_ins(0, 0x00c1_2083);
    assert_eq!(lw.mnemonic, Mnemonic::Lw);
    assert_eq!(
        ops(&lw),
        vec![Operand::Reg(Register::Ra), Operand::Reg(Register::Sp), Operand::Imm(12)]
    );
}

#[test]
fn unsupported_words_do_not_stop_decoding() {
    // funct7 = 1 on add is outside the subset
    let mul = parse_ins(0, 0x0231_00b3);
    assert_eq!(mul.status, Status::Unsupported);
    assert_eq!(ops(&mul), vec![Operand::Imm(0), Operand::Imm(1)]);
    // no family has opcode bits 0x7f
    let unknown = parse_ins(0, 0x0000_007f);
    assert_eq!(unknown.status, Status::Unsupported);
    assert_eq!(render(&unknown, true), "   0:         7f    invalid +0x0,+0x0");
    // a load with funct3 = 3 and a branch with funct3 = 2
    assert_eq!(parse_ins(0, 0x0000_3003).status, Status::Unsupported);
    assert_eq!(parse_ins(0, 0x0000_2063).status, Status::Unsupported);
    assert_eq!(parse_ins(0, 0x0000_3023).status, Status::Unsupported);
}

#[test]
fn zero_immediates_are_optional() {
    let d = parse_ins(0, 0x0001_0093);
    assert_eq!(render(&d, true), "   0:      10093       addi ra,sp");
    assert_eq!(render(&d, false), "   0:      10093       addi ra,sp,+0x0");
}

#[test]
fn classifier_and_tables() {
    assert_eq!(Opcode::from(0x37), Opcode::LUI);
    assert_eq!(Opcode::from(0x17), Opcode::AUIPC);
    assert_eq!(Opcode::from(0x6f), Opcode::JAL);
    assert_eq!(Opcode::from(0x67), Opcode::JALR);
    assert_eq!(Opcode::from(0x63), Opcode::BXX);
    assert_eq!(Opcode::from(0x03), Opcode::LX);
    assert_eq!(Opcode::from(0x23), Opcode::SX);
    assert_eq!(Opcode::from(0xffff_ff93), Opcode::MATHI);
    assert_eq!(Opcode::from(0x33), Opcode::MATHX);
    assert_eq!(Opcode::from(0x7f), Opcode::UNKNOWN);
    assert_eq!(Register::from_index(0), Register::Zero);
    assert_eq!(Register::from_index(31), Register::T6);
    assert_eq!(Register::from_index(8).name(), "s0");
    assert_eq!(MATHX_OPS::from_funct3(5), Some(MATHX_OPS::srl_sra));
    assert_eq!(MATHX_OPS::from_funct3(8), None);
    assert_eq!(MATHI_OPS::from_funct3(1), Some(MATHI_OPS::slli));
    assert_eq!(MATHI_OPS::from_funct3(9), None);
    assert_eq!(Mnemonic::Sltiu.text(), "sltiu");
}

#[test]
fn text_helpers() {
    assert_eq!(hex_string(0), "0");
    assert_eq!(hex_string(0xdead_beef), "deadbeef");
    assert_eq!(pad_text(String::from("ab"), 4), "  ab");
    assert_eq!(pad_text(String::from("abcdef"), 4), "abcdef");
    assert_eq!(operand_string(&Operand::Imm(-0x800)), "-0x800");
    assert_eq!(operand_string(&Operand::Imm(i32::MIN)), "-0x80000000");
    assert_eq!(operand_string(&Operand::Reg(Register::A7)), "a7");
}

#[test]
fn disassemble_modes() {
    let buf: Vec<u8> = vec![0x67, 0x80, 0x00, 0x00, 0x93, 0x00, 0xf0, 0xff, 0x01];
    let lines = disassemble(&buf, Mode::Raw).unwrap();
    assert_eq!(
        lines,
        vec![
            "   0:       8067        ret".to_string(),
            "   4:   fff00093       addi ra,zero,-0x1".to_string(),
        ]
    );
    assert_eq!(disassemble(&buf, Mode::ELF), Err(DisasError::ContainerUnsupported));
}
