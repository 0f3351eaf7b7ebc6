//! Text lines for decoded words: address, raw word, mnemonic and operands in fixed columns.
use vstd::prelude::*;
use crate::ins::{itype_of, opcode_of, Opcode, Register};
use crate::decode::{decode_of, mnemonic_text, status_of, DecodedInstruction, Mnemonic, Operand, Status};

verus! {

/// The lower-case hexadecimal digit for `d < 16`.
pub open spec fn hex_digit_text(d: nat) -> Seq<char> {
    if d == 0 {
        "0"@
    } else if d == 1 {
        "1"@
    } else if d == 2 {
        "2"@
    } else if d == 3 {
        "3"@
    } else if d == 4 {
        "4"@
    } else if d == 5 {
        "5"@
    } else if d == 6 {
        "6"@
    } else if d == 7 {
        "7"@
    } else if d == 8 {
        "8"@
    } else if d == 9 {
        "9"@
    } else if d == 10 {
        "a"@
    } else if d == 11 {
        "b"@
    } else if d == 12 {
        "c"@
    } else if d == 13 {
        "d"@
    } else if d == 14 {
        "e"@
    } else {
        "f"@
    }
}

/// `n` in lower-case hexadecimal, without prefix or leading zeros.
pub open spec fn hex_of(n: nat) -> Seq<char>
    decreases n,
{
    if n < 16 {
        hex_digit_text(n)
    } else {
        hex_of(n / 16) + hex_digit_text(n % 16)
    }
}

/// `n` blanks.
pub open spec fn spaces(n: nat) -> Seq<char>
    decreases n,
{
    if n == 0 {
        Seq::empty()
    } else {
        spaces((n - 1) as nat) + " "@
    }
}

/// `s` right-aligned in a column of `width` characters.
pub open spec fn pad_left(s: Seq<char>, width: nat) -> Seq<char> {
    if s.len() >= width {
        s
    } else {
        spaces((width - s.len()) as nat) + s
    }
}

/// A register by its ABI name; an immediate in hexadecimal with its sign.
pub open spec fn operand_text(op: Operand) -> Seq<char> {
    match op {
        Operand::Reg(r) => r.spec_name(),
        Operand::Imm(v) => if v < 0 {
            "-0x"@ + hex_of((-v) as nat)
        } else {
            "+0x"@ + hex_of(v as nat)
        },
    }
}

/// Whether `op` is left out of a line: an immediate of value zero, when zeros are omitted.
pub open spec fn hidden(op: Operand, omit_zero: bool) -> bool {
    omit_zero && op == Operand::Imm(0)
}

/// Whether any operand of `ops` is shown.
pub open spec fn any_shown(ops: Seq<Operand>, omit_zero: bool) -> bool
    decreases ops.len(),
{
    if ops.len() == 0 {
        false
    } else {
        any_shown(ops.drop_last(), omit_zero) || !hidden(ops.last(), omit_zero)
    }
}

/// The shown operands of `ops`, in order, separated by commas.
pub open spec fn operands_text(ops: Seq<Operand>, omit_zero: bool) -> Seq<char>
    decreases ops.len(),
{
    if ops.len() == 0 {
        Seq::empty()
    } else {
        let prev = operands_text(ops.drop_last(), omit_zero);
        if hidden(ops.last(), omit_zero) {
            prev
        } else if any_shown(ops.drop_last(), omit_zero) {
            prev + ","@ + operand_text(ops.last())
        } else {
            operand_text(ops.last())
        }
    }
}

/// The line for a record: the address right-aligned in four columns, the raw word in eight,
/// the mnemonic in eight, then the operand list after one blank if any operand is shown.
/// Zero immediates are omitted when `omit_zero` holds and the word is supported; the
/// placeholder fields of an unsupported word are always shown.
pub open spec fn line_text(
    address: nat,
    raw: u32,
    m: Mnemonic,
    ops: Seq<Operand>,
    status: Status,
    omit_zero: bool,
) -> Seq<char> {
    let head = pad_left(hex_of(address), 4) + ":   "@ + pad_left(hex_of(raw as nat), 8) + "   "@
        + pad_left(mnemonic_text(m), 8);
    let omit = omit_zero && status == Status::Supported;
    if any_shown(ops, omit) {
        head + " "@ + operands_text(ops, omit)
    } else {
        head
    }
}

/// The line of a decoded record.
pub open spec fn line_of(d: DecodedInstruction, omit_zero: bool) -> Seq<char> {
    line_text(d.address as nat, d.raw, d.mnemonic, d.operands@, d.status, omit_zero)
}

/// The line of the word `w` decoded at `address`.
pub open spec fn word_line(address: nat, w: u32, omit_zero: bool) -> Seq<char> {
    line_text(address, w, decode_of(w).0, decode_of(w).1, status_of(decode_of(w).0), omit_zero)
}

/// The return idiom (`jalr` that links nothing, jumps through `ra` with offset zero)
/// renders as `ret` with no operand list; any other indirect jump renders as `jalr` with
/// `rd`, `rs1` and, unless omitted as zero, the offset.
pub proof fn lemma_jalr_line(address: nat, w: u32, omit_zero: bool)
    requires
        opcode_of(w) == Opcode::JALR,
    ensures
        ({
            let i = itype_of(w);
            let head = pad_left(hex_of(address), 4) + ":   "@ + pad_left(hex_of(w as nat), 8)
                + "   "@;
            &&& (i.rd == Register::Zero && i.rs1 == Register::Ra && i.imm == 0) ==> word_line(
                address,
                w,
                omit_zero,
            ) == head + pad_left("ret"@, 8)
            &&& !(i.rd == Register::Zero && i.rs1 == Register::Ra && i.imm == 0) ==> word_line(
                address,
                w,
                omit_zero,
            ) == head + pad_left("jalr"@, 8) + " "@ + operands_text(
                seq![Operand::Reg(i.rd), Operand::Reg(i.rs1), Operand::Imm(i.imm)],
                omit_zero,
            )
        }),
{
    let i = itype_of(w);
    let ops = seq![Operand::Reg(i.rd), Operand::Reg(i.rs1), Operand::Imm(i.imm)];
    assert(ops.drop_last().drop_last().drop_last() =~= Seq::<Operand>::empty());
    assert(any_shown(ops.drop_last().drop_last(), omit_zero));
    assert(any_shown(ops.drop_last(), omit_zero));
    assert(any_shown(ops, omit_zero));
}

fn hex_digit(d: usize) -> (r: &'static str)
    requires
        d < 16,
    ensures
        r@ == hex_digit_text(d as nat),
{
    match d {
        0 => "0",
        1 => "1",
        2 => "2",
        3 => "3",
        4 => "4",
        5 => "5",
        6 => "6",
        7 => "7",
        8 => "8",
        9 => "9",
        10 => "a",
        11 => "b",
        12 => "c",
        13 => "d",
        14 => "e",
        _ => "f",
    }
}

/// `n` in lower-case hexadecimal.
pub fn hex_string(n: usize) -> (r: String)
    ensures
        r@ == hex_of(n as nat),
    decreases n,
{
    let d = hex_digit(n % 16);
    if n < 16 {
        String::from_str(d)
    } else {
        let mut s = hex_string(n / 16);
        s.append(d);
        s
    }
}

/// `s` right-aligned in a column of `width` characters.
pub fn pad_text(s: String, width: usize) -> (r: String)
    ensures
        r@ == pad_left(s@, width as nat),
{
    let len = s.as_str().unicode_len();
    if len >= width {
        return s;
    }
    let mut out = String::new();
    let mut k: usize = 0;
    while k < width - len
        invariant
            len < width,
            k <= width - len,
            out@ == spaces(k as nat),
        decreases width - len - k,
    {
        out.append(" ");
        k = k + 1;
    }
    out.append(s.as_str());
    out
}

/// The text of one operand: an ABI register name, or a signed hexadecimal immediate.
pub fn operand_string(op: &Operand) -> (r: String)
    ensures
        r@ == operand_text(*op),
{
    match op {
        Operand::Reg(reg) => String::from_str(reg.name()),
        Operand::Imm(v) => {
            let mut s = if *v < 0 {
                String::from_str("-0x")
            } else {
                String::from_str("+0x")
            };
            let magnitude: usize = if *v < 0 {
                (-(*v as i64)) as usize
            } else {
                *v as usize
            };
            let digits = hex_string(magnitude);
            s.append(digits.as_str());
            s
        },
    }
}

/// Renders `d` as one text line; see `line_of` for the layout.
pub fn render(d: &DecodedInstruction, omit_zero: bool) -> (r: String)
    ensures
        r@ == line_of(*d, omit_zero),
{
    let omit = omit_zero && d.status == Status::Supported;
    let mut line = pad_text(hex_string(d.address), 4);
    line.append(":   ");
    let raw = pad_text(hex_string(d.raw as usize), 8);
    line.append(raw.as_str());
    line.append("   ");
    let name = pad_text(String::from_str(d.mnemonic.text()), 8);
    line.append(name.as_str());
    let mut list = String::new();
    let mut shown = false;
    let mut i: usize = 0;
    while i < d.operands.len()
        invariant
            i <= d.operands@.len(),
            shown == any_shown(d.operands@.subrange(0, i as int), omit),
            list@ == operands_text(d.operands@.subrange(0, i as int), omit),
            !shown ==> list@ == Seq::<char>::empty(),
        decreases d.operands@.len() - i,
    {
        let ghost prefix = d.operands@.subrange(0, i as int);
        let ghost next = d.operands@.subrange(0, i + 1);
        assert(next.drop_last() =~= prefix);
        assert(next.last() == d.operands@[i as int]);
        let op = &d.operands[i];
        let hide = omit && *op == Operand::Imm(0);
        if !hide {
            if shown {
                list.append(",");
            }
            let text = operand_string(op);
            list.append(text.as_str());
            shown = true;
        }
        i = i + 1;
    }
    assert(d.operands@.subrange(0, d.operands@.len() as int) =~= d.operands@);
    if shown {
        line.append(" ");
        line.append(list.as_str());
    }
    line
}

} // verus!
