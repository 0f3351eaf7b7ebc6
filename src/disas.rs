//! The instruction stream over a byte buffer, and the whole-buffer disassembly.
use vstd::prelude::*;
use crate::decode::{decode_of, parse_ins, status_of, DecodedInstruction};
use crate::render::{render, word_line};

verus! {

/// Where the code bytes come from.
#[derive(PartialEq, Eq, Structural, Clone, Copy, Debug)]
pub enum Mode {
    /// The whole buffer is code, starting at its first byte.
    Raw,
    /// The buffer is an ELF container whose code sections hold the code.
    ELF,
}

/// Why a buffer could not be disassembled.
#[derive(PartialEq, Eq, Structural, Clone, Copy, Debug)]
pub enum DisasError {
    /// Extracting code from an ELF container is not supported.
    ContainerUnsupported,
}

/// The little-endian word in bytes `k .. k + 4` of `b`.
pub open spec fn le_word(b: Seq<u8>, k: int) -> u32 {
    (b[k] as int + b[k + 1] as int * 0x100 + b[k + 2] as int * 0x1_0000 + b[k + 3] as int
        * 0x100_0000) as u32
}

/// `d` is the record of the word `w` decoded at `address`.
pub open spec fn decoded_at(d: DecodedInstruction, address: int, w: u32) -> bool {
    &&& d.address == address
    &&& d.raw == w
    &&& d.mnemonic == decode_of(w).0
    &&& d.operands@ == decode_of(w).1
    &&& d.status == status_of(d.mnemonic)
}

/// Decodes every whole four-byte word of `buf`, in order, the word at offset `o` with
/// address `base + o`. Trailing bytes that do not fill a word are left out.
pub fn parse_until_err(buf: &[u8], base: usize) -> (r: Vec<DecodedInstruction>)
    requires
        base + buf@.len() <= usize::MAX,
    ensures
        r@.len() == buf@.len() / 4,
        forall|k: int|
            0 <= k < r@.len() ==> #[trigger] decoded_at(r@[k], base + 4 * k, le_word(buf@, 4 * k)),
{
    let len = buf.len();
    let mut out: Vec<DecodedInstruction> = Vec::new();
    let mut i: usize = 0;
    while len - i >= 4
        invariant
            len == buf@.len(),
            base + len <= usize::MAX,
            i <= len,
            i == 4 * out@.len(),
            forall|k: int|
                0 <= k < out@.len() ==> #[trigger] decoded_at(
                    out@[k],
                    base + 4 * k,
                    le_word(buf@, 4 * k),
                ),
        decreases len - i,
    {
        let w: u32 = buf[i] as u32 + (buf[i + 1] as u32) * 0x100 + (buf[i + 2] as u32) * 0x1_0000
            + (buf[i + 3] as u32) * 0x100_0000;
        let d = parse_ins(base + i, w);
        out.push(d);
        i = i + 4;
    }
    let n = out.len();
    assert(n == len / 4) by (nonlinear_arith)
        requires
            i == 4 * n,
            i <= len,
            len - i < 4,
    ;
    out
}

/// Disassembles `buf` into one text line per whole word, zero immediates omitted. Only
/// raw mode can produce code; an ELF container is refused.
pub fn disassemble(buf: &[u8], mode: Mode) -> (r: Result<Vec<String>, DisasError>)
    ensures
        mode == Mode::ELF ==> r == Err::<Vec<String>, DisasError>(DisasError::ContainerUnsupported),
        mode == Mode::Raw ==> r is Ok,
        r is Ok ==> r->Ok_0@.len() == buf@.len() / 4 && forall|k: int|
            0 <= k < r->Ok_0@.len() ==> (#[trigger] r->Ok_0@[k])@ == word_line(
                4 * k as nat,
                le_word(buf@, 4 * k),
                true,
            ),
{
    if mode == Mode::ELF {
        return Err(DisasError::ContainerUnsupported);
    }
    let n: usize = buf.len();
    assert(n == buf@.len());
    let decoded = parse_until_err(buf, 0);
    assert forall|k: int| 0 <= k < decoded@.len() implies #[trigger] decoded_at(
        decoded@[k],
        4 * k,
        le_word(buf@, 4 * k),
    ) by {
        assert(decoded_at(decoded@[k], 0 + 4 * k, le_word(buf@, 4 * k)));
    }
    let mut lines: Vec<String> = Vec::new();
    let mut j: usize = 0;
    while j < decoded.len()
        invariant
            j <= decoded@.len(),
            decoded@.len() == buf@.len() / 4,
            lines@.len() == j,
            forall|k: int|
                0 <= k < decoded@.len() ==> #[trigger] decoded_at(
                    decoded@[k],
                    4 * k,
                    le_word(buf@, 4 * k),
                ),
            forall|k: int|
                0 <= k < j ==> (#[trigger] lines@[k])@ == word_line(
                    4 * k as nat,
                    le_word(buf@, 4 * k),
                    true,
                ),
        decreases decoded@.len() - j,
    {
        assert(decoded_at(decoded@[j as int], 4 * j, le_word(buf@, 4 * j)));
        let line = render(&decoded[j], true);
        lines.push(line);
        j = j + 1;
    }
    Ok(lines)
}

} // verus!
