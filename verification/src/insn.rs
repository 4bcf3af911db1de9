//! Instruction words: classification and decoding.
//!
//! A decoded instruction pairs an opcode (one of three families, with
//! that family's sub-fields) with an operand shape (one of seven fixed
//! field layouts). Both are read out of a 32-bit word; a short (2-byte)
//! instruction is widened beforehand by duplicating its halfword into
//! the upper half, so the same bit positions apply to both widths.

use crate::bits::{extract_bits, extract_unsigned_bits, spec_extract_signed, spec_extract_unsigned};
use vstd::prelude::*;

verus! {

/// Arithmetic-logic operation, bits `[2, 6)` of the opcode field.
#[derive(Debug, Clone, Copy, PartialEq, Eq, Structural)]
pub enum AluOp {
    Add,
    Sub,
    Sl,
    Sr,
    Lsl,
    Lsr,
    Or,
    Eor,
    And,
    Nor,
    Enor,
    Nand,
}

/// Move/branch condition, bits `[2, 5)` of the opcode field.
#[derive(Debug, Clone, Copy, PartialEq, Eq, Structural)]
pub enum MovCond {
    Lt,
    Slt,
    Ge,
    Sge,
    Eq,
    Neq,
    Bs,
    Al,
}

/// Move-family operation, bits `[0, 2)` of the opcode field.
#[derive(Debug, Clone, Copy, PartialEq, Eq, Structural)]
pub enum MovOp {
    Mimm,
    Jump,
    Mrs,
    Mro,
}

/// Arithmetic-logic operand style, bits `[0, 2)` of the opcode field.
#[derive(Debug, Clone, Copy, PartialEq, Eq, Structural)]
pub enum AluSty {
    Reg,
    Imm,
    RegSl,
    RegSr,
}

/// Load/store destination treatment, bits `[1, 3)` of the opcode field.
#[derive(Debug, Clone, Copy, PartialEq, Eq, Structural)]
pub enum LoadStoreDest {
    Zext,
    Sext,
    LowW,
    HighW,
}

/// Load/store addressing mode, bit 0 of the opcode field.
#[derive(Debug, Clone, Copy, PartialEq, Eq, Structural)]
pub enum LoadStoreMode {
    Generic,
    Simple,
}

/// Load/store transfer size, bit 3 of the opcode field.
#[derive(Debug, Clone, Copy, PartialEq, Eq, Structural)]
pub enum LoadStoreSize {
    Byte,
    Halfword,
}

/// Load/store direction, bit 4 of the opcode field.
#[derive(Debug, Clone, Copy, PartialEq, Eq, Structural)]
pub enum LoadStoreKind {
    Load,
    Store,
}

/// A classified opcode: the instruction family and its sub-fields.
#[derive(Debug, Clone, Copy, PartialEq, Eq, Structural)]
pub enum InsnOpcode {
    Mov { op: MovOp, condition: MovCond },
    Alu { style: AluSty, op: AluOp },
    LoadStore { kind: LoadStoreKind, size: LoadStoreSize, dest: LoadStoreDest, mode: LoadStoreMode },
}

/// An operand shape: which fields the word carries and where.
#[derive(Debug, Clone, Copy, PartialEq, Eq, Structural)]
pub enum InsnContent {
    Short { rd: u8, ro: u8 },
    Tiny { rd: u8, imm: i8 },
    Long { rd: u8, imm: i16, rs: u8, ro: u8 },
    Big { rd: u8, imm: i32 },
    Med { rd: u8, imm: i32, ro: u8 },
    Msm { rd: u8, imm: i32, ff: u8, ro: u8 },
    Sm { rd: u8, imm: i16, ff: u8, rs: u8, ro: u8 },
}

/// A fully decoded instruction.
#[derive(Debug, Clone, Copy, PartialEq, Eq, Structural)]
pub struct Insn {
    pub content: InsnContent,
    pub opcode: InsnOpcode,
}

/// The arithmetic-logic operation a 4-bit field value selects, if any.
pub open spec fn spec_alu_op(v: u32) -> Option<AluOp> {
    if v == 0 {
        Some(AluOp::Add)
    } else if v == 1 {
        Some(AluOp::Sub)
    } else if v == 2 {
        Some(AluOp::Sl)
    } else if v == 3 {
        Some(AluOp::Sr)
    } else if v == 4 {
        Some(AluOp::Lsl)
    } else if v == 5 {
        Some(AluOp::Lsr)
    } else if v == 8 {
        Some(AluOp::Or)
    } else if v == 9 {
        Some(AluOp::Eor)
    } else if v == 10 {
        Some(AluOp::And)
    } else if v == 12 {
        Some(AluOp::Nor)
    } else if v == 13 {
        Some(AluOp::Enor)
    } else if v == 14 {
        Some(AluOp::Nand)
    } else {
        None
    }
}

/// The move condition a 3-bit field value selects.
pub open spec fn spec_mov_cond(v: u32) -> MovCond
    recommends
        v < 8,
{
    if v == 0 {
        MovCond::Lt
    } else if v == 1 {
        MovCond::Slt
    } else if v == 2 {
        MovCond::Ge
    } else if v == 3 {
        MovCond::Sge
    } else if v == 4 {
        MovCond::Eq
    } else if v == 5 {
        MovCond::Neq
    } else if v == 6 {
        MovCond::Bs
    } else {
        MovCond::Al
    }
}

/// The move operation a 2-bit field value selects.
pub open spec fn spec_mov_op(v: u32) -> MovOp
    recommends
        v < 4,
{
    if v == 0 {
        MovOp::Mimm
    } else if v == 1 {
        MovOp::Jump
    } else if v == 2 {
        MovOp::Mrs
    } else {
        MovOp::Mro
    }
}

/// The arithmetic-logic operand style a 2-bit field value selects.
pub open spec fn spec_alu_sty(v: u32) -> AluSty
    recommends
        v < 4,
{
    if v == 0 {
        AluSty::Reg
    } else if v == 1 {
        AluSty::Imm
    } else if v == 2 {
        AluSty::RegSl
    } else {
        AluSty::RegSr
    }
}

/// The destination treatment a 2-bit field value selects.
pub open spec fn spec_ls_dest(v: u32) -> LoadStoreDest
    recommends
        v < 4,
{
    if v == 0 {
        LoadStoreDest::Zext
    } else if v == 1 {
        LoadStoreDest::Sext
    } else if v == 2 {
        LoadStoreDest::LowW
    } else {
        LoadStoreDest::HighW
    }
}

/// The addressing mode a 1-bit field value selects.
pub open spec fn spec_ls_mode(v: u32) -> LoadStoreMode
    recommends
        v < 2,
{
    if v == 0 {
        LoadStoreMode::Generic
    } else {
        LoadStoreMode::Simple
    }
}

/// The transfer size a 1-bit field value selects.
pub open spec fn spec_ls_size(v: u32) -> LoadStoreSize
    recommends
        v < 2,
{
    if v == 0 {
        LoadStoreSize::Byte
    } else {
        LoadStoreSize::Halfword
    }
}

/// The transfer direction a 1-bit field value selects.
pub open spec fn spec_ls_kind(v: u32) -> LoadStoreKind
    recommends
        v < 2,
{
    if v == 0 {
        LoadStoreKind::Load
    } else {
        LoadStoreKind::Store
    }
}

/// Whether the word's length flag (bit 7 of the first byte) marks it as
/// a 4-byte instruction.
pub open spec fn spec_is_long(data: u32) -> bool {
    data & 0x80u32 != 0
}

/// Classifies a 7-bit opcode field value. Bits 5 and 6 pick the
/// family; the remaining bits pick that family's sub-fields. Only the
/// arithmetic-logic operation field has undefined values; every other
/// sub-field is total over its width.
pub open spec fn spec_opcode_of_raw(raw: u32) -> Option<InsnOpcode> {
    let family = (raw & 0x60u32) >> 5u32;
    if family == 0 {
        Some(
            InsnOpcode::LoadStore {
                kind: spec_ls_kind(spec_extract_unsigned(raw, 4, 5)),
                mode: spec_ls_mode(spec_extract_unsigned(raw, 0, 1)),
                dest: spec_ls_dest(spec_extract_unsigned(raw, 1, 3)),
                size: spec_ls_size(spec_extract_unsigned(raw, 3, 4)),
            },
        )
    } else if family == 1 {
        Some(
            InsnOpcode::Mov {
                op: spec_mov_op(spec_extract_unsigned(raw, 0, 2)),
                condition: spec_mov_cond(spec_extract_unsigned(raw, 2, 5)),
            },
        )
    } else {
        match spec_alu_op(spec_extract_unsigned(raw, 2, 6)) {
            Some(op) => Some(
                InsnOpcode::Alu { style: spec_alu_sty(spec_extract_unsigned(raw, 0, 2)), op },
            ),
            None => None,
        }
    }
}

/// Classifies the low 7 opcode bits of a word.
pub open spec fn spec_opcode_of(data: u32) -> Option<InsnOpcode> {
    spec_opcode_of_raw(spec_extract_unsigned(data, 0, 7))
}

/// The operand shape a classified word decodes to, with its fields read
/// from the layout's fixed bit positions. First match wins: the special
/// immediate layouts take precedence over the generic ones.
pub open spec fn spec_content_of(data: u32, opcode: InsnOpcode) -> InsnContent {
    let rd = spec_extract_unsigned(data, 28, 32) as u8;
    if !spec_is_long(data) {
        if (opcode matches InsnOpcode::Alu { style: AluSty::Imm, .. }) || (opcode
            matches InsnOpcode::Mov { op: MovOp::Mimm, condition: MovCond::Al }) {
            InsnContent::Tiny { rd, imm: spec_extract_signed(data, 8, 12) as i8 }
        } else {
            InsnContent::Short { rd, ro: spec_extract_unsigned(data, 8, 12) as u8 }
        }
    } else {
        if opcode matches InsnOpcode::Mov { op: MovOp::Mimm, condition: MovCond::Al } {
            InsnContent::Big { rd, imm: spec_extract_signed(data, 8, 28) }
        } else if opcode matches InsnOpcode::Alu { style: AluSty::Imm, .. } {
            InsnContent::Med {
                rd,
                imm: spec_extract_signed(data, 12, 28),
                ro: spec_extract_unsigned(data, 8, 12) as u8,
            }
        } else if (opcode matches InsnOpcode::Alu { style: AluSty::Reg, .. }) || (opcode
            matches InsnOpcode::Mov { op: MovOp::Mimm, .. }) {
            InsnContent::Long {
                rd,
                imm: spec_extract_signed(data, 16, 28) as i16,
                rs: spec_extract_unsigned(data, 12, 16) as u8,
                ro: spec_extract_unsigned(data, 8, 12) as u8,
            }
        } else if opcode matches InsnOpcode::LoadStore { mode: LoadStoreMode::Simple, .. } {
            InsnContent::Msm {
                rd,
                imm: spec_extract_signed(data, 14, 28),
                ff: spec_extract_unsigned(data, 12, 14) as u8,
                ro: spec_extract_unsigned(data, 8, 12) as u8,
            }
        } else {
            InsnContent::Sm {
                rd,
                imm: spec_extract_signed(data, 18, 28) as i16,
                rs: spec_extract_unsigned(data, 12, 16) as u8,
                ro: spec_extract_unsigned(data, 8, 12) as u8,
                ff: spec_extract_unsigned(data, 16, 18) as u8,
            }
        }
    }
}

/// The instruction a (widened) word decodes to, or `None` when a
/// sub-field of the opcode has no defined meaning.
pub open spec fn spec_from_word(data: u32) -> Option<Insn> {
    match spec_opcode_of(data) {
        Some(opcode) => Some(Insn { content: spec_content_of(data, opcode), opcode }),
        None => None,
    }
}

impl InsnContent {
    /// Every field sits inside its layout's bit width: register indices
    /// are 4 bits, the selector 2 bits, and each immediate within the
    /// signed range of its width.
    pub open spec fn wf(self) -> bool {
        match self {
            InsnContent::Short { rd, ro } => rd < 16 && ro < 16,
            InsnContent::Tiny { rd, imm } => rd < 16 && -8 <= imm <= 7,
            InsnContent::Long { rd, imm, rs, ro } => rd < 16 && rs < 16 && ro < 16 && -2048 <= imm
                <= 2047,
            InsnContent::Big { rd, imm } => rd < 16 && -0x8_0000 <= imm <= 0x7_ffff,
            InsnContent::Med { rd, imm, ro } => rd < 16 && ro < 16 && -0x8000 <= imm <= 0x7fff,
            InsnContent::Msm { rd, imm, ff, ro } => rd < 16 && ro < 16 && ff < 4 && -0x2000 <= imm
                <= 0x1fff,
            InsnContent::Sm { rd, imm, ff, rs, ro } => rd < 16 && rs < 16 && ro < 16 && ff < 4
                && -512 <= imm <= 511,
        }
    }
}

impl Insn {
    /// Field-range invariant of a decoded instruction (see
    /// [`InsnContent::wf`]).
    pub open spec fn wf(self) -> bool {
        self.content.wf()
    }

    /// The encoded width in bytes: 2 for the short layouts, 4 for the
    /// long ones.
    pub open spec fn spec_length(self) -> usize {
        match self.content {
            InsnContent::Tiny { .. } | InsnContent::Short { .. } => 2,
            _ => 4,
        }
    }

    /// The number of bytes this instruction occupied in the stream.
    pub fn length(&self) -> (r: usize)
        ensures
            r == self.spec_length(),
    {
        match &self.content {
            InsnContent::Tiny { .. } | InsnContent::Short { .. } => 2,
            _ => 4,
        }
    }
}

/// Every instruction a word decodes to satisfies the field-range
/// invariant: each field is cut from a bit range no wider than its type
/// allows.
pub proof fn lemma_from_word_wf(data: u32)
    ensures
        spec_from_word(data) is Some ==> spec_from_word(data).unwrap().wf(),
{
    if spec_from_word(data) is Some {
        assert(spec_extract_unsigned(data, 28, 32) < 16) by (bit_vector);
        assert(spec_extract_unsigned(data, 8, 12) < 16) by (bit_vector);
        assert(spec_extract_unsigned(data, 12, 16) < 16) by (bit_vector);
        assert(spec_extract_unsigned(data, 12, 14) < 4) by (bit_vector);
        assert(spec_extract_unsigned(data, 16, 18) < 4) by (bit_vector);
        assert(-8 <= spec_extract_signed(data, 8, 12) <= 7) by (bit_vector);
        assert(-0x8_0000 <= spec_extract_signed(data, 8, 28) <= 0x7_ffff) by (bit_vector);
        assert(-0x8000 <= spec_extract_signed(data, 12, 28) <= 0x7fff) by (bit_vector);
        assert(-2048 <= spec_extract_signed(data, 16, 28) <= 2047) by (bit_vector);
        assert(-0x2000 <= spec_extract_signed(data, 14, 28) <= 0x1fff) by (bit_vector);
        assert(-512 <= spec_extract_signed(data, 18, 28) <= 511) by (bit_vector);
    }
}

/// The shape the resolver picks is a short layout exactly when the
/// word's length flag is clear, so a decoded instruction's byte length
/// is 2 for a short word and 4 for a long one, whatever its family.
pub proof fn lemma_length_matches_width(data: u32)
    requires
        spec_from_word(data) is Some,
    ensures
        spec_from_word(data).unwrap().spec_length() == if spec_is_long(data) {
            4usize
        } else {
            2usize
        },
{
}

impl Insn {
    /// Decodes one widened 32-bit word, or returns `None` when the
    /// opcode field holds an undefined arithmetic-logic operation.
    pub fn from_word(data: u32) -> (r: Option<Insn>)
        ensures
            r == spec_from_word(data),
            r is Some ==> r.unwrap().wf(),
    {
        proof {
            lemma_from_word_wf(data);
        }
        let opcode_raw: u32 = extract_unsigned_bits(data, 0, 7);
        let is_long = data & (1u32 << 7) != 0;
        let rd: u8 = extract_unsigned_bits(data, 28, 32) as u8;

        proof {
            assert((data & (1u32 << 7) != 0) == (data & 0x80u32 != 0)) by (bit_vector);
            assert(spec_extract_unsigned(opcode_raw, 0, 2) < 4) by (bit_vector);
            assert(spec_extract_unsigned(opcode_raw, 2, 5) < 8) by (bit_vector);
            assert(spec_extract_unsigned(opcode_raw, 1, 3) < 4) by (bit_vector);
        }

        let family = (opcode_raw & 0x60) >> 5;
        let opcode = if family == 0 {
            InsnOpcode::LoadStore {
                kind: if extract_unsigned_bits(opcode_raw, 4, 5) == 0 {
                    LoadStoreKind::Load
                } else {
                    LoadStoreKind::Store
                },
                mode: if extract_unsigned_bits(opcode_raw, 0, 1) == 0 {
                    LoadStoreMode::Generic
                } else {
                    LoadStoreMode::Simple
                },
                dest: ls_dest_from(extract_unsigned_bits(opcode_raw, 1, 3)),
                size: if extract_unsigned_bits(opcode_raw, 3, 4) == 0 {
                    LoadStoreSize::Byte
                } else {
                    LoadStoreSize::Halfword
                },
            }
        } else if family == 1 {
            InsnOpcode::Mov {
                op: mov_op_from(extract_unsigned_bits(opcode_raw, 0, 2)),
                condition: mov_cond_from(extract_unsigned_bits(opcode_raw, 2, 5)),
            }
        } else {
            match alu_op_from(extract_unsigned_bits(opcode_raw, 2, 6)) {
                Some(op) => InsnOpcode::Alu {
                    style: alu_sty_from(extract_unsigned_bits(opcode_raw, 0, 2)),
                    op,
                },
                None => {
                    return None;
                },
            }
        };

        let content = match (is_long, opcode) {
            (false, InsnOpcode::Alu { style: AluSty::Imm, .. })
            | (false, InsnOpcode::Mov { op: MovOp::Mimm, condition: MovCond::Al }) =>
                InsnContent::Tiny { rd, imm: extract_bits(data, 8, 12) as i8 },
            (false, _) => InsnContent::Short {
                rd,
                ro: extract_unsigned_bits(data, 8, 12) as u8,
            },
            (true, InsnOpcode::Mov { op: MovOp::Mimm, condition: MovCond::Al }) =>
                InsnContent::Big { rd, imm: extract_bits(data, 8, 28) },
            (true, InsnOpcode::Alu { style: AluSty::Imm, .. }) => InsnContent::Med {
                rd,
                imm: extract_bits(data, 12, 28),
                ro: extract_unsigned_bits(data, 8, 12) as u8,
            },
            (true, InsnOpcode::Alu { style: AluSty::Reg, .. })
            | (true, InsnOpcode::Mov { op: MovOp::Mimm, .. }) => InsnContent::Long {
                rd,
                imm: extract_bits(data, 16, 28) as i16,
                rs: extract_unsigned_bits(data, 12, 16) as u8,
                ro: extract_unsigned_bits(data, 8, 12) as u8,
            },
            (true, InsnOpcode::LoadStore { mode: LoadStoreMode::Simple, .. }) => InsnContent::Msm {
                rd,
                imm: extract_bits(data, 14, 28),
                ff: extract_unsigned_bits(data, 12, 14) as u8,
                ro: extract_unsigned_bits(data, 8, 12) as u8,
            },
            (true, _) => InsnContent::Sm {
                rd,
                imm: extract_bits(data, 18, 28) as i16,
                rs: extract_unsigned_bits(data, 12, 16) as u8,
                ro: extract_unsigned_bits(data, 8, 12) as u8,
                ff: extract_unsigned_bits(data, 16, 18) as u8,
            },
        };
        Some(Insn { content, opcode })
    }
}

/// The widened word of a short instruction: the two bytes form a
/// halfword, duplicated into the upper half so that the long layouts'
/// bit positions apply to it unchanged.
pub open spec fn spec_short_word(b0: u8, b1: u8) -> u32 {
    let half = (b0 as u32) | ((b1 as u32) << 8u32);
    half | (half << 16u32)
}

/// The word of a long instruction, its four bytes in little-endian
/// order.
pub open spec fn spec_long_word(b0: u8, b1: u8, b2: u8, b3: u8) -> u32 {
    ((b0 as u32) | ((b1 as u32) << 8u32)) | ((b2 as u32) << 16u32) | ((b3 as u32) << 24u32)
}

/// The instruction sequence a byte stream decodes to. An empty stream
/// decodes to the empty sequence; a stream that ends inside an
/// instruction, or whose next word does not decode, yields `None` as a
/// whole.
pub open spec fn spec_disassemble(s: Seq<u8>) -> Option<Seq<Insn>>
    decreases s.len(),
{
    if s.len() == 0 {
        Some(Seq::empty())
    } else if s.len() < 2 {
        None
    } else if s[0] & 0x80u8 == 0 {
        match spec_from_word(spec_short_word(s[0], s[1])) {
            None => None,
            Some(i) => match spec_disassemble(s.skip(2)) {
                None => None,
                Some(rest) => Some(seq![i] + rest),
            },
        }
    } else if s.len() < 4 {
        None
    } else {
        match spec_from_word(spec_long_word(s[0], s[1], s[2], s[3])) {
            None => None,
            Some(i) => match spec_disassemble(s.skip(4)) {
                None => None,
                Some(rest) => Some(seq![i] + rest),
            },
        }
    }
}

impl Insn {
    /// Decodes a byte stream instruction by instruction, reading each
    /// instruction's width from the flag bit of its first byte.
    /// Returns `None` when the stream ends mid-instruction or a word
    /// does not decode; an empty stream decodes to an empty sequence.
    pub fn dissasemble(bytes: &[u8]) -> (r: Option<Vec<Insn>>)
        ensures
            r is Some <==> spec_disassemble(bytes@) is Some,
            r is Some ==> Some(r.unwrap()@) == spec_disassemble(bytes@),
            r is Some ==> forall|k: int| 0 <= k < r.unwrap()@.len() ==> r.unwrap()@[k].wf(),
    {
        let mut out_buf: Vec<Insn> = Vec::new();
        let mut pos: usize = 0;
        proof {
            assert(bytes@.skip(0) =~= bytes@);
            if spec_disassemble(bytes@) is Some {
                assert(Seq::<Insn>::empty() + spec_disassemble(bytes@).unwrap()
                    =~= spec_disassemble(bytes@).unwrap());
            }
        }

        while pos < bytes.len()
            invariant
                pos <= bytes.len(),
                spec_disassemble(bytes@) is Some <==> spec_disassemble(bytes@.skip(pos as int))
                    is Some,
                spec_disassemble(bytes@) is Some ==> spec_disassemble(bytes@) == Some(
                    out_buf@ + spec_disassemble(bytes@.skip(pos as int)).unwrap(),
                ),
                forall|k: int| 0 <= k < out_buf@.len() ==> out_buf@[k].wf(),
            decreases bytes.len() - pos,
        {
            let ghost tail = bytes@.skip(pos as int);
            assert(tail[0] == bytes@[pos as int]);
            let ghost t0: u8 = bytes@[pos as int];
            let mut data: u32 = bytes[pos] as u32;
            if pos + 1 >= bytes.len() {
                assert(tail.len() == 1);
                return None;
            }
            assert(tail[1] == bytes@[pos as int + 1]);
            let ghost t1: u8 = bytes@[pos as int + 1];
            data |= (bytes[pos + 1] as u32) << 8u32;
            let ghost half = data;
            data |= data << 16u32;
            assert(data == spec_short_word(bytes@[pos as int], bytes@[pos as int + 1]));

            if data & (1u32 << 7) == 0 {
                proof {
                    assert((data & (1u32 << 7) == 0) == (t0 & 0x80u8 == 0)) by (bit_vector)
                        requires
                            data == spec_short_word(t0, t1),
                    ;
                }
                match Insn::from_word(data) {
                    None => {
                        return None;
                    },
                    Some(i) => {
                        out_buf.push(i);
                        proof {
                            assert(bytes@.skip(pos as int).skip(2) =~= bytes@.skip(pos as int + 2));
                            if spec_disassemble(bytes@) is Some {
                                assert(out_buf@ + spec_disassemble(
                                    bytes@.skip(pos as int + 2),
                                ).unwrap() =~= out_buf@.drop_last() + spec_disassemble(
                                    bytes@.skip(pos as int),
                                ).unwrap());
                            }
                        }
                        pos = pos + 2;
                    },
                }
                continue ;
            }
            proof {
                assert((data & (1u32 << 7) != 0) == (t0 & 0x80u8 != 0)) by (bit_vector)
                    requires
                        data == spec_short_word(t0, t1),
                ;
            }

            if bytes.len() - pos < 4 {
                assert(tail.len() < 4);
                return None;
            }
            assert(tail[2] == bytes@[pos as int + 2] && tail[3] == bytes@[pos as int + 3]);
            data &= 0x0000_ffff;
            proof {
                assert((spec_short_word(t0, t1) & 0x0000_ffffu32) == ((t0 as u32) | ((t1 as u32)
                    << 8u32))) by (bit_vector);
            }
            data |= (bytes[pos + 2] as u32) << 16u32;
            data |= (bytes[pos + 3] as u32) << 24u32;
            assert(data == spec_long_word(tail[0], tail[1], tail[2], tail[3]));
            match Insn::from_word(data) {
                None => {
                    return None;
                },
                Some(i) => {
                    out_buf.push(i);
                    proof {
                        assert(bytes@.skip(pos as int).skip(4) =~= bytes@.skip(pos as int + 4));
                        if spec_disassemble(bytes@) is Some {
                            assert(out_buf@ + spec_disassemble(bytes@.skip(pos as int + 4)).unwrap()
                                =~= out_buf@.drop_last() + spec_disassemble(
                                bytes@.skip(pos as int),
                            ).unwrap());
                        }
                    }
                    pos = pos + 4;
                },
            }
        }
        proof {
            assert(bytes@.skip(pos as int).len() == 0);
            assert(bytes@.skip(pos as int) =~= Seq::<u8>::empty());
            assert(out_buf@ + Seq::<Insn>::empty() =~= out_buf@);
        }
        Some(out_buf)
    }
}

/// An empty byte stream decodes to the empty instruction sequence, not
/// to a failure.
pub proof fn lemma_empty_stream_decodes_empty()
    ensures
        spec_disassemble(Seq::<u8>::empty()) == Some(Seq::<Insn>::empty()),
{
}

/// A stream that ends mid-instruction fails as a whole: one lone byte,
/// or a word whose length flag asks for four bytes when fewer remain,
/// decodes to `None` rather than to a truncated instruction.
pub proof fn lemma_truncated_stream_fails(s: Seq<u8>)
    requires
        s.len() == 1 || (2 <= s.len() < 4 && s[0] & 0x80u8 != 0),
    ensures
        spec_disassemble(s) is None,
{
}

/// The arithmetic-logic operation for a 4-bit field value, `None` on
/// the four undefined values.
fn alu_op_from(v: u32) -> (r: Option<AluOp>)
    ensures
        r == spec_alu_op(v),
{
    if v == 0 {
        Some(AluOp::Add)
    } else if v == 1 {
        Some(AluOp::Sub)
    } else if v == 2 {
        Some(AluOp::Sl)
    } else if v == 3 {
        Some(AluOp::Sr)
    } else if v == 4 {
        Some(AluOp::Lsl)
    } else if v == 5 {
        Some(AluOp::Lsr)
    } else if v == 8 {
        Some(AluOp::Or)
    } else if v == 9 {
        Some(AluOp::Eor)
    } else if v == 10 {
        Some(AluOp::And)
    } else if v == 12 {
        Some(AluOp::Nor)
    } else if v == 13 {
        Some(AluOp::Enor)
    } else if v == 14 {
        Some(AluOp::Nand)
    } else {
        None
    }
}

/// The operand style for a 2-bit field value.
fn alu_sty_from(v: u32) -> (r: AluSty)
    requires
        v < 4,
    ensures
        r == spec_alu_sty(v),
{
    if v == 0 {
        AluSty::Reg
    } else if v == 1 {
        AluSty::Imm
    } else if v == 2 {
        AluSty::RegSl
    } else {
        AluSty::RegSr
    }
}

/// The move operation for a 2-bit field value.
fn mov_op_from(v: u32) -> (r: MovOp)
    requires
        v < 4,
    ensures
        r == spec_mov_op(v),
{
    if v == 0 {
        MovOp::Mimm
    } else if v == 1 {
        MovOp::Jump
    } else if v == 2 {
        MovOp::Mrs
    } else {
        MovOp::Mro
    }
}

/// The move condition for a 3-bit field value.
fn mov_cond_from(v: u32) -> (r: MovCond)
    requires
        v < 8,
    ensures
        r == spec_mov_cond(v),
{
    if v == 0 {
        MovCond::Lt
    } else if v == 1 {
        MovCond::Slt
    } else if v == 2 {
        MovCond::Ge
    } else if v == 3 {
        MovCond::Sge
    } else if v == 4 {
        MovCond::Eq
    } else if v == 5 {
        MovCond::Neq
    } else if v == 6 {
        MovCond::Bs
    } else {
        MovCond::Al
    }
}

/// The destination treatment for a 2-bit field value.
fn ls_dest_from(v: u32) -> (r: LoadStoreDest)
    requires
        v < 4,
    ensures
        r == spec_ls_dest(v),
{
    if v == 0 {
        LoadStoreDest::Zext
    } else if v == 1 {
        LoadStoreDest::Sext
    } else if v == 2 {
        LoadStoreDest::LowW
    } else {
        LoadStoreDest::HighW
    }
}

} // verus!
