//! The decoder inverts a field-level encoder.
//!
//! `spec_encode` assembles a word from an instruction's opcode and
//! operand fields, placing each at the bit position the decoder reads
//! it from. For every well-formed instruction whose shape is the one
//! the resolver assigns to its opcode and width, decoding the encoded
//! word gives the instruction back.

use crate::bits::{spec_extract_signed, spec_extract_unsigned};
use crate::insn::{
    spec_alu_op, spec_alu_sty, spec_from_word, spec_ls_dest, spec_ls_kind,
    spec_ls_mode, spec_ls_size, spec_mov_cond, spec_mov_op, spec_opcode_of, spec_opcode_of_raw,
    AluOp, AluSty, Insn, InsnContent, InsnOpcode, LoadStoreDest, LoadStoreKind, LoadStoreMode,
    LoadStoreSize, MovCond, MovOp,
};
use vstd::prelude::*;

verus! {

/// The 4-bit field value of an arithmetic-logic operation.
pub open spec fn spec_alu_op_bits(op: AluOp) -> u32 {
    match op {
        AluOp::Add => 0,
        AluOp::Sub => 1,
        AluOp::Sl => 2,
        AluOp::Sr => 3,
        AluOp::Lsl => 4,
        AluOp::Lsr => 5,
        AluOp::Or => 8,
        AluOp::Eor => 9,
        AluOp::And => 10,
        AluOp::Nor => 12,
        AluOp::Enor => 13,
        AluOp::Nand => 14,
    }
}

/// The 2-bit field value of an operand style.
pub open spec fn spec_alu_sty_bits(style: AluSty) -> u32 {
    match style {
        AluSty::Reg => 0,
        AluSty::Imm => 1,
        AluSty::RegSl => 2,
        AluSty::RegSr => 3,
    }
}

/// The 2-bit field value of a move operation.
pub open spec fn spec_mov_op_bits(op: MovOp) -> u32 {
    match op {
        MovOp::Mimm => 0,
        MovOp::Jump => 1,
        MovOp::Mrs => 2,
        MovOp::Mro => 3,
    }
}

/// The 3-bit field value of a move condition.
pub open spec fn spec_mov_cond_bits(c: MovCond) -> u32 {
    match c {
        MovCond::Lt => 0,
        MovCond::Slt => 1,
        MovCond::Ge => 2,
        MovCond::Sge => 3,
        MovCond::Eq => 4,
        MovCond::Neq => 5,
        MovCond::Bs => 6,
        MovCond::Al => 7,
    }
}

/// The 1-bit field value of a transfer direction.
pub open spec fn spec_ls_kind_bits(k: LoadStoreKind) -> u32 {
    match k {
        LoadStoreKind::Load => 0,
        LoadStoreKind::Store => 1,
    }
}

/// The 1-bit field value of a transfer size.
pub open spec fn spec_ls_size_bits(s: LoadStoreSize) -> u32 {
    match s {
        LoadStoreSize::Byte => 0,
        LoadStoreSize::Halfword => 1,
    }
}

/// The 2-bit field value of a destination treatment.
pub open spec fn spec_ls_dest_bits(d: LoadStoreDest) -> u32 {
    match d {
        LoadStoreDest::Zext => 0,
        LoadStoreDest::Sext => 1,
        LoadStoreDest::LowW => 2,
        LoadStoreDest::HighW => 3,
    }
}

/// The 1-bit field value of an addressing mode.
pub open spec fn spec_ls_mode_bits(m: LoadStoreMode) -> u32 {
    match m {
        LoadStoreMode::Generic => 0,
        LoadStoreMode::Simple => 1,
    }
}

/// The 7-bit opcode field of a classified opcode: the family in bits 5
/// and 6, the sub-fields below and within them.
pub open spec fn spec_opcode_bits(opcode: InsnOpcode) -> u32 {
    match opcode {
        InsnOpcode::LoadStore { kind, size, dest, mode } => spec_ls_mode_bits(mode) | (
        spec_ls_dest_bits(dest) << 1u32) | (spec_ls_size_bits(size) << 3u32) | (spec_ls_kind_bits(
            kind,
        ) << 4u32),
        InsnOpcode::Mov { op, condition } => 0x20u32 | spec_mov_op_bits(op) | (spec_mov_cond_bits(
            condition,
        ) << 2u32),
        InsnOpcode::Alu { style, op } => 0x40u32 | spec_alu_sty_bits(style) | (spec_alu_op_bits(op)
            << 2u32),
    }
}

/// Whether an instruction's shape is the one the resolver assigns to
/// its opcode and width, so that the instruction has an encoding the
/// decoder maps back to it.
pub open spec fn spec_encodable(i: Insn) -> bool {
    match i.content {
        InsnContent::Tiny { .. } => (i.opcode matches InsnOpcode::Alu { style: AluSty::Imm, .. })
            || (i.opcode matches InsnOpcode::Mov { op: MovOp::Mimm, condition: MovCond::Al }),
        InsnContent::Short { .. } => !((i.opcode matches InsnOpcode::Alu {
            style: AluSty::Imm,
            ..
        }) || (i.opcode matches InsnOpcode::Mov { op: MovOp::Mimm, condition: MovCond::Al })),
        InsnContent::Big { .. } => i.opcode matches InsnOpcode::Mov {
            op: MovOp::Mimm,
            condition: MovCond::Al,
        },
        InsnContent::Med { .. } => i.opcode matches InsnOpcode::Alu { style: AluSty::Imm, .. },
        InsnContent::Long { .. } => (i.opcode matches InsnOpcode::Alu { style: AluSty::Reg, .. })
            || (i.opcode matches InsnOpcode::Mov {
            op: MovOp::Mimm,
            condition: MovCond::Lt,
        }) || (i.opcode matches InsnOpcode::Mov { op: MovOp::Mimm, condition: MovCond::Slt }) || (
        i.opcode matches InsnOpcode::Mov { op: MovOp::Mimm, condition: MovCond::Ge }) || (i.opcode
            matches InsnOpcode::Mov { op: MovOp::Mimm, condition: MovCond::Sge }) || (i.opcode
            matches InsnOpcode::Mov { op: MovOp::Mimm, condition: MovCond::Eq }) || (i.opcode
            matches InsnOpcode::Mov { op: MovOp::Mimm, condition: MovCond::Neq }) || (i.opcode
            matches InsnOpcode::Mov { op: MovOp::Mimm, condition: MovCond::Bs }),
        InsnContent::Msm { .. } => i.opcode matches InsnOpcode::LoadStore {
            mode: LoadStoreMode::Simple,
            ..
        },
        InsnContent::Sm { .. } => match i.opcode {
            InsnOpcode::Alu { style: AluSty::RegSl, .. } => true,
            InsnOpcode::Alu { style: AluSty::RegSr, .. } => true,
            InsnOpcode::Mov { op: MovOp::Jump, .. } => true,
            InsnOpcode::Mov { op: MovOp::Mrs, .. } => true,
            InsnOpcode::Mov { op: MovOp::Mro, .. } => true,
            InsnOpcode::LoadStore { mode: LoadStoreMode::Generic, .. } => true,
            _ => false,
        },
    }
}

/// The encoded word of an instruction: the opcode field in the low 7
/// bits, the length flag in bit 7, and the shape's fields at their
/// layout positions. A short instruction's halfword is duplicated into
/// the upper half, as the decoder expects.
pub open spec fn spec_encode(i: Insn) -> u32 {
    let b = spec_opcode_bits(i.opcode);
    match i.content {
        InsnContent::Tiny { rd, imm } => {
            let half = b | (((imm as u32) & 0xfu32) << 8u32) | ((rd as u32) << 12u32);
            half | (half << 16u32)
        },
        InsnContent::Short { rd, ro } => {
            let half = b | ((ro as u32) << 8u32) | ((rd as u32) << 12u32);
            half | (half << 16u32)
        },
        InsnContent::Big { rd, imm } => b | 0x80u32 | (((imm as u32) & 0xf_ffffu32) << 8u32) | ((
        rd as u32) << 28u32),
        InsnContent::Med { rd, imm, ro } => b | 0x80u32 | ((ro as u32) << 8u32) | (((imm as u32)
            & 0xffffu32) << 12u32) | ((rd as u32) << 28u32),
        InsnContent::Long { rd, imm, rs, ro } => b | 0x80u32 | ((ro as u32) << 8u32) | ((rs as u32)
            << 12u32) | (((imm as u32) & 0xfffu32) << 16u32) | ((rd as u32) << 28u32),
        InsnContent::Msm { rd, imm, ff, ro } => b | 0x80u32 | ((ro as u32) << 8u32) | ((ff as u32)
            << 12u32) | (((imm as u32) & 0x3fffu32) << 14u32) | ((rd as u32) << 28u32),
        InsnContent::Sm { rd, imm, ff, rs, ro } => b | 0x80u32 | ((ro as u32) << 8u32) | ((
        rs as u32) << 12u32) | ((ff as u32) << 16u32) | (((imm as u32) & 0x3ffu32) << 18u32) | ((
        rd as u32) << 28u32),
    }
}

/// The classifier inverts the opcode-field encoding: the 7-bit field
/// of a classified opcode classifies back to that opcode.
pub proof fn lemma_opcode_bits_roundtrip(opcode: InsnOpcode)
    ensures
        spec_opcode_bits(opcode) <= 0x7f,
        spec_opcode_of_raw(spec_opcode_bits(opcode)) == Some(opcode),
{
    let b = spec_opcode_bits(opcode);
    match opcode {
        InsnOpcode::LoadStore { kind, size, dest, mode } => {
            let kb = spec_ls_kind_bits(kind);
            let sb = spec_ls_size_bits(size);
            let db = spec_ls_dest_bits(dest);
            let mb = spec_ls_mode_bits(mode);
            assert(b <= 0x7f && ((b & 0x60u32) >> 5u32) == 0 && spec_extract_unsigned(b, 4, 5)
                == kb && spec_extract_unsigned(b, 0, 1) == mb && spec_extract_unsigned(b, 1, 3)
                == db && spec_extract_unsigned(b, 3, 4) == sb) by (bit_vector)
                requires
                    b == mb | (db << 1u32) | (sb << 3u32) | (kb << 4u32),
                    kb < 2 && sb < 2 && db < 4 && mb < 2,
            ;
            assert(spec_ls_kind(kb) == kind);
            assert(spec_ls_size(sb) == size);
            assert(spec_ls_dest(db) == dest);
            assert(spec_ls_mode(mb) == mode);
        },
        InsnOpcode::Mov { op, condition } => {
            let ob = spec_mov_op_bits(op);
            let cb = spec_mov_cond_bits(condition);
            assert(b <= 0x7f && ((b & 0x60u32) >> 5u32) == 1 && spec_extract_unsigned(b, 0, 2)
                == ob && spec_extract_unsigned(b, 2, 5) == cb) by (bit_vector)
                requires
                    b == 0x20u32 | ob | (cb << 2u32),
                    ob < 4 && cb < 8,
            ;
            assert(spec_mov_op(ob) == op);
            assert(spec_mov_cond(cb) == condition);
        },
        InsnOpcode::Alu { style, op } => {
            let sb = spec_alu_sty_bits(style);
            let ob = spec_alu_op_bits(op);
            assert(b <= 0x7f && ((b & 0x60u32) >> 5u32) >= 2 && spec_extract_unsigned(b, 0, 2)
                == sb && spec_extract_unsigned(b, 2, 6) == ob) by (bit_vector)
                requires
                    b == 0x40u32 | sb | (ob << 2u32),
                    sb < 4 && ob < 16,
            ;
            assert(spec_alu_sty(sb) == style);
            assert(spec_alu_op(ob) == Some(op));
        },
    }
}

/// Every instruction the decoder produces carries the shape the
/// resolver assigns to its opcode and width, so it lies in the domain
/// of [`lemma_encode_decode`].
pub proof fn lemma_decoded_is_encodable(data: u32)
    requires
        spec_from_word(data) is Some,
    ensures
        spec_encodable(spec_from_word(data).unwrap()),
{
}

/// Decoding inverts encoding: a well-formed instruction whose shape is
/// the one the resolver assigns to its opcode and width decodes back,
/// field for field, from its encoded word.
pub proof fn lemma_encode_decode(i: Insn)
    requires
        i.wf(),
        spec_encodable(i),
    ensures
        spec_from_word(spec_encode(i)) == Some(i),
{
    let b = spec_opcode_bits(i.opcode);
    let w = spec_encode(i);
    lemma_opcode_bits_roundtrip(i.opcode);
    match i.content {
        InsnContent::Tiny { rd, imm } => {
            assert({
                &&& spec_extract_unsigned(w, 0, 7) == b
                &&& w & 0x80u32 == 0
                &&& spec_extract_unsigned(w, 28, 32) as u8 == rd
                &&& spec_extract_signed(w, 8, 12) as i8 == imm
            }) by (bit_vector)
                requires
                    w == (b | (((imm as u32) & 0xfu32) << 8u32) | ((rd as u32) << 12u32)) | ((b | ((
                    (imm as u32) & 0xfu32) << 8u32) | ((rd as u32) << 12u32)) << 16u32),
                    b <= 0x7f,
                    rd < 16,
                    -8 <= imm <= 7,
            ;
        },
        InsnContent::Short { rd, ro } => {
            assert({
                &&& spec_extract_unsigned(w, 0, 7) == b
                &&& w & 0x80u32 == 0
                &&& spec_extract_unsigned(w, 28, 32) as u8 == rd
                &&& spec_extract_unsigned(w, 8, 12) as u8 == ro
            }) by (bit_vector)
                requires
                    w == (b | ((ro as u32) << 8u32) | ((rd as u32) << 12u32)) | ((b | ((ro as u32)
                        << 8u32) | ((rd as u32) << 12u32)) << 16u32),
                    b <= 0x7f,
                    rd < 16,
                    ro < 16,
            ;
        },
        InsnContent::Big { rd, imm } => {
            assert({
                &&& spec_extract_unsigned(w, 0, 7) == b
                &&& w & 0x80u32 != 0
                &&& spec_extract_unsigned(w, 28, 32) as u8 == rd
                &&& spec_extract_signed(w, 8, 28) == imm
            }) by (bit_vector)
                requires
                    w == b | 0x80u32 | (((imm as u32) & 0xf_ffffu32) << 8u32) | ((rd as u32)
                        << 28u32),
                    b <= 0x7f,
                    rd < 16,
                    -0x8_0000 <= imm <= 0x7_ffff,
            ;
        },
        InsnContent::Med { rd, imm, ro } => {
            assert({
                &&& spec_extract_unsigned(w, 0, 7) == b
                &&& w & 0x80u32 != 0
                &&& spec_extract_unsigned(w, 28, 32) as u8 == rd
                &&& spec_extract_unsigned(w, 8, 12) as u8 == ro
                &&& spec_extract_signed(w, 12, 28) == imm
            }) by (bit_vector)
                requires
                    w == b | 0x80u32 | ((ro as u32) << 8u32) | (((imm as u32) & 0xffffu32)
                        << 12u32) | ((rd as u32) << 28u32),
                    b <= 0x7f,
                    rd < 16,
                    ro < 16,
                    -0x8000 <= imm <= 0x7fff,
            ;
        },
        InsnContent::Long { rd, imm, rs, ro } => {
            assert({
                &&& spec_extract_unsigned(w, 0, 7) == b
                &&& w & 0x80u32 != 0
                &&& spec_extract_unsigned(w, 28, 32) as u8 == rd
                &&& spec_extract_unsigned(w, 8, 12) as u8 == ro
                &&& spec_extract_unsigned(w, 12, 16) as u8 == rs
                &&& spec_extract_signed(w, 16, 28) as i16 == imm
            }) by (bit_vector)
                requires
                    w == b | 0x80u32 | ((ro as u32) << 8u32) | ((rs as u32) << 12u32) | (((
                    imm as u32) & 0xfffu32) << 16u32) | ((rd as u32) << 28u32),
                    b <= 0x7f,
                    rd < 16,
                    rs < 16,
                    ro < 16,
                    -2048 <= imm <= 2047,
            ;
        },
        InsnContent::Msm { rd, imm, ff, ro } => {
            assert({
                &&& spec_extract_unsigned(w, 0, 7) == b
                &&& w & 0x80u32 != 0
                &&& spec_extract_unsigned(w, 28, 32) as u8 == rd
                &&& spec_extract_unsigned(w, 8, 12) as u8 == ro
                &&& spec_extract_unsigned(w, 12, 14) as u8 == ff
                &&& spec_extract_signed(w, 14, 28) == imm
            }) by (bit_vector)
                requires
                    w == b | 0x80u32 | ((ro as u32) << 8u32) | ((ff as u32) << 12u32) | (((
                    imm as u32) & 0x3fffu32) << 14u32) | ((rd as u32) << 28u32),
                    b <= 0x7f,
                    rd < 16,
                    ro < 16,
                    ff < 4,
                    -0x2000 <= imm <= 0x1fff,
            ;
        },
        InsnContent::Sm { rd, imm, ff, rs, ro } => {
            assert({
                &&& spec_extract_unsigned(w, 0, 7) == b
                &&& w & 0x80u32 != 0
                &&& spec_extract_unsigned(w, 28, 32) as u8 == rd
                &&& spec_extract_unsigned(w, 8, 12) as u8 == ro
                &&& spec_extract_unsigned(w, 12, 16) as u8 == rs
                &&& spec_extract_unsigned(w, 16, 18) as u8 == ff
                &&& spec_extract_signed(w, 18, 28) as i16 == imm
            }) by (bit_vector)
                requires
                    w == b | 0x80u32 | ((ro as u32) << 8u32) | ((rs as u32) << 12u32) | ((ff as u32)
                        << 16u32) | (((imm as u32) & 0x3ffu32) << 18u32) | ((rd as u32) << 28u32),
                    b <= 0x7f,
                    rd < 16,
                    rs < 16,
                    ro < 16,
                    ff < 4,
                    -512 <= imm <= 511,
            ;
        },
    }
    assert(spec_opcode_of(w) == Some(i.opcode));
    assert(spec_from_word(w) == Some(i));
}

} // verus!
