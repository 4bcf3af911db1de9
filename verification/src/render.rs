//! Assembly text for a decoded instruction.
//!
//! Rendering is total: a shape/opcode pairing with no textual rule
//! degrades to a visible unknown-encoding marker instead of failing.
//! Register operands print as `r` plus a decimal index; immediates
//! print in decimal or in the lower-case hexadecimal of their bit
//! pattern, as each rule asks.

use crate::insn::{
    AluOp, AluSty, Insn, InsnContent, InsnOpcode, LoadStoreDest, LoadStoreKind, LoadStoreMode,
    LoadStoreSize, MovCond, MovOp,
};
use crate::numfmt::{i32_dec, spec_dec_digits, spec_dec_i32, spec_hex_digits, u32_dec, u32_hex};
use vstd::prelude::*;

verus! {

/// The load/store offset of a `Msm` shape: the stored immediate with
/// its top two bits replaced by the selector field.
pub open spec fn spec_msm_offset_bits(imm: i32, ff: u8) -> u32 {
    ((imm as u32) & !(0b11u32 << 30u32)) | ((ff as u32) << 30u32)
}

/// The mnemonic of a load/store instruction: direction, then a size
/// suffix for a byte transfer, then a destination-treatment suffix
/// (none for zero-extension).
pub open spec fn spec_ls_prefix(kind: LoadStoreKind, size: LoadStoreSize, dest: LoadStoreDest) -> Seq<
    char,
> {
    (match kind {
        LoadStoreKind::Load => "ld"@,
        LoadStoreKind::Store => "st"@,
    }) + (match size {
        LoadStoreSize::Byte => ".b"@,
        LoadStoreSize::Halfword => Seq::<char>::empty(),
    }) + (match dest {
        LoadStoreDest::Sext => ".s"@,
        LoadStoreDest::LowW => ".l"@,
        LoadStoreDest::HighW => ".h"@,
        LoadStoreDest::Zext => Seq::<char>::empty(),
    })
}

/// The operand text of a load/store instruction, keyed jointly by
/// shape and addressing mode.
pub open spec fn spec_ls_args(content: InsnContent, mode: LoadStoreMode) -> Seq<char> {
    match (content, mode) {
        (InsnContent::Short { rd, ro }, _) => " r"@ + spec_dec_digits(rd as nat) + ", [r"@
            + spec_dec_digits(ro as nat) + "]"@,
        (InsnContent::Sm { rd, imm, ff, rs, ro }, LoadStoreMode::Generic) => " r"@ + spec_dec_digits(
            rd as nat,
        ) + ", ["@ + spec_hex_digits((imm as u16) as nat) + " + r"@ + spec_dec_digits(ro as nat)
            + " + r"@ + spec_dec_digits(rs as nat) + " << "@ + spec_dec_digits(ff as nat) + "]"@,
        (InsnContent::Msm { rd, imm, ff, ro }, LoadStoreMode::Simple) => " r"@ + spec_dec_digits(
            rd as nat,
        ) + ", ["@ + spec_hex_digits(spec_msm_offset_bits(imm, ff) as nat) + " + r"@
            + spec_dec_digits(ro as nat) + "]"@,
        _ => "<unk encoding>"@,
    }
}

/// The mnemonic of an arithmetic-logic operation.
pub open spec fn spec_alu_mnemonic(op: AluOp) -> Seq<char> {
    match op {
        AluOp::Add => "add"@,
        AluOp::Sub => "sub"@,
        AluOp::Sl => "sl"@,
        AluOp::Sr => "sr"@,
        AluOp::Lsl => "lsl"@,
        AluOp::Lsr => "lsr"@,
        AluOp::Or => "or"@,
        AluOp::Eor => "eor"@,
        AluOp::And => "and"@,
        AluOp::Nor => "nor"@,
        AluOp::Enor => "enor"@,
        AluOp::Nand => "nand"@,
    }
}

/// The operand text of an arithmetic-logic instruction, keyed jointly
/// by shape and operand style. In the short register form the
/// destination doubles as the first source; a shift amount prints as
/// the stored selector plus one.
pub open spec fn spec_alu_args(content: InsnContent, style: AluSty) -> Seq<char> {
    match (content, style) {
        (InsnContent::Short { rd, ro }, AluSty::Reg) => " r"@ + spec_dec_digits(rd as nat) + ", r"@
            + spec_dec_digits(rd as nat) + ", r"@ + spec_dec_digits(ro as nat),
        (InsnContent::Long { rd, rs, ro, .. }, AluSty::Reg) => " r"@ + spec_dec_digits(rd as nat)
            + ", r"@ + spec_dec_digits(rs as nat) + ", r"@ + spec_dec_digits(ro as nat),
        (InsnContent::Tiny { rd, imm }, AluSty::Imm) => " r"@ + spec_dec_digits(rd as nat) + ", r"@
            + spec_dec_digits(rd as nat) + ", "@ + spec_dec_i32(imm as i32) + "  // ("@
            + spec_hex_digits((imm as u8) as nat) + ")"@,
        (InsnContent::Med { rd, ro, imm }, AluSty::Imm) => " r"@ + spec_dec_digits(rd as nat)
            + ", r"@ + spec_dec_digits(ro as nat) + ", "@ + spec_dec_i32(imm) + "  // ("@
            + spec_hex_digits((imm as u32) as nat) + ")"@,
        (InsnContent::Sm { rd, rs, ro, ff, .. }, AluSty::RegSl) => " r"@ + spec_dec_digits(
            rd as nat,
        ) + ", r"@ + spec_dec_digits(rs as nat) + ", r"@ + spec_dec_digits(ro as nat) + " << "@
            + spec_dec_digits((ff + 1) as nat),
        (InsnContent::Sm { rd, rs, ro, ff, .. }, AluSty::RegSr) => " r"@ + spec_dec_digits(
            rd as nat,
        ) + ", r"@ + spec_dec_digits(rs as nat) + ", r"@ + spec_dec_digits(ro as nat) + " >> "@
            + spec_dec_digits((ff + 1) as nat),
        _ => "<unk encoding>"@,
    }
}

/// The mnemonic of a move-family instruction: `jmp` for a branch,
/// `mov` otherwise, then a condition suffix (none for `always`).
pub open spec fn spec_mov_prefix(op: MovOp, condition: MovCond) -> Seq<char> {
    (match op {
        MovOp::Jump => "jmp"@,
        _ => "mov"@,
    }) + (match condition {
        MovCond::Lt => ".lt"@,
        MovCond::Slt => ".slt"@,
        MovCond::Ge => ".ge"@,
        MovCond::Sge => ".sge"@,
        MovCond::Eq => ".eq"@,
        MovCond::Neq => ".neq"@,
        MovCond::Bs => ".bs"@,
        MovCond::Al => Seq::<char>::empty(),
    })
}

/// The first operand text of a move-family instruction, keyed by
/// shape, operation and condition; a selector value of three adds an
/// immediate displacement to the register forms.
pub open spec fn spec_mov_args(content: InsnContent, op: MovOp, condition: MovCond) -> Seq<char> {
    match (content, op, condition) {
        (InsnContent::Big { rd, imm }, MovOp::Mimm, MovCond::Al) => " r"@ + spec_dec_digits(
            rd as nat,
        ) + ", "@ + spec_dec_i32(imm) + "  // ("@ + spec_hex_digits((imm as u32) as nat) + ")"@,
        (InsnContent::Tiny { rd, imm }, MovOp::Mimm, MovCond::Al) => " r"@ + spec_dec_digits(
            rd as nat,
        ) + ", "@ + spec_dec_i32(imm as i32) + "  // ("@ + spec_hex_digits((imm as u8) as nat)
            + ")"@,
        (InsnContent::Long { rd, rs, ro, imm }, MovOp::Mimm, _) => " r"@ + spec_dec_digits(
            rd as nat,
        ) + ", "@ + spec_dec_i32(imm as i32) + ", r"@ + spec_dec_digits(rs as nat) + ", r"@
            + spec_dec_digits(ro as nat) + "  // ("@ + spec_hex_digits((imm as u16) as nat) + ")"@,
        (InsnContent::Sm { rd, rs, ff: 0b11u8, imm, .. }, MovOp::Mrs, _) => " r"@ + spec_dec_digits(
            rd as nat,
        ) + ", r"@ + spec_dec_digits(rs as nat) + " + "@ + spec_hex_digits((imm as u16) as nat),
        (InsnContent::Sm { rd, rs, .. }, MovOp::Mrs, _) => " r"@ + spec_dec_digits(rd as nat)
            + ", r"@ + spec_dec_digits(rs as nat),
        (InsnContent::Sm { rd, ro, ff: 0b11u8, imm, .. }, MovOp::Mro, _) => " r"@ + spec_dec_digits(
            rd as nat,
        ) + ", r"@ + spec_dec_digits(ro as nat) + " + "@ + spec_hex_digits((imm as u16) as nat),
        (InsnContent::Sm { rd, ro, .. }, MovOp::Mro, _) => " r"@ + spec_dec_digits(rd as nat)
            + ", r"@ + spec_dec_digits(ro as nat),
        (InsnContent::Sm { rd, ff: 0b11u8, imm, .. }, MovOp::Jump, _) => " r"@ + spec_dec_digits(
            rd as nat,
        ) + " + "@ + spec_hex_digits((imm as u16) as nat),
        (InsnContent::Sm { rd, .. }, MovOp::Jump, _) => " r"@ + spec_dec_digits(rd as nat),
        (InsnContent::Short { rd, ro }, MovOp::Mro, MovCond::Al) => " r"@ + spec_dec_digits(
            rd as nat,
        ) + ", r"@ + spec_dec_digits(ro as nat),
        _ => "<unk>"@,
    }
}

/// The trailing conditional-operand clause of a move-family
/// instruction: empty for a set-immediate or an unconditional move,
/// otherwise two source operands, with the selector choosing whether
/// the immediate replaces the first or the second.
pub open spec fn spec_mov_trailing(content: InsnContent, op: MovOp, condition: MovCond) -> Seq<
    char,
> {
    if op == MovOp::Mimm || condition == MovCond::Al {
        Seq::<char>::empty()
    } else {
        match content {
            InsnContent::Long { rs, ro, .. } => ", r"@ + spec_dec_digits(rs as nat) + ", r"@
                + spec_dec_digits(ro as nat),
            InsnContent::Sm { rs, ro, ff: 0u8, .. } => ", r"@ + spec_dec_digits(rs as nat) + ", r"@
                + spec_dec_digits(ro as nat),
            InsnContent::Sm { rs, ro, ff: 0b11u8, .. } => ", r"@ + spec_dec_digits(rs as nat)
                + ", r"@ + spec_dec_digits(ro as nat),
            InsnContent::Sm { ro, ff: 0b01u8, imm, .. } => ", "@ + spec_dec_i32(imm as i32)
                + ", r"@ + spec_dec_digits(ro as nat) + ", // ("@ + spec_hex_digits(
                (imm as u16) as nat,
            ) + ")"@,
            InsnContent::Sm { rs, ff: 0b10u8, imm, .. } => ", r"@ + spec_dec_digits(rs as nat)
                + ", "@ + spec_dec_i32(imm as i32) + ", // ("@ + spec_hex_digits(
                (imm as u16) as nat,
            ) + ")"@,
            _ => "<unk>"@,
        }
    }
}

impl Insn {
    /// The full assembly text of an instruction.
    pub open spec fn spec_rendered(self) -> Seq<char> {
        match self.opcode {
            InsnOpcode::LoadStore { kind, size, dest, mode } => spec_ls_prefix(kind, size, dest)
                + spec_ls_args(self.content, mode),
            InsnOpcode::Alu { style, op } => spec_alu_mnemonic(op) + spec_alu_args(
                self.content,
                style,
            ),
            InsnOpcode::Mov { op, condition } => spec_mov_prefix(op, condition) + spec_mov_args(
                self.content,
                op,
                condition,
            ) + spec_mov_trailing(self.content, op, condition),
        }
    }

    /// Renders the instruction as assembly text. Rendering never
    /// fails: a shape/opcode combination without a rule prints the
    /// unknown-encoding marker.
    pub fn rendered_text(&self) -> (r: String)
        requires
            self.wf(),
        ensures
            r@ == self.spec_rendered(),
    {
        match self.opcode {
            InsnOpcode::LoadStore { kind, size, dest, mode } => {
                let mut s = ls_prefix(kind, size, dest);
                let args = ls_args(self.content, mode);
                s.append(args.as_str());
                s
            },
            InsnOpcode::Alu { style, op } => {
                let mut s = alu_mnemonic(op);
                let args = alu_args(self.content, style);
                s.append(args.as_str());
                s
            },
            InsnOpcode::Mov { op, condition } => {
                let mut s = mov_prefix(op, condition);
                let args = mov_args(self.content, op, condition);
                s.append(args.as_str());
                let trailing = mov_trailing(self.content, op, condition);
                s.append(trailing.as_str());
                s
            },
        }
    }
}

/// Builds the load/store mnemonic with its suffixes.
fn ls_prefix(kind: LoadStoreKind, size: LoadStoreSize, dest: LoadStoreDest) -> (r: String)
    ensures
        r@ == spec_ls_prefix(kind, size, dest),
{
    let mut s = match kind {
        LoadStoreKind::Load => String::from_str("ld"),
        LoadStoreKind::Store => String::from_str("st"),
    };
    match size {
        LoadStoreSize::Byte => s.append(".b"),
        LoadStoreSize::Halfword => (),
    };
    match dest {
        LoadStoreDest::Sext => s.append(".s"),
        LoadStoreDest::LowW => s.append(".l"),
        LoadStoreDest::HighW => s.append(".h"),
        LoadStoreDest::Zext => (),
    };
    proof {
        assert(s@ =~= spec_ls_prefix(kind, size, dest));
    }
    s
}

/// Builds the load/store operand text.
fn ls_args(content: InsnContent, mode: LoadStoreMode) -> (r: String)
    ensures
        r@ == spec_ls_args(content, mode),
{
    match (content, mode) {
        (InsnContent::Short { rd, ro }, _) => {
            let mut s = String::from_str(" r");
            let t = u32_dec(rd as u32);
            s.append(t.as_str());
            s.append(", [r");
            let t = u32_dec(ro as u32);
            s.append(t.as_str());
            s.append("]");
            proof {
                assert(s@ =~= spec_ls_args(content, mode));
            }
            s
        },
        (InsnContent::Sm { rd, imm, ff, rs, ro }, LoadStoreMode::Generic) => {
            let mut s = String::from_str(" r");
            let t = u32_dec(rd as u32);
            s.append(t.as_str());
            s.append(", [");
            let t = u32_hex((imm as u16) as u32);
            s.append(t.as_str());
            s.append(" + r");
            let t = u32_dec(ro as u32);
            s.append(t.as_str());
            s.append(" + r");
            let t = u32_dec(rs as u32);
            s.append(t.as_str());
            s.append(" << ");
            let t = u32_dec(ff as u32);
            s.append(t.as_str());
            s.append("]");
            proof {
                assert(s@ =~= spec_ls_args(content, mode));
            }
            s
        },
        (InsnContent::Msm { rd, imm, ff, ro }, LoadStoreMode::Simple) => {
            let mut s = String::from_str(" r");
            let t = u32_dec(rd as u32);
            s.append(t.as_str());
            s.append(", [");
            let offset: u32 = ((imm as u32) & !(0b11u32 << 30u32)) | ((ff as u32) << 30u32);
            let t = u32_hex(offset);
            s.append(t.as_str());
            s.append(" + r");
            let t = u32_dec(ro as u32);
            s.append(t.as_str());
            s.append("]");
            proof {
                assert(s@ =~= spec_ls_args(content, mode));
            }
            s
        },
        _ => {
            let s = String::from_str("<unk encoding>");
            proof {
                assert(s@ =~= spec_ls_args(content, mode));
            }
            s
        },
    }
}

/// Builds the arithmetic-logic mnemonic.
fn alu_mnemonic(op: AluOp) -> (r: String)
    ensures
        r@ == spec_alu_mnemonic(op),
{
    match op {
        AluOp::Add => String::from_str("add"),
        AluOp::Sub => String::from_str("sub"),
        AluOp::Sl => String::from_str("sl"),
        AluOp::Sr => String::from_str("sr"),
        AluOp::Lsl => String::from_str("lsl"),
        AluOp::Lsr => String::from_str("lsr"),
        AluOp::Or => String::from_str("or"),
        AluOp::Eor => String::from_str("eor"),
        AluOp::And => String::from_str("and"),
        AluOp::Nor => String::from_str("nor"),
        AluOp::Enor => String::from_str("enor"),
        AluOp::Nand => String::from_str("nand"),
    }
}

/// Builds the arithmetic-logic operand text.
fn alu_args(content: InsnContent, style: AluSty) -> (r: String)
    requires
        content.wf(),
    ensures
        r@ == spec_alu_args(content, style),
{
    match (content, style) {
        (InsnContent::Short { rd, ro }, AluSty::Reg) => {
            let mut s = String::from_str(" r");
            let t = u32_dec(rd as u32);
            s.append(t.as_str());
            s.append(", r");
            let t = u32_dec(rd as u32);
            s.append(t.as_str());
            s.append(", r");
            let t = u32_dec(ro as u32);
            s.append(t.as_str());
            proof {
                assert(s@ =~= spec_alu_args(content, style));
            }
            s
        },
        (InsnContent::Long { rd, rs, ro, .. }, AluSty::Reg) => {
            let mut s = String::from_str(" r");
            let t = u32_dec(rd as u32);
            s.append(t.as_str());
            s.append(", r");
            let t = u32_dec(rs as u32);
            s.append(t.as_str());
            s.append(", r");
            let t = u32_dec(ro as u32);
            s.append(t.as_str());
            proof {
                assert(s@ =~= spec_alu_args(content, style));
            }
            s
        },
        (InsnContent::Tiny { rd, imm }, AluSty::Imm) => {
            let mut s = String::from_str(" r");
            let t = u32_dec(rd as u32);
            s.append(t.as_str());
            s.append(", r");
            let t = u32_dec(rd as u32);
            s.append(t.as_str());
            s.append(", ");
            let t = i32_dec(imm as i32);
            s.append(t.as_str());
            s.append("  // (");
            let t = u32_hex((imm as u8) as u32);
            s.append(t.as_str());
            s.append(")");
            proof {
                assert(s@ =~= spec_alu_args(content, style));
            }
            s
        },
        (InsnContent::Med { rd, ro, imm }, AluSty::Imm) => {
            let mut s = String::from_str(" r");
            let t = u32_dec(rd as u32);
            s.append(t.as_str());
            s.append(", r");
            let t = u32_dec(ro as u32);
            s.append(t.as_str());
            s.append(", ");
            let t = i32_dec(imm);
            s.append(t.as_str());
            s.append("  // (");
            let t = u32_hex(imm as u32);
            s.append(t.as_str());
            s.append(")");
            proof {
                assert(s@ =~= spec_alu_args(content, style));
            }
            s
        },
        (InsnContent::Sm { rd, rs, ro, ff, .. }, AluSty::RegSl) => {
            let mut s = String::from_str(" r");
            let t = u32_dec(rd as u32);
            s.append(t.as_str());
            s.append(", r");
            let t = u32_dec(rs as u32);
            s.append(t.as_str());
            s.append(", r");
            let t = u32_dec(ro as u32);
            s.append(t.as_str());
            s.append(" << ");
            let t = u32_dec((ff + 1) as u32);
            s.append(t.as_str());
            proof {
                assert(s@ =~= spec_alu_args(content, style));
            }
            s
        },
        (InsnContent::Sm { rd, rs, ro, ff, .. }, AluSty::RegSr) => {
            let mut s = String::from_str(" r");
            let t = u32_dec(rd as u32);
            s.append(t.as_str());
            s.append(", r");
            let t = u32_dec(rs as u32);
            s.append(t.as_str());
            s.append(", r");
            let t = u32_dec(ro as u32);
            s.append(t.as_str());
            s.append(" >> ");
            let t = u32_dec((ff + 1) as u32);
            s.append(t.as_str());
            proof {
                assert(s@ =~= spec_alu_args(content, style));
            }
            s
        },
        _ => {
            let s = String::from_str("<unk encoding>");
            proof {
                assert(s@ =~= spec_alu_args(content, style));
            }
            s
        },
    }
}

/// Builds the move-family mnemonic with its condition suffix.
fn mov_prefix(op: MovOp, condition: MovCond) -> (r: String)
    ensures
        r@ == spec_mov_prefix(op, condition),
{
    let mut s = match op {
        MovOp::Jump => String::from_str("jmp"),
        _ => String::from_str("mov"),
    };
    match condition {
        MovCond::Lt => s.append(".lt"),
        MovCond::Slt => s.append(".slt"),
        MovCond::Ge => s.append(".ge"),
        MovCond::Sge => s.append(".sge"),
        MovCond::Eq => s.append(".eq"),
        MovCond::Neq => s.append(".neq"),
        MovCond::Bs => s.append(".bs"),
        MovCond::Al => (),
    };
    proof {
        assert(s@ =~= spec_mov_prefix(op, condition));
    }
    s
}

/// Builds the first operand text of a move-family instruction.
fn mov_args(content: InsnContent, op: MovOp, condition: MovCond) -> (r: String)
    ensures
        r@ == spec_mov_args(content, op, condition),
{
    match (content, op, condition) {
        (InsnContent::Big { rd, imm }, MovOp::Mimm, MovCond::Al) => {
            let mut s = String::from_str(" r");
            let t = u32_dec(rd as u32);
            s.append(t.as_str());
            s.append(", ");
            let t = i32_dec(imm);
            s.append(t.as_str());
            s.append("  // (");
            let t = u32_hex(imm as u32);
            s.append(t.as_str());
            s.append(")");
            proof {
                assert(s@ =~= spec_mov_args(content, op, condition));
            }
            s
        },
        (InsnContent::Tiny { rd, imm }, MovOp::Mimm, MovCond::Al) => {
            let mut s = String::from_str(" r");
            let t = u32_dec(rd as u32);
            s.append(t.as_str());
            s.append(", ");
            let t = i32_dec(imm as i32);
            s.append(t.as_str());
            s.append("  // (");
            let t = u32_hex((imm as u8) as u32);
            s.append(t.as_str());
            s.append(")");
            proof {
                assert(s@ =~= spec_mov_args(content, op, condition));
            }
            s
        },
        (InsnContent::Long { rd, rs, ro, imm }, MovOp::Mimm, _) => {
            let mut s = String::from_str(" r");
            let t = u32_dec(rd as u32);
            s.append(t.as_str());
            s.append(", ");
            let t = i32_dec(imm as i32);
            s.append(t.as_str());
            s.append(", r");
            let t = u32_dec(rs as u32);
            s.append(t.as_str());
            s.append(", r");
            let t = u32_dec(ro as u32);
            s.append(t.as_str());
            s.append("  // (");
            let t = u32_hex((imm as u16) as u32);
            s.append(t.as_str());
            s.append(")");
            proof {
                assert(s@ =~= spec_mov_args(content, op, condition));
            }
            s
        },
        (InsnContent::Sm { rd, rs, ro: _, ff, imm }, MovOp::Mrs, _) => {
            let mut s = String::from_str(" r");
            let t = u32_dec(rd as u32);
            s.append(t.as_str());
            s.append(", r");
            let t = u32_dec(rs as u32);
            s.append(t.as_str());
            if ff == 0b11 {
                s.append(" + ");
                let t = u32_hex((imm as u16) as u32);
                s.append(t.as_str());
            }
            proof {
                assert(s@ =~= spec_mov_args(content, op, condition));
            }
            s
        },
        (InsnContent::Sm { rd, rs: _, ro, ff, imm }, MovOp::Mro, _) => {
            let mut s = String::from_str(" r");
            let t = u32_dec(rd as u32);
            s.append(t.as_str());
            s.append(", r");
            let t = u32_dec(ro as u32);
            s.append(t.as_str());
            if ff == 0b11 {
                s.append(" + ");
                let t = u32_hex((imm as u16) as u32);
                s.append(t.as_str());
            }
            proof {
                assert(s@ =~= spec_mov_args(content, op, condition));
            }
            s
        },
        (InsnContent::Sm { rd, ff, imm, .. }, MovOp::Jump, _) => {
            let mut s = String::from_str(" r");
            let t = u32_dec(rd as u32);
            s.append(t.as_str());
            if ff == 0b11 {
                s.append(" + ");
                let t = u32_hex((imm as u16) as u32);
                s.append(t.as_str());
            }
            proof {
                assert(s@ =~= spec_mov_args(content, op, condition));
            }
            s
        },
        (InsnContent::Short { rd, ro }, MovOp::Mro, MovCond::Al) => {
            let mut s = String::from_str(" r");
            let t = u32_dec(rd as u32);
            s.append(t.as_str());
            s.append(", r");
            let t = u32_dec(ro as u32);
            s.append(t.as_str());
            proof {
                assert(s@ =~= spec_mov_args(content, op, condition));
            }
            s
        },
        _ => {
            let s = String::from_str("<unk>");
            proof {
                assert(s@ =~= spec_mov_args(content, op, condition));
            }
            s
        },
    }
}

/// Builds the trailing conditional-operand clause of a move-family
/// instruction.
fn mov_trailing(content: InsnContent, op: MovOp, condition: MovCond) -> (r: String)
    ensures
        r@ == spec_mov_trailing(content, op, condition),
{
    if matches!(op, MovOp::Mimm) || matches!(condition, MovCond::Al) {
        let s = String::new();
        proof {
            assert(s@ =~= spec_mov_trailing(content, op, condition));
        }
        return s;
    }
    match content {
        InsnContent::Long { rs, ro, .. } => {
            let mut s = String::from_str(", r");
            let t = u32_dec(rs as u32);
            s.append(t.as_str());
            s.append(", r");
            let t = u32_dec(ro as u32);
            s.append(t.as_str());
            proof {
                assert(s@ =~= spec_mov_trailing(content, op, condition));
            }
            s
        },
        InsnContent::Sm { rs, ro, ff, imm, .. } => {
            if ff == 0 || ff == 0b11 {
                let mut s = String::from_str(", r");
                let t = u32_dec(rs as u32);
                s.append(t.as_str());
                s.append(", r");
                let t = u32_dec(ro as u32);
                s.append(t.as_str());
                proof {
                    assert(s@ =~= spec_mov_trailing(content, op, condition));
                }
                s
            } else if ff == 0b01 {
                let mut s = String::from_str(", ");
                let t = i32_dec(imm as i32);
                s.append(t.as_str());
                s.append(", r");
                let t = u32_dec(ro as u32);
                s.append(t.as_str());
                s.append(", // (");
                let t = u32_hex((imm as u16) as u32);
                s.append(t.as_str());
                s.append(")");
                proof {
                    assert(s@ =~= spec_mov_trailing(content, op, condition));
                }
                s
            } else if ff == 0b10 {
                let mut s = String::from_str(", r");
                let t = u32_dec(rs as u32);
                s.append(t.as_str());
                s.append(", ");
                let t = i32_dec(imm as i32);
                s.append(t.as_str());
                s.append(", // (");
                let t = u32_hex((imm as u16) as u32);
                s.append(t.as_str());
                s.append(")");
                proof {
                    assert(s@ =~= spec_mov_trailing(content, op, condition));
                }
                s
            } else {
                let s = String::from_str("<unk>");
                proof {
                    assert(s@ =~= spec_mov_trailing(content, op, condition));
                }
                s
            }
        },
        _ => {
            let s = String::from_str("<unk>");
            proof {
                assert(s@ =~= spec_mov_trailing(content, op, condition));
            }
            s
        },
    }
}

} // verus!
