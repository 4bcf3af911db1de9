use debugger::bits::{extract_bits, extract_unsigned_bits};
use debugger::insn::{
    AluOp, AluSty, Insn, InsnContent, InsnOpcode, LoadStoreDest, LoadStoreKind, LoadStoreMode,
    LoadStoreSize, MovCond, MovOp,
};

#[test]
fn extract_unsigned_basic() {
    assert_eq!(extract_unsigned_bits(0xdeadbeef, 8, 16), 0xbe);
    assert_eq!(extract_unsigned_bits(0xdeadbeef, 0, 32), 0xdeadbeef);
    assert_eq!(extract_unsigned_bits(0xdeadbeef, 28, 32), 0xd);
    assert_eq!(extract_unsigned_bits(0x80000000, 31, 32), 1);
}

#[test]
fn extract_signed_basic() {
    // 0xbe as an 8-bit signed field is 190 - 256 = -66.
    assert_eq!(extract_bits(0xdeadbeef, 8, 16), -66);
    // 0xf as a 4-bit signed field is -1.
    assert_eq!(extract_bits(0x00000f00, 8, 12), -1);
    // 0x7 as a 4-bit signed field stays positive.
    assert_eq!(extract_bits(0x00000700, 8, 12), 7);
    assert_eq!(extract_bits(0xffffffff, 0, 32), -1);
}

#[test]
fn extract_signed_matches_unsigned_mod() {
    // For a width-w field, signed mod 2^w equals unsigned.
    let word = 0xdeadbeef_u32;
    for start in 0..32_u32 {
        for end in (start + 1)..=32_u32 {
            let w = end - start;
            let u = extract_unsigned_bits(word, start, end) as i64;
            let s = extract_bits(word, start, end) as i64;
            let m = 1_i64 << w;
            assert_eq!(s.rem_euclid(m), u);
            assert!(s >= -(1_i64 << (w - 1)));
            assert!(s <= (1_i64 << (w - 1)) - 1);
            assert!(u >= 0 && u < m);
        }
    }
}

#[test]
fn all_zero_word_is_byte_load() {
    // Family bits 5-6 of an all-zero opcode select the load/store
    // family with every sub-field at its zero value.
    let i = Insn::from_word(0).unwrap();
    assert_eq!(
        i.opcode,
        InsnOpcode::LoadStore {
            kind: LoadStoreKind::Load,
            size: LoadStoreSize::Byte,
            dest: LoadStoreDest::Zext,
            mode: LoadStoreMode::Generic,
        }
    );
    assert_eq!(i.content, InsnContent::Short { rd: 0, ro: 0 });
}

#[test]
fn short_alu_register_word() {
    // Opcode 0x40: family ALU, style register, operation add; short.
    // Halfword 0x0040 duplicated into the upper half.
    let half = 0x0040_u32;
    let i = Insn::from_word(half | (half << 16)).unwrap();
    assert_eq!(i.opcode, InsnOpcode::Alu { style: AluSty::Reg, op: AluOp::Add });
    assert_eq!(i.content, InsnContent::Short { rd: 0, ro: 0 });
    assert_eq!(i.length(), 2);
}

#[test]
fn long_mov_immediate_word_is_big() {
    // Opcode 0x3c: move family, set-immediate, condition always; long
    // flag set, immediate field 42, destination register 1.
    let word = 0xbc_u32 | (42 << 8) | (1 << 28);
    let i = Insn::from_word(word).unwrap();
    assert_eq!(
        i.opcode,
        InsnOpcode::Mov { op: MovOp::Mimm, condition: MovCond::Al }
    );
    assert_eq!(i.content, InsnContent::Big { rd: 1, imm: 42 });
    assert_eq!(i.length(), 4);
}

#[test]
fn undefined_alu_operation_fails() {
    // ALU operation field 6 has no defined mapping.
    let half = 0x0058_u32;
    assert!(Insn::from_word(half | (half << 16)).is_none());
}

#[test]
fn tiny_immediate_is_sign_extended() {
    // Short ALU immediate form: operation add, immediate field 0xf
    // (-1), destination register 5.
    let half = 0x0041_u32 | (0xf << 8) | (5 << 12);
    let i = Insn::from_word(half | (half << 16)).unwrap();
    assert_eq!(i.opcode, InsnOpcode::Alu { style: AluSty::Imm, op: AluOp::Add });
    assert_eq!(i.content, InsnContent::Tiny { rd: 5, imm: -1 });
}

#[test]
fn long_alu_register_word_fields() {
    // Long ALU register form decodes to the Long shape: rd 1, rs 2,
    // ro 3, immediate 0.
    let insns = Insn::dissasemble(&[0xc0, 0x23, 0x00, 0x10]).unwrap();
    assert_eq!(insns.len(), 1);
    assert_eq!(insns[0].opcode, InsnOpcode::Alu { style: AluSty::Reg, op: AluOp::Add });
    assert_eq!(
        insns[0].content,
        InsnContent::Long { rd: 1, imm: 0, rs: 2, ro: 3 }
    );
}

#[test]
fn load_simple_word_is_msm() {
    // Long load, halfword size, sign-extend, simple addressing:
    // shape Msm with rd 2, ro 3, selector 0, immediate 0x10.
    let insns = Insn::dissasemble(&[0x8b, 0x03, 0x04, 0x20]).unwrap();
    assert_eq!(insns.len(), 1);
    assert_eq!(
        insns[0].opcode,
        InsnOpcode::LoadStore {
            kind: LoadStoreKind::Load,
            size: LoadStoreSize::Halfword,
            dest: LoadStoreDest::Sext,
            mode: LoadStoreMode::Simple,
        }
    );
    assert_eq!(
        insns[0].content,
        InsnContent::Msm { rd: 2, imm: 0x10, ff: 0, ro: 3 }
    );
}

#[test]
fn empty_stream_decodes_to_empty_sequence() {
    let insns = Insn::dissasemble(&[]).unwrap();
    assert_eq!(insns.len(), 0);
}

#[test]
fn stream_ending_mid_long_instruction_fails() {
    // Long flag set, but only three of the four bytes present.
    assert!(Insn::dissasemble(&[0xbc, 0x2a, 0x00]).is_none());
    assert!(Insn::dissasemble(&[0xbc, 0x2a]).is_none());
}

#[test]
fn stream_ending_mid_short_instruction_fails() {
    assert!(Insn::dissasemble(&[0x40]).is_none());
}

#[test]
fn undefined_word_fails_whole_stream() {
    // A valid short instruction followed by an undefined ALU word
    // yields no instruction list at all.
    assert!(Insn::dissasemble(&[0x40, 0x00, 0x58, 0x00]).is_none());
}

#[test]
fn stream_decodes_in_order_with_lengths() {
    // One short then one long instruction.
    let insns = Insn::dissasemble(&[0x40, 0x00, 0xbc, 0x2a, 0x00, 0x10]).unwrap();
    assert_eq!(insns.len(), 2);
    assert_eq!(insns[0].length(), 2);
    assert_eq!(insns[1].length(), 4);
    assert_eq!(insns[1].content, InsnContent::Big { rd: 1, imm: 42 });
}

#[test]
fn short_duplication_reads_rd_from_low_halfword() {
    // The destination register of a short instruction sits in bits
    // 12-16 of the halfword; duplication moves it to bits 28-32.
    let insns = Insn::dissasemble(&[0x40, 0x9a]).unwrap();
    assert_eq!(insns.len(), 1);
    assert_eq!(insns[0].content, InsnContent::Short { rd: 9, ro: 10 });
}

#[test]
fn every_short_shape_is_two_bytes_every_long_four() {
    // Short forms of all three families.
    let shorts: [&[u8]; 3] = [
        &[0x40, 0x21], // ALU register
        &[0x00, 0x21], // load/store
        &[0x23, 0x21], // move register-to-register
    ];
    for bytes in shorts {
        let insns = Insn::dissasemble(bytes).unwrap();
        assert_eq!(insns[0].length(), 2);
    }
    // Long forms of all three families.
    let longs: [&[u8]; 3] = [
        &[0xc0, 0x21, 0x00, 0x10], // ALU register
        &[0x8b, 0x03, 0x04, 0x20], // load/store simple
        &[0xbc, 0x2a, 0x00, 0x10], // move set-immediate
    ];
    for bytes in longs {
        let insns = Insn::dissasemble(bytes).unwrap();
        assert_eq!(insns[0].length(), 4);
    }
}
