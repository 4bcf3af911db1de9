use debugger::insn::Insn;
use debugger::numfmt::{i32_dec, u32_dec, u32_hex};

fn render_one(bytes: &[u8]) -> String {
    let insns = Insn::dissasemble(bytes).unwrap();
    assert_eq!(insns.len(), 1);
    insns[0].rendered_text()
}

#[test]
fn dec_text_exact() {
    assert_eq!(u32_dec(0), "0");
    assert_eq!(u32_dec(7), "7");
    assert_eq!(u32_dec(10), "10");
    assert_eq!(u32_dec(4294967295), "4294967295");
    assert_eq!(i32_dec(0), "0");
    assert_eq!(i32_dec(-1), "-1");
    assert_eq!(i32_dec(i32::MIN), "-2147483648");
    assert_eq!(i32_dec(i32::MAX), "2147483647");
}

#[test]
fn hex_text_exact() {
    assert_eq!(u32_hex(0), "0");
    assert_eq!(u32_hex(10), "a");
    assert_eq!(u32_hex(255), "ff");
    assert_eq!(u32_hex(0xdeadbeef), "deadbeef");
    assert_eq!(u32_hex(u32::MAX), "ffffffff");
}

#[test]
fn render_all_zero_word() {
    assert_eq!(render_one(&[0x00, 0x00]), "ld.b r0, [r0]");
}

#[test]
fn render_short_alu_register() {
    assert_eq!(render_one(&[0x40, 0x00]), "add r0, r0, r0");
}

#[test]
fn render_long_mov_immediate() {
    assert_eq!(render_one(&[0xbc, 0x2a, 0x00, 0x10]), "mov r1, 42  // (2a)");
}

#[test]
fn render_load_simple_offset() {
    assert_eq!(render_one(&[0x8b, 0x03, 0x04, 0x20]), "ld.s r2, [10 + r3]");
}

#[test]
fn render_load_simple_offset_with_selector_in_top_bits() {
    // The two selector bits land in bits 30-31 of the printed offset.
    assert_eq!(
        render_one(&[0x8b, 0x13, 0x04, 0x20]),
        "ld.s r2, [40000010 + r3]"
    );
}

#[test]
fn render_tiny_negative_immediate() {
    assert_eq!(render_one(&[0x41, 0x5f]), "add r5, r5, -1  // (ff)");
}

#[test]
fn render_long_alu_register() {
    assert_eq!(render_one(&[0xc0, 0x23, 0x00, 0x10]), "add r1, r2, r3");
}

#[test]
fn render_alu_shift_adds_one_to_selector() {
    assert_eq!(render_one(&[0xc6, 0x23, 0x01, 0x10]), "sub r1, r2, r3 << 2");
}

#[test]
fn render_medium_alu_immediate() {
    // The parenthetical hex shows the 32-bit two's-complement pattern.
    assert_eq!(
        render_one(&[0xc5, 0x07, 0xf0, 0x8f]),
        "sub r8, r7, -256  // (ffffff00)"
    );
}

#[test]
fn render_store_generic_shifted_index() {
    assert_eq!(
        render_one(&[0x90, 0x12, 0xfe, 0x3f]),
        "st.b r3, [ffff + r2 + r1 << 2]"
    );
}

#[test]
fn render_conditional_jump_with_sources() {
    assert_eq!(render_one(&[0xb1, 0x23, 0x00, 0x10]), "jmp.eq r1, r2, r3");
}

#[test]
fn render_conditional_mov_with_displacement() {
    // Selector 3 adds a hexadecimal displacement to the first operand
    // and still prints the two trailing sources.
    assert_eq!(
        render_one(&[0xa2, 0x23, 0x17, 0x10]),
        "mov.lt r1, r2 + 5, r2, r3"
    );
}

#[test]
fn render_conditional_mov_replace_first_source() {
    // Selector 1 replaces the first trailing source by the immediate.
    assert_eq!(
        render_one(&[0xb7, 0x76, 0xf9, 0x4f]),
        "mov.neq r4, r6, -2, r6, // (fffe)"
    );
}

#[test]
fn render_long_mov_immediate_conditional() {
    assert_eq!(
        render_one(&[0xb8, 0x21, 0xff, 0x3f]),
        "mov.bs r3, -1, r2, r1  // (ffff)"
    );
}

#[test]
fn render_short_unconditional_mov() {
    assert_eq!(render_one(&[0x3f, 0x21]), "mov r2, r1");
}

#[test]
fn render_unknown_alu_pairing() {
    // A short word with a shift operand style has no operand rule.
    assert_eq!(render_one(&[0x42, 0x21]), "add<unk encoding>");
}

#[test]
fn render_unknown_mov_pairing() {
    // A conditional short move has neither an operand rule nor a
    // trailing-clause rule.
    assert_eq!(render_one(&[0x23, 0x21]), "mov.lt<unk><unk>");
}
