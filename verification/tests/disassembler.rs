use bpf_disasm::rbpf::disassembler::{
    alu_imm_str, alu_reg_str, byteswap_str, byteswap_warning, jmp_imm_str, jmp_reg_str,
    ld_reg_str, ld_st_imm_str, ldabs_str, ldind_str, mnemonic, st_reg_str, to_insn_vec,
    try_to_insn_vec, DisasmError, HLInsn, Layout,
};
use bpf_disasm::rbpf::ebpf::{get_insn, Insn};

fn slot(opc: u8, dst: u8, src: u8, off: i16, imm: i32) -> Vec<u8> {
    let mut v = vec![opc, (src << 4) | (dst & 0x0f)];
    v.extend_from_slice(&off.to_le_bytes());
    v.extend_from_slice(&imm.to_le_bytes());
    v
}

fn one(opc: u8, dst: u8, src: u8, off: i16, imm: i32) -> HLInsn {
    let insns = to_insn_vec(&slot(opc, dst, src, off, imm));
    assert_eq!(insns.len(), 1);
    insns.into_iter().next().unwrap()
}

fn desc(opc: u8, dst: u8, src: u8, off: i16, imm: i32) -> String {
    one(opc, dst, src, off, imm).desc
}

#[test]
fn decodes_fields_of_a_slot() {
    let prog = [0xbf, 0x21, 0xfe, 0xff, 0x78, 0x56, 0x34, 0x12];
    let insn = get_insn(&prog, 0);
    assert_eq!(insn, Insn { opc: 0xbf, dst: 1, src: 2, off: -2, imm: 0x12345678 });
    let neg = get_insn(&[0u8, 0xff, 0, 0x80, 0xff, 0xff, 0xff, 0xff], 0);
    assert_eq!(neg.dst, 15);
    assert_eq!(neg.src, 15);
    assert_eq!(neg.off, i16::MIN);
    assert_eq!(neg.imm, -1);
}

#[test]
fn exit_is_its_name() {
    let insn = one(0x95, 0, 0, 0, 0);
    assert_eq!(
        insn,
        HLInsn {
            opc: 0x95,
            name: "exit".to_string(),
            desc: "exit".to_string(),
            dst: 0,
            src: 0,
            off: 0,
            imm: 0,
        }
    );
    assert_eq!(desc(0x8d, 0, 0, 0, 0), "tail_call");
}

#[test]
fn alu_immediate_and_register() {
    assert_eq!(desc(0xb7, 1, 0, 0, 2), "mov64 r1, 0x2");
    assert_eq!(desc(0x07, 1, 0, 0, -1), "add64 r1, 0xffffffff");
    assert_eq!(desc(0x04, 10, 0, 0, 0), "add32 r10, 0x0");
    assert_eq!(desc(0xbf, 1, 2, 0, 0), "mov64 r1, r2");
    assert_eq!(desc(0xcc, 9, 8, 0, 0), "arsh32 r9, r8");
    assert_eq!(one(0x07, 1, 0, 0, -1).imm, -1);
}

#[test]
fn negation_takes_one_register() {
    assert_eq!(desc(0x87, 5, 0, 0, 0), "neg64 r5");
    assert_eq!(desc(0x84, 0, 0, 0, 0), "neg32 r0");
}

#[test]
fn byte_swaps_show_their_width() {
    assert_eq!(desc(0xd4, 3, 0, 0, 16), "le16 r3");
    assert_eq!(desc(0xdc, 3, 0, 0, 64), "be64 r3");
    assert_eq!(desc(0xdc, 3, 0, 0, -5), "be-5 r3");
}

#[test]
fn byte_swap_warning_for_odd_widths() {
    assert_eq!(byteswap_warning(&one(0xd4, 3, 0, 0, 32)), None);
    assert_eq!(
        byteswap_warning(&one(0xdc, 3, 0, 0, 12)),
        Some("[Disassembler] Warning: Invalid offset value for be insn".to_string())
    );
    assert_eq!(byteswap_warning(&one(0xb7, 3, 0, 0, 12)), None);
}

#[test]
fn stores_and_loads_with_offsets() {
    assert_eq!(desc(0x62, 10, 0, -4, 7), "stw [r10-0x4], 0x7");
    assert_eq!(desc(0x7a, 1, 0, 16, -2), "stdw [r1+0x10], 0xfffffffe");
    assert_eq!(desc(0x79, 0, 1, 8, 0), "ldxdw r0, [r1+0x8]");
    assert_eq!(desc(0x71, 2, 3, -1, 0), "ldxb r2, [r3-0x1]");
    assert_eq!(desc(0x63, 10, 1, -8, 0), "stxw [r10-0x8], r1");
    assert_eq!(desc(0xdb, 1, 2, 0, 0), "stxxadddw [r1+0x0], r2");
}

#[test]
fn packet_loads() {
    assert_eq!(desc(0x28, 0, 0, 0, 42), "ldabsh 0x2a");
    assert_eq!(desc(0x50, 0, 3, 0, 16), "ldindb r3, 0x10");
}

#[test]
fn jumps_and_calls() {
    assert_eq!(desc(0x15, 1, 0, 2, 0), "jeq r1, 0x0, +0x2");
    assert_eq!(desc(0x6d, 2, 3, -16, 0), "jsgt r2, r3, -0x10");
    assert_eq!(desc(0x16, 4, 0, 1, 255), "jeq32 r4, 0xff, +0x1");
    assert_eq!(desc(0x05, 0, 0, -1, 0), "ja -0x1");
    assert_eq!(desc(0x05, 0, 0, 0, 0), "ja +0x0");
    assert_eq!(desc(0x85, 0, 0, 0, 1), "call 0x1");
}

#[test]
fn most_negative_offset_shows_its_magnitude() {
    assert_eq!(desc(0x05, 0, 0, i16::MIN, 0), "ja -0x8000");
}

#[test]
fn double_length_load_merges_both_immediates() {
    let mut prog = slot(0x18, 1, 0, 0, 0x55667788);
    prog.extend(slot(0, 0, 0, 0, 0x11223344));
    let insns = to_insn_vec(&prog);
    assert_eq!(insns.len(), 1);
    assert_eq!(insns[0].name, "lddw");
    assert_eq!(insns[0].desc, "lddw r1, 0x1122334455667788");
    assert_eq!(insns[0].imm, 0x1122334455667788);

    let mut neg = slot(0x18, 0, 0, 0, -1);
    neg.extend(slot(0, 0, 0, 0, -1));
    let insns = to_insn_vec(&neg);
    assert_eq!(insns[0].imm, -1);
    assert_eq!(insns[0].desc, "lddw r0, 0xffffffffffffffff");

    let mut high_only = slot(0x18, 2, 0, 0, 0);
    high_only.extend(slot(0, 0, 0, 0, 1));
    assert_eq!(to_insn_vec(&high_only)[0].imm, 0x1_0000_0000);
}

#[test]
fn empty_program_has_no_instructions() {
    assert_eq!(to_insn_vec(&[]), vec![]);
    assert_eq!(try_to_insn_vec(&[]), Ok(vec![]));
}

#[test]
fn length_must_be_a_multiple_of_eight() {
    assert_eq!(try_to_insn_vec(&[0x95, 0, 0, 0, 0, 0, 0]), Err(DisasmError::BadLength { len: 7 }));
}

#[test]
fn unknown_opcode_is_reported_with_its_slot() {
    let mut prog = slot(0x95, 0, 0, 0, 0);
    prog.extend(slot(0x00, 0, 0, 0, 0));
    prog.extend(slot(0xff, 0, 0, 0, 0));
    assert_eq!(try_to_insn_vec(&prog), Err(DisasmError::UnknownOpcode { opc: 0, insn_ptr: 1 }));
}

#[test]
fn double_length_load_in_last_slot_is_reported() {
    let mut prog = slot(0x95, 0, 0, 0, 0);
    prog.extend(slot(0x18, 0, 0, 0, 0));
    assert_eq!(
        try_to_insn_vec(&prog),
        Err(DisasmError::InsnOutOfBounds { idx: 2, prog_len: 16 })
    );
}

#[test]
fn second_half_of_a_double_length_load_is_not_decoded() {
    let mut prog = slot(0x18, 0, 0, 0, 1);
    prog.extend(slot(0xff, 0xf, 0xf, -1, 2));
    prog.extend(slot(0x95, 0, 0, 0, 0));
    let insns = to_insn_vec(&prog);
    assert_eq!(insns.len(), 2);
    assert_eq!(insns[1].name, "exit");
}

#[test]
fn helpers_render_each_layout() {
    let insn = Insn { opc: 0, dst: 2, src: 7, off: -3, imm: 300 };
    assert_eq!(alu_imm_str("x", &insn), "x r2, 0x12c");
    assert_eq!(alu_reg_str("x", &insn), "x r2, r7");
    assert_eq!(byteswap_str("x", &insn), "x300 r2");
    assert_eq!(ld_st_imm_str("x", &insn), "x [r2-0x3], 0x12c");
    assert_eq!(ld_reg_str("x", &insn), "x r2, [r7-0x3]");
    assert_eq!(st_reg_str("x", &insn), "x [r2-0x3], r7");
    assert_eq!(ldabs_str("x", &insn), "x 0x12c");
    assert_eq!(ldind_str("x", &insn), "x r7, 0x12c");
    assert_eq!(jmp_imm_str("x", &insn), "x r2, 0x12c, -0x3");
    assert_eq!(jmp_reg_str("x", &insn), "x r2, r7, -0x3");
}

#[test]
fn opcode_table_lookups() {
    assert_eq!(mnemonic(0x18), Some(("lddw", Layout::WideImm)));
    assert_eq!(mnemonic(0xc3), Some(("stxxaddw", Layout::StReg)));
    assert_eq!(mnemonic(0x00), None);
    let known = (0u16..=255).filter(|o| mnemonic(*o as u8).is_some()).count();
    assert_eq!(known, 123);
}

#[test]
fn law_instructions_fill_the_slots() {
    let mut prog = slot(0x18, 1, 0, 0, 5);
    prog.extend(slot(0, 0, 0, 0, 6));
    prog.extend(slot(0xb7, 0, 0, 0, 0));
    prog.extend(slot(0x95, 0, 0, 0, 0));
    let insns = to_insn_vec(&prog);
    let filled: usize = insns.iter().map(|i| if i.opc == 0x18 { 2 } else { 1 }).sum();
    assert_eq!(filled, prog.len() / 8);
}

#[test]
fn law_descriptions_start_with_names_and_registers_are_nibbles() {
    let mut prog = slot(0xbf, 15, 15, 0, 0);
    prog.extend(slot(0x63, 10, 1, -8, 0));
    prog.extend(slot(0x85, 0, 0, 0, 7));
    for insn in to_insn_vec(&prog) {
        assert!(insn.desc.starts_with(&insn.name));
        assert!(insn.dst < 16 && insn.src < 16);
        assert!(i32::MIN as i64 <= insn.imm && insn.imm <= i32::MAX as i64);
    }
}

#[test]
fn law_concatenated_programs_disassemble_piecewise() {
    let mut p1 = slot(0x18, 1, 0, 0, -7);
    p1.extend(slot(0, 0, 0, 0, 3));
    let p2 = [slot(0x15, 1, 0, 2, 0), slot(0x95, 0, 0, 0, 0)].concat();
    let whole = [p1.clone(), p2.clone()].concat();
    let mut expected = to_insn_vec(&p1);
    expected.extend(to_insn_vec(&p2));
    assert_eq!(to_insn_vec(&whole), expected);
}
