use bpf_disasm::rbpf::disassembler::HLInsn;
use bpf_disasm::{find_section, listing, ListingLine, Parser, SectionHeader};

fn header(offset: u64) -> SectionHeader {
    SectionHeader {
        sh_name: 0,
        sh_type: 1,
        sh_flags: 0,
        sh_addr: 0,
        sh_offset: offset,
        sh_size: 8,
        sh_link: 0,
        sh_info: 0,
        sh_addralign: 1,
        sh_entsize: 0,
    }
}

fn insn(opc: u8, desc: &str, off: i16) -> HLInsn {
    HLInsn {
        opc,
        name: String::new(),
        desc: desc.to_string(),
        dst: 0,
        src: 0,
        off,
        imm: 0,
    }
}

#[test]
fn later_section_of_the_same_name_wins() {
    let sections = vec![
        (".text".to_string(), header(1)),
        (".data".to_string(), header(2)),
        (".text".to_string(), header(3)),
    ];
    assert_eq!(find_section(&sections, ".text"), Some(header(3)));
    assert_eq!(find_section(&sections, ".data"), Some(header(2)));
    assert_eq!(find_section(&sections, ".bss"), None);
    assert_eq!(find_section(&vec![], ".text"), None);
}

#[test]
fn listing_counts_wide_loads_twice_and_notes_jumps_of_both_classes() {
    let insns = vec![
        insn(0x18, "lddw r0, 0x1", 0),
        insn(0x1d, "jeq r1, r2, -0x3", -3),
        insn(0x85, "call 0x1", 0),
        insn(0x8d, "tail_call", 0),
        insn(0x95, "exit", 0),
        insn(0x16, "jeq32 r1, 0x0, +0x1", 1),
        insn(0x05, "ja +0x7fff", i16::MAX),
    ];
    let lines = listing(&insns);
    let jumps: Vec<Option<String>> = lines.iter().map(|l: &ListingLine| l.jump.clone()).collect();
    assert_eq!(
        jumps,
        vec![
            None,
            Some("\t(jump to -1)".to_string()),
            None,
            None,
            None,
            Some("\t(jump to 7)".to_string()),
            Some("\t(jump to 32774)".to_string()),
        ]
    );
    assert_eq!(lines[0].text, "lddw\tr0,\t0x1");
}

#[test]
fn parser_starts_fresh() {
    let _parser = Parser::new();
}
