use bpf_disasm::{ElfError, ElfFile, ListingLine, ELF_START};

fn slot(opc: u8, dst: u8, src: u8, off: i16, imm: i32) -> Vec<u8> {
    let mut v = vec![opc, (src << 4) | (dst & 0x0f)];
    v.extend_from_slice(&off.to_le_bytes());
    v.extend_from_slice(&imm.to_le_bytes());
    v
}

fn section_header(name: u32, typ: u32, flags: u64, offset: u64, size: u64) -> Vec<u8> {
    let mut h = Vec::new();
    h.extend_from_slice(&name.to_le_bytes());
    h.extend_from_slice(&typ.to_le_bytes());
    h.extend_from_slice(&flags.to_le_bytes());
    h.extend_from_slice(&0u64.to_le_bytes());
    h.extend_from_slice(&offset.to_le_bytes());
    h.extend_from_slice(&size.to_le_bytes());
    h.extend_from_slice(&0u32.to_le_bytes());
    h.extend_from_slice(&0u32.to_le_bytes());
    h.extend_from_slice(&1u64.to_le_bytes());
    h.extend_from_slice(&0u64.to_le_bytes());
    h
}

/// A little-endian ELF64 object for BPF with a null section, a `.text`
/// section holding `text`, and the section name table.
fn elf_with_text(text: &[u8]) -> Vec<u8> {
    let names = b"\0.text\0.shstrtab\0";
    let text_off = 64u64;
    let names_off = text_off + text.len() as u64;
    let shoff = names_off + names.len() as u64;
    let mut f = vec![0x7f, b'E', b'L', b'F', 2, 1, 1, 0, 0, 0, 0, 0, 0, 0, 0, 0];
    f.extend_from_slice(&1u16.to_le_bytes()); // e_type: relocatable
    f.extend_from_slice(&247u16.to_le_bytes()); // e_machine: BPF
    f.extend_from_slice(&1u32.to_le_bytes()); // e_version
    f.extend_from_slice(&0u64.to_le_bytes()); // e_entry
    f.extend_from_slice(&0u64.to_le_bytes()); // e_phoff
    f.extend_from_slice(&shoff.to_le_bytes()); // e_shoff
    f.extend_from_slice(&0u32.to_le_bytes()); // e_flags
    f.extend_from_slice(&64u16.to_le_bytes()); // e_ehsize
    f.extend_from_slice(&0u16.to_le_bytes()); // e_phentsize
    f.extend_from_slice(&0u16.to_le_bytes()); // e_phnum
    f.extend_from_slice(&64u16.to_le_bytes()); // e_shentsize
    f.extend_from_slice(&3u16.to_le_bytes()); // e_shnum
    f.extend_from_slice(&2u16.to_le_bytes()); // e_shstrndx
    assert_eq!(f.len(), 64);
    f.extend_from_slice(text);
    f.extend_from_slice(names);
    f.extend(section_header(0, 0, 0, 0, 0));
    f.extend(section_header(1, 1, 6, text_off, text.len() as u64));
    f.extend(section_header(7, 3, 0, names_off, names.len() as u64));
    f
}

fn loaded(elf: Vec<u8>) -> ElfFile {
    let mut data = vec![0u8; ELF_START];
    data.extend(elf);
    let mut file = ElfFile::new();
    file.load(data);
    file
}

fn program() -> Vec<u8> {
    [
        slot(0x15, 1, 0, 2, 0),
        slot(0x18, 0, 0, 0, 1),
        slot(0, 0, 0, 0, 2),
        slot(0x05, 0, 0, -1, 0),
        slot(0x85, 0, 0, 0, 6),
        slot(0x95, 0, 0, 0, 0),
    ]
    .concat()
}

#[test]
fn lists_the_sections_in_table_order() {
    let mut file = loaded(elf_with_text(&program()));
    let sections = file.list_sections();
    let names: Vec<&str> = sections.iter().map(|(n, _)| n.as_str()).collect();
    assert_eq!(names, vec!["", ".text", ".shstrtab"]);
    assert_eq!(sections[1].1.sh_offset, 64);
    assert_eq!(sections[1].1.sh_size, 48);
    assert_eq!(sections[1].1.sh_type, 1);
    assert_eq!(sections[2].1.sh_name, 7);
}

#[test]
fn disassembles_the_text_section_with_jump_targets() {
    let mut file = loaded(elf_with_text(&program()));
    let lines = file.disassemble();
    let line = |text: &str, jump: Option<&str>| ListingLine {
        text: text.to_string(),
        jump: jump.map(|j| j.to_string()),
        warning: None,
    };
    assert_eq!(
        lines,
        vec![
            line("jeq\tr1,\t0x0,\t+0x2", Some("\t(jump to 2)")),
            line("lddw\tr0,\t0x200000001", None),
            line("ja\t-0x1", Some("\t(jump to 2)")),
            line("call\t0x6", None),
            line("exit", None),
        ]
    );
}

#[test]
fn odd_byte_swaps_carry_a_warning() {
    let mut file = loaded(elf_with_text(&[slot(0xdc, 1, 0, 0, 24), slot(0x95, 0, 0, 0, 0)].concat()));
    let lines = file.disassemble();
    assert_eq!(lines[0].text, "be24\tr1");
    assert_eq!(
        lines[0].warning.as_deref(),
        Some("[Disassembler] Warning: Invalid offset value for be insn")
    );
    assert_eq!(lines[1].warning, None);
}

#[test]
fn data_shorter_than_the_prefix_is_refused() {
    let mut file = ElfFile::new();
    file.load(vec![0u8; 44]);
    assert!(matches!(file.try_list_sections(), Err(ElfError::TooShort { len: 44 })));
    assert!(matches!(file.try_disassemble(), Err(ElfError::TooShort { len: 44 })));
}

#[test]
fn data_that_is_not_elf_is_refused() {
    let mut file = loaded(vec![0u8; 100]);
    assert!(matches!(file.try_list_sections(), Err(ElfError::Open(_))));
    let mut empty_elf = ElfFile::new();
    empty_elf.load(vec![0u8; ELF_START]);
    assert!(matches!(empty_elf.try_disassemble(), Err(ElfError::Open(_))));
}

#[test]
fn elf_without_sections_is_refused() {
    let mut elf = elf_with_text(&program());
    elf[40..48].copy_from_slice(&0u64.to_le_bytes()); // e_shoff
    let mut file = loaded(elf);
    assert!(matches!(file.try_list_sections(), Err(ElfError::NoSectionHeaders)));
}

#[test]
fn elf_without_name_table_is_refused() {
    let mut elf = elf_with_text(&program());
    elf[62..64].copy_from_slice(&0u16.to_le_bytes()); // e_shstrndx
    let mut file = loaded(elf);
    assert!(matches!(file.try_disassemble(), Err(ElfError::NoStringTable)));
}

#[test]
fn unreadable_section_table_is_refused() {
    let mut elf = elf_with_text(&program());
    elf[62..64].copy_from_slice(&9u16.to_le_bytes()); // e_shstrndx past the table
    let mut file = loaded(elf);
    assert!(matches!(file.try_list_sections(), Err(ElfError::SectionTable(_))));
}

#[test]
fn bad_section_name_is_refused() {
    let mut elf = elf_with_text(&program());
    let len = elf.len();
    // sh_name of the last section header points past the name table
    elf[len - 64..len - 60].copy_from_slice(&1000u32.to_le_bytes());
    let mut file = loaded(elf);
    assert!(matches!(file.try_list_sections(), Err(ElfError::SectionName(_))));
}

#[test]
fn missing_text_section_is_refused() {
    let mut elf = elf_with_text(&program());
    let text_header = elf.len() - 128;
    elf[text_header..text_header + 4].copy_from_slice(&7u32.to_le_bytes());
    let mut file = loaded(elf);
    assert!(matches!(file.try_disassemble(), Err(ElfError::NoTextSection)));
}

#[test]
fn unreadable_text_section_is_refused() {
    let mut elf = elf_with_text(&program());
    let text_header = elf.len() - 128;
    elf[text_header + 24..text_header + 32].copy_from_slice(&100_000u64.to_le_bytes());
    let mut file = loaded(elf);
    assert!(matches!(file.try_disassemble(), Err(ElfError::SectionData(_))));
}

#[test]
fn text_that_does_not_disassemble_is_refused() {
    let mut file = loaded(elf_with_text(&[0x95, 0, 0, 0, 0, 0, 0, 0, 0xff, 0, 0, 0, 0, 0, 0, 0]));
    assert!(matches!(file.try_disassemble(),
        Err(ElfError::Disasm(bpf_disasm::rbpf::disassembler::DisasmError::UnknownOpcode {
            opc: 0xff,
            insn_ptr: 1
        }))
    ));
}

#[test]
fn last_section_named_text_is_the_one_disassembled() {
    let mut elf = elf_with_text(&program());
    let len = elf.len();
    // the name table's own header now names it `.text` too; it comes last
    elf[len - 64..len - 60].copy_from_slice(&1u32.to_le_bytes());
    let mut file = loaded(elf);
    assert!(matches!(
        file.try_disassemble(),
        Err(ElfError::Disasm(bpf_disasm::rbpf::disassembler::DisasmError::BadLength { len: 17 }))
    ));
}
