//! Disassembler for eBPF programs, with the ELF plumbing that finds the
//! program text in an object file.
pub mod elf_reader;
pub mod rbpf;
pub mod text;

use crate::elf_reader::{
    elf_header_parses, elf_section_count, elf_section_data, elf_section_header, elf_section_name,
    elf_section_tables, minimal_parse, section_count, section_data, section_header,
    section_headers_with_strtab, string_at, ParsedElf,
};
use crate::rbpf::disassembler::{
    byteswap_warning, disassemble as disassembly, law_slots_filled, lemma_slots_filled_bounds,
    lemma_slots_filled_push, slots_filled, spec_byteswap_warning, try_to_insn_vec, views,
    DisasmError, HLInsn, HLInsnView,
};
use crate::rbpf::ebpf;
use crate::text::{dec_signed, push_dec_signed, to_tabbed, with_tabs};
use elf::parse::ParseError;
use std::collections::HashMap;
use vstd::prelude::*;

verus! {

/// A section header of an ELF file, as the `elf` crate parses it.
#[derive(Debug, Clone, Copy, PartialEq, Eq)]
pub struct SectionHeader {
    /// Section Name
    pub sh_name: u32,
    /// Section Type
    pub sh_type: u32,
    /// Section Flags
    pub sh_flags: u64,
    /// in-memory address where this section is loaded
    pub sh_addr: u64,
    /// Byte-offset into the file where this section starts
    pub sh_offset: u64,
    /// Section size in bytes
    pub sh_size: u64,
    /// Defined by section type
    pub sh_link: u32,
    /// Defined by section type
    pub sh_info: u32,
    /// address alignment
    pub sh_addralign: u64,
    /// size of an entry if section data is an array of entries
    pub sh_entsize: u64,
}


/// An item of a listing of assembly source.
#[derive(Debug, Clone)]
enum Element {
    Opcode { text: String, op: String, operand1: String, operand2: String, comment: String },
    Text { text: String },
    Include { text: String, target: String },
    Macro { label: String, texts: Vec<String>, text: String },
}

/// A reader of assembly source, by line.
pub struct Parser {
    line: usize,
}

impl Parser {
    /// The line that the parser is at.
    pub closed spec fn current_line(&self) -> nat {
        self.line as nat
    }

    /// A parser at the first line.
    pub fn new() -> (p: Self)
        ensures
            p.current_line() == 0,
    {
        return Self { line: 0 };
    }
}

/// A node of the control-flow graph of a program.
#[derive(Clone)]
pub struct Node {
    pub global: String,
    pub text: String,
    elements: Vec<Element>,
    pub next: String,
    pub next_cond: String,
    pub calls: Vec<String>,
}

/// The nodes of a control-flow graph, by name.
pub type Nodes = HashMap<String, Node>;

/// Number of bytes that the loaded data holds before the ELF file itself.
pub const ELF_START: usize = 45;

/// Why the loaded data cannot be listed or disassembled. Each variant says
/// which step failed; those that carry a `ParseError` carry the one that the
/// `elf` crate gave.
#[derive(Debug)]
pub enum ElfError {
    /// The data is shorter than `ELF_START` bytes.
    TooShort { len: usize },
    /// The ELF file header could not be parsed.
    Open(ParseError),
    /// The section header table or its string table could not be located.
    SectionTable(ParseError),
    /// The file has no section header table.
    NoSectionHeaders,
    /// The file has no string table of section names.
    NoStringTable,
    /// The name of a section could not be read.
    SectionName(ParseError),
    /// No section is named `.text`.
    NoTextSection,
    /// The contents of the `.text` section could not be read.
    SectionData(ParseError),
    /// The `.text` section is not an eBPF program that disassembles.
    Disasm(DisasmError),
}

/// An ELF object file, loaded as bytes, whose `.text` section holds an eBPF
/// program.
pub struct ElfFile {
    raw_data: Vec<u8>,
}

impl View for ElfFile {
    type V = Seq<u8>;

    closed spec fn view(&self) -> Seq<u8> {
        self.raw_data@
    }
}

/// The step at which listing or disassembling the loaded data fails: the
/// variants of `ElfError`, without the `elf` crate's error values.
pub enum ElfFailure {
    TooShort,
    Open,
    SectionTable,
    NoSectionHeaders,
    NoStringTable,
    SectionName,
    NoTextSection,
    SectionData,
    Disasm(DisasmError),
}

/// The step at which `e` says the work failed.
pub open spec fn failure(e: ElfError) -> ElfFailure {
    match e {
        ElfError::TooShort { .. } => ElfFailure::TooShort,
        ElfError::Open(_) => ElfFailure::Open,
        ElfError::SectionTable(_) => ElfFailure::SectionTable,
        ElfError::NoSectionHeaders => ElfFailure::NoSectionHeaders,
        ElfError::NoStringTable => ElfFailure::NoStringTable,
        ElfError::SectionName(_) => ElfFailure::SectionName,
        ElfError::NoTextSection => ElfFailure::NoTextSection,
        ElfError::SectionData(_) => ElfFailure::SectionData,
        ElfError::Disasm(d) => ElfFailure::Disasm(d),
    }
}

/// The ELF file in the loaded data: the bytes from `ELF_START` on.
pub open spec fn elf_part(data: Seq<u8>) -> Seq<u8> {
    data.subrange(ELF_START as int, data.len() as int)
}

/// Entry `i` of the section header table of `file`.
pub open spec fn header_at(file: Seq<u8>, i: int) -> SectionHeader {
    elf_section_header(file, i as usize).unwrap()
}

/// The name of entry `i` of the section header table of `file`, if it can
/// be read.
pub open spec fn name_at(file: Seq<u8>, i: int) -> Option<Seq<char>> {
    elf_section_name(file, header_at(file, i).sh_name as usize)
}

/// The sections of `file` with their names, in table order, where every
/// entry parses and every name can be read.
pub open spec fn sections_of(file: Seq<u8>) -> Seq<(Seq<char>, SectionHeader)> {
    Seq::new(
        elf_section_count(file) as nat,
        |i: int| (name_at(file, i).unwrap(), header_at(file, i)),
    )
}

/// The named sections of the parsed file `file`, or the step that fails.
pub open spec fn spec_named_sections(file: Seq<u8>) -> Result<
    Seq<(Seq<char>, SectionHeader)>,
    ElfFailure,
> {
    match elf_section_tables(file) {
        None => Err(ElfFailure::SectionTable),
        Some((false, _)) => Err(ElfFailure::NoSectionHeaders),
        Some((true, false)) => Err(ElfFailure::NoStringTable),
        Some((true, true)) => if forall|i: int|
            0 <= i < elf_section_count(file) ==> elf_section_header(file, i as usize) is Some
                && #[trigger] name_at(file, i) is Some {
            Ok(sections_of(file))
        } else {
            Err(ElfFailure::SectionName)
        },
    }
}

/// The named sections of the ELF file in the loaded data `data`, in table
/// order, or the step that fails.
pub open spec fn spec_sections(data: Seq<u8>) -> Result<Seq<(Seq<char>, SectionHeader)>, ElfFailure> {
    if data.len() < ELF_START {
        Err(ElfFailure::TooShort)
    } else if !elf_header_parses(elf_part(data)) {
        Err(ElfFailure::Open)
    } else {
        spec_named_sections(elf_part(data))
    }
}

/// The contents of the last section named `.text` of the ELF file in the
/// loaded data `data`, or the step that fails.
pub open spec fn spec_text_section(data: Seq<u8>) -> Result<Seq<u8>, ElfFailure> {
    match spec_sections(data) {
        Err(f) => Err(f),
        Ok(sections) => match last_named(sections, ".text"@) {
            None => Err(ElfFailure::NoTextSection),
            Some(h) => match elf_section_data(elf_part(data), h) {
                None => Err(ElfFailure::SectionData),
                Some(bytes) => Ok(bytes),
            },
        },
    }
}

/// The listing of the eBPF program in the `.text` section of the ELF file in
/// the loaded data `data`, or the step that fails.
pub open spec fn spec_file_listing(data: Seq<u8>) -> Result<Seq<ListingLineView>, ElfFailure> {
    match spec_text_section(data) {
        Err(f) => Err(f),
        Ok(text) => match disassembly(text) {
            Err(e) => Err(ElfFailure::Disasm(e)),
            Ok(hs) => Ok(spec_listing(hs)),
        },
    }
}

/// The named sections as character sequences.
pub open spec fn section_views(v: Seq<(String, SectionHeader)>) -> Seq<(Seq<char>, SectionHeader)> {
    v.map_values(|p: (String, SectionHeader)| (p.0@, p.1))
}

/// The view of the outcome of listing sections.
pub open spec fn sections_result(r: Result<Vec<(String, SectionHeader)>, ElfError>) -> Result<
    Seq<(Seq<char>, SectionHeader)>,
    ElfFailure,
> {
    match r {
        Ok(v) => Ok(section_views(v@)),
        Err(e) => Err(failure(e)),
    }
}

/// The view of the outcome of a listing.
pub open spec fn listing_result(r: Result<Vec<ListingLine>, ElfError>) -> Result<
    Seq<ListingLineView>,
    ElfFailure,
> {
    match r {
        Ok(v) => Ok(v@.map_values(|l: ListingLine| l@)),
        Err(e) => Err(failure(e)),
    }
}

/// Parses the ELF file that starts `ELF_START` bytes into `data`.
fn open<'a>(data: &'a [u8]) -> (r: Result<ParsedElf<'a>, ElfError>)
    ensures
        match r {
            Ok(elf) => data@.len() >= ELF_START && elf_header_parses(elf_part(data@)) && elf@
                == elf_part(data@),
            Err(e) => spec_sections(data@) == Err::<Seq<(Seq<char>, SectionHeader)>, ElfFailure>(
                failure(e),
            ) && (e is TooShort || e is Open),
        },
        r matches Err(ElfError::TooShort { len }) ==> len == data@.len(),
{
    if data.len() < ELF_START {
        return Err(ElfError::TooShort { len: data.len() });
    }
    let (_, file_data) = data.split_at(ELF_START);
    match minimal_parse(file_data) {
        Ok(elf) => Ok(elf),
        Err(e) => Err(ElfError::Open(e)),
    }
}

/// The section headers of `elf` with their names, in the order of the
/// section header table.
fn named_sections(elf: &ParsedElf) -> (r: Result<Vec<(String, SectionHeader)>, ElfError>)
    ensures
        sections_result(r) == spec_named_sections(elf@),
{
    let (shdrs_opt, strtab_opt) = match section_headers_with_strtab(elf) {
        Ok(tables) => tables,
        Err(e) => {
            return Err(ElfError::SectionTable(e));
        },
    };
    let shdrs = match shdrs_opt {
        Some(shdrs) => shdrs,
        None => {
            return Err(ElfError::NoSectionHeaders);
        },
    };
    let strtab = match strtab_opt {
        Some(strtab) => strtab,
        None => {
            return Err(ElfError::NoStringTable);
        },
    };
    let ghost file = elf@;
    let count = section_count(&shdrs);
    let mut sections: Vec<(String, SectionHeader)> = Vec::new();
    let mut i: usize = 0;
    // The table yields its entries in order, up to the first one that does not parse.
    while i < count
        invariant
            file == elf@,
            shdrs@ == file,
            strtab@ == file,
            count == elf_section_count(file),
            elf_section_tables(file) == Some((true, true)),
            i <= count,
            forall|j: int|
                0 <= j < i ==> elf_section_header(file, j as usize) is Some && #[trigger] name_at(
                    file,
                    j,
                ) is Some,
            section_views(sections@) == sections_of(file).take(i as int),
        ensures
            i == count,
        decreases count - i,
    {
        let shdr = match section_header(&shdrs, i) {
            Ok(shdr) => shdr,
            Err(_) => {
                break;
            },
        };
        let name = match string_at(&strtab, shdr.sh_name as usize) {
            Ok(name) => name,
            Err(e) => {
                assert(name_at(file, i as int) is None);
                return Err(ElfError::SectionName(e));
            },
        };
        let ghost old_sections = sections@;
        sections.push((name.to_owned(), shdr));
        assert(section_views(sections@) =~= section_views(old_sections).push(
            (name@, shdr),
        ));
        assert(sections_of(file).take(i + 1) =~= sections_of(file).take(i as int).push(
            sections_of(file)[i as int],
        ));
        i += 1;
    }
    assert(sections_of(file).take(count as int) =~= sections_of(file));
    Ok(sections)
}

/// The header of the last section of `sections` named `name`, if any.
pub open spec fn last_named(sections: Seq<(Seq<char>, SectionHeader)>, name: Seq<char>) -> Option<
    SectionHeader,
>
    decreases sections.len(),
{
    if sections.len() == 0 {
        None
    } else if sections.last().0 == name {
        Some(sections.last().1)
    } else {
        last_named(sections.drop_last(), name)
    }
}

/// The header of the section named `name`, where a later section of the same
/// name hides an earlier one.
pub fn find_section(sections: &Vec<(String, SectionHeader)>, name: &str) -> (r: Option<
    SectionHeader,
>)
    ensures
        r == last_named(section_views(sections@), name@),
{
    let target = name.to_owned();
    let mut found: Option<SectionHeader> = None;
    let mut i: usize = 0;
    while i < sections.len()
        invariant
            i <= sections@.len(),
            target@ == name@,
            found == last_named(section_views(sections@.take(i as int)), name@),
        decreases sections@.len() - i,
    {
        if sections[i].0 == target {
            found = Some(sections[i].1);
        }
        assert(sections@.take(i + 1).drop_last() =~= sections@.take(i as int));
        assert(section_views(sections@.take(i + 1)).drop_last() =~= section_views(
            sections@.take(i as int),
        ));
        i += 1;
    }
    assert(sections@.take(i as int) =~= sections@);
    found
}

/// Whether the instruction with opcode `opc` is a jump, of either jump
/// class, but not a call, a tail call or an exit. Jumps are relative to the
/// current instruction.
pub open spec fn spec_is_jmp(opc: u8) -> bool {
    &&& (opc % 8 == ebpf::BPF_JMP || opc % 8 == ebpf::BPF_JMP32)
    &&& opc != ebpf::CALL
    &&& opc != ebpf::TAIL_CALL
    &&& opc != ebpf::EXIT
}

// Check if the instruction is a jump
// (but not a call, tailcall or exit)
//
// Jumps are relative from the current instruction pointer
fn is_jmp(insn: &HLInsn) -> (r: bool)
    ensures
        r == spec_is_jmp(insn.opc),
{
    let opc = insn.opc;
    assert(opc & 0x07 == opc % 8) by (bit_vector);
    let class = insn.opc & 0x07;
    (class == ebpf::BPF_JMP || class == ebpf::BPF_JMP32) && (insn.opc != ebpf::CALL) && (insn.opc
        != ebpf::TAIL_CALL) && (insn.opc != ebpf::EXIT)
}

// Check if the instruction is spread across two instructions
//
// Currently only a wide load uses a second instruction for the u64 field.
fn is_wide_op(insn: &HLInsn) -> (r: bool)
    ensures
        r == (insn.opc == ebpf::LD_DW_IMM),
{
    insn.opc == ebpf::LD_DW_IMM
}

/// One instruction of a listing: its description, with tabs for spaces; for
/// a jump, a note of the slot it jumps to; and the warning that the
/// disassembler gives for it, if any.
#[derive(Debug, Clone, PartialEq, Eq)]
pub struct ListingLine {
    pub text: String,
    pub jump: Option<String>,
    pub warning: Option<String>,
}

/// The mathematical content of a `ListingLine`.
pub struct ListingLineView {
    pub text: Seq<char>,
    pub jump: Option<Seq<char>>,
    pub warning: Option<Seq<char>>,
}

impl View for ListingLine {
    type V = ListingLineView;

    open spec fn view(&self) -> ListingLineView {
        ListingLineView {
            text: self.text@,
            jump: match self.jump {
                Some(j) => Some(j@),
                None => None,
            },
            warning: match self.warning {
                Some(w) => Some(w@),
                None => None,
            },
        }
    }
}

/// The slot in which instruction `i` of `insns` starts: the slots filled by
/// the instructions before it.
pub open spec fn slot_of(insns: Seq<HLInsnView>, i: int) -> int {
    slots_filled(insns.take(i))
}

/// The note for a jump to slot `target`.
pub open spec fn jump_note(target: int) -> Seq<char> {
    seq!['\t', '(', 'j', 'u', 'm', 'p', ' ', 't', 'o', ' '] + dec_signed(target) + seq![')']
}

/// The listing line of instruction `i` of `insns`.
pub open spec fn listing_line(insns: Seq<HLInsnView>, i: int) -> ListingLineView {
    let h = insns[i];
    ListingLineView {
        text: with_tabs(h.desc),
        jump: if spec_is_jmp(h.opc) {
            Some(jump_note(slot_of(insns, i) + h.off))
        } else {
            None
        },
        warning: spec_byteswap_warning(h),
    }
}

/// The listing of `insns`, one line for each.
pub open spec fn spec_listing(insns: Seq<HLInsnView>) -> Seq<ListingLineView> {
    Seq::new(insns.len(), |i: int| listing_line(insns, i))
}

/// The listing of `insns`. The length bound holds of any vector that fits
/// in memory, since an `HLInsn` takes more than four bytes.
pub fn listing(insns: &Vec<HLInsn>) -> (lines: Vec<ListingLine>)
    requires
        insns@.len() <= isize::MAX / 4,
    ensures
        lines@.map_values(|l: ListingLine| l@) == spec_listing(views(insns@)),
{
    let ghost hs = views(insns@);
    let mut lines: Vec<ListingLine> = Vec::new();
    let mut idx: isize = 0;
    let mut i: usize = 0;
    proof {
        assert(hs.take(0) =~= Seq::<HLInsnView>::empty());
    }
    while i < insns.len()
        invariant
            i <= insns@.len(),
            insns@.len() <= isize::MAX / 4,
            hs == views(insns@),
            idx == slot_of(hs, i as int),
            0 <= idx <= 2 * i,
            lines@.len() == i,
            forall|k: int| 0 <= k < i ==> #[trigger] lines@[k]@ == listing_line(hs, k),
        decreases insns@.len() - i,
    {
        let insn = &insns[i];
        assert(hs[i as int] == insn@);
        let text = to_tabbed(insn.desc.as_str());
        let jump = if is_jmp(insn) {
            let prefix = "\t(jump to ";
            proof {
                reveal_strlit("\t(jump to ");
                reveal_strlit(")");
            }
            assert(prefix@ =~= seq!['\t', '(', 'j', 'u', 'm', 'p', ' ', 't', 'o', ' ']);
            let mut note = prefix.to_owned();
            push_dec_signed(&mut note, (idx + insn.off as isize) as i64);
            let close = ")";
            assert(close@ =~= seq![')']);
            note.append(close);
            assert(note@ =~= jump_note(slot_of(hs, i as int) + insn.off));
            Some(note)
        } else {
            None
        };
        proof {
            assert(hs.take(i + 1) =~= hs.take(i as int).push(hs[i as int]));
            lemma_slots_filled_push(hs.take(i as int), hs[i as int]);
        }
        if is_wide_op(insn) {
            idx += 1;
        }
        idx += 1;
        let warning = byteswap_warning(insn);
        lines.push(ListingLine { text, jump, warning });
        i += 1;
    }
    assert(lines@.map_values(|l: ListingLine| l@) =~= spec_listing(hs));
    lines
}

impl ElfFile {
    /// An empty file.
    pub fn new() -> (f: ElfFile)
        ensures
            f@ == Seq::<u8>::empty(),
    {
        let init = Vec::new();
        ElfFile { raw_data: init }
    }

    /// Replaces the bytes of the file with `data`.
    pub fn load(&mut self, data: Vec<u8>)
        ensures
            final(self)@ == data@,
    {
        self.raw_data = data;
    }

    /// The section headers of the file, with their names, in the order of
    /// the section header table; or the step at which reading them fails.
    pub fn try_list_sections(&mut self) -> (r: Result<Vec<(String, SectionHeader)>, ElfError>)
        ensures
            final(self)@ == old(self)@,
            sections_result(r) == spec_sections(old(self)@),
            r matches Err(ElfError::TooShort { len }) ==> len == old(self)@.len(),
    {
        let data = self.raw_data.as_slice();
        let elf = open(data)?;
        named_sections(&elf)
    }

    /// The section headers of the file, with their names, in the order of
    /// the section header table. The file must be an ELF file, after
    /// `ELF_START` bytes, whose sections and their names can be read.
    pub fn list_sections(&mut self) -> (r: Vec<(String, SectionHeader)>)
        requires
            spec_sections(old(self)@) is Ok,
        ensures
            final(self)@ == old(self)@,
            spec_sections(old(self)@) == Ok::<Seq<(Seq<char>, SectionHeader)>, ElfFailure>(
                section_views(r@),
            ),
    {
        match self.try_list_sections() {
            Ok(sections) => sections,
            Err(_) => Vec::new(),
        }
    }

    /// The listing of the eBPF program in the `.text` section of the file,
    /// or the step at which making it fails. Where several sections are
    /// named `.text`, the last one is taken.
    pub fn try_disassemble(&mut self) -> (r: Result<Vec<ListingLine>, ElfError>)
        ensures
            final(self)@ == old(self)@,
            listing_result(r) == spec_file_listing(old(self)@),
            r matches Err(ElfError::TooShort { len }) ==> len == old(self)@.len(),
    {
        let data = self.raw_data.as_slice();
        let elf = open(data)?;
        let sections = named_sections(&elf)?;
        let scn = match find_section(&sections, ".text") {
            Some(scn) => scn,
            None => {
                return Err(ElfError::NoTextSection);
            },
        };
        let (text_scn, _) = match section_data(&elf, &scn) {
            Ok(f) => f,
            Err(e) => {
                return Err(ElfError::SectionData(e));
            },
        };
        let insns = match try_to_insn_vec(text_scn) {
            Ok(insns) => insns,
            Err(e) => {
                return Err(ElfError::Disasm(e));
            },
        };
        let text_len = text_scn.len();
        proof {
            law_slots_filled(text_scn@);
            lemma_slots_filled_bounds(views(insns@));
            assert(text_len / 8 <= isize::MAX / 4);
        }
        let lines = listing(&insns);
        Ok(lines)
    }

    /// The listing of the eBPF program in the `.text` section of the file.
    /// Where several sections are named `.text`, the last one is taken. The
    /// file must be one whose `.text` section can be found and read, and
    /// disassembles.
    pub fn disassemble(&mut self) -> (r: Vec<ListingLine>)
        requires
            spec_file_listing(old(self)@) is Ok,
        ensures
            final(self)@ == old(self)@,
            spec_file_listing(old(self)@) == Ok::<Seq<ListingLineView>, ElfFailure>(
                r@.map_values(|l: ListingLine| l@),
            ),
    {
        match self.try_disassemble() {
            Ok(lines) => lines,
            Err(_) => Vec::new(),
        }
    }
}

/// Only jumps get a jump note: the line of instruction `i` has one exactly
/// when its class (the low three bits of the opcode) is that of the jumps (5)
/// or of the 32-bit jumps (6) and it is not a call (0x85), a tail call
/// (0x8d) or an exit (0x95); the note names the slot where the instruction
/// starts plus its offset, in decimal.
pub proof fn law_jump_notes(insns: Seq<HLInsnView>, i: int)
    requires
        0 <= i < insns.len(),
    ensures
        spec_listing(insns)[i].jump is Some <==> ((insns[i].opc % 8 == 5 || insns[i].opc % 8 == 6)
            && insns[i].opc != 0x85 && insns[i].opc != 0x8d && insns[i].opc != 0x95),
        spec_listing(insns)[i].jump matches Some(note) ==> note == seq![
            '\t',
            '(',
            'j',
            'u',
            'm',
            'p',
            ' ',
            't',
            'o',
            ' ',
        ] + dec_signed(slots_filled(insns.take(i)) + insns[i].off) + seq![')'],
{
}

/// `last_named` finds the last section of that name.
proof fn lemma_last_named(sections: Seq<(Seq<char>, SectionHeader)>, name: Seq<char>)
    ensures
        last_named(sections, name) matches Some(h) ==> exists|j: int|
            0 <= j < sections.len() && #[trigger] sections[j] == (name, h) && forall|k: int|
                j < k < sections.len() ==> (#[trigger] sections[k]).0 != name,
        last_named(sections, name) is None ==> forall|k: int|
            0 <= k < sections.len() ==> (#[trigger] sections[k]).0 != name,
    decreases sections.len(),
{
    if sections.len() > 0 {
        let init = sections.drop_last();
        lemma_last_named(init, name);
        if sections.last().0 == name {
            assert(sections[sections.len() - 1] == (name, sections.last().1));
        } else {
            assert forall|k: int| 0 <= k < init.len() implies sections[k] == init[k] by {}
            if let Some(h) = last_named(init, name) {
                let j = choose|j: int|
                    0 <= j < init.len() && #[trigger] init[j] == (name, h) && forall|k: int|
                        j < k < init.len() ==> (#[trigger] init[k]).0 != name;
                assert(sections[j] == (name, h));
                assert forall|k: int| j < k < sections.len() implies (#[trigger] sections[k]).0
                    != name by {
                    if k < init.len() {
                        assert(init[k].0 != name);
                    }
                }
            } else {
                assert forall|k: int| 0 <= k < sections.len() implies (#[trigger] sections[k]).0
                    != name by {
                    if k < init.len() {
                        assert(init[k].0 != name);
                    }
                }
            }
        }
    }
}

/// The sections listed are the entries of the file's section header table,
/// all of them and in order, each unchanged, each with the name that the
/// table of section names gives at its `sh_name`.
pub proof fn law_listed_sections(data: Seq<u8>)
    requires
        spec_sections(data) is Ok,
    ensures
        ({
            let s = spec_sections(data)->Ok_0;
            let file = data.subrange(45, data.len() as int);
            &&& s.len() == elf_section_count(file)
            &&& forall|i: int|
                0 <= i < s.len() ==> elf_section_header(file, i as usize) == Some(#[trigger] s[i].1)
                    && elf_section_name(file, s[i].1.sh_name as usize) == Some(s[i].0)
        }),
{
    let file = elf_part(data);
    let s = spec_sections(data)->Ok_0;
    assert forall|i: int| 0 <= i < s.len() implies elf_section_header(file, i as usize) == Some(
        #[trigger] s[i].1,
    ) && elf_section_name(file, s[i].1.sh_name as usize) == Some(s[i].0) by {
        assert(name_at(file, i) is Some);
    }
}

/// What is disassembled is the contents of the last section of the file
/// whose name is `.text`: there is such an entry `j` in the section header
/// table, no later entry has that name, and the listing is that of the
/// disassembly of the bytes of section `j`.
pub proof fn law_text_section_listed(data: Seq<u8>)
    requires
        spec_file_listing(data) is Ok,
    ensures
        ({
            let file = data.subrange(45, data.len() as int);
            exists|j: int|
                #![trigger elf_section_header(file, j as usize)]
                0 <= j < elf_section_count(file) && {
                    let h = elf_section_header(file, j as usize)->Some_0;
                    &&& elf_section_header(file, j as usize) is Some
                    &&& elf_section_name(file, h.sh_name as usize) == Some(".text"@)
                    &&& forall|k: int|
                        j < k < elf_section_count(file) ==> elf_section_name(
                            file,
                            (#[trigger] elf_section_header(file, k as usize))->Some_0.sh_name
                                as usize,
                        ) != Some(".text"@)
                    &&& elf_section_data(file, h) matches Some(text) && disassembly(text) matches Ok(
                        hs,
                    ) && spec_file_listing(data) == Ok::<Seq<ListingLineView>, ElfFailure>(
                        spec_listing(hs),
                    )
                }
        }),
{
    let file = elf_part(data);
    let s = spec_sections(data)->Ok_0;
    law_listed_sections(data);
    lemma_last_named(s, ".text"@);
    let h = last_named(s, ".text"@)->Some_0;
    let j = choose|j: int|
        0 <= j < s.len() && #[trigger] s[j] == (".text"@, h) && forall|k: int|
            j < k < s.len() ==> (#[trigger] s[k]).0 != ".text"@;
    assert(s[j] == (".text"@, h));
    assert forall|k: int| j < k < elf_section_count(file) implies elf_section_name(
        file,
        (#[trigger] elf_section_header(file, k as usize))->Some_0.sh_name as usize,
    ) != Some(".text"@) by {
        assert(s[k].0 != ".text"@);
        assert(elf_section_header(file, k as usize) == Some(s[k].1));
    }
    assert(elf_section_header(file, j as usize) == Some(s[j].1));
}

/// The text of a listing line is the instruction's description with each
/// space turned into a tab and every other character kept; a line carries a
/// warning exactly for a byte swap (opcode 0xd4 or 0xdc) whose width is not
/// 16, 32 or 64.
pub proof fn law_listing_text_and_warning(insns: Seq<HLInsnView>, i: int)
    requires
        0 <= i < insns.len(),
    ensures
        spec_listing(insns)[i].text.len() == insns[i].desc.len(),
        forall|j: int|
            0 <= j < insns[i].desc.len() ==> #[trigger] spec_listing(insns)[i].text[j] == if insns[i].desc[j]
                == ' ' {
                '\t'
            } else {
                insns[i].desc[j]
            },
        spec_listing(insns)[i].warning is Some <==> ((insns[i].opc == 0xd4 || insns[i].opc == 0xdc)
            && insns[i].imm != 16 && insns[i].imm != 32 && insns[i].imm != 64),
{
}

} // verus!
