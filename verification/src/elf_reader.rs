//! The calls into the `elf` crate that read the section table of an object
//! file and the contents of its sections.
//!
//! Every value handed out here carries, as ghost state, the bytes of the file
//! it was parsed from. Everything that the `elf` crate computes from those
//! bytes is a function of the bytes alone, so each result is named by a spec
//! function applied to them.
use crate::SectionHeader;
use elf::compression::CompressionHeader;
use elf::endian::LittleEndian;
use elf::parse::{ParseError, ParsingTable};
use elf::string_table::StringTable;
use elf::ElfBytes;
use vstd::prelude::*;

verus! {

#[verifier::external_type_specification]
#[verifier::external_body]
pub struct ExStringTable<'data>(StringTable<'data>);

#[verifier::external_type_specification]
#[verifier::external_body]
pub struct ExParseError(ParseError);

#[verifier::external_type_specification]
#[verifier::external_body]
pub struct ExCompressionHeader(CompressionHeader);

/// The `elf` crate's parsed file. Nothing of it is visible to verification.
#[verifier::external_body]
pub struct ElfImage<'data> {
    file: ElfBytes<'data, LittleEndian>,
}

/// The `elf` crate's section header table. Nothing of it is visible to
/// verification.
#[verifier::external_body]
pub struct ShdrTable<'data> {
    table: ParsingTable<'data, LittleEndian, elf::section::SectionHeader>,
}

/// A little-endian ELF file parsed by `ElfBytes::minimal_parse`, with the
/// bytes it was parsed from. Only `minimal_parse` below makes one.
pub struct ParsedElf<'data> {
    image: ElfImage<'data>,
    bytes: Ghost<Seq<u8>>,
}

impl<'data> View for ParsedElf<'data> {
    type V = Seq<u8>;

    closed spec fn view(&self) -> Seq<u8> {
        self.bytes@
    }
}

/// The section header table of a parsed file, with the bytes of the file.
/// Only `section_headers_with_strtab` below makes one.
pub struct SectionTable<'data> {
    table: ShdrTable<'data>,
    bytes: Ghost<Seq<u8>>,
}

impl<'data> View for SectionTable<'data> {
    type V = Seq<u8>;

    closed spec fn view(&self) -> Seq<u8> {
        self.bytes@
    }
}

/// The string table of section names of a parsed file, with the bytes of
/// the file. Only `section_headers_with_strtab` below makes one.
pub struct NameTable<'data> {
    table: StringTable<'data>,
    bytes: Ghost<Seq<u8>>,
}

impl<'data> View for NameTable<'data> {
    type V = Seq<u8>;

    closed spec fn view(&self) -> Seq<u8> {
        self.bytes@
    }
}

/// Whether `ElfBytes::<LittleEndian>::minimal_parse` accepts `file`.
pub uninterp spec fn elf_header_parses(file: Seq<u8>) -> bool;

/// What `section_headers_with_strtab` gives for the file `file`: `None` when
/// it fails, else whether there is a section header table and whether there
/// is a string table of section names.
pub uninterp spec fn elf_section_tables(file: Seq<u8>) -> Option<(bool, bool)>;

/// The number of entries of the section header table of `file`.
pub uninterp spec fn elf_section_count(file: Seq<u8>) -> usize;

/// Entry `index` of the section header table of `file`, if it parses.
pub uninterp spec fn elf_section_header(file: Seq<u8>, index: usize) -> Option<SectionHeader>;

/// The string at `offset` in the string table of section names of `file`,
/// if there is one there.
pub uninterp spec fn elf_section_name(file: Seq<u8>, offset: usize) -> Option<Seq<char>>;

/// The contents of the section of `file` that `shdr` describes, if they can
/// be read.
pub uninterp spec fn elf_section_data(file: Seq<u8>, shdr: SectionHeader) -> Option<Seq<u8>>;

/// `ElfBytes::<LittleEndian>::minimal_parse`: parses the file header of
/// `data` and locates its section and segment tables. Claimed: it succeeds
/// exactly when `elf_header_parses(data)`, and what it gives is the parse of
/// `data`.
#[verifier::external_body]
pub(crate) fn minimal_parse<'data>(data: &'data [u8]) -> (r: Result<ParsedElf<'data>, ParseError>)
    ensures
        r is Ok <==> elf_header_parses(data@),
        r matches Ok(f) ==> f@ == data@,
{
    match ElfBytes::<LittleEndian>::minimal_parse(data) {
        Ok(file) => Ok(ParsedElf { image: ElfImage { file }, bytes: Ghost(data@) }),
        Err(e) => Err(e),
    }
}

/// `ElfBytes::section_headers_with_strtab`: the section header table, if
/// the file has one, and the string table of section names, if it names one.
/// Claimed: the outcome is `elf_section_tables` of the file's bytes, and the
/// tables are those of the same file.
#[verifier::external_body]
pub(crate) fn section_headers_with_strtab<'data>(elf: &ParsedElf<'data>) -> (r: Result<
    (Option<SectionTable<'data>>, Option<NameTable<'data>>),
    ParseError,
>)
    ensures
        match r {
            Err(_) => elf_section_tables(elf@) is None,
            Ok((shdrs, strtab)) => {
                &&& elf_section_tables(elf@) == Some((shdrs is Some, strtab is Some))
                &&& shdrs matches Some(t) ==> t@ == elf@
                &&& strtab matches Some(t) ==> t@ == elf@
            },
        },
{
    let bytes = elf.bytes;
    match elf.image.file.section_headers_with_strtab() {
        Ok((shdrs, strtab)) => Ok((
            shdrs.map(|table| SectionTable { table: ShdrTable { table }, bytes }),
            strtab.map(|table| NameTable { table, bytes }),
        )),
        Err(e) => Err(e),
    }
}

/// `ParsingTable::len`: the number of entries of the section header table.
/// Claimed: it is `elf_section_count` of the file's bytes.
#[verifier::external_body]
pub(crate) fn section_count(table: &SectionTable<'_>) -> (r: usize)
    ensures
        r == elf_section_count(table@),
{
    table.table.table.len()
}

/// `ParsingTable::get`: parses entry `index` of the section header table.
/// Claimed: the outcome is `elf_section_header` of the file's bytes, and it
/// succeeds exactly for the indices below the number of entries (the table
/// holds exactly that many whole entries, and reading past them fails).
#[verifier::external_body]
pub(crate) fn section_header(table: &SectionTable<'_>, index: usize) -> (r: Result<
    SectionHeader,
    ParseError,
>)
    ensures
        match r {
            Ok(h) => elf_section_header(table@, index) == Some(h),
            Err(_) => elf_section_header(table@, index) is None,
        },
        r is Ok <==> index < elf_section_count(table@),
{
    match table.table.table.get(index) {
        Ok(h) => Ok(SectionHeader {
            sh_name: h.sh_name,
            sh_type: h.sh_type,
            sh_flags: h.sh_flags,
            sh_addr: h.sh_addr,
            sh_offset: h.sh_offset,
            sh_size: h.sh_size,
            sh_link: h.sh_link,
            sh_info: h.sh_info,
            sh_addralign: h.sh_addralign,
            sh_entsize: h.sh_entsize,
        }),
        Err(e) => Err(e),
    }
}

/// `StringTable::get`: the string that starts at `offset` in the table of
/// section names. Claimed: the outcome is `elf_section_name` of the file's
/// bytes.
#[verifier::external_body]
pub(crate) fn string_at<'data>(names: &NameTable<'data>, offset: usize) -> (r: Result<
    &'data str,
    ParseError,
>)
    ensures
        match r {
            Ok(s) => elf_section_name(names@, offset) == Some(s@),
            Err(_) => elf_section_name(names@, offset) is None,
        },
{
    names.table.get(offset)
}

/// `ElfBytes::section_data`: the bytes of the section that `shdr` describes,
/// and its compression header if it is compressed. Claimed: the bytes are
/// `elf_section_data` of the file's bytes and `shdr`; nothing is claimed of
/// the compression header.
#[verifier::external_body]
pub(crate) fn section_data<'data>(elf: &ParsedElf<'data>, shdr: &SectionHeader) -> (r: Result<
    (&'data [u8], Option<CompressionHeader>),
    ParseError,
>)
    ensures
        match r {
            Ok((d, _)) => elf_section_data(elf@, *shdr) == Some(d@),
            Err(_) => elf_section_data(elf@, *shdr) is None,
        },
{
    elf.image.file.section_data(
        &elf::section::SectionHeader {
            sh_name: shdr.sh_name,
            sh_type: shdr.sh_type,
            sh_flags: shdr.sh_flags,
            sh_addr: shdr.sh_addr,
            sh_offset: shdr.sh_offset,
            sh_size: shdr.sh_size,
            sh_link: shdr.sh_link,
            sh_info: shdr.sh_info,
            sh_addralign: shdr.sh_addralign,
            sh_entsize: shdr.sh_entsize,
        },
    )
}

} // verus!
