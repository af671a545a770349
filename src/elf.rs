//! The ELF image model: headers, section and program tables, symbols and
//! relocations, decoded from the bytes of an image file.
use crate::bytes::{c_string_at, read_u16, read_u32, read_u64, string_at, u16_at, u32_at, u64_at};
use vstd::arithmetic::div_mod::{lemma_fundamental_div_mod, lemma_mod_pos_bound};
use crate::dynamic::{dynamic_of, Elf64Dynamic};
use vstd::slice::{slice_subrange, slice_to_vec};
use vstd::prelude::*;

verus! {

pub const IDENT_SIZE: usize = 16;

pub const ELF_HEADER_SIZE: usize = 64;

pub const PROGRAM_HEADER_SIZE: usize = 56;

pub const SECTION_HEADER_SIZE: usize = 64;

pub const SYMBOL_ENTRY_SIZE: usize = 24;

pub const RELOCATION_ENTRY_SIZE: usize = 24;

pub const ELF_CLASS_64: u8 = 2;

pub const ELF_DATA_LITTLE_ENDIAN: u8 = 1;

pub const MACHINE_AMD64: u16 = 0x3E;

/// The fixed-size header at the start of every image.
#[derive(Clone, Copy, Debug, PartialEq, Eq)]
pub struct Elf64Header {
    pub e_ident: [u8; IDENT_SIZE],
    pub e_type: u16,
    pub e_machine: u16,
    pub e_version: u32,
    pub e_entry: u64,
    pub e_program_header_offset: u64,
    pub e_section_header_offset: u64,
    pub e_flags: u32,
    pub e_elf_header_size: u16,
    pub e_program_header_entry_size: u16,
    pub e_program_header_entries: u16,
    pub e_section_header_entry_size: u16,
    pub e_section_header_entries: u16,
    pub e_section_name_string_table_index: u16,
}

pub const PROGRAM_HEADER_TYPE_LOADABLE: u32 = 1;

pub const PROGRAM_HEADER_TYPE_DYNAMIC: u32 = 2;

pub const PROGRAM_FLAG_EXECUTE: u32 = 1;

pub const PROGRAM_FLAG_WRITE: u32 = 2;

pub const PROGRAM_FLAG_READ: u32 = 4;

/// One entry of the program-header table: a segment of the running image.
#[derive(Clone, Copy, Debug, PartialEq, Eq)]
pub struct Elf64ProgramHeader {
    pub p_type: u32,
    pub p_flags: u32,
    pub p_offset: u64,
    pub p_virtual_address: u64,
    pub p_physical_address: u64,
    pub p_file_size: u64,
    pub p_memory_size: u64,
    pub p_align: u64,
}

pub const ELF64_SECTION_HEADER_UNUSED: u32 = 0;

pub const ELF64_SECTION_HEADER_SYMBOL_TABLE: u32 = 2;

pub const ELF64_SECTION_HEADER_STRING_TABLE: u32 = 3;

pub const ELF64_SECTION_HEADER_RELOCATION_ADDEND: u32 = 4;

pub const ELF64_SECTION_HEADER_DYNAMIC: u32 = 6;

pub const ELF64_SECTION_HEADER_NO_BITS: u32 = 8;

pub const ELF64_SECTION_HEADER_DYNAMIC_SYMBOL_TABLE: u32 = 11;

pub const SECTION_FLAG_WRITE: u64 = 1;

pub const SECTION_FLAG_ALLOCATED: u64 = 2;

pub const SECTION_FLAG_EXECUTABLE_INSTRUCTIONS: u64 = 4;

/// One entry of the section-header table.
#[derive(Clone, Copy, Debug, PartialEq, Eq)]
pub struct Elf64SectionHeader {
    pub sh_name: u32,
    pub sh_type: u32,
    pub sh_flags: u64,
    pub sh_virtual_address: u64,
    pub sh_offset: u64,
    pub sh_size: u64,
    pub sh_link: u32,
    pub sh_info: u32,
    pub sh_address_align: u64,
    pub sh_entry_size: u64,
}

/// A symbol-table entry as it is stored in the file.
#[derive(Clone, Copy, Debug, PartialEq, Eq)]
pub struct Elf64SymbolTableEntry {
    pub st_name: u32,
    pub st_info: u8,
    pub st_other: u8,
    pub st_section_index: u16,
    pub st_value: u64,
    pub st_size: u64,
}

pub const SYMBOL_BINDING_LOCAL: u8 = 0;

pub const SYMBOL_BINDING_GLOBAL: u8 = 1;

pub const SYMBOL_BINDING_WEAK: u8 = 2;

pub const SYMBOL_TYPE_NO_TYPE: u8 = 0;

pub const SYMBOL_TYPE_OBJECT: u8 = 1;

pub const SYMBOL_TYPE_FUNCTION: u8 = 2;

pub const SYMBOL_TYPE_SECTION: u8 = 3;

pub const SYMBOL_TYPE_FILE: u8 = 4;

pub const SYMBOL_TYPE_INDIRECT_FUNCTION: u8 = 10;

pub const SHN_UNDEF: u16 = 0;

pub const SHN_ABSOLUTE: u16 = 0xfff1;

pub const SHN_COMMON: u16 = 0xfff2;

/// A symbol with its name taken from the linked string table.
#[derive(Clone, Debug, PartialEq, Eq)]
pub struct Elf64ResolvedSymbolTableEntry {
    pub symbol_name: Vec<u8>,
    pub binding: u8,
    pub symbol_type: u8,
    pub section_index: u16,
    pub value: u64,
    pub size: u64,
}

/// What a resolved symbol holds, with its name as a sequence of bytes.
pub struct SymbolView {
    pub name: Seq<u8>,
    pub binding: u8,
    pub symbol_type: u8,
    pub section_index: u16,
    pub value: u64,
    pub size: u64,
}

impl View for Elf64ResolvedSymbolTableEntry {
    type V = SymbolView;

    open spec fn view(&self) -> SymbolView {
        SymbolView {
            name: self.symbol_name@,
            binding: self.binding,
            symbol_type: self.symbol_type,
            section_index: self.section_index,
            value: self.value,
            size: self.size,
        }
    }
}

impl SymbolView {
    pub open spec fn undefined(self) -> bool {
        self.section_index == SHN_UNDEF && self.value == 0
    }

    pub open spec fn global(self) -> bool {
        self.binding == SYMBOL_BINDING_GLOBAL
    }

    pub open spec fn weak(self) -> bool {
        self.binding == SYMBOL_BINDING_WEAK
    }

    pub open spec fn indirect_function(self) -> bool {
        self.symbol_type == SYMBOL_TYPE_INDIRECT_FUNCTION
    }
}

impl Elf64ResolvedSymbolTableEntry {
    /// Defined nowhere: no section and no value.
    pub fn undefined(&self) -> (r: bool)
        ensures
            r == self@.undefined(),
    {
        self.section_index == SHN_UNDEF && self.value == 0
    }

    pub fn global(&self) -> (r: bool)
        ensures
            r == self@.global(),
    {
        self.binding == SYMBOL_BINDING_GLOBAL
    }

    pub fn weak(&self) -> (r: bool)
        ensures
            r == self@.weak(),
    {
        self.binding == SYMBOL_BINDING_WEAK
    }

    /// A symbol whose address is computed at load time by calling its value.
    pub fn indirect_function(&self) -> (r: bool)
        ensures
            r == self@.indirect_function(),
    {
        self.symbol_type == SYMBOL_TYPE_INDIRECT_FUNCTION
    }

    /// A copy that holds the same view.
    pub fn duplicate(&self) -> (r: Elf64ResolvedSymbolTableEntry)
        ensures
            r@ == self@,
    {
        Elf64ResolvedSymbolTableEntry {
            symbol_name: self.symbol_name.clone(),
            binding: self.binding,
            symbol_type: self.symbol_type,
            section_index: self.section_index,
            value: self.value,
            size: self.size,
        }
    }
}

/// A relocation-with-addend entry as it is stored in the file.
#[derive(Clone, Copy, Debug, PartialEq, Eq)]
pub struct Elf64RelocationAddend {
    pub offset: u64,
    pub info: u64,
    pub addend: i64,
}

pub const RELOCATION_X86_64_NONE: u64 = 0;

pub const RELOCATION_X86_64_64: u64 = 1;

pub const RELOCATION_X86_64_PC32: u64 = 2;

pub const RELOCATION_X86_64_GOT32: u64 = 3;

pub const RELOCATION_X86_64_PLT32: u64 = 4;

pub const RELOCATION_X86_64_COPY: u64 = 5;

pub const RELOCATION_X86_64_GLOB_DAT: u64 = 6;

pub const RELOCATION_X86_64_JUMP_SLOT: u64 = 7;

pub const RELOCATION_X86_64_RELATIVE: u64 = 8;

pub const RELOCATION_X86_64_IRELATIV: u64 = 37;

/// A relocation with the name of the symbol that it refers to.
#[derive(Clone, Debug, PartialEq, Eq)]
pub struct Elf64ResolvedRelocationAddend {
    pub symbol_name: Vec<u8>,
    pub symbol_index: u64,
    pub relocation_type: u64,
    pub offset: u64,
    pub addend: i64,
}

pub struct RelocationView {
    pub symbol_name: Seq<u8>,
    pub symbol_index: u64,
    pub relocation_type: u64,
    pub offset: u64,
    pub addend: i64,
}

impl View for Elf64ResolvedRelocationAddend {
    type V = RelocationView;

    open spec fn view(&self) -> RelocationView {
        RelocationView {
            symbol_name: self.symbol_name@,
            symbol_index: self.symbol_index,
            relocation_type: self.relocation_type,
            offset: self.offset,
            addend: self.addend,
        }
    }
}

/// Why an image could not be decoded.
#[derive(Clone, Copy, Debug, PartialEq, Eq)]
pub enum ParseError {
    /// The file ends before a table that the image describes.
    Truncated,
    /// The first four bytes are not `7F 45 4C 46`.
    NotElf,
    /// The class byte (found) is not the one of 64-bit images.
    WrongClass(u8),
    /// The data-encoding byte (found) is not little-endian.
    WrongEncoding(u8),
    /// The machine (found) is not AMD64.
    WrongMachine(u16),
}

// ---------------------------------------------------------------------------
// Decoding of fixed-size records.
pub open spec fn header_decoded(h: Elf64Header, s: Seq<u8>) -> bool {
    &&& h.e_ident@ == s.subrange(0, IDENT_SIZE as int)
    &&& h.e_type == u16_at(s, 16)
    &&& h.e_machine == u16_at(s, 18)
    &&& h.e_version == u32_at(s, 20)
    &&& h.e_entry == u64_at(s, 24)
    &&& h.e_program_header_offset == u64_at(s, 32)
    &&& h.e_section_header_offset == u64_at(s, 40)
    &&& h.e_flags == u32_at(s, 48)
    &&& h.e_elf_header_size == u16_at(s, 52)
    &&& h.e_program_header_entry_size == u16_at(s, 54)
    &&& h.e_program_header_entries == u16_at(s, 56)
    &&& h.e_section_header_entry_size == u16_at(s, 58)
    &&& h.e_section_header_entries == u16_at(s, 60)
    &&& h.e_section_name_string_table_index == u16_at(s, 62)
}

pub open spec fn program_header_at(s: Seq<u8>, off: int) -> Elf64ProgramHeader {
    Elf64ProgramHeader {
        p_type: u32_at(s, off),
        p_flags: u32_at(s, off + 4),
        p_offset: u64_at(s, off + 8),
        p_virtual_address: u64_at(s, off + 16),
        p_physical_address: u64_at(s, off + 24),
        p_file_size: u64_at(s, off + 32),
        p_memory_size: u64_at(s, off + 40),
        p_align: u64_at(s, off + 48),
    }
}

pub open spec fn section_header_at(s: Seq<u8>, off: int) -> Elf64SectionHeader {
    Elf64SectionHeader {
        sh_name: u32_at(s, off),
        sh_type: u32_at(s, off + 4),
        sh_flags: u64_at(s, off + 8),
        sh_virtual_address: u64_at(s, off + 16),
        sh_offset: u64_at(s, off + 24),
        sh_size: u64_at(s, off + 32),
        sh_link: u32_at(s, off + 40),
        sh_info: u32_at(s, off + 44),
        sh_address_align: u64_at(s, off + 48),
        sh_entry_size: u64_at(s, off + 56),
    }
}

pub open spec fn symbol_entry_at(s: Seq<u8>, off: int) -> Elf64SymbolTableEntry {
    Elf64SymbolTableEntry {
        st_name: u32_at(s, off),
        st_info: s[off + 4],
        st_other: s[off + 5],
        st_section_index: u16_at(s, off + 6),
        st_value: u64_at(s, off + 8),
        st_size: u64_at(s, off + 16),
    }
}

pub open spec fn relocation_entry_at(s: Seq<u8>, off: int) -> Elf64RelocationAddend {
    Elf64RelocationAddend {
        offset: u64_at(s, off),
        info: u64_at(s, off + 8),
        addend: #[verifier::truncate] (u64_at(s, off + 16) as i64),
    }
}

impl Elf64Header {
    /// Decodes the header at the start of `b`.
    pub fn decode(b: &[u8]) -> (r: Elf64Header)
        requires
            b@.len() >= ELF_HEADER_SIZE,
        ensures
            header_decoded(r, b@),
    {
        let ident: [u8; IDENT_SIZE] = [
            b[0], b[1], b[2], b[3], b[4], b[5], b[6], b[7],
            b[8], b[9], b[10], b[11], b[12], b[13], b[14], b[15],
        ];
        assert(ident@ =~= b@.subrange(0, IDENT_SIZE as int));
        Elf64Header {
            e_ident: ident,
            e_type: read_u16(b, 16),
            e_machine: read_u16(b, 18),
            e_version: read_u32(b, 20),
            e_entry: read_u64(b, 24),
            e_program_header_offset: read_u64(b, 32),
            e_section_header_offset: read_u64(b, 40),
            e_flags: read_u32(b, 48),
            e_elf_header_size: read_u16(b, 52),
            e_program_header_entry_size: read_u16(b, 54),
            e_program_header_entries: read_u16(b, 56),
            e_section_header_entry_size: read_u16(b, 58),
            e_section_header_entries: read_u16(b, 60),
            e_section_name_string_table_index: read_u16(b, 62),
        }
    }
}

impl Elf64ProgramHeader {
    /// Decodes the program header stored at `off`.
    pub fn decode(b: &[u8], off: usize) -> (r: Elf64ProgramHeader)
        requires
            off + PROGRAM_HEADER_SIZE <= b@.len(),
        ensures
            r == program_header_at(b@, off as int),
    {
        let len: usize = b.len();
        Elf64ProgramHeader {
            p_type: read_u32(b, off),
            p_flags: read_u32(b, off + 4),
            p_offset: read_u64(b, off + 8),
            p_virtual_address: read_u64(b, off + 16),
            p_physical_address: read_u64(b, off + 24),
            p_file_size: read_u64(b, off + 32),
            p_memory_size: read_u64(b, off + 40),
            p_align: read_u64(b, off + 48),
        }
    }

    pub fn execute(&self) -> (r: bool)
        ensures
            r == (self.p_flags & PROGRAM_FLAG_EXECUTE != 0),
    {
        self.p_flags & PROGRAM_FLAG_EXECUTE != 0
    }

    pub fn write(&self) -> (r: bool)
        ensures
            r == (self.p_flags & PROGRAM_FLAG_WRITE != 0),
    {
        self.p_flags & PROGRAM_FLAG_WRITE != 0
    }

    pub fn read(&self) -> (r: bool)
        ensures
            r == (self.p_flags & PROGRAM_FLAG_READ != 0),
    {
        self.p_flags & PROGRAM_FLAG_READ != 0
    }
}

impl Elf64SectionHeader {
    /// Decodes the section header stored at `off`.
    pub fn decode(b: &[u8], off: usize) -> (r: Elf64SectionHeader)
        requires
            off + SECTION_HEADER_SIZE <= b@.len(),
        ensures
            r == section_header_at(b@, off as int),
    {
        let len: usize = b.len();
        Elf64SectionHeader {
            sh_name: read_u32(b, off),
            sh_type: read_u32(b, off + 4),
            sh_flags: read_u64(b, off + 8),
            sh_virtual_address: read_u64(b, off + 16),
            sh_offset: read_u64(b, off + 24),
            sh_size: read_u64(b, off + 32),
            sh_link: read_u32(b, off + 40),
            sh_info: read_u32(b, off + 44),
            sh_address_align: read_u64(b, off + 48),
            sh_entry_size: read_u64(b, off + 56),
        }
    }

    pub fn writable(&self) -> (r: bool)
        ensures
            r == (self.sh_flags & SECTION_FLAG_WRITE != 0),
    {
        self.sh_flags & SECTION_FLAG_WRITE != 0
    }
}

impl Elf64SymbolTableEntry {
    /// Decodes the symbol-table entry stored at `off`.
    pub fn decode(b: &[u8], off: usize) -> (r: Elf64SymbolTableEntry)
        requires
            off + SYMBOL_ENTRY_SIZE <= b@.len(),
        ensures
            r == symbol_entry_at(b@, off as int),
    {
        let len: usize = b.len();
        Elf64SymbolTableEntry {
            st_name: read_u32(b, off),
            st_info: b[off + 4],
            st_other: b[off + 5],
            st_section_index: read_u16(b, off + 6),
            st_value: read_u64(b, off + 8),
            st_size: read_u64(b, off + 16),
        }
    }

    /// The binding: the upper four bits of `st_info`.
    pub fn binding(&self) -> (r: u8)
        ensures
            r == self.st_info >> 4,
    {
        self.st_info >> 4
    }

    /// The symbol type: the lower four bits of `st_info`.
    pub fn symbol_type(&self) -> (r: u8)
        ensures
            r == self.st_info & 0x0F,
    {
        self.st_info & 0x0F
    }
}

impl Elf64RelocationAddend {
    /// Decodes the relocation entry stored at `off`.
    pub fn decode(b: &[u8], off: usize) -> (r: Elf64RelocationAddend)
        requires
            off + RELOCATION_ENTRY_SIZE <= b@.len(),
        ensures
            r == relocation_entry_at(b@, off as int),
    {
        let len: usize = b.len();
        Elf64RelocationAddend {
            offset: read_u64(b, off),
            info: read_u64(b, off + 8),
            addend: #[verifier::truncate] (read_u64(b, off + 16) as i64),
        }
    }

    /// The index into the dynamic symbol table: the upper 32 bits of `info`.
    pub fn symbol_table_index(&self) -> (r: u64)
        ensures
            r == self.info >> 32,
    {
        self.info >> 32
    }

    /// The relocation type: the lower 32 bits of `info`.
    pub fn relocation_type(&self) -> (r: u64)
        ensures
            r == self.info & 0xFFFFFFFF,
    {
        self.info & 0xFFFFFFFF
    }
}

// ---------------------------------------------------------------------------
// Header validation.
/// The first four bytes are `7F 45 4C 46`.
pub open spec fn magic_ok(s: Seq<u8>) -> bool {
    &&& s.len() >= 4
    &&& s[0] == 0x7F
    &&& s[1] == 0x45
    &&& s[2] == 0x4C
    &&& s[3] == 0x46
}

/// The outcome of validating a decoded header, checks in order: magic, class,
/// data encoding, machine.
pub open spec fn header_check(h: Elf64Header) -> Result<(), ParseError> {
    if !magic_ok(h.e_ident@) {
        Err(ParseError::NotElf)
    } else if h.e_ident@[4] != ELF_CLASS_64 {
        Err(ParseError::WrongClass(h.e_ident@[4]))
    } else if h.e_ident@[5] != ELF_DATA_LITTLE_ENDIAN {
        Err(ParseError::WrongEncoding(h.e_ident@[5]))
    } else if h.e_machine != MACHINE_AMD64 {
        Err(ParseError::WrongMachine(h.e_machine))
    } else {
        Ok(())
    }
}

// ---------------------------------------------------------------------------
// The tables of an image, as functions of the file's bytes.
pub open spec fn program_header_offset(s: Seq<u8>) -> int {
    u64_at(s, 32) as int
}

pub open spec fn program_header_count(s: Seq<u8>) -> int {
    u16_at(s, 56) as int
}

pub open spec fn section_header_offset(s: Seq<u8>) -> int {
    u64_at(s, 40) as int
}

pub open spec fn section_header_count(s: Seq<u8>) -> int {
    u16_at(s, 60) as int
}

pub open spec fn program_table_in_file(s: Seq<u8>) -> bool {
    program_header_offset(s) + PROGRAM_HEADER_SIZE * program_header_count(s) <= s.len()
}

pub open spec fn section_table_in_file(s: Seq<u8>) -> bool {
    section_header_offset(s) + SECTION_HEADER_SIZE * section_header_count(s) <= s.len()
}

pub open spec fn program_headers_of(s: Seq<u8>) -> Seq<Elf64ProgramHeader> {
    Seq::new(
        program_header_count(s) as nat,
        |i: int| program_header_at(s, program_header_offset(s) + PROGRAM_HEADER_SIZE * i),
    )
}

pub open spec fn section_headers_of(s: Seq<u8>) -> Seq<Elf64SectionHeader> {
    Seq::new(
        section_header_count(s) as nat,
        |i: int| section_header_at(s, section_header_offset(s) + SECTION_HEADER_SIZE * i),
    )
}

/// The section types whose contents the parser reads.
pub open spec fn is_read_section(t: u32) -> bool {
    t == ELF64_SECTION_HEADER_SYMBOL_TABLE || t == ELF64_SECTION_HEADER_STRING_TABLE || t
        == ELF64_SECTION_HEADER_RELOCATION_ADDEND || t == ELF64_SECTION_HEADER_DYNAMIC || t
        == ELF64_SECTION_HEADER_DYNAMIC_SYMBOL_TABLE
}

pub open spec fn section_in_file(s: Seq<u8>, h: Elf64SectionHeader) -> bool {
    h.sh_offset + h.sh_size <= s.len()
}

pub open spec fn section_bytes(s: Seq<u8>, h: Elf64SectionHeader) -> Seq<u8> {
    s.subrange(h.sh_offset as int, h.sh_offset + h.sh_size)
}

/// Every section whose contents the parser reads lies within the file.
pub open spec fn sections_in_file(s: Seq<u8>, shs: Seq<Elf64SectionHeader>) -> bool {
    forall|i: int|
        0 <= i < shs.len() && is_read_section(#[trigger] shs[i].sh_type) ==> section_in_file(
            s,
            shs[i],
        )
}

/// The string table that a symbol table names by its `link` field; empty when
/// the link does not lead to a string table.
pub open spec fn linked_string_table(
    s: Seq<u8>,
    shs: Seq<Elf64SectionHeader>,
    h: Elf64SectionHeader,
) -> Seq<u8> {
    if (h.sh_link as int) < shs.len() && shs[h.sh_link as int].sh_type
        == ELF64_SECTION_HEADER_STRING_TABLE {
        section_bytes(s, shs[h.sh_link as int])
    } else {
        Seq::empty()
    }
}

pub open spec fn resolved_symbol_at(s: Seq<u8>, strtab: Seq<u8>, off: int) -> SymbolView {
    let e = symbol_entry_at(s, off);
    SymbolView {
        name: c_string_at(strtab, e.st_name as int),
        binding: e.st_info >> 4,
        symbol_type: e.st_info & 0x0F,
        section_index: e.st_section_index,
        value: e.st_value,
        size: e.st_size,
    }
}

pub open spec fn section_symbols(
    s: Seq<u8>,
    shs: Seq<Elf64SectionHeader>,
    h: Elf64SectionHeader,
) -> Seq<SymbolView> {
    Seq::new(
        (h.sh_size / SYMBOL_ENTRY_SIZE as u64) as nat,
        |i: int|
            resolved_symbol_at(
                s,
                linked_string_table(s, shs, h),
                h.sh_offset + SYMBOL_ENTRY_SIZE * i,
            ),
    )
}

/// The symbols of the first `k` sections of type `t`, section by section.
pub open spec fn symbols_upto(
    s: Seq<u8>,
    shs: Seq<Elf64SectionHeader>,
    t: u32,
    k: int,
) -> Seq<SymbolView>
    decreases k,
{
    if k <= 0 {
        Seq::empty()
    } else if shs[k - 1].sh_type == t {
        symbols_upto(s, shs, t, k - 1) + section_symbols(s, shs, shs[k - 1])
    } else {
        symbols_upto(s, shs, t, k - 1)
    }
}

pub open spec fn symbol_table_of(s: Seq<u8>, shs: Seq<Elf64SectionHeader>, t: u32) -> Seq<
    SymbolView,
> {
    symbols_upto(s, shs, t, shs.len() as int)
}

pub open spec fn resolved_relocation_at(s: Seq<u8>, dynsym: Seq<SymbolView>, off: int) -> RelocationView {
    let e = relocation_entry_at(s, off);
    let index = e.info >> 32;
    RelocationView {
        symbol_name: if (index as int) < dynsym.len() {
            dynsym[index as int].name
        } else {
            Seq::empty()
        },
        symbol_index: index,
        relocation_type: e.info & 0xFFFFFFFF,
        offset: e.offset,
        addend: e.addend,
    }
}

pub open spec fn section_relocations(
    s: Seq<u8>,
    dynsym: Seq<SymbolView>,
    h: Elf64SectionHeader,
) -> Seq<RelocationView> {
    Seq::new(
        (h.sh_size / RELOCATION_ENTRY_SIZE as u64) as nat,
        |i: int| resolved_relocation_at(s, dynsym, h.sh_offset + RELOCATION_ENTRY_SIZE * i),
    )
}

/// The relocations of the first `k` relocation sections, section by section.
pub open spec fn relocations_upto(
    s: Seq<u8>,
    shs: Seq<Elf64SectionHeader>,
    dynsym: Seq<SymbolView>,
    k: int,
) -> Seq<RelocationView>
    decreases k,
{
    if k <= 0 {
        Seq::empty()
    } else if shs[k - 1].sh_type == ELF64_SECTION_HEADER_RELOCATION_ADDEND {
        relocations_upto(s, shs, dynsym, k - 1) + section_relocations(s, dynsym, shs[k - 1])
    } else {
        relocations_upto(s, shs, dynsym, k - 1)
    }
}

pub open spec fn symbols_view(v: Seq<Elf64ResolvedSymbolTableEntry>) -> Seq<SymbolView> {
    v.map_values(|e: Elf64ResolvedSymbolTableEntry| e@)
}

pub open spec fn relocations_view(v: Seq<Elf64ResolvedRelocationAddend>) -> Seq<RelocationView> {
    v.map_values(|e: Elf64ResolvedRelocationAddend| e@)
}

proof fn lemma_entry_in_section(total: int, size: int, i: int)
    requires
        0 <= i < total / size,
        size > 0,
        total >= 0,
    ensures
        size * i + size <= total,
{
    let q = total / size;
    lemma_fundamental_div_mod(total, size);
    lemma_mod_pos_bound(total, size);
    assert(size * i + size <= total) by (nonlinear_arith)
        requires
            total == size * q + total % size,
            total % size >= 0,
            0 <= i < q,
            size > 0,
    {
        assert(size * (i + 1) <= size * q);
    }
}

/// The image model: an image file decoded into its tables.
#[derive(Clone, Debug)]
pub struct Elf64Metadata {
    pub file_path: Vec<u8>,
    pub elf_header: Elf64Header,
    pub program_headers: Vec<Elf64ProgramHeader>,
    pub section_headers: Vec<Elf64SectionHeader>,
    pub symbol_table: Vec<Elf64ResolvedSymbolTableEntry>,
    pub dynamic_symbol_table: Vec<Elf64ResolvedSymbolTableEntry>,
    pub relocations: Vec<Elf64ResolvedRelocationAddend>,
    pub dynamic: Elf64Dynamic,
}

/// The outcome of validating the bytes of an image file, checks in order: the
/// magic (on as many bytes as there are), the header's length, class, data
/// encoding and machine, then that every table the parser reads lies within the
/// file.
pub open spec fn image_check(s: Seq<u8>) -> Result<(), ParseError> {
    if s.len() >= 4 && !magic_ok(s) {
        Err(ParseError::NotElf)
    } else if s.len() < ELF_HEADER_SIZE {
        Err(ParseError::Truncated)
    } else if s[4] != ELF_CLASS_64 {
        Err(ParseError::WrongClass(s[4]))
    } else if s[5] != ELF_DATA_LITTLE_ENDIAN {
        Err(ParseError::WrongEncoding(s[5]))
    } else if u16_at(s, 18) != MACHINE_AMD64 {
        Err(ParseError::WrongMachine(u16_at(s, 18)))
    } else if !(program_table_in_file(s) && section_table_in_file(s) && sections_in_file(
        s,
        section_headers_of(s),
    )) {
        Err(ParseError::Truncated)
    } else {
        Ok(())
    }
}

/// `m` holds the tables that the bytes `s` of the file at `path` describe.
pub open spec fn image_decoded(m: Elf64Metadata, path: Seq<u8>, s: Seq<u8>) -> bool {
    let shs = section_headers_of(s);
    let dynsym = symbol_table_of(s, shs, ELF64_SECTION_HEADER_DYNAMIC_SYMBOL_TABLE);
    &&& m.file_path@ == path
    &&& header_decoded(m.elf_header, s)
    &&& m.program_headers@ == program_headers_of(s)
    &&& m.section_headers@ == shs
    &&& symbols_view(m.symbol_table@) == symbol_table_of(s, shs, ELF64_SECTION_HEADER_SYMBOL_TABLE)
    &&& symbols_view(m.dynamic_symbol_table@) == dynsym
    &&& relocations_view(m.relocations@) == relocations_upto(s, shs, dynsym, shs.len() as int)
    &&& m.dynamic@ == dynamic_of(s, shs)
}

impl Elf64Metadata {
    fn check_file_ident(ident: &[u8]) -> (r: Result<(), ParseError>)
        requires
            ident@.len() >= 4,
        ensures
            r == (if magic_ok(ident@) {
                Ok(())
            } else {
                Err(ParseError::NotElf)
            }),
    {
        if ident[0] == 0x7F && ident[1] == 0x45 && ident[2] == 0x4C && ident[3] == 0x46 {
            Ok(())
        } else {
            Err(ParseError::NotElf)
        }
    }

    fn check_class(header: &Elf64Header) -> (r: Result<(), ParseError>)
        ensures
            r == (if header.e_ident@[4] == ELF_CLASS_64 {
                Ok(())
            } else {
                Err(ParseError::WrongClass(header.e_ident@[4]))
            }),
    {
        if header.e_ident[4] == ELF_CLASS_64 {
            Ok(())
        } else {
            Err(ParseError::WrongClass(header.e_ident[4]))
        }
    }

    fn check_endian(header: &Elf64Header) -> (r: Result<(), ParseError>)
        ensures
            r == (if header.e_ident@[5] == ELF_DATA_LITTLE_ENDIAN {
                Ok(())
            } else {
                Err(ParseError::WrongEncoding(header.e_ident@[5]))
            }),
    {
        if header.e_ident[5] == ELF_DATA_LITTLE_ENDIAN {
            Ok(())
        } else {
            Err(ParseError::WrongEncoding(header.e_ident[5]))
        }
    }

    fn check_machine(header: &Elf64Header) -> (r: Result<(), ParseError>)
        ensures
            r == (if header.e_machine == MACHINE_AMD64 {
                Ok(())
            } else {
                Err(ParseError::WrongMachine(header.e_machine))
            }),
    {
        if header.e_machine == MACHINE_AMD64 {
            Ok(())
        } else {
            Err(ParseError::WrongMachine(header.e_machine))
        }
    }

    /// Validates magic, class, data encoding and machine, in that order.
    pub fn check_header(header: &Elf64Header) -> (r: Result<(), ParseError>)
        ensures
            r == header_check(*header),
    {
        Elf64Metadata::check_file_ident(&header.e_ident)?;
        Elf64Metadata::check_class(header)?;
        Elf64Metadata::check_endian(header)?;
        Elf64Metadata::check_machine(header)
    }

    fn load_program_headers(header: &Elf64Header, file: &[u8]) -> (r: Result<
        Vec<Elf64ProgramHeader>,
        ParseError,
    >)
        requires
            header_decoded(*header, file@),
        ensures
            match r {
                Ok(v) => program_table_in_file(file@) && v@ == program_headers_of(file@),
                Err(e) => !program_table_in_file(file@) && e == ParseError::Truncated,
            },
    {
        let len: usize = file.len();
        let start = header.e_program_header_offset;
        let count = header.e_program_header_entries;
        assert(count as u64 * PROGRAM_HEADER_SIZE as u64 <= 0x10000 * 64) by (nonlinear_arith)
            requires
                count <= 0xFFFF,
                PROGRAM_HEADER_SIZE <= 64,
        ;
        let table_size: u64 = PROGRAM_HEADER_SIZE as u64 * count as u64;
        assert(table_size == PROGRAM_HEADER_SIZE * count);
        if start > len as u64 || (len as u64 - start) < table_size {
            return Err(ParseError::Truncated);
        }
        let mut result: Vec<Elf64ProgramHeader> = Vec::new();
        let mut i: u16 = 0;
        while i < count
            invariant
                header_decoded(*header, file@),
                len == file@.len(),
                start == program_header_offset(file@),
                count == program_header_count(file@),
                program_table_in_file(file@),
                i <= count,
                result@ =~= program_headers_of(file@).subrange(0, i as int),
            decreases count - i,
        {
            let off = start as usize + PROGRAM_HEADER_SIZE * i as usize;
            result.push(Elf64ProgramHeader::decode(file, off));
            i = i + 1;
        }
        assert(result@ =~= program_headers_of(file@));
        Ok(result)
    }

    fn load_section_headers(header: &Elf64Header, file: &[u8]) -> (r: Result<
        Vec<Elf64SectionHeader>,
        ParseError,
    >)
        requires
            header_decoded(*header, file@),
        ensures
            match r {
                Ok(v) => section_table_in_file(file@) && v@ == section_headers_of(file@),
                Err(e) => !section_table_in_file(file@) && e == ParseError::Truncated,
            },
    {
        let len: usize = file.len();
        let start = header.e_section_header_offset;
        let count = header.e_section_header_entries;
        assert(count as u64 * SECTION_HEADER_SIZE as u64 <= 0x10000 * 64) by (nonlinear_arith)
            requires
                count <= 0xFFFF,
                SECTION_HEADER_SIZE <= 64,
        ;
        let table_size: u64 = SECTION_HEADER_SIZE as u64 * count as u64;
        assert(table_size == SECTION_HEADER_SIZE * count);
        if start > len as u64 || (len as u64 - start) < table_size {
            return Err(ParseError::Truncated);
        }
        let mut result: Vec<Elf64SectionHeader> = Vec::new();
        let mut i: u16 = 0;
        while i < count
            invariant
                header_decoded(*header, file@),
                len == file@.len(),
                start == section_header_offset(file@),
                count == section_header_count(file@),
                section_table_in_file(file@),
                i <= count,
                result@ =~= section_headers_of(file@).subrange(0, i as int),
            decreases count - i,
        {
            let off = start as usize + SECTION_HEADER_SIZE * i as usize;
            result.push(Elf64SectionHeader::decode(file, off));
            i = i + 1;
        }
        assert(result@ =~= section_headers_of(file@));
        Ok(result)
    }

    /// The string table that `header` links to (see `linked_string_table`).
    fn linked_table<'a>(
        section_headers: &Vec<Elf64SectionHeader>,
        file: &'a [u8],
        header: &Elf64SectionHeader,
    ) -> (r: &'a [u8])
        requires
            sections_in_file(file@, section_headers@),
        ensures
            r@ == linked_string_table(file@, section_headers@, *header),
    {
        let len: usize = file.len();
        let link = header.sh_link as usize;
        if link < section_headers.len() && section_headers[link].sh_type
            == ELF64_SECTION_HEADER_STRING_TABLE {
            let table = &section_headers[link];
            assert(is_read_section(section_headers@[link as int].sh_type));
            assert(section_in_file(file@, section_headers@[link as int]));
            slice_subrange(
                file,
                table.sh_offset as usize,
                (table.sh_offset + table.sh_size) as usize,
            )
        } else {
            let r = slice_subrange(file, 0, 0);
            assert(r@ =~= Seq::<u8>::empty());
            r
        }
    }

    fn load_symbol_table(
        section_headers: &Vec<Elf64SectionHeader>,
        file: &[u8],
        table_type: u32,
    ) -> (r: Vec<Elf64ResolvedSymbolTableEntry>)
        requires
            sections_in_file(file@, section_headers@),
            table_type == ELF64_SECTION_HEADER_SYMBOL_TABLE || table_type
                == ELF64_SECTION_HEADER_DYNAMIC_SYMBOL_TABLE,
        ensures
            symbols_view(r@) == symbol_table_of(file@, section_headers@, table_type),
    {
        let ghost s = file@;
        let ghost shs = section_headers@;
        let mut result: Vec<Elf64ResolvedSymbolTableEntry> = Vec::new();
        let len: usize = file.len();
        let mut k: usize = 0;
        assert(symbols_view(result@) =~= symbols_upto(s, shs, table_type, 0));
        while k < section_headers.len()
            invariant
                s == file@,
                len == s.len(),
                shs == section_headers@,
                sections_in_file(s, shs),
                table_type == ELF64_SECTION_HEADER_SYMBOL_TABLE || table_type
                    == ELF64_SECTION_HEADER_DYNAMIC_SYMBOL_TABLE,
                k <= shs.len(),
                symbols_view(result@) == symbols_upto(s, shs, table_type, k as int),
            decreases shs.len() - k,
        {
            let table = &section_headers[k];
            if table.sh_type == table_type {
                assert(section_in_file(s, shs[k as int]));
                let strtab = Elf64Metadata::linked_table(section_headers, file, table);
                let entries = table.sh_size / SYMBOL_ENTRY_SIZE as u64;
                let ghost before = symbols_view(result@);
                let ghost section = section_symbols(s, shs, *table);
                let mut i: u64 = 0;
                while i < entries
                    invariant
                        s == file@,
                        len == s.len(),
                        *table == shs[k as int],
                        section_in_file(s, *table),
                        strtab@ == linked_string_table(s, shs, *table),
                        entries == table.sh_size / SYMBOL_ENTRY_SIZE as u64,
                        section == section_symbols(s, shs, *table),
                        i <= entries,
                        symbols_view(result@) == before + section.subrange(0, i as int),
                    decreases entries - i,
                {
                    proof {
                        lemma_entry_in_section(table.sh_size as int, SYMBOL_ENTRY_SIZE as int, i as int);
                    }
                    let off = table.sh_offset as usize + SYMBOL_ENTRY_SIZE * i as usize;
                    let entry = Elf64SymbolTableEntry::decode(file, off);
                    let resolved = Elf64ResolvedSymbolTableEntry {
                        symbol_name: string_at(strtab, entry.st_name as u64),
                        binding: entry.binding(),
                        symbol_type: entry.symbol_type(),
                        section_index: entry.st_section_index,
                        value: entry.st_value,
                        size: entry.st_size,
                    };
                    let ghost prev = result@;
                    result.push(resolved);
                    assert(symbols_view(result@) =~= symbols_view(prev).push(resolved@));
                    assert(resolved@ == section[i as int]);
                    i = i + 1;
                    assert(section.subrange(0, i as int) =~= section.subrange(0, i - 1).push(
                        section[i - 1],
                    ));
                }
                assert(section.subrange(0, i as int) =~= section);
            }
            k = k + 1;
        }
        assert(shs.len() == k);
        result
    }

    fn load_relocation_entries(
        section_headers: &Vec<Elf64SectionHeader>,
        dynamic_symbol_table: &Vec<Elf64ResolvedSymbolTableEntry>,
        file: &[u8],
    ) -> (r: Vec<Elf64ResolvedRelocationAddend>)
        requires
            sections_in_file(file@, section_headers@),
        ensures
            relocations_view(r@) == relocations_upto(
                file@,
                section_headers@,
                symbols_view(dynamic_symbol_table@),
                section_headers@.len() as int,
            ),
    {
        let ghost s = file@;
        let ghost shs = section_headers@;
        let ghost dynsym = symbols_view(dynamic_symbol_table@);
        let mut result: Vec<Elf64ResolvedRelocationAddend> = Vec::new();
        let len: usize = file.len();
        let mut k: usize = 0;
        assert(relocations_view(result@) =~= relocations_upto(s, shs, dynsym, 0));
        while k < section_headers.len()
            invariant
                s == file@,
                len == s.len(),
                shs == section_headers@,
                dynsym == symbols_view(dynamic_symbol_table@),
                sections_in_file(s, shs),
                k <= shs.len(),
                relocations_view(result@) == relocations_upto(s, shs, dynsym, k as int),
            decreases shs.len() - k,
        {
            let header = &section_headers[k];
            if header.sh_type == ELF64_SECTION_HEADER_RELOCATION_ADDEND {
                assert(section_in_file(s, shs[k as int]));
                let entries = header.sh_size / RELOCATION_ENTRY_SIZE as u64;
                let ghost before = relocations_view(result@);
                let ghost section = section_relocations(s, dynsym, *header);
                let mut i: u64 = 0;
                while i < entries
                    invariant
                        s == file@,
                        len == s.len(),
                        dynsym == symbols_view(dynamic_symbol_table@),
                        section_in_file(s, *header),
                        entries == header.sh_size / RELOCATION_ENTRY_SIZE as u64,
                        section == section_relocations(s, dynsym, *header),
                        i <= entries,
                        relocations_view(result@) == before + section.subrange(0, i as int),
                    decreases entries - i,
                {
                    proof {
                        lemma_entry_in_section(
                            header.sh_size as int,
                            RELOCATION_ENTRY_SIZE as int,
                            i as int,
                        );
                    }
                    let off = header.sh_offset as usize + RELOCATION_ENTRY_SIZE * i as usize;
                    let entry = Elf64RelocationAddend::decode(file, off);
                    let index = entry.symbol_table_index();
                    let symbol_name = if index < dynamic_symbol_table.len() as u64 {
                        dynamic_symbol_table[index as usize].symbol_name.clone()
                    } else {
                        Vec::new()
                    };
                    let resolved = Elf64ResolvedRelocationAddend {
                        symbol_name,
                        symbol_index: index,
                        relocation_type: entry.relocation_type(),
                        offset: entry.offset,
                        addend: entry.addend,
                    };
                    let ghost prev = result@;
                    result.push(resolved);
                    assert(relocations_view(result@) =~= relocations_view(prev).push(resolved@));
                    assert(resolved@.symbol_name =~= section[i as int].symbol_name);
                    assert(resolved@ == section[i as int]);
                    i = i + 1;
                    assert(section.subrange(0, i as int) =~= section.subrange(0, i - 1).push(
                        section[i - 1],
                    ));
                }
                assert(section.subrange(0, i as int) =~= section);
            }
            k = k + 1;
        }
        result
    }

    /// Decodes the image whose file is at `file_path` and holds `file`.
    pub fn load(file_path: &[u8], file: &[u8]) -> (r: Result<Elf64Metadata, ParseError>)
        ensures
            match r {
                Ok(m) => image_check(file@) is Ok && image_decoded(m, file_path@, file@),
                Err(e) => image_check(file@) == Err::<(), ParseError>(e),
            },
            file@.len() >= 4 && !magic_ok(file@) ==> r == Err::<Elf64Metadata, ParseError>(
                ParseError::NotElf,
            ),
            file@.len() >= ELF_HEADER_SIZE && magic_ok(file@) && file@[4] != ELF_CLASS_64 ==> r
                == Err::<Elf64Metadata, ParseError>(ParseError::WrongClass(file@[4])),
            file@.len() >= ELF_HEADER_SIZE && magic_ok(file@) && file@[4] == ELF_CLASS_64
                && file@[5] == ELF_DATA_LITTLE_ENDIAN && u16_at(file@, 18) != MACHINE_AMD64 ==> r
                == Err::<Elf64Metadata, ParseError>(ParseError::WrongMachine(u16_at(file@, 18))),
    {
        if file.len() >= 4 {
            Elf64Metadata::check_file_ident(slice_subrange(file, 0, 4))?;
        }
        if file.len() < ELF_HEADER_SIZE {
            return Err(ParseError::Truncated);
        }
        let elf_header = Elf64Header::decode(file);
        assert(elf_header.e_ident@[4] == file@[4]);
        assert(elf_header.e_ident@[5] == file@[5]);
        assert(magic_ok(elf_header.e_ident@) == magic_ok(file@));
        Elf64Metadata::check_header(&elf_header)?;
        let program_headers = Elf64Metadata::load_program_headers(&elf_header, file)?;
        let section_headers = Elf64Metadata::load_section_headers(&elf_header, file)?;
        let dynamic = Elf64Dynamic::load(&section_headers, file)?;
        let symbol_table = Elf64Metadata::load_symbol_table(
            &section_headers,
            file,
            ELF64_SECTION_HEADER_SYMBOL_TABLE,
        );
        let dynamic_symbol_table = Elf64Metadata::load_symbol_table(
            &section_headers,
            file,
            ELF64_SECTION_HEADER_DYNAMIC_SYMBOL_TABLE,
        );
        let relocations = Elf64Metadata::load_relocation_entries(
            &section_headers,
            &dynamic_symbol_table,
            file,
        );
        Ok(
            Elf64Metadata {
                file_path: slice_to_vec(file_path),
                elf_header,
                program_headers,
                section_headers,
                symbol_table,
                dynamic_symbol_table,
                relocations,
                dynamic,
            },
        )
    }
}

} // verus!
