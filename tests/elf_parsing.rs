use elf_loader::bytes::string_at;
use elf_loader::dynamic::Elf64Dynamic;
use elf_loader::elf::{
    Elf64Header, Elf64Metadata, Elf64RelocationAddend, Elf64SectionHeader, Elf64SymbolTableEntry,
    ParseError, ELF64_SECTION_HEADER_DYNAMIC, ELF64_SECTION_HEADER_DYNAMIC_SYMBOL_TABLE,
    ELF64_SECTION_HEADER_RELOCATION_ADDEND, ELF64_SECTION_HEADER_STRING_TABLE,
};
use elf_loader::string_tables::{
    convert_string_tables_content, get_string_table_content, get_string_tables_content,
    split_strings, string_length,
};

fn put_u16(b: &mut Vec<u8>, off: usize, v: u16) {
    b[off..off + 2].copy_from_slice(&v.to_le_bytes());
}

fn put_u32(b: &mut Vec<u8>, off: usize, v: u32) {
    b[off..off + 4].copy_from_slice(&v.to_le_bytes());
}

fn put_u64(b: &mut Vec<u8>, off: usize, v: u64) {
    b[off..off + 8].copy_from_slice(&v.to_le_bytes());
}

fn header_bytes() -> Vec<u8> {
    let mut b = vec![0u8; 64];
    b[0] = 0x7F;
    b[1] = b'E';
    b[2] = b'L';
    b[3] = b'F';
    b[4] = 2;
    b[5] = 1;
    b[6] = 1;
    put_u16(&mut b, 16, 3);
    put_u16(&mut b, 18, 0x3E);
    put_u32(&mut b, 20, 1);
    put_u64(&mut b, 24, 0x1040);
    b
}

struct Section {
    kind: u32,
    address: u64,
    offset: u64,
    size: u64,
    link: u32,
}

/// An image with a program header, a dynamic string table, a dynamic symbol
/// table, one relocation section and a dynamic section.
fn sample_image() -> Vec<u8> {
    let mut b = header_bytes();
    // String table at 0x100.
    let strtab = b"\0printf\0memcpy@@GLIBC_2.14\0libc.so.6\0".to_vec();
    // Symbols at 0x200: null, printf (global function), memcpy (global, defined).
    // Relocations at 0x300: GLOB_DAT on symbol 1, RELATIVE, JUMP_SLOT on symbol 9.
    // Dynamic at 0x400: NEEDED libc.so.6, STRTAB 0x100, INIT 0x1000, NULL.
    let mut file = vec![0u8; 0x600];
    file[..64].copy_from_slice(&b[..64]);
    b = file;
    b[0x100..0x100 + strtab.len()].copy_from_slice(&strtab);
    // symbol 1: printf
    put_u32(&mut b, 0x218, 1);
    b[0x218 + 4] = 0x12;
    put_u16(&mut b, 0x218 + 6, 12);
    put_u64(&mut b, 0x218 + 8, 0x1150);
    put_u64(&mut b, 0x218 + 16, 42);
    // symbol 2: memcpy@@GLIBC_2.14
    put_u32(&mut b, 0x230, 8);
    b[0x230 + 4] = 0x12;
    put_u16(&mut b, 0x230 + 6, 12);
    put_u64(&mut b, 0x230 + 8, 0x1200);
    // relocations
    put_u64(&mut b, 0x300, 0x5000);
    put_u64(&mut b, 0x308, (1u64 << 32) | 6);
    put_u64(&mut b, 0x318, 0x3000);
    put_u64(&mut b, 0x320, 8);
    put_u64(&mut b, 0x328, 0x1234);
    put_u64(&mut b, 0x330, 0x6000);
    put_u64(&mut b, 0x338, (9u64 << 32) | 7);
    put_u64(&mut b, 0x340, (-8i64) as u64);
    // dynamic
    put_u64(&mut b, 0x400, 1);
    put_u64(&mut b, 0x408, 27);
    put_u64(&mut b, 0x410, 5);
    put_u64(&mut b, 0x418, 0x100);
    put_u64(&mut b, 0x420, 12);
    put_u64(&mut b, 0x428, 0x1000);
    // program header at 0x40
    put_u64(&mut b, 32, 0x40);
    put_u16(&mut b, 54, 56);
    put_u16(&mut b, 56, 1);
    put_u32(&mut b, 0x40, 1);
    put_u32(&mut b, 0x44, 5);
    put_u64(&mut b, 0x40 + 8, 0);
    put_u64(&mut b, 0x40 + 16, 0x1000);
    put_u64(&mut b, 0x40 + 32, 0x600);
    put_u64(&mut b, 0x40 + 40, 0x600);
    put_u64(&mut b, 0x40 + 48, 0x1000);
    // section headers at 0x480
    let sections = [
        Section { kind: 0, address: 0, offset: 0, size: 0, link: 0 },
        Section { kind: 3, address: 0x100, offset: 0x100, size: strtab.len() as u64, link: 0 },
        Section { kind: 11, address: 0x200, offset: 0x200, size: 72, link: 1 },
        Section { kind: 4, address: 0x300, offset: 0x300, size: 72, link: 2 },
        Section { kind: 6, address: 0x400, offset: 0x400, size: 64, link: 1 },
    ];
    put_u64(&mut b, 40, 0x480);
    put_u16(&mut b, 58, 64);
    put_u16(&mut b, 60, sections.len() as u16);
    b.resize(0x480 + 64 * sections.len(), 0);
    for (i, s) in sections.iter().enumerate() {
        let off = 0x480 + 64 * i;
        put_u32(&mut b, off + 4, s.kind);
        put_u64(&mut b, off + 16, s.address);
        put_u64(&mut b, off + 24, s.offset);
        put_u64(&mut b, off + 32, s.size);
        put_u32(&mut b, off + 40, s.link);
    }
    b
}

#[test]
fn bad_magic_is_not_an_elf_file() {
    let mut b = header_bytes();
    b[1] = b'X';
    assert_eq!(Elf64Metadata::load(b"/x", &b).unwrap_err(), ParseError::NotElf);
    assert_eq!(Elf64Metadata::load(b"/x", &[1, 2, 3, 4]).unwrap_err(), ParseError::NotElf);
}

#[test]
fn wrong_class_is_refused() {
    let mut b = header_bytes();
    b[4] = 1;
    assert_eq!(Elf64Metadata::load(b"/x", &b).unwrap_err(), ParseError::WrongClass(1));
}

#[test]
fn wrong_encoding_is_refused() {
    let mut b = header_bytes();
    b[5] = 2;
    assert_eq!(Elf64Metadata::load(b"/x", &b).unwrap_err(), ParseError::WrongEncoding(2));
}

#[test]
fn wrong_machine_is_refused() {
    let mut b = header_bytes();
    b[18] = 0x28;
    assert_eq!(Elf64Metadata::load(b"/x", &b).unwrap_err(), ParseError::WrongMachine(0x28));
}

#[test]
fn short_files_are_truncated() {
    let b = header_bytes();
    assert_eq!(Elf64Metadata::load(b"/x", &b[..40]).unwrap_err(), ParseError::Truncated);
    assert_eq!(Elf64Metadata::load(b"/x", &b[..2]).unwrap_err(), ParseError::Truncated);
    let mut c = header_bytes();
    put_u64(&mut c, 32, 64);
    put_u16(&mut c, 56, 1);
    assert_eq!(Elf64Metadata::load(b"/x", &c).unwrap_err(), ParseError::Truncated);
}

#[test]
fn bare_header_loads() {
    let b = header_bytes();
    let m = Elf64Metadata::load(b"/bin/true", &b).unwrap();
    assert_eq!(m.file_path, b"/bin/true".to_vec());
    assert_eq!(m.elf_header.e_entry, 0x1040);
    assert_eq!(m.elf_header.e_type, 3);
    assert!(m.program_headers.is_empty());
    assert!(m.relocations.is_empty());
    assert_eq!(Elf64Header::decode(&b), m.elf_header);
}

#[test]
fn string_length_includes_terminator() {
    let table = b"libc.so.6\0libm.so.6\0";
    assert_eq!(string_length(table), 10);
    assert_eq!(string_length(&table[10..]), 10);
    assert_eq!(string_at(table, 10), b"libm.so.6".to_vec());
    assert_eq!(string_at(table, 0), b"libc.so.6".to_vec());
}

#[test]
fn string_at_degrades_outside_the_table() {
    let table = b"abc\0de";
    assert_eq!(string_at(table, 100), Vec::<u8>::new());
    assert_eq!(string_at(table, 4), b"de".to_vec());
    assert_eq!(string_at(table, 3), Vec::<u8>::new());
}

#[test]
fn symbol_binding_decoding() {
    let e = Elf64SymbolTableEntry {
        st_name: 0,
        st_info: 0x12,
        st_other: 0,
        st_section_index: 0,
        st_value: 0,
        st_size: 0,
    };
    assert_eq!(e.binding(), 1);
    assert_eq!(e.symbol_type(), 2);
}

#[test]
fn relocation_info_decoding() {
    let r = Elf64RelocationAddend { offset: 0, info: 0x0000000700000006, addend: 0 };
    assert_eq!(r.symbol_table_index(), 7);
    assert_eq!(r.relocation_type(), 6);
}

#[test]
fn sample_image_tables() {
    let b = sample_image();
    let m = Elf64Metadata::load(b"/lib/libsample.so", &b).unwrap();
    assert_eq!(m.program_headers.len(), 1);
    assert_eq!(m.program_headers[0].p_virtual_address, 0x1000);
    assert!(m.program_headers[0].read() && m.program_headers[0].execute());
    assert!(!m.program_headers[0].write());
    assert_eq!(m.section_headers.len(), 5);
    assert_eq!(m.section_headers[2].sh_type, ELF64_SECTION_HEADER_DYNAMIC_SYMBOL_TABLE);
    assert!(m.symbol_table.is_empty());
    assert_eq!(m.dynamic_symbol_table.len(), 3);
    assert_eq!(m.dynamic_symbol_table[1].symbol_name, b"printf".to_vec());
    assert_eq!(m.dynamic_symbol_table[1].binding, 1);
    assert_eq!(m.dynamic_symbol_table[1].symbol_type, 2);
    assert_eq!(m.dynamic_symbol_table[1].value, 0x1150);
    assert_eq!(m.dynamic_symbol_table[1].size, 42);
    assert_eq!(m.dynamic_symbol_table[2].symbol_name, b"memcpy@@GLIBC_2.14".to_vec());
    assert!(m.dynamic_symbol_table[0].undefined());
    assert!(m.dynamic_symbol_table[1].global());
    assert_eq!(m.relocations.len(), 3);
    assert_eq!(m.relocations[0].symbol_name, b"printf".to_vec());
    assert_eq!(m.relocations[0].relocation_type, 6);
    assert_eq!(m.relocations[0].offset, 0x5000);
    assert_eq!(m.relocations[1].relocation_type, 8);
    assert_eq!(m.relocations[1].addend, 0x1234);
    assert_eq!(m.relocations[1].symbol_name, Vec::<u8>::new());
    assert_eq!(m.relocations[2].symbol_index, 9);
    assert_eq!(m.relocations[2].symbol_name, Vec::<u8>::new());
    assert_eq!(m.relocations[2].addend, -8);
    assert_eq!(m.dynamic.required_libraries, vec![b"libc.so.6".to_vec()]);
    assert_eq!(m.dynamic.init_function, 0x1000);
    assert_eq!(m.dynamic.init_array, 0);
}

#[test]
fn section_beyond_the_file_is_truncated() {
    let mut b = sample_image();
    let off = 0x480 + 64 * 3;
    put_u64(&mut b, off + 32, 0x10000);
    assert_eq!(Elf64Metadata::load(b"/x", &b).unwrap_err(), ParseError::Truncated);
}

#[test]
fn dynamic_section_alone() {
    let b = sample_image();
    let m = Elf64Metadata::load(b"/x", &b).unwrap();
    let d = Elf64Dynamic::load(&m.section_headers, &b).unwrap();
    assert_eq!(d, m.dynamic);
    assert_eq!(m.section_headers[4].sh_type, ELF64_SECTION_HEADER_DYNAMIC);
    let none: Vec<Elf64SectionHeader> = Vec::new();
    let empty = Elf64Dynamic::load(&none, &b).unwrap();
    assert!(empty.required_libraries.is_empty());
    assert_eq!(empty.init_function, 0);
}

#[test]
fn string_tables_by_offset() {
    let b = sample_image();
    let m = Elf64Metadata::load(b"/x", &b).unwrap();
    assert_eq!(m.section_headers[1].sh_type, ELF64_SECTION_HEADER_STRING_TABLE);
    let one = get_string_table_content(&m.section_headers[1], &b).unwrap();
    assert_eq!(&one[..7], b"\0printf");
    let tables = get_string_tables_content(&m.section_headers, &b);
    assert_eq!(tables.len(), 1);
    assert_eq!(tables.get(&0x100).unwrap(), &one);
    let converted = convert_string_tables_content(&tables);
    let strings = converted.get(&0x100).unwrap();
    assert_eq!(strings[0], Vec::<u8>::new());
    assert_eq!(strings[1], b"printf".to_vec());
    assert_eq!(strings[3], b"libc.so.6".to_vec());
    assert_eq!(strings.len(), 5);
    assert_eq!(m.section_headers[3].sh_type, ELF64_SECTION_HEADER_RELOCATION_ADDEND);
    let mut far = m.section_headers[1];
    far.sh_offset = 0x100000;
    assert_eq!(get_string_table_content(&far, &b), None);
}

#[test]
fn split_strings_keeps_empty_pieces() {
    assert_eq!(
        split_strings(b"libc.so.6\0libm.so.6\0"),
        vec![b"libc.so.6".to_vec(), b"libm.so.6".to_vec(), Vec::new()]
    );
    assert_eq!(split_strings(b""), vec![Vec::<u8>::new()]);
}
