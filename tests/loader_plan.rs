use elf_loader::dynamic::Elf64Dynamic;
use elf_loader::elf::{
    Elf64Header, Elf64Metadata, Elf64ProgramHeader, Elf64ResolvedRelocationAddend,
    Elf64ResolvedSymbolTableEntry, Elf64SectionHeader, RELOCATION_X86_64_64,
    RELOCATION_X86_64_COPY, RELOCATION_X86_64_GLOB_DAT, RELOCATION_X86_64_JUMP_SLOT,
    RELOCATION_X86_64_RELATIVE,
};
use elf_loader::layout::{align_address, map_protection, round_up_page, Protection};
use elf_loader::loader::{Elf64Loader, LoadError, MemoryAction, INITIAL_BASE_ADDRESS};

const PAGE: u64 = 4096;

fn header(entry: u64) -> Elf64Header {
    Elf64Header {
        e_ident: [0x7F, b'E', b'L', b'F', 2, 1, 1, 0, 0, 0, 0, 0, 0, 0, 0, 0],
        e_type: 3,
        e_machine: 0x3E,
        e_version: 1,
        e_entry: entry,
        e_program_header_offset: 64,
        e_section_header_offset: 0,
        e_flags: 0,
        e_elf_header_size: 64,
        e_program_header_entry_size: 56,
        e_program_header_entries: 0,
        e_section_header_entry_size: 64,
        e_section_header_entries: 0,
        e_section_name_string_table_index: 0,
    }
}

fn symbol(name: &[u8], binding: u8, symbol_type: u8, section: u16, value: u64) -> Elf64ResolvedSymbolTableEntry {
    Elf64ResolvedSymbolTableEntry {
        symbol_name: name.to_vec(),
        binding,
        symbol_type,
        section_index: section,
        value,
        size: 8,
    }
}

fn relocation(name: &[u8], relocation_type: u64, offset: u64, addend: i64) -> Elf64ResolvedRelocationAddend {
    Elf64ResolvedRelocationAddend {
        symbol_name: name.to_vec(),
        symbol_index: 1,
        relocation_type,
        offset,
        addend,
    }
}

fn segment(virtual_address: u64, offset: u64, file_size: u64, memory_size: u64, flags: u32) -> Elf64ProgramHeader {
    Elf64ProgramHeader {
        p_type: 1,
        p_flags: flags,
        p_offset: offset,
        p_virtual_address: virtual_address,
        p_physical_address: virtual_address,
        p_file_size: file_size,
        p_memory_size: memory_size,
        p_align: 0x1000,
    }
}

fn image(path: &[u8]) -> Elf64Metadata {
    Elf64Metadata {
        file_path: path.to_vec(),
        elf_header: header(0x1040),
        program_headers: Vec::new(),
        section_headers: Vec::new(),
        symbol_table: Vec::new(),
        dynamic_symbol_table: Vec::new(),
        relocations: Vec::new(),
        dynamic: Elf64Dynamic {
            required_libraries: Vec::new(),
            init_function: 0,
            init_array: 0,
            init_array_size: 0,
        },
    }
}

#[test]
fn round_up_page_values() {
    assert_eq!(round_up_page(0, PAGE), Some(0));
    assert_eq!(round_up_page(4096, PAGE), Some(4096));
    assert_eq!(round_up_page(4097, PAGE), Some(8192));
    assert_eq!(round_up_page(1, PAGE), Some(4096));
    assert_eq!(round_up_page(8191, PAGE), Some(8192));
    assert_eq!(round_up_page(u64::MAX, PAGE), None);
    assert_eq!(round_up_page(u64::MAX - 4095, PAGE), Some(u64::MAX - 4095));
}

#[test]
fn round_up_page_is_idempotent() {
    for v in [0u64, 1, 4095, 4096, 4097, 123456, 0x20001] {
        let once = round_up_page(v, PAGE).unwrap();
        assert_eq!(round_up_page(once, PAGE), Some(once));
        assert_eq!(once % PAGE, 0);
        assert!(once >= v && once - v < PAGE);
        if v % PAGE != 0 {
            assert!(once > v);
        }
    }
}

#[test]
fn align_address_values() {
    assert_eq!(align_address(0x21234, 0x1000), 0x21000);
    assert_eq!(align_address(0x21000, 0x1000), 0x21000);
    assert_eq!(align_address(0x21234, 0), 0x21234);
    assert_eq!(align_address(0x21234, 1), 0x21234);
}

#[test]
fn protection_follows_flags() {
    let p = map_protection(&segment(0x1000, 0, 1, 1, 5));
    assert_eq!(p, Protection { read: true, write: false, execute: true });
    let q = map_protection(&segment(0x1000, 0, 1, 1, 6));
    assert_eq!(q, Protection { read: true, write: true, execute: false });
}

#[test]
fn new_loader_state() {
    let loader = Elf64Loader::new(PAGE, 0x7000_0000, 0x7000_1000);
    assert_eq!(loader.base_address(), INITIAL_BASE_ADDRESS);
    assert_eq!(loader.entry(), 0);
    assert_eq!(loader.page_size(), PAGE);
    assert!(loader.init_functions().is_empty());
    let rtld = loader.global_symbol(b"_rtld_global_ro").unwrap();
    assert_eq!(rtld.value, 0x7000_0000);
    assert_eq!(rtld.symbol_type, 1);
    let tunable = loader.default_global_symbol(b"__tunable_get_val").unwrap();
    assert_eq!(tunable.value, 0x7000_1000);
    assert_eq!(tunable.symbol_type, 2);
    assert!(loader.global_symbol(b"printf").is_none());
}

#[test]
fn relative_relocation() {
    let mut loader = Elf64Loader::new(PAGE, 0, 0);
    let mut img = image(b"/lib/a.so");
    img.relocations.push(relocation(b"", RELOCATION_X86_64_RELATIVE, 0x3000, 0x1234));
    let actions = loader.load_program_header(&img).unwrap();
    assert_eq!(actions, vec![MemoryAction::WriteWord { address: 0x23000, value: 0x21234 }]);
}

#[test]
fn glob_dat_resolution() {
    let mut loader = Elf64Loader::new(PAGE, 0, 0);
    let mut exporter = image(b"/lib/libc.so.6");
    exporter.dynamic_symbol_table.push(symbol(b"printf", 1, 2, 12, 0x7fff1000 - 0x20000));
    loader.load_program_header(&exporter).unwrap();
    assert_eq!(loader.global_symbol(b"printf").unwrap().value, 0x7fff1000);
    let base = loader.base_address();
    let mut user = image(b"/bin/hello");
    user.relocations.push(relocation(b"printf", RELOCATION_X86_64_GLOB_DAT, 0x5000, 0));
    let actions = loader.load_program_header(&user).unwrap();
    assert_eq!(
        actions,
        vec![MemoryAction::WriteWord { address: base + 0x5000, value: 0x7fff1000 }]
    );
}

#[test]
fn versioned_symbol_fallback() {
    let mut loader = Elf64Loader::new(PAGE, 0, 0);
    let mut exporter = image(b"/lib/libc.so.6");
    exporter
        .dynamic_symbol_table
        .push(symbol(b"memcpy@@GLIBC_2.14", 1, 2, 12, 0x500));
    loader.load_program_header(&exporter).unwrap();
    let v = loader.default_global_symbol(b"memcpy").unwrap();
    assert_eq!(v.value, 0x20500);
    let rela = relocation(b"memcpy@GLIBC_2.14", RELOCATION_X86_64_JUMP_SLOT, 0x10, 0);
    assert_eq!(loader.get_symbol(&rela).unwrap().value, 0x20500);
    let missing = relocation(b"strlen@GLIBC_2.2.5", RELOCATION_X86_64_JUMP_SLOT, 0x10, 0);
    assert!(loader.get_symbol(&missing).is_none());
    assert_eq!(loader.relocation_action(&missing, 0x1000), None);
}

#[test]
fn first_binding_wins_and_locals_are_skipped() {
    let mut loader = Elf64Loader::new(PAGE, 0, 0);
    let mut first = image(b"/lib/first.so");
    first.dynamic_symbol_table.push(symbol(b"shared", 2, 1, 5, 0x10));
    first.dynamic_symbol_table.push(symbol(b"local", 0, 1, 5, 0x20));
    first.dynamic_symbol_table.push(symbol(b"missing", 1, 1, 0, 0));
    loader.load_program_header(&first).unwrap();
    let first_base = INITIAL_BASE_ADDRESS;
    let mut second = image(b"/lib/second.so");
    second.dynamic_symbol_table.push(symbol(b"shared", 1, 1, 5, 0x30));
    loader.load_program_header(&second).unwrap();
    assert_eq!(loader.global_symbol(b"shared").unwrap().value, first_base + 0x10);
    assert!(loader.global_symbol(b"local").is_none());
    assert!(loader.global_symbol(b"missing").is_none());
}

#[test]
fn other_relocation_kinds() {
    let mut loader = Elf64Loader::new(PAGE, 0, 0);
    let mut exporter = image(b"/lib/libc.so.6");
    exporter.dynamic_symbol_table.push(symbol(b"environ", 1, 1, 12, 0x100));
    exporter.dynamic_symbol_table.push(symbol(b"strchr", 1, 10, 12, 0x200));
    loader.load_program_header(&exporter).unwrap();
    let base = loader.base_address();
    let mut user = image(b"/bin/hello");
    user.relocations.push(relocation(b"environ", RELOCATION_X86_64_64, 0x10, -0x10));
    user.relocations.push(relocation(b"environ", RELOCATION_X86_64_COPY, 0x20, 0));
    user.relocations.push(relocation(b"strchr", RELOCATION_X86_64_JUMP_SLOT, 0x30, 0));
    user.relocations.push(relocation(b"nowhere", RELOCATION_X86_64_GLOB_DAT, 0x40, 0));
    user.relocations.push(relocation(b"", 2, 0x50, 0));
    let actions = loader.load_program_header(&user).unwrap();
    assert_eq!(
        actions,
        vec![
            MemoryAction::WriteWord { address: base + 0x10, value: 0x20100 - 0x10 },
            MemoryAction::CopyBytes { destination: base + 0x20, source: 0x20100, size: 8 },
            MemoryAction::WriteResolvedWord { address: base + 0x30, resolver: 0x20200 },
        ]
    );
}

#[test]
fn segments_bss_entry_and_next_base() {
    let mut loader = Elf64Loader::new(PAGE, 0, 0);
    let mut img = image(b"/bin/hello");
    img.program_headers.push(segment(0x1000, 0x1000, 0x200, 0x200, 5));
    img.program_headers.push(segment(0x3e10, 0x2e10, 0x100, 0x300, 6));
    img.program_headers.push(segment(0, 0, 0x40, 0x40, 4));
    img.section_headers.push(Elf64SectionHeader {
        sh_name: 0,
        sh_type: 8,
        sh_flags: 3,
        sh_virtual_address: 0x3f10,
        sh_offset: 0x2f10,
        sh_size: 0x200,
        sh_link: 0,
        sh_info: 0,
        sh_address_align: 16,
        sh_entry_size: 0,
    });
    let actions = loader.load_program_header(&img).unwrap();
    let rx = Protection { read: true, write: false, execute: true };
    let rw = Protection { read: true, write: true, execute: false };
    assert_eq!(
        actions,
        vec![
            MemoryAction::MapSegment { address: 0x21000, length: 0x1000, file_offset: 0x1000, protection: rx },
            MemoryAction::MapSegment { address: 0x23000, length: 0x2000, file_offset: 0x2000, protection: rw },
            MemoryAction::Zero { address: 0x23f10, size: 0x200 },
        ]
    );
    assert_eq!(loader.entry(), 0x21040);
    // The highest end is 0x23000 + 0x300; the next image starts on the page after it.
    assert_eq!(loader.base_address(), 0x24000);
}

#[test]
fn overflowing_layout_leaves_the_loader_unchanged() {
    let mut loader = Elf64Loader::new(PAGE, 0, 0);
    let mut img = image(b"/bin/broken");
    img.program_headers.push(segment(u64::MAX - 0x100, 0, 0x10, 0x10, 4));
    img.dynamic_symbol_table.push(symbol(b"f", 1, 2, 3, 0x10));
    assert_eq!(loader.load_program_header(&img), Err(LoadError::AddressOverflow));
    assert_eq!(loader.base_address(), INITIAL_BASE_ADDRESS);
    assert!(loader.global_symbol(b"f").is_none());
}

#[test]
fn init_functions_are_collected() {
    let mut loader = Elf64Loader::new(PAGE, 0, 0);
    let d = Elf64Dynamic {
        required_libraries: Vec::new(),
        init_function: 0x1000,
        init_array: 0x3df0,
        init_array_size: 16,
    };
    assert_eq!(Elf64Loader::init_array_location(&d, 0x20000), Some((0x23df0, 2)));
    loader.append_init_functions(&d, 0x20000, &[0x21130, 0x21140]);
    assert_eq!(loader.init_functions(), &vec![0x21000, 0x21130, 0x21140]);
    let none = Elf64Dynamic {
        required_libraries: Vec::new(),
        init_function: 0,
        init_array: 0,
        init_array_size: 0,
    };
    assert_eq!(Elf64Loader::init_array_location(&none, 0x20000), None);
    loader.append_init_functions(&none, 0x30000, &[]);
    assert_eq!(loader.init_functions().len(), 3);
}

#[test]
fn dynamic_linker_is_not_loaded() {
    let mut ld = image(b"/lib64/ld-linux-x86-64.so.2");
    ld.program_headers.push(segment(0x1000, 0, 1, 1, 4));
    assert!(!Elf64Loader::is_loadable(&ld));
    let mut libc = image(b"/lib/x86_64-linux-gnu/libc.so.6");
    assert!(!Elf64Loader::is_loadable(&libc));
    libc.program_headers.push(segment(0x1000, 0, 1, 1, 4));
    assert!(Elf64Loader::is_loadable(&libc));
}
