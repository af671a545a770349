use elf_loader::cache::{CacheError, LibraryCache};
use elf_loader::dynamic::Elf64Dynamic;
use elf_loader::elf::{Elf64Header, Elf64Metadata};
use elf_loader::ld_path_loader::{LdPathLoader, LibraryFile};
use elf_loader::resolver::DependenciesResolver;
use std::collections::HashMap;

fn cache_file(entries: &[(&str, &str)]) -> Vec<u8> {
    let mut b = Vec::new();
    b.extend_from_slice(b"glibc-ld.so.cache");
    b.extend_from_slice(b"1.1");
    b.extend_from_slice(&(entries.len() as u32).to_le_bytes());
    b.extend_from_slice(&0u32.to_le_bytes());
    b.resize(48, 0);
    let strings_start = 48 + 24 * entries.len();
    let mut strings: Vec<u8> = Vec::new();
    for (key, value) in entries {
        let key_offset = (strings_start + strings.len()) as u32;
        strings.extend_from_slice(key.as_bytes());
        strings.push(0);
        let value_offset = (strings_start + strings.len()) as u32;
        strings.extend_from_slice(value.as_bytes());
        strings.push(0);
        b.extend_from_slice(&0x303i32.to_le_bytes());
        b.extend_from_slice(&key_offset.to_le_bytes());
        b.extend_from_slice(&value_offset.to_le_bytes());
        b.extend_from_slice(&0u32.to_le_bytes());
        b.extend_from_slice(&0u64.to_le_bytes());
    }
    b.extend_from_slice(&strings);
    b
}

fn image(path: &str, needs: &[&str]) -> Elf64Metadata {
    Elf64Metadata {
        file_path: path.as_bytes().to_vec(),
        elf_header: Elf64Header {
            e_ident: [0x7F, b'E', b'L', b'F', 2, 1, 1, 0, 0, 0, 0, 0, 0, 0, 0, 0],
            e_type: 3,
            e_machine: 0x3E,
            e_version: 1,
            e_entry: 0,
            e_program_header_offset: 0,
            e_section_header_offset: 0,
            e_flags: 0,
            e_elf_header_size: 64,
            e_program_header_entry_size: 56,
            e_program_header_entries: 0,
            e_section_header_entry_size: 64,
            e_section_header_entries: 0,
            e_section_name_string_table_index: 0,
        },
        program_headers: Vec::new(),
        section_headers: Vec::new(),
        symbol_table: Vec::new(),
        dynamic_symbol_table: Vec::new(),
        relocations: Vec::new(),
        dynamic: Elf64Dynamic {
            required_libraries: needs.iter().map(|n| n.as_bytes().to_vec()).collect(),
            init_function: 0,
            init_array: 0,
            init_array_size: 0,
        },
    }
}

/// Runs the traversal over a graph of images known by path, the way a program
/// around the library would.
fn load_order(root: &str, graph: &HashMap<&str, Vec<&str>>) -> Vec<String> {
    let make = |p: &str| image(p, &graph[p]);
    let direct = |m: &Elf64Metadata| -> Vec<Elf64Metadata> {
        m.dynamic
            .required_libraries
            .iter()
            .map(|l| make(std::str::from_utf8(l).unwrap()))
            .collect()
    };
    let root_image = make(root);
    let mut queue = Vec::new();
    DependenciesResolver::add_front(&mut queue, direct(&root_image));
    let mut visited = Vec::new();
    while let Some(entry) = queue.pop() {
        DependenciesResolver::add_front(&mut queue, direct(&entry));
        visited.push(entry);
    }
    DependenciesResolver::resolve_in_loading_order(root_image, visited)
        .iter()
        .map(|m| String::from_utf8(m.file_path.clone()).unwrap())
        .collect()
}

#[test]
fn dependency_order_diamond() {
    let mut graph = HashMap::new();
    graph.insert("A", vec!["B", "C"]);
    graph.insert("B", vec!["D"]);
    graph.insert("C", vec!["D"]);
    graph.insert("D", vec![]);
    let order = load_order("A", &graph);
    assert_eq!(order.len(), 4);
    let at = |n: &str| order.iter().position(|p| p == n).unwrap();
    assert!(at("D") < at("B") && at("D") < at("C"));
    assert!(at("B") < at("A") && at("C") < at("A"));
    assert_eq!(order, vec!["D", "B", "C", "A"]);
}

#[test]
fn dependency_order_chain_with_shared_leaf() {
    let mut graph = HashMap::new();
    graph.insert("app", vec!["libm", "libc"]);
    graph.insert("libm", vec!["libc"]);
    graph.insert("libc", vec!["ld"]);
    graph.insert("ld", vec![]);
    let order = load_order("app", &graph);
    assert_eq!(order, vec!["ld", "libc", "libm", "app"]);
}

#[test]
fn loading_order_drops_repeated_paths() {
    let root = image("root", &[]);
    let visited = vec![image("x", &[]), image("y", &[]), image("x", &[]), image("root", &[])];
    let order = DependenciesResolver::resolve_in_loading_order(root, visited);
    let paths: Vec<Vec<u8>> = order.iter().map(|m| m.file_path.clone()).collect();
    assert_eq!(paths, vec![b"root".to_vec(), b"x".to_vec(), b"y".to_vec()]);
}

#[test]
fn add_front_puts_last_on_top() {
    let mut queue = vec![image("a", &[])];
    DependenciesResolver::add_front(&mut queue, vec![image("b", &[]), image("c", &[])]);
    assert_eq!(queue.pop().unwrap().file_path, b"c".to_vec());
    assert_eq!(queue.pop().unwrap().file_path, b"b".to_vec());
    assert_eq!(queue.pop().unwrap().file_path, b"a".to_vec());
}

#[test]
fn cache_parse_and_find() {
    let bytes = cache_file(&[
        ("libc.so.6", "/lib/x86_64-linux-gnu/libc.so.6"),
        ("libm.so.6", "/lib/x86_64-linux-gnu/libm.so.6"),
        ("libc.so.6", "/lib/i386-linux-gnu/libc.so.6"),
    ]);
    let cache = LibraryCache::parse(&bytes).unwrap();
    assert_eq!(
        cache.find(b"libc.so.6"),
        Some(vec![
            b"/lib/x86_64-linux-gnu/libc.so.6".to_vec(),
            b"/lib/i386-linux-gnu/libc.so.6".to_vec()
        ])
    );
    assert_eq!(cache.find(b"libm.so.6"), Some(vec![b"/lib/x86_64-linux-gnu/libm.so.6".to_vec()]));
    assert_eq!(cache.find(b"libz.so.1"), None);
    assert_eq!(LibraryCache::new().find(b"libc.so.6"), None);
}

#[test]
fn cache_truncated() {
    let bytes = cache_file(&[("libc.so.6", "/lib/libc.so.6")]);
    assert_eq!(LibraryCache::parse(&bytes[..40]).unwrap_err(), CacheError::Truncated);
    assert_eq!(LibraryCache::parse(&bytes[..60]).unwrap_err(), CacheError::Truncated);
    let mut more = bytes.clone();
    more[20] = 200;
    assert_eq!(LibraryCache::parse(&more).unwrap_err(), CacheError::Truncated);
}

#[test]
fn search_path_directories() {
    let loader = LdPathLoader::new(b"/opt/lib::/usr/local/lib:");
    assert_eq!(loader.directories(), &vec![b"/opt/lib".to_vec(), b"/usr/local/lib".to_vec()]);
    assert!(LdPathLoader::new(b"").directories().is_empty());
    assert!(LdPathLoader::new(b":::").directories().is_empty());
    assert_eq!(LdPathLoader::new(b"/a").directories(), &vec![b"/a".to_vec()]);
}

#[test]
fn search_path_get_remembers() {
    let mut loader = LdPathLoader::new(b"/opt/lib");
    let found = vec![
        LibraryFile { name: b"libfoo.so".to_vec(), path: b"/opt/lib/libfoo.so".to_vec() },
        LibraryFile { name: b"libbar.so".to_vec(), path: b"/opt/lib/libbar.so.2".to_vec() },
        LibraryFile { name: b"libbar.so".to_vec(), path: b"/opt/other/libbar.so".to_vec() },
    ];
    assert_eq!(loader.cached(b"libbar.so"), None);
    assert_eq!(loader.get(b"libbar.so", &found), Some(b"/opt/lib/libbar.so.2".to_vec()));
    assert_eq!(loader.cached(b"libbar.so"), Some(b"/opt/lib/libbar.so.2".to_vec()));
    assert_eq!(loader.get(b"libbar.so", &Vec::new()), Some(b"/opt/lib/libbar.so.2".to_vec()));
    assert_eq!(loader.get(b"libqux.so", &found), None);
}

#[test]
fn resolver_prefers_the_cache() {
    let cache = LibraryCache::parse(&cache_file(&[("libc.so.6", "/lib/libc.so.6")])).unwrap();
    let loader = LdPathLoader::new(b"/opt/lib");
    let mut resolver = DependenciesResolver::new(cache, Some(loader));
    let found = vec![
        LibraryFile { name: b"libc.so.6".to_vec(), path: b"/opt/lib/libc.so.6".to_vec() },
        LibraryFile { name: b"libfoo.so".to_vec(), path: b"/opt/lib/libfoo.so".to_vec() },
    ];
    assert!(!resolver.needs_directory_scan(b"libc.so.6"));
    assert_eq!(resolver.resolve_path(b"libc.so.6", &found), vec![b"/lib/libc.so.6".to_vec()]);
    assert!(resolver.needs_directory_scan(b"libfoo.so"));
    assert_eq!(resolver.resolve_path(b"libfoo.so", &found), vec![b"/opt/lib/libfoo.so".to_vec()]);
    assert!(!resolver.needs_directory_scan(b"libfoo.so"));
    assert!(resolver.resolve_path(b"libnone.so", &found).is_empty());
}

#[test]
fn resolver_without_search_path() {
    let mut resolver = DependenciesResolver::new(LibraryCache::new(), None);
    assert!(!resolver.needs_directory_scan(b"libfoo.so"));
    assert!(resolver.resolve_path(b"libfoo.so", &Vec::new()).is_empty());
}
