//! String tables: sections that hold NUL-terminated strings back to back.
use crate::elf::{
    section_bytes, section_in_file, Elf64SectionHeader, ELF64_SECTION_HEADER_STRING_TABLE,
};
use std::collections::HashMap;
use vstd::prelude::*;
use vstd::slice::{slice_subrange, slice_to_vec};

verus! {

/// Whether `s` holds a NUL byte.
pub open spec fn has_terminator(s: Seq<u8>) -> bool {
    exists|i: int| 0 <= i < s.len() && s[i] == 0
}

/// The length of the NUL-terminated string at the start of `string`, counting
/// its terminator.
pub fn string_length(string: &[u8]) -> (r: usize)
    requires
        has_terminator(string@),
    ensures
        1 <= r <= string@.len(),
        string@[r - 1] == 0,
        forall|i: int| 0 <= i < r - 1 ==> string@[i] != 0,
{
    let mut index: usize = 0;
    assert(string@.subrange(0, string@.len() as int) =~= string@);
    while string[index] != 0
        invariant
            index < string@.len(),
            has_terminator(string@.subrange(index as int, string@.len() as int)),
            forall|i: int| 0 <= i < index ==> string@[i] != 0,
        decreases string@.len() - index,
    {
        let ghost rest = string@.subrange(index as int, string@.len() as int);
        let ghost k = choose|k: int| 0 <= k < rest.len() && rest[k] == 0;
        assert(k != 0);
        assert(string@.subrange(index + 1, string@.len() as int)[k - 1] == 0);
        index = index + 1;
    }
    index + 1
}

/// The contents of the string-table sections among the first `k`, keyed by
/// file offset; a section that lies beyond the end of the file is left out, and
/// of two sections at one offset the later one stays.
pub open spec fn string_tables_upto(s: Seq<u8>, shs: Seq<Elf64SectionHeader>, k: int) -> Map<
    u64,
    Seq<u8>,
>
    decreases k,
{
    if k <= 0 {
        Map::empty()
    } else if shs[k - 1].sh_type == ELF64_SECTION_HEADER_STRING_TABLE && section_in_file(
        s,
        shs[k - 1],
    ) {
        string_tables_upto(s, shs, k - 1).insert(shs[k - 1].sh_offset, section_bytes(s, shs[k - 1]))
    } else {
        string_tables_upto(s, shs, k - 1)
    }
}

/// The pieces of the first `k` bytes of `s` between NUL bytes: the finished
/// pieces, and the piece still being read.
pub open spec fn split_nul_upto(s: Seq<u8>, k: int) -> (Seq<Seq<u8>>, Seq<u8>)
    decreases k,
{
    if k <= 0 {
        (Seq::empty(), Seq::empty())
    } else {
        let prev = split_nul_upto(s, k - 1);
        if s[k - 1] == 0 {
            (prev.0.push(prev.1), Seq::empty())
        } else {
            (prev.0, prev.1.push(s[k - 1]))
        }
    }
}

/// The pieces of `s` between NUL bytes, empty ones included: a table that ends
/// with a NUL gives an empty last piece.
pub open spec fn split_nul(s: Seq<u8>) -> Seq<Seq<u8>> {
    let p = split_nul_upto(s, s.len() as int);
    p.0.push(p.1)
}

/// The contents of one section; `None` when it lies beyond the end of the
/// file.
pub fn get_string_table_content(section_header: &Elf64SectionHeader, file: &[u8]) -> (r: Option<
    Vec<u8>,
>)
    ensures
        match r {
            Some(v) => section_in_file(file@, *section_header) && v@ == section_bytes(
                file@,
                *section_header,
            ),
            None => !section_in_file(file@, *section_header),
        },
{
    let len: usize = file.len();
    if section_header.sh_offset > len as u64 || section_header.sh_size > len as u64
        - section_header.sh_offset {
        return None;
    }
    let start = section_header.sh_offset as usize;
    let end = (section_header.sh_offset + section_header.sh_size) as usize;
    Some(slice_to_vec(slice_subrange(file, start, end)))
}

/// The contents of every string-table section, keyed by its file offset (see
/// `string_tables_upto`).
pub fn get_string_tables_content(section_headers: &Vec<Elf64SectionHeader>, file: &[u8]) -> (r:
    HashMap<u64, Vec<u8>>)
    ensures
        r@.map_values(|v: Vec<u8>| v@) == string_tables_upto(
            file@,
            section_headers@,
            section_headers@.len() as int,
        ),
{
    broadcast use vstd::std_specs::hash::group_hash_axioms;

    let mut result: HashMap<u64, Vec<u8>> = HashMap::new();
    let mut k: usize = 0;
    assert(result@.map_values(|v: Vec<u8>| v@) =~= Map::<u64, Seq<u8>>::empty());
    while k < section_headers.len()
        invariant
            k <= section_headers@.len(),
            result@.map_values(|v: Vec<u8>| v@) == string_tables_upto(
                file@,
                section_headers@,
                k as int,
            ),
        decreases section_headers@.len() - k,
    {
        let entry = &section_headers[k];
        if entry.sh_type == ELF64_SECTION_HEADER_STRING_TABLE {
            match get_string_table_content(entry, file) {
                Some(content) => {
                    let ghost before = result@;
                    result.insert(entry.sh_offset, content);
                    assert(result@.map_values(|v: Vec<u8>| v@) =~= before.map_values(
                        |v: Vec<u8>| v@,
                    ).insert(entry.sh_offset, content@));
                },
                None => {},
            }
        }
        k = k + 1;
    }
    result
}

/// The strings of a string table: its pieces between NUL bytes (see
/// `split_nul`).
pub fn split_strings(table: &[u8]) -> (r: Vec<Vec<u8>>)
    ensures
        r@.map_values(|v: Vec<u8>| v@) == split_nul(table@),
{
    let ghost s = table@;
    let mut strings: Vec<Vec<u8>> = Vec::new();
    let mut start: usize = 0;
    let mut k: usize = 0;
    while k < table.len()
        invariant
            s == table@,
            start <= k <= s.len(),
            split_nul_upto(s, k as int) == (
                strings@.map_values(|p: Vec<u8>| p@),
                s.subrange(start as int, k as int),
            ),
        decreases s.len() - k,
    {
        let ghost before = strings@;
        if table[k] == 0 {
            strings.push(slice_to_vec(slice_subrange(table, start, k)));
            assert(strings@.map_values(|p: Vec<u8>| p@) =~= before.map_values(|p: Vec<u8>| p@).push(
                s.subrange(start as int, k as int),
            ));
            start = k + 1;
            k = k + 1;
            assert(s.subrange(start as int, k as int) =~= Seq::<u8>::empty());
        } else {
            k = k + 1;
            assert(s.subrange(start as int, k as int) =~= s.subrange(start as int, k - 1).push(
                s[k - 1],
            ));
        }
    }
    let ghost before = strings@;
    strings.push(slice_to_vec(slice_subrange(table, start, k)));
    assert(strings@.map_values(|p: Vec<u8>| p@) =~= before.map_values(|p: Vec<u8>| p@).push(
        s.subrange(start as int, k as int),
    ));
    strings
}

/// The strings of every table of `string_tables` (see `split_strings`), under
/// the same keys.
pub fn convert_string_tables_content(string_tables: &HashMap<u64, Vec<u8>>) -> (r: HashMap<
    u64,
    Vec<Vec<u8>>,
>)
    ensures
        r@.dom() == string_tables@.dom(),
        forall|k: u64|
            #[trigger] r@.contains_key(k) ==> r@[k]@.map_values(|v: Vec<u8>| v@) == split_nul(
                string_tables@[k]@,
            ),
{
    broadcast use vstd::std_specs::hash::group_hash_axioms;

    let mut result: HashMap<u64, Vec<Vec<u8>>> = HashMap::new();
    for entry in it: string_tables.iter()
        invariant
            forall|k: u64|
                #[trigger] result@.contains_key(k) <==> exists|i: int|
                    0 <= i < it.index() && *it.seq()[i].0 == k,
            forall|k: u64|
                #[trigger] result@.contains_key(k) ==> string_tables@.contains_key(k)
                    && result@[k]@.map_values(|v: Vec<u8>| v@) == split_nul(string_tables@[k]@),
    {
        let (key, value) = entry;
        result.insert(*key, split_strings(value.as_slice()));
    }
    assert(result@.dom() =~= string_tables@.dom());
    result
}

} // verus!
