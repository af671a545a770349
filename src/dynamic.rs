//! The dynamic section: required libraries and initialization routines.
use crate::bytes::{c_string_at, read_u64, string_at, u64_at};
use crate::elf::{
    is_read_section, section_bytes, section_in_file, sections_in_file, Elf64SectionHeader,
    ParseError, ELF64_SECTION_HEADER_DYNAMIC, ELF64_SECTION_HEADER_STRING_TABLE,
};
use vstd::arithmetic::div_mod::{lemma_fundamental_div_mod, lemma_mod_pos_bound};
use vstd::prelude::*;
use vstd::slice::slice_subrange;

verus! {

pub const DYNAMIC_ENTRY_SIZE: usize = 16;

pub const DYNAMIC_TABLE_NEEDED: i64 = 1;

pub const DYNAMIC_TABLE_STRING_TABLE: i64 = 5;

pub const DYNAMIC_TABLE_INIT_FUNCTION: i64 = 12;

pub const DYNAMIC_TABLE_INIT_ARRAY: i64 = 25;

pub const DYNAMIC_TABLE_INIT_ARRAY_SIZE: i64 = 27;

/// One `(tag, value)` pair of a dynamic section.
#[derive(Clone, Copy)]
struct Elf64DynamicSection {
    tag: i64,
    value_or_pointer: u64,
}

/// What one sweep over a dynamic section collects.
struct Elf64DynamicData {
    required_libraries_string_table_offset: Vec<u64>,
    dynamic_string_table_address: u64,
    init_function: u64,
    init_array: u64,
    init_array_size: u64,
}

impl Elf64DynamicData {
    fn new() -> (r: Elf64DynamicData)
        ensures
            r.required_libraries_string_table_offset@ == Seq::<u64>::empty(),
            r.dynamic_string_table_address == 0,
            r.init_function == 0,
            r.init_array == 0,
            r.init_array_size == 0,
    {
        Elf64DynamicData {
            required_libraries_string_table_offset: Vec::new(),
            dynamic_string_table_address: 0,
            init_function: 0,
            init_array: 0,
            init_array_size: 0,
        }
    }
}

/// The libraries that an image needs and its initialization routines.
#[derive(Clone, Debug, PartialEq, Eq)]
pub struct Elf64Dynamic {
    pub required_libraries: Vec<Vec<u8>>,
    pub init_function: u64,
    pub init_array: u64,
    pub init_array_size: u64,
}

pub struct DynamicView {
    pub required_libraries: Seq<Seq<u8>>,
    pub init_function: u64,
    pub init_array: u64,
    pub init_array_size: u64,
}

impl View for Elf64Dynamic {
    type V = DynamicView;

    open spec fn view(&self) -> DynamicView {
        DynamicView {
            required_libraries: self.required_libraries@.map_values(|l: Vec<u8>| l@),
            init_function: self.init_function,
            init_array: self.init_array,
            init_array_size: self.init_array_size,
        }
    }
}

pub open spec fn dynamic_entry_count(h: Elf64SectionHeader) -> int {
    (h.sh_size / DYNAMIC_ENTRY_SIZE as u64) as int
}

pub open spec fn dynamic_tag(s: Seq<u8>, h: Elf64SectionHeader, i: int) -> i64 {
    #[verifier::truncate]
    (u64_at(s, h.sh_offset + DYNAMIC_ENTRY_SIZE * i) as i64)
}

pub open spec fn dynamic_value(s: Seq<u8>, h: Elf64SectionHeader, i: int) -> u64 {
    u64_at(s, h.sh_offset + DYNAMIC_ENTRY_SIZE * i + 8)
}

/// The values of the `NEEDED` entries among the first `k`, in order.
pub open spec fn needed_upto(s: Seq<u8>, h: Elf64SectionHeader, k: int) -> Seq<u64>
    decreases k,
{
    if k <= 0 {
        Seq::empty()
    } else if dynamic_tag(s, h, k - 1) == DYNAMIC_TABLE_NEEDED {
        needed_upto(s, h, k - 1).push(dynamic_value(s, h, k - 1))
    } else {
        needed_upto(s, h, k - 1)
    }
}

/// The value of the last entry with `tag` among the first `k`; 0 when none.
pub open spec fn last_value_upto(s: Seq<u8>, h: Elf64SectionHeader, tag: i64, k: int) -> u64
    decreases k,
{
    if k <= 0 {
        0
    } else if dynamic_tag(s, h, k - 1) == tag {
        dynamic_value(s, h, k - 1)
    } else {
        last_value_upto(s, h, tag, k - 1)
    }
}

/// The contents of the first string table, from index `i` on, whose virtual
/// address is `address`; empty when there is none.
pub open spec fn string_table_at_address(
    s: Seq<u8>,
    shs: Seq<Elf64SectionHeader>,
    address: u64,
    i: int,
) -> Seq<u8>
    decreases shs.len() - i,
{
    if i < 0 || i >= shs.len() {
        Seq::empty()
    } else if shs[i].sh_type == ELF64_SECTION_HEADER_STRING_TABLE && shs[i].sh_virtual_address
        == address {
        section_bytes(s, shs[i])
    } else {
        string_table_at_address(s, shs, address, i + 1)
    }
}

/// What one dynamic section says.
pub open spec fn section_dynamic(
    s: Seq<u8>,
    shs: Seq<Elf64SectionHeader>,
    h: Elf64SectionHeader,
) -> DynamicView {
    let n = dynamic_entry_count(h);
    let table = string_table_at_address(
        s,
        shs,
        last_value_upto(s, h, DYNAMIC_TABLE_STRING_TABLE, n),
        0,
    );
    DynamicView {
        required_libraries: needed_upto(s, h, n).map_values(|off: u64| c_string_at(table, off as int)),
        init_function: last_value_upto(s, h, DYNAMIC_TABLE_INIT_FUNCTION, n),
        init_array: last_value_upto(s, h, DYNAMIC_TABLE_INIT_ARRAY, n),
        init_array_size: last_value_upto(s, h, DYNAMIC_TABLE_INIT_ARRAY_SIZE, n),
    }
}

/// `d` after a sweep over one more dynamic section: the section's libraries are
/// appended and its initialization fields replace the earlier ones.
pub open spec fn dynamic_after(d: DynamicView, section: DynamicView) -> DynamicView {
    DynamicView {
        required_libraries: d.required_libraries + section.required_libraries,
        init_function: section.init_function,
        init_array: section.init_array,
        init_array_size: section.init_array_size,
    }
}

pub open spec fn empty_dynamic() -> DynamicView {
    DynamicView {
        required_libraries: Seq::empty(),
        init_function: 0,
        init_array: 0,
        init_array_size: 0,
    }
}

/// The dynamic record of the first `k` sections.
pub open spec fn dynamic_upto(s: Seq<u8>, shs: Seq<Elf64SectionHeader>, k: int) -> DynamicView
    decreases k,
{
    if k <= 0 {
        empty_dynamic()
    } else if shs[k - 1].sh_type == ELF64_SECTION_HEADER_DYNAMIC {
        dynamic_after(dynamic_upto(s, shs, k - 1), section_dynamic(s, shs, shs[k - 1]))
    } else {
        dynamic_upto(s, shs, k - 1)
    }
}

/// The dynamic record of an image whose section headers are `shs`.
pub open spec fn dynamic_of(s: Seq<u8>, shs: Seq<Elf64SectionHeader>) -> DynamicView {
    dynamic_upto(s, shs, shs.len() as int)
}

proof fn lemma_entry_in_section(total: int, i: int)
    requires
        0 <= i < total / DYNAMIC_ENTRY_SIZE as int,
        total >= 0,
    ensures
        DYNAMIC_ENTRY_SIZE * i + DYNAMIC_ENTRY_SIZE <= total,
{
    let q = total / DYNAMIC_ENTRY_SIZE as int;
    lemma_fundamental_div_mod(total, DYNAMIC_ENTRY_SIZE as int);
    lemma_mod_pos_bound(total, DYNAMIC_ENTRY_SIZE as int);
}

/// Whether every section that the parser reads lies within the file.
pub fn check_sections_in_file(section_headers: &Vec<Elf64SectionHeader>, file: &[u8]) -> (r: bool)
    ensures
        r == sections_in_file(file@, section_headers@),
{
    let len: usize = file.len();
    let mut i: usize = 0;
    while i < section_headers.len()
        invariant
            len == file@.len(),
            i <= section_headers@.len(),
            forall|j: int|
                0 <= j < i && is_read_section(#[trigger] section_headers@[j].sh_type)
                    ==> section_in_file(file@, section_headers@[j]),
        decreases section_headers@.len() - i,
    {
        let h = &section_headers[i];
        let t = h.sh_type;
        if t == 2 || t == 3 || t == 4 || t == 6 || t == 11 {
            if h.sh_offset > len as u64 || h.sh_size > len as u64 - h.sh_offset {
                assert(is_read_section(section_headers@[i as int].sh_type));
                return false;
            }
        }
        i = i + 1;
    }
    true
}

fn string_table_at<'a>(
    section_headers: &Vec<Elf64SectionHeader>,
    file: &'a [u8],
    address: u64,
) -> (r: &'a [u8])
    requires
        sections_in_file(file@, section_headers@),
    ensures
        r@ == string_table_at_address(file@, section_headers@, address, 0),
{
    let len: usize = file.len();
    let mut i: usize = 0;
    while i < section_headers.len()
        invariant
            len == file@.len(),
            sections_in_file(file@, section_headers@),
            i <= section_headers@.len(),
            string_table_at_address(file@, section_headers@, address, 0)
                == string_table_at_address(file@, section_headers@, address, i as int),
        decreases section_headers@.len() - i,
    {
        let h = &section_headers[i];
        if h.sh_type == ELF64_SECTION_HEADER_STRING_TABLE && h.sh_virtual_address == address {
            assert(is_read_section(section_headers@[i as int].sh_type));
            assert(section_in_file(file@, section_headers@[i as int]));
            return slice_subrange(file, h.sh_offset as usize, (h.sh_offset + h.sh_size) as usize);
        }
        i = i + 1;
    }
    let r = slice_subrange(file, 0, 0);
    assert(r@ =~= Seq::<u8>::empty());
    r
}

impl Elf64Dynamic {
    fn load_dynamic_section(
        entry: &Elf64SectionHeader,
        section_headers: &Vec<Elf64SectionHeader>,
        elf64_dynamic: &mut Elf64Dynamic,
        file: &[u8],
    )
        requires
            sections_in_file(file@, section_headers@),
            section_in_file(file@, *entry),
        ensures
            final(elf64_dynamic)@ == dynamic_after(
                old(elf64_dynamic)@,
                section_dynamic(file@, section_headers@, *entry),
            ),
    {
        let ghost s = file@;
        let len: usize = file.len();
        let count = entry.sh_size / DYNAMIC_ENTRY_SIZE as u64;
        let mut dynamic_array: Vec<Elf64DynamicSection> = Vec::new();
        let mut x: u64 = 0;
        while x < count
            invariant
                s == file@,
                len == s.len(),
                section_in_file(s, *entry),
                count == dynamic_entry_count(*entry),
                x <= count,
                dynamic_array@.len() == x,
                forall|j: int|
                    0 <= j < x ==> (#[trigger] dynamic_array@[j]).tag == dynamic_tag(s, *entry, j)
                        && dynamic_array@[j].value_or_pointer == dynamic_value(s, *entry, j),
            decreases count - x,
        {
            proof {
                lemma_entry_in_section(entry.sh_size as int, x as int);
            }
            let from = entry.sh_offset as usize + DYNAMIC_ENTRY_SIZE * x as usize;
            let tag_bits = read_u64(file, from);
            let elem = Elf64DynamicSection {
                tag: #[verifier::truncate] (tag_bits as i64),
                value_or_pointer: read_u64(file, from + 8),
            };
            dynamic_array.push(elem);
            x = x + 1;
        }
        let mut data = Elf64DynamicData::new();
        let mut i: usize = 0;
        while i < dynamic_array.len()
            invariant
                dynamic_array@.len() == count,
                count == dynamic_entry_count(*entry),
                i <= count,
                forall|j: int|
                    0 <= j < count ==> (#[trigger] dynamic_array@[j]).tag == dynamic_tag(
                        s,
                        *entry,
                        j,
                    ) && dynamic_array@[j].value_or_pointer == dynamic_value(s, *entry, j),
                data.required_libraries_string_table_offset@ == needed_upto(s, *entry, i as int),
                data.dynamic_string_table_address == last_value_upto(
                    s,
                    *entry,
                    DYNAMIC_TABLE_STRING_TABLE,
                    i as int,
                ),
                data.init_function == last_value_upto(
                    s,
                    *entry,
                    DYNAMIC_TABLE_INIT_FUNCTION,
                    i as int,
                ),
                data.init_array == last_value_upto(s, *entry, DYNAMIC_TABLE_INIT_ARRAY, i as int),
                data.init_array_size == last_value_upto(
                    s,
                    *entry,
                    DYNAMIC_TABLE_INIT_ARRAY_SIZE,
                    i as int,
                ),
            decreases count - i,
        {
            let e = dynamic_array[i];
            if e.tag == DYNAMIC_TABLE_NEEDED {
                data.required_libraries_string_table_offset.push(e.value_or_pointer);
            }
            if e.tag == DYNAMIC_TABLE_STRING_TABLE {
                data.dynamic_string_table_address = e.value_or_pointer;
            }
            if e.tag == DYNAMIC_TABLE_INIT_FUNCTION {
                data.init_function = e.value_or_pointer;
            }
            if e.tag == DYNAMIC_TABLE_INIT_ARRAY {
                data.init_array = e.value_or_pointer;
            }
            if e.tag == DYNAMIC_TABLE_INIT_ARRAY_SIZE {
                data.init_array_size = e.value_or_pointer;
            }
            i = i + 1;
        }
        let string_table = string_table_at(
            section_headers,
            file,
            data.dynamic_string_table_address,
        );
        let ghost table = string_table@;
        let ghost offsets = data.required_libraries_string_table_offset@;
        let ghost before = elf64_dynamic@.required_libraries;
        let mut k: usize = 0;
        while k < data.required_libraries_string_table_offset.len()
            invariant
                offsets == data.required_libraries_string_table_offset@,
                table == string_table@,
                k <= offsets.len(),
                elf64_dynamic@.required_libraries == before + offsets.subrange(0, k as int).map_values(
                    |off: u64| c_string_at(table, off as int),
                ),
            decreases offsets.len() - k,
        {
            let name = string_at(string_table, data.required_libraries_string_table_offset[k]);
            let ghost prev = elf64_dynamic.required_libraries@;
            elf64_dynamic.required_libraries.push(name);
            assert(elf64_dynamic.required_libraries@.map_values(|l: Vec<u8>| l@) =~= prev.map_values(
                |l: Vec<u8>| l@,
            ).push(name@));
            k = k + 1;
            assert(offsets.subrange(0, k as int).map_values(
                |off: u64| c_string_at(table, off as int),
            ) =~= offsets.subrange(0, k - 1).map_values(
                |off: u64| c_string_at(table, off as int),
            ).push(c_string_at(table, offsets[k - 1] as int)));
            assert(elf64_dynamic@.required_libraries =~= before + offsets.subrange(
                0,
                k as int,
            ).map_values(|off: u64| c_string_at(table, off as int)));
        }
        assert(offsets.subrange(0, k as int) =~= offsets);
        elf64_dynamic.init_function = data.init_function;
        elf64_dynamic.init_array = data.init_array;
        elf64_dynamic.init_array_size = data.init_array_size;
    }

    /// Collects the record of every dynamic section, in section order.
    ///
    /// Fails with `Truncated` exactly when a section that the parser reads
    /// lies beyond the end of the file.
    pub fn load(section_headers: &Vec<Elf64SectionHeader>, file: &[u8]) -> (r: Result<
        Elf64Dynamic,
        ParseError,
    >)
        ensures
            match r {
                Ok(d) => sections_in_file(file@, section_headers@) && d@ == dynamic_of(
                    file@,
                    section_headers@,
                ),
                Err(e) => !sections_in_file(file@, section_headers@) && e == ParseError::Truncated,
            },
    {
        if !check_sections_in_file(section_headers, file) {
            return Err(ParseError::Truncated);
        }
        let mut result = Elf64Dynamic {
            required_libraries: Vec::new(),
            init_function: 0,
            init_array: 0,
            init_array_size: 0,
        };
        assert(result@.required_libraries =~= Seq::<Seq<u8>>::empty());
        let mut k: usize = 0;
        while k < section_headers.len()
            invariant
                sections_in_file(file@, section_headers@),
                k <= section_headers@.len(),
                result@ == dynamic_upto(file@, section_headers@, k as int),
            decreases section_headers@.len() - k,
        {
            let entry = &section_headers[k];
            if entry.sh_type == ELF64_SECTION_HEADER_DYNAMIC {
                assert(is_read_section(section_headers@[k as int].sh_type));
                Elf64Dynamic::load_dynamic_section(entry, section_headers, &mut result, file);
            }
            k = k + 1;
        }
        Ok(result)
    }
}

} // verus!
