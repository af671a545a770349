//! The loader/linker core. For each image it keeps the global symbol tables up
//! to date and plans the memory operations that map, clear and relocate it;
//! the program around the library carries them out.
use crate::dynamic::Elf64Dynamic;
use crate::elf::{
    relocations_view, symbols_view, Elf64Metadata, Elf64ProgramHeader,
    Elf64ResolvedRelocationAddend, Elf64ResolvedSymbolTableEntry, Elf64SectionHeader,
    RelocationView, SymbolView, ELF64_SECTION_HEADER_NO_BITS, PROGRAM_HEADER_TYPE_LOADABLE,
    RELOCATION_X86_64_64, RELOCATION_X86_64_COPY, RELOCATION_X86_64_GLOB_DAT,
    RELOCATION_X86_64_IRELATIV, RELOCATION_X86_64_JUMP_SLOT, RELOCATION_X86_64_RELATIVE,
    SECTION_FLAG_WRITE, SYMBOL_BINDING_GLOBAL, SYMBOL_TYPE_FUNCTION, SYMBOL_TYPE_OBJECT,
};
use crate::layout::{
    align_address, align_down, map_protection, page_round_up, protection_of, round_up_page,
    Protection,
};
use crate::symbols::{
    contains_bytes, contains_pattern, default_name, default_symbol_name, insert_absent,
    unversioned, unversioned_name, SymbolMap,
};
use vstd::prelude::*;

verus! {

/// Where the first image is mapped.
pub const INITIAL_BASE_ADDRESS: u64 = 0x20000;

/// One memory operation of a load plan.
#[derive(Clone, Copy, Debug, PartialEq, Eq)]
pub enum MemoryAction {
    /// Map `length` bytes of the image file, from `file_offset`, at `address`.
    MapSegment { address: u64, length: u64, file_offset: u64, protection: Protection },
    /// Fill `size` bytes at `address` with zeros.
    Zero { address: u64, size: u64 },
    /// Store the 64-bit word `value` at `address`.
    WriteWord { address: u64, value: u64 },
    /// Call the resolver function at `resolver` and store the address that it
    /// returns as a 64-bit word at `address`.
    WriteResolvedWord { address: u64, resolver: u64 },
    /// Copy `size` bytes from `source` to `destination`.
    CopyBytes { destination: u64, source: u64, size: u64 },
}

/// Why an image could not be planned.
#[derive(Clone, Copy, Debug, PartialEq, Eq)]
pub enum LoadError {
    /// An address, a length or a file offset computed for the image falls
    /// outside the 64-bit range.
    AddressOverflow,
}

// ---------------------------------------------------------------------------
// Segments.
/// The segments that are mapped: loadable, with a virtual address and bytes in
/// the file.
pub open spec fn is_mapped_segment(h: Elf64ProgramHeader) -> bool {
    h.p_type == PROGRAM_HEADER_TYPE_LOADABLE && h.p_virtual_address != 0 && h.p_file_size > 0
}

/// The mapping of one segment at `base`, with the end that counts towards the
/// image's last address; `None` when a value falls outside the 64-bit range.
pub open spec fn segment_plan(h: Elf64ProgramHeader, base: u64, page: u64) -> Option<
    (MemoryAction, int),
> {
    let start = h.p_virtual_address + base;
    if start > u64::MAX {
        None
    } else {
        let aligned = align_down(start as u64, h.p_align);
        let diff = start - aligned;
        let end = aligned + h.p_memory_size;
        let length = page_round_up(h.p_memory_size + diff, page as int);
        if end > u64::MAX || h.p_memory_size + diff > u64::MAX || length > u64::MAX
            || h.p_offset < diff {
            None
        } else {
            Some(
                (
                    MemoryAction::MapSegment {
                        address: aligned,
                        length: length as u64,
                        file_offset: (h.p_offset - diff) as u64,
                        protection: protection_of(h.p_flags),
                    },
                    end,
                ),
            )
        }
    }
}

/// The mappings of the first `k` program headers and the highest segment end
/// among them (0 when none).
pub open spec fn segments_upto(phs: Seq<Elf64ProgramHeader>, base: u64, page: u64, k: int) -> Option<
    (Seq<MemoryAction>, int),
>
    decreases k,
{
    if k <= 0 {
        Some((Seq::empty(), 0))
    } else {
        match segments_upto(phs, base, page, k - 1) {
            None => None,
            Some(prev) => if is_mapped_segment(phs[k - 1]) {
                match segment_plan(phs[k - 1], base, page) {
                    None => None,
                    Some(p) => Some(
                        (prev.0.push(p.0), if p.1 > prev.1 {
                            p.1
                        } else {
                            prev.1
                        }),
                    ),
                }
            } else {
                Some(prev)
            },
        }
    }
}

// ---------------------------------------------------------------------------
// Uninitialized data.
pub open spec fn is_bss_section(h: Elf64SectionHeader) -> bool {
    h.sh_type == ELF64_SECTION_HEADER_NO_BITS && h.sh_flags & SECTION_FLAG_WRITE != 0 && h.sh_size
        > 0
}

/// The clearing of the writable `NOBITS` sections among the first `k`.
pub open spec fn bss_upto(shs: Seq<Elf64SectionHeader>, base: u64, k: int) -> Option<
    Seq<MemoryAction>,
>
    decreases k,
{
    if k <= 0 {
        Some(Seq::empty())
    } else {
        match bss_upto(shs, base, k - 1) {
            None => None,
            Some(prev) => if is_bss_section(shs[k - 1]) {
                if shs[k - 1].sh_virtual_address + base > u64::MAX {
                    None
                } else {
                    Some(
                        prev.push(
                            MemoryAction::Zero {
                                address: (shs[k - 1].sh_virtual_address + base) as u64,
                                size: shs[k - 1].sh_size,
                            },
                        ),
                    )
                }
            } else {
                Some(prev)
            },
        }
    }
}

// ---------------------------------------------------------------------------
// Symbols and relocations.
/// A symbol that an image offers to the others: global or weak, and defined.
pub open spec fn exported(sym: SymbolView) -> bool {
    (sym.global() || sym.weak()) && !sym.undefined()
}

/// `sym` with `offset` added to its value.
pub open spec fn rebased(sym: SymbolView, offset: u64) -> SymbolView {
    SymbolView {
        name: sym.name,
        binding: sym.binding,
        symbol_type: sym.symbol_type,
        section_index: sym.section_index,
        value: sym.value.wrapping_add(offset),
        size: sym.size,
    }
}

/// The global map after the first `k` symbols of an image loaded at `offset`.
pub open spec fn globals_upto(
    m: Map<Seq<u8>, SymbolView>,
    syms: Seq<SymbolView>,
    offset: u64,
    k: int,
) -> Map<Seq<u8>, SymbolView>
    decreases k,
{
    if k <= 0 {
        m
    } else if exported(syms[k - 1]) {
        insert_absent(
            globals_upto(m, syms, offset, k - 1),
            syms[k - 1].name,
            rebased(syms[k - 1], offset),
        )
    } else {
        globals_upto(m, syms, offset, k - 1)
    }
}

/// The default-global map after the first `k` symbols of an image loaded at
/// `offset`: a `name@@version` symbol is bound under `name`.
pub open spec fn defaults_upto(
    m: Map<Seq<u8>, SymbolView>,
    syms: Seq<SymbolView>,
    offset: u64,
    k: int,
) -> Map<Seq<u8>, SymbolView>
    decreases k,
{
    if k <= 0 {
        m
    } else if exported(syms[k - 1]) && default_name(syms[k - 1].name) is Some {
        insert_absent(
            defaults_upto(m, syms, offset, k - 1),
            default_name(syms[k - 1].name)->Some_0,
            rebased(syms[k - 1], offset),
        )
    } else {
        defaults_upto(m, syms, offset, k - 1)
    }
}

/// The symbol that a relocation naming `name` resolves to: the global binding
/// of the literal name, else the default binding of the name without its
/// version.
pub open spec fn lookup_symbol(
    globals: Map<Seq<u8>, SymbolView>,
    defaults: Map<Seq<u8>, SymbolView>,
    name: Seq<u8>,
) -> Option<SymbolView> {
    if globals.contains_key(name) {
        Some(globals[name])
    } else if defaults.contains_key(unversioned(name)) {
        Some(defaults[unversioned(name)])
    } else {
        None
    }
}

/// What applying relocation `r` of an image loaded at `base` does; `None` for a
/// type that is not applied, or when its symbol is not found.
pub open spec fn relocation_action(
    globals: Map<Seq<u8>, SymbolView>,
    defaults: Map<Seq<u8>, SymbolView>,
    r: RelocationView,
    base: u64,
) -> Option<MemoryAction> {
    let address = r.offset.wrapping_add(base);
    let t = r.relocation_type;
    if t == RELOCATION_X86_64_JUMP_SLOT || t == RELOCATION_X86_64_GLOB_DAT {
        match lookup_symbol(globals, defaults, r.symbol_name) {
            Some(sym) => if sym.indirect_function() {
                Some(MemoryAction::WriteResolvedWord { address, resolver: sym.value })
            } else {
                Some(MemoryAction::WriteWord { address, value: sym.value })
            },
            None => None,
        }
    } else if t == RELOCATION_X86_64_64 {
        match lookup_symbol(globals, defaults, r.symbol_name) {
            Some(sym) => Some(
                MemoryAction::WriteWord { address, value: sym.value.wrapping_add_signed(r.addend) },
            ),
            None => None,
        }
    } else if t == RELOCATION_X86_64_RELATIVE || t == RELOCATION_X86_64_IRELATIV {
        Some(MemoryAction::WriteWord { address, value: base.wrapping_add_signed(r.addend) })
    } else if t == RELOCATION_X86_64_COPY {
        match lookup_symbol(globals, defaults, r.symbol_name) {
            Some(sym) => Some(
                MemoryAction::CopyBytes { destination: address, source: sym.value, size: sym.size },
            ),
            None => None,
        }
    } else {
        None
    }
}

/// The actions of the first `k` relocations, in order.
pub open spec fn relocation_actions_upto(
    globals: Map<Seq<u8>, SymbolView>,
    defaults: Map<Seq<u8>, SymbolView>,
    rs: Seq<RelocationView>,
    base: u64,
    k: int,
) -> Seq<MemoryAction>
    decreases k,
{
    if k <= 0 {
        Seq::empty()
    } else {
        match relocation_action(globals, defaults, rs[k - 1], base) {
            Some(a) => relocation_actions_upto(globals, defaults, rs, base, k - 1).push(a),
            None => relocation_actions_upto(globals, defaults, rs, base, k - 1),
        }
    }
}

pub open spec fn relocation_actions(
    globals: Map<Seq<u8>, SymbolView>,
    defaults: Map<Seq<u8>, SymbolView>,
    rs: Seq<RelocationView>,
    base: u64,
) -> Seq<MemoryAction> {
    relocation_actions_upto(globals, defaults, rs, base, rs.len() as int)
}

/// The layout of an image loaded at `base`: its segment mappings followed by
/// the clearing of its uninitialized data, its entry address, and the base of
/// the next image (the page after its highest segment end). `None` when a value
/// falls outside the 64-bit range.
pub open spec fn planned_layout(image: Elf64Metadata, base: u64, page: u64) -> Option<
    (Seq<MemoryAction>, u64, u64),
> {
    let phs = image.program_headers@;
    let shs = image.section_headers@;
    match segments_upto(phs, base, page, phs.len() as int) {
        None => None,
        Some(segments) => match bss_upto(shs, base, shs.len() as int) {
            None => None,
            Some(bss) => {
                let entry = image.elf_header.e_entry + base;
                let next = page_round_up(segments.1 + 1, page as int);
                if entry > u64::MAX || next > u64::MAX {
                    None
                } else {
                    Some((segments.0 + bss, entry as u64, next as u64))
                }
            },
        },
    }
}

pub open spec fn rtld_global_ro_name() -> Seq<u8> {
    seq![95u8, 114, 116, 108, 100, 95, 103, 108, 111, 98, 97, 108, 95, 114, 111]
}

pub open spec fn tunable_get_val_name() -> Seq<u8> {
    seq![95u8, 95, 116, 117, 110, 97, 98, 108, 101, 95, 103, 101, 116, 95, 118, 97, 108]
}

/// The file name of the dynamic linker, which the host process provides.
pub open spec fn dynamic_loader_name() -> Seq<u8> {
    seq![108u8, 100, 45, 108, 105, 110, 117, 120, 45, 120, 56, 54, 45, 54, 52, 46, 115, 111, 46, 50]
}

pub open spec fn linker_symbol(name: Seq<u8>, symbol_type: u8, value: u64) -> SymbolView {
    SymbolView {
        name,
        binding: SYMBOL_BINDING_GLOBAL,
        symbol_type,
        section_index: 0,
        value,
        size: 1,
    }
}

/// The symbols of the host runtime that every loaded image may refer to.
pub open spec fn linker_symbols(rtld_global_ro: u64, tunable_get_val: u64) -> Map<
    Seq<u8>,
    SymbolView,
> {
    Map::empty().insert(
        rtld_global_ro_name(),
        linker_symbol(rtld_global_ro_name(), SYMBOL_TYPE_OBJECT, rtld_global_ro),
    ).insert(
        tunable_get_val_name(),
        linker_symbol(tunable_get_val_name(), SYMBOL_TYPE_FUNCTION, tunable_get_val),
    )
}

/// The functions that an image's dynamic record asks to run, given the words
/// read from its init array.
pub open spec fn image_init_functions(d: Elf64Dynamic, base: u64, array: Seq<u64>) -> Seq<u64> {
    let first = if d.init_function > 0 {
        seq![d.init_function.wrapping_add(base)]
    } else {
        Seq::empty()
    };
    first + array
}

pub open spec fn init_array_len(d: Elf64Dynamic) -> int {
    if d.init_array > 0 && d.init_array_size > 0 {
        (d.init_array_size / 8) as int
    } else {
        0
    }
}

pub struct LoaderView {
    pub entry: u64,
    pub base_address: u64,
    pub page_size: u64,
    pub global_symbols: Map<Seq<u8>, SymbolView>,
    pub default_global_symbols: Map<Seq<u8>, SymbolView>,
    pub init_functions: Seq<u64>,
}

/// The state of a loader: where the next image goes, the global symbol tables,
/// the entry point and the initializers collected so far.
pub struct Elf64Loader {
    entry: u64,
    base_address: u64,
    page_size: u64,
    global_symbols: SymbolMap,
    default_global_symbols: SymbolMap,
    init_functions: Vec<u64>,
}

impl View for Elf64Loader {
    type V = LoaderView;

    closed spec fn view(&self) -> LoaderView {
        LoaderView {
            entry: self.entry,
            base_address: self.base_address,
            page_size: self.page_size,
            global_symbols: self.global_symbols@,
            default_global_symbols: self.default_global_symbols@,
            init_functions: self.init_functions@,
        }
    }
}

fn init_linker_symbols(rtld_global_ro: u64, tunable_get_val: u64) -> (r: SymbolMap)
    ensures
        r.wf(),
        r@ == linker_symbols(rtld_global_ro, tunable_get_val),
{
    let mut result = SymbolMap::new();
    let rtld_name: Vec<u8> = vec![95u8, 114, 116, 108, 100, 95, 103, 108, 111, 98, 97, 108, 95, 114, 111];
    assert(rtld_name@ =~= rtld_global_ro_name());
    let rtld = Elf64ResolvedSymbolTableEntry {
        symbol_name: rtld_name.clone(),
        binding: SYMBOL_BINDING_GLOBAL,
        symbol_type: SYMBOL_TYPE_OBJECT,
        section_index: 0,
        value: rtld_global_ro,
        size: 1,
    };
    result.insert_if_absent(rtld_name, rtld);
    let tunable_name: Vec<u8> = vec![95u8, 95, 116, 117, 110, 97, 98, 108, 101, 95, 103, 101, 116, 95, 118, 97, 108];
    assert(tunable_name@ =~= tunable_get_val_name());
    let tunable = Elf64ResolvedSymbolTableEntry {
        symbol_name: tunable_name.clone(),
        binding: SYMBOL_BINDING_GLOBAL,
        symbol_type: SYMBOL_TYPE_FUNCTION,
        section_index: 0,
        value: tunable_get_val,
        size: 1,
    };
    assert(tunable_get_val_name() != rtld_global_ro_name()) by {
        assert(tunable_get_val_name().len() != rtld_global_ro_name().len());
    }
    result.insert_if_absent(tunable_name, tunable);
    result
}

proof fn lemma_segments_stay_none(phs: Seq<Elf64ProgramHeader>, base: u64, page: u64, k: int, j: int)
    requires
        0 <= k <= j,
        segments_upto(phs, base, page, k) is None,
    ensures
        segments_upto(phs, base, page, j) is None,
    decreases j - k,
{
    if j > k {
        lemma_segments_stay_none(phs, base, page, k, j - 1);
    }
}

proof fn lemma_bss_stays_none(shs: Seq<Elf64SectionHeader>, base: u64, k: int, j: int)
    requires
        0 <= k <= j,
        bss_upto(shs, base, k) is None,
    ensures
        bss_upto(shs, base, j) is None,
    decreases j - k,
{
    if j > k {
        lemma_bss_stays_none(shs, base, k, j - 1);
    }
}

/// The mapping of one segment at `base` (see `segment_plan`).
fn plan_segment(info: &Elf64ProgramHeader, base: u64, page_size: u64) -> (r: Option<
    (MemoryAction, u64),
>)
    requires
        page_size > 0,
    ensures
        match r {
            Some(p) => segment_plan(*info, base, page_size) == Some((p.0, p.1 as int)),
            None => segment_plan(*info, base, page_size) is None,
        },
{
    let start = match info.p_virtual_address.checked_add(base) {
        Some(v) => v,
        None => return None,
    };
    let aligned_address = align_address(start, info.p_align);
    let diff = start - aligned_address;
    let end = match aligned_address.checked_add(info.p_memory_size) {
        Some(v) => v,
        None => return None,
    };
    let size = match info.p_memory_size.checked_add(diff) {
        Some(v) => v,
        None => return None,
    };
    let length = match round_up_page(size, page_size) {
        Some(v) => v,
        None => return None,
    };
    if info.p_offset < diff {
        return None;
    }
    Some(
        (
            MemoryAction::MapSegment {
                address: aligned_address,
                length,
                file_offset: info.p_offset - diff,
                protection: map_protection(info),
            },
            end,
        ),
    )
}

/// Plans the mappings of the segments in `program_headers` for an image loaded
/// at `base`, with the highest segment end.
fn plan_segments(program_headers: &Vec<Elf64ProgramHeader>, base: u64, page_size: u64) -> (r: Option<
    (Vec<MemoryAction>, u64),
>)
    requires
        page_size > 0,
    ensures
        match r {
            Some(p) => segments_upto(
                program_headers@,
                base,
                page_size,
                program_headers@.len() as int,
            ) == Some((p.0@, p.1 as int)),
            None => segments_upto(
                program_headers@,
                base,
                page_size,
                program_headers@.len() as int,
            ) is None,
        },
{
    let ghost phs = program_headers@;
    let mut actions: Vec<MemoryAction> = Vec::new();
    let mut last_address: u64 = 0;
    let mut k: usize = 0;
    while k < program_headers.len()
        invariant
            phs == program_headers@,
            page_size > 0,
            k <= phs.len(),
            segments_upto(phs, base, page_size, k as int) == Some((actions@, last_address as int)),
        decreases phs.len() - k,
    {
        let info = &program_headers[k];
        if info.p_virtual_address != 0 && info.p_file_size > 0 && info.p_type
            == PROGRAM_HEADER_TYPE_LOADABLE {
            match plan_segment(info, base, page_size) {
                Some((action, end)) => {
                    actions.push(action);
                    if end > last_address {
                        last_address = end;
                    }
                },
                None => {
                    proof {
                        lemma_segments_stay_none(phs, base, page_size, k + 1, phs.len() as int);
                    }
                    return None;
                },
            }
        }
        k = k + 1;
    }
    Some((actions, last_address))
}

impl Elf64Loader {
    pub closed spec fn wf(&self) -> bool {
        &&& self.page_size > 0
        &&& self.global_symbols.wf()
        &&& self.default_global_symbols.wf()
    }

    /// A loader for a machine with pages of `page_size` bytes, in a host whose
    /// runtime holds `_rtld_global_ro` and `__tunable_get_val` at the given
    /// addresses. Both maps start with those two symbols.
    pub fn new(page_size: u64, rtld_global_ro: u64, tunable_get_val: u64) -> (r: Elf64Loader)
        requires
            page_size > 0,
        ensures
            r.wf(),
            r@.entry == 0,
            r@.base_address == INITIAL_BASE_ADDRESS,
            r@.page_size == page_size,
            r@.global_symbols == linker_symbols(rtld_global_ro, tunable_get_val),
            r@.default_global_symbols == linker_symbols(rtld_global_ro, tunable_get_val),
            r@.init_functions == Seq::<u64>::empty(),
    {
        Elf64Loader {
            entry: 0,
            base_address: INITIAL_BASE_ADDRESS,
            page_size,
            global_symbols: init_linker_symbols(rtld_global_ro, tunable_get_val),
            default_global_symbols: init_linker_symbols(rtld_global_ro, tunable_get_val),
            init_functions: Vec::new(),
        }
    }

    /// The entry address of the image loaded last.
    pub fn entry(&self) -> (r: u64)
        ensures
            r == self@.entry,
    {
        self.entry
    }

    /// Where the next image is mapped.
    pub fn base_address(&self) -> (r: u64)
        ensures
            r == self@.base_address,
    {
        self.base_address
    }

    pub fn page_size(&self) -> (r: u64)
        ensures
            r == self@.page_size,
    {
        self.page_size
    }

    /// The initializers collected so far, in the order they run.
    pub fn init_functions(&self) -> (r: &Vec<u64>)
        ensures
            r@ == self@.init_functions,
    {
        &self.init_functions
    }

    /// The symbol bound to `name` in the global map.
    pub fn global_symbol(&self, name: &[u8]) -> (r: Option<Elf64ResolvedSymbolTableEntry>)
        requires
            self.wf(),
        ensures
            match r {
                Some(e) => self@.global_symbols.contains_key(name@) && e@
                    == self@.global_symbols[name@],
                None => !self@.global_symbols.contains_key(name@),
            },
    {
        self.global_symbols.get(name)
    }

    /// The symbol bound to `name` in the default-global map.
    pub fn default_global_symbol(&self, name: &[u8]) -> (r: Option<Elf64ResolvedSymbolTableEntry>)
        requires
            self.wf(),
        ensures
            match r {
                Some(e) => self@.default_global_symbols.contains_key(name@) && e@
                    == self@.default_global_symbols[name@],
                None => !self@.default_global_symbols.contains_key(name@),
            },
    {
        self.default_global_symbols.get(name)
    }

    /// Adds the symbols that an image loaded at `offset` exports: each is bound
    /// under its name, and a `name@@version` symbol also under `name` in the
    /// default map, where the name is not bound yet.
    fn update_global_symbols(&mut self, elf_metadata: &Elf64Metadata, offset: u64)
        requires
            old(self).wf(),
        ensures
            final(self).wf(),
            final(self)@ == (LoaderView {
                global_symbols: globals_upto(
                    old(self)@.global_symbols,
                    symbols_view(elf_metadata.dynamic_symbol_table@),
                    offset,
                    elf_metadata.dynamic_symbol_table@.len() as int,
                ),
                default_global_symbols: defaults_upto(
                    old(self)@.default_global_symbols,
                    symbols_view(elf_metadata.dynamic_symbol_table@),
                    offset,
                    elf_metadata.dynamic_symbol_table@.len() as int,
                ),
                ..old(self)@
            }),
    {
        let ghost syms = symbols_view(elf_metadata.dynamic_symbol_table@);
        let ghost start = self@;
        let mut k: usize = 0;
        while k < elf_metadata.dynamic_symbol_table.len()
            invariant
                self.wf(),
                syms == symbols_view(elf_metadata.dynamic_symbol_table@),
                k <= syms.len(),
                self@ == (LoaderView {
                    global_symbols: globals_upto(start.global_symbols, syms, offset, k as int),
                    default_global_symbols: defaults_upto(
                        start.default_global_symbols,
                        syms,
                        offset,
                        k as int,
                    ),
                    ..start
                }),
            decreases syms.len() - k,
        {
            let symbol = &elf_metadata.dynamic_symbol_table[k];
            assert(symbol@ == syms[k as int]);
            if (symbol.global() || symbol.weak()) && !symbol.undefined() {
                let mut entry = symbol.duplicate();
                entry.value = entry.value.wrapping_add(offset);
                assert(entry@ == rebased(syms[k as int], offset));
                self.global_symbols.insert_if_absent(entry.symbol_name.clone(), entry.duplicate());
                match default_symbol_name(symbol.symbol_name.as_slice()) {
                    Some(name) => {
                        self.default_global_symbols.insert_if_absent(name, entry);
                    },
                    None => {},
                }
            }
            k = k + 1;
        }
    }

    /// The symbol that `rela` refers to (see `lookup_symbol`).
    pub fn get_symbol(&self, rela: &Elf64ResolvedRelocationAddend) -> (r: Option<
        Elf64ResolvedSymbolTableEntry,
    >)
        requires
            self.wf(),
        ensures
            match r {
                Some(e) => lookup_symbol(
                    self@.global_symbols,
                    self@.default_global_symbols,
                    rela.symbol_name@,
                ) == Some(e@),
                None => lookup_symbol(
                    self@.global_symbols,
                    self@.default_global_symbols,
                    rela.symbol_name@,
                ) is None,
            },
    {
        match self.global_symbols.get(rela.symbol_name.as_slice()) {
            Some(symbol) => Some(symbol),
            None => {
                let name = unversioned_name(rela.symbol_name.as_slice());
                self.default_global_symbols.get(name.as_slice())
            },
        }
    }

    /// What applying `rela` to an image loaded at `offset` does.
    pub fn relocation_action(&self, rela: &Elf64ResolvedRelocationAddend, offset: u64) -> (r: Option<
        MemoryAction,
    >)
        requires
            self.wf(),
        ensures
            r == relocation_action(
                self@.global_symbols,
                self@.default_global_symbols,
                rela@,
                offset,
            ),
    {
        let address = rela.offset.wrapping_add(offset);
        let t = rela.relocation_type;
        if t == RELOCATION_X86_64_JUMP_SLOT || t == RELOCATION_X86_64_GLOB_DAT {
            match self.get_symbol(rela) {
                Some(symbol) => if symbol.indirect_function() {
                    Some(MemoryAction::WriteResolvedWord { address, resolver: symbol.value })
                } else {
                    Some(MemoryAction::WriteWord { address, value: symbol.value })
                },
                None => None,
            }
        } else if t == RELOCATION_X86_64_64 {
            match self.get_symbol(rela) {
                Some(symbol) => Some(
                    MemoryAction::WriteWord {
                        address,
                        value: symbol.value.wrapping_add_signed(rela.addend),
                    },
                ),
                None => None,
            }
        } else if t == RELOCATION_X86_64_RELATIVE || t == RELOCATION_X86_64_IRELATIV {
            Some(MemoryAction::WriteWord { address, value: offset.wrapping_add_signed(rela.addend) })
        } else if t == RELOCATION_X86_64_COPY {
            match self.get_symbol(rela) {
                Some(symbol) => Some(
                    MemoryAction::CopyBytes {
                        destination: address,
                        source: symbol.value,
                        size: symbol.size,
                    },
                ),
                None => None,
            }
        } else {
            None
        }
    }

    /// The actions of every relocation of an image loaded at `offset`, in order.
    fn relocate(&self, elf_metadata: &Elf64Metadata, offset: u64) -> (r: Vec<MemoryAction>)
        requires
            self.wf(),
        ensures
            r@ == relocation_actions(
                self@.global_symbols,
                self@.default_global_symbols,
                relocations_view(elf_metadata.relocations@),
                offset,
            ),
    {
        let ghost rs = relocations_view(elf_metadata.relocations@);
        let mut result: Vec<MemoryAction> = Vec::new();
        let mut k: usize = 0;
        while k < elf_metadata.relocations.len()
            invariant
                self.wf(),
                rs == relocations_view(elf_metadata.relocations@),
                k <= rs.len(),
                result@ == relocation_actions_upto(
                    self@.global_symbols,
                    self@.default_global_symbols,
                    rs,
                    offset,
                    k as int,
                ),
            decreases rs.len() - k,
        {
            let rela = &elf_metadata.relocations[k];
            assert(rela@ == rs[k as int]);
            match self.relocation_action(rela, offset) {
                Some(action) => result.push(action),
                None => {},
            }
            k = k + 1;
        }
        result
    }

    /// The clearing of each writable, non-empty `NOBITS` section of an image
    /// loaded at `base`.
    fn zero_bss_section(elf_metadata: &Elf64Metadata, base: u64) -> (r: Option<Vec<MemoryAction>>)
        ensures
            match r {
                Some(v) => bss_upto(
                    elf_metadata.section_headers@,
                    base,
                    elf_metadata.section_headers@.len() as int,
                ) == Some(v@),
                None => bss_upto(
                    elf_metadata.section_headers@,
                    base,
                    elf_metadata.section_headers@.len() as int,
                ) is None,
            },
    {
        let ghost shs = elf_metadata.section_headers@;
        let mut result: Vec<MemoryAction> = Vec::new();
        let mut k: usize = 0;
        while k < elf_metadata.section_headers.len()
            invariant
                shs == elf_metadata.section_headers@,
                k <= shs.len(),
                bss_upto(shs, base, k as int) == Some(result@),
            decreases shs.len() - k,
        {
            let section = &elf_metadata.section_headers[k];
            if section.sh_type == ELF64_SECTION_HEADER_NO_BITS && section.writable()
                && section.sh_size > 0 {
                match section.sh_virtual_address.checked_add(base) {
                    Some(address) => result.push(
                        MemoryAction::Zero { address, size: section.sh_size },
                    ),
                    None => {
                        proof {
                            lemma_bss_stays_none(shs, base, k + 1, shs.len() as int);
                        }
                        return None;
                    },
                }
            }
            k = k + 1;
        }
        Some(result)
    }

    /// Loads one image at the current base address. The exported symbols of the
    /// image join the global maps before its relocations are resolved. The plan
    /// maps its segments, clears its uninitialized data and applies its
    /// relocations, in that order; the entry becomes the image's, and the base
    /// moves past the image. Fails, with the loader unchanged, when a value of
    /// the layout falls outside the 64-bit range.
    pub fn load_program_header(&mut self, elf_metadata: &Elf64Metadata) -> (r: Result<
        Vec<MemoryAction>,
        LoadError,
    >)
        requires
            old(self).wf(),
        ensures
            final(self).wf(),
            match r {
                Ok(actions) => {
                    let base = old(self)@.base_address;
                    let syms = symbols_view(elf_metadata.dynamic_symbol_table@);
                    let globals = globals_upto(
                        old(self)@.global_symbols,
                        syms,
                        base,
                        syms.len() as int,
                    );
                    let defaults = defaults_upto(
                        old(self)@.default_global_symbols,
                        syms,
                        base,
                        syms.len() as int,
                    );
                    let layout = planned_layout(*elf_metadata, base, old(self)@.page_size);
                    &&& layout is Some
                    &&& actions@ == layout->Some_0.0 + relocation_actions(
                        globals,
                        defaults,
                        relocations_view(elf_metadata.relocations@),
                        base,
                    )
                    &&& final(self)@ == (LoaderView {
                        entry: layout->Some_0.1,
                        base_address: layout->Some_0.2,
                        global_symbols: globals,
                        default_global_symbols: defaults,
                        ..old(self)@
                    })
                },
                Err(e) => e == LoadError::AddressOverflow && planned_layout(
                    *elf_metadata,
                    old(self)@.base_address,
                    old(self)@.page_size,
                ) is None && final(self)@ == old(self)@,
            },
    {
        let offset = self.base_address;
        let (mut actions, last_address) = match plan_segments(
            &elf_metadata.program_headers,
            offset,
            self.page_size,
        ) {
            Some(p) => p,
            None => return Err(LoadError::AddressOverflow),
        };
        let mut bss = match Elf64Loader::zero_bss_section(elf_metadata, offset) {
            Some(b) => b,
            None => return Err(LoadError::AddressOverflow),
        };
        let entry = match elf_metadata.elf_header.e_entry.checked_add(offset) {
            Some(e) => e,
            None => return Err(LoadError::AddressOverflow),
        };
        if last_address == u64::MAX {
            assert(page_round_up(last_address + 1, self.page_size as int) > u64::MAX) by {
                crate::layout::lemma_round_up_page(last_address + 1, self.page_size as int);
            }
            return Err(LoadError::AddressOverflow);
        }
        let next_base = match round_up_page(last_address + 1, self.page_size) {
            Some(b) => b,
            None => return Err(LoadError::AddressOverflow),
        };
        self.update_global_symbols(elf_metadata, offset);
        let mut relocations = self.relocate(elf_metadata, offset);
        actions.append(&mut bss);
        actions.append(&mut relocations);
        self.entry = entry;
        self.base_address = next_base;
        Ok(actions)
    }

    /// Where the init array of an image loaded at `base` lies, with its number
    /// of entries; `None` when the image has none.
    pub fn init_array_location(dynamic: &Elf64Dynamic, base: u64) -> (r: Option<(u64, u64)>)
        ensures
            r == (if dynamic.init_array > 0 && dynamic.init_array_size > 0 {
                Some((dynamic.init_array.wrapping_add(base), dynamic.init_array_size / 8))
            } else {
                None
            }),
    {
        if dynamic.init_array > 0 && dynamic.init_array_size > 0 {
            Some((dynamic.init_array.wrapping_add(base), dynamic.init_array_size / 8))
        } else {
            None
        }
    }

    /// Records the initializers of an image loaded at `base`: its init function,
    /// rebased, then the entries read from its init array, which its own
    /// relocations have rebased already.
    pub fn append_init_functions(
        &mut self,
        dynamic: &Elf64Dynamic,
        base: u64,
        init_array_entries: &[u64],
    )
        requires
            init_array_entries@.len() == init_array_len(*dynamic),
        ensures
            final(self)@ == (LoaderView {
                init_functions: old(self)@.init_functions + image_init_functions(
                    *dynamic,
                    base,
                    init_array_entries@,
                ),
                ..old(self)@
            }),
    {
        let ghost start = self.init_functions@;
        if dynamic.init_function > 0 {
            self.init_functions.push(dynamic.init_function.wrapping_add(base));
        }
        let ghost first = self.init_functions@;
        assert(first =~= start + (if dynamic.init_function > 0 {
            seq![dynamic.init_function.wrapping_add(base)]
        } else {
            Seq::empty()
        }));
        let mut i: usize = 0;
        while i < init_array_entries.len()
            invariant
                i <= init_array_entries@.len(),
                self.init_functions@ == first + init_array_entries@.subrange(0, i as int),
                self@ == (LoaderView { init_functions: self.init_functions@, ..old(self)@ }),
            decreases init_array_entries@.len() - i,
        {
            self.init_functions.push(init_array_entries[i]);
            i = i + 1;
            assert(init_array_entries@.subrange(0, i as int) =~= init_array_entries@.subrange(
                0,
                i - 1,
            ).push(init_array_entries@[i - 1]));
        }
        assert(init_array_entries@.subrange(0, i as int) =~= init_array_entries@);
        assert(self.init_functions@ =~= start + image_init_functions(
            *dynamic,
            base,
            init_array_entries@,
        ));
    }

    /// Whether an image is loaded: it is not the dynamic linker, which the host
    /// provides, and it has program headers.
    pub fn is_loadable(elf_metadata: &Elf64Metadata) -> (r: bool)
        ensures
            r == (!contains_bytes(elf_metadata.file_path@, dynamic_loader_name())
                && elf_metadata.program_headers@.len() > 0),
    {
        let name: Vec<u8> = vec![108u8, 100, 45, 108, 105, 110, 117, 120, 45, 120, 56, 54, 45, 54, 52, 46, 115, 111, 46, 50];
        assert(name@ =~= dynamic_loader_name());
        !contains_pattern(elf_metadata.file_path.as_slice(), name.as_slice())
            && elf_metadata.program_headers.len() > 0
    }
}

/// A RELATIVE relocation stores the load base plus the addend, as a 64-bit
/// word, at the relocation's offset from the base; no symbol is looked up.
pub proof fn lemma_relative_relocation(
    globals: Map<Seq<u8>, SymbolView>,
    defaults: Map<Seq<u8>, SymbolView>,
    r: RelocationView,
    base: u64,
)
    requires
        r.relocation_type == RELOCATION_X86_64_RELATIVE,
    ensures
        relocation_action(globals, defaults, r, base) == Some(
            MemoryAction::WriteWord {
                address: r.offset.wrapping_add(base),
                value: base.wrapping_add_signed(r.addend),
            },
        ),
{
}

/// A GLOB_DAT relocation whose symbol is bound in the global map to a symbol
/// that is not an indirect function stores that symbol's value at the
/// relocation's offset from the base.
pub proof fn lemma_glob_dat_relocation(
    globals: Map<Seq<u8>, SymbolView>,
    defaults: Map<Seq<u8>, SymbolView>,
    r: RelocationView,
    base: u64,
)
    requires
        r.relocation_type == RELOCATION_X86_64_GLOB_DAT,
        globals.contains_key(r.symbol_name),
        !globals[r.symbol_name].indirect_function(),
    ensures
        relocation_action(globals, defaults, r, base) == Some(
            MemoryAction::WriteWord {
                address: r.offset.wrapping_add(base),
                value: globals[r.symbol_name].value,
            },
        ),
{
}

/// A name that the global map lacks resolves through the default-global map
/// under the name without its version.
pub proof fn lemma_versioned_fallback(
    globals: Map<Seq<u8>, SymbolView>,
    defaults: Map<Seq<u8>, SymbolView>,
    name: Seq<u8>,
)
    requires
        !globals.contains_key(name),
        defaults.contains_key(unversioned(name)),
    ensures
        lookup_symbol(globals, defaults, name) == Some(defaults[unversioned(name)]),
{
}

} // verus!
