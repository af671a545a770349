//! Address arithmetic for mapping segments: alignment, page rounding and the
//! protection that a segment asks for.
use crate::elf::{
    Elf64ProgramHeader, PROGRAM_FLAG_EXECUTE, PROGRAM_FLAG_READ, PROGRAM_FLAG_WRITE,
};
use vstd::arithmetic::div_mod::{lemma_fundamental_div_mod, lemma_mod_pos_bound, lemma_mod_multiples_basic, lemma_mod_decreases};
use vstd::prelude::*;

verus! {

/// `address` rounded down to a multiple of `alignment`; an alignment of 0 asks
/// for none.
pub open spec fn align_down(address: u64, alignment: u64) -> u64 {
    if alignment == 0 {
        address
    } else {
        (address - address % alignment) as u64
    }
}

/// The smallest multiple of `page` that is at least `value`.
pub open spec fn page_round_up(value: int, page: int) -> int {
    if value % page == 0 {
        value
    } else {
        value - value % page + page
    }
}

pub fn align_address(address: u64, alignment: u64) -> (r: u64)
    ensures
        r == align_down(address, alignment),
        r <= address,
{
    if alignment == 0 {
        address
    } else {
        proof {
            lemma_mod_decreases(address as nat, alignment as nat);
        }
        address - address % alignment
    }
}

/// `value` rounded up to a multiple of `page_size`; `None` when that multiple
/// does not fit in 64 bits.
pub fn round_up_page(value: u64, page_size: u64) -> (r: Option<u64>)
    requires
        page_size > 0,
    ensures
        match r {
            Some(v) => v == page_round_up(value as int, page_size as int),
            None => page_round_up(value as int, page_size as int) > u64::MAX,
        },
{
    let rest = value % page_size;
    proof {
        lemma_mod_decreases(value as nat, page_size as nat);
        lemma_mod_pos_bound(value as int, page_size as int);
    }
    if rest == 0 {
        Some(value)
    } else {
        let down = value - rest;
        let gap = page_size - rest;
        if value > u64::MAX - gap {
            None
        } else {
            Some(down + page_size)
        }
    }
}

/// Rounding up to a page gives a multiple of the page, at least the value and
/// less than a page above it: the value itself when it is a multiple already,
/// and otherwise the next multiple, strictly above it.
pub proof fn lemma_round_up_page(value: int, page: int)
    requires
        page > 0,
        value >= 0,
    ensures
        page_round_up(value, page) % page == 0,
        value <= page_round_up(value, page) < value + page,
        value % page == 0 ==> page_round_up(value, page) == value,
        value % page != 0 ==> page_round_up(value, page) > value,
        page_round_up(page_round_up(value, page), page) == page_round_up(value, page),
{
    lemma_fundamental_div_mod(value, page);
    lemma_mod_pos_bound(value, page);
    if value % page != 0 {
        let q = value / page;
        assert(value - value % page + page == page * (q + 1)) by (nonlinear_arith)
            requires
                value == page * q + value % page,
        ;
        lemma_mod_multiples_basic(q + 1, page);
        assert((q + 1) * page == page * (q + 1)) by (nonlinear_arith);
    }
}

/// The access that a segment asks for.
#[derive(Clone, Copy, Debug, PartialEq, Eq)]
pub struct Protection {
    pub read: bool,
    pub write: bool,
    pub execute: bool,
}

pub open spec fn protection_of(flags: u32) -> Protection {
    Protection {
        read: flags & PROGRAM_FLAG_READ != 0,
        write: flags & PROGRAM_FLAG_WRITE != 0,
        execute: flags & PROGRAM_FLAG_EXECUTE != 0,
    }
}

/// The protection of a segment's mapping: readable, writable and executable as
/// its flags say.
pub fn map_protection(header: &Elf64ProgramHeader) -> (r: Protection)
    ensures
        r == protection_of(header.p_flags),
{
    Protection { read: header.read(), write: header.write(), execute: header.execute() }
}

} // verus!
