//! The store as a sequence of cells: which accesses are in bounds, what a
//! read yields and what a write leaves behind.

use vstd::prelude::*;
use crate::encoding::{
    high_byte, join_bytes, lemma_join_of_split, lemma_wrap_in_range, low_byte, wrap_byte,
    wrap_word,
};
use crate::types::{MemoryOperationSize, Register};

verus! {

/// Number of cells of a store. It never changes.
pub const CAPACITY: usize = 4096;

/// The cells of a store that has just been created: all zero.
pub open spec fn fresh_cells() -> Seq<i8> {
    Seq::new(CAPACITY as nat, |i: int| 0i8)
}

/// Whether every cell of an access of width `size` at `position` lies in the
/// store.
pub open spec fn in_bounds(position: int, size: MemoryOperationSize) -> bool {
    0 <= position && position + size.width() <= CAPACITY
}

/// The value of an access of width `size` at `position`, widened to 32 bits:
/// the cell itself for a byte, and for a word the cell at `position` as the
/// most significant byte with the next cell as the least significant one.
pub open spec fn read_cells(cells: Seq<i8>, position: int, size: MemoryOperationSize) -> i32 {
    match size {
        MemoryOperationSize::Byte => cells[position] as i32,
        MemoryOperationSize::Word => join_bytes(cells[position], cells[position + 1]) as i32,
    }
}

/// The cells after `value` has been stored at `position` with width `size`:
/// a byte access keeps the low eight bits of `value` in one cell, a word
/// access keeps its low sixteen bits in two cells, the high byte first.
/// All other cells stay as they are.
pub open spec fn write_cells(
    cells: Seq<i8>,
    position: int,
    value: i32,
    size: MemoryOperationSize,
) -> Seq<i8> {
    match size {
        MemoryOperationSize::Byte => cells.update(position, wrap_byte(value as int)),
        MemoryOperationSize::Word => cells.update(
            position,
            high_byte(wrap_word(value as int)),
        ).update(position + 1, low_byte(wrap_word(value as int))),
    }
}

/// A write keeps the number of cells, and changes no cell but those that the
/// access covers: whatever is read elsewhere, under any register name, is
/// what was there before.
pub proof fn lemma_write_touches_only_its_cells(
    cells: Seq<i8>,
    position: int,
    value: i32,
    size: MemoryOperationSize,
    other: int,
)
    requires
        cells.len() == CAPACITY,
        in_bounds(position, size),
        0 <= other < CAPACITY,
        other < position || position + size.width() <= other,
    ensures
        write_cells(cells, position, value, size).len() == CAPACITY,
        write_cells(cells, position, value, size)[other] == cells[other],
{
}

/// A byte that is written at a position in the store is the byte that is
/// read at that position afterwards. A value outside the range of a signed
/// byte is read as its low eight bits.
pub proof fn lemma_byte_write_then_read(cells: Seq<i8>, position: int, value: i32)
    requires
        cells.len() == CAPACITY,
        in_bounds(position, MemoryOperationSize::Byte),
    ensures
        read_cells(
            write_cells(cells, position, value, MemoryOperationSize::Byte),
            position,
            MemoryOperationSize::Byte,
        ) == wrap_byte(value as int),
        -128 <= value <= 127 ==> read_cells(
            write_cells(cells, position, value, MemoryOperationSize::Byte),
            position,
            MemoryOperationSize::Byte,
        ) == value,
{
    lemma_wrap_in_range(value as int);
}

/// A word that is written at a position in the store is the word that is
/// read at that position afterwards; a byte read at the position gives its
/// high byte, and a byte read at the next position its low byte. A value
/// outside the range of a signed word is read as its low sixteen bits.
pub proof fn lemma_word_write_then_read(cells: Seq<i8>, position: int, value: i32)
    requires
        cells.len() == CAPACITY,
        in_bounds(position, MemoryOperationSize::Word),
    ensures
        read_cells(
            write_cells(cells, position, value, MemoryOperationSize::Word),
            position,
            MemoryOperationSize::Word,
        ) == wrap_word(value as int),
        read_cells(
            write_cells(cells, position, value, MemoryOperationSize::Word),
            position,
            MemoryOperationSize::Byte,
        ) == high_byte(wrap_word(value as int)),
        read_cells(
            write_cells(cells, position, value, MemoryOperationSize::Word),
            position + 1,
            MemoryOperationSize::Byte,
        ) == low_byte(wrap_word(value as int)),
        -32768 <= value <= 32767 ==> wrap_word(value as int) == value,
        -32768 <= value <= 32767 ==> read_cells(
            write_cells(cells, position, value, MemoryOperationSize::Word),
            position,
            MemoryOperationSize::Word,
        ) == value,
{
    lemma_join_of_split(wrap_word(value as int));
    lemma_wrap_in_range(value as int);
}

/// In a store that has just been created every access that is in bounds
/// reads zero.
pub proof fn lemma_fresh_cells_read_zero(position: int, size: MemoryOperationSize)
    requires
        in_bounds(position, size),
    ensures
        fresh_cells().len() == CAPACITY,
        read_cells(fresh_cells(), position, size) == 0,
{
}

/// Every register but `Unknown` lies in the store with the whole width at
/// which it is accessed, and the entry of `Unknown` is no position at all.
pub proof fn lemma_register_in_bounds(register: Register)
    ensures
        register != Register::Unknown ==> in_bounds(
            register.table_entry(),
            register.access_size(),
        ),
        register == Register::Unknown ==> register.table_entry() < 0,
{
}

} // verus!
