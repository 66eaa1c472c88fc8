//! The flat store, the address table of the registers, and the three
//! interfaces through which the layers above reach them.

use std::collections::HashMap;
use vstd::prelude::*;
use crate::encoding::{
    high_byte, join_bytes, join_word, low_byte, split_word, truncate_to_byte, truncate_to_word,
};
use crate::model::{fresh_cells, in_bounds, read_cells, write_cells, CAPACITY};
use crate::types::{MemoryError, MemoryOperationSize, Register};

verus! {

/// Reading and writing the store, one or two cells at a time.
///
/// The view of an implementor is the sequence of its cells, which always has
/// the length `CAPACITY`. No access is aligned: a word may start at any
/// position that leaves room for its second cell. An access that does not lie
/// in the store is refused with `OutOfBounds`, and a refused write changes
/// nothing.
pub trait ManageMemory: View<V = Seq<i8>> {
    /// Reads with the width `size`, through `read8` or `read16`, and widens
    /// the value to 32 bits.
    fn read(&self, position: usize, size: MemoryOperationSize) -> (result: Result<i32, MemoryError>)
        ensures
            self@.len() == CAPACITY,
            in_bounds(position as int, size) ==> result === Ok(
                read_cells(self@, position as int, size),
            ),
            !in_bounds(position as int, size) ==> result === Err(MemoryError::OutOfBounds),
    ;

    /// Reads the cell at `position`.
    fn read8(&self, position: usize) -> (result: Result<i8, MemoryError>)
        ensures
            self@.len() == CAPACITY,
            position < CAPACITY ==> result === Ok(self@[position as int]),
            position >= CAPACITY ==> result === Err(MemoryError::OutOfBounds),
    ;

    /// Reads the word whose most significant byte is the cell at `position`
    /// and whose least significant byte is the cell after it.
    fn read16(&self, position: usize) -> (result: Result<i16, MemoryError>)
        ensures
            self@.len() == CAPACITY,
            position + 1 < CAPACITY ==> result === Ok(
                join_bytes(self@[position as int], self@[position + 1]),
            ),
            position + 1 >= CAPACITY ==> result === Err(MemoryError::OutOfBounds),
    ;

    /// Truncates `value` to the width `size` and stores it through `write8`
    /// or `write16`.
    fn write(&mut self, position: usize, value: i32, size: MemoryOperationSize) -> (result: Result<
        (),
        MemoryError,
    >)
        ensures
            old(self)@.len() == CAPACITY,
            final(self)@.len() == CAPACITY,
            in_bounds(position as int, size) ==> result === Ok(()),
            in_bounds(position as int, size) ==> final(self)@ == write_cells(
                old(self)@,
                position as int,
                value,
                size,
            ),
            !in_bounds(position as int, size) ==> result === Err(MemoryError::OutOfBounds),
            !in_bounds(position as int, size) ==> final(self)@ == old(self)@,
    ;

    /// Stores `value` in the cell at `position`.
    fn write8(&mut self, position: usize, value: i8) -> (result: Result<(), MemoryError>)
        ensures
            old(self)@.len() == CAPACITY,
            final(self)@.len() == CAPACITY,
            position < CAPACITY ==> result === Ok(()),
            position < CAPACITY ==> final(self)@ == old(self)@.update(position as int, value),
            position >= CAPACITY ==> result === Err(MemoryError::OutOfBounds),
            position >= CAPACITY ==> final(self)@ == old(self)@,
    ;

    /// Stores the most significant byte of `value` in the cell at `position`
    /// and its least significant byte in the cell after it.
    fn write16(&mut self, position: usize, value: i16) -> (result: Result<(), MemoryError>)
        ensures
            old(self)@.len() == CAPACITY,
            final(self)@.len() == CAPACITY,
            position + 1 < CAPACITY ==> result === Ok(()),
            position + 1 < CAPACITY ==> final(self)@ == old(self)@.update(
                position as int,
                high_byte(value),
            ).update(position + 1, low_byte(value)),
            position + 1 >= CAPACITY ==> result === Err(MemoryError::OutOfBounds),
            position + 1 >= CAPACITY ==> final(self)@ == old(self)@,
    ;
}

/// Where a register lives in the store, and how wide it is.
pub trait ManageRegisters {
    /// The byte offset of `register` in the store. `Unknown` has none: its
    /// table entry is a sentinel, which is never handed out as an address.
    fn get_register_address(&self, register: Register) -> (result: Result<usize, MemoryError>)
        ensures
            register != Register::Unknown ==> result === Ok(register.table_entry() as usize),
            register == Register::Unknown ==> result === Err(MemoryError::UnknownRegister),
    ;

    /// The width at which `register` is accessed. It is decided by the
    /// ordinal: `Word` for the ordinals 8 to 11, `Byte` for all others.
    fn get_register_size(register: Register) -> (size: MemoryOperationSize)
        ensures
            size == register.access_size(),
            size == MemoryOperationSize::Word <==> 8 <= register.spec_ordinal() <= 11,
    ;
}

/// Management of a heap inside the store.
///
/// The interface fixes the shape of the three operations only: how free
/// regions are found and kept is left to the implementor. An implementor
/// without an allocator answers `UnimplementedOperation`.
pub trait ManageHeap {
    /// Finds a free region of at least `size` bytes and returns its start.
    fn find_available_heap(&self, size: u32) -> (result: Result<usize, MemoryError>);

    /// Reserves a region of `size` bytes and returns its start.
    fn allocate_heap(&mut self, size: u32) -> (result: Result<usize, MemoryError>);

    /// Releases the region that was reserved at `position`.
    fn free_heap(&mut self, position: usize) -> (result: Result<(), MemoryError>);
}

// Whether `table` is the address table: it holds, under the ordinal of each
// register, the entry that the layout gives it, and no other key.
spec fn is_address_table(table: Map<i32, i32>) -> bool {
    &&& forall|register: Register|
        table.contains_key(#[trigger] register.spec_ordinal()) && table[register.spec_ordinal()]
            == register.table_entry()
    &&& forall|key: i32|
        table.contains_key(key) ==> exists|register: Register|
            #[trigger] register.spec_ordinal() == key
}

/// The address space of one emulator: 4096 signed cells and the address table
/// of the registers. Both are made once, by `new`; the cells change through
/// the three write operations only and the table never.
pub struct Memory {
    // the cells, in address order
    raw_memory: Vec<i8>,
    // table entry of each register, keyed by the register's ordinal
    register_lookup_table: HashMap<i32, i32>,
}

impl View for Memory {
    type V = Seq<i8>;

    closed spec fn view(&self) -> Seq<i8> {
        self.raw_memory@
    }
}

impl Memory {
    #[verifier::type_invariant]
    spec fn well_formed(self) -> bool {
        &&& self.raw_memory@.len() == CAPACITY
        &&& is_address_table(self.register_lookup_table@)
    }

    // Makes the address table: one entry for each register of the catalog.
    fn init_register_lookup_table() -> (table: HashMap<i32, i32>)
        ensures
            is_address_table(table@),
    {
        broadcast use vstd::std_specs::hash::group_hash_axioms;

        let mut table: HashMap<i32, i32> = HashMap::new();

        table.insert(Register::AL.ordinal(), 3);
        table.insert(Register::BL.ordinal(), 7);
        table.insert(Register::CL.ordinal(), 11);
        table.insert(Register::DL.ordinal(), 15);
        table.insert(Register::AH.ordinal(), 2);
        table.insert(Register::BH.ordinal(), 6);
        table.insert(Register::CH.ordinal(), 10);
        table.insert(Register::DH.ordinal(), 14);

        table.insert(Register::AX.ordinal(), 0);
        table.insert(Register::BX.ordinal(), 4);
        table.insert(Register::CX.ordinal(), 8);
        table.insert(Register::DX.ordinal(), 12);

        table.insert(Register::EAX.ordinal(), 0);
        table.insert(Register::EBX.ordinal(), 4);
        table.insert(Register::ECX.ordinal(), 8);
        table.insert(Register::EDX.ordinal(), 12);

        table.insert(Register::ESP.ordinal(), 16);
        table.insert(Register::EBP.ordinal(), 20);

        table.insert(Register::Unknown.ordinal(), -1);

        table
    }

    // Makes the store as it is at creation: the address table with an entry
    // for every register of the catalog, and the cells, all zero.
    fn init() -> (memory: Memory)
        ensures
            memory@ == fresh_cells(),
            is_address_table(memory.register_lookup_table@),
    {
        let register_lookup_table: HashMap<i32, i32> = Memory::init_register_lookup_table();

        let mut raw_memory: Vec<i8> = Vec::new();
        for index in 0..CAPACITY
            invariant
                raw_memory@ == Seq::new(index as nat, |i: int| 0i8),
        {
            raw_memory.push(0);
        }

        Memory { raw_memory, register_lookup_table }
    }

    /// A store of `CAPACITY` cells, all zero, with the address table filled.
    pub fn new() -> (memory: Memory)
        ensures
            memory@ == fresh_cells(),
    {
        Memory::init()
    }
}

impl ManageMemory for Memory {
    fn read(&self, position: usize, size: MemoryOperationSize) -> (result: Result<i32, MemoryError>) {
        match size {
            MemoryOperationSize::Byte => match self.read8(position) {
                Ok(value) => Ok(value as i32),
                Err(error) => Err(error),
            },
            MemoryOperationSize::Word => match self.read16(position) {
                Ok(value) => Ok(value as i32),
                Err(error) => Err(error),
            },
        }
    }

    fn read8(&self, position: usize) -> (result: Result<i8, MemoryError>) {
        proof {
            use_type_invariant(self);
        }
        if position >= CAPACITY {
            return Err(MemoryError::OutOfBounds);
        }
        Ok(self.raw_memory[position])
    }

    fn read16(&self, position: usize) -> (result: Result<i16, MemoryError>) {
        proof {
            use_type_invariant(self);
        }
        if position >= CAPACITY - 1 {
            return Err(MemoryError::OutOfBounds);
        }
        Ok(join_word(self.raw_memory[position], self.raw_memory[position + 1]))
    }

    fn write(&mut self, position: usize, value: i32, size: MemoryOperationSize) -> (result: Result<
        (),
        MemoryError,
    >) {
        match size {
            MemoryOperationSize::Byte => self.write8(position, truncate_to_byte(value)),
            MemoryOperationSize::Word => self.write16(position, truncate_to_word(value)),
        }
    }

    fn write8(&mut self, position: usize, value: i8) -> (result: Result<(), MemoryError>) {
        proof {
            use_type_invariant(&*self);
        }
        if position >= CAPACITY {
            return Err(MemoryError::OutOfBounds);
        }
        self.raw_memory[position] = value;
        Ok(())
    }

    fn write16(&mut self, position: usize, value: i16) -> (result: Result<(), MemoryError>) {
        proof {
            use_type_invariant(&*self);
        }
        if position >= CAPACITY - 1 {
            return Err(MemoryError::OutOfBounds);
        }
        let (high, low): (i8, i8) = split_word(value);
        self.raw_memory[position] = high;
        self.raw_memory[position + 1] = low;
        Ok(())
    }
}

impl ManageRegisters for Memory {
    fn get_register_address(&self, register: Register) -> (result: Result<usize, MemoryError>) {
        proof {
            use_type_invariant(self);
        }
        broadcast use vstd::std_specs::hash::group_hash_axioms;

        let key: i32 = register.ordinal();
        match self.register_lookup_table.get(&key) {
            Some(entry) => {
                if *entry < 0 {
                    Err(MemoryError::UnknownRegister)
                } else {
                    Ok(*entry as usize)
                }
            },
            None => Err(MemoryError::UnknownRegister),
        }
    }

    fn get_register_size(register: Register) -> (size: MemoryOperationSize) {
        let val: i32 = register.ordinal();

        if val >= 0 && val <= 7 {
            return MemoryOperationSize::Byte;
        } else if val >= 8 && val <= 11 {
            return MemoryOperationSize::Word;
        }

        // no rule names the register: it is accessed as a byte
        MemoryOperationSize::Byte
    }
}

impl ManageHeap for Memory {
    fn find_available_heap(&self, size: u32) -> (result: Result<usize, MemoryError>)
        ensures
            result === Err(MemoryError::UnimplementedOperation),
    {
        Err(MemoryError::UnimplementedOperation)
    }

    fn allocate_heap(&mut self, size: u32) -> (result: Result<usize, MemoryError>)
        ensures
            result === Err(MemoryError::UnimplementedOperation),
            final(self)@ == old(self)@,
    {
        Err(MemoryError::UnimplementedOperation)
    }

    fn free_heap(&mut self, position: usize) -> (result: Result<(), MemoryError>)
        ensures
            result === Err(MemoryError::UnimplementedOperation),
            final(self)@ == old(self)@,
    {
        Err(MemoryError::UnimplementedOperation)
    }
}

} // verus!
