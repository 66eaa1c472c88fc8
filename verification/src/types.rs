//! The register catalog, the two access widths and the failures of the
//! addressing layer.

use vstd::prelude::*;

verus! {

/// Width of one access to the store.
#[derive(Clone, Copy, Debug, PartialEq, Eq, Structural)]
pub enum MemoryOperationSize {
    /// One cell.
    Byte,
    /// Two consecutive cells, most significant first.
    Word,
}

impl MemoryOperationSize {
    /// Number of consecutive cells that an access of this width covers.
    pub open spec fn width(self) -> int {
        match self {
            MemoryOperationSize::Byte => 1,
            MemoryOperationSize::Word => 2,
        }
    }
}

/// Why an operation of the addressing layer was refused.
#[derive(Clone, Copy, Debug, PartialEq, Eq, Structural)]
pub enum MemoryError {
    /// The register has no address: it is the `Unknown` marker.
    UnknownRegister,
    /// The access would touch a cell outside the store.
    OutOfBounds,
    /// The operation belongs to the heap interface, which has no allocator yet.
    UnimplementedOperation,
}

/// The closed set of register names.
///
/// The order of the variants is the catalog order: a register's ordinal is
/// its position in this list, starting at zero.
#[derive(Clone, Copy, Debug, PartialEq, Eq, Structural)]
pub enum Register {
    AL,
    BL,
    CL,
    DL,
    AH,
    BH,
    CH,
    DH,
    AX,
    BX,
    CX,
    DX,
    EAX,
    EBX,
    ECX,
    EDX,
    ESP,
    EBP,
    /// Marker for "no register". It has an entry in the address table, the
    /// sentinel `-1`, but no address.
    Unknown,
}

impl Register {
    /// Position of the register in the catalog. It serves as the key of the
    /// address table and carries no other meaning.
    pub open spec fn spec_ordinal(self) -> i32 {
        match self {
            Register::AL => 0,
            Register::BL => 1,
            Register::CL => 2,
            Register::DL => 3,
            Register::AH => 4,
            Register::BH => 5,
            Register::CH => 6,
            Register::DH => 7,
            Register::AX => 8,
            Register::BX => 9,
            Register::CX => 10,
            Register::DX => 11,
            Register::EAX => 12,
            Register::EBX => 13,
            Register::ECX => 14,
            Register::EDX => 15,
            Register::ESP => 16,
            Register::EBP => 17,
            Register::Unknown => 18,
        }
    }

    /// The entry of the address table for this register: its byte offset in
    /// the store, or the sentinel `-1` for `Unknown`.
    ///
    /// The byte registers do not lie inside the word register of the same
    /// letter (`AX` covers cells 0 and 1, `AH` is cell 2 and `AL` cell 3).
    /// The layout is kept as it is defined, not as x86 would have it.
    pub open spec fn table_entry(self) -> int {
        match self {
            Register::AL => 3,
            Register::BL => 7,
            Register::CL => 11,
            Register::DL => 15,
            Register::AH => 2,
            Register::BH => 6,
            Register::CH => 10,
            Register::DH => 14,
            Register::AX => 0,
            Register::BX => 4,
            Register::CX => 8,
            Register::DX => 12,
            Register::EAX => 0,
            Register::EBX => 4,
            Register::ECX => 8,
            Register::EDX => 12,
            Register::ESP => 16,
            Register::EBP => 20,
            Register::Unknown => -1,
        }
    }

    /// Width at which the register is accessed: `Word` for the four 16-bit
    /// registers, `Byte` for every other one.
    ///
    /// The 32-bit registers, the two pointer registers and `Unknown` fall
    /// under `Byte` because no rule names them; a wider access for them is
    /// not defined yet.
    pub open spec fn access_size(self) -> MemoryOperationSize {
        match self {
            Register::AX | Register::BX | Register::CX | Register::DX => MemoryOperationSize::Word,
            _ => MemoryOperationSize::Byte,
        }
    }

    /// The register's ordinal in the catalog.
    #[verifier::when_used_as_spec(spec_ordinal)]
    pub fn ordinal(self) -> (ordinal: i32)
        ensures
            ordinal == self.spec_ordinal(),
    {
        match self {
            Register::AL => 0,
            Register::BL => 1,
            Register::CL => 2,
            Register::DL => 3,
            Register::AH => 4,
            Register::BH => 5,
            Register::CH => 6,
            Register::DH => 7,
            Register::AX => 8,
            Register::BX => 9,
            Register::CX => 10,
            Register::DX => 11,
            Register::EAX => 12,
            Register::EBX => 13,
            Register::ECX => 14,
            Register::EDX => 15,
            Register::ESP => 16,
            Register::EBP => 17,
            Register::Unknown => 18,
        }
    }
}

} // verus!
