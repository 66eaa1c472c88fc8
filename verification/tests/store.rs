use vcpu_memory::memory::{ManageMemory, Memory};
use vcpu_memory::model::CAPACITY;
use vcpu_memory::types::{MemoryError, MemoryOperationSize};

#[test]
fn capacity_is_4096() {
    assert_eq!(CAPACITY, 4096);
}

#[test]
fn fresh_store_reads_zero_everywhere() {
    let memory = Memory::new();
    for position in 0..4096usize {
        assert_eq!(memory.read(position, MemoryOperationSize::Byte), Ok(0));
        assert_eq!(memory.read8(position), Ok(0));
    }
    for position in 0..4095usize {
        assert_eq!(memory.read(position, MemoryOperationSize::Word), Ok(0));
        assert_eq!(memory.read16(position), Ok(0));
    }
}

#[test]
fn byte_write_then_read_returns_the_byte() {
    let mut memory = Memory::new();
    for position in [0usize, 1, 2, 3, 17, 255, 256, 2048, 4094, 4095] {
        for value in -128..=127i32 {
            assert_eq!(memory.write(position, value, MemoryOperationSize::Byte), Ok(()));
            assert_eq!(memory.read(position, MemoryOperationSize::Byte), Ok(value));
        }
    }
}

#[test]
fn word_write_then_read_returns_the_word_and_its_bytes() {
    let mut memory = Memory::new();
    for position in [0usize, 1, 3, 100, 2047, 4093, 4094] {
        for value in -32768..=32767i32 {
            assert_eq!(memory.write(position, value, MemoryOperationSize::Word), Ok(()));
            assert_eq!(memory.read(position, MemoryOperationSize::Word), Ok(value));
            let high = value.div_euclid(256);
            let low = ((value.rem_euclid(256)) as u8) as i8;
            assert_eq!(memory.read(position, MemoryOperationSize::Byte), Ok(high));
            assert_eq!(memory.read(position + 1, MemoryOperationSize::Byte), Ok(low as i32));
        }
    }
}

#[test]
fn word_is_stored_high_byte_first() {
    let mut memory = Memory::new();
    assert_eq!(memory.write(10, 0x1234, MemoryOperationSize::Word), Ok(()));
    assert_eq!(memory.read8(10), Ok(0x12));
    assert_eq!(memory.read8(11), Ok(0x34));
    assert_eq!(memory.read16(10), Ok(0x1234));
    assert_eq!(memory.read(10, MemoryOperationSize::Word), Ok(4660));
}

#[test]
fn word_round_trip_of_300() {
    let mut memory = Memory::new();
    assert_eq!(memory.write(0, 300, MemoryOperationSize::Word), Ok(()));
    assert_eq!(memory.read(0, MemoryOperationSize::Byte), Ok(0x01));
    assert_eq!(memory.read(1, MemoryOperationSize::Byte), Ok(0x2C));
    assert_eq!(memory.read(1, MemoryOperationSize::Byte), Ok(44));
    assert_eq!(memory.read(0, MemoryOperationSize::Word), Ok(300));
}

#[test]
fn word_with_low_byte_above_127_reads_back_unchanged() {
    let mut memory = Memory::new();
    assert_eq!(memory.write(0, 255, MemoryOperationSize::Word), Ok(()));
    assert_eq!(memory.read8(0), Ok(0));
    assert_eq!(memory.read8(1), Ok(-1));
    assert_eq!(memory.read(0, MemoryOperationSize::Word), Ok(255));

    assert_eq!(memory.write(0, 0x12F0, MemoryOperationSize::Word), Ok(()));
    assert_eq!(memory.read8(0), Ok(0x12));
    assert_eq!(memory.read8(1), Ok(-16));
    assert_eq!(memory.read16(0), Ok(0x12F0));
}

#[test]
fn negative_words() {
    let mut memory = Memory::new();
    assert_eq!(memory.write(6, -2, MemoryOperationSize::Word), Ok(()));
    assert_eq!(memory.read8(6), Ok(-1));
    assert_eq!(memory.read8(7), Ok(-2));
    assert_eq!(memory.read(6, MemoryOperationSize::Word), Ok(-2));

    assert_eq!(memory.write(6, -32768, MemoryOperationSize::Word), Ok(()));
    assert_eq!(memory.read8(6), Ok(-128));
    assert_eq!(memory.read8(7), Ok(0));
    assert_eq!(memory.read(6, MemoryOperationSize::Word), Ok(-32768));

    assert_eq!(memory.write16(6, -25536), Ok(()));
    assert_eq!(memory.read8(6), Ok(-100));
    assert_eq!(memory.read8(7), Ok(64));
    assert_eq!(memory.read16(6), Ok(-25536));
}

#[test]
fn byte_write_keeps_the_low_eight_bits() {
    let mut memory = Memory::new();
    assert_eq!(memory.write(5, 300, MemoryOperationSize::Byte), Ok(()));
    assert_eq!(memory.read(5, MemoryOperationSize::Byte), Ok(44));
    assert_eq!(memory.write(5, 200, MemoryOperationSize::Byte), Ok(()));
    assert_eq!(memory.read(5, MemoryOperationSize::Byte), Ok(-56));
    assert_eq!(memory.write(5, 128, MemoryOperationSize::Byte), Ok(()));
    assert_eq!(memory.read(5, MemoryOperationSize::Byte), Ok(-128));
    assert_eq!(memory.write(5, -129, MemoryOperationSize::Byte), Ok(()));
    assert_eq!(memory.read(5, MemoryOperationSize::Byte), Ok(127));
    assert_eq!(memory.write(5, i32::MIN, MemoryOperationSize::Byte), Ok(()));
    assert_eq!(memory.read(5, MemoryOperationSize::Byte), Ok(0));
    assert_eq!(memory.write(5, i32::MAX, MemoryOperationSize::Byte), Ok(()));
    assert_eq!(memory.read(5, MemoryOperationSize::Byte), Ok(-1));
    // the neighbours were never touched
    assert_eq!(memory.read8(4), Ok(0));
    assert_eq!(memory.read8(6), Ok(0));
}

#[test]
fn word_write_keeps_the_low_sixteen_bits() {
    let mut memory = Memory::new();
    assert_eq!(memory.write(0, 70000, MemoryOperationSize::Word), Ok(()));
    assert_eq!(memory.read(0, MemoryOperationSize::Word), Ok(4464));
    assert_eq!(memory.read8(0), Ok(0x11));
    assert_eq!(memory.read8(1), Ok(0x70));
    assert_eq!(memory.write(0, 40000, MemoryOperationSize::Word), Ok(()));
    assert_eq!(memory.read(0, MemoryOperationSize::Word), Ok(-25536));
    assert_eq!(memory.write(0, 65535, MemoryOperationSize::Word), Ok(()));
    assert_eq!(memory.read(0, MemoryOperationSize::Word), Ok(-1));
    assert_eq!(memory.write(0, -32769, MemoryOperationSize::Word), Ok(()));
    assert_eq!(memory.read(0, MemoryOperationSize::Word), Ok(32767));
    assert_eq!(memory.write(0, i32::MIN, MemoryOperationSize::Word), Ok(()));
    assert_eq!(memory.read(0, MemoryOperationSize::Word), Ok(0));
    assert_eq!(memory.write(0, i32::MAX, MemoryOperationSize::Word), Ok(()));
    assert_eq!(memory.read(0, MemoryOperationSize::Word), Ok(-1));
    // the cell after the word was never touched
    assert_eq!(memory.read8(2), Ok(0));
}

#[test]
fn write_changes_only_the_cells_it_covers() {
    let mut memory = Memory::new();
    for position in 0..16usize {
        assert_eq!(memory.write8(position, position as i8 + 1), Ok(()));
    }
    assert_eq!(memory.write(7, 0x0A0B, MemoryOperationSize::Word), Ok(()));
    for position in 0..16usize {
        let expected = match position {
            7 => 0x0A,
            8 => 0x0B,
            other => other as i8 + 1,
        };
        assert_eq!(memory.read8(position), Ok(expected));
    }
    for position in 16..4096usize {
        assert_eq!(memory.read8(position), Ok(0));
    }
}

#[test]
fn words_may_start_at_odd_positions_and_overlap() {
    let mut memory = Memory::new();
    assert_eq!(memory.write(1, 0x0102, MemoryOperationSize::Word), Ok(()));
    assert_eq!(memory.write(2, 0x0304, MemoryOperationSize::Word), Ok(()));
    assert_eq!(memory.read(1, MemoryOperationSize::Word), Ok(0x0103));
    assert_eq!(memory.read(2, MemoryOperationSize::Word), Ok(0x0304));
    assert_eq!(memory.read(3, MemoryOperationSize::Word), Ok(0x0400));
}

#[test]
fn last_cell_takes_a_byte_but_no_word() {
    let mut memory = Memory::new();
    assert_eq!(memory.write(4095, 77, MemoryOperationSize::Byte), Ok(()));
    assert_eq!(memory.read(4095, MemoryOperationSize::Byte), Ok(77));
    assert_eq!(memory.read8(4095), Ok(77));
    assert_eq!(memory.write8(4095, -77), Ok(()));
    assert_eq!(memory.read8(4095), Ok(-77));

    assert_eq!(
        memory.write(4095, 0x0102, MemoryOperationSize::Word),
        Err(MemoryError::OutOfBounds)
    );
    assert_eq!(memory.write16(4095, 0x0102), Err(MemoryError::OutOfBounds));
    assert_eq!(memory.read(4095, MemoryOperationSize::Word), Err(MemoryError::OutOfBounds));
    assert_eq!(memory.read16(4095), Err(MemoryError::OutOfBounds));
    // the refused word left the last cell alone
    assert_eq!(memory.read8(4095), Ok(-77));

    assert_eq!(memory.write(4094, 0x0102, MemoryOperationSize::Word), Ok(()));
    assert_eq!(memory.read(4094, MemoryOperationSize::Word), Ok(0x0102));
    assert_eq!(memory.read8(4095), Ok(2));
}

#[test]
fn positions_past_the_end_are_out_of_bounds() {
    let mut memory = Memory::new();
    for position in [4096usize, 4097, 5000, 65536, usize::MAX - 1, usize::MAX] {
        assert_eq!(memory.read(position, MemoryOperationSize::Byte), Err(MemoryError::OutOfBounds));
        assert_eq!(memory.read(position, MemoryOperationSize::Word), Err(MemoryError::OutOfBounds));
        assert_eq!(memory.read8(position), Err(MemoryError::OutOfBounds));
        assert_eq!(memory.read16(position), Err(MemoryError::OutOfBounds));
        assert_eq!(
            memory.write(position, 1, MemoryOperationSize::Byte),
            Err(MemoryError::OutOfBounds)
        );
        assert_eq!(
            memory.write(position, 1, MemoryOperationSize::Word),
            Err(MemoryError::OutOfBounds)
        );
        assert_eq!(memory.write8(position, 1), Err(MemoryError::OutOfBounds));
        assert_eq!(memory.write16(position, 1), Err(MemoryError::OutOfBounds));
    }
    for position in 0..4096usize {
        assert_eq!(memory.read8(position), Ok(0));
    }
}

#[test]
fn two_stores_do_not_share_cells() {
    let mut first = Memory::new();
    let second = Memory::new();
    assert_eq!(first.write(0, 0x1234, MemoryOperationSize::Word), Ok(()));
    assert_eq!(first.read(0, MemoryOperationSize::Word), Ok(0x1234));
    assert_eq!(second.read(0, MemoryOperationSize::Word), Ok(0));
}
