use volatile_mem::{
    ReadOnly, ReadWrite, Volatile, VolatileRead, VolatileReadOnly, VolatileWrite,
    VolatileWriteOnly, WriteOnly,
};

#[test]
fn new_cell_reads_as_its_initial_value() {
    let cell: Volatile<u32> = Volatile::new(0xDEAD_BEEF);
    assert_eq!(cell.read(), 0xDEAD_BEEF);
}

#[test]
fn write_then_read_yields_the_written_value() {
    let mut cell: Volatile<u32, ReadWrite> = Volatile::new(0);
    cell.write(42);
    assert_eq!(cell.read(), 42);
    cell.write(u32::MAX);
    assert_eq!(cell.read(), u32::MAX);
    cell.write(0);
    assert_eq!(cell.read(), 0);
}

#[test]
fn write_then_read_holds_for_other_element_types() {
    let mut byte: Volatile<u8> = Volatile::new(1);
    byte.write(255);
    assert_eq!(byte.read(), 255);

    let mut signed: Volatile<i64> = Volatile::new(0);
    signed.write(i64::MIN);
    assert_eq!(signed.read(), i64::MIN);

    let mut flag: Volatile<bool> = Volatile::new(false);
    flag.write(true);
    assert!(flag.read());

    let mut pair: Volatile<(u16, i8)> = Volatile::new((0, 0));
    pair.write((513, -3));
    assert_eq!(pair.read(), (513, -3));
}

#[test]
fn a_later_write_replaces_an_earlier_one() {
    let mut cell: Volatile<u16> = Volatile::new(1);
    cell.write(2);
    cell.write(3);
    assert_eq!(cell.read(), 3);
}

#[test]
fn reading_twice_yields_the_same_value() {
    let mut cell: Volatile<u64> = Volatile::new(17);
    let first = cell.read();
    let second = cell.read();
    assert_eq!(first, 17);
    assert_eq!(first, second);
    cell.write(99);
    let third = cell.read();
    let fourth = cell.read();
    assert_eq!(third, 99);
    assert_eq!(third, fourth);
}

#[test]
fn read_only_cell_can_be_read() {
    let cell: VolatileReadOnly<u32> = Volatile::new(5);
    assert_eq!(cell.read(), 5);
    assert_eq!(cell.read(), 5);
    let same: Volatile<u32, ReadOnly> = cell;
    assert_eq!(same.read(), 5);
}

#[test]
fn write_only_cell_can_be_written() {
    let mut cell: VolatileWriteOnly<u32> = Volatile::new(0);
    cell.write(7);
    cell.write(8);
    let mut same: Volatile<u32, WriteOnly> = cell;
    same.write(9);
}

#[test]
fn cell_of_an_array_is_read_and_written_as_a_whole() {
    let mut cell: Volatile<[u8; 3]> = Volatile::new([1, 2, 3]);
    assert_eq!(cell.read(), [1, 2, 3]);
    cell.write([4, 5, 6]);
    assert_eq!(cell.read(), [4, 5, 6]);
}

#[test]
fn cell_of_a_zero_sized_value() {
    let mut cell: Volatile<()> = Volatile::new(());
    cell.write(());
    assert_eq!(cell.read(), ());
}

#[test]
fn access_through_references() {
    fn load<R: VolatileRead<u32>>(from: &R) -> u32 {
        from.read()
    }
    fn store<W: VolatileWrite<u32>>(to: &mut W, val: u32) {
        to.write(val);
    }
    let mut cell: Volatile<u32> = Volatile::new(1);
    store(&mut cell, 77);
    assert_eq!(load(&cell), 77);
}
