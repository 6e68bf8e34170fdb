use m68k_ram::AddressBus;
use m68k_ram::PagedMem;
use m68k_ram::ADDRBUS_MASK;
use m68k_ram::SUPERVISOR_DATA;
use m68k_ram::SUPERVISOR_PROGRAM;
use m68k_ram::USER_DATA;
use m68k_ram::USER_PROGRAM;

#[test]
fn address_bus_as_trait_object() {
    // This test will not actually test anything in runtime, but will fail
    // if the AddressBus can't be used as a trait object.
    let mem = PagedMem::new(0xffffffff).unwrap();
    let _: Box<dyn AddressBus> = Box::from(mem);
}

#[test]
fn function_codes_are_exact() {
    assert_eq!(SUPERVISOR_PROGRAM.fc(), 6);
    assert_eq!(SUPERVISOR_DATA.fc(), 5);
    assert_eq!(USER_PROGRAM.fc(), 2);
    assert_eq!(USER_DATA.fc(), 1);
}

#[test]
fn labels_are_bracketed_mode_segment_pairs() {
    assert_eq!(SUPERVISOR_PROGRAM.label(), "[Supervisor/Program]");
    assert_eq!(SUPERVISOR_DATA.label(), "[Supervisor/Data]");
    assert_eq!(USER_PROGRAM.label(), "[User/Program]");
    assert_eq!(USER_DATA.label(), "[User/Data]");
}

#[test]
fn construction_with_size_zero_fails() {
    assert!(PagedMem::new(0).is_none());
}

#[test]
fn construction_with_valid_size_reads_zero() {
    let mem = PagedMem::new(1024).unwrap();
    assert_eq!(mem.size(), 1024);
    assert_eq!(mem.read_byte(USER_DATA, 0), 0);
    assert_eq!(mem.read_byte(USER_DATA, 1023), 0);
    assert_eq!(mem.read_byte(SUPERVISOR_PROGRAM, 0x00ff_ffff), 0);
    assert_eq!(mem.read_word(USER_PROGRAM, 0x1234), 0);
    assert_eq!(mem.read_long(SUPERVISOR_DATA, 0x8000_0000), 0);
}

#[test]
fn oversize_construction_is_clamped_to_the_bus_span() {
    let mem = PagedMem::new(0xffff_ffff).unwrap();
    assert_eq!(mem.size(), ADDRBUS_MASK + 1);
}

#[test]
fn write_then_read_byte_round_trip() {
    let mut mem = PagedMem::new(0x0100_0000).unwrap();
    mem.write_byte(USER_DATA, 0x1234, 0xab);
    assert_eq!(mem.read_byte(USER_DATA, 0x1234), 0xab);
    mem.write_byte(USER_DATA, 0, 0x01);
    mem.write_byte(USER_DATA, 0x00ff_ffff, 0xfe);
    assert_eq!(mem.read_byte(USER_DATA, 0), 0x01);
    assert_eq!(mem.read_byte(USER_DATA, 0x00ff_ffff), 0xfe);
    // Only the low byte of the value is transferred.
    mem.write_byte(USER_DATA, 0x42, 0x1_23);
    assert_eq!(mem.read_byte(USER_DATA, 0x42), 0x23);
}

#[test]
fn addresses_alias_onto_the_low_24_bits() {
    let mut mem = PagedMem::new(0x0100_0000).unwrap();
    mem.write_byte(USER_DATA, 0x5678, 0x9a);
    assert_eq!(
        mem.read_byte(USER_DATA, 0x5678),
        mem.read_byte(USER_DATA, 0x5678 & ADDRBUS_MASK)
    );
    assert_eq!(mem.read_byte(USER_DATA, 0xff00_5678), 0x9a);
    mem.write_byte(USER_DATA, 0xab00_0007, 0x11);
    assert_eq!(mem.read_byte(USER_DATA, 7), 0x11);
}

#[test]
fn long_writes_are_big_endian() {
    let mut mem = PagedMem::new(0x0100_0000).unwrap();
    mem.write_long(SUPERVISOR_DATA, 0x1000, 0x1234_5678);
    assert_eq!(mem.read_byte(SUPERVISOR_DATA, 0x1000), 0x12);
    assert_eq!(mem.read_byte(SUPERVISOR_DATA, 0x1001), 0x34);
    assert_eq!(mem.read_byte(SUPERVISOR_DATA, 0x1002), 0x56);
    assert_eq!(mem.read_byte(SUPERVISOR_DATA, 0x1003), 0x78);
}

#[test]
fn word_writes_are_big_endian() {
    let mut mem = PagedMem::new(0x0100_0000).unwrap();
    mem.write_word(SUPERVISOR_DATA, 0x2000, 0xbeef);
    assert_eq!(mem.read_byte(SUPERVISOR_DATA, 0x2000), 0xbe);
    assert_eq!(mem.read_byte(SUPERVISOR_DATA, 0x2001), 0xef);
    assert_eq!(mem.read_word(SUPERVISOR_DATA, 0x2000), 0xbeef);
    // Only the low word of the value is transferred.
    mem.write_word(SUPERVISOR_DATA, 0x2000, 0x1234_5678);
    assert_eq!(mem.read_word(SUPERVISOR_DATA, 0x2000), 0x5678);
}

#[test]
fn reads_compose_bytes_big_endian() {
    let mut mem = PagedMem::new(0x0100_0000).unwrap();
    mem.write_byte(USER_DATA, 0x3000, 0xca);
    mem.write_byte(USER_DATA, 0x3001, 0xfe);
    mem.write_byte(USER_DATA, 0x3002, 0xba);
    mem.write_byte(USER_DATA, 0x3003, 0xbe);
    assert_eq!(mem.read_word(USER_DATA, 0x3000), 0xcafe);
    assert_eq!(mem.read_long(USER_DATA, 0x3000), 0xcafe_babe);
}

#[test]
fn misaligned_accesses_are_well_defined() {
    let mut mem = PagedMem::new(0x0100_0000).unwrap();
    mem.write_long(USER_DATA, 0x4001, 0x0102_0304);
    assert_eq!(mem.read_long(USER_DATA, 0x4001), 0x0102_0304);
    mem.write_word(USER_DATA, 0x4007, 0x0a0b);
    assert_eq!(mem.read_word(USER_DATA, 0x4007), 0x0a0b);
}

#[test]
fn page_boundaries_are_invisible() {
    // A long whose four bytes fall in two different pages reads back
    // exactly like one placed well inside a single page.
    let mut mem = PagedMem::new(0x0100_0000).unwrap();
    let straddling = 0x0ffe; // bytes at 0x0ffe..=0x1001, crossing a page edge
    let inside = 0x0100;
    mem.write_long(USER_DATA, straddling, 0x5566_7788);
    mem.write_long(USER_DATA, inside, 0x5566_7788);
    assert_eq!(mem.read_long(USER_DATA, straddling), 0x5566_7788);
    assert_eq!(
        mem.read_long(USER_DATA, straddling),
        mem.read_long(USER_DATA, inside)
    );
    assert_eq!(mem.read_byte(USER_DATA, 0x0ffe), 0x55);
    assert_eq!(mem.read_byte(USER_DATA, 0x0fff), 0x66);
    assert_eq!(mem.read_byte(USER_DATA, 0x1000), 0x77);
    assert_eq!(mem.read_byte(USER_DATA, 0x1001), 0x88);
}

#[test]
fn long_accesses_wrap_at_the_top_of_the_bus() {
    let mut mem = PagedMem::new(0x0100_0000).unwrap();
    mem.write_long(USER_DATA, 0x00ff_fffe, 0x1122_3344);
    assert_eq!(mem.read_byte(USER_DATA, 0x00ff_fffe), 0x11);
    assert_eq!(mem.read_byte(USER_DATA, 0x00ff_ffff), 0x22);
    assert_eq!(mem.read_byte(USER_DATA, 0), 0x33);
    assert_eq!(mem.read_byte(USER_DATA, 1), 0x44);
    assert_eq!(mem.read_long(USER_DATA, 0x00ff_fffe), 0x1122_3344);
}

#[test]
fn all_operations_work_through_a_trait_reference() {
    let mem = PagedMem::new(0x0100_0000).unwrap();
    let mut bus: Box<dyn AddressBus> = Box::from(mem);
    bus.write_byte(USER_DATA, 0x10, 0x01);
    bus.write_word(USER_PROGRAM, 0x20, 0x0203);
    bus.write_long(SUPERVISOR_DATA, 0x30, 0x0405_0607);
    assert_eq!(bus.read_byte(SUPERVISOR_PROGRAM, 0x10), 0x01);
    assert_eq!(bus.read_word(USER_DATA, 0x20), 0x0203);
    assert_eq!(bus.read_long(USER_DATA, 0x30), 0x0405_0607);
}

#[test]
fn writes_leave_other_addresses_untouched() {
    let mut mem = PagedMem::new(0x0100_0000).unwrap();
    mem.write_byte(USER_DATA, 0x7000, 0x77);
    mem.write_long(USER_DATA, 0x7004, 0xdead_beef);
    assert_eq!(mem.read_byte(USER_DATA, 0x7000), 0x77);
    assert_eq!(mem.read_byte(USER_DATA, 0x7001), 0);
    assert_eq!(mem.read_byte(USER_DATA, 0x7003), 0);
    assert_eq!(mem.read_byte(USER_DATA, 0x7008), 0);
}

#[test]
fn address_space_is_classification_only() {
    // The space tags the transaction; it never gates or routes access.
    let mut mem = PagedMem::new(0x0100_0000).unwrap();
    mem.write_byte(USER_DATA, 0x100, 0x42);
    assert_eq!(mem.read_byte(SUPERVISOR_PROGRAM, 0x100), 0x42);
    assert_eq!(mem.read_byte(USER_PROGRAM, 0x100), 0x42);
    assert_eq!(mem.read_byte(SUPERVISOR_DATA, 0x100), 0x42);
}
