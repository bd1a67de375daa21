use gbcore::bus::MemoryBus;

#[test]
fn new_bus_is_zero_filled() {
    let bus = MemoryBus::new();
    assert_eq!(bus.read_byte(0x0000), 0);
    assert_eq!(bus.read_byte(0x8000), 0);
    assert_eq!(bus.read_byte(0xFFFF), 0);
}

#[test]
fn write_then_read_every_edge() {
    let mut bus = MemoryBus::new();
    bus.write_byte(0xFFFF, 0xAB);
    bus.write_byte(0x0000, 0xCD);
    assert_eq!(bus.read_byte(0xFFFF), 0xAB);
    assert_eq!(bus.read_byte(0x0000), 0xCD);
    assert_eq!(bus.read_byte(0xFFFE), 0);
}
