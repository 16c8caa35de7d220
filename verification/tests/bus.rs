use nes_core::apu::Apu;
use nes_core::bus::{Bus, Device};
use nes_core::constants::PPUADDR;
use nes_core::error::Error;
use nes_core::ppu::Ppu;
use nes_core::ram::Ram;
use nes_core::rom::Rom;

fn flat() -> Bus {
    let mut bus = Bus::new();
    bus.connect(Device::Ram(Ram::new(0x0000, 0x10000)), 0x0000, 0xFFFF).unwrap();
    bus
}

fn rom(body: &[u8]) -> Rom {
    let mut data = vec![0x4E, 0x45, 0x53, 0x1A, 1, 0, 0, 0, 0, 0, 0, 0, 0, 0, 0, 0];
    data.extend_from_slice(body);
    Rom::from_bytes(data).unwrap()
}

#[test]
fn empty_bus_answers_nowhere() {
    let mut bus = Bus::new();
    assert_eq!(bus.len(), 0);
    assert_eq!(bus.read(0x0000), Err(Error::DeviceNotFound(0x0000)));
    assert_eq!(bus.read(0xFFFF), Err(Error::DeviceNotFound(0xFFFF)));
    assert_eq!(bus.write(0x1234, 1), Err(Error::DeviceNotFound(0x1234)));
    assert_eq!(bus.read_u16(0x1234), Err(Error::DeviceNotFound(0x1234)));
    assert_eq!(bus.write_u16(0x1234, 1), Err(Error::DeviceNotFound(0x1234)));
}

#[test]
fn connect_refuses_inverted_and_overlapping_ranges() {
    let mut bus = Bus::new();
    assert_eq!(bus.connect(Device::Apu(Apu::new()), 0x4000, 0x401F), Ok(()));
    assert_eq!(
        bus.connect(Device::Ppu(Ppu::new()), 0x3FFF, 0x2000),
        Err(Error::RangeInverted(0x3FFF, 0x2000))
    );
    assert_eq!(
        bus.connect(Device::Ppu(Ppu::new()), 0x2000, 0x4000),
        Err(Error::RangeOverlap(0x2000, 0x4000))
    );
    assert_eq!(
        bus.connect(Device::Ppu(Ppu::new()), 0x401F, 0x5000),
        Err(Error::RangeOverlap(0x401F, 0x5000))
    );
    assert_eq!(
        bus.connect(Device::Ppu(Ppu::new()), 0x0000, 0xFFFF),
        Err(Error::RangeOverlap(0x0000, 0xFFFF))
    );
    assert_eq!(bus.len(), 1);
    assert_eq!(bus.connect(Device::Ppu(Ppu::new()), 0x2000, 0x3FFF), Ok(()));
    assert_eq!(bus.connect(Device::Ram(Ram::new(0x4020, 1)), 0x4020, 0x4020), Ok(()));
    assert_eq!(bus.len(), 3);
}

#[test]
fn read_and_write_reach_the_device_of_the_range() {
    let mut bus = Bus::new();
    bus.connect(Device::Ram(Ram::new(0x0000, 0x0800)), 0x0000, 0x07FF).unwrap();
    bus.connect(Device::Ppu(Ppu::new()), 0x2000, 0x3FFF).unwrap();
    bus.connect(Device::Apu(Apu::new()), 0x4000, 0x401F).unwrap();
    bus.connect(Device::Rom(rom(&[0xA9, 0x01, 0x60, 0x00])), 0x8000, 0xFFFF).unwrap();

    assert_eq!(bus.write(0x0010, 0x42), Ok(()));
    assert_eq!(bus.read(0x0010), Ok(0x42));
    assert_eq!(bus.read(0x07FF), Ok(0));
    assert_eq!(bus.read(0x0800), Err(Error::DeviceNotFound(0x0800)));
    assert_eq!(bus.write(0x1FFF, 1), Err(Error::DeviceNotFound(0x1FFF)));

    assert_eq!(bus.write(PPUADDR, 0x12), Ok(()));
    assert_eq!(bus.read(PPUADDR), Ok(0));
    assert_eq!(bus.write(0x4000, 0x12), Ok(()));
    assert_eq!(bus.read(0x4000), Ok(0));

    assert_eq!(bus.read(0x8000), Ok(0xA9));
    assert_eq!(bus.read(0x8002), Ok(0x60));
    assert_eq!(bus.read(0x8004), Ok(0xA9));
    assert_eq!(bus.write(0x8000, 0xFF), Ok(()));
    assert_eq!(bus.read(0x8000), Ok(0xA9));
}

#[test]
fn ram_reads_back_what_was_written() {
    let mut bus = flat();
    for address in [0x0000u16, 0x00FF, 0x0100, 0x01FF, 0x4020, 0x8000, 0xFFFE, 0xFFFF] {
        for value in [0x00u8, 0x01, 0x7F, 0x80, 0xFF] {
            bus.write(address, value).unwrap();
            assert_eq!(bus.read(address), Ok(value));
        }
    }
}

#[test]
fn a_write_reaches_one_address_only() {
    let mut bus = flat();
    bus.write(0x4020, 0x11).unwrap();
    bus.write(0x4021, 0x22).unwrap();
    bus.write(0x4022, 0x33).unwrap();
    bus.write(0x4021, 0x99).unwrap();
    assert_eq!(bus.read(0x4020), Ok(0x11));
    assert_eq!(bus.read(0x4021), Ok(0x99));
    assert_eq!(bus.read(0x4022), Ok(0x33));
}

#[test]
fn words_read_back_what_was_written() {
    let mut bus = flat();
    for address in [0x0000u16, 0x00FF, 0x01FF, 0x8000, 0xFFFC, 0xFFFE] {
        for value in [0x0000u16, 0x0001, 0x00FF, 0x0100, 0x1234, 0x8000, 0xFFFF] {
            assert_eq!(bus.write_u16(address, value), Ok(()));
            assert_eq!(bus.read_u16(address), Ok(value));
        }
    }
}

#[test]
fn words_are_little_endian() {
    let mut bus = flat();
    bus.write_u16(0x4020, 0x1234).unwrap();
    assert_eq!(bus.read(0x4020), Ok(0x34));
    assert_eq!(bus.read(0x4021), Ok(0x12));
    bus.write(0x5000, 0xCD).unwrap();
    bus.write(0x5001, 0xAB).unwrap();
    assert_eq!(bus.read_u16(0x5000), Ok(0xABCD));
}

#[test]
fn words_at_the_last_address_are_out_of_bounds() {
    let mut bus = flat();
    bus.write(0xFFFF, 0x77).unwrap();
    assert_eq!(bus.read_u16(0xFFFF), Err(Error::OutOfBounds(0xFFFF)));
    assert_eq!(bus.write_u16(0xFFFF, 0x1234), Err(Error::OutOfBounds(0xFFFF)));
    assert_eq!(bus.read(0xFFFF), Ok(0x77));
    assert_eq!(bus.read(0x0000), Ok(0x00));
}

#[test]
fn a_word_write_stops_at_the_first_fault() {
    let mut bus = Bus::new();
    bus.connect(Device::Ram(Ram::new(0x0000, 0x0100)), 0x0000, 0x00FF).unwrap();
    assert_eq!(bus.write_u16(0x00FF, 0x1234), Err(Error::DeviceNotFound(0x0100)));
    assert_eq!(bus.read(0x00FF), Ok(0x34));
    assert_eq!(bus.read_u16(0x00FF), Err(Error::DeviceNotFound(0x0100)));
    assert_eq!(bus.write_u16(0x0100, 0x1234), Err(Error::DeviceNotFound(0x0100)));
}

#[test]
fn zero_page_words_wrap_within_the_page() {
    let mut bus = flat();
    bus.write(0x00FF, 0x34).unwrap();
    bus.write(0x0000, 0x12).unwrap();
    bus.write(0x0100, 0xEE).unwrap();
    assert_eq!(bus.read_zp_u16(0xFF), Ok(0x1234));
    assert_eq!(bus.read_zp(0xFF), Ok(0x34));

    assert_eq!(bus.write_zp_u16(0xFF, 0xABCD), Ok(()));
    assert_eq!(bus.read(0x00FF), Ok(0xCD));
    assert_eq!(bus.read(0x0000), Ok(0xAB));
    assert_eq!(bus.read(0x0100), Ok(0xEE));
    assert_eq!(bus.read_zp_u16(0xFF), Ok(0xABCD));

    assert_eq!(bus.write_zp(0x40, 0x55), Ok(()));
    assert_eq!(bus.read(0x0040), Ok(0x55));
    assert_eq!(bus.write_zp_u16(0x40, 0x2040), Ok(()));
    assert_eq!(bus.read_zp_u16(0x40), Ok(0x2040));
}

#[test]
fn indirect_pointer_wraps_within_its_page() {
    let mut bus = flat();
    bus.write(0x02FF, 0x34).unwrap();
    bus.write(0x0200, 0x12).unwrap();
    bus.write(0x0300, 0xFF).unwrap();
    assert_eq!(bus.read_u16_buggy(0x02FF), Ok(0x1234));
    assert_eq!(bus.read_u16(0x02FF), Ok(0xFF34));

    bus.write(0x0280, 0xCD).unwrap();
    bus.write(0x0281, 0xAB).unwrap();
    assert_eq!(bus.read_u16_buggy(0x0280), Ok(0xABCD));

    bus.write(0xFFFF, 0x78).unwrap();
    bus.write(0xFF00, 0x56).unwrap();
    assert_eq!(bus.read_u16_buggy(0xFFFF), Ok(0x5678));
}

#[test]
fn read_n_gives_the_bytes_in_order() {
    let mut bus = flat();
    bus.write_n(0x8000, &[1, 2, 3, 4]).unwrap();
    assert_eq!(bus.read_n(0x8000, 0), Ok(vec![]));
    assert_eq!(bus.read_n(0x8000, 3), Ok(vec![1, 2, 3]));
    assert_eq!(bus.read_n(0x8001, 3), Ok(vec![2, 3, 4]));
    bus.write_n(0xFFFE, &[8, 9]).unwrap();
    assert_eq!(bus.read_n(0xFFFE, 2), Ok(vec![8, 9]));
    assert_eq!(bus.read_n(0xFFFF, 1), Ok(vec![9]));
    assert_eq!(bus.read_n(0xFFFF, 0), Ok(vec![]));
}

#[test]
fn read_n_and_write_n_do_not_wrap() {
    let mut bus = flat();
    assert_eq!(bus.read_n(0xFFFF, 2), Err(Error::OutOfBounds(0xFFFF)));
    assert_eq!(bus.read_n(0xFFFE, 3), Err(Error::OutOfBounds(0xFFFE)));
    assert_eq!(bus.write_n(0xFFFF, &[1, 2]), Err(Error::OutOfBounds(0xFFFF)));
    assert_eq!(bus.read(0xFFFF), Ok(0));
    assert_eq!(bus.write_n(0xFFFF, &[]), Ok(()));
}

#[test]
fn read_n_and_write_n_stop_at_the_first_fault() {
    let mut bus = Bus::new();
    bus.connect(Device::Ram(Ram::new(0x0000, 0x0100)), 0x0000, 0x00FF).unwrap();
    assert_eq!(bus.read_n(0x00FE, 3), Err(Error::DeviceNotFound(0x0100)));
    assert_eq!(bus.write_n(0x00FE, &[1, 2, 3, 4]), Err(Error::DeviceNotFound(0x0100)));
    assert_eq!(bus.read(0x00FE), Ok(1));
    assert_eq!(bus.read(0x00FF), Ok(2));
}

#[test]
fn machine_layout() {
    let mut bus = Bus::with_devices(Ppu::new(), Apu::new(), rom(&[0xA9, 0x01]));
    assert_eq!(bus.len(), 3);
    assert_eq!(bus.read(0x1FFF), Err(Error::DeviceNotFound(0x1FFF)));
    assert_eq!(bus.read(0x2000), Ok(0));
    assert_eq!(bus.write(0x3FFF, 1), Ok(()));
    assert_eq!(bus.read(0x401F), Ok(0));
    assert_eq!(bus.read(0x4020), Err(Error::DeviceNotFound(0x4020)));
    assert_eq!(bus.read(0x41FF), Err(Error::DeviceNotFound(0x41FF)));
    assert_eq!(bus.read(0x4200), Ok(0xA9));
    assert_eq!(bus.read(0xFFFF), Ok(0x01));
    assert_eq!(
        bus.connect(Device::Ram(Ram::new(0, 0x0800)), 0x0000, 0x2000),
        Err(Error::RangeOverlap(0x0000, 0x2000))
    );
    assert_eq!(bus.connect(Device::Ram(Ram::new(0, 0x0800)), 0x0000, 0x1FFF), Ok(()));
}
