use nes_core::apu::Apu;
use nes_core::constants::{PPUADDR, PPUCTRL};
use nes_core::device::{DeviceRead, DeviceWrite};
use nes_core::palette::{Palette, Rgb};
use nes_core::ppu::Ppu;
use nes_core::ram::Ram;
use nes_core::rom::{Rom, RomError, HEADER_SIZE};

const HEADER_BYTES: [u8; 4] = [0x4E, 0x45, 0x53, 0x1A];

fn image(prg_chunks: u8, chr_chunks: u8, body: &[u8]) -> Vec<u8> {
    let mut data = vec![0u8; HEADER_SIZE];
    data[0..4].copy_from_slice(&HEADER_BYTES);
    data[4] = prg_chunks;
    data[5] = chr_chunks;
    data.extend_from_slice(body);
    data
}

#[test]
fn set_address_active() {
    let mut ppu = Ppu::new();

    ppu.device_write(PPUADDR, 0x22);
    assert_eq!(ppu.address_active, 0x0022);

    ppu.device_write(PPUADDR, 0x11);
    assert_eq!(ppu.address_active, 0x2211);

    ppu.device_write(PPUADDR, 0x00);
    assert_eq!(ppu.address_active, 0x1100);

    ppu.device_write(PPUADDR, 0x00);
    assert_eq!(ppu.address_active, 0x0000);
}

#[test]
fn ppu_other_registers_leave_the_latch() {
    let mut ppu = Ppu::new();
    ppu.device_write(PPUADDR, 0x22);
    ppu.device_write(PPUCTRL, 0xFF);
    assert_eq!(ppu.address_active, 0x0022);
    assert_eq!(ppu.device_read(PPUADDR), 0);
}

#[test]
fn apu_reads_zero() {
    let mut apu = Apu::new();
    apu.device_write(0x4000, 0xAB);
    assert_eq!(apu.device_read(0x4000), 0);
    assert_eq!(apu, Apu::new());
}

#[test]
fn decode_bytes() {
    const COMPONENT_BYTE: u8 = 240;
    const COMPONENT: f32 = COMPONENT_BYTE as f32 / 255.0;

    let bytes: Vec<u8> = vec![
        COMPONENT_BYTE, 0,              0,
        0,              COMPONENT_BYTE, 0,
        0,              0,              COMPONENT_BYTE,
        55,             55,
    ];

    let colors: Vec<[f32; 4]> = Palette::decode_bytes(&bytes)
        .iter()
        .map(|c| [c.r as f32 / 255.0, c.g as f32 / 255.0, c.b as f32 / 255.0, 1.0])
        .collect();
    assert_eq!(colors, vec![
        [COMPONENT, 0.0,       0.0, 1.0],
        [0.0,       COMPONENT, 0.0, 1.0],
        [0.0,       0.0,       COMPONENT, 1.0],
    ]);
}

#[test]
fn palette_get_and_colors() {
    let palette = Palette::new(&[1, 2, 3, 4, 5, 6, 7]);
    assert_eq!(palette.colors().len(), 2);
    assert_eq!(palette.get(0), Some(Rgb { r: 1, g: 2, b: 3 }));
    assert_eq!(palette.get(1), Some(Rgb { r: 4, g: 5, b: 6 }));
    assert_eq!(palette.get(2), None);
    assert_eq!(Palette::new(&[]).colors().len(), 0);
    assert_eq!(Palette::new(&[9, 9]).get(0), None);
}

#[test]
fn from_file() {
    let mut body = vec![0xEAu8; 2 * 16 * 1024 + 8 * 1024];
    body[0] = 0x78;
    let rom = Rom::from_bytes(image(2, 1, &body)).unwrap();
    assert_eq!(rom.prg_size(), 2 * 16 * 1024);
    assert_eq!(rom.chr_size(), 8 * 1024);
    let bytes = rom.as_bytes();
    assert_ne!(bytes[0..=3], HEADER_BYTES);
    assert_eq!(bytes, body);
}

#[test]
fn rom_header_is_read() {
    let header = Rom::read_header(&image(3, 7, &[])).unwrap();
    assert_eq!(header.prg_chunks, 3);
    assert_eq!(header.chr_chunks, 7);
}

#[test]
fn rom_rejects_wrong_signature() {
    let mut data = image(1, 1, &[1, 2, 3]);
    data[3] = 0x1B;
    assert!(matches!(Rom::from_bytes(data), Err(RomError::HeaderSignatureInvalid)));
    assert!(matches!(
        Rom::from_bytes(vec![0u8; 16]),
        Err(RomError::HeaderSignatureInvalid)
    ));
}

#[test]
fn rom_rejects_short_file() {
    assert!(matches!(Rom::from_bytes(vec![]), Err(RomError::HeaderTruncated)));
    assert!(matches!(
        Rom::from_bytes(vec![0x4E, 0x45, 0x53, 0x1A, 1, 1]),
        Err(RomError::HeaderTruncated)
    ));
    assert!(Rom::from_bytes(image(0, 0, &[])).is_ok());
}

#[test]
fn rom_repeats_through_its_range() {
    let rom = Rom::from_bytes(image(1, 0, &[10, 11, 12, 13])).unwrap();
    assert_eq!(rom.device_read(0x0000), 10);
    assert_eq!(rom.device_read(0x0003), 13);
    assert_eq!(rom.device_read(0x8000), 10);
    assert_eq!(rom.device_read(0x8002), 12);
    assert_eq!(rom.device_read(0xFFFF), 13);
    let empty = Rom::from_bytes(image(0, 0, &[])).unwrap();
    assert_eq!(empty.device_read(0x8000), 0);
}

#[test]
fn ram_answers_in_its_window() {
    let mut ram = Ram::new(0x6000, 0x0800);
    assert_eq!(ram.base(), 0x6000);
    assert_eq!(ram.size(), 0x0800);
    ram.device_write(0x6000, 0x11);
    ram.device_write(0x67FF, 0x22);
    ram.device_write(0x6800, 0x33);
    ram.device_write(0x5FFF, 0x44);
    assert_eq!(ram.device_read(0x6000), 0x11);
    assert_eq!(ram.device_read(0x67FF), 0x22);
    assert_eq!(ram.device_read(0x6800), 0);
    assert_eq!(ram.device_read(0x5FFF), 0);
    assert_eq!(ram.device_read(0x6001), 0);
}
