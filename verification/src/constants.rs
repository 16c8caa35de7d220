//! Addresses of the memory-mapped registers of the picture unit.

use vstd::prelude::*;

verus! {

pub const PPUCTRL: u16 = 0x2000;

pub const PPUMASK: u16 = 0x2001;

pub const PPUSTATUS: u16 = 0x2002;

pub const OAMADDR: u16 = 0x2003;

pub const OAMDATA: u16 = 0x2004;

pub const PPUSCROLL: u16 = 0x2005;

pub const PPUADDR: u16 = 0x2006;

pub const PPUDATA: u16 = 0x2007;

pub const OAMDMA: u16 = 0x4014;

} // verus!
