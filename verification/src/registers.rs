//! MAX7456/AT7456E register map and the bits of the registers that the
//! driver sets or tests.

use vstd::prelude::*;

verus! {

/// Set in the address byte of a register read.
pub const READ: u8 = 0x80;
/// Byte that terminates the display memory auto-increment mode.
pub const END_STRING: u8 = 0xff;

pub const VM0: u8 = 0x00;
pub const VM1: u8 = 0x01;
pub const HOS: u8 = 0x02;
pub const VOS: u8 = 0x03;
pub const DMM: u8 = 0x04;
pub const DMAH: u8 = 0x05;
pub const DMAL: u8 = 0x06;
pub const DMDI: u8 = 0x07;
pub const CMM: u8 = 0x08;
pub const CMAH: u8 = 0x09;
pub const CMAL: u8 = 0x0a;
pub const CMDI: u8 = 0x0b;
pub const OSDM: u8 = 0x0c;

pub const RB0: u8 = 0x10;
pub const RB1: u8 = 0x11;
pub const RB2: u8 = 0x12;
pub const RB3: u8 = 0x13;
pub const RB4: u8 = 0x14;
pub const RB5: u8 = 0x15;
pub const RB6: u8 = 0x16;
pub const RB7: u8 = 0x17;
pub const RB8: u8 = 0x18;
pub const RB9: u8 = 0x19;
pub const RB10: u8 = 0x1a;
pub const RB11: u8 = 0x1b;
pub const RB12: u8 = 0x1c;
pub const RB13: u8 = 0x1d;
pub const RB14: u8 = 0x1e;
pub const RB15: u8 = 0x1f;

pub const OSDBL: u8 = 0x6c;
pub const STAT: u8 = 0xa0;

/// VM0 software reset bit; the chip clears it when the reset is done.
pub const VM0_RESET: u8 = 0x02;
/// Value that OSDM holds after power-up on a MAX7456 or an AT7456E.
pub const OSDM_DEFAULT: u8 = 0x1b;
/// CMAL bit 6: only an AT7456E keeps it when it is written.
pub const CMAL_CA8_BIT: u8 = 1 << 6;

/// VM0 bit 3: enable the on-screen display.
pub const VM0_OSD_ENABLE: u8 = 0x08;
/// VM0 bits 5..4 = 10: external sync.
pub const VM0_SYNC_MODE_EXTERNAL: u8 = 0x20;
/// VM0 bits 5..4 = 11: internal sync.
pub const VM0_SYNC_MODE_INTERNAL: u8 = 0x30;
/// VM0 bit 6 = 1: PAL.
pub const VM0_VIDEO_MODE_PAL: u8 = 0x40;
/// VM0 bit 6 = 0: NTSC.
pub const VM0_VIDEO_MODE_NTSC: u8 = 0x00;

/// VM1 bit 7: gray background.
pub const VM1_BACKGROUND_MODE_GRAY: u8 = 0x80;
/// VM1 bits 3..2 = 01: blink time of 4 fields.
pub const VM1_BLINK_TIME_1: u8 = 0x04;
/// VM1 bits 1..0 = 11: blink duty cycle of 3 blink times on, 1 off.
pub const VM1_BLINK_DUTY_75_25: u8 = 0x03;

/// DMM bit 0: auto-increment the display memory address.
pub const DMM_AUTO_INCREMENT: u8 = 0x01;
/// DMM bit 2: clear the display memory.
pub const DMM_CLEAR_DISPLAY: u8 = 0x04;
/// DMM bit 3: invert the pixel color.
pub const DMM_INVERT_PIXEL_COLOR: u8 = 0x08;

/// STAT bit 0: PAL signal detected.
pub const STAT_PAL: u8 = 0x01;
/// STAT bit 1: NTSC signal detected.
pub const STAT_NTSC: u8 = 0x02;
/// STAT bit 2: loss of sync.
pub const STAT_LOS: u8 = 0x04;
/// STAT bit 5: character memory (NVR) busy.
pub const STAT_NVR_BUSY: u8 = 0x20;

} // verus!
