use vstd::prelude::*;

verus! {

/// An 8-bit I/O register, by its bus address.
pub struct IORegister8(pub u32);

/// A 16-bit I/O register, by its bus address.
pub struct IORegister16(pub u32);

/// A 32-bit I/O register, by its bus address.
pub struct IORegister32(pub u32);

// Bus addresses of the named I/O registers; wrap one in the register type of
// its width to read or write it through the memory map.

pub const POSTFLG: u32 = 0x4000300;
pub const HALTCNT: u32 = 0x4000301;
pub const DISPCNT: u32 = 0x4000000;
pub const DISPSTAT: u32 = 0x4000004;
pub const VCOUNT: u32 = 0x4000006;
pub const BG0CNT: u32 = 0x4000008;
pub const BG1CNT: u32 = 0x400000a;
pub const BG2CNT: u32 = 0x400000c;
pub const BG3CNT: u32 = 0x400000e;
pub const BG0HOFS: u32 = 0x4000010;
pub const BG0VOFS: u32 = 0x4000012;
pub const BG1HOFS: u32 = 0x4000014;
pub const BG1VOFS: u32 = 0x4000016;
pub const BG2HOFS: u32 = 0x4000018;
pub const BG2VOFS: u32 = 0x400001a;
pub const BG3HOFS: u32 = 0x400001c;
pub const BG3VOFS: u32 = 0x400001e;
pub const BG2PA: u32 = 0x4000020;
pub const BG2PB: u32 = 0x4000022;
pub const BG2PC: u32 = 0x4000024;
pub const BG2PD: u32 = 0x4000026;
pub const BG3PA: u32 = 0x4000030;
pub const BG3PB: u32 = 0x4000032;
pub const BG3PC: u32 = 0x4000034;
pub const BG3PD: u32 = 0x4000036;
pub const WIN0H: u32 = 0x4000040;
pub const WIN1H: u32 = 0x4000042;
pub const WIN0V: u32 = 0x4000044;
pub const WIN1V: u32 = 0x4000046;
pub const WININ: u32 = 0x4000048;
pub const WINOUT: u32 = 0x400004a;
pub const MOSAIC: u32 = 0x400004c;
pub const BLDCNT: u32 = 0x4000050;
pub const BLDALPHA: u32 = 0x4000052;
pub const BLDY: u32 = 0x4000054;
pub const SOUND1CNT_L: u32 = 0x4000060;
pub const SOUND1CNT_H: u32 = 0x4000062;
pub const SOUND1CNT_X: u32 = 0x4000064;
pub const SOUND2CNT_L: u32 = 0x4000068;
pub const SOUND2CNT_H: u32 = 0x400006c;
pub const SOUND3CNT_L: u32 = 0x4000070;
pub const SOUND3CNT_H: u32 = 0x4000072;
pub const SOUND3CNT_X: u32 = 0x4000074;
pub const SOUND4CNT_L: u32 = 0x4000078;
pub const SOUND4CNT_H: u32 = 0x400007c;
pub const SOUNDCNT_L: u32 = 0x4000080;
pub const SOUNDCNT_H: u32 = 0x4000082;
pub const SOUNDCNT_X: u32 = 0x4000084;
pub const SOUNDBIAS: u32 = 0x4000088;
pub const WAVE_RAM0_L: u32 = 0x4000090;
pub const WAVE_RAM0_H: u32 = 0x4000092;
pub const WAVE_RAM1_L: u32 = 0x4000094;
pub const WAVE_RAM1_H: u32 = 0x4000096;
pub const WAVE_RAM2_L: u32 = 0x4000098;
pub const WAVE_RAM2_H: u32 = 0x400009a;
pub const WAVE_RAM3_L: u32 = 0x400009c;
pub const WAVE_RAM3_H: u32 = 0x400009e;
pub const FIFO_A_L: u32 = 0x40000a0;
pub const FIFO_A_H: u32 = 0x40000a2;
pub const FIFO_B_L: u32 = 0x40000a4;
pub const FIFO_B_H: u32 = 0x40000a6;
pub const DMA0CNT_L: u32 = 0x40000b8;
pub const DMA0CNT_H: u32 = 0x40000ba;
pub const DMA1CNT_L: u32 = 0x40000c4;
pub const DMA1CNT_H: u32 = 0x40000c6;
pub const DMA2CNT_L: u32 = 0x40000d0;
pub const DMA2CNT_H: u32 = 0x40000d2;
pub const DMA3CNT_L: u32 = 0x40000dc;
pub const DMA3CNT_H: u32 = 0x40000de;
pub const TM0CNT_L: u32 = 0x4000100;
pub const TM0CNT_H: u32 = 0x4000102;
pub const TM1CNT_L: u32 = 0x4000104;
pub const TM1CNT_H: u32 = 0x4000106;
pub const TM2CNT_L: u32 = 0x4000108;
pub const TM2CNT_H: u32 = 0x400010a;
pub const TM3CNT_L: u32 = 0x400010c;
pub const TM3CNT_H: u32 = 0x400010e;
pub const SIOMULTI0: u32 = 0x4000120;
pub const SIOMULTI1: u32 = 0x4000122;
pub const SIOMULTI2: u32 = 0x4000124;
pub const SIOMULTI3: u32 = 0x4000126;
pub const SIOCNT: u32 = 0x4000128;
pub const SIOMLT_SEND: u32 = 0x400012a;
pub const KEYINPUT: u32 = 0x4000130;
pub const KEYCNT: u32 = 0x4000132;
pub const RCNT: u32 = 0x4000134;
pub const IR: u32 = 0x4000136;
pub const JOYCNT: u32 = 0x4000140;
pub const JOY_STAT: u32 = 0x4000158;
pub const IE: u32 = 0x4000200;
pub const IF: u32 = 0x4000202;
pub const WAITCNT: u32 = 0x4000204;
pub const IME: u32 = 0x4000208;
pub const BG2X: u32 = 0x4000028;
pub const BG2Y: u32 = 0x400002c;
pub const BG3X: u32 = 0x4000038;
pub const BG3Y: u32 = 0x400003c;
pub const FIFO_A: u32 = 0x40000a0;
pub const FIFO_B: u32 = 0x40000a4;
pub const DMA0SAD: u32 = 0x40000b0;
pub const DMA0DAD: u32 = 0x40000b4;
pub const DMA1SAD: u32 = 0x40000bc;
pub const DMA1DAD: u32 = 0x40000c0;
pub const DMA2SAD: u32 = 0x40000c8;
pub const DMA2DAD: u32 = 0x40000cc;
pub const DMA3SAD: u32 = 0x40000d4;
pub const DMA3DAD: u32 = 0x40000d8;
pub const SIODATA32: u32 = 0x4000120;
pub const JOY_RECV: u32 = 0x4000150;
pub const JOY_TRANS: u32 = 0x4000154;

} // verus!
