use vstd::prelude::*;
use vstd::string::StringExecFns;
use crate::cartridge::{
    BANK0_BEGIN, BANK0_END, BANK1_BEGIN, BANK1_END, Cartridge, HEADER_BEGIN, HEADER_END,
    INTERRUPTS_BEGIN, INTERRUPTS_END,
};
use crate::cpu::{Cpu, MEM_SIZE};
use crate::debugger::Debugger;
use crate::errors::{Error, ErrorKind};
use crate::state::CpuState;

verus! {

/// Where the logo bytes the checksum covers begin and end (both included).
pub const MEM_CHECKSUM_BEGIN: usize = 0x104;
pub const MEM_CHECKSUM_END: usize = 0x133;

// IO registers
pub const TIMA: usize = 0xff05;
pub const TMA: usize = 0xff06;
pub const TAC: usize = 0xff07;
pub const NR10: usize = 0xff10;
pub const NR11: usize = 0xff11;
pub const NR12: usize = 0xff12;
pub const NR14: usize = 0xff14;
pub const NR21: usize = 0xff16;
pub const NR22: usize = 0xff17;
pub const NR24: usize = 0xff19;
pub const NR30: usize = 0xff1a;
pub const NR31: usize = 0xff1b;
pub const NR32: usize = 0xff1c;
pub const NR33: usize = 0xff1e;
pub const NR41: usize = 0xff20;
pub const NR42: usize = 0xff21;
pub const NR43: usize = 0xff22;
pub const NR44: usize = 0xff23;
pub const NR50: usize = 0xff24;
pub const NR51: usize = 0xff25;
pub const NR52: usize = 0xff26;
pub const LCDC: usize = 0xff40;
pub const SCY: usize = 0xff42;
pub const SCX: usize = 0xff43;
pub const LYC: usize = 0xff45;
pub const BGP: usize = 0xff47;
pub const OBP0: usize = 0xff48;
pub const OBP1: usize = 0xff49;
pub const WY: usize = 0xff4a;
pub const WX: usize = 0xff4b;
/// Interrupt enable register.
pub const IE: usize = 0xffff;

/// The sum of a byte sequence.
pub open spec fn byte_sum(s: Seq<u8>) -> int
    decreases s.len(),
{
    if s.len() == 0 {
        0
    } else {
        byte_sum(s.drop_last()) + s.last()
    }
}

/// The ROM check value: 25 plus every byte of the checked range, modulo 256.
pub open spec fn checksum_spec(s: Seq<u8>) -> int {
    (25 + byte_sum(s)) % 256
}

/// The documented power-on values of the I/O registers written into `s`.
pub open spec fn io_power_on(s: CpuState) -> CpuState {
    s.write(0xff05, 0x00).write(0xff06, 0x00).write(0xff07, 0x00).write(0xff10, 0x80).write(
        0xff11,
        0xbf,
    ).write(0xff12, 0xf3).write(0xff14, 0xbf).write(0xff16, 0x3f).write(0xff17, 0x00).write(
        0xff19,
        0xbf,
    ).write(0xff1a, 0x7f).write(0xff1b, 0xff).write(0xff1c, 0x9f).write(0xff1e, 0xbf).write(
        0xff20,
        0xff,
    ).write(0xff21, 0x00).write(0xff22, 0x00).write(0xff23, 0xbf).write(0xff24, 0x77).write(
        0xff25,
        0xf3,
    ).write(0xff26, 0xf1).write(0xff40, 0x91).write(0xff42, 0x00).write(0xff43, 0x00).write(
        0xff45,
        0x00,
    ).write(0xff47, 0xfc).write(0xff48, 0xff).write(0xff49, 0xff).write(0xff4a, 0x00).write(
        0xff4b,
        0x00,
    ).write(0xffff, 0x00)
}

/// The state `init_memory` leaves: the first 32 KiB of the ROM copied to
/// 0x0000..0x7FFF, the rest of memory as it was, then the I/O registers set.
pub open spec fn loaded_state(s: CpuState, rom: Seq<u8>) -> CpuState {
    io_power_on(CpuState { mem: rom.subrange(0, 0x8000) + s.mem.subrange(0x8000, 0x10000), ..s })
}

/// The emulated console: processor, cartridge and debugger.
pub struct GameBoy {
    pub cpu: Cpu,
    pub cartridge: Cartridge,
    pub debugger: Debugger,
}

impl GameBoy {
    /// A console with a zeroed processor and `cartridge` inserted.
    pub fn new(cartridge: Cartridge) -> (r: GameBoy)
        ensures
            r.cpu@ == crate::cpu::zeroed_state(),
            r.cartridge.raw_data@ == cartridge.raw_data@,
            r.debugger.n_iteration == 0,
    {
        GameBoy { cpu: Cpu::new(), cartridge, debugger: Debugger::new() }
    }

    /// Validate the ROM now in memory: 25 plus the bytes at 0x0104..=0x0133 must
    /// not be 0 modulo 256.
    pub fn check_rom(&self) -> (r: Result<(), Error>)
        ensures
            r is Err <==> checksum_spec(self.cpu.mem@.subrange(0x104, 0x134)) == 0,
            r is Err ==> r->Err_0.kind == ErrorKind::Validation,
    {
        let bytes = self.cpu.get_mem_range(MEM_CHECKSUM_BEGIN, MEM_CHECKSUM_END);
        let mut sum: u8 = 25;
        let mut i: usize = 0;
        while i < bytes.len()
            invariant
                i <= bytes@.len(),
                bytes@ == self.cpu.mem@.subrange(0x104, 0x134),
                sum == (25 + byte_sum(bytes@.subrange(0, i as int))) % 256,
            decreases bytes@.len() - i,
        {
            assert(bytes@.subrange(0, i + 1).drop_last() =~= bytes@.subrange(0, i as int));
            sum = ((sum as u16 + bytes[i] as u16) % 256) as u8;
            i = i + 1;
        }
        assert(bytes@.subrange(0, bytes@.len() as int) =~= bytes@);
        if sum == 0 {
            Err(Error::new(ErrorKind::Validation, String::from_str("ROM failed checksum validation")))
        } else {
            Ok(())
        }
    }

    /// Copy the cartridge's first two banks into memory and set the I/O registers
    /// to their power-on values.
    pub fn init_memory(&mut self)
        requires
            old(self).cartridge.raw_data@.len() >= 0x8000,
            old(self).cpu.mem@.len() == MEM_SIZE,
        ensures
            final(self).cpu@ == loaded_state(old(self).cpu@, old(self).cartridge.raw_data@),
            final(self).cartridge.raw_data@ == old(self).cartridge.raw_data@,
    {
        let ghost rom = self.cartridge.raw_data@;
        let ghost start = self.cpu@;
        self.cpu.set_mem_range(INTERRUPTS_BEGIN, INTERRUPTS_END, self.cartridge.interrupts());
        self.cpu.set_mem_range(HEADER_BEGIN, HEADER_END, self.cartridge.header());
        self.cpu.set_mem_range(BANK0_BEGIN, BANK0_END, self.cartridge.bank0());
        self.cpu.set_mem_range(BANK1_BEGIN, BANK1_END, self.cartridge.bank1());
        assert(self.cpu.mem@ =~= rom.subrange(0, 0x8000) + start.mem.subrange(0x8000, 0x10000));
        self.cpu.set_mem(TIMA, 0x00);
        self.cpu.set_mem(TMA, 0x00);
        self.cpu.set_mem(TAC, 0x00);
        self.cpu.set_mem(NR10, 0x80);
        self.cpu.set_mem(NR11, 0xbf);
        self.cpu.set_mem(NR12, 0xf3);
        self.cpu.set_mem(NR14, 0xbf);
        self.cpu.set_mem(NR21, 0x3f);
        self.cpu.set_mem(NR22, 0x00);
        self.cpu.set_mem(NR24, 0xbf);
        self.cpu.set_mem(NR30, 0x7f);
        self.cpu.set_mem(NR31, 0xff);
        self.cpu.set_mem(NR32, 0x9f);
        self.cpu.set_mem(NR33, 0xbf);
        self.cpu.set_mem(NR41, 0xff);
        self.cpu.set_mem(NR42, 0x00);
        self.cpu.set_mem(NR43, 0x00);
        self.cpu.set_mem(NR44, 0xbf);
        self.cpu.set_mem(NR50, 0x77);
        self.cpu.set_mem(NR51, 0xf3);
        self.cpu.set_mem(NR52, 0xf1);
        self.cpu.set_mem(LCDC, 0x91);
        self.cpu.set_mem(SCY, 0x00);
        self.cpu.set_mem(SCX, 0x00);
        self.cpu.set_mem(LYC, 0x00);
        self.cpu.set_mem(BGP, 0xfc);
        self.cpu.set_mem(OBP0, 0xff);
        self.cpu.set_mem(OBP1, 0xff);
        self.cpu.set_mem(WY, 0x00);
        self.cpu.set_mem(WX, 0x00);
        self.cpu.set_mem(IE, 0x00);
    }
}

} // verus!
