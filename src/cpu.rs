use vstd::prelude::*;
use crate::{wrap16, u8_to_u16, u16_to_u8, lemma_wrap16};
use crate::alu::{add8, sub8, add16, add16_spec, sign_extend, sign_extend_u8, inc16, dec16, wrapping_add16};
use crate::errors::{Detail, Error, ErrorKind};
use crate::instr::{Addr, AluOp, Cond, Instr, Loc8, Pair, StackPair, decode, decode_cb, decode_spec, decode_cb_spec};
use crate::opcodes::PREFIX_CB;
use crate::state::{CpuState, mask_spec, execute_spec, step_spec};
pub use crate::state::Flag;

verus! {

/// Size of the addressable memory.
pub const MEM_SIZE: usize = 0x10000;

/// Start of the page of memory-mapped hardware registers.
pub const MEM_HW_IO_REG_OFFSET: usize = 0xff00;

///  16bit Hi   Lo   Name/Function
///  AF    A    F    Accumulator & Flags (F is `status`)
///  BC    B    C    BC
///  DE    D    E    DE
///  HL    H    L    HL
///  SP    -    -    Stack Pointer
///  PC    -    -    Program Counter/Pointer
pub struct Cpu {
    pub a: u8,
    pub b: u8,
    pub c: u8,
    pub d: u8,
    pub e: u8,
    pub h: u8,
    pub l: u8,
    pub sp: u16,
    pub pc: u16,
    /// The flag byte F: Zero, Subtract, Half-Carry, Carry in bits 7 to 4.
    pub status: u8,
    pub mem: [u8; MEM_SIZE],
}

impl View for Cpu {
    type V = CpuState;

    open spec fn view(&self) -> CpuState {
        CpuState {
            a: self.a,
            b: self.b,
            c: self.c,
            d: self.d,
            e: self.e,
            h: self.h,
            l: self.l,
            status: self.status,
            sp: self.sp,
            pc: self.pc,
            mem: self.mem@,
        }
    }
}

/// The state of a freshly built processor: every register and every byte zero.
pub open spec fn zeroed_state() -> CpuState {
    CpuState {
        a: 0,
        b: 0,
        c: 0,
        d: 0,
        e: 0,
        h: 0,
        l: 0,
        status: 0,
        sp: 0,
        pc: 0,
        mem: Seq::new(0x10000, |i: int| 0u8),
    }
}

/// The documented power-on register values applied to `s`; memory is kept.
pub open spec fn power_on(s: CpuState) -> CpuState {
    CpuState {
        pc: 0x100,
        sp: 0xfffe,
        ..s.with_af(0x01b0).with_bc(0x0013).with_de(0x00d8).with_hl(0x014d)
    }
}

/// Which opcode a failed fetch reports, and the address it was read from.
pub open spec fn fault_spec(s: CpuState) -> (u8, u16) {
    if s.imm8() == 0xcb {
        (s.read(s.pc + 1), wrap16(s.pc + 1))
    } else {
        (s.imm8(), s.pc)
    }
}

impl Flag {
    /// The bit of the flag byte that holds this flag.
    pub fn mask(&self) -> (r: u8)
        ensures
            r == mask_spec(*self),
    {
        match self {
            Flag::Zero => 0b1000_0000,
            Flag::Sub => 0b0100_0000,
            Flag::HalfCarry => 0b0010_0000,
            Flag::Carry => 0b0001_0000,
        }
    }
}

impl Clone for Cpu {
    /// A full, independent copy of the registers and memory.
    fn clone(&self) -> (r: Cpu)
        ensures
            r@ == self@,
    {
        Cpu {
            a: self.a,
            b: self.b,
            c: self.c,
            d: self.d,
            e: self.e,
            h: self.h,
            l: self.l,
            sp: self.sp,
            pc: self.pc,
            status: self.status,
            mem: self.mem,
        }
    }
}

impl Cpu {
    /// A processor with every register and every byte of memory zero.
    pub fn new() -> (r: Cpu)
        ensures
            r@ == zeroed_state(),
    {
        let r = Cpu {
            a: 0,
            b: 0,
            c: 0,
            d: 0,
            e: 0,
            h: 0,
            l: 0,
            sp: 0,
            pc: 0,
            status: 0,
            mem: [0u8; MEM_SIZE],
        };
        assert(r.mem@ =~= zeroed_state().mem);
        r
    }

    /// Load the power-on values: AF=0x01B0, BC=0x0013, DE=0x00D8, HL=0x014D,
    /// PC=0x0100, SP=0xFFFE.
    pub fn init(&mut self)
        ensures
            final(self)@ == power_on(old(self)@),
    {
        self.set_af(0x01b0);
        self.set_bc(0x0013);
        self.set_de(0x00d8);
        self.set_hl(0x014d);
        self.pc = 0x100;
        self.sp = 0xfffe;
    }

    /// Set this processor's whole state to that of `cpu`.
    pub fn load_from(&mut self, cpu: &Cpu)
        ensures
            final(self)@ == cpu@,
    {
        self.a = cpu.a;
        self.b = cpu.b;
        self.c = cpu.c;
        self.d = cpu.d;
        self.e = cpu.e;
        self.h = cpu.h;
        self.l = cpu.l;
        self.sp = cpu.sp;
        self.pc = cpu.pc;
        self.status = cpu.status;
        self.mem = cpu.mem;
    }

    //
    // Memory
    //

    /// The byte at `addr`.
    pub fn read(&self, addr: u16) -> (r: u8)
        ensures
            r == self@.read(addr as int),
    {
        proof {
            lemma_wrap16(addr as int, 0);
        }
        self.mem[addr as usize]
    }

    fn write(&mut self, addr: u16, value: u8)
        ensures
            final(self)@ == old(self)@.write(addr as int, value),
    {
        proof {
            lemma_wrap16(addr as int, 0);
        }
        self.mem[addr as usize] = value;
    }

    /// Store `value` at address `i`.
    pub fn set_mem(&mut self, i: usize, value: u8)
        requires
            i < MEM_SIZE,
        ensures
            final(self)@ == old(self)@.write(i as int, value),
    {
        self.write(i as u16, value);
    }

    /// The bytes at addresses `i` to `j`, both included.
    pub fn get_mem_range(&self, i: usize, j: usize) -> (r: &[u8])
        requires
            i <= j < MEM_SIZE,
        ensures
            r@ == self.mem@.subrange(i as int, j + 1),
    {
        vstd::slice::slice_subrange(self.mem.as_slice(), i, j + 1)
    }

    /// Store `data` at addresses `i` to `j`, both included.
    pub fn set_mem_range(&mut self, i: usize, j: usize, data: &[u8])
        requires
            i <= j < MEM_SIZE,
            data@.len() == j - i + 1,
        ensures
            final(self)@ == (CpuState {
                mem: old(self).mem@.subrange(0, i as int) + data@ + old(self).mem@.subrange(
                    j + 1,
                    MEM_SIZE as int,
                ),
                ..old(self)@
            }),
    {
        let mut k: usize = 0;
        while k < data.len()
            invariant
                i <= j < MEM_SIZE,
                data@.len() == j - i + 1,
                k <= data@.len(),
                self@ == (CpuState { mem: self.mem@, ..old(self)@ }),
                self.mem@.len() == MEM_SIZE,
                forall|m: int|
                    0 <= m < MEM_SIZE ==> #[trigger] self.mem@[m] == if i <= m < i + k {
                        data@[m - i]
                    } else {
                        old(self).mem@[m]
                    },
            decreases data@.len() - k,
        {
            self.mem[i + k] = data[k];
            k = k + 1;
        }
        assert(self.mem@ =~= old(self).mem@.subrange(0, i as int) + data@ + old(self).mem@.subrange(
            j + 1,
            MEM_SIZE as int,
        ));
    }

    //
    // Stack
    //

    /// Push `data` so that it ends at the current SP, in the order given (its first
    /// byte at the lowest address), then move SP below it.
    pub fn push_stack(&mut self, data: &[u8])
        ensures
            final(self)@ == old(self)@.push_bytes(data@),
    {
        let mut i: usize = data.len();
        assert(data@.subrange(0, i as int) =~= data@);
        while i > 0
            invariant
                i <= data@.len(),
                self@.push_bytes(data@.subrange(0, i as int)) == old(self)@.push_bytes(data@),
            decreases i,
        {
            assert(data@.subrange(0, i as int).drop_last() =~= data@.subrange(0, i - 1));
            let sp = self.sp;
            self.write(sp, data[i - 1]);
            self.sp = dec16(sp);
            i = i - 1;
        }
        assert(data@.subrange(0, 0) =~= Seq::<u8>::empty());
    }

    /// Push a 16-bit value: its high byte at SP - 1, its low byte at SP.
    pub fn push_stack_u16(&mut self, n: u16)
        ensures
            final(self)@ == old(self)@.push16(n),
    {
        let (hi, lo) = u16_to_u8(n);
        let sp = self.sp;
        proof {
            lemma_wrap16(sp - 1, 0);
            lemma_wrap16(sp - 2, 0);
        }
        self.write(dec16(sp), hi);
        self.write(sp, lo);
        self.sp = dec16(dec16(sp));
        proof {
            lemma_wrap16(sp - 1, -1);
        }
    }

    /// Pop `n` bytes: the bytes just above SP, lowest address first; SP moves up
    /// past them.
    pub fn pop_stack(&mut self, n: usize) -> (r: Vec<u8>)
        ensures
            r@ == old(self)@.peek_bytes(n as nat),
            final(self)@ == old(self)@.with_sp(old(self).sp + n),
    {
        let mut out: Vec<u8> = Vec::new();
        let mut k: usize = 0;
        let mut addr: u16 = inc16(self.sp);
        while k < n
            invariant
                k <= n,
                *self == *old(self),
                addr == wrap16(self.sp + 1 + k),
                out@ =~= old(self)@.peek_bytes(k as nat),
            decreases n - k,
        {
            out.push(self.read(addr));
            proof {
                lemma_wrap16(self.sp + 1 + k, 1);
            }
            addr = inc16(addr);
            k = k + 1;
        }
        self.sp = self.sp_after_pop(n);
        out
    }

    fn sp_after_pop(&self, n: usize) -> (r: u16)
        ensures
            r == wrap16(self.sp + n),
    {
        ((self.sp as usize % MEM_SIZE + n % MEM_SIZE) % MEM_SIZE) as u16
    }

    /// Pop a 16-bit value pushed by `push_stack_u16`.
    pub fn pop_stack_u16(&mut self) -> (r: u16)
        ensures
            r == old(self)@.top16(),
            final(self)@ == old(self)@.pop16(),
    {
        let sp = self.sp;
        let hi = self.read(inc16(sp));
        let lo = self.read(inc16(inc16(sp)));
        proof {
            lemma_wrap16(sp + 1, 0);
            lemma_wrap16(sp + 1, 1);
            lemma_wrap16(sp + 2, 0);
        }
        self.sp = inc16(inc16(sp));
        u8_to_u16(hi, lo)
    }

    //
    // Registers
    //

    pub fn get_af(&self) -> (r: u16)
        ensures
            r == self@.af(),
    {
        u8_to_u16(self.a, self.status)
    }

    pub fn set_af(&mut self, n: u16)
        ensures
            final(self)@ == old(self)@.with_af(n),
    {
        let (a, f) = u16_to_u8(n);
        self.a = a;
        self.status = f;
    }

    pub fn get_bc(&self) -> (r: u16)
        ensures
            r == self@.bc(),
    {
        u8_to_u16(self.b, self.c)
    }

    pub fn set_bc(&mut self, n: u16)
        ensures
            final(self)@ == old(self)@.with_bc(n),
    {
        let (b, c) = u16_to_u8(n);
        self.b = b;
        self.c = c;
    }

    pub fn get_de(&self) -> (r: u16)
        ensures
            r == self@.de(),
    {
        u8_to_u16(self.d, self.e)
    }

    pub fn set_de(&mut self, n: u16)
        ensures
            final(self)@ == old(self)@.with_de(n),
    {
        let (d, e) = u16_to_u8(n);
        self.d = d;
        self.e = e;
    }

    pub fn get_hl(&self) -> (r: u16)
        ensures
            r == self@.hl(),
    {
        u8_to_u16(self.h, self.l)
    }

    pub fn set_hl(&mut self, n: u16)
        ensures
            final(self)@ == old(self)@.with_hl(n),
    {
        let (h, l) = u16_to_u8(n);
        self.h = h;
        self.l = l;
    }

    //
    // Flags
    //

    /// Whether `flag` is set.
    pub fn flag(&self, flag: Flag) -> (r: bool)
        ensures
            r == self@.flag(flag),
    {
        (self.status & flag.mask()) != 0
    }

    /// Set `flag` when `value` holds, reset it otherwise.
    pub fn set_flag_to(&mut self, flag: Flag, value: bool)
        ensures
            final(self)@ == old(self)@.with_flag(flag, value),
    {
        if value {
            self.set_flag(flag);
        } else {
            self.reset_flag(flag);
        }
    }

    /// Set `flag`.
    pub fn set_flag(&mut self, flag: Flag)
        ensures
            final(self)@ == old(self)@.with_flag(flag, true),
    {
        self.status = self.status | flag.mask();
    }

    /// Reset `flag`.
    pub fn reset_flag(&mut self, flag: Flag)
        ensures
            final(self)@ == old(self)@.with_flag(flag, false),
    {
        self.status = self.status & !flag.mask();
    }

    /// Clear the whole flag byte.
    pub fn reset_status(&mut self)
        ensures
            final(self)@ == (CpuState { status: 0, ..old(self)@ }),
    {
        self.status = 0;
    }

    fn set_flags(&mut self, z: bool, n: bool, h: bool, c: bool)
        ensures
            final(self)@ == old(self)@.with_flags(z, n, h, c),
    {
        self.set_flag_to(Flag::Zero, z);
        self.set_flag_to(Flag::Sub, n);
        self.set_flag_to(Flag::HalfCarry, h);
        self.set_flag_to(Flag::Carry, c);
    }

    fn cond_holds(&self, cond: Cond) -> (r: bool)
        ensures
            r == self@.cond_holds(cond),
    {
        match cond {
            Cond::Always => true,
            Cond::NotZero => !self.flag(Flag::Zero),
            Cond::Zero => self.flag(Flag::Zero),
            Cond::NotCarry => !self.flag(Flag::Carry),
            Cond::Carry => self.flag(Flag::Carry),
        }
    }
}

impl Cpu {
    //
    // Fetch
    //

    fn peek_byte(&self) -> (r: u8)
        ensures
            r == self@.imm8(),
    {
        self.read(self.pc)
    }

    fn consume_byte(&mut self) -> (r: u8)
        ensures
            r == old(self)@.imm8(),
            final(self)@ == old(self)@.advance(1),
    {
        let r = self.peek_byte();
        self.pc = inc16(self.pc);
        r
    }

    /// Consume a two-byte operand, stored low byte first; immediate values and
    /// absolute addresses are read alike.
    fn consume_16_imm(&mut self) -> (r: u16)
        ensures
            r == old(self)@.imm16(),
            final(self)@ == old(self)@.advance(2),
    {
        let pc = self.pc;
        let lo = self.consume_byte();
        let hi = self.consume_byte();
        proof {
            lemma_wrap16(pc + 1, 0);
            lemma_wrap16(pc + 1, 1);
        }
        u8_to_u16(hi, lo)
    }

    fn get_loc(&self, loc: Loc8) -> (r: u8)
        ensures
            r == self@.get8(loc),
    {
        match loc {
            Loc8::B => self.b,
            Loc8::C => self.c,
            Loc8::D => self.d,
            Loc8::E => self.e,
            Loc8::H => self.h,
            Loc8::L => self.l,
            Loc8::AtHl => self.read(self.get_hl()),
            Loc8::A => self.a,
        }
    }

    fn set_loc(&mut self, loc: Loc8, v: u8)
        ensures
            final(self)@ == old(self)@.put8(loc, v),
    {
        match loc {
            Loc8::B => self.b = v,
            Loc8::C => self.c = v,
            Loc8::D => self.d = v,
            Loc8::E => self.e = v,
            Loc8::H => self.h = v,
            Loc8::L => self.l = v,
            Loc8::AtHl => {
                let addr = self.get_hl();
                self.write(addr, v);
            },
            Loc8::A => self.a = v,
        }
    }

    fn get_pair(&self, p: Pair) -> (r: u16)
        ensures
            r == self@.pair(p),
    {
        match p {
            Pair::Bc => self.get_bc(),
            Pair::De => self.get_de(),
            Pair::Hl => self.get_hl(),
            Pair::Sp => self.sp,
        }
    }

    fn set_pair(&mut self, p: Pair, n: u16)
        ensures
            final(self)@ == old(self)@.with_pair(p, n),
    {
        match p {
            Pair::Bc => self.set_bc(n),
            Pair::De => self.set_de(n),
            Pair::Hl => self.set_hl(n),
            Pair::Sp => self.sp = n,
        }
    }

    /// Name the address of an `LD A,(..)`/`LD (..),A` operand, consuming its operand
    /// bytes or stepping HL as the addressing demands.
    fn resolve(&mut self, addr: Addr) -> (r: u16)
        ensures
            r == old(self)@.address(addr),
            final(self)@ == old(self)@.after_address(addr),
    {
        match addr {
            Addr::Bc => self.get_bc(),
            Addr::De => self.get_de(),
            Addr::HlInc => {
                let hl = self.get_hl();
                self.set_hl(inc16(hl));
                hl
            },
            Addr::HlDec => {
                let hl = self.get_hl();
                self.set_hl(dec16(hl));
                hl
            },
            Addr::Imm16 => self.consume_16_imm(),
            Addr::HighImm => {
                let n = self.consume_byte();
                0xff00 + n as u16
            },
            Addr::HighC => 0xff00 + self.c as u16,
        }
    }

    //
    // Loads
    //

    /// `LD dst,src`: copy one 8-bit location into another.
    fn ld_r8_r8(&mut self, dst: Loc8, src: Loc8)
        ensures
            final(self)@ == execute_spec(old(self)@, Instr::Load(dst, src)),
    {
        let v = self.get_loc(src);
        self.set_loc(dst, v);
    }

    /// `LD dst,d8`
    fn ld_r8_d8(&mut self, dst: Loc8)
        ensures
            final(self)@ == execute_spec(old(self)@, Instr::LoadImm(dst)),
    {
        let v = self.consume_byte();
        self.set_loc(dst, v);
    }

    /// `LD A,(addr)`
    fn ld_a(&mut self, addr: Addr)
        ensures
            final(self)@ == execute_spec(old(self)@, Instr::LoadA(addr)),
    {
        let at = self.resolve(addr);
        self.a = self.read(at);
    }

    /// `LD (addr),A`
    fn ld_addr_a(&mut self, addr: Addr)
        ensures
            final(self)@ == execute_spec(old(self)@, Instr::StoreA(addr)),
    {
        let at = self.resolve(addr);
        let a = self.a;
        self.write(at, a);
    }

    /// `LD rr,d16`
    fn ld_r16_d16(&mut self, p: Pair)
        ensures
            final(self)@ == execute_spec(old(self)@, Instr::LoadPairImm(p)),
    {
        let v = self.consume_16_imm();
        self.set_pair(p, v);
    }

    /// `LD SP,HL`
    fn ld_sp_hl(&mut self)
        ensures
            final(self)@ == execute_spec(old(self)@, Instr::LoadSpHl),
    {
        self.sp = self.get_hl();
    }

    /// `LD (a16),SP`: the low byte of SP at a16, the high byte at a16 + 1.
    fn ld_a16_sp(&mut self)
        ensures
            final(self)@ == execute_spec(old(self)@, Instr::StoreSp),
    {
        let addr = self.consume_16_imm();
        let (hi, lo) = u16_to_u8(self.sp);
        self.write(addr, lo);
        proof {
            lemma_wrap16(addr + 1, 0);
        }
        self.write(inc16(addr), hi);
    }

    /// Consume the signed offset `e8` and compute `SP + e8`, setting the flags of
    /// `ADD SP,e8` and `LDHL SP,e8`: Zero and Subtract reset, Half-Carry and Carry
    /// from bits 11 and 15 of the unsigned 16-bit addition.
    fn sp_plus_offset(&mut self) -> (r: u16)
        ensures
            r == add16_spec(old(self).sp, sign_extend(old(self)@.imm8())).0,
            final(self)@ == old(self)@.advance(1).sp_offset_flags(old(self)@.imm8()),
    {
        let e = self.consume_byte();
        let (r, half, carry) = add16(self.sp, sign_extend_u8(e));
        self.set_flags(false, false, half, carry);
        r
    }

    /// `ADD SP,e8`
    fn add_sp_imm(&mut self)
        ensures
            final(self)@ == execute_spec(old(self)@, Instr::AddSpOffset),
    {
        self.sp = self.sp_plus_offset();
    }

    /// `LDHL SP,e8`: `SP + e8` into HL; SP keeps its value.
    fn ldhl_sp_r8(&mut self)
        ensures
            final(self)@ == execute_spec(old(self)@, Instr::LoadHlSpOffset),
    {
        let r = self.sp_plus_offset();
        self.set_hl(r);
    }

    /// `PUSH rr`
    fn push_a16(&mut self, p: StackPair)
        ensures
            final(self)@ == execute_spec(old(self)@, Instr::Push(p)),
    {
        let v = match p {
            StackPair::Bc => self.get_bc(),
            StackPair::De => self.get_de(),
            StackPair::Hl => self.get_hl(),
            StackPair::Af => self.get_af(),
        };
        self.push_stack_u16(v);
    }

    /// `POP rr`
    fn pop_r16(&mut self, p: StackPair)
        ensures
            final(self)@ == execute_spec(old(self)@, Instr::Pop(p)),
    {
        let v = self.pop_stack_u16();
        match p {
            StackPair::Bc => self.set_bc(v),
            StackPair::De => self.set_de(v),
            StackPair::Hl => self.set_hl(v),
            StackPair::Af => self.set_af(v),
        }
    }

    //
    // Arithmetic and logic
    //

    /// `INC r` / `INC (HL)`: Zero from the result, Subtract reset, Half-Carry on a
    /// carry out of bit 3; Carry untouched.
    fn inc_r8(&mut self, loc: Loc8)
        ensures
            final(self)@ == execute_spec(old(self)@, Instr::Inc(loc)),
    {
        let v = self.get_loc(loc);
        let r: u8 = if v == 255 {
            0
        } else {
            v + 1
        };
        self.set_flag_to(Flag::Zero, r == 0);
        self.reset_flag(Flag::Sub);
        self.set_flag_to(Flag::HalfCarry, v % 16 == 15);
        self.set_loc(loc, r);
    }

    /// `DEC r` / `DEC (HL)`: Zero from the result, Subtract set, Half-Carry on a
    /// borrow from bit 4; Carry untouched.
    fn dec_r8(&mut self, loc: Loc8)
        ensures
            final(self)@ == execute_spec(old(self)@, Instr::Dec(loc)),
    {
        let v = self.get_loc(loc);
        let r: u8 = if v == 0 {
            255
        } else {
            v - 1
        };
        self.set_flag_to(Flag::Zero, r == 0);
        self.set_flag(Flag::Sub);
        self.set_flag_to(Flag::HalfCarry, v % 16 == 0);
        self.set_loc(loc, r);
    }

    /// `INC rr`; no flag changes.
    fn inc_r16(&mut self, p: Pair)
        ensures
            final(self)@ == execute_spec(old(self)@, Instr::IncPair(p)),
    {
        let v = self.get_pair(p);
        self.set_pair(p, inc16(v));
    }

    /// `DEC rr`; no flag changes.
    fn dec_r16(&mut self, p: Pair)
        ensures
            final(self)@ == execute_spec(old(self)@, Instr::DecPair(p)),
    {
        let v = self.get_pair(p);
        self.set_pair(p, dec16(v));
    }

    /// `ADD A,n`
    fn add_a(&mut self, n: u8)
        ensures
            final(self)@ == old(self)@.alu(AluOp::Add, n),
    {
        let r = add8(self.a, n, false);
        self.a = r.value;
        self.set_flags(r.value == 0, false, r.half, r.carry);
    }

    /// `ADC A,n`: add n and the Carry flag.
    fn adc_a(&mut self, n: u8)
        ensures
            final(self)@ == old(self)@.alu(AluOp::Adc, n),
    {
        let carry = self.flag(Flag::Carry);
        let r = add8(self.a, n, carry);
        self.a = r.value;
        self.set_flags(r.value == 0, false, r.half, r.carry);
    }

    /// `SUB n`
    fn sub_a(&mut self, n: u8)
        ensures
            final(self)@ == old(self)@.alu(AluOp::Sub, n),
    {
        let r = sub8(self.a, n);
        self.a = r.value;
        self.set_flags(r.value == 0, true, r.half, r.carry);
    }

    /// `AND n`: Half-Carry set, Subtract and Carry reset.
    fn and_a(&mut self, n: u8)
        ensures
            final(self)@ == old(self)@.alu(AluOp::And, n),
    {
        let r = self.a & n;
        self.a = r;
        self.set_flags(r == 0, false, true, false);
    }

    /// `XOR n`: Subtract, Half-Carry and Carry reset.
    fn xor_a(&mut self, n: u8)
        ensures
            final(self)@ == old(self)@.alu(AluOp::Xor, n),
    {
        let r = self.a ^ n;
        self.a = r;
        self.set_flags(r == 0, false, false, false);
    }

    /// `OR n`: Subtract, Half-Carry and Carry reset.
    fn or_a(&mut self, n: u8)
        ensures
            final(self)@ == old(self)@.alu(AluOp::Or, n),
    {
        let r = self.a | n;
        self.a = r;
        self.set_flags(r == 0, false, false, false);
    }

    /// `CP n`: the flags of `A - n`; A keeps its value.
    fn cp_a(&mut self, n: u8)
        ensures
            final(self)@ == old(self)@.alu(AluOp::Cp, n),
    {
        let r = sub8(self.a, n);
        self.set_flags(r.value == 0, true, r.half, r.carry);
    }

    fn alu_a(&mut self, op: AluOp, n: u8)
        ensures
            final(self)@ == old(self)@.alu(op, n),
    {
        match op {
            AluOp::Add => self.add_a(n),
            AluOp::Adc => self.adc_a(n),
            AluOp::Sub => self.sub_a(n),
            AluOp::And => self.and_a(n),
            AluOp::Xor => self.xor_a(n),
            AluOp::Or => self.or_a(n),
            AluOp::Cp => self.cp_a(n),
        }
    }

    /// `ADD HL,rr`: Zero untouched, Subtract reset, Half-Carry and Carry from bits
    /// 11 and 15.
    fn add_hl(&mut self, p: Pair)
        ensures
            final(self)@ == execute_spec(old(self)@, Instr::AddHl(p)),
    {
        let (r, half, carry) = add16(self.get_hl(), self.get_pair(p));
        self.reset_flag(Flag::Sub);
        self.set_flag_to(Flag::HalfCarry, half);
        self.set_flag_to(Flag::Carry, carry);
        self.set_hl(r);
    }

    /// `RLCA`: rotate A left; the old bit 7 goes to Carry and to bit 0.
    fn rlc_a(&mut self)
        ensures
            final(self)@ == execute_spec(old(self)@, Instr::Rlca),
    {
        let a = self.a;
        let carry = a / 128;
        self.set_flags(false, false, false, carry == 1);
        self.a = (a % 128) * 2 + carry;
    }

    /// `RRCA`: rotate A right; the old bit 0 goes to Carry and to bit 7.
    fn rrca(&mut self)
        ensures
            final(self)@ == execute_spec(old(self)@, Instr::Rrca),
    {
        let a = self.a;
        let lsb = a % 2;
        self.set_flags(false, false, false, lsb == 1);
        self.a = lsb * 128 + a / 2;
    }

    /// `SRL r`: shift right into Carry; Zero from the result, Subtract and
    /// Half-Carry reset.
    fn srl(&mut self, loc: Loc8)
        ensures
            final(self)@ == execute_spec(old(self)@, Instr::Srl(loc)),
    {
        let v = self.get_loc(loc);
        self.set_loc(loc, v / 2);
        self.set_flags(v / 2 == 0, false, false, v % 2 == 1);
    }

    //
    // Control flow
    //

    /// `JP cc,a16`: the address is consumed whether or not the jump is taken.
    fn jp_cc_a16(&mut self, cond: Cond)
        ensures
            final(self)@ == execute_spec(old(self)@, Instr::Jp(cond)),
    {
        let taken = self.cond_holds(cond);
        let addr = self.consume_16_imm();
        if taken {
            self.pc = addr;
        }
    }

    /// `JP (HL)`
    fn jp_hl(&mut self)
        ensures
            final(self)@ == execute_spec(old(self)@, Instr::JpHl),
    {
        self.pc = self.get_hl();
    }

    /// `JR cc,e8`: the signed offset is added to the address of the next
    /// instruction.
    fn jr_cc_r8(&mut self, cond: Cond)
        ensures
            final(self)@ == execute_spec(old(self)@, Instr::Jr(cond)),
    {
        let taken = self.cond_holds(cond);
        let e = self.consume_byte();
        if taken {
            self.pc = wrapping_add16(self.pc, sign_extend_u8(e));
        }
    }

    /// `CALL cc,a16`: push the address of the next instruction, then jump.
    fn call_cc_a16(&mut self, cond: Cond)
        ensures
            final(self)@ == execute_spec(old(self)@, Instr::Call(cond)),
    {
        let taken = self.cond_holds(cond);
        let addr = self.consume_16_imm();
        if taken {
            let pc = self.pc;
            self.push_stack_u16(pc);
            self.pc = addr;
        }
    }

    /// `RET cc`: pop the return address into PC.
    fn ret_cc(&mut self, cond: Cond)
        ensures
            final(self)@ == execute_spec(old(self)@, Instr::Ret(cond)),
    {
        if self.cond_holds(cond) {
            self.pc = self.pop_stack_u16();
        }
    }

    /// `RST n`: call the fixed address `n`.
    fn rst_a8(&mut self, n: u8)
        ensures
            final(self)@ == execute_spec(old(self)@, Instr::Rst(n)),
    {
        let pc = self.pc;
        self.push_stack_u16(pc);
        self.pc = n as u16;
    }

    /// Execute `i`, the program counter being past its opcode.
    pub fn execute(&mut self, i: Instr)
        ensures
            final(self)@ == execute_spec(old(self)@, i),
    {
        match i {
            Instr::Nop | Instr::Di | Instr::Ei | Instr::Undefined => {},
            Instr::Load(dst, src) => self.ld_r8_r8(dst, src),
            Instr::LoadImm(dst) => self.ld_r8_d8(dst),
            Instr::LoadA(addr) => self.ld_a(addr),
            Instr::StoreA(addr) => self.ld_addr_a(addr),
            Instr::LoadPairImm(p) => self.ld_r16_d16(p),
            Instr::LoadSpHl => self.ld_sp_hl(),
            Instr::LoadHlSpOffset => self.ldhl_sp_r8(),
            Instr::StoreSp => self.ld_a16_sp(),
            Instr::Push(p) => self.push_a16(p),
            Instr::Pop(p) => self.pop_r16(p),
            Instr::Inc(loc) => self.inc_r8(loc),
            Instr::Dec(loc) => self.dec_r8(loc),
            Instr::IncPair(p) => self.inc_r16(p),
            Instr::DecPair(p) => self.dec_r16(p),
            Instr::Alu(op, loc) => {
                let n = self.get_loc(loc);
                self.alu_a(op, n);
            },
            Instr::AluImm(op) => {
                let n = self.consume_byte();
                self.alu_a(op, n);
            },
            Instr::AddHl(p) => self.add_hl(p),
            Instr::AddSpOffset => self.add_sp_imm(),
            Instr::Rlca => self.rlc_a(),
            Instr::Rrca => self.rrca(),
            Instr::Jp(cond) => self.jp_cc_a16(cond),
            Instr::JpHl => self.jp_hl(),
            Instr::Jr(cond) => self.jr_cc_r8(cond),
            Instr::Call(cond) => self.call_cc_a16(cond),
            Instr::Ret(cond) => self.ret_cc(cond),
            Instr::Rst(n) => self.rst_a8(n),
            Instr::Srl(loc) => self.srl(loc),
        }
    }

    /// Execute the instruction of the primary table at PC. When the opcode has no
    /// entry, nothing changes and the error names the opcode and its address.
    pub fn handle_unprefixed(&mut self) -> (r: Result<(), Error>)
        ensures
            match decode_spec(old(self)@.imm8()) {
                Some(i) => r is Ok && final(self)@ == execute_spec(old(self)@.advance(1), i),
                None => r is Err && final(self)@ == old(self)@ && r->Err_0.kind
                    == ErrorKind::UnknownInstruction && r->Err_0.detail == (Detail::Instruction {
                    opcode: old(self)@.imm8(),
                    addr: old(self).pc,
                }),
            },
    {
        let pc = self.pc;
        let op = self.peek_byte();
        match decode(op) {
            Some(i) => {
                self.pc = inc16(pc);
                self.execute(i);
                Ok(())
            },
            None => Err(Error::unknown_instruction(op, pc)),
        }
    }

    /// Execute the instruction of the prefixed table selected by the byte after PC
    /// (PC holding the prefix). When it has no entry, nothing changes and the error
    /// names that byte and its address.
    pub fn handle_cbprefixed(&mut self) -> (r: Result<(), Error>)
        ensures
            match decode_cb_spec(old(self)@.read(old(self).pc + 1)) {
                Some(i) => r is Ok && final(self)@ == execute_spec(old(self)@.advance(2), i),
                None => r is Err && final(self)@ == old(self)@ && r->Err_0.kind
                    == ErrorKind::UnknownInstruction && r->Err_0.detail == (Detail::Instruction {
                    opcode: old(self)@.read(old(self).pc + 1),
                    addr: wrap16(old(self).pc + 1),
                }),
            },
    {
        let pc = self.pc;
        let at = inc16(pc);
        let op = self.read(at);
        match decode_cb(op) {
            Some(i) => {
                proof {
                    lemma_wrap16(pc + 1, 1);
                }
                self.pc = inc16(at);
                self.execute(i);
                Ok(())
            },
            None => Err(Error::unknown_instruction(op, at)),
        }
    }

    /// Execute exactly one instruction. On an opcode with no entry in either table
    /// the state is left as it was and the error carries the opcode and the
    /// address it was read from.
    pub fn tick(&mut self) -> (r: Result<(), Error>)
        ensures
            match step_spec(old(self)@) {
                Some(t) => r is Ok && final(self)@ == t,
                None => r is Err && final(self)@ == old(self)@ && r->Err_0.kind
                    == ErrorKind::UnknownInstruction && r->Err_0.detail == (Detail::Instruction {
                    opcode: fault_spec(old(self)@).0,
                    addr: fault_spec(old(self)@).1,
                }),
            },
    {
        if self.peek_byte() == PREFIX_CB {
            self.handle_cbprefixed()
        } else {
            self.handle_unprefixed()
        }
    }
}

} // verus!
