use vstd::prelude::*;
use crate::{combine, hi_byte, lo_byte, wrap16};
use crate::alu::{add8_spec, sub8_spec, add16_spec, sign_extend};
use crate::instr::{Addr, AluOp, Cond, Instr, Loc8, Pair, StackPair, decode_cb_spec, decode_spec};

verus! {

/// One of the four flags of the flag byte.
#[derive(Clone, Copy, Debug, PartialEq, Eq)]
pub enum Flag {
    Zero,
    Sub,
    HalfCarry,
    Carry,
}

/// The bit of the flag byte that holds `flag`: Zero is bit 7, Subtract bit 6,
/// Half-Carry bit 5, Carry bit 4.
pub open spec fn mask_spec(flag: Flag) -> u8 {
    match flag {
        Flag::Zero => 0x80,
        Flag::Sub => 0x40,
        Flag::HalfCarry => 0x20,
        Flag::Carry => 0x10,
    }
}

/// Whether `flag` is set in the flag byte `f`.
pub open spec fn flag_in(f: u8, flag: Flag) -> bool {
    f & mask_spec(flag) != 0
}

/// The flag byte `f` with `flag` set to `v` and every other bit kept.
pub open spec fn with_flag_in(f: u8, flag: Flag, v: bool) -> u8 {
    if v {
        f | mask_spec(flag)
    } else {
        f & !mask_spec(flag)
    }
}

proof fn lemma_bits(f: u8, m: u8, n: u8)
    by (bit_vector)
    requires
        m == 0x80u8 || m == 0x40u8 || m == 0x20u8 || m == 0x10u8,
        n == 0x80u8 || n == 0x40u8 || n == 0x20u8 || n == 0x10u8,
    ensures
        ((f | m) & n != 0) == (m == n || f & n != 0),
        ((f & !m) & n != 0) == (m != n && f & n != 0),
        (f | m) & 0x0f == f & 0x0f,
        (f & !m) & 0x0f == f & 0x0f,
{
}

/// Setting one flag sets that flag, leaves the other three as they were, and
/// keeps the unused low nibble.
pub proof fn lemma_with_flag(f: u8, flag: Flag, v: bool, other: Flag)
    ensures
        flag_in(with_flag_in(f, flag, v), other) == if other == flag {
            v
        } else {
            flag_in(f, other)
        },
        with_flag_in(f, flag, v) & 0x0f == f & 0x0f,
{
    lemma_bits(f, mask_spec(flag), mask_spec(other));
}

/// The complete state of the processor as a mathematical value: the eight 8-bit
/// registers (with the flag byte `status` as F), the stack pointer, the program
/// counter and the 64 KiB of memory.
pub struct CpuState {
    pub a: u8,
    pub b: u8,
    pub c: u8,
    pub d: u8,
    pub e: u8,
    pub h: u8,
    pub l: u8,
    pub status: u8,
    pub sp: u16,
    pub pc: u16,
    pub mem: Seq<u8>,
}

impl CpuState {
    /// The byte at `addr`, taken modulo 2^16.
    pub open spec fn read(self, addr: int) -> u8 {
        self.mem[wrap16(addr) as int]
    }

    /// Memory with the byte at `addr` (modulo 2^16) replaced by `v`.
    pub open spec fn write(self, addr: int, v: u8) -> CpuState {
        CpuState { mem: self.mem.update(wrap16(addr) as int, v), ..self }
    }

    pub open spec fn af(self) -> u16 {
        combine(self.a, self.status)
    }

    pub open spec fn bc(self) -> u16 {
        combine(self.b, self.c)
    }

    pub open spec fn de(self) -> u16 {
        combine(self.d, self.e)
    }

    pub open spec fn hl(self) -> u16 {
        combine(self.h, self.l)
    }

    pub open spec fn with_af(self, n: u16) -> CpuState {
        CpuState { a: hi_byte(n), status: lo_byte(n), ..self }
    }

    pub open spec fn with_bc(self, n: u16) -> CpuState {
        CpuState { b: hi_byte(n), c: lo_byte(n), ..self }
    }

    pub open spec fn with_de(self, n: u16) -> CpuState {
        CpuState { d: hi_byte(n), e: lo_byte(n), ..self }
    }

    pub open spec fn with_hl(self, n: u16) -> CpuState {
        CpuState { h: hi_byte(n), l: lo_byte(n), ..self }
    }

    pub open spec fn with_a(self, v: u8) -> CpuState {
        CpuState { a: v, ..self }
    }

    /// The program counter set to `pc` modulo 2^16.
    pub open spec fn with_pc(self, pc: int) -> CpuState {
        CpuState { pc: wrap16(pc), ..self }
    }

    /// The stack pointer set to `sp` modulo 2^16.
    pub open spec fn with_sp(self, sp: int) -> CpuState {
        CpuState { sp: wrap16(sp), ..self }
    }

    /// The program counter moved `n` bytes forward.
    pub open spec fn advance(self, n: int) -> CpuState {
        self.with_pc(self.pc + n)
    }

    pub open spec fn flag(self, flag: Flag) -> bool {
        flag_in(self.status, flag)
    }

    pub open spec fn with_flag(self, flag: Flag, v: bool) -> CpuState {
        CpuState { status: with_flag_in(self.status, flag, v), ..self }
    }

    /// All four flags set at once: Zero, Subtract, Half-Carry, Carry.
    pub open spec fn with_flags(self, z: bool, n: bool, h: bool, c: bool) -> CpuState {
        self.with_flag(Flag::Zero, z).with_flag(Flag::Sub, n).with_flag(Flag::HalfCarry, h).with_flag(
            Flag::Carry,
            c,
        )
    }

    /// The one-byte operand at the program counter.
    pub open spec fn imm8(self) -> u8 {
        self.read(self.pc as int)
    }

    /// The two-byte operand at the program counter, low byte first.
    pub open spec fn imm16(self) -> u16 {
        combine(self.read(self.pc + 1), self.read(self.pc as int))
    }

    pub open spec fn get8(self, loc: Loc8) -> u8 {
        match loc {
            Loc8::B => self.b,
            Loc8::C => self.c,
            Loc8::D => self.d,
            Loc8::E => self.e,
            Loc8::H => self.h,
            Loc8::L => self.l,
            Loc8::AtHl => self.read(self.hl() as int),
            Loc8::A => self.a,
        }
    }

    pub open spec fn put8(self, loc: Loc8, v: u8) -> CpuState {
        match loc {
            Loc8::B => CpuState { b: v, ..self },
            Loc8::C => CpuState { c: v, ..self },
            Loc8::D => CpuState { d: v, ..self },
            Loc8::E => CpuState { e: v, ..self },
            Loc8::H => CpuState { h: v, ..self },
            Loc8::L => CpuState { l: v, ..self },
            Loc8::AtHl => self.write(self.hl() as int, v),
            Loc8::A => CpuState { a: v, ..self },
        }
    }

    pub open spec fn pair(self, p: Pair) -> u16 {
        match p {
            Pair::Bc => self.bc(),
            Pair::De => self.de(),
            Pair::Hl => self.hl(),
            Pair::Sp => self.sp,
        }
    }

    pub open spec fn with_pair(self, p: Pair, n: u16) -> CpuState {
        match p {
            Pair::Bc => self.with_bc(n),
            Pair::De => self.with_de(n),
            Pair::Hl => self.with_hl(n),
            Pair::Sp => CpuState { sp: n, ..self },
        }
    }

    pub open spec fn stack_pair(self, p: StackPair) -> u16 {
        match p {
            StackPair::Bc => self.bc(),
            StackPair::De => self.de(),
            StackPair::Hl => self.hl(),
            StackPair::Af => self.af(),
        }
    }

    pub open spec fn with_stack_pair(self, p: StackPair, n: u16) -> CpuState {
        match p {
            StackPair::Bc => self.with_bc(n),
            StackPair::De => self.with_de(n),
            StackPair::Hl => self.with_hl(n),
            StackPair::Af => self.with_af(n),
        }
    }

    /// Push `v`: its high byte goes to `SP - 1`, its low byte to `SP`, and SP
    /// moves down by two.
    pub open spec fn push16(self, v: u16) -> CpuState {
        self.write(self.sp - 1, hi_byte(v)).write(self.sp as int, lo_byte(v)).with_sp(self.sp - 2)
    }

    /// Push one byte at SP, then move SP down by one.
    pub open spec fn push_byte(self, v: u8) -> CpuState {
        self.write(self.sp as int, v).with_sp(self.sp - 1)
    }

    /// Push `data` so that its last byte lands at SP and each earlier byte one
    /// address lower; SP ends below the first byte.
    pub open spec fn push_bytes(self, data: Seq<u8>) -> CpuState
        decreases data.len(),
    {
        if data.len() == 0 {
            self
        } else {
            self.push_byte(data.last()).push_bytes(data.drop_last())
        }
    }

    /// The `n` bytes just above SP, lowest address first.
    pub open spec fn peek_bytes(self, n: nat) -> Seq<u8> {
        Seq::new(n, |i: int| self.read(self.sp + 1 + i))
    }

    /// The value a pop would return: high byte at `SP + 1`, low byte at `SP + 2`.
    pub open spec fn top16(self) -> u16 {
        combine(self.read(self.sp + 1), self.read(self.sp + 2))
    }

    /// The stack pointer after popping two bytes.
    pub open spec fn pop16(self) -> CpuState {
        self.with_sp(self.sp + 2)
    }

    pub open spec fn cond_holds(self, cond: Cond) -> bool {
        match cond {
            Cond::Always => true,
            Cond::NotZero => !self.flag(Flag::Zero),
            Cond::Zero => self.flag(Flag::Zero),
            Cond::NotCarry => !self.flag(Flag::Carry),
            Cond::Carry => self.flag(Flag::Carry),
        }
    }

    /// The address an `LD A,(..)`/`LD (..),A` operand names, read before the
    /// instruction changes anything.
    pub open spec fn address(self, addr: Addr) -> u16 {
        match addr {
            Addr::Bc => self.bc(),
            Addr::De => self.de(),
            Addr::HlInc => self.hl(),
            Addr::HlDec => self.hl(),
            Addr::Imm16 => self.imm16(),
            Addr::HighImm => (0xff00 + self.imm8()) as u16,
            Addr::HighC => (0xff00 + self.c) as u16,
        }
    }

    /// What addressing does besides naming the address: consume operand bytes, or
    /// step HL.
    pub open spec fn after_address(self, addr: Addr) -> CpuState {
        match addr {
            Addr::HlInc => self.with_hl(wrap16(self.hl() + 1)),
            Addr::HlDec => self.with_hl(wrap16(self.hl() - 1)),
            Addr::Imm16 => self.advance(2),
            Addr::HighImm => self.advance(1),
            _ => self,
        }
    }

    /// The accumulator operation `op` with operand `n`.
    pub open spec fn alu(self, op: AluOp, n: u8) -> CpuState {
        match op {
            AluOp::Add => {
                let r = add8_spec(self.a, n, false);
                self.with_a(r.value).with_flags(r.value == 0, false, r.half, r.carry)
            },
            AluOp::Adc => {
                let r = add8_spec(self.a, n, self.flag(Flag::Carry));
                self.with_a(r.value).with_flags(r.value == 0, false, r.half, r.carry)
            },
            AluOp::Sub => {
                let r = sub8_spec(self.a, n);
                self.with_a(r.value).with_flags(r.value == 0, true, r.half, r.carry)
            },
            AluOp::And => {
                let v = self.a & n;
                self.with_a(v).with_flags(v == 0, false, true, false)
            },
            AluOp::Xor => {
                let v = self.a ^ n;
                self.with_a(v).with_flags(v == 0, false, false, false)
            },
            AluOp::Or => {
                let v = self.a | n;
                self.with_a(v).with_flags(v == 0, false, false, false)
            },
            AluOp::Cp => {
                let r = sub8_spec(self.a, n);
                self.with_flags(r.value == 0, true, r.half, r.carry)
            },
        }
    }

    /// `SP + e8` with the flags the two instructions that compute it share; the
    /// program counter is already past the operand byte `e`.
    pub open spec fn sp_offset_flags(self, e: u8) -> CpuState {
        let r = add16_spec(self.sp, sign_extend(e));
        self.with_flags(false, false, r.1, r.2)
    }
}

/// The effect of instruction `i` on state `s`, whose program counter has already
/// moved past the opcode (and the prefix byte, if any).
pub open spec fn execute_spec(s: CpuState, i: Instr) -> CpuState {
    match i {
        Instr::Nop | Instr::Di | Instr::Ei | Instr::Undefined => s,
        Instr::Load(dst, src) => s.put8(dst, s.get8(src)),
        Instr::LoadImm(dst) => s.advance(1).put8(dst, s.imm8()),
        Instr::LoadA(addr) => s.after_address(addr).with_a(s.read(s.address(addr) as int)),
        Instr::StoreA(addr) => s.after_address(addr).write(s.address(addr) as int, s.a),
        Instr::LoadPairImm(p) => s.advance(2).with_pair(p, s.imm16()),
        Instr::LoadSpHl => CpuState { sp: s.hl(), ..s },
        Instr::LoadHlSpOffset => {
            let t = s.advance(1).sp_offset_flags(s.imm8());
            t.with_hl(add16_spec(s.sp, sign_extend(s.imm8())).0)
        },
        Instr::AddSpOffset => {
            let t = s.advance(1).sp_offset_flags(s.imm8());
            CpuState { sp: add16_spec(s.sp, sign_extend(s.imm8())).0, ..t }
        },
        Instr::StoreSp => {
            let addr = s.imm16();
            s.advance(2).write(addr as int, lo_byte(s.sp)).write(addr + 1, hi_byte(s.sp))
        },
        Instr::Push(p) => s.push16(s.stack_pair(p)),
        Instr::Pop(p) => s.pop16().with_stack_pair(p, s.top16()),
        Instr::Inc(loc) => {
            let v = s.get8(loc);
            let r = ((v + 1) % 256) as u8;
            s.with_flag(Flag::Zero, r == 0).with_flag(Flag::Sub, false).with_flag(
                Flag::HalfCarry,
                v % 16 == 15,
            ).put8(loc, r)
        },
        Instr::Dec(loc) => {
            let v = s.get8(loc);
            let r = ((v + 255) % 256) as u8;
            s.with_flag(Flag::Zero, r == 0).with_flag(Flag::Sub, true).with_flag(
                Flag::HalfCarry,
                v % 16 == 0,
            ).put8(loc, r)
        },
        Instr::IncPair(p) => s.with_pair(p, wrap16(s.pair(p) + 1)),
        Instr::DecPair(p) => s.with_pair(p, wrap16(s.pair(p) - 1)),
        Instr::Alu(op, loc) => s.alu(op, s.get8(loc)),
        Instr::AluImm(op) => s.advance(1).alu(op, s.imm8()),
        Instr::AddHl(p) => {
            let r = add16_spec(s.hl(), s.pair(p));
            s.with_flag(Flag::Sub, false).with_flag(Flag::HalfCarry, r.1).with_flag(
                Flag::Carry,
                r.2,
            ).with_hl(r.0)
        },
        Instr::Rlca => {
            let r = ((s.a * 2) % 256 + s.a / 128) as u8;
            s.with_flags(false, false, false, s.a >= 128).with_a(r)
        },
        Instr::Rrca => {
            let r = (s.a / 2 + (s.a % 2) * 128) as u8;
            s.with_flags(false, false, false, s.a % 2 == 1).with_a(r)
        },
        Instr::Jp(cond) => {
            if s.cond_holds(cond) {
                CpuState { pc: s.imm16(), ..s }
            } else {
                s.advance(2)
            }
        },
        Instr::JpHl => CpuState { pc: s.hl(), ..s },
        Instr::Jr(cond) => {
            let t = s.advance(1);
            if s.cond_holds(cond) {
                t.with_pc(t.pc + sign_extend(s.imm8()))
            } else {
                t
            }
        },
        Instr::Call(cond) => {
            let t = s.advance(2);
            if s.cond_holds(cond) {
                CpuState { pc: s.imm16(), ..t.push16(t.pc) }
            } else {
                t
            }
        },
        Instr::Ret(cond) => {
            if s.cond_holds(cond) {
                CpuState { pc: s.top16(), ..s.pop16() }
            } else {
                s
            }
        },
        Instr::Rst(n) => CpuState { pc: n as u16, ..s.push16(s.pc) },
        Instr::Srl(loc) => {
            let v = s.get8(loc);
            s.put8(loc, v / 2).with_flags(v / 2 == 0, false, false, v % 2 == 1)
        },
    }
}

/// The instruction at the program counter: from the prefixed table when the byte
/// there is `0xCB`, else from the primary table.
pub open spec fn fetch_spec(s: CpuState) -> Option<Instr> {
    if s.imm8() == 0xcb {
        decode_cb_spec(s.read(s.pc + 1))
    } else {
        decode_spec(s.imm8())
    }
}

/// Opcode length: two bytes for a prefixed instruction, one otherwise.
pub open spec fn opcode_len(s: CpuState) -> int {
    if s.imm8() == 0xcb {
        2
    } else {
        1
    }
}

/// One full instruction cycle: `None` when the opcode has no entry in either table.
pub open spec fn step_spec(s: CpuState) -> Option<CpuState> {
    match fetch_spec(s) {
        Some(i) => Some(execute_spec(s.advance(opcode_len(s)), i)),
        None => None,
    }
}

} // verus!
