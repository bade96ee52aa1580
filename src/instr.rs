use vstd::prelude::*;

verus! {

/// An 8-bit operand location, in the order the instruction encoding numbers them:
/// B, C, D, E, H, L, the byte at address HL, A.
#[derive(Clone, Copy, Debug, PartialEq, Eq)]
pub enum Loc8 {
    B,
    C,
    D,
    E,
    H,
    L,
    AtHl,
    A,
}

/// A 16-bit register operand of loads, increments and `ADD HL`: BC, DE, HL, SP.
#[derive(Clone, Copy, Debug, PartialEq, Eq)]
pub enum Pair {
    Bc,
    De,
    Hl,
    Sp,
}

/// A register pair that `PUSH` and `POP` move: BC, DE, HL, AF.
#[derive(Clone, Copy, Debug, PartialEq, Eq)]
pub enum StackPair {
    Bc,
    De,
    Hl,
    Af,
}

/// The condition of a jump, call or return.
#[derive(Clone, Copy, Debug, PartialEq, Eq)]
pub enum Cond {
    Always,
    NotZero,
    Zero,
    NotCarry,
    Carry,
}

/// An operation of the accumulator arithmetic/logic family.
#[derive(Clone, Copy, Debug, PartialEq, Eq)]
pub enum AluOp {
    Add,
    Adc,
    Sub,
    And,
    Xor,
    Or,
    Cp,
}

/// How the memory operand of `LD A,(..)` / `LD (..),A` is addressed.
#[derive(Clone, Copy, Debug, PartialEq, Eq)]
pub enum Addr {
    /// `(BC)`
    Bc,
    /// `(DE)`
    De,
    /// `(HL)`, then HL is incremented
    HlInc,
    /// `(HL)`, then HL is decremented
    HlDec,
    /// a two-byte immediate address
    Imm16,
    /// `0xFF00` plus a one-byte immediate
    HighImm,
    /// `0xFF00` plus register C
    HighC,
}

/// A decoded instruction.
#[derive(Clone, Copy, Debug, PartialEq, Eq)]
pub enum Instr {
    Nop,
    Di,
    Ei,
    /// An officially undefined opcode, executed as a no-op.
    Undefined,
    /// `LD dst,src` between registers and `(HL)`.
    Load(Loc8, Loc8),
    /// `LD dst,d8`
    LoadImm(Loc8),
    /// `LD A,(addr)`
    LoadA(Addr),
    /// `LD (addr),A`
    StoreA(Addr),
    /// `LD rr,d16`
    LoadPairImm(Pair),
    /// `LD SP,HL`
    LoadSpHl,
    /// `LDHL SP,e8`
    LoadHlSpOffset,
    /// `LD (a16),SP`
    StoreSp,
    Push(StackPair),
    Pop(StackPair),
    Inc(Loc8),
    Dec(Loc8),
    IncPair(Pair),
    DecPair(Pair),
    /// The accumulator operation on a register or `(HL)`.
    Alu(AluOp, Loc8),
    /// The accumulator operation on a one-byte immediate.
    AluImm(AluOp),
    /// `ADD HL,rr`
    AddHl(Pair),
    /// `ADD SP,e8`
    AddSpOffset,
    Rlca,
    Rrca,
    /// `JP cc,a16`
    Jp(Cond),
    /// `JP (HL)`
    JpHl,
    /// `JR cc,e8`
    Jr(Cond),
    /// `CALL cc,a16`
    Call(Cond),
    /// `RET cc`
    Ret(Cond),
    /// `RST n`: call to the fixed address `n`.
    Rst(u8),
    /// `SRL r` of the prefixed table.
    Srl(Loc8),
}

/// The 8-bit location numbered `i` (0..=7) in the encoding.
pub open spec fn loc_of(i: int) -> Loc8 {
    if i == 0 {
        Loc8::B
    } else if i == 1 {
        Loc8::C
    } else if i == 2 {
        Loc8::D
    } else if i == 3 {
        Loc8::E
    } else if i == 4 {
        Loc8::H
    } else if i == 5 {
        Loc8::L
    } else if i == 6 {
        Loc8::AtHl
    } else {
        Loc8::A
    }
}

/// The register pair numbered `i` (0..=3) in loads and 16-bit arithmetic.
pub open spec fn pair_of(i: int) -> Pair {
    if i == 0 {
        Pair::Bc
    } else if i == 1 {
        Pair::De
    } else if i == 2 {
        Pair::Hl
    } else {
        Pair::Sp
    }
}

/// The register pair numbered `i` (0..=3) in `PUSH` and `POP`.
pub open spec fn stack_pair_of(i: int) -> StackPair {
    if i == 0 {
        StackPair::Bc
    } else if i == 1 {
        StackPair::De
    } else if i == 2 {
        StackPair::Hl
    } else {
        StackPair::Af
    }
}

/// The condition numbered `i` (0..=3): NZ, Z, NC, C.
pub open spec fn cond_of(i: int) -> Cond {
    if i == 0 {
        Cond::NotZero
    } else if i == 1 {
        Cond::Zero
    } else if i == 2 {
        Cond::NotCarry
    } else {
        Cond::Carry
    }
}

/// The accumulator operation numbered `i` (0..=7); number 3 (subtract with carry)
/// is not part of the instruction set executed here.
pub open spec fn alu_of(i: int) -> Option<AluOp> {
    if i == 0 {
        Some(AluOp::Add)
    } else if i == 1 {
        Some(AluOp::Adc)
    } else if i == 2 {
        Some(AluOp::Sub)
    } else if i == 4 {
        Some(AluOp::And)
    } else if i == 5 {
        Some(AluOp::Xor)
    } else if i == 6 {
        Some(AluOp::Or)
    } else if i == 7 {
        Some(AluOp::Cp)
    } else {
        None
    }
}

/// The officially undefined opcodes that execute as no-ops. `0xD3`, also undefined
/// on the hardware, is not among them: it stops the interpreter.
pub open spec fn is_tolerated_undefined(op: u8) -> bool {
    op == 0xdb || op == 0xdd || op == 0xe3 || op == 0xe4 || op == 0xeb || op == 0xec || op
        == 0xed || op == 0xf4 || op == 0xfc || op == 0xfd
}

/// The instruction of the primary table that `op` selects, if any. The opcode is
/// read as the fields `x = op[7:6]`, `y = op[5:3]`, `z = op[2:0]`, with `p = y / 2`
/// and `q = y % 2`. The prefix byte `0xCB` has no entry here.
pub open spec fn decode_spec(op: u8) -> Option<Instr> {
    let x: int = op as int / 64;
    let y: int = (op as int / 8) % 8;
    let z: int = op as int % 8;
    let p = y / 2;
    let q = y % 2;
    if x == 1 {
        if op == 0x76 {
            None
        } else {
            Some(Instr::Load(loc_of(y), loc_of(z)))
        }
    } else if x == 2 {
        match alu_of(y) {
            Some(k) => Some(Instr::Alu(k, loc_of(z))),
            None => None,
        }
    } else if x == 0 {
        if z == 4 {
            Some(Instr::Inc(loc_of(y)))
        } else if z == 5 {
            Some(Instr::Dec(loc_of(y)))
        } else if z == 6 {
            Some(Instr::LoadImm(loc_of(y)))
        } else if z == 1 {
            if q == 0 {
                Some(Instr::LoadPairImm(pair_of(p)))
            } else {
                Some(Instr::AddHl(pair_of(p)))
            }
        } else if z == 3 {
            if q == 0 {
                Some(Instr::IncPair(pair_of(p)))
            } else {
                Some(Instr::DecPair(pair_of(p)))
            }
        } else if z == 2 {
            let a = if p == 0 {
                Addr::Bc
            } else if p == 1 {
                Addr::De
            } else if p == 2 {
                Addr::HlInc
            } else {
                Addr::HlDec
            };
            if q == 0 {
                Some(Instr::StoreA(a))
            } else {
                Some(Instr::LoadA(a))
            }
        } else if z == 0 {
            if y == 0 {
                Some(Instr::Nop)
            } else if y == 1 {
                Some(Instr::StoreSp)
            } else if y == 2 {
                None
            } else if y == 3 {
                Some(Instr::Jr(Cond::Always))
            } else {
                Some(Instr::Jr(cond_of(y - 4)))
            }
        } else {
            if y == 0 {
                Some(Instr::Rlca)
            } else if y == 1 {
                Some(Instr::Rrca)
            } else {
                None
            }
        }
    } else {
        if is_tolerated_undefined(op) {
            Some(Instr::Undefined)
        } else if z == 7 {
            Some(Instr::Rst((y * 8) as u8))
        } else if z == 6 {
            match alu_of(y) {
                Some(k) => Some(Instr::AluImm(k)),
                None => None,
            }
        } else if z == 5 {
            if q == 0 {
                Some(Instr::Push(stack_pair_of(p)))
            } else if op == 0xcd {
                Some(Instr::Call(Cond::Always))
            } else {
                None
            }
        } else if z == 4 {
            if y < 4 {
                Some(Instr::Call(cond_of(y)))
            } else {
                None
            }
        } else if z == 1 {
            if q == 0 {
                Some(Instr::Pop(stack_pair_of(p)))
            } else if op == 0xc9 {
                Some(Instr::Ret(Cond::Always))
            } else if op == 0xe9 {
                Some(Instr::JpHl)
            } else if op == 0xf9 {
                Some(Instr::LoadSpHl)
            } else {
                None
            }
        } else if z == 0 {
            if y < 4 {
                Some(Instr::Ret(cond_of(y)))
            } else if op == 0xe0 {
                Some(Instr::StoreA(Addr::HighImm))
            } else if op == 0xe8 {
                Some(Instr::AddSpOffset)
            } else if op == 0xf0 {
                Some(Instr::LoadA(Addr::HighImm))
            } else {
                Some(Instr::LoadHlSpOffset)
            }
        } else if z == 2 {
            if y < 4 {
                Some(Instr::Jp(cond_of(y)))
            } else if op == 0xe2 {
                Some(Instr::StoreA(Addr::HighC))
            } else if op == 0xea {
                Some(Instr::StoreA(Addr::Imm16))
            } else if op == 0xf2 {
                Some(Instr::LoadA(Addr::HighC))
            } else {
                Some(Instr::LoadA(Addr::Imm16))
            }
        } else {
            if op == 0xc3 {
                Some(Instr::Jp(Cond::Always))
            } else if op == 0xf3 {
                Some(Instr::Di)
            } else if op == 0xfb {
                Some(Instr::Ei)
            } else {
                None
            }
        }
    }
}

/// The instruction of the prefixed table that `op` selects, if any.
pub open spec fn decode_cb_spec(op: u8) -> Option<Instr> {
    if 0x38 <= op < 0x40 {
        Some(Instr::Srl(loc_of(op as int % 8)))
    } else {
        None
    }
}

/// Decode an opcode of the primary table.
pub fn decode(op: u8) -> (r: Option<Instr>)
    ensures
        r == decode_spec(op),
{
    match op {
        0x00 => Some(Instr::Nop),  // NOP
        0x01 => Some(Instr::LoadPairImm(Pair::Bc)),  // LD BC,d16
        0x02 => Some(Instr::StoreA(Addr::Bc)),  // LD (BC),A
        0x03 => Some(Instr::IncPair(Pair::Bc)),  // INC BC
        0x04 => Some(Instr::Inc(Loc8::B)),  // INC B
        0x05 => Some(Instr::Dec(Loc8::B)),  // DEC B
        0x06 => Some(Instr::LoadImm(Loc8::B)),  // LD B,d8
        0x07 => Some(Instr::Rlca),  // RLCA
        0x08 => Some(Instr::StoreSp),  // LD (a16),SP
        0x09 => Some(Instr::AddHl(Pair::Bc)),  // ADD HL,BC
        0x0a => Some(Instr::LoadA(Addr::Bc)),  // LD A,(BC)
        0x0b => Some(Instr::DecPair(Pair::Bc)),  // DEC BC
        0x0c => Some(Instr::Inc(Loc8::C)),  // INC C
        0x0d => Some(Instr::Dec(Loc8::C)),  // DEC C
        0x0e => Some(Instr::LoadImm(Loc8::C)),  // LD C,d8
        0x0f => Some(Instr::Rrca),  // RRCA
        0x10 => None,
        0x11 => Some(Instr::LoadPairImm(Pair::De)),  // LD DE,d16
        0x12 => Some(Instr::StoreA(Addr::De)),  // LD (DE),A
        0x13 => Some(Instr::IncPair(Pair::De)),  // INC DE
        0x14 => Some(Instr::Inc(Loc8::D)),  // INC D
        0x15 => Some(Instr::Dec(Loc8::D)),  // DEC D
        0x16 => Some(Instr::LoadImm(Loc8::D)),  // LD D,d8
        0x17 => None,
        0x18 => Some(Instr::Jr(Cond::Always)),  // JR e8
        0x19 => Some(Instr::AddHl(Pair::De)),  // ADD HL,DE
        0x1a => Some(Instr::LoadA(Addr::De)),  // LD A,(DE)
        0x1b => Some(Instr::DecPair(Pair::De)),  // DEC DE
        0x1c => Some(Instr::Inc(Loc8::E)),  // INC E
        0x1d => Some(Instr::Dec(Loc8::E)),  // DEC E
        0x1e => Some(Instr::LoadImm(Loc8::E)),  // LD E,d8
        0x1f => None,
        0x20 => Some(Instr::Jr(Cond::NotZero)),  // JR NZ,e8
        0x21 => Some(Instr::LoadPairImm(Pair::Hl)),  // LD HL,d16
        0x22 => Some(Instr::StoreA(Addr::HlInc)),  // LD (HL+),A
        0x23 => Some(Instr::IncPair(Pair::Hl)),  // INC HL
        0x24 => Some(Instr::Inc(Loc8::H)),  // INC H
        0x25 => Some(Instr::Dec(Loc8::H)),  // DEC H
        0x26 => Some(Instr::LoadImm(Loc8::H)),  // LD H,d8
        0x27 => None,
        0x28 => Some(Instr::Jr(Cond::Zero)),  // JR Z,e8
        0x29 => Some(Instr::AddHl(Pair::Hl)),  // ADD HL,HL
        0x2a => Some(Instr::LoadA(Addr::HlInc)),  // LD A,(HL+)
        0x2b => Some(Instr::DecPair(Pair::Hl)),  // DEC HL
        0x2c => Some(Instr::Inc(Loc8::L)),  // INC L
        0x2d => Some(Instr::Dec(Loc8::L)),  // DEC L
        0x2e => Some(Instr::LoadImm(Loc8::L)),  // LD L,d8
        0x2f => None,
        0x30 => Some(Instr::Jr(Cond::NotCarry)),  // JR NC,e8
        0x31 => Some(Instr::LoadPairImm(Pair::Sp)),  // LD SP,d16
        0x32 => Some(Instr::StoreA(Addr::HlDec)),  // LD (HL-),A
        0x33 => Some(Instr::IncPair(Pair::Sp)),  // INC SP
        0x34 => Some(Instr::Inc(Loc8::AtHl)),  // INC (HL)
        0x35 => Some(Instr::Dec(Loc8::AtHl)),  // DEC (HL)
        0x36 => Some(Instr::LoadImm(Loc8::AtHl)),  // LD (HL),d8
        0x37 => None,
        0x38 => Some(Instr::Jr(Cond::Carry)),  // JR C,e8
        0x39 => Some(Instr::AddHl(Pair::Sp)),  // ADD HL,SP
        0x3a => Some(Instr::LoadA(Addr::HlDec)),  // LD A,(HL-)
        0x3b => Some(Instr::DecPair(Pair::Sp)),  // DEC SP
        0x3c => Some(Instr::Inc(Loc8::A)),  // INC A
        0x3d => Some(Instr::Dec(Loc8::A)),  // DEC A
        0x3e => Some(Instr::LoadImm(Loc8::A)),  // LD A,d8
        0x3f => None,
        0x40 => Some(Instr::Load(Loc8::B, Loc8::B)),  // LD B,B
        0x41 => Some(Instr::Load(Loc8::B, Loc8::C)),  // LD B,C
        0x42 => Some(Instr::Load(Loc8::B, Loc8::D)),  // LD B,D
        0x43 => Some(Instr::Load(Loc8::B, Loc8::E)),  // LD B,E
        0x44 => Some(Instr::Load(Loc8::B, Loc8::H)),  // LD B,H
        0x45 => Some(Instr::Load(Loc8::B, Loc8::L)),  // LD B,L
        0x46 => Some(Instr::Load(Loc8::B, Loc8::AtHl)),  // LD B,(HL)
        0x47 => Some(Instr::Load(Loc8::B, Loc8::A)),  // LD B,A
        0x48 => Some(Instr::Load(Loc8::C, Loc8::B)),  // LD C,B
        0x49 => Some(Instr::Load(Loc8::C, Loc8::C)),  // LD C,C
        0x4a => Some(Instr::Load(Loc8::C, Loc8::D)),  // LD C,D
        0x4b => Some(Instr::Load(Loc8::C, Loc8::E)),  // LD C,E
        0x4c => Some(Instr::Load(Loc8::C, Loc8::H)),  // LD C,H
        0x4d => Some(Instr::Load(Loc8::C, Loc8::L)),  // LD C,L
        0x4e => Some(Instr::Load(Loc8::C, Loc8::AtHl)),  // LD C,(HL)
        0x4f => Some(Instr::Load(Loc8::C, Loc8::A)),  // LD C,A
        0x50 => Some(Instr::Load(Loc8::D, Loc8::B)),  // LD D,B
        0x51 => Some(Instr::Load(Loc8::D, Loc8::C)),  // LD D,C
        0x52 => Some(Instr::Load(Loc8::D, Loc8::D)),  // LD D,D
        0x53 => Some(Instr::Load(Loc8::D, Loc8::E)),  // LD D,E
        0x54 => Some(Instr::Load(Loc8::D, Loc8::H)),  // LD D,H
        0x55 => Some(Instr::Load(Loc8::D, Loc8::L)),  // LD D,L
        0x56 => Some(Instr::Load(Loc8::D, Loc8::AtHl)),  // LD D,(HL)
        0x57 => Some(Instr::Load(Loc8::D, Loc8::A)),  // LD D,A
        0x58 => Some(Instr::Load(Loc8::E, Loc8::B)),  // LD E,B
        0x59 => Some(Instr::Load(Loc8::E, Loc8::C)),  // LD E,C
        0x5a => Some(Instr::Load(Loc8::E, Loc8::D)),  // LD E,D
        0x5b => Some(Instr::Load(Loc8::E, Loc8::E)),  // LD E,E
        0x5c => Some(Instr::Load(Loc8::E, Loc8::H)),  // LD E,H
        0x5d => Some(Instr::Load(Loc8::E, Loc8::L)),  // LD E,L
        0x5e => Some(Instr::Load(Loc8::E, Loc8::AtHl)),  // LD E,(HL)
        0x5f => Some(Instr::Load(Loc8::E, Loc8::A)),  // LD E,A
        0x60 => Some(Instr::Load(Loc8::H, Loc8::B)),  // LD H,B
        0x61 => Some(Instr::Load(Loc8::H, Loc8::C)),  // LD H,C
        0x62 => Some(Instr::Load(Loc8::H, Loc8::D)),  // LD H,D
        0x63 => Some(Instr::Load(Loc8::H, Loc8::E)),  // LD H,E
        0x64 => Some(Instr::Load(Loc8::H, Loc8::H)),  // LD H,H
        0x65 => Some(Instr::Load(Loc8::H, Loc8::L)),  // LD H,L
        0x66 => Some(Instr::Load(Loc8::H, Loc8::AtHl)),  // LD H,(HL)
        0x67 => Some(Instr::Load(Loc8::H, Loc8::A)),  // LD H,A
        0x68 => Some(Instr::Load(Loc8::L, Loc8::B)),  // LD L,B
        0x69 => Some(Instr::Load(Loc8::L, Loc8::C)),  // LD L,C
        0x6a => Some(Instr::Load(Loc8::L, Loc8::D)),  // LD L,D
        0x6b => Some(Instr::Load(Loc8::L, Loc8::E)),  // LD L,E
        0x6c => Some(Instr::Load(Loc8::L, Loc8::H)),  // LD L,H
        0x6d => Some(Instr::Load(Loc8::L, Loc8::L)),  // LD L,L
        0x6e => Some(Instr::Load(Loc8::L, Loc8::AtHl)),  // LD L,(HL)
        0x6f => Some(Instr::Load(Loc8::L, Loc8::A)),  // LD L,A
        0x70 => Some(Instr::Load(Loc8::AtHl, Loc8::B)),  // LD (HL),B
        0x71 => Some(Instr::Load(Loc8::AtHl, Loc8::C)),  // LD (HL),C
        0x72 => Some(Instr::Load(Loc8::AtHl, Loc8::D)),  // LD (HL),D
        0x73 => Some(Instr::Load(Loc8::AtHl, Loc8::E)),  // LD (HL),E
        0x74 => Some(Instr::Load(Loc8::AtHl, Loc8::H)),  // LD (HL),H
        0x75 => Some(Instr::Load(Loc8::AtHl, Loc8::L)),  // LD (HL),L
        0x76 => None,
        0x77 => Some(Instr::Load(Loc8::AtHl, Loc8::A)),  // LD (HL),A
        0x78 => Some(Instr::Load(Loc8::A, Loc8::B)),  // LD A,B
        0x79 => Some(Instr::Load(Loc8::A, Loc8::C)),  // LD A,C
        0x7a => Some(Instr::Load(Loc8::A, Loc8::D)),  // LD A,D
        0x7b => Some(Instr::Load(Loc8::A, Loc8::E)),  // LD A,E
        0x7c => Some(Instr::Load(Loc8::A, Loc8::H)),  // LD A,H
        0x7d => Some(Instr::Load(Loc8::A, Loc8::L)),  // LD A,L
        0x7e => Some(Instr::Load(Loc8::A, Loc8::AtHl)),  // LD A,(HL)
        0x7f => Some(Instr::Load(Loc8::A, Loc8::A)),  // LD A,A
        0x80 => Some(Instr::Alu(AluOp::Add, Loc8::B)),  // ADD A,B
        0x81 => Some(Instr::Alu(AluOp::Add, Loc8::C)),  // ADD A,C
        0x82 => Some(Instr::Alu(AluOp::Add, Loc8::D)),  // ADD A,D
        0x83 => Some(Instr::Alu(AluOp::Add, Loc8::E)),  // ADD A,E
        0x84 => Some(Instr::Alu(AluOp::Add, Loc8::H)),  // ADD A,H
        0x85 => Some(Instr::Alu(AluOp::Add, Loc8::L)),  // ADD A,L
        0x86 => Some(Instr::Alu(AluOp::Add, Loc8::AtHl)),  // ADD A,(HL)
        0x87 => Some(Instr::Alu(AluOp::Add, Loc8::A)),  // ADD A,A
        0x88 => Some(Instr::Alu(AluOp::Adc, Loc8::B)),  // ADC A,B
        0x89 => Some(Instr::Alu(AluOp::Adc, Loc8::C)),  // ADC A,C
        0x8a => Some(Instr::Alu(AluOp::Adc, Loc8::D)),  // ADC A,D
        0x8b => Some(Instr::Alu(AluOp::Adc, Loc8::E)),  // ADC A,E
        0x8c => Some(Instr::Alu(AluOp::Adc, Loc8::H)),  // ADC A,H
        0x8d => Some(Instr::Alu(AluOp::Adc, Loc8::L)),  // ADC A,L
        0x8e => Some(Instr::Alu(AluOp::Adc, Loc8::AtHl)),  // ADC A,(HL)
        0x8f => Some(Instr::Alu(AluOp::Adc, Loc8::A)),  // ADC A,A
        0x90 => Some(Instr::Alu(AluOp::Sub, Loc8::B)),  // SUB B
        0x91 => Some(Instr::Alu(AluOp::Sub, Loc8::C)),  // SUB C
        0x92 => Some(Instr::Alu(AluOp::Sub, Loc8::D)),  // SUB D
        0x93 => Some(Instr::Alu(AluOp::Sub, Loc8::E)),  // SUB E
        0x94 => Some(Instr::Alu(AluOp::Sub, Loc8::H)),  // SUB H
        0x95 => Some(Instr::Alu(AluOp::Sub, Loc8::L)),  // SUB L
        0x96 => Some(Instr::Alu(AluOp::Sub, Loc8::AtHl)),  // SUB (HL)
        0x97 => Some(Instr::Alu(AluOp::Sub, Loc8::A)),  // SUB A
        0x98 => None,
        0x99 => None,
        0x9a => None,
        0x9b => None,
        0x9c => None,
        0x9d => None,
        0x9e => None,
        0x9f => None,
        0xa0 => Some(Instr::Alu(AluOp::And, Loc8::B)),  // AND B
        0xa1 => Some(Instr::Alu(AluOp::And, Loc8::C)),  // AND C
        0xa2 => Some(Instr::Alu(AluOp::And, Loc8::D)),  // AND D
        0xa3 => Some(Instr::Alu(AluOp::And, Loc8::E)),  // AND E
        0xa4 => Some(Instr::Alu(AluOp::And, Loc8::H)),  // AND H
        0xa5 => Some(Instr::Alu(AluOp::And, Loc8::L)),  // AND L
        0xa6 => Some(Instr::Alu(AluOp::And, Loc8::AtHl)),  // AND (HL)
        0xa7 => Some(Instr::Alu(AluOp::And, Loc8::A)),  // AND A
        0xa8 => Some(Instr::Alu(AluOp::Xor, Loc8::B)),  // XOR B
        0xa9 => Some(Instr::Alu(AluOp::Xor, Loc8::C)),  // XOR C
        0xaa => Some(Instr::Alu(AluOp::Xor, Loc8::D)),  // XOR D
        0xab => Some(Instr::Alu(AluOp::Xor, Loc8::E)),  // XOR E
        0xac => Some(Instr::Alu(AluOp::Xor, Loc8::H)),  // XOR H
        0xad => Some(Instr::Alu(AluOp::Xor, Loc8::L)),  // XOR L
        0xae => Some(Instr::Alu(AluOp::Xor, Loc8::AtHl)),  // XOR (HL)
        0xaf => Some(Instr::Alu(AluOp::Xor, Loc8::A)),  // XOR A
        0xb0 => Some(Instr::Alu(AluOp::Or, Loc8::B)),  // OR B
        0xb1 => Some(Instr::Alu(AluOp::Or, Loc8::C)),  // OR C
        0xb2 => Some(Instr::Alu(AluOp::Or, Loc8::D)),  // OR D
        0xb3 => Some(Instr::Alu(AluOp::Or, Loc8::E)),  // OR E
        0xb4 => Some(Instr::Alu(AluOp::Or, Loc8::H)),  // OR H
        0xb5 => Some(Instr::Alu(AluOp::Or, Loc8::L)),  // OR L
        0xb6 => Some(Instr::Alu(AluOp::Or, Loc8::AtHl)),  // OR (HL)
        0xb7 => Some(Instr::Alu(AluOp::Or, Loc8::A)),  // OR A
        0xb8 => Some(Instr::Alu(AluOp::Cp, Loc8::B)),  // CP B
        0xb9 => Some(Instr::Alu(AluOp::Cp, Loc8::C)),  // CP C
        0xba => Some(Instr::Alu(AluOp::Cp, Loc8::D)),  // CP D
        0xbb => Some(Instr::Alu(AluOp::Cp, Loc8::E)),  // CP E
        0xbc => Some(Instr::Alu(AluOp::Cp, Loc8::H)),  // CP H
        0xbd => Some(Instr::Alu(AluOp::Cp, Loc8::L)),  // CP L
        0xbe => Some(Instr::Alu(AluOp::Cp, Loc8::AtHl)),  // CP (HL)
        0xbf => Some(Instr::Alu(AluOp::Cp, Loc8::A)),  // CP A
        0xc0 => Some(Instr::Ret(Cond::NotZero)),  // RET NZ
        0xc1 => Some(Instr::Pop(StackPair::Bc)),  // POP BC
        0xc2 => Some(Instr::Jp(Cond::NotZero)),  // JP NZ,a16
        0xc3 => Some(Instr::Jp(Cond::Always)),  // JP a16
        0xc4 => Some(Instr::Call(Cond::NotZero)),  // CALL NZ,a16
        0xc5 => Some(Instr::Push(StackPair::Bc)),  // PUSH BC
        0xc6 => Some(Instr::AluImm(AluOp::Add)),  // ADD A,d8
        0xc7 => Some(Instr::Rst(0x00)),  // RST 00H
        0xc8 => Some(Instr::Ret(Cond::Zero)),  // RET Z
        0xc9 => Some(Instr::Ret(Cond::Always)),  // RET
        0xca => Some(Instr::Jp(Cond::Zero)),  // JP Z,a16
        0xcb => None,
        0xcc => Some(Instr::Call(Cond::Zero)),  // CALL Z,a16
        0xcd => Some(Instr::Call(Cond::Always)),  // CALL a16
        0xce => Some(Instr::AluImm(AluOp::Adc)),  // ADC A,d8
        0xcf => Some(Instr::Rst(0x08)),  // RST 08H
        0xd0 => Some(Instr::Ret(Cond::NotCarry)),  // RET NC
        0xd1 => Some(Instr::Pop(StackPair::De)),  // POP DE
        0xd2 => Some(Instr::Jp(Cond::NotCarry)),  // JP NC,a16
        0xd3 => None,
        0xd4 => Some(Instr::Call(Cond::NotCarry)),  // CALL NC,a16
        0xd5 => Some(Instr::Push(StackPair::De)),  // PUSH DE
        0xd6 => Some(Instr::AluImm(AluOp::Sub)),  // SUB d8
        0xd7 => Some(Instr::Rst(0x10)),  // RST 10H
        0xd8 => Some(Instr::Ret(Cond::Carry)),  // RET C
        0xd9 => None,
        0xda => Some(Instr::Jp(Cond::Carry)),  // JP C,a16
        0xdb => Some(Instr::Undefined),  // undefined
        0xdc => Some(Instr::Call(Cond::Carry)),  // CALL C,a16
        0xdd => Some(Instr::Undefined),  // undefined
        0xde => None,
        0xdf => Some(Instr::Rst(0x18)),  // RST 18H
        0xe0 => Some(Instr::StoreA(Addr::HighImm)),  // LDH (a8),A
        0xe1 => Some(Instr::Pop(StackPair::Hl)),  // POP HL
        0xe2 => Some(Instr::StoreA(Addr::HighC)),  // LD (C),A
        0xe3 => Some(Instr::Undefined),  // undefined
        0xe4 => Some(Instr::Undefined),  // undefined
        0xe5 => Some(Instr::Push(StackPair::Hl)),  // PUSH HL
        0xe6 => Some(Instr::AluImm(AluOp::And)),  // AND d8
        0xe7 => Some(Instr::Rst(0x20)),  // RST 20H
        0xe8 => Some(Instr::AddSpOffset),  // ADD SP,e8
        0xe9 => Some(Instr::JpHl),  // JP (HL)
        0xea => Some(Instr::StoreA(Addr::Imm16)),  // LD (a16),A
        0xeb => Some(Instr::Undefined),  // undefined
        0xec => Some(Instr::Undefined),  // undefined
        0xed => Some(Instr::Undefined),  // undefined
        0xee => Some(Instr::AluImm(AluOp::Xor)),  // XOR d8
        0xef => Some(Instr::Rst(0x28)),  // RST 28H
        0xf0 => Some(Instr::LoadA(Addr::HighImm)),  // LDH A,(a8)
        0xf1 => Some(Instr::Pop(StackPair::Af)),  // POP AF
        0xf2 => Some(Instr::LoadA(Addr::HighC)),  // LD A,(C)
        0xf3 => Some(Instr::Di),  // DI
        0xf4 => Some(Instr::Undefined),  // undefined
        0xf5 => Some(Instr::Push(StackPair::Af)),  // PUSH AF
        0xf6 => Some(Instr::AluImm(AluOp::Or)),  // OR d8
        0xf7 => Some(Instr::Rst(0x30)),  // RST 30H
        0xf8 => Some(Instr::LoadHlSpOffset),  // LDHL SP,e8
        0xf9 => Some(Instr::LoadSpHl),  // LD SP,HL
        0xfa => Some(Instr::LoadA(Addr::Imm16)),  // LD A,(a16)
        0xfb => Some(Instr::Ei),  // EI
        0xfc => Some(Instr::Undefined),  // undefined
        0xfd => Some(Instr::Undefined),  // undefined
        0xfe => Some(Instr::AluImm(AluOp::Cp)),  // CP d8
        0xff => Some(Instr::Rst(0x38)),  // RST 38H
    }
}

/// The 8-bit location numbered `i` in the encoding.
pub fn loc_from_index(i: u8) -> (r: Loc8)
    requires
        i < 8,
    ensures
        r == loc_of(i as int),
{
    match i {
        0 => Loc8::B,
        1 => Loc8::C,
        2 => Loc8::D,
        3 => Loc8::E,
        4 => Loc8::H,
        5 => Loc8::L,
        6 => Loc8::AtHl,
        _ => Loc8::A,
    }
}

/// Decode an opcode of the prefixed table (the byte after `0xCB`).
pub fn decode_cb(op: u8) -> (r: Option<Instr>)
    ensures
        r == decode_cb_spec(op),
{
    if 0x38 <= op && op < 0x40 {
        Some(Instr::Srl(loc_from_index(op % 8)))
    } else {
        None
    }
}

} // verus!
