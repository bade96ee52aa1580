use vstd::prelude::*;
use crate::{combine, wrap16, lemma_wrap16, lemma_combine_split};
use crate::alu::sign_extend;
use crate::instr::{Addr, AluOp, Cond, Instr, Loc8, StackPair, decode_spec};
use crate::state::{CpuState, Flag, lemma_with_flag, execute_spec, step_spec};

verus! {

/// Pushing a 16-bit value and popping gives the value back, and the pop brings SP
/// back to where it was before the push. SP wraps at both ends of memory, so this
/// holds for every starting SP.
pub proof fn lemma_push_pop_round_trip(s: CpuState, v: u16)
    requires
        s.mem.len() == 0x10000,
    ensures
        s.push16(v).top16() == v,
        s.push16(v).pop16().sp == s.sp,
        s.push16(v).sp == wrap16(s.sp - 2),
{
    let t = s.push16(v);
    lemma_wrap16(s.sp - 2, 1);
    lemma_wrap16(s.sp - 2, 2);
    lemma_wrap16(s.sp as int, 0);
    lemma_wrap16(s.sp - 1, 0);
    lemma_combine_split(v, 0, 0);
    assert(wrap16(s.sp - 1) != wrap16(s.sp as int));
}

/// What `push_bytes` does, by induction on the length: SP ends `len` lower, the
/// window of `len` addresses ending at the old SP holds the data in order, and
/// every address above the old SP, up to the window, is untouched.
proof fn lemma_push_bytes_shape(s: CpuState, data: Seq<u8>)
    requires
        s.mem.len() == 0x10000,
        data.len() <= 0x10000,
    ensures
        s.push_bytes(data).mem.len() == 0x10000,
        s.push_bytes(data).sp == wrap16(s.sp - data.len()),
        forall|i: int|
            0 <= i < data.len() ==> #[trigger] s.push_bytes(data).read(s.sp - data.len() + 1 + i)
                == data[i],
        forall|k: int|
            0 <= k < 0x10000 - data.len() ==> #[trigger] s.push_bytes(data).read(s.sp + 1 + k)
                == s.read(s.sp + 1 + k),
    decreases data.len(),
{
    let n = data.len() as int;
    if n > 0 {
        let last = data.last();
        let rest = data.drop_last();
        let u = s.push_byte(last);
        let t = u.push_bytes(rest);
        assert(s.push_bytes(data) == t);
        lemma_push_bytes_shape(u, rest);
        lemma_wrap16(s.sp - 1, 0);
        lemma_wrap16(s.sp as int, 0);
        lemma_wrap16(s.sp - 1, 1 - n + 1);
        assert(t.sp == wrap16(s.sp - n));
        assert forall|i: int| 0 <= i < n implies #[trigger] t.read(s.sp - n + 1 + i) == data[i] by {
            lemma_wrap16(s.sp - n + 1 + i, 0);
            lemma_wrap16(s.sp - 1, -n + 2 + i);
            if i < n - 1 {
                assert(t.read(u.sp - (n - 1) + 1 + i) == rest[i]);
                assert(wrap16(u.sp - (n - 1) + 1 + i) == wrap16(s.sp - n + 1 + i));
            } else {
                assert(t.read(u.sp + 1 + 0) == u.read(u.sp + 1 + 0));
                lemma_wrap16(s.sp - 1, 1);
                assert(wrap16(u.sp + 1) == s.sp);
                assert(wrap16(s.sp - n + 1 + i) == s.sp);
            }
        }
        assert forall|k: int| 0 <= k < 0x10000 - n implies #[trigger] t.read(s.sp + 1 + k) == s.read(
            s.sp + 1 + k,
        ) by {
            lemma_wrap16(s.sp - 1, 2 + k);
            lemma_wrap16(s.sp - 1, 1 + k + 1);
            assert(t.read(u.sp + 1 + (k + 1)) == u.read(u.sp + 1 + (k + 1)));
            assert(wrap16(u.sp + 1 + (k + 1)) == wrap16(s.sp + 1 + k));
            lemma_wrap16(s.sp + 1 + k, 0);
            assert(wrap16(s.sp + 1 + k) != s.sp);
        }
    }
}

/// Pushing any byte sequence that fits in memory and reading back the bytes
/// above the new SP gives the sequence in its order; popping them returns SP to
/// its value before the push.
pub proof fn lemma_push_pop_bytes(s: CpuState, data: Seq<u8>)
    requires
        s.mem.len() == 0x10000,
        data.len() <= 0x10000,
    ensures
        s.push_bytes(data).peek_bytes(data.len()) == data,
        s.push_bytes(data).with_sp(s.push_bytes(data).sp + data.len()).sp == s.sp,
{
    let t = s.push_bytes(data);
    let n = data.len() as int;
    lemma_push_bytes_shape(s, data);
    assert forall|i: int| 0 <= i < n implies #[trigger] t.peek_bytes(data.len())[i] == data[i] by {
        lemma_wrap16(s.sp - n, 1 + i);
        assert(t.read(s.sp - n + 1 + i) == data[i]);
    }
    assert(t.peek_bytes(data.len()) =~= data);
    lemma_wrap16(s.sp - n, n);
    lemma_wrap16(s.sp as int, 0);
}

/// Writing a register pair with the value made of two bytes and reading it back
/// gives that value, for each of AF, BC, DE and HL.
pub proof fn lemma_pair_round_trip(s: CpuState, hi: u8, lo: u8)
    ensures
        s.with_af(combine(hi, lo)).af() == combine(hi, lo),
        s.with_bc(combine(hi, lo)).bc() == combine(hi, lo),
        s.with_de(combine(hi, lo)).de() == combine(hi, lo),
        s.with_hl(combine(hi, lo)).hl() == combine(hi, lo),
        s.with_af(combine(hi, lo)).a == hi && s.with_af(combine(hi, lo)).status == lo,
{
    lemma_combine_split(0, hi, lo);
}

/// `INC` of a location holding 0xFF leaves 0x00 there and sets Zero and
/// Half-Carry and resets Subtract.
pub proof fn lemma_inc_wraps(s: CpuState, loc: Loc8)
    requires
        s.mem.len() == 0x10000,
        s.get8(loc) == 0xff,
    ensures
        execute_spec(s, Instr::Inc(loc)).get8(loc) == 0,
        execute_spec(s, Instr::Inc(loc)).flag(Flag::Zero),
        execute_spec(s, Instr::Inc(loc)).flag(Flag::HalfCarry),
        !execute_spec(s, Instr::Inc(loc)).flag(Flag::Sub),
{
    lemma_flags3(s.status, true, false, true);
}

/// `DEC` of a location holding 0x00 leaves 0xFF there, sets Half-Carry and
/// Subtract and resets Zero.
pub proof fn lemma_dec_wraps(s: CpuState, loc: Loc8)
    requires
        s.mem.len() == 0x10000,
        s.get8(loc) == 0,
    ensures
        execute_spec(s, Instr::Dec(loc)).get8(loc) == 0xff,
        !execute_spec(s, Instr::Dec(loc)).flag(Flag::Zero),
        execute_spec(s, Instr::Dec(loc)).flag(Flag::HalfCarry),
        execute_spec(s, Instr::Dec(loc)).flag(Flag::Sub),
{
    lemma_flags3(s.status, false, true, true);
}

/// Reading back Zero, Subtract and Half-Carry after setting them in that order.
proof fn lemma_flags3(f: u8, z: bool, n: bool, h: bool)
    ensures
        ({
            let g = crate::state::with_flag_in(
                crate::state::with_flag_in(crate::state::with_flag_in(f, Flag::Zero, z), Flag::Sub, n),
                Flag::HalfCarry,
                h,
            );
            crate::state::flag_in(g, Flag::Zero) == z && crate::state::flag_in(g, Flag::Sub) == n
                && crate::state::flag_in(g, Flag::HalfCarry) == h
        }),
{
    let f1 = crate::state::with_flag_in(f, Flag::Zero, z);
    let f2 = crate::state::with_flag_in(f1, Flag::Sub, n);
    lemma_with_flag(f, Flag::Zero, z, Flag::Zero);
    lemma_with_flag(f1, Flag::Sub, n, Flag::Zero);
    lemma_with_flag(f1, Flag::Sub, n, Flag::Sub);
    lemma_with_flag(f2, Flag::HalfCarry, h, Flag::Zero);
    lemma_with_flag(f2, Flag::HalfCarry, h, Flag::Sub);
    lemma_with_flag(f2, Flag::HalfCarry, h, Flag::HalfCarry);
}

/// After setting all four flags, each reads back as set.
pub proof fn lemma_with_flags(s: CpuState, z: bool, n: bool, h: bool, c: bool)
    ensures
        s.with_flags(z, n, h, c).flag(Flag::Zero) == z,
        s.with_flags(z, n, h, c).flag(Flag::Sub) == n,
        s.with_flags(z, n, h, c).flag(Flag::HalfCarry) == h,
        s.with_flags(z, n, h, c).flag(Flag::Carry) == c,
{
    let f = s.status;
    let f1 = crate::state::with_flag_in(f, Flag::Zero, z);
    let f2 = crate::state::with_flag_in(f1, Flag::Sub, n);
    let f3 = crate::state::with_flag_in(f2, Flag::HalfCarry, h);
    lemma_flags3(f, z, n, h);
    lemma_with_flag(f3, Flag::Carry, c, Flag::Zero);
    lemma_with_flag(f3, Flag::Carry, c, Flag::Sub);
    lemma_with_flag(f3, Flag::Carry, c, Flag::HalfCarry);
    lemma_with_flag(f3, Flag::Carry, c, Flag::Carry);
}

/// `AND`, `OR` and `XOR` reset Carry and Subtract whatever the flags were before;
/// Half-Carry ends set for `AND` and reset for the other two, and Zero tells
/// whether A ends zero.
pub proof fn lemma_logic_flags(s: CpuState, op: AluOp, n: u8)
    requires
        op == AluOp::And || op == AluOp::Or || op == AluOp::Xor,
    ensures
        !s.alu(op, n).flag(Flag::Carry),
        !s.alu(op, n).flag(Flag::Sub),
        s.alu(op, n).flag(Flag::HalfCarry) == (op == AluOp::And),
        s.alu(op, n).flag(Flag::Zero) == (s.alu(op, n).a == 0),
{
    match op {
        AluOp::And => lemma_with_flags(s.with_a(s.a & n), s.a & n == 0, false, true, false),
        AluOp::Or => lemma_with_flags(s.with_a(s.a | n), s.a | n == 0, false, false, false),
        _ => lemma_with_flags(s.with_a(s.a ^ n), s.a ^ n == 0, false, false, false),
    }
}

/// The number of bytes of a conditional jump, call or return encoding.
pub open spec fn branch_len(i: Instr) -> int {
    match i {
        Instr::Jp(_) => 3,
        Instr::Call(_) => 3,
        Instr::Jr(_) => 2,
        _ => 1,
    }
}

/// Whether `i` is a jump, relative jump, call or return on condition `cond`.
pub open spec fn is_branch_on(i: Instr, cond: Cond) -> bool {
    i == Instr::Jp(cond) || i == Instr::Jr(cond) || i == Instr::Call(cond) || i == Instr::Ret(cond)
}

/// A conditional jump, call or return whose condition does not hold only moves
/// PC past its whole encoding: SP, memory, registers and flags stay as they were.
pub proof fn lemma_branch_not_taken(s: CpuState, cond: Cond)
    requires
        s.mem.len() == 0x10000,
        decode_spec(s.imm8()) is Some,
        is_branch_on(decode_spec(s.imm8())->Some_0, cond),
        !s.cond_holds(cond),
    ensures
        step_spec(s) == Some(s.with_pc(s.pc + branch_len(decode_spec(s.imm8())->Some_0))),
{
    let t = s.advance(1);
    assert(t.cond_holds(cond) == s.cond_holds(cond));
    lemma_wrap16(s.pc + 1, 1);
    lemma_wrap16(s.pc + 1, 2);
    lemma_wrap16(s.pc + 1, 0);
}

/// A conditional jump, call or return whose condition holds does what its
/// unconditional form does: `JP` loads PC with the address that follows the
/// opcode (low byte first), `JR` adds the signed offset to the address of the
/// next instruction, `CALL` pushes that address and jumps, `RET` pops PC.
pub proof fn lemma_branch_taken(s: CpuState, cond: Cond)
    requires
        s.mem.len() == 0x10000,
        decode_spec(s.imm8()) is Some,
        is_branch_on(decode_spec(s.imm8())->Some_0, cond),
        s.cond_holds(cond),
    ensures
        decode_spec(s.imm8()) == Some(Instr::Jp(cond)) ==> step_spec(s) == Some(
            CpuState { pc: combine(s.read(s.pc + 2), s.read(s.pc + 1)), ..s },
        ),
        decode_spec(s.imm8()) == Some(Instr::Jr(cond)) ==> step_spec(s) == Some(
            s.with_pc(s.pc + 2 + sign_extend(s.read(s.pc + 1))),
        ),
        decode_spec(s.imm8()) == Some(Instr::Call(cond)) ==> step_spec(s) == Some(
            CpuState {
                pc: combine(s.read(s.pc + 2), s.read(s.pc + 1)),
                ..s.with_pc(s.pc + 3).push16(wrap16(s.pc + 3))
            },
        ),
        decode_spec(s.imm8()) == Some(Instr::Ret(cond)) ==> step_spec(s) == Some(
            CpuState { pc: s.top16(), ..s.with_pc(s.pc + 1).pop16() },
        ),
{
    let t = s.advance(1);
    assert(t.cond_holds(cond) == s.cond_holds(cond));
    lemma_wrap16(s.pc + 1, 1);
    lemma_wrap16(s.pc + 1, 2);
    lemma_wrap16(s.pc + 1, 0);
    lemma_wrap16(s.pc + 2, 0);
    lemma_wrap16(s.pc + 2, sign_extend(s.read(s.pc + 1)) as int);
}


/// Whether `i` transfers control (jump, call, return, restart).
pub open spec fn is_control_flow(i: Instr) -> bool {
    match i {
        Instr::Jp(_) | Instr::JpHl | Instr::Jr(_) | Instr::Call(_) | Instr::Ret(_) | Instr::Rst(_) => true,
        _ => false,
    }
}

/// The number of operand bytes that follow the opcode of `i`.
pub open spec fn operand_len(i: Instr) -> int {
    match i {
        Instr::LoadImm(_) | Instr::AluImm(_) | Instr::LoadHlSpOffset | Instr::AddSpOffset => 1,
        Instr::LoadA(a) | Instr::StoreA(a) => match a {
            Addr::Imm16 => 2,
            Addr::HighImm => 1,
            _ => 0,
        },
        Instr::LoadPairImm(_) | Instr::StoreSp => 2,
        Instr::Jp(_) | Instr::Call(_) => 2,
        Instr::Jr(_) => 1,
        _ => 0,
    }
}

/// Whether `i` leaves the flag byte alone: loads, stores, stack moves other than
/// `POP AF`, 16-bit increments and decrements, jumps, calls and returns.
pub open spec fn keeps_flags(i: Instr) -> bool {
    match i {
        Instr::Nop | Instr::Di | Instr::Ei | Instr::Undefined | Instr::Load(_, _) | Instr::LoadImm(
            _,
        ) | Instr::LoadA(_) | Instr::StoreA(_) | Instr::LoadPairImm(_) | Instr::LoadSpHl
        | Instr::StoreSp | Instr::Push(_) | Instr::IncPair(_) | Instr::DecPair(_) => true,
        Instr::Pop(p) => p != StackPair::Af,
        _ => is_control_flow(i),
    }
}

/// Every instruction that does not transfer control moves PC past exactly its
/// operand bytes (PC being already past the opcode).
pub proof fn lemma_pc_advances(s: CpuState, i: Instr)
    requires
        !is_control_flow(i),
    ensures
        execute_spec(s, i).pc == wrap16(s.pc + operand_len(i)),
{
    lemma_wrap16(s.pc as int, 0);
}

/// The instructions that document no flag effect leave every bit of the flag
/// byte as it was.
pub proof fn lemma_flags_kept(s: CpuState, i: Instr)
    requires
        keeps_flags(i),
    ensures
        execute_spec(s, i).status == s.status,
{
}

} // verus!
