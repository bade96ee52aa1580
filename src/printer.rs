use vstd::prelude::*;
use vstd::string::StringExecFns;
use crate::cpu::Cpu;
use crate::instr::{Addr, AluOp, Cond, Instr, Loc8, Pair, StackPair, decode, decode_cb, decode_spec, decode_cb_spec};
use crate::state::CpuState;
use crate::utils::{bin8, hex2, hex4, push_bin8, push_hex2, push_hex4};

verus! {

pub open spec fn loc_name(l: Loc8) -> Seq<char> {
    match l {
        Loc8::B => "B"@,
        Loc8::C => "C"@,
        Loc8::D => "D"@,
        Loc8::E => "E"@,
        Loc8::H => "H"@,
        Loc8::L => "L"@,
        Loc8::AtHl => "(HL)"@,
        Loc8::A => "A"@,
    }
}

pub open spec fn pair_name(p: Pair) -> Seq<char> {
    match p {
        Pair::Bc => "BC"@,
        Pair::De => "DE"@,
        Pair::Hl => "HL"@,
        Pair::Sp => "SP"@,
    }
}

pub open spec fn stack_pair_name(p: StackPair) -> Seq<char> {
    match p {
        StackPair::Bc => "BC"@,
        StackPair::De => "DE"@,
        StackPair::Hl => "HL"@,
        StackPair::Af => "AF"@,
    }
}

/// The condition with the comma that follows it; empty for an unconditional form.
pub open spec fn cond_prefix(c: Cond) -> Seq<char> {
    match c {
        Cond::Always => ""@,
        Cond::NotZero => "NZ,"@,
        Cond::Zero => "Z,"@,
        Cond::NotCarry => "NC,"@,
        Cond::Carry => "C,"@,
    }
}

pub open spec fn alu_name(op: AluOp) -> Seq<char> {
    match op {
        AluOp::Add => "ADD"@,
        AluOp::Adc => "ADC"@,
        AluOp::Sub => "SUB"@,
        AluOp::And => "AND"@,
        AluOp::Xor => "XOR"@,
        AluOp::Or => "OR"@,
        AluOp::Cp => "CP"@,
    }
}

/// `d_xx`: a one-byte immediate.
pub open spec fn imm8_text(b: u8) -> Seq<char> {
    "d_"@ + hex2(b, false)
}

/// `d_xxxx`: a two-byte immediate.
pub open spec fn imm16_text(n: u16) -> Seq<char> {
    "d_"@ + hex4(n, false)
}

/// `a_xxxx`: an absolute address.
pub open spec fn addr16_text(n: u16) -> Seq<char> {
    "a_"@ + hex4(n, false)
}

/// `r_xx`: a relative offset, as its byte.
pub open spec fn rel_text(b: u8) -> Seq<char> {
    "r_"@ + hex2(b, false)
}

/// `s_xx`: a signed offset, as its byte.
pub open spec fn sig_text(b: u8) -> Seq<char> {
    "s_"@ + hex2(b, false)
}

/// The memory operand of `LD A,(..)` / `LD (..),A` as written in the listing.
pub open spec fn addr_text(s: CpuState, a: Addr) -> Seq<char> {
    match a {
        Addr::Bc => "(BC)"@,
        Addr::De => "(DE)"@,
        Addr::HlInc => "(HL)"@,
        Addr::HlDec => "(HL)"@,
        Addr::Imm16 => "("@ + addr16_text(s.imm16()) + ")"@,
        Addr::HighImm => "("@ + "a_"@ + hex2(s.imm8(), false) + ")"@,
        Addr::HighC => "(C)"@,
    }
}

/// The mnemonic of an `LD A,(..)` / `LD (..),A` by its addressing.
pub open spec fn load_name(a: Addr) -> Seq<char> {
    match a {
        Addr::HlInc => "LDI\t"@,
        Addr::HlDec => "LDD\t"@,
        Addr::HighImm => "LDH\t"@,
        _ => "LD\t"@,
    }
}

/// Whether `i` is a no-op, a load, a store, a push or a pop.
pub open spec fn moves_data(i: Instr) -> bool {
    match i {
        Instr::Nop | Instr::Di | Instr::Ei | Instr::Undefined | Instr::Load(_, _) | Instr::LoadImm(
            _,
        ) | Instr::LoadA(_) | Instr::StoreA(_) | Instr::LoadPairImm(_) | Instr::LoadSpHl
        | Instr::LoadHlSpOffset | Instr::StoreSp | Instr::Push(_) | Instr::Pop(_) => true,
        _ => false,
    }
}

/// The listing text of `i`, whose operand bytes start at `s.pc`.
pub open spec fn instr_text(s: CpuState, i: Instr) -> Seq<char> {
    match i {
        Instr::Nop => "NOP"@,
        Instr::Di => "DI"@,
        Instr::Ei => "EI"@,
        Instr::Undefined => "UNDEFINED"@,
        Instr::Load(d, src) => "LD\t"@ + loc_name(d) + ","@ + loc_name(src),
        Instr::LoadImm(d) => "LD\t"@ + loc_name(d) + ","@ + imm8_text(s.imm8()),
        Instr::LoadA(a) => load_name(a) + "A,"@ + addr_text(s, a),
        Instr::StoreA(a) => load_name(a) + addr_text(s, a) + ",A"@,
        Instr::LoadPairImm(p) => "LD\t"@ + pair_name(p) + ","@ + imm16_text(s.imm16()),
        Instr::LoadSpHl => "LD\tSP,HL"@,
        Instr::LoadHlSpOffset => "LDHL\tSP,"@ + sig_text(s.imm8()),
        Instr::StoreSp => "LD\t("@ + addr16_text(s.imm16()) + "),SP"@,
        Instr::Push(p) => "PUSH\t"@ + stack_pair_name(p),
        Instr::Pop(p) => "POP\t"@ + stack_pair_name(p),
        Instr::Inc(l) => "INC\t"@ + loc_name(l),
        Instr::Dec(l) => "DEC\t"@ + loc_name(l),
        Instr::IncPair(p) => "INC\t"@ + pair_name(p),
        Instr::DecPair(p) => "DEC\t"@ + pair_name(p),
        Instr::Alu(op, l) => alu_name(op) + "\tA,"@ + loc_name(l),
        Instr::AluImm(op) => alu_name(op) + "\tA,"@ + imm8_text(s.imm8()),
        Instr::AddHl(p) => "ADD\tHL,"@ + pair_name(p),
        Instr::AddSpOffset => "ADD\tSP,"@ + sig_text(s.imm8()),
        Instr::Rlca => "RLCA"@,
        Instr::Rrca => "RRCA"@,
        Instr::Jp(c) => "JP\t"@ + cond_prefix(c) + addr16_text(s.imm16()),
        Instr::JpHl => "JP\tHL"@,
        Instr::Jr(c) => "JR\t"@ + cond_prefix(c) + rel_text(s.imm8()),
        Instr::Call(c) => "CALL\t"@ + cond_prefix(c) + addr16_text(s.imm16()),
        Instr::Ret(c) => match c {
            Cond::Always => "RET"@,
            _ => "RET\t"@ + cond_prefix(c).drop_last(),
        },
        Instr::Rst(n) => "RST\t0x"@ + hex2(n, false),
        Instr::Srl(l) => "SRL\t"@ + loc_name(l),
    }
}

/// The listing line of the instruction at `addr`: the opcode byte in parentheses,
/// then the instruction, or `UNKNOWN` when no table has the opcode.
pub open spec fn listing(s: CpuState, addr: u16) -> Seq<char> {
    let op = s.read(addr as int);
    let head = "("@ + hex2(op, false) + ") "@;
    if op == 0xcb {
        match decode_cb_spec(s.read(addr + 1)) {
            Some(i) => head + instr_text(s.with_pc(addr + 2), i),
            None => head + "UNKNOWN"@,
        }
    } else {
        match decode_spec(op) {
            Some(i) => head + instr_text(s.with_pc(addr + 1), i),
            None => head + "UNKNOWN"@,
        }
    }
}

/// The text `Cpu::describe` gives for a state.
pub open spec fn describe_spec(s: CpuState) -> Seq<char> {
    "[a: "@ + hex2(s.a, false) + ", b: "@ + hex2(s.b, false) + ", c: "@ + hex2(s.c, false)
        + ", d: "@ + hex2(s.d, false) + ", e: "@ + hex2(s.e, false) + ", h: "@ + hex2(s.h, false)
        + ", l: "@ + hex2(s.l, false) + ", status: "@ + bin8(s.status) + ", sp: "@ + hex4(
        s.sp,
        false,
    ) + ", pc: "@ + hex4(s.pc, false) + "]"@
}

fn loc_str(l: Loc8) -> (r: &'static str)
    ensures
        r@ == loc_name(l),
{
    match l {
        Loc8::B => "B",
        Loc8::C => "C",
        Loc8::D => "D",
        Loc8::E => "E",
        Loc8::H => "H",
        Loc8::L => "L",
        Loc8::AtHl => "(HL)",
        Loc8::A => "A",
    }
}

fn pair_str(p: Pair) -> (r: &'static str)
    ensures
        r@ == pair_name(p),
{
    match p {
        Pair::Bc => "BC",
        Pair::De => "DE",
        Pair::Hl => "HL",
        Pair::Sp => "SP",
    }
}

fn stack_pair_str(p: StackPair) -> (r: &'static str)
    ensures
        r@ == stack_pair_name(p),
{
    match p {
        StackPair::Bc => "BC",
        StackPair::De => "DE",
        StackPair::Hl => "HL",
        StackPair::Af => "AF",
    }
}

fn cond_str(c: Cond) -> (r: &'static str)
    ensures
        r@ == cond_prefix(c),
{
    match c {
        Cond::Always => "",
        Cond::NotZero => "NZ,",
        Cond::Zero => "Z,",
        Cond::NotCarry => "NC,",
        Cond::Carry => "C,",
    }
}

fn alu_str(op: AluOp) -> (r: &'static str)
    ensures
        r@ == alu_name(op),
{
    match op {
        AluOp::Add => "ADD",
        AluOp::Adc => "ADC",
        AluOp::Sub => "SUB",
        AluOp::And => "AND",
        AluOp::Xor => "XOR",
        AluOp::Or => "OR",
        AluOp::Cp => "CP",
    }
}

fn load_str(a: Addr) -> (r: &'static str)
    ensures
        r@ == load_name(a),
{
    match a {
        Addr::HlInc => "LDI\t",
        Addr::HlDec => "LDD\t",
        Addr::HighImm => "LDH\t",
        _ => "LD\t",
    }
}

/// `prefix` followed by the two hex digits of `b`.
fn with_hex2(prefix: &str, b: u8) -> (r: String)
    ensures
        r@ == prefix@ + hex2(b, false),
{
    let mut out = String::from_str(prefix);
    push_hex2(&mut out, b, false);
    out
}

/// `prefix` followed by the four hex digits of `n`.
fn with_hex4(prefix: &str, n: u16) -> (r: String)
    ensures
        r@ == prefix@ + hex4(n, false),
{
    let mut out = String::from_str(prefix);
    push_hex4(&mut out, n, false);
    out
}

/// Formats instructions of a processor's memory for tracing; it only reads.
pub struct Printer<'a> {
    pub cpu: &'a Cpu,
}

impl<'a> Printer<'a> {
    pub fn new(cpu: &'a Cpu) -> (r: Printer<'a>)
        ensures
            r.cpu == cpu,
    {
        Printer { cpu }
    }

    /// The byte following `addr`.
    fn peek_byte(&self, addr: u16) -> (r: u8)
        ensures
            r == self.cpu@.read(addr + 1),
    {
        proof {
            crate::lemma_wrap16(addr + 1, 0);
        }
        self.cpu.read(crate::alu::inc16(addr))
    }

    /// The one-byte operand of an instruction whose operands start at `at`.
    fn operand8(&self, at: u16) -> (r: u8)
        ensures
            r == self.cpu@.with_pc(at as int).imm8(),
    {
        proof {
            crate::lemma_wrap16(at as int, 0);
        }
        self.cpu.read(at)
    }

    /// The two-byte operand, low byte first, of an instruction whose operands start
    /// at `at`.
    fn operand16(&self, at: u16) -> (r: u16)
        ensures
            r == self.cpu@.with_pc(at as int).imm16(),
    {
        proof {
            crate::lemma_wrap16(at as int, 0);
            crate::lemma_wrap16(at + 1, 0);
        }
        let lo = self.cpu.read(at);
        let hi = self.cpu.read(crate::alu::inc16(at));
        crate::u8_to_u16(hi, lo)
    }

    fn print_8_imm(&self, at: u16) -> (r: String)
        ensures
            r@ == imm8_text(self.cpu@.with_pc(at as int).imm8()),
    {
        with_hex2("d_", self.operand8(at))
    }

    fn print_8_rel(&self, at: u16) -> (r: String)
        ensures
            r@ == rel_text(self.cpu@.with_pc(at as int).imm8()),
    {
        with_hex2("r_", self.operand8(at))
    }

    fn print_8_sig(&self, at: u16) -> (r: String)
        ensures
            r@ == sig_text(self.cpu@.with_pc(at as int).imm8()),
    {
        with_hex2("s_", self.operand8(at))
    }

    fn print_16_imm(&self, at: u16) -> (r: String)
        ensures
            r@ == imm16_text(self.cpu@.with_pc(at as int).imm16()),
    {
        with_hex4("d_", self.operand16(at))
    }

    fn read_16_addr(&self, at: u16) -> (r: String)
        ensures
            r@ == addr16_text(self.cpu@.with_pc(at as int).imm16()),
    {
        with_hex4("a_", self.operand16(at))
    }

    fn print_addr(&self, a: Addr, at: u16) -> (r: String)
        ensures
            r@ == addr_text(self.cpu@.with_pc(at as int), a),
    {
        match a {
            Addr::Bc => String::from_str("(BC)"),
            Addr::De => String::from_str("(DE)"),
            Addr::HlInc => String::from_str("(HL)"),
            Addr::HlDec => String::from_str("(HL)"),
            Addr::Imm16 => String::from_str("(").concat(self.read_16_addr(at).as_str()).concat(")"),
            Addr::HighImm => String::from_str("(").concat(
                with_hex2("a_", self.operand8(at)).as_str(),
            ).concat(")"),
            Addr::HighC => String::from_str("(C)"),
        }
    }

    /// The text of a load, store, push or pop.
    fn print_load(&self, i: Instr, at: u16) -> (r: String)
        requires
            moves_data(i),
        ensures
            r@ == instr_text(self.cpu@.with_pc(at as int), i),
    {
        match i {
            Instr::Nop => String::from_str("NOP"),
            Instr::Di => String::from_str("DI"),
            Instr::Ei => String::from_str("EI"),
            Instr::Undefined => String::from_str("UNDEFINED"),
            Instr::Load(d, src) => String::from_str("LD\t").concat(loc_str(d)).concat(",").concat(
                loc_str(src),
            ),
            Instr::LoadImm(d) => String::from_str("LD\t").concat(loc_str(d)).concat(",").concat(
                self.print_8_imm(at).as_str(),
            ),
            Instr::LoadA(a) => String::from_str(load_str(a)).concat("A,").concat(
                self.print_addr(a, at).as_str(),
            ),
            Instr::StoreA(a) => String::from_str(load_str(a)).concat(
                self.print_addr(a, at).as_str(),
            ).concat(",A"),
            Instr::LoadPairImm(p) => String::from_str("LD\t").concat(pair_str(p)).concat(
                ",",
            ).concat(self.print_16_imm(at).as_str()),
            Instr::LoadSpHl => String::from_str("LD\tSP,HL"),
            Instr::LoadHlSpOffset => String::from_str("LDHL\tSP,").concat(
                self.print_8_sig(at).as_str(),
            ),
            Instr::StoreSp => String::from_str("LD\t(").concat(self.read_16_addr(at).as_str()).concat(
                "),SP",
            ),
            Instr::Push(p) => String::from_str("PUSH\t").concat(stack_pair_str(p)),
            Instr::Pop(p) => String::from_str("POP\t").concat(stack_pair_str(p)),
            _ => String::new(),
        }
    }

    /// The text of `RET cc`.
    fn print_ret(&self, i: Instr, at: u16) -> (r: String)
        requires
            i is Ret,
        ensures
            r@ == instr_text(self.cpu@.with_pc(at as int), i),
    {
        match i {
            Instr::Ret(c) => match c {
                Cond::Always => String::from_str("RET"),
                Cond::NotZero => {
                    proof {
                        reveal_strlit("NZ,");
                        reveal_strlit("NZ");
                    }
                    assert("NZ"@ =~= cond_prefix(c).drop_last());
                    String::from_str("RET\t").concat("NZ")
                },
                Cond::Zero => {
                    proof {
                        reveal_strlit("Z,");
                        reveal_strlit("Z");
                    }
                    assert("Z"@ =~= cond_prefix(c).drop_last());
                    String::from_str("RET\t").concat("Z")
                },
                Cond::NotCarry => {
                    proof {
                        reveal_strlit("NC,");
                        reveal_strlit("NC");
                    }
                    assert("NC"@ =~= cond_prefix(c).drop_last());
                    String::from_str("RET\t").concat("NC")
                },
                Cond::Carry => {
                    proof {
                        reveal_strlit("C,");
                        reveal_strlit("C");
                    }
                    assert("C"@ =~= cond_prefix(c).drop_last());
                    String::from_str("RET\t").concat("C")
                },
            },
            _ => String::new(),
        }
    }

    /// The text of an arithmetic, logic or control-flow instruction.
    fn print_other(&self, i: Instr, at: u16) -> (r: String)
        requires
            !moves_data(i),
            !(i is Ret),
        ensures
            r@ == instr_text(self.cpu@.with_pc(at as int), i),
    {
        match i {
            Instr::Inc(l) => String::from_str("INC\t").concat(loc_str(l)),
            Instr::Dec(l) => String::from_str("DEC\t").concat(loc_str(l)),
            Instr::IncPair(p) => String::from_str("INC\t").concat(pair_str(p)),
            Instr::DecPair(p) => String::from_str("DEC\t").concat(pair_str(p)),
            Instr::Alu(op, l) => String::from_str(alu_str(op)).concat("\tA,").concat(loc_str(l)),
            Instr::AluImm(op) => String::from_str(alu_str(op)).concat("\tA,").concat(
                self.print_8_imm(at).as_str(),
            ),
            Instr::AddHl(p) => String::from_str("ADD\tHL,").concat(pair_str(p)),
            Instr::AddSpOffset => String::from_str("ADD\tSP,").concat(self.print_8_sig(at).as_str()),
            Instr::Rlca => String::from_str("RLCA"),
            Instr::Rrca => String::from_str("RRCA"),
            Instr::Jp(c) => String::from_str("JP\t").concat(cond_str(c)).concat(
                self.read_16_addr(at).as_str(),
            ),
            Instr::JpHl => String::from_str("JP\tHL"),
            Instr::Jr(c) => String::from_str("JR\t").concat(cond_str(c)).concat(
                self.print_8_rel(at).as_str(),
            ),
            Instr::Call(c) => String::from_str("CALL\t").concat(cond_str(c)).concat(
                self.read_16_addr(at).as_str(),
            ),
            Instr::Rst(n) => with_hex2("RST\t0x", n),
            Instr::Srl(l) => String::from_str("SRL\t").concat(loc_str(l)),

            _ => String::new(),
        }
    }

    /// The text of `i`, whose operand bytes start at `at`.
    fn print_decoded(&self, i: Instr, at: u16) -> (r: String)
        ensures
            r@ == instr_text(self.cpu@.with_pc(at as int), i),
    {
        match i {
            Instr::Nop | Instr::Di | Instr::Ei | Instr::Undefined | Instr::Load(..)
            | Instr::LoadImm(..) | Instr::LoadA(..) | Instr::StoreA(..) | Instr::LoadPairImm(..)
            | Instr::LoadSpHl | Instr::LoadHlSpOffset | Instr::StoreSp | Instr::Push(..)
            | Instr::Pop(..) => self.print_load(i, at),
            Instr::Ret(..) => self.print_ret(i, at),
            _ => self.print_other(i, at),
        }
    }

    /// The listing line of the instruction at `addr`.
    pub fn print_instr(&self, addr: u16) -> (r: String)
        ensures
            r@ == listing(self.cpu@, addr),
    {
        let op = self.cpu.read(addr);
        let head = with_hex2("(", op).concat(") ");
        if op == crate::opcodes::PREFIX_CB {
            let next = self.peek_byte(addr);
            match decode_cb(next) {
                Some(i) => {
                    let at = crate::alu::wrapping_add16(addr, 2);
                    proof {
                        crate::lemma_wrap16(addr + 2, 0);
                    }
                    head.concat(self.print_decoded(i, at).as_str())
                },
                None => head.concat("UNKNOWN"),
            }
        } else {
            match decode(op) {
                Some(i) => {
                    let at = crate::alu::inc16(addr);
                    proof {
                        crate::lemma_wrap16(addr + 1, 0);
                    }
                    head.concat(self.print_decoded(i, at).as_str())
                },
                None => head.concat("UNKNOWN"),
            }
        }
    }
}

impl Cpu {
    /// The listing line of the instruction at PC.
    pub fn print_curr(&self) -> (r: String)
        ensures
            r@ == listing(self@, self.pc),
    {
        self.print_instr(self.pc)
    }

    /// The listing line of the instruction at `addr`.
    pub fn print_instr(&self, addr: u16) -> (r: String)
        ensures
            r@ == listing(self@, addr),
    {
        Printer::new(self).print_instr(addr)
    }

    /// The registers as text: each 8-bit register and SP and PC in hex, the flag
    /// byte in binary.
    pub fn describe(&self) -> (r: String)
        ensures
            r@ == describe_spec(self@),
    {
        let mut out = String::from_str("[a: ");
        push_hex2(&mut out, self.a, false);
        out.append(", b: ");
        push_hex2(&mut out, self.b, false);
        out.append(", c: ");
        push_hex2(&mut out, self.c, false);
        out.append(", d: ");
        push_hex2(&mut out, self.d, false);
        out.append(", e: ");
        push_hex2(&mut out, self.e, false);
        out.append(", h: ");
        push_hex2(&mut out, self.h, false);
        out.append(", l: ");
        push_hex2(&mut out, self.l, false);
        out.append(", status: ");
        push_bin8(&mut out, self.status);
        out.append(", sp: ");
        push_hex4(&mut out, self.sp, false);
        out.append(", pc: ");
        push_hex4(&mut out, self.pc, false);
        out.append("]");
        out
    }
}

} // verus!
