use vstd::prelude::*;

verus! {

/// Result of an 8-bit operation together with the half-carry and carry it produced.
#[derive(Clone, Copy, Debug, PartialEq, Eq)]
pub struct AluOut {
    pub value: u8,
    pub half: bool,
    pub carry: bool,
}

/// `a + n + carry_in` on 8 bits: carry out of bit 3 and out of bit 7, computed
/// on the operands before truncation.
pub open spec fn add8_spec(a: u8, n: u8, carry_in: bool) -> AluOut {
    let c: int = if carry_in { 1 } else { 0 };
    AluOut {
        value: ((a + n + c) % 256) as u8,
        half: (a % 16) + (n % 16) + c > 15,
        carry: a + n + c > 255,
    }
}

/// `a - n` on 8 bits: borrow from bit 4 and from the top.
pub open spec fn sub8_spec(a: u8, n: u8) -> AluOut {
    AluOut {
        value: ((a - n + 256) % 256) as u8,
        half: (a % 16) < (n % 16),
        carry: a < n,
    }
}

/// `x + y` on 16 bits: carry out of bit 11 and out of bit 15.
pub open spec fn add16_spec(x: u16, y: u16) -> (u16, bool, bool) {
    (((x + y) % 0x10000) as u16, (x % 0x1000) + (y % 0x1000) > 0xfff, x + y > 0xffff)
}

/// The signed byte `e` sign-extended to 16 bits, as an unsigned value.
pub open spec fn sign_extend(e: u8) -> u16 {
    if e < 128 {
        e as u16
    } else {
        (e + 0xff00) as u16
    }
}

/// Add with carry-in on 8 bits.
pub fn add8(a: u8, n: u8, carry_in: bool) -> (r: AluOut)
    ensures
        r == add8_spec(a, n, carry_in),
{
    let c: u16 = if carry_in { 1 } else { 0 };
    let sum: u16 = a as u16 + n as u16 + c;
    AluOut {
        value: (sum % 256) as u8,
        half: (a % 16) as u16 + (n % 16) as u16 + c > 15,
        carry: sum > 255,
    }
}

/// Subtract on 8 bits.
pub fn sub8(a: u8, n: u8) -> (r: AluOut)
    ensures
        r == sub8_spec(a, n),
{
    let diff: u16 = (a as u16 + 256 - n as u16) % 256;
    AluOut { value: diff as u8, half: (a % 16) < (n % 16), carry: a < n }
}

/// Add on 16 bits.
pub fn add16(x: u16, y: u16) -> (r: (u16, bool, bool))
    ensures
        r == add16_spec(x, y),
{
    let sum: u32 = x as u32 + y as u32;
    (((sum % 0x10000) as u16), (x % 0x1000) as u32 + (y % 0x1000) as u32 > 0xfff, sum > 0xffff)
}

/// Sign-extend a byte to 16 bits.
pub fn sign_extend_u8(e: u8) -> (r: u16)
    ensures
        r == sign_extend(e),
{
    if e < 128 {
        e as u16
    } else {
        e as u16 + 0xff00
    }
}

/// `x + 1` modulo 2^16.
pub fn inc16(x: u16) -> (r: u16)
    ensures
        r == crate::wrap16(x + 1),
{
    if x == 0xffff {
        0
    } else {
        x + 1
    }
}

/// `x - 1` modulo 2^16.
pub fn dec16(x: u16) -> (r: u16)
    ensures
        r == crate::wrap16(x - 1),
{
    if x == 0 {
        0xffff
    } else {
        x - 1
    }
}

/// `x + y` modulo 2^16.
pub fn wrapping_add16(x: u16, y: u16) -> (r: u16)
    ensures
        r == crate::wrap16(x + y),
{
    ((x as u32 + y as u32) % 0x10000) as u16
}

} // verus!
