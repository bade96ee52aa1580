use vstd::prelude::*;

pub mod alu;
pub mod cartridge;
pub mod cpu;
pub mod debugger;
pub mod errors;
pub mod game_boy;
pub mod instr;
pub mod laws;
pub mod opcodes;
pub mod printer;
pub mod state;
pub mod utils;

verus! {

/// The 16-bit value whose high byte is `hi` and whose low byte is `lo`.
pub open spec fn combine(hi: u8, lo: u8) -> u16 {
    (hi as int * 256 + lo as int) as u16
}

/// The high byte of `n`.
pub open spec fn hi_byte(n: u16) -> u8 {
    (n / 256) as u8
}

/// The low byte of `n`.
pub open spec fn lo_byte(n: u16) -> u8 {
    (n % 256) as u8
}

/// `x` reduced modulo 2^16: the value a 16-bit register holds after wrapping.
pub open spec fn wrap16(x: int) -> u16 {
    (x % 0x10000) as u16
}

/// `x` reduced modulo 2^8.
pub open spec fn wrap8(x: int) -> u8 {
    (x % 0x100) as u8
}

/// Reducing twice changes nothing, and a reduced value can be shifted before or
/// after reducing.
pub proof fn lemma_wrap16(x: int, k: int)
    ensures
        wrap16(wrap16(x) + k) == wrap16(x + k),
        0 <= x < 0x10000 ==> wrap16(x) == x,
{
    vstd::arithmetic::div_mod::lemma_add_mod_noop(x, k, 0x10000);
    vstd::arithmetic::div_mod::lemma_mod_twice(k, 0x10000);
    vstd::arithmetic::div_mod::lemma_add_mod_noop(x % 0x10000, k, 0x10000);
}

/// Assemble a 16-bit value from its high byte `b1` and its low byte `b2`.
pub fn u8_to_u16(b1: u8, b2: u8) -> (r: u16)
    ensures
        r == combine(b1, b2),
{
    (b1 as u16) * 256 + (b2 as u16)
}

/// Split a 16-bit value into its (high, low) bytes.
pub fn u16_to_u8(n: u16) -> (r: (u8, u8))
    ensures
        r.0 == hi_byte(n),
        r.1 == lo_byte(n),
{
    ((n / 256) as u8, (n % 256) as u8)
}

/// Combining the two halves of a split value gives the value back, and splitting a
/// combined value gives the two bytes back: the pairing is a bijection.
pub proof fn lemma_combine_split(n: u16, hi: u8, lo: u8)
    ensures
        combine(hi_byte(n), lo_byte(n)) == n,
        hi_byte(combine(hi, lo)) == hi,
        lo_byte(combine(hi, lo)) == lo,
{
}

} // verus!
