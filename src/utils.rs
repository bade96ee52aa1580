use vstd::prelude::*;
use vstd::string::StrSliceExecFns;
use vstd::string::StringExecFns;

verus! {

/// The big-endian value of the first four bytes of `b`.
pub open spec fn be_u32(b: Seq<u8>) -> int {
    b[0] * 0x100_0000 + b[1] * 0x1_0000 + b[2] * 0x100 + b[3]
}

/// Read a big-endian `u32` from the first four bytes of `b`.
pub fn to_u32(b: &[u8]) -> (r: u32)
    requires
        b@.len() >= 4,
    ensures
        r == be_u32(b@),
{
    (b[0] as u32) * 0x100_0000 + (b[1] as u32) * 0x1_0000 + (b[2] as u32) * 0x100 + (b[3] as u32)
}

/// Split `n` into its four bytes, most significant first.
pub fn to_u8_array(n: u32) -> (r: [u8; 4])
    ensures
        r@.len() == 4,
        r[0] == n / 0x100_0000,
        r[1] == (n / 0x1_0000) % 0x100,
        r[2] == (n / 0x100) % 0x100,
        r[3] == n % 0x100,
        be_u32(r@) == n,
{
    let b1: u8 = (n / 0x100_0000) as u8;
    let b2: u8 = ((n / 0x1_0000) % 0x100) as u8;
    let b3: u8 = ((n / 0x100) % 0x100) as u8;
    let b4: u8 = (n % 0x100) as u8;
    [b1, b2, b3, b4]
}

/// The hexadecimal digits, upper case.
pub open spec fn upper_digits() -> Seq<char> {
    seq!['0', '1', '2', '3', '4', '5', '6', '7', '8', '9', 'A', 'B', 'C', 'D', 'E', 'F']
}

/// The hexadecimal digits, lower case.
pub open spec fn lower_digits() -> Seq<char> {
    seq!['0', '1', '2', '3', '4', '5', '6', '7', '8', '9', 'a', 'b', 'c', 'd', 'e', 'f']
}

/// The digit for `d` (0..=15), upper or lower case.
pub open spec fn hex_digit(d: int, upper: bool) -> char {
    if upper {
        upper_digits()[d]
    } else {
        lower_digits()[d]
    }
}

/// The two hex digits of a byte.
pub open spec fn hex2(b: u8, upper: bool) -> Seq<char> {
    seq![hex_digit(b as int / 16, upper), hex_digit(b as int % 16, upper)]
}

/// The four hex digits of a 16-bit value.
pub open spec fn hex4(n: u16, upper: bool) -> Seq<char> {
    hex2((n / 256) as u8, upper) + hex2((n % 256) as u8, upper)
}

/// The eight binary digits of a byte, most significant first.
pub open spec fn bin8(b: u8) -> Seq<char> {
    Seq::new(8, |i: int| if (b as int / pow2_spec(7 - i)) % 2 == 1 { '1' } else { '0' })
}

/// 2 to the power `k`, for `k` in 0..=7.
pub open spec fn pow2_spec(k: int) -> int {
    if k <= 0 {
        1
    } else if k == 1 {
        2
    } else if k == 2 {
        4
    } else if k == 3 {
        8
    } else if k == 4 {
        16
    } else if k == 5 {
        32
    } else if k == 6 {
        64
    } else {
        128
    }
}

/// Two-digit upper-case hex of each byte, separated by single spaces.
pub open spec fn hex_join(bytes: Seq<u8>) -> Seq<char>
    decreases bytes.len(),
{
    if bytes.len() == 0 {
        Seq::empty()
    } else if bytes.len() == 1 {
        hex2(bytes[0], true)
    } else {
        hex_join(bytes.drop_last()) + seq![' '] + hex2(bytes.last(), true)
    }
}

/// Append the hex digit of `d` to `out`.
fn push_digit(out: &mut String, d: u8, upper: bool)
    requires
        d < 16,
    ensures
        final(out)@ == old(out)@.push(hex_digit(d as int, upper)),
{
    let digits = if upper {
        "0123456789ABCDEF"
    } else {
        "0123456789abcdef"
    };
    proof {
        reveal_strlit("0123456789ABCDEF");
        reveal_strlit("0123456789abcdef");
        assert(upper ==> digits@ =~= upper_digits());
        assert(!upper ==> digits@ =~= lower_digits());
    }
    let digit = digits.substring_ascii(d as usize, d as usize + 1);
    assert(digit@ =~= seq![hex_digit(d as int, upper)]);
    out.append(digit);
}

/// Append the two hex digits of `b` to `out`.
pub fn push_hex2(out: &mut String, b: u8, upper: bool)
    ensures
        final(out)@ == old(out)@ + hex2(b, upper),
{
    push_digit(out, b / 16, upper);
    push_digit(out, b % 16, upper);
    assert(final(out)@ =~= old(out)@ + hex2(b, upper));
}

/// Append the four hex digits of `n` to `out`.
pub fn push_hex4(out: &mut String, n: u16, upper: bool)
    ensures
        final(out)@ == old(out)@ + hex4(n, upper),
{
    push_hex2(out, (n / 256) as u8, upper);
    push_hex2(out, (n % 256) as u8, upper);
    assert(final(out)@ =~= old(out)@ + hex4(n, upper));
}

/// Append the eight binary digits of `b` to `out`.
pub fn push_bin8(out: &mut String, b: u8)
    ensures
        final(out)@ == old(out)@ + bin8(b),
{
    let ghost start = out@;
    let mut k: u8 = 0;
    let mut p: u8 = 128;
    while k < 8
        invariant
            k <= 8,
            p == pow2_spec(7 - k),
            out@ =~= start + bin8(b).subrange(0, k as int),
        decreases 8 - k,
    {
        if (b / p) % 2 == 1 {
            out.append("1");
            proof {
                reveal_strlit("1");
            }
        } else {
            out.append("0");
            proof {
                reveal_strlit("0");
            }
        }
        assert(bin8(b).subrange(0, k + 1) =~= bin8(b).subrange(0, k as int).push(bin8(b)[k as int]));
        k = k + 1;
        if k < 8 {
            p = p / 2;
        }
    }
    assert(bin8(b).subrange(0, 8) =~= bin8(b));
}

/// Upper-case two-digit hex of each byte, separated by single spaces.
pub fn to_hex_string(bytes: &[u8]) -> (r: String)
    ensures
        r@ == hex_join(bytes@),
{
    let mut out = String::new();
    let mut i: usize = 0;
    while i < bytes.len()
        invariant
            i <= bytes@.len(),
            out@ == hex_join(bytes@.subrange(0, i as int)),
        decreases bytes@.len() - i,
    {
        let ghost before = out@;
        assert(bytes@.subrange(0, i + 1).drop_last() =~= bytes@.subrange(0, i as int));
        if i > 0 {
            out.append(" ");
            proof {
                reveal_strlit(" ");
            }
        }
        push_hex2(&mut out, bytes[i], true);
        proof {
            if i == 0 {
                assert(out@ =~= hex_join(bytes@.subrange(0, 1)));
            } else {
                assert(out@ =~= before + seq![' '] + hex2(bytes@[i as int], true));
            }
        }
        i = i + 1;
    }
    assert(bytes@.subrange(0, bytes@.len() as int) =~= bytes@);
    out
}

} // verus!
