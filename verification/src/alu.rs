use vstd::prelude::*;

verus! {

/// The four condition flags.
#[derive(Clone, Copy, PartialEq, Eq, Structural, Debug)]
pub struct Flags {
    /// The result was zero.
    pub z: bool,
    /// The operation was a subtraction.
    pub n: bool,
    /// A carry or borrow crossed the middle of the result.
    pub h: bool,
    /// A carry or borrow left the result.
    pub c: bool,
}

/// What an arithmetic or logic operation yields: a byte and the flags.
#[derive(Clone, Copy, PartialEq, Eq, Structural, Debug)]
pub struct AluOut {
    pub value: u8,
    pub flags: Flags,
}

/// What a 16-bit addition yields: a word and the flags.
#[derive(Clone, Copy, PartialEq, Eq, Structural, Debug)]
pub struct WideOut {
    pub value: u16,
    pub flags: Flags,
}

/// 0 or 1.
pub open spec fn bit(b: bool) -> int {
    if b {
        1
    } else {
        0
    }
}

/// The flags that the byte `f` holds in its high nibble, in the order
/// zero, subtract, half-carry, carry from bit 7 down.
pub open spec fn unpack(f: u8) -> Flags {
    Flags { z: f / 128 % 2 == 1, n: f / 64 % 2 == 1, h: f / 32 % 2 == 1, c: f / 16 % 2 == 1 }
}

/// The flag byte for `flags`: its low nibble is zero.
pub open spec fn pack(flags: Flags) -> u8 {
    (128 * bit(flags.z) + 64 * bit(flags.n) + 32 * bit(flags.h) + 16 * bit(flags.c)) as u8
}

/// The signed value of an offset byte.
pub open spec fn signed(e: u8) -> int {
    if e < 128 {
        e as int
    } else {
        e - 256
    }
}

/// `a + b + carry`: the sum modulo 256; half-carry out of bit 3, carry out
/// of bit 7.
pub open spec fn add8(a: u8, b: u8, carry: bool) -> AluOut {
    let sum = a + b + bit(carry);
    AluOut {
        value: (sum % 256) as u8,
        flags: Flags {
            z: sum % 256 == 0,
            n: false,
            h: a % 16 + b % 16 + bit(carry) > 15,
            c: sum > 255,
        },
    }
}

/// `a - b - carry`: the difference modulo 256; half-borrow into bit 3,
/// borrow into bit 7.
pub open spec fn sub8(a: u8, b: u8, carry: bool) -> AluOut {
    let difference = a - b - bit(carry);
    AluOut {
        value: (difference % 256) as u8,
        flags: Flags {
            z: difference % 256 == 0,
            n: true,
            h: a % 16 < b % 16 + bit(carry),
            c: a < b + bit(carry),
        },
    }
}

/// Bitwise and: half-carry set, carry clear.
pub open spec fn and8(a: u8, b: u8) -> AluOut {
    AluOut { value: a & b, flags: Flags { z: a & b == 0, n: false, h: true, c: false } }
}

/// Bitwise or: only the zero flag can be set.
pub open spec fn or8(a: u8, b: u8) -> AluOut {
    AluOut { value: a | b, flags: Flags { z: a | b == 0, n: false, h: false, c: false } }
}

/// Bitwise exclusive or: only the zero flag can be set.
pub open spec fn xor8(a: u8, b: u8) -> AluOut {
    AluOut { value: a ^ b, flags: Flags { z: a ^ b == 0, n: false, h: false, c: false } }
}

/// `v + 1` modulo 256; the carry flag keeps its value.
pub open spec fn inc8(v: u8, carry: bool) -> AluOut {
    AluOut {
        value: ((v + 1) % 256) as u8,
        flags: Flags { z: v == 255, n: false, h: v % 16 == 15, c: carry },
    }
}

/// `v - 1` modulo 256; the carry flag keeps its value.
pub open spec fn dec8(v: u8, carry: bool) -> AluOut {
    AluOut {
        value: ((v - 1) % 256) as u8,
        flags: Flags { z: v == 1, n: true, h: v % 16 == 0, c: carry },
    }
}

/// `a + b` modulo 65536; half-carry out of bit 11, carry out of bit 15; the
/// zero flag keeps its value.
pub open spec fn add16(a: u16, b: u16, zero: bool) -> WideOut {
    WideOut {
        value: ((a + b) % 65536) as u16,
        flags: Flags { z: zero, n: false, h: a % 4096 + b % 4096 > 4095, c: a + b > 65535 },
    }
}

/// The stack pointer plus a signed offset byte, modulo 65536; the flags are
/// those of adding the offset, as an unsigned byte, to the low byte of the
/// stack pointer.
pub open spec fn add_offset(sp: u16, e: u8) -> WideOut {
    WideOut {
        value: ((sp + signed(e)) % 65536) as u16,
        flags: Flags { z: false, n: false, h: sp % 16 + e % 16 > 15, c: sp % 256 + e > 255 },
    }
}

/// The correction that decimal adjustment applies to `a`: 6 for the low
/// digit and `0x60` for the high digit, each where the flags or the digit
/// ask for it.
pub open spec fn decimal_offset(a: u8, flags: Flags) -> int {
    (if flags.h || (!flags.n && a % 16 > 9) {
        6int
    } else {
        0int
    }) + (if flags.c || (!flags.n && a > 0x99) {
        0x60int
    } else {
        0int
    })
}

/// Decimal adjustment of `a` after an addition or subtraction of packed
/// decimal digits.
pub open spec fn daa(a: u8, flags: Flags) -> AluOut {
    let adjusted = if flags.n {
        (a - decimal_offset(a, flags)) % 256
    } else {
        (a + decimal_offset(a, flags)) % 256
    };
    AluOut {
        value: adjusted as u8,
        flags: Flags {
            z: adjusted == 0,
            n: flags.n,
            h: false,
            c: flags.c || (!flags.n && a > 0x99),
        },
    }
}

/// The flags of a rotate or shift: zero by the result, carry by the bit
/// that left.
pub open spec fn shifted(value: int, carry_out: bool) -> AluOut {
    AluOut {
        value: value as u8,
        flags: Flags { z: value == 0, n: false, h: false, c: carry_out },
    }
}

/// Rotate left: bit 7 moves to bit 0 and to the carry.
pub open spec fn rlc(v: u8) -> AluOut {
    shifted(v % 128 * 2 + v / 128, v >= 128)
}

/// Rotate right: bit 0 moves to bit 7 and to the carry.
pub open spec fn rrc(v: u8) -> AluOut {
    shifted(v / 2 + v % 2 * 128, v % 2 == 1)
}

/// Rotate left through the carry.
pub open spec fn rl(v: u8, carry: bool) -> AluOut {
    shifted(v % 128 * 2 + bit(carry), v >= 128)
}

/// Rotate right through the carry.
pub open spec fn rr(v: u8, carry: bool) -> AluOut {
    shifted(v / 2 + bit(carry) * 128, v % 2 == 1)
}

/// Shift left; bit 0 becomes 0.
pub open spec fn sla(v: u8) -> AluOut {
    shifted(v % 128 * 2, v >= 128)
}

/// Shift right; bit 7 keeps its value.
pub open spec fn sra(v: u8) -> AluOut {
    shifted(v / 2 + v / 128 * 128, v % 2 == 1)
}

/// Shift right; bit 7 becomes 0.
pub open spec fn srl(v: u8) -> AluOut {
    shifted(v as int / 2, v % 2 == 1)
}

/// Exchange of the two nibbles.
pub open spec fn swap(v: u8) -> AluOut {
    shifted(v % 16 * 16 + v / 16, false)
}

/// The same result with the zero flag clear, as the rotates of A alone
/// leave it.
pub open spec fn zero_cleared(out: AluOut) -> AluOut {
    AluOut { value: out.value, flags: Flags { z: false, ..out.flags } }
}

/// Whether bit `index` of `v` is set.
pub open spec fn bit_is_set(index: u8, v: u8) -> bool {
    (v >> index) & 1 == 1
}

/// The flags of a bit test: zero when the bit is clear, half-carry set, the
/// carry as it was.
pub open spec fn bit_test(index: u8, v: u8, carry: bool) -> Flags {
    Flags { z: !bit_is_set(index, v), n: false, h: true, c: carry }
}

/// `v` with bit `index` cleared.
pub open spec fn bit_cleared(index: u8, v: u8) -> u8 {
    v & !(1u8 << index)
}

/// `v` with bit `index` set.
pub open spec fn bit_raised(index: u8, v: u8) -> u8 {
    v | (1u8 << index)
}

/// The packed decimal form of a number below 100: the tens in the high
/// nibble, the units in the low one.
pub open spec fn bcd(n: int) -> u8 {
    (n / 10 * 16 + n % 10) as u8
}

/// How masks and shifts of a byte read as arithmetic.
pub proof fn lemma_byte_bits(v: u8)
    by (bit_vector)
    ensures
        v & 0x0F == v % 16,
        v & 0xF0 == v / 16 * 16,
        v >> 4 == v / 16,
        v >> 7 == v / 128,
        v & 0x80 == v / 128 * 128,
        v & 0x01 == v % 2,
        v >> 1 == v / 2,
        v << 1 == v % 128 * 2,
        v << 4 == v % 16 * 16,
        (v & 0x80 != 0) == (v / 128 % 2 == 1),
        (v & 0x40 != 0) == (v / 64 % 2 == 1),
        (v & 0x20 != 0) == (v / 32 % 2 == 1),
        (v & 0x10 != 0) == (v / 16 % 2 == 1),
{
}

/// How the joins of shifted parts of a byte read as arithmetic.
pub proof fn lemma_byte_joins(v: u8, low: u8)
    by (bit_vector)
    requires
        low <= 1,
    ensures
        (v << 1) | (v >> 7) == v % 128 * 2 + v / 128,
        (v >> 1) | (v << 7) == v / 2 + v % 2 * 128,
        (v << 1) | low == v % 128 * 2 + low,
        (v >> 1) | (low << 7) == v / 2 + low * 128,
        (v >> 1) | (v & 0x80) == v / 2 + v / 128 * 128,
        (v << 4) | (v >> 4) == v % 16 * 16 + v / 16,
{
}

/// How masks and shifts of a word read as arithmetic.
pub proof fn lemma_word_bits(w: u16, high: u8, low: u8)
    by (bit_vector)
    ensures
        w & 0x0FFF == w % 4096,
        w & 0x000F == w % 16,
        w & 0x00FF == w % 256,
        (w >> 8) as u8 == w / 256,
        (w & 0xFF) as u8 == w % 256,
        ((high as u16) << 8) | (low as u16) == high * 256 + low,
{
}

/// Packing flags and unpacking the byte gives the flags back, and the byte
/// has a zero low nibble.
pub proof fn law_pack_unpack(flags: Flags)
    ensures
        unpack(pack(flags)) == flags,
        pack(flags) % 16 == 0,
{
}

/// Rotating right and then left gives the byte back; so does rotating left
/// through the carry and then right through the carry that came out, which
/// also restores the carry; so does exchanging the nibbles twice.
pub proof fn law_rotate_inverses(r: u8, carry: bool)
    ensures
        rlc(rrc(r).value).value == r,
        rrc(rlc(r).value).value == r,
        rr(rl(r, carry).value, rl(r, carry).flags.c).value == r,
        rr(rl(r, carry).value, rl(r, carry).flags.c).flags.c == carry,
        swap(swap(r).value).value == r,
{
    let right: int = r / 2 + r % 2 * 128;
    assert(right % 128 == r / 2 && right / 128 == r % 2);
    let left: int = r % 128 * 2 + r / 128;
    assert(left / 2 == r % 128 && left % 2 == r / 128);
    let through: int = r % 128 * 2 + bit(carry);
    assert(through / 2 == r % 128 && through % 2 == bit(carry));
    let exchanged: int = r % 16 * 16 + r / 16;
    assert(exchanged % 16 == r / 16 && exchanged / 16 == r % 16);
}

/// The quotient and remainder of `q * d + r` by `d`.
pub proof fn lemma_div_mod(x: int, d: int, q: int, r: int)
    requires
        d > 0,
        0 <= r < d,
        x == q * d + r,
    ensures
        x % d == r,
        x / d == q,
{
    vstd::arithmetic::div_mod::lemma_fundamental_div_mod_converse(x, d, q, r);
}

/// Decimal adjustment after adding two packed numbers, stated on their
/// digits: with `units` and `tens` the decimal digits of the sum and
/// `high_carry` the decimal carry out of the tens, the result is
/// `16 * tens + units` and the carry is `high_carry`.
proof fn lemma_adjust_digits(a1: int, a0: int, b1: int, b0: int, low_carry: int, high_carry: int)
    requires
        0 <= a1 <= 9,
        0 <= a0 <= 9,
        0 <= b1 <= 9,
        0 <= b0 <= 9,
        low_carry == bit(a0 + b0 >= 10),
        high_carry == bit(a1 + b1 + low_carry >= 10),
    ensures
        daa(
            add8((16 * a1 + a0) as u8, (16 * b1 + b0) as u8, false).value,
            add8((16 * a1 + a0) as u8, (16 * b1 + b0) as u8, false).flags,
        ).value == 16 * (a1 + b1 + low_carry - 10 * high_carry) + (a0 + b0 - 10 * low_carry),
        daa(
            add8((16 * a1 + a0) as u8, (16 * b1 + b0) as u8, false).value,
            add8((16 * a1 + a0) as u8, (16 * b1 + b0) as u8, false).flags,
        ).flags.c == (high_carry == 1),
{
    let x: u8 = (16 * a1 + a0) as u8;
    let y: u8 = (16 * b1 + b0) as u8;
    let low: int = a0 + b0;
    let high: int = a1 + b1;
    let sum: int = x + y;
    let wrap: int = bit(sum > 255);
    let nibble_carry: int = bit(low > 15);
    lemma_div_mod(x as int, 16, a1, a0);
    lemma_div_mod(y as int, 16, b1, b0);
    lemma_div_mod(sum, 256, wrap, sum - 256 * wrap);
    let added = add8(x, y, false);
    assert(added.value == sum - 256 * wrap);
    assert(added.flags == Flags { z: added.value == 0, n: false, h: low > 15, c: sum > 255 });
    lemma_div_mod(
        added.value as int,
        16,
        high + nibble_carry - 16 * wrap,
        low - 16 * nibble_carry,
    );
    assert(added.value % 16 == low - 16 * nibble_carry);
    assert((added.flags.h || added.value % 16 > 9) == (low_carry == 1));
    assert((added.flags.c || added.value > 0x99) == (high_carry == 1));
    let offset: int = 6 * low_carry + 0x60 * high_carry;
    assert(decimal_offset(added.value, added.flags) == offset);
    let target: int = 16 * (high + low_carry - 10 * high_carry) + (low - 10 * low_carry);
    assert(added.value + offset == (high_carry - wrap) * 256 + target);
    assert(0 <= target < 256);
    lemma_div_mod(added.value + offset, 256, high_carry - wrap, target);
}

/// Adding two numbers below 100 in packed decimal form and adjusting the sum
/// gives the packed decimal form of their sum modulo 100, with the carry set
/// exactly when the sum is above 99.
pub proof fn law_decimal_adjust(a: int, b: int)
    requires
        0 <= a <= 99,
        0 <= b <= 99,
    ensures
        daa(add8(bcd(a), bcd(b), false).value, add8(bcd(a), bcd(b), false).flags).value == bcd(
            (a + b) % 100,
        ),
        daa(add8(bcd(a), bcd(b), false).value, add8(bcd(a), bcd(b), false).flags).flags.c == (a
            + b > 99),
{
    let a1: int = a / 10;
    let a0: int = a % 10;
    let b1: int = b / 10;
    let b0: int = b % 10;
    let low_carry: int = bit(a0 + b0 >= 10);
    let high_carry: int = bit(a1 + b1 + low_carry >= 10);
    let units: int = a0 + b0 - 10 * low_carry;
    let tens: int = a1 + b1 + low_carry - 10 * high_carry;
    lemma_adjust_digits(a1, a0, b1, b0, low_carry, high_carry);
    assert(bcd(a) == (16 * a1 + a0) as u8);
    assert(bcd(b) == (16 * b1 + b0) as u8);
    lemma_div_mod(a + b, 100, high_carry, 10 * tens + units);
    lemma_div_mod(10 * tens + units, 10, tens, units);
    assert(bcd((a + b) % 100) == 16 * tens + units);
}

} // verus!
