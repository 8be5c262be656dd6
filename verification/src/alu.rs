use crate::cpu::Flags;
use vstd::prelude::*;

verus! {

/// One where the condition holds, zero where it does not.
pub open spec fn flag(condition: bool) -> u8 {
    if condition {
        1
    } else {
        0
    }
}

/// Masking a byte to its low nibble leaves the remainder of a division by sixteen.
pub proof fn lemma_low_nibble(a: u8)
    by (bit_vector)
    ensures
        a & 0x0F == a % 16,
{
}

/// The complement of a byte is its distance from 255.
pub proof fn lemma_complement(a: u8)
    by (bit_vector)
    ensures
        !a == 255 - a,
{
}

/// Shifts and rotations of a byte by one place, and the exchange of its nibbles, as
/// arithmetic.
pub proof fn lemma_shift_arithmetic(v: u8, c: u8)
    by (bit_vector)
    requires
        c <= 1,
    ensures
        v >> 7u8 == v / 128,
        v & 1 == v % 2,
        v >> 1u8 == v / 2,
        (v << 1u8) as int == (v % 128) * 2,
        ((v << 1u8) | (v >> 7u8)) as int == (v % 128) * 2 + v / 128,
        ((v >> 1u8) | ((v & 1) << 7u8)) as int == v / 2 + (v % 2) * 128,
        ((v << 1u8) | c) as int == (v % 128) * 2 + c,
        ((v >> 1u8) | (c << 7u8)) as int == v / 2 + c * 128,
        ((v & 0x80) | (v >> 1u8)) as int == v / 2 + (v / 128) * 128,
        (((v & 0x0F) << 4u8) | ((v & 0xF0) >> 4u8)) as int == (v % 16) * 16 + v / 16,
{
}

/// The sum of two bytes and the flags of `ADD`.
pub open spec fn spec_add(a: u8, b: u8) -> (u8, Flags) {
    (
        ((a + b) % 256) as u8,
        Flags {
            Z: flag((a + b) % 256 == 0),
            N: 0,
            H: flag(a % 16 + b % 16 > 0x0F),
            C: flag(a + b > 255),
        },
    )
}

/// The sum of two bytes and a carry, and the flags of `ADC`.
pub open spec fn spec_adc(a: u8, b: u8, carry: u8) -> (u8, Flags) {
    (
        ((a + b + carry) % 256) as u8,
        Flags {
            Z: flag((a + b + carry) % 256 == 0),
            N: 0,
            H: flag(a % 16 + b % 16 + carry > 0x0F),
            C: flag(a + b + carry > 255),
        },
    )
}

/// The difference of two bytes and the flags of `SUB` and `CP`.
pub open spec fn spec_sub(a: u8, b: u8) -> (u8, Flags) {
    (
        ((a - b) % 256) as u8,
        Flags { Z: flag(a == b), N: 1, H: flag(a % 16 < b % 16), C: flag(a < b) },
    )
}

/// The difference of two bytes less a borrow, and the flags of `SBC`.
pub open spec fn spec_subc(a: u8, b: u8, carry: u8) -> (u8, Flags) {
    (
        ((a - b - carry) % 256) as u8,
        Flags {
            Z: flag((a - b - carry) % 256 == 0),
            N: 1,
            H: flag(a % 16 < b % 16 + carry),
            C: flag(a < b + carry),
        },
    )
}

/// The bitwise conjunction of two bytes and the flags of `AND`.
pub open spec fn spec_and(a: u8, b: u8) -> (u8, Flags) {
    (a & b, Flags { Z: flag(a & b == 0), N: 0, H: 1, C: 0 })
}

/// The bitwise exclusive disjunction of two bytes and the flags of `XOR`.
pub open spec fn spec_xor(a: u8, b: u8) -> (u8, Flags) {
    (a ^ b, Flags { Z: flag(a ^ b == 0), N: 0, H: 0, C: 0 })
}

/// The bitwise disjunction of two bytes and the flags of `OR`.
pub open spec fn spec_or(a: u8, b: u8) -> (u8, Flags) {
    (a | b, Flags { Z: flag(a | b == 0), N: 0, H: 0, C: 0 })
}

/// The sum of two words with the carries of `ADD HL,rr`: H out of bit 11, C out of bit
/// 15. Z is left at zero for the instruction to fill in.
pub open spec fn spec_add_16(a: u16, b: u16) -> (u16, Flags) {
    (
        ((a + b) % 65536) as u16,
        Flags { Z: 0, N: 0, H: flag(a % 4096 + b % 4096 > 0x0FFF), C: flag(a + b > 65535) },
    )
}

/// A word plus a signed byte with the flags of `ADD SP,e` and `LD HL,SP+e`: H and C
/// are the carries out of bit 3 and bit 7 of the sum of the word's low byte and the
/// unsigned byte.
pub open spec fn spec_add_signed(a: u16, e: u8) -> (u16, Flags) {
    (
        ((a + crate::bits::signed(e)) % 65536) as u16,
        Flags { Z: 0, N: 0, H: flag(a % 16 + e % 16 > 0x0F), C: flag(a % 256 + e > 0xFF) },
    )
}

/// A byte plus one and the flags of `INC`, which keeps the carry flag `carry`.
pub open spec fn spec_inc(a: u8, carry: u8) -> (u8, Flags) {
    (
        ((a + 1) % 256) as u8,
        Flags { Z: flag(a == 255), N: 0, H: flag(a % 16 == 0x0F), C: carry },
    )
}

/// A byte less one and the flags of `DEC`, which keeps the carry flag `carry`.
pub open spec fn spec_dec(a: u8, carry: u8) -> (u8, Flags) {
    (((a - 1) % 256) as u8, Flags { Z: flag(a == 1), N: 1, H: flag(a % 16 == 0), C: carry })
}

/// Whether `DAA` adds `0x60` to the high digit, or takes it off: after an addition
/// (`n == 0`) when a carry left the byte or the value is above `0x99`, after a
/// subtraction when a borrow was taken.
pub open spec fn daa_high_correction(a: u8, n: u8, c: u8) -> bool {
    if n == 0 {
        c == 1 || a > 0x99
    } else {
        c == 1
    }
}

/// Whether `DAA` adds `0x06` to the low digit, or takes it off: after an addition
/// (`n == 0`) when a carry left the low nibble or the low digit is above nine, after
/// a subtraction when a borrow was taken from the high nibble.
pub open spec fn daa_low_correction(a: u8, n: u8, h: u8) -> bool {
    if n == 0 {
        h == 1 || a % 16 > 9
    } else {
        h == 1
    }
}

/// The accumulator after `DAA`: the corrections are added after an addition and taken
/// off after a subtraction, modulo 256.
pub open spec fn daa_value(a: u8, n: u8, h: u8, c: u8) -> u8 {
    if n == 0 {
        ((a + (if daa_high_correction(a, n, c) { 0x60int } else { 0 }) + (if daa_low_correction(
            a,
            n,
            h,
        ) { 0x06int } else { 0 })) % 256) as u8
    } else {
        ((a - (if daa_high_correction(a, n, c) { 0x60int } else { 0 }) - (if daa_low_correction(
            a,
            n,
            h,
        ) { 0x06int } else { 0 })) % 256) as u8
    }
}

/// The accumulator and flags after `DAA`. Z tells a zero result, N is kept, H is
/// cleared, and C is set when the high digit was corrected and otherwise kept.
pub open spec fn spec_daa(a: u8, flags: Flags) -> (u8, Flags) {
    (
        daa_value(a, flags.N, flags.H, flags.C),
        Flags {
            Z: flag(daa_value(a, flags.N, flags.H, flags.C) == 0),
            N: flags.N,
            H: 0,
            C: if daa_high_correction(a, flags.N, flags.C) {
                1
            } else {
                flags.C
            },
        },
    )
}

/// The eight rotations and shifts of the extended instructions, in the order of their
/// opcodes.
#[derive(Clone, Copy, Debug, PartialEq, Eq, Structural)]
pub enum Shift {
    /// Rotate left; bit 7 goes to bit 0 and to the carry.
    Rlc,
    /// Rotate right; bit 0 goes to bit 7 and to the carry.
    Rrc,
    /// Rotate left through the carry.
    Rl,
    /// Rotate right through the carry.
    Rr,
    /// Shift left; bit 0 becomes zero.
    Sla,
    /// Shift right; bit 7 stays.
    Sra,
    /// Exchange the two nibbles.
    Swap,
    /// Shift right; bit 7 becomes zero.
    Srl,
}

impl Shift {
    /// The byte that the operation makes of `v`, with the carry flag `c` going in.
    pub open spec fn value(self, v: u8, c: u8) -> u8 {
        (match self {
            Shift::Rlc => (v % 128) * 2 + v / 128,
            Shift::Rrc => v / 2 + (v % 2) * 128,
            Shift::Rl => (v % 128) * 2 + c,
            Shift::Rr => v / 2 + c * 128,
            Shift::Sla => (v % 128) * 2,
            Shift::Sra => v / 2 + (v / 128) * 128,
            Shift::Swap => (v % 16) * 16 + v / 16,
            Shift::Srl => (v / 2) as int,
        }) as u8
    }

    /// The carry flag that comes out: the bit that left the byte; none for `Swap`.
    pub open spec fn carry(self, v: u8) -> u8 {
        match self {
            Shift::Rlc | Shift::Rl | Shift::Sla => v / 128,
            Shift::Rrc | Shift::Rr | Shift::Sra | Shift::Srl => v % 2,
            Shift::Swap => 0,
        }
    }

    /// The new byte and flags: Z tells a zero result, N and H are cleared.
    pub open spec fn spec_apply(self, v: u8, c: u8) -> (u8, Flags) {
        (self.value(v, c), Flags { Z: flag(self.value(v, c) == 0), N: 0, H: 0, C: self.carry(v) })
    }

    /// The operation that an extended opcode below `0x40` selects.
    pub open spec fn spec_of_opcode(n: u8) -> Shift {
        if n / 8 == 0 {
            Shift::Rlc
        } else if n / 8 == 1 {
            Shift::Rrc
        } else if n / 8 == 2 {
            Shift::Rl
        } else if n / 8 == 3 {
            Shift::Rr
        } else if n / 8 == 4 {
            Shift::Sla
        } else if n / 8 == 5 {
            Shift::Sra
        } else if n / 8 == 6 {
            Shift::Swap
        } else {
            Shift::Srl
        }
    }

    /// Applies the operation to `v`, with the carry flag `c` going in.
    pub fn apply(self, v: u8, c: u8) -> (r: (u8, Flags))
        requires
            c <= 1,
        ensures
            r == self.spec_apply(v, c),
            r.1.wf(),
    {
        proof {
            lemma_shift_arithmetic(v, c);
        }
        let (value, carry): (u8, u8) = match self {
            Shift::Rlc => ((v << 1u8) | (v >> 7u8), v >> 7u8),
            Shift::Rrc => ((v >> 1u8) | ((v & 1) << 7u8), v & 1),
            Shift::Rl => ((v << 1u8) | c, v >> 7u8),
            Shift::Rr => ((v >> 1u8) | (c << 7u8), v & 1),
            Shift::Sla => (v << 1u8, v >> 7u8),
            Shift::Sra => ((v & 0x80) | (v >> 1u8), v & 1),
            Shift::Swap => (((v & 0x0F) << 4u8) | ((v & 0xF0) >> 4u8), 0),
            Shift::Srl => (v >> 1u8, v & 1),
        };
        (value, Flags { Z: if value == 0 { 1 } else { 0 }, N: 0, H: 0, C: carry })
    }
}

/// Adds two bytes.
pub fn add(a: u8, b: u8) -> (r: (u8, Flags))
    ensures
        r == spec_add(a, b),
        r.1.wf(),
{
    let val: u16 = (a as u16) + (b as u16);
    let flags = Flags {
        Z: if val % 256 == 0 { 1 } else { 0 },
        N: 0,
        H: if a % 16 + b % 16 > 0x0F { 1 } else { 0 },
        C: if val > 255 { 1 } else { 0 },
    };
    ((val % 256) as u8, flags)
}

/// Adds two words.
pub fn add_16(a: u16, b: u16) -> (r: (u16, Flags))
    ensures
        r == spec_add_16(a, b),
        r.1.wf(),
{
    let val: u32 = (a as u32) + (b as u32);
    let flags = Flags {
        Z: 0,
        N: 0,
        H: if a % 4096 + b % 4096 > 0x0FFF { 1 } else { 0 },
        C: if val > 65535 { 1 } else { 0 },
    };
    ((val % 65536) as u16, flags)
}

/// Adds two bytes and a carry of zero or one.
pub fn adc(a: u8, b: u8, carry: u8) -> (r: (u8, Flags))
    requires
        carry <= 1,
    ensures
        r == spec_adc(a, b, carry),
        r.1.wf(),
{
    let val: u16 = (a as u16) + (b as u16) + (carry as u16);
    let flags = Flags {
        Z: if val % 256 == 0 { 1 } else { 0 },
        N: 0,
        H: if a % 16 + b % 16 + carry > 0x0F { 1 } else { 0 },
        C: if val > 255 { 1 } else { 0 },
    };
    ((val % 256) as u8, flags)
}

/// Takes `b` off `a`.
pub fn sub(a: u8, b: u8) -> (r: (u8, Flags))
    ensures
        r == spec_sub(a, b),
        r.1.wf(),
{
    let val: u8 = a.wrapping_sub(b);
    let flags = Flags {
        Z: if val == 0 { 1 } else { 0 },
        N: 1,
        H: if a % 16 < b % 16 { 1 } else { 0 },
        C: if a < b { 1 } else { 0 },
    };
    (val, flags)
}

/// Takes `b` and a borrow of zero or one off `a`.
pub fn subc(a: u8, b: u8, carry: u8) -> (r: (u8, Flags))
    requires
        carry <= 1,
    ensures
        r == spec_subc(a, b, carry),
        r.1.wf(),
{
    let val: u8 = a.wrapping_sub(b).wrapping_sub(carry);
    let flags = Flags {
        Z: if val == 0 { 1 } else { 0 },
        N: 1,
        H: if a % 16 < b % 16 + carry { 1 } else { 0 },
        C: if (a as u16) < (b as u16) + (carry as u16) { 1 } else { 0 },
    };
    (val, flags)
}

/// The bitwise conjunction of two bytes.
pub fn and_calc(a: u8, b: u8) -> (r: (u8, Flags))
    ensures
        r == spec_and(a, b),
        r.1.wf(),
{
    let val: u8 = a & b;
    (val, Flags { Z: if val == 0 { 1 } else { 0 }, N: 0, H: 1, C: 0 })
}

/// The bitwise exclusive disjunction of two bytes.
pub fn xor(a: u8, b: u8) -> (r: (u8, Flags))
    ensures
        r == spec_xor(a, b),
        r.1.wf(),
{
    let val: u8 = a ^ b;
    (val, Flags { Z: if val == 0 { 1 } else { 0 }, N: 0, H: 0, C: 0 })
}

/// The bitwise disjunction of two bytes.
pub fn or(a: u8, b: u8) -> (r: (u8, Flags))
    ensures
        r == spec_or(a, b),
        r.1.wf(),
{
    let val: u8 = a | b;
    (val, Flags { Z: if val == 0 { 1 } else { 0 }, N: 0, H: 0, C: 0 })
}

/// Adds one to a byte, keeping the carry flag `carry`.
pub fn increment(a: u8, carry: u8) -> (r: (u8, Flags))
    requires
        carry <= 1,
    ensures
        r == spec_inc(a, carry),
        r.1.wf(),
{
    let val: u8 = a.wrapping_add(1);
    let flags = Flags {
        Z: if val == 0 { 1 } else { 0 },
        N: 0,
        H: if a % 16 == 0x0F { 1 } else { 0 },
        C: carry,
    };
    (val, flags)
}

/// Takes one off a byte, keeping the carry flag `carry`.
pub fn decrement(a: u8, carry: u8) -> (r: (u8, Flags))
    requires
        carry <= 1,
    ensures
        r == spec_dec(a, carry),
        r.1.wf(),
{
    let val: u8 = a.wrapping_sub(1);
    let flags = Flags {
        Z: if val == 0 { 1 } else { 0 },
        N: 1,
        H: if a % 16 == 0 { 1 } else { 0 },
        C: carry,
    };
    (val, flags)
}

/// Adds the signed byte `e` to the word `a`.
pub fn add_signed(a: u16, e: u8) -> (r: (u16, Flags))
    ensures
        r == spec_add_signed(a, e),
        r.1.wf(),
{
    let val: u16 = if e < 128 {
        a.wrapping_add(e as u16)
    } else {
        a.wrapping_sub(256 - (e as u16))
    };
    let flags = Flags {
        Z: 0,
        N: 0,
        H: if a % 16 + (e as u16) % 16 > 0x0F { 1 } else { 0 },
        C: if a % 256 + (e as u16) > 0xFF { 1 } else { 0 },
    };
    (val, flags)
}

/// The byte holds two decimal digits, one in each nibble.
pub open spec fn is_bcd(v: u8) -> bool {
    v % 16 <= 9 && v / 16 <= 9
}

/// The number that two decimal digits stand for.
pub open spec fn bcd_value(v: u8) -> int {
    (v / 16) * 10 + v % 16
}

/// `DAA` after an addition of decimal digits, as a fact about bytes.
proof fn lemma_daa_add_bytes(x: u8, y: u8)
    by (bit_vector)
    requires
        x % 16 <= 9,
        x / 16 <= 9,
        y % 16 <= 9,
        y / 16 <= 9,
    ensures
        daa_value(
            ((x + y) % 256) as u8,
            0,
            flag(x % 16 + y % 16 > 0x0F),
            flag(x + y > 255),
        ) % 16 <= 9,
        daa_value(
            ((x + y) % 256) as u8,
            0,
            flag(x % 16 + y % 16 > 0x0F),
            flag(x + y > 255),
        ) / 16 <= 9,
        (daa_value(
            ((x + y) % 256) as u8,
            0,
            flag(x % 16 + y % 16 > 0x0F),
            flag(x + y > 255),
        ) / 16) * 10 + daa_value(
            ((x + y) % 256) as u8,
            0,
            flag(x % 16 + y % 16 > 0x0F),
            flag(x + y > 255),
        ) % 16 == ((x / 16) * 10 + x % 16 + (y / 16) * 10 + y % 16) % 100,
        daa_high_correction(((x + y) % 256) as u8, 0, flag(x + y > 255)) <==> (x / 16) * 10 + x
            % 16 + (y / 16) * 10 + y % 16 >= 100,
{
}

/// `DAA` after a subtraction of decimal digits, as a fact about bytes.
proof fn lemma_daa_sub_bytes(x: u8, y: u8)
    by (bit_vector)
    requires
        x % 16 <= 9,
        x / 16 <= 9,
        y % 16 <= 9,
        y / 16 <= 9,
    ensures
        daa_value(((x - y) % 256) as u8, 1, flag(x % 16 < y % 16), flag(x < y)) % 16 <= 9,
        daa_value(((x - y) % 256) as u8, 1, flag(x % 16 < y % 16), flag(x < y)) / 16 <= 9,
        (daa_value(((x - y) % 256) as u8, 1, flag(x % 16 < y % 16), flag(x < y)) / 16) * 10
            + daa_value(((x - y) % 256) as u8, 1, flag(x % 16 < y % 16), flag(x < y)) % 16 == ((x
            / 16) * 10 + x % 16 - ((y / 16) * 10 + y % 16)) % 100,
        x < y <==> (x / 16) * 10 + x % 16 < (y / 16) * 10 + y % 16,
        x == y <==> daa_value(((x - y) % 256) as u8, 1, flag(x % 16 < y % 16), flag(x < y))
            == 0,
{
}

/// After the addition of two bytes of decimal digits, `DAA` leaves the digits of the
/// sum modulo 100 in the accumulator, sets C where the sum reached 100, tells a zero
/// result in Z, and clears H.
pub proof fn lemma_daa_after_add(x: u8, y: u8)
    requires
        is_bcd(x),
        is_bcd(y),
    ensures
        ({
            let sum = spec_add(x, y);
            let corrected = spec_daa(sum.0, sum.1);
            &&& is_bcd(corrected.0)
            &&& bcd_value(corrected.0) == (bcd_value(x) + bcd_value(y)) % 100
            &&& corrected.1.C == 1 <==> bcd_value(x) + bcd_value(y) >= 100
            &&& corrected.1.Z == 1 <==> (bcd_value(x) + bcd_value(y)) % 100 == 0
            &&& corrected.1.H == 0
            &&& corrected.1.N == 0
        }),
{
    lemma_daa_add_bytes(x, y);
}

/// After the subtraction of two bytes of decimal digits, `DAA` leaves the digits of
/// the difference modulo 100 in the accumulator, keeps C, which tells a borrow, tells a
/// zero result in Z, and clears H.
pub proof fn lemma_daa_after_sub(x: u8, y: u8)
    requires
        is_bcd(x),
        is_bcd(y),
    ensures
        ({
            let difference = spec_sub(x, y);
            let corrected = spec_daa(difference.0, difference.1);
            &&& is_bcd(corrected.0)
            &&& bcd_value(corrected.0) == (bcd_value(x) - bcd_value(y)) % 100
            &&& corrected.1.C == 1 <==> bcd_value(x) < bcd_value(y)
            &&& corrected.1.Z == 1 <==> bcd_value(x) == bcd_value(y)
            &&& corrected.1.H == 0
            &&& corrected.1.N == 1
        }),
{
    lemma_daa_sub_bytes(x, y);
}

/// The flags of `ADD`, as the instruction set's manuals give them with masks.
pub proof fn lemma_add_flags(a: u8, b: u8)
    ensures
        spec_add(a, b).1.Z == 1 <==> (a + b) % 256 == 0,
        spec_add(a, b).1.C == 1 <==> a + b > 255,
        spec_add(a, b).1.H == 1 <==> (a & 0x0F) + (b & 0x0F) > 0x0F,
        Flags::from_bits(spec_add(a, b).1.bits()) == spec_add(a, b).1,
{
    lemma_low_nibble(a);
    lemma_low_nibble(b);
}

} // verus!
