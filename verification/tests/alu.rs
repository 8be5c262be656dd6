use gameboy_core::alu::{
    adc, add_16, add_signed, and_calc, decrement, increment, or, sub, subc, xor, Shift,
};
use gameboy_core::cpu::Flags;

fn flags(z: u8, n: u8, h: u8, c: u8) -> Flags {
    Flags { Z: z, N: n, H: h, C: c }
}

#[test]
fn add_sets_flags_for_every_pair() {
    for a in 0..=255u8 {
        for b in 0..=255u8 {
            let (value, f) = gameboy_core::alu::add(a, b);
            let sum = a as u16 + b as u16;
            assert_eq!(value, (sum % 256) as u8);
            let decoded = Flags::from(u8::from(f));
            assert_eq!(decoded.Z == 1, sum % 256 == 0);
            assert_eq!(decoded.C == 1, sum > 255);
            assert_eq!(decoded.H == 1, (a & 0xF) + (b & 0xF) > 0xF);
            assert_eq!(decoded.N, 0);
        }
    }
}

#[test]
fn add_examples() {
    assert_eq!(gameboy_core::alu::add(0x3A, 0xC6), (0x00, flags(1, 0, 1, 1)));
    assert_eq!(gameboy_core::alu::add(0x0F, 0x01), (0x10, flags(0, 0, 1, 0)));
    assert_eq!(gameboy_core::alu::add(0x12, 0x34), (0x46, flags(0, 0, 0, 0)));
    assert_eq!(gameboy_core::alu::add(0xF0, 0x20), (0x10, flags(0, 0, 0, 1)));
}

#[test]
fn adc_takes_the_carry_in() {
    assert_eq!(adc(0xE1, 0x0F, 1), (0xF1, flags(0, 0, 1, 0)));
    assert_eq!(adc(0xE1, 0x3B, 1), (0x1D, flags(0, 0, 0, 1)));
    assert_eq!(adc(0xE1, 0x1E, 1), (0x00, flags(1, 0, 1, 1)));
    assert_eq!(adc(0x0F, 0x00, 1), (0x10, flags(0, 0, 1, 0)));
    assert_eq!(adc(0x10, 0x20, 0), (0x30, flags(0, 0, 0, 0)));
}

#[test]
fn sub_borrows() {
    assert_eq!(sub(0x3E, 0x3E), (0x00, flags(1, 1, 0, 0)));
    assert_eq!(sub(0x3E, 0x0F), (0x2F, flags(0, 1, 1, 0)));
    assert_eq!(sub(0x3E, 0x40), (0xFE, flags(0, 1, 0, 1)));
    assert_eq!(sub(0x00, 0x01), (0xFF, flags(0, 1, 1, 1)));
}

#[test]
fn subc_takes_the_borrow_in() {
    assert_eq!(subc(0x3B, 0x2A, 1), (0x10, flags(0, 1, 0, 0)));
    assert_eq!(subc(0x3B, 0x3A, 1), (0x00, flags(1, 1, 0, 0)));
    assert_eq!(subc(0x3B, 0x4F, 1), (0xEB, flags(0, 1, 1, 1)));
    assert_eq!(subc(0x10, 0x0F, 1), (0x00, flags(1, 1, 1, 0)));
    assert_eq!(subc(0x00, 0xFF, 1), (0x00, flags(1, 1, 1, 1)));
    assert_eq!(subc(0x05, 0x03, 0), (0x02, flags(0, 1, 0, 0)));
}

#[test]
fn sub_and_subc_half_borrow_for_every_input() {
    for a in 0..=255u8 {
        for b in 0..=255u8 {
            let (value, f) = sub(a, b);
            assert_eq!(value, a.wrapping_sub(b));
            assert_eq!(f.H == 1, (a & 0xF) < (b & 0xF));
            assert_eq!(f.C == 1, a < b);
            assert_eq!(f.Z == 1, a == b);
            for carry in 0..=1u8 {
                let (value, f) = subc(a, b, carry);
                assert_eq!(value, a.wrapping_sub(b).wrapping_sub(carry));
                assert_eq!(f.H == 1, (a & 0xF) < (b & 0xF) + carry);
                assert_eq!(f.C == 1, (a as u16) < b as u16 + carry as u16);
                assert_eq!(f.Z == 1, value == 0);
                assert_eq!(f.N, 1);
            }
        }
    }
}

#[test]
fn logic_operations() {
    assert_eq!(and_calc(0x5A, 0x3F), (0x1A, flags(0, 0, 1, 0)));
    assert_eq!(and_calc(0x5A, 0xA5), (0x00, flags(1, 0, 1, 0)));
    assert_eq!(xor(0xFF, 0x0F), (0xF0, flags(0, 0, 0, 0)));
    assert_eq!(xor(0xFF, 0xFF), (0x00, flags(1, 0, 0, 0)));
    assert_eq!(or(0x5A, 0x03), (0x5B, flags(0, 0, 0, 0)));
    assert_eq!(or(0x00, 0x00), (0x00, flags(1, 0, 0, 0)));
}

#[test]
fn add_16_carries_out_of_bits_11_and_15() {
    assert_eq!(add_16(0x8A23, 0x0605), (0x9028, flags(0, 0, 1, 0)));
    assert_eq!(add_16(0x8A23, 0x8A23), (0x1446, flags(0, 0, 1, 1)));
    assert_eq!(add_16(0x0001, 0x0002), (0x0003, flags(0, 0, 0, 0)));
    assert_eq!(add_16(0xFFFF, 0x0001), (0x0000, flags(0, 0, 1, 1)));
}

#[test]
fn add_signed_offsets() {
    assert_eq!(add_signed(0xFFF8, 0x02), (0xFFFA, flags(0, 0, 0, 0)));
    assert_eq!(add_signed(0x0000, 0xFF), (0xFFFF, flags(0, 0, 0, 0)));
    assert_eq!(add_signed(0x0001, 0xFF), (0x0000, flags(0, 0, 1, 1)));
    assert_eq!(add_signed(0x00FF, 0x01), (0x0100, flags(0, 0, 1, 1)));
    assert_eq!(add_signed(0x000F, 0x01), (0x0010, flags(0, 0, 1, 0)));
    assert_eq!(add_signed(0x1000, 0x80), (0x0F80, flags(0, 0, 0, 0)));
}

#[test]
fn increment_and_decrement_keep_the_carry() {
    for carry in 0..=1u8 {
        for a in 0..=255u8 {
            let (up, f) = increment(a, carry);
            assert_eq!(up, a.wrapping_add(1));
            assert_eq!(f, flags((up == 0) as u8, 0, (a & 0xF == 0xF) as u8, carry));
            let (down, f) = decrement(a, carry);
            assert_eq!(down, a.wrapping_sub(1));
            assert_eq!(f, flags((down == 0) as u8, 1, (a & 0xF == 0) as u8, carry));
        }
    }
}

#[test]
fn shifts_and_rotations() {
    assert_eq!(Shift::Rlc.apply(0x85, 0), (0x0B, flags(0, 0, 0, 1)));
    assert_eq!(Shift::Rlc.apply(0x00, 1), (0x00, flags(1, 0, 0, 0)));
    assert_eq!(Shift::Rrc.apply(0x01, 0), (0x80, flags(0, 0, 0, 1)));
    assert_eq!(Shift::Rl.apply(0x80, 0), (0x00, flags(1, 0, 0, 1)));
    assert_eq!(Shift::Rl.apply(0x11, 1), (0x23, flags(0, 0, 0, 0)));
    assert_eq!(Shift::Rr.apply(0x01, 0), (0x00, flags(1, 0, 0, 1)));
    assert_eq!(Shift::Rr.apply(0x8A, 1), (0xC5, flags(0, 0, 0, 0)));
    assert_eq!(Shift::Sla.apply(0x80, 1), (0x00, flags(1, 0, 0, 1)));
    assert_eq!(Shift::Sla.apply(0xFF, 0), (0xFE, flags(0, 0, 0, 1)));
    assert_eq!(Shift::Sra.apply(0x8A, 0), (0xC5, flags(0, 0, 0, 0)));
    assert_eq!(Shift::Sra.apply(0x01, 0), (0x00, flags(1, 0, 0, 1)));
    assert_eq!(Shift::Swap.apply(0xF1, 1), (0x1F, flags(0, 0, 0, 0)));
    assert_eq!(Shift::Swap.apply(0x00, 1), (0x00, flags(1, 0, 0, 0)));
    assert_eq!(Shift::Srl.apply(0x01, 0), (0x00, flags(1, 0, 0, 1)));
    assert_eq!(Shift::Srl.apply(0xFF, 0), (0x7F, flags(0, 0, 0, 1)));
}

#[test]
fn shifts_match_the_bit_operations_for_every_byte() {
    for v in 0..=255u8 {
        for c in 0..=1u8 {
            assert_eq!(Shift::Rlc.apply(v, c).0, v.rotate_left(1));
            assert_eq!(Shift::Rrc.apply(v, c).0, v.rotate_right(1));
            assert_eq!(Shift::Rl.apply(v, c).0, (v << 1) | c);
            assert_eq!(Shift::Rr.apply(v, c).0, (v >> 1) | (c << 7));
            assert_eq!(Shift::Sla.apply(v, c).0, v << 1);
            assert_eq!(Shift::Sra.apply(v, c).0, ((v as i8) >> 1) as u8);
            assert_eq!(Shift::Swap.apply(v, c).0, (v << 4) | (v >> 4));
            assert_eq!(Shift::Srl.apply(v, c).0, v >> 1);
        }
    }
}
