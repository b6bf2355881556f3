//! Exhaustive checks of the ALU flag laws: for every operand pair the
//! result and the Z, N, H, C flags match the documented pure functions.

use gb_emu_core::alu::{
    alu_add, alu_adc, alu_and, alu_bit, alu_daa, alu_dec, alu_inc, alu_or, alu_rl, alu_rlc,
    alu_rr, alu_rrc, alu_sbc, alu_sla, alu_sra, alu_srl, alu_sub, alu_swap, alu_xor, alu_add16,
    alu_add_sp_signed, alu_res, alu_set,
};

fn pack(z: bool, n: bool, h: bool, c: bool) -> u8 {
    (if z { 0x80 } else { 0 }) | (if n { 0x40 } else { 0 }) | (if h { 0x20 } else { 0 })
        | (if c { 0x10 } else { 0 })
}

#[test]
fn add_all_pairs() {
    for a in 0..=255u16 {
        for b in 0..=255u16 {
            let (r, f) = alu_add(a as u8, b as u8);
            let sum = a + b;
            assert_eq!(r as u16, sum & 0xFF);
            let expect = pack(
                sum & 0xFF == 0,
                false,
                (a & 0xF) + (b & 0xF) > 0xF,
                sum > 0xFF,
            );
            assert_eq!(f, expect, "ADD {a},{b}");
        }
    }
}

#[test]
fn adc_all_pairs() {
    for a in 0..=255u16 {
        for b in 0..=255u16 {
            for cin in 0..=1u16 {
                let (r, f) = alu_adc(a as u8, b as u8, cin == 1);
                let sum = a + b + cin;
                assert_eq!(r as u16, sum & 0xFF);
                let expect = pack(
                    sum & 0xFF == 0,
                    false,
                    (a & 0xF) + (b & 0xF) + cin > 0xF,
                    sum > 0xFF,
                );
                assert_eq!(f, expect, "ADC {a},{b},{cin}");
            }
        }
    }
}

#[test]
fn sub_all_pairs() {
    for a in 0..=255i32 {
        for b in 0..=255i32 {
            let (r, f) = alu_sub(a as u8, b as u8);
            assert_eq!(r as i32, (a - b) & 0xFF);
            let expect = pack((a - b) & 0xFF == 0, true, (a & 0xF) < (b & 0xF), a < b);
            assert_eq!(f, expect, "SUB {a},{b}");
        }
    }
}

#[test]
fn sbc_all_pairs() {
    for a in 0..=255i32 {
        for b in 0..=255i32 {
            for cin in 0..=1i32 {
                let (r, f) = alu_sbc(a as u8, b as u8, cin == 1);
                assert_eq!(r as i32, (a - b - cin) & 0xFF);
                let expect = pack(
                    (a - b - cin) & 0xFF == 0,
                    true,
                    (a & 0xF) < (b & 0xF) + cin,
                    a < b + cin,
                );
                assert_eq!(f, expect, "SBC {a},{b},{cin}");
            }
        }
    }
}

#[test]
fn logic_all_pairs() {
    for a in 0..=255u16 {
        for b in 0..=255u16 {
            let (r, f) = alu_and(a as u8, b as u8);
            assert_eq!(r as u16, a & b);
            assert_eq!(f, pack(a & b == 0, false, true, false));
            let (r, f) = alu_or(a as u8, b as u8);
            assert_eq!(r as u16, a | b);
            assert_eq!(f, pack(a | b == 0, false, false, false));
            let (r, f) = alu_xor(a as u8, b as u8);
            assert_eq!(r as u16, a ^ b);
            assert_eq!(f, pack(a ^ b == 0, false, false, false));
        }
    }
}

#[test]
fn inc_dec_all_values() {
    for a in 0..=255u16 {
        for old_c in 0..=1u8 {
            let old_f = if old_c == 1 { 0x10 } else { 0 };
            let (r, f) = alu_inc(a as u8, old_f);
            assert_eq!(r as u16, (a + 1) & 0xFF);
            assert_eq!(f, pack((a + 1) & 0xFF == 0, false, a & 0xF == 0xF, old_c == 1));
            let (r, f) = alu_dec(a as u8, old_f);
            assert_eq!(r as i32, (a as i32 - 1) & 0xFF);
            assert_eq!(f, pack(a == 1, true, a & 0xF == 0, old_c == 1));
        }
    }
}

#[test]
fn daa_all_states() {
    // DAA against an independent BCD-adjust model, over all A values and
    // all N, H, C combinations.
    for a in 0..=255i32 {
        for n in 0..=1 {
            for h in 0..=1 {
                for c in 0..=1 {
                    let f = ((n << 6) | (h << 5) | (c << 4)) as u8;
                    let (r, rf) = alu_daa(a as u8, f);
                    let mut v = a;
                    let mut new_c = c == 1;
                    if n == 0 {
                        if c == 1 || a > 0x99 {
                            v += 0x60;
                            new_c = true;
                        }
                        if h == 1 || (a & 0xF) > 9 {
                            v += 6;
                        }
                    } else {
                        if c == 1 {
                            v -= 0x60;
                        }
                        if h == 1 {
                            v -= 6;
                        }
                    }
                    let v = (v & 0xFF) as u8;
                    assert_eq!(r, v, "DAA A={a} N={n} H={h} C={c}");
                    assert_eq!(rf, pack(v == 0, n == 1, false, new_c));
                }
            }
        }
    }
}

#[test]
fn daa_fixes_bcd_addition() {
    // 0x19 + 0x28 = 0x41 in packed BCD (19 + 28 = 47).
    let (raw, f) = alu_add(0x19, 0x28);
    let (adjusted, _) = alu_daa(raw, f);
    assert_eq!(adjusted, 0x47);
}

#[test]
fn rotates_and_shifts() {
    for a in 0..=255u16 {
        let a8 = a as u8;
        let (r, f) = alu_rlc(a8);
        assert_eq!(r, a8.rotate_left(1));
        assert_eq!(f, pack(r == 0, false, false, a8 >= 0x80));
        let (r, f) = alu_rrc(a8);
        assert_eq!(r, a8.rotate_right(1));
        assert_eq!(f, pack(r == 0, false, false, a8 & 1 == 1));
        for cin in 0..=1u8 {
            let (r, f) = alu_rl(a8, cin == 1);
            assert_eq!(r, (a8 << 1) | cin);
            assert_eq!(f, pack(r == 0, false, false, a8 >= 0x80));
            let (r, f) = alu_rr(a8, cin == 1);
            assert_eq!(r, (a8 >> 1) | (cin << 7));
            assert_eq!(f, pack(r == 0, false, false, a8 & 1 == 1));
        }
        let (r, f) = alu_sla(a8);
        assert_eq!(r, a8 << 1);
        assert_eq!(f, pack(r == 0, false, false, a8 >= 0x80));
        let (r, f) = alu_sra(a8);
        assert_eq!(r, ((a8 as i8) >> 1) as u8);
        assert_eq!(f, pack(r == 0, false, false, a8 & 1 == 1));
        let (r, f) = alu_srl(a8);
        assert_eq!(r, a8 >> 1);
        assert_eq!(f, pack(r == 0, false, false, a8 & 1 == 1));
        let (r, f) = alu_swap(a8);
        assert_eq!(r, a8.rotate_left(4));
        assert_eq!(f, pack(r == 0, false, false, false));
    }
}

#[test]
fn bit_res_set_all() {
    for a in 0..=255u16 {
        let a8 = a as u8;
        for bit in 0..8u8 {
            let f = alu_bit(a8, bit, 0x10);
            assert_eq!(f, pack(a8 & (1 << bit) == 0, false, true, true));
            assert_eq!(alu_res(a8, bit), a8 & !(1 << bit));
            assert_eq!(alu_set(a8, bit), a8 | (1 << bit));
        }
    }
}

#[test]
fn add16_samples() {
    let (r, f) = alu_add16(0x0FFF, 0x0001, 0x80);
    assert_eq!(r, 0x1000);
    // Z kept from the old flags, H at bit 11, no carry at bit 15.
    assert_eq!(f, pack(true, false, true, false));
    let (r, f) = alu_add16(0xFFFF, 0x0001, 0x00);
    assert_eq!(r, 0x0000);
    assert_eq!(f, pack(false, false, true, true));
}

#[test]
fn add_sp_signed_samples() {
    let (r, f) = alu_add_sp_signed(0xFFF8, 0x08);
    assert_eq!(r, 0x0000);
    assert_eq!(f, pack(false, false, true, true));
    let (r, _) = alu_add_sp_signed(0x0005, 0xFE);
    assert_eq!(r, 0x0003);
    let (r, _) = alu_add_sp_signed(0x0000, 0x80);
    assert_eq!(r, 0xFF80);
}
