//! The CPU's 8-bit and 16-bit arithmetic/logic core, as pure functions from
//! operands to result and flags.
//!
//! Flags live in the F register's high nibble: Z (bit 7), N (bit 6),
//! H (bit 5), C (bit 4); the low nibble always reads zero. Half-carry is
//! taken at bit 3 for 8-bit operations and at bit 11 for ADD HL,rr.

use vstd::prelude::*;

verus! {

/// The F register byte holding exactly the given flags.
pub open spec fn spec_flags(z: bool, n: bool, h: bool, c: bool) -> u8 {
    ((if z {
        0x80int
    } else {
        0int
    }) + (if n {
        0x40int
    } else {
        0int
    }) + (if h {
        0x20int
    } else {
        0int
    }) + (if c {
        0x10int
    } else {
        0int
    })) as u8
}

/// Build an F byte from the four flags; the low nibble is zero.
pub fn flags(z: bool, n: bool, h: bool, c: bool) -> (r: u8)
    ensures
        r == spec_flags(z, n, h, c),
        r % 16 == 0,
{
    (if z {
        0x80
    } else {
        0
    }) + (if n {
        0x40
    } else {
        0
    }) + (if h {
        0x20
    } else {
        0
    }) + (if c {
        0x10
    } else {
        0
    })
}

/// ADD A,b: Z from the wrapped sum, N clear, half-carry at bit 3, carry at
/// bit 8. The flags are a pure function of (a, b).
pub fn alu_add(a: u8, b: u8) -> (r: (u8, u8))
    ensures
        r.0 == (a + b) % 256,
        r.1 == spec_flags((a + b) % 256 == 0, false, a % 16 + b % 16 > 15, a + b > 255),
{
    let sum: u16 = a as u16 + b as u16;
    let result: u8 = (sum % 256) as u8;
    (result, flags(result == 0, false, a % 16 + b % 16 > 15, sum > 255))
}

/// ADC A,b: ADD with the incoming carry folded into both the sum and the
/// half-carry.
pub fn alu_adc(a: u8, b: u8, carry: bool) -> (r: (u8, u8))
    ensures
        ({
            let cin = if carry {
                1int
            } else {
                0int
            };
            &&& r.0 == (a + b + cin) % 256
            &&& r.1 == spec_flags(
                (a + b + cin) % 256 == 0,
                false,
                a % 16 + b % 16 + cin > 15,
                a + b + cin > 255,
            )
        }),
{
    let cin: u16 = if carry {
        1
    } else {
        0
    };
    let sum: u16 = a as u16 + b as u16 + cin;
    let result: u8 = (sum % 256) as u8;
    (
        result,
        flags(result == 0, false, a as u16 % 16 + b as u16 % 16 + cin > 15, sum > 255),
    )
}

/// SUB A,b: Z from the wrapped difference, N set, half-borrow at bit 3,
/// borrow at bit 8. CP is this with the result discarded.
pub fn alu_sub(a: u8, b: u8) -> (r: (u8, u8))
    ensures
        r.0 == (a - b + 256) % 256,
        r.1 == spec_flags((a - b + 256) % 256 == 0, true, a % 16 < b % 16, a < b),
{
    let diff: u16 = (a as u16 + 256) - b as u16;
    let result: u8 = (diff % 256) as u8;
    (result, flags(result == 0, true, a % 16 < b % 16, a < b))
}

/// SBC A,b: SUB with the incoming carry folded into both borrows.
pub fn alu_sbc(a: u8, b: u8, carry: bool) -> (r: (u8, u8))
    ensures
        ({
            let cin = if carry {
                1int
            } else {
                0int
            };
            &&& r.0 == (a - b - cin + 512) % 256
            &&& r.1 == spec_flags(
                (a - b - cin + 512) % 256 == 0,
                true,
                a % 16 < b % 16 + cin,
                a < b + cin,
            )
        }),
{
    let cin: u16 = if carry {
        1
    } else {
        0
    };
    let diff: u16 = (a as u16 + 512) - b as u16 - cin;
    let result: u8 = (diff % 256) as u8;
    (
        result,
        flags(
            result == 0,
            true,
            (a as u16) % 16 < (b as u16) % 16 + cin,
            (a as u16) < b as u16 + cin,
        ),
    )
}

/// AND A,b: N and C clear, H set.
pub fn alu_and(a: u8, b: u8) -> (r: (u8, u8))
    ensures
        r.0 == a & b,
        r.1 == spec_flags(a & b == 0, false, true, false),
{
    let result: u8 = a & b;
    (result, flags(result == 0, false, true, false))
}

/// OR A,b: N, H and C clear.
pub fn alu_or(a: u8, b: u8) -> (r: (u8, u8))
    ensures
        r.0 == a | b,
        r.1 == spec_flags(a | b == 0, false, false, false),
{
    let result: u8 = a | b;
    (result, flags(result == 0, false, false, false))
}

/// XOR A,b: N, H and C clear.
pub fn alu_xor(a: u8, b: u8) -> (r: (u8, u8))
    ensures
        r.0 == (a ^ b),
        r.1 == spec_flags(a ^ b == 0, false, false, false),
{
    let result: u8 = a ^ b;
    (result, flags(result == 0, false, false, false))
}

/// INC r: Z, N clear, H at bit 3; C is left as it was.
pub fn alu_inc(a: u8, old_flags: u8) -> (r: (u8, u8))
    ensures
        r.0 == (a + 1) % 256,
        r.1 == spec_flags((a + 1) % 256 == 0, false, a % 16 == 15, old_flags & 0x10u8 != 0),
{
    let result: u8 = if a == 255 {
        0
    } else {
        a + 1
    };
    (result, flags(result == 0, false, a % 16 == 15, old_flags & 0x10 != 0))
}

/// DEC r: Z, N set, half-borrow at bit 3; C is left as it was.
pub fn alu_dec(a: u8, old_flags: u8) -> (r: (u8, u8))
    ensures
        r.0 == (a - 1 + 256) % 256,
        r.1 == spec_flags((a - 1 + 256) % 256 == 0, true, a % 16 == 0, old_flags & 0x10u8 != 0),
{
    let result: u8 = if a == 0 {
        255
    } else {
        a - 1
    };
    (result, flags(result == 0, true, a % 16 == 0, old_flags & 0x10 != 0))
}

/// ADD HL,rr: Z untouched, N clear, half-carry at bit 11, carry at bit 15.
pub fn alu_add16(hl: u16, rr: u16, old_flags: u8) -> (r: (u16, u8))
    ensures
        r.0 == (hl + rr) % 0x10000,
        r.1 == spec_flags(
            old_flags & 0x80u8 != 0,
            false,
            hl % 0x1000 + rr % 0x1000 > 0xFFF,
            hl + rr > 0xFFFF,
        ),
{
    let sum: u32 = hl as u32 + rr as u32;
    let result: u16 = (sum % 0x10000) as u16;
    (
        result,
        flags(
            old_flags & 0x80 != 0,
            false,
            hl % 0x1000 + rr % 0x1000 > 0xFFF,
            sum > 0xFFFF,
        ),
    )
}

/// ADD SP,e8 and LD HL,SP+e8: Z and N clear; H and C come from the low
/// byte's unsigned addition, whatever the operand's sign.
pub fn alu_add_sp_signed(sp: u16, e: u8) -> (r: (u16, u8))
    ensures
        r.0 == (sp + (if e >= 128 {
            e - 256
        } else {
            e as int
        }) + 0x10000) % 0x10000,
        r.1 == spec_flags(false, false, sp % 16 + e % 16 > 15, sp % 256 + e > 255),
{
    let offset: u16 = if e >= 128 {
        e as u16 + 0xFF00
    } else {
        e as u16
    };
    let result: u16 = sp.wrapping_add(offset);
    proof {
        let se: int = if e >= 128 {
            e - 256
        } else {
            e as int
        };
        assert(result == (sp + se + 0x10000) % 0x10000) by {
            assert(result == (sp + offset) % 0x10000);
            if e >= 128 {
                assert(offset == se + 0x10000);
                vstd::arithmetic::div_mod::lemma_mod_sub_multiples_vanish(
                    sp + se + 2 * 0x10000,
                    0x10000,
                );
            }
        }
    }
    (result, flags(false, false, sp % 16 + e as u16 % 16 > 15, sp % 256 + e as u16 > 255))
}

/// DAA: adjust A to packed BCD after an add or subtract, using N, H, C.
/// Z comes from the adjusted value, H clears, C latches a high adjust.
pub fn alu_daa(a: u8, f: u8) -> (r: (u8, u8))
    ensures
        ({
            let n = f & 0x40u8 != 0;
            let h = f & 0x20u8 != 0;
            let c = f & 0x10u8 != 0;
            let adjusted: int = if !n {
                let lo: int = if h || a % 16 > 9 {
                    6
                } else {
                    0
                };
                let hi: int = if c || a > 0x99 {
                    0x60
                } else {
                    0
                };
                (a + lo + hi) % 256
            } else {
                let lo: int = if h {
                    6
                } else {
                    0
                };
                let hi: int = if c {
                    0x60
                } else {
                    0
                };
                (a - lo - hi + 512) % 256
            };
            &&& r.0 == adjusted
            &&& r.1 == spec_flags(adjusted == 0, n, false, c || (!n && (c || a > 0x99)))
        }),
{
    let n: bool = f & 0x40 != 0;
    let h: bool = f & 0x20 != 0;
    let c: bool = f & 0x10 != 0;
    let result: u8;
    let new_c: bool;
    if !n {
        let lo: u16 = if h || a % 16 > 9 {
            6
        } else {
            0
        };
        let hi: u16 = if c || a > 0x99 {
            0x60
        } else {
            0
        };
        result = ((a as u16 + lo + hi) % 256) as u8;
        new_c = c || a > 0x99;
    } else {
        let lo: u16 = if h {
            6
        } else {
            0
        };
        let hi: u16 = if c {
            0x60
        } else {
            0
        };
        result = ((a as u16 + 512 - lo - hi) % 256) as u8;
        new_c = c;
    }
    (result, flags(result == 0, n, false, new_c))
}

/// RLC: rotate left; bit 7 goes to both bit 0 and the carry.
pub fn alu_rlc(a: u8) -> (r: (u8, u8))
    ensures
        r.0 == (a % 128) * 2 + a / 128,
        r.1 == spec_flags((a % 128) * 2 + a / 128 == 0, false, false, a >= 128),
{
    let result: u8 = (a % 128) * 2 + a / 128;
    (result, flags(result == 0, false, false, a >= 128))
}

/// RRC: rotate right; bit 0 goes to both bit 7 and the carry.
pub fn alu_rrc(a: u8) -> (r: (u8, u8))
    ensures
        r.0 == a / 2 + (a % 2) * 128,
        r.1 == spec_flags(a / 2 + (a % 2) * 128 == 0, false, false, a % 2 == 1),
{
    let result: u8 = a / 2 + (a % 2) * 128;
    (result, flags(result == 0, false, false, a % 2 == 1))
}

/// RL: rotate left through carry.
pub fn alu_rl(a: u8, carry: bool) -> (r: (u8, u8))
    ensures
        r.0 == (a % 128) * 2 + (if carry {
            1int
        } else {
            0int
        }),
        r.1 == spec_flags(
            (a % 128) * 2 + (if carry {
                1int
            } else {
                0int
            }) == 0,
            false,
            false,
            a >= 128,
        ),
{
    let cin: u8 = if carry {
        1
    } else {
        0
    };
    let result: u8 = (a % 128) * 2 + cin;
    (result, flags(result == 0, false, false, a >= 128))
}

/// RR: rotate right through carry.
pub fn alu_rr(a: u8, carry: bool) -> (r: (u8, u8))
    ensures
        r.0 == a / 2 + (if carry {
            128int
        } else {
            0int
        }),
        r.1 == spec_flags(
            a / 2 + (if carry {
                128int
            } else {
                0int
            }) == 0,
            false,
            false,
            a % 2 == 1,
        ),
{
    let cin: u8 = if carry {
        128
    } else {
        0
    };
    let result: u8 = a / 2 + cin;
    (result, flags(result == 0, false, false, a % 2 == 1))
}

/// SLA: shift left; bit 7 to carry, bit 0 cleared.
pub fn alu_sla(a: u8) -> (r: (u8, u8))
    ensures
        r.0 == (a % 128) * 2,
        r.1 == spec_flags((a % 128) * 2 == 0, false, false, a >= 128),
{
    let result: u8 = (a % 128) * 2;
    (result, flags(result == 0, false, false, a >= 128))
}

/// SRA: arithmetic shift right; bit 7 kept, bit 0 to carry.
pub fn alu_sra(a: u8) -> (r: (u8, u8))
    ensures
        r.0 == a / 2 + (a / 128) * 128,
        r.1 == spec_flags(a / 2 + (a / 128) * 128 == 0, false, false, a % 2 == 1),
{
    let result: u8 = a / 2 + (a / 128) * 128;
    (result, flags(result == 0, false, false, a % 2 == 1))
}

/// SWAP: exchange nibbles; only Z can set.
pub fn alu_swap(a: u8) -> (r: (u8, u8))
    ensures
        r.0 == (a % 16) * 16 + a / 16,
        r.1 == spec_flags((a % 16) * 16 + a / 16 == 0, false, false, false),
{
    let result: u8 = (a % 16) * 16 + a / 16;
    (result, flags(result == 0, false, false, false))
}

/// SRL: logical shift right; bit 0 to carry, bit 7 cleared.
pub fn alu_srl(a: u8) -> (r: (u8, u8))
    ensures
        r.0 == a / 2,
        r.1 == spec_flags(a / 2 == 0, false, false, a % 2 == 1),
{
    let result: u8 = a / 2;
    (result, flags(result == 0, false, false, a % 2 == 1))
}

/// BIT n,r: Z from the tested bit, N clear, H set; C kept.
pub fn alu_bit(a: u8, bit: u8, old_flags: u8) -> (r: u8)
    requires
        bit < 8,
    ensures
        r == spec_flags((a >> bit) & 1 == 0, false, true, old_flags & 0x10u8 != 0),
{
    flags((a >> bit) & 1 == 0, false, true, old_flags & 0x10 != 0)
}

/// RES n,r: clear one bit.
pub fn alu_res(a: u8, bit: u8) -> (r: u8)
    requires
        bit < 8,
    ensures
        r == a & !(1u8 << bit),
{
    a & !(1u8 << bit)
}

/// SET n,r: set one bit.
pub fn alu_set(a: u8, bit: u8) -> (r: u8)
    requires
        bit < 8,
    ensures
        r == a | (1u8 << bit),
{
    a | (1u8 << bit)
}

} // verus!
