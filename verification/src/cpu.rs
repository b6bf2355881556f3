//! CPU: instruction fetch, decode and execute, interrupt service, HALT and
//! the HALT bug, and the EI delay.
//!
//! Every bus access the CPU makes costs one machine cycle; internal cycles
//! with no bus traffic are spent through `delay_cycle`. Arithmetic results
//! and flags come from the ALU functions, whose contracts pin them exactly.
//! The F register's low nibble always reads zero.

use vstd::prelude::*;

use crate::alu;
use crate::alu::spec_flags;
use crate::interrupts::InterruptType;
use crate::interrupts::spec_interrupt_vector;

verus! {

/// What the CPU needs from the system it is plugged into. `inv` is the
/// provider's own well-formedness, carried through every operation.
pub trait CpuBusProvider: Sized {
    spec fn inv(&self) -> bool;

    /// The byte a read of the given address returns in this state.
    spec fn spec_read_value(&self, addr: u16) -> u8;

    /// Whether some enabled interrupt is pending in this state.
    spec fn spec_interrupt_pending(&self) -> bool;

    fn read(&mut self, addr: u16) -> (r: u8)
        requires
            old(self).inv(),
        ensures
            final(self).inv(),
            r == old(self).spec_read_value(addr),
            // Interrupt requests latch: a read never un-pends an interrupt.
            old(self).spec_interrupt_pending() ==> final(self).spec_interrupt_pending(),
    ;

    fn write(&mut self, addr: u16, data: u8)
        requires
            old(self).inv(),
        ensures
            final(self).inv(),
    ;

    /// One machine cycle with no bus access.
    fn delay_cycle(&mut self)
        requires
            old(self).inv(),
        ensures
            final(self).inv(),
    ;

    /// The pending interrupt the CPU must service, acknowledged.
    fn take_next_interrupt(&mut self) -> (r: Option<InterruptType>)
        requires
            old(self).inv(),
        ensures
            final(self).inv(),
    ;

    /// Whether some enabled interrupt is pending.
    fn check_interrupts(&self) -> (r: bool)
        ensures
            r == self.spec_interrupt_pending(),
    ;
}

/// The 8-bit register an operand-table index names: B, C, D, E, H, L, A
/// (index 6, the memory operand, is resolved over the bus by the caller).
pub open spec fn spec_reg8(cpu: Cpu, idx: u8) -> u8 {
    if idx == 0 {
        cpu.b
    } else if idx == 1 {
        cpu.c
    } else if idx == 2 {
        cpu.d
    } else if idx == 3 {
        cpu.e
    } else if idx == 4 {
        cpu.h
    } else if idx == 5 {
        cpu.l
    } else {
        cpu.a
    }
}

/// The CPU with the named 8-bit register replaced.
pub open spec fn spec_with_reg8(cpu: Cpu, idx: u8, v: u8) -> Cpu {
    if idx == 0 {
        Cpu { b: v, ..cpu }
    } else if idx == 1 {
        Cpu { c: v, ..cpu }
    } else if idx == 2 {
        Cpu { d: v, ..cpu }
    } else if idx == 3 {
        Cpu { e: v, ..cpu }
    } else if idx == 4 {
        Cpu { h: v, ..cpu }
    } else if idx == 5 {
        Cpu { l: v, ..cpu }
    } else {
        Cpu { a: v, ..cpu }
    }
}

/// The 16-bit register pair a table index names: BC, DE, HL, SP.
pub open spec fn spec_rr(cpu: Cpu, idx: u8) -> u16 {
    if idx == 0 {
        (cpu.b * 256 + cpu.c) as u16
    } else if idx == 1 {
        (cpu.d * 256 + cpu.e) as u16
    } else if idx == 2 {
        (cpu.h * 256 + cpu.l) as u16
    } else {
        cpu.sp
    }
}

/// The CPU with the named 16-bit register pair replaced.
pub open spec fn spec_with_rr(cpu: Cpu, idx: u8, v: u16) -> Cpu {
    if idx == 0 {
        Cpu { b: (v / 256) as u8, c: (v % 256) as u8, ..cpu }
    } else if idx == 1 {
        Cpu { d: (v / 256) as u8, e: (v % 256) as u8, ..cpu }
    } else if idx == 2 {
        Cpu { h: (v / 256) as u8, l: (v % 256) as u8, ..cpu }
    } else {
        Cpu { sp: v, ..cpu }
    }
}

/// One accumulator operation by ALU-table index 0..8 (ADD, ADC, SUB, SBC,
/// AND, XOR, OR, CP): the new A and F. CP leaves A in place. This is the
/// flag law of the ALU functions, phrased over the F byte.
pub open spec fn spec_alu_acc(a: u8, f: u8, which: u8, operand: u8) -> (u8, u8) {
    let cin: int = if f & 0x10u8 != 0 {
        1
    } else {
        0
    };
    if which == 0 {
        (
            ((a + operand) % 256) as u8,
            spec_flags((a + operand) % 256 == 0, false, a % 16 + operand % 16 > 15, a + operand > 255),
        )
    } else if which == 1 {
        (
            ((a + operand + cin) % 256) as u8,
            spec_flags(
                (a + operand + cin) % 256 == 0,
                false,
                a % 16 + operand % 16 + cin > 15,
                a + operand + cin > 255,
            ),
        )
    } else if which == 2 {
        (
            ((a - operand + 256) % 256) as u8,
            spec_flags((a - operand + 256) % 256 == 0, true, a % 16 < operand % 16, a < operand),
        )
    } else if which == 3 {
        (
            ((a - operand - cin + 512) % 256) as u8,
            spec_flags(
                (a - operand - cin + 512) % 256 == 0,
                true,
                a % 16 < operand % 16 + cin,
                a < operand + cin,
            ),
        )
    } else if which == 4 {
        ((a & operand), spec_flags(a & operand == 0, false, true, false))
    } else if which == 5 {
        ((a ^ operand), spec_flags(a ^ operand == 0, false, false, false))
    } else if which == 6 {
        ((a | operand), spec_flags(a | operand == 0, false, false, false))
    } else {
        (a, spec_flags((a - operand + 256) % 256 == 0, true, a % 16 < operand % 16, a < operand))
    }
}

/// DAA's BCD adjustment of A under the current N, H, C flags.
pub open spec fn spec_daa(a: u8, f: u8) -> (u8, u8) {
    let n = f & 0x40u8 != 0;
    let h = f & 0x20u8 != 0;
    let c = f & 0x10u8 != 0;
    let adjusted: int = if !n {
        let lo: int = if h || a % 16 > 9 {
            6
        } else {
            0
        };
        let hi: int = if c || a > 0x99 {
            0x60
        } else {
            0
        };
        (a + lo + hi) % 256
    } else {
        let lo: int = if h {
            6
        } else {
            0
        };
        let hi: int = if c {
            0x60
        } else {
            0
        };
        (a - lo - hi + 512) % 256
    };
    (adjusted as u8, spec_flags(adjusted == 0, n, false, c || (!n && (c || a > 0x99))))
}

/// The one-instruction step relation (the protocol of the decode table):
/// how executing the already-fetched opcode moves the CPU's own registers.
/// `pre` is the state just after the opcode fetch: PC is past the opcode
/// byte (unless the HALT bug held it back), the CPU is awake and the bug
/// latch is clear. Operations whose operands live in registers are pinned
/// exactly; operations whose operands travel over the bus are pinned in
/// frame: only STOP stops, only HALT halts or arms the HALT bug, IME moves
/// only through DI and RETI, the EI latch only through EI and DI, and SP
/// and PC are fixed wherever they are operand-independent.
pub open spec fn spec_executed(pre: Cpu, post: Cpu, op: u8) -> bool {
    &&& post.wf()
    &&& post.stopped == (op == 0x10)
    &&& (post.halted ==> op == 0x76)
    &&& (post.halt_bug ==> op == 0x76 && !pre.ime)
    &&& (post.ime && !pre.ime ==> op == 0xD9)
    &&& (!post.ime && pre.ime ==> op == 0xF3)
    &&& (post.ei_pending != pre.ei_pending ==> op == 0xFB || op == 0xF3)
    &&& (op == 0x00 ==> post == pre)
    &&& (op == 0x10 ==> post == (Cpu {
        stopped: true,
        pc: vstd::wrapping::u16_specs::wrapping_add(pre.pc, 1),
        ..pre
    }))
    &&& (op == 0x76 ==> (post == (Cpu { halted: true, ..pre }) || post == (Cpu {
        halt_bug: true,
        ..pre
    })))
    &&& (op == 0xF3 ==> post == (Cpu { ime: false, ei_pending: false, ..pre }))
    &&& (op == 0xFB ==> post == (Cpu { ei_pending: true, ..pre }))
    &&& (0x40 <= op < 0x80 && op != 0x76 && op % 8 != 6 && (op - 0x40) / 8 != 6 ==> post
        == spec_with_reg8(pre, ((op - 0x40) / 8) as u8, spec_reg8(pre, (op % 8) as u8)))
    &&& (0x80 <= op < 0xC0 && op % 8 != 6 ==> ({
        let rf = spec_alu_acc(pre.a, pre.f, ((op - 0x80) / 8) as u8, spec_reg8(pre, (op % 8) as u8));
        post == (Cpu { a: rf.0, f: rf.1, ..pre })
    }))
    &&& (op < 0x40 && op % 8 == 4 && op / 8 != 6 ==> ({
        let r0 = spec_reg8(pre, (op / 8) as u8);
        post == (Cpu {
            f: spec_flags((r0 + 1) % 256 == 0, false, r0 % 16 == 15, pre.f & 0x10u8 != 0),
            ..spec_with_reg8(pre, (op / 8) as u8, ((r0 + 1) % 256) as u8)
        })
    }))
    &&& (op < 0x40 && op % 8 == 5 && op / 8 != 6 ==> ({
        let r0 = spec_reg8(pre, (op / 8) as u8);
        post == (Cpu {
            f: spec_flags((r0 - 1 + 256) % 256 == 0, true, r0 % 16 == 0, pre.f & 0x10u8 != 0),
            ..spec_with_reg8(pre, (op / 8) as u8, ((r0 - 1 + 256) % 256) as u8)
        })
    }))
    &&& (op < 0x40 && op % 16 == 3 ==> post == spec_with_rr(
        pre,
        (op / 16) as u8,
        vstd::wrapping::u16_specs::wrapping_add(spec_rr(pre, (op / 16) as u8), 1),
    ))
    &&& (op < 0x40 && op % 16 == 0xB ==> post == spec_with_rr(
        pre,
        (op / 16) as u8,
        vstd::wrapping::u16_specs::wrapping_sub(spec_rr(pre, (op / 16) as u8), 1),
    ))
    &&& (op < 0x40 && op % 16 == 9 ==> ({
        let hl = spec_rr(pre, 2);
        let rr = spec_rr(pre, (op / 16) as u8);
        post == (Cpu {
            f: spec_flags(
                pre.f & 0x80u8 != 0,
                false,
                hl % 0x1000 + rr % 0x1000 > 0xFFF,
                hl + rr > 0xFFFF,
            ),
            ..spec_with_rr(pre, 2, ((hl + rr) % 0x10000) as u16)
        })
    }))
    &&& (op == 0x07 ==> post == (Cpu {
        a: ((pre.a % 128) * 2 + pre.a / 128) as u8,
        f: spec_flags(false, false, false, pre.a >= 128),
        ..pre
    }))
    &&& (op == 0x0F ==> post == (Cpu {
        a: (pre.a / 2 + (pre.a % 2) * 128) as u8,
        f: spec_flags(false, false, false, pre.a % 2 == 1),
        ..pre
    }))
    &&& (op == 0x17 ==> ({
        let cin: int = if pre.f & 0x10u8 != 0 {
            1
        } else {
            0
        };
        post == (Cpu {
            a: ((pre.a % 128) * 2 + cin) as u8,
            f: spec_flags(false, false, false, pre.a >= 128),
            ..pre
        })
    }))
    &&& (op == 0x1F ==> ({
        let cin: int = if pre.f & 0x10u8 != 0 {
            128
        } else {
            0
        };
        post == (Cpu {
            a: (pre.a / 2 + cin) as u8,
            f: spec_flags(false, false, false, pre.a % 2 == 1),
            ..pre
        })
    }))
    &&& (op == 0x27 ==> ({
        let rf = spec_daa(pre.a, pre.f);
        post == (Cpu { a: rf.0, f: rf.1, ..pre })
    }))
    &&& (op == 0x2F ==> post == (Cpu {
        a: (255 - pre.a) as u8,
        f: spec_flags(pre.f & 0x80u8 != 0, true, true, pre.f & 0x10u8 != 0),
        ..pre
    }))
    &&& (op == 0x37 ==> post == (Cpu {
        f: spec_flags(pre.f & 0x80u8 != 0, false, false, true),
        ..pre
    }))
    &&& (op == 0x3F ==> post == (Cpu {
        f: spec_flags(pre.f & 0x80u8 != 0, false, false, pre.f & 0x10u8 == 0),
        ..pre
    }))
    &&& (op == 0xE9 ==> post == (Cpu { pc: (pre.h * 256 + pre.l) as u16, ..pre }))
    &&& (op == 0xF9 ==> post == (Cpu { sp: (pre.h * 256 + pre.l) as u16, ..pre }))
    &&& (op >= 0xC0 && op % 8 == 7 ==> post == (Cpu {
        sp: vstd::wrapping::u16_specs::wrapping_sub(pre.sp, 2),
        pc: (op - 0xC7) as u16,
        ..pre
    }))
    &&& (op == 0xC5 || op == 0xD5 || op == 0xE5 || op == 0xF5 ==> post == (Cpu {
        sp: vstd::wrapping::u16_specs::wrapping_sub(pre.sp, 2),
        ..pre
    }))
}

/// The CPU just after an opcode fetch: awake, the HALT-bug latch clear,
/// and PC past the opcode byte — unless the bug was armed, in which case PC
/// stays put and that byte will be fetched again by the next instruction.
pub open spec fn spec_post_fetch(pre: Cpu) -> Cpu {
    Cpu {
        halted: false,
        halt_bug: false,
        pc: if pre.halt_bug {
            pre.pc
        } else {
            vstd::wrapping::u16_specs::wrapping_add(pre.pc, 1)
        },
        ..pre
    }
}

/// One full instruction boundary on the execution path: the opcode byte
/// `op` (the bus value at the old PC) is fetched and executed per the step
/// relation, and then a pending EI commits IME, exactly when the EI was
/// already pending at the boundary and the instruction left it pending.
pub open spec fn spec_instruction_boundary(pre: Cpu, post: Cpu, op: u8) -> bool {
    exists|stepped: Cpu|
        {
            &&& #[trigger] spec_executed(spec_post_fetch(pre), stepped, op)
            &&& (pre.ei_pending && stepped.ei_pending ==> post == (Cpu {
                ime: true,
                ei_pending: false,
                ..stepped
            }))
            &&& (!(pre.ei_pending && stepped.ei_pending) ==> post == stepped)
        }
}

/// The interrupt service sequence's effect on the CPU: IME cleared, the CPU
/// awake, PC pushed (SP two lower) and loaded with an interrupt vector (or
/// 0x0000 when the pending bit vanished between check and acknowledge);
/// every register and latch besides PC, SP, IME and the halt state is kept.
pub open spec fn spec_interrupt_serviced(pre: Cpu, post: Cpu) -> bool {
    &&& !post.ime
    &&& !post.halted
    &&& post.sp == vstd::wrapping::u16_specs::wrapping_sub(pre.sp, 2)
    &&& post.a == pre.a
    &&& post.f == pre.f
    &&& post.b == pre.b
    &&& post.c == pre.c
    &&& post.d == pre.d
    &&& post.e == pre.e
    &&& post.h == pre.h
    &&& post.l == pre.l
    &&& post.ei_pending == pre.ei_pending
    &&& post.stopped == pre.stopped
    &&& post.halt_bug == pre.halt_bug
    &&& (post.pc == 0 || (exists|k: InterruptType| post.pc == #[trigger] spec_interrupt_vector(k)))
}

pub struct Cpu {
    pub a: u8,
    /// Flags; the low nibble is always zero.
    pub f: u8,
    pub b: u8,
    pub c: u8,
    pub d: u8,
    pub e: u8,
    pub h: u8,
    pub l: u8,
    pub sp: u16,
    pub pc: u16,
    /// Interrupt master enable.
    pub ime: bool,
    /// EI has been executed; IME turns on after the next instruction.
    pub ei_pending: bool,
    pub halted: bool,
    /// The HALT bug is armed: the next opcode byte is fetched without
    /// advancing PC, so one instruction byte is executed twice.
    pub halt_bug: bool,
    pub stopped: bool,
}

impl Cpu {
    /// The data-model invariant: F's low nibble reads zero.
    pub open spec fn wf(self) -> bool {
        self.f % 16 == 0
    }

    /// Power-on state (boot ROM path).
    pub fn new() -> (r: Cpu)
        ensures
            r.wf(),
            r.pc == 0,
    {
        Cpu {
            a: 0,
            f: 0,
            b: 0,
            c: 0,
            d: 0,
            e: 0,
            h: 0,
            l: 0,
            sp: 0,
            pc: 0,
            ime: false,
            ei_pending: false,
            halted: false,
            halt_bug: false,
            stopped: false,
        }
    }

    /// Register state the boot ROM leaves behind (skip-bootrom path).
    pub fn new_skip_boot_rom() -> (r: Cpu)
        ensures
            r.wf(),
            r.pc == 0x100,
            r.sp == 0xFFFE,
            r.a == 0x01,
    {
        Cpu {
            a: 0x01,
            f: 0xB0,
            b: 0x00,
            c: 0x13,
            d: 0x00,
            e: 0xD8,
            h: 0x01,
            l: 0x4D,
            sp: 0xFFFE,
            pc: 0x100,
            ime: false,
            ei_pending: false,
            halted: false,
            halt_bug: false,
            stopped: false,
        }
    }

    pub fn bc(&self) -> (r: u16)
        ensures
            r == self.b * 256 + self.c,
    {
        self.b as u16 * 256 + self.c as u16
    }

    pub fn de(&self) -> (r: u16)
        ensures
            r == self.d * 256 + self.e,
    {
        self.d as u16 * 256 + self.e as u16
    }

    pub fn hl(&self) -> (r: u16)
        ensures
            r == self.h * 256 + self.l,
    {
        self.h as u16 * 256 + self.l as u16
    }

    pub fn af(&self) -> (r: u16)
        ensures
            r == self.a * 256 + self.f,
    {
        self.a as u16 * 256 + self.f as u16
    }

    fn set_bc(&mut self, v: u16)
        ensures
            *final(self) == (Cpu { b: (v / 256) as u8, c: (v % 256) as u8, ..*old(self) }),
    {
        self.b = (v / 256) as u8;
        self.c = (v % 256) as u8;
    }

    fn set_de(&mut self, v: u16)
        ensures
            *final(self) == (Cpu { d: (v / 256) as u8, e: (v % 256) as u8, ..*old(self) }),
    {
        self.d = (v / 256) as u8;
        self.e = (v % 256) as u8;
    }

    fn set_hl(&mut self, v: u16)
        ensures
            *final(self) == (Cpu { h: (v / 256) as u8, l: (v % 256) as u8, ..*old(self) }),
    {
        self.h = (v / 256) as u8;
        self.l = (v % 256) as u8;
    }

    /// Set AF; the F low nibble is forced to zero.
    fn set_af(&mut self, v: u16)
        ensures
            *final(self) == (Cpu {
                a: (v / 256) as u8,
                f: (((v % 256) / 16) * 16) as u8,
                ..*old(self)
            }),
            final(self).wf(),
    {
        self.a = (v / 256) as u8;
        let low: u8 = (v % 256) as u8;
        self.f = (low / 16) * 16;
    }

    fn flag_z(&self) -> (r: bool)
        ensures
            r == (self.f & 0x80u8 != 0),
    {
        self.f & 0x80 != 0
    }

    fn flag_c(&self) -> (r: bool)
        ensures
            r == (self.f & 0x10u8 != 0),
    {
        self.f & 0x10 != 0
    }

    /// 16-bit register pair by table index 0..4: BC, DE, HL, SP.
    fn get_rr(&self, idx: u8) -> (r: u16)
        requires
            idx < 4,
        ensures
            r == spec_rr(*self, idx),
    {
        if idx == 0 {
            self.bc()
        } else if idx == 1 {
            self.de()
        } else if idx == 2 {
            self.hl()
        } else {
            self.sp
        }
    }

    fn set_rr(&mut self, idx: u8, v: u16)
        requires
            idx < 4,
            old(self).wf(),
        ensures
            final(self).wf(),
            *final(self) == spec_with_rr(*old(self), idx, v),
    {
        if idx == 0 {
            self.set_bc(v);
        } else if idx == 1 {
            self.set_de(v);
        } else if idx == 2 {
            self.set_hl(v);
        } else {
            self.sp = v;
        }
    }

    /// 8-bit operand by table index 0..8: B, C, D, E, H, L, (HL), A.
    /// Index 6 costs the one bus read.
    fn get_r8<B: CpuBusProvider>(&mut self, idx: u8, bus: &mut B) -> (r: u8)
        requires
            idx < 8,
            old(self).wf(),
            old(bus).inv(),
        ensures
            final(self).wf(),
            final(bus).inv(),
            *final(self) == *old(self),
            idx != 6 ==> r == spec_reg8(*old(self), idx),
    {
        if idx == 0 {
            self.b
        } else if idx == 1 {
            self.c
        } else if idx == 2 {
            self.d
        } else if idx == 3 {
            self.e
        } else if idx == 4 {
            self.h
        } else if idx == 5 {
            self.l
        } else if idx == 6 {
            bus.read(self.hl())
        } else {
            self.a
        }
    }

    fn set_r8<B: CpuBusProvider>(&mut self, idx: u8, v: u8, bus: &mut B)
        requires
            idx < 8,
            old(self).wf(),
            old(bus).inv(),
        ensures
            final(self).wf(),
            final(bus).inv(),
            idx != 6 ==> *final(self) == spec_with_reg8(*old(self), idx, v),
            idx == 6 ==> *final(self) == *old(self),
    {
        if idx == 0 {
            self.b = v;
        } else if idx == 1 {
            self.c = v;
        } else if idx == 2 {
            self.d = v;
        } else if idx == 3 {
            self.e = v;
        } else if idx == 4 {
            self.h = v;
        } else if idx == 5 {
            self.l = v;
        } else if idx == 6 {
            bus.write(self.hl(), v);
        } else {
            self.a = v;
        }
    }

    /// Fetch the opcode byte at PC. An armed HALT bug leaves PC where it is,
    /// so the byte will be fetched again by the next instruction.
    fn fetch_opcode<B: CpuBusProvider>(&mut self, bus: &mut B) -> (r: u8)
        requires
            old(self).wf(),
            old(bus).inv(),
        ensures
            final(self).wf(),
            final(bus).inv(),
            r == old(bus).spec_read_value(old(self).pc),
            old(bus).spec_interrupt_pending() ==> final(bus).spec_interrupt_pending(),
            *final(self) == (Cpu {
                pc: if old(self).halt_bug {
                    old(self).pc
                } else {
                    vstd::wrapping::u16_specs::wrapping_add(old(self).pc, 1)
                },
                halt_bug: false,
                ..*old(self)
            }),
    {
        let op: u8 = bus.read(self.pc);
        if self.halt_bug {
            self.halt_bug = false;
        } else {
            self.pc = self.pc.wrapping_add(1);
        }
        op
    }

    fn read_imm8<B: CpuBusProvider>(&mut self, bus: &mut B) -> (r: u8)
        requires
            old(self).wf(),
            old(bus).inv(),
        ensures
            final(self).wf(),
            final(bus).inv(),
            *final(self) == (Cpu {
                pc: vstd::wrapping::u16_specs::wrapping_add(old(self).pc, 1),
                ..*old(self)
            }),
    {
        let v: u8 = bus.read(self.pc);
        self.pc = self.pc.wrapping_add(1);
        v
    }

    fn read_imm16<B: CpuBusProvider>(&mut self, bus: &mut B) -> (r: u16)
        requires
            old(self).wf(),
            old(bus).inv(),
        ensures
            final(self).wf(),
            final(bus).inv(),
            *final(self) == (Cpu { pc: final(self).pc, ..*old(self) }),
    {
        let lo: u8 = self.read_imm8(bus);
        let hi: u8 = self.read_imm8(bus);
        hi as u16 * 256 + lo as u16
    }

    /// Push a 16-bit value: high byte first, as the hardware does.
    fn push16<B: CpuBusProvider>(&mut self, v: u16, bus: &mut B)
        requires
            old(self).wf(),
            old(bus).inv(),
        ensures
            final(self).wf(),
            final(bus).inv(),
            *final(self) == (Cpu {
                sp: vstd::wrapping::u16_specs::wrapping_sub(old(self).sp, 2),
                ..*old(self)
            }),
    {
        self.sp = self.sp.wrapping_sub(1);
        bus.write(self.sp, (v / 256) as u8);
        self.sp = self.sp.wrapping_sub(1);
        bus.write(self.sp, (v % 256) as u8);
    }

    fn pop16<B: CpuBusProvider>(&mut self, bus: &mut B) -> (r: u16)
        requires
            old(self).wf(),
            old(bus).inv(),
        ensures
            final(self).wf(),
            final(bus).inv(),
            *final(self) == (Cpu {
                sp: vstd::wrapping::u16_specs::wrapping_add(old(self).sp, 2),
                ..*old(self)
            }),
    {
        let lo: u8 = bus.read(self.sp);
        self.sp = self.sp.wrapping_add(1);
        let hi: u8 = bus.read(self.sp);
        self.sp = self.sp.wrapping_add(1);
        hi as u16 * 256 + lo as u16
    }

    /// Branch condition by table index 0..4: NZ, Z, NC, C.
    fn condition(&self, idx: u8) -> (r: bool)
        requires
            idx < 4,
    {
        if idx == 0 {
            !self.flag_z()
        } else if idx == 1 {
            self.flag_z()
        } else if idx == 2 {
            !self.flag_c()
        } else {
            self.flag_c()
        }
    }

    /// PC moved by a signed 8-bit offset.
    fn relative_jump(&mut self, e: u8)
        ensures
            *final(self) == (Cpu { pc: final(self).pc, ..*old(self) }),
    {
        let offset: u16 = if e >= 128 {
            e as u16 + 0xFF00
        } else {
            e as u16
        };
        self.pc = self.pc.wrapping_add(offset);
    }

    /// The interrupt service sequence: 2 blank machine cycles, PC pushed
    /// high then low, IME cleared, PC loaded with the vector of the
    /// highest-priority pending bit (which is also acknowledged), and one
    /// more cycle for the jump. 5 machine cycles in all.
    fn service_interrupt<B: CpuBusProvider>(&mut self, bus: &mut B)
        requires
            old(self).wf(),
            old(bus).inv(),
            !old(self).halted,
        ensures
            final(self).wf(),
            final(bus).inv(),
            spec_interrupt_serviced(*old(self), *final(self)),
    {
        bus.delay_cycle();
        bus.delay_cycle();
        self.ime = false;
        let pc: u16 = self.pc;
        self.sp = self.sp.wrapping_sub(1);
        bus.write(self.sp, (pc / 256) as u8);
        self.sp = self.sp.wrapping_sub(1);
        bus.write(self.sp, (pc % 256) as u8);
        match bus.take_next_interrupt() {
            Some(kind) => {
                self.pc = Self::vector_of(kind);
            },
            None => {
                // The pending bit vanished between the check and the
                // acknowledge; hardware jumps to 0x0000.
                self.pc = 0;
            },
        }
        bus.delay_cycle();
    }

    fn vector_of(kind: InterruptType) -> (r: u16)
        ensures
            r == spec_interrupt_vector(kind),
    {
        match kind {
            InterruptType::Vblank => 0x40,
            InterruptType::LcdStat => 0x48,
            InterruptType::Timer => 0x50,
            InterruptType::Serial => 0x58,
            InterruptType::Joypad => 0x60,
        }
    }

    /// Execute one CB-prefixed operation (rotates, shifts, bit tests): one
    /// operand byte is consumed, and only the 8-bit registers and F move.
    #[verifier::rlimit(100)]
    fn execute_cb<B: CpuBusProvider>(&mut self, bus: &mut B)
        requires
            old(self).wf(),
            old(bus).inv(),
        ensures
            final(self).wf(),
            final(bus).inv(),
            *final(self) == (Cpu {
                pc: vstd::wrapping::u16_specs::wrapping_add(old(self).pc, 1),
                a: final(self).a,
                f: final(self).f,
                b: final(self).b,
                c: final(self).c,
                d: final(self).d,
                e: final(self).e,
                h: final(self).h,
                l: final(self).l,
                ..*old(self)
            }),
    {
        let op: u8 = self.read_imm8(bus);
        let reg: u8 = op % 8;
        let group: u8 = op / 64;
        if group == 0 {
            let kind: u8 = (op / 8) % 8;
            let v: u8 = self.get_r8(reg, bus);
            let carry: bool = self.flag_c();
            let rf: (u8, u8) = if kind == 0 {
                alu::alu_rlc(v)
            } else if kind == 1 {
                alu::alu_rrc(v)
            } else if kind == 2 {
                alu::alu_rl(v, carry)
            } else if kind == 3 {
                alu::alu_rr(v, carry)
            } else if kind == 4 {
                alu::alu_sla(v)
            } else if kind == 5 {
                alu::alu_sra(v)
            } else if kind == 6 {
                alu::alu_swap(v)
            } else {
                alu::alu_srl(v)
            };
            self.set_r8(reg, rf.0, bus);
            self.f = rf.1;
        } else if group == 1 {
            let bit: u8 = (op / 8) % 8;
            let v: u8 = self.get_r8(reg, bus);
            self.f = alu::alu_bit(v, bit, self.f);
        } else if group == 2 {
            let bit: u8 = (op / 8) % 8;
            let v: u8 = self.get_r8(reg, bus);
            self.set_r8(reg, alu::alu_res(v, bit), bus);
        } else {
            let bit: u8 = (op / 8) % 8;
            let v: u8 = self.get_r8(reg, bus);
            self.set_r8(reg, alu::alu_set(v, bit), bus);
        }
    }

    /// Execute one 8-bit arithmetic/logic operation against A, by ALU table
    /// index 0..8: ADD, ADC, SUB, SBC, AND, XOR, OR, CP.
    fn execute_alu(&mut self, which: u8, operand: u8)
        requires
            which < 8,
            old(self).wf(),
        ensures
            final(self).wf(),
            ({
                let rf = spec_alu_acc(old(self).a, old(self).f, which, operand);
                *final(self) == (Cpu { a: rf.0, f: rf.1, ..*old(self) })
            }),
    {
        let carry: bool = self.flag_c();
        if which == 0 {
            let rf = alu::alu_add(self.a, operand);
            self.a = rf.0;
            self.f = rf.1;
        } else if which == 1 {
            let rf = alu::alu_adc(self.a, operand, carry);
            self.a = rf.0;
            self.f = rf.1;
        } else if which == 2 {
            let rf = alu::alu_sub(self.a, operand);
            self.a = rf.0;
            self.f = rf.1;
        } else if which == 3 {
            let rf = alu::alu_sbc(self.a, operand, carry);
            self.a = rf.0;
            self.f = rf.1;
        } else if which == 4 {
            let rf = alu::alu_and(self.a, operand);
            self.a = rf.0;
            self.f = rf.1;
        } else if which == 5 {
            let rf = alu::alu_xor(self.a, operand);
            self.a = rf.0;
            self.f = rf.1;
        } else if which == 6 {
            let rf = alu::alu_or(self.a, operand);
            self.a = rf.0;
            self.f = rf.1;
        } else {
            // CP: SUB without writing A.
            let rf = alu::alu_sub(self.a, operand);
            self.f = rf.1;
        }
    }

    /// Execute the instruction rows 0x00..0x40: loads, 16-bit arithmetic,
    /// rotates of A, relative jumps, DAA and the carry-flag operations.
    fn execute_low<B: CpuBusProvider>(&mut self, op: u8, bus: &mut B)
        requires
            op < 0x40,
            old(self).wf(),
            old(bus).inv(),
            !old(self).stopped,
            !old(self).halted,
            !old(self).halt_bug,
        ensures
            final(self).wf(),
            final(bus).inv(),
            spec_executed(*old(self), *final(self), op),
    {
        if op == 0x00 {
            // NOP
        } else if op == 0x10 {
            // STOP: consumes its operand byte and freezes until the host
            // resets or wakes the system.
            let _ignored: u8 = self.read_imm8(bus);
            self.stopped = true;
        } else if op == 0x08 {
            let addr: u16 = self.read_imm16(bus);
            bus.write(addr, (self.sp % 256) as u8);
            bus.write(addr.wrapping_add(1), (self.sp / 256) as u8);
        } else if op == 0x18 {
            let e: u8 = self.read_imm8(bus);
            self.relative_jump(e);
            bus.delay_cycle();
        } else if op == 0x20 || op == 0x28 || op == 0x30 || op == 0x38 {
            let e: u8 = self.read_imm8(bus);
            if self.condition((op - 0x20) / 8) {
                self.relative_jump(e);
                bus.delay_cycle();
            }
        } else if op % 16 == 1 {
            let v: u16 = self.read_imm16(bus);
            self.set_rr(op / 16, v);
        } else if op % 16 == 3 {
            let idx: u8 = op / 16;
            let v: u16 = self.get_rr(idx);
            self.set_rr(idx, v.wrapping_add(1));
            bus.delay_cycle();
        } else if op % 16 == 0xB {
            let idx: u8 = op / 16;
            let v: u16 = self.get_rr(idx);
            self.set_rr(idx, v.wrapping_sub(1));
            bus.delay_cycle();
        } else if op % 16 == 9 {
            let rf = alu::alu_add16(self.hl(), self.get_rr(op / 16), self.f);
            self.set_hl(rf.0);
            self.f = rf.1;
            bus.delay_cycle();
        } else if op == 0x02 {
            bus.write(self.bc(), self.a);
        } else if op == 0x12 {
            bus.write(self.de(), self.a);
        } else if op == 0x22 {
            let hl: u16 = self.hl();
            bus.write(hl, self.a);
            self.set_hl(hl.wrapping_add(1));
        } else if op == 0x32 {
            let hl: u16 = self.hl();
            bus.write(hl, self.a);
            self.set_hl(hl.wrapping_sub(1));
        } else if op == 0x0A {
            self.a = bus.read(self.bc());
        } else if op == 0x1A {
            self.a = bus.read(self.de());
        } else if op == 0x2A {
            let hl: u16 = self.hl();
            self.a = bus.read(hl);
            self.set_hl(hl.wrapping_add(1));
        } else if op == 0x3A {
            let hl: u16 = self.hl();
            self.a = bus.read(hl);
            self.set_hl(hl.wrapping_sub(1));
        } else if op % 8 == 4 {
            let idx: u8 = op / 8;
            let v: u8 = self.get_r8(idx, bus);
            let rf = alu::alu_inc(v, self.f);
            self.set_r8(idx, rf.0, bus);
            self.f = rf.1;
        } else if op % 8 == 5 {
            let idx: u8 = op / 8;
            let v: u8 = self.get_r8(idx, bus);
            let rf = alu::alu_dec(v, self.f);
            self.set_r8(idx, rf.0, bus);
            self.f = rf.1;
        } else if op % 8 == 6 {
            let v: u8 = self.read_imm8(bus);
            self.set_r8(op / 8, v, bus);
        } else if op == 0x07 {
            // RLCA: as RLC A but Z always clear.
            let carry: bool = self.a >= 0x80;
            let rf = alu::alu_rlc(self.a);
            self.a = rf.0;
            self.f = alu::flags(false, false, false, carry);
        } else if op == 0x0F {
            let carry: bool = self.a % 2 == 1;
            let rf = alu::alu_rrc(self.a);
            self.a = rf.0;
            self.f = alu::flags(false, false, false, carry);
        } else if op == 0x17 {
            let carry: bool = self.a >= 0x80;
            let rf = alu::alu_rl(self.a, self.flag_c());
            self.a = rf.0;
            self.f = alu::flags(false, false, false, carry);
        } else if op == 0x1F {
            let carry: bool = self.a % 2 == 1;
            let rf = alu::alu_rr(self.a, self.flag_c());
            self.a = rf.0;
            self.f = alu::flags(false, false, false, carry);
        } else if op == 0x27 {
            let rf = alu::alu_daa(self.a, self.f);
            self.a = rf.0;
            self.f = rf.1;
        } else if op == 0x2F {
            // CPL: complement A; N and H set, Z and C kept.
            self.a = 255 - self.a;
            self.f = alu::flags(self.flag_z(), true, true, self.flag_c());
        } else if op == 0x37 {
            // SCF
            self.f = alu::flags(self.flag_z(), false, false, true);
        } else if op == 0x3F {
            // CCF
            let c: bool = self.flag_c();
            self.f = alu::flags(self.flag_z(), false, false, !c);
        }
    }

    /// Execute the instruction rows 0xC0..0x100: control flow, the stack,
    /// high-page loads, immediate ALU operations, DI/EI and the CB prefix.
    fn execute_high<B: CpuBusProvider>(&mut self, op: u8, bus: &mut B)
        requires
            op >= 0xC0,
            old(self).wf(),
            old(bus).inv(),
            !old(self).stopped,
            !old(self).halted,
            !old(self).halt_bug,
        ensures
            final(self).wf(),
            final(bus).inv(),
            spec_executed(*old(self), *final(self), op),
    {
        if op == 0xCB {
            self.execute_cb(bus);
        } else if op == 0xC3 {
            let addr: u16 = self.read_imm16(bus);
            self.pc = addr;
            bus.delay_cycle();
        } else if op == 0xE9 {
            self.pc = self.hl();
        } else if op == 0xC2 || op == 0xCA || op == 0xD2 || op == 0xDA {
            let addr: u16 = self.read_imm16(bus);
            if self.condition((op - 0xC2) / 8) {
                self.pc = addr;
                bus.delay_cycle();
            }
        } else if op == 0xCD {
            let addr: u16 = self.read_imm16(bus);
            bus.delay_cycle();
            let pc: u16 = self.pc;
            self.push16(pc, bus);
            self.pc = addr;
        } else if op == 0xC4 || op == 0xCC || op == 0xD4 || op == 0xDC {
            let addr: u16 = self.read_imm16(bus);
            if self.condition((op - 0xC4) / 8) {
                bus.delay_cycle();
                let pc: u16 = self.pc;
                self.push16(pc, bus);
                self.pc = addr;
            }
        } else if op == 0xC9 {
            self.pc = self.pop16(bus);
            bus.delay_cycle();
        } else if op == 0xD9 {
            // RETI: return and enable interrupts at once.
            self.pc = self.pop16(bus);
            bus.delay_cycle();
            self.ime = true;
        } else if op == 0xC0 || op == 0xC8 || op == 0xD0 || op == 0xD8 {
            bus.delay_cycle();
            if self.condition((op - 0xC0) / 8) {
                self.pc = self.pop16(bus);
                bus.delay_cycle();
            }
        } else if op == 0xC1 {
            let v: u16 = self.pop16(bus);
            self.set_bc(v);
        } else if op == 0xD1 {
            let v: u16 = self.pop16(bus);
            self.set_de(v);
        } else if op == 0xE1 {
            let v: u16 = self.pop16(bus);
            self.set_hl(v);
        } else if op == 0xF1 {
            let v: u16 = self.pop16(bus);
            self.set_af(v);
        } else if op == 0xC5 {
            bus.delay_cycle();
            let v: u16 = self.bc();
            self.push16(v, bus);
        } else if op == 0xD5 {
            bus.delay_cycle();
            let v: u16 = self.de();
            self.push16(v, bus);
        } else if op == 0xE5 {
            bus.delay_cycle();
            let v: u16 = self.hl();
            self.push16(v, bus);
        } else if op == 0xF5 {
            bus.delay_cycle();
            let v: u16 = self.af();
            self.push16(v, bus);
        } else if op % 8 == 6 {
            // ALU A,d8 (0xC6, 0xCE, ..., 0xFE).
            let v: u8 = self.read_imm8(bus);
            self.execute_alu((op - 0xC0) / 8, v);
        } else if op % 8 == 7 {
            // RST (0xC7, 0xCF, ..., 0xFF).
            bus.delay_cycle();
            let pc: u16 = self.pc;
            self.push16(pc, bus);
            self.pc = (op - 0xC7) as u16;
        } else if op == 0xE0 {
            let offset: u8 = self.read_imm8(bus);
            bus.write(0xFF00 + offset as u16, self.a);
        } else if op == 0xF0 {
            let offset: u8 = self.read_imm8(bus);
            self.a = bus.read(0xFF00 + offset as u16);
        } else if op == 0xE2 {
            bus.write(0xFF00 + self.c as u16, self.a);
        } else if op == 0xF2 {
            self.a = bus.read(0xFF00 + self.c as u16);
        } else if op == 0xEA {
            let addr: u16 = self.read_imm16(bus);
            bus.write(addr, self.a);
        } else if op == 0xFA {
            let addr: u16 = self.read_imm16(bus);
            self.a = bus.read(addr);
        } else if op == 0xE8 {
            let e: u8 = self.read_imm8(bus);
            let rf = alu::alu_add_sp_signed(self.sp, e);
            self.sp = rf.0;
            self.f = rf.1;
            bus.delay_cycle();
            bus.delay_cycle();
        } else if op == 0xF8 {
            let e: u8 = self.read_imm8(bus);
            let rf = alu::alu_add_sp_signed(self.sp, e);
            self.set_hl(rf.0);
            self.f = rf.1;
            bus.delay_cycle();
        } else if op == 0xF9 {
            self.sp = self.hl();
            bus.delay_cycle();
        } else if op == 0xF3 {
            // DI takes effect at once and cancels a pending EI.
            self.ime = false;
            self.ei_pending = false;
        } else if op == 0xFB {
            // EI takes effect after the following instruction.
            self.ei_pending = true;
        } else {
            // 0xD3, 0xDB, 0xDD, 0xE3, 0xE4, 0xEB, 0xEC, 0xED, 0xF4, 0xFC,
            // 0xFD: unmapped encodings; executed as no-operations.
        }
    }

    /// Execute the already-fetched opcode.
    fn execute<B: CpuBusProvider>(&mut self, op: u8, bus: &mut B)
        requires
            old(self).wf(),
            old(bus).inv(),
            !old(self).stopped,
            !old(self).halted,
            !old(self).halt_bug,
        ensures
            final(self).wf(),
            final(bus).inv(),
            spec_executed(*old(self), *final(self), op),
            // The HALT bug arms exactly when HALT finds IME off with an
            // enabled interrupt already pending.
            op == 0x76 ==> (final(self).halt_bug <==> (!old(self).ime && old(
                bus,
            ).spec_interrupt_pending())),
    {
        if op < 0x40 {
            self.execute_low(op, bus);
        } else if op == 0x76 {
            // HALT. With IME off and an interrupt already pending, the CPU
            // fails to halt and instead arms the HALT bug.
            if self.ime {
                self.halted = true;
            } else if bus.check_interrupts() {
                self.halt_bug = true;
            } else {
                self.halted = true;
            }
        } else if op < 0x80 {
            // LD r,r.
            let src: u8 = op % 8;
            let dst: u8 = (op - 0x40) / 8;
            let v: u8 = self.get_r8(src, bus);
            self.set_r8(dst, v, bus);
        } else if op < 0xC0 {
            let v: u8 = self.get_r8(op % 8, bus);
            self.execute_alu((op - 0x80) / 8, v);
        } else {
            self.execute_high(op, bus);
        }
    }

    /// Run one instruction boundary, per the protocol: a stopped CPU only
    /// idles; a halted CPU with nothing pending sleeps one cycle unchanged;
    /// with IME set and an interrupt pending the service sequence runs;
    /// otherwise one opcode byte is fetched at PC — without advancing PC
    /// when the HALT bug is armed, which is thereby disarmed, so that byte
    /// is executed exactly once more — and executed per the step relation,
    /// after which a pending EI commits IME. Always advances the bus by at
    /// least one machine cycle.
    pub fn next_instruction<B: CpuBusProvider>(&mut self, bus: &mut B)
        requires
            old(self).wf(),
            old(bus).inv(),
        ensures
            final(self).wf(),
            final(bus).inv(),
            old(self).stopped ==> *final(self) == *old(self),
            !old(self).stopped && old(self).halted && !old(bus).spec_interrupt_pending()
                ==> *final(self) == *old(self),
            !old(self).stopped && old(self).ime && old(bus).spec_interrupt_pending()
                ==> spec_interrupt_serviced(*old(self), *final(self)),
            (!old(self).stopped && (!old(self).halted || old(bus).spec_interrupt_pending()) && !(
            old(self).ime && old(bus).spec_interrupt_pending())) ==> spec_instruction_boundary(
                *old(self),
                *final(self),
                old(bus).spec_read_value(old(self).pc),
            ),
            // The HALT bug: fetching HALT with IME off while an enabled
            // interrupt is already pending arms the replay latch; and the
            // latch only ever comes out of that configuration.
            (!old(self).stopped && (!old(self).halted || old(bus).spec_interrupt_pending()) && !(
            old(self).ime && old(bus).spec_interrupt_pending()) && old(bus).spec_read_value(
                old(self).pc,
            ) == 0x76 && !old(self).ime && old(bus).spec_interrupt_pending()) ==> final(self).halt_bug,
            (!old(self).stopped && (!old(self).halted || old(bus).spec_interrupt_pending()) && !(
            old(self).ime && old(bus).spec_interrupt_pending())) ==> (final(self).halt_bug
                ==> old(bus).spec_read_value(old(self).pc) == 0x76 && !old(self).ime),
    {
        if self.stopped {
            bus.delay_cycle();
            return ;
        }
        let enable_ime_after: bool = self.ei_pending;
        if self.halted {
            if bus.check_interrupts() {
                self.halted = false;
            } else {
                bus.delay_cycle();
                return ;
            }
        }
        if self.ime && bus.check_interrupts() {
            self.service_interrupt(bus);
            return ;
        }
        let op: u8 = self.fetch_opcode(bus);
        self.execute(op, bus);
        let ghost stepped: Cpu = *self;
        if enable_ime_after && self.ei_pending {
            self.ime = true;
            self.ei_pending = false;
        }
        proof {
            assert(spec_instruction_boundary(
                *old(self),
                *self,
                old(bus).spec_read_value(old(self).pc),
            )) by {
                assert(spec_executed(
                    spec_post_fetch(*old(self)),
                    stepped,
                    old(bus).spec_read_value(old(self).pc),
                ));
            }
        }
    }
}

} // verus!

