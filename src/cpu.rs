//! The register file, the cycle clock and the instruction handlers.
#![allow(non_snake_case)]

use vstd::prelude::*;

use crate::alu::{
    add16_flags, add16_value, add8_flags, add8_value, adc_value, flags_of, has_flag, inc16_flags,
    inc16_value, is_flag, lemma_flag_update, lemma_flags_of, CARRY, HALFCARRY, SUBTRACT, ZERO,
};
use crate::mmu::{next_addr, next_address, zeros, MemView, BIOS_SIZE, MMU, ROM_SIZE};

verus! {

/// One of the seven 8-bit general registers.
#[derive(Clone, Copy, Debug, PartialEq, Eq, Structural)]
pub enum Reg8 {
    A,
    B,
    C,
    D,
    E,
    H,
    L,
}

/// One of the 16-bit registers that the pair instructions act on.
#[derive(Clone, Copy, Debug, PartialEq, Eq, Structural)]
pub enum Pair {
    BC,
    DE,
    HL,
    SP,
}

/// The register that a 3-bit register field of an opcode names (0 to 5 and
/// 7; 6 names the byte at `hl` instead).
pub open spec fn reg_of(code: u8) -> Reg8 {
    if code == 0 {
        Reg8::B
    } else if code == 1 {
        Reg8::C
    } else if code == 2 {
        Reg8::D
    } else if code == 3 {
        Reg8::E
    } else if code == 4 {
        Reg8::H
    } else if code == 5 {
        Reg8::L
    } else {
        Reg8::A
    }
}

/// The register pair that a 2-bit pair field of an opcode names.
pub open spec fn pair_of(code: u8) -> Pair {
    if code == 0 {
        Pair::BC
    } else if code == 1 {
        Pair::DE
    } else if code == 2 {
        Pair::HL
    } else {
        Pair::SP
    }
}

/// Whether base opcode `op` has a handler of its own, rather than the
/// fallback. The prefix 0xCB counts as without one: it leads to the extended
/// table, none of whose entries has a handler.
pub open spec fn handled(op: u8) -> bool {
    ||| 0x40 <= op <= 0x7F && op != 0x76
    ||| 0x80 <= op <= 0x8F
    ||| op < 0x40 && (op % 8 == 6 || op % 16 == 9 || op % 16 == 3)
    ||| op == 0x00 || op == 0x02 || op == 0x0A || op == 0x12 || op == 0x1A
    ||| op == 0x22 || op == 0x2A || op == 0x3F
    ||| op == 0xC6 || op == 0xCE || op == 0xEA || op == 0xFA
}

/// The value of a register pair: `hi` in bits 15 to 8, `lo` in bits 7 to 0.
pub open spec fn pair_value(hi: u8, lo: u8) -> u16 {
    (hi * 256 + lo) as u16
}

/// Bits 15 to 8 of a word.
pub open spec fn high_byte(n: u16) -> u8 {
    (n / 256) as u8
}

/// Bits 7 to 0 of a word.
pub open spec fn low_byte(n: u16) -> u8 {
    (n % 256) as u8
}

/// The processor's visible state. The pairs `bc`, `de` and `hl` are views
/// over the 8-bit registers, not stored on their own.
pub struct RegisterSet {
    pub a: u8,
    pub b: u8,
    pub c: u8,
    pub d: u8,
    pub e: u8,
    pub h: u8,
    pub l: u8,
    /// Flags: 0x80 zero, 0x40 subtract, 0x20 half carry, 0x10 carry.
    pub f: u8,
    /// Program counter: the address of the next byte to fetch.
    pub pc: u16,
    /// Stack pointer.
    pub sp: u16,
}

impl RegisterSet {
    /// The low four bits of the flags register are always clear.
    pub open spec fn wf(&self) -> bool {
        self.f & 0x0F == 0
    }

    pub open spec fn reg(&self, r: Reg8) -> u8 {
        match r {
            Reg8::A => self.a,
            Reg8::B => self.b,
            Reg8::C => self.c,
            Reg8::D => self.d,
            Reg8::E => self.e,
            Reg8::H => self.h,
            Reg8::L => self.l,
        }
    }

    /// This register set with `r` holding `v`.
    pub open spec fn with_reg(self, r: Reg8, v: u8) -> RegisterSet {
        match r {
            Reg8::A => RegisterSet { a: v, ..self },
            Reg8::B => RegisterSet { b: v, ..self },
            Reg8::C => RegisterSet { c: v, ..self },
            Reg8::D => RegisterSet { d: v, ..self },
            Reg8::E => RegisterSet { e: v, ..self },
            Reg8::H => RegisterSet { h: v, ..self },
            Reg8::L => RegisterSet { l: v, ..self },
        }
    }

    /// This register set with the flags register holding `f`.
    pub open spec fn with_flags(self, f: u8) -> RegisterSet {
        RegisterSet { f: f, ..self }
    }

    pub open spec fn flag_set(&self, flag: u8) -> bool {
        has_flag(self.f, flag)
    }

    pub open spec fn hl_value(&self) -> u16 {
        pair_value(self.h, self.l)
    }

    pub open spec fn bc_value(&self) -> u16 {
        pair_value(self.b, self.c)
    }

    pub open spec fn de_value(&self) -> u16 {
        pair_value(self.d, self.e)
    }

    /// This register set with the pair `hl` holding `n`.
    pub open spec fn with_hl(self, n: u16) -> RegisterSet {
        RegisterSet { h: high_byte(n), l: low_byte(n), ..self }
    }

    pub open spec fn with_bc(self, n: u16) -> RegisterSet {
        RegisterSet { b: high_byte(n), c: low_byte(n), ..self }
    }

    pub open spec fn with_de(self, n: u16) -> RegisterSet {
        RegisterSet { d: high_byte(n), e: low_byte(n), ..self }
    }

    pub open spec fn pair(&self, p: Pair) -> u16 {
        match p {
            Pair::BC => self.bc_value(),
            Pair::DE => self.de_value(),
            Pair::HL => self.hl_value(),
            Pair::SP => self.sp,
        }
    }

    /// This register set with `p` holding `n`.
    pub open spec fn with_pair(self, p: Pair, n: u16) -> RegisterSet {
        match p {
            Pair::BC => self.with_bc(n),
            Pair::DE => self.with_de(n),
            Pair::HL => self.with_hl(n),
            Pair::SP => RegisterSet { sp: n, ..self },
        }
    }

    pub open spec fn with_pc(self, pc: u16) -> RegisterSet {
        RegisterSet { pc: pc, ..self }
    }

    pub open spec fn is_zeroed(&self) -> bool {
        &&& self.a == 0 && self.b == 0 && self.c == 0 && self.d == 0
        &&& self.e == 0 && self.h == 0 && self.l == 0 && self.f == 0
        &&& self.pc == 0 && self.sp == 0
    }

    /// All registers zero.
    pub fn new() -> (r: RegisterSet)
        ensures
            r.wf(),
            r.is_zeroed(),
    {
        proof {
            assert(0u8 & 0x0F == 0) by (bit_vector);
        }
        RegisterSet { a: 0, b: 0, c: 0, d: 0, e: 0, h: 0, l: 0, f: 0, pc: 0, sp: 0 }
    }

    /// The value of register `r`.
    pub fn reg8(&self, r: Reg8) -> (v: u8)
        ensures
            v == self.reg(r),
    {
        match r {
            Reg8::A => self.a,
            Reg8::B => self.b,
            Reg8::C => self.c,
            Reg8::D => self.d,
            Reg8::E => self.e,
            Reg8::H => self.h,
            Reg8::L => self.l,
        }
    }

    /// Stores `v` in register `r`.
    pub fn set_reg8(&mut self, r: Reg8, v: u8)
        ensures
            *final(self) == old(self).with_reg(r, v),
    {
        match r {
            Reg8::A => self.a = v,
            Reg8::B => self.b = v,
            Reg8::C => self.c = v,
            Reg8::D => self.d = v,
            Reg8::E => self.e = v,
            Reg8::H => self.h = v,
            Reg8::L => self.l = v,
        }
    }

    /// The value of the 16-bit register `p`.
    pub fn pair16(&self, p: Pair) -> (r: u16)
        ensures
            r == self.pair(p),
    {
        match p {
            Pair::BC => self.bc(),
            Pair::DE => self.de(),
            Pair::HL => self.hl(),
            Pair::SP => self.sp,
        }
    }

    /// Stores `n` in the 16-bit register `p`.
    pub fn set_pair16(&mut self, p: Pair, n: u16)
        ensures
            *final(self) == old(self).with_pair(p, n),
    {
        match p {
            Pair::BC => self.set_bc(n),
            Pair::DE => self.set_de(n),
            Pair::HL => self.set_hl(n),
            Pair::SP => self.sp = n,
        }
    }

    /// `h` and `l` as one word, `h` high.
    pub fn hl(&self) -> (r: u16)
        ensures
            r == self.hl_value(),
    {
        join_pair(self.h, self.l)
    }

    /// `b` and `c` as one word, `b` high.
    pub fn bc(&self) -> (r: u16)
        ensures
            r == self.bc_value(),
    {
        join_pair(self.b, self.c)
    }

    /// `d` and `e` as one word, `d` high.
    pub fn de(&self) -> (r: u16)
        ensures
            r == self.de_value(),
    {
        join_pair(self.d, self.e)
    }

    /// Splits `n` into `h` (high byte) and `l` (low byte).
    pub fn set_hl(&mut self, n: u16)
        ensures
            *final(self) == old(self).with_hl(n),
    {
        proof {
            lemma_split_pair(n);
        }
        self.h = (n >> 8) as u8;
        self.l = n as u8;
    }

    /// Splits `n` into `b` (high byte) and `c` (low byte).
    pub fn set_bc(&mut self, n: u16)
        ensures
            *final(self) == old(self).with_bc(n),
    {
        proof {
            lemma_split_pair(n);
        }
        self.b = (n >> 8) as u8;
        self.c = n as u8;
    }

    /// Splits `n` into `d` (high byte) and `e` (low byte).
    pub fn set_de(&mut self, n: u16)
        ensures
            *final(self) == old(self).with_de(n),
    {
        proof {
            lemma_split_pair(n);
        }
        self.d = (n >> 8) as u8;
        self.e = n as u8;
    }
}

/// Elapsed time: `m` counts machine steps, `t` raw cycles, four per step.
pub struct Clock {
    pub m: u64,
    pub t: u64,
}

impl Clock {
    pub open spec fn wf(&self) -> bool {
        self.t == 4 * self.m
    }

    /// Whether `steps` more steps fit in the counters.
    pub open spec fn can_tick(&self, steps: int) -> bool {
        self.t + 4 * steps <= u64::MAX
    }

    /// Whether this clock is `before` moved on by `steps` steps.
    pub open spec fn advanced(&self, before: Clock, steps: int) -> bool {
        self.m == before.m + steps && self.t == before.t + 4 * steps
    }

    pub fn new() -> (r: Clock)
        ensures
            r.wf(),
            r.m == 0 && r.t == 0,
    {
        Clock { m: 0, t: 0 }
    }

    /// Moves the clock on by `t` steps, that is `4 * t` cycles.
    pub fn tick(&mut self, t: u8)
        requires
            old(self).wf(),
            old(self).can_tick(t as int),
        ensures
            final(self).wf(),
            final(self).advanced(*old(self), t as int),
    {
        self.m = self.m + t as u64;
        self.t = self.t + t as u64 * 4;
    }
}

/// The whole processor as mathematical values: registers, memory, clock.
pub struct Machine {
    pub regs: RegisterSet,
    pub mem: MemView,
    pub clock: Clock,
}

impl Machine {
    pub open spec fn wf(self) -> bool {
        self.regs.wf() && self.mem.wf() && self.clock.wf()
    }

    /// This machine is `before` after an instruction that left `regs` and
    /// `mem` and took `steps` steps.
    pub open spec fn stepped(self, before: Machine, regs: RegisterSet, mem: MemView, steps: int) -> bool {
        &&& self.wf()
        &&& self.regs == regs
        &&& self.mem == mem
        &&& self.clock.advanced(before.clock, steps)
    }

    /// LD r,r': `dst` takes the value of `src`.
    pub open spec fn did_ld_rr(self, before: Machine, dst: Reg8, src: Reg8) -> bool {
        self.stepped(before, before.regs.with_reg(dst, before.regs.reg(src)), before.mem, 1)
    }

    /// LD r,n: `dst` takes the operand byte under `pc`, and `pc` moves past it.
    pub open spec fn did_ld_rn(self, before: Machine, dst: Reg8) -> bool {
        let pc = before.regs.pc;
        self.stepped(
            before,
            before.regs.with_pc(next_address(pc)).with_reg(dst, before.mem.load(pc)),
            before.mem.touch(pc),
            2,
        )
    }

    /// LD r,(HL): `dst` takes the byte at `hl`.
    pub open spec fn did_ld_r_hlm(self, before: Machine, dst: Reg8) -> bool {
        let hl = before.regs.hl_value();
        self.stepped(before, before.regs.with_reg(dst, before.mem.load(hl)), before.mem.touch(hl), 2)
    }

    /// LD (HL),r: the byte at `hl` takes the value of `src`.
    pub open spec fn did_ld_hlm_r(self, before: Machine, src: Reg8) -> bool {
        let hl = before.regs.hl_value();
        self.stepped(before, before.regs, before.mem.store(hl, before.regs.reg(src)), 2)
    }

    /// LD (HL),n: the byte at `hl` takes the operand byte under `pc`.
    pub open spec fn did_ld_hlm_n(self, before: Machine) -> bool {
        let pc = before.regs.pc;
        let hl = before.regs.hl_value();
        self.stepped(
            before,
            before.regs.with_pc(next_address(pc)),
            before.mem.touch(pc).store(hl, before.mem.load(pc)),
            3,
        )
    }

    /// LD A,(rr): the accumulator takes the byte at `addr`.
    pub open spec fn did_ld_a_m(self, before: Machine, addr: u16) -> bool {
        self.stepped(before, before.regs.with_reg(Reg8::A, before.mem.load(addr)), before.mem.touch(addr), 2)
    }

    /// LD (rr),A: the byte at `addr` takes the accumulator.
    pub open spec fn did_ld_m_a(self, before: Machine, addr: u16) -> bool {
        self.stepped(before, before.regs, before.mem.store(addr, before.regs.a), 2)
    }

    /// LD A,(nn): the accumulator takes the byte at the little-endian
    /// operand word under `pc`, and `pc` moves past the word.
    pub open spec fn did_ld_a_nn(self, before: Machine) -> bool {
        let pc = before.regs.pc;
        let nn = before.mem.load_word(pc);
        let mem = before.mem.touch_word(pc);
        self.stepped(
            before,
            before.regs.with_pc(next_address(next_address(pc))).with_reg(Reg8::A, mem.load(nn)),
            mem.touch(nn),
            4,
        )
    }

    /// LD (nn),A: the byte at the little-endian operand word under `pc`
    /// takes the accumulator, and `pc` moves past the word.
    pub open spec fn did_ld_nn_a(self, before: Machine) -> bool {
        let pc = before.regs.pc;
        let nn = before.mem.load_word(pc);
        self.stepped(
            before,
            before.regs.with_pc(next_address(next_address(pc))),
            before.mem.touch_word(pc).store(nn, before.regs.a),
            4,
        )
    }

    /// LDI (HL),A: the byte at `hl` takes the accumulator, then `hl` goes
    /// up by one with the flags of a 16-bit increment.
    pub open spec fn did_ldi_hlm_a(self, before: Machine) -> bool {
        let hl = before.regs.hl_value();
        self.stepped(
            before,
            before.regs.with_flags(inc16_flags(hl)).with_hl(inc16_value(hl)),
            before.mem.store(hl, before.regs.a),
            2,
        )
    }

    /// LDI A,(HL): the accumulator takes the byte at `hl`, then `hl` goes
    /// up by one with the flags of a 16-bit increment.
    pub open spec fn did_ldi_a_hlm(self, before: Machine) -> bool {
        let hl = before.regs.hl_value();
        self.stepped(
            before,
            before.regs.with_reg(Reg8::A, before.mem.load(hl)).with_flags(inc16_flags(hl)).with_hl(
                inc16_value(hl),
            ),
            before.mem.touch(hl),
            2,
        )
    }

    /// ADD A,x: once the operand `n` has been read, leaving `regs` and
    /// `mem`, the accumulator takes the 8-bit sum and the flags those of
    /// the addition.
    pub open spec fn did_add8(self, before: Machine, regs: RegisterSet, mem: MemView, n: u8, steps: int) -> bool {
        self.stepped(
            before,
            regs.with_flags(add8_flags(regs.a, n)).with_reg(Reg8::A, add8_value(regs.a, n)),
            mem,
            steps,
        )
    }

    /// ADC A,x: as `did_add8`, but the accumulator takes one more when the
    /// carry flag was set before the instruction. The flags are those of the
    /// addition of `n` alone: the extra one recomputes none of them. Real
    /// hardware derives them from the whole three-term sum instead.
    pub open spec fn did_adc8(self, before: Machine, regs: RegisterSet, mem: MemView, n: u8, steps: int) -> bool {
        self.stepped(
            before,
            regs.with_flags(add8_flags(regs.a, n)).with_reg(Reg8::A, adc_value(regs.a, n, regs.flag_set(CARRY))),
            mem,
            steps,
        )
    }

    /// ADD HL,rr: `hl` takes the 16-bit sum of itself and `p`, the flags
    /// those of the addition.
    pub open spec fn did_add_hl(self, before: Machine, p: Pair) -> bool {
        let hl = before.regs.hl_value();
        let v = before.regs.pair(p);
        self.stepped(
            before,
            before.regs.with_flags(add16_flags(hl, v)).with_hl(add16_value(hl, v)),
            before.mem,
            2,
        )
    }

    /// INC rr: `p` goes up by one, the flags those of a 16-bit increment.
    pub open spec fn did_inc16(self, before: Machine, p: Pair) -> bool {
        let v = before.regs.pair(p);
        self.stepped(
            before,
            before.regs.with_flags(inc16_flags(v)).with_pair(p, inc16_value(v)),
            before.mem,
            2,
        )
    }

    /// CCF: the carry flag flips; the other flags stay.
    pub open spec fn did_ccf(self, before: Machine) -> bool {
        self.stepped(before, before.regs.with_flags(before.regs.f ^ CARRY), before.mem, 1)
    }

    /// NOP, and any opcode without a handler: one step passes, nothing else.
    pub open spec fn did_nop(self, before: Machine) -> bool {
        self.stepped(before, before.regs, before.mem, 1)
    }

    /// What executing opcode `op` does to `before`, its operands read from
    /// the bytes under `pc`.
    pub open spec fn executed(self, before: Machine, op: u8) -> bool {
        let regs = before.regs;
        let mem = before.mem;
        let hl = regs.hl_value();
        if 0x40 <= op <= 0x7F && op != 0x76 {
            let dst = (op / 8) % 8;
            let src = op % 8;
            if src == 6 {
                self.did_ld_r_hlm(before, reg_of(dst))
            } else if dst == 6 {
                self.did_ld_hlm_r(before, reg_of(src))
            } else {
                self.did_ld_rr(before, reg_of(dst), reg_of(src))
            }
        } else if 0x80 <= op <= 0x8F {
            let src = op % 8;
            let n = if src == 6 {
                mem.load(hl)
            } else {
                regs.reg(reg_of(src))
            };
            let after = if src == 6 {
                mem.touch(hl)
            } else {
                mem
            };
            let steps = if src == 6 {
                2int
            } else {
                1int
            };
            if op < 0x88 {
                self.did_add8(before, regs, after, n, steps)
            } else {
                self.did_adc8(before, regs, after, n, steps)
            }
        } else if op < 0x40 && op % 8 == 6 {
            if op == 0x36 {
                self.did_ld_hlm_n(before)
            } else {
                self.did_ld_rn(before, reg_of(op / 8))
            }
        } else if op < 0x40 && op % 16 == 9 {
            self.did_add_hl(before, pair_of(op / 16))
        } else if op < 0x40 && op % 16 == 3 {
            self.did_inc16(before, pair_of(op / 16))
        } else if op == 0x02 {
            self.did_ld_m_a(before, regs.bc_value())
        } else if op == 0x12 {
            self.did_ld_m_a(before, regs.de_value())
        } else if op == 0x0A {
            self.did_ld_a_m(before, regs.bc_value())
        } else if op == 0x1A {
            self.did_ld_a_m(before, regs.de_value())
        } else if op == 0x22 {
            self.did_ldi_hlm_a(before)
        } else if op == 0x2A {
            self.did_ldi_a_hlm(before)
        } else if op == 0xEA {
            self.did_ld_nn_a(before)
        } else if op == 0xFA {
            self.did_ld_a_nn(before)
        } else if op == 0xC6 {
            let pc = regs.pc;
            self.did_add8(before, regs.with_pc(next_address(pc)), mem.touch(pc), mem.load(pc), 2)
        } else if op == 0xCE {
            let pc = regs.pc;
            self.did_adc8(before, regs.with_pc(next_address(pc)), mem.touch(pc), mem.load(pc), 2)
        } else if op == 0x3F {
            self.did_ccf(before)
        } else if op == 0xCB {
            self.executed_extended(before.fetched(), before.mem.load(before.regs.pc))
        } else {
            self.did_nop(before)
        }
    }

    /// What executing opcode `op` of the extended table (the one behind the
    /// 0xCB prefix) does to `before`. No extended instruction has a handler
    /// here, so every one takes the fallback: one step, nothing else.
    pub open spec fn executed_extended(self, before: Machine, op: u8) -> bool {
        self.did_nop(before)
    }

    /// The machine after the opcode under `pc` has been fetched: `pc` moved
    /// past it.
    pub open spec fn fetched(self) -> Machine {
        Machine {
            regs: self.regs.with_pc(next_address(self.regs.pc)),
            mem: self.mem.touch(self.regs.pc),
            clock: self.clock,
        }
    }
}

/// The processor: registers, clock and the address space it runs against.
pub struct Z80 {
    pub clock: Clock,
    pub regs: RegisterSet,
    pub mmu: MMU,
}

impl View for Z80 {
    type V = Machine;

    open spec fn view(&self) -> Machine {
        Machine { regs: self.regs, mem: self.mmu@, clock: self.clock }
    }
}

impl Z80 {
    pub open spec fn wf(&self) -> bool {
        self@.wf()
    }

    /// Whether the processor is well formed and its clock can take `steps`
    /// more steps.
    pub open spec fn can_run(&self, steps: int) -> bool {
        self.wf() && self.clock.can_tick(steps)
    }

    /// A processor at power-on, with zeroed firmware and ROM.
    pub fn new() -> (r: Z80)
        ensures
            r.wf(),
            r.regs.is_zeroed(),
            r.clock.m == 0 && r.clock.t == 0,
            r.mmu@ == MemView::fresh(zeros(BIOS_SIZE as nat), zeros(ROM_SIZE as nat)),
    {
        Z80 { clock: Clock::new(), regs: RegisterSet::new(), mmu: MMU::new() }
    }

    /// A processor at power-on, running against `mmu`.
    pub fn with_mmu(mmu: MMU) -> (r: Z80)
        requires
            mmu.wf(),
        ensures
            r.wf(),
            r.regs.is_zeroed(),
            r.clock.m == 0 && r.clock.t == 0,
            r.mmu == mmu,
    {
        Z80 { clock: Clock::new(), regs: RegisterSet::new(), mmu: mmu }
    }

    /// Zeroes the registers and the clock together; memory is kept.
    pub fn reset(&mut self)
        requires
            old(self).wf(),
        ensures
            final(self).wf(),
            final(self).regs.is_zeroed(),
            final(self).clock.m == 0 && final(self).clock.t == 0,
            final(self).mmu == old(self).mmu,
    {
        self.regs = RegisterSet::new();
        self.clock = Clock::new();
    }

    /// The clock's two counters, steps then cycles.
    pub fn elapsed_cycles(&self) -> (r: (u64, u64))
        ensures
            r == (self.clock.m, self.clock.t),
    {
        (self.clock.m, self.clock.t)
    }

    // Utilities

    /// Reads the byte that `hl` points at.
    fn read_hl(&mut self) -> (r: u8)
        requires
            old(self).wf(),
        ensures
            final(self).wf(),
            r == old(self).mmu@.load(old(self).regs.hl_value()),
            final(self).mmu@ == old(self).mmu@.touch(old(self).regs.hl_value()),
            final(self).regs == old(self).regs,
            final(self).clock == old(self).clock,
    {
        let hl = self.regs.hl();
        self.mmu.read(hl)
    }

    /// Writes `b` where `hl` points.
    fn write_hl(&mut self, b: u8)
        requires
            old(self).wf(),
        ensures
            final(self).wf(),
            final(self).mmu@ == old(self).mmu@.store(old(self).regs.hl_value(), b),
            final(self).regs == old(self).regs,
            final(self).clock == old(self).clock,
    {
        let hl = self.regs.hl();
        self.mmu.write_byte(hl, b);
    }

    /// Reads the operand byte under `pc` and moves `pc` past it.
    fn read_immediate_byte(&mut self) -> (r: u8)
        requires
            old(self).wf(),
        ensures
            final(self).wf(),
            r == old(self).mmu@.load(old(self).regs.pc),
            final(self).mmu@ == old(self).mmu@.touch(old(self).regs.pc),
            final(self).regs == old(self).regs.with_pc(next_address(old(self).regs.pc)),
            final(self).clock == old(self).clock,
    {
        let n = self.mmu.read(self.regs.pc);
        self.regs.pc = next_addr(self.regs.pc);
        n
    }

    /// Reads the little-endian operand word under `pc` and moves `pc` past it.
    fn read_immediate_word(&mut self) -> (r: u16)
        requires
            old(self).wf(),
        ensures
            final(self).wf(),
            r == old(self).mmu@.load_word(old(self).regs.pc),
            final(self).mmu@ == old(self).mmu@.touch_word(old(self).regs.pc),
            final(self).regs == old(self).regs.with_pc(
                next_address(next_address(old(self).regs.pc)),
            ),
            final(self).clock == old(self).clock,
    {
        let nn = self.mmu.read_word(self.regs.pc);
        self.regs.pc = next_addr(next_addr(self.regs.pc));
        nn
    }

    /// Whether `flag` is set in the flags register.
    pub fn flag_is_set(&mut self, flag: u8) -> (r: bool)
        ensures
            r == old(self).regs.flag_set(flag),
            *final(self) == *old(self),
    {
        self.regs.f & flag == flag
    }

    /// Clears every flag.
    pub fn clear_flags(&mut self)
        ensures
            final(self).regs == old(self).regs.with_flags(0),
            final(self).regs.wf(),
            final(self).mmu == old(self).mmu,
            final(self).clock == old(self).clock,
    {
        proof {
            assert(0u8 & 0x0F == 0) by (bit_vector);
        }
        self.regs.f = 0x0;
    }

    /// Sets `flag`, keeping the others.
    pub fn set_flag(&mut self, flag: u8)
        requires
            old(self).regs.wf(),
            is_flag(flag),
        ensures
            final(self).regs == old(self).regs.with_flags(old(self).regs.f | flag),
            final(self).regs.wf(),
            final(self).regs.flag_set(flag),
            forall|g: u8|
                is_flag(g) && g != flag ==> final(self).regs.flag_set(g) == old(
                    self,
                ).regs.flag_set(g),
            final(self).mmu == old(self).mmu,
            final(self).clock == old(self).clock,
    {
        proof {
            lemma_flag_update(self.regs.f, flag, if flag == ZERO { CARRY } else { ZERO });
            assert forall|g: u8| is_flag(g) && g != flag implies has_flag(
                self.regs.f | flag,
                g,
            ) == has_flag(self.regs.f, g) by {
                lemma_flag_update(self.regs.f, flag, g);
            }
        }
        self.regs.f = self.regs.f | flag;
    }

    /// Clears `flag`, keeping the others.
    pub fn unset_flag(&mut self, flag: u8)
        requires
            old(self).regs.wf(),
            is_flag(flag),
        ensures
            final(self).regs == old(self).regs.with_flags(old(self).regs.f & !flag),
            final(self).regs.wf(),
            !final(self).regs.flag_set(flag),
            forall|g: u8|
                is_flag(g) && g != flag ==> final(self).regs.flag_set(g) == old(
                    self,
                ).regs.flag_set(g),
            final(self).mmu == old(self).mmu,
            final(self).clock == old(self).clock,
    {
        proof {
            lemma_flag_update(self.regs.f, flag, if flag == ZERO { CARRY } else { ZERO });
            assert forall|g: u8| is_flag(g) && g != flag implies has_flag(
                self.regs.f & !flag,
                g,
            ) == has_flag(self.regs.f, g) by {
                lemma_flag_update(self.regs.f, flag, g);
            }
        }
        let inverse_flag: u8 = !flag;
        self.regs.f = self.regs.f & inverse_flag;
    }

    // Arithmetic utilities

    /// Adds two bytes. Clears every flag, then sets zero when the unmasked
    /// sum is zero, half carry on a carry out of the low nibble and carry
    /// on a carry out of bit 7. Returns the low eight bits of the sum.
    pub fn add8(&mut self, a: u8, b: u8) -> (r: u8)
        requires
            old(self).regs.wf(),
        ensures
            r == (a + b) % 256,
            r == add8_value(a, b),
            final(self).regs == old(self).regs.with_flags(add8_flags(a, b)),
            final(self).regs.wf(),
            final(self).regs.flag_set(CARRY) == (a + b > 255),
            final(self).regs.flag_set(ZERO) == (a + b == 0),
            final(self).regs.flag_set(HALFCARRY) == (a % 16 + b % 16 > 15),
            !final(self).regs.flag_set(SUBTRACT),
            final(self).mmu == old(self).mmu,
            final(self).clock == old(self).clock,
    {
        // the sum before masking needs nine bits
        let overflowing_sum: u16 = a as u16 + b as u16;
        let half = a % 16 + b % 16 > 15;
        proof {
            lemma_flags_of(overflowing_sum == 0, false, half, overflowing_sum > 0xFF);
        }
        self.regs.f = pack_flags(overflowing_sum == 0, false, half, overflowing_sum > 0xFF);
        (overflowing_sum % 256) as u8
    }

    /// Adds two words. Clears every flag, then sets zero when the unmasked
    /// sum is zero, half carry on a carry out of bit 11 and carry on a
    /// carry out of bit 15. Returns the low sixteen bits of the sum.
    pub fn add16(&mut self, a: u16, b: u16) -> (r: u16)
        requires
            old(self).regs.wf(),
        ensures
            r == (a + b) % 65536,
            r == add16_value(a, b),
            final(self).regs == old(self).regs.with_flags(add16_flags(a, b)),
            final(self).regs.wf(),
            final(self).regs.flag_set(CARRY) == (a + b > 65535),
            final(self).regs.flag_set(ZERO) == (a + b == 0),
            final(self).regs.flag_set(HALFCARRY) == (a % 4096 + b % 4096 > 4095),
            !final(self).regs.flag_set(SUBTRACT),
            final(self).mmu == old(self).mmu,
            final(self).clock == old(self).clock,
    {
        let overflowing_sum: u32 = a as u32 + b as u32;
        let half = a % 4096 + b % 4096 > 4095;
        proof {
            lemma_flags_of(overflowing_sum == 0, false, half, overflowing_sum > 0xFFFF);
        }
        self.regs.f = pack_flags(overflowing_sum == 0, false, half, overflowing_sum > 0xFFFF);
        (overflowing_sum % 65536) as u16
    }

    /// Adds one to a word, wrapping at the top. Clears every flag, then sets
    /// zero on wrap-around; carry stays clear even then.
    pub fn inc16(&mut self, n: u16) -> (r: u16)
        requires
            old(self).regs.wf(),
        ensures
            r == (n + 1) % 65536,
            r == inc16_value(n),
            final(self).regs == old(self).regs.with_flags(inc16_flags(n)),
            final(self).regs.wf(),
            final(self).regs.flag_set(ZERO) == (r == 0),
            !final(self).regs.flag_set(CARRY),
            !final(self).regs.flag_set(HALFCARRY),
            !final(self).regs.flag_set(SUBTRACT),
            final(self).mmu == old(self).mmu,
            final(self).clock == old(self).clock,
    {
        let overflowing_sum: u32 = n as u32 + 1;
        let sum = (overflowing_sum % 65536) as u16;
        proof {
            lemma_flags_of(sum == 0, false, false, false);
        }
        self.regs.f = pack_flags(sum == 0, false, false, false);
        sum
    }
}

impl Z80 {
    // Instruction families

    fn ld_rr(&mut self, dst: Reg8, src: Reg8)
        requires
            old(self).can_run(1),
        ensures
            final(self)@.did_ld_rr(old(self)@, dst, src),
    {
        let v = self.regs.reg8(src);
        self.regs.set_reg8(dst, v);
        self.clock.tick(1);
    }

    fn ld_rn(&mut self, dst: Reg8)
        requires
            old(self).can_run(2),
        ensures
            final(self)@.did_ld_rn(old(self)@, dst),
    {
        let n = self.read_immediate_byte();
        self.regs.set_reg8(dst, n);
        self.clock.tick(2);
    }

    fn ld_r_hlm(&mut self, dst: Reg8)
        requires
            old(self).can_run(2),
        ensures
            final(self)@.did_ld_r_hlm(old(self)@, dst),
    {
        let v = self.read_hl();
        self.regs.set_reg8(dst, v);
        self.clock.tick(2);
    }

    fn ld_hlm_r(&mut self, src: Reg8)
        requires
            old(self).can_run(2),
        ensures
            final(self)@.did_ld_hlm_r(old(self)@, src),
    {
        let r = self.regs.reg8(src);
        self.write_hl(r);
        self.clock.tick(2);
    }

    /// Adds `n` to the accumulator; no clock.
    fn add_a(&mut self, n: u8)
        requires
            old(self).wf(),
        ensures
            final(self).wf(),
            final(self).regs == old(self).regs.with_flags(add8_flags(old(self).regs.a, n)).with_reg(
                Reg8::A,
                add8_value(old(self).regs.a, n),
            ),
            final(self).mmu == old(self).mmu,
            final(self).clock == old(self).clock,
    {
        let a = self.regs.a;
        let sum = self.add8(a, n);
        self.regs.a = sum;
    }

    /// Adds `n` to the accumulator, and one more when the carry flag was set
    /// before; no clock. The sum wraps to eight bits. The flags are those of
    /// the addition of `n` alone: the extra one recomputes none of them.
    fn adc_a(&mut self, n: u8)
        requires
            old(self).wf(),
        ensures
            final(self).wf(),
            final(self).regs == old(self).regs.with_flags(add8_flags(old(self).regs.a, n)).with_reg(
                Reg8::A,
                adc_value(old(self).regs.a, n, old(self).regs.flag_set(CARRY)),
            ),
            final(self).mmu == old(self).mmu,
            final(self).clock == old(self).clock,
    {
        let carry_in = self.flag_is_set(CARRY);
        let a = self.regs.a;
        let sum = self.add8(a, n);
        self.regs.a = if carry_in {
            sum.wrapping_add(1)
        } else {
            sum
        };
    }

    fn add_r(&mut self, src: Reg8)
        requires
            old(self).can_run(1),
        ensures
            final(self)@.did_add8(old(self)@, old(self).regs, old(self).mmu@, old(self).regs.reg(src), 1),
    {
        let r = self.regs.reg8(src);
        self.add_a(r);
        self.clock.tick(1);
    }

    fn adc_r(&mut self, src: Reg8)
        requires
            old(self).can_run(1),
        ensures
            final(self)@.did_adc8(old(self)@, old(self).regs, old(self).mmu@, old(self).regs.reg(src), 1),
    {
        let r = self.regs.reg8(src);
        self.adc_a(r);
        self.clock.tick(1);
    }

    fn add_hl(&mut self, p: Pair)
        requires
            old(self).can_run(2),
        ensures
            final(self)@.did_add_hl(old(self)@, p),
    {
        let hl = self.regs.hl();
        let rr = self.regs.pair16(p);
        let result = self.add16(hl, rr);
        self.regs.set_hl(result);
        self.clock.tick(2);
    }

    fn inc_pair(&mut self, p: Pair)
        requires
            old(self).can_run(2),
        ensures
            final(self)@.did_inc16(old(self)@, p),
    {
        let rr = self.regs.pair16(p);
        let result = self.inc16(rr);
        self.regs.set_pair16(p, result);
        self.clock.tick(2);
    }

    /// LD (HL),n: stores the operand byte at `hl`. 12 cycles.
    pub fn LDHLmn(&mut self)
        requires
            old(self).can_run(3),
        ensures
            final(self)@.did_ld_hlm_n(old(self)@),
    {
        let n = self.read_immediate_byte();
        self.write_hl(n);
        self.clock.tick(3);
    }

    /// LD A,(BC): loads the accumulator with the byte at `bc`. 8 cycles.
    pub fn LDABCm(&mut self)
        requires
            old(self).can_run(2),
        ensures
            final(self)@.did_ld_a_m(old(self)@, old(self).regs.bc_value()),
    {
        let bc = self.regs.bc();
        let bc_value = self.mmu.read(bc);
        self.regs.a = bc_value;
        self.clock.tick(2);
    }

    /// LD A,(DE): loads the accumulator with the byte at `de`. 8 cycles.
    pub fn LDADEm(&mut self)
        requires
            old(self).can_run(2),
        ensures
            final(self)@.did_ld_a_m(old(self)@, old(self).regs.de_value()),
    {
        let de = self.regs.de();
        let de_value = self.mmu.read(de);
        self.regs.a = de_value;
        self.clock.tick(2);
    }

    /// LD A,(nn): loads the accumulator from the address given by the
    /// operand word, low byte first. 16 cycles.
    pub fn LDAnn(&mut self)
        requires
            old(self).can_run(4),
        ensures
            final(self)@.did_ld_a_nn(old(self)@),
    {
        let nn = self.read_immediate_word();
        let nn_value = self.mmu.read(nn);
        self.regs.a = nn_value;
        self.clock.tick(4);
    }

    /// LD (BC),A: stores the accumulator at `bc`. 8 cycles.
    pub fn LDBCmA(&mut self)
        requires
            old(self).can_run(2),
        ensures
            final(self)@.did_ld_m_a(old(self)@, old(self).regs.bc_value()),
    {
        let a = self.regs.a;
        let bc = self.regs.bc();
        self.mmu.write_byte(bc, a);
        self.clock.tick(2);
    }

    /// LD (DE),A: stores the accumulator at `de`. 8 cycles.
    pub fn LDDEmA(&mut self)
        requires
            old(self).can_run(2),
        ensures
            final(self)@.did_ld_m_a(old(self)@, old(self).regs.de_value()),
    {
        let a = self.regs.a;
        let de = self.regs.de();
        self.mmu.write_byte(de, a);
        self.clock.tick(2);
    }

    /// LD (nn),A: stores the accumulator at the address given by the
    /// operand word, low byte first. 16 cycles.
    pub fn LDnmA(&mut self)
        requires
            old(self).can_run(4),
        ensures
            final(self)@.did_ld_nn_a(old(self)@),
    {
        let nn = self.read_immediate_word();
        let a = self.regs.a;
        self.mmu.write_byte(nn, a);
        self.clock.tick(4);
    }

    /// LDI (HL),A: stores the accumulator at `hl`, then increments `hl`.
    /// 8 cycles.
    pub fn LDIHLmA(&mut self)
        requires
            old(self).can_run(2),
        ensures
            final(self)@.did_ldi_hlm_a(old(self)@),
    {
        let a = self.regs.a;
        self.write_hl(a);
        let hl = self.regs.hl();
        let hli = self.inc16(hl);
        self.regs.set_hl(hli);
        self.clock.tick(2);
    }

    /// LDI A,(HL): loads the accumulator with the byte at `hl`, then
    /// increments `hl`. 8 cycles.
    pub fn LDIAHLm(&mut self)
        requires
            old(self).can_run(2),
        ensures
            final(self)@.did_ldi_a_hlm(old(self)@),
    {
        let hl_value = self.read_hl();
        self.regs.a = hl_value;
        let hl = self.regs.hl();
        let hli = self.inc16(hl);
        self.regs.set_hl(hli);
        self.clock.tick(2);
    }

    /// ADD A,n: adds the operand byte to the accumulator. 8 cycles.
    pub fn ADDn(&mut self)
        requires
            old(self).can_run(2),
        ensures
            final(self)@.did_add8(
                old(self)@,
                old(self).regs.with_pc(next_address(old(self).regs.pc)),
                old(self).mmu@.touch(old(self).regs.pc),
                old(self).mmu@.load(old(self).regs.pc),
                2,
            ),
    {
        let n = self.read_immediate_byte();
        self.add_a(n);
        self.clock.tick(2);
    }

    /// ADD A,(HL): adds the byte at `hl` to the accumulator. 8 cycles.
    pub fn ADDHL(&mut self)
        requires
            old(self).can_run(2),
        ensures
            final(self)@.did_add8(
                old(self)@,
                old(self).regs,
                old(self).mmu@.touch(old(self).regs.hl_value()),
                old(self).mmu@.load(old(self).regs.hl_value()),
                2,
            ),
    {
        let n = self.read_hl();
        self.add_a(n);
        self.clock.tick(2);
    }

    /// ADC A,n: adds the operand byte to the accumulator, plus one when the
    /// carry flag was set before the instruction, wrapping to eight bits. The
    /// flags are those of the addition without the carry, where hardware
    /// derives them from the whole sum. 8 cycles.
    pub fn ADCn(&mut self)
        requires
            old(self).can_run(2),
        ensures
            final(self)@.did_adc8(
                old(self)@,
                old(self).regs.with_pc(next_address(old(self).regs.pc)),
                old(self).mmu@.touch(old(self).regs.pc),
                old(self).mmu@.load(old(self).regs.pc),
                2,
            ),
    {
        let n = self.read_immediate_byte();
        self.adc_a(n);
        self.clock.tick(2);
    }

    /// ADC A,(HL): adds the byte at `hl` to the accumulator, plus one when
    /// the carry flag was set before the instruction, wrapping to eight bits.
    /// The flags are those of the addition without the carry, where hardware
    /// derives them from the whole sum. 8 cycles.
    pub fn ADCHL(&mut self)
        requires
            old(self).can_run(2),
        ensures
            final(self)@.did_adc8(
                old(self)@,
                old(self).regs,
                old(self).mmu@.touch(old(self).regs.hl_value()),
                old(self).mmu@.load(old(self).regs.hl_value()),
                2,
            ),
    {
        let n = self.read_hl();
        self.adc_a(n);
        self.clock.tick(2);
    }

    // Processor control

    /// CCF: flips the carry flag, leaving the others. 4 cycles.
    pub fn CCF(&mut self)
        requires
            old(self).can_run(1),
        ensures
            final(self)@.did_ccf(old(self)@),
            final(self).regs.flag_set(CARRY) == !old(self).regs.flag_set(CARRY),
    {
        proof {
            lemma_flag_update(self.regs.f, CARRY, ZERO);
        }
        if self.flag_is_set(CARRY) {
            self.unset_flag(CARRY);
        } else {
            self.set_flag(CARRY);
        }
        self.clock.tick(1)
    }

    /// NOP: does nothing for 4 cycles.
    pub fn NOP(&mut self)
        requires
            old(self).can_run(1),
        ensures
            final(self)@.did_nop(old(self)@),
    {
        self.clock.tick(1);
    }

    /// The handler for opcodes that have none of their own: reads no
    /// operand and lets 4 cycles pass.
    pub fn XX(&mut self)
        requires
            old(self).can_run(1),
        ensures
            final(self)@.did_nop(old(self)@),
    {
        self.clock.tick(1);
    }

    /// Whether base opcode `op` has a handler of its own; a run loop can use
    /// it to report instructions that fell back to `XX`.
    pub fn has_handler(op: u8) -> (r: bool)
        ensures
            r == handled(op),
    {
        (0x40 <= op && op <= 0x7F && op != 0x76) || (0x80 <= op && op <= 0x8F) || (op < 0x40 && (
        op % 8 == 6 || op % 16 == 9 || op % 16 == 3)) || op == 0x00 || op == 0x02 || op == 0x0A
            || op == 0x12 || op == 0x1A || op == 0x22 || op == 0x2A || op == 0x3F || op == 0xC6
            || op == 0xCE || op == 0xEA || op == 0xFA
    }

    /// The 0xCB prefix: reads the extended opcode under `pc`, moves `pc` past
    /// it, and executes it from the extended table.
    pub fn CBprefix(&mut self)
        requires
            old(self).can_run(1),
        ensures
            final(self)@.executed_extended(
                old(self)@.fetched(),
                old(self).mmu@.load(old(self).regs.pc),
            ),
    {
        let op = self.read_immediate_byte();
        self.call_extended(op);
    }

    /// Executes `opcode` of the extended table. The table is total: every
    /// byte maps to a handler, and as none has one of its own here, every
    /// byte maps to the fallback.
    pub fn call_extended(&mut self, opcode: u8)
        requires
            old(self).can_run(1),
        ensures
            final(self)@.executed_extended(old(self)@, opcode),
    {
        match opcode {
            _ => self.XX(),
        }
    }

    /// Executes `opcode`, whose operand bytes (if any) sit under `pc`. Every
    /// byte has a handler: those the instruction set leaves out here take
    /// one step and change nothing else.
    pub fn call(&mut self, opcode: u8)
        requires
            old(self).can_run(4),
        ensures
            final(self)@.executed(old(self)@, opcode),
            !handled(opcode) && opcode != 0xCB ==> final(self)@.did_nop(old(self)@),
            final(self).wf(),
            final(self).clock.m > old(self).clock.m,
            final(self).clock.t > old(self).clock.t,
    {
        match opcode {
            0x00 => self.NOP(),
            0x02 => self.LDBCmA(),
            0x03 => self.INCBC(),
            0x06 => self.LDrn_b(),
            0x09 => self.ADDHLBC(),
            0x0A => self.LDABCm(),
            0x0E => self.LDrn_c(),
            0x12 => self.LDDEmA(),
            0x13 => self.INCDE(),
            0x16 => self.LDrn_d(),
            0x19 => self.ADDHLDE(),
            0x1A => self.LDADEm(),
            0x1E => self.LDrn_e(),
            0x22 => self.LDIHLmA(),
            0x23 => self.INCHL(),
            0x26 => self.LDrn_h(),
            0x29 => self.ADDHLHL(),
            0x2A => self.LDIAHLm(),
            0x2E => self.LDrn_l(),
            0x33 => self.INCSP(),
            0x36 => self.LDHLmn(),
            0x39 => self.ADDHLSP(),
            0x3E => self.LDrn_a(),
            0x3F => self.CCF(),
            0x40 => self.LDrr_bb(),
            0x41 => self.LDrr_bc(),
            0x42 => self.LDrr_bd(),
            0x43 => self.LDrr_be(),
            0x44 => self.LDrr_bh(),
            0x45 => self.LDrr_bl(),
            0x46 => self.LDrHLm_b(),
            0x47 => self.LDrr_ba(),
            0x48 => self.LDrr_cb(),
            0x49 => self.LDrr_cc(),
            0x4A => self.LDrr_cd(),
            0x4B => self.LDrr_ce(),
            0x4C => self.LDrr_ch(),
            0x4D => self.LDrr_cl(),
            0x4E => self.LDrHLm_c(),
            0x4F => self.LDrr_ca(),
            0x50 => self.LDrr_db(),
            0x51 => self.LDrr_dc(),
            0x52 => self.LDrr_dd(),
            0x53 => self.LDrr_de(),
            0x54 => self.LDrr_dh(),
            0x55 => self.LDrr_dl(),
            0x56 => self.LDrHLm_d(),
            0x57 => self.LDrr_da(),
            0x58 => self.LDrr_eb(),
            0x59 => self.LDrr_ec(),
            0x5A => self.LDrr_ed(),
            0x5B => self.LDrr_ee(),
            0x5C => self.LDrr_eh(),
            0x5D => self.LDrr_el(),
            0x5E => self.LDrHLm_e(),
            0x5F => self.LDrr_ea(),
            0x60 => self.LDrr_hb(),
            0x61 => self.LDrr_hc(),
            0x62 => self.LDrr_hd(),
            0x63 => self.LDrr_he(),
            0x64 => self.LDrr_hh(),
            0x65 => self.LDrr_hl(),
            0x66 => self.LDrHLm_h(),
            0x67 => self.LDrr_ha(),
            0x68 => self.LDrr_lb(),
            0x69 => self.LDrr_lc(),
            0x6A => self.LDrr_ld(),
            0x6B => self.LDrr_le(),
            0x6C => self.LDrr_lh(),
            0x6D => self.LDrr_ll(),
            0x6E => self.LDrHLm_l(),
            0x6F => self.LDrr_la(),
            0x70 => self.LDHLmr_b(),
            0x71 => self.LDHLmr_c(),
            0x72 => self.LDHLmr_d(),
            0x73 => self.LDHLmr_e(),
            0x74 => self.LDHLmr_h(),
            0x75 => self.LDHLmr_l(),
            0x77 => self.LDHLmr_a(),
            0x78 => self.LDrr_ab(),
            0x79 => self.LDrr_ac(),
            0x7A => self.LDrr_ad(),
            0x7B => self.LDrr_ae(),
            0x7C => self.LDrr_ah(),
            0x7D => self.LDrr_al(),
            0x7E => self.LDrHLm_a(),
            0x7F => self.LDrr_aa(),
            0x80 => self.ADDr_b(),
            0x81 => self.ADDr_c(),
            0x82 => self.ADDr_d(),
            0x83 => self.ADDr_e(),
            0x84 => self.ADDr_h(),
            0x85 => self.ADDr_l(),
            0x86 => self.ADDHL(),
            0x87 => self.ADDr_a(),
            0x88 => self.ADCr_b(),
            0x89 => self.ADCr_c(),
            0x8A => self.ADCr_d(),
            0x8B => self.ADCr_e(),
            0x8C => self.ADCr_h(),
            0x8D => self.ADCr_l(),
            0x8E => self.ADCHL(),
            0x8F => self.ADCr_a(),
            0xC6 => self.ADDn(),
            0xCB => self.CBprefix(),
            0xCE => self.ADCn(),
            0xEA => self.LDnmA(),
            0xFA => self.LDAnn(),
            _ => self.XX(),
        }
    }

    /// Fetches the opcode under `pc`, moves `pc` past it, and executes it.
    /// Returns the opcode.
    pub fn step(&mut self) -> (op: u8)
        requires
            old(self).can_run(4),
        ensures
            op == old(self).mmu@.load(old(self).regs.pc),
            final(self)@.executed(old(self)@.fetched(), old(self).mmu@.load(old(self).regs.pc)),
            final(self).wf(),
            final(self).clock.m > old(self).clock.m,
            final(self).clock.t > old(self).clock.t,
    {
        let op = self.mmu.read(self.regs.pc);
        self.regs.pc = next_addr(self.regs.pc);
        self.call(op);
        op
    }

    // 8-bit loads
    /// LD a,a: copies a into a. 4 cycles.
    pub fn LDrr_aa(&mut self)
        requires
            old(self).can_run(1),
        ensures
            final(self)@.did_ld_rr(old(self)@, Reg8::A, Reg8::A),
    {
        self.ld_rr(Reg8::A, Reg8::A);
    }
    /// LD a,b: copies b into a. 4 cycles.
    pub fn LDrr_ab(&mut self)
        requires
            old(self).can_run(1),
        ensures
            final(self)@.did_ld_rr(old(self)@, Reg8::A, Reg8::B),
    {
        self.ld_rr(Reg8::A, Reg8::B);
    }
    /// LD a,c: copies c into a. 4 cycles.
    pub fn LDrr_ac(&mut self)
        requires
            old(self).can_run(1),
        ensures
            final(self)@.did_ld_rr(old(self)@, Reg8::A, Reg8::C),
    {
        self.ld_rr(Reg8::A, Reg8::C);
    }
    /// LD a,d: copies d into a. 4 cycles.
    pub fn LDrr_ad(&mut self)
        requires
            old(self).can_run(1),
        ensures
            final(self)@.did_ld_rr(old(self)@, Reg8::A, Reg8::D),
    {
        self.ld_rr(Reg8::A, Reg8::D);
    }
    /// LD a,e: copies e into a. 4 cycles.
    pub fn LDrr_ae(&mut self)
        requires
            old(self).can_run(1),
        ensures
            final(self)@.did_ld_rr(old(self)@, Reg8::A, Reg8::E),
    {
        self.ld_rr(Reg8::A, Reg8::E);
    }
    /// LD a,h: copies h into a. 4 cycles.
    pub fn LDrr_ah(&mut self)
        requires
            old(self).can_run(1),
        ensures
            final(self)@.did_ld_rr(old(self)@, Reg8::A, Reg8::H),
    {
        self.ld_rr(Reg8::A, Reg8::H);
    }
    /// LD a,l: copies l into a. 4 cycles.
    pub fn LDrr_al(&mut self)
        requires
            old(self).can_run(1),
        ensures
            final(self)@.did_ld_rr(old(self)@, Reg8::A, Reg8::L),
    {
        self.ld_rr(Reg8::A, Reg8::L);
    }
    /// LD b,a: copies a into b. 4 cycles.
    pub fn LDrr_ba(&mut self)
        requires
            old(self).can_run(1),
        ensures
            final(self)@.did_ld_rr(old(self)@, Reg8::B, Reg8::A),
    {
        self.ld_rr(Reg8::B, Reg8::A);
    }
    /// LD b,b: copies b into b. 4 cycles.
    pub fn LDrr_bb(&mut self)
        requires
            old(self).can_run(1),
        ensures
            final(self)@.did_ld_rr(old(self)@, Reg8::B, Reg8::B),
    {
        self.ld_rr(Reg8::B, Reg8::B);
    }
    /// LD b,c: copies c into b. 4 cycles.
    pub fn LDrr_bc(&mut self)
        requires
            old(self).can_run(1),
        ensures
            final(self)@.did_ld_rr(old(self)@, Reg8::B, Reg8::C),
    {
        self.ld_rr(Reg8::B, Reg8::C);
    }
    /// LD b,d: copies d into b. 4 cycles.
    pub fn LDrr_bd(&mut self)
        requires
            old(self).can_run(1),
        ensures
            final(self)@.did_ld_rr(old(self)@, Reg8::B, Reg8::D),
    {
        self.ld_rr(Reg8::B, Reg8::D);
    }
    /// LD b,e: copies e into b. 4 cycles.
    pub fn LDrr_be(&mut self)
        requires
            old(self).can_run(1),
        ensures
            final(self)@.did_ld_rr(old(self)@, Reg8::B, Reg8::E),
    {
        self.ld_rr(Reg8::B, Reg8::E);
    }
    /// LD b,h: copies h into b. 4 cycles.
    pub fn LDrr_bh(&mut self)
        requires
            old(self).can_run(1),
        ensures
            final(self)@.did_ld_rr(old(self)@, Reg8::B, Reg8::H),
    {
        self.ld_rr(Reg8::B, Reg8::H);
    }
    /// LD b,l: copies l into b. 4 cycles.
    pub fn LDrr_bl(&mut self)
        requires
            old(self).can_run(1),
        ensures
            final(self)@.did_ld_rr(old(self)@, Reg8::B, Reg8::L),
    {
        self.ld_rr(Reg8::B, Reg8::L);
    }
    /// LD c,a: copies a into c. 4 cycles.
    pub fn LDrr_ca(&mut self)
        requires
            old(self).can_run(1),
        ensures
            final(self)@.did_ld_rr(old(self)@, Reg8::C, Reg8::A),
    {
        self.ld_rr(Reg8::C, Reg8::A);
    }
    /// LD c,b: copies b into c. 4 cycles.
    pub fn LDrr_cb(&mut self)
        requires
            old(self).can_run(1),
        ensures
            final(self)@.did_ld_rr(old(self)@, Reg8::C, Reg8::B),
    {
        self.ld_rr(Reg8::C, Reg8::B);
    }
    /// LD c,c: copies c into c. 4 cycles.
    pub fn LDrr_cc(&mut self)
        requires
            old(self).can_run(1),
        ensures
            final(self)@.did_ld_rr(old(self)@, Reg8::C, Reg8::C),
    {
        self.ld_rr(Reg8::C, Reg8::C);
    }
    /// LD c,d: copies d into c. 4 cycles.
    pub fn LDrr_cd(&mut self)
        requires
            old(self).can_run(1),
        ensures
            final(self)@.did_ld_rr(old(self)@, Reg8::C, Reg8::D),
    {
        self.ld_rr(Reg8::C, Reg8::D);
    }
    /// LD c,e: copies e into c. 4 cycles.
    pub fn LDrr_ce(&mut self)
        requires
            old(self).can_run(1),
        ensures
            final(self)@.did_ld_rr(old(self)@, Reg8::C, Reg8::E),
    {
        self.ld_rr(Reg8::C, Reg8::E);
    }
    /// LD c,h: copies h into c. 4 cycles.
    pub fn LDrr_ch(&mut self)
        requires
            old(self).can_run(1),
        ensures
            final(self)@.did_ld_rr(old(self)@, Reg8::C, Reg8::H),
    {
        self.ld_rr(Reg8::C, Reg8::H);
    }
    /// LD c,l: copies l into c. 4 cycles.
    pub fn LDrr_cl(&mut self)
        requires
            old(self).can_run(1),
        ensures
            final(self)@.did_ld_rr(old(self)@, Reg8::C, Reg8::L),
    {
        self.ld_rr(Reg8::C, Reg8::L);
    }
    /// LD d,a: copies a into d. 4 cycles.
    pub fn LDrr_da(&mut self)
        requires
            old(self).can_run(1),
        ensures
            final(self)@.did_ld_rr(old(self)@, Reg8::D, Reg8::A),
    {
        self.ld_rr(Reg8::D, Reg8::A);
    }
    /// LD d,b: copies b into d. 4 cycles.
    pub fn LDrr_db(&mut self)
        requires
            old(self).can_run(1),
        ensures
            final(self)@.did_ld_rr(old(self)@, Reg8::D, Reg8::B),
    {
        self.ld_rr(Reg8::D, Reg8::B);
    }
    /// LD d,c: copies c into d. 4 cycles.
    pub fn LDrr_dc(&mut self)
        requires
            old(self).can_run(1),
        ensures
            final(self)@.did_ld_rr(old(self)@, Reg8::D, Reg8::C),
    {
        self.ld_rr(Reg8::D, Reg8::C);
    }
    /// LD d,d: copies d into d. 4 cycles.
    pub fn LDrr_dd(&mut self)
        requires
            old(self).can_run(1),
        ensures
            final(self)@.did_ld_rr(old(self)@, Reg8::D, Reg8::D),
    {
        self.ld_rr(Reg8::D, Reg8::D);
    }
    /// LD d,e: copies e into d. 4 cycles.
    pub fn LDrr_de(&mut self)
        requires
            old(self).can_run(1),
        ensures
            final(self)@.did_ld_rr(old(self)@, Reg8::D, Reg8::E),
    {
        self.ld_rr(Reg8::D, Reg8::E);
    }
    /// LD d,h: copies h into d. 4 cycles.
    pub fn LDrr_dh(&mut self)
        requires
            old(self).can_run(1),
        ensures
            final(self)@.did_ld_rr(old(self)@, Reg8::D, Reg8::H),
    {
        self.ld_rr(Reg8::D, Reg8::H);
    }
    /// LD d,l: copies l into d. 4 cycles.
    pub fn LDrr_dl(&mut self)
        requires
            old(self).can_run(1),
        ensures
            final(self)@.did_ld_rr(old(self)@, Reg8::D, Reg8::L),
    {
        self.ld_rr(Reg8::D, Reg8::L);
    }
    /// LD e,a: copies a into e. 4 cycles.
    pub fn LDrr_ea(&mut self)
        requires
            old(self).can_run(1),
        ensures
            final(self)@.did_ld_rr(old(self)@, Reg8::E, Reg8::A),
    {
        self.ld_rr(Reg8::E, Reg8::A);
    }
    /// LD e,b: copies b into e. 4 cycles.
    pub fn LDrr_eb(&mut self)
        requires
            old(self).can_run(1),
        ensures
            final(self)@.did_ld_rr(old(self)@, Reg8::E, Reg8::B),
    {
        self.ld_rr(Reg8::E, Reg8::B);
    }
    /// LD e,c: copies c into e. 4 cycles.
    pub fn LDrr_ec(&mut self)
        requires
            old(self).can_run(1),
        ensures
            final(self)@.did_ld_rr(old(self)@, Reg8::E, Reg8::C),
    {
        self.ld_rr(Reg8::E, Reg8::C);
    }
    /// LD e,d: copies d into e. 4 cycles.
    pub fn LDrr_ed(&mut self)
        requires
            old(self).can_run(1),
        ensures
            final(self)@.did_ld_rr(old(self)@, Reg8::E, Reg8::D),
    {
        self.ld_rr(Reg8::E, Reg8::D);
    }
    /// LD e,e: copies e into e. 4 cycles.
    pub fn LDrr_ee(&mut self)
        requires
            old(self).can_run(1),
        ensures
            final(self)@.did_ld_rr(old(self)@, Reg8::E, Reg8::E),
    {
        self.ld_rr(Reg8::E, Reg8::E);
    }
    /// LD e,h: copies h into e. 4 cycles.
    pub fn LDrr_eh(&mut self)
        requires
            old(self).can_run(1),
        ensures
            final(self)@.did_ld_rr(old(self)@, Reg8::E, Reg8::H),
    {
        self.ld_rr(Reg8::E, Reg8::H);
    }
    /// LD e,l: copies l into e. 4 cycles.
    pub fn LDrr_el(&mut self)
        requires
            old(self).can_run(1),
        ensures
            final(self)@.did_ld_rr(old(self)@, Reg8::E, Reg8::L),
    {
        self.ld_rr(Reg8::E, Reg8::L);
    }
    /// LD h,a: copies a into h. 4 cycles.
    pub fn LDrr_ha(&mut self)
        requires
            old(self).can_run(1),
        ensures
            final(self)@.did_ld_rr(old(self)@, Reg8::H, Reg8::A),
    {
        self.ld_rr(Reg8::H, Reg8::A);
    }
    /// LD h,b: copies b into h. 4 cycles.
    pub fn LDrr_hb(&mut self)
        requires
            old(self).can_run(1),
        ensures
            final(self)@.did_ld_rr(old(self)@, Reg8::H, Reg8::B),
    {
        self.ld_rr(Reg8::H, Reg8::B);
    }
    /// LD h,c: copies c into h. 4 cycles.
    pub fn LDrr_hc(&mut self)
        requires
            old(self).can_run(1),
        ensures
            final(self)@.did_ld_rr(old(self)@, Reg8::H, Reg8::C),
    {
        self.ld_rr(Reg8::H, Reg8::C);
    }
    /// LD h,d: copies d into h. 4 cycles.
    pub fn LDrr_hd(&mut self)
        requires
            old(self).can_run(1),
        ensures
            final(self)@.did_ld_rr(old(self)@, Reg8::H, Reg8::D),
    {
        self.ld_rr(Reg8::H, Reg8::D);
    }
    /// LD h,e: copies e into h. 4 cycles.
    pub fn LDrr_he(&mut self)
        requires
            old(self).can_run(1),
        ensures
            final(self)@.did_ld_rr(old(self)@, Reg8::H, Reg8::E),
    {
        self.ld_rr(Reg8::H, Reg8::E);
    }
    /// LD h,h: copies h into h. 4 cycles.
    pub fn LDrr_hh(&mut self)
        requires
            old(self).can_run(1),
        ensures
            final(self)@.did_ld_rr(old(self)@, Reg8::H, Reg8::H),
    {
        self.ld_rr(Reg8::H, Reg8::H);
    }
    /// LD h,l: copies l into h. 4 cycles.
    pub fn LDrr_hl(&mut self)
        requires
            old(self).can_run(1),
        ensures
            final(self)@.did_ld_rr(old(self)@, Reg8::H, Reg8::L),
    {
        self.ld_rr(Reg8::H, Reg8::L);
    }
    /// LD l,a: copies a into l. 4 cycles.
    pub fn LDrr_la(&mut self)
        requires
            old(self).can_run(1),
        ensures
            final(self)@.did_ld_rr(old(self)@, Reg8::L, Reg8::A),
    {
        self.ld_rr(Reg8::L, Reg8::A);
    }
    /// LD l,b: copies b into l. 4 cycles.
    pub fn LDrr_lb(&mut self)
        requires
            old(self).can_run(1),
        ensures
            final(self)@.did_ld_rr(old(self)@, Reg8::L, Reg8::B),
    {
        self.ld_rr(Reg8::L, Reg8::B);
    }
    /// LD l,c: copies c into l. 4 cycles.
    pub fn LDrr_lc(&mut self)
        requires
            old(self).can_run(1),
        ensures
            final(self)@.did_ld_rr(old(self)@, Reg8::L, Reg8::C),
    {
        self.ld_rr(Reg8::L, Reg8::C);
    }
    /// LD l,d: copies d into l. 4 cycles.
    pub fn LDrr_ld(&mut self)
        requires
            old(self).can_run(1),
        ensures
            final(self)@.did_ld_rr(old(self)@, Reg8::L, Reg8::D),
    {
        self.ld_rr(Reg8::L, Reg8::D);
    }
    /// LD l,e: copies e into l. 4 cycles.
    pub fn LDrr_le(&mut self)
        requires
            old(self).can_run(1),
        ensures
            final(self)@.did_ld_rr(old(self)@, Reg8::L, Reg8::E),
    {
        self.ld_rr(Reg8::L, Reg8::E);
    }
    /// LD l,h: copies h into l. 4 cycles.
    pub fn LDrr_lh(&mut self)
        requires
            old(self).can_run(1),
        ensures
            final(self)@.did_ld_rr(old(self)@, Reg8::L, Reg8::H),
    {
        self.ld_rr(Reg8::L, Reg8::H);
    }
    /// LD l,l: copies l into l. 4 cycles.
    pub fn LDrr_ll(&mut self)
        requires
            old(self).can_run(1),
        ensures
            final(self)@.did_ld_rr(old(self)@, Reg8::L, Reg8::L),
    {
        self.ld_rr(Reg8::L, Reg8::L);
    }
    /// LD a,n: loads a with the operand byte. 8 cycles.
    pub fn LDrn_a(&mut self)
        requires
            old(self).can_run(2),
        ensures
            final(self)@.did_ld_rn(old(self)@, Reg8::A),
    {
        self.ld_rn(Reg8::A);
    }
    /// LD b,n: loads b with the operand byte. 8 cycles.
    pub fn LDrn_b(&mut self)
        requires
            old(self).can_run(2),
        ensures
            final(self)@.did_ld_rn(old(self)@, Reg8::B),
    {
        self.ld_rn(Reg8::B);
    }
    /// LD c,n: loads c with the operand byte. 8 cycles.
    pub fn LDrn_c(&mut self)
        requires
            old(self).can_run(2),
        ensures
            final(self)@.did_ld_rn(old(self)@, Reg8::C),
    {
        self.ld_rn(Reg8::C);
    }
    /// LD d,n: loads d with the operand byte. 8 cycles.
    pub fn LDrn_d(&mut self)
        requires
            old(self).can_run(2),
        ensures
            final(self)@.did_ld_rn(old(self)@, Reg8::D),
    {
        self.ld_rn(Reg8::D);
    }
    /// LD e,n: loads e with the operand byte. 8 cycles.
    pub fn LDrn_e(&mut self)
        requires
            old(self).can_run(2),
        ensures
            final(self)@.did_ld_rn(old(self)@, Reg8::E),
    {
        self.ld_rn(Reg8::E);
    }
    /// LD h,n: loads h with the operand byte. 8 cycles.
    pub fn LDrn_h(&mut self)
        requires
            old(self).can_run(2),
        ensures
            final(self)@.did_ld_rn(old(self)@, Reg8::H),
    {
        self.ld_rn(Reg8::H);
    }
    /// LD l,n: loads l with the operand byte. 8 cycles.
    pub fn LDrn_l(&mut self)
        requires
            old(self).can_run(2),
        ensures
            final(self)@.did_ld_rn(old(self)@, Reg8::L),
    {
        self.ld_rn(Reg8::L);
    }
    /// LD a,(HL): loads a with the byte at `hl`. 8 cycles.
    pub fn LDrHLm_a(&mut self)
        requires
            old(self).can_run(2),
        ensures
            final(self)@.did_ld_r_hlm(old(self)@, Reg8::A),
    {
        self.ld_r_hlm(Reg8::A);
    }
    /// LD b,(HL): loads b with the byte at `hl`. 8 cycles.
    pub fn LDrHLm_b(&mut self)
        requires
            old(self).can_run(2),
        ensures
            final(self)@.did_ld_r_hlm(old(self)@, Reg8::B),
    {
        self.ld_r_hlm(Reg8::B);
    }
    /// LD c,(HL): loads c with the byte at `hl`. 8 cycles.
    pub fn LDrHLm_c(&mut self)
        requires
            old(self).can_run(2),
        ensures
            final(self)@.did_ld_r_hlm(old(self)@, Reg8::C),
    {
        self.ld_r_hlm(Reg8::C);
    }
    /// LD d,(HL): loads d with the byte at `hl`. 8 cycles.
    pub fn LDrHLm_d(&mut self)
        requires
            old(self).can_run(2),
        ensures
            final(self)@.did_ld_r_hlm(old(self)@, Reg8::D),
    {
        self.ld_r_hlm(Reg8::D);
    }
    /// LD e,(HL): loads e with the byte at `hl`. 8 cycles.
    pub fn LDrHLm_e(&mut self)
        requires
            old(self).can_run(2),
        ensures
            final(self)@.did_ld_r_hlm(old(self)@, Reg8::E),
    {
        self.ld_r_hlm(Reg8::E);
    }
    /// LD h,(HL): loads h with the byte at `hl`. 8 cycles.
    pub fn LDrHLm_h(&mut self)
        requires
            old(self).can_run(2),
        ensures
            final(self)@.did_ld_r_hlm(old(self)@, Reg8::H),
    {
        self.ld_r_hlm(Reg8::H);
    }
    /// LD l,(HL): loads l with the byte at `hl`. 8 cycles.
    pub fn LDrHLm_l(&mut self)
        requires
            old(self).can_run(2),
        ensures
            final(self)@.did_ld_r_hlm(old(self)@, Reg8::L),
    {
        self.ld_r_hlm(Reg8::L);
    }
    /// LD (HL),a: stores a at `hl`. 8 cycles.
    pub fn LDHLmr_a(&mut self)
        requires
            old(self).can_run(2),
        ensures
            final(self)@.did_ld_hlm_r(old(self)@, Reg8::A),
    {
        self.ld_hlm_r(Reg8::A);
    }
    /// LD (HL),b: stores b at `hl`. 8 cycles.
    pub fn LDHLmr_b(&mut self)
        requires
            old(self).can_run(2),
        ensures
            final(self)@.did_ld_hlm_r(old(self)@, Reg8::B),
    {
        self.ld_hlm_r(Reg8::B);
    }
    /// LD (HL),c: stores c at `hl`. 8 cycles.
    pub fn LDHLmr_c(&mut self)
        requires
            old(self).can_run(2),
        ensures
            final(self)@.did_ld_hlm_r(old(self)@, Reg8::C),
    {
        self.ld_hlm_r(Reg8::C);
    }
    /// LD (HL),d: stores d at `hl`. 8 cycles.
    pub fn LDHLmr_d(&mut self)
        requires
            old(self).can_run(2),
        ensures
            final(self)@.did_ld_hlm_r(old(self)@, Reg8::D),
    {
        self.ld_hlm_r(Reg8::D);
    }
    /// LD (HL),e: stores e at `hl`. 8 cycles.
    pub fn LDHLmr_e(&mut self)
        requires
            old(self).can_run(2),
        ensures
            final(self)@.did_ld_hlm_r(old(self)@, Reg8::E),
    {
        self.ld_hlm_r(Reg8::E);
    }
    /// LD (HL),h: stores h at `hl`. 8 cycles.
    pub fn LDHLmr_h(&mut self)
        requires
            old(self).can_run(2),
        ensures
            final(self)@.did_ld_hlm_r(old(self)@, Reg8::H),
    {
        self.ld_hlm_r(Reg8::H);
    }
    /// LD (HL),l: stores l at `hl`. 8 cycles.
    pub fn LDHLmr_l(&mut self)
        requires
            old(self).can_run(2),
        ensures
            final(self)@.did_ld_hlm_r(old(self)@, Reg8::L),
    {
        self.ld_hlm_r(Reg8::L);
    }
    // 8-bit arithmetic
    /// ADD A,a: adds a to the accumulator. 4 cycles.
    pub fn ADDr_a(&mut self)
        requires
            old(self).can_run(1),
        ensures
            final(self)@.did_add8(old(self)@, old(self).regs, old(self).mmu@, old(self).regs.a, 1),
    {
        self.add_r(Reg8::A);
    }
    /// ADD A,b: adds b to the accumulator. 4 cycles.
    pub fn ADDr_b(&mut self)
        requires
            old(self).can_run(1),
        ensures
            final(self)@.did_add8(old(self)@, old(self).regs, old(self).mmu@, old(self).regs.b, 1),
    {
        self.add_r(Reg8::B);
    }
    /// ADD A,c: adds c to the accumulator. 4 cycles.
    pub fn ADDr_c(&mut self)
        requires
            old(self).can_run(1),
        ensures
            final(self)@.did_add8(old(self)@, old(self).regs, old(self).mmu@, old(self).regs.c, 1),
    {
        self.add_r(Reg8::C);
    }
    /// ADD A,d: adds d to the accumulator. 4 cycles.
    pub fn ADDr_d(&mut self)
        requires
            old(self).can_run(1),
        ensures
            final(self)@.did_add8(old(self)@, old(self).regs, old(self).mmu@, old(self).regs.d, 1),
    {
        self.add_r(Reg8::D);
    }
    /// ADD A,e: adds e to the accumulator. 4 cycles.
    pub fn ADDr_e(&mut self)
        requires
            old(self).can_run(1),
        ensures
            final(self)@.did_add8(old(self)@, old(self).regs, old(self).mmu@, old(self).regs.e, 1),
    {
        self.add_r(Reg8::E);
    }
    /// ADD A,h: adds h to the accumulator. 4 cycles.
    pub fn ADDr_h(&mut self)
        requires
            old(self).can_run(1),
        ensures
            final(self)@.did_add8(old(self)@, old(self).regs, old(self).mmu@, old(self).regs.h, 1),
    {
        self.add_r(Reg8::H);
    }
    /// ADD A,l: adds l to the accumulator. 4 cycles.
    pub fn ADDr_l(&mut self)
        requires
            old(self).can_run(1),
        ensures
            final(self)@.did_add8(old(self)@, old(self).regs, old(self).mmu@, old(self).regs.l, 1),
    {
        self.add_r(Reg8::L);
    }
    /// ADC A,a: adds a to the accumulator, plus one when the carry flag was set
    /// before the instruction, wrapping to eight bits. The flags are those of
    /// the addition without the carry, where hardware derives them from the
    /// whole sum. 4 cycles.
    pub fn ADCr_a(&mut self)
        requires
            old(self).can_run(1),
        ensures
            final(self)@.did_adc8(old(self)@, old(self).regs, old(self).mmu@, old(self).regs.a, 1),
    {
        self.adc_r(Reg8::A);
    }
    /// ADC A,b: adds b to the accumulator, plus one when the carry flag was set
    /// before the instruction, wrapping to eight bits. The flags are those of
    /// the addition without the carry, where hardware derives them from the
    /// whole sum. 4 cycles.
    pub fn ADCr_b(&mut self)
        requires
            old(self).can_run(1),
        ensures
            final(self)@.did_adc8(old(self)@, old(self).regs, old(self).mmu@, old(self).regs.b, 1),
    {
        self.adc_r(Reg8::B);
    }
    /// ADC A,c: adds c to the accumulator, plus one when the carry flag was set
    /// before the instruction, wrapping to eight bits. The flags are those of
    /// the addition without the carry, where hardware derives them from the
    /// whole sum. 4 cycles.
    pub fn ADCr_c(&mut self)
        requires
            old(self).can_run(1),
        ensures
            final(self)@.did_adc8(old(self)@, old(self).regs, old(self).mmu@, old(self).regs.c, 1),
    {
        self.adc_r(Reg8::C);
    }
    /// ADC A,d: adds d to the accumulator, plus one when the carry flag was set
    /// before the instruction, wrapping to eight bits. The flags are those of
    /// the addition without the carry, where hardware derives them from the
    /// whole sum. 4 cycles.
    pub fn ADCr_d(&mut self)
        requires
            old(self).can_run(1),
        ensures
            final(self)@.did_adc8(old(self)@, old(self).regs, old(self).mmu@, old(self).regs.d, 1),
    {
        self.adc_r(Reg8::D);
    }
    /// ADC A,e: adds e to the accumulator, plus one when the carry flag was set
    /// before the instruction, wrapping to eight bits. The flags are those of
    /// the addition without the carry, where hardware derives them from the
    /// whole sum. 4 cycles.
    pub fn ADCr_e(&mut self)
        requires
            old(self).can_run(1),
        ensures
            final(self)@.did_adc8(old(self)@, old(self).regs, old(self).mmu@, old(self).regs.e, 1),
    {
        self.adc_r(Reg8::E);
    }
    /// ADC A,h: adds h to the accumulator, plus one when the carry flag was set
    /// before the instruction, wrapping to eight bits. The flags are those of
    /// the addition without the carry, where hardware derives them from the
    /// whole sum. 4 cycles.
    pub fn ADCr_h(&mut self)
        requires
            old(self).can_run(1),
        ensures
            final(self)@.did_adc8(old(self)@, old(self).regs, old(self).mmu@, old(self).regs.h, 1),
    {
        self.adc_r(Reg8::H);
    }
    /// ADC A,l: adds l to the accumulator, plus one when the carry flag was set
    /// before the instruction, wrapping to eight bits. The flags are those of
    /// the addition without the carry, where hardware derives them from the
    /// whole sum. 4 cycles.
    pub fn ADCr_l(&mut self)
        requires
            old(self).can_run(1),
        ensures
            final(self)@.did_adc8(old(self)@, old(self).regs, old(self).mmu@, old(self).regs.l, 1),
    {
        self.adc_r(Reg8::L);
    }
    // 16-bit arithmetic
    /// ADD HL,BC: adds bc to `hl`. 8 cycles.
    pub fn ADDHLBC(&mut self)
        requires
            old(self).can_run(2),
        ensures
            final(self)@.did_add_hl(old(self)@, Pair::BC),
    {
        self.add_hl(Pair::BC);
    }
    /// ADD HL,DE: adds de to `hl`. 8 cycles.
    pub fn ADDHLDE(&mut self)
        requires
            old(self).can_run(2),
        ensures
            final(self)@.did_add_hl(old(self)@, Pair::DE),
    {
        self.add_hl(Pair::DE);
    }
    /// ADD HL,HL: adds hl to `hl`. 8 cycles.
    pub fn ADDHLHL(&mut self)
        requires
            old(self).can_run(2),
        ensures
            final(self)@.did_add_hl(old(self)@, Pair::HL),
    {
        self.add_hl(Pair::HL);
    }
    /// ADD HL,SP: adds sp to `hl`. 8 cycles.
    pub fn ADDHLSP(&mut self)
        requires
            old(self).can_run(2),
        ensures
            final(self)@.did_add_hl(old(self)@, Pair::SP),
    {
        self.add_hl(Pair::SP);
    }
    /// INC BC: adds one to bc. 8 cycles.
    pub fn INCBC(&mut self)
        requires
            old(self).can_run(2),
        ensures
            final(self)@.did_inc16(old(self)@, Pair::BC),
    {
        self.inc_pair(Pair::BC);
    }
    /// INC DE: adds one to de. 8 cycles.
    pub fn INCDE(&mut self)
        requires
            old(self).can_run(2),
        ensures
            final(self)@.did_inc16(old(self)@, Pair::DE),
    {
        self.inc_pair(Pair::DE);
    }
    /// INC HL: adds one to hl. 8 cycles.
    pub fn INCHL(&mut self)
        requires
            old(self).can_run(2),
        ensures
            final(self)@.did_inc16(old(self)@, Pair::HL),
    {
        self.inc_pair(Pair::HL);
    }
    /// INC SP: adds one to sp. 8 cycles.
    pub fn INCSP(&mut self)
        requires
            old(self).can_run(2),
        ensures
            final(self)@.did_inc16(old(self)@, Pair::SP),
    {
        self.inc_pair(Pair::SP);
    }
}

/// Every instruction moves both counters of the clock strictly forward and
/// keeps raw cycles at four per step.
pub proof fn lemma_clock_monotonic(before: Machine, after: Machine, op: u8)
    requires
        after.executed(before, op),
    ensures
        after.clock.m > before.clock.m,
        after.clock.t > before.clock.t,
        after.clock.t == 4 * after.clock.m,
{
}

/// The flags byte with exactly the named bits set.
fn pack_flags(zero: bool, subtract: bool, half: bool, carry: bool) -> (r: u8)
    ensures
        r == flags_of(zero, subtract, half, carry),
{
    let z: u8 = if zero {
        ZERO
    } else {
        0
    };
    let n: u8 = if subtract {
        SUBTRACT
    } else {
        0
    };
    let h: u8 = if half {
        HALFCARRY
    } else {
        0
    };
    let c: u8 = if carry {
        CARRY
    } else {
        0
    };
    z | n | h | c
}

fn join_pair(hi: u8, lo: u8) -> (r: u16)
    ensures
        r == pair_value(hi, lo),
{
    proof {
        lemma_join_pair(hi, lo);
    }
    (hi as u16) << 8 | lo as u16
}

proof fn lemma_join_pair(hi: u8, lo: u8)
    ensures
        (hi as u16) << 8 | lo as u16 == pair_value(hi, lo),
{
    let h = hi as u16;
    let l = lo as u16;
    assert(h <= 0xFF && l <= 0xFF);
    assert(h << 8 | l == h * 256 + l) by (bit_vector)
        requires
            h <= 0xFF && l <= 0xFF,
    ;
}

pub proof fn lemma_split_pair(n: u16)
    ensures
        (n >> 8) as u8 == high_byte(n),
        n as u8 == low_byte(n),
{
    assert(n >> 8 == n / 256) by (bit_vector);
    assert(n & 0xFF == n % 256) by (bit_vector);
    assert(n as u8 == (n & 0xFF) as u8) by (bit_vector);
}

/// Register-pair views agree with the 8-bit registers: the pair of `h` and
/// `l` is `(h << 8) | l`, and splitting a word into a pair and joining it
/// again gives the word back.
pub proof fn lemma_pair_view(h: u8, l: u8, n: u16)
    ensures
        pair_value(h, l) == (h as u16) << 8 | l as u16,
        high_byte(pair_value(h, l)) == h,
        low_byte(pair_value(h, l)) == l,
        pair_value(high_byte(n), low_byte(n)) == n,
{
    lemma_join_pair(h, l);
}

} // verus!
