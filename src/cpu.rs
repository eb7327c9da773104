use vstd::prelude::*;
use crate::alu::{
    Flags, adc8_spec, add8_spec, bit_of, cb_shift_spec, daa_spec, flags_byte, flags_of, res_value,
    rl_value, rlc_value, rr_value, rrc_value, sbc8_spec, set_value, sub8_spec, zflag,
};
use crate::bus::{Bus, is_stable};
use crate::dma::{DMA, dma_after, dma_step};
use crate::ppu::{frame_position, frame_ticks};
use crate::instruction::{
    ConditionType, Instruction, InstructionType, RegisterType, };
use crate::memory::{ram_pop16, ram_push16, sp_minus, sp_plus, stack_in_ram};
use crate::registers::{Registers, reg_value, with_reg};

verus! {

/// Interrupt sources, in priority order.
pub const INTERRUPT_COUNT: u8 = 5;

/// The clock sub-cycle counter wraps at 2^64.
pub const TICK_WRAP: u128 = 0x1_0000_0000_0000_0000;

/// `n` machine cycles passed from `a` to `b`: the sub-cycle count, the divider and the PPU's
/// frame position moved on by `4 n`, and the DMA took `n` steps.
pub open spec fn clock_advanced(a: CPU, b: CPU, n: nat) -> bool {
    &&& b.ticks == (a.ticks + 4 * n) % (TICK_WRAP as int)
    &&& b.bus.timer.div == (a.bus.timer.div + 4 * n) % 65536
    &&& frame_position(b.bus.ppu.lcd.ly, b.bus.ppu.line_ticks) == (frame_position(
        a.bus.ppu.lcd.ly,
        a.bus.ppu.line_ticks,
    ) + 4 * n) % frame_ticks()
    &&& b.bus.ppu.lcd.dma == dma_after(a.bus.ppu.lcd.dma, n)
}

pub proof fn lemma_mod_inc(x: int, m: int)
    requires
        m > 1,
    ensures
        (x % m + 1) % m == (x + 1) % m,
{
    vstd::arithmetic::div_mod::lemma_add_mod_noop(x, 1, m);
    vstd::arithmetic::div_mod::lemma_small_mod(1, m as nat);
}

proof fn lemma_mod_add(x: int, y: int, m: int)
    requires
        m > 1,
    ensures
        (x % m + y) % m == (x + y) % m,
{
    vstd::arithmetic::div_mod::lemma_add_mod_noop(x, y, m);
    vstd::arithmetic::div_mod::lemma_add_mod_noop(x % m, y, m);
    vstd::arithmetic::div_mod::lemma_mod_twice(x, m);
}

proof fn lemma_dma_after_compose(d: DMA, n: nat, m: nat)
    ensures
        dma_after(dma_after(d, n), m) == dma_after(d, n + m),
    decreases m,
{
    if m > 0 {
        lemma_dma_after_compose(d, n, (m - 1) as nat);
        assert(dma_after(d, n + m) == dma_step(dma_after(d, (n + m - 1) as nat)));
    }
}

proof fn lemma_clock_zero(a: CPU)
    requires
        a.bus.ppu.wf(),
    ensures
        clock_advanced(a, a, 0),
{
    assert(a.ticks < TICK_WRAP);
    assert(0 <= frame_position(a.bus.ppu.lcd.ly, a.bus.ppu.line_ticks) < frame_ticks()) by {
        assert(a.bus.ppu.lcd.ly as int * 456 <= 153 * 456) by (nonlinear_arith)
            requires a.bus.ppu.lcd.ly <= 153;
    }
}

/// A step that leaves the clock alone.
pub proof fn lemma_clock_same(a: CPU, b: CPU, c: CPU, n: nat)
    requires
        clock_advanced(a, b, n),
        b.bus.ppu.wf(),
        c.ticks == b.ticks,
        c.bus.timer.div == b.bus.timer.div,
        c.bus.ppu.lcd.ly == b.bus.ppu.lcd.ly,
        c.bus.ppu.line_ticks == b.bus.ppu.line_ticks,
        c.bus.ppu.lcd.dma == b.bus.ppu.lcd.dma,
    ensures
        clock_advanced(a, c, n),
{
    lemma_clock_zero(b);
    lemma_clock_compose(a, b, c, n, 0);
}

/// Clock advances add up.
pub proof fn lemma_clock_compose(a: CPU, b: CPU, c: CPU, n: nat, m: nat)
    requires
        clock_advanced(a, b, n),
        c.ticks == (b.ticks + 4 * m) % (TICK_WRAP as int),
        c.bus.timer.div == (b.bus.timer.div + 4 * m) % 65536,
        frame_position(c.bus.ppu.lcd.ly, c.bus.ppu.line_ticks) == (frame_position(b.bus.ppu.lcd.ly, b.bus.ppu.line_ticks)
            + 4 * m) % frame_ticks(),
        c.bus.ppu.lcd.dma == dma_after(b.bus.ppu.lcd.dma, m),
    ensures
        clock_advanced(a, c, n + m),
{
    lemma_mod_add(a.ticks + 4 * n, (4 * m) as int, TICK_WRAP as int);
    lemma_mod_add(a.bus.timer.div + 4 * n, (4 * m) as int, 65536);
    lemma_mod_add(frame_position(a.bus.ppu.lcd.ly, a.bus.ppu.line_ticks) + 4 * n, (4 * m) as int, frame_ticks());
    lemma_dma_after_compose(a.bus.ppu.lcd.dma, n, m);
}

/// The processor with the machine it drives.
pub struct CPU {
    pub regs: Registers,
    pub bus: Bus,
    pub fetched_data: u16,
    pub mem_dest: u16,
    pub destination_is_mem: bool,
    pub halted: bool,
    pub current_instruction: Instruction,
    pub int_master_enabled: bool,
    pub ime_enabling: bool,
    /// Set when `HALT` ran with IME clear and an interrupt pending: the next opcode fetch
    /// does not advance `PC`, so its byte is read twice.
    pub halt_bug: bool,
    /// Master-clock sub-cycles elapsed (four per machine cycle), wrapping at 2^64.
    pub ticks: u64,
}

/// The register file after an 8-bit arithmetic/logic operation of `t` with operand `v`.
pub open spec fn alu_result(r: Registers, t: InstructionType, v: u8) -> Registers {
    let fl = flags_of(r.f);
    let out: (u8, Flags) = match t {
        InstructionType::ADD => add8_spec(r.a, v),
        InstructionType::ADC => adc8_spec(r.a, v, fl.c),
        InstructionType::SUB => sub8_spec(r.a, v),
        InstructionType::SBC => sbc8_spec(r.a, v, fl.c),
        InstructionType::AND => (r.a & v, zflag(r.a & v, false, true, false)),
        InstructionType::XOR => (r.a ^ v, zflag(r.a ^ v, false, false, false)),
        InstructionType::OR => (r.a | v, zflag(r.a | v, false, false, false)),
        _ => (r.a, sub8_spec(r.a, v).1),
    };
    Registers { a: out.0, f: flags_byte(out.1), ..r }
}

/// The register file after one of the accumulator/flag operations without operand.
pub open spec fn acc_result(r: Registers, t: InstructionType) -> Registers {
    let fl = flags_of(r.f);
    let a = r.a;
    let out: (u8, Flags) = match t {
        InstructionType::RLCA => (rlc_value(a), Flags { z: false, n: false, h: false, c: a >= 128 }),
        InstructionType::RRCA => (rrc_value(a), Flags { z: false, n: false, h: false, c: a % 2 == 1 }),
        InstructionType::RLA => (rl_value(a, fl.c), Flags { z: false, n: false, h: false, c: a >= 128 }),
        InstructionType::RRA => (rr_value(a, fl.c), Flags { z: false, n: false, h: false, c: a % 2 == 1 }),
        InstructionType::DAA => daa_spec(a, fl),
        InstructionType::CPL => ((255 - a) as u8, Flags { z: fl.z, n: true, h: true, c: fl.c }),
        InstructionType::SCF => (a, Flags { z: fl.z, n: false, h: false, c: true }),
        InstructionType::CCF => (a, Flags { z: fl.z, n: false, h: false, c: !fl.c }),
        _ => (a, fl),
    };
    Registers { a: out.0, f: flags_byte(out.1), ..r }
}

/// A CB-prefixed operation `op` on the value `v`, with the incoming flags: the new value
/// and flags.
pub open spec fn cb_spec(op: u8, v: u8, fl: Flags) -> (u8, Flags) {
    let bit = ((op / 8) % 8) as nat;
    if op / 64 == 1 {
        (v, Flags { z: !bit_of(v, bit), n: false, h: true, c: fl.c })
    } else if op / 64 == 2 {
        (res_value(bit, v), fl)
    } else if op / 64 == 3 {
        (set_value(bit, v), fl)
    } else {
        cb_shift_spec((op / 8) as u8, v, fl.c)
    }
}

/// Whether a jump condition holds for the flags of `r`.
pub open spec fn condition_holds(r: Registers, c: ConditionType) -> bool {
    match c {
        ConditionType::NONE => true,
        ConditionType::NZ => !flags_of(r.f).z,
        ConditionType::Z => flags_of(r.f).z,
        ConditionType::NC => !flags_of(r.f).c,
        ConditionType::C => flags_of(r.f).c,
    }
}

/// Whether interrupt `k` is both requested and enabled.
pub open spec fn pending(if_flags: u8, ie: u8, k: nat) -> bool {
    bit_of(if_flags, k) && bit_of(ie, k)
}

/// Whether some interrupt is requested and enabled.
pub open spec fn any_pending(if_flags: u8, ie: u8) -> bool {
    exists|k: nat| k < 5 && #[trigger] pending(if_flags, ie, k)
}

/// `k` is the lowest interrupt that is requested and enabled.
pub open spec fn lowest_pending(if_flags: u8, ie: u8, k: nat) -> bool {
    k < 5 && pending(if_flags, ie, k) && forall|j: nat| j < k ==> !#[trigger] pending(if_flags, ie, j)
}

/// The register pair a `PUSH`/`POP` names.
pub open spec fn is_stack_pair(rt: RegisterType) -> bool {
    rt == RegisterType::BC || rt == RegisterType::DE || rt == RegisterType::HL || rt == RegisterType::AF
}

/// The register file after `PUSH rr` (only `SP` moves).
pub open spec fn push_regs(r: Registers) -> Registers {
    Registers { sp: sp_minus(r.sp, 2), ..r }
}

/// The register file after `POP rr` of the value `v`.
pub open spec fn pop_regs(r: Registers, rt: RegisterType, v: u16) -> Registers {
    with_reg(Registers { sp: sp_plus(r.sp, 2), ..r }, rt, v)
}

/// For every register pair, `PUSH rr` followed by `POP rr` on a stack in RAM restores the
/// register file, stack pointer included.
pub proof fn lemma_push_pop_identity(r: Registers, m: crate::memory::RamView, rt: RegisterType)
    requires
        r.wf(),
        crate::memory::ram_wf(m),
        stack_in_ram(r.sp),
        is_stack_pair(rt),
    ensures
        pop_regs(push_regs(r), rt, ram_pop16(ram_push16(m, r.sp, reg_value(r, rt)), push_regs(r).sp)) == r,
{
    crate::memory::lemma_stack_round_trip(m, r.sp, reg_value(r, rt));
    let v = reg_value(r, rt);
    if rt == RegisterType::AF {
        assert((v / 256) as u8 == r.a);
        assert((v % 256) as u8 == r.f);
        assert(crate::registers::f_masked(r.f) == r.f);
    } else if rt == RegisterType::BC {
        assert((v / 256) as u8 == r.b && (v % 256) as u8 == r.c);
    } else if rt == RegisterType::DE {
        assert((v / 256) as u8 == r.d && (v % 256) as u8 == r.e);
    } else {
        assert((v / 256) as u8 == r.h && (v % 256) as u8 == r.l);
    }
}

/// `RLCA` then `RRCA` gives back A, and when bit 7 of A was clear every flag ends clear.
pub proof fn lemma_rlca_rrca(r: Registers)
    requires
        r.wf(),
        r.a < 0x80,
    ensures
        acc_result(acc_result(r, InstructionType::RLCA), InstructionType::RRCA).a == r.a,
        flags_of(acc_result(acc_result(r, InstructionType::RLCA), InstructionType::RRCA).f)
            == (Flags { z: false, n: false, h: false, c: false }),
        acc_result(acc_result(r, InstructionType::RLCA), InstructionType::RRCA).f == 0,
{
}

/// After any write of the register file by the CPU, `F & 0x0F == 0`.
pub proof fn lemma_flags_low_nibble(c: CPU)
    requires
        c.wf(),
    ensures
        c.regs.f & 0x0F == 0,
{
    crate::registers::lemma_low_nibble(c.regs.f);
}

impl CPU {
    pub open spec fn wf(&self) -> bool {
        self.regs.wf() && self.bus.wf()
    }

    /// The processor's control state (halt, interrupt enables, decoded instruction and its
    /// operand) is as in `other`.
    pub open spec fn same_control(&self, other: &CPU) -> bool {
        &&& self.halted == other.halted
        &&& self.int_master_enabled == other.int_master_enabled
        &&& self.ime_enabling == other.ime_enabling
        &&& self.halt_bug == other.halt_bug
        &&& self.current_instruction == other.current_instruction
        &&& self.fetched_data == other.fetched_data
        &&& self.mem_dest == other.mem_dest
        &&& self.destination_is_mem == other.destination_is_mem
    }

    /// Everything but the devices' clocks is as in `other`: registers, processor state and
    /// the RAM and cartridge.
    pub open spec fn same_but_clock(&self, other: &CPU) -> bool {
        &&& self.regs == other.regs
        &&& self.bus.memory == other.bus.memory
        &&& self.bus.cart == other.bus.cart
        &&& self.bus.ppu.vram == other.bus.ppu.vram
        &&& self.halted == other.halted
        &&& self.int_master_enabled == other.int_master_enabled
        &&& self.ime_enabling == other.ime_enabling
        &&& self.current_instruction == other.current_instruction
        &&& self.fetched_data == other.fetched_data
        &&& self.mem_dest == other.mem_dest
        &&& self.destination_is_mem == other.destination_is_mem
        &&& self.halt_bug == other.halt_bug
    }

    /// A processor at power-on driving `bus`.
    pub fn new(bus: Bus) -> (r: CPU)
        requires
            bus.wf(),
        ensures
            r.wf(),
            r.regs == (Registers { a: 0x01, f: 0xB0, b: 0x00, c: 0x13, d: 0x00, e: 0xD8, h: 0x01, l: 0x4D, sp: 0xFFFE, pc: 0x100 }),
            !r.int_master_enabled,
            !r.ime_enabling,
            !r.halt_bug,
            !r.halted,
            r.ticks == 0,
            r.bus == bus,
    {
        CPU {
            regs: Registers::new(),
            bus,
            fetched_data: 0,
            mem_dest: 0,
            destination_is_mem: false,
            halted: false,
            current_instruction: Instruction::from_opcode(&0),
            int_master_enabled: false,
            ime_enabling: false,
            halt_bug: false,
            ticks: 0,
        }
    }

    /// Runs the devices for `cycles` machine cycles: four timer and PPU ticks and one DMA
    /// step each.
    pub fn emu_cycles(&mut self, cycles: u32)
        requires
            old(self).wf(),
        ensures
            final(self).wf(),
            crate::ppu::ppu_progress(old(self).bus.ppu, final(self).bus.ppu, 4 * cycles),
            final(self).same_but_clock(&*old(self)),
            clock_advanced(*old(self), *final(self), cycles as nat),
            forall|j: nat| j < 5 && #[trigger] bit_of(old(self).bus.ioram.interrupt_flags, j) ==> bit_of(
                final(self).bus.ioram.interrupt_flags,
                j,
            ),
    {
        let mut i: u32 = 0;
        proof {
            lemma_clock_zero(*self);
        }
        while i < cycles
            invariant
                self.wf(),
                self.same_but_clock(&*old(self)),
                i <= cycles,
                clock_advanced(*old(self), *self, i as nat),
                crate::ppu::ppu_progress(old(self).bus.ppu, self.bus.ppu, 4 * i),
                forall|j: nat| j < 5 && #[trigger] bit_of(old(self).bus.ioram.interrupt_flags, j) ==> bit_of(
                    self.bus.ioram.interrupt_flags,
                    j,
                ),
            decreases cycles - i,
        {
            let ghost start = *self;
            let mut k: u8 = 0;
            while k < 4
                invariant
                    self.wf(),
                    self.same_but_clock(&*old(self)),
                    k <= 4,
                    self.ticks == start.ticks,
                    crate::ppu::ppu_progress(start.bus.ppu, self.bus.ppu, k as int),
                    forall|j: nat| j < 5 && #[trigger] bit_of(old(self).bus.ioram.interrupt_flags, j) ==> bit_of(
                        self.bus.ioram.interrupt_flags,
                        j,
                    ),
                    self.bus.ppu.lcd.dma == start.bus.ppu.lcd.dma,
                    self.bus.timer.div == (start.bus.timer.div + k) % 65536,
                    frame_position(self.bus.ppu.lcd.ly, self.bus.ppu.line_ticks) == (frame_position(
                        start.bus.ppu.lcd.ly,
                        start.bus.ppu.line_ticks,
                    ) + k) % frame_ticks(),
                decreases 4 - k,
            {
                let ghost before = *self;
                self.bus.tick_devices();
                proof {
                    lemma_mod_inc(start.bus.timer.div + k, 65536);
                    lemma_mod_inc(frame_position(start.bus.ppu.lcd.ly, start.bus.ppu.line_ticks) + k, frame_ticks());
                }
                k = k + 1;
            }
            self.bus.dma_tick();
            self.ticks = ((self.ticks as u128 + 4) % TICK_WRAP) as u64;
            proof {
                reveal_with_fuel(dma_after, 2);
                assert(dma_after(start.bus.ppu.lcd.dma, 1) == dma_step(start.bus.ppu.lcd.dma));
                lemma_clock_compose(*old(self), start, *self, i as nat, 1);
            }
            i = i + 1;
        }
    }

    /// Advances `PC` by `by`, wrapping.
    pub fn increment_pointer(&mut self, by: u16)
        ensures
            final(self).regs == (Registers { pc: ((old(self).regs.pc + by) % 0x10000) as u16, ..old(self).regs }),
            final(self).bus == old(self).bus,
            final(self).halted == old(self).halted,
            final(self).int_master_enabled == old(self).int_master_enabled,
            final(self).ime_enabling == old(self).ime_enabling,
            final(self).current_instruction == old(self).current_instruction,
            final(self).fetched_data == old(self).fetched_data,
            final(self).mem_dest == old(self).mem_dest,
            final(self).destination_is_mem == old(self).destination_is_mem,
            final(self).ticks == old(self).ticks,
            final(self).halt_bug == old(self).halt_bug,
    {
        self.regs.pc = ((self.regs.pc as u32 + by as u32) % 0x10000) as u16;
    }

    /// Reads the byte at `PC` (one machine cycle) and advances `PC`.
    pub(crate) fn fetch_byte(&mut self) -> (r: u8)
        requires
            old(self).wf(),
        ensures
            final(self).wf(),
            crate::ppu::ppu_progress(old(self).bus.ppu, final(self).bus.ppu, 4),
            r == old(self).bus.read_spec(old(self).regs.pc),
            final(self).regs == (Registers { pc: sp_plus(old(self).regs.pc, 1), ..old(self).regs }),
            final(self).bus.memory == old(self).bus.memory,
            final(self).bus.cart == old(self).bus.cart,
            final(self).halted == old(self).halted,
            final(self).int_master_enabled == old(self).int_master_enabled,
            final(self).ime_enabling == old(self).ime_enabling,
            final(self).current_instruction == old(self).current_instruction,
            final(self).same_control(&*old(self)),
            clock_advanced(*old(self), *final(self), 1),
    {
        let v = self.bus.read8(self.regs.pc);
        self.emu_cycles(1);
        self.increment_pointer(1);
        v
    }

    /// Reads an 8-bit operand register; `HL` names the byte at `(HL)`.
    pub fn cpu_read_reg8(&self, rt: RegisterType) -> (r: u8)
        requires
            self.wf(),
        ensures
            rt == RegisterType::HL ==> r == self.bus.read_spec(reg_value(self.regs, RegisterType::HL)),
            rt != RegisterType::HL ==> r == reg_value(self.regs, rt) % 256,
    {
        if rt == RegisterType::HL {
            self.bus.read8(self.regs.read_reg(RegisterType::HL))
        } else {
            (self.regs.read_reg(rt) % 256) as u8
        }
    }

    /// Writes an 8-bit operand register; `HL` names the byte at `(HL)`.
    pub fn cpu_set_reg8(&mut self, rt: RegisterType, val: u8)
        requires
            old(self).wf(),
        ensures
            final(self).wf(),
            crate::ppu::ppu_progress(old(self).bus.ppu, final(self).bus.ppu, 0),
            rt != RegisterType::HL ==> final(self).regs == with_reg(old(self).regs, rt, val as u16)
                && final(self).bus == old(self).bus,
            rt == RegisterType::HL ==> final(self).regs == old(self).regs,
            rt == RegisterType::HL ==> crate::bus::stored(
                old(self).bus,
                final(self).bus,
                reg_value(old(self).regs, RegisterType::HL),
                val,
            ),
            final(self).halted == old(self).halted,
            final(self).int_master_enabled == old(self).int_master_enabled,
            final(self).ime_enabling == old(self).ime_enabling,
            final(self).current_instruction == old(self).current_instruction,
    {
        if rt == RegisterType::HL {
            let addr = self.regs.read_reg(RegisterType::HL);
            self.bus.write8(addr, val);
        } else {
            self.regs.set_reg(rt, val as u16);
        }
    }

    /// Whether the condition of the current instruction holds.
    pub(crate) fn check_condition(&self) -> (r: bool)
        ensures
            r == condition_holds(self.regs, self.current_instruction.condition),
    {
        let fl = self.regs.flags();
        match self.current_instruction.condition {
            ConditionType::NONE => true,
            ConditionType::NZ => !fl.z,
            ConditionType::Z => fl.z,
            ConditionType::NC => !fl.c,
            ConditionType::C => fl.c,
        }
    }

    /// Pushes a 16-bit value on the stack.
    pub(crate) fn push16(&mut self, value: u16)
        requires
            old(self).wf(),
        ensures
            final(self).wf(),
            crate::ppu::ppu_progress(old(self).bus.ppu, final(self).bus.ppu, 0),
            final(self).regs == push_regs(old(self).regs),
            stack_in_ram(old(self).regs.sp) ==> final(self).bus.memory@ == ram_push16(
                old(self).bus.memory@,
                old(self).regs.sp,
                value,
            ),
            stack_in_ram(old(self).regs.sp) ==> final(self).bus.ppu == old(self).bus.ppu && final(self).bus.timer
                == old(self).bus.timer && final(self).bus.cart == old(self).bus.cart && final(self).bus.ioram
                == old(self).bus.ioram,
            final(self).bus.cart.mbc.rom() == old(self).bus.cart.mbc.rom(),
            final(self).same_control(&*old(self)),
            final(self).ticks == old(self).ticks,
    {
        let mut sp = self.regs.sp;
        self.bus.stack_push16(&mut sp, value);
        self.regs.sp = sp;
    }

    /// Pops a 16-bit value from the stack.
    pub(crate) fn pop16(&mut self) -> (r: u16)
        requires
            old(self).wf(),
        ensures
            final(self).wf(),
            final(self).regs == (Registers { sp: sp_plus(old(self).regs.sp, 2), ..old(self).regs }),
            final(self).bus == old(self).bus,
            r == old(self).bus.read_spec(old(self).regs.sp) + 256 * old(self).bus.read_spec(sp_plus(old(self).regs.sp, 1)),
            final(self).halted == old(self).halted,
            final(self).int_master_enabled == old(self).int_master_enabled,
            final(self).ime_enabling == old(self).ime_enabling,
            final(self).current_instruction == old(self).current_instruction,
    {
        let mut sp = self.regs.sp;
        let v = self.bus.stack_pop16(&mut sp);
        self.regs.sp = sp;
        v
    }

    /// Jumps to `addr` when the condition holds, pushing `PC` first for a call.
    pub(crate) fn goto_addr(&mut self, addr: u16, push_pc: bool)
        requires
            old(self).wf(),
        ensures
            final(self).wf(),
            crate::ppu::ppu_progress(old(self).bus.ppu, final(self).bus.ppu, 0),
            final(self).same_control(&*old(self)),
            !condition_holds(old(self).regs, old(self).current_instruction.condition) ==> *final(self) == *old(self),
            condition_holds(old(self).regs, old(self).current_instruction.condition) && !push_pc ==> final(self).regs
                == (Registers { pc: addr, ..old(self).regs }) && final(self).bus.memory == old(self).bus.memory
                && final(self).bus.cart == old(self).bus.cart && clock_advanced(*old(self), *final(self), 1),
            condition_holds(old(self).regs, old(self).current_instruction.condition) && push_pc ==> final(self).regs
                == (Registers { pc: addr, ..push_regs(old(self).regs) }),
            condition_holds(old(self).regs, old(self).current_instruction.condition) && push_pc && stack_in_ram(
                old(self).regs.sp,
            ) ==> final(self).bus.memory@ == ram_push16(old(self).bus.memory@, old(self).regs.sp, old(self).regs.pc)
                && clock_advanced(*old(self), *final(self), 3),
    {
        if self.check_condition() {
            if push_pc {
                self.emu_cycles(2);
                let ghost mid = *self;
                let pc = self.regs.pc;
                self.push16(pc);
                self.regs.pc = addr;
                let ghost mid2 = *self;
                self.emu_cycles(1);
                proof {
                    if stack_in_ram(old(self).regs.sp) {
                        lemma_clock_compose(*old(self), mid2, *self, 2, 1);
                    }
                }
            } else {
                self.regs.pc = addr;
                self.emu_cycles(1);
            }
        }
    }

    /// Dispatches the lowest pending interrupt, if any: its `IF` bit is cleared, IME is
    /// cleared, the CPU wakes, `PC` is pushed and set to the source's vector; five machine
    /// cycles pass.
    pub fn handle_interrupts(&mut self)
        requires
            old(self).wf(),
        ensures
            final(self).wf(),
            crate::ppu::ppu_progress(old(self).bus.ppu, final(self).bus.ppu, 0),
            forall|k: nat| #[trigger] lowest_pending(old(self).bus.ioram.interrupt_flags, old(self).bus.memory.ie_register, k)
                ==> final(self).regs.pc == 0x40 + 8 * k && !final(self).int_master_enabled
                && !final(self).halted && final(self).regs.sp == sp_minus(old(self).regs.sp, 2)
                && !bit_of(final(self).bus.ioram.interrupt_flags, k) && (stack_in_ram(old(self).regs.sp)
                ==> final(self).bus.memory@ == ram_push16(old(self).bus.memory@, old(self).regs.sp, old(self).regs.pc)
                && forall|j: nat| j < 5 && j != k && bit_of(old(self).bus.ioram.interrupt_flags, j) ==> #[trigger] bit_of(
                final(self).bus.ioram.interrupt_flags,
                j,
            )),
            !any_pending(old(self).bus.ioram.interrupt_flags, old(self).bus.memory.ie_register) ==> *final(self)
                == *old(self),
            final(self).current_instruction == old(self).current_instruction,
    {
        let flags = self.bus.ioram.interrupt_flags;
        let ie = self.bus.memory.ie_register;
        let mut k: u8 = 0;
        while k < INTERRUPT_COUNT
            invariant
                k <= 5,
                forall|j: nat| j < k ==> !#[trigger] pending(flags, ie, j),
                *self == *old(self),
                self.wf(),
                flags == old(self).bus.ioram.interrupt_flags,
                ie == old(self).bus.memory.ie_register,
            decreases 5 - k,
        {
            if crate::alu::test_bit(flags, k) && crate::alu::test_bit(ie, k) {
                let t = match k {
                    0 => crate::interrupts::InterruptType::VBLANK,
                    1 => crate::interrupts::InterruptType::LCD_STAT,
                    2 => crate::interrupts::InterruptType::TIMER,
                    3 => crate::interrupts::InterruptType::SERIAL,
                    _ => crate::interrupts::InterruptType::JOYPAD,
                };
                self.int_master_enabled = false;
                self.halted = false;
                let pc = self.regs.pc;
                self.push16(pc);
                self.regs.pc = t.vector();
                self.emu_cycles(5);
                let now = self.bus.ioram.interrupt_flags;
                proof {
                    crate::io::lemma_clear_interrupt_bit(now, k as nat);
                }
                self.bus.ioram.interrupt_flags = crate::alu::bit_reset(k, now);
                proof {
                    assert(lowest_pending(flags, ie, k as nat));
                    assert forall|j: nat| #[trigger] lowest_pending(flags, ie, j) implies j == k by {
                        if j < k {
                        } else if j > k {
                            assert(pending(flags, ie, k as nat));
                        }
                    }
                }
                return;
            }
            k = k + 1;
        }
    }

    /// Whether any interrupt is both requested and enabled.
    pub(crate) fn interrupt_pending(&self) -> (r: bool)
        ensures
            r == any_pending(self.bus.ioram.interrupt_flags, self.bus.memory.ie_register),
    {
        let flags = self.bus.ioram.interrupt_flags;
        let ie = self.bus.memory.ie_register;
        let mut k: u8 = 0;
        while k < INTERRUPT_COUNT
            invariant
                k <= 5,
                forall|j: nat| j < k ==> !#[trigger] pending(flags, ie, j),
                flags == self.bus.ioram.interrupt_flags,
                ie == self.bus.memory.ie_register,
            decreases 5 - k,
        {
            if crate::alu::test_bit(flags, k) && crate::alu::test_bit(ie, k) {
                assert(k < 5 && pending(flags, ie, k as nat));
                assert(any_pending(flags, ie));
                return true;
            }
            k = k + 1;
        }
        false
    }

    /// One instruction (or one idle machine cycle while halted), then interrupt dispatch
    /// when IME is set. `EI` takes effect at the end of the step after it. Every step spends
    /// at least one machine cycle, so the PPU moves at least four ticks closer to V-Blank.
    #[verifier::rlimit(100)]
    #[verifier::spinoff_prover]
    pub fn cpu_step(&mut self) -> (r: i8)
        requires
            old(self).wf(),
        ensures
            final(self).wf(),
            crate::ppu::ppu_progress(old(self).bus.ppu, final(self).bus.ppu, 4),
            r == 0,
            !old(self).halted ==> final(self).current_instruction.opcode == old(self).bus.read_spec(old(self).regs.pc),
            old(self).halted ==> final(self).current_instruction == old(self).current_instruction,
            runs_plainly(*old(self)) && old(self).bus.read_spec(old(self).regs.pc) == 0x00 ==> final(self).regs
                == (Registers { pc: sp_plus(old(self).regs.pc, 1), ..old(self).regs }) && clock_advanced(
                *old(self),
                *final(self),
                1,
            ) && runs_plainly(*final(self)) && final(self).bus.memory == old(self).bus.memory && final(self).bus.cart
                == old(self).bus.cart,
            runs_plainly(*old(self)) && old(self).bus.read_spec(old(self).regs.pc) == 0xC3 && is_stable(
                sp_plus(old(self).regs.pc, 1),
            ) && is_stable(sp_plus(old(self).regs.pc, 2)) ==> final(self).regs == (Registers {
                pc: (old(self).bus.read_spec(sp_plus(old(self).regs.pc, 1)) + 256 * old(self).bus.read_spec(
                    sp_plus(old(self).regs.pc, 2),
                )) as u16,
                ..old(self).regs
            }) && clock_advanced(*old(self), *final(self), 4) && runs_plainly(*final(self)) && final(self).bus.memory
                == old(self).bus.memory && final(self).bus.cart == old(self).bus.cart,
            runs_plainly(*old(self)) && old(self).bus.read_spec(old(self).regs.pc) == 0xFB ==> final(self).int_master_enabled
                && final(self).regs == (Registers { pc: sp_plus(old(self).regs.pc, 1), ..old(self).regs }),
            !old(self).halted && !old(self).halt_bug && old(self).bus.read_spec(old(self).regs.pc) == 0xF3
                ==> !final(self).int_master_enabled && !final(self).ime_enabling,
            !old(self).halted && !old(self).halt_bug && old(self).int_master_enabled && old(self).bus.read_spec(
                old(self).regs.pc,
            ) == 0x00 && any_pending(old(self).bus.ioram.interrupt_flags, old(self).bus.memory.ie_register)
                ==> !final(self).int_master_enabled && exists|k: nat| k < 5 && #[trigger] interrupt_vector_at(k)
                == final(self).regs.pc,
    {
        let ghost s0 = *self;
        if !self.halted {
            let pc = self.regs.pc;
            let opcode = self.bus.read8(pc);
            self.current_instruction = Instruction::from_opcode(&opcode);
            if self.halt_bug {
                self.halt_bug = false;
            } else {
                self.increment_pointer(1);
            }
            self.destination_is_mem = false;
            let ghost s1 = *self;
            self.emu_cycles(1);
            let ghost s2 = *self;
            self.fetch_data();
            let ghost s3 = *self;
            self.execute();
            proof {
                if runs_plainly(s0) && opcode == 0x00 {
                    lemma_clock_same(s0, s2, s3, 1);
                    lemma_clock_same(s0, s3, *self, 1);
                }
                if runs_plainly(s0) && opcode == 0xC3 && is_stable(sp_plus(pc, 1)) && is_stable(sp_plus(pc, 2)) {
                    assert(s1.regs.pc == sp_plus(pc, 1));
                    assert(sp_plus(s1.regs.pc, 1) == sp_plus(pc, 2));
                    assert(s1.bus.read_spec(s1.regs.pc) == s0.bus.read_spec(sp_plus(pc, 1)));
                    lemma_clock_compose(s0, s2, s3, 1, 2);
                    lemma_clock_compose(s0, s3, *self, 3, 1);
                }
            }
        } else {
            self.emu_cycles(1);
            if self.interrupt_pending() {
                self.halted = false;
            }
        }
        if self.int_master_enabled {
            let ghost before = *self;
            let ghost dispatching = !s0.halted && !s0.halt_bug && s0.int_master_enabled && s0.bus.read_spec(s0.regs.pc)
                == 0x00 && any_pending(s0.bus.ioram.interrupt_flags, s0.bus.memory.ie_register);
            proof {
                if dispatching {
                    let k0 = choose|k: nat| k < 5 && #[trigger] pending(s0.bus.ioram.interrupt_flags, s0.bus.memory.ie_register, k);
                    assert(bit_of(s0.bus.ioram.interrupt_flags, k0));
                    assert(bit_of(self.bus.ioram.interrupt_flags, k0));
                    assert(pending(self.bus.ioram.interrupt_flags, self.bus.memory.ie_register, k0));
                    lemma_lowest_exists(self.bus.ioram.interrupt_flags, self.bus.memory.ie_register);
                }
            }
            self.handle_interrupts();
            proof {
                if dispatching {
                    let k = choose|k: nat| #[trigger] lowest_pending(before.bus.ioram.interrupt_flags, before.bus.memory.ie_register, k);
                    assert(interrupt_vector_at(k) == self.regs.pc);
                }
            }
            self.ime_enabling = false;
        }
        if self.ime_enabling {
            self.int_master_enabled = true;
        }
        0
    }
}

/// A step that is not halted, not caught by the HALT bug, and with no interrupt enable in
/// play.
pub open spec fn runs_plainly(c: CPU) -> bool {
    !c.halted && !c.halt_bug && !c.int_master_enabled && !c.ime_enabling
}

/// The dispatch vector of interrupt `k`.
pub open spec fn interrupt_vector_at(k: nat) -> u16 {
    (0x40 + 8 * k) as u16
}

/// When some interrupt is pending, a lowest one is.
pub proof fn lemma_lowest_exists(if_flags: u8, ie: u8)
    requires
        any_pending(if_flags, ie),
    ensures
        exists|k: nat| #[trigger] lowest_pending(if_flags, ie, k),
{
    let k0 = choose|k: nat| k < 5 && #[trigger] pending(if_flags, ie, k);
    if pending(if_flags, ie, 0) {
        assert(lowest_pending(if_flags, ie, 0));
    } else if pending(if_flags, ie, 1) {
        assert(lowest_pending(if_flags, ie, 1));
    } else if pending(if_flags, ie, 2) {
        assert(lowest_pending(if_flags, ie, 2));
    } else if pending(if_flags, ie, 3) {
        assert(lowest_pending(if_flags, ie, 3));
    } else {
        assert(k0 == 4);
        assert(lowest_pending(if_flags, ie, 4));
    }
}

} // verus!
