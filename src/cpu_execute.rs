use vstd::prelude::*;
use crate::alu::{
    Flags, signed8, adc8, add16, add8, add_sp, and8, bit_reset, bit_set, bit_test, cb_shift, daa, dec8, flags_of, inc8, or8,
    rla, rlca, rra, rrca, sbc8, sub8, xor8,
};
use crate::cpu::{CPU, clock_advanced, lemma_clock_compose, acc_result, alu_result, cb_spec, condition_holds, push_regs};
use crate::memory::{is_ram, ram_push16, ram_with, stack_in_ram};
use crate::bus::stored;
use crate::alu::{add16_spec, add_sp_spec};
use crate::alu::{dec8_spec, flags_byte, inc8_spec};
use crate::instruction::{AddressMode, ConditionType, InstructionType, RegisterType, decode_spec};
use crate::memory::sp_plus;
use crate::bus::is_stable;
use crate::registers::{Registers, reg_value, with_reg};

verus! {

/// An 8-bit arithmetic/logic instruction on A (`ADD A,..`, `ADC`, `SUB`, `SBC`, `AND`, `XOR`,
/// `OR`, `CP`).
pub open spec fn is_alu_op(i: crate::instruction::Instruction) -> bool {
    let t = i.instruction_type;
    t == InstructionType::ADC || t == InstructionType::SUB || t == InstructionType::SBC || t == InstructionType::AND
        || t == InstructionType::XOR || t == InstructionType::OR || t == InstructionType::CP || (t
        == InstructionType::ADD && i.register_1 == RegisterType::A)
}

/// The accumulator and flag operations without operand.
pub open spec fn is_accumulator_op(t: InstructionType) -> bool {
    t == InstructionType::RLCA || t == InstructionType::RRCA || t == InstructionType::RLA || t == InstructionType::RRA
        || t == InstructionType::DAA || t == InstructionType::CPL || t == InstructionType::SCF || t
        == InstructionType::CCF
}

/// The operand fetch leaves the processor's control state, the RAM and the cartridge alone.
pub open spec fn fetch_frame(a: CPU, b: CPU) -> bool {
    &&& crate::ppu::ppu_progress(a.bus.ppu, b.bus.ppu, 0)
    &&& b.halt_bug == a.halt_bug
    &&& b.halted == a.halted
    &&& b.int_master_enabled == a.int_master_enabled
    &&& b.ime_enabling == a.ime_enabling
    &&& b.current_instruction == a.current_instruction
    &&& b.bus.memory == a.bus.memory
    &&& b.bus.cart == a.bus.cart
}

/// Addressing modes whose operand comes from registers alone.
pub open spec fn is_register_mode(m: AddressMode) -> bool {
    m == AddressMode::IMPLIED || m == AddressMode::R || m == AddressMode::R_R || m == AddressMode::MR_R
        || m == AddressMode::HLI_R || m == AddressMode::HLD_R
}

/// Addressing modes whose operand follows the opcode.
pub open spec fn is_immediate_mode(m: AddressMode) -> bool {
    m == AddressMode::R_D8 || m == AddressMode::R_A8 || m == AddressMode::D8 || m == AddressMode::HL_SPR
        || m == AddressMode::MR_D8 || m == AddressMode::A8_R || is_wide_immediate(m)
}

/// Addressing modes with a two-byte immediate.
pub open spec fn is_wide_immediate(m: AddressMode) -> bool {
    m == AddressMode::D16 || m == AddressMode::R_D16 || m == AddressMode::A16_R || m == AddressMode::D16_R
}

fn is_register_mode_exec(m: AddressMode) -> (r: bool)
    ensures
        r == is_register_mode(m),
{
    match m {
        AddressMode::IMPLIED | AddressMode::R | AddressMode::R_R | AddressMode::MR_R | AddressMode::HLI_R
        | AddressMode::HLD_R => true,
        _ => false,
    }
}

fn is_immediate_mode_exec(m: AddressMode) -> (r: bool)
    ensures
        r == is_immediate_mode(m),
{
    match m {
        AddressMode::R_D8 | AddressMode::R_A8 | AddressMode::D8 | AddressMode::HL_SPR | AddressMode::MR_D8
        | AddressMode::A8_R | AddressMode::D16 | AddressMode::R_D16 | AddressMode::A16_R | AddressMode::D16_R => true,
        _ => false,
    }
}

/// The address a register names as a pointer: `(C)` is `FF00 + C`.
pub open spec fn port_address(r: Registers, rt: RegisterType) -> u16 {
    if rt == RegisterType::C {
        (0xFF00 + reg_value(r, rt) % 256) as u16
    } else {
        reg_value(r, rt)
    }
}

/// The little-endian 16-bit immediate after the opcode.
pub open spec fn immediate16(c: CPU) -> u16 {
    (c.bus.read_spec(c.regs.pc) + 256 * c.bus.read_spec(sp_plus(c.regs.pc, 1))) as u16
}

/// `HL` after an auto-increment (`up`) or auto-decrement, wrapping.
pub open spec fn hl_step(r: Registers, up: bool) -> u16 {
    let hl = reg_value(r, RegisterType::HL);
    (if up { (hl + 1) % 0x10000 } else { (hl + 0xFFFF) % 0x10000 }) as u16
}

/// What a load did from `a` to `b`: a store of the operand (one byte, or a 16-bit value
/// low byte first), `LD HL,SP+e8`, or a load into a register.
pub open spec fn load_effect(a: CPU, b: CPU) -> bool {
    let i = a.current_instruction;
    let lo = (a.fetched_data % 256) as u8;
    &&& a.destination_is_mem && !crate::instruction::is_wide(i.register_2) ==> b.regs == a.regs && stored(
        a.bus,
        b.bus,
        a.mem_dest,
        lo,
    )
    &&& a.destination_is_mem && crate::instruction::is_wide(i.register_2) && is_ram(a.mem_dest) && is_ram(
        sp_plus(a.mem_dest, 1),
    ) ==> b.regs == a.regs && b.bus.memory@ == ram_with(
        ram_with(a.bus.memory@, a.mem_dest, lo),
        sp_plus(a.mem_dest, 1),
        (a.fetched_data / 256) as u8,
    )
    &&& !a.destination_is_mem && i.address_mode == AddressMode::HL_SPR ==> b.regs == (Registers {
        f: flags_byte(add_sp_spec(a.regs.sp, lo).1),
        ..with_reg(a.regs, RegisterType::HL, add_sp_spec(a.regs.sp, lo).0)
    })
    &&& is_register_load(a) ==> b.regs == with_reg(a.regs, i.register_1, a.fetched_data)
}

/// What an `ADD` did: `ADD SP,e8`, `ADD HL,rr`, or `ADD A,v`.
pub open spec fn add_effect(a: CPU, b: CPU) -> bool {
    let i = a.current_instruction;
    let fl = flags_of(a.regs.f);
    &&& i.register_1 == RegisterType::SP ==> b.regs == (Registers {
        sp: add_sp_spec(a.regs.sp, (a.fetched_data % 256) as u8).0,
        f: flags_byte(add_sp_spec(a.regs.sp, (a.fetched_data % 256) as u8).1),
        ..a.regs
    })
    &&& i.register_1 == RegisterType::HL ==> b.regs == (Registers {
        f: flags_byte(add16_spec(reg_value(a.regs, RegisterType::HL), a.fetched_data, fl.z).1),
        ..with_reg(a.regs, RegisterType::HL, add16_spec(reg_value(a.regs, RegisterType::HL), a.fetched_data, fl.z).0)
    })
    &&& i.register_1 != RegisterType::SP && i.register_1 != RegisterType::HL ==> b.regs == alu_result(
        a.regs,
        InstructionType::ADD,
        (a.fetched_data % 256) as u8,
    )
}

/// What a `RET`/`RETI` did: `RETI` sets IME; when the condition fails the registers stay;
/// when it holds and the stack is in RAM, `PC` is popped.
pub open spec fn return_effect(a: CPU, b: CPU) -> bool {
    &&& a.current_instruction.instruction_type == InstructionType::RETI ==> b.int_master_enabled
    &&& !condition_holds(a.regs, a.current_instruction.condition) ==> b.regs == a.regs
    &&& condition_holds(a.regs, a.current_instruction.condition) && is_ram(a.regs.sp) && is_ram(sp_plus(a.regs.sp, 1))
        ==> b.regs == (Registers {
        pc: crate::memory::ram_pop16(a.bus.memory@, a.regs.sp),
        sp: sp_plus(a.regs.sp, 2),
        ..a.regs
    })
    &&& b.bus.memory == a.bus.memory
}

/// What a CB-prefixed instruction `op` did: on a register, the register and `F`; on `(HL)`,
/// `F` and (but for `BIT`) the byte stored back.
pub open spec fn cb_effect(a: CPU, b: CPU) -> bool {
    let op = a.fetched_data as u8;
    let rt = decode_spec(op as nat % 8);
    let out = cb_spec(op, (reg_value(a.regs, rt) % 256) as u8, flags_of(a.regs.f));
    &&& rt != RegisterType::HL ==> b.regs == (if op / 64 == 1 {
        Registers { f: flags_byte(out.1), ..a.regs }
    } else {
        Registers { f: flags_byte(out.1), ..with_reg(a.regs, rt, out.0 as u16) }
    })
    &&& (rt != RegisterType::HL || op / 64 == 1) ==> b.bus.memory == a.bus.memory
    &&& rt == RegisterType::HL ==> {
        let hl = reg_value(a.regs, RegisterType::HL);
        let m = cb_spec(op, a.bus.read_spec(hl), flags_of(a.regs.f));
        &&& b.regs == (Registers { f: flags_byte(m.1), ..a.regs })
        &&& op / 64 != 1 ==> stored(a.bus, b.bus, hl, m.0)
    }
}

/// A jump, call or restart.
pub open spec fn is_jump(t: InstructionType) -> bool {
    t == InstructionType::JP || t == InstructionType::JR || t == InstructionType::CALL || t == InstructionType::RST
}

/// Where a taken `CALL` or `RST` goes.
pub open spec fn call_target(c: CPU) -> u16 {
    if c.current_instruction.instruction_type == InstructionType::RST {
        c.current_instruction.rst_vec as u16
    } else {
        c.fetched_data
    }
}

/// `INC rr` / `DEC rr` on a 16-bit register.
pub open spec fn is_inc_dec16(i: crate::instruction::Instruction) -> bool {
    (i.instruction_type == InstructionType::INC || i.instruction_type == InstructionType::DEC) && i.address_mode
        == AddressMode::R && crate::instruction::is_wide(i.register_1)
}

/// `INC r8` / `DEC r8`, the operand being a register or `(HL)`.
pub open spec fn is_inc_dec8(i: crate::instruction::Instruction) -> bool {
    (i.instruction_type == InstructionType::INC || i.instruction_type == InstructionType::DEC) && !is_inc_dec16(i)
}

/// The new 8-bit value and flags of an `INC`/`DEC` of the fetched operand.
pub open spec fn inc_dec_out(c: CPU) -> (u8, Flags) {
    let v = (c.fetched_data % 256) as u8;
    if c.current_instruction.instruction_type == InstructionType::INC {
        inc8_spec(v, flags_of(c.regs.f).c)
    } else {
        dec8_spec(v, flags_of(c.regs.f).c)
    }
}

/// A load into a register of its fetched operand.
pub open spec fn is_register_load(c: CPU) -> bool {
    c.current_instruction.instruction_type == InstructionType::LD && !c.destination_is_mem
        && c.current_instruction.address_mode != AddressMode::HL_SPR
}

impl CPU {
    /// An 8-bit arithmetic/logic operation on A with operand `v` (`CP` leaves A).
    pub fn op_alu(&mut self, t: InstructionType, v: u8)
        ensures
            final(self).regs == alu_result(old(self).regs, t, v),
            final(self).regs.wf(),
            final(self).bus == old(self).bus,
            final(self).halted == old(self).halted,
            final(self).current_instruction == old(self).current_instruction,
    {
        let fl = self.regs.flags();
        let a = self.regs.a;
        let (r, nf) = match t {
            InstructionType::ADD => add8(a, v),
            InstructionType::ADC => adc8(a, v, fl.c),
            InstructionType::SUB => sub8(a, v),
            InstructionType::SBC => sbc8(a, v, fl.c),
            InstructionType::AND => and8(a, v),
            InstructionType::XOR => xor8(a, v),
            InstructionType::OR => or8(a, v),
            _ => (a, sub8(a, v).1),
        };
        self.regs.a = r;
        self.regs.set_flags(nf);
    }

    /// The accumulator and flag operations without operand: `RLCA`, `RRCA`, `RLA`, `RRA`,
    /// `DAA`, `CPL`, `SCF`, `CCF`.
    pub fn op_accumulator(&mut self, t: InstructionType)
        ensures
            final(self).regs == acc_result(old(self).regs, t),
            final(self).regs.wf(),
            final(self).bus == old(self).bus,
            final(self).halted == old(self).halted,
            final(self).current_instruction == old(self).current_instruction,
    {
        let fl = self.regs.flags();
        let a = self.regs.a;
        let (r, nf) = match t {
            InstructionType::RLCA => rlca(a),
            InstructionType::RRCA => rrca(a),
            InstructionType::RLA => rla(a, fl.c),
            InstructionType::RRA => rra(a, fl.c),
            InstructionType::DAA => daa(a, fl),
            InstructionType::CPL => (255 - a, Flags { z: fl.z, n: true, h: true, c: fl.c }),
            InstructionType::SCF => (a, Flags { z: fl.z, n: false, h: false, c: true }),
            InstructionType::CCF => (a, Flags { z: fl.z, n: false, h: false, c: !fl.c }),
            _ => (a, fl),
        };
        self.regs.a = r;
        self.regs.set_flags(nf);
    }

    /// A CB-prefixed operation `op` applied to a value with the current flags.
    fn cb_apply(op: u8, v: u8, fl: Flags) -> (r: (u8, Flags))
        ensures
            r == cb_spec(op, v, fl),
    {
        let bit = (op / 8) % 8;
        let kind = op / 64;
        if kind == 1 {
            (v, bit_test(bit, v, fl.c))
        } else if kind == 2 {
            (bit_reset(bit, v), fl)
        } else if kind == 3 {
            (bit_set(bit, v), fl)
        } else {
            cb_shift(op / 8, v, fl.c)
        }
    }

    /// Runs the CB-prefixed instruction whose second byte is `fetched_data`. For a register
    /// operand the result is exact: the register takes the new value, `F` the new flags.
    #[verifier::rlimit(100)]
    #[verifier::spinoff_prover]
    pub fn run_cb(&mut self)
        requires
            old(self).wf(),
            old(self).fetched_data < 256,
        ensures
            final(self).wf(),
            crate::ppu::ppu_progress(old(self).bus.ppu, final(self).bus.ppu, 0),
            final(self).halted == old(self).halted,
            final(self).current_instruction == old(self).current_instruction,
            cb_effect(*old(self), *final(self)),
    {
        let op = self.fetched_data as u8;
        let rt = RegisterType::decode((op % 8) as usize);
        let v = self.cpu_read_reg8(rt);
        let fl = self.regs.flags();
        self.emu_cycles(1);
        if rt == RegisterType::HL {
            self.emu_cycles(2);
        }
        let (r, nf) = CPU::cb_apply(op, v, fl);
        if op / 64 != 1 {
            self.cpu_set_reg8(rt, r);
        }
        self.regs.set_flags(nf);
    }

    /// Operands that need no bus access: none, a register, or a destination address held in
    /// registers (`(rr)`, `(C)`, `(HL+)`, `(HL-)`).
    fn fetch_register_operand(&mut self)
        requires
            old(self).wf(),
            is_register_mode(old(self).current_instruction.address_mode),
        ensures
            final(self).wf(),
            final(self).bus == old(self).bus,
            final(self).ticks == old(self).ticks,
            fetch_frame(*old(self), *final(self)),
            old(self).current_instruction.address_mode == AddressMode::IMPLIED ==> final(self).regs == old(self).regs && final(self).fetched_data == 0,
            old(self).current_instruction.address_mode == AddressMode::R ==> final(self).fetched_data == reg_value(old(self).regs, old(self).current_instruction.register_1)
                && final(self).regs == old(self).regs,
            old(self).current_instruction.address_mode == AddressMode::R_R ==> final(self).fetched_data == reg_value(old(self).regs, old(self).current_instruction.register_2)
                && final(self).regs == old(self).regs,
            old(self).current_instruction.address_mode == AddressMode::MR_R ==> final(self).fetched_data == reg_value(old(self).regs, old(self).current_instruction.register_2)
                && final(self).regs == old(self).regs && final(self).destination_is_mem && final(self).mem_dest == port_address(
                old(self).regs,
                old(self).current_instruction.register_1,
            ),
            (old(self).current_instruction.address_mode == AddressMode::HLI_R || old(self).current_instruction.address_mode == AddressMode::HLD_R) ==> final(self).fetched_data == reg_value(
                old(self).regs,
                old(self).current_instruction.register_2,
            ) && final(self).mem_dest == reg_value(old(self).regs, RegisterType::HL) && final(self).destination_is_mem
                && final(self).regs == with_reg(old(self).regs, RegisterType::HL, hl_step(old(self).regs, old(self).current_instruction.address_mode == AddressMode::HLI_R)),
    {
        let inst = self.current_instruction;
        match inst.address_mode {
            AddressMode::IMPLIED => {
                self.fetched_data = 0;
            },
            AddressMode::R => {
                self.fetched_data = self.regs.read_reg(inst.register_1);
            },
            AddressMode::R_R => {
                self.fetched_data = self.regs.read_reg(inst.register_2);
            },
            AddressMode::MR_R => {
                let mut dest = self.regs.read_reg(inst.register_1);
                if inst.register_1 == RegisterType::C {
                    dest = 0xFF00 + dest % 256;
                }
                self.mem_dest = dest;
                self.destination_is_mem = true;
                self.fetched_data = self.regs.read_reg(inst.register_2);
            },
            _ => {
                let hl = self.regs.read_reg(RegisterType::HL);
                self.mem_dest = hl;
                self.destination_is_mem = true;
                self.fetched_data = self.regs.read_reg(inst.register_2);
                let next = if inst.address_mode == AddressMode::HLI_R {
                    if hl == 0xFFFF { 0 } else { hl + 1 }
                } else {
                    if hl == 0 { 0xFFFF } else { hl - 1 }
                };
                self.regs.set_reg(RegisterType::HL, next);
            },
        }
    }

    /// Operands that follow the opcode: one byte (`d8`, `a8`, `e8`) or two (`d16`, `a16`).
    #[verifier::rlimit(100)]
    #[verifier::spinoff_prover]
    fn fetch_immediate(&mut self)
        requires
            old(self).wf(),
            is_immediate_mode(old(self).current_instruction.address_mode),
        ensures
            final(self).wf(),
            fetch_frame(*old(self), *final(self)),
            (old(self).current_instruction.address_mode == AddressMode::R_D8 || old(self).current_instruction.address_mode == AddressMode::D8 || old(self).current_instruction.address_mode == AddressMode::R_A8 || old(self).current_instruction.address_mode == AddressMode::HL_SPR
                || old(self).current_instruction.address_mode == AddressMode::MR_D8) ==> final(self).fetched_data == old(self).bus.read_spec(old(self).regs.pc)
                && final(self).regs == (Registers { pc: sp_plus(old(self).regs.pc, 1), ..old(self).regs }),
            old(self).current_instruction.address_mode == AddressMode::MR_D8 ==> final(self).destination_is_mem && final(self).mem_dest == reg_value(
                old(self).regs,
                old(self).current_instruction.register_1,
            ),
            old(self).current_instruction.address_mode == AddressMode::A8_R ==> final(self).destination_is_mem && final(self).mem_dest == 0xFF00
                + old(self).bus.read_spec(old(self).regs.pc) && final(self).fetched_data == reg_value(
                old(self).regs,
                old(self).current_instruction.register_2,
            ) && final(self).regs == (Registers { pc: sp_plus(old(self).regs.pc, 1), ..old(self).regs }),
            is_wide_immediate(old(self).current_instruction.address_mode) && is_stable(old(self).regs.pc) && is_stable(sp_plus(old(self).regs.pc, 1))
                ==> final(self).regs == (Registers { pc: sp_plus(old(self).regs.pc, 2), ..old(self).regs })
                && clock_advanced(*old(self), *final(self), 2),
            (old(self).current_instruction.address_mode == AddressMode::D16 || old(self).current_instruction.address_mode == AddressMode::R_D16) && is_stable(old(self).regs.pc) && is_stable(
                sp_plus(old(self).regs.pc, 1),
            ) ==> final(self).fetched_data == immediate16(*old(self)),
            (old(self).current_instruction.address_mode == AddressMode::A16_R || old(self).current_instruction.address_mode == AddressMode::D16_R) && is_stable(old(self).regs.pc) && is_stable(
                sp_plus(old(self).regs.pc, 1),
            ) ==> final(self).destination_is_mem && final(self).mem_dest == immediate16(*old(self)) && final(self).fetched_data
                == reg_value(old(self).regs, old(self).current_instruction.register_2),
    {
        let inst = self.current_instruction;
        match inst.address_mode {
            AddressMode::R_D8 | AddressMode::R_A8 | AddressMode::D8 | AddressMode::HL_SPR => {
                let v = self.fetch_byte();
                self.fetched_data = v as u16;
            },
            AddressMode::MR_D8 => {
                let dest = self.regs.read_reg(inst.register_1);
                let v = self.fetch_byte();
                self.fetched_data = v as u16;
                self.mem_dest = dest;
                self.destination_is_mem = true;
            },
            AddressMode::A8_R => {
                let src = self.regs.read_reg(inst.register_2);
                let v = self.fetch_byte();
                self.mem_dest = 0xFF00 + v as u16;
                self.destination_is_mem = true;
                self.fetched_data = src;
            },
            _ => {
                let src = self.regs.read_reg(inst.register_2);
                let lo = self.fetch_byte();
                let ghost mid = *self;
                let hi = self.fetch_byte();
                proof {
                    lemma_clock_compose(*old(self), mid, *self, 1, 1);
                }
                let v = lo as u16 + 256 * hi as u16;
                if inst.address_mode == AddressMode::D16 || inst.address_mode == AddressMode::R_D16 {
                    self.fetched_data = v;
                } else {
                    self.mem_dest = v;
                    self.destination_is_mem = true;
                    self.fetched_data = src;
                }
            },
        }
    }

    /// Operands read from memory: `(rr)`, `(C)`, `(HL+)`, `(HL-)`, `(HL)` and `(a16)`.
    #[verifier::rlimit(100)]
    #[verifier::spinoff_prover]
    fn fetch_indirect(&mut self)
        requires
            old(self).wf(),
            !is_register_mode(old(self).current_instruction.address_mode),
            !is_immediate_mode(old(self).current_instruction.address_mode),
        ensures
            final(self).wf(),
            fetch_frame(*old(self), *final(self)),
            old(self).current_instruction.address_mode == AddressMode::R_MR ==> final(self).fetched_data == old(self).bus.read_spec(
                port_address(old(self).regs, old(self).current_instruction.register_2),
            ) && final(self).regs == old(self).regs,
            (old(self).current_instruction.address_mode == AddressMode::R_HLI || old(self).current_instruction.address_mode == AddressMode::R_HLD) ==> final(self).fetched_data == old(self).bus.read_spec(
                reg_value(old(self).regs, RegisterType::HL),
            ) && final(self).regs == with_reg(old(self).regs, RegisterType::HL, hl_step(old(self).regs, old(self).current_instruction.address_mode == AddressMode::R_HLI)),
            old(self).current_instruction.address_mode == AddressMode::MR ==> final(self).fetched_data == old(self).bus.read_spec(
                reg_value(old(self).regs, old(self).current_instruction.register_1),
            ) && final(self).regs == old(self).regs && final(self).destination_is_mem && final(self).mem_dest == reg_value(
                old(self).regs,
                old(self).current_instruction.register_1,
            ),
            old(self).current_instruction.address_mode == AddressMode::R_A16 ==> final(self).regs == (Registers { pc: sp_plus(old(self).regs.pc, 2), ..old(self).regs }),
            old(self).current_instruction.address_mode == AddressMode::R_A16 && is_stable(old(self).regs.pc) && is_stable(sp_plus(old(self).regs.pc, 1)) && is_stable(
                immediate16(*old(self)),
            ) ==> final(self).fetched_data == old(self).bus.read_spec(immediate16(*old(self))),
    {
        let inst = self.current_instruction;
        match inst.address_mode {
            AddressMode::R_MR => {
                let mut addr = self.regs.read_reg(inst.register_2);
                if inst.register_2 == RegisterType::C {
                    addr = 0xFF00 + addr % 256;
                }
                let v = self.bus.read8(addr);
                self.emu_cycles(1);
                self.fetched_data = v as u16;
            },
            AddressMode::R_HLI | AddressMode::R_HLD => {
                let hl = self.regs.read_reg(RegisterType::HL);
                let v = self.bus.read8(hl);
                self.emu_cycles(1);
                let next = if inst.address_mode == AddressMode::R_HLI {
                    if hl == 0xFFFF { 0 } else { hl + 1 }
                } else {
                    if hl == 0 { 0xFFFF } else { hl - 1 }
                };
                self.regs.set_reg(RegisterType::HL, next);
                self.fetched_data = v as u16;
            },
            AddressMode::MR => {
                let addr = self.regs.read_reg(inst.register_1);
                self.mem_dest = addr;
                self.destination_is_mem = true;
                let v = self.bus.read8(addr);
                self.emu_cycles(1);
                self.fetched_data = v as u16;
            },
            _ => {
                let lo = self.fetch_byte();
                let hi = self.fetch_byte();
                let addr = lo as u16 + 256 * hi as u16;
                let v = self.bus.read8(addr);
                self.emu_cycles(1);
                self.fetched_data = v as u16;
            },
        }
    }

    /// Fetches the operand of the current instruction by its addressing mode, advancing `PC`
    /// past immediate bytes and spending a machine cycle per memory access.
    pub fn fetch_data(&mut self)
        requires
            old(self).wf(),
        ensures
            final(self).wf(),
            crate::ppu::ppu_progress(old(self).bus.ppu, final(self).bus.ppu, 0),
            fetch_frame(*old(self), *final(self)),
            is_register_mode(old(self).current_instruction.address_mode) ==> final(self).bus == old(self).bus && final(self).ticks == old(self).ticks,
            old(self).current_instruction.address_mode == AddressMode::IMPLIED ==> final(self).regs == old(self).regs && final(self).fetched_data == 0,
            old(self).current_instruction.address_mode == AddressMode::R ==> final(self).fetched_data == reg_value(old(self).regs, old(self).current_instruction.register_1)
                && final(self).regs == old(self).regs,
            old(self).current_instruction.address_mode == AddressMode::R_R ==> final(self).fetched_data == reg_value(old(self).regs, old(self).current_instruction.register_2)
                && final(self).regs == old(self).regs,
            old(self).current_instruction.address_mode == AddressMode::MR_R ==> final(self).fetched_data == reg_value(old(self).regs, old(self).current_instruction.register_2)
                && final(self).regs == old(self).regs && final(self).destination_is_mem && final(self).mem_dest == port_address(
                old(self).regs,
                old(self).current_instruction.register_1,
            ),
            (old(self).current_instruction.address_mode == AddressMode::HLI_R || old(self).current_instruction.address_mode == AddressMode::HLD_R) ==> final(self).fetched_data == reg_value(
                old(self).regs,
                old(self).current_instruction.register_2,
            ) && final(self).mem_dest == reg_value(old(self).regs, RegisterType::HL) && final(self).destination_is_mem
                && final(self).regs == with_reg(old(self).regs, RegisterType::HL, hl_step(old(self).regs, old(self).current_instruction.address_mode == AddressMode::HLI_R)),
            (old(self).current_instruction.address_mode == AddressMode::R_D8 || old(self).current_instruction.address_mode == AddressMode::D8 || old(self).current_instruction.address_mode == AddressMode::R_A8 || old(self).current_instruction.address_mode == AddressMode::HL_SPR
                || old(self).current_instruction.address_mode == AddressMode::MR_D8) ==> final(self).fetched_data == old(self).bus.read_spec(old(self).regs.pc)
                && final(self).regs == (Registers { pc: sp_plus(old(self).regs.pc, 1), ..old(self).regs }),
            old(self).current_instruction.address_mode == AddressMode::MR_D8 ==> final(self).destination_is_mem && final(self).mem_dest == reg_value(
                old(self).regs,
                old(self).current_instruction.register_1,
            ),
            old(self).current_instruction.address_mode == AddressMode::A8_R ==> final(self).destination_is_mem && final(self).mem_dest == 0xFF00
                + old(self).bus.read_spec(old(self).regs.pc) && final(self).fetched_data == reg_value(
                old(self).regs,
                old(self).current_instruction.register_2,
            ) && final(self).regs == (Registers { pc: sp_plus(old(self).regs.pc, 1), ..old(self).regs }),
            is_wide_immediate(old(self).current_instruction.address_mode) && is_stable(old(self).regs.pc) && is_stable(sp_plus(old(self).regs.pc, 1))
                ==> final(self).regs == (Registers { pc: sp_plus(old(self).regs.pc, 2), ..old(self).regs })
                && clock_advanced(*old(self), *final(self), 2),
            (old(self).current_instruction.address_mode == AddressMode::D16 || old(self).current_instruction.address_mode == AddressMode::R_D16) && is_stable(old(self).regs.pc) && is_stable(
                sp_plus(old(self).regs.pc, 1),
            ) ==> final(self).fetched_data == immediate16(*old(self)),
            (old(self).current_instruction.address_mode == AddressMode::A16_R || old(self).current_instruction.address_mode == AddressMode::D16_R) && is_stable(old(self).regs.pc) && is_stable(
                sp_plus(old(self).regs.pc, 1),
            ) ==> final(self).destination_is_mem && final(self).mem_dest == immediate16(*old(self)) && final(self).fetched_data
                == reg_value(old(self).regs, old(self).current_instruction.register_2),
            old(self).current_instruction.address_mode == AddressMode::R_MR ==> final(self).fetched_data == old(self).bus.read_spec(
                port_address(old(self).regs, old(self).current_instruction.register_2),
            ) && final(self).regs == old(self).regs,
            (old(self).current_instruction.address_mode == AddressMode::R_HLI || old(self).current_instruction.address_mode == AddressMode::R_HLD) ==> final(self).fetched_data == old(self).bus.read_spec(
                reg_value(old(self).regs, RegisterType::HL),
            ) && final(self).regs == with_reg(old(self).regs, RegisterType::HL, hl_step(old(self).regs, old(self).current_instruction.address_mode == AddressMode::R_HLI)),
            old(self).current_instruction.address_mode == AddressMode::MR ==> final(self).fetched_data == old(self).bus.read_spec(
                reg_value(old(self).regs, old(self).current_instruction.register_1),
            ) && final(self).regs == old(self).regs && final(self).destination_is_mem && final(self).mem_dest == reg_value(
                old(self).regs,
                old(self).current_instruction.register_1,
            ),
            old(self).current_instruction.address_mode == AddressMode::R_A16 ==> final(self).regs == (Registers { pc: sp_plus(old(self).regs.pc, 2), ..old(self).regs }),
            old(self).current_instruction.address_mode == AddressMode::R_A16 && is_stable(old(self).regs.pc) && is_stable(sp_plus(old(self).regs.pc, 1)) && is_stable(
                immediate16(*old(self)),
            ) ==> final(self).fetched_data == old(self).bus.read_spec(immediate16(*old(self))),
    {
        if is_register_mode_exec(self.current_instruction.address_mode) {
            self.fetch_register_operand();
        } else if is_immediate_mode_exec(self.current_instruction.address_mode) {
            self.fetch_immediate();
        } else {
            self.fetch_indirect();
        }
    }

    /// `PUSH rr`: the pair goes on the stack, high byte first.
    #[verifier::rlimit(100)]
    #[verifier::spinoff_prover]
    pub fn op_push(&mut self, rt: RegisterType)
        requires
            old(self).wf(),
        ensures
            final(self).wf(),
            crate::ppu::ppu_progress(old(self).bus.ppu, final(self).bus.ppu, 0),
            final(self).regs == crate::cpu::push_regs(old(self).regs),
            crate::memory::stack_in_ram(old(self).regs.sp) ==> final(self).bus.memory@ == crate::memory::ram_push16(
                old(self).bus.memory@,
                old(self).regs.sp,
                reg_value(old(self).regs, rt),
            ),
            final(self).halted == old(self).halted,
            final(self).current_instruction == old(self).current_instruction,
    {
        let v = self.regs.read_reg(rt);
        self.emu_cycles(1);
        let mut sp = self.regs.sp;
        self.bus.stack_push8(&mut sp, (v / 256) as u8);
        self.regs.sp = sp;
        self.emu_cycles(1);
        let mut sp = self.regs.sp;
        self.bus.stack_push8(&mut sp, (v % 256) as u8);
        self.regs.sp = sp;
        self.emu_cycles(1);
    }

    /// `POP rr`: the pair is read from the stack, low byte first (`F` keeps only its high
    /// nibble).
    pub fn op_pop(&mut self, rt: RegisterType)
        requires
            old(self).wf(),
        ensures
            final(self).wf(),
            crate::ppu::ppu_progress(old(self).bus.ppu, final(self).bus.ppu, 0),
            crate::memory::is_ram(old(self).regs.sp) && crate::memory::is_ram(sp_plus(old(self).regs.sp, 1))
                ==> final(self).regs == crate::cpu::pop_regs(
                old(self).regs,
                rt,
                crate::memory::ram_pop16(old(self).bus.memory@, old(self).regs.sp),
            ),
            final(self).bus.memory == old(self).bus.memory,
            final(self).halted == old(self).halted,
            final(self).current_instruction == old(self).current_instruction,
    {
        let mut sp = self.regs.sp;
        let lo = self.bus.stack_pop8(&mut sp);
        self.emu_cycles(1);
        let hi = self.bus.stack_pop8(&mut sp);
        self.emu_cycles(1);
        self.regs.sp = sp;
        self.regs.set_reg(rt, lo as u16 + 256 * hi as u16);
    }

    /// `LD`: into a register, into memory, or `LD HL,SP+e8`.
    #[verifier::rlimit(100)]
    #[verifier::spinoff_prover]
    fn exec_load(&mut self)
        requires
            old(self).wf(),
            old(self).current_instruction.instruction_type == InstructionType::LD,
        ensures
            final(self).wf(),
            crate::ppu::ppu_progress(old(self).bus.ppu, final(self).bus.ppu, 0),
            final(self).current_instruction == old(self).current_instruction,
            final(self).halted == old(self).halted,
            load_effect(*old(self), *final(self)),
    {
        let inst = self.current_instruction;
        let data = self.fetched_data;
        if self.destination_is_mem {
            if inst.register_2.is_16bit() {
                self.bus.write8(self.mem_dest, (data % 256) as u8);
                self.emu_cycles(1);
                let next = if self.mem_dest == 0xFFFF { 0 } else { self.mem_dest + 1 };
                self.bus.write8(next, (data / 256) as u8);
            } else {
                self.bus.write8(self.mem_dest, (data % 256) as u8);
            }
            self.emu_cycles(1);
        } else if inst.address_mode == AddressMode::HL_SPR {
            let (r, fl) = add_sp(self.regs.sp, (data % 256) as u8);
            self.regs.set_reg(RegisterType::HL, r);
            self.regs.set_flags(fl);
            self.emu_cycles(1);
        } else {
            self.regs.set_reg(inst.register_1, data);
        }
    }

    /// `INC` / `DEC` of a register, a pair or `(HL)`.
    #[verifier::rlimit(100)]
    #[verifier::spinoff_prover]
    fn exec_inc_dec(&mut self)
        requires
            old(self).wf(),
            old(self).current_instruction.instruction_type == InstructionType::INC || old(self).current_instruction.instruction_type == InstructionType::DEC,
        ensures
            final(self).wf(),
            crate::ppu::ppu_progress(old(self).bus.ppu, final(self).bus.ppu, 0),
            final(self).current_instruction == old(self).current_instruction,
            final(self).halted == old(self).halted,
            is_inc_dec8(old(self).current_instruction) && old(self).current_instruction.address_mode != AddressMode::MR
                ==> final(self).regs == (Registers {
                f: flags_byte(inc_dec_out(*old(self)).1),
                ..with_reg(old(self).regs, old(self).current_instruction.register_1, inc_dec_out(*old(self)).0 as u16)
            }),
            is_inc_dec8(old(self).current_instruction) && old(self).current_instruction.address_mode == AddressMode::MR
                ==> final(self).regs == (Registers { f: flags_byte(inc_dec_out(*old(self)).1), ..old(self).regs }) && stored(
                old(self).bus,
                final(self).bus,
                old(self).mem_dest,
                inc_dec_out(*old(self)).0,
            ),
            is_inc_dec16(old(self).current_instruction) ==> final(self).regs == with_reg(
                old(self).regs,
                old(self).current_instruction.register_1,
                (if old(self).current_instruction.instruction_type == InstructionType::INC {
                    (reg_value(old(self).regs, old(self).current_instruction.register_1) + 1) % 0x10000
                } else {
                    (reg_value(old(self).regs, old(self).current_instruction.register_1) + 0xFFFF) % 0x10000
                }) as u16,
            ),
    {
        let inst = self.current_instruction;
        let data = self.fetched_data;
        let inc = inst.instruction_type == InstructionType::INC;
        if inst.register_1.is_16bit() && inst.address_mode == AddressMode::R {
            let v = self.regs.read_reg(inst.register_1);
            let r = if inc {
                if v == 0xFFFF { 0 } else { v + 1 }
            } else {
                if v == 0 { 0xFFFF } else { v - 1 }
            };
            self.regs.set_reg(inst.register_1, r);
            self.emu_cycles(1);
        } else {
            let fl = self.regs.flags();
            let v = (data % 256) as u8;
            let (r, nf) = if inc { inc8(v, fl.c) } else { dec8(v, fl.c) };
            if inst.address_mode == AddressMode::MR {
                self.bus.write8(self.mem_dest, r);
                self.emu_cycles(1);
            } else {
                self.regs.set_reg(inst.register_1, r as u16);
            }
            self.regs.set_flags(nf);
        }
    }

    /// `JP`, `JR`, `CALL` and `RST`: taken when the condition holds.
    #[verifier::rlimit(100)]
    #[verifier::spinoff_prover]
    fn exec_jump(&mut self)
        requires
            old(self).wf(),
            is_jump(old(self).current_instruction.instruction_type),
        ensures
            final(self).same_control(&*old(self)),
            old(self).current_instruction.instruction_type == InstructionType::JP && condition_holds(
                old(self).regs,
                old(self).current_instruction.condition,
            ) ==> clock_advanced(*old(self), *final(self), 1) && final(self).bus.memory == old(self).bus.memory
                && final(self).bus.cart == old(self).bus.cart,
            final(self).wf(),
            crate::ppu::ppu_progress(old(self).bus.ppu, final(self).bus.ppu, 0),
            final(self).current_instruction == old(self).current_instruction,
            final(self).halted == old(self).halted,
            is_jump(old(self).current_instruction.instruction_type) && !condition_holds(
                old(self).regs,
                old(self).current_instruction.condition,
            ) ==> final(self).regs == old(self).regs && final(self).bus.memory == old(self).bus.memory,
            old(self).current_instruction.instruction_type == InstructionType::JP && condition_holds(
                old(self).regs,
                old(self).current_instruction.condition,
            ) ==> final(self).regs == (Registers { pc: old(self).fetched_data, ..old(self).regs }),
            old(self).current_instruction.instruction_type == InstructionType::JR && condition_holds(
                old(self).regs,
                old(self).current_instruction.condition,
            ) ==> final(self).regs == (Registers {
                pc: ((old(self).regs.pc + signed8((old(self).fetched_data % 256) as u8) + 0x10000) % 0x10000) as u16,
                ..old(self).regs
            }),
            (old(self).current_instruction.instruction_type == InstructionType::CALL || old(
                self,
            ).current_instruction.instruction_type == InstructionType::RST) && condition_holds(
                old(self).regs,
                old(self).current_instruction.condition,
            ) ==> final(self).regs == (Registers { pc: call_target(*old(self)), ..push_regs(old(self).regs) }) && (
            stack_in_ram(old(self).regs.sp) ==> final(self).bus.memory@ == ram_push16(
                old(self).bus.memory@,
                old(self).regs.sp,
                old(self).regs.pc,
            )),
    {
        let inst = self.current_instruction;
        let data = self.fetched_data;
        if inst.instruction_type == InstructionType::JR {
            let e = (data % 256) as u16;
            let target = if e < 128 {
                ((self.regs.pc as u32 + e as u32) % 0x10000) as u16
            } else {
                ((self.regs.pc as u32 + 0x10000 + e as u32 - 256) % 0x10000) as u16
            };
            self.goto_addr(target, false);
        } else if inst.instruction_type == InstructionType::JP {
            self.goto_addr(data, false);
        } else if inst.instruction_type == InstructionType::CALL {
            self.goto_addr(data, true);
        } else {
            self.goto_addr(inst.rst_vec as u16, true);
        }
    }

    /// `ADD`: to SP (signed byte), to HL (a pair), or to A.
    #[verifier::rlimit(100)]
    #[verifier::spinoff_prover]
    fn exec_add(&mut self)
        requires
            old(self).wf(),
            old(self).current_instruction.instruction_type == InstructionType::ADD,
        ensures
            final(self).wf(),
            crate::ppu::ppu_progress(old(self).bus.ppu, final(self).bus.ppu, 0),
            final(self).current_instruction == old(self).current_instruction,
            final(self).halted == old(self).halted,
            add_effect(*old(self), *final(self)),
    {
        let inst = self.current_instruction;
        let data = self.fetched_data;
        if inst.register_1 == RegisterType::SP {
            let (r, fl) = add_sp(self.regs.sp, (data % 256) as u8);
            self.regs.sp = r;
            self.regs.set_flags(fl);
            self.emu_cycles(2);
        } else if inst.register_1 == RegisterType::HL {
            let z = self.regs.flags().z;
            let (r, fl) = add16(self.regs.read_reg(RegisterType::HL), data, z);
            self.regs.set_reg(RegisterType::HL, r);
            self.regs.set_flags(fl);
            self.emu_cycles(1);
        } else {
            self.op_alu(InstructionType::ADD, (data % 256) as u8);
        }
    }

    /// `LDH A,(a8)` reads `FF00 + a8` into A; `LDH (a8),A` writes A there.
    #[verifier::rlimit(100)]
    #[verifier::spinoff_prover]
    fn exec_ldh(&mut self)
        requires
            old(self).wf(),
            old(self).current_instruction.instruction_type == InstructionType::LDH,
        ensures
            final(self).wf(),
            crate::ppu::ppu_progress(old(self).bus.ppu, final(self).bus.ppu, 0),
            final(self).current_instruction == old(self).current_instruction,
            final(self).same_control(&*old(self)),
            old(self).current_instruction.address_mode == AddressMode::R_A8 ==> final(self).regs == (Registers {
                a: old(self).bus.read_spec((0xFF00 + old(self).fetched_data % 256) as u16),
                ..old(self).regs
            }) && final(self).bus.memory == old(self).bus.memory,
            old(self).current_instruction.address_mode != AddressMode::R_A8 ==> final(self).regs == old(self).regs,
            old(self).current_instruction.address_mode != AddressMode::R_A8 && is_ram(old(self).mem_dest) ==> final(self).bus.memory@ == ram_with(old(self).bus.memory@, old(self).mem_dest, old(self).regs.a),
            old(self).current_instruction.address_mode != AddressMode::R_A8 && old(self).mem_dest == 0xFF46 ==> final(self).bus.ppu.lcd.dma == crate::dma::dma_step(
                crate::dma::DMA { active: true, byte_address: 0, value: old(self).regs.a },
            ),
    {
        if self.current_instruction.address_mode == AddressMode::R_A8 {
            let v = self.bus.read8(0xFF00 + self.fetched_data % 256);
            self.regs.a = v;
        } else {
            let a = self.regs.a;
            self.bus.write8(self.mem_dest, a);
        }
        self.emu_cycles(1);
        proof {
            reveal_with_fuel(crate::dma::dma_after, 2);
        }
    }

    /// `RET` and `RETI` (which also sets IME).
    #[verifier::rlimit(100)]
    #[verifier::spinoff_prover]
    fn exec_return(&mut self)
        requires
            old(self).wf(),
            old(self).current_instruction.instruction_type == InstructionType::RET || old(self).current_instruction.instruction_type == InstructionType::RETI,
        ensures
            final(self).wf(),
            crate::ppu::ppu_progress(old(self).bus.ppu, final(self).bus.ppu, 0),
            final(self).current_instruction == old(self).current_instruction,
            final(self).halted == old(self).halted,
            return_effect(*old(self), *final(self)),
            old(self).current_instruction.instruction_type == InstructionType::RET
                && old(self).current_instruction.condition == ConditionType::NONE && crate::memory::is_ram(
                old(self).regs.sp,
            ) && crate::memory::is_ram(sp_plus(old(self).regs.sp, 1)) ==> final(self).regs == (Registers {
                pc: crate::memory::ram_pop16(old(self).bus.memory@, old(self).regs.sp),
                sp: sp_plus(old(self).regs.sp, 2),
                ..old(self).regs
            }),
    {
        let inst = self.current_instruction;
        if inst.instruction_type == InstructionType::RETI {
            self.int_master_enabled = true;
        }
        if inst.condition != ConditionType::NONE {
            self.emu_cycles(1);
        }
        if self.check_condition() {
            let lo_sp = self.regs.sp;
            let mut sp = lo_sp;
            let lo = self.bus.stack_pop8(&mut sp);
            self.emu_cycles(1);
            let hi = self.bus.stack_pop8(&mut sp);
            self.emu_cycles(1);
            self.regs.sp = sp;
            self.regs.pc = lo as u16 + 256 * hi as u16;
            self.emu_cycles(1);
        }
    }

    /// Executes the current instruction on its fetched operand.
    #[verifier::rlimit(100)]
    #[verifier::spinoff_prover]
    pub fn execute(&mut self)
        requires
            old(self).wf(),
        ensures
            final(self).wf(),
            crate::ppu::ppu_progress(old(self).bus.ppu, final(self).bus.ppu, 0),
            final(self).current_instruction == old(self).current_instruction,
            old(self).current_instruction.instruction_type == InstructionType::LD ==> load_effect(*old(self), *final(self)),
            old(self).current_instruction.instruction_type == InstructionType::ADD ==> add_effect(*old(self), *final(self)),
            (old(self).current_instruction.instruction_type == InstructionType::RET || old(self).current_instruction.instruction_type
                == InstructionType::RETI) ==> return_effect(*old(self), *final(self)),
            old(self).current_instruction.instruction_type == InstructionType::CB && old(self).fetched_data < 256
                ==> cb_effect(*old(self), *final(self)),
            old(self).current_instruction.instruction_type == InstructionType::LDH && old(
                self,
            ).current_instruction.address_mode == AddressMode::R_A8 ==> final(self).regs == (Registers {
                a: old(self).bus.read_spec((0xFF00 + old(self).fetched_data % 256) as u16),
                ..old(self).regs
            }),
            old(self).current_instruction.instruction_type == InstructionType::LDH && old(
                self,
            ).current_instruction.address_mode != AddressMode::R_A8 ==> final(self).regs == old(self).regs && (is_ram(
                old(self).mem_dest,
            ) ==> final(self).bus.memory@ == ram_with(old(self).bus.memory@, old(self).mem_dest, old(self).regs.a)),
            is_alu_op(old(self).current_instruction) ==> final(self).regs == alu_result(
                old(self).regs,
                old(self).current_instruction.instruction_type,
                (old(self).fetched_data % 256) as u8,
            ),
            is_accumulator_op(old(self).current_instruction.instruction_type) ==> final(self).regs == acc_result(
                old(self).regs,
                old(self).current_instruction.instruction_type,
            ),
            old(self).current_instruction.instruction_type == InstructionType::HALT ==> final(self).regs == old(self).regs
                && if !old(self).int_master_enabled && crate::cpu::any_pending(
                old(self).bus.ioram.interrupt_flags,
                old(self).bus.memory.ie_register,
            ) {
                final(self).halt_bug && final(self).halted == old(self).halted
            } else {
                final(self).halted && final(self).halt_bug == old(self).halt_bug
            },
            old(self).current_instruction.instruction_type == InstructionType::DI ==> !final(self).int_master_enabled
                && !final(self).ime_enabling && final(self).regs == old(self).regs,
            old(self).current_instruction.instruction_type == InstructionType::EI ==> final(self).ime_enabling
                && final(self).regs == old(self).regs,
            old(self).current_instruction.instruction_type == InstructionType::NOP ==> final(self).regs == old(self).regs
                && final(self).bus == old(self).bus && final(self).ticks == old(self).ticks && final(self).same_control(
                &*old(self),
            ),
            old(self).current_instruction.instruction_type == InstructionType::JP && condition_holds(
                old(self).regs,
                old(self).current_instruction.condition,
            ) ==> clock_advanced(*old(self), *final(self), 1) && final(self).same_control(&*old(self))
                && final(self).bus.memory == old(self).bus.memory && final(self).bus.cart == old(self).bus.cart,
            old(self).current_instruction.instruction_type == InstructionType::EI ==> final(self).int_master_enabled
                == old(self).int_master_enabled,
            is_register_load(*old(self)) ==> final(self).regs == with_reg(
                old(self).regs,
                old(self).current_instruction.register_1,
                old(self).fetched_data,
            ),
            is_jump(old(self).current_instruction.instruction_type) && !condition_holds(
                old(self).regs,
                old(self).current_instruction.condition,
            ) ==> final(self).regs == old(self).regs && final(self).bus.memory == old(self).bus.memory,
            old(self).current_instruction.instruction_type == InstructionType::JP && condition_holds(
                old(self).regs,
                old(self).current_instruction.condition,
            ) ==> final(self).regs == (Registers { pc: old(self).fetched_data, ..old(self).regs }),
            old(self).current_instruction.instruction_type == InstructionType::JR && condition_holds(
                old(self).regs,
                old(self).current_instruction.condition,
            ) ==> final(self).regs == (Registers {
                pc: ((old(self).regs.pc + signed8((old(self).fetched_data % 256) as u8) + 0x10000) % 0x10000) as u16,
                ..old(self).regs
            }),
            (old(self).current_instruction.instruction_type == InstructionType::CALL || old(
                self,
            ).current_instruction.instruction_type == InstructionType::RST) && condition_holds(
                old(self).regs,
                old(self).current_instruction.condition,
            ) ==> final(self).regs == (Registers { pc: call_target(*old(self)), ..push_regs(old(self).regs) }) && (
            stack_in_ram(old(self).regs.sp) ==> final(self).bus.memory@ == ram_push16(
                old(self).bus.memory@,
                old(self).regs.sp,
                old(self).regs.pc,
            )),
            old(self).current_instruction.instruction_type == InstructionType::RET
                && old(self).current_instruction.condition == ConditionType::NONE && crate::memory::is_ram(
                old(self).regs.sp,
            ) && crate::memory::is_ram(sp_plus(old(self).regs.sp, 1)) ==> final(self).regs == (Registers {
                pc: crate::memory::ram_pop16(old(self).bus.memory@, old(self).regs.sp),
                sp: sp_plus(old(self).regs.sp, 2),
                ..old(self).regs
            }),
            old(self).current_instruction.instruction_type == InstructionType::PUSH ==> final(self).regs
                == push_regs(old(self).regs) && (stack_in_ram(old(self).regs.sp) ==> final(self).bus.memory@
                == ram_push16(
                old(self).bus.memory@,
                old(self).regs.sp,
                reg_value(old(self).regs, old(self).current_instruction.register_1),
            )),
            is_inc_dec8(old(self).current_instruction) && old(self).current_instruction.address_mode != AddressMode::MR
                ==> final(self).regs == (Registers {
                f: flags_byte(inc_dec_out(*old(self)).1),
                ..with_reg(old(self).regs, old(self).current_instruction.register_1, inc_dec_out(*old(self)).0 as u16)
            }),
            is_inc_dec8(old(self).current_instruction) && old(self).current_instruction.address_mode == AddressMode::MR
                ==> final(self).regs == (Registers { f: flags_byte(inc_dec_out(*old(self)).1), ..old(self).regs }) && stored(
                old(self).bus,
                final(self).bus,
                old(self).mem_dest,
                inc_dec_out(*old(self)).0,
            ),
            is_inc_dec16(old(self).current_instruction) ==> final(self).regs == with_reg(
                old(self).regs,
                old(self).current_instruction.register_1,
                (if old(self).current_instruction.instruction_type == InstructionType::INC {
                    (reg_value(old(self).regs, old(self).current_instruction.register_1) + 1) % 0x10000
                } else {
                    (reg_value(old(self).regs, old(self).current_instruction.register_1) + 0xFFFF) % 0x10000
                }) as u16,
            ),
            old(self).current_instruction.instruction_type == InstructionType::POP && crate::memory::is_ram(
                old(self).regs.sp,
            ) && crate::memory::is_ram(sp_plus(old(self).regs.sp, 1)) ==> final(self).regs == crate::cpu::pop_regs(
                old(self).regs,
                old(self).current_instruction.register_1,
                crate::memory::ram_pop16(old(self).bus.memory@, old(self).regs.sp),
            ),
    {
        let inst = self.current_instruction;
        let data = self.fetched_data;
        match inst.instruction_type {
            InstructionType::LD => {
                self.exec_load();
            },
            InstructionType::INC | InstructionType::DEC => {
                self.exec_inc_dec();
            },
            InstructionType::RLCA | InstructionType::RRCA | InstructionType::RLA | InstructionType::RRA
            | InstructionType::DAA | InstructionType::CPL | InstructionType::SCF | InstructionType::CCF => {
                self.op_accumulator(inst.instruction_type);
            },
            InstructionType::ADD => {
                self.exec_add();
            },
            InstructionType::ADC | InstructionType::SUB | InstructionType::SBC | InstructionType::AND
            | InstructionType::XOR | InstructionType::OR | InstructionType::CP => {
                self.op_alu(inst.instruction_type, (data % 256) as u8);
            },
            InstructionType::HALT => {
                if !self.int_master_enabled && self.interrupt_pending() {
                    self.halt_bug = true;
                } else {
                    self.halted = true;
                }
            },
            InstructionType::JR => {
                self.exec_jump();
            },
            InstructionType::JP => {
                self.exec_jump();
            },
            InstructionType::CALL => {
                self.exec_jump();
            },
            InstructionType::RST => {
                self.exec_jump();
            },
            InstructionType::RET | InstructionType::RETI => {
                self.exec_return();
            },
            InstructionType::PUSH => {
                self.op_push(inst.register_1);
            },
            InstructionType::POP => {
                self.op_pop(inst.register_1);
            },
            InstructionType::LDH => {
                self.exec_ldh();
            },
            InstructionType::DI => {
                self.int_master_enabled = false;
                self.ime_enabling = false;
            },
            InstructionType::EI => {
                self.ime_enabling = true;
            },
            InstructionType::CB => {
                if data < 256 {
                    self.run_cb();
                }
            },
            _ => {},
        }
    }
}

} // verus!
