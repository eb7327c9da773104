use vstd::prelude::*;
use vstd::string::*;

verus! {

/// The operation an opcode performs.
#[allow(non_camel_case_types)]
#[derive(Clone, Copy, Debug, PartialEq, Eq, Structural)]
pub enum InstructionType {
    NONE,
    NOP,
    LD,
    INC,
    DEC,
    RLCA,
    ADD,
    RRCA,
    STOP,
    RLA,
    JR,
    RRA,
    DAA,
    CPL,
    SCF,
    CCF,
    HALT,
    ADC,
    SUB,
    SBC,
    AND,
    XOR,
    OR,
    CP,
    POP,
    JP,
    PUSH,
    RET,
    CB,
    CALL,
    RETI,
    LDH,
    JPHL,
    DI,
    EI,
    RST,
    ERR,
    RLC,
    RRC,
    RL,
    RR,
    SLA,
    SRA,
    SWAP,
    SRL,
    BIT,
    RES,
    SET,
}

/// Where an instruction takes its operand from and puts its result.
#[allow(non_camel_case_types)]
#[derive(Clone, Copy, Debug, PartialEq, Eq, Structural)]
pub enum AddressMode {
    IMPLIED,
    R_D16,
    R_R,
    MR_R,
    R,
    R_D8,
    R_MR,
    R_HLI,
    R_HLD,
    HLI_R,
    HLD_R,
    R_A8,
    A8_R,
    HL_SPR,
    D16,
    D8,
    D16_R,
    MR_D8,
    MR,
    A16_R,
    R_A16,
}

/// A register, a register pair, or none.
#[allow(non_camel_case_types)]
#[derive(Clone, Copy, Debug, PartialEq, Eq, Structural)]
pub enum RegisterType {
    NONE,
    A,
    F,
    B,
    C,
    D,
    E,
    H,
    L,
    AF,
    BC,
    DE,
    HL,
    SP,
    PC,
}

/// The flag test of a conditional jump, call or return.
#[allow(non_camel_case_types)]
#[derive(Clone, Copy, Debug, PartialEq, Eq, Structural)]
pub enum ConditionType {
    NONE,
    NZ,
    Z,
    NC,
    C,
}

/// One decoded opcode.
#[derive(Clone, Copy, Debug)]
pub struct Instruction {
    pub instruction_type: InstructionType,
    pub address_mode: AddressMode,
    pub register_1: RegisterType,
    pub register_2: RegisterType,
    pub condition: ConditionType,
    pub opcode: u8,
    pub rst_vec: u8,
    pub length: u8,
    pub cycles: u8,
    pub no_action_cycles: u8,
}

pub open spec fn operation_name(t: InstructionType) -> Seq<char> {
    match t {
        InstructionType::NONE => "NONE"@,
        InstructionType::NOP => "NOP"@,
        InstructionType::LD => "LD"@,
        InstructionType::INC => "INC"@,
        InstructionType::DEC => "DEC"@,
        InstructionType::RLCA => "RLCA"@,
        InstructionType::ADD => "ADD"@,
        InstructionType::RRCA => "RRCA"@,
        InstructionType::STOP => "STOP"@,
        InstructionType::RLA => "RLA"@,
        InstructionType::JR => "JR"@,
        InstructionType::RRA => "RRA"@,
        InstructionType::DAA => "DAA"@,
        InstructionType::CPL => "CPL"@,
        InstructionType::SCF => "SCF"@,
        InstructionType::CCF => "CCF"@,
        InstructionType::HALT => "HALT"@,
        InstructionType::ADC => "ADC"@,
        InstructionType::SUB => "SUB"@,
        InstructionType::SBC => "SBC"@,
        InstructionType::AND => "AND"@,
        InstructionType::XOR => "XOR"@,
        InstructionType::OR => "OR"@,
        InstructionType::CP => "CP"@,
        InstructionType::POP => "POP"@,
        InstructionType::JP => "JP"@,
        InstructionType::PUSH => "PUSH"@,
        InstructionType::RET => "RET"@,
        InstructionType::CB => "CB"@,
        InstructionType::CALL => "CALL"@,
        InstructionType::RETI => "RETI"@,
        InstructionType::LDH => "LDH"@,
        InstructionType::JPHL => "JPHL"@,
        InstructionType::DI => "DI"@,
        InstructionType::EI => "EI"@,
        InstructionType::RST => "RST"@,
        InstructionType::ERR => "ERR"@,
        InstructionType::RLC => "RLC"@,
        InstructionType::RRC => "RRC"@,
        InstructionType::RL => "RL"@,
        InstructionType::RR => "RR"@,
        InstructionType::SLA => "SLA"@,
        InstructionType::SRA => "SRA"@,
        InstructionType::SWAP => "SWAP"@,
        InstructionType::SRL => "SRL"@,
        InstructionType::BIT => "BIT"@,
        InstructionType::RES => "RES"@,
        InstructionType::SET => "SET"@,
    }
}

pub open spec fn mode_name(m: AddressMode) -> Seq<char> {
    match m {
        AddressMode::IMPLIED => "IMPLIED"@,
        AddressMode::R_D16 => "R_D16"@,
        AddressMode::R_R => "R_R"@,
        AddressMode::MR_R => "MR_R"@,
        AddressMode::R => "R"@,
        AddressMode::R_D8 => "R_D8"@,
        AddressMode::R_MR => "R_MR"@,
        AddressMode::R_HLI => "R_HLI"@,
        AddressMode::R_HLD => "R_HLD"@,
        AddressMode::HLI_R => "HLI_R"@,
        AddressMode::HLD_R => "HLD_R"@,
        AddressMode::R_A8 => "R_A8"@,
        AddressMode::A8_R => "A8_R"@,
        AddressMode::HL_SPR => "HL_SPR"@,
        AddressMode::D16 => "D16"@,
        AddressMode::D8 => "D8"@,
        AddressMode::D16_R => "D16_R"@,
        AddressMode::MR_D8 => "MR_D8"@,
        AddressMode::MR => "MR"@,
        AddressMode::A16_R => "A16_R"@,
        AddressMode::R_A16 => "R_A16"@,
    }
}

pub open spec fn register_name(r: RegisterType) -> Seq<char> {
    match r {
        RegisterType::NONE => "NONE"@,
        RegisterType::A => "A"@,
        RegisterType::F => "F"@,
        RegisterType::B => "B"@,
        RegisterType::C => "C"@,
        RegisterType::D => "D"@,
        RegisterType::E => "E"@,
        RegisterType::H => "H"@,
        RegisterType::L => "L"@,
        RegisterType::AF => "AF"@,
        RegisterType::BC => "BC"@,
        RegisterType::DE => "DE"@,
        RegisterType::HL => "HL"@,
        RegisterType::SP => "SP"@,
        RegisterType::PC => "PC"@,
    }
}

/// The operand register of the 3-bit field used by the regular opcode grid; 6 stands for `(HL)`.
pub open spec fn decode_spec(reg: nat) -> RegisterType {
    if reg == 0 {
        RegisterType::B
    } else if reg == 1 {
        RegisterType::C
    } else if reg == 2 {
        RegisterType::D
    } else if reg == 3 {
        RegisterType::E
    } else if reg == 4 {
        RegisterType::H
    } else if reg == 5 {
        RegisterType::L
    } else if reg == 6 {
        RegisterType::HL
    } else if reg == 7 {
        RegisterType::A
    } else {
        RegisterType::NONE
    }
}

/// The arithmetic/logic operation of row `row` of the block `0x80..0xBF`.
pub open spec fn alu_op_spec(row: nat) -> InstructionType {
    if row == 0 {
        InstructionType::ADD
    } else if row == 1 {
        InstructionType::ADC
    } else if row == 2 {
        InstructionType::SUB
    } else if row == 3 {
        InstructionType::SBC
    } else if row == 4 {
        InstructionType::AND
    } else if row == 5 {
        InstructionType::XOR
    } else if row == 6 {
        InstructionType::OR
    } else {
        InstructionType::CP
    }
}

/// Bytes an instruction occupies, opcode included.
pub open spec fn length_spec(m: AddressMode) -> u8 {
    match m {
        AddressMode::R_D8 | AddressMode::MR_D8 | AddressMode::A8_R | AddressMode::R_A8
        | AddressMode::HL_SPR | AddressMode::D8 => 2,
        AddressMode::R_D16 | AddressMode::R_A16 | AddressMode::D16_R | AddressMode::A16_R
        | AddressMode::D16 => 3,
        _ => 1,
    }
}

/// What the opcode grid `0x40..0xBF` holds, computed from the opcode's bit fields.
pub open spec fn grid_spec(code: u8, i: Instruction) -> bool {
    let dst = (code as nat / 8) % 8;
    let src = code as nat % 8;
    if 0x40 <= code < 0x80 && code != 0x76 {
        &&& i.instruction_type == InstructionType::LD
        &&& i.register_1 == decode_spec(dst)
        &&& i.register_2 == decode_spec(src)
        &&& i.address_mode == (if dst == 6 {
            AddressMode::MR_R
        } else if src == 6 {
            AddressMode::R_MR
        } else {
            AddressMode::R_R
        })
    } else if 0x80 <= code < 0xC0 {
        &&& i.instruction_type == alu_op_spec(dst)
        &&& i.register_1 == RegisterType::A
        &&& i.register_2 == decode_spec(src)
        &&& i.address_mode == (if src == 6 {
            AddressMode::R_MR
        } else {
            AddressMode::R_R
        })
    } else {
        true
    }
}

fn entry(
    instruction_type: InstructionType,
    address_mode: AddressMode,
    register_1: RegisterType,
    register_2: RegisterType,
    condition: ConditionType,
    rst_vec: u8,
) -> (r: Instruction)
    ensures
        r.instruction_type == instruction_type,
        r.address_mode == address_mode,
        r.register_1 == register_1,
        r.register_2 == register_2,
        r.condition == condition,
        r.rst_vec == rst_vec,
{
    Instruction {
        instruction_type,
        address_mode,
        register_1,
        register_2,
        condition,
        opcode: 0,
        rst_vec,
        length: 1,
        cycles: 4,
        no_action_cycles: 0,
    }
}

/// A 16-bit register: a pair, `SP` or `PC`.
pub open spec fn is_wide(r: RegisterType) -> bool {
    r == RegisterType::AF || r == RegisterType::BC || r == RegisterType::DE || r == RegisterType::HL || r
        == RegisterType::SP || r == RegisterType::PC
}

impl RegisterType {
    /// The register named by a 3-bit operand field (6 is `(HL)`); `NONE` beyond 7.
    pub fn decode(reg: usize) -> (r: RegisterType)
        ensures
            r == decode_spec(reg as nat),
    {
        match reg {
            0 => RegisterType::B,
            1 => RegisterType::C,
            2 => RegisterType::D,
            3 => RegisterType::E,
            4 => RegisterType::H,
            5 => RegisterType::L,
            6 => RegisterType::HL,
            7 => RegisterType::A,
            _ => RegisterType::NONE,
        }
    }

    /// Whether this is a 16-bit register (a pair, `SP` or `PC`).
    pub fn is_16bit(&self) -> (r: bool)
        ensures
            r == is_wide(*self),
    {
        match self {
            RegisterType::AF | RegisterType::BC | RegisterType::DE | RegisterType::HL
            | RegisterType::SP | RegisterType::PC => true,
            _ => false,
        }
    }
}

fn alu_op(row: u8) -> (r: InstructionType)
    requires
        row < 8,
    ensures
        r == alu_op_spec(row as nat),
{
    match row {
        0 => InstructionType::ADD,
        1 => InstructionType::ADC,
        2 => InstructionType::SUB,
        3 => InstructionType::SBC,
        4 => InstructionType::AND,
        5 => InstructionType::XOR,
        6 => InstructionType::OR,
        _ => InstructionType::CP,
    }
}

/// The decoding of the opcodes outside the regular grid `0x40..0xBF`: operation, addressing
/// mode, the two registers, condition and restart vector.
pub open spec fn irregular_spec(code: u8) -> (InstructionType, AddressMode, RegisterType, RegisterType, ConditionType, u8) {
    match code {
        0x00 => (InstructionType::NOP, AddressMode::IMPLIED, RegisterType::NONE, RegisterType::NONE, ConditionType::NONE, 0x00),
        0x01 => (InstructionType::LD, AddressMode::R_D16, RegisterType::BC, RegisterType::NONE, ConditionType::NONE, 0x00),
        0x02 => (InstructionType::LD, AddressMode::MR_R, RegisterType::BC, RegisterType::A, ConditionType::NONE, 0x00),
        0x03 => (InstructionType::INC, AddressMode::R, RegisterType::BC, RegisterType::NONE, ConditionType::NONE, 0x00),
        0x04 => (InstructionType::INC, AddressMode::R, RegisterType::B, RegisterType::NONE, ConditionType::NONE, 0x00),
        0x05 => (InstructionType::DEC, AddressMode::R, RegisterType::B, RegisterType::NONE, ConditionType::NONE, 0x00),
        0x06 => (InstructionType::LD, AddressMode::R_D8, RegisterType::B, RegisterType::NONE, ConditionType::NONE, 0x00),
        0x07 => (InstructionType::RLCA, AddressMode::IMPLIED, RegisterType::NONE, RegisterType::NONE, ConditionType::NONE, 0x00),
        0x08 => (InstructionType::LD, AddressMode::A16_R, RegisterType::SP, RegisterType::SP, ConditionType::NONE, 0x00),
        0x09 => (InstructionType::ADD, AddressMode::R_R, RegisterType::HL, RegisterType::BC, ConditionType::NONE, 0x00),
        0x0A => (InstructionType::LD, AddressMode::R_MR, RegisterType::A, RegisterType::BC, ConditionType::NONE, 0x00),
        0x0B => (InstructionType::DEC, AddressMode::R, RegisterType::BC, RegisterType::NONE, ConditionType::NONE, 0x00),
        0x0C => (InstructionType::INC, AddressMode::R, RegisterType::C, RegisterType::NONE, ConditionType::NONE, 0x00),
        0x0D => (InstructionType::DEC, AddressMode::R, RegisterType::C, RegisterType::NONE, ConditionType::NONE, 0x00),
        0x0E => (InstructionType::LD, AddressMode::R_D8, RegisterType::C, RegisterType::NONE, ConditionType::NONE, 0x00),
        0x0F => (InstructionType::RRCA, AddressMode::IMPLIED, RegisterType::NONE, RegisterType::NONE, ConditionType::NONE, 0x00),
        0x10 => (InstructionType::STOP, AddressMode::D8, RegisterType::NONE, RegisterType::NONE, ConditionType::NONE, 0x00),
        0x11 => (InstructionType::LD, AddressMode::R_D16, RegisterType::DE, RegisterType::NONE, ConditionType::NONE, 0x00),
        0x12 => (InstructionType::LD, AddressMode::MR_R, RegisterType::DE, RegisterType::A, ConditionType::NONE, 0x00),
        0x13 => (InstructionType::INC, AddressMode::R, RegisterType::DE, RegisterType::NONE, ConditionType::NONE, 0x00),
        0x14 => (InstructionType::INC, AddressMode::R, RegisterType::D, RegisterType::NONE, ConditionType::NONE, 0x00),
        0x15 => (InstructionType::DEC, AddressMode::R, RegisterType::D, RegisterType::NONE, ConditionType::NONE, 0x00),
        0x16 => (InstructionType::LD, AddressMode::R_D8, RegisterType::D, RegisterType::NONE, ConditionType::NONE, 0x00),
        0x17 => (InstructionType::RLA, AddressMode::IMPLIED, RegisterType::NONE, RegisterType::NONE, ConditionType::NONE, 0x00),
        0x18 => (InstructionType::JR, AddressMode::D8, RegisterType::NONE, RegisterType::NONE, ConditionType::NONE, 0x00),
        0x19 => (InstructionType::ADD, AddressMode::R_R, RegisterType::HL, RegisterType::DE, ConditionType::NONE, 0x00),
        0x1A => (InstructionType::LD, AddressMode::R_MR, RegisterType::A, RegisterType::DE, ConditionType::NONE, 0x00),
        0x1B => (InstructionType::DEC, AddressMode::R, RegisterType::DE, RegisterType::NONE, ConditionType::NONE, 0x00),
        0x1C => (InstructionType::INC, AddressMode::R, RegisterType::E, RegisterType::NONE, ConditionType::NONE, 0x00),
        0x1D => (InstructionType::DEC, AddressMode::R, RegisterType::E, RegisterType::NONE, ConditionType::NONE, 0x00),
        0x1E => (InstructionType::LD, AddressMode::R_D8, RegisterType::E, RegisterType::NONE, ConditionType::NONE, 0x00),
        0x1F => (InstructionType::RRA, AddressMode::IMPLIED, RegisterType::NONE, RegisterType::NONE, ConditionType::NONE, 0x00),
        0x20 => (InstructionType::JR, AddressMode::D8, RegisterType::NONE, RegisterType::NONE, ConditionType::NZ, 0x00),
        0x21 => (InstructionType::LD, AddressMode::R_D16, RegisterType::HL, RegisterType::NONE, ConditionType::NONE, 0x00),
        0x22 => (InstructionType::LD, AddressMode::HLI_R, RegisterType::HL, RegisterType::A, ConditionType::NONE, 0x00),
        0x23 => (InstructionType::INC, AddressMode::R, RegisterType::HL, RegisterType::NONE, ConditionType::NONE, 0x00),
        0x24 => (InstructionType::INC, AddressMode::R, RegisterType::H, RegisterType::NONE, ConditionType::NONE, 0x00),
        0x25 => (InstructionType::DEC, AddressMode::R, RegisterType::H, RegisterType::NONE, ConditionType::NONE, 0x00),
        0x26 => (InstructionType::LD, AddressMode::R_D8, RegisterType::H, RegisterType::NONE, ConditionType::NONE, 0x00),
        0x27 => (InstructionType::DAA, AddressMode::IMPLIED, RegisterType::NONE, RegisterType::NONE, ConditionType::NONE, 0x00),
        0x28 => (InstructionType::JR, AddressMode::D8, RegisterType::NONE, RegisterType::NONE, ConditionType::Z, 0x00),
        0x29 => (InstructionType::ADD, AddressMode::R_R, RegisterType::HL, RegisterType::HL, ConditionType::NONE, 0x00),
        0x2A => (InstructionType::LD, AddressMode::R_HLI, RegisterType::A, RegisterType::HL, ConditionType::NONE, 0x00),
        0x2B => (InstructionType::DEC, AddressMode::R, RegisterType::HL, RegisterType::NONE, ConditionType::NONE, 0x00),
        0x2C => (InstructionType::INC, AddressMode::R, RegisterType::L, RegisterType::NONE, ConditionType::NONE, 0x00),
        0x2D => (InstructionType::DEC, AddressMode::R, RegisterType::L, RegisterType::NONE, ConditionType::NONE, 0x00),
        0x2E => (InstructionType::LD, AddressMode::R_D8, RegisterType::L, RegisterType::NONE, ConditionType::NONE, 0x00),
        0x2F => (InstructionType::CPL, AddressMode::IMPLIED, RegisterType::NONE, RegisterType::NONE, ConditionType::NONE, 0x00),
        0x30 => (InstructionType::JR, AddressMode::D8, RegisterType::NONE, RegisterType::NONE, ConditionType::NC, 0x00),
        0x31 => (InstructionType::LD, AddressMode::R_D16, RegisterType::SP, RegisterType::NONE, ConditionType::NONE, 0x00),
        0x32 => (InstructionType::LD, AddressMode::HLD_R, RegisterType::HL, RegisterType::A, ConditionType::NONE, 0x00),
        0x33 => (InstructionType::INC, AddressMode::R, RegisterType::SP, RegisterType::NONE, ConditionType::NONE, 0x00),
        0x34 => (InstructionType::INC, AddressMode::MR, RegisterType::HL, RegisterType::NONE, ConditionType::NONE, 0x00),
        0x35 => (InstructionType::DEC, AddressMode::MR, RegisterType::HL, RegisterType::NONE, ConditionType::NONE, 0x00),
        0x36 => (InstructionType::LD, AddressMode::MR_D8, RegisterType::HL, RegisterType::NONE, ConditionType::NONE, 0x00),
        0x37 => (InstructionType::SCF, AddressMode::IMPLIED, RegisterType::NONE, RegisterType::NONE, ConditionType::NONE, 0x00),
        0x38 => (InstructionType::JR, AddressMode::D8, RegisterType::NONE, RegisterType::NONE, ConditionType::C, 0x00),
        0x39 => (InstructionType::ADD, AddressMode::R_R, RegisterType::HL, RegisterType::SP, ConditionType::NONE, 0x00),
        0x3A => (InstructionType::LD, AddressMode::R_HLD, RegisterType::A, RegisterType::HL, ConditionType::NONE, 0x00),
        0x3B => (InstructionType::DEC, AddressMode::R, RegisterType::SP, RegisterType::NONE, ConditionType::NONE, 0x00),
        0x3C => (InstructionType::INC, AddressMode::R, RegisterType::A, RegisterType::NONE, ConditionType::NONE, 0x00),
        0x3D => (InstructionType::DEC, AddressMode::R, RegisterType::A, RegisterType::NONE, ConditionType::NONE, 0x00),
        0x3E => (InstructionType::LD, AddressMode::R_D8, RegisterType::A, RegisterType::NONE, ConditionType::NONE, 0x00),
        0x3F => (InstructionType::CCF, AddressMode::IMPLIED, RegisterType::NONE, RegisterType::NONE, ConditionType::NONE, 0x00),
        0xC0 => (InstructionType::RET, AddressMode::IMPLIED, RegisterType::NONE, RegisterType::NONE, ConditionType::NZ, 0x00),
        0xC1 => (InstructionType::POP, AddressMode::R, RegisterType::BC, RegisterType::NONE, ConditionType::NONE, 0x00),
        0xC2 => (InstructionType::JP, AddressMode::D16, RegisterType::NONE, RegisterType::NONE, ConditionType::NZ, 0x00),
        0xC3 => (InstructionType::JP, AddressMode::D16, RegisterType::NONE, RegisterType::NONE, ConditionType::NONE, 0x00),
        0xC4 => (InstructionType::CALL, AddressMode::D16, RegisterType::NONE, RegisterType::NONE, ConditionType::NZ, 0x00),
        0xC5 => (InstructionType::PUSH, AddressMode::R, RegisterType::BC, RegisterType::NONE, ConditionType::NONE, 0x00),
        0xC6 => (InstructionType::ADD, AddressMode::R_D8, RegisterType::A, RegisterType::NONE, ConditionType::NONE, 0x00),
        0xC7 => (InstructionType::RST, AddressMode::IMPLIED, RegisterType::NONE, RegisterType::NONE, ConditionType::NONE, 0x00),
        0xC8 => (InstructionType::RET, AddressMode::IMPLIED, RegisterType::NONE, RegisterType::NONE, ConditionType::Z, 0x00),
        0xC9 => (InstructionType::RET, AddressMode::IMPLIED, RegisterType::NONE, RegisterType::NONE, ConditionType::NONE, 0x00),
        0xCA => (InstructionType::JP, AddressMode::D16, RegisterType::NONE, RegisterType::NONE, ConditionType::Z, 0x00),
        0xCB => (InstructionType::CB, AddressMode::D8, RegisterType::NONE, RegisterType::NONE, ConditionType::NONE, 0x00),
        0xCC => (InstructionType::CALL, AddressMode::D16, RegisterType::NONE, RegisterType::NONE, ConditionType::Z, 0x00),
        0xCD => (InstructionType::CALL, AddressMode::D16, RegisterType::NONE, RegisterType::NONE, ConditionType::NONE, 0x00),
        0xCE => (InstructionType::ADC, AddressMode::R_D8, RegisterType::A, RegisterType::NONE, ConditionType::NONE, 0x00),
        0xCF => (InstructionType::RST, AddressMode::IMPLIED, RegisterType::NONE, RegisterType::NONE, ConditionType::NONE, 0x08),
        0xD0 => (InstructionType::RET, AddressMode::IMPLIED, RegisterType::NONE, RegisterType::NONE, ConditionType::NC, 0x00),
        0xD1 => (InstructionType::POP, AddressMode::R, RegisterType::DE, RegisterType::NONE, ConditionType::NONE, 0x00),
        0xD2 => (InstructionType::JP, AddressMode::D16, RegisterType::NONE, RegisterType::NONE, ConditionType::NC, 0x00),
        0xD3 => (InstructionType::NONE, AddressMode::IMPLIED, RegisterType::NONE, RegisterType::NONE, ConditionType::NONE, 0x00),
        0xD4 => (InstructionType::CALL, AddressMode::D16, RegisterType::NONE, RegisterType::NONE, ConditionType::NC, 0x00),
        0xD5 => (InstructionType::PUSH, AddressMode::R, RegisterType::DE, RegisterType::NONE, ConditionType::NONE, 0x00),
        0xD6 => (InstructionType::SUB, AddressMode::R_D8, RegisterType::A, RegisterType::NONE, ConditionType::NONE, 0x00),
        0xD7 => (InstructionType::RST, AddressMode::IMPLIED, RegisterType::NONE, RegisterType::NONE, ConditionType::NONE, 0x10),
        0xD8 => (InstructionType::RET, AddressMode::IMPLIED, RegisterType::NONE, RegisterType::NONE, ConditionType::C, 0x00),
        0xD9 => (InstructionType::RETI, AddressMode::IMPLIED, RegisterType::NONE, RegisterType::NONE, ConditionType::NONE, 0x00),
        0xDA => (InstructionType::JP, AddressMode::D16, RegisterType::NONE, RegisterType::NONE, ConditionType::C, 0x00),
        0xDB => (InstructionType::NONE, AddressMode::IMPLIED, RegisterType::NONE, RegisterType::NONE, ConditionType::NONE, 0x00),
        0xDC => (InstructionType::CALL, AddressMode::D16, RegisterType::NONE, RegisterType::NONE, ConditionType::C, 0x00),
        0xDD => (InstructionType::NONE, AddressMode::IMPLIED, RegisterType::NONE, RegisterType::NONE, ConditionType::NONE, 0x00),
        0xDE => (InstructionType::SBC, AddressMode::R_D8, RegisterType::A, RegisterType::NONE, ConditionType::NONE, 0x00),
        0xDF => (InstructionType::RST, AddressMode::IMPLIED, RegisterType::NONE, RegisterType::NONE, ConditionType::NONE, 0x18),
        0xE0 => (InstructionType::LDH, AddressMode::A8_R, RegisterType::NONE, RegisterType::A, ConditionType::NONE, 0x00),
        0xE1 => (InstructionType::POP, AddressMode::R, RegisterType::HL, RegisterType::NONE, ConditionType::NONE, 0x00),
        0xE2 => (InstructionType::LD, AddressMode::MR_R, RegisterType::C, RegisterType::A, ConditionType::NONE, 0x00),
        0xE3 => (InstructionType::NONE, AddressMode::IMPLIED, RegisterType::NONE, RegisterType::NONE, ConditionType::NONE, 0x00),
        0xE4 => (InstructionType::NONE, AddressMode::IMPLIED, RegisterType::NONE, RegisterType::NONE, ConditionType::NONE, 0x00),
        0xE5 => (InstructionType::PUSH, AddressMode::R, RegisterType::HL, RegisterType::NONE, ConditionType::NONE, 0x00),
        0xE6 => (InstructionType::AND, AddressMode::R_D8, RegisterType::A, RegisterType::NONE, ConditionType::NONE, 0x00),
        0xE7 => (InstructionType::RST, AddressMode::IMPLIED, RegisterType::NONE, RegisterType::NONE, ConditionType::NONE, 0x20),
        0xE8 => (InstructionType::ADD, AddressMode::R_D8, RegisterType::SP, RegisterType::NONE, ConditionType::NONE, 0x00),
        0xE9 => (InstructionType::JP, AddressMode::R, RegisterType::HL, RegisterType::NONE, ConditionType::NONE, 0x00),
        0xEA => (InstructionType::LD, AddressMode::A16_R, RegisterType::A, RegisterType::A, ConditionType::NONE, 0x00),
        0xEB => (InstructionType::NONE, AddressMode::IMPLIED, RegisterType::NONE, RegisterType::NONE, ConditionType::NONE, 0x00),
        0xEC => (InstructionType::NONE, AddressMode::IMPLIED, RegisterType::NONE, RegisterType::NONE, ConditionType::NONE, 0x00),
        0xED => (InstructionType::NONE, AddressMode::IMPLIED, RegisterType::NONE, RegisterType::NONE, ConditionType::NONE, 0x00),
        0xEE => (InstructionType::XOR, AddressMode::R_D8, RegisterType::A, RegisterType::NONE, ConditionType::NONE, 0x00),
        0xEF => (InstructionType::RST, AddressMode::IMPLIED, RegisterType::NONE, RegisterType::NONE, ConditionType::NONE, 0x28),
        0xF0 => (InstructionType::LDH, AddressMode::R_A8, RegisterType::A, RegisterType::NONE, ConditionType::NONE, 0x00),
        0xF1 => (InstructionType::POP, AddressMode::R, RegisterType::AF, RegisterType::NONE, ConditionType::NONE, 0x00),
        0xF2 => (InstructionType::LD, AddressMode::R_MR, RegisterType::A, RegisterType::C, ConditionType::NONE, 0x00),
        0xF3 => (InstructionType::DI, AddressMode::IMPLIED, RegisterType::NONE, RegisterType::NONE, ConditionType::NONE, 0x00),
        0xF4 => (InstructionType::NONE, AddressMode::IMPLIED, RegisterType::NONE, RegisterType::NONE, ConditionType::NONE, 0x00),
        0xF5 => (InstructionType::PUSH, AddressMode::R, RegisterType::AF, RegisterType::NONE, ConditionType::NONE, 0x00),
        0xF6 => (InstructionType::OR, AddressMode::R_D8, RegisterType::A, RegisterType::NONE, ConditionType::NONE, 0x00),
        0xF7 => (InstructionType::RST, AddressMode::IMPLIED, RegisterType::NONE, RegisterType::NONE, ConditionType::NONE, 0x30),
        0xF8 => (InstructionType::LD, AddressMode::HL_SPR, RegisterType::HL, RegisterType::SP, ConditionType::NONE, 0x00),
        0xF9 => (InstructionType::LD, AddressMode::R_R, RegisterType::SP, RegisterType::HL, ConditionType::NONE, 0x00),
        0xFA => (InstructionType::LD, AddressMode::R_A16, RegisterType::A, RegisterType::NONE, ConditionType::NONE, 0x00),
        0xFB => (InstructionType::EI, AddressMode::IMPLIED, RegisterType::NONE, RegisterType::NONE, ConditionType::NONE, 0x00),
        0xFC => (InstructionType::NONE, AddressMode::IMPLIED, RegisterType::NONE, RegisterType::NONE, ConditionType::NONE, 0x00),
        0xFD => (InstructionType::NONE, AddressMode::IMPLIED, RegisterType::NONE, RegisterType::NONE, ConditionType::NONE, 0x00),
        0xFE => (InstructionType::CP, AddressMode::R_D8, RegisterType::A, RegisterType::NONE, ConditionType::NONE, 0x00),
        0xFF => (InstructionType::RST, AddressMode::IMPLIED, RegisterType::NONE, RegisterType::NONE, ConditionType::NONE, 0x38),
        _ => (InstructionType::NONE, AddressMode::IMPLIED, RegisterType::NONE, RegisterType::NONE, ConditionType::NONE, 0x00),
    }
}

/// The fields of an instruction that its decoding fixes.
pub open spec fn decoded_fields(i: Instruction) -> (InstructionType, AddressMode, RegisterType, RegisterType, ConditionType, u8) {
    (i.instruction_type, i.address_mode, i.register_1, i.register_2, i.condition, i.rst_vec)
}

/// Clock ticks of an instruction, and for a conditional jump, call or return also the ticks
/// when the condition fails.
pub open spec fn cycles_spec(i: Instruction) -> (u8, Option<u8>) {
    let cond = i.condition != ConditionType::NONE;
    match i.instruction_type {
        InstructionType::JR => if cond { (12, Some(8)) } else { (12, None) },
        InstructionType::JP => match i.address_mode {
            AddressMode::D16 => if cond { (16, Some(12)) } else { (16, None) },
            _ => (4, None),
        },
        InstructionType::CALL => if cond { (24, Some(12)) } else { (24, None) },
        InstructionType::RET => if cond { (20, Some(8)) } else { (16, None) },
        InstructionType::LD => match i.address_mode {
            AddressMode::R_D16 | AddressMode::HL_SPR => (12, None),
            AddressMode::R_D8 | AddressMode::R_MR | AddressMode::MR_R | AddressMode::R_HLI
            | AddressMode::R_HLD | AddressMode::HLI_R | AddressMode::HLD_R => (8, None),
            AddressMode::A16_R | AddressMode::R_A16 => (16, None),
            _ => (4, None),
        },
        InstructionType::INC | InstructionType::DEC => match i.address_mode {
            AddressMode::MR => (12, None),
            _ => (4, None),
        },
        InstructionType::ADD => match i.address_mode {
            AddressMode::R_R => if i.register_1 == RegisterType::HL { (8, None) } else { (4, None) },
            AddressMode::R_D8 => (8, None),
            _ => (4, None),
        },
        InstructionType::ADC | InstructionType::SBC | InstructionType::AND | InstructionType::XOR
        | InstructionType::OR | InstructionType::CP | InstructionType::SUB => match i.address_mode {
            AddressMode::R_D8 => (8, None),
            _ => (4, None),
        },
        InstructionType::POP => (12, None),
        InstructionType::PUSH | InstructionType::RST | InstructionType::RETI => (16, None),
        InstructionType::LDH => (12, None),
        _ => (4, None),
    }
}

/// The opcodes outside the regular grid.
#[verifier::rlimit(100)]
#[verifier::spinoff_prover]
fn irregular(code: u8) -> (r: Instruction)
    ensures
        decoded_fields(r) == irregular_spec(code),
{
    match code {
        0x00 => entry(InstructionType::NOP, AddressMode::IMPLIED, RegisterType::NONE, RegisterType::NONE, ConditionType::NONE, 0x00),
        0x01 => entry(InstructionType::LD, AddressMode::R_D16, RegisterType::BC, RegisterType::NONE, ConditionType::NONE, 0x00),
        0x02 => entry(InstructionType::LD, AddressMode::MR_R, RegisterType::BC, RegisterType::A, ConditionType::NONE, 0x00),
        0x03 => entry(InstructionType::INC, AddressMode::R, RegisterType::BC, RegisterType::NONE, ConditionType::NONE, 0x00),
        0x04 => entry(InstructionType::INC, AddressMode::R, RegisterType::B, RegisterType::NONE, ConditionType::NONE, 0x00),
        0x05 => entry(InstructionType::DEC, AddressMode::R, RegisterType::B, RegisterType::NONE, ConditionType::NONE, 0x00),
        0x06 => entry(InstructionType::LD, AddressMode::R_D8, RegisterType::B, RegisterType::NONE, ConditionType::NONE, 0x00),
        0x07 => entry(InstructionType::RLCA, AddressMode::IMPLIED, RegisterType::NONE, RegisterType::NONE, ConditionType::NONE, 0x00),
        0x08 => entry(InstructionType::LD, AddressMode::A16_R, RegisterType::SP, RegisterType::SP, ConditionType::NONE, 0x00),
        0x09 => entry(InstructionType::ADD, AddressMode::R_R, RegisterType::HL, RegisterType::BC, ConditionType::NONE, 0x00),
        0x0A => entry(InstructionType::LD, AddressMode::R_MR, RegisterType::A, RegisterType::BC, ConditionType::NONE, 0x00),
        0x0B => entry(InstructionType::DEC, AddressMode::R, RegisterType::BC, RegisterType::NONE, ConditionType::NONE, 0x00),
        0x0C => entry(InstructionType::INC, AddressMode::R, RegisterType::C, RegisterType::NONE, ConditionType::NONE, 0x00),
        0x0D => entry(InstructionType::DEC, AddressMode::R, RegisterType::C, RegisterType::NONE, ConditionType::NONE, 0x00),
        0x0E => entry(InstructionType::LD, AddressMode::R_D8, RegisterType::C, RegisterType::NONE, ConditionType::NONE, 0x00),
        0x0F => entry(InstructionType::RRCA, AddressMode::IMPLIED, RegisterType::NONE, RegisterType::NONE, ConditionType::NONE, 0x00),
        0x10 => entry(InstructionType::STOP, AddressMode::D8, RegisterType::NONE, RegisterType::NONE, ConditionType::NONE, 0x00),
        0x11 => entry(InstructionType::LD, AddressMode::R_D16, RegisterType::DE, RegisterType::NONE, ConditionType::NONE, 0x00),
        0x12 => entry(InstructionType::LD, AddressMode::MR_R, RegisterType::DE, RegisterType::A, ConditionType::NONE, 0x00),
        0x13 => entry(InstructionType::INC, AddressMode::R, RegisterType::DE, RegisterType::NONE, ConditionType::NONE, 0x00),
        0x14 => entry(InstructionType::INC, AddressMode::R, RegisterType::D, RegisterType::NONE, ConditionType::NONE, 0x00),
        0x15 => entry(InstructionType::DEC, AddressMode::R, RegisterType::D, RegisterType::NONE, ConditionType::NONE, 0x00),
        0x16 => entry(InstructionType::LD, AddressMode::R_D8, RegisterType::D, RegisterType::NONE, ConditionType::NONE, 0x00),
        0x17 => entry(InstructionType::RLA, AddressMode::IMPLIED, RegisterType::NONE, RegisterType::NONE, ConditionType::NONE, 0x00),
        0x18 => entry(InstructionType::JR, AddressMode::D8, RegisterType::NONE, RegisterType::NONE, ConditionType::NONE, 0x00),
        0x19 => entry(InstructionType::ADD, AddressMode::R_R, RegisterType::HL, RegisterType::DE, ConditionType::NONE, 0x00),
        0x1A => entry(InstructionType::LD, AddressMode::R_MR, RegisterType::A, RegisterType::DE, ConditionType::NONE, 0x00),
        0x1B => entry(InstructionType::DEC, AddressMode::R, RegisterType::DE, RegisterType::NONE, ConditionType::NONE, 0x00),
        0x1C => entry(InstructionType::INC, AddressMode::R, RegisterType::E, RegisterType::NONE, ConditionType::NONE, 0x00),
        0x1D => entry(InstructionType::DEC, AddressMode::R, RegisterType::E, RegisterType::NONE, ConditionType::NONE, 0x00),
        0x1E => entry(InstructionType::LD, AddressMode::R_D8, RegisterType::E, RegisterType::NONE, ConditionType::NONE, 0x00),
        0x1F => entry(InstructionType::RRA, AddressMode::IMPLIED, RegisterType::NONE, RegisterType::NONE, ConditionType::NONE, 0x00),
        0x20 => entry(InstructionType::JR, AddressMode::D8, RegisterType::NONE, RegisterType::NONE, ConditionType::NZ, 0x00),
        0x21 => entry(InstructionType::LD, AddressMode::R_D16, RegisterType::HL, RegisterType::NONE, ConditionType::NONE, 0x00),
        0x22 => entry(InstructionType::LD, AddressMode::HLI_R, RegisterType::HL, RegisterType::A, ConditionType::NONE, 0x00),
        0x23 => entry(InstructionType::INC, AddressMode::R, RegisterType::HL, RegisterType::NONE, ConditionType::NONE, 0x00),
        0x24 => entry(InstructionType::INC, AddressMode::R, RegisterType::H, RegisterType::NONE, ConditionType::NONE, 0x00),
        0x25 => entry(InstructionType::DEC, AddressMode::R, RegisterType::H, RegisterType::NONE, ConditionType::NONE, 0x00),
        0x26 => entry(InstructionType::LD, AddressMode::R_D8, RegisterType::H, RegisterType::NONE, ConditionType::NONE, 0x00),
        0x27 => entry(InstructionType::DAA, AddressMode::IMPLIED, RegisterType::NONE, RegisterType::NONE, ConditionType::NONE, 0x00),
        0x28 => entry(InstructionType::JR, AddressMode::D8, RegisterType::NONE, RegisterType::NONE, ConditionType::Z, 0x00),
        0x29 => entry(InstructionType::ADD, AddressMode::R_R, RegisterType::HL, RegisterType::HL, ConditionType::NONE, 0x00),
        0x2A => entry(InstructionType::LD, AddressMode::R_HLI, RegisterType::A, RegisterType::HL, ConditionType::NONE, 0x00),
        0x2B => entry(InstructionType::DEC, AddressMode::R, RegisterType::HL, RegisterType::NONE, ConditionType::NONE, 0x00),
        0x2C => entry(InstructionType::INC, AddressMode::R, RegisterType::L, RegisterType::NONE, ConditionType::NONE, 0x00),
        0x2D => entry(InstructionType::DEC, AddressMode::R, RegisterType::L, RegisterType::NONE, ConditionType::NONE, 0x00),
        0x2E => entry(InstructionType::LD, AddressMode::R_D8, RegisterType::L, RegisterType::NONE, ConditionType::NONE, 0x00),
        0x2F => entry(InstructionType::CPL, AddressMode::IMPLIED, RegisterType::NONE, RegisterType::NONE, ConditionType::NONE, 0x00),
        0x30 => entry(InstructionType::JR, AddressMode::D8, RegisterType::NONE, RegisterType::NONE, ConditionType::NC, 0x00),
        0x31 => entry(InstructionType::LD, AddressMode::R_D16, RegisterType::SP, RegisterType::NONE, ConditionType::NONE, 0x00),
        0x32 => entry(InstructionType::LD, AddressMode::HLD_R, RegisterType::HL, RegisterType::A, ConditionType::NONE, 0x00),
        0x33 => entry(InstructionType::INC, AddressMode::R, RegisterType::SP, RegisterType::NONE, ConditionType::NONE, 0x00),
        0x34 => entry(InstructionType::INC, AddressMode::MR, RegisterType::HL, RegisterType::NONE, ConditionType::NONE, 0x00),
        0x35 => entry(InstructionType::DEC, AddressMode::MR, RegisterType::HL, RegisterType::NONE, ConditionType::NONE, 0x00),
        0x36 => entry(InstructionType::LD, AddressMode::MR_D8, RegisterType::HL, RegisterType::NONE, ConditionType::NONE, 0x00),
        0x37 => entry(InstructionType::SCF, AddressMode::IMPLIED, RegisterType::NONE, RegisterType::NONE, ConditionType::NONE, 0x00),
        0x38 => entry(InstructionType::JR, AddressMode::D8, RegisterType::NONE, RegisterType::NONE, ConditionType::C, 0x00),
        0x39 => entry(InstructionType::ADD, AddressMode::R_R, RegisterType::HL, RegisterType::SP, ConditionType::NONE, 0x00),
        0x3A => entry(InstructionType::LD, AddressMode::R_HLD, RegisterType::A, RegisterType::HL, ConditionType::NONE, 0x00),
        0x3B => entry(InstructionType::DEC, AddressMode::R, RegisterType::SP, RegisterType::NONE, ConditionType::NONE, 0x00),
        0x3C => entry(InstructionType::INC, AddressMode::R, RegisterType::A, RegisterType::NONE, ConditionType::NONE, 0x00),
        0x3D => entry(InstructionType::DEC, AddressMode::R, RegisterType::A, RegisterType::NONE, ConditionType::NONE, 0x00),
        0x3E => entry(InstructionType::LD, AddressMode::R_D8, RegisterType::A, RegisterType::NONE, ConditionType::NONE, 0x00),
        0x3F => entry(InstructionType::CCF, AddressMode::IMPLIED, RegisterType::NONE, RegisterType::NONE, ConditionType::NONE, 0x00),
        0xC0 => entry(InstructionType::RET, AddressMode::IMPLIED, RegisterType::NONE, RegisterType::NONE, ConditionType::NZ, 0x00),
        0xC1 => entry(InstructionType::POP, AddressMode::R, RegisterType::BC, RegisterType::NONE, ConditionType::NONE, 0x00),
        0xC2 => entry(InstructionType::JP, AddressMode::D16, RegisterType::NONE, RegisterType::NONE, ConditionType::NZ, 0x00),
        0xC3 => entry(InstructionType::JP, AddressMode::D16, RegisterType::NONE, RegisterType::NONE, ConditionType::NONE, 0x00),
        0xC4 => entry(InstructionType::CALL, AddressMode::D16, RegisterType::NONE, RegisterType::NONE, ConditionType::NZ, 0x00),
        0xC5 => entry(InstructionType::PUSH, AddressMode::R, RegisterType::BC, RegisterType::NONE, ConditionType::NONE, 0x00),
        0xC6 => entry(InstructionType::ADD, AddressMode::R_D8, RegisterType::A, RegisterType::NONE, ConditionType::NONE, 0x00),
        0xC7 => entry(InstructionType::RST, AddressMode::IMPLIED, RegisterType::NONE, RegisterType::NONE, ConditionType::NONE, 0x00),
        0xC8 => entry(InstructionType::RET, AddressMode::IMPLIED, RegisterType::NONE, RegisterType::NONE, ConditionType::Z, 0x00),
        0xC9 => entry(InstructionType::RET, AddressMode::IMPLIED, RegisterType::NONE, RegisterType::NONE, ConditionType::NONE, 0x00),
        0xCA => entry(InstructionType::JP, AddressMode::D16, RegisterType::NONE, RegisterType::NONE, ConditionType::Z, 0x00),
        0xCB => entry(InstructionType::CB, AddressMode::D8, RegisterType::NONE, RegisterType::NONE, ConditionType::NONE, 0x00),
        0xCC => entry(InstructionType::CALL, AddressMode::D16, RegisterType::NONE, RegisterType::NONE, ConditionType::Z, 0x00),
        0xCD => entry(InstructionType::CALL, AddressMode::D16, RegisterType::NONE, RegisterType::NONE, ConditionType::NONE, 0x00),
        0xCE => entry(InstructionType::ADC, AddressMode::R_D8, RegisterType::A, RegisterType::NONE, ConditionType::NONE, 0x00),
        0xCF => entry(InstructionType::RST, AddressMode::IMPLIED, RegisterType::NONE, RegisterType::NONE, ConditionType::NONE, 0x08),
        0xD0 => entry(InstructionType::RET, AddressMode::IMPLIED, RegisterType::NONE, RegisterType::NONE, ConditionType::NC, 0x00),
        0xD1 => entry(InstructionType::POP, AddressMode::R, RegisterType::DE, RegisterType::NONE, ConditionType::NONE, 0x00),
        0xD2 => entry(InstructionType::JP, AddressMode::D16, RegisterType::NONE, RegisterType::NONE, ConditionType::NC, 0x00),
        0xD3 => entry(InstructionType::NONE, AddressMode::IMPLIED, RegisterType::NONE, RegisterType::NONE, ConditionType::NONE, 0x00),
        0xD4 => entry(InstructionType::CALL, AddressMode::D16, RegisterType::NONE, RegisterType::NONE, ConditionType::NC, 0x00),
        0xD5 => entry(InstructionType::PUSH, AddressMode::R, RegisterType::DE, RegisterType::NONE, ConditionType::NONE, 0x00),
        0xD6 => entry(InstructionType::SUB, AddressMode::R_D8, RegisterType::A, RegisterType::NONE, ConditionType::NONE, 0x00),
        0xD7 => entry(InstructionType::RST, AddressMode::IMPLIED, RegisterType::NONE, RegisterType::NONE, ConditionType::NONE, 0x10),
        0xD8 => entry(InstructionType::RET, AddressMode::IMPLIED, RegisterType::NONE, RegisterType::NONE, ConditionType::C, 0x00),
        0xD9 => entry(InstructionType::RETI, AddressMode::IMPLIED, RegisterType::NONE, RegisterType::NONE, ConditionType::NONE, 0x00),
        0xDA => entry(InstructionType::JP, AddressMode::D16, RegisterType::NONE, RegisterType::NONE, ConditionType::C, 0x00),
        0xDB => entry(InstructionType::NONE, AddressMode::IMPLIED, RegisterType::NONE, RegisterType::NONE, ConditionType::NONE, 0x00),
        0xDC => entry(InstructionType::CALL, AddressMode::D16, RegisterType::NONE, RegisterType::NONE, ConditionType::C, 0x00),
        0xDD => entry(InstructionType::NONE, AddressMode::IMPLIED, RegisterType::NONE, RegisterType::NONE, ConditionType::NONE, 0x00),
        0xDE => entry(InstructionType::SBC, AddressMode::R_D8, RegisterType::A, RegisterType::NONE, ConditionType::NONE, 0x00),
        0xDF => entry(InstructionType::RST, AddressMode::IMPLIED, RegisterType::NONE, RegisterType::NONE, ConditionType::NONE, 0x18),
        0xE0 => entry(InstructionType::LDH, AddressMode::A8_R, RegisterType::NONE, RegisterType::A, ConditionType::NONE, 0x00),
        0xE1 => entry(InstructionType::POP, AddressMode::R, RegisterType::HL, RegisterType::NONE, ConditionType::NONE, 0x00),
        0xE2 => entry(InstructionType::LD, AddressMode::MR_R, RegisterType::C, RegisterType::A, ConditionType::NONE, 0x00),
        0xE3 => entry(InstructionType::NONE, AddressMode::IMPLIED, RegisterType::NONE, RegisterType::NONE, ConditionType::NONE, 0x00),
        0xE4 => entry(InstructionType::NONE, AddressMode::IMPLIED, RegisterType::NONE, RegisterType::NONE, ConditionType::NONE, 0x00),
        0xE5 => entry(InstructionType::PUSH, AddressMode::R, RegisterType::HL, RegisterType::NONE, ConditionType::NONE, 0x00),
        0xE6 => entry(InstructionType::AND, AddressMode::R_D8, RegisterType::A, RegisterType::NONE, ConditionType::NONE, 0x00),
        0xE7 => entry(InstructionType::RST, AddressMode::IMPLIED, RegisterType::NONE, RegisterType::NONE, ConditionType::NONE, 0x20),
        0xE8 => entry(InstructionType::ADD, AddressMode::R_D8, RegisterType::SP, RegisterType::NONE, ConditionType::NONE, 0x00),
        0xE9 => entry(InstructionType::JP, AddressMode::R, RegisterType::HL, RegisterType::NONE, ConditionType::NONE, 0x00),
        0xEA => entry(InstructionType::LD, AddressMode::A16_R, RegisterType::A, RegisterType::A, ConditionType::NONE, 0x00),
        0xEB => entry(InstructionType::NONE, AddressMode::IMPLIED, RegisterType::NONE, RegisterType::NONE, ConditionType::NONE, 0x00),
        0xEC => entry(InstructionType::NONE, AddressMode::IMPLIED, RegisterType::NONE, RegisterType::NONE, ConditionType::NONE, 0x00),
        0xED => entry(InstructionType::NONE, AddressMode::IMPLIED, RegisterType::NONE, RegisterType::NONE, ConditionType::NONE, 0x00),
        0xEE => entry(InstructionType::XOR, AddressMode::R_D8, RegisterType::A, RegisterType::NONE, ConditionType::NONE, 0x00),
        0xEF => entry(InstructionType::RST, AddressMode::IMPLIED, RegisterType::NONE, RegisterType::NONE, ConditionType::NONE, 0x28),
        0xF0 => entry(InstructionType::LDH, AddressMode::R_A8, RegisterType::A, RegisterType::NONE, ConditionType::NONE, 0x00),
        0xF1 => entry(InstructionType::POP, AddressMode::R, RegisterType::AF, RegisterType::NONE, ConditionType::NONE, 0x00),
        0xF2 => entry(InstructionType::LD, AddressMode::R_MR, RegisterType::A, RegisterType::C, ConditionType::NONE, 0x00),
        0xF3 => entry(InstructionType::DI, AddressMode::IMPLIED, RegisterType::NONE, RegisterType::NONE, ConditionType::NONE, 0x00),
        0xF4 => entry(InstructionType::NONE, AddressMode::IMPLIED, RegisterType::NONE, RegisterType::NONE, ConditionType::NONE, 0x00),
        0xF5 => entry(InstructionType::PUSH, AddressMode::R, RegisterType::AF, RegisterType::NONE, ConditionType::NONE, 0x00),
        0xF6 => entry(InstructionType::OR, AddressMode::R_D8, RegisterType::A, RegisterType::NONE, ConditionType::NONE, 0x00),
        0xF7 => entry(InstructionType::RST, AddressMode::IMPLIED, RegisterType::NONE, RegisterType::NONE, ConditionType::NONE, 0x30),
        0xF8 => entry(InstructionType::LD, AddressMode::HL_SPR, RegisterType::HL, RegisterType::SP, ConditionType::NONE, 0x00),
        0xF9 => entry(InstructionType::LD, AddressMode::R_R, RegisterType::SP, RegisterType::HL, ConditionType::NONE, 0x00),
        0xFA => entry(InstructionType::LD, AddressMode::R_A16, RegisterType::A, RegisterType::NONE, ConditionType::NONE, 0x00),
        0xFB => entry(InstructionType::EI, AddressMode::IMPLIED, RegisterType::NONE, RegisterType::NONE, ConditionType::NONE, 0x00),
        0xFC => entry(InstructionType::NONE, AddressMode::IMPLIED, RegisterType::NONE, RegisterType::NONE, ConditionType::NONE, 0x00),
        0xFD => entry(InstructionType::NONE, AddressMode::IMPLIED, RegisterType::NONE, RegisterType::NONE, ConditionType::NONE, 0x00),
        0xFE => entry(InstructionType::CP, AddressMode::R_D8, RegisterType::A, RegisterType::NONE, ConditionType::NONE, 0x00),
        0xFF => entry(InstructionType::RST, AddressMode::IMPLIED, RegisterType::NONE, RegisterType::NONE, ConditionType::NONE, 0x38),
        _ => entry(InstructionType::NONE, AddressMode::IMPLIED, RegisterType::NONE, RegisterType::NONE, ConditionType::NONE, 0x00),
    }
}

impl Instruction {
    /// Decodes a primary opcode.
    pub fn from_opcode(code: &u8) -> (r: Instruction)
        ensures
            r.opcode == *code,
            grid_spec(*code, r),
            *code == 0x76 ==> r.instruction_type == InstructionType::HALT,
            !(0x40 <= *code < 0xC0) ==> decoded_fields(r) == irregular_spec(*code),
            r.cycles == cycles_spec(r).0,
            r.no_action_cycles == (match cycles_spec(r).1 {
                Some(c) => c,
                None => 0u8,
            }),
            r.length == length_spec(r.address_mode),
    {
        let code = *code;
        let dst = (code / 8) % 8;
        let src = code % 8;
        let mut inst = if code == 0x76 {
            entry(InstructionType::HALT, AddressMode::IMPLIED, RegisterType::NONE, RegisterType::NONE, ConditionType::NONE, 0)
        } else if 0x40 <= code && code < 0x80 {
            let mode = if dst == 6 {
                AddressMode::MR_R
            } else if src == 6 {
                AddressMode::R_MR
            } else {
                AddressMode::R_R
            };
            entry(InstructionType::LD, mode, RegisterType::decode(dst as usize), RegisterType::decode(src as usize), ConditionType::NONE, 0)
        } else if 0x80 <= code && code < 0xC0 {
            let mode = if src == 6 {
                AddressMode::R_MR
            } else {
                AddressMode::R_R
            };
            entry(alu_op(dst), mode, RegisterType::A, RegisterType::decode(src as usize), ConditionType::NONE, 0)
        } else {
            irregular(code)
        };
        inst.length = Instruction::length(&inst);
        let (cycles, no_action) = Instruction::get_cycles_count(&inst);
        inst.cycles = cycles;
        inst.no_action_cycles = match no_action {
            Some(c) => c,
            None => 0,
        };
        inst.opcode = code;
        inst
    }

    /// Bytes the instruction occupies, opcode included.
    pub fn length(inst: &Instruction) -> (r: u8)
        ensures
            r == length_spec(inst.address_mode),
    {
        match inst.address_mode {
            AddressMode::R_D8 | AddressMode::MR_D8 | AddressMode::A8_R | AddressMode::R_A8
            | AddressMode::HL_SPR | AddressMode::D8 => 2,
            AddressMode::R_D16 | AddressMode::R_A16 | AddressMode::D16_R | AddressMode::A16_R
            | AddressMode::D16 => 3,
            _ => 1,
        }
    }

    /// Clock ticks the instruction takes; for a conditional jump, call or return also the
    /// ticks when the condition fails.
    pub fn get_cycles_count(inst: &Instruction) -> (r: (u8, Option<u8>))
        ensures
            r == cycles_spec(*inst),
    {
        let cond = inst.condition != ConditionType::NONE;
        match inst.instruction_type {
            InstructionType::JR => if cond { (12, Some(8)) } else { (12, None) },
            InstructionType::JP => match inst.address_mode {
                AddressMode::D16 => if cond { (16, Some(12)) } else { (16, None) },
                _ => (4, None),
            },
            InstructionType::CALL => if cond { (24, Some(12)) } else { (24, None) },
            InstructionType::RET => if cond { (20, Some(8)) } else { (16, None) },
            InstructionType::LD => match inst.address_mode {
                AddressMode::R_D16 | AddressMode::HL_SPR => (12, None),
                AddressMode::R_D8 | AddressMode::R_MR | AddressMode::MR_R | AddressMode::R_HLI
                | AddressMode::R_HLD | AddressMode::HLI_R | AddressMode::HLD_R => (8, None),
                AddressMode::A16_R | AddressMode::R_A16 => (16, None),
                _ => (4, None),
            },
            InstructionType::INC | InstructionType::DEC => match inst.address_mode {
                AddressMode::MR => (12, None),
                _ => (4, None),
            },
            InstructionType::ADD => match inst.address_mode {
                AddressMode::R_R => if inst.register_1 == RegisterType::HL { (8, None) } else { (4, None) },
                AddressMode::R_D8 => (8, None),
                _ => (4, None),
            },
            InstructionType::ADC | InstructionType::SBC | InstructionType::AND | InstructionType::XOR
            | InstructionType::OR | InstructionType::CP | InstructionType::SUB => match inst.address_mode {
                AddressMode::R_D8 => (8, None),
                _ => (4, None),
            },
            InstructionType::POP => (12, None),
            InstructionType::PUSH | InstructionType::RST | InstructionType::RETI => (16, None),
            InstructionType::LDH => (12, None),
            _ => (4, None),
        }
    }

    /// The mnemonic of a InstructionType.
    pub fn instruction_type_mnemonic(inst_type: &InstructionType) -> (r: &'static str)
        ensures
            r@ == operation_name(*inst_type),
    {
        proof {
            reveal_strlit("NONE");
            reveal_strlit("NOP");
            reveal_strlit("LD");
            reveal_strlit("INC");
            reveal_strlit("DEC");
            reveal_strlit("RLCA");
            reveal_strlit("ADD");
            reveal_strlit("RRCA");
            reveal_strlit("STOP");
            reveal_strlit("RLA");
            reveal_strlit("JR");
            reveal_strlit("RRA");
            reveal_strlit("DAA");
            reveal_strlit("CPL");
            reveal_strlit("SCF");
            reveal_strlit("CCF");
            reveal_strlit("HALT");
            reveal_strlit("ADC");
            reveal_strlit("SUB");
            reveal_strlit("SBC");
            reveal_strlit("AND");
            reveal_strlit("XOR");
            reveal_strlit("OR");
            reveal_strlit("CP");
            reveal_strlit("POP");
            reveal_strlit("JP");
            reveal_strlit("PUSH");
            reveal_strlit("RET");
            reveal_strlit("CB");
            reveal_strlit("CALL");
            reveal_strlit("RETI");
            reveal_strlit("LDH");
            reveal_strlit("JPHL");
            reveal_strlit("DI");
            reveal_strlit("EI");
            reveal_strlit("RST");
            reveal_strlit("ERR");
            reveal_strlit("RLC");
            reveal_strlit("RRC");
            reveal_strlit("RL");
            reveal_strlit("RR");
            reveal_strlit("SLA");
            reveal_strlit("SRA");
            reveal_strlit("SWAP");
            reveal_strlit("SRL");
            reveal_strlit("BIT");
            reveal_strlit("RES");
            reveal_strlit("SET");
        }
        match inst_type {
            InstructionType::NONE => "NONE",
            InstructionType::NOP => "NOP",
            InstructionType::LD => "LD",
            InstructionType::INC => "INC",
            InstructionType::DEC => "DEC",
            InstructionType::RLCA => "RLCA",
            InstructionType::ADD => "ADD",
            InstructionType::RRCA => "RRCA",
            InstructionType::STOP => "STOP",
            InstructionType::RLA => "RLA",
            InstructionType::JR => "JR",
            InstructionType::RRA => "RRA",
            InstructionType::DAA => "DAA",
            InstructionType::CPL => "CPL",
            InstructionType::SCF => "SCF",
            InstructionType::CCF => "CCF",
            InstructionType::HALT => "HALT",
            InstructionType::ADC => "ADC",
            InstructionType::SUB => "SUB",
            InstructionType::SBC => "SBC",
            InstructionType::AND => "AND",
            InstructionType::XOR => "XOR",
            InstructionType::OR => "OR",
            InstructionType::CP => "CP",
            InstructionType::POP => "POP",
            InstructionType::JP => "JP",
            InstructionType::PUSH => "PUSH",
            InstructionType::RET => "RET",
            InstructionType::CB => "CB",
            InstructionType::CALL => "CALL",
            InstructionType::RETI => "RETI",
            InstructionType::LDH => "LDH",
            InstructionType::JPHL => "JPHL",
            InstructionType::DI => "DI",
            InstructionType::EI => "EI",
            InstructionType::RST => "RST",
            InstructionType::ERR => "ERR",
            InstructionType::RLC => "RLC",
            InstructionType::RRC => "RRC",
            InstructionType::RL => "RL",
            InstructionType::RR => "RR",
            InstructionType::SLA => "SLA",
            InstructionType::SRA => "SRA",
            InstructionType::SWAP => "SWAP",
            InstructionType::SRL => "SRL",
            InstructionType::BIT => "BIT",
            InstructionType::RES => "RES",
            InstructionType::SET => "SET",
        }
    }

    /// The mnemonic of a AddressMode.
    pub fn address_mode_mnemonic(addr_mode: &AddressMode) -> (r: &'static str)
        ensures
            r@ == mode_name(*addr_mode),
    {
        proof {
            reveal_strlit("IMPLIED");
            reveal_strlit("R_D16");
            reveal_strlit("R_R");
            reveal_strlit("MR_R");
            reveal_strlit("R");
            reveal_strlit("R_D8");
            reveal_strlit("R_MR");
            reveal_strlit("R_HLI");
            reveal_strlit("R_HLD");
            reveal_strlit("HLI_R");
            reveal_strlit("HLD_R");
            reveal_strlit("R_A8");
            reveal_strlit("A8_R");
            reveal_strlit("HL_SPR");
            reveal_strlit("D16");
            reveal_strlit("D8");
            reveal_strlit("D16_R");
            reveal_strlit("MR_D8");
            reveal_strlit("MR");
            reveal_strlit("A16_R");
            reveal_strlit("R_A16");
        }
        match addr_mode {
            AddressMode::IMPLIED => "IMPLIED",
            AddressMode::R_D16 => "R_D16",
            AddressMode::R_R => "R_R",
            AddressMode::MR_R => "MR_R",
            AddressMode::R => "R",
            AddressMode::R_D8 => "R_D8",
            AddressMode::R_MR => "R_MR",
            AddressMode::R_HLI => "R_HLI",
            AddressMode::R_HLD => "R_HLD",
            AddressMode::HLI_R => "HLI_R",
            AddressMode::HLD_R => "HLD_R",
            AddressMode::R_A8 => "R_A8",
            AddressMode::A8_R => "A8_R",
            AddressMode::HL_SPR => "HL_SPR",
            AddressMode::D16 => "D16",
            AddressMode::D8 => "D8",
            AddressMode::D16_R => "D16_R",
            AddressMode::MR_D8 => "MR_D8",
            AddressMode::MR => "MR",
            AddressMode::A16_R => "A16_R",
            AddressMode::R_A16 => "R_A16",
        }
    }

    /// The mnemonic of a RegisterType.
    pub fn register_mnemonic(reg: &RegisterType) -> (r: &'static str)
        ensures
            r@ == register_name(*reg),
    {
        proof {
            reveal_strlit("NONE");
            reveal_strlit("A");
            reveal_strlit("F");
            reveal_strlit("B");
            reveal_strlit("C");
            reveal_strlit("D");
            reveal_strlit("E");
            reveal_strlit("H");
            reveal_strlit("L");
            reveal_strlit("AF");
            reveal_strlit("BC");
            reveal_strlit("DE");
            reveal_strlit("HL");
            reveal_strlit("SP");
            reveal_strlit("PC");
        }
        match reg {
            RegisterType::NONE => "NONE",
            RegisterType::A => "A",
            RegisterType::F => "F",
            RegisterType::B => "B",
            RegisterType::C => "C",
            RegisterType::D => "D",
            RegisterType::E => "E",
            RegisterType::H => "H",
            RegisterType::L => "L",
            RegisterType::AF => "AF",
            RegisterType::BC => "BC",
            RegisterType::DE => "DE",
            RegisterType::HL => "HL",
            RegisterType::SP => "SP",
            RegisterType::PC => "PC",
        }
    }

    /// A one-line description: operation, addressing mode and the two registers.
    pub fn to_string(&self) -> (r: String)
        ensures
            r@ == operation_name(self.instruction_type) + " "@ + mode_name(self.address_mode) + " "@
                + register_name(self.register_1) + " "@ + register_name(self.register_2),
    {
        let mut s = String::from_str(Instruction::instruction_type_mnemonic(&self.instruction_type));
        proof {
            reveal_strlit(" ");
        }
        s.append(" ");
        s.append(Instruction::address_mode_mnemonic(&self.address_mode));
        s.append(" ");
        s.append(Instruction::register_mnemonic(&self.register_1));
        s.append(" ");
        s.append(Instruction::register_mnemonic(&self.register_2));
        s
    }
}

} // verus!
