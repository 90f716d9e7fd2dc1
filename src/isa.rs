use vstd::prelude::*;

use crate::error::ExecutionError;

verus! {

/// Sign extension of the low 16 bits of `imm`.
pub open spec fn sign_extend16(imm: u32) -> int {
    let low = imm % 0x1_0000;
    if low < 0x8000 {
        low as int
    } else {
        low - 0x1_0000
    }
}

/// Sign extension of the low 26 bits of `imm`.
pub open spec fn sign_extend26(imm: u32) -> int {
    let low = imm % 0x400_0000;
    if low < 0x200_0000 {
        low as int
    } else {
        low - 0x400_0000
    }
}

/// Interprets bits 15..0 of `imm16` as a signed 16-bit value.
pub fn convert_imm16(imm16: u32) -> (r: i32)
    ensures
        r as int == sign_extend16(imm16),
{
    let low = imm16 & 0xFFFF;
    assert(imm16 & 0xFFFF == imm16 % 0x1_0000) by (bit_vector);
    if low < 0x8000 {
        low as i32
    } else {
        (low as i32) - 0x1_0000
    }
}

/// Interprets bits 25..0 of `imm26` as a signed 26-bit value.
pub fn convert_imm26(imm26: u32) -> (r: i32)
    ensures
        r as int == sign_extend26(imm26),
{
    let low = imm26 & 0x3FF_FFFF;
    assert(imm26 & 0x3FF_FFFF == imm26 % 0x400_0000) by (bit_vector);
    if low < 0x200_0000 {
        low as i32
    } else {
        (low as i32) - 0x400_0000
    }
}

pub const OP_ARITHMETIC: u32 = 0x00;
pub const OP_SET_HIGH: u32 = 0x01;
pub const OP_SET_LOW: u32 = 0x02;
pub const OP_LOAD: u32 = 0x03;
pub const OP_STORE: u32 = 0x04;
pub const OP_BRANCH: u32 = 0x05;
pub const OP_JUMP_REGISTER: u32 = 0x06;
pub const OP_JUMP: u32 = 0x07;
pub const OP_HALT: u32 = 0x3E;
pub const OP_NO_OP: u32 = 0x3F;

pub const FUNC_ADD: u32 = 0;
pub const FUNC_SUB: u32 = 1;
pub const FUNC_AND: u32 = 2;
pub const FUNC_OR: u32 = 3;
pub const FUNC_XOR: u32 = 4;
pub const FUNC_SHL: u32 = 5;
pub const FUNC_SAL: u32 = 6;
pub const FUNC_SHR: u32 = 7;
pub const FUNC_SAR: u32 = 8;
pub const FUNC_NOT: u32 = 9;
pub const FUNC_LTS: u32 = 10;
pub const FUNC_GTS: u32 = 11;
pub const FUNC_LTU: u32 = 12;
pub const FUNC_GTU: u32 = 13;
pub const FUNC_EQ: u32 = 14;
pub const FUNC_NE: u32 = 15;

/// The operation selected by the opcode field (bits 31..26).
#[derive(Debug, Clone, Copy, PartialEq, Eq, Structural)]
pub enum OpCode {
    /// Register-to-register arithmetic and logic, selected by the function field.
    ArithmeticLogic,
    /// Replace the high half-word of `rt` with the immediate.
    SetHigh,
    /// Replace the low half-word of `rt` with the immediate.
    SetLow,
    /// Load the sign-extended byte at `rs + imm` into `rt`.
    Load,
    /// Store the low byte of `rs` at `rt + imm`.
    Store,
    /// Add the immediate to the next program counter when `rs` is non-zero.
    Branch,
    /// Continue at the address held in `rs`.
    JumpRegister,
    /// Add the 26-bit immediate to the next program counter.
    Jump,
    /// Stop the machine.
    Halt,
    /// Do nothing.
    NoOp,
}

/// The arithmetic/logic operation selected by the function field (bits 4..0).
#[derive(Debug, Clone, Copy, PartialEq, Eq, Structural)]
pub enum Function {
    Add,
    Sub,
    And,
    Or,
    Xor,
    Shl,
    Sal,
    Shr,
    Sar,
    Not,
    LtS,
    GtS,
    LtU,
    GtU,
    Eq,
    Ne,
}

impl OpCode {
    pub open spec fn spec_code(self) -> u32 {
        match self {
            OpCode::ArithmeticLogic => OP_ARITHMETIC,
            OpCode::SetHigh => OP_SET_HIGH,
            OpCode::SetLow => OP_SET_LOW,
            OpCode::Load => OP_LOAD,
            OpCode::Store => OP_STORE,
            OpCode::Branch => OP_BRANCH,
            OpCode::JumpRegister => OP_JUMP_REGISTER,
            OpCode::Jump => OP_JUMP,
            OpCode::Halt => OP_HALT,
            OpCode::NoOp => OP_NO_OP,
        }
    }

    /// The opcode with field value `code`, if the opcode table has one.
    pub open spec fn spec_from_code(code: u32) -> Option<OpCode> {
        if code == OP_ARITHMETIC {
            Some(OpCode::ArithmeticLogic)
        } else if code == OP_SET_HIGH {
            Some(OpCode::SetHigh)
        } else if code == OP_SET_LOW {
            Some(OpCode::SetLow)
        } else if code == OP_LOAD {
            Some(OpCode::Load)
        } else if code == OP_STORE {
            Some(OpCode::Store)
        } else if code == OP_BRANCH {
            Some(OpCode::Branch)
        } else if code == OP_JUMP_REGISTER {
            Some(OpCode::JumpRegister)
        } else if code == OP_JUMP {
            Some(OpCode::Jump)
        } else if code == OP_HALT {
            Some(OpCode::Halt)
        } else if code == OP_NO_OP {
            Some(OpCode::NoOp)
        } else {
            None
        }
    }

    pub fn code(self) -> (r: u32)
        ensures
            r == self.spec_code(),
    {
        match self {
            OpCode::ArithmeticLogic => OP_ARITHMETIC,
            OpCode::SetHigh => OP_SET_HIGH,
            OpCode::SetLow => OP_SET_LOW,
            OpCode::Load => OP_LOAD,
            OpCode::Store => OP_STORE,
            OpCode::Branch => OP_BRANCH,
            OpCode::JumpRegister => OP_JUMP_REGISTER,
            OpCode::Jump => OP_JUMP,
            OpCode::Halt => OP_HALT,
            OpCode::NoOp => OP_NO_OP,
        }
    }

    pub fn from_code(code: u32) -> (r: Option<OpCode>)
        ensures
            r == OpCode::spec_from_code(code),
    {
        if code == OP_ARITHMETIC {
            Some(OpCode::ArithmeticLogic)
        } else if code == OP_SET_HIGH {
            Some(OpCode::SetHigh)
        } else if code == OP_SET_LOW {
            Some(OpCode::SetLow)
        } else if code == OP_LOAD {
            Some(OpCode::Load)
        } else if code == OP_STORE {
            Some(OpCode::Store)
        } else if code == OP_BRANCH {
            Some(OpCode::Branch)
        } else if code == OP_JUMP_REGISTER {
            Some(OpCode::JumpRegister)
        } else if code == OP_JUMP {
            Some(OpCode::Jump)
        } else if code == OP_HALT {
            Some(OpCode::Halt)
        } else if code == OP_NO_OP {
            Some(OpCode::NoOp)
        } else {
            None
        }
    }
}

impl Function {
    pub open spec fn spec_code(self) -> u32 {
        match self {
            Function::Add => FUNC_ADD,
            Function::Sub => FUNC_SUB,
            Function::And => FUNC_AND,
            Function::Or => FUNC_OR,
            Function::Xor => FUNC_XOR,
            Function::Shl => FUNC_SHL,
            Function::Sal => FUNC_SAL,
            Function::Shr => FUNC_SHR,
            Function::Sar => FUNC_SAR,
            Function::Not => FUNC_NOT,
            Function::LtS => FUNC_LTS,
            Function::GtS => FUNC_GTS,
            Function::LtU => FUNC_LTU,
            Function::GtU => FUNC_GTU,
            Function::Eq => FUNC_EQ,
            Function::Ne => FUNC_NE,
        }
    }

    /// The operation with function field value `code`, if there is one.
    pub open spec fn spec_from_code(code: u32) -> Option<Function> {
        match code {
            0 => Some(Function::Add),
            1 => Some(Function::Sub),
            2 => Some(Function::And),
            3 => Some(Function::Or),
            4 => Some(Function::Xor),
            5 => Some(Function::Shl),
            6 => Some(Function::Sal),
            7 => Some(Function::Shr),
            8 => Some(Function::Sar),
            9 => Some(Function::Not),
            10 => Some(Function::LtS),
            11 => Some(Function::GtS),
            12 => Some(Function::LtU),
            13 => Some(Function::GtU),
            14 => Some(Function::Eq),
            15 => Some(Function::Ne),
            _ => None,
        }
    }

    pub fn code(self) -> (r: u32)
        ensures
            r == self.spec_code(),
    {
        match self {
            Function::Add => FUNC_ADD,
            Function::Sub => FUNC_SUB,
            Function::And => FUNC_AND,
            Function::Or => FUNC_OR,
            Function::Xor => FUNC_XOR,
            Function::Shl => FUNC_SHL,
            Function::Sal => FUNC_SAL,
            Function::Shr => FUNC_SHR,
            Function::Sar => FUNC_SAR,
            Function::Not => FUNC_NOT,
            Function::LtS => FUNC_LTS,
            Function::GtS => FUNC_GTS,
            Function::LtU => FUNC_LTU,
            Function::GtU => FUNC_GTU,
            Function::Eq => FUNC_EQ,
            Function::Ne => FUNC_NE,
        }
    }

    pub fn from_code(code: u32) -> (r: Option<Function>)
        ensures
            r == Function::spec_from_code(code),
    {
        match code {
            0 => Some(Function::Add),
            1 => Some(Function::Sub),
            2 => Some(Function::And),
            3 => Some(Function::Or),
            4 => Some(Function::Xor),
            5 => Some(Function::Shl),
            6 => Some(Function::Sal),
            7 => Some(Function::Shr),
            8 => Some(Function::Sar),
            9 => Some(Function::Not),
            10 => Some(Function::LtS),
            11 => Some(Function::GtS),
            12 => Some(Function::LtU),
            13 => Some(Function::GtU),
            14 => Some(Function::Eq),
            15 => Some(Function::Ne),
            _ => None,
        }
    }
}

/// One of the 32 general-purpose registers.
#[derive(Debug, Clone, Copy, PartialEq, Eq, Structural)]
pub enum RegisterId {
    Zero,
    Reg1,
    Reg2,
    Reg3,
    Reg4,
    Reg5,
    Reg6,
    Reg7,
    Reg8,
    Reg9,
    Reg10,
    Reg11,
    Reg12,
    Reg13,
    Reg14,
    Reg15,
    Reg16,
    Reg17,
    Reg18,
    Reg19,
    Reg20,
    Reg21,
    Reg22,
    Reg23,
    Reg24,
    Reg25,
    Reg26,
    Reg27,
    Reg28,
    Reg29,
    BasePointer,
    StackPointer,
}

impl RegisterId {
    /// The register's number in an instruction word.
    pub open spec fn spec_index(self) -> u32 {
        match self {
            RegisterId::Zero => 0,
            RegisterId::Reg1 => 1,
            RegisterId::Reg2 => 2,
            RegisterId::Reg3 => 3,
            RegisterId::Reg4 => 4,
            RegisterId::Reg5 => 5,
            RegisterId::Reg6 => 6,
            RegisterId::Reg7 => 7,
            RegisterId::Reg8 => 8,
            RegisterId::Reg9 => 9,
            RegisterId::Reg10 => 10,
            RegisterId::Reg11 => 11,
            RegisterId::Reg12 => 12,
            RegisterId::Reg13 => 13,
            RegisterId::Reg14 => 14,
            RegisterId::Reg15 => 15,
            RegisterId::Reg16 => 16,
            RegisterId::Reg17 => 17,
            RegisterId::Reg18 => 18,
            RegisterId::Reg19 => 19,
            RegisterId::Reg20 => 20,
            RegisterId::Reg21 => 21,
            RegisterId::Reg22 => 22,
            RegisterId::Reg23 => 23,
            RegisterId::Reg24 => 24,
            RegisterId::Reg25 => 25,
            RegisterId::Reg26 => 26,
            RegisterId::Reg27 => 27,
            RegisterId::Reg28 => 28,
            RegisterId::Reg29 => 29,
            RegisterId::BasePointer => 30,
            RegisterId::StackPointer => 31,
        }
    }

    /// The register with number `index`.
    pub open spec fn spec_from_index(index: u32) -> RegisterId
        recommends
            index < 32,
    {
        match index {
            0 => RegisterId::Zero,
            1 => RegisterId::Reg1,
            2 => RegisterId::Reg2,
            3 => RegisterId::Reg3,
            4 => RegisterId::Reg4,
            5 => RegisterId::Reg5,
            6 => RegisterId::Reg6,
            7 => RegisterId::Reg7,
            8 => RegisterId::Reg8,
            9 => RegisterId::Reg9,
            10 => RegisterId::Reg10,
            11 => RegisterId::Reg11,
            12 => RegisterId::Reg12,
            13 => RegisterId::Reg13,
            14 => RegisterId::Reg14,
            15 => RegisterId::Reg15,
            16 => RegisterId::Reg16,
            17 => RegisterId::Reg17,
            18 => RegisterId::Reg18,
            19 => RegisterId::Reg19,
            20 => RegisterId::Reg20,
            21 => RegisterId::Reg21,
            22 => RegisterId::Reg22,
            23 => RegisterId::Reg23,
            24 => RegisterId::Reg24,
            25 => RegisterId::Reg25,
            26 => RegisterId::Reg26,
            27 => RegisterId::Reg27,
            28 => RegisterId::Reg28,
            29 => RegisterId::Reg29,
            30 => RegisterId::BasePointer,
            31 => RegisterId::StackPointer,
            _ => RegisterId::Zero,
        }
    }

    pub fn index(self) -> (r: u32)
        ensures
            r == self.spec_index(),
            r < 32,
    {
        match self {
            RegisterId::Zero => 0,
            RegisterId::Reg1 => 1,
            RegisterId::Reg2 => 2,
            RegisterId::Reg3 => 3,
            RegisterId::Reg4 => 4,
            RegisterId::Reg5 => 5,
            RegisterId::Reg6 => 6,
            RegisterId::Reg7 => 7,
            RegisterId::Reg8 => 8,
            RegisterId::Reg9 => 9,
            RegisterId::Reg10 => 10,
            RegisterId::Reg11 => 11,
            RegisterId::Reg12 => 12,
            RegisterId::Reg13 => 13,
            RegisterId::Reg14 => 14,
            RegisterId::Reg15 => 15,
            RegisterId::Reg16 => 16,
            RegisterId::Reg17 => 17,
            RegisterId::Reg18 => 18,
            RegisterId::Reg19 => 19,
            RegisterId::Reg20 => 20,
            RegisterId::Reg21 => 21,
            RegisterId::Reg22 => 22,
            RegisterId::Reg23 => 23,
            RegisterId::Reg24 => 24,
            RegisterId::Reg25 => 25,
            RegisterId::Reg26 => 26,
            RegisterId::Reg27 => 27,
            RegisterId::Reg28 => 28,
            RegisterId::Reg29 => 29,
            RegisterId::BasePointer => 30,
            RegisterId::StackPointer => 31,
        }
    }

    pub fn from_index(index: u32) -> (r: RegisterId)
        requires
            index < 32,
        ensures
            r == RegisterId::spec_from_index(index),
            r.spec_index() == index,
    {
        match index {
            0 => RegisterId::Zero,
            1 => RegisterId::Reg1,
            2 => RegisterId::Reg2,
            3 => RegisterId::Reg3,
            4 => RegisterId::Reg4,
            5 => RegisterId::Reg5,
            6 => RegisterId::Reg6,
            7 => RegisterId::Reg7,
            8 => RegisterId::Reg8,
            9 => RegisterId::Reg9,
            10 => RegisterId::Reg10,
            11 => RegisterId::Reg11,
            12 => RegisterId::Reg12,
            13 => RegisterId::Reg13,
            14 => RegisterId::Reg14,
            15 => RegisterId::Reg15,
            16 => RegisterId::Reg16,
            17 => RegisterId::Reg17,
            18 => RegisterId::Reg18,
            19 => RegisterId::Reg19,
            20 => RegisterId::Reg20,
            21 => RegisterId::Reg21,
            22 => RegisterId::Reg22,
            23 => RegisterId::Reg23,
            24 => RegisterId::Reg24,
            25 => RegisterId::Reg25,
            26 => RegisterId::Reg26,
            27 => RegisterId::Reg27,
            28 => RegisterId::Reg28,
            29 => RegisterId::Reg29,
            30 => RegisterId::BasePointer,
            31 => RegisterId::StackPointer,
            _ => RegisterId::StackPointer,
        }
    }
}


/// Bits 31..26: the opcode.
pub open spec fn op_field(word: u32) -> u32 {
    (word >> 26) & 0x3F
}

/// Bits 25..21: the source register.
pub open spec fn rs_field(word: u32) -> u32 {
    (word >> 21) & 0x1F
}

/// Bits 20..16: the target register.
pub open spec fn rt_field(word: u32) -> u32 {
    (word >> 16) & 0x1F
}

/// Bits 15..11: the destination register.
pub open spec fn rd_field(word: u32) -> u32 {
    (word >> 11) & 0x1F
}

/// Bits 10..6: the shift amount.
pub open spec fn shamt_field(word: u32) -> u32 {
    (word >> 6) & 0x1F
}

/// Bits 4..0: the function code.
pub open spec fn funct_field(word: u32) -> u32 {
    word & 0x1F
}

/// Bits 15..0: the 16-bit immediate.
pub open spec fn imm16_field(word: u32) -> u32 {
    word & 0xFFFF
}

/// Bits 25..0: the 26-bit jump immediate.
pub open spec fn imm26_field(word: u32) -> u32 {
    word & 0x3FF_FFFF
}

/// Whether `op` is encoded in the register (R) format.
pub fn uses_format_r(op: u32) -> (r: bool)
    ensures
        r == (op == OP_ARITHMETIC),
{
    op == OP_ARITHMETIC
}

/// Whether `op` is encoded in the jump (J) format.
pub fn uses_format_j(op: u32) -> (r: bool)
    ensures
        r == (op == OP_JUMP),
{
    op == OP_JUMP
}

/// Whether `op` is encoded in the immediate (I) format: every opcode that
/// is neither R nor J.
pub fn uses_format_i(op: u32) -> (r: bool)
    ensures
        r == (op != OP_ARITHMETIC && op != OP_JUMP),
{
    !uses_format_r(op) && !uses_format_j(op)
}

/// The operand fields of a decoded instruction, by format.
#[derive(Debug, Clone, Copy, PartialEq, Eq, Structural)]
pub enum InstructionArguments {
    Register {
        register_s: RegisterId,
        register_t: RegisterId,
        register_d: RegisterId,
        shift_amount: u8,
        function: Function,
    },
    Immediate { register_s: RegisterId, register_t: RegisterId, immediate: u16 },
    Jump { address: u32 },
}

/// A decoded instruction word.
#[derive(Debug, Clone, Copy, PartialEq, Eq, Structural)]
pub struct Instruction {
    pub op_code: OpCode,
    pub arguments: InstructionArguments,
}

/// What an instruction word decodes to: the opcode must be in the opcode
/// table, and for arithmetic/logic words the function field must name an
/// operation. The remaining fields are taken as they stand.
pub open spec fn decode_spec(word: u32) -> Result<Instruction, ExecutionError> {
    let op = op_field(word);
    match OpCode::spec_from_code(op) {
        None => Err(ExecutionError::InvalidOpcode(op)),
        Some(op_code) => if op == OP_ARITHMETIC {
            match Function::spec_from_code(funct_field(word)) {
                None => Err(ExecutionError::InvalidFunction(funct_field(word))),
                Some(function) => Ok(
                    Instruction {
                        op_code,
                        arguments: InstructionArguments::Register {
                            register_s: RegisterId::spec_from_index(rs_field(word)),
                            register_t: RegisterId::spec_from_index(rt_field(word)),
                            register_d: RegisterId::spec_from_index(rd_field(word)),
                            shift_amount: shamt_field(word) as u8,
                            function,
                        },
                    },
                ),
            }
        } else if op == OP_JUMP {
            Ok(
                Instruction {
                    op_code,
                    arguments: InstructionArguments::Jump { address: imm26_field(word) },
                },
            )
        } else {
            Ok(
                Instruction {
                    op_code,
                    arguments: InstructionArguments::Immediate {
                        register_s: RegisterId::spec_from_index(rs_field(word)),
                        register_t: RegisterId::spec_from_index(rt_field(word)),
                        immediate: imm16_field(word) as u16,
                    },
                },
            )
        },
    }
}

/// The word that encodes `ins`; fields wider than their slot are cut to it.
pub open spec fn encode_spec(ins: Instruction) -> u32 {
    let op = ins.op_code.spec_code() << 26;
    match ins.arguments {
        InstructionArguments::Register {
            register_s,
            register_t,
            register_d,
            shift_amount,
            function,
        } => op | (register_s.spec_index() << 21) | (register_t.spec_index() << 16) | (
        register_d.spec_index() << 11) | (((shift_amount as u32) & 0x1F) << 6)
            | function.spec_code(),
        InstructionArguments::Immediate { register_s, register_t, immediate } => op | (
        register_s.spec_index() << 21) | (register_t.spec_index() << 16) | (immediate as u32),
        InstructionArguments::Jump { address } => op | (address & 0x3FF_FFFF),
    }
}

proof fn lemma_field_bounds(word: u32)
    ensures
        op_field(word) < 64,
        rs_field(word) < 32,
        rt_field(word) < 32,
        rd_field(word) < 32,
        shamt_field(word) < 32,
        funct_field(word) < 32,
        imm16_field(word) < 0x1_0000,
        imm26_field(word) < 0x400_0000,
{
    assert((word >> 26) & 0x3F < 64) by (bit_vector);
    assert((word >> 21) & 0x1F < 32) by (bit_vector);
    assert((word >> 16) & 0x1F < 32) by (bit_vector);
    assert((word >> 11) & 0x1F < 32) by (bit_vector);
    assert((word >> 6) & 0x1F < 32) by (bit_vector);
    assert(word & 0x1F < 32) by (bit_vector);
    assert(word & 0xFFFF < 0x1_0000) by (bit_vector);
    assert(word & 0x3FF_FFFF < 0x400_0000) by (bit_vector);
}

impl Instruction {
    /// Splits `word` into its fields and checks its opcode (and, for
    /// arithmetic/logic words, its function code).
    pub fn decode(word: u32) -> (r: Result<Instruction, ExecutionError>)
        ensures
            r == decode_spec(word),
    {
        proof {
            lemma_field_bounds(word);
        }
        let op = (word >> 26) & 0x3F;
        let op_code = match OpCode::from_code(op) {
            Some(op_code) => op_code,
            None => return Err(ExecutionError::InvalidOpcode(op)),
        };
        if uses_format_r(op) {
            let funct = word & 0x1F;
            match Function::from_code(funct) {
                None => Err(ExecutionError::InvalidFunction(funct)),
                Some(function) => Ok(
                    Instruction {
                        op_code,
                        arguments: InstructionArguments::Register {
                            register_s: RegisterId::from_index((word >> 21) & 0x1F),
                            register_t: RegisterId::from_index((word >> 16) & 0x1F),
                            register_d: RegisterId::from_index((word >> 11) & 0x1F),
                            shift_amount: ((word >> 6) & 0x1F) as u8,
                            function,
                        },
                    },
                ),
            }
        } else if uses_format_j(op) {
            Ok(
                Instruction {
                    op_code,
                    arguments: InstructionArguments::Jump { address: word & 0x3FF_FFFF },
                },
            )
        } else {
            Ok(
                Instruction {
                    op_code,
                    arguments: InstructionArguments::Immediate {
                        register_s: RegisterId::from_index((word >> 21) & 0x1F),
                        register_t: RegisterId::from_index((word >> 16) & 0x1F),
                        immediate: (word & 0xFFFF) as u16,
                    },
                },
            )
        }
    }

    /// Packs the instruction into a word with the field layout of `decode`.
    pub fn encode(&self) -> (r: u32)
        ensures
            r == encode_spec(*self),
    {
        let op = self.op_code.code() << 26;
        match self.arguments {
            InstructionArguments::Register {
                register_s,
                register_t,
                register_d,
                shift_amount,
                function,
            } => op | (register_s.index() << 21) | (register_t.index() << 16) | (register_d.index()
                << 11) | (((shift_amount as u32) & 0x1F) << 6) | function.code(),
            InstructionArguments::Immediate { register_s, register_t, immediate } => op | (
            register_s.index() << 21) | (register_t.index() << 16) | (immediate as u32),
            InstructionArguments::Jump { address } => op | (address & 0x3FF_FFFF),
        }
    }
}

proof fn lemma_pack_register_format(w: u32)
    by (bit_vector)
    requires
        (w >> 5) & 1 == 0,
    ensures
        (((w >> 26) & 0x3F) << 26) | (((w >> 21) & 0x1F) << 21) | (((w >> 16) & 0x1F) << 16) | (((w
            >> 11) & 0x1F) << 11) | ((((w >> 6) & 0x1F) & 0x1F) << 6) | (w & 0x1F) == w,
{
}

proof fn lemma_pack_immediate_format(w: u32)
    by (bit_vector)
    ensures
        (((w >> 26) & 0x3F) << 26) | (((w >> 21) & 0x1F) << 21) | (((w >> 16) & 0x1F) << 16) | (w
            & 0xFFFF) == w,
{
}

proof fn lemma_pack_jump_format(w: u32)
    by (bit_vector)
    ensures
        (((w >> 26) & 0x3F) << 26) | ((w & 0x3FF_FFFF) & 0x3FF_FFFF) == w,
{
}

/// Encoding a decoded word gives the word back, for every word whose opcode
/// is in the table (and, in the register format, whose function code is).
/// Bit 5 lies in no field of the register format, so there it must be clear.
pub proof fn lemma_encode_decode(word: u32)
    requires
        decode_spec(word) is Ok,
        op_field(word) == OP_ARITHMETIC ==> (word >> 5) & 1 == 0,
    ensures
        encode_spec(decode_spec(word)->Ok_0) == word,
{
    lemma_field_bounds(word);
    let ins = decode_spec(word)->Ok_0;
    assert(ins.op_code.spec_code() == op_field(word));
    match ins.arguments {
        InstructionArguments::Register { register_s, register_t, register_d, shift_amount, function } => {
            assert(register_s.spec_index() == rs_field(word));
            assert(register_t.spec_index() == rt_field(word));
            assert(register_d.spec_index() == rd_field(word));
            assert(shift_amount as u32 == shamt_field(word));
            assert(function.spec_code() == funct_field(word));
            lemma_pack_register_format(word);
        },
        InstructionArguments::Immediate { register_s, register_t, immediate } => {
            assert(register_s.spec_index() == rs_field(word));
            assert(register_t.spec_index() == rt_field(word));
            assert(immediate as u32 == imm16_field(word));
            lemma_pack_immediate_format(word);
        },
        InstructionArguments::Jump { address } => {
            lemma_pack_jump_format(word);
        },
    }
}

proof fn lemma_unpack_register_format(op: u32, rs: u32, rt: u32, rd: u32, shamt: u32, funct: u32)
    by (bit_vector)
    requires
        op < 64,
        rs < 32,
        rt < 32,
        rd < 32,
        shamt < 32,
        funct < 32,
    ensures
        ({
            let w = (op << 26) | (rs << 21) | (rt << 16) | (rd << 11) | ((shamt & 0x1F) << 6)
                | funct;
            &&& (w >> 26) & 0x3F == op
            &&& (w >> 21) & 0x1F == rs
            &&& (w >> 16) & 0x1F == rt
            &&& (w >> 11) & 0x1F == rd
            &&& (w >> 6) & 0x1F == shamt
            &&& w & 0x1F == funct
        }),
{
}

proof fn lemma_unpack_immediate_format(op: u32, rs: u32, rt: u32, imm: u32)
    by (bit_vector)
    requires
        op < 64,
        rs < 32,
        rt < 32,
        imm < 0x1_0000,
    ensures
        ({
            let w = (op << 26) | (rs << 21) | (rt << 16) | imm;
            &&& (w >> 26) & 0x3F == op
            &&& (w >> 21) & 0x1F == rs
            &&& (w >> 16) & 0x1F == rt
            &&& w & 0xFFFF == imm
        }),
{
}

proof fn lemma_unpack_jump_format(op: u32, address: u32)
    by (bit_vector)
    requires
        op < 64,
        address < 0x400_0000,
    ensures
        ({
            let w = (op << 26) | (address & 0x3FF_FFFF);
            &&& (w >> 26) & 0x3F == op
            &&& w & 0x3FF_FFFF == address
        }),
{
}

impl Instruction {
    /// Whether the arguments have the format of the opcode and every field
    /// fits its slot.
    pub open spec fn wf(self) -> bool {
        match self.arguments {
            InstructionArguments::Register { shift_amount, .. } => self.op_code
                == OpCode::ArithmeticLogic && shift_amount < 32,
            InstructionArguments::Immediate { .. } => self.op_code != OpCode::ArithmeticLogic
                && self.op_code != OpCode::Jump,
            InstructionArguments::Jump { address } => self.op_code == OpCode::Jump && address
                < 0x400_0000,
        }
    }
}

proof fn lemma_codes_round_trip(op: OpCode, r: RegisterId, f: Function)
    ensures
        OpCode::spec_from_code(op.spec_code()) == Some(op),
        op.spec_code() < 64,
        RegisterId::spec_from_index(r.spec_index()) == r,
        Function::spec_from_code(f.spec_code()) == Some(f),
        f.spec_code() < 32,
{
}

/// Decoding the encoding of a well-formed instruction gives it back.
pub proof fn lemma_decode_encode(ins: Instruction)
    requires
        ins.wf(),
    ensures
        decode_spec(encode_spec(ins)) == Ok::<Instruction, ExecutionError>(ins),
{
    let op = ins.op_code.spec_code();
    let w = encode_spec(ins);
    lemma_codes_round_trip(ins.op_code, RegisterId::Zero, Function::Add);
    match ins.arguments {
        InstructionArguments::Register { register_s, register_t, register_d, shift_amount, function } => {
            lemma_codes_round_trip(ins.op_code, register_s, function);
            lemma_codes_round_trip(ins.op_code, register_t, function);
            lemma_codes_round_trip(ins.op_code, register_d, function);
            lemma_unpack_register_format(
                op,
                register_s.spec_index(),
                register_t.spec_index(),
                register_d.spec_index(),
                shift_amount as u32,
                function.spec_code(),
            );
            assert(((shift_amount as u32) as u8) == shift_amount);
            assert(op_field(w) == op);
            assert(funct_field(w) == function.spec_code());
        },
        InstructionArguments::Immediate { register_s, register_t, immediate } => {
            lemma_codes_round_trip(ins.op_code, register_s, Function::Add);
            lemma_codes_round_trip(ins.op_code, register_t, Function::Add);
            lemma_unpack_immediate_format(
                op,
                register_s.spec_index(),
                register_t.spec_index(),
                immediate as u32,
            );
            assert(op_field(w) == op);
            assert((imm16_field(w) as u16) == immediate);
        },
        InstructionArguments::Jump { address } => {
            lemma_unpack_jump_format(op, address);
            assert(op_field(w) == op);
        },
    }
}

} // verus!
