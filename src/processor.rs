use vstd::prelude::*;

use crate::error::ExecutionError;
use crate::isa::{
    convert_imm16, convert_imm26, decode_spec, imm16_field, op_field, rs_field, sign_extend16,
    sign_extend26, Function, Instruction, InstructionArguments, OpCode, RegisterId, OP_ARITHMETIC,
    OP_JUMP,
};
use crate::memory::{
    be_word, check_bounds, in_bounds, out_of_bounds, read_byte, read_word, write_byte,
};
use crate::registers::{lemma_write_then_read, RegisterFile, RegisterModel};

verus! {

/// Fetch to decode: the word fetched, where it came from, and the address
/// that follows it.
#[derive(Debug, Clone, Copy, PartialEq, Eq, Structural)]
pub struct IfId {
    pub address: u32,
    pub instruction_word: u32,
    pub next_program_counter: u32,
}

/// Decode to execute: the operation and the register values read at decode.
#[derive(Debug, Clone, Copy, PartialEq, Eq, Structural)]
pub struct IdEx {
    pub address: u32,
    pub next_program_counter: u32,
    pub op: OpCode,
    pub funct: Function,
    pub vs: u32,
    pub vt: u32,
    pub rd: RegisterId,
    pub imm_addr: u32,
}

/// Execute to memory: a result, an effective address or a carried operand.
#[derive(Debug, Clone, Copy, PartialEq, Eq, Structural)]
pub struct ExMem {
    pub address: u32,
    pub next_program_counter: u32,
    pub op: OpCode,
    pub value: u32,
    pub rd: RegisterId,
    pub addr: u32,
}

/// Memory to write-back: the register to write and its new value.
#[derive(Debug, Clone, Copy, PartialEq, Eq, Structural)]
pub struct MemWb {
    pub address: u32,
    pub reg: RegisterId,
    pub value: u32,
}

/// What the memory stage does besides producing its latch.
#[derive(Debug, Clone, Copy)]
pub struct MemoryEffects {
    pub write_back: Option<MemWb>,
    /// A byte to store in the data store, at an address checked to be in it.
    pub store: Option<(u32, u8)>,
    /// The program counter for the next fetch, when control flow changes.
    pub redirect: Option<u32>,
    pub halt: bool,
}

/// The whole machine state.
pub struct ProcessorModel {
    pub rom: Seq<u8>,
    pub ram: Seq<u8>,
    pub pc: u32,
    pub registers: RegisterModel,
    pub halted: bool,
    pub if_id: Option<IfId>,
    pub id_ex: Option<IdEx>,
    pub ex_mem: Option<ExMem>,
    pub mem_wb: Option<MemWb>,
}

impl ProcessorModel {
    pub open spec fn wf(self) -> bool {
        self.registers.wf()
    }
}

/// `base + offset`, wrapped to 32 bits.
pub open spec fn offset_by(base: u32, offset: int) -> u32 {
    ((base + offset) % 0x1_0000_0000) as u32
}

/// The value of `x` read as a two's-complement signed integer.
pub open spec fn signed(x: u32) -> int {
    if x < 0x8000_0000 {
        x as int
    } else {
        x - 0x1_0000_0000
    }
}

/// Shift right by `n`, filling with copies of the sign bit.
pub open spec fn shift_right_arithmetic(x: u32, n: u32) -> u32 {
    if x < 0x8000_0000 {
        x >> n
    } else {
        !((!x) >> n)
    }
}

pub open spec fn flag(b: bool) -> u32 {
    if b {
        1
    } else {
        0
    }
}

/// The arithmetic/logic operations. Shift counts are the low five bits of
/// the second operand; comparisons give 0 or 1.
pub open spec fn alu_spec(funct: Function, a: u32, b: u32) -> u32 {
    match funct {
        Function::Add => offset_by(a, b as int),
        Function::Sub => offset_by(a, -b),
        Function::And => a & b,
        Function::Or => a | b,
        Function::Xor => a ^ b,
        Function::Shl => a << (b & 0x1F),
        Function::Sal => a << (b & 0x1F),
        Function::Shr => a >> (b & 0x1F),
        Function::Sar => shift_right_arithmetic(a, b & 0x1F),
        Function::Not => !a,
        Function::LtS => flag(signed(a) < signed(b)),
        Function::GtS => flag(signed(a) > signed(b)),
        Function::LtU => flag(a < b),
        Function::GtU => flag(a > b),
        Function::Eq => flag(a == b),
        Function::Ne => flag(a != b),
    }
}

/// `reg` with its high half-word replaced by the low half of `imm`.
pub open spec fn set_high(reg: u32, imm: u32) -> u32 {
    (reg & 0xFFFF) | ((imm & 0xFFFF) << 16)
}

/// `reg` with its low half-word replaced by the low half of `imm`.
pub open spec fn set_low(reg: u32, imm: u32) -> u32 {
    (reg & 0xFFFF_0000) | (imm & 0xFFFF)
}

/// A byte widened to a word by copying its sign bit.
pub open spec fn sign_extend8(b: u8) -> u32 {
    if b < 0x80 {
        b as u32
    } else {
        (b + 0xFFFF_FF00) as u32
    }
}

/// Fetch: the big-endian word at `pc` in the program store.
pub open spec fn fetch_spec(rom: Seq<u8>, pc: u32) -> Result<IfId, ExecutionError> {
    if in_bounds(rom.len(), pc, 4) {
        Ok(
            IfId {
                address: pc,
                instruction_word: be_word(rom, pc as int) as u32,
                next_program_counter: offset_by(pc, 4),
            },
        )
    } else {
        Err(out_of_bounds(rom, pc))
    }
}

/// The decode latch for a decoded instruction; operands are read from
/// `regs` as they are before this tick's write-back.
pub open spec fn decoded_latch(regs: RegisterModel, ins: Instruction, fetched: IfId) -> IdEx {
    match ins.arguments {
        InstructionArguments::Register { register_s, register_t, register_d, function, .. } => IdEx {
            address: fetched.address,
            next_program_counter: fetched.next_program_counter,
            op: ins.op_code,
            funct: function,
            vs: regs.read(register_s),
            vt: regs.read(register_t),
            rd: register_d,
            imm_addr: 0,
        },
        InstructionArguments::Immediate { register_s, register_t, immediate } => IdEx {
            address: fetched.address,
            next_program_counter: fetched.next_program_counter,
            op: ins.op_code,
            funct: Function::Add,
            vs: regs.read(register_s),
            vt: regs.read(register_t),
            rd: register_t,
            imm_addr: immediate as u32,
        },
        InstructionArguments::Jump { address } => IdEx {
            address: fetched.address,
            next_program_counter: fetched.next_program_counter,
            op: ins.op_code,
            funct: Function::Add,
            vs: 0,
            vt: 0,
            rd: RegisterId::Zero,
            imm_addr: address,
        },
    }
}

/// Decode: check the fetched word and read its operands.
pub open spec fn decode_stage(regs: RegisterModel, input: Option<IfId>) -> Result<
    Option<IdEx>,
    ExecutionError,
> {
    match input {
        None => Ok(None),
        Some(fetched) => match decode_spec(fetched.instruction_word) {
            Err(e) => Err(e),
            Ok(ins) => Ok(Some(decoded_latch(regs, ins, fetched))),
        },
    }
}

/// Execute: compute results and effective addresses; a no-op leaves a bubble.
pub open spec fn execute_spec(input: Option<IdEx>) -> Option<ExMem> {
    match input {
        None => None,
        Some(l) => {
            let carry = ExMem {
                address: l.address,
                next_program_counter: l.next_program_counter,
                op: l.op,
                value: 0,
                rd: l.rd,
                addr: 0,
            };
            match l.op {
                OpCode::ArithmeticLogic => Some(
                    ExMem { value: alu_spec(l.funct, l.vs, l.vt), ..carry },
                ),
                OpCode::SetHigh => Some(ExMem { value: set_high(l.vt, l.imm_addr), ..carry }),
                OpCode::SetLow => Some(ExMem { value: set_low(l.vt, l.imm_addr), ..carry }),
                OpCode::Load => Some(
                    ExMem { addr: offset_by(l.vs, sign_extend16(l.imm_addr)), ..carry },
                ),
                OpCode::Store => Some(
                    ExMem {
                        value: l.vs,
                        addr: offset_by(l.vt, sign_extend16(l.imm_addr)),
                        ..carry
                    },
                ),
                OpCode::Branch => Some(ExMem { value: l.vs, addr: l.imm_addr, ..carry }),
                OpCode::Jump => Some(ExMem { addr: l.imm_addr, ..carry }),
                OpCode::JumpRegister => Some(ExMem { value: l.vs, ..carry }),
                OpCode::Halt => Some(carry),
                OpCode::NoOp => None,
            }
        },
    }
}

pub open spec fn no_effects() -> MemoryEffects {
    MemoryEffects { write_back: None, store: None, redirect: None, halt: false }
}

/// Memory: loads and stores against the data store, control-flow redirects
/// and halting.
pub open spec fn memory_spec(ram: Seq<u8>, input: Option<ExMem>) -> Result<
    MemoryEffects,
    ExecutionError,
> {
    match input {
        None => Ok(no_effects()),
        Some(l) => match l.op {
            OpCode::ArithmeticLogic | OpCode::SetHigh | OpCode::SetLow => Ok(
                MemoryEffects {
                    write_back: Some(MemWb { address: l.address, reg: l.rd, value: l.value }),
                    ..no_effects()
                },
            ),
            OpCode::Load => if in_bounds(ram.len(), l.addr, 1) {
                Ok(
                    MemoryEffects {
                        write_back: Some(
                            MemWb {
                                address: l.address,
                                reg: l.rd,
                                value: sign_extend8(ram[l.addr as int]),
                            },
                        ),
                        ..no_effects()
                    },
                )
            } else {
                Err(out_of_bounds(ram, l.addr))
            },
            OpCode::Store => if in_bounds(ram.len(), l.addr, 1) {
                Ok(MemoryEffects { store: Some((l.addr, (l.value & 0xFF) as u8)), ..no_effects() })
            } else {
                Err(out_of_bounds(ram, l.addr))
            },
            OpCode::Branch => Ok(
                MemoryEffects {
                    redirect: if l.value != 0 {
                        Some(offset_by(l.next_program_counter, sign_extend16(l.addr)))
                    } else {
                        None
                    },
                    ..no_effects()
                },
            ),
            OpCode::Jump => Ok(
                MemoryEffects {
                    redirect: Some(offset_by(l.next_program_counter, sign_extend26(l.addr))),
                    ..no_effects()
                },
            ),
            OpCode::JumpRegister => Ok(MemoryEffects { redirect: Some(l.value), ..no_effects() }),
            OpCode::Halt => Ok(MemoryEffects { halt: true, ..no_effects() }),
            OpCode::NoOp => Ok(no_effects()),
        },
    }
}

/// Write-back: the register write of the instruction leaving the pipeline.
pub open spec fn write_back_spec(regs: RegisterModel, input: Option<MemWb>) -> Result<
    RegisterModel,
    ExecutionError,
> {
    match input {
        None => Ok(regs),
        Some(l) => regs.write(l.reg, l.value),
    }
}

pub open spec fn apply_store(ram: Seq<u8>, store: Option<(u32, u8)>) -> Seq<u8> {
    match store {
        None => ram,
        Some((address, byte)) => ram.update(address as int, byte),
    }
}

/// One tick: all five stages run on the latches of the previous tick, in the
/// order fetch, decode, execute, memory, write-back. The first fault, in that
/// order, aborts the tick; otherwise the new latches, store, register write,
/// program counter and halt flag take effect together.
pub open spec fn tick_spec(m: ProcessorModel) -> Result<ProcessorModel, ExecutionError> {
    match fetch_spec(m.rom, m.pc) {
        Err(e) => Err(e),
        Ok(fetched) => match decode_stage(m.registers, m.if_id) {
            Err(e) => Err(e),
            Ok(decoded) => match memory_spec(m.ram, m.ex_mem) {
                Err(e) => Err(e),
                Ok(effects) => match write_back_spec(m.registers, m.mem_wb) {
                    Err(e) => Err(e),
                    Ok(registers) => Ok(
                        ProcessorModel {
                            rom: m.rom,
                            ram: apply_store(m.ram, effects.store),
                            pc: match effects.redirect {
                                Some(target) => target,
                                None => fetched.next_program_counter,
                            },
                            registers,
                            halted: m.halted || effects.halt,
                            if_id: Some(fetched),
                            id_ex: decoded,
                            ex_mem: execute_spec(m.id_ex),
                            mem_wb: effects.write_back,
                        },
                    ),
                },
            },
        },
    }
}

/// `base + offset` wrapped to 32 bits, for offsets of at most 26 bits.
fn add_offset(base: u32, offset: i32) -> (r: u32)
    requires
        -0x200_0000 <= offset < 0x200_0000,
    ensures
        r == offset_by(base, offset as int),
{
    base.wrapping_add_signed(offset)
}

fn is_negative(x: u32) -> (r: bool)
    ensures
        r == (signed(x) < 0),
{
    x >= 0x8000_0000
}

fn signed_less(a: u32, b: u32) -> (r: bool)
    ensures
        r == (signed(a) < signed(b)),
{
    let na = is_negative(a);
    let nb = is_negative(b);
    if na != nb {
        na
    } else {
        a < b
    }
}

fn to_flag(b: bool) -> (r: u32)
    ensures
        r == flag(b),
{
    if b {
        1
    } else {
        0
    }
}

/// Runs one arithmetic/logic operation.
pub fn alu(funct: Function, a: u32, b: u32) -> (r: u32)
    ensures
        r == alu_spec(funct, a, b),
{
    let count = b & 0x1F;
    assert(b & 0x1F < 32) by (bit_vector);
    match funct {
        Function::Add => a.wrapping_add(b),
        Function::Sub => a.wrapping_sub(b),
        Function::And => a & b,
        Function::Or => a | b,
        Function::Xor => a ^ b,
        Function::Shl => a << count,
        Function::Sal => a << count,
        Function::Shr => a >> count,
        Function::Sar => if a < 0x8000_0000 {
            a >> count
        } else {
            !((!a) >> count)
        },
        Function::Not => !a,
        Function::LtS => to_flag(signed_less(a, b)),
        Function::GtS => to_flag(signed_less(b, a)),
        Function::LtU => to_flag(a < b),
        Function::GtU => to_flag(a > b),
        Function::Eq => to_flag(a == b),
        Function::Ne => to_flag(a != b),
    }
}

/// The pipeline engine: program and data stores, program counter, register
/// file, halt flag and the four latches between the five stages.
pub struct Processor {
    rom: Vec<u8>,
    ram: Vec<u8>,
    program_counter: u32,
    registers: RegisterFile,
    halted: bool,
    if_id: Option<IfId>,
    id_ex: Option<IdEx>,
    ex_mem: Option<ExMem>,
    mem_wb: Option<MemWb>,
}

impl View for Processor {
    type V = ProcessorModel;

    closed spec fn view(&self) -> ProcessorModel {
        ProcessorModel {
            rom: self.rom@,
            ram: self.ram@,
            pc: self.program_counter,
            registers: self.registers@,
            halted: self.halted,
            if_id: self.if_id,
            id_ex: self.id_ex,
            ex_mem: self.ex_mem,
            mem_wb: self.mem_wb,
        }
    }
}

/// The state of a machine that has not ticked yet.
pub open spec fn is_initial(m: ProcessorModel, rom: Seq<u8>, ram_size: u32, entry: u32) -> bool {
    &&& m.wf()
    &&& m.rom == rom
    &&& m.ram == Seq::new(ram_size as nat, |i: int| 0u8)
    &&& m.pc == entry
    &&& !m.halted
    &&& m.if_id is None
    &&& m.id_ex is None
    &&& m.ex_mem is None
    &&& m.mem_wb is None
}

impl Processor {
    pub open spec fn wf(&self) -> bool {
        self@.wf()
    }

    fn start(rom: Vec<u8>, ram: Vec<u8>, entry: u32, registers: RegisterFile) -> (r: Processor)
        requires
            registers@.wf(),
        ensures
            r@.wf(),
            r@.rom == rom@,
            r@.ram == ram@,
            r@.pc == entry,
            !r@.halted,
            r@.if_id is None,
            r@.id_ex is None,
            r@.ex_mem is None,
            r@.mem_wb is None,
            r@.registers == registers@,
    {
        Processor {
            rom,
            ram,
            program_counter: entry,
            registers,
            halted: false,
            if_id: None,
            id_ex: None,
            ex_mem: None,
            mem_wb: None,
        }
    }

    fn zeroed(ram_size: u32) -> (r: Vec<u8>)
        ensures
            r@ == Seq::new(ram_size as nat, |i: int| 0u8),
    {
        let ram = vec![0u8; ram_size as usize];
        assert(ram@ =~= Seq::new(ram_size as nat, |i: int| 0u8));
        ram
    }

    /// A machine with `rom` as its program store, `ram_size` zeroed bytes of
    /// data store, the first fetch at `program_counter`, all registers zero
    /// and only register 0 protected.
    pub fn new(rom: Vec<u8>, ram_size: u32, program_counter: u32) -> (r: Processor)
        ensures
            is_initial(r@, rom@, ram_size, program_counter),
            !r@.registers.constant_one,
            forall|i: int| 0 <= i < 32 ==> r@.registers.values[i] == 0,
    {
        Processor::start(rom, Processor::zeroed(ram_size), program_counter, RegisterFile::new())
    }

    /// Like `new`, but the data store starts as a copy of `ram`.
    pub fn with_data(rom: Vec<u8>, ram: Vec<u8>, program_counter: u32) -> (r: Processor)
        ensures
            r@.wf(),
            r@.rom == rom@,
            r@.ram == ram@,
            r@.pc == program_counter,
            !r@.halted,
            r@.if_id is None,
            r@.id_ex is None,
            r@.ex_mem is None,
            r@.mem_wb is None,
            !r@.registers.constant_one,
            forall|i: int| 0 <= i < 32 ==> r@.registers.values[i] == 0,
    {
        Processor::start(rom, ram, program_counter, RegisterFile::new())
    }

    /// Like `new`, but register 1 holds the constant 1 and rejects writes,
    /// and the stack pointer starts at the last data-store address.
    pub fn with_constant_one(rom: Vec<u8>, ram_size: u32, program_counter: u32) -> (r: Processor)
        ensures
            is_initial(r@, rom@, ram_size, program_counter),
            r@.registers.constant_one,
            r@.registers.values[1] == 1,
            r@.registers.values[31] == if ram_size == 0 {
                0
            } else {
                ram_size - 1
            },
            forall|i: int| 0 <= i < 32 && i != 1 && i != 31 ==> r@.registers.values[i] == 0,
    {
        let stack_pointer = if ram_size == 0 {
            0
        } else {
            ram_size - 1
        };
        Processor::start(
            rom,
            Processor::zeroed(ram_size),
            program_counter,
            RegisterFile::with_constant_one(stack_pointer),
        )
    }

    fn fetch(&self) -> (r: Result<IfId, ExecutionError>)
        ensures
            r == fetch_spec(self@.rom, self@.pc),
    {
        match read_word(&self.rom, self.program_counter) {
            Err(e) => Err(e),
            Ok(instruction_word) => Ok(
                IfId {
                    address: self.program_counter,
                    instruction_word,
                    next_program_counter: add_offset(self.program_counter, 4),
                },
            ),
        }
    }

    fn decoded_latch(&self, ins: Instruction, fetched: IfId) -> (r: IdEx)
        requires
            self.wf(),
        ensures
            r == decoded_latch(self@.registers, ins, fetched),
    {
        match ins.arguments {
            InstructionArguments::Register { register_s, register_t, register_d, function, .. } => IdEx {
                address: fetched.address,
                next_program_counter: fetched.next_program_counter,
                op: ins.op_code,
                funct: function,
                vs: self.registers.read(register_s),
                vt: self.registers.read(register_t),
                rd: register_d,
                imm_addr: 0,
            },
            InstructionArguments::Immediate { register_s, register_t, immediate } => IdEx {
                address: fetched.address,
                next_program_counter: fetched.next_program_counter,
                op: ins.op_code,
                funct: Function::Add,
                vs: self.registers.read(register_s),
                vt: self.registers.read(register_t),
                rd: register_t,
                imm_addr: immediate as u32,
            },
            InstructionArguments::Jump { address } => IdEx {
                address: fetched.address,
                next_program_counter: fetched.next_program_counter,
                op: ins.op_code,
                funct: Function::Add,
                vs: 0,
                vt: 0,
                rd: RegisterId::Zero,
                imm_addr: address,
            },
        }
    }

    fn decode(&self, input: Option<IfId>) -> (r: Result<Option<IdEx>, ExecutionError>)
        requires
            self.wf(),
        ensures
            r == decode_stage(self@.registers, input),
    {
        match input {
            None => Ok(None),
            Some(fetched) => match Instruction::decode(fetched.instruction_word) {
                Err(e) => Err(e),
                Ok(ins) => Ok(Some(self.decoded_latch(ins, fetched))),
            },
        }
    }

    fn execute(input: Option<IdEx>) -> (r: Option<ExMem>)
        ensures
            r == execute_spec(input),
    {
        let l = match input {
            None => return None,
            Some(l) => l,
        };
        let carry = ExMem {
            address: l.address,
            next_program_counter: l.next_program_counter,
            op: l.op,
            value: 0,
            rd: l.rd,
            addr: 0,
        };
        match l.op {
            OpCode::ArithmeticLogic => Some(ExMem { value: alu(l.funct, l.vs, l.vt), ..carry }),
            OpCode::SetHigh => Some(
                ExMem { value: (l.vt & 0xFFFF) | ((l.imm_addr & 0xFFFF) << 16), ..carry },
            ),
            OpCode::SetLow => Some(
                ExMem { value: (l.vt & 0xFFFF_0000) | (l.imm_addr & 0xFFFF), ..carry },
            ),
            OpCode::Load => Some(
                ExMem { addr: add_offset(l.vs, convert_imm16(l.imm_addr)), ..carry },
            ),
            OpCode::Store => Some(
                ExMem { value: l.vs, addr: add_offset(l.vt, convert_imm16(l.imm_addr)), ..carry },
            ),
            OpCode::Branch => Some(ExMem { value: l.vs, addr: l.imm_addr, ..carry }),
            OpCode::Jump => Some(ExMem { addr: l.imm_addr, ..carry }),
            OpCode::JumpRegister => Some(ExMem { value: l.vs, ..carry }),
            OpCode::Halt => Some(carry),
            OpCode::NoOp => None,
        }
    }

    fn memory(&self, input: Option<ExMem>) -> (r: Result<MemoryEffects, ExecutionError>)
        ensures
            r == memory_spec(self@.ram, input),
    {
        let none = MemoryEffects { write_back: None, store: None, redirect: None, halt: false };
        let l = match input {
            None => return Ok(none),
            Some(l) => l,
        };
        match l.op {
            OpCode::ArithmeticLogic | OpCode::SetHigh | OpCode::SetLow => Ok(
                MemoryEffects {
                    write_back: Some(MemWb { address: l.address, reg: l.rd, value: l.value }),
                    ..none
                },
            ),
            OpCode::Load => match read_byte(&self.ram, l.addr) {
                Err(e) => Err(e),
                Ok(byte) => {
                    let value = if byte < 0x80 {
                        byte as u32
                    } else {
                        (byte as u32) + 0xFFFF_FF00
                    };
                    Ok(
                        MemoryEffects {
                            write_back: Some(MemWb { address: l.address, reg: l.rd, value }),
                            ..none
                        },
                    )
                },
            },
            OpCode::Store => match check_bounds(&self.ram, l.addr, 1) {
                Err(e) => Err(e),
                Ok(()) => Ok(MemoryEffects { store: Some((l.addr, (l.value & 0xFF) as u8)), ..none }),
            },
            OpCode::Branch => Ok(
                MemoryEffects {
                    redirect: if l.value != 0 {
                        Some(add_offset(l.next_program_counter, convert_imm16(l.addr)))
                    } else {
                        None
                    },
                    ..none
                },
            ),
            OpCode::Jump => Ok(
                MemoryEffects {
                    redirect: Some(add_offset(l.next_program_counter, convert_imm26(l.addr))),
                    ..none
                },
            ),
            OpCode::JumpRegister => Ok(MemoryEffects { redirect: Some(l.value), ..none }),
            OpCode::Halt => Ok(MemoryEffects { halt: true, ..none }),
            OpCode::NoOp => Ok(none),
        }
    }

    fn write_back(&mut self, input: Option<MemWb>) -> (r: Result<(), ExecutionError>)
        requires
            old(self).wf(),
        ensures
            final(self).wf(),
            match write_back_spec(old(self)@.registers, input) {
                Ok(registers) => r is Ok && final(self)@ == (ProcessorModel { registers, ..old(self)@ }),
                Err(e) => r == Err::<(), ExecutionError>(e) && final(self)@ == old(self)@,
            },
    {
        match input {
            None => Ok(()),
            Some(l) => self.registers.write(l.reg, l.value),
        }
    }

    pub fn program_counter(&self) -> (r: u32)
        ensures
            r == self@.pc,
    {
        self.program_counter
    }

    /// The value of register `id`, as an instruction would read it.
    pub fn register(&self, id: RegisterId) -> (r: u32)
        requires
            self.wf(),
        ensures
            r == self@.registers.read(id),
    {
        self.registers.read(id)
    }

    pub fn rom(&self) -> (r: &Vec<u8>)
        ensures
            r@ == self@.rom,
    {
        &self.rom
    }

    pub fn ram(&self) -> (r: &Vec<u8>)
        ensures
            r@ == self@.ram,
    {
        &self.ram
    }

    pub fn is_halted(&self) -> (r: bool)
        ensures
            r == self@.halted,
    {
        self.halted
    }

    pub fn fetch_latch(&self) -> (r: Option<IfId>)
        ensures
            r == self@.if_id,
    {
        self.if_id
    }

    pub fn decode_latch(&self) -> (r: Option<IdEx>)
        ensures
            r == self@.id_ex,
    {
        self.id_ex
    }

    pub fn execute_latch(&self) -> (r: Option<ExMem>)
        ensures
            r == self@.ex_mem,
    {
        self.ex_mem
    }

    pub fn memory_latch(&self) -> (r: Option<MemWb>)
        ensures
            r == self@.mem_wb,
    {
        self.mem_wb
    }

    /// Advances every stage once. On a fault the machine is left exactly as
    /// it was and the fault is returned.
    pub fn tick(&mut self) -> (r: Result<(), ExecutionError>)
        requires
            old(self).wf(),
        ensures
            final(self).wf(),
            match tick_spec(old(self)@) {
                Ok(next) => r is Ok && final(self)@ == next,
                Err(e) => r == Err::<(), ExecutionError>(e) && final(self)@ == old(self)@,
            },
    {
        let fetched = match self.fetch() {
            Err(e) => return Err(e),
            Ok(fetched) => fetched,
        };
        let decoded = match self.decode(self.if_id) {
            Err(e) => return Err(e),
            Ok(decoded) => decoded,
        };
        let executed = Processor::execute(self.id_ex);
        let effects = match self.memory(self.ex_mem) {
            Err(e) => return Err(e),
            Ok(effects) => effects,
        };
        match self.write_back(self.mem_wb) {
            Err(e) => return Err(e),
            Ok(()) => {},
        }
        if let Some((address, byte)) = effects.store {
            let _ = write_byte(&mut self.ram, address, byte);
        }
        self.program_counter = match effects.redirect {
            Some(target) => target,
            None => fetched.next_program_counter,
        };
        self.if_id = Some(fetched);
        self.id_ex = decoded;
        self.ex_mem = executed;
        self.mem_wb = effects.write_back;
        if effects.halt {
            self.halted = true;
        }
        Ok(())
    }
}

/// Whether an instruction with opcode `op` changes the program counter when
/// it reaches the memory stage.
pub open spec fn transfers_control(op: OpCode) -> bool {
    op == OpCode::Branch || op == OpCode::Jump || op == OpCode::JumpRegister
}

/// `n` ticks from `m`, stopping at the first fault.
pub open spec fn run_spec(m: ProcessorModel, n: nat) -> Result<ProcessorModel, ExecutionError>
    decreases n,
{
    if n == 0 {
        Ok(m)
    } else {
        match tick_spec(m) {
            Err(e) => Err(e),
            Ok(next) => run_spec(next, (n - 1) as nat),
        }
    }
}

/// A tick keeps the machine well formed and never clears the halt flag; a
/// tick whose memory stage holds a halt instruction sets it.
pub proof fn lemma_tick_halt(m: ProcessorModel)
    requires
        m.wf(),
        tick_spec(m) is Ok,
    ensures
        tick_spec(m)->Ok_0.wf(),
        m.halted ==> tick_spec(m)->Ok_0.halted,
        m.ex_mem is Some && m.ex_mem->Some_0.op == OpCode::Halt ==> tick_spec(m)->Ok_0.halted,
{
    if let Some(l) = m.mem_wb {
        lemma_write_then_read(m.registers, l.reg, l.value);
    }
}

/// Once the halt flag is set it stays set through any number of ticks.
pub proof fn lemma_halt_is_sticky(m: ProcessorModel, n: nat)
    requires
        m.wf(),
        m.halted,
        run_spec(m, n) is Ok,
    ensures
        run_spec(m, n)->Ok_0.halted,
        run_spec(m, n)->Ok_0.wf(),
    decreases n,
{
    if n > 0 {
        lemma_tick_halt(m);
        lemma_halt_is_sticky(tick_spec(m)->Ok_0, (n - 1) as nat);
    }
}

/// Branch timing. Take a machine whose fetch latch holds a branch that has
/// just been fetched, with no other control transfer ahead of it, and three
/// ticks that succeed. Each of the three fetches goes to the address after
/// the one before, and the instructions fetched stay in the pipeline. The
/// branch is resolved in the third tick: the next fetch goes to its target
/// when the register it tests was non-zero at decode, and straight on
/// otherwise.
pub proof fn lemma_branch_timing(
    s0: ProcessorModel,
    s1: ProcessorModel,
    s2: ProcessorModel,
    s3: ProcessorModel,
)
    requires
        s0.wf(),
        tick_spec(s0) == Ok::<ProcessorModel, ExecutionError>(s1),
        tick_spec(s1) == Ok::<ProcessorModel, ExecutionError>(s2),
        tick_spec(s2) == Ok::<ProcessorModel, ExecutionError>(s3),
        s0.if_id is Some,
        decode_spec(s0.if_id->Some_0.instruction_word) is Ok,
        decode_spec(s0.if_id->Some_0.instruction_word)->Ok_0.op_code == OpCode::Branch,
        s0.id_ex is Some ==> !transfers_control(s0.id_ex->Some_0.op),
        s0.ex_mem is Some ==> !transfers_control(s0.ex_mem->Some_0.op),
    ensures
        ({
            let branch = s0.if_id->Some_0;
            let word = branch.instruction_word;
            let taken = s0.registers.read(
                RegisterId::spec_from_index(rs_field(word)),
            ) != 0;
            &&& s1.pc == offset_by(s0.pc, 4)
            &&& s2.pc == offset_by(s1.pc, 4)
            &&& s1.if_id == Some(fetch_spec(s0.rom, s0.pc)->Ok_0)
            &&& s2.if_id == Some(fetch_spec(s1.rom, s1.pc)->Ok_0)
            &&& s3.if_id == Some(fetch_spec(s2.rom, s2.pc)->Ok_0)
            &&& s3.id_ex is Some
            &&& s3.id_ex->Some_0.address == s1.pc
            &&& s3.pc == if taken {
                offset_by(branch.next_program_counter, sign_extend16(imm16_field(word)))
            } else {
                offset_by(s2.pc, 4)
            }
        }),
{
    lemma_tick_halt(s0);
    lemma_tick_halt(s1);
    let word = s0.if_id->Some_0.instruction_word;
    assert(op_field(word) != OP_ARITHMETIC);
    assert(op_field(word) != OP_JUMP);
    assert(s1.id_ex->Some_0.op == OpCode::Branch);
    assert(s2.ex_mem->Some_0.op == OpCode::Branch);
    assert((imm16_field(word) as u16) as u32 == imm16_field(word)) by {
        assert(word & 0xFFFF < 0x1_0000) by (bit_vector);
    }
}

} // verus!
