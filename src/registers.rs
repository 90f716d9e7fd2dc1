use vstd::prelude::*;

use crate::error::ExecutionError;
use crate::isa::RegisterId;

verus! {

/// The register file as a sequence of 32 values, with the rule that decides
/// which registers are protected.
pub struct RegisterModel {
    pub values: Seq<u32>,
    /// Register 1 holds the constant 1 and rejects writes.
    pub constant_one: bool,
}

impl RegisterModel {
    pub open spec fn wf(self) -> bool {
        &&& self.values.len() == 32
        &&& self.values[0] == 0
        &&& self.constant_one ==> self.values[1] == 1
    }

    /// Register 0 is always protected; register 1 is protected when it holds
    /// the constant 1.
    pub open spec fn is_protected(self, id: RegisterId) -> bool {
        id == RegisterId::Zero || (self.constant_one && id == RegisterId::Reg1)
    }

    pub open spec fn read(self, id: RegisterId) -> u32 {
        if id == RegisterId::Zero {
            0
        } else {
            self.values[id.spec_index() as int]
        }
    }

    pub open spec fn write(self, id: RegisterId, value: u32) -> Result<
        RegisterModel,
        ExecutionError,
    > {
        if self.is_protected(id) {
            Err(ExecutionError::InvalidRegisterWrite)
        } else {
            Ok(RegisterModel { values: self.values.update(id.spec_index() as int, value), ..self })
        }
    }
}

/// Writing an unprotected register and reading it back gives the value
/// written; every other register keeps its value.
pub proof fn lemma_write_then_read(regs: RegisterModel, id: RegisterId, value: u32)
    requires
        regs.wf(),
        !regs.is_protected(id),
    ensures
        regs.write(id, value) is Ok,
        regs.write(id, value)->Ok_0.wf(),
        regs.write(id, value)->Ok_0.read(id) == value,
        forall|other: RegisterId|
            other != id ==> #[trigger] regs.write(id, value)->Ok_0.read(other) == regs.read(other),
{
    assert forall|other: RegisterId| other != id implies #[trigger] regs.write(
        id,
        value,
    )->Ok_0.read(other) == regs.read(other) by {
        if other != RegisterId::Zero {
            lemma_index_injective(id, other);
        }
    }
}

/// Register 0 reads as zero in every register file, and any attempt to write
/// it is refused, so it still reads as zero afterwards.
pub proof fn lemma_zero_register(regs: RegisterModel, value: u32)
    ensures
        regs.read(RegisterId::Zero) == 0,
        regs.write(RegisterId::Zero, value) == Err::<RegisterModel, ExecutionError>(
            ExecutionError::InvalidRegisterWrite,
        ),
        forall|id: RegisterId, v: u32| #[trigger]
            regs.write(id, v) is Ok ==> regs.write(id, v)->Ok_0.read(RegisterId::Zero) == 0,
{
}

/// Distinct registers have distinct numbers.
proof fn lemma_index_injective(a: RegisterId, b: RegisterId)
    ensures
        a != b ==> a.spec_index() != b.spec_index(),
{
}

/// The 32 general-purpose registers.
pub struct RegisterFile {
    values: [u32; 32],
    constant_one: bool,
}

impl View for RegisterFile {
    type V = RegisterModel;

    closed spec fn view(&self) -> RegisterModel {
        RegisterModel { values: self.values@, constant_one: self.constant_one }
    }
}

impl RegisterFile {
    /// All registers zero; only register 0 is protected.
    pub fn new() -> (r: RegisterFile)
        ensures
            r@.wf(),
            !r@.constant_one,
            forall|i: int| 0 <= i < 32 ==> r@.values[i] == 0,
    {
        RegisterFile { values: [0u32; 32], constant_one: false }
    }

    /// Register 1 holds the constant 1 and is protected, the stack pointer
    /// starts at `stack_pointer`, all others are zero.
    pub fn with_constant_one(stack_pointer: u32) -> (r: RegisterFile)
        ensures
            r@.wf(),
            r@.constant_one,
            r@.values[1] == 1,
            r@.values[31] == stack_pointer,
            forall|i: int| 0 <= i < 32 && i != 1 && i != 31 ==> r@.values[i] == 0,
    {
        let mut values = [0u32; 32];
        values[1] = 1;
        values[31] = stack_pointer;
        RegisterFile { values, constant_one: true }
    }

    pub fn read(&self, id: RegisterId) -> (r: u32)
        requires
            self@.wf(),
        ensures
            r == self@.read(id),
    {
        if id == RegisterId::Zero {
            0
        } else {
            self.values[id.index() as usize]
        }
    }

    pub fn write(&mut self, id: RegisterId, value: u32) -> (r: Result<(), ExecutionError>)
        requires
            old(self)@.wf(),
        ensures
            final(self)@.wf(),
            match old(self)@.write(id, value) {
                Ok(next) => r is Ok && final(self)@ == next,
                Err(e) => r == Err::<(), ExecutionError>(e) && final(self)@ == old(self)@,
            },
    {
        if id == RegisterId::Zero || (self.constant_one && id == RegisterId::Reg1) {
            return Err(ExecutionError::InvalidRegisterWrite);
        }
        self.values[id.index() as usize] = value;
        Ok(())
    }

    pub fn has_constant_one(&self) -> (r: bool)
        ensures
            r == self@.constant_one,
    {
        self.constant_one
    }
}

} // verus!
