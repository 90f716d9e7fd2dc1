use pipeline_emulator::error::ExecutionError;
use pipeline_emulator::isa::RegisterId;
use pipeline_emulator::registers::RegisterFile;

#[test]
fn write_then_read_returns_the_value() {
    let mut regs = RegisterFile::new();
    for index in 1..32 {
        let id = RegisterId::from_index(index);
        assert_eq!(regs.write(id, 0xDEAD_0000 + index), Ok(()));
        assert_eq!(regs.read(id), 0xDEAD_0000 + index);
    }
    assert_eq!(regs.read(RegisterId::Reg7), 0xDEAD_0007);
}

#[test]
fn zero_register_reads_zero_and_rejects_writes() {
    let mut regs = RegisterFile::new();
    assert_eq!(regs.read(RegisterId::Zero), 0);
    assert_eq!(regs.write(RegisterId::Zero, 5), Err(ExecutionError::InvalidRegisterWrite));
    assert_eq!(regs.read(RegisterId::Zero), 0);
    assert_eq!(regs.write(RegisterId::Reg1, 5), Ok(()));
    assert_eq!(regs.read(RegisterId::Zero), 0);
}

#[test]
fn constant_one_register_is_protected() {
    let mut regs = RegisterFile::with_constant_one(4095);
    assert!(regs.has_constant_one());
    assert_eq!(regs.read(RegisterId::Reg1), 1);
    assert_eq!(regs.read(RegisterId::StackPointer), 4095);
    assert_eq!(regs.write(RegisterId::Reg1, 9), Err(ExecutionError::InvalidRegisterWrite));
    assert_eq!(regs.read(RegisterId::Reg1), 1);
    assert_eq!(regs.write(RegisterId::Reg2, 9), Ok(()));
    assert_eq!(regs.read(RegisterId::Reg2), 9);
}
