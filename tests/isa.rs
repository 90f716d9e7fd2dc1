use pipeline_emulator::error::ExecutionError;
use pipeline_emulator::isa::{
    convert_imm16, convert_imm26, uses_format_i, uses_format_j, uses_format_r, Function,
    Instruction, InstructionArguments, OpCode, RegisterId, OP_ARITHMETIC, OP_BRANCH, OP_HALT,
    OP_JUMP, OP_JUMP_REGISTER, OP_LOAD, OP_NO_OP, OP_SET_HIGH, OP_SET_LOW, OP_STORE,
};

#[test]
fn sign_extension_of_16_bit_immediates() {
    assert_eq!(convert_imm16(0xFFFF), -1);
    assert_eq!(convert_imm16(0x8000), -32768);
    assert_eq!(convert_imm16(0x7FFF), 32767);
    assert_eq!(convert_imm16(0x0001), 1);
    // Bits above 15 are ignored.
    assert_eq!(convert_imm16(0xABCD_FFFE), -2);
}

#[test]
fn sign_extension_of_26_bit_immediates() {
    assert_eq!(convert_imm26(0x3FF_FFFF), -1);
    assert_eq!(convert_imm26(0x200_0000), -0x200_0000);
    assert_eq!(convert_imm26(0x1FF_FFFF), 0x1FF_FFFF);
    assert_eq!(convert_imm26(0xFC00_0004), 4);
}

#[test]
fn formats_of_opcodes() {
    assert!(uses_format_r(OP_ARITHMETIC));
    assert!(!uses_format_r(OP_LOAD));
    assert!(uses_format_j(OP_JUMP));
    assert!(!uses_format_j(OP_JUMP_REGISTER));
    assert!(uses_format_i(OP_STORE));
    assert!(uses_format_i(OP_HALT));
    assert!(!uses_format_i(OP_ARITHMETIC));
    assert!(!uses_format_i(OP_JUMP));
}

#[test]
fn decode_splits_register_format_fields() {
    // op 0, rs 3, rt 4, rd 5, shamt 7, funct 1 (sub)
    let word = (3 << 21) | (4 << 16) | (5 << 11) | (7 << 6) | 1;
    let ins = Instruction::decode(word).unwrap();
    assert_eq!(ins.op_code, OpCode::ArithmeticLogic);
    assert_eq!(
        ins.arguments,
        InstructionArguments::Register {
            register_s: RegisterId::Reg3,
            register_t: RegisterId::Reg4,
            register_d: RegisterId::Reg5,
            shift_amount: 7,
            function: Function::Sub,
        }
    );
}

#[test]
fn decode_splits_immediate_and_jump_fields() {
    let word = (OP_LOAD << 26) | (31 << 21) | (30 << 16) | 0xFFFC;
    let ins = Instruction::decode(word).unwrap();
    assert_eq!(ins.op_code, OpCode::Load);
    assert_eq!(
        ins.arguments,
        InstructionArguments::Immediate {
            register_s: RegisterId::StackPointer,
            register_t: RegisterId::BasePointer,
            immediate: 0xFFFC,
        }
    );
    let jump = Instruction::decode((OP_JUMP << 26) | 0x3FF_FFF0).unwrap();
    assert_eq!(jump.op_code, OpCode::Jump);
    assert_eq!(jump.arguments, InstructionArguments::Jump { address: 0x3FF_FFF0 });
}

#[test]
fn decode_rejects_unknown_opcodes_and_functions() {
    assert_eq!(Instruction::decode(0x08 << 26), Err(ExecutionError::InvalidOpcode(0x08)));
    assert_eq!(Instruction::decode(0x3D << 26), Err(ExecutionError::InvalidOpcode(0x3D)));
    assert_eq!(Instruction::decode(16), Err(ExecutionError::InvalidFunction(16)));
    assert_eq!(Instruction::decode(31), Err(ExecutionError::InvalidFunction(31)));
}

#[test]
fn encode_of_decode_gives_the_word_back_for_every_opcode() {
    let words = [
        (OP_ARITHMETIC << 26) | (1 << 21) | (2 << 16) | (3 << 11) | (9 << 6) | 15,
        (OP_SET_HIGH << 26) | (0 << 21) | (7 << 16) | 0xBEEF,
        (OP_SET_LOW << 26) | (0 << 21) | (1 << 16) | 0x00FF,
        (OP_LOAD << 26) | (2 << 21) | (3 << 16) | 0x8000,
        (OP_STORE << 26) | (1 << 21) | (0 << 16) | 0x0004,
        (OP_BRANCH << 26) | (5 << 21) | 0xFFF0,
        (OP_JUMP_REGISTER << 26) | (31 << 21),
        (OP_JUMP << 26) | 0x2AA_AAAA,
        OP_HALT << 26,
        (OP_NO_OP << 26) | 0x12_3456,
    ];
    for word in words {
        let ins = Instruction::decode(word).unwrap();
        assert_eq!(ins.encode(), word, "word {:#010x}", word);
    }
}

#[test]
fn encode_packs_fields() {
    let ins = Instruction {
        op_code: OpCode::Store,
        arguments: InstructionArguments::Immediate {
            register_s: RegisterId::Reg1,
            register_t: RegisterId::Zero,
            immediate: 0,
        },
    };
    assert_eq!(ins.encode(), 0x1020_0000);
    assert_eq!(OpCode::Halt.code(), 0x3E);
    assert_eq!(OpCode::from_code(0x3F), Some(OpCode::NoOp));
    assert_eq!(OpCode::from_code(0x20), None);
    assert_eq!(Function::Ne.code(), 15);
    assert_eq!(Function::from_code(8), Some(Function::Sar));
    assert_eq!(RegisterId::from_index(31), RegisterId::StackPointer);
    assert_eq!(RegisterId::BasePointer.index(), 30);
}

#[test]
fn decode_of_encode_gives_the_instruction_back() {
    let instructions = [
        Instruction {
            op_code: OpCode::ArithmeticLogic,
            arguments: InstructionArguments::Register {
                register_s: RegisterId::Reg29,
                register_t: RegisterId::BasePointer,
                register_d: RegisterId::Reg2,
                shift_amount: 31,
                function: Function::GtU,
            },
        },
        Instruction {
            op_code: OpCode::Branch,
            arguments: InstructionArguments::Immediate {
                register_s: RegisterId::Reg9,
                register_t: RegisterId::Zero,
                immediate: 0xFFFE,
            },
        },
        Instruction {
            op_code: OpCode::Jump,
            arguments: InstructionArguments::Jump { address: 0x3FF_FFFF },
        },
    ];
    for ins in instructions {
        assert_eq!(Instruction::decode(ins.encode()), Ok(ins));
    }
}
