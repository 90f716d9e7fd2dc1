use pipeline_emulator::error::ExecutionError;
use pipeline_emulator::isa::{
    RegisterId, FUNC_ADD, OP_ARITHMETIC, OP_BRANCH, OP_HALT, OP_JUMP, OP_JUMP_REGISTER, OP_LOAD,
    OP_NO_OP, OP_SET_HIGH, OP_SET_LOW, OP_STORE,
};
use pipeline_emulator::processor::{alu, Processor};
use pipeline_emulator::isa::Function;

fn arith(funct: u32, rd: u32, rs: u32, rt: u32) -> u32 {
    (OP_ARITHMETIC << 26) | (rs << 21) | (rt << 16) | (rd << 11) | funct
}

fn imm(op: u32, rs: u32, rt: u32, value: u16) -> u32 {
    (op << 26) | (rs << 21) | (rt << 16) | value as u32
}

fn nop() -> u32 {
    OP_NO_OP << 26
}

/// The program, then no-ops up to `len` words.
fn image(program: &[u32], len: usize) -> Vec<u8> {
    let mut words = program.to_vec();
    while words.len() < len {
        words.push(nop());
    }
    words.iter().flat_map(|w| w.to_be_bytes()).collect()
}

fn reg(p: &Processor, index: u32) -> u32 {
    p.register(RegisterId::from_index(index))
}

fn ticks(p: &mut Processor, n: usize) {
    for _ in 0..n {
        p.tick().unwrap();
    }
}

#[test]
fn set_low_then_store_byte_end_to_end() {
    let program = [
        imm(OP_SET_LOW, 0, 1, 0xFF),
        nop(),
        nop(),
        nop(),
        nop(),
        nop(),
        imm(OP_STORE, 1, 0, 0),
    ];
    let mut cpu = Processor::new(image(&program, 13), 4096, 0);
    ticks(&mut cpu, 12);
    assert_eq!(cpu.ram()[0], 0xFF);
    assert_eq!(reg(&cpu, 1), 0xFF);
}

#[test]
fn load_result_visible_only_after_write_back() {
    let program = [
        imm(OP_LOAD, 0, 1, 0),
        nop(),
        nop(),
        nop(),
        arith(FUNC_ADD, 2, 1, 0),
    ];
    let mut cpu = Processor::with_data(image(&program, 16), vec![0x42, 0, 0, 0], 0);
    ticks(&mut cpu, 4);
    assert_eq!(reg(&cpu, 1), 0);
    ticks(&mut cpu, 1);
    assert_eq!(reg(&cpu, 1), 0x42);
    ticks(&mut cpu, 3);
    assert_eq!(reg(&cpu, 2), 0);
    ticks(&mut cpu, 1);
    assert_eq!(reg(&cpu, 2), 0x42);
}

#[test]
fn reader_within_three_fetches_sees_stale_value() {
    let program = [imm(OP_LOAD, 0, 1, 0), nop(), nop(), arith(FUNC_ADD, 2, 1, 0)];
    let mut cpu = Processor::with_data(image(&program, 16), vec![0x42], 0);
    ticks(&mut cpu, 12);
    assert_eq!(reg(&cpu, 1), 0x42);
    assert_eq!(reg(&cpu, 2), 0);
}

#[test]
fn load_sign_extends_the_byte() {
    let program = [imm(OP_LOAD, 0, 3, 1)];
    let mut cpu = Processor::with_data(image(&program, 8), vec![0, 0x80], 0);
    ticks(&mut cpu, 5);
    assert_eq!(reg(&cpu, 3), 0xFFFF_FF80);
}

fn branch_program(condition: u16) -> Vec<u8> {
    let program = [
        imm(OP_SET_LOW, 0, 1, condition),
        nop(),
        nop(),
        nop(),
        imm(OP_BRANCH, 1, 0, 16), // at 16: target 20 + 16 = 36
        imm(OP_SET_LOW, 0, 2, 1),
        imm(OP_SET_LOW, 0, 3, 1),
        imm(OP_SET_LOW, 0, 4, 1),
        imm(OP_SET_LOW, 0, 5, 1), // at 32: skipped when taken
        imm(OP_SET_LOW, 0, 6, 1), // at 36
    ];
    image(&program, 24)
}

#[test]
fn taken_branch_redirects_after_three_delay_slots() {
    let mut cpu = Processor::new(branch_program(1), 16, 0);
    ticks(&mut cpu, 5);
    assert_eq!(cpu.fetch_latch().unwrap().address, 16);
    let mut fetched = vec![];
    for _ in 0..4 {
        cpu.tick().unwrap();
        fetched.push(cpu.fetch_latch().unwrap().address);
    }
    assert_eq!(fetched, vec![20, 24, 28, 36]);
    ticks(&mut cpu, 6);
    assert_eq!([reg(&cpu, 2), reg(&cpu, 3), reg(&cpu, 4)], [1, 1, 1]);
    assert_eq!(reg(&cpu, 5), 0);
    assert_eq!(reg(&cpu, 6), 1);
}

#[test]
fn untaken_branch_keeps_the_fetch_order() {
    let mut cpu = Processor::new(branch_program(0), 16, 0);
    let mut fetched = vec![];
    for _ in 0..10 {
        cpu.tick().unwrap();
        fetched.push(cpu.fetch_latch().unwrap().address);
    }
    assert_eq!(fetched, vec![0, 4, 8, 12, 16, 20, 24, 28, 32, 36]);
    ticks(&mut cpu, 5);
    assert_eq!(reg(&cpu, 5), 1);
    assert_eq!(reg(&cpu, 6), 1);
}

#[test]
fn jump_and_jump_register() {
    let program = [
        (OP_JUMP << 26) | 12, // at 0: target 4 + 12 = 16
        nop(),
        nop(),
        nop(),
        imm(OP_SET_LOW, 0, 7, 40), // at 16
        nop(),
        nop(),
        nop(),
        imm(OP_JUMP_REGISTER, 7, 0, 0), // at 32: target $7 = 40
        nop(),
        nop(),
        nop(),
    ];
    let mut cpu = Processor::new(image(&program, 16), 0, 0);
    ticks(&mut cpu, 4);
    assert_eq!(cpu.program_counter(), 16);
    ticks(&mut cpu, 4);
    assert_eq!(cpu.program_counter(), 32);
    ticks(&mut cpu, 4);
    assert_eq!(cpu.program_counter(), 40);
    let mut back = Processor::new(image(&[nop(), nop(), (OP_JUMP << 26) | 0x3FF_FFF4], 8), 0, 0);
    ticks(&mut back, 6);
    assert_eq!(back.program_counter(), 0);
}

#[test]
fn set_high_and_set_low_patch_half_words() {
    let program = [
        imm(OP_SET_HIGH, 0, 1, 0xDEAD),
        nop(),
        nop(),
        nop(),
        imm(OP_SET_LOW, 0, 1, 0xBEEF),
    ];
    let mut cpu = Processor::new(image(&program, 12), 0, 0);
    ticks(&mut cpu, 5);
    assert_eq!(reg(&cpu, 1), 0xDEAD_0000);
    ticks(&mut cpu, 4);
    assert_eq!(reg(&cpu, 1), 0xDEAD_BEEF);
}

#[test]
fn halt_flag_is_set_in_memory_stage_and_stays() {
    let mut cpu = Processor::new(image(&[OP_HALT << 26], 16), 0, 0);
    ticks(&mut cpu, 3);
    assert!(!cpu.is_halted());
    ticks(&mut cpu, 1);
    assert!(cpu.is_halted());
    for _ in 0..5 {
        cpu.tick().unwrap();
        assert!(cpu.is_halted());
    }
}

#[test]
fn fetch_past_the_program_store_faults() {
    let mut cpu = Processor::new(vec![], 0, 0);
    assert_eq!(
        cpu.tick(),
        Err(ExecutionError::AddressOutOfBounds { address: 0, memory_size: 0 })
    );
    let mut cpu = Processor::new(image(&[nop()], 1), 0, 2);
    assert_eq!(
        cpu.tick(),
        Err(ExecutionError::AddressOutOfBounds { address: 2, memory_size: 4 })
    );
    assert_eq!(cpu.program_counter(), 2);
}

#[test]
fn invalid_opcode_aborts_the_tick_unchanged() {
    let mut cpu = Processor::new(image(&[0x08 << 26], 4), 0, 0);
    cpu.tick().unwrap();
    assert_eq!(cpu.tick(), Err(ExecutionError::InvalidOpcode(0x08)));
    assert_eq!(cpu.program_counter(), 4);
    assert_eq!(cpu.fetch_latch().unwrap().address, 0);
    assert!(cpu.decode_latch().is_none());
}

#[test]
fn invalid_function_aborts_the_tick() {
    let mut cpu = Processor::new(image(&[arith(20, 1, 0, 0)], 4), 0, 0);
    cpu.tick().unwrap();
    assert_eq!(cpu.tick(), Err(ExecutionError::InvalidFunction(20)));
}

#[test]
fn load_past_the_data_store_faults() {
    let mut cpu = Processor::new(image(&[imm(OP_LOAD, 0, 1, 8)], 8), 8, 0);
    ticks(&mut cpu, 3);
    assert_eq!(
        cpu.tick(),
        Err(ExecutionError::AddressOutOfBounds { address: 8, memory_size: 8 })
    );
}

#[test]
fn store_past_the_data_store_faults_without_writing() {
    let mut cpu = Processor::new(image(&[imm(OP_STORE, 0, 0, 0xFFFF)], 8), 8, 0);
    ticks(&mut cpu, 3);
    assert_eq!(
        cpu.tick(),
        Err(ExecutionError::AddressOutOfBounds { address: 0xFFFF_FFFF, memory_size: 8 })
    );
    assert_eq!(cpu.ram(), &vec![0u8; 8]);
}

#[test]
fn write_back_to_register_zero_faults() {
    let mut cpu = Processor::new(image(&[arith(FUNC_ADD, 0, 1, 1)], 8), 0, 0);
    ticks(&mut cpu, 4);
    assert_eq!(cpu.tick(), Err(ExecutionError::InvalidRegisterWrite));
    assert!(cpu.memory_latch().is_some());
}

#[test]
fn constant_one_machine() {
    let mut cpu = Processor::with_constant_one(image(&[imm(OP_SET_LOW, 0, 1, 7)], 8), 64, 0);
    assert_eq!(reg(&cpu, 1), 1);
    assert_eq!(reg(&cpu, 31), 63);
    ticks(&mut cpu, 4);
    assert_eq!(cpu.tick(), Err(ExecutionError::InvalidRegisterWrite));
    assert_eq!(reg(&cpu, 1), 1);
}

#[test]
fn alu_operations() {
    assert_eq!(alu(Function::Add, 0xFFFF_FFFF, 2), 1);
    assert_eq!(alu(Function::Sub, 1, 2), 0xFFFF_FFFF);
    assert_eq!(alu(Function::And, 0b1100, 0b1010), 0b1000);
    assert_eq!(alu(Function::Or, 0b1100, 0b1010), 0b1110);
    assert_eq!(alu(Function::Xor, 0b1100, 0b1010), 0b0110);
    assert_eq!(alu(Function::Shl, 1, 33), 2);
    assert_eq!(alu(Function::Sal, 0x4000_0001, 1), 0x8000_0002);
    assert_eq!(alu(Function::Shr, 0x8000_0000, 4), 0x0800_0000);
    assert_eq!(alu(Function::Sar, 0x8000_0000, 4), 0xF800_0000);
    assert_eq!(alu(Function::Sar, 0x7000_0000, 36), 0x0700_0000);
    assert_eq!(alu(Function::Not, 0x0F0F_0F0F, 0), 0xF0F0_F0F0);
    assert_eq!(alu(Function::LtS, 0xFFFF_FFFF, 0), 1);
    assert_eq!(alu(Function::LtS, 0, 0xFFFF_FFFF), 0);
    assert_eq!(alu(Function::GtS, 0, 0xFFFF_FFFF), 1);
    assert_eq!(alu(Function::LtU, 0, 0xFFFF_FFFF), 1);
    assert_eq!(alu(Function::GtU, 0, 0xFFFF_FFFF), 0);
    assert_eq!(alu(Function::Eq, 5, 5), 1);
    assert_eq!(alu(Function::Ne, 5, 5), 0);
}
