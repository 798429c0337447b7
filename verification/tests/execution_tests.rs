use vm_core::execution::Context;
use vm_core::execution::Halt;
use vm_core::execution::Opcode;
use vm_core::execution::Status;
use vm_core::execution::load_instructions;
use vm_core::VmError;

fn run(code: Vec<u8>) -> Context {
    let mut ctx = Context::new(code);
    ctx.execute();
    ctx
}

fn fault_of(ctx: &Context) -> Option<VmError> {
    match ctx.status() {
        Status::Halted(Halt::Fault(e)) => Some(e),
        _ => None,
    }
}

#[test]
fn end_to_end_arithmetic_store_and_return() {
    // PUSH1 0x25, PUSH1 0x05, PUSH1 0x89, PUSH1 0x2C, ADD, MUL, SUB,
    // PUSH1 0x00, MSTORE, PUSH1 0x01, PUSH1 0x00, RETURN:
    // computes 5 * (0x89 + 0x2C) - 0x25 = 5 * 181 - 37 = 868.
    let code = vec![
        0x60, 0x25, 0x60, 0x05, 0x60, 0x89, 0x60, 0x2c, 0x01, 0x02, 0x03, 0x60, 0x00, 0x52, 0x60,
        0x01, 0x60, 0x00, 0xf3,
    ];
    let ctx = run(code);
    assert_eq!(ctx.status(), Status::Halted(Halt::Success));
    assert_eq!(ctx.result(), (true, 868));
}

#[test]
fn empty_code_halts_successfully_with_default_result() {
    let ctx = run(vec![]);
    assert_eq!(ctx.status(), Status::Halted(Halt::Success));
    assert_eq!(ctx.result(), (false, 0));
}

#[test]
fn running_past_the_end_keeps_prior_result() {
    let ctx = run(vec![0x60, 0x05]);
    assert_eq!(ctx.status(), Status::Halted(Halt::Success));
    assert_eq!(ctx.result(), (false, 0));
    assert_eq!(ctx.stack().len(), 1);
    assert_eq!(ctx.stack().get(0), Ok(5));
}

#[test]
fn unmapped_byte_is_an_implicit_stop() {
    let ctx = run(vec![0x60, 0x01, 0x53, 0x60, 0x02]);
    assert_eq!(ctx.status(), Status::Halted(Halt::Success));
    assert_eq!(ctx.result(), (false, 0));
    assert_eq!(ctx.stack().len(), 1);
}

#[test]
fn stop_halts_before_later_code() {
    let ctx = run(vec![0x00, 0x60, 0x07]);
    assert_eq!(ctx.status(), Status::Halted(Halt::Success));
    assert_eq!(ctx.stack().len(), 0);
}

#[test]
fn balanced_pushes_and_pops_leave_an_empty_stack() {
    // PUSH0, PUSH1 0x07, PUSH0, POP, POP, POP
    let ctx = run(vec![0x5f, 0x60, 0x07, 0x5f, 0x50, 0x50, 0x50]);
    assert_eq!(ctx.status(), Status::Halted(Halt::Success));
    assert_eq!(ctx.stack().len(), 0);
    assert_eq!(ctx.result(), (false, 0));
}

#[test]
fn push1_without_operand_faults_truncated() {
    let ctx = run(vec![0x60]);
    assert_eq!(fault_of(&ctx), Some(VmError::TruncatedOperand));
    let ctx2 = run(vec![0x5f, 0x60]);
    assert_eq!(fault_of(&ctx2), Some(VmError::TruncatedOperand));
}

#[test]
fn pop_on_empty_stack_faults_underflow() {
    let ctx = run(vec![0x50]);
    assert_eq!(fault_of(&ctx), Some(VmError::StackUnderflow));
}

#[test]
fn add_on_short_stack_faults_underflow() {
    let ctx = run(vec![0x60, 0x01, 0x01]);
    assert_eq!(fault_of(&ctx), Some(VmError::StackUnderflow));
}

#[test]
fn too_many_pushes_fault_overflow() {
    let ctx = run(vec![0x5f; 1025]);
    assert_eq!(fault_of(&ctx), Some(VmError::StackOverflow));
    assert_eq!(ctx.stack().len(), 1024);
}

#[test]
fn exactly_max_depth_pushes_succeed() {
    let ctx = run(vec![0x5f; 1024]);
    assert_eq!(ctx.status(), Status::Halted(Halt::Success));
    assert_eq!(ctx.stack().len(), 1024);
}

#[test]
fn mstore_then_mload_returns_the_stored_value() {
    // PUSH1 0x07, PUSH1 0x10, MSTORE, PUSH1 0x10, MLOAD
    let ctx = run(vec![0x60, 0x07, 0x60, 0x10, 0x52, 0x60, 0x10, 0x51]);
    assert_eq!(ctx.status(), Status::Halted(Halt::Success));
    assert_eq!(ctx.stack().len(), 1);
    assert_eq!(ctx.stack().get(0), Ok(7));
    assert_eq!(ctx.memory().load(0x10), Ok(7));
}

#[test]
fn mload_of_unwritten_offset_faults() {
    let ctx = run(vec![0x60, 0x10, 0x51]);
    assert_eq!(fault_of(&ctx), Some(VmError::UninitializedRead));
}

#[test]
fn mload_of_negative_offset_faults() {
    // PUSH1 0x05, PUSH1 0x07, SUB leaves -2; MLOAD of it faults.
    let ctx = run(vec![0x60, 0x07, 0x60, 0x05, 0x03, 0x51]);
    assert_eq!(fault_of(&ctx), Some(VmError::UninitializedRead));
}

#[test]
fn mstore_at_negative_offset_faults() {
    // PUSH1 0x09 (value), then SUB makes -2 as the offset.
    let ctx = run(vec![0x60, 0x09, 0x60, 0x07, 0x60, 0x05, 0x03, 0x52]);
    assert_eq!(fault_of(&ctx), Some(VmError::IndexOutOfRange));
}

#[test]
fn add_pushes_the_sum() {
    let ctx = run(vec![0x60, 0x02, 0x60, 0x03, 0x01]);
    assert_eq!(ctx.stack().get(0), Ok(5));
}

#[test]
fn mul_pushes_the_product() {
    // The classic: 6 * 7.
    let ctx = run(vec![0x60, 0x06, 0x60, 0x07, 0x02]);
    assert_eq!(ctx.stack().get(0), Ok(42));
}

#[test]
fn sub_may_go_negative_without_wrapping() {
    // a = 5 (top), b = 7: pushes 5 - 7 = -2.
    let ctx = run(vec![0x60, 0x07, 0x60, 0x05, 0x03]);
    assert_eq!(ctx.status(), Status::Halted(Halt::Success));
    assert_eq!(ctx.stack().get(0), Ok(-2));
}

#[test]
fn div_truncates_and_faults_on_zero() {
    // a = 7 (top), b = 2: pushes 3.
    let ctx = run(vec![0x60, 0x02, 0x60, 0x07, 0x04]);
    assert_eq!(ctx.stack().get(0), Ok(3));
    // a = 7 (top), b = 0: division by zero.
    let ctx2 = run(vec![0x60, 0x00, 0x60, 0x07, 0x04]);
    assert_eq!(fault_of(&ctx2), Some(VmError::DivisionByZero));
}

#[test]
fn dup1_copies_the_bottom_of_the_stack() {
    let ctx = run(vec![0x60, 0x05, 0x60, 0x07, 0x80]);
    assert_eq!(ctx.stack().len(), 3);
    assert_eq!(ctx.stack().get(2), Ok(5));
}

#[test]
fn dup2_copies_position_one() {
    let ctx = run(vec![0x60, 0x05, 0x60, 0x07, 0x81]);
    assert_eq!(ctx.stack().len(), 3);
    assert_eq!(ctx.stack().get(2), Ok(7));
}

#[test]
fn dup_beyond_depth_faults() {
    let ctx = run(vec![0x80]);
    assert_eq!(fault_of(&ctx), Some(VmError::IndexOutOfRange));
    let ctx2 = run(vec![0x60, 0x01, 0x81]);
    assert_eq!(fault_of(&ctx2), Some(VmError::IndexOutOfRange));
}

#[test]
fn return_of_unwritten_offset_faults() {
    // PUSH1 0x01 (size), PUSH1 0x10 (offset), RETURN
    let ctx = run(vec![0x60, 0x01, 0x60, 0x10, 0xf3]);
    assert_eq!(fault_of(&ctx), Some(VmError::UninitializedRead));
    assert_eq!(ctx.result(), (false, 0));
}

#[test]
fn return_halts_before_later_code() {
    // Store 9 at 0, return it; a later PUSH1 must not run.
    let ctx = run(vec![
        0x60, 0x09, 0x60, 0x00, 0x52, 0x60, 0x01, 0x60, 0x00, 0xf3, 0x60, 0x55,
    ]);
    assert_eq!(ctx.status(), Status::Halted(Halt::Success));
    assert_eq!(ctx.result(), (true, 9));
    assert_eq!(ctx.stack().len(), 0);
}

#[test]
fn instruction_table_maps_every_opcode() {
    let t = load_instructions();
    assert_eq!(t.get(&0x00), Some(&Opcode::STOP));
    assert_eq!(t.get(&0x01), Some(&Opcode::ADD));
    assert_eq!(t.get(&0x02), Some(&Opcode::MUL));
    assert_eq!(t.get(&0x03), Some(&Opcode::SUB));
    assert_eq!(t.get(&0x04), Some(&Opcode::DIV));
    assert_eq!(t.get(&0x50), Some(&Opcode::POP));
    assert_eq!(t.get(&0x51), Some(&Opcode::MLOAD));
    assert_eq!(t.get(&0x52), Some(&Opcode::MSTORE));
    assert_eq!(t.get(&0x5f), Some(&Opcode::PUSH0));
    assert_eq!(t.get(&0x60), Some(&Opcode::PUSH1));
    assert_eq!(t.get(&0x80), Some(&Opcode::DUP1));
    assert_eq!(t.get(&0x81), Some(&Opcode::DUP2));
    assert_eq!(t.get(&0xf3), Some(&Opcode::RETURN));
    assert_eq!(t.get(&0x53), None);
    assert_eq!(t.len(), 13);
}

#[test]
fn single_opcode_steps_can_be_driven_by_hand() {
    let mut ctx = Context::new(vec![0x5f, 0x00]);
    assert_eq!(ctx.status(), Status::Running);
    ctx.execute_opcode();
    assert_eq!(ctx.status(), Status::Running);
    assert_eq!(ctx.stack().len(), 1);
    ctx.execute_opcode();
    assert_eq!(ctx.status(), Status::Halted(Halt::Success));
    // A halted context takes no further steps.
    ctx.execute_opcode();
    assert_eq!(ctx.status(), Status::Halted(Halt::Success));
    assert_eq!(ctx.stack().len(), 1);
}
