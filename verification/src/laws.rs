//! Laws of the machine: properties of [`spec_step`] and [`run_n`] that
//! hold for every program, stated once and proved.
//!
//! [`Context::execute`] promises a halted iterate of [`spec_step`]; the
//! lemmas here pin that iterate down ([`lemma_halted_run_unique`]) and
//! state what it looks like for whole families of programs, such as any
//! balanced sequence of pushes and pops ([`lemma_push_pop_balanced`]).
use crate::execution::initial_state;
use crate::execution::run_n;
use crate::execution::spec_step;
use crate::execution::Halt;
use crate::execution::State;
use crate::execution::Status;
use crate::stack::MAX_STACK_SIZE;
use crate::word::wrap_word;
use crate::word::Word;
use crate::VmError;
use vstd::prelude::*;

verus! {

/// Running `a + b` steps is running `a` steps, then `b` more.
pub proof fn lemma_run_n_add(s: State, a: nat, b: nat)
    ensures
        run_n(s, a + b) == run_n(run_n(s, a), b),
    decreases b,
{
    if b > 0 {
        lemma_run_n_add(s, a, (b - 1) as nat);
    }
}

/// Running `n` steps is one step, then `n - 1` more.
pub proof fn lemma_run_n_front(s: State, n: nat)
    requires
        n >= 1,
    ensures
        run_n(s, n) == run_n(spec_step(s), (n - 1) as nat),
    decreases n,
{
    if n == 1 {
        assert(run_n(s, 1) == spec_step(run_n(s, 0)));
        assert(run_n(spec_step(s), 0) == spec_step(s));
    } else {
        lemma_run_n_front(s, (n - 1) as nat);
        assert(run_n(s, n) == spec_step(run_n(s, (n - 1) as nat)));
        assert(run_n(spec_step(s), (n - 1) as nat) == spec_step(
            run_n(spec_step(s), (n - 2) as nat),
        ));
    }
}

/// A halted state is terminal: no number of further steps changes it.
pub proof fn lemma_halted_stable(s: State, n: nat)
    requires
        !s.running(),
    ensures
        run_n(s, n) == s,
    decreases n,
{
    if n > 0 {
        lemma_halted_stable(s, (n - 1) as nat);
    }
}

/// The machine is deterministic and halts are terminal, so any two halted
/// iterates from the same start are the same state: the halted state
/// [`Context::execute`] promises is unique.
pub proof fn lemma_halted_run_unique(s: State, n1: nat, n2: nat)
    requires
        !run_n(s, n1).running(),
        !run_n(s, n2).running(),
    ensures
        run_n(s, n1) == run_n(s, n2),
{
    if n1 <= n2 {
        lemma_run_n_add(s, n1, (n2 - n1) as nat);
        lemma_halted_stable(run_n(s, n1), (n2 - n1) as nat);
    } else {
        lemma_run_n_add(s, n2, (n1 - n2) as nat);
        lemma_halted_stable(run_n(s, n2), (n1 - n2) as nat);
    }
}

/// A program counter at or past the end of the code buffer halts the
/// machine normally, with the prior success flag and return data kept
/// unchanged.
pub proof fn lemma_past_end_halts_unchanged(s: State)
    requires
        s.running(),
        s.pc >= s.code.len(),
    ensures
        spec_step(s) == s.halt_success(),
        spec_step(s).status == Status::Halted(Halt::Success),
        spec_step(s).success == s.success,
        spec_step(s).return_data == s.return_data,
        spec_step(s).stack == s.stack,
        spec_step(s).mem == s.mem,
{
}

/// A PUSH1 sitting at the last byte of the code buffer, with no operand
/// byte following it, faults with `TruncatedOperand`.
pub proof fn lemma_truncated_push_faults(s: State)
    requires
        s.running(),
        0 <= s.pc,
        s.pc == s.code.len() - 1,
        s.code[s.pc] == 0x60u8,
    ensures
        spec_step(s).status == Status::Halted(Halt::Fault(VmError::TruncatedOperand)),
{
}

/// DIV with a zero divisor faults with `DivisionByZero`, whatever the
/// dividend and whatever else is on the stack.
pub proof fn lemma_div_by_zero_faults(s: State, base: Seq<Word>, a: Word)
    requires
        s.running(),
        0 <= s.pc < s.code.len(),
        s.code[s.pc] == 0x04u8,
        s.stack == base.push(0).push(a),
    ensures
        spec_step(s).status == Status::Halted(Halt::Fault(VmError::DivisionByZero)),
{
    assert(s.stack.drop_last() =~= base.push(0));
}

/// ADD and MUL always push the mathematical result reduced modulo
/// `WORD_MAX`, for any two operands.
pub proof fn lemma_add_mul_wrap(s: State, base: Seq<Word>, a: Word, b: Word)
    requires
        s.running(),
        0 <= s.pc < s.code.len(),
        s.code[s.pc] == 0x01u8 || s.code[s.pc] == 0x02u8,
        s.stack == base.push(b).push(a),
    ensures
        spec_step(s).running(),
        spec_step(s).pc == s.pc + 1,
        s.code[s.pc] == 0x01u8 ==> spec_step(s).stack == base.push(wrap_word(a + b) as Word),
        s.code[s.pc] == 0x02u8 ==> spec_step(s).stack == base.push(wrap_word(a * b) as Word),
{
    assert(s.stack.drop_last() =~= base.push(b));
    assert(s.stack.drop_last().drop_last() =~= base);
}

/// MLOAD of an offset never written — including an offset no memory cell
/// can have — faults with `UninitializedRead`.
pub proof fn lemma_mload_uninitialized_faults(s: State, base: Seq<Word>, offset: Word)
    requires
        s.running(),
        0 <= s.pc < s.code.len(),
        s.code[s.pc] == 0x51u8,
        s.stack == base.push(offset),
        offset >= 0 ==> !s.mem.contains_key(offset as u64),
    ensures
        spec_step(s).status == Status::Halted(Halt::Fault(VmError::UninitializedRead)),
{
}

/// MSTORE of `v` at a non-negative `offset` followed directly by MLOAD of
/// the same `offset` leaves exactly `v` on top of the stack, for any
/// offset, any representable `v`, and any prior memory contents.
pub proof fn lemma_mstore_then_mload(s: State, base: Seq<Word>, offset: Word, v: Word)
    requires
        s.running(),
        0 <= s.pc,
        s.pc + 2 <= s.code.len(),
        s.code[s.pc] == 0x52u8,
        s.code[s.pc + 1] == 0x51u8,
        offset >= 0,
        s.stack == base.push(offset).push(v).push(offset),
        s.stack.len() <= MAX_STACK_SIZE,
    ensures
        ({
            let t = run_n(s, 2);
            &&& t.running()
            &&& t.pc == s.pc + 2
            &&& t.stack == base.push(v)
            &&& t.stack.last() == v
            &&& t.mem == s.mem.insert(offset as u64, v)
        }),
{
    assert(s.stack.drop_last() =~= base.push(offset).push(v));
    assert(s.stack.drop_last().drop_last() =~= base.push(offset));
    let s1 = spec_step(s);
    assert(s1.stack =~= base.push(offset));
    assert(s1.stack.drop_last() =~= base);
    lemma_run_n_front(s, 2);
    let t = run_n(s, 2);
    assert(run_n(s1, 1) == spec_step(run_n(s1, 0)));
    assert(t == spec_step(s1));
    assert(t.stack =~= base.push(v));
}

/// `code[pc..]` begins with `k` push instructions: each a PUSH0, or a
/// PUSH1 together with its inline operand byte.
pub open spec fn pushes_from(code: Seq<u8>, pc: int, k: nat) -> bool
    decreases k,
{
    k > 0 ==> {
        &&& 0 <= pc < code.len()
        &&& ((code[pc] == 0x5fu8 && pushes_from(code, pc + 1, (k - 1) as nat)) || (code[pc]
            == 0x60u8 && pc + 1 < code.len() && pushes_from(code, pc + 2, (k - 1) as nat)))
    }
}

/// The program counter just past those `k` push instructions.
pub open spec fn pushes_end(code: Seq<u8>, pc: int, k: nat) -> int
    decreases k,
{
    if k == 0 {
        pc
    } else if 0 <= pc < code.len() && code[pc] == 0x5fu8 {
        pushes_end(code, pc + 1, (k - 1) as nat)
    } else {
        pushes_end(code, pc + 2, (k - 1) as nat)
    }
}

/// Executing `k` push instructions takes one step each: the machine stays
/// running, the stack deepens by exactly `k` with its old contents intact
/// underneath, and nothing else changes.
pub proof fn lemma_pushes_execute(s: State, k: nat)
    requires
        s.running(),
        0 <= s.pc <= s.code.len(),
        pushes_from(s.code, s.pc, k),
        s.stack.len() + k <= MAX_STACK_SIZE,
    ensures
        ({
            let t = run_n(s, k);
            &&& t.running()
            &&& t.code == s.code
            &&& t.pc == pushes_end(s.code, s.pc, k)
            &&& t.pc <= s.code.len()
            &&& t.stack.len() == s.stack.len() + k
            &&& t.stack.subrange(0, s.stack.len() as int) == s.stack
            &&& t.mem == s.mem
            &&& t.fmp == s.fmp
            &&& t.success == s.success
            &&& t.return_data == s.return_data
        }),
    decreases k,
{
    if k == 0 {
        assert(run_n(s, 0).stack.subrange(0, s.stack.len() as int) =~= s.stack);
    } else {
        let s1 = spec_step(s);
        assert(s1.running());
        assert(s1.stack.len() == s.stack.len() + 1);
        lemma_run_n_front(s, k);
        lemma_pushes_execute(s1, (k - 1) as nat);
        let t = run_n(s, k);
        assert(t.stack.subrange(0, s.stack.len() as int) =~= s.stack) by {
            assert(t.stack.subrange(0, s1.stack.len() as int) == s1.stack);
            assert forall|i: int| 0 <= i < s.stack.len() implies t.stack[i] == s.stack[i] by {
                assert(t.stack.subrange(0, s1.stack.len() as int)[i] == t.stack[i]);
                assert(s1.stack[i] == s.stack[i]);
            }
        }
    }
}

/// Executing `k` POP instructions takes one step each: the machine stays
/// running, the top `k` values leave the stack, and nothing else changes.
pub proof fn lemma_pops_execute(s: State, k: nat)
    requires
        s.running(),
        0 <= s.pc,
        s.pc + k <= s.code.len(),
        forall|i: int| s.pc <= i < s.pc + k ==> s.code[i] == 0x50u8,
        s.stack.len() >= k,
    ensures
        ({
            let t = run_n(s, k);
            &&& t.running()
            &&& t.code == s.code
            &&& t.pc == s.pc + k
            &&& t.stack == s.stack.subrange(0, s.stack.len() - k)
            &&& t.mem == s.mem
            &&& t.fmp == s.fmp
            &&& t.success == s.success
            &&& t.return_data == s.return_data
        }),
    decreases k,
{
    if k == 0 {
        assert(run_n(s, 0).stack =~= s.stack.subrange(0, s.stack.len() as int));
    } else {
        let s1 = spec_step(s);
        assert(s1.running());
        assert(s1.stack == s.stack.drop_last());
        lemma_run_n_front(s, k);
        lemma_pops_execute(s1, (k - 1) as nat);
        let t = run_n(s, k);
        assert(t.stack =~= s.stack.subrange(0, s.stack.len() - k));
    }
}

/// Any balanced program — `k` pushes (PUSH0 or PUSH1 with its operand, `k`
/// at most the stack bound) followed by `k` POPs — runs from a fresh start
/// to a normal halt with an empty stack and no fault, whatever the pushed
/// values. The halted state reached by any number of steps is that one.
pub proof fn lemma_push_pop_balanced(code: Seq<u8>, k: nat)
    requires
        k <= MAX_STACK_SIZE,
        pushes_from(code, 0, k),
        pushes_end(code, 0, k) + k == code.len(),
        forall|i: int| pushes_end(code, 0, k) <= i < code.len() ==> code[i] == 0x50u8,
    ensures
        ({
            let t = run_n(initial_state(code), k + k + 1);
            &&& t.status == Status::Halted(Halt::Success)
            &&& t.stack.len() == 0
            &&& !t.success
            &&& t.return_data == 0
        }),
        forall|n: nat|
            !(#[trigger] run_n(initial_state(code), n)).running() ==> run_n(
                initial_state(code),
                n,
            ) == run_n(initial_state(code), k + k + 1),
{
    let s0 = initial_state(code);
    lemma_pushes_execute(s0, k);
    let s1 = run_n(s0, k);
    lemma_run_n_add(s0, k, k);
    lemma_pops_execute(s1, k);
    let s2 = run_n(s0, k + k);
    assert(s2.stack =~= Seq::<Word>::empty());
    lemma_run_n_add(s0, k + k, 1);
    lemma_past_end_halts_unchanged(s2);
    let t = run_n(s0, k + k + 1);
    assert(t == spec_step(s2));
    assert forall|n: nat| !(#[trigger] run_n(s0, n)).running() implies run_n(s0, n) == run_n(
        s0,
        k + k + 1,
    ) by {
        lemma_halted_run_unique(s0, n, k + k + 1);
    }
}

} // verus!
