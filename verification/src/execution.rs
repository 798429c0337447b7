//! The execution engine: the instruction table and the
//! fetch-decode-execute loop.
//!
//! A [`Context`] owns one program (the code buffer), one [`Stack`], one
//! [`Memory`], the program counter, and the termination state. Its whole
//! behaviour is pinned by a mathematical machine: [`State`] is the abstract
//! state, [`spec_step`] is one fetch-decode-execute transition, and
//! [`Context::execute`] is proved to reach exactly the state that iterating
//! [`spec_step`] reaches.
//!
//! Faults never panic and are never papered over: each one moves the
//! machine to `Status::Halted(Halt::Fault(_))` with the specific error
//! kind, and halted states are terminal.
use crate::memory::Memory;
use crate::memory::FMP_SLOT;
use crate::memory::INITIAL_FMP;
use crate::stack::Stack;
use crate::stack::MAX_STACK_SIZE;
use crate::word::word_add;
use crate::word::word_div;
use crate::word::word_mul;
use crate::word::word_quot;
use crate::word::word_sub;
use crate::word::wrap_word;
use crate::word::Word;
use crate::VmError;
use std::collections::HashMap;
use vstd::prelude::*;

verus! {

broadcast use vstd::std_specs::hash::group_hash_axioms;

/// The operation tags the one-byte opcodes resolve to.
#[allow(non_camel_case_types)]
#[derive(Clone, Copy, Debug, PartialEq, Eq, Structural)]
pub enum Opcode {
    STOP,
    ADD,
    MUL,
    SUB,
    DIV,
    POP,
    MLOAD,
    MSTORE,
    PUSH0,
    PUSH1,
    DUP1,
    DUP2,
    RETURN,
}

/// How a halted execution ended: normally, or on a specific fault.
#[derive(Clone, Copy, Debug, PartialEq, Eq, Structural)]
pub enum Halt {
    /// The machine halted normally (STOP, RETURN, an unmapped byte, or the
    /// end of the code buffer).
    Success,
    /// The machine halted on the given fault.
    Fault(VmError),
}

/// The termination state of an execution context. Both halted states are
/// terminal: a halted machine never takes another step.
#[derive(Clone, Copy, Debug, PartialEq, Eq, Structural)]
pub enum Status {
    Running,
    Halted(Halt),
}

/// The abstract state of the machine: what a [`Context`] means,
/// mathematically.
#[verifier::ext_equal]
pub ghost struct State {
    /// Offset of the next byte to fetch from `code`.
    pub pc: int,
    /// The code buffer.
    pub code: Seq<u8>,
    /// The operand stack, bottom first.
    pub stack: Seq<Word>,
    /// The memory contents: exactly the offsets written so far.
    pub mem: Map<u64, Word>,
    /// The free-memory pointer.
    pub fmp: u64,
    /// Running, or halted (normally or on a fault).
    pub status: Status,
    /// Whether a RETURN has set the success flag.
    pub success: bool,
    /// The value a RETURN read back from memory, or zero if none ran.
    pub return_data: Word,
}

impl State {
    /// Whether the machine may still take a step.
    pub open spec fn running(self) -> bool {
        self.status == Status::Running
    }

    /// This state, halted normally; success flag and return data keep
    /// whatever was last set.
    pub open spec fn halt_success(self) -> State {
        State { status: Status::Halted(Halt::Success), ..self }
    }

    /// This state, halted on fault `e`, with the stack as the faulting
    /// operation left it.
    pub open spec fn fault(self, stack: Seq<Word>, e: VmError) -> State {
        State { stack, status: Status::Halted(Halt::Fault(e)), ..self }
    }
}

/// The operation tag a byte resolves to, if the instruction table maps it.
pub open spec fn opcode_of(b: u8) -> Option<Opcode> {
    if b == 0x00 {
        Some(Opcode::STOP)
    } else if b == 0x01 {
        Some(Opcode::ADD)
    } else if b == 0x02 {
        Some(Opcode::MUL)
    } else if b == 0x03 {
        Some(Opcode::SUB)
    } else if b == 0x04 {
        Some(Opcode::DIV)
    } else if b == 0x50 {
        Some(Opcode::POP)
    } else if b == 0x51 {
        Some(Opcode::MLOAD)
    } else if b == 0x52 {
        Some(Opcode::MSTORE)
    } else if b == 0x5f {
        Some(Opcode::PUSH0)
    } else if b == 0x60 {
        Some(Opcode::PUSH1)
    } else if b == 0x80 {
        Some(Opcode::DUP1)
    } else if b == 0x81 {
        Some(Opcode::DUP2)
    } else if b == 0xf3 {
        Some(Opcode::RETURN)
    } else {
        None
    }
}

/// The operation a fetched byte executes as: an unmapped byte is an
/// implicit STOP, never an error.
pub open spec fn decode(b: u8) -> Opcode {
    match opcode_of(b) {
        Some(op) => op,
        None => Opcode::STOP,
    }
}

/// The contents of the instruction table: one entry per mapped byte.
pub open spec fn instruction_table() -> Map<u8, Opcode> {
    Map::<u8, Opcode>::empty().insert(0x00, Opcode::STOP).insert(0x01, Opcode::ADD).insert(
        0x02,
        Opcode::MUL,
    ).insert(0x03, Opcode::SUB).insert(0x04, Opcode::DIV).insert(0x50, Opcode::POP).insert(
        0x51,
        Opcode::MLOAD,
    ).insert(0x52, Opcode::MSTORE).insert(0x5f, Opcode::PUSH0).insert(0x60, Opcode::PUSH1).insert(
        0x80,
        Opcode::DUP1,
    ).insert(0x81, Opcode::DUP2).insert(0xf3, Opcode::RETURN)
}

/// One step of an arithmetic operation: pop `a`, pop `b`, push the result
/// of `op` — or fault, per the engine's asymmetric arithmetic rules.
pub open spec fn step_arith(s: State, op: Opcode) -> State {
    if s.stack.len() == 0 {
        s.fault(s.stack, VmError::StackUnderflow)
    } else {
        let a = s.stack.last();
        let s1 = s.stack.drop_last();
        if s1.len() == 0 {
            s.fault(s1, VmError::StackUnderflow)
        } else {
            let b = s1.last();
            let rest = s1.drop_last();
            match op {
                Opcode::ADD => State {
                    stack: rest.push(wrap_word(a + b) as Word),
                    pc: s.pc + 1,
                    ..s
                },
                Opcode::MUL => State {
                    stack: rest.push(wrap_word(a * b) as Word),
                    pc: s.pc + 1,
                    ..s
                },
                Opcode::SUB => if i64::MIN <= a - b <= i64::MAX {
                    State { stack: rest.push((a - b) as Word), pc: s.pc + 1, ..s }
                } else {
                    s.fault(rest, VmError::ArithmeticUnderflow)
                },
                Opcode::DIV => if b == 0 {
                    s.fault(rest, VmError::DivisionByZero)
                } else if word_quot(a as int, b as int) > i64::MAX {
                    s.fault(rest, VmError::ArithmeticUnderflow)
                } else {
                    State {
                        stack: rest.push(word_quot(a as int, b as int) as Word),
                        pc: s.pc + 1,
                        ..s
                    }
                },
                _ => s,
            }
        }
    }
}

/// One fetch-decode-execute transition of the machine. A halted state is a
/// fixed point: the machine never moves past a halt or a fault.
///
/// RETURN pops an offset and a size but reads back a single word at the
/// offset: word-granular return data is a known, deliberate limitation of
/// this engine, so the size is popped and then ignored.
pub open spec fn spec_step(s: State) -> State {
    if !s.running() {
        s
    } else if s.pc >= s.code.len() {
        s.halt_success()
    } else {
        match decode(s.code[s.pc]) {
            Opcode::STOP => s.halt_success(),
            Opcode::ADD => step_arith(s, Opcode::ADD),
            Opcode::MUL => step_arith(s, Opcode::MUL),
            Opcode::SUB => step_arith(s, Opcode::SUB),
            Opcode::DIV => step_arith(s, Opcode::DIV),
            Opcode::POP => if s.stack.len() == 0 {
                s.fault(s.stack, VmError::StackUnderflow)
            } else {
                State { stack: s.stack.drop_last(), pc: s.pc + 1, ..s }
            },
            Opcode::MLOAD => if s.stack.len() == 0 {
                s.fault(s.stack, VmError::StackUnderflow)
            } else {
                let offset = s.stack.last();
                let s1 = s.stack.drop_last();
                if offset < 0 {
                    s.fault(s1, VmError::UninitializedRead)
                } else if !s.mem.contains_key(offset as u64) {
                    s.fault(s1, VmError::UninitializedRead)
                } else {
                    State { stack: s1.push(s.mem[offset as u64]), pc: s.pc + 1, ..s }
                }
            },
            Opcode::MSTORE => if s.stack.len() == 0 {
                s.fault(s.stack, VmError::StackUnderflow)
            } else {
                let offset = s.stack.last();
                let s1 = s.stack.drop_last();
                if offset < 0 {
                    s.fault(s1, VmError::IndexOutOfRange)
                } else if s1.len() == 0 {
                    s.fault(s1, VmError::StackUnderflow)
                } else {
                    let val = s1.last();
                    State {
                        stack: s1.drop_last(),
                        mem: s.mem.insert(offset as u64, val),
                        pc: s.pc + 1,
                        ..s
                    }
                }
            },
            Opcode::PUSH0 => if s.stack.len() >= MAX_STACK_SIZE {
                s.fault(s.stack, VmError::StackOverflow)
            } else {
                State { stack: s.stack.push(0), pc: s.pc + 1, ..s }
            },
            Opcode::PUSH1 => if s.pc + 1 >= s.code.len() {
                s.fault(s.stack, VmError::TruncatedOperand)
            } else if s.stack.len() >= MAX_STACK_SIZE {
                s.fault(s.stack, VmError::StackOverflow)
            } else {
                State { stack: s.stack.push(s.code[s.pc + 1] as Word), pc: s.pc + 2, ..s }
            },
            Opcode::DUP1 => if s.stack.len() == 0 {
                s.fault(s.stack, VmError::IndexOutOfRange)
            } else if s.stack.len() >= MAX_STACK_SIZE {
                s.fault(s.stack, VmError::StackOverflow)
            } else {
                State { stack: s.stack.push(s.stack[0]), pc: s.pc + 1, ..s }
            },
            Opcode::DUP2 => if s.stack.len() < 2 {
                s.fault(s.stack, VmError::IndexOutOfRange)
            } else if s.stack.len() >= MAX_STACK_SIZE {
                s.fault(s.stack, VmError::StackOverflow)
            } else {
                State { stack: s.stack.push(s.stack[1]), pc: s.pc + 1, ..s }
            },
            Opcode::RETURN => if s.stack.len() == 0 {
                s.fault(s.stack, VmError::StackUnderflow)
            } else {
                let offset = s.stack.last();
                let s1 = s.stack.drop_last();
                if offset < 0 {
                    s.fault(s1, VmError::UninitializedRead)
                } else if s1.len() == 0 {
                    s.fault(s1, VmError::StackUnderflow)
                } else {
                    let s2 = s1.drop_last();
                    if !s.mem.contains_key(offset as u64) {
                        s.fault(s2, VmError::UninitializedRead)
                    } else {
                        State {
                            stack: s2,
                            success: true,
                            return_data: s.mem[offset as u64],
                            status: Status::Halted(Halt::Success),
                            ..s
                        }
                    }
                }
            },
        }
    }
}

/// The machine after `n` transitions from `s`.
pub open spec fn run_n(s: State, n: nat) -> State
    decreases n,
{
    if n == 0 {
        s
    } else {
        spec_step(run_n(s, (n - 1) as nat))
    }
}

/// The state a fresh context starts from: program counter zero, empty
/// stack, the self-describing initial memory, running, with the failure
/// result that holds until a RETURN replaces it.
pub open spec fn initial_state(code: Seq<u8>) -> State {
    State {
        pc: 0,
        code,
        stack: Seq::<Word>::empty(),
        mem: Map::<u64, Word>::empty().insert(FMP_SLOT, INITIAL_FMP as Word),
        fmp: INITIAL_FMP,
        status: Status::Running,
        success: false,
        return_data: 0,
    }
}

/// Builds the instruction table: every implemented operation keyed by its
/// opcode byte. Bytes with no entry are implicit STOPs at dispatch time.
pub fn load_instructions() -> (t: HashMap<u8, Opcode>)
    ensures
        t@ == instruction_table(),
{
    let mut t: HashMap<u8, Opcode> = HashMap::new();
    t.insert(0x00, Opcode::STOP);
    t.insert(0x01, Opcode::ADD);
    t.insert(0x02, Opcode::MUL);
    t.insert(0x03, Opcode::SUB);
    t.insert(0x04, Opcode::DIV);
    t.insert(0x50, Opcode::POP);
    t.insert(0x51, Opcode::MLOAD);
    t.insert(0x52, Opcode::MSTORE);
    t.insert(0x5f, Opcode::PUSH0);
    t.insert(0x60, Opcode::PUSH1);
    t.insert(0x80, Opcode::DUP1);
    t.insert(0x81, Opcode::DUP2);
    t.insert(0xf3, Opcode::RETURN);
    t
}

/// The execution context: one program, one stack, one memory, one run.
pub struct Context {
    pc: usize,
    code: Vec<u8>,
    instruction_set: HashMap<u8, Opcode>,
    stack: Stack,
    memory: Memory,
    status: Status,
    success: bool,
    return_data: Word,
}

impl View for Context {
    type V = State;

    closed spec fn view(&self) -> State {
        State {
            pc: self.pc as int,
            code: self.code@,
            stack: self.stack@,
            mem: self.memory@,
            fmp: self.memory.spec_fmp(),
            status: self.status,
            success: self.success,
            return_data: self.return_data,
        }
    }
}

impl Context {
    /// Well-formedness: the instruction table is the canonical one, the
    /// stack respects its bound, and a running program counter sits within
    /// the code buffer.
    pub closed spec fn wf(&self) -> bool {
        &&& self.instruction_set@ == instruction_table()
        &&& self.stack@.len() <= MAX_STACK_SIZE
        &&& self@.running() ==> self.pc <= self.code@.len()
    }

    /// Creates a fresh context over an already-decoded code buffer.
    pub fn new(code: Vec<u8>) -> (ctx: Context)
        ensures
            ctx.wf(),
            ctx@ == initial_state(code@),
    {
        let ctx = Context {
            pc: 0,
            code,
            instruction_set: load_instructions(),
            stack: Stack::new(),
            memory: Memory::new(),
            status: Status::Running,
            success: false,
            return_data: 0,
        };
        proof {
            assert(ctx@ =~= initial_state(ctx.code@));
        }
        ctx
    }

    /// The execution result: the success flag and the return data, as last
    /// set by a RETURN (failure and zero if none ran).
    pub fn result(&self) -> (r: (bool, Word))
        ensures
            r.0 == self@.success,
            r.1 == self@.return_data,
    {
        (self.success, self.return_data)
    }

    /// The termination state, for inspection: running, halted normally, or
    /// halted on a specific fault.
    pub fn status(&self) -> (st: Status)
        ensures
            st == self@.status,
    {
        self.status
    }

    /// Read-only snapshot of the operand stack, for inspection; never
    /// influences execution.
    pub fn stack(&self) -> (st: &Stack)
        ensures
            st@ == self@.stack,
    {
        &self.stack
    }

    /// Read-only snapshot of the memory, for inspection; never influences
    /// execution.
    pub fn memory(&self) -> (m: &Memory)
        ensures
            m@ == self@.mem,
            m.spec_fmp() == self@.fmp,
    {
        &self.memory
    }

    /// Whether the machine may still take a step.
    fn is_running(&self) -> (b: bool)
        ensures
            b == self@.running(),
    {
        match self.status {
            Status::Running => true,
            _ => false,
        }
    }

    /// Performs one fetch-decode-execute transition: exactly what
    /// [`spec_step`] says. On a halted context this is a no-op.
    #[verifier::rlimit(100)]
    #[verifier::spinoff_prover]
    pub fn execute_opcode(&mut self)
        requires
            old(self).wf(),
        ensures
            final(self).wf(),
            final(self)@ == spec_step(old(self)@),
    {
        if !self.is_running() {
            return;
        }
        if self.pc >= self.code.len() {
            self.status = Status::Halted(Halt::Success);
            return;
        }
        let b = self.code[self.pc];
        let op = match self.instruction_set.get(&b) {
            Some(o) => *o,
            None => Opcode::STOP,
        };
        proof {
            assert(op == decode(old(self)@.code[old(self)@.pc]));
        }
        match op {
            Opcode::STOP => {
                self.status = Status::Halted(Halt::Success);
            },
            Opcode::ADD => {
                let a = match self.stack.pop() {
                    Ok(v) => v,
                    Err(e) => {
                        self.status = Status::Halted(Halt::Fault(e));
                        return;
                    },
                };
                let b2 = match self.stack.pop() {
                    Ok(v) => v,
                    Err(e) => {
                        self.status = Status::Halted(Halt::Fault(e));
                        return;
                    },
                };
                let r = word_add(a, b2);
                match self.stack.push(r) {
                    Ok(_) => {
                        self.pc = self.pc + 1;
                    },
                    Err(e) => {
                        self.status = Status::Halted(Halt::Fault(e));
                    },
                }
            },
            Opcode::MUL => {
                let a = match self.stack.pop() {
                    Ok(v) => v,
                    Err(e) => {
                        self.status = Status::Halted(Halt::Fault(e));
                        return;
                    },
                };
                let b2 = match self.stack.pop() {
                    Ok(v) => v,
                    Err(e) => {
                        self.status = Status::Halted(Halt::Fault(e));
                        return;
                    },
                };
                let r = word_mul(a, b2);
                match self.stack.push(r) {
                    Ok(_) => {
                        self.pc = self.pc + 1;
                    },
                    Err(e) => {
                        self.status = Status::Halted(Halt::Fault(e));
                    },
                }
            },
            Opcode::SUB => {
                let a = match self.stack.pop() {
                    Ok(v) => v,
                    Err(e) => {
                        self.status = Status::Halted(Halt::Fault(e));
                        return;
                    },
                };
                let b2 = match self.stack.pop() {
                    Ok(v) => v,
                    Err(e) => {
                        self.status = Status::Halted(Halt::Fault(e));
                        return;
                    },
                };
                match word_sub(a, b2) {
                    Ok(r) => {
                        match self.stack.push(r) {
                            Ok(_) => {
                                self.pc = self.pc + 1;
                            },
                            Err(e) => {
                                self.status = Status::Halted(Halt::Fault(e));
                            },
                        }
                    },
                    Err(e) => {
                        self.status = Status::Halted(Halt::Fault(e));
                    },
                }
            },
            Opcode::DIV => {
                let a = match self.stack.pop() {
                    Ok(v) => v,
                    Err(e) => {
                        self.status = Status::Halted(Halt::Fault(e));
                        return;
                    },
                };
                let b2 = match self.stack.pop() {
                    Ok(v) => v,
                    Err(e) => {
                        self.status = Status::Halted(Halt::Fault(e));
                        return;
                    },
                };
                match word_div(a, b2) {
                    Ok(r) => {
                        match self.stack.push(r) {
                            Ok(_) => {
                                self.pc = self.pc + 1;
                            },
                            Err(e) => {
                                self.status = Status::Halted(Halt::Fault(e));
                            },
                        }
                    },
                    Err(e) => {
                        self.status = Status::Halted(Halt::Fault(e));
                    },
                }
            },
            Opcode::POP => {
                match self.stack.pop() {
                    Ok(_) => {
                        self.pc = self.pc + 1;
                    },
                    Err(e) => {
                        self.status = Status::Halted(Halt::Fault(e));
                    },
                }
            },
            Opcode::MLOAD => {
                let offset = match self.stack.pop() {
                    Ok(v) => v,
                    Err(e) => {
                        self.status = Status::Halted(Halt::Fault(e));
                        return;
                    },
                };
                if offset < 0 {
                    self.status = Status::Halted(Halt::Fault(VmError::UninitializedRead));
                    return;
                }
                match self.memory.load(offset as u64) {
                    Ok(v) => {
                        match self.stack.push(v) {
                            Ok(_) => {
                                self.pc = self.pc + 1;
                            },
                            Err(e) => {
                                self.status = Status::Halted(Halt::Fault(e));
                            },
                        }
                    },
                    Err(e) => {
                        self.status = Status::Halted(Halt::Fault(e));
                    },
                }
            },
            Opcode::MSTORE => {
                let offset = match self.stack.pop() {
                    Ok(v) => v,
                    Err(e) => {
                        self.status = Status::Halted(Halt::Fault(e));
                        return;
                    },
                };
                if offset < 0 {
                    self.status = Status::Halted(Halt::Fault(VmError::IndexOutOfRange));
                    return;
                }
                let val = match self.stack.pop() {
                    Ok(v) => v,
                    Err(e) => {
                        self.status = Status::Halted(Halt::Fault(e));
                        return;
                    },
                };
                self.memory.store_at(offset as u64, val);
                self.pc = self.pc + 1;
            },
            Opcode::PUSH0 => {
                match self.stack.push(0) {
                    Ok(_) => {
                        self.pc = self.pc + 1;
                    },
                    Err(e) => {
                        self.status = Status::Halted(Halt::Fault(e));
                    },
                }
            },
            Opcode::PUSH1 => {
                if self.pc + 1 >= self.code.len() {
                    self.status = Status::Halted(Halt::Fault(VmError::TruncatedOperand));
                    return;
                }
                let data = self.code[self.pc + 1];
                match self.stack.push(data as Word) {
                    Ok(_) => {
                        self.pc = self.pc + 2;
                    },
                    Err(e) => {
                        self.status = Status::Halted(Halt::Fault(e));
                    },
                }
            },
            Opcode::DUP1 => {
                let item = match self.stack.get(0) {
                    Ok(v) => v,
                    Err(e) => {
                        self.status = Status::Halted(Halt::Fault(e));
                        return;
                    },
                };
                match self.stack.push(item) {
                    Ok(_) => {
                        self.pc = self.pc + 1;
                    },
                    Err(e) => {
                        self.status = Status::Halted(Halt::Fault(e));
                    },
                }
            },
            Opcode::DUP2 => {
                let item = match self.stack.get(1) {
                    Ok(v) => v,
                    Err(e) => {
                        self.status = Status::Halted(Halt::Fault(e));
                        return;
                    },
                };
                match self.stack.push(item) {
                    Ok(_) => {
                        self.pc = self.pc + 1;
                    },
                    Err(e) => {
                        self.status = Status::Halted(Halt::Fault(e));
                    },
                }
            },
            Opcode::RETURN => {
                let offset = match self.stack.pop() {
                    Ok(v) => v,
                    Err(e) => {
                        self.status = Status::Halted(Halt::Fault(e));
                        return;
                    },
                };
                if offset < 0 {
                    self.status = Status::Halted(Halt::Fault(VmError::UninitializedRead));
                    return;
                }
                let _size = match self.stack.pop() {
                    Ok(v) => v,
                    Err(e) => {
                        self.status = Status::Halted(Halt::Fault(e));
                        return;
                    },
                };
                match self.memory.load(offset as u64) {
                    Ok(v) => {
                        self.return_data = v;
                        self.success = true;
                        self.status = Status::Halted(Halt::Success);
                    },
                    Err(e) => {
                        self.status = Status::Halted(Halt::Fault(e));
                    },
                }
            },
        }
    }

    /// Runs the fetch-decode-execute loop to termination: the final state
    /// is a halted iterate of [`spec_step`] from the starting state.
    pub fn execute(&mut self)
        requires
            old(self).wf(),
        ensures
            final(self).wf(),
            !final(self)@.running(),
            exists|n: nat| final(self)@ == run_n(old(self)@, n),
    {
        let ghost s0 = self@;
        let ghost mut steps: nat = 0;
        while self.is_running()
            invariant
                self.wf(),
                self@ == run_n(s0, steps),
            decreases (if self@.running() {
                self@.code.len() - self@.pc + 1
            } else {
                0
            }),
        {
            self.execute_opcode();
            proof {
                steps = steps + 1;
                assert(self@ == run_n(s0, steps));
            }
        }
        proof {
            assert(self@ == run_n(s0, steps));
        }
    }
}

} // verus!
