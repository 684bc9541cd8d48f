//! The fetch-decode unit and the execution engine.
//!
//! A run starts from an empty stack with the program counter at offset
//! zero. Each step either decodes one record and applies its stack effect,
//! halts (program counter exactly at the image's end), or faults; a fault
//! is terminal. Jump targets are validated lazily: a target is checked
//! when the next fetch reaches it, so a jump outside the image or onto a
//! byte that does not decode is reported at that fetch, while a target
//! landing inside a record whose bytes happen to decode runs as whatever
//! they decode to. The mathematical model is the small-step function
//! [`machine_step`] and its bounded iteration [`run_n`], against which the
//! engine is verified.

use vstd::prelude::*;
use crate::bytecode::{
    arity, decode_op, lemma_decode_encode, lemma_word_round_trip, op_byte, record_bytes,
    record_len, word_le_bytes, word_of_le, ByteCode, OpCode, WORD_SIZE,
};

verus! {

/// Every way a run can fail. The first two arise while decoding a record,
/// the last two while applying an instruction's stack effect.
#[derive(Debug, Clone, Copy, PartialEq, Eq, Structural)]
pub enum VmError {
    /// The byte at the program counter is not in the opcode catalog, or the
    /// program counter lies outside the image.
    InvalidOpcode,
    /// Fewer bytes remain in the image than the opcode's operands require.
    TruncatedOperand,
    /// A pop or in-place update was attempted on an empty stack.
    StackUnderflow,
    /// A load or store index is not below the current stack length.
    InvalidIndex,
}

/// Where a run stands: still going, ended at the image's end, or ended by
/// an error.
#[derive(Debug, Clone, Copy, PartialEq, Eq, Structural)]
pub enum VmStatus {
    Running,
    Halted,
    Faulted(VmError),
}

/// The mathematical state of the machine: the stack contents, the program
/// counter, and every output byte emitted so far.
pub struct MachineState {
    pub stack: Seq<u64>,
    pub pc: int,
    pub out: Seq<u8>,
}

impl MachineState {
    /// The state a run starts from: empty stack, program counter zero, no
    /// output.
    pub open spec fn init() -> MachineState {
        MachineState { stack: Seq::empty(), pc: 0, out: Seq::empty() }
    }
}

/// What fetching at a given offset yields: one decoded record, the end of
/// the image, or a decode error.
pub enum FetchSpec {
    /// A decoded record: its opcode, its operand word (zero when the opcode
    /// takes none), and the offset of the following record.
    Instr { op: OpCode, arg: u64, next: int },
    /// The program counter sits exactly at the image's end.
    End,
    /// The record at the program counter cannot be decoded.
    Bad(VmError),
}

/// Decode one record at offset `pc` of `img`. The program counter is valid
/// only at the image's end (halt) or at a decodable record start; anything
/// else is a fault, detected here rather than trusted.
pub open spec fn fetch_spec(img: Seq<u8>, pc: int) -> FetchSpec {
    if pc == img.len() {
        FetchSpec::End
    } else if !(0 <= pc < img.len()) {
        FetchSpec::Bad(VmError::InvalidOpcode)
    } else {
        match decode_op(img[pc]) {
            None => FetchSpec::Bad(VmError::InvalidOpcode),
            Some(op) => {
                if pc + record_len(op) <= img.len() {
                    (FetchSpec::Instr {
                        op,
                        arg: if arity(op) == 1 {
                            word_of_le(img.subrange(pc + 1, pc + 1 + WORD_SIZE))
                        } else {
                            0
                        },
                        next: pc + record_len(op),
                    })
                } else {
                    FetchSpec::Bad(VmError::TruncatedOperand)
                }
            },
        }
    }
}

/// Addition modulo the word width.
pub open spec fn word_add(a: u64, b: u64) -> u64 {
    ((a + b) % 0x1_0000_0000_0000_0000) as u64
}

/// Decrement wrapping at zero.
pub open spec fn word_dec(a: u64) -> u64 {
    if a == 0 {
        u64::MAX
    } else {
        (a - 1) as u64
    }
}

/// The low eight bits of a word, as the byte the `SysOut` instruction
/// emits.
pub open spec fn low_byte(a: u64) -> u8 {
    (a % 256) as u8
}

/// The stack effect of one decoded instruction. Takes the stack, the
/// fall-through program counter `pc`, and the operand word `arg` (ignored
/// by zero-operand opcodes); yields the new stack, the new program counter
/// and the emitted output bytes, or the error that ends the run. A failed
/// instruction changes nothing.
pub open spec fn dispatch_spec(op: OpCode, arg: u64, stack: Seq<u64>, pc: int) -> Result<
    (Seq<u64>, int, Seq<u8>),
    VmError,
> {
    match op {
        OpCode::PushConst => Ok((stack.push(arg), pc, Seq::empty())),
        OpCode::TosDown => if stack.len() > 0 {
            Ok((stack.drop_last(), pc, Seq::empty()))
        } else {
            Err(VmError::StackUnderflow)
        },
        OpCode::DecStack => if stack.len() > 0 {
            Ok((stack.update(stack.len() - 1, word_dec(stack.last())), pc, Seq::empty()))
        } else {
            Err(VmError::StackUnderflow)
        },
        OpCode::WrapAddStack => if stack.len() >= 2 {
            Ok(
                (
                    stack.drop_last().drop_last().push(
                        word_add(stack[stack.len() - 1], stack[stack.len() - 2]),
                    ),
                    pc,
                    Seq::empty(),
                ),
            )
        } else {
            Err(VmError::StackUnderflow)
        },
        OpCode::SysOut => if stack.len() > 0 {
            Ok((stack.drop_last(), pc, seq![low_byte(stack.last())]))
        } else {
            Err(VmError::StackUnderflow)
        },
        OpCode::Load => if (arg as int) < stack.len() {
            Ok((stack.push(stack[arg as int]), pc, Seq::empty()))
        } else {
            Err(VmError::InvalidIndex)
        },
        OpCode::Store => if stack.len() == 0 {
            Err(VmError::StackUnderflow)
        } else if (arg as int) >= stack.len() {
            Err(VmError::InvalidIndex)
        } else {
            Ok((stack.update(arg as int, stack.last()).drop_last(), pc, Seq::empty()))
        },
        OpCode::JmpTo => Ok((stack, arg as int, Seq::empty())),
        OpCode::IfNzJmp => if stack.len() > 0 {
            Ok(
                (
                    stack.drop_last(),
                    if stack.last() != 0 {
                        arg as int
                    } else {
                        pc
                    },
                    Seq::empty(),
                ),
            )
        } else {
            Err(VmError::StackUnderflow)
        },
    }
}

/// The outcome of one whole machine step.
pub enum StepSpec {
    /// The machine decoded and applied one record.
    Next(MachineState),
    /// The program counter sits at the image's end: a normal halt.
    Halt,
    /// The step failed, in decode or in dispatch. The state is unchanged
    /// from before the step.
    Fault(VmError),
}

/// One fetch-decode-execute step of the machine on state `s`.
pub open spec fn machine_step(img: Seq<u8>, s: MachineState) -> StepSpec {
    match fetch_spec(img, s.pc) {
        FetchSpec::End => StepSpec::Halt,
        FetchSpec::Bad(e) => StepSpec::Fault(e),
        FetchSpec::Instr { op, arg, next } => match dispatch_spec(op, arg, s.stack, next) {
            Ok((stack, pc, emitted)) => StepSpec::Next(
                MachineState { stack, pc, out: s.out + emitted },
            ),
            Err(e) => StepSpec::Fault(e),
        },
    }
}

/// Where a bounded run stands after at most `n` steps.
pub enum RunState {
    /// The step budget ran out with the machine still going.
    Partial(MachineState),
    /// The machine halted normally in this state.
    Halted(MachineState),
    /// The machine faulted, with the state from just before the failed
    /// step.
    Faulted(MachineState, VmError),
}

/// Run the machine from state `s` for at most `n` steps.
pub open spec fn run_n(img: Seq<u8>, s: MachineState, n: nat) -> RunState
    decreases n,
{
    if n == 0 {
        RunState::Partial(s)
    } else {
        match machine_step(img, s) {
            StepSpec::Halt => RunState::Halted(s),
            StepSpec::Fault(e) => RunState::Faulted(s, e),
            StepSpec::Next(s2) => run_n(img, s2, (n - 1) as nat),
        }
    }
}

/// Extending a still-running bounded run by one step applies exactly one
/// more machine step.
pub proof fn lemma_run_extend(img: Seq<u8>, s0: MachineState, n: nat, s: MachineState)
    requires
        run_n(img, s0, n) == RunState::Partial(s),
    ensures
        (machine_step(img, s) matches StepSpec::Next(s2) ==> run_n(img, s0, n + 1)
            == RunState::Partial(s2)),
        (machine_step(img, s) matches StepSpec::Halt ==> run_n(img, s0, n + 1) == RunState::Halted(
            s,
        )),
        (machine_step(img, s) matches StepSpec::Fault(e) ==> run_n(img, s0, n + 1)
            == RunState::Faulted(s, e)),
    decreases n,
{
    if n == 0 {
        assert(s0 == s);
        match machine_step(img, s) {
            StepSpec::Next(s2) => {
                assert(run_n(img, s0, n + 1) == run_n(img, s2, 0));
            },
            StepSpec::Halt => {
                assert(run_n(img, s0, n + 1) == RunState::Halted(s));
            },
            StepSpec::Fault(e) => {
                assert(run_n(img, s0, n + 1) == RunState::Faulted(s, e));
            },
        }
    } else {
        match machine_step(img, s0) {
            StepSpec::Next(s1) => {
                assert(run_n(img, s1, (n - 1) as nat) == RunState::Partial(s));
                lemma_run_extend(img, s1, (n - 1) as nat, s);
                assert(run_n(img, s0, n + 1) == run_n(img, s1, n));
            },
            StepSpec::Halt => {
                assert(run_n(img, s0, n) == RunState::Halted(s0));
            },
            StepSpec::Fault(e) => {
                assert(run_n(img, s0, n) == RunState::Faulted(s0, e));
            },
        }
    }
}

/// Once a bounded run has halted or faulted, a larger step budget gives
/// the same outcome: the result of a finished run does not depend on the
/// budget.
pub proof fn lemma_run_done_stable(img: Seq<u8>, s0: MachineState, n: nat, m: nat)
    requires
        n <= m,
        !(run_n(img, s0, n) matches RunState::Partial(_)),
    ensures
        run_n(img, s0, m) == run_n(img, s0, n),
    decreases n,
{
    if n == 0 {
    } else {
        match machine_step(img, s0) {
            StepSpec::Next(s1) => {
                lemma_run_done_stable(img, s1, (n - 1) as nat, (m - 1) as nat);
            },
            StepSpec::Halt => {},
            StepSpec::Fault(_) => {},
        }
    }
}

/// Round trip: wherever an image holds the encoding of an instruction,
/// fetching at the record's start offset yields the same opcode, the same
/// operand word, and the offset just past the record.
pub proof fn lemma_record_round_trip(img: Seq<u8>, off: int, op: OpCode, arg: u64)
    requires
        0 <= off,
        off + record_len(op) <= img.len(),
        img.subrange(off, off + record_len(op)) == record_bytes(op, arg),
    ensures
        fetch_spec(img, off) == (FetchSpec::Instr {
            op,
            arg: if arity(op) == 1 {
                arg
            } else {
                0
            },
            next: off + record_len(op),
        }),
{
    let rec = img.subrange(off, off + record_len(op));
    assert(img[off] == rec[0]);
    assert(rec[0] == op_byte(op));
    lemma_decode_encode(op);
    if arity(op) == 1 {
        let w = img.subrange(off + 1, off + 1 + WORD_SIZE);
        assert(w =~= word_le_bytes(arg)) by {
            assert forall|i: int| 0 <= i < 8 implies w[i] == word_le_bytes(arg)[i] by {
                assert(w[i] == rec[i + 1]);
                assert(rec[i + 1] == word_le_bytes(arg)[i]);
            }
        }
        lemma_word_round_trip(arg);
    }
}

/// A record whose opcode asks for an operand word that the image is too
/// short to hold decodes as `TruncatedOperand`: a truncated trailing
/// operand is reported, never read past the buffer.
pub proof fn lemma_truncated_operand(img: Seq<u8>, off: int, op: OpCode)
    requires
        0 <= off < img.len(),
        decode_op(img[off]) == Some(op),
        arity(op) >= 1,
        off + record_len(op) > img.len(),
    ensures
        fetch_spec(img, off) == FetchSpec::Bad(VmError::TruncatedOperand),
{
}

/// What the most recent fetch produced: the decoded opcode (`None` after a
/// halt or a failed fetch), its operand words, and the decode error if the
/// fetch failed.
pub struct VmParserResult {
    pub code: Option<OpCode>,
    pub args: [u64; 1],
    pub fault: Option<VmError>,
}

/// The fetch-decode unit: walks the image one record at a time, leaving
/// each decoded instruction in `res_buf`.
pub struct VmParser<'a> {
    /// The sealed image being decoded.
    pub bytecode: ByteCode<'a>,
    /// The byte offset of the next record to decode.
    pub next_code_offset: u64,
    /// The outcome of the most recent fetch.
    pub res_buf: VmParserResult,
}

impl<'a> VmParser<'a> {
    /// Start decoding an image from offset zero.
    pub fn new(bytecode: ByteCode<'a>) -> (r: Self)
        ensures
            r.bytecode@ == bytecode@,
            r.next_code_offset == 0,
            r.res_buf.code is None,
            r.res_buf.fault is None,
            r.res_buf.args[0] == 0,
    {
        VmParser {
            bytecode,
            next_code_offset: 0,
            res_buf: VmParserResult { code: None, args: [0], fault: None },
        }
    }

    /// Decode the record at the current offset, exactly as [`fetch_spec`]
    /// describes: on success `res_buf` holds the opcode and its operands
    /// and the offset advances past the record; at the image's end and on
    /// a decode error `res_buf.code` is cleared and the offset stays, with
    /// `res_buf.fault` telling the two apart.
    pub fn parse_next(&mut self)
        ensures
            final(self).bytecode == old(self).bytecode,
            match fetch_spec(old(self).bytecode@, old(self).next_code_offset as int) {
                FetchSpec::End => {
                    &&& final(self).res_buf.code is None
                    &&& final(self).res_buf.fault is None
                    &&& final(self).next_code_offset == old(self).next_code_offset
                    &&& final(self).res_buf.args == old(self).res_buf.args
                },
                FetchSpec::Bad(e) => {
                    &&& final(self).res_buf.code is None
                    &&& final(self).res_buf.fault == Some(e)
                    &&& final(self).next_code_offset == old(self).next_code_offset
                    &&& final(self).res_buf.args == old(self).res_buf.args
                },
                FetchSpec::Instr { op, arg, next } => {
                    &&& final(self).res_buf.code == Some(op)
                    &&& final(self).res_buf.fault is None
                    &&& final(self).next_code_offset as int == next
                    &&& (arity(op) == 1 ==> final(self).res_buf.args[0] == arg)
                    &&& (arity(op) == 0 ==> final(self).res_buf.args == old(self).res_buf.args)
                },
            },
    {
        let len = self.bytecode.bytes_len();
        if self.next_code_offset == len as u64 {
            self.res_buf.code = None;
            self.res_buf.fault = None;
            return ;
        }
        match self.bytecode.read_op_code_at(self.next_code_offset) {
            None => {
                self.res_buf.code = None;
                self.res_buf.fault = Some(VmError::InvalidOpcode);
            },
            Some(op) => {
                if op.word_args() == 0 {
                    self.next_code_offset = self.next_code_offset + 1;
                    self.res_buf.code = Some(op);
                    self.res_buf.fault = None;
                } else {
                    match self.bytecode.read_word_at(self.next_code_offset + 1) {
                        Some(w) => {
                            self.res_buf.args = [w];
                            self.next_code_offset = self.next_code_offset + 1 + WORD_SIZE as u64;
                            self.res_buf.code = Some(op);
                            self.res_buf.fault = None;
                        },
                        None => {
                            self.res_buf.code = None;
                            self.res_buf.fault = Some(VmError::TruncatedOperand);
                        },
                    }
                }
            },
        }
    }
}

/// Addition modulo the word width, never overflowing.
fn wrap_add(a: u64, b: u64) -> (r: u64)
    ensures
        r == word_add(a, b),
{
    if b <= u64::MAX - a {
        assert(a + b < 0x1_0000_0000_0000_0000);
        a + b
    } else {
        assert(a - (u64::MAX - b) - 1 == a + b - 0x1_0000_0000_0000_0000);
        a - (u64::MAX - b) - 1
    }
}

/// The execution engine: owns the run's stack, output and status, and
/// drives a fetch-decode unit over one image.
pub struct Vm<'a> {
    /// The operand stack, which doubles as the machine's flat addressable
    /// storage.
    pub stack: Vec<u64>,
    /// Reserved for future stack-frame support; no instruction reads or
    /// writes it.
    pub bp: u64,
    /// The fetch-decode unit for this run's image.
    pub parser: VmParser<'a>,
    /// Every byte emitted by `SysOut` so far, in order.
    pub out: Vec<u8>,
    /// Whether the run is still going, halted normally, or faulted.
    pub status: VmStatus,
}

impl<'a> Vm<'a> {
    /// The mathematical state this engine is in.
    pub open spec fn machine(self) -> MachineState {
        MachineState {
            stack: self.stack@,
            pc: self.parser.next_code_offset as int,
            out: self.out@,
        }
    }

    /// Apply the most recently fetched instruction, consuming it from the
    /// fetch buffer, and report whether the run goes on. A fetched
    /// instruction is dispatched exactly as [`dispatch_spec`] describes; a
    /// fetch fault or a dispatch error moves the status to `Faulted`
    /// leaving stack and output as they were, and an empty fetch buffer
    /// after a clean fetch means the image's end was reached, moving the
    /// status to `Halted`.
    pub fn take_do_parsed(&mut self) -> (r: bool)
        requires
            old(self).status is Running,
        ensures
            final(self).parser.bytecode == old(self).parser.bytecode,
            final(self).parser.res_buf.code is None,
            match (old(self).parser.res_buf.fault, old(self).parser.res_buf.code) {
                (Some(e), _) => {
                    &&& r == false
                    &&& final(self).status == VmStatus::Faulted(e)
                    &&& final(self).stack == old(self).stack
                    &&& final(self).out == old(self).out
                },
                (None, None) => {
                    &&& r == false
                    &&& final(self).status == VmStatus::Halted
                    &&& final(self).stack == old(self).stack
                    &&& final(self).out == old(self).out
                    &&& final(self).parser.next_code_offset == old(self).parser.next_code_offset
                },
                (None, Some(op)) => match dispatch_spec(
                    op,
                    old(self).parser.res_buf.args[0],
                    old(self).stack@,
                    old(self).parser.next_code_offset as int,
                ) {
                    Ok(effect) => {
                        &&& r == true
                        &&& final(self).status is Running
                        &&& final(self).stack@ == effect.0
                        &&& final(self).parser.next_code_offset as int == effect.1
                        &&& final(self).out@ == old(self).out@ + effect.2
                    },
                    Err(e) => {
                        &&& r == false
                        &&& final(self).status == VmStatus::Faulted(e)
                        &&& final(self).stack == old(self).stack
                        &&& final(self).out == old(self).out
                    },
                },
            },
    {
        if let Some(e) = self.parser.res_buf.fault {
            self.parser.res_buf.code = None;
            self.status = VmStatus::Faulted(e);
            return false;
        }
        let code = self.parser.res_buf.code;
        self.parser.res_buf.code = None;
        let op = match code {
            None => {
                self.status = VmStatus::Halted;
                return false;
            },
            Some(op) => op,
        };
        let arg = self.parser.res_buf.args[0];
        match op {
            OpCode::PushConst => {
                self.stack.push(arg);
                true
            },
            OpCode::TosDown => {
                if self.stack.len() > 0 {
                    self.stack.pop();
                    true
                } else {
                    self.status = VmStatus::Faulted(VmError::StackUnderflow);
                    false
                }
            },
            OpCode::DecStack => {
                let n = self.stack.len();
                if n > 0 {
                    let v = self.stack[n - 1];
                    let dec = if v == 0 {
                        u64::MAX
                    } else {
                        v - 1
                    };
                    self.stack.set(n - 1, dec);
                    true
                } else {
                    self.status = VmStatus::Faulted(VmError::StackUnderflow);
                    false
                }
            },
            OpCode::WrapAddStack => {
                if self.stack.len() >= 2 {
                    let a = self.stack.pop().unwrap();
                    let b = self.stack.pop().unwrap();
                    self.stack.push(wrap_add(a, b));
                    true
                } else {
                    self.status = VmStatus::Faulted(VmError::StackUnderflow);
                    false
                }
            },
            OpCode::SysOut => {
                if self.stack.len() > 0 {
                    let v = self.stack.pop().unwrap();
                    self.out.push((v % 256) as u8);
                    true
                } else {
                    self.status = VmStatus::Faulted(VmError::StackUnderflow);
                    false
                }
            },
            OpCode::Load => {
                if arg < self.stack.len() as u64 {
                    let v = self.stack[arg as usize];
                    self.stack.push(v);
                    true
                } else {
                    self.status = VmStatus::Faulted(VmError::InvalidIndex);
                    false
                }
            },
            OpCode::Store => {
                let n = self.stack.len();
                if n == 0 {
                    self.status = VmStatus::Faulted(VmError::StackUnderflow);
                    false
                } else if arg >= n as u64 {
                    self.status = VmStatus::Faulted(VmError::InvalidIndex);
                    false
                } else {
                    let top = self.stack[n - 1];
                    self.stack.set(arg as usize, top);
                    self.stack.pop();
                    true
                }
            },
            OpCode::JmpTo => {
                self.parser.next_code_offset = arg;
                true
            },
            OpCode::IfNzJmp => {
                if self.stack.len() > 0 {
                    let v = self.stack.pop().unwrap();
                    if v != 0 {
                        self.parser.next_code_offset = arg;
                    }
                    true
                } else {
                    self.status = VmStatus::Faulted(VmError::StackUnderflow);
                    false
                }
            },
        }
    }

    /// Run a fresh engine over the image for at most `max_steps`
    /// instructions. The returned engine is exactly the machine that
    /// [`run_n`] reaches from the initial state under that budget: halted
    /// at the image's end, faulted with the error of the failed step and
    /// the stack and output from just before it, or still running with the
    /// budget spent.
    pub fn new_run(bytecode: ByteCode<'a>, max_steps: u64) -> (r: Vm<'a>)
        ensures
            r.parser.bytecode@ == bytecode@,
            match run_n(bytecode@, MachineState::init(), max_steps as nat) {
                RunState::Partial(s) => r.status is Running && r.machine() == s,
                RunState::Halted(s) => r.status is Halted && r.machine() == s,
                RunState::Faulted(s, e) => {
                    &&& r.status == VmStatus::Faulted(e)
                    &&& r.stack@ == s.stack
                    &&& r.out@ == s.out
                },
            },
    {
        let ghost img = bytecode@;
        let ghost start = MachineState::init();
        let mut vm = Vm {
            stack: Vec::new(),
            bp: 0,
            parser: VmParser::new(bytecode),
            out: Vec::new(),
            status: VmStatus::Running,
        };
        let mut steps: u64 = 0;
        assert(vm.machine() == start);
        loop
            invariant_except_break
                vm.status is Running,
                run_n(img, start, steps as nat) == RunState::Partial(vm.machine()),
            invariant
                steps <= max_steps,
                vm.parser.bytecode@ == img,
                start == MachineState::init(),
            ensures
                vm.parser.bytecode@ == img,
                match run_n(img, start, max_steps as nat) {
                    RunState::Partial(s) => vm.status is Running && vm.machine() == s,
                    RunState::Halted(s) => vm.status is Halted && vm.machine() == s,
                    RunState::Faulted(s, e) => {
                        &&& vm.status == VmStatus::Faulted(e)
                        &&& vm.stack@ == s.stack
                        &&& vm.out@ == s.out
                    },
                },
            decreases max_steps - steps,
        {
            if steps == max_steps {
                break ;
            }
            let ghost pre = vm.machine();
            vm.parser.parse_next();
            let cont = vm.take_do_parsed();
            proof {
                lemma_run_extend(img, start, steps as nat, pre);
                if cont {
                    assert(machine_step(img, pre) == StepSpec::Next(vm.machine()));
                    assert(run_n(img, start, steps as nat + 1) == RunState::Partial(vm.machine()));
                } else {
                    assert(!(run_n(img, start, steps as nat + 1) matches RunState::Partial(_)));
                    lemma_run_done_stable(img, start, steps as nat + 1, max_steps as nat);
                }
            }
            if !cont {
                break ;
            }
            steps = steps + 1;
        }
        vm
    }
}

} // verus!
