use vstd::prelude::*;

use crate::display::{blank, DisplayBuffer, DISPLAY_SIZE};
use crate::keyboard::{lemma_lowest_pressed, lowest_pressed, KeyboardState, KEY_COUNT};
use crate::memory::{initial_memory, with_rom, Memory, MEM_SIZE, PROGRAM_START};
use crate::stack::{Stack, STACK_DEPTH};
use crate::timer::{elapsed, Timers};

pub mod instructions;

use instructions::{
    effect, instr_00E0, instr_00EE, instr_1nnn, instr_2nnn, instr_3xkk, instr_4xkk, instr_5xy0,
    instr_6xkk, instr_7xkk, instr_8xy0, instr_8xy1, instr_8xy2, instr_8xy3, instr_8xy4,
    instr_8xy5, instr_8xy6, instr_8xy7, instr_8xyE, instr_9xy0, instr_Annn, instr_Bnnn,
    instr_Cxkk_from, instr_Dxyn, instr_Ex9E, instr_ExA1, instr_Fx07, instr_Fx0A, instr_Fx15,
    instr_Fx18, instr_Fx1E, instr_Fx29, instr_Fx33, instr_Fx55, instr_Fx65, random_byte,
};

verus! {

/// Number of general registers `V0..=VF`.
pub const REG_COUNT: usize = 16;

/// Index of the flag register `VF`.
pub const FLAG: u8 = 0xF;

/// Minimum time between two executed instructions, in microseconds.
pub const CYCLE_DELAY: u64 = 2000;

/// What an instruction does to the program counter.
#[derive(PartialEq, Eq, Structural, Clone, Copy, Debug)]
pub enum ControlFlow {
    /// Go on with the next instruction.
    Next,
    /// Skip the next instruction.
    Skip,
    /// Continue at the given address.
    Jump(u16),
    /// Stay on this instruction: it runs again on the next cycle.
    Wait,
}

/// Why a program cannot go on.
#[derive(PartialEq, Eq, Structural, Clone, Copy, Debug)]
pub enum Fault {
    /// The opcode matches no instruction.
    InvalidOpcode,
    /// A call with sixteen return addresses already on the stack.
    StackOverflow,
    /// A return with no return address on the stack.
    StackUnderflow,
    /// An access, or the instruction fetch, leaves the address space.
    AddressOutOfRange,
    /// A key instruction names a key above `0xF`.
    InvalidKey,
    /// A font instruction names a digit above `0xF`.
    InvalidDigit,
}

/// A fault together with the opcode and the program counter at which it came.
/// A fault at the instruction fetch carries the opcode `0`.
#[derive(PartialEq, Eq, Structural, Clone, Copy, Debug)]
pub struct ExecError {
    pub fault: Fault,
    pub opcode: u16,
    pub pc: usize,
}

/// One two-byte instruction, as its four nibbles, the highest first.
#[derive(Clone, Copy, Debug)]
pub struct Opcode {
    pub nibbles: [u8; 4],
}

/// The nibbles of the opcode made of the bytes `upper` and `lower`.
pub open spec fn split_nibbles(upper: u8, lower: u8) -> Seq<u8> {
    seq![upper / 16, upper % 16, lower / 16, lower % 16]
}

/// The 16-bit opcode word with the nibbles `op`.
pub open spec fn op_word(op: Seq<u8>) -> int {
    op[0] * 4096 + op[1] * 256 + op[2] * 16 + op[3]
}

/// The 12-bit address field `nnn`.
pub open spec fn op_nnn(op: Seq<u8>) -> u16 {
    (op[1] * 256 + op[2] * 16 + op[3]) as u16
}

/// The 8-bit immediate field `kk`.
pub open spec fn op_kk(op: Seq<u8>) -> u8 {
    (op[2] * 16 + op[3]) as u8
}

/// Every nibble is below 16.
pub open spec fn nibbles_wf(op: Seq<u8>) -> bool {
    op.len() == 4 && forall|k: int| 0 <= k < 4 ==> #[trigger] op[k] < 16
}

impl View for Opcode {
    type V = Seq<u8>;

    open spec fn view(&self) -> Seq<u8> {
        self.nibbles@
    }
}

impl Opcode {
    pub fn new(upper_byte: u8, lower_byte: u8) -> (r: Opcode)
        ensures
            r@ == split_nibbles(upper_byte, lower_byte),
            nibbles_wf(r@),
    {
        let r = Opcode { nibbles: [upper_byte / 16, upper_byte % 16, lower_byte / 16, lower_byte % 16] };
        assert(r@ =~= split_nibbles(upper_byte, lower_byte));
        r
    }

    /// The opcode as one 16-bit word.
    pub fn word(&self) -> (r: u16)
        requires
            nibbles_wf(self@),
        ensures
            r == op_word(self@),
    {
        self.nibbles[0] as u16 * 4096 + self.nibbles[1] as u16 * 256 + self.nibbles[2] as u16 * 16
            + self.nibbles[3] as u16
    }

    /// The low twelve bits, an address.
    pub fn nnn(&self) -> (r: u16)
        requires
            nibbles_wf(self@),
        ensures
            r == op_nnn(self@),
    {
        self.nibbles[1] as u16 * 256 + self.nibbles[2] as u16 * 16 + self.nibbles[3] as u16
    }

    /// The low byte, an immediate value.
    pub fn kk(&self) -> (r: u8)
        requires
            nibbles_wf(self@),
        ensures
            r == op_kk(self@),
    {
        self.nibbles[2] * 16 + self.nibbles[3]
    }
}

/// The whole machine state as the instructions see it.
pub struct VmView {
    pub mem: Seq<u8>,
    pub display: Seq<bool>,
    pub timers: Timers,
    pub keys: Seq<bool>,
    pub stack: Seq<u16>,
    pub pc: int,
    pub i: u16,
    pub v: Seq<u8>,
    pub last_cycle: u64,
}

impl VmView {
    pub open spec fn with_v(self, x: int, value: u8) -> VmView {
        VmView { v: self.v.update(x, value), ..self }
    }

    pub open spec fn with_i(self, i: u16) -> VmView {
        VmView { i, ..self }
    }

    pub open spec fn with_pc(self, pc: int) -> VmView {
        VmView { pc, ..self }
    }

    pub open spec fn with_mem(self, mem: Seq<u8>) -> VmView {
        VmView { mem, ..self }
    }

    pub open spec fn with_display(self, display: Seq<bool>) -> VmView {
        VmView { display, ..self }
    }

    pub open spec fn with_stack(self, stack: Seq<u16>) -> VmView {
        VmView { stack, ..self }
    }

    pub open spec fn with_timers(self, timers: Timers) -> VmView {
        VmView { timers, ..self }
    }

    pub open spec fn with_last_cycle(self, last_cycle: u64) -> VmView {
        VmView { last_cycle, ..self }
    }
}

/// The state after the control effect `f` was applied to the program counter.
pub open spec fn advance(s: VmView, f: ControlFlow) -> VmView {
    match f {
        ControlFlow::Next => s.with_pc(s.pc + 2),
        ControlFlow::Skip => s.with_pc(s.pc + 4),
        ControlFlow::Jump(target) => s.with_pc(target as int),
        ControlFlow::Wait => s,
    }
}

/// The state after the instruction `op` ran on `s`, its control effect
/// included, or the fault that stops it. `random` is the byte that a random
/// instruction draws.
pub open spec fn exec_spec(s: VmView, op: Seq<u8>, random: u8) -> Result<VmView, Fault> {
    match effect(s, op, random) {
        Ok((t, f)) => Ok(advance(t, f)),
        Err(e) => Err(e),
    }
}

/// The state and result of one cycle at time `now`: when more than
/// `CYCLE_DELAY` has passed since the last executed instruction, the
/// instruction at the program counter runs; the timers tick in any case. A
/// fault leaves the state as it was.
pub open spec fn cycle_spec(s: VmView, now: u64, random: u8) -> (VmView, Result<bool, ExecError>) {
    if elapsed(s.last_cycle, now) <= CYCLE_DELAY {
        (s.with_timers(s.timers.ticked(now)), Ok(false))
    } else if s.pc + 1 >= MEM_SIZE {
        (s, Err(ExecError { fault: Fault::AddressOutOfRange, opcode: 0, pc: s.pc as usize }))
    } else {
        let op = split_nibbles(s.mem[s.pc], s.mem[s.pc + 1]);
        match exec_spec(s, op, random) {
            Ok(t) => (t.with_last_cycle(now).with_timers(t.timers.ticked(now)), Ok(true)),
            Err(f) => (s, Err(ExecError { fault: f, opcode: op_word(op) as u16, pc: s.pc as usize })),
        }
    }
}

/// The state of a machine just loaded with `rom`.
pub open spec fn initial_state(rom: Seq<u8>) -> VmView {
    VmView {
        mem: with_rom(initial_memory(), rom),
        display: blank(),
        timers: Timers { delay_timer: 0, sound_timer: 0, last_tick: 0 },
        keys: Seq::new(KEY_COUNT as nat, |k: int| false),
        stack: Seq::empty(),
        pc: PROGRAM_START as int,
        i: 0,
        v: Seq::new(REG_COUNT as nat, |r: int| 0u8),
        last_cycle: 0,
    }
}

/// The virtual machine: memory, display, timers, keypad, call stack and
/// registers.
pub struct Interpreter {
    pub memory: Memory,
    pub display_buf: DisplayBuffer,
    pub timers: Timers,
    pub keyboard_state: KeyboardState,
    pub stack: Stack,
    pub program_counter: usize,
    pub reg_i: u16,
    pub reg_v: [u8; REG_COUNT],
    pub last_cycle: u64,
}

impl View for Interpreter {
    type V = VmView;

    open spec fn view(&self) -> VmView {
        VmView {
            mem: self.memory@,
            display: self.display_buf@,
            timers: self.timers,
            keys: self.keyboard_state@,
            stack: self.stack@,
            pc: self.program_counter as int,
            i: self.reg_i,
            v: self.reg_v@,
            last_cycle: self.last_cycle,
        }
    }
}

impl Interpreter {
    /// A machine with `rom` loaded at `PROGRAM_START`, about to run it.
    pub fn new(rom: &[u8]) -> (r: Interpreter)
        requires
            PROGRAM_START + rom@.len() <= MEM_SIZE,
        ensures
            r@ == initial_state(rom@),
    {
        let mut memory = Memory::new();
        memory.load_rom(rom);
        let r = Interpreter {
            memory,
            display_buf: DisplayBuffer::new(),
            timers: Timers::new(),
            keyboard_state: KeyboardState::new(),
            stack: Stack::new(),
            program_counter: PROGRAM_START,
            reg_i: 0,
            reg_v: [0u8; REG_COUNT],
            last_cycle: 0,
        };
        assert(r.reg_v@ =~= Seq::new(REG_COUNT as nat, |r: int| 0u8));
        r
    }

    pub fn get_display_buffer(&self) -> (r: &[bool; DISPLAY_SIZE])
        ensures
            r@ == self@.display,
    {
        self.display_buf.buffer()
    }

    /// The value of register `V[index]`.
    pub fn reg_v(&self, index: u8) -> (r: u8)
        requires
            index < REG_COUNT,
        ensures
            r == self@.v[index as int],
    {
        self.reg_v[index as usize]
    }

    /// Records that key `key` was pressed or released.
    pub fn handle_input(&mut self, key: u8, pressed: bool)
        requires
            key < KEY_COUNT,
        ensures
            final(self)@ == (VmView { keys: old(self)@.keys.update(key as int, pressed), ..old(self)@ }),
    {
        self.keyboard_state.handle_input(key, pressed);
    }

    /// The opcode at the program counter, or `None` when its two bytes are not
    /// both in memory.
    pub fn fetch(&self) -> (r: Option<Opcode>)
        ensures
            self@.pc + 1 >= MEM_SIZE ==> r is None,
            self@.pc + 1 < MEM_SIZE ==> (r matches Some(op) && op@ == split_nibbles(
                self@.mem[self@.pc],
                self@.mem[self@.pc + 1],
            ) && nibbles_wf(op@)),
    {
        if self.program_counter >= MEM_SIZE - 1 {
            return None;
        }
        Some(
            Opcode::new(
                self.memory.read_byte(self.program_counter),
                self.memory.read_byte(self.program_counter + 1),
            ),
        )
    }

    fn apply_flow(&mut self, f: ControlFlow)
        requires
            old(self).program_counter + 1 < MEM_SIZE,
        ensures
            final(self)@ == advance(old(self)@, f),
    {
        match f {
            ControlFlow::Next => self.program_counter = self.program_counter + 2,
            ControlFlow::Skip => self.program_counter = self.program_counter + 4,
            ControlFlow::Jump(target) => self.program_counter = target as usize,
            ControlFlow::Wait => {},
        }
    }

    /// Runs the instruction `opcode` with `random` as the byte that a random
    /// instruction draws, and applies its control effect. On a fault nothing
    /// changes.
    pub fn execute_with(&mut self, opcode: Opcode, random: u8) -> (r: Result<(), ExecError>)
        requires
            nibbles_wf(opcode@),
            old(self).program_counter + 1 < MEM_SIZE,
        ensures
            match exec_spec(old(self)@, opcode@, random) {
                Ok(t) => r is Ok && final(self)@ == t,
                Err(f) => r == Err::<(), ExecError>(
                    ExecError { fault: f, opcode: op_word(opcode@) as u16, pc: old(self).program_counter },
                ) && final(self)@ == old(self)@,
            },
    {
        let a = opcode.nibbles[0];
        let x = opcode.nibbles[1];
        let y = opcode.nibbles[2];
        let n = opcode.nibbles[3];
        let nnn = opcode.nnn();
        let kk = opcode.kk();
        let flow: Result<ControlFlow, Fault> = if a == 0x0 {
            if x == 0x0 && y == 0xE && n == 0x0 {
                Ok(instr_00E0(self))
            } else if x == 0x0 && y == 0xE && n == 0xE {
                instr_00EE(self)
            } else {
                Err(Fault::InvalidOpcode)
            }
        } else if a == 0x1 {
            Ok(instr_1nnn(self, nnn))
        } else if a == 0x2 {
            instr_2nnn(self, nnn)
        } else if a == 0x3 {
            Ok(instr_3xkk(self, x, kk))
        } else if a == 0x4 {
            Ok(instr_4xkk(self, x, kk))
        } else if a == 0x5 {
            if n == 0x0 {
                Ok(instr_5xy0(self, x, y))
            } else {
                Err(Fault::InvalidOpcode)
            }
        } else if a == 0x6 {
            Ok(instr_6xkk(self, x, kk))
        } else if a == 0x7 {
            Ok(instr_7xkk(self, x, kk))
        } else if a == 0x8 {
            if n == 0x0 {
                Ok(instr_8xy0(self, x, y))
            } else if n == 0x1 {
                Ok(instr_8xy1(self, x, y))
            } else if n == 0x2 {
                Ok(instr_8xy2(self, x, y))
            } else if n == 0x3 {
                Ok(instr_8xy3(self, x, y))
            } else if n == 0x4 {
                Ok(instr_8xy4(self, x, y))
            } else if n == 0x5 {
                Ok(instr_8xy5(self, x, y))
            } else if n == 0x6 {
                Ok(instr_8xy6(self, x, y))
            } else if n == 0x7 {
                Ok(instr_8xy7(self, x, y))
            } else if n == 0xE {
                Ok(instr_8xyE(self, x, y))
            } else {
                Err(Fault::InvalidOpcode)
            }
        } else if a == 0x9 {
            if n == 0x0 {
                Ok(instr_9xy0(self, x, y))
            } else {
                Err(Fault::InvalidOpcode)
            }
        } else if a == 0xA {
            Ok(instr_Annn(self, nnn))
        } else if a == 0xB {
            Ok(instr_Bnnn(self, nnn))
        } else if a == 0xC {
            Ok(instr_Cxkk_from(self, x, kk, random))
        } else if a == 0xD {
            instr_Dxyn(self, x, y, n)
        } else if a == 0xE {
            if kk == 0x9E {
                instr_Ex9E(self, x)
            } else if kk == 0xA1 {
                instr_ExA1(self, x)
            } else {
                Err(Fault::InvalidOpcode)
            }
        } else if a == 0xF {
            if kk == 0x07 {
                Ok(instr_Fx07(self, x))
            } else if kk == 0x0A {
                Ok(instr_Fx0A(self, x))
            } else if kk == 0x15 {
                Ok(instr_Fx15(self, x))
            } else if kk == 0x18 {
                Ok(instr_Fx18(self, x))
            } else if kk == 0x1E {
                Ok(instr_Fx1E(self, x))
            } else if kk == 0x29 {
                instr_Fx29(self, x)
            } else if kk == 0x33 {
                instr_Fx33(self, x)
            } else if kk == 0x55 {
                instr_Fx55(self, x)
            } else if kk == 0x65 {
                instr_Fx65(self, x)
            } else {
                Err(Fault::InvalidOpcode)
            }
        } else {
            Err(Fault::InvalidOpcode)
        };
        match flow {
            Ok(f) => {
                self.apply_flow(f);
                Ok(())
            },
            Err(fault) => Err(ExecError { fault, opcode: opcode.word(), pc: self.program_counter }),
        }
    }

    /// Runs the instruction `opcode` and applies its control effect. A random
    /// instruction draws its byte from the thread's generator. On a fault
    /// nothing changes.
    pub fn execute(&mut self, opcode: Opcode) -> (r: Result<(), ExecError>)
        requires
            nibbles_wf(opcode@),
            old(self).program_counter + 1 < MEM_SIZE,
        ensures
            exists|random: u8|
                match #[trigger] exec_spec(old(self)@, opcode@, random) {
                    Ok(t) => r is Ok && final(self)@ == t,
                    Err(f) => r == Err::<(), ExecError>(
                        ExecError { fault: f, opcode: op_word(opcode@) as u16, pc: old(self).program_counter },
                    ) && final(self)@ == old(self)@,
                },
    {
        let random = if opcode.nibbles[0] == 0xC {
            random_byte()
        } else {
            0
        };
        self.execute_with(opcode, random)
    }

    /// One cycle at time `now` (microseconds since the machine was made):
    /// runs the instruction at the program counter when more than
    /// `CYCLE_DELAY` has passed since the last one ran, then ticks the timers.
    /// Returns whether an instruction ran, or the fault that stops the program.
    pub fn run_cycle(&mut self, now: u64) -> (r: Result<bool, ExecError>)
        ensures
            exists|random: u8| (final(self)@, r) == #[trigger] cycle_spec(old(self)@, now, random),
    {
        let diff = if now >= self.last_cycle {
            now - self.last_cycle
        } else {
            0
        };
        if diff > CYCLE_DELAY {
            let opcode = match self.fetch() {
                Some(op) => op,
                None => {
                    let e = ExecError {
                        fault: Fault::AddressOutOfRange,
                        opcode: 0,
                        pc: self.program_counter,
                    };
                    assert((self@, Err::<bool, ExecError>(e)) == cycle_spec(self@, now, 0));
                    return Err(e);
                },
            };
            let ghost before = self@;
            let random = if opcode.nibbles[0] == 0xC {
                random_byte()
            } else {
                0
            };
            match self.execute_with(opcode, random) {
                Ok(()) => {},
                Err(e) => {
                    assert((self@, Err::<bool, ExecError>(e)) == cycle_spec(before, now, random));
                    return Err(e);
                },
            }
            self.last_cycle = now;
            self.timers.tick(now);
            proof {
                assert((self@, Ok::<bool, ExecError>(true)) == cycle_spec(before, now, random));
            }
            Ok(true)
        } else {
            self.timers.tick(now);
            proof {
                assert((self@, Ok::<bool, ExecError>(false)) == cycle_spec(old(self)@, now, 0));
            }
            Ok(false)
        }
    }
}

/// `6xkk` loads `kk` into `Vx`, for every register `x` and every byte `kk`.
pub proof fn lemma_load_immediate(s: VmView, x: u8, kk: u8, random: u8)
    requires
        x < REG_COUNT,
        s.v.len() == REG_COUNT,
    ensures
        exec_spec(s, split_nibbles((0x60 + x) as u8, kk), random) is Ok,
        exec_spec(s, split_nibbles((0x60 + x) as u8, kk), random)->Ok_0.v[x as int] == kk,
{
}

/// The nibbles of the call `2nnn`.
pub open spec fn call_op(nnn: u16) -> Seq<u8> {
    split_nibbles((0x20 + nnn / 256) as u8, (nnn % 256) as u8)
}

/// A call `2nnn` pushes the address of the instruction after it and jumps to
/// `nnn`; the return `00EE` that follows comes back to that address with the
/// stack as it was before the call.
pub proof fn lemma_call_return(s: VmView, nnn: u16, random: u8)
    requires
        s.stack.len() < STACK_DEPTH,
        nnn < 0x1000,
        0 <= s.pc,
        s.pc + 1 < MEM_SIZE,
    ensures
        exec_spec(s, call_op(nnn), random) is Ok,
        exec_spec(s, call_op(nnn), random)->Ok_0.stack == s.stack.push((s.pc + 2) as u16),
        exec_spec(s, call_op(nnn), random)->Ok_0.pc == nnn as int,
        exec_spec(exec_spec(s, call_op(nnn), random)->Ok_0, split_nibbles(0x00, 0xEE), random) is Ok,
        exec_spec(exec_spec(s, call_op(nnn), random)->Ok_0, split_nibbles(0x00, 0xEE), random)->Ok_0.pc
            == s.pc + 2,
        exec_spec(
            exec_spec(s, call_op(nnn), random)->Ok_0,
            split_nibbles(0x00, 0xEE),
            random,
        )->Ok_0.stack == s.stack,
{
    let t = advance(s.with_stack(s.stack.push((s.pc + 2) as u16)), ControlFlow::Jump(nnn));
    assert(t.stack.drop_last() =~= s.stack);
}

/// A cycle on `Fx0A` while no key is held down changes nothing but the timers
/// and the time of the last cycle, so the program counter and the registers
/// stay as they are however often it runs. Once a key is held down, the
/// cycle that runs the instruction moves the program counter on by one
/// instruction and stores the lowest key held down in `Vx`.
pub proof fn lemma_wait_for_key(s: VmView, now: u64, random: u8)
    requires
        0 <= s.pc,
        s.pc + 1 < MEM_SIZE,
        s.mem.len() == MEM_SIZE,
        s.mem[s.pc] / 16 == 0xF,
        s.mem[s.pc + 1] == 0x0A,
        s.v.len() == REG_COUNT,
        s.keys.len() == KEY_COUNT,
    ensures
        cycle_spec(s, now, random).1 is Ok,
        lowest_pressed(s.keys) is None ==> cycle_spec(s, now, random).0 == (VmView {
            timers: cycle_spec(s, now, random).0.timers,
            last_cycle: cycle_spec(s, now, random).0.last_cycle,
            ..s
        }),
        lowest_pressed(s.keys) matches Some(k) ==> if cycle_spec(s, now, random).1 == Ok::<
            bool,
            ExecError,
        >(true) {
            cycle_spec(s, now, random).0.pc == s.pc + 2 && cycle_spec(s, now, random).0.v
                == s.v.update((s.mem[s.pc] % 16) as int, k as u8)
        } else {
            cycle_spec(s, now, random).0.pc == s.pc && cycle_spec(s, now, random).0.v == s.v
        },
{
    let op = split_nibbles(s.mem[s.pc], s.mem[s.pc + 1]);
    assert(op[0] == 0xF && op[2] == 0 && op[3] == 0xA);
    assert(op_kk(op) == 0x0A);
    lemma_lowest_pressed(s.keys);
}

/// No instruction takes the call stack past `STACK_DEPTH` addresses.
pub proof fn lemma_stack_depth_kept(s: VmView, op: Seq<u8>, random: u8)
    requires
        s.stack.len() <= STACK_DEPTH,
    ensures
        exec_spec(s, op, random) matches Ok(t) ==> t.stack.len() <= STACK_DEPTH,
{
}

} // verus!
