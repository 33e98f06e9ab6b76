//! The abstract machine: what each instruction does to the processor state
//! and to memory, stated over sequences and numbers.
//!
//! Registers are 8 bits wide; the index register and the program counter are
//! 16 bits wide and wrap at 16 bits. Memory reduces every address modulo
//! 4096, so only the low 12 bits of either register ever select a cell, and
//! no fetch, load or store can fall outside memory. A jump goes exactly
//! where its operand says, to an odd address too; straight-line execution
//! keeps an even program counter even.

use vstd::prelude::*;
use crate::display::{blank_screen, draw_collides, draw_screen};
use crate::instruction::{decode_spec, Instruction};
use crate::keyboard::{first_pressed, key_is_down};
use crate::outcome::{Fault, StepOutcome};
use crate::ram::cell_of;

verus! {

/// Slots of the call stack.
pub const STACK_DEPTH: u8 = 16;

/// The register that doubles as carry, borrow and collision flag.
pub const FLAG_REGISTER: usize = 15;

/// Bytes of one instruction.
pub const INSTRUCTION_WIDTH: u16 = 2;

/// Address of the first built-in glyph.
pub const GLYPH_BASE: u16 = 0x050;

/// Bytes of one built-in glyph.
pub const GLYPH_HEIGHT: u16 = 5;

/// The processor state as mathematical values.
#[verifier::ext_equal]
pub struct CpuView {
    /// Return addresses; the slots below `sp` are in use.
    pub stack: Seq<u16>,
    /// Framebuffer cells, row by row, each 0 or 1.
    pub fb: Seq<u8>,
    /// General registers.
    pub v: Seq<u8>,
    /// Index register.
    pub i: u16,
    /// Program counter.
    pub pc: u16,
    /// Number of stack slots in use.
    pub sp: u8,
    /// Delay timer.
    pub dt: u8,
    /// Sound timer.
    pub st: u8,
    /// Compatibility switch: whether a block store or load leaves the index
    /// register just past the last cell it touched.
    pub index_increment: bool,
}

/// What executing one instruction leaves behind.
#[verifier::ext_equal]
pub struct Effect {
    /// Processor state after the instruction.
    pub cpu: CpuView,
    /// Memory after the instruction.
    pub memory: Seq<u8>,
    /// What the step reports.
    pub outcome: StepOutcome,
}

/// The value that a 16-bit register holds after arithmetic gave `value`:
/// the index register and the program counter wrap at 16 bits.
pub open spec fn wrap16(value: int) -> u16 {
    (value % 0x1_0000) as u16
}

/// Sum of two registers, reduced modulo 256.
pub open spec fn add_result(a: u8, b: u8) -> u8 {
    ((a + b) % 256) as u8
}

/// Carry of the sum of two registers: 1 exactly when the sum exceeds 255.
pub open spec fn add_carry(a: u8, b: u8) -> u8 {
    if a + b > 255 {
        1
    } else {
        0
    }
}

/// Difference `a - b`, reduced modulo 256.
pub open spec fn subtract_result(a: u8, b: u8) -> u8 {
    ((a - b) % 256) as u8
}

/// Flag of the difference `a - b`: 1 exactly when `a >= b`, that is when nothing is borrowed.
pub open spec fn subtract_flag(a: u8, b: u8) -> u8 {
    if a >= b {
        1
    } else {
        0
    }
}

/// Twice a register, reduced modulo 256.
pub open spec fn double_result(a: u8) -> u8 {
    ((a * 2) % 256) as u8
}

/// Address of the built-in glyph for the low nibble of `value`.
pub open spec fn glyph_address(value: u8) -> u16 {
    (GLYPH_BASE + GLYPH_HEIGHT * (value % 16)) as u16
}

/// Memory after the hundreds, tens and units digits of `value` were written
/// to the three cells that `index`, `index + 1` and `index + 2` select.
pub open spec fn store_decimal(memory: Seq<u8>, index: u16, value: u8) -> Seq<u8> {
    memory.update(cell_of(index as int), value / 100).update(
        cell_of(index + 1),
        (value / 10) % 10,
    ).update(cell_of(index + 2), value % 10)
}

/// Memory after registers 0 through `last` were written to the cells that
/// `index`, `index + 1`, ... select.
pub open spec fn store_registers(memory: Seq<u8>, index: u16, v: Seq<u8>, last: int) -> Seq<u8> {
    Seq::new(
        memory.len(),
        |cell: int|
            {
                let k = (cell - index) % 4096;
                if k <= last {
                    v[k]
                } else {
                    memory[cell]
                }
            },
    )
}

/// Registers after registers 0 through `last` were read from the cells that
/// `index`, `index + 1`, ... select.
pub open spec fn load_registers(v: Seq<u8>, memory: Seq<u8>, index: u16, last: int) -> Seq<u8> {
    Seq::new(
        v.len(),
        |r: int|
            if r <= last {
                memory[cell_of(index + r)]
            } else {
                v[r]
            },
    )
}

impl CpuView {
    /// The state is one that a processor can be in.
    pub open spec fn wf(self) -> bool {
        &&& self.stack.len() == 16
        &&& self.fb.len() == 2048
        &&& self.v.len() == 16
        &&& self.sp <= 16
        &&& forall|cell: int| 0 <= cell < 2048 ==> #[trigger] self.fb[cell] <= 1
    }

    /// The state of a processor that was just constructed: everything zero.
    pub open spec fn initial() -> CpuView {
        CpuView {
            stack: Seq::new(16, |k: int| 0u16),
            fb: blank_screen(),
            v: Seq::new(16, |k: int| 0u8),
            i: 0,
            pc: 0,
            sp: 0,
            dt: 0,
            st: 0,
            index_increment: false,
        }
    }

    /// The program counter moved on by one instruction.
    pub open spec fn advanced(self) -> CpuView {
        CpuView { pc: wrap16(self.pc + 2), ..self }
    }

    /// The program counter moved on by two instructions.
    pub open spec fn skipped(self) -> CpuView {
        CpuView { pc: wrap16(self.pc + 4), ..self }
    }

    /// The program counter moved past the next instruction too if `skip` holds.
    pub open spec fn proceed(self, skip: bool) -> CpuView {
        if skip {
            self.skipped()
        } else {
            self.advanced()
        }
    }

    /// Register `x` set to `value`.
    pub open spec fn with_register(self, x: int, value: u8) -> CpuView {
        CpuView { v: self.v.update(x, value), ..self }
    }

    /// Register `x` set to `value`, then the flag register set to `flag`.
    pub open spec fn with_result(self, x: int, value: u8, flag: u8) -> CpuView {
        CpuView { v: self.v.update(x, value).update(15, flag), ..self }
    }

    /// The index register after a block store or load of registers 0 through `last`.
    pub open spec fn after_block(self, last: int) -> CpuView {
        if self.index_increment {
            CpuView { i: wrap16(self.i + last + 1), ..self }
        } else {
            self
        }
    }

    /// Both timers one tick later: each counts down by one and stays at zero.
    pub open spec fn ticked(self) -> CpuView {
        CpuView {
            dt: if self.dt > 0 {
                (self.dt - 1) as u8
            } else {
                0
            },
            st: if self.st > 0 {
                (self.st - 1) as u8
            } else {
                0
            },
            ..self
        }
    }
}

/// The instruction was carried out.
pub open spec fn completed(cpu: CpuView, memory: Seq<u8>) -> Effect {
    Effect { cpu, memory, outcome: StepOutcome::Completed }
}

/// The instruction word at the program counter: the byte there is the high
/// half, the byte in the next cell the low half.
pub open spec fn fetch_spec(memory: Seq<u8>, pc: u16) -> u16 {
    (memory[cell_of(pc as int)] * 256 + memory[cell_of(pc + 1)]) as u16
}

/// Whether the instruction tests a condition and skips on it.
pub open spec fn is_skip(ins: Instruction) -> bool {
    match ins {
        Instruction::SkipIfEqual { .. }
        | Instruction::SkipIfNotEqual { .. }
        | Instruction::SkipIfRegistersEqual { .. }
        | Instruction::SkipIfRegistersNotEqual { .. }
        | Instruction::SkipIfKeyDown { .. }
        | Instruction::SkipIfKeyUp { .. } => true,
        _ => false,
    }
}

/// Whether the instruction belongs to the register-to-register family.
pub open spec fn is_arithmetic(ins: Instruction) -> bool {
    match ins {
        Instruction::Copy { .. }
        | Instruction::Or { .. }
        | Instruction::And { .. }
        | Instruction::Xor { .. }
        | Instruction::Add { .. }
        | Instruction::Subtract { .. }
        | Instruction::ShiftRight { .. }
        | Instruction::SubtractReversed { .. }
        | Instruction::ShiftLeft { .. } => true,
        _ => false,
    }
}

/// Whether the instruction belongs to the timer, index and memory family.
pub open spec fn is_miscellaneous(ins: Instruction) -> bool {
    match ins {
        Instruction::ReadDelayTimer { .. }
        | Instruction::WaitForKey { .. }
        | Instruction::SetDelayTimer { .. }
        | Instruction::SetSoundTimer { .. }
        | Instruction::AddToIndex { .. }
        | Instruction::LoadGlyph { .. }
        | Instruction::StoreDecimal { .. }
        | Instruction::StoreRegisters { .. }
        | Instruction::LoadRegisters { .. } => true,
        _ => false,
    }
}

/// The condition that a skip instruction tests. A key index off the keypad
/// names a key that is never down.
pub open spec fn skip_condition(cpu: CpuView, keys: Seq<bool>, ins: Instruction) -> bool {
    match ins {
        Instruction::SkipIfEqual { x, kk } => cpu.v[x as int] == kk,
        Instruction::SkipIfNotEqual { x, kk } => cpu.v[x as int] != kk,
        Instruction::SkipIfRegistersEqual { x, y } => cpu.v[x as int] == cpu.v[y as int],
        Instruction::SkipIfRegistersNotEqual { x, y } => cpu.v[x as int] != cpu.v[y as int],
        Instruction::SkipIfKeyDown { x } => key_is_down(keys, cpu.v[x as int] as int),
        Instruction::SkipIfKeyUp { x } => !key_is_down(keys, cpu.v[x as int] as int),
        _ => false,
    }
}

/// The registers after an instruction of the register-to-register family.
/// Operands are read first; an instruction that defines the flag stores its
/// result and then the flag, so the flag register always ends up holding the
/// flag. The shifts act on register `x` alone.
pub open spec fn arithmetic(cpu: CpuView, ins: Instruction) -> CpuView {
    match ins {
        Instruction::Copy { x, y } => cpu.with_register(x as int, cpu.v[y as int]),
        Instruction::Or { x, y } => cpu.with_register(x as int, cpu.v[x as int] | cpu.v[y as int]),
        Instruction::And { x, y } => cpu.with_register(
            x as int,
            cpu.v[x as int] & cpu.v[y as int],
        ),
        Instruction::Xor { x, y } => cpu.with_register(
            x as int,
            cpu.v[x as int] ^ cpu.v[y as int],
        ),
        Instruction::Add { x, y } => cpu.with_result(
            x as int,
            add_result(cpu.v[x as int], cpu.v[y as int]),
            add_carry(cpu.v[x as int], cpu.v[y as int]),
        ),
        Instruction::Subtract { x, y } => cpu.with_result(
            x as int,
            subtract_result(cpu.v[x as int], cpu.v[y as int]),
            subtract_flag(cpu.v[x as int], cpu.v[y as int]),
        ),
        Instruction::ShiftRight { x } => cpu.with_result(
            x as int,
            cpu.v[x as int] / 2,
            cpu.v[x as int] % 2,
        ),
        Instruction::SubtractReversed { x, y } => cpu.with_result(
            x as int,
            subtract_result(cpu.v[y as int], cpu.v[x as int]),
            subtract_flag(cpu.v[y as int], cpu.v[x as int]),
        ),
        Instruction::ShiftLeft { x } => cpu.with_result(
            x as int,
            double_result(cpu.v[x as int]),
            cpu.v[x as int] / 128,
        ),
        _ => cpu,
    }
}

/// What the key-wait instruction does: with a key held down, the lowest such
/// key is latched into register `x` and the program goes on; with none, the
/// state stays as it is, the program counter included, and the step reports
/// that it is waiting.
pub open spec fn wait_for_key(cpu: CpuView, memory: Seq<u8>, keys: Seq<bool>, x: u8) -> Effect {
    match first_pressed(keys) {
        Some(key) => completed(cpu.with_register(x as int, key).advanced(), memory),
        None => Effect { cpu, memory, outcome: StepOutcome::WaitingForKey },
    }
}

/// What an instruction of the timer, index and memory family does.
pub open spec fn miscellaneous(
    cpu: CpuView,
    memory: Seq<u8>,
    keys: Seq<bool>,
    ins: Instruction,
) -> Effect {
    match ins {
        Instruction::ReadDelayTimer { x } => completed(
            cpu.with_register(x as int, cpu.dt).advanced(),
            memory,
        ),
        Instruction::WaitForKey { x } => wait_for_key(cpu, memory, keys, x),
        Instruction::SetDelayTimer { x } => completed(
            CpuView { dt: cpu.v[x as int], ..cpu }.advanced(),
            memory,
        ),
        Instruction::SetSoundTimer { x } => completed(
            CpuView { st: cpu.v[x as int], ..cpu }.advanced(),
            memory,
        ),
        Instruction::AddToIndex { x } => completed(
            CpuView { i: wrap16(cpu.i + cpu.v[x as int]), ..cpu }.advanced(),
            memory,
        ),
        Instruction::LoadGlyph { x } => completed(
            CpuView { i: glyph_address(cpu.v[x as int]), ..cpu }.advanced(),
            memory,
        ),
        Instruction::StoreDecimal { x } => completed(
            cpu.advanced(),
            store_decimal(memory, cpu.i, cpu.v[x as int]),
        ),
        Instruction::StoreRegisters { x } => completed(
            cpu.after_block(x as int).advanced(),
            store_registers(memory, cpu.i, cpu.v, x as int),
        ),
        Instruction::LoadRegisters { x } => completed(
            CpuView { v: load_registers(cpu.v, memory, cpu.i, x as int), ..cpu }.after_block(
                x as int,
            ).advanced(),
            memory,
        ),
        _ => completed(cpu, memory),
    }
}

/// The processor after the sprite-draw instruction, before the program
/// counter moves on: the sprite is composed onto the framebuffer and the flag
/// register reports whether a lit pixel was turned off.
pub open spec fn draw(cpu: CpuView, memory: Seq<u8>, x: u8, y: u8, n: u8) -> CpuView {
    let vx = cpu.v[x as int];
    let vy = cpu.v[y as int];
    CpuView {
        fb: draw_screen(cpu.fb, memory, cpu.i, n as int, vx, vy),
        v: cpu.v.update(
            15,
            if draw_collides(cpu.fb, memory, cpu.i, n as int, vx, vy) {
                1u8
            } else {
                0u8
            },
        ),
        ..cpu
    }
}

/// Whether the instruction transfers control: it sets the program counter
/// itself and never receives the step past the current instruction.
pub open spec fn is_transfer(ins: Instruction) -> bool {
    match ins {
        Instruction::Return
        | Instruction::Jump { .. }
        | Instruction::Call { .. }
        | Instruction::JumpWithOffset { .. } => true,
        _ => false,
    }
}

/// What the return instruction does: it pops the newest return address into
/// the program counter, or reports an underflow on an empty stack and
/// changes nothing.
pub open spec fn subroutine_return(cpu: CpuView) -> (CpuView, StepOutcome) {
    if cpu.sp == 0 {
        (cpu, StepOutcome::Fault(Fault::StackUnderflow))
    } else {
        (
            CpuView { sp: (cpu.sp - 1) as u8, pc: cpu.stack[cpu.sp - 1], ..cpu },
            StepOutcome::Completed,
        )
    }
}

/// What the call instruction does: it pushes the address of the instruction
/// after the call and jumps, or reports an overflow on a full stack and
/// changes nothing.
pub open spec fn subroutine_call(cpu: CpuView, addr: u16) -> (CpuView, StepOutcome) {
    if cpu.sp >= 16 {
        (cpu, StepOutcome::Fault(Fault::StackOverflow))
    } else {
        (
            CpuView {
                stack: cpu.stack.update(cpu.sp as int, wrap16(cpu.pc + 2)),
                sp: (cpu.sp + 1) as u8,
                pc: addr,
                ..cpu
            },
            StepOutcome::Completed,
        )
    }
}

/// The processor after a control transfer, and what the step reports.
pub open spec fn transfer(cpu: CpuView, ins: Instruction) -> (CpuView, StepOutcome) {
    match ins {
        Instruction::Return => subroutine_return(cpu),
        Instruction::Jump { addr } => (CpuView { pc: addr, ..cpu }, StepOutcome::Completed),
        Instruction::Call { addr } => subroutine_call(cpu, addr),
        Instruction::JumpWithOffset { addr } => (
            CpuView { pc: wrap16(addr + cpu.v[0]), ..cpu },
            StepOutcome::Completed,
        ),
        _ => (cpu, StepOutcome::Completed),
    }
}

/// Whether the instruction loads a register from an operand.
pub open spec fn is_immediate(ins: Instruction) -> bool {
    match ins {
        Instruction::LoadImmediate { .. }
        | Instruction::AddImmediate { .. }
        | Instruction::LoadIndex { .. }
        | Instruction::Random { .. } => true,
        _ => false,
    }
}

/// Whether the instruction changes the framebuffer.
pub open spec fn is_screen(ins: Instruction) -> bool {
    match ins {
        Instruction::ClearScreen | Instruction::Draw { .. } => true,
        _ => false,
    }
}

/// The registers after an instruction that loads a register from an
/// operand. Add immediate wraps modulo 256 and leaves the flag alone; the
/// random instruction masks `random` with its operand.
pub open spec fn immediate(cpu: CpuView, ins: Instruction, random: u8) -> CpuView {
    match ins {
        Instruction::LoadImmediate { x, kk } => cpu.with_register(x as int, kk),
        Instruction::AddImmediate { x, kk } => cpu.with_register(
            x as int,
            add_result(cpu.v[x as int], kk),
        ),
        Instruction::LoadIndex { addr } => CpuView { i: addr, ..cpu },
        Instruction::Random { x, kk } => cpu.with_register(x as int, random & kk),
        _ => cpu,
    }
}

/// The processor after an instruction that changes the framebuffer, before
/// the program counter moves on.
pub open spec fn screen(cpu: CpuView, memory: Seq<u8>, ins: Instruction) -> CpuView {
    match ins {
        Instruction::ClearScreen => CpuView { fb: blank_screen(), ..cpu },
        Instruction::Draw { x, y, n } => draw(cpu, memory, x, y, n),
        _ => cpu,
    }
}

/// What a word that names no instruction does: it is reported with the
/// word, and only the program counter moves on.
pub open spec fn unknown(cpu: CpuView, memory: Seq<u8>, opcode: u16) -> Effect {
    Effect {
        cpu: cpu.advanced(),
        memory,
        outcome: StepOutcome::Fault(Fault::UnknownOpcode(opcode)),
    }
}

/// What a decoded instruction does. `random` is the byte that the random
/// instruction masks; no other instruction looks at it.
///
/// Jump, call, return and indexed jump set the program counter themselves.
/// A stack fault and a key wait with no key down leave it where it is. Every
/// other instruction, the unknown one included, moves it on by one
/// instruction, a skip whose condition holds by two.
pub open spec fn apply(
    cpu: CpuView,
    memory: Seq<u8>,
    keys: Seq<bool>,
    ins: Instruction,
    random: u8,
) -> Effect {
    if is_skip(ins) {
        completed(cpu.proceed(skip_condition(cpu, keys, ins)), memory)
    } else if is_arithmetic(ins) {
        completed(arithmetic(cpu, ins).advanced(), memory)
    } else if is_miscellaneous(ins) {
        miscellaneous(cpu, memory, keys, ins)
    } else if is_transfer(ins) {
        Effect { cpu: transfer(cpu, ins).0, memory, outcome: transfer(cpu, ins).1 }
    } else if is_immediate(ins) {
        completed(immediate(cpu, ins, random).advanced(), memory)
    } else if is_screen(ins) {
        completed(screen(cpu, memory, ins).advanced(), memory)
    } else {
        match ins {
            Instruction::Unknown { opcode } => unknown(cpu, memory, opcode),
            _ => completed(cpu, memory),
        }
    }
}

/// What executing the instruction word `opcode` does.
pub open spec fn execute_spec(
    cpu: CpuView,
    memory: Seq<u8>,
    keys: Seq<bool>,
    opcode: u16,
    random: u8,
) -> Effect {
    apply(cpu, memory, keys, decode_spec(opcode), random)
}

} // verus!
