//! Laws of the instruction set, proved from the abstract machine.

use vstd::prelude::*;
use crate::chip8::MachineView;
use crate::display::{draw_screen, sprite_lights};
use crate::instruction::{
    decode_spec, family_of, kk_of, n_of, nnn_of, x_of, y_of, Instruction,
};
use crate::keyboard::{first_pressed, first_pressed_from};
use crate::model::{
    apply, arithmetic, execute_spec, immediate, is_arithmetic, is_immediate, is_miscellaneous,
    is_screen, is_skip, is_transfer, load_registers, miscellaneous, screen, store_decimal,
    store_registers, wrap16, CpuView,
};
use crate::outcome::{Fault, StepOutcome};
use crate::ram::cell_of;
use crate::random::rest_of;

verus! {

/// Executing any instruction word in a well-formed state leaves a
/// well-formed state: the stack pointer stays within the stack, the
/// framebuffer keeps 2048 cells of 0 or 1, and memory keeps its size.
pub proof fn law_execute_preserves_wf(
    cpu: CpuView,
    memory: Seq<u8>,
    keys: Seq<bool>,
    opcode: u16,
    random: u8,
)
    requires
        cpu.wf(),
        memory.len() == 4096,
    ensures
        execute_spec(cpu, memory, keys, opcode, random).cpu.wf(),
        execute_spec(cpu, memory, keys, opcode, random).memory.len() == 4096,
{
}

/// An unconditional jump leaves the program counter at its target address,
/// not one instruction past it.
pub proof fn law_jump_reaches_target(
    cpu: CpuView,
    memory: Seq<u8>,
    keys: Seq<bool>,
    opcode: u16,
    random: u8,
)
    requires
        family_of(opcode) == 0x1,
    ensures
        execute_spec(cpu, memory, keys, opcode, random).cpu.pc == nnn_of(opcode),
        execute_spec(cpu, memory, keys, opcode, random).outcome == StepOutcome::Completed,
{
}

/// A call with room on the stack leaves the program counter at its target
/// address, not one instruction past it.
pub proof fn law_call_reaches_target(
    cpu: CpuView,
    memory: Seq<u8>,
    keys: Seq<bool>,
    opcode: u16,
    random: u8,
)
    requires
        family_of(opcode) == 0x2,
        cpu.sp < 16,
    ensures
        execute_spec(cpu, memory, keys, opcode, random).cpu.pc == nnn_of(opcode),
        execute_spec(cpu, memory, keys, opcode, random).outcome == StepOutcome::Completed,
{
}

/// An indexed jump leaves the program counter at its address operand plus
/// register 0, not one instruction past it.
pub proof fn law_indexed_jump_reaches_target(
    cpu: CpuView,
    memory: Seq<u8>,
    keys: Seq<bool>,
    opcode: u16,
    random: u8,
)
    requires
        family_of(opcode) == 0xB,
    ensures
        execute_spec(cpu, memory, keys, opcode, random).cpu.pc == nnn_of(opcode) + cpu.v[0],
        execute_spec(cpu, memory, keys, opcode, random).outcome == StepOutcome::Completed,
{
}

/// Add with carry: the flag register ends up 1 exactly when the sum of the
/// two operands exceeds 255, else 0; the result register, unless it is the
/// flag register itself, ends up holding the sum modulo 256.
pub proof fn law_add_with_carry(
    cpu: CpuView,
    memory: Seq<u8>,
    keys: Seq<bool>,
    opcode: u16,
    random: u8,
)
    requires
        cpu.wf(),
        family_of(opcode) == 0x8,
        n_of(opcode) == 0x4,
    ensures
        ({
            let after = execute_spec(cpu, memory, keys, opcode, random).cpu;
            let a = cpu.v[x_of(opcode) as int];
            let b = cpu.v[y_of(opcode) as int];
            &&& after.v[15] == (if a + b > 255 {
                1int
            } else {
                0int
            })
            &&& x_of(opcode) != 15 ==> after.v[x_of(opcode) as int] == (a + b) % 256
        }),
{
}

/// Subtract: the flag register ends up 1 exactly when the minuend is at
/// least the subtrahend, else 0; the result register, unless it is the flag
/// register itself, ends up holding the difference modulo 256.
pub proof fn law_subtract(
    cpu: CpuView,
    memory: Seq<u8>,
    keys: Seq<bool>,
    opcode: u16,
    random: u8,
)
    requires
        cpu.wf(),
        family_of(opcode) == 0x8,
        n_of(opcode) == 0x5,
    ensures
        ({
            let after = execute_spec(cpu, memory, keys, opcode, random).cpu;
            let a = cpu.v[x_of(opcode) as int];
            let b = cpu.v[y_of(opcode) as int];
            &&& after.v[15] == (if a >= b {
                1int
            } else {
                0int
            })
            &&& x_of(opcode) != 15 ==> after.v[x_of(opcode) as int] == (a - b) % 256
        }),
{
}

/// Reversed subtract: register `y` is the minuend and register `x` the
/// subtrahend; flag and result follow the same rule as for subtract.
pub proof fn law_subtract_reversed(
    cpu: CpuView,
    memory: Seq<u8>,
    keys: Seq<bool>,
    opcode: u16,
    random: u8,
)
    requires
        cpu.wf(),
        family_of(opcode) == 0x8,
        n_of(opcode) == 0x7,
    ensures
        ({
            let after = execute_spec(cpu, memory, keys, opcode, random).cpu;
            let a = cpu.v[x_of(opcode) as int];
            let b = cpu.v[y_of(opcode) as int];
            &&& after.v[15] == (if b >= a {
                1int
            } else {
                0int
            })
            &&& x_of(opcode) != 15 ==> after.v[x_of(opcode) as int] == (b - a) % 256
        }),
{
}

/// Shift right: the flag register receives the lowest bit of register `x`,
/// which, unless it is the flag register itself, is halved.
pub proof fn law_shift_right(
    cpu: CpuView,
    memory: Seq<u8>,
    keys: Seq<bool>,
    opcode: u16,
    random: u8,
)
    requires
        cpu.wf(),
        family_of(opcode) == 0x8,
        n_of(opcode) == 0x6,
    ensures
        ({
            let after = execute_spec(cpu, memory, keys, opcode, random).cpu;
            let a = cpu.v[x_of(opcode) as int];
            &&& after.v[15] == a % 2
            &&& x_of(opcode) != 15 ==> after.v[x_of(opcode) as int] == a / 2
        }),
{
}

/// Shift left: the flag register receives the highest bit of register `x`,
/// which, unless it is the flag register itself, is doubled modulo 256.
pub proof fn law_shift_left(
    cpu: CpuView,
    memory: Seq<u8>,
    keys: Seq<bool>,
    opcode: u16,
    random: u8,
)
    requires
        cpu.wf(),
        family_of(opcode) == 0x8,
        n_of(opcode) == 0xE,
    ensures
        ({
            let after = execute_spec(cpu, memory, keys, opcode, random).cpu;
            let a = cpu.v[x_of(opcode) as int];
            &&& after.v[15] == a / 128
            &&& x_of(opcode) != 15 ==> after.v[x_of(opcode) as int] == (2 * a) % 256
        }),
{
}

/// Add immediate wraps modulo 256 and leaves the flag register alone,
/// unless the flag register is itself the target.
pub proof fn law_add_immediate_keeps_flag(
    cpu: CpuView,
    memory: Seq<u8>,
    keys: Seq<bool>,
    opcode: u16,
    random: u8,
)
    requires
        cpu.wf(),
        family_of(opcode) == 0x7,
    ensures
        ({
            let after = execute_spec(cpu, memory, keys, opcode, random).cpu;
            let a = cpu.v[x_of(opcode) as int];
            &&& after.v[x_of(opcode) as int] == (a + kk_of(opcode)) % 256
            &&& x_of(opcode) != 15 ==> after.v[15] == cpu.v[15]
        }),
{
}

/// Sprite draw sets the flag register to 1 exactly when it turns off at
/// least one pixel that was on, else to 0.
pub proof fn law_draw_flag_reports_erasure(
    cpu: CpuView,
    memory: Seq<u8>,
    keys: Seq<bool>,
    opcode: u16,
    random: u8,
)
    requires
        cpu.wf(),
        family_of(opcode) == 0xD,
    ensures
        ({
            let after = execute_spec(cpu, memory, keys, opcode, random).cpu;
            let erased = exists|cell: int|
                0 <= cell < 2048 && cpu.fb[cell] == 1 && #[trigger] after.fb[cell] == 0;
            after.v[15] == (if erased {
                1int
            } else {
                0int
            })
        }),
{
    let after = execute_spec(cpu, memory, keys, opcode, random).cpu;
    let vx = cpu.v[x_of(opcode) as int];
    let vy = cpu.v[y_of(opcode) as int];
    let n = n_of(opcode) as int;
    let erased = exists|cell: int|
        0 <= cell < 2048 && cpu.fb[cell] == 1 && #[trigger] after.fb[cell] == 0;
    if after.v[15] == 1 {
        let cell = choose|cell: int|
            0 <= cell < cpu.fb.len() && cpu.fb[cell] != 0 && #[trigger] sprite_lights(
                memory,
                cpu.i,
                n,
                vx,
                vy,
                cell,
            );
        assert(cpu.fb[cell] == 1 && after.fb[cell] == 0);
    }
    if erased {
        let cell = choose|cell: int|
            0 <= cell < 2048 && cpu.fb[cell] == 1 && #[trigger] after.fb[cell] == 0;
        assert(sprite_lights(memory, cpu.i, n, vx, vy, cell));
    }
}

/// Composing the same sprite twice at the same place restores the
/// framebuffer.
pub proof fn law_draw_twice_restores(
    fb: Seq<u8>,
    memory: Seq<u8>,
    index: u16,
    height: int,
    vx: u8,
    vy: u8,
)
    requires
        forall|cell: int| 0 <= cell < fb.len() ==> #[trigger] fb[cell] <= 1,
    ensures
        draw_screen(draw_screen(fb, memory, index, height, vx, vy), memory, index, height, vx, vy)
            == fb,
{
    let once = draw_screen(fb, memory, index, height, vx, vy);
    let twice = draw_screen(once, memory, index, height, vx, vy);
    assert forall|cell: int| 0 <= cell < fb.len() implies twice[cell] == fb[cell] by {
        assert(fb[cell] <= 1);
    }
    assert(twice =~= fb);
}

/// The hundreds, tens and units digits of a byte are decimal digits and
/// make up the byte.
pub proof fn law_digits_make_up_the_byte(value: u8)
    ensures
        value / 100 <= 2,
        (value / 10) % 10 <= 9,
        value % 10 <= 9,
        100 * (value / 100) + 10 * ((value / 10) % 10) + value % 10 == value,
{
}

/// Decimal conversion writes the hundreds, tens and units digits of
/// register `x` to the three cells from the index register on, and leaves
/// every other cell alone.
pub proof fn law_decimal_digits(
    cpu: CpuView,
    memory: Seq<u8>,
    keys: Seq<bool>,
    opcode: u16,
    random: u8,
)
    requires
        cpu.wf(),
        memory.len() == 4096,
        family_of(opcode) == 0xF,
        kk_of(opcode) == 0x33,
    ensures
        ({
            let after = execute_spec(cpu, memory, keys, opcode, random).memory;
            let value = cpu.v[x_of(opcode) as int];
            &&& after[cell_of(cpu.i as int)] == value / 100
            &&& after[cell_of(cpu.i + 1)] == (value / 10) % 10
            &&& after[cell_of(cpu.i + 2)] == value % 10
            &&& forall|cell: int|
                0 <= cell < 4096 && cell != cell_of(cpu.i as int) && cell != cell_of(cpu.i + 1)
                    && cell != cell_of(cpu.i + 2) ==> after[cell] == memory[cell]
        }),
{
    let value = cpu.v[x_of(opcode) as int];
    let after = execute_spec(cpu, memory, keys, opcode, random).memory;
    assert(decode_spec(opcode) == Instruction::StoreDecimal { x: x_of(opcode) });
    assert(after == store_decimal(memory, cpu.i, value));
    let first = cell_of(cpu.i as int);
    let second = cell_of(cpu.i + 1);
    let third = cell_of(cpu.i + 2);
    assert(first != second && second != third && first != third);
}

/// What a block store wrote, a block load from the same index register
/// value reads back.
pub proof fn law_store_then_load(
    memory: Seq<u8>,
    index: u16,
    v: Seq<u8>,
    clobbered: Seq<u8>,
    last: int,
)
    requires
        memory.len() == 4096,
        v.len() == 16,
        clobbered.len() == 16,
        0 <= last < 16,
    ensures
        forall|r: int|
            0 <= r <= last ==> #[trigger] load_registers(
                clobbered,
                store_registers(memory, index, v, last),
                index,
                last,
            )[r] == v[r],
{
    let stored = store_registers(memory, index, v, last);
    assert forall|r: int| 0 <= r <= last implies #[trigger] load_registers(
        clobbered,
        stored,
        index,
        last,
    )[r] == v[r] by {
        let cell = cell_of(index + r);
        assert((cell - index) % 4096 == r);
        assert(stored[cell] == v[r]);
    }
}

/// Storing registers 0 through `x` and loading them back from the same
/// index register value reproduces them, whatever the registers held in
/// between.
pub proof fn law_block_round_trip(
    cpu: CpuView,
    memory: Seq<u8>,
    keys: Seq<bool>,
    store: u16,
    load: u16,
    clobbered: Seq<u8>,
    random: u8,
)
    requires
        cpu.wf(),
        memory.len() == 4096,
        clobbered.len() == 16,
        family_of(store) == 0xF,
        kk_of(store) == 0x55,
        family_of(load) == 0xF,
        kk_of(load) == 0x65,
        x_of(store) == x_of(load),
    ensures
        ({
            let stored = execute_spec(cpu, memory, keys, store, random);
            let between = CpuView { v: clobbered, i: cpu.i, ..stored.cpu };
            let loaded = execute_spec(between, stored.memory, keys, load, random);
            forall|r: int| 0 <= r <= x_of(store) ==> loaded.cpu.v[r] == cpu.v[r]
        }),
{
    let x = x_of(store) as int;
    let stored = execute_spec(cpu, memory, keys, store, random);
    let between = CpuView { v: clobbered, i: cpu.i, ..stored.cpu };
    let loaded = execute_spec(between, stored.memory, keys, load, random);
    assert(stored.memory == store_registers(memory, cpu.i, cpu.v, x));
    assert(loaded.cpu.v == load_registers(clobbered, stored.memory, cpu.i, x));
    law_store_then_load(memory, cpu.i, cpu.v, clobbered, x);
}

/// A call followed at once by a return leaves the program counter on the
/// instruction after the call and the stack pointer at its depth before the
/// call.
pub proof fn law_call_then_return(
    cpu: CpuView,
    memory: Seq<u8>,
    keys: Seq<bool>,
    call: u16,
    ret: u16,
    random: u8,
)
    requires
        cpu.wf(),
        cpu.sp < 16,
        family_of(call) == 0x2,
        family_of(ret) == 0x0,
        kk_of(ret) == 0xEE,
    ensures
        ({
            let called = execute_spec(cpu, memory, keys, call, random);
            let returned = execute_spec(called.cpu, called.memory, keys, ret, random);
            &&& returned.outcome == StepOutcome::Completed
            &&& returned.cpu.pc == wrap16(cpu.pc + 2)
            &&& cpu.pc < 0xFFFE ==> returned.cpu.pc == cpu.pc + 2
            &&& returned.cpu.sp == cpu.sp
        }),
{
}

/// A call on a full stack and a return on an empty one report the fault
/// and change nothing.
pub proof fn law_stack_faults_change_nothing(
    cpu: CpuView,
    memory: Seq<u8>,
    keys: Seq<bool>,
    opcode: u16,
    random: u8,
)
    requires
        cpu.wf(),
    ensures
        ({
            let effect = execute_spec(cpu, memory, keys, opcode, random);
            &&& family_of(opcode) == 0x2 && cpu.sp == 16 ==> effect.outcome == StepOutcome::Fault(
                Fault::StackOverflow,
            ) && effect.cpu == cpu && effect.memory == memory
            &&& family_of(opcode) == 0x0 && kk_of(opcode) == 0xEE && cpu.sp == 0 ==> effect.outcome
                == StepOutcome::Fault(Fault::StackUnderflow) && effect.cpu == cpu && effect.memory
                == memory
            &&& effect.outcome == StepOutcome::Fault(Fault::StackOverflow) ==> family_of(opcode)
                == 0x2 && cpu.sp == 16
            &&& effect.outcome == StepOutcome::Fault(Fault::StackUnderflow) ==> family_of(opcode)
                == 0x0 && kk_of(opcode) == 0xEE && cpu.sp == 0
        }),
{
}

/// A word that names no instruction is reported with the word; it moves the
/// program counter on by one instruction and changes nothing else.
pub proof fn law_unknown_opcode_only_advances(
    cpu: CpuView,
    memory: Seq<u8>,
    keys: Seq<bool>,
    opcode: u16,
    random: u8,
)
    requires
        decode_spec(opcode) is Unknown,
    ensures
        ({
            let effect = execute_spec(cpu, memory, keys, opcode, random);
            &&& effect.outcome == StepOutcome::Fault(Fault::UnknownOpcode(opcode))
            &&& effect.cpu == CpuView { pc: wrap16(cpu.pc + 2), ..cpu }
            &&& effect.memory == memory
        }),
{
}

/// No instruction counts a timer down: after any instruction each timer
/// holds what it held before, unless the instruction is the one that sets
/// that timer from a register.
pub proof fn law_instructions_never_tick(
    cpu: CpuView,
    memory: Seq<u8>,
    keys: Seq<bool>,
    opcode: u16,
    random: u8,
)
    ensures
        ({
            let after = execute_spec(cpu, memory, keys, opcode, random).cpu;
            &&& after.dt == (if decode_spec(opcode) is SetDelayTimer {
                cpu.v[x_of(opcode) as int]
            } else {
                cpu.dt
            })
            &&& after.st == (if decode_spec(opcode) is SetSoundTimer {
                cpu.v[x_of(opcode) as int]
            } else {
                cpu.st
            })
        }),
{
}

/// Only the clear and the draw instruction change the framebuffer.
pub proof fn law_only_clear_and_draw_touch_screen(
    cpu: CpuView,
    memory: Seq<u8>,
    keys: Seq<bool>,
    opcode: u16,
    random: u8,
)
    requires
        !(decode_spec(opcode) is ClearScreen),
        !(decode_spec(opcode) is Draw),
    ensures
        execute_spec(cpu, memory, keys, opcode, random).cpu.fb == cpu.fb,
{
}

/// Moving an even program counter on by one or two instructions leaves it
/// even, also where it wraps.
proof fn lemma_even_steps(pc: u16)
    requires
        pc % 2 == 0,
    ensures
        wrap16(pc + 2) % 2 == 0,
        wrap16(pc + 4) % 2 == 0,
{
    if pc + 2 >= 0x1_0000 {
        assert(wrap16(pc + 2) == pc + 2 - 0x1_0000);
    } else {
        assert(wrap16(pc + 2) == pc + 2);
    }
    if pc + 4 >= 0x1_0000 {
        assert(wrap16(pc + 4) == pc + 4 - 0x1_0000);
    } else {
        assert(wrap16(pc + 4) == pc + 4);
    }
}

/// An instruction of the register-to-register family leaves the program
/// counter to the step that follows it.
proof fn lemma_arithmetic_keeps_pc(cpu: CpuView, ins: Instruction)
    ensures
        arithmetic(cpu, ins).pc == cpu.pc,
{
}

/// An instruction of the timer, index and memory family stays on its word
/// or moves on by one instruction.
proof fn lemma_miscellaneous_pc(cpu: CpuView, memory: Seq<u8>, keys: Seq<bool>, ins: Instruction)
    requires
        is_miscellaneous(ins),
    ensures
        miscellaneous(cpu, memory, keys, ins).cpu.pc == cpu.pc || miscellaneous(
            cpu,
            memory,
            keys,
            ins,
        ).cpu.pc == wrap16(cpu.pc + 2),
{
}

/// An instruction that loads a register or changes the framebuffer leaves
/// the program counter to the step that follows it.
proof fn lemma_immediate_and_screen_keep_pc(
    cpu: CpuView,
    memory: Seq<u8>,
    ins: Instruction,
    random: u8,
)
    ensures
        immediate(cpu, ins, random).pc == cpu.pc,
        screen(cpu, memory, ins).pc == cpu.pc,
{
}

/// An instruction that is no control transfer stays on its word or moves
/// on by one or two instructions.
proof fn lemma_straight_line_pc(
    cpu: CpuView,
    memory: Seq<u8>,
    keys: Seq<bool>,
    ins: Instruction,
    random: u8,
)
    requires
        !is_transfer(ins),
    ensures
        ({
            let after = apply(cpu, memory, keys, ins, random).cpu.pc;
            after == cpu.pc || after == wrap16(cpu.pc + 2) || after == wrap16(cpu.pc + 4)
        }),
{
    if is_skip(ins) {
    } else if is_arithmetic(ins) {
        lemma_arithmetic_keeps_pc(cpu, ins);
    } else if is_miscellaneous(ins) {
        lemma_miscellaneous_pc(cpu, memory, keys, ins);
    } else if is_immediate(ins) {
        lemma_immediate_and_screen_keep_pc(cpu, memory, ins, random);
    } else if is_screen(ins) {
        lemma_immediate_and_screen_keep_pc(cpu, memory, ins, random);
    } else {
    }
}

/// Straight-line execution keeps the program counter instruction-aligned:
/// from an even address, every instruction that is not a control transfer
/// leaves an even address. A control transfer goes where its operand or the
/// stack says.
pub proof fn law_straight_line_keeps_alignment(
    cpu: CpuView,
    memory: Seq<u8>,
    keys: Seq<bool>,
    opcode: u16,
    random: u8,
)
    requires
        cpu.pc % 2 == 0,
        !is_transfer(decode_spec(opcode)),
    ensures
        execute_spec(cpu, memory, keys, opcode, random).cpu.pc % 2 == 0,
{
    lemma_even_steps(cpu.pc);
    lemma_straight_line_pc(cpu, memory, keys, decode_spec(opcode), random);
}

/// Only the two store instructions change memory.
pub proof fn law_only_stores_touch_memory(
    cpu: CpuView,
    memory: Seq<u8>,
    keys: Seq<bool>,
    opcode: u16,
    random: u8,
)
    requires
        !(decode_spec(opcode) is StoreDecimal),
        !(decode_spec(opcode) is StoreRegisters),
    ensures
        execute_spec(cpu, memory, keys, opcode, random).memory == memory,
{
}

/// The keypad matters to the two key skips and the key wait alone.
pub proof fn law_keys_matter_to_key_instructions_only(
    cpu: CpuView,
    memory: Seq<u8>,
    first: Seq<bool>,
    second: Seq<bool>,
    opcode: u16,
    random: u8,
)
    requires
        !(decode_spec(opcode) is SkipIfKeyDown),
        !(decode_spec(opcode) is SkipIfKeyUp),
        !(decode_spec(opcode) is WaitForKey),
    ensures
        execute_spec(cpu, memory, first, opcode, random) == execute_spec(
            cpu,
            memory,
            second,
            opcode,
            random,
        ),
{
}

/// The random byte matters to the random instruction alone.
pub proof fn law_random_byte_matters_to_random_only(
    cpu: CpuView,
    memory: Seq<u8>,
    keys: Seq<bool>,
    opcode: u16,
    first: u8,
    second: u8,
)
    requires
        !(decode_spec(opcode) is Random),
    ensures
        execute_spec(cpu, memory, keys, opcode, first) == execute_spec(
            cpu,
            memory,
            keys,
            opcode,
            second,
        ),
{
}

/// While no key is down, a step on a key-wait instruction reports that it
/// waits and changes nothing; once a key is down, the step latches the
/// lowest such key into register `x` and moves on.
pub proof fn law_key_wait(
    cpu: CpuView,
    memory: Seq<u8>,
    keys: Seq<bool>,
    opcode: u16,
    random: u8,
)
    requires
        cpu.wf(),
        keys.len() == 16,
        family_of(opcode) == 0xF,
        kk_of(opcode) == 0x0A,
    ensures
        ({
            let effect = execute_spec(cpu, memory, keys, opcode, random);
            let none_down = forall|k: int| 0 <= k < 16 ==> !keys[k];
            &&& none_down ==> effect.outcome == StepOutcome::WaitingForKey && effect.cpu == cpu
                && effect.memory == memory
            &&& !none_down ==> effect.outcome == StepOutcome::Completed && effect.cpu.pc == wrap16(
                cpu.pc + 2,
            ) && 0 <= effect.cpu.v[x_of(opcode) as int] < 16
                && keys[effect.cpu.v[x_of(opcode) as int] as int] && forall|k: int|
                0 <= k < effect.cpu.v[x_of(opcode) as int] ==> !keys[k]
        }),
{
    law_first_pressed_is_lowest(keys, 0);
}

/// The key that a scan from `start` finds is the lowest key at or after
/// `start` that is down, and the scan finds none exactly when none is.
pub proof fn law_first_pressed_is_lowest(keys: Seq<bool>, start: int)
    requires
        0 <= start <= keys.len() <= 256,
    ensures
        match first_pressed_from(keys, start) {
            Some(key) => start <= key < keys.len() && keys[key as int] && forall|k: int|
                start <= k < key ==> !keys[k],
            None => forall|k: int| start <= k < keys.len() ==> !keys[k],
        },
    decreases keys.len() - start,
{
    if start < keys.len() && !keys[start] {
        law_first_pressed_is_lowest(keys, start + 1);
    }
}

/// Right after a program was loaded, every pixel of the framebuffer is off.
pub proof fn law_loaded_screen_is_blank(
    program: Seq<u8>,
    index_increment: bool,
    random: spec_fn(nat) -> u8,
)
    ensures
        MachineView::loaded(program, index_increment, random).cpu.fb.len() == 2048,
        forall|cell: int|
            0 <= cell < 2048 ==> MachineView::loaded(program, index_increment, random).cpu.fb[cell]
                == 0,
{
}

/// Right after a program of at most 3584 bytes was loaded, its bytes stand
/// in memory from the program start on and the next step executes its first
/// instruction.
pub proof fn law_loaded_program_is_next(
    program: Seq<u8>,
    index_increment: bool,
    random: spec_fn(nat) -> u8,
)
    requires
        2 <= program.len() <= 3584,
    ensures
        MachineView::loaded(program, index_increment, random).wf(),
        forall|k: int|
            0 <= k < program.len() ==> MachineView::loaded(
                program,
                index_increment,
                random,
            ).memory[0x200 + k] == program[k],
        MachineView::loaded(program, index_increment, random).next_opcode() == program[0] * 256
            + program[1],
{
}

/// A step that does not execute the random instruction leaves the random
/// source where it was and does not depend on it; a step that does, draws
/// exactly one byte, masks it into register `x`, and leaves the rest of
/// the stream.
pub proof fn law_only_random_draws(machine: MachineView, other: spec_fn(nat) -> u8)
    requires
        machine.cpu.wf(),
    ensures
        !machine.draws_random() ==> machine.stepped().random == machine.random,
        !machine.draws_random() ==> (MachineView { random: other, ..machine }).stepped() == (
        MachineView { random: other, ..machine.stepped() }),
        machine.draws_random() ==> machine.stepped().random == rest_of(machine.random),
        machine.draws_random() ==> machine.stepped().cpu.v[x_of(machine.next_opcode()) as int]
            == machine.next_random() & kk_of(machine.next_opcode()),
{
    let changed = MachineView { random: other, ..machine };
    if !machine.draws_random() {
        law_random_byte_matters_to_random_only(
            machine.cpu,
            machine.memory,
            machine.keys,
            machine.next_opcode(),
            machine.next_random(),
            changed.next_random(),
        );
    }
}

} // verus!
