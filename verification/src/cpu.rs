//! The processor: registers, call stack, timers and framebuffer, and the
//! engine that executes one instruction word at a time.

use vstd::prelude::*;
use vstd::slice::slice_to_vec;
use crate::display::{
    blank_screen, draw_collides, draw_screen, lemma_cell_sprite, lemma_sprite_cell, row_bit, sprite_cell,
    sprite_lights, sprite_lights_before, toggled,
};
use crate::instruction::{decode, Instruction};
use crate::keyboard::Keyboard;
use crate::model::{
    apply, arithmetic, draw, execute_spec, fetch_spec, immediate, is_arithmetic, is_immediate,
    is_miscellaneous, is_screen, is_skip, is_transfer, load_registers, miscellaneous, screen,
    skip_condition, store_decimal, store_registers, subroutine_call, subroutine_return, transfer,
    CpuView, Effect, FLAG_REGISTER, GLYPH_BASE, GLYPH_HEIGHT, INSTRUCTION_WIDTH, STACK_DEPTH,
};
use crate::outcome::{Fault, StepOutcome};
use crate::ram::{cell_of, Ram};

verus! {

/// The framebuffer cell that stands for a byte handed in by the host: any
/// non-zero byte is a lit pixel.
pub open spec fn pixel_of(byte: u8) -> u8 {
    if byte == 0 {
        0
    } else {
        1
    }
}

/// `base` with the first `values.len()` cells, as far as `base` reaches, replaced by `values`.
pub open spec fn overwritten<T>(base: Seq<T>, values: Seq<T>) -> Seq<T> {
    Seq::new(
        base.len(),
        |k: int|
            if k < values.len() {
                values[k]
            } else {
                base[k]
            },
    )
}

/// Processor state. The stack pointer never exceeds the stack's sixteen slots
/// and every framebuffer cell holds 0 or 1.
pub struct Cpu {
    stack: [u16; 16],
    fb: [u8; 2048],
    v: [u8; 16],
    i: u16,
    pc: u16,
    sp: u8,
    dt: u8,
    st: u8,
    index_increment: bool,
}

impl View for Cpu {
    type V = CpuView;

    closed spec fn view(&self) -> CpuView {
        CpuView {
            stack: self.stack@,
            fb: self.fb@,
            v: self.v@,
            i: self.i,
            pc: self.pc,
            sp: self.sp,
            dt: self.dt,
            st: self.st,
            index_increment: self.index_increment,
        }
    }
}

impl Cpu {
    /// What holds of every processor at all times: at most sixteen stack
    /// slots are in use and every framebuffer cell holds 0 or 1.
    #[verifier::type_invariant]
    pub open spec fn inv(self) -> bool {
        self@.wf()
    }

    /// A processor with every register, timer, stack slot and pixel at zero.
    pub fn new() -> (cpu: Cpu)
        ensures
            cpu@ == CpuView::initial(),
            cpu@.wf(),
    {
        Cpu {
            stack: [0; 16],
            fb: [0; 2048],
            v: [0; 16],
            i: 0,
            pc: 0,
            sp: 0,
            dt: 0,
            st: 0,
            index_increment: false,
        }
    }

    /// Sets the compatibility switch: with `on`, a block store or load of
    /// registers 0 through `x` leaves the index register raised by `x + 1`;
    /// without, it leaves the index register as it was.
    pub fn set_index_increment(&mut self, on: bool)
        ensures
            final(self)@ == (CpuView { index_increment: on, ..old(self)@ }),
            final(self)@.wf(),
    {
        proof {
            use_type_invariant(&*self);
        }
        self.index_increment = on;
    }

    /// The compatibility switch for block stores and loads.
    pub fn get_index_increment(&self) -> (on: bool)
        ensures
            on == self@.index_increment,
    {
        self.index_increment
    }

    /// Sets the program counter.
    pub fn set_pc(&mut self, pc: u16)
        ensures
            final(self)@ == (CpuView { pc, ..old(self)@ }),
            final(self)@.wf(),
    {
        proof {
            use_type_invariant(&*self);
        }
        self.pc = pc;
    }

    /// The program counter.
    pub fn get_pc(&self) -> (pc: u16)
        ensures
            pc == self@.pc,
    {
        self.pc
    }

    /// The index register.
    pub fn get_index(&self) -> (index: u16)
        ensures
            index == self@.i,
    {
        self.i
    }

    /// Sets the index register.
    pub fn set_index(&mut self, index: u16)
        ensures
            final(self)@ == (CpuView { i: index, ..old(self)@ }),
            final(self)@.wf(),
    {
        proof {
            use_type_invariant(&*self);
        }
        self.i = index;
    }

    /// The number of stack slots in use, at most sixteen.
    pub fn get_sp(&self) -> (sp: u8)
        ensures
            sp == self@.sp,
            sp <= 16,
    {
        proof {
            use_type_invariant(self);
        }
        self.sp
    }

    /// The delay timer.
    pub fn get_delay_timer(&self) -> (dt: u8)
        ensures
            dt == self@.dt,
    {
        self.dt
    }

    /// Sets the delay timer.
    pub fn set_delay_timer(&mut self, value: u8)
        ensures
            final(self)@ == (CpuView { dt: value, ..old(self)@ }),
            final(self)@.wf(),
    {
        proof {
            use_type_invariant(&*self);
        }
        self.dt = value;
    }

    /// The sound timer.
    pub fn get_sound_timer(&self) -> (st: u8)
        ensures
            st == self@.st,
    {
        self.st
    }

    /// Sets the sound timer.
    pub fn set_sound_timer(&mut self, value: u8)
        ensures
            final(self)@ == (CpuView { st: value, ..old(self)@ }),
            final(self)@.wf(),
    {
        proof {
            use_type_invariant(&*self);
        }
        self.st = value;
    }

    /// A copy of the sixteen stack slots.
    pub fn get_stack(&self) -> (stack: Vec<u16>)
        ensures
            stack@ == self@.stack,
            self@.wf(),
    {
        proof {
            use_type_invariant(self);
        }
        slice_to_vec(self.stack.as_slice())
    }

    /// A copy of the sixteen general registers.
    pub fn get_v_register(&self) -> (v: Vec<u8>)
        ensures
            v@ == self@.v,
            self@.wf(),
    {
        proof {
            use_type_invariant(self);
        }
        slice_to_vec(self.v.as_slice())
    }

    /// A snapshot of the framebuffer: 2048 cells, row by row, each 0 or 1.
    /// The snapshot is a copy; later steps do not change it.
    pub fn get_fb_register(&self) -> (fb: Vec<u8>)
        ensures
            fb@ == self@.fb,
            self@.wf(),
    {
        proof {
            use_type_invariant(self);
        }
        slice_to_vec(self.fb.as_slice())
    }

    /// Overwrites the leading stack slots with `value`; what does not fit in
    /// sixteen slots is ignored. The stack pointer is not touched.
    pub fn set_stack(&mut self, value: &[u16])
        ensures
            final(self)@ == (CpuView { stack: overwritten(old(self)@.stack, value@), ..old(self)@ }),
            final(self)@.wf(),
    {
        proof {
            use_type_invariant(&*self);
        }
        let mut k: usize = 0;
        while k < value.len() && k < 16
            invariant
                k <= 16,
                k <= value.len(),
                self.inv(),
                self@ == (CpuView {
                    stack: Seq::new(
                        16,
                        |j: int|
                            if j < k {
                                value@[j]
                            } else {
                                old(self)@.stack[j]
                            },
                    ),
                    ..old(self)@
                }),
            decreases 16 - k,
        {
            self.stack[k] = value[k];
            k += 1;
        }
    }

    /// Overwrites the leading registers with `value`; what does not fit in
    /// sixteen registers is ignored.
    pub fn set_v_register(&mut self, value: &[u8])
        ensures
            final(self)@ == (CpuView { v: overwritten(old(self)@.v, value@), ..old(self)@ }),
            final(self)@.wf(),
    {
        proof {
            use_type_invariant(&*self);
        }
        let mut k: usize = 0;
        while k < value.len() && k < 16
            invariant
                k <= 16,
                k <= value.len(),
                self.inv(),
                self@ == (CpuView {
                    v: Seq::new(
                        16,
                        |j: int|
                            if j < k {
                                value@[j]
                            } else {
                                old(self)@.v[j]
                            },
                    ),
                    ..old(self)@
                }),
            decreases 16 - k,
        {
            self.v[k] = value[k];
            k += 1;
        }
    }

    /// Overwrites the leading framebuffer cells: a zero byte turns the pixel
    /// off, any other byte turns it on. What does not fit in 2048 cells is
    /// ignored.
    pub fn set_fb_register(&mut self, value: &[u8])
        ensures
            final(self)@ == (CpuView {
                fb: overwritten(old(self)@.fb, value@.map_values(|byte: u8| pixel_of(byte))),
                ..old(self)@
            }),
            final(self)@.wf(),
    {
        proof {
            use_type_invariant(&*self);
        }
        let mut k: usize = 0;
        while k < value.len() && k < 2048
            invariant
                k <= 2048,
                k <= value.len(),
                self.inv(),
                self@ == (CpuView {
                    fb: Seq::new(
                        2048,
                        |j: int|
                            if j < k {
                                pixel_of(value@[j])
                            } else {
                                old(self)@.fb[j]
                            },
                    ),
                    ..old(self)@
                }),
            decreases 2048 - k,
        {
            self.fb[k] = if value[k] == 0 {
                0
            } else {
                1
            };
            k += 1;
        }
    }

    /// The instruction word at the program counter: the byte there is the
    /// high half, the byte in the following cell the low half.
    pub fn fetch_opcode(&self, ram: &Ram) -> (opcode: u16)
        ensures
            opcode == fetch_spec(ram@, self@.pc),
    {
        let hi = ram.read_byte(self.pc);
        let lo = ram.read_byte(self.pc.wrapping_add(1));
        (hi as u16) * 256 + (lo as u16)
    }

    /// One tick of the timer unit: each timer counts down by one and stays at zero.
    pub fn update_timers(&mut self)
        ensures
            final(self)@ == old(self)@.ticked(),
            final(self)@.wf(),
    {
        proof {
            use_type_invariant(&*self);
        }
        if self.dt > 0 {
            self.dt -= 1;
        }
        if self.st > 0 {
            self.st -= 1;
        }
    }
}

impl Cpu {
    /// Moves the program counter past the current instruction, and past the
    /// next one too if `skip` holds.
    fn proceed(&mut self, skip: bool)
        ensures
            final(self)@ == old(self)@.proceed(skip),
    {
        proof {
            use_type_invariant(&*self);
        }
        if skip {
            self.pc = self.pc.wrapping_add(4);
        } else {
            self.pc = self.pc.wrapping_add(2);
        }
    }

    /// Stores the result of an arithmetic instruction, then the flag.
    fn set_result(&mut self, x: u8, value: u8, flag: u8)
        requires
            x < 16,
        ensures
            final(self)@ == old(self)@.with_result(x as int, value, flag),
    {
        proof {
            use_type_invariant(&*self);
        }
        self.v[x as usize] = value;
        self.v[FLAG_REGISTER] = flag;
    }

    /// Executes an instruction of the register-to-register family.
    fn execute_8xyx_opcodes(&mut self, ins: Instruction)
        requires
            ins.wf(),
            is_arithmetic(ins),
        ensures
            final(self)@ == arithmetic(old(self)@, ins).advanced(),
    {
        proof {
            use_type_invariant(&*self);
        }
        match ins {
            Instruction::Copy { x, y } => {
                self.v[x as usize] = self.v[y as usize];
            },
            Instruction::Or { x, y } => {
                self.v[x as usize] = self.v[x as usize] | self.v[y as usize];
            },
            Instruction::And { x, y } => {
                self.v[x as usize] = self.v[x as usize] & self.v[y as usize];
            },
            Instruction::Xor { x, y } => {
                self.v[x as usize] = self.v[x as usize] ^ self.v[y as usize];
            },
            Instruction::Add { x, y } => {
                let a = self.v[x as usize];
                let b = self.v[y as usize];
                let carry: u8 = if a as u16 + b as u16 > 0xFF {
                    1
                } else {
                    0
                };
                self.set_result(x, a.wrapping_add(b), carry);
            },
            Instruction::Subtract { x, y } => {
                let a = self.v[x as usize];
                let b = self.v[y as usize];
                let flag: u8 = if a >= b {
                    1
                } else {
                    0
                };
                self.set_result(x, a.wrapping_sub(b), flag);
            },
            Instruction::ShiftRight { x } => {
                let a = self.v[x as usize];
                self.set_result(x, a / 2, a % 2);
            },
            Instruction::SubtractReversed { x, y } => {
                let a = self.v[x as usize];
                let b = self.v[y as usize];
                let flag: u8 = if b >= a {
                    1
                } else {
                    0
                };
                self.set_result(x, b.wrapping_sub(a), flag);
            },
            Instruction::ShiftLeft { x } => {
                let a = self.v[x as usize];
                self.set_result(x, a.wrapping_mul(2), a / 128);
            },
            _ => {},
        }
        self.proceed(false);
    }
}

impl Cpu {
    /// Composes the `n`-row sprite at the index register onto the framebuffer
    /// at (register `x`, register `y`) and sets the flag register to 1 if a
    /// lit pixel was turned off, else to 0.
    fn draw_sprite(&mut self, ram: &Ram, x: u8, y: u8, n: u8)
        requires
            x < 16,
            y < 16,
            n < 16,
        ensures
            final(self)@ == draw(old(self)@, ram@, x, y, n),
    {
        proof {
            use_type_invariant(&*self);
            ram.lemma_size();
        }
        let vx = self.v[x as usize];
        let vy = self.v[y as usize];
        let left = vx % 64;
        let top = vy % 32;
        let ghost before = self@;
        let ghost memory = ram@;
        let ghost height = n as int;
        let mut collision = false;
        let mut row: u8 = 0;
        while row < n
            invariant
                row <= n,
                n < 16,
                height == n,
                left == vx % 64,
                top == vy % 32,
                memory == ram@,
                memory.len() == 4096,
                before.fb.len() == 2048,
                self.inv(),
                self@ == (CpuView { fb: self@.fb, ..before }),
                forall|cell: int|
                    0 <= cell < 2048 ==> #[trigger] self@.fb[cell] == if sprite_lights_before(
                        memory,
                        before.i,
                        height,
                        vx,
                        vy,
                        cell,
                        row as int,
                        0,
                    ) {
                        toggled(before.fb[cell])
                    } else {
                        before.fb[cell]
                    },
                collision <==> exists|cell: int|
                    0 <= cell < 2048 && before.fb[cell] != 0 && #[trigger] sprite_lights_before(
                        memory,
                        before.i,
                        height,
                        vx,
                        vy,
                        cell,
                        row as int,
                        0,
                    ),
            decreases n - row,
        {
            let byte = ram.read_byte(self.i.wrapping_add(row as u16));
            let mut col: u8 = 0;
            while col < 8
                invariant
                    col <= 8,
                    row < n,
                    n < 16,
                    height == n,
                    left == vx % 64,
                    top == vy % 32,
                    memory == ram@,
                    memory.len() == 4096,
                    before.fb.len() == 2048,
                    byte == memory[cell_of(before.i + row)],
                    self.inv(),
                    self@ == (CpuView { fb: self@.fb, ..before }),
                    forall|cell: int|
                        0 <= cell < 2048 ==> #[trigger] self@.fb[cell] == if sprite_lights_before(
                            memory,
                            before.i,
                            height,
                            vx,
                            vy,
                            cell,
                            row as int,
                            col as int,
                        ) {
                            toggled(before.fb[cell])
                        } else {
                            before.fb[cell]
                        },
                    collision <==> exists|cell: int|
                        0 <= cell < 2048 && before.fb[cell] != 0
                            && #[trigger] sprite_lights_before(
                            memory,
                            before.i,
                            height,
                            vx,
                            vy,
                            cell,
                            row as int,
                            col as int,
                        ),
                decreases 8 - col,
            {
                let ghost target = sprite_cell(vx, vy, row as int, col as int);
                let ghost lit = row_bit(byte, col as int);
                let ghost collided = collision;
                proof {
                    lemma_sprite_cell(vx, vy, row as int, col as int);
                    assert(sprite_lights(memory, before.i, height, vx, vy, target) == lit);
                    assert forall|cell: int| 0 <= cell < 2048 implies (
                    #[trigger] sprite_lights_before(
                        memory,
                        before.i,
                        height,
                        vx,
                        vy,
                        cell,
                        row as int,
                        col + 1,
                    ) <==> sprite_lights_before(
                        memory,
                        before.i,
                        height,
                        vx,
                        vy,
                        cell,
                        row as int,
                        col as int,
                    ) || (cell == target && lit)) by {
                        lemma_cell_sprite(vx, vy, cell);
                    }
                }
                if (byte >> (7 - col)) & 1 == 1 {
                    let cell: usize = (((top + row) % 32) as usize) * 64 + ((left + col)
                        % 64) as usize;
                    assert(cell == target);
                    if self.fb[cell] != 0 {
                        collision = true;
                        self.fb[cell] = 0;
                    } else {
                        self.fb[cell] = 1;
                    }
                }
                proof {
                    assert(collision <==> collided || (lit && before.fb[target] != 0));
                    if collided {
                        let w = choose|cell: int|
                            0 <= cell < 2048 && before.fb[cell] != 0
                                && #[trigger] sprite_lights_before(
                                memory,
                                before.i,
                                height,
                                vx,
                                vy,
                                cell,
                                row as int,
                                col as int,
                            );
                        assert(sprite_lights_before(
                            memory,
                            before.i,
                            height,
                            vx,
                            vy,
                            w,
                            row as int,
                            col + 1,
                        ));
                    }
                    if lit && before.fb[target] != 0 {
                        assert(sprite_lights_before(
                            memory,
                            before.i,
                            height,
                            vx,
                            vy,
                            target,
                            row as int,
                            col + 1,
                        ));
                    }
                }
                col += 1;
            }
            proof {
                assert forall|cell: int| 0 <= cell < 2048 implies (
                #[trigger] sprite_lights_before(
                    memory,
                    before.i,
                    height,
                    vx,
                    vy,
                    cell,
                    row + 1,
                    0,
                ) <==> sprite_lights_before(
                    memory,
                    before.i,
                    height,
                    vx,
                    vy,
                    cell,
                    row as int,
                    8,
                )) by {
                    lemma_cell_sprite(vx, vy, cell);
                }
                if collision {
                    let w = choose|cell: int|
                        0 <= cell < 2048 && before.fb[cell] != 0
                            && #[trigger] sprite_lights_before(
                            memory,
                            before.i,
                            height,
                            vx,
                            vy,
                            cell,
                            row as int,
                            8,
                        );
                    assert(sprite_lights_before(
                        memory,
                        before.i,
                        height,
                        vx,
                        vy,
                        w,
                        row + 1,
                        0,
                    ));
                }
            }
            row += 1;
        }
        proof {
            assert forall|cell: int| 0 <= cell < 2048 implies (#[trigger] sprite_lights(
                memory,
                before.i,
                height,
                vx,
                vy,
                cell,
            ) <==> sprite_lights_before(memory, before.i, height, vx, vy, cell, n as int, 0)) by {
                lemma_cell_sprite(vx, vy, cell);
            }
            if collision {
                let w = choose|cell: int|
                    0 <= cell < 2048 && before.fb[cell] != 0 && #[trigger] sprite_lights_before(
                        memory,
                        before.i,
                        height,
                        vx,
                        vy,
                        cell,
                        n as int,
                        0,
                    );
                assert(sprite_lights(memory, before.i, height, vx, vy, w));
            }
            if draw_collides(before.fb, memory, before.i, height, vx, vy) {
                let w = choose|cell: int|
                    0 <= cell < before.fb.len() && before.fb[cell] != 0
                        && #[trigger] sprite_lights(memory, before.i, height, vx, vy, cell);
                assert(sprite_lights_before(memory, before.i, height, vx, vy, w, n as int, 0));
            }
            assert(self@.fb =~= draw_screen(before.fb, memory, before.i, height, vx, vy));
        }
        self.v[FLAG_REGISTER] = if collision {
            1
        } else {
            0
        };
    }
}

impl Cpu {
    /// Writes registers 0 through `x` to the cells from the index register on.
    fn store_block(&self, ram: &mut Ram, x: u8)
        requires
            x < 16,
        ensures
            final(ram)@ == store_registers(old(ram)@, self@.i, self@.v, x as int),
    {
        proof {
            ram.lemma_size();
        }
        let ghost memory = ram@;
        let mut k: u8 = 0;
        while k <= x
            invariant
                k <= x + 1,
                x < 16,
                memory.len() == 4096,
                ram@ == store_registers(memory, self@.i, self@.v, k - 1),
            decreases x + 1 - k,
        {
            ram.write_byte(self.i.wrapping_add(k as u16), self.v[k as usize]);
            k += 1;
        }
    }

    /// Reads registers 0 through `x` from the cells from the index register on.
    fn load_block(&mut self, ram: &Ram, x: u8)
        requires
            x < 16,
        ensures
            final(self)@ == (CpuView {
                v: load_registers(old(self)@.v, ram@, old(self)@.i, x as int),
                ..old(self)@
            }),
    {
        proof {
            use_type_invariant(&*self);
        }
        let mut k: u8 = 0;
        while k <= x
            invariant
                k <= x + 1,
                x < 16,
                self.inv(),
                self@ == (CpuView {
                    v: load_registers(old(self)@.v, ram@, old(self)@.i, k - 1),
                    ..old(self)@
                }),
            decreases x + 1 - k,
        {
            self.v[k as usize] = ram.read_byte(self.i.wrapping_add(k as u16));
            k += 1;
        }
    }

    /// Writes the hundreds, tens and units digits of register `x` to the
    /// three cells from the index register on.
    fn store_digits(&self, ram: &mut Ram, x: u8)
        requires
            x < 16,
        ensures
            final(ram)@ == store_decimal(old(ram)@, self@.i, self@.v[x as int]),
    {
        let value = self.v[x as usize];
        ram.write_byte(self.i, value / 100);
        ram.write_byte(self.i.wrapping_add(1), (value / 10) % 10);
        ram.write_byte(self.i.wrapping_add(2), value % 10);
    }

    /// Moves the index register past a block of registers 0 through `x`
    /// if the compatibility switch asks for it.
    fn finish_block(&mut self, x: u8)
        requires
            x < 16,
        ensures
            final(self)@ == old(self)@.after_block(x as int),
    {
        proof {
            use_type_invariant(&*self);
        }
        if self.index_increment {
            self.i = self.i.wrapping_add(x as u16 + 1);
        }
    }

    /// Executes an instruction of the timer, index and memory family.
    fn execute_fxnn_opcodes(&mut self, ram: &mut Ram, keyboard: &Keyboard, ins: Instruction) -> (outcome:
        StepOutcome)
        requires
            ins.wf(),
            is_miscellaneous(ins),
        ensures
            (Effect { cpu: final(self)@, memory: final(ram)@, outcome }) == miscellaneous(
                old(self)@,
                old(ram)@,
                keyboard@,
                ins,
            ),
    {
        proof {
            use_type_invariant(&*self);
            ram.lemma_size();
        }
        match ins {
            Instruction::ReadDelayTimer { x } => {
                self.v[x as usize] = self.dt;
            },
            Instruction::WaitForKey { x } => {
                match keyboard.first_pressed_key() {
                    Some(key) => {
                        self.v[x as usize] = key;
                    },
                    None => {
                        return StepOutcome::WaitingForKey;
                    },
                }
            },
            Instruction::SetDelayTimer { x } => {
                self.dt = self.v[x as usize];
            },
            Instruction::SetSoundTimer { x } => {
                self.st = self.v[x as usize];
            },
            Instruction::AddToIndex { x } => {
                self.i = self.i.wrapping_add(self.v[x as usize] as u16);
            },
            Instruction::LoadGlyph { x } => {
                let digit: u16 = (self.v[x as usize] % 16) as u16;
                assert(GLYPH_HEIGHT * digit == 5 * digit);
                self.i = GLYPH_BASE + GLYPH_HEIGHT * digit;
            },
            Instruction::StoreDecimal { x } => {
                self.store_digits(ram, x);
            },
            Instruction::StoreRegisters { x } => {
                self.store_block(ram, x);
                self.finish_block(x);
            },
            Instruction::LoadRegisters { x } => {
                self.load_block(ram, x);
                self.finish_block(x);
            },
            _ => {
                return StepOutcome::Completed;
            },
        }
        self.proceed(false);
        StepOutcome::Completed
    }
}

impl Cpu {
    /// Evaluates the condition of a skip instruction.
    fn skip_test(&self, keyboard: &Keyboard, ins: Instruction) -> (skip: bool)
        requires
            ins.wf(),
            is_skip(ins),
        ensures
            skip == skip_condition(self@, keyboard@, ins),
    {
        match ins {
            Instruction::SkipIfEqual { x, kk } => self.v[x as usize] == kk,
            Instruction::SkipIfNotEqual { x, kk } => self.v[x as usize] != kk,
            Instruction::SkipIfRegistersEqual { x, y } => self.v[x as usize] == self.v[y as usize],
            Instruction::SkipIfRegistersNotEqual { x, y } => self.v[x as usize]
                != self.v[y as usize],
            Instruction::SkipIfKeyDown { x } => keyboard.is_key_pressed(self.v[x as usize] as usize),
            Instruction::SkipIfKeyUp { x } => !keyboard.is_key_pressed(
                self.v[x as usize] as usize,
            ),
            _ => false,
        }
    }

    /// Pops the newest return address into the program counter.
    fn subroutine_return(&mut self) -> (outcome: StepOutcome)
        ensures
            (final(self)@, outcome) == subroutine_return(old(self)@),
    {
        proof {
            use_type_invariant(&*self);
        }
        if self.sp == 0 {
            StepOutcome::Fault(Fault::StackUnderflow)
        } else {
            self.sp -= 1;
            self.pc = self.stack[self.sp as usize];
            StepOutcome::Completed
        }
    }

    /// Pushes the address of the next instruction and jumps to `addr`.
    fn subroutine_call(&mut self, addr: u16) -> (outcome: StepOutcome)
        ensures
            (final(self)@, outcome) == subroutine_call(old(self)@, addr),
    {
        proof {
            use_type_invariant(&*self);
        }
        if self.sp >= STACK_DEPTH {
            StepOutcome::Fault(Fault::StackOverflow)
        } else {
            self.stack[self.sp as usize] = self.pc.wrapping_add(INSTRUCTION_WIDTH);
            self.sp += 1;
            self.pc = addr;
            StepOutcome::Completed
        }
    }

    /// Executes a control transfer.
    fn execute_transfer(&mut self, ins: Instruction) -> (outcome: StepOutcome)
        requires
            ins.wf(),
            is_transfer(ins),
        ensures
            (final(self)@, outcome) == transfer(old(self)@, ins),
    {
        proof {
            use_type_invariant(&*self);
        }
        match ins {
            Instruction::Return => self.subroutine_return(),
            Instruction::Jump { addr } => {
                self.pc = addr;
                StepOutcome::Completed
            },
            Instruction::Call { addr } => self.subroutine_call(addr),
            Instruction::JumpWithOffset { addr } => {
                self.pc = addr.wrapping_add(self.v[0] as u16);
                StepOutcome::Completed
            },
            _ => StepOutcome::Completed,
        }
    }

    /// Executes an instruction that loads a register from an operand.
    fn execute_immediate(&mut self, ins: Instruction, random: u8)
        requires
            ins.wf(),
            is_immediate(ins),
        ensures
            final(self)@ == immediate(old(self)@, ins, random).advanced(),
    {
        proof {
            use_type_invariant(&*self);
        }
        match ins {
            Instruction::LoadImmediate { x, kk } => {
                self.v[x as usize] = kk;
            },
            Instruction::AddImmediate { x, kk } => {
                self.v[x as usize] = self.v[x as usize].wrapping_add(kk);
            },
            Instruction::LoadIndex { addr } => {
                self.i = addr;
            },
            Instruction::Random { x, kk } => {
                self.v[x as usize] = random & kk;
            },
            _ => {},
        }
        self.proceed(false);
    }

    /// Executes an instruction that changes the framebuffer.
    fn execute_screen(&mut self, ram: &Ram, ins: Instruction)
        requires
            ins.wf(),
            is_screen(ins),
        ensures
            final(self)@ == screen(old(self)@, ram@, ins).advanced(),
    {
        proof {
            use_type_invariant(&*self);
        }
        match ins {
            Instruction::ClearScreen => {
                self.fb = [0; 2048];
                assert(self@.fb =~= blank_screen());
            },
            Instruction::Draw { x, y, n } => {
                self.draw_sprite(ram, x, y, n);
            },
            _ => {},
        }
        self.proceed(false);
    }

    /// Executes one decoded instruction.
    fn execute(
        &mut self,
        ram: &mut Ram,
        keyboard: &Keyboard,
        ins: Instruction,
        random: u8,
    ) -> (outcome: StepOutcome)
        requires
            ins.wf(),
        ensures
            (Effect { cpu: final(self)@, memory: final(ram)@, outcome }) == apply(
                old(self)@,
                old(ram)@,
                keyboard@,
                ins,
                random,
            ),
    {
        match ins {
            Instruction::SkipIfEqual { .. }
            | Instruction::SkipIfNotEqual { .. }
            | Instruction::SkipIfRegistersEqual { .. }
            | Instruction::SkipIfRegistersNotEqual { .. }
            | Instruction::SkipIfKeyDown { .. }
            | Instruction::SkipIfKeyUp { .. } => {
                let skip = self.skip_test(keyboard, ins);
                self.proceed(skip);
                StepOutcome::Completed
            },
            Instruction::Copy { .. }
            | Instruction::Or { .. }
            | Instruction::And { .. }
            | Instruction::Xor { .. }
            | Instruction::Add { .. }
            | Instruction::Subtract { .. }
            | Instruction::ShiftRight { .. }
            | Instruction::SubtractReversed { .. }
            | Instruction::ShiftLeft { .. } => {
                self.execute_8xyx_opcodes(ins);
                StepOutcome::Completed
            },
            Instruction::ReadDelayTimer { .. }
            | Instruction::WaitForKey { .. }
            | Instruction::SetDelayTimer { .. }
            | Instruction::SetSoundTimer { .. }
            | Instruction::AddToIndex { .. }
            | Instruction::LoadGlyph { .. }
            | Instruction::StoreDecimal { .. }
            | Instruction::StoreRegisters { .. }
            | Instruction::LoadRegisters { .. } => self.execute_fxnn_opcodes(ram, keyboard, ins),
            Instruction::Return
            | Instruction::Jump { .. }
            | Instruction::Call { .. }
            | Instruction::JumpWithOffset { .. } => self.execute_transfer(ins),
            Instruction::LoadImmediate { .. }
            | Instruction::AddImmediate { .. }
            | Instruction::LoadIndex { .. }
            | Instruction::Random { .. } => {
                self.execute_immediate(ins, random);
                StepOutcome::Completed
            },
            Instruction::ClearScreen | Instruction::Draw { .. } => {
                self.execute_screen(ram, ins);
                StepOutcome::Completed
            },
            Instruction::Unknown { opcode } => {
                self.proceed(false);
                StepOutcome::Fault(Fault::UnknownOpcode(opcode))
            },
        }
    }

    /// Executes one instruction word and reports how it went.
    ///
    /// `random` is the byte that the random instruction masks with its
    /// immediate; no other instruction looks at it. The timers are read and
    /// set by their instructions and never counted down here.
    ///
    /// Jump, call, return and indexed jump set the program counter to their
    /// target. A call on a full stack and a return on an empty one change
    /// nothing and report the fault. A key wait with no key down changes
    /// nothing and reports that it waits. A word that names no instruction
    /// changes nothing but the program counter, which moves on, and is
    /// reported with the word.
    pub fn execute_opcode(
        &mut self,
        ram: &mut Ram,
        keyboard: &Keyboard,
        opcode: u16,
        random: u8,
    ) -> (outcome: StepOutcome)
        ensures
            (Effect { cpu: final(self)@, memory: final(ram)@, outcome }) == execute_spec(
                old(self)@,
                old(ram)@,
                keyboard@,
                opcode,
                random,
            ),
            final(self)@.wf(),
            final(ram)@.len() == 4096,
    {
        let ins = decode(opcode);
        let outcome = self.execute(ram, keyboard, ins, random);
        proof {
            use_type_invariant(&*self);
            ram.lemma_size();
        }
        outcome
    }
}

} // verus!
