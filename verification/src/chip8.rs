//! The virtual machine as a whole: memory, processor, keypad and a random
//! source, with loading, stepping and timer ticks as independent operations.

use vstd::prelude::*;
use crate::cpu::Cpu;
use crate::instruction::{decode_spec, is_random};
use crate::keyboard::{key_is_down, Keyboard};
use crate::laws::law_random_byte_matters_to_random_only;
use crate::model::{execute_spec, fetch_spec, CpuView, Effect, GLYPH_BASE};
use crate::outcome::{LoadError, StepOutcome, VmState};
use crate::ram::{Ram, PROGRAM_START};
use crate::random::{next_random_byte, rest_of, seeded_generator, seeded_stream, stream_of};

verus! {

/// Largest program image that fits between the program start and the end of memory.
pub const MAX_PROGRAM_SIZE: usize = 3584;

/// The built-in 4x5 sprites for the hexadecimal digits 0 through F, five
/// bytes each, the glyph in the high nibble of every byte.
pub const GLYPHS: [u8; 80] = [
    0xF0, 0x90, 0x90, 0x90, 0xF0,
    0x20, 0x60, 0x20, 0x20, 0x70,
    0xF0, 0x10, 0xF0, 0x80, 0xF0,
    0xF0, 0x10, 0xF0, 0x10, 0xF0,
    0x90, 0x90, 0xF0, 0x10, 0x10,
    0xF0, 0x80, 0xF0, 0x10, 0xF0,
    0xF0, 0x80, 0xF0, 0x90, 0xF0,
    0xF0, 0x10, 0x20, 0x40, 0x40,
    0xF0, 0x90, 0xF0, 0x90, 0xF0,
    0xF0, 0x90, 0xF0, 0x10, 0xF0,
    0xF0, 0x90, 0xF0, 0x90, 0x90,
    0xE0, 0x90, 0xE0, 0x90, 0xE0,
    0xF0, 0x80, 0x80, 0x80, 0xF0,
    0xE0, 0x90, 0x90, 0x90, 0xE0,
    0xF0, 0x80, 0xF0, 0x80, 0xF0,
    0xF0, 0x80, 0xF0, 0x80, 0x80,
];

/// The machine as mathematical values.
#[verifier::ext_equal]
pub struct MachineView {
    /// Processor state.
    pub cpu: CpuView,
    /// The 4096 memory cells.
    pub memory: Seq<u8>,
    /// The sixteen keys, `true` while held down.
    pub keys: Seq<bool>,
    /// Phase of the machine's life.
    pub state: VmState,
    /// The bytes that the random source is going to yield, by position.
    pub random: spec_fn(nat) -> u8,
}

/// `memory` with `bytes` written to the cells from `start` on.
pub open spec fn with_bytes_at(memory: Seq<u8>, start: int, bytes: Seq<u8>) -> Seq<u8> {
    Seq::new(
        memory.len(),
        |cell: int|
            if start <= cell < start + bytes.len() {
                bytes[cell - start]
            } else {
                memory[cell]
            },
    )
}

/// Memory right after `program` was loaded: the glyph table in the reserved
/// low region, the program from the program start on, zero everywhere else.
pub open spec fn loaded_memory(program: Seq<u8>) -> Seq<u8> {
    with_bytes_at(
        with_bytes_at(Seq::new(4096, |cell: int| 0u8), GLYPH_BASE as int, GLYPHS@),
        PROGRAM_START as int,
        program,
    )
}

/// The phase that a step leaves the machine in.
pub open spec fn state_after(outcome: StepOutcome) -> VmState {
    if outcome is WaitingForKey {
        VmState::WaitingForKey
    } else {
        VmState::Running
    }
}

impl MachineView {
    /// The state is one that a machine can be in.
    pub open spec fn wf(self) -> bool {
        &&& self.cpu.wf()
        &&& self.memory.len() == 4096
        &&& self.keys.len() == 16
    }

    /// A machine that was just constructed with `seed`: everything zero,
    /// nothing loaded, and a random source that is going to yield the bytes
    /// that `seed` fixes.
    pub open spec fn initial(seed: u64) -> MachineView {
        MachineView {
            cpu: CpuView::initial(),
            memory: Seq::new(4096, |cell: int| 0u8),
            keys: Seq::new(16, |k: int| false),
            state: VmState::Uninitialized,
            random: seeded_stream(seed),
        }
    }

    /// A machine right after `program` was loaded: every entity reset, the
    /// program in memory and the program counter at its first instruction.
    /// Only the compatibility switch and the random source are carried
    /// over.
    pub open spec fn loaded(
        program: Seq<u8>,
        index_increment: bool,
        random: spec_fn(nat) -> u8,
    ) -> MachineView {
        MachineView {
            cpu: CpuView { pc: PROGRAM_START, index_increment, ..CpuView::initial() },
            memory: loaded_memory(program),
            keys: Seq::new(16, |k: int| false),
            state: VmState::Loaded,
            random,
        }
    }

    /// The instruction word that the next step executes.
    pub open spec fn next_opcode(self) -> u16 {
        fetch_spec(self.memory, self.cpu.pc)
    }

    /// Whether the next step draws a random byte: only the random
    /// instruction does.
    pub open spec fn draws_random(self) -> bool {
        decode_spec(self.next_opcode()) is Random
    }

    /// The byte that the random source yields next.
    pub open spec fn next_random(self) -> u8 {
        (self.random)(0)
    }

    /// What the next step does to processor and memory and what it reports:
    /// the word at the program counter is executed, with the next byte of
    /// the random source as its random byte.
    pub open spec fn next_effect(self) -> Effect {
        execute_spec(self.cpu, self.memory, self.keys, self.next_opcode(), self.next_random())
    }

    /// The machine after one step. The random source moves on by one byte
    /// if the step executes the random instruction, and stays otherwise.
    pub open spec fn stepped(self) -> MachineView {
        MachineView {
            cpu: self.next_effect().cpu,
            memory: self.next_effect().memory,
            keys: self.keys,
            state: state_after(self.next_effect().outcome),
            random: if self.draws_random() {
                rest_of(self.random)
            } else {
                self.random
            },
        }
    }

    /// What one step reports.
    pub open spec fn step_outcome(self) -> StepOutcome {
        self.next_effect().outcome
    }
}

/// Writes `bytes` to the cells from `start` on.
fn copy_into(ram: &mut Ram, start: u16, bytes: &[u8])
    requires
        start + bytes@.len() <= 4096,
    ensures
        final(ram)@ == with_bytes_at(old(ram)@, start as int, bytes@),
{
    proof {
        ram.lemma_size();
    }
    let ghost memory = ram@;
    let mut k: usize = 0;
    while k < bytes.len()
        invariant
            k <= bytes@.len(),
            start + bytes@.len() <= 4096,
            memory.len() == 4096,
            ram@ == with_bytes_at(memory, start as int, bytes@.subrange(0, k as int)),
        decreases bytes@.len() - k,
    {
        ram.write_byte(start + k as u16, bytes[k]);
        k += 1;
    }
    assert(bytes@.subrange(0, k as int) == bytes@);
}

/// The virtual machine. It owns all of its parts; the host sees them through
/// copies and read-only borrows.
pub struct Chip8 {
    ram: Ram,
    cpu: Cpu,
    keyboard: Keyboard,
    generator: rand::rngs::StdRng,
    state: VmState,
}

impl View for Chip8 {
    type V = MachineView;

    closed spec fn view(&self) -> MachineView {
        MachineView {
            cpu: self.cpu@,
            memory: self.ram@,
            keys: self.keyboard@,
            state: self.state,
            random: stream_of(self.generator),
        }
    }
}

impl Chip8 {
    /// The parts of a machine are always well formed.
    proof fn lemma_wf(&self)
        requires
            self.cpu.inv(),
        ensures
            self@.wf(),
    {
        self.ram.lemma_size();
        self.keyboard.lemma_size();
    }

    /// A machine with everything at zero and nothing loaded. Its random
    /// source is seeded with zero; `with_seed` picks another seed.
    pub fn new() -> (chip8: Chip8)
        ensures
            chip8@ == MachineView::initial(0),
            chip8@.wf(),
    {
        Chip8::with_seed(0)
    }

    /// A machine with everything at zero and nothing loaded, whose random
    /// source is seeded with `seed`: machines made with one seed draw the
    /// same random bytes in the same order.
    pub fn with_seed(seed: u64) -> (chip8: Chip8)
        ensures
            chip8@ == MachineView::initial(seed),
            chip8@.wf(),
    {
        let chip8 = Chip8 {
            ram: Ram::new(),
            cpu: Cpu::new(),
            keyboard: Keyboard::new(),
            generator: seeded_generator(seed),
            state: VmState::Uninitialized,
        };
        assert(chip8@.random =~= seeded_stream(seed));
        chip8
    }

    /// Loads a program image. An image of more than 3584 bytes is refused
    /// and the machine stays as it was. Otherwise memory, registers, stack,
    /// timers, framebuffer and keypad are reset, the glyph table and the
    /// image are written to memory, and the program counter is set to the
    /// image's first byte. The random source goes on where it was.
    pub fn load_rom_data(&mut self, data: &[u8]) -> (result: Result<(), LoadError>)
        ensures
            data@.len() > 3584 ==> result == Err::<(), LoadError>(LoadError::RomTooLarge)
                && final(self)@ == old(self)@,
            data@.len() <= 3584 ==> result == Ok::<(), LoadError>(()) && final(self)@
                == MachineView::loaded(data@, old(self)@.cpu.index_increment, old(self)@.random),
            final(self)@.wf(),
    {
        proof {
            use_type_invariant(&self.cpu);
            self.lemma_wf();
        }
        if data.len() > MAX_PROGRAM_SIZE {
            return Err(LoadError::RomTooLarge);
        }
        let index_increment = self.cpu.get_index_increment();
        let mut ram = Ram::new();
        copy_into(&mut ram, GLYPH_BASE, GLYPHS.as_slice());
        copy_into(&mut ram, PROGRAM_START, data);
        let mut cpu = Cpu::new();
        cpu.set_index_increment(index_increment);
        cpu.set_pc(PROGRAM_START);
        proof {
            ram.lemma_size();
        }
        self.ram = ram;
        self.cpu = cpu;
        self.keyboard = Keyboard::new();
        self.state = VmState::Loaded;
        Ok(())
    }

    /// Executes exactly one instruction: the word at the program counter is
    /// fetched, decoded and carried out. The timers are not counted down;
    /// that is `update_timers`. The random instruction draws the next byte
    /// of the machine's random source; no other instruction draws from it.
    pub fn run_cycle(&mut self) -> (outcome: StepOutcome)
        ensures
            final(self)@ == old(self)@.stepped(),
            outcome == old(self)@.step_outcome(),
            final(self)@.wf(),
    {
        proof {
            use_type_invariant(&self.cpu);
            self.lemma_wf();
        }
        let opcode = self.cpu.fetch_opcode(&self.ram);
        let random = if is_random(opcode) {
            let byte = next_random_byte(&mut self.generator);
            assert(stream_of(self.generator) =~= rest_of(old(self)@.random));
            byte
        } else {
            proof {
                law_random_byte_matters_to_random_only(
                    self.cpu@,
                    self.ram@,
                    self.keyboard@,
                    opcode,
                    0,
                    old(self)@.next_random(),
                );
            }
            0
        };
        let outcome = self.cpu.execute_opcode(&mut self.ram, &self.keyboard, opcode, random);
        self.state = match outcome {
            StepOutcome::WaitingForKey => VmState::WaitingForKey,
            _ => VmState::Running,
        };
        outcome
    }

    /// One tick of the timer unit: each timer counts down by one and stays
    /// at zero. Nothing else changes.
    pub fn update_timers(&mut self)
        ensures
            final(self)@ == (MachineView { cpu: old(self)@.cpu.ticked(), ..old(self)@ }),
            final(self)@.wf(),
    {
        proof {
            use_type_invariant(&self.cpu);
            self.lemma_wf();
        }
        self.cpu.update_timers();
    }

    /// A snapshot of the framebuffer: 2048 cells, row by row, each 0 or 1.
    pub fn frame_buffer(&self) -> (fb: Vec<u8>)
        ensures
            fb@ == self@.cpu.fb,
            self@.wf(),
    {
        proof {
            use_type_invariant(&self.cpu);
            self.lemma_wf();
        }
        self.cpu.get_fb_register()
    }

    /// The processor, for reading.
    pub fn cpu(&self) -> (cpu: &Cpu)
        ensures
            cpu@ == self@.cpu,
            self@.wf(),
    {
        proof {
            use_type_invariant(&self.cpu);
            self.lemma_wf();
        }
        &self.cpu
    }

    /// The memory, for reading.
    pub fn ram(&self) -> (ram: &Ram)
        ensures
            ram@ == self@.memory,
    {
        &self.ram
    }

    /// The keypad, for reading.
    pub fn keyboard(&self) -> (keyboard: &Keyboard)
        ensures
            keyboard@ == self@.keys,
    {
        &self.keyboard
    }

    /// Phase of the machine's life.
    pub fn state(&self) -> (state: VmState)
        ensures
            state == self@.state,
    {
        self.state
    }

    /// Sets the compatibility switch: with `on`, a block store or load of
    /// registers 0 through `x` leaves the index register raised by `x + 1`;
    /// without, which is how a machine starts out, it leaves the index
    /// register as it was. Loading a program keeps the switch.
    pub fn set_index_increment(&mut self, on: bool)
        ensures
            final(self)@ == (MachineView {
                cpu: CpuView { index_increment: on, ..old(self)@.cpu },
                ..old(self)@
            }),
            final(self)@.wf(),
    {
        proof {
            use_type_invariant(&self.cpu);
            self.lemma_wf();
        }
        self.cpu.set_index_increment(on);
    }

    /// Whether `key` is held down. An index off the keypad is never down.
    pub fn is_key_pressed(&self, key: usize) -> (pressed: bool)
        ensures
            pressed == key_is_down(self@.keys, key as int),
    {
        self.keyboard.is_key_pressed(key)
    }

    /// Marks `key` as held down. An index off the keypad changes nothing.
    pub fn key_down(&mut self, key: usize)
        ensures
            key < 16 ==> final(self)@ == (MachineView {
                keys: old(self)@.keys.update(key as int, true),
                ..old(self)@
            }),
            key >= 16 ==> final(self)@ == old(self)@,
            final(self)@.wf(),
    {
        proof {
            use_type_invariant(&self.cpu);
            self.lemma_wf();
        }
        self.keyboard.key_down(key);
    }

    /// Marks `key` as released. An index off the keypad changes nothing.
    pub fn key_up(&mut self, key: usize)
        ensures
            key < 16 ==> final(self)@ == (MachineView {
                keys: old(self)@.keys.update(key as int, false),
                ..old(self)@
            }),
            key >= 16 ==> final(self)@ == old(self)@,
            final(self)@.wf(),
    {
        proof {
            use_type_invariant(&self.cpu);
            self.lemma_wf();
        }
        self.keyboard.key_up(key);
    }
}

} // verus!
