use rust_chip8_emulator::cpu::Cpu;
use rust_chip8_emulator::keyboard::Keyboard;
use rust_chip8_emulator::outcome::{Fault, StepOutcome};
use rust_chip8_emulator::ram::Ram;

fn machine() -> (Cpu, Ram, Keyboard) {
    let mut cpu = Cpu::new();
    cpu.set_pc(0x200);
    (cpu, Ram::new(), Keyboard::new())
}

fn registers(pairs: &[(usize, u8)]) -> Vec<u8> {
    let mut v = vec![0u8; 16];
    for &(x, value) in pairs {
        v[x] = value;
    }
    v
}

fn run(cpu: &mut Cpu, ram: &mut Ram, keyboard: &Keyboard, opcode: u16) -> StepOutcome {
    cpu.execute_opcode(ram, keyboard, opcode, 0)
}

#[test]
fn new_cpu_is_all_zero() {
    let cpu = Cpu::new();
    assert_eq!(cpu.get_stack(), vec![0u16; 16]);
    assert_eq!(cpu.get_v_register(), vec![0u8; 16]);
    assert_eq!(cpu.get_fb_register(), vec![0u8; 2048]);
    assert_eq!(cpu.get_pc(), 0);
    assert_eq!(cpu.get_index(), 0);
    assert_eq!(cpu.get_sp(), 0);
    assert_eq!(cpu.get_delay_timer(), 0);
    assert_eq!(cpu.get_sound_timer(), 0);
    assert!(!cpu.get_index_increment());
}

#[test]
fn set_stack_overwrites_leading_slots() {
    let mut cpu = Cpu::new();
    cpu.set_stack(&[0x111, 0x222, 0x333]);
    let stack = cpu.get_stack();
    assert_eq!(stack.len(), 16);
    assert_eq!(&stack[..4], &[0x111, 0x222, 0x333, 0]);
    assert_eq!(cpu.get_sp(), 0);
}

#[test]
fn set_stack_ignores_what_does_not_fit() {
    let mut cpu = Cpu::new();
    let values: Vec<u16> = (1..=20).collect();
    cpu.set_stack(&values);
    let expected: Vec<u16> = (1..=16).collect();
    assert_eq!(cpu.get_stack(), expected);
}

#[test]
fn set_v_register_overwrites_leading_registers() {
    let mut cpu = Cpu::new();
    cpu.set_v_register(&[9, 8, 7]);
    let v = cpu.get_v_register();
    assert_eq!(v.len(), 16);
    assert_eq!(&v[..4], &[9, 8, 7, 0]);
    cpu.set_v_register(&[1]);
    assert_eq!(&cpu.get_v_register()[..4], &[1, 8, 7, 0]);
    let many: Vec<u8> = (0..40).collect();
    cpu.set_v_register(&many);
    let expected: Vec<u8> = (0..16).collect();
    assert_eq!(cpu.get_v_register(), expected);
    cpu.set_v_register(&[]);
    assert_eq!(cpu.get_v_register(), expected);
}

#[test]
fn set_fb_register_stores_zero_or_one() {
    let mut cpu = Cpu::new();
    cpu.set_fb_register(&[1, 0, 255, 2, 0, 1]);
    let fb = cpu.get_fb_register();
    assert_eq!(fb.len(), 2048);
    assert_eq!(&fb[..7], &[1, 0, 1, 1, 0, 1, 0]);
    let all = vec![7u8; 3000];
    cpu.set_fb_register(&all);
    assert_eq!(cpu.get_fb_register(), vec![1u8; 2048]);
}

#[test]
fn framebuffer_snapshot_is_a_copy() {
    let (mut cpu, mut ram, keyboard) = machine();
    cpu.set_fb_register(&[1, 1, 1]);
    let mut snapshot = cpu.get_fb_register();
    snapshot[0] = 0;
    assert_eq!(cpu.get_fb_register()[0], 1);
    let before = cpu.get_fb_register();
    run(&mut cpu, &mut ram, &keyboard, 0x00E0);
    assert_eq!(&before[..3], &[1, 1, 1]);
    assert_eq!(cpu.get_fb_register(), vec![0u8; 2048]);
}

#[test]
fn fetch_reads_two_consecutive_bytes_big_endian() {
    let (mut cpu, mut ram, _) = machine();
    ram.write_byte(0x200, 0x12);
    ram.write_byte(0x201, 0x34);
    assert_eq!(cpu.fetch_opcode(&ram), 0x1234);
    ram.write_byte(0x200, 0xAB);
    ram.write_byte(0x201, 0x00);
    assert_eq!(cpu.fetch_opcode(&ram), 0xAB00);
    cpu.set_pc(0x201);
    ram.write_byte(0x202, 0xCD);
    assert_eq!(cpu.fetch_opcode(&ram), 0x00CD);
}

#[test]
fn fetch_wraps_at_the_end_of_memory() {
    let (mut cpu, mut ram, _) = machine();
    ram.write_byte(0xFFF, 0x6A);
    ram.write_byte(0x000, 0x05);
    cpu.set_pc(0xFFF);
    assert_eq!(cpu.fetch_opcode(&ram), 0x6A05);
    cpu.set_pc(0x1FFF);
    assert_eq!(cpu.fetch_opcode(&ram), 0x6A05);
    cpu.set_pc(0xFFFF);
    assert_eq!(cpu.fetch_opcode(&ram), 0x6A05);
}

#[test]
fn jump_sets_pc_to_target_not_target_plus_two() {
    let (mut cpu, mut ram, keyboard) = machine();
    assert_eq!(run(&mut cpu, &mut ram, &keyboard, 0x1ABC), StepOutcome::Completed);
    assert_eq!(cpu.get_pc(), 0xABC);
    run(&mut cpu, &mut ram, &keyboard, 0x1001);
    assert_eq!(cpu.get_pc(), 0x001);
    run(&mut cpu, &mut ram, &keyboard, 0x1000);
    assert_eq!(cpu.get_pc(), 0x000);
}

#[test]
fn call_sets_pc_to_target_and_pushes_next_instruction() {
    let (mut cpu, mut ram, keyboard) = machine();
    assert_eq!(run(&mut cpu, &mut ram, &keyboard, 0x2ABC), StepOutcome::Completed);
    assert_eq!(cpu.get_pc(), 0xABC);
    assert_eq!(cpu.get_sp(), 1);
    assert_eq!(cpu.get_stack()[0], 0x202);
}

#[test]
fn indexed_jump_adds_register_zero() {
    let (mut cpu, mut ram, keyboard) = machine();
    cpu.set_v_register(&[0x10]);
    assert_eq!(run(&mut cpu, &mut ram, &keyboard, 0xB300), StepOutcome::Completed);
    assert_eq!(cpu.get_pc(), 0x310);
    cpu.set_v_register(&[0xFF]);
    run(&mut cpu, &mut ram, &keyboard, 0xBFFF);
    assert_eq!(cpu.get_pc(), 0x10FE);
}

#[test]
fn call_then_return_restores_pc_and_sp() {
    let (mut cpu, mut ram, keyboard) = machine();
    cpu.set_pc(0x246);
    run(&mut cpu, &mut ram, &keyboard, 0x2400);
    assert_eq!(cpu.get_pc(), 0x400);
    assert_eq!(cpu.get_sp(), 1);
    assert_eq!(run(&mut cpu, &mut ram, &keyboard, 0x00EE), StepOutcome::Completed);
    assert_eq!(cpu.get_pc(), 0x248);
    assert_eq!(cpu.get_sp(), 0);
}

#[test]
fn nested_calls_return_in_reverse_order() {
    let (mut cpu, mut ram, keyboard) = machine();
    run(&mut cpu, &mut ram, &keyboard, 0x2300);
    run(&mut cpu, &mut ram, &keyboard, 0x2400);
    run(&mut cpu, &mut ram, &keyboard, 0x2500);
    assert_eq!(cpu.get_sp(), 3);
    run(&mut cpu, &mut ram, &keyboard, 0x00EE);
    assert_eq!(cpu.get_pc(), 0x402);
    run(&mut cpu, &mut ram, &keyboard, 0x00EE);
    assert_eq!(cpu.get_pc(), 0x302);
    run(&mut cpu, &mut ram, &keyboard, 0x00EE);
    assert_eq!(cpu.get_pc(), 0x202);
    assert_eq!(cpu.get_sp(), 0);
}

#[test]
fn return_on_empty_stack_is_an_underflow() {
    let (mut cpu, mut ram, keyboard) = machine();
    cpu.set_v_register(&[1, 2, 3]);
    let outcome = run(&mut cpu, &mut ram, &keyboard, 0x00EE);
    assert_eq!(outcome, StepOutcome::Fault(Fault::StackUnderflow));
    assert_eq!(cpu.get_pc(), 0x200);
    assert_eq!(cpu.get_sp(), 0);
    assert_eq!(&cpu.get_v_register()[..3], &[1, 2, 3]);
    assert_eq!(run(&mut cpu, &mut ram, &keyboard, 0x6005), StepOutcome::Completed);
    assert_eq!(cpu.get_pc(), 0x202);
}

#[test]
fn seventeenth_call_is_an_overflow() {
    let (mut cpu, mut ram, keyboard) = machine();
    for depth in 0..16u8 {
        assert_eq!(cpu.get_sp(), depth);
        assert_eq!(run(&mut cpu, &mut ram, &keyboard, 0x2300), StepOutcome::Completed);
    }
    assert_eq!(cpu.get_sp(), 16);
    let stack = cpu.get_stack();
    let outcome = run(&mut cpu, &mut ram, &keyboard, 0x2400);
    assert_eq!(outcome, StepOutcome::Fault(Fault::StackOverflow));
    assert_eq!(cpu.get_sp(), 16);
    assert_eq!(cpu.get_pc(), 0x300);
    assert_eq!(cpu.get_stack(), stack);
    assert_eq!(run(&mut cpu, &mut ram, &keyboard, 0x00EE), StepOutcome::Completed);
    assert_eq!(cpu.get_sp(), 15);
}

#[test]
fn skip_if_equal_immediate() {
    let (mut cpu, mut ram, keyboard) = machine();
    cpu.set_v_register(&registers(&[(3, 0x42)]));
    run(&mut cpu, &mut ram, &keyboard, 0x3342);
    assert_eq!(cpu.get_pc(), 0x204);
    run(&mut cpu, &mut ram, &keyboard, 0x3343);
    assert_eq!(cpu.get_pc(), 0x206);
}

#[test]
fn skip_if_not_equal_immediate() {
    let (mut cpu, mut ram, keyboard) = machine();
    cpu.set_v_register(&registers(&[(3, 0x42)]));
    run(&mut cpu, &mut ram, &keyboard, 0x4342);
    assert_eq!(cpu.get_pc(), 0x202);
    run(&mut cpu, &mut ram, &keyboard, 0x4343);
    assert_eq!(cpu.get_pc(), 0x206);
}

#[test]
fn skip_on_register_comparison() {
    let (mut cpu, mut ram, keyboard) = machine();
    cpu.set_v_register(&registers(&[(1, 7), (2, 7), (3, 8)]));
    run(&mut cpu, &mut ram, &keyboard, 0x5120);
    assert_eq!(cpu.get_pc(), 0x204);
    run(&mut cpu, &mut ram, &keyboard, 0x5130);
    assert_eq!(cpu.get_pc(), 0x206);
    run(&mut cpu, &mut ram, &keyboard, 0x9120);
    assert_eq!(cpu.get_pc(), 0x208);
    run(&mut cpu, &mut ram, &keyboard, 0x9130);
    assert_eq!(cpu.get_pc(), 0x20C);
}

#[test]
fn skip_on_key_state() {
    let (mut cpu, mut ram, mut keyboard) = machine();
    cpu.set_v_register(&registers(&[(4, 0xB)]));
    run(&mut cpu, &mut ram, &keyboard, 0xE49E);
    assert_eq!(cpu.get_pc(), 0x202);
    run(&mut cpu, &mut ram, &keyboard, 0xE4A1);
    assert_eq!(cpu.get_pc(), 0x206);
    keyboard.key_down(0xB);
    run(&mut cpu, &mut ram, &keyboard, 0xE49E);
    assert_eq!(cpu.get_pc(), 0x20A);
    run(&mut cpu, &mut ram, &keyboard, 0xE4A1);
    assert_eq!(cpu.get_pc(), 0x20C);
}

#[test]
fn key_skip_with_a_value_off_the_keypad_sees_no_key() {
    let (mut cpu, mut ram, mut keyboard) = machine();
    for key in 0..16 {
        keyboard.key_down(key);
    }
    cpu.set_v_register(&registers(&[(4, 0x1B)]));
    run(&mut cpu, &mut ram, &keyboard, 0xE49E);
    assert_eq!(cpu.get_pc(), 0x202);
    run(&mut cpu, &mut ram, &keyboard, 0xE4A1);
    assert_eq!(cpu.get_pc(), 0x206);
}

#[test]
fn load_and_add_immediate() {
    let (mut cpu, mut ram, keyboard) = machine();
    cpu.set_v_register(&registers(&[(0xF, 1)]));
    run(&mut cpu, &mut ram, &keyboard, 0x6A05);
    assert_eq!(cpu.get_v_register()[0xA], 5);
    run(&mut cpu, &mut ram, &keyboard, 0x7A05);
    assert_eq!(cpu.get_v_register()[0xA], 10);
    assert_eq!(cpu.get_v_register()[0xF], 1);
    assert_eq!(cpu.get_pc(), 0x204);
}

#[test]
fn add_immediate_wraps_without_carry() {
    let (mut cpu, mut ram, keyboard) = machine();
    cpu.set_v_register(&registers(&[(2, 0xFF)]));
    run(&mut cpu, &mut ram, &keyboard, 0x7202);
    assert_eq!(cpu.get_v_register()[2], 0x01);
    assert_eq!(cpu.get_v_register()[0xF], 0);
}

#[test]
fn copy_or_and_xor() {
    let (mut cpu, mut ram, keyboard) = machine();
    cpu.set_v_register(&registers(&[(1, 0b1100), (2, 0b1010), (0xF, 9)]));
    run(&mut cpu, &mut ram, &keyboard, 0x8121);
    assert_eq!(cpu.get_v_register()[1], 0b1110);
    cpu.set_v_register(&registers(&[(1, 0b1100), (2, 0b1010), (0xF, 9)]));
    run(&mut cpu, &mut ram, &keyboard, 0x8122);
    assert_eq!(cpu.get_v_register()[1], 0b1000);
    cpu.set_v_register(&registers(&[(1, 0b1100), (2, 0b1010), (0xF, 9)]));
    run(&mut cpu, &mut ram, &keyboard, 0x8123);
    assert_eq!(cpu.get_v_register()[1], 0b0110);
    run(&mut cpu, &mut ram, &keyboard, 0x8320);
    assert_eq!(cpu.get_v_register()[3], 0b1010);
    assert_eq!(cpu.get_v_register()[0xF], 9);
    assert_eq!(cpu.get_pc(), 0x208);
}

#[test]
fn add_with_carry() {
    let (mut cpu, mut ram, keyboard) = machine();
    cpu.set_v_register(&registers(&[(0xA, 0xFF), (0xB, 0x01)]));
    assert_eq!(run(&mut cpu, &mut ram, &keyboard, 0x8AB4), StepOutcome::Completed);
    assert_eq!(cpu.get_v_register()[0xA], 0x00);
    assert_eq!(cpu.get_v_register()[0xB], 0x01);
    assert_eq!(cpu.get_v_register()[0xF], 1);
    assert_eq!(cpu.get_pc(), 0x202);
}

#[test]
fn add_without_carry_clears_flag() {
    let (mut cpu, mut ram, keyboard) = machine();
    cpu.set_v_register(&registers(&[(0xA, 0xFE), (0xB, 0x01), (0xF, 1)]));
    run(&mut cpu, &mut ram, &keyboard, 0x8AB4);
    assert_eq!(cpu.get_v_register()[0xA], 0xFF);
    assert_eq!(cpu.get_v_register()[0xF], 0);
    cpu.set_v_register(&registers(&[(0xA, 200), (0xB, 100)]));
    run(&mut cpu, &mut ram, &keyboard, 0x8AB4);
    assert_eq!(cpu.get_v_register()[0xA], 44);
    assert_eq!(cpu.get_v_register()[0xF], 1);
}

#[test]
fn subtract_with_borrow_wraps_and_clears_flag() {
    let (mut cpu, mut ram, keyboard) = machine();
    cpu.set_v_register(&registers(&[(0xA, 0x05), (0xB, 0x0A), (0xF, 1)]));
    run(&mut cpu, &mut ram, &keyboard, 0x8AB5);
    assert_eq!(cpu.get_v_register()[0xA], 0xFB);
    assert_eq!(cpu.get_v_register()[0xF], 0);
}

#[test]
fn subtract_without_borrow_sets_flag() {
    let (mut cpu, mut ram, keyboard) = machine();
    cpu.set_v_register(&registers(&[(0xA, 0x0A), (0xB, 0x05)]));
    run(&mut cpu, &mut ram, &keyboard, 0x8AB5);
    assert_eq!(cpu.get_v_register()[0xA], 0x05);
    assert_eq!(cpu.get_v_register()[0xF], 1);
}

#[test]
fn subtract_of_equal_operands_sets_flag() {
    let (mut cpu, mut ram, keyboard) = machine();
    cpu.set_v_register(&registers(&[(0xA, 0x33), (0xB, 0x33)]));
    run(&mut cpu, &mut ram, &keyboard, 0x8AB5);
    assert_eq!(cpu.get_v_register()[0xA], 0);
    assert_eq!(cpu.get_v_register()[0xF], 1);
    cpu.set_v_register(&registers(&[(0xA, 0x33), (0xB, 0x33)]));
    run(&mut cpu, &mut ram, &keyboard, 0x8AB7);
    assert_eq!(cpu.get_v_register()[0xA], 0);
    assert_eq!(cpu.get_v_register()[0xF], 1);
}

#[test]
fn subtract_reversed() {
    let (mut cpu, mut ram, keyboard) = machine();
    cpu.set_v_register(&registers(&[(0xA, 0x05), (0xB, 0x0A)]));
    run(&mut cpu, &mut ram, &keyboard, 0x8AB7);
    assert_eq!(cpu.get_v_register()[0xA], 0x05);
    assert_eq!(cpu.get_v_register()[0xB], 0x0A);
    assert_eq!(cpu.get_v_register()[0xF], 1);
    cpu.set_v_register(&registers(&[(0xA, 0x0A), (0xB, 0x05)]));
    run(&mut cpu, &mut ram, &keyboard, 0x8AB7);
    assert_eq!(cpu.get_v_register()[0xA], 0xFB);
    assert_eq!(cpu.get_v_register()[0xF], 0);
}

#[test]
fn subtract_reads_the_flag_register_before_it_is_overwritten() {
    let (mut cpu, mut ram, keyboard) = machine();
    cpu.set_v_register(&registers(&[(0xA, 0x10), (0xF, 0x03)]));
    run(&mut cpu, &mut ram, &keyboard, 0x8AF5);
    assert_eq!(cpu.get_v_register()[0xA], 0x0D);
    assert_eq!(cpu.get_v_register()[0xF], 1);
}

#[test]
fn shift_right() {
    let (mut cpu, mut ram, keyboard) = machine();
    cpu.set_v_register(&registers(&[(0xA, 0x01), (0xB, 0x77)]));
    run(&mut cpu, &mut ram, &keyboard, 0x8AB6);
    assert_eq!(cpu.get_v_register()[0xA], 0x00);
    assert_eq!(cpu.get_v_register()[0xB], 0x77);
    assert_eq!(cpu.get_v_register()[0xF], 1);
    cpu.set_v_register(&registers(&[(0xA, 0xFE)]));
    run(&mut cpu, &mut ram, &keyboard, 0x8AB6);
    assert_eq!(cpu.get_v_register()[0xA], 0x7F);
    assert_eq!(cpu.get_v_register()[0xF], 0);
}

#[test]
fn shift_left() {
    let (mut cpu, mut ram, keyboard) = machine();
    cpu.set_v_register(&registers(&[(0xA, 0x81), (0xB, 0x77)]));
    run(&mut cpu, &mut ram, &keyboard, 0x8ABE);
    assert_eq!(cpu.get_v_register()[0xA], 0x02);
    assert_eq!(cpu.get_v_register()[0xB], 0x77);
    assert_eq!(cpu.get_v_register()[0xF], 1);
    cpu.set_v_register(&registers(&[(0xA, 0x40)]));
    run(&mut cpu, &mut ram, &keyboard, 0x8ABE);
    assert_eq!(cpu.get_v_register()[0xA], 0x80);
    assert_eq!(cpu.get_v_register()[0xF], 0);
}

#[test]
fn flag_register_as_target_ends_up_holding_the_flag() {
    let (mut cpu, mut ram, keyboard) = machine();
    cpu.set_v_register(&registers(&[(0xF, 0xFF), (0x1, 0x02)]));
    run(&mut cpu, &mut ram, &keyboard, 0x8F14);
    assert_eq!(cpu.get_v_register()[0xF], 1);
    cpu.set_v_register(&registers(&[(0xF, 0x10), (0x1, 0x02)]));
    run(&mut cpu, &mut ram, &keyboard, 0x8F14);
    assert_eq!(cpu.get_v_register()[0xF], 0);
    cpu.set_v_register(&registers(&[(0xF, 0x03)]));
    run(&mut cpu, &mut ram, &keyboard, 0x8F06);
    assert_eq!(cpu.get_v_register()[0xF], 1);
}

#[test]
fn unknown_arithmetic_word_is_reported() {
    let (mut cpu, mut ram, keyboard) = machine();
    cpu.set_v_register(&registers(&[(1, 5), (2, 6)]));
    let outcome = run(&mut cpu, &mut ram, &keyboard, 0x8129);
    assert_eq!(outcome, StepOutcome::Fault(Fault::UnknownOpcode(0x8129)));
    assert_eq!(cpu.get_v_register(), registers(&[(1, 5), (2, 6)]));
    assert_eq!(cpu.get_pc(), 0x202);
}

#[test]
fn unknown_opcode_only_advances() {
    let (mut cpu, mut ram, keyboard) = machine();
    cpu.set_v_register(&[1, 2, 3, 4]);
    cpu.set_stack(&[5, 6]);
    cpu.set_fb_register(&[1, 0, 1]);
    cpu.set_index(0x123);
    cpu.set_delay_timer(9);
    cpu.set_sound_timer(8);
    ram.write_byte(0x300, 0x77);
    let v = cpu.get_v_register();
    let stack = cpu.get_stack();
    let fb = cpu.get_fb_register();
    for (k, opcode) in [0x0000u16, 0x0123, 0xE000, 0xF0FF, 0x800F].into_iter().enumerate() {
        let outcome = run(&mut cpu, &mut ram, &keyboard, opcode);
        assert_eq!(outcome, StepOutcome::Fault(Fault::UnknownOpcode(opcode)));
        assert_eq!(cpu.get_pc(), 0x202 + 2 * k as u16);
    }
    assert_eq!(cpu.get_v_register(), v);
    assert_eq!(cpu.get_stack(), stack);
    assert_eq!(cpu.get_fb_register(), fb);
    assert_eq!(cpu.get_index(), 0x123);
    assert_eq!(cpu.get_sp(), 0);
    assert_eq!(cpu.get_delay_timer(), 9);
    assert_eq!(cpu.get_sound_timer(), 8);
    assert_eq!(ram.read_byte(0x300), 0x77);
}

#[test]
fn load_index() {
    let (mut cpu, mut ram, keyboard) = machine();
    run(&mut cpu, &mut ram, &keyboard, 0xA123);
    assert_eq!(cpu.get_index(), 0x123);
    assert_eq!(cpu.get_pc(), 0x202);
}

#[test]
fn add_to_index_leaves_flag_alone() {
    let (mut cpu, mut ram, keyboard) = machine();
    cpu.set_v_register(&registers(&[(3, 0x20), (0xF, 7)]));
    cpu.set_index(0x100);
    run(&mut cpu, &mut ram, &keyboard, 0xF31E);
    assert_eq!(cpu.get_index(), 0x120);
    assert_eq!(cpu.get_v_register()[0xF], 7);
    cpu.set_index(0xFFF);
    run(&mut cpu, &mut ram, &keyboard, 0xF31E);
    assert_eq!(cpu.get_index(), 0x101F);
    assert_eq!(cpu.get_v_register()[0xF], 7);
    cpu.set_index(0xFFFF);
    run(&mut cpu, &mut ram, &keyboard, 0xF31E);
    assert_eq!(cpu.get_index(), 0x001F);
}

#[test]
fn random_masks_the_given_byte() {
    let (mut cpu, mut ram, keyboard) = machine();
    cpu.execute_opcode(&mut ram, &keyboard, 0xC30F, 0xAB);
    assert_eq!(cpu.get_v_register()[3], 0x0B);
    cpu.execute_opcode(&mut ram, &keyboard, 0xC4F0, 0xAB);
    assert_eq!(cpu.get_v_register()[4], 0xA0);
    cpu.execute_opcode(&mut ram, &keyboard, 0xC500, 0xFF);
    assert_eq!(cpu.get_v_register()[5], 0x00);
    cpu.execute_opcode(&mut ram, &keyboard, 0xC6FF, 0x5A);
    assert_eq!(cpu.get_v_register()[6], 0x5A);
    assert_eq!(cpu.get_pc(), 0x208);
}

#[test]
fn random_byte_is_ignored_by_other_instructions() {
    let (mut first, mut ram_a, keyboard) = machine();
    let (mut second, mut ram_b, _) = machine();
    for opcode in [0x6A05u16, 0x7A05, 0x8AB4, 0xA300, 0xFA33, 0xD005, 0x2400] {
        first.execute_opcode(&mut ram_a, &keyboard, opcode, 0x00);
        second.execute_opcode(&mut ram_b, &keyboard, opcode, 0xFF);
    }
    assert_eq!(first.get_v_register(), second.get_v_register());
    assert_eq!(first.get_fb_register(), second.get_fb_register());
    assert_eq!(first.get_stack(), second.get_stack());
    assert_eq!(first.get_pc(), second.get_pc());
}

#[test]
fn timer_instructions() {
    let (mut cpu, mut ram, keyboard) = machine();
    cpu.set_v_register(&registers(&[(1, 30), (2, 40)]));
    run(&mut cpu, &mut ram, &keyboard, 0xF115);
    assert_eq!(cpu.get_delay_timer(), 30);
    assert_eq!(cpu.get_sound_timer(), 0);
    run(&mut cpu, &mut ram, &keyboard, 0xF218);
    assert_eq!(cpu.get_sound_timer(), 40);
    run(&mut cpu, &mut ram, &keyboard, 0xF307);
    assert_eq!(cpu.get_v_register()[3], 30);
    assert_eq!(cpu.get_delay_timer(), 30);
    assert_eq!(cpu.get_pc(), 0x206);
}

#[test]
fn update_timers_counts_down_and_stops_at_zero() {
    let mut cpu = Cpu::new();
    cpu.set_delay_timer(2);
    cpu.set_sound_timer(1);
    cpu.update_timers();
    assert_eq!((cpu.get_delay_timer(), cpu.get_sound_timer()), (1, 0));
    cpu.update_timers();
    assert_eq!((cpu.get_delay_timer(), cpu.get_sound_timer()), (0, 0));
    cpu.update_timers();
    assert_eq!((cpu.get_delay_timer(), cpu.get_sound_timer()), (0, 0));
    cpu.set_delay_timer(255);
    cpu.update_timers();
    assert_eq!(cpu.get_delay_timer(), 254);
}

#[test]
fn instructions_do_not_count_timers_down() {
    let (mut cpu, mut ram, keyboard) = machine();
    cpu.set_delay_timer(10);
    cpu.set_sound_timer(20);
    for opcode in [0x6A05u16, 0x7A05, 0x00E0, 0x1200, 0xA300, 0xD005, 0x0000] {
        run(&mut cpu, &mut ram, &keyboard, opcode);
    }
    assert_eq!(cpu.get_delay_timer(), 10);
    assert_eq!(cpu.get_sound_timer(), 20);
}

#[test]
fn glyph_address_uses_the_low_nibble() {
    let (mut cpu, mut ram, keyboard) = machine();
    cpu.set_v_register(&registers(&[(1, 0x0), (2, 0x7), (3, 0xF), (4, 0x13)]));
    run(&mut cpu, &mut ram, &keyboard, 0xF129);
    assert_eq!(cpu.get_index(), 0x50);
    run(&mut cpu, &mut ram, &keyboard, 0xF229);
    assert_eq!(cpu.get_index(), 0x50 + 35);
    run(&mut cpu, &mut ram, &keyboard, 0xF329);
    assert_eq!(cpu.get_index(), 0x50 + 75);
    run(&mut cpu, &mut ram, &keyboard, 0xF429);
    assert_eq!(cpu.get_index(), 0x50 + 15);
}

#[test]
fn decimal_digits_go_to_three_consecutive_cells() {
    let (mut cpu, mut ram, keyboard) = machine();
    cpu.set_v_register(&registers(&[(5, 214)]));
    cpu.set_index(0x300);
    assert_eq!(run(&mut cpu, &mut ram, &keyboard, 0xF533), StepOutcome::Completed);
    assert_eq!(ram.read_byte(0x300), 2);
    assert_eq!(ram.read_byte(0x301), 1);
    assert_eq!(ram.read_byte(0x302), 4);
    assert_eq!(ram.read_byte(0x2FF), 0);
    assert_eq!(ram.read_byte(0x303), 0);
    assert_eq!(cpu.get_index(), 0x300);
    assert_eq!(cpu.get_pc(), 0x202);
}

#[test]
fn decimal_digits_of_edge_values() {
    let (mut cpu, mut ram, keyboard) = machine();
    cpu.set_index(0x400);
    let cases = [(0u8, [0u8, 0, 0]), (9, [0, 0, 9]), (70, [0, 7, 0]), (255, [2, 5, 5]), (100, [1, 0, 0])];
    for (value, digits) in cases {
        cpu.set_v_register(&[value]);
        run(&mut cpu, &mut ram, &keyboard, 0xF033);
        assert_eq!([ram.read_byte(0x400), ram.read_byte(0x401), ram.read_byte(0x402)], digits);
    }
}

#[test]
fn decimal_digits_wrap_at_the_end_of_memory() {
    let (mut cpu, mut ram, keyboard) = machine();
    cpu.set_v_register(&[123]);
    cpu.set_index(0xFFE);
    run(&mut cpu, &mut ram, &keyboard, 0xF033);
    assert_eq!(ram.read_byte(0xFFE), 1);
    assert_eq!(ram.read_byte(0xFFF), 2);
    assert_eq!(ram.read_byte(0x000), 3);
}

#[test]
fn block_store_then_load_round_trip() {
    let (mut cpu, mut ram, keyboard) = machine();
    cpu.set_v_register(&[0x11, 0x22, 0x33, 0x44, 0x55]);
    cpu.set_index(0x300);
    assert_eq!(run(&mut cpu, &mut ram, &keyboard, 0xF355), StepOutcome::Completed);
    assert_eq!(ram.read_byte(0x300), 0x11);
    assert_eq!(ram.read_byte(0x301), 0x22);
    assert_eq!(ram.read_byte(0x302), 0x33);
    assert_eq!(ram.read_byte(0x303), 0x44);
    assert_eq!(ram.read_byte(0x304), 0x00);
    assert_eq!(cpu.get_index(), 0x300);
    cpu.set_v_register(&[0, 0, 0, 0, 0]);
    assert_eq!(run(&mut cpu, &mut ram, &keyboard, 0xF365), StepOutcome::Completed);
    assert_eq!(&cpu.get_v_register()[..5], &[0x11, 0x22, 0x33, 0x44, 0x00]);
    assert_eq!(cpu.get_index(), 0x300);
    assert_eq!(cpu.get_pc(), 0x204);
}

#[test]
fn block_store_of_register_zero_alone() {
    let (mut cpu, mut ram, keyboard) = machine();
    cpu.set_v_register(&[0xAA, 0xBB]);
    cpu.set_index(0x300);
    run(&mut cpu, &mut ram, &keyboard, 0xF055);
    assert_eq!(ram.read_byte(0x300), 0xAA);
    assert_eq!(ram.read_byte(0x301), 0x00);
}

#[test]
fn block_store_of_all_registers_wraps_at_the_end_of_memory() {
    let (mut cpu, mut ram, keyboard) = machine();
    let values: Vec<u8> = (1..=16).collect();
    cpu.set_v_register(&values);
    cpu.set_index(0xFF8);
    run(&mut cpu, &mut ram, &keyboard, 0xFF55);
    for k in 0..16u16 {
        assert_eq!(ram.read_byte((0xFF8 + k) % 4096), k as u8 + 1);
    }
    cpu.set_v_register(&[0u8; 16]);
    run(&mut cpu, &mut ram, &keyboard, 0xFF65);
    assert_eq!(cpu.get_v_register(), values);
}

#[test]
fn block_transfer_with_index_increment_switched_on() {
    let (mut cpu, mut ram, keyboard) = machine();
    cpu.set_index_increment(true);
    assert!(cpu.get_index_increment());
    cpu.set_v_register(&[0x11, 0x22, 0x33, 0x44]);
    cpu.set_index(0x300);
    run(&mut cpu, &mut ram, &keyboard, 0xF355);
    assert_eq!(cpu.get_index(), 0x304);
    assert_eq!(ram.read_byte(0x303), 0x44);
    assert_eq!(ram.read_byte(0x304), 0x00);
    cpu.set_v_register(&[0, 0, 0, 0]);
    cpu.set_index(0x300);
    run(&mut cpu, &mut ram, &keyboard, 0xF365);
    assert_eq!(&cpu.get_v_register()[..4], &[0x11, 0x22, 0x33, 0x44]);
    assert_eq!(cpu.get_index(), 0x304);
    cpu.set_index_increment(false);
    run(&mut cpu, &mut ram, &keyboard, 0xF365);
    assert_eq!(cpu.get_index(), 0x304);
}

#[test]
fn clear_screen_blanks_a_dirty_framebuffer() {
    let (mut cpu, mut ram, keyboard) = machine();
    cpu.set_fb_register(&vec![1u8; 2048]);
    ram.write_byte(0x200, 0x00);
    ram.write_byte(0x201, 0xE0);
    let opcode = cpu.fetch_opcode(&ram);
    assert_eq!(opcode, 0x00E0);
    assert_eq!(run(&mut cpu, &mut ram, &keyboard, opcode), StepOutcome::Completed);
    assert_eq!(cpu.get_fb_register(), vec![0u8; 2048]);
    assert_eq!(cpu.get_pc(), 0x202);
}

#[test]
fn draw_one_row_sprite_twice_restores_and_reports_collision() {
    let (mut cpu, mut ram, keyboard) = machine();
    ram.write_byte(0x300, 0xFF);
    cpu.set_index(0x300);
    cpu.set_v_register(&registers(&[(1, 10), (2, 5)]));
    assert_eq!(run(&mut cpu, &mut ram, &keyboard, 0xD121), StepOutcome::Completed);
    let fb = cpu.get_fb_register();
    for cell in 0..2048 {
        let lit = cell / 64 == 5 && (10..18).contains(&(cell % 64));
        assert_eq!(fb[cell], lit as u8);
    }
    assert_eq!(cpu.get_v_register()[0xF], 0);
    assert_eq!(run(&mut cpu, &mut ram, &keyboard, 0xD121), StepOutcome::Completed);
    assert_eq!(cpu.get_fb_register(), vec![0u8; 2048]);
    assert_eq!(cpu.get_v_register()[0xF], 1);
    assert_eq!(cpu.get_pc(), 0x204);
}

#[test]
fn draw_follows_the_sprite_bits() {
    let (mut cpu, mut ram, keyboard) = machine();
    ram.write_byte(0x300, 0b1010_0001);
    ram.write_byte(0x301, 0b0100_0000);
    cpu.set_index(0x300);
    cpu.set_v_register(&registers(&[(0, 0), (1, 0)]));
    run(&mut cpu, &mut ram, &keyboard, 0xD012);
    let fb = cpu.get_fb_register();
    assert_eq!(&fb[..8], &[1, 0, 1, 0, 0, 0, 0, 1]);
    assert_eq!(&fb[64..72], &[0, 1, 0, 0, 0, 0, 0, 0]);
    assert_eq!(fb.iter().map(|&p| p as u32).sum::<u32>(), 4);
    assert_eq!(cpu.get_v_register()[0xF], 0);
}

#[test]
fn draw_reports_collision_only_when_a_lit_pixel_goes_off() {
    let (mut cpu, mut ram, keyboard) = machine();
    ram.write_byte(0x300, 0b1100_0000);
    ram.write_byte(0x301, 0b0011_0000);
    ram.write_byte(0x302, 0b0110_0000);
    cpu.set_index(0x300);
    run(&mut cpu, &mut ram, &keyboard, 0xD011);
    assert_eq!(cpu.get_v_register()[0xF], 0);
    cpu.set_index(0x301);
    run(&mut cpu, &mut ram, &keyboard, 0xD011);
    assert_eq!(cpu.get_v_register()[0xF], 0);
    assert_eq!(&cpu.get_fb_register()[..4], &[1, 1, 1, 1]);
    cpu.set_index(0x302);
    run(&mut cpu, &mut ram, &keyboard, 0xD011);
    assert_eq!(cpu.get_v_register()[0xF], 1);
    assert_eq!(&cpu.get_fb_register()[..4], &[1, 0, 0, 1]);
}

#[test]
fn draw_wraps_around_both_screen_edges() {
    let (mut cpu, mut ram, keyboard) = machine();
    ram.write_byte(0x300, 0xFF);
    ram.write_byte(0x301, 0xFF);
    cpu.set_index(0x300);
    cpu.set_v_register(&registers(&[(1, 60), (2, 31)]));
    run(&mut cpu, &mut ram, &keyboard, 0xD122);
    let fb = cpu.get_fb_register();
    for cell in 0..2048 {
        let column = cell % 64;
        let row = cell / 64;
        let lit = (row == 31 || row == 0) && (column >= 60 || column < 4);
        assert_eq!(fb[cell], lit as u8, "cell {}", cell);
    }
}

#[test]
fn draw_reduces_the_corner_modulo_the_screen_size() {
    let (mut first, mut ram, keyboard) = machine();
    ram.write_byte(0x300, 0x81);
    first.set_index(0x300);
    first.set_v_register(&registers(&[(1, 64 + 3), (2, 32 * 3 + 7)]));
    run(&mut first, &mut ram, &keyboard, 0xD121);
    let (mut second, _, _) = machine();
    second.set_index(0x300);
    second.set_v_register(&registers(&[(1, 3), (2, 7)]));
    run(&mut second, &mut ram, &keyboard, 0xD121);
    assert_eq!(first.get_fb_register(), second.get_fb_register());
    assert_eq!(first.get_fb_register()[7 * 64 + 3], 1);
    assert_eq!(first.get_fb_register()[7 * 64 + 10], 1);
}

#[test]
fn draw_of_height_zero_changes_nothing_and_clears_flag() {
    let (mut cpu, mut ram, keyboard) = machine();
    ram.write_byte(0x300, 0xFF);
    cpu.set_index(0x300);
    cpu.set_fb_register(&[1, 1, 1, 1]);
    cpu.set_v_register(&registers(&[(0xF, 1)]));
    let before = cpu.get_fb_register();
    run(&mut cpu, &mut ram, &keyboard, 0xD010);
    assert_eq!(cpu.get_fb_register(), before);
    assert_eq!(cpu.get_v_register()[0xF], 0);
}

#[test]
fn draw_reads_its_corner_before_it_writes_the_flag() {
    let (mut cpu, mut ram, keyboard) = machine();
    ram.write_byte(0x300, 0x80);
    cpu.set_index(0x300);
    cpu.set_v_register(&registers(&[(0xF, 9)]));
    run(&mut cpu, &mut ram, &keyboard, 0xDFF1);
    assert_eq!(cpu.get_fb_register()[9 * 64 + 9], 1);
    assert_eq!(cpu.get_v_register()[0xF], 0);
}

#[test]
fn draw_leaves_memory_and_index_alone() {
    let (mut cpu, mut ram, keyboard) = machine();
    ram.write_byte(0x300, 0xF0);
    cpu.set_index(0x300);
    run(&mut cpu, &mut ram, &keyboard, 0xD015);
    assert_eq!(cpu.get_index(), 0x300);
    assert_eq!(ram.read_byte(0x300), 0xF0);
    assert_eq!(ram.read_byte(0x301), 0x00);
}

#[test]
fn key_wait_holds_the_program_counter_until_a_key_is_down() {
    let (mut cpu, mut ram, mut keyboard) = machine();
    cpu.set_v_register(&registers(&[(6, 0x77)]));
    for _ in 0..3 {
        let outcome = run(&mut cpu, &mut ram, &keyboard, 0xF60A);
        assert_eq!(outcome, StepOutcome::WaitingForKey);
        assert_eq!(cpu.get_pc(), 0x200);
        assert_eq!(cpu.get_v_register()[6], 0x77);
    }
    keyboard.key_down(0xD);
    let outcome = run(&mut cpu, &mut ram, &keyboard, 0xF60A);
    assert_eq!(outcome, StepOutcome::Completed);
    assert_eq!(cpu.get_pc(), 0x202);
    assert_eq!(cpu.get_v_register()[6], 0xD);
}

#[test]
fn key_wait_latches_the_lowest_key_down() {
    let (mut cpu, mut ram, mut keyboard) = machine();
    keyboard.key_down(9);
    keyboard.key_down(2);
    keyboard.key_down(0xE);
    run(&mut cpu, &mut ram, &keyboard, 0xF10A);
    assert_eq!(cpu.get_v_register()[1], 2);
}

#[test]
fn program_counter_wraps_at_sixteen_bits() {
    let (mut cpu, mut ram, keyboard) = machine();
    cpu.set_pc(0xFFFE);
    run(&mut cpu, &mut ram, &keyboard, 0x6001);
    assert_eq!(cpu.get_pc(), 0x0000);
    cpu.set_pc(0xFFFE);
    cpu.set_v_register(&[1]);
    run(&mut cpu, &mut ram, &keyboard, 0x3001);
    assert_eq!(cpu.get_pc(), 0x0002);
}

#[test]
fn only_clear_and_draw_change_the_framebuffer() {
    let (mut cpu, mut ram, mut keyboard) = machine();
    keyboard.key_down(1);
    cpu.set_fb_register(&[1, 0, 1, 1, 0, 1]);
    let before = cpu.get_fb_register();
    let words = [
        0x1200u16, 0x2300, 0x00EE, 0x3000, 0x4000, 0x5010, 0x6A05, 0x7A05, 0x8AB0, 0x8AB1, 0x8AB2,
        0x8AB3, 0x8AB4, 0x8AB5, 0x8AB6, 0x8AB7, 0x8ABE, 0x9010, 0xA300, 0xB300, 0xC3FF, 0xE09E,
        0xE0A1, 0xF007, 0xF00A, 0xF015, 0xF018, 0xF01E, 0xF029, 0xF033, 0xF355, 0xF365, 0xFFFF,
    ];
    for opcode in words {
        cpu.execute_opcode(&mut ram, &keyboard, opcode, 0x5A);
        assert_eq!(cpu.get_fb_register(), before, "opcode {:04X}", opcode);
    }
}

#[test]
fn only_stores_change_memory() {
    let (mut cpu, mut ram, mut keyboard) = machine();
    keyboard.key_down(1);
    ram.write_byte(0x300, 0xFF);
    cpu.set_v_register(&[1, 2, 3, 4]);
    let snapshot = |ram: &Ram| (0..4096u16).map(|addr| ram.read_byte(addr)).collect::<Vec<u8>>();
    let before = snapshot(&ram);
    let words = [
        0x00E0u16, 0x1200, 0x2300, 0x00EE, 0x3000, 0x6A05, 0x7A05, 0x8AB4, 0x8ABE, 0xA300, 0xB300,
        0xC3FF, 0xD015, 0xE09E, 0xF007, 0xF00A, 0xF015, 0xF018, 0xF01E, 0xF029, 0xF365, 0xFFFF,
    ];
    for opcode in words {
        cpu.execute_opcode(&mut ram, &keyboard, opcode, 0x5A);
        assert_eq!(snapshot(&ram), before, "opcode {:04X}", opcode);
    }
    cpu.set_index(0x400);
    cpu.set_v_register(&[0x77]);
    cpu.execute_opcode(&mut ram, &keyboard, 0xF055, 0);
    assert_ne!(snapshot(&ram), before);
    assert_eq!(ram.read_byte(0x400), 0x77);
}

#[test]
fn draw_twice_restores_a_dirty_framebuffer() {
    let (mut cpu, mut ram, keyboard) = machine();
    let dirty: Vec<u8> = (0..2048u32).map(|cell| ((cell * 7 + cell / 64) % 3 == 0) as u8).collect();
    cpu.set_fb_register(&dirty);
    for row in 0..15u16 {
        ram.write_byte(0x300 + row, (row as u8).wrapping_mul(37) ^ 0xA5);
    }
    cpu.set_index(0x300);
    cpu.set_v_register(&registers(&[(1, 61), (2, 25)]));
    cpu.execute_opcode(&mut ram, &keyboard, 0xD12F, 0);
    assert_ne!(cpu.get_fb_register(), dirty);
    cpu.execute_opcode(&mut ram, &keyboard, 0xD12F, 0);
    assert_eq!(cpu.get_fb_register(), dirty);
}

#[test]
fn straight_line_execution_keeps_pc_even() {
    let (mut cpu, mut ram, mut keyboard) = machine();
    keyboard.key_down(0);
    let words = [
        0x00E0u16, 0x3000, 0x4000, 0x5010, 0x6A05, 0x7A05, 0x8AB4, 0x9010, 0xA300, 0xC3FF, 0xD015,
        0xE09E, 0xE0A1, 0xF007, 0xF00A, 0xF015, 0xF01E, 0xF029, 0xF033, 0xF355, 0xF365, 0xFFFF,
    ];
    for opcode in words {
        cpu.execute_opcode(&mut ram, &keyboard, opcode, 0);
        assert_eq!(cpu.get_pc() % 2, 0, "opcode {:04X}", opcode);
    }
    assert!(cpu.get_pc() >= 0x200 + 2 * words.len() as u16);
}

#[test]
fn keypad_is_read_by_key_instructions_only() {
    let (mut first, mut ram_a, mut down) = machine();
    let (mut second, mut ram_b, up) = machine();
    for key in 0..16 {
        down.key_down(key);
    }
    let words = [0x6A05u16, 0x3A05, 0x8AB4, 0xA300, 0xD015, 0xF033, 0x2400, 0x00EE, 0xFFFF];
    for opcode in words {
        let a = first.execute_opcode(&mut ram_a, &down, opcode, 0);
        let b = second.execute_opcode(&mut ram_b, &up, opcode, 0);
        assert_eq!(a, b);
    }
    assert_eq!(first.get_v_register(), second.get_v_register());
    assert_eq!(first.get_pc(), second.get_pc());
    assert_eq!(first.get_fb_register(), second.get_fb_register());
}
