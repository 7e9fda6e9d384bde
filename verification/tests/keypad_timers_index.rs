use chip8::cycle::{Fault, Outcome};
use chip8::machine::CPU;

fn machine_with(program: &[u8]) -> CPU {
    let mut cpu = CPU::new();
    assert_eq!(cpu.load_program(program), Ok(()));
    cpu
}

#[test]
fn timers_count_down_and_stop_at_zero() {
    let mut cpu = CPU::new();
    cpu.delay_timer = 2;
    cpu.sound_timer = 1;
    cpu.decrement_timers();
    assert_eq!((cpu.delay_timer, cpu.sound_timer), (1, 0));
    cpu.decrement_timers();
    assert_eq!((cpu.delay_timer, cpu.sound_timer), (0, 0));
    cpu.decrement_timers();
    assert_eq!((cpu.delay_timer, cpu.sound_timer), (0, 0));
}

#[test]
fn timer_tick_from_the_top() {
    let mut cpu = CPU::new();
    cpu.delay_timer = 255;
    cpu.sound_timer = 0;
    cpu.decrement_timers();
    assert_eq!((cpu.delay_timer, cpu.sound_timer), (254, 0));
}

#[test]
fn timer_tick_touches_nothing_else() {
    let mut cpu = machine_with(&[0x60, 0x01]);
    cpu.v_reg[2] = 5;
    cpu.i_reg = 9;
    cpu.delay_timer = 9;
    let memory = cpu.memory;
    cpu.decrement_timers();
    assert_eq!(cpu.memory, memory);
    assert_eq!(cpu.pc, 0x200);
    assert_eq!(cpu.v_reg[2], 5);
    assert_eq!(cpu.i_reg, 9);
}

#[test]
fn timer_instructions_read_and_write() {
    let mut cpu = machine_with(&[0xF3, 0x15, 0xF4, 0x18, 0xF5, 0x07]);
    cpu.v_reg[3] = 0x40;
    cpu.v_reg[4] = 0x20;
    cpu.execute_cycle();
    assert_eq!(cpu.delay_timer, 0x40);
    assert_eq!(cpu.sound_timer, 0);
    cpu.execute_cycle();
    assert_eq!(cpu.sound_timer, 0x20);
    cpu.decrement_timers();
    cpu.execute_cycle();
    assert_eq!(cpu.v_reg[5], 0x3F);
    assert_eq!(cpu.delay_timer, 0x3F);
    assert_eq!(cpu.sound_timer, 0x1F);
}

#[test]
fn skip_if_key_down_advances_by_four_or_two() {
    let mut cpu = machine_with(&[0xE1, 0x9E]);
    cpu.v_reg[1] = 0xB;
    cpu.keys[0xB] = true;
    assert_eq!(cpu.execute_cycle(), Outcome::Executed);
    assert_eq!(cpu.pc, 0x204);
    let mut cpu = machine_with(&[0xE1, 0x9E]);
    cpu.v_reg[1] = 0xB;
    cpu.keys[0xA] = true;
    cpu.execute_cycle();
    assert_eq!(cpu.pc, 0x202);
}

#[test]
fn skip_if_key_up_advances_by_four_or_two() {
    let mut cpu = machine_with(&[0xE1, 0xA1]);
    cpu.v_reg[1] = 0xB;
    cpu.keys[0xA] = true;
    cpu.execute_cycle();
    assert_eq!(cpu.pc, 0x204);
    let mut cpu = machine_with(&[0xE1, 0xA1]);
    cpu.v_reg[1] = 0xB;
    cpu.keys[0xB] = true;
    cpu.execute_cycle();
    assert_eq!(cpu.pc, 0x202);
}

#[test]
fn key_test_on_a_key_that_does_not_exist_is_a_fault() {
    for low in [0x9Eu8, 0xA1] {
        let mut cpu = machine_with(&[0xE1, low]);
        cpu.v_reg[1] = 16;
        assert_eq!(cpu.pending_fault(), Some(Fault::KeyOutOfRange));
        assert_eq!(cpu.try_execute_cycle(), Err(Fault::KeyOutOfRange));
        assert_eq!(cpu.pc, 0x200);
        cpu.v_reg[1] = 15;
        assert_eq!(cpu.pending_fault(), None);
    }
}

#[test]
fn key_wait_blocks_until_a_release_is_latched() {
    let mut cpu = machine_with(&[0xF7, 0x0A, 0x60, 0x01]);
    cpu.v_reg[7] = 0x33;
    cpu.keys[4] = true;
    for _ in 0..10 {
        assert_eq!(cpu.execute_cycle(), Outcome::Executed);
        assert_eq!(cpu.pc, 0x200);
        assert_eq!(cpu.v_reg[7], 0x33);
        assert_eq!(cpu.key_pressed, (false, 0));
    }
    cpu.key_pressed = (true, 0xC);
    assert_eq!(cpu.execute_cycle(), Outcome::Executed);
    assert_eq!(cpu.pc, 0x202);
    assert_eq!(cpu.v_reg[7], 0xC);
    assert_eq!(cpu.key_pressed, (false, 0xC));
    cpu.execute_cycle();
    assert_eq!(cpu.pc, 0x204);
    assert_eq!(cpu.v_reg[0], 1);
}

#[test]
fn key_wait_reads_a_release_latched_beforehand() {
    let mut cpu = machine_with(&[0xF2, 0x0A, 0xF3, 0x0A]);
    cpu.key_pressed = (true, 5);
    cpu.execute_cycle();
    assert_eq!(cpu.v_reg[2], 5);
    assert_eq!(cpu.pc, 0x202);
    // The latch was emptied: the second wait blocks.
    cpu.execute_cycle();
    assert_eq!(cpu.pc, 0x202);
    assert_eq!(cpu.v_reg[3], 0);
}

#[test]
fn load_index_sets_i() {
    let mut cpu = machine_with(&[0xAF, 0xED]);
    cpu.execute_cycle();
    assert_eq!(cpu.i_reg, 0xFED);
}

#[test]
fn add_to_index_flags_leaving_the_address_range() {
    let mut cpu = CPU::new();
    cpu.i_reg = 0x0FFE;
    cpu.v_reg[1] = 1;
    cpu.v_reg[0xF] = 1;
    cpu.op_fx1e(1);
    assert_eq!(cpu.i_reg, 0x0FFF);
    assert_eq!(cpu.v_reg[0xF], 0);

    cpu.op_fx1e(1);
    assert_eq!(cpu.i_reg, 0x1000);
    assert_eq!(cpu.v_reg[0xF], 1);

    cpu.op_fx1e(1);
    assert_eq!(cpu.i_reg, 0x1001);
    assert_eq!(cpu.v_reg[0xF], 0);
}

#[test]
fn add_to_index_wraps_at_sixteen_bits() {
    let mut cpu = CPU::new();
    cpu.i_reg = 0xFFFF;
    cpu.v_reg[2] = 3;
    cpu.op_fx1e(2);
    assert_eq!(cpu.i_reg, 0x0002);
    assert_eq!(cpu.v_reg[0xF], 0);
}

#[test]
fn add_to_index_of_zero_at_the_boundary() {
    let mut cpu = CPU::new();
    cpu.i_reg = 0x0FFF;
    cpu.v_reg[2] = 0;
    cpu.op_fx1e(2);
    assert_eq!(cpu.i_reg, 0x0FFF);
    assert_eq!(cpu.v_reg[0xF], 0);
}

#[test]
fn glyph_address_is_five_times_the_register() {
    let mut cpu = machine_with(&[0xF1, 0x29]);
    cpu.v_reg[1] = 0xA;
    cpu.execute_cycle();
    assert_eq!(cpu.i_reg, 50);
    cpu.v_reg[1] = 0xFF;
    cpu.op_fx29(1);
    assert_eq!(cpu.i_reg, 1275);
}

#[test]
fn bcd_stores_hundreds_tens_ones() {
    let mut cpu = machine_with(&[0xF1, 0x33]);
    cpu.v_reg[1] = 254;
    cpu.i_reg = 0x400;
    cpu.memory[0x403] = 0x99;
    cpu.execute_cycle();
    assert_eq!(&cpu.memory[0x400..0x404], &[2, 5, 4, 0x99]);
    cpu.v_reg[1] = 7;
    cpu.op_fx33(1);
    assert_eq!(&cpu.memory[0x400..0x403], &[0, 0, 7]);
    cpu.v_reg[1] = 100;
    cpu.i_reg = 4093;
    cpu.op_fx33(1);
    assert_eq!(&cpu.memory[4093..4096], &[1, 0, 0]);
}

#[test]
fn bcd_beyond_the_end_of_memory_is_a_fault() {
    let mut cpu = machine_with(&[0xF1, 0x33]);
    cpu.i_reg = 4094;
    let memory = cpu.memory;
    assert_eq!(cpu.try_execute_cycle(), Err(Fault::AddressOverflow));
    assert_eq!(cpu.memory, memory);
    cpu.i_reg = 0xFFFF;
    assert_eq!(cpu.try_execute_cycle(), Err(Fault::AddressOverflow));
}

#[test]
fn register_dump_stops_before_vx() {
    let mut cpu = machine_with(&[0xF3, 0x55]);
    cpu.v_reg = [1, 2, 3, 4, 5, 6, 7, 8, 9, 10, 11, 12, 13, 14, 15, 16];
    cpu.i_reg = 0x500;
    cpu.execute_cycle();
    assert_eq!(&cpu.memory[0x500..0x505], &[1, 2, 3, 0, 0]);
    assert_eq!(cpu.i_reg, 0x500);
}

#[test]
fn register_dump_with_x_zero_stores_v0() {
    let mut cpu = machine_with(&[0xF0, 0x55]);
    cpu.v_reg[0] = 0x77;
    cpu.v_reg[1] = 0x88;
    cpu.i_reg = 0x500;
    cpu.execute_cycle();
    assert_eq!(&cpu.memory[0x500..0x502], &[0x77, 0]);
}

#[test]
fn register_dump_of_fifteen_registers() {
    let mut cpu = CPU::new();
    cpu.v_reg = [1, 2, 3, 4, 5, 6, 7, 8, 9, 10, 11, 12, 13, 14, 15, 16];
    cpu.i_reg = 4096 - 15;
    cpu.op_fx55(0xF);
    assert_eq!(
        &cpu.memory[4096 - 16..],
        &[0, 1, 2, 3, 4, 5, 6, 7, 8, 9, 10, 11, 12, 13, 14, 15]
    );
}

#[test]
fn register_load_stops_before_vx() {
    let mut cpu = machine_with(&[0xF3, 0x65]);
    cpu.i_reg = 0x500;
    cpu.memory[0x500] = 0x11;
    cpu.memory[0x501] = 0x22;
    cpu.memory[0x502] = 0x33;
    cpu.memory[0x503] = 0x44;
    cpu.v_reg[3] = 0xEE;
    cpu.execute_cycle();
    assert_eq!(&cpu.v_reg[..5], &[0x11, 0x22, 0x33, 0xEE, 0]);
    assert_eq!(cpu.i_reg, 0x500);
}

#[test]
fn register_load_with_x_zero_loads_v0() {
    let mut cpu = machine_with(&[0xF0, 0x65]);
    cpu.i_reg = 0x500;
    cpu.memory[0x500] = 0x11;
    cpu.memory[0x501] = 0x22;
    cpu.execute_cycle();
    assert_eq!(&cpu.v_reg[..2], &[0x11, 0]);
}

#[test]
fn register_transfer_beyond_the_end_of_memory_is_a_fault() {
    for low in [0x55u8, 0x65] {
        let mut cpu = machine_with(&[0xF4, low]);
        cpu.i_reg = 4093;
        assert_eq!(cpu.try_execute_cycle(), Err(Fault::AddressOverflow));
        assert_eq!(cpu.pc, 0x200);
        cpu.i_reg = 4092;
        assert_eq!(cpu.try_execute_cycle(), Ok(Outcome::Executed));
        let mut cpu = machine_with(&[0xF0, low]);
        cpu.i_reg = 4096;
        assert_eq!(cpu.try_execute_cycle(), Err(Fault::AddressOverflow));
        cpu.i_reg = 4095;
        assert_eq!(cpu.try_execute_cycle(), Ok(Outcome::Executed));
    }
}

#[test]
fn faults_are_distinct() {
    assert_ne!(Fault::AddressOverflow, Fault::StackUnderflow);
    assert_ne!(Fault::StackUnderflow, Fault::KeyOutOfRange);
    assert_ne!(Fault::AddressOverflow, Fault::KeyOutOfRange);
}
