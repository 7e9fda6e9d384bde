use chip8::cycle::{Fault, Outcome};
use chip8::font::FONTSET;
use chip8::machine::CPU;

fn lit_pixels(cpu: &CPU) -> Vec<(usize, usize)> {
    let mut lit = Vec::new();
    for r in 0..32 {
        for c in 0..64 {
            if cpu.screen_data[r][c] {
                lit.push((r, c));
            }
        }
    }
    lit
}

#[test]
fn clear_screen_turns_every_pixel_off() {
    let mut cpu = CPU::new();
    cpu.screen_data[0][0] = true;
    cpu.screen_data[31][63] = true;
    cpu.screen_data[10][20] = true;
    cpu.v_reg[0xF] = 1;
    cpu.pc = 0x202;
    assert_eq!(cpu.execute_opcode(0x00E0), Outcome::Executed);
    assert!(lit_pixels(&cpu).is_empty());
    assert_eq!(cpu.v_reg[0xF], 1);
    assert_eq!(cpu.pc, 0x202);
}

#[test]
fn font_glyph_is_drawn_top_left() {
    for digit in 0..16usize {
        let address = (digit * 5) as u16;
        let mut cpu = CPU::new();
        let program = [0xA0 | (address >> 8) as u8, (address & 0xFF) as u8, 0xD0, 0x05];
        assert_eq!(cpu.load_program(&program), Ok(()));
        assert_eq!(cpu.execute_cycle(), Outcome::Executed);
        assert_eq!(cpu.i_reg, address);
        assert_eq!(cpu.execute_cycle(), Outcome::Executed);
        for r in 0..5 {
            for c in 0..8 {
                let expected = (FONTSET[digit * 5 + r] >> (7 - c)) & 1 == 1;
                assert_eq!(cpu.screen_data[r][c], expected);
            }
        }
        for r in 0..32 {
            for c in 0..64 {
                if r >= 5 || c >= 8 {
                    assert!(!cpu.screen_data[r][c]);
                }
            }
        }
        assert_eq!(cpu.v_reg[0xF], 0);
        assert_eq!(cpu.pc, 0x204);
    }
}

#[test]
fn glyph_zero_has_its_known_shape() {
    let mut cpu = CPU::new();
    assert_eq!(cpu.load_program(&[0xA0, 0x00, 0xD0, 0x05]), Ok(()));
    cpu.execute_cycle();
    cpu.execute_cycle();
    let expected = vec![
        (0, 0), (0, 1), (0, 2), (0, 3),
        (1, 0), (1, 3),
        (2, 0), (2, 3),
        (3, 0), (3, 3),
        (4, 0), (4, 1), (4, 2), (4, 3),
    ];
    assert_eq!(lit_pixels(&cpu), expected);
}

#[test]
fn drawing_twice_restores_the_screen() {
    let mut cpu = CPU::new();
    cpu.screen_data[3][9] = true;
    cpu.screen_data[4][10] = true;
    cpu.screen_data[20][40] = true;
    let before = cpu.screen_data;
    cpu.i_reg = 0x300;
    cpu.memory[0x300] = 0b1111_0000;
    cpu.memory[0x301] = 0b0011_1100;
    cpu.memory[0x302] = 0b1000_0001;
    cpu.v_reg[1] = 8;
    cpu.v_reg[2] = 3;
    cpu.op_dxyn(1, 2, 3);
    assert_ne!(cpu.screen_data, before);
    // (3, 9) and (4, 10) were lit and are covered: the first pass collides.
    assert_eq!(cpu.v_reg[0xF], 1);
    assert!(!cpu.screen_data[3][9]);
    assert!(!cpu.screen_data[4][10]);
    cpu.op_dxyn(1, 2, 3);
    assert_eq!(cpu.screen_data, before);
    // The second pass turns off what the first turned on.
    assert_eq!(cpu.v_reg[0xF], 1);
}

#[test]
fn drawing_twice_where_every_pixel_was_lit_ends_without_collision() {
    let mut cpu = CPU::new();
    for c in 0..8 {
        cpu.screen_data[0][c] = true;
    }
    let before = cpu.screen_data;
    cpu.i_reg = 0x300;
    cpu.memory[0x300] = 0xFF;
    cpu.op_dxyn(0, 0, 1);
    assert_eq!(cpu.v_reg[0xF], 1);
    assert!(lit_pixels(&cpu).is_empty());
    cpu.op_dxyn(0, 0, 1);
    assert_eq!(cpu.v_reg[0xF], 0);
    assert_eq!(cpu.screen_data, before);
}

#[test]
fn drawing_wraps_around_both_edges() {
    let mut cpu = CPU::new();
    cpu.i_reg = 0x300;
    cpu.memory[0x300] = 0b1000_0001;
    cpu.memory[0x301] = 0b0100_0010;
    cpu.v_reg[0] = 60;
    cpu.v_reg[1] = 31;
    cpu.op_dxyn(0, 1, 2);
    assert_eq!(lit_pixels(&cpu), vec![(0, 2), (0, 61), (31, 3), (31, 60)]);
    assert_eq!(cpu.v_reg[0xF], 0);
}

#[test]
fn coordinates_are_taken_modulo_the_screen_size() {
    let mut cpu = CPU::new();
    cpu.i_reg = 0x300;
    cpu.memory[0x300] = 0b1100_0000;
    cpu.v_reg[0] = 64 + 5;
    cpu.v_reg[1] = 32 * 7 + 2;
    cpu.op_dxyn(0, 1, 1);
    assert_eq!(lit_pixels(&cpu), vec![(2, 5), (2, 6)]);
}

#[test]
fn drawing_no_rows_only_resets_the_flag() {
    let mut cpu = CPU::new();
    cpu.screen_data[1][1] = true;
    cpu.v_reg[0xF] = 1;
    cpu.i_reg = 0xFFFF;
    cpu.pc = 0x202;
    assert_eq!(cpu.fault_of(0xD000), None);
    assert_eq!(cpu.execute_opcode(0xD000), Outcome::Executed);
    assert_eq!(lit_pixels(&cpu), vec![(1, 1)]);
    assert_eq!(cpu.v_reg[0xF], 0);
}

#[test]
fn drawing_reads_its_place_before_it_resets_the_flag() {
    let mut cpu = CPU::new();
    cpu.i_reg = 0x300;
    cpu.memory[0x300] = 0b1000_0000;
    cpu.v_reg[0xF] = 7;
    cpu.v_reg[0] = 2;
    cpu.op_dxyn(0xF, 0, 1);
    assert_eq!(lit_pixels(&cpu), vec![(2, 7)]);
    assert_eq!(cpu.v_reg[0xF], 0);
}

#[test]
fn collision_is_kept_across_rows() {
    let mut cpu = CPU::new();
    cpu.screen_data[0][0] = true;
    cpu.i_reg = 0x300;
    cpu.memory[0x300] = 0b1000_0000;
    cpu.memory[0x301] = 0b1000_0000;
    cpu.memory[0x302] = 0b1000_0000;
    cpu.op_dxyn(0, 0, 3);
    assert_eq!(cpu.v_reg[0xF], 1);
    assert_eq!(lit_pixels(&cpu), vec![(1, 0), (2, 0)]);
}

#[test]
fn drawing_leaves_memory_and_index_alone() {
    let mut cpu = CPU::new();
    cpu.i_reg = 0x005;
    let memory = cpu.memory;
    cpu.v_reg[3] = 10;
    cpu.v_reg[4] = 10;
    cpu.op_dxyn(3, 4, 5);
    assert_eq!(cpu.memory, memory);
    assert_eq!(cpu.i_reg, 0x005);
    assert_eq!(cpu.v_reg[3], 10);
    assert_eq!(cpu.v_reg[4], 10);
    assert_eq!(cpu.pc, 0x200);
}

#[test]
fn sprite_beyond_the_end_of_memory_is_a_fault() {
    let mut cpu = CPU::new();
    assert_eq!(cpu.load_program(&[0xD0, 0x02]), Ok(()));
    cpu.i_reg = 4095;
    let screen = cpu.screen_data;
    assert_eq!(cpu.try_execute_cycle(), Err(Fault::AddressOverflow));
    assert_eq!(cpu.pc, 0x200);
    assert_eq!(cpu.screen_data, screen);
    cpu.i_reg = 4094;
    cpu.memory[4094] = 0x80;
    cpu.memory[4095] = 0x80;
    assert_eq!(cpu.try_execute_cycle(), Ok(Outcome::Executed));
    assert_eq!(lit_pixels(&cpu), vec![(0, 0), (1, 0)]);
}

#[test]
fn drawing_twice_through_the_flag_register_moves_the_sprite() {
    let mut cpu = CPU::new();
    cpu.i_reg = 0x300;
    cpu.memory[0x300] = 0b1000_0000;
    cpu.v_reg[0xF] = 1;
    cpu.op_dxyn(0xF, 0, 1);
    assert_eq!(lit_pixels(&cpu), vec![(0, 1)]);
    assert_eq!(cpu.v_reg[0xF], 0);
    cpu.op_dxyn(0xF, 0, 1);
    assert_eq!(lit_pixels(&cpu), vec![(0, 0), (0, 1)]);
    assert_eq!(cpu.v_reg[0xF], 0);
}
