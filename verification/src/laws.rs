//! Laws that the machine obeys, stated over its model and proved.

use vstd::prelude::*;
use crate::alu::add_immediate;
use crate::cycle::{advanced, execute, is_known, opcode_at, opcode_fault, run, step};
use crate::decode::fields_of;
use crate::display::{draw_sprite, sprite_covers};
use crate::font::FONTSET;
use crate::keypad::key_latched;
use crate::loader::{program_fits, with_program};
use crate::machine::{initial, set_reg, well_formed, wrap_byte, Machine};
use crate::timers::{tick, timers_ticked};

verus! {

/// A loaded program reads back byte for byte from address `0x200`, and no other
/// address has changed.
pub proof fn lemma_program_reads_back(s: Machine, bytes: Seq<u8>)
    requires
        well_formed(s),
        program_fits(bytes.len()),
    ensures
        with_program(s, bytes).memory.subrange(0x200, 0x200 + bytes.len() as int) == bytes,
        forall|a: int|
            0 <= a < 0x200 || 0x200 + bytes.len() <= a < 4096 ==> with_program(
                s,
                bytes,
            ).memory[a] == s.memory[a],
{
    assert(with_program(s, bytes).memory.subrange(0x200, 0x200 + bytes.len() as int) =~= bytes);
}

/// In a fresh machine the glyph table fills addresses `0x000..0x050` and every
/// other byte is zero.
pub proof fn lemma_font_in_low_memory()
    ensures
        initial().memory.subrange(0, 80) == FONTSET@,
        forall|a: int| 80 <= a < 4096 ==> initial().memory[a] == 0,
{
    assert(initial().memory.subrange(0, 80) =~= FONTSET@);
}

/// The machine after `count` additions of `nn` to `Vx`.
pub open spec fn add_immediate_times(s: Machine, x: int, nn: u8, count: nat) -> Machine
    decreases count,
{
    if count == 0 {
        s
    } else {
        add_immediate(add_immediate_times(s, x, nn, (count - 1) as nat), x, nn)
    }
}

/// Adding 1 to `Vx` `count` times adds `count` modulo 256.
proof fn lemma_add_one_times(s: Machine, x: int, count: nat)
    requires
        well_formed(s),
        0 <= x < 16,
    ensures
        add_immediate_times(s, x, 1, count) == set_reg(s, x, wrap_byte(s.v_reg[x] + count)),
    decreases count,
{
    if count == 0 {
        assert(s.v_reg.update(x, s.v_reg[x]) =~= s.v_reg);
    } else {
        let before = add_immediate_times(s, x, 1, (count - 1) as nat);
        lemma_add_one_times(s, x, (count - 1) as nat);
        assert(add_immediate(before, x, 1).v_reg =~= set_reg(
            s,
            x,
            wrap_byte(s.v_reg[x] + count),
        ).v_reg);
    }
}

/// After `Vx += nn`, 256 further additions of 1 bring the machine back to where
/// it was after that first addition.
pub proof fn lemma_add_immediate_wraps(s: Machine, x: int, nn: u8)
    requires
        well_formed(s),
        0 <= x < 16,
    ensures
        add_immediate_times(add_immediate(s, x, nn), x, 1, 256) == add_immediate(s, x, nn),
{
    let added = add_immediate(s, x, nn);
    lemma_add_one_times(added, x, 256);
    assert(added.v_reg.update(x, added.v_reg[x]) =~= added.v_reg);
}

/// Drawing a sprite twice in the same place restores the framebuffer. `VF` then
/// tells of the second pass alone: it is 1 exactly if the sprite has a pixel where
/// the framebuffer was off before the first pass. The place is `Vx` modulo 64 and
/// `Vy` modulo 32; the first pass can move it only where `Vx` or `Vy` is `VF`
/// itself, which that pass overwrites.
pub proof fn lemma_draw_twice_restores(s: Machine, x: int, y: int, n: int)
    requires
        well_formed(s),
        0 <= x < 16,
        0 <= y < 16,
        0 <= n < 16,
        draw_sprite(s, x, y, n).v_reg[x] % 64 == s.v_reg[x] % 64,
        draw_sprite(s, x, y, n).v_reg[y] % 32 == s.v_reg[y] % 32,
    ensures
        draw_sprite(draw_sprite(s, x, y, n), x, y, n).screen == s.screen,
        draw_sprite(draw_sprite(s, x, y, n), x, y, n).v_reg[0xF] == (if exists|r: int, c: int|
            0 <= r < 32 && 0 <= c < 64 && !s.screen[r][c] && #[trigger] sprite_covers(
                s,
                s.v_reg[x] as int,
                s.v_reg[y] as int,
                n,
                r,
                c,
            ) {
            1u8
        } else {
            0u8
        }),
{
    let vx = s.v_reg[x] as int;
    let vy = s.v_reg[y] as int;
    let once = draw_sprite(s, x, y, n);
    let twice = draw_sprite(once, x, y, n);
    let vx2 = once.v_reg[x] as int;
    let vy2 = once.v_reg[y] as int;
    assert forall|r: int, c: int| 0 <= r < 32 && 0 <= c < 64 implies #[trigger] sprite_covers(
        once,
        vx2,
        vy2,
        n,
        r,
        c,
    ) == sprite_covers(s, vx, vy, n, r, c) by {
        assert((r - vy2) % 32 == (r - vy) % 32);
        assert((c - vx2) % 64 == (c - vx) % 64);
    }
    assert(twice.screen =~~= s.screen);
    let lands_on_dark = exists|r: int, c: int|
        0 <= r < 32 && 0 <= c < 64 && !s.screen[r][c] && #[trigger] sprite_covers(
            s,
            vx,
            vy,
            n,
            r,
            c,
        );
    let second_collides = exists|r: int, c: int|
        0 <= r < 32 && 0 <= c < 64 && once.screen[r][c] && #[trigger] sprite_covers(
            once,
            vx2,
            vy2,
            n,
            r,
            c,
        );
    if lands_on_dark {
        let (r, c) = choose|r: int, c: int|
            0 <= r < 32 && 0 <= c < 64 && !s.screen[r][c] && #[trigger] sprite_covers(
                s,
                vx,
                vy,
                n,
                r,
                c,
            );
        assert(once.screen[r][c] && sprite_covers(once, vx2, vy2, n, r, c));
    }
    if second_collides {
        let (r, c) = choose|r: int, c: int|
            0 <= r < 32 && 0 <= c < 64 && once.screen[r][c] && #[trigger] sprite_covers(
                once,
                vx2,
                vy2,
                n,
                r,
                c,
            );
        assert(!s.screen[r][c] && sprite_covers(s, vx, vy, n, r, c));
    }
}

/// Only the random instruction looks at the random byte: every other
/// instruction is determined by the state.
pub proof fn lemma_only_random_draws(s: Machine, opcode: u16, first: u8, second: u8)
    requires
        fields_of(opcode).group != 0xC,
    ensures
        execute(s, opcode, first) == execute(s, opcode, second),
{
}

/// A word that is no instruction changes nothing: a cycle on it moves the
/// program counter past it and that is all.
pub proof fn lemma_unknown_opcode_is_passed_over(s: Machine, random: u8)
    requires
        !is_known(opcode_at(s)),
    ensures
        execute(s, opcode_at(s), random) == s,
        step(s, random) == advanced(s),
{
}

/// An instruction that can be carried out leaves the sizes of memory, register
/// file, keypad and framebuffer as they are.
pub proof fn lemma_execute_keeps_well_formed(s: Machine, opcode: u16, random: u8)
    requires
        well_formed(s),
        opcode_fault(s, opcode) is None,
    ensures
        well_formed(execute(s, opcode, random)),
{
}

/// Whether `opcode` is one of the six conditional skips.
pub open spec fn is_skip(opcode: u16) -> bool {
    let f = fields_of(opcode);
    f.group == 0x3 || f.group == 0x4 || f.group == 0x5 || f.group == 0x9 || (f.group == 0xE && (
    f.nn == 0x9E || f.nn == 0xA1))
}

/// Whether the skip `opcode` finds its condition true in `s`.
pub open spec fn skip_taken(s: Machine, opcode: u16) -> bool {
    let f = fields_of(opcode);
    let vx = s.v_reg[f.x as int];
    let vy = s.v_reg[f.y as int];
    if f.group == 0x3 {
        vx == f.nn
    } else if f.group == 0x4 {
        vx != f.nn
    } else if f.group == 0x5 {
        vx == vy
    } else if f.group == 0x9 {
        vx != vy
    } else if f.nn == 0x9E {
        s.keys[vx as int]
    } else {
        !s.keys[vx as int]
    }
}

/// A cycle on a skip instruction moves the program counter by 4 if the condition
/// holds and by 2 if not, and changes nothing else.
pub proof fn lemma_skip_advances(s: Machine, random: u8)
    requires
        is_skip(opcode_at(s)),
    ensures
        step(s, random) == (Machine {
            pc: if skip_taken(s, opcode_at(s)) {
                s.pc + 4
            } else {
                s.pc + 2
            },
            ..s
        }),
{
}

/// Whether `opcode` is the instruction that waits for a key.
pub open spec fn is_key_wait(opcode: u16) -> bool {
    fields_of(opcode).group == 0xF && fields_of(opcode).nn == 0x0A
}

/// With no key release latched, a cycle on the key wait leaves the whole machine
/// as it was, program counter and `Vx` included.
pub proof fn lemma_key_wait_blocks(s: Machine, random: u8)
    requires
        is_key_wait(opcode_at(s)),
        !key_latched(s),
    ensures
        step(s, random) == s,
{
}

/// With no key release latched, any number of cycles on the key wait leave the
/// whole machine as it was.
pub proof fn lemma_key_wait_blocks_forever(s: Machine, randoms: Seq<u8>)
    requires
        is_key_wait(opcode_at(s)),
        !key_latched(s),
    ensures
        run(s, randoms) == s,
    decreases randoms.len(),
{
    if randoms.len() > 0 {
        lemma_key_wait_blocks_forever(s, randoms.drop_last());
        lemma_key_wait_blocks(s, randoms.last());
    }
}

/// With a key release latched, a cycle on the key wait puts the key in `Vx`,
/// empties the latch and moves the program counter on by 2.
pub proof fn lemma_key_wait_resumes(s: Machine, random: u8)
    requires
        is_key_wait(opcode_at(s)),
        key_latched(s),
    ensures
        step(s, random) == (Machine {
            pc: s.pc + 2,
            v_reg: s.v_reg.update(fields_of(opcode_at(s)).x as int, s.key_pressed.1),
            key_pressed: (false, s.key_pressed.1),
            ..s
        }),
        !key_latched(step(s, random)),
{
}

/// A timer never goes below zero: a tick takes one off a running timer and
/// leaves a stopped one at zero.
pub proof fn lemma_tick_stops_at_zero(t: u8)
    ensures
        0 <= tick(t) <= t,
        t > 0 ==> tick(t) == t - 1,
        t == 0 ==> tick(t) == 0,
{
}

/// A tick of the timers on a machine whose timers are both at zero is a no-op.
pub proof fn lemma_tick_at_zero_is_noop(s: Machine)
    requires
        s.delay_timer == 0,
        s.sound_timer == 0,
    ensures
        timers_ticked(s) == s,
{
}

} // verus!
