//! Laws of the instruction semantics that relate whole cycles: uniform
//! program-counter advance, the draw collision flag over double drawing,
//! the register dump/load round trip, key-wait behaviour, and horizontal
//! sprite wraparound.

use vstd::prelude::*;
use crate::decode::{Instruction, spec_decode};
use crate::lemmas::{lemma_grid_index, lemma_wrap_inverse};
use crate::semantics::{
    Chip8Error,
    MachineState,
    RunMode,
    advance,
    draw_collision,
    draw_result,
    draw_screen,
    lowest_pressed,
    row_bit,
    spec_cycle,
    spec_execute,
    sprite_hits,
};

verus! {

/// The instructions that neither set the program counter directly (the
/// jump, call and return family), nor skip, nor suspend (key-wait).
pub open spec fn advances_uniformly(instr: Instruction) -> bool {
    match instr {
        Instruction::Jump { .. } => false,
        Instruction::CallSub { .. } => false,
        Instruction::ReturnFromSub => false,
        Instruction::JumpOffset { .. } => false,
        Instruction::SkipIfEqImm { .. } => false,
        Instruction::SkipIfNeImm { .. } => false,
        Instruction::SkipIfEqReg { .. } => false,
        Instruction::SkipIfNeReg { .. } => false,
        Instruction::SkipIfKey { .. } => false,
        Instruction::SkipIfNotKey { .. } => false,
        Instruction::WaitKey { .. } => false,
        _ => true,
    }
}

/// Every instruction outside the jump, call, return, skip and key-wait
/// families advances the program counter by exactly two bytes when it
/// executes without a fatal condition.
pub proof fn lemma_uniform_pc_advance(s: MachineState, op: u16, rnd: u8)
    requires
        advances_uniformly(spec_decode(op)),
        s.program_counter <= 4094,
        spec_execute(s, op, rnd) is Ok,
    ensures
        spec_execute(s, op, rnd)->Ok_0.program_counter == s.program_counter + 2,
{
}

/// Drawing any sprite over a fully dark screen reports no collision: VF is
/// set to zero.
pub proof fn lemma_draw_on_blank_no_collision(s: MachineState, x: u8, y: u8, n: u8)
    requires
        s.wf(),
        x < 16,
        y < 16,
        n < 16,
        forall|idx: int| 0 <= idx < 2048 ==> !s.screen[idx],
    ensures
        draw_result(s, x, y, n).reg(15) == 0,
{
    let sx = (s.reg(x) % 64) as int;
    let sy = (s.reg(y) % 32) as int;
    let addr = s.address_register as int;
    assert(!draw_collision(s.screen, s.memory, addr, sx, sy, n as int, 0)) by {
        if draw_collision(s.screen, s.memory, addr, sx, sy, n as int, 0) {
            let w = choose|w: int|
                0 <= w < s.screen.len() && s.screen[w] && #[trigger] sprite_hits(
                    s.memory,
                    addr,
                    sx,
                    sy,
                    n as int,
                    0,
                    w % 64,
                    w / 64,
                );
            assert(!s.screen[w]);
        }
    }
}

/// Drawing a sprite with at least one lit pixel over a dark screen, and
/// then drawing the same sprite again at the same position, turns every
/// drawn pixel off again and reports the collision: VF is set to one and
/// the screen is dark once more. The sprite coordinates must not sit in the
/// flag register itself, which the first draw overwrites.
pub proof fn lemma_draw_twice_collides(s: MachineState, x: u8, y: u8, n: u8)
    requires
        s.wf(),
        x < 15,
        y < 15,
        0 < n < 16,
        s.address_register + n <= 4096,
        forall|idx: int| 0 <= idx < 2048 ==> !s.screen[idx],
        exists|i: int, j: int|
            0 <= i < n && 0 <= j < 8 && #[trigger] row_bit(
                s.memory[s.address_register + i],
                j as u8,
            ),
    ensures
        ({
            let second = draw_result(advance(draw_result(s, x, y, n), 2), x, y, n);
            second.reg(15) == 1 && forall|idx: int| 0 <= idx < 2048 ==> !second.screen[idx]
        }),
{
    let sx = (s.reg(x) % 64) as int;
    let sy = (s.reg(y) % 32) as int;
    let addr = s.address_register as int;
    let s2 = advance(draw_result(s, x, y, n), 2);
    let screen1 = draw_screen(s.screen, s.memory, addr, sx, sy, n as int, 0);
    assert(s2.screen == screen1);
    assert(s2.reg(x) == s.reg(x) && s2.reg(y) == s.reg(y));
    // every cell of the once-drawn screen holds exactly the sprite coverage
    assert(forall|idx: int|
        0 <= idx < 2048 ==> screen1[idx] == sprite_hits(
            s.memory,
            addr,
            sx,
            sy,
            n as int,
            0,
            idx % 64,
            idx / 64,
        ));
    // a lit sprite pixel gives the second draw a collision witness
    let (i, j) = choose|i: int, j: int|
        0 <= i < n && 0 <= j < 8 && #[trigger] row_bit(s.memory[s.address_register + i], j as u8);
    let cx = (sx + j) % 64;
    let cy = (sy + i) % 32;
    assert(0 <= cx < 64 && 0 <= cy < 32) by {
        vstd::arithmetic::div_mod::lemma_mod_bound(sx + j, 64);
        vstd::arithmetic::div_mod::lemma_mod_bound(sy + i, 32);
    }
    let w = cy * 64 + cx;
    lemma_grid_index(cx, cy);
    lemma_wrap_inverse(64, sx, j, cx);
    lemma_wrap_inverse(32, sy, i, cy);
    assert(sprite_hits(s.memory, addr, sx, sy, n as int, 0, w % 64, w / 64));
    assert(screen1[w]);
    assert(draw_collision(screen1, s.memory, addr, sx, sy, n as int, 0));
    assert(draw_result(s2, x, y, n).reg(15) == 1);
    // drawing the same coverage again darkens every cell
    assert forall|idx: int| 0 <= idx < 2048 implies !draw_result(s2, x, y, n).screen[idx] by {
        assert(draw_result(s2, x, y, n).screen[idx] == (screen1[idx] != sprite_hits(
            s.memory,
            addr,
            sx,
            sy,
            n as int,
            0,
            idx % 64,
            idx / 64,
        )));
    }
}

/// Registers written to memory by the register-dump instruction are read
/// back unchanged by the register-load instruction from the same address:
/// the inclusive-bound round trip. `t` is any later machine whose memory
/// and address register still hold what the dump left — its registers may
/// have been overwritten in any way.
pub proof fn lemma_dump_load_round_trip(
    s: MachineState,
    t: MachineState,
    op1: u16,
    op2: u16,
    x: u8,
    rnd: u8,
)
    requires
        s.wf(),
        spec_decode(op1) == (Instruction::DumpRegs { x }),
        spec_decode(op2) == (Instruction::LoadRegs { x }),
        x < 16,
        s.address_register + x + 1 <= 4096,
        t.registers.len() == 16,
        t.memory == spec_execute(s, op1, rnd)->Ok_0.memory,
        t.address_register == s.address_register,
    ensures
        spec_execute(s, op1, rnd) is Ok,
        spec_execute(t, op2, rnd) is Ok,
        forall|k: int|
            0 <= k <= x ==> spec_execute(t, op2, rnd)->Ok_0.registers[k] == s.registers[k],
{
}

/// With no key pressed, a cycle in the awaiting-key state leaves the whole
/// machine exactly as it was — in particular the program counter does not
/// advance — whatever the entropy source would produce.
pub proof fn lemma_key_wait_holds(s: MachineState, rnd: u8)
    requires
        s.keys.len() == 16,
        s.mode is AwaitingKey,
        forall|k: int| 0 <= k < 16 ==> !s.keys[k],
    ensures
        spec_cycle(s, rnd) == Ok::<MachineState, Chip8Error>(s),
{
    lemma_no_key_gives_none(s.keys, 0);
}

/// With `key` the lowest pressed key, the next cycle in the awaiting-key
/// state stores its index into the target register, moves the program
/// counter past the wait instruction, and resumes normal running.
pub proof fn lemma_key_wait_resumes(s: MachineState, key: u8, rnd: u8)
    requires
        s.keys.len() == 16,
        s.mode is AwaitingKey,
        key < 16,
        s.keys[key as int],
        forall|k: int| 0 <= k < key ==> !s.keys[k],
    ensures
        spec_cycle(s, rnd) == Ok::<MachineState, Chip8Error>(
            MachineState {
                registers: s.registers.update(s.mode->target as int, key),
                program_counter: (s.program_counter + 2) as u16,
                mode: RunMode::Running,
                ..s
            },
        ),
{
    lemma_lowest_pressed_is(s.keys, 0, key as int);
}

/// A sprite pixel whose column offset runs past the right screen edge wraps
/// to the left edge: with origin column `sx` and `sx + j` at or past 64,
/// pixel `j` of sprite row `dy` lands at column `sx + j - 64` — a cell
/// inside the screen — where it is XOR-combined exactly like any other.
pub proof fn lemma_draw_wraps_horizontally(s: MachineState, x: u8, y: u8, n: u8, j: int, dy: int)
    requires
        s.wf(),
        x < 16,
        y < 16,
        0 < n < 16,
        0 <= j < 8,
        0 <= dy < n,
        s.reg(x) % 64 + j >= 64,
    ensures
        ({
            let sx = (s.reg(x) % 64) as int;
            let sy = (s.reg(y) % 32) as int;
            let col = sx + j - 64;
            let row = (sy + dy) % 32;
            &&& 0 <= col < 64
            &&& 0 <= row < 32
            &&& draw_result(s, x, y, n).screen[row * 64 + col] == (s.screen[row * 64 + col]
                != row_bit(s.memory[s.address_register + dy], j as u8))
        }),
{
    let sx = (s.reg(x) % 64) as int;
    let sy = (s.reg(y) % 32) as int;
    let addr = s.address_register as int;
    let col = sx + j - 64;
    let row = (sy + dy) % 32;
    vstd::arithmetic::div_mod::lemma_mod_bound(sy + dy, 32);
    lemma_grid_index(col, row);
    lemma_wrap_inverse(64, sx, j, col);
    lemma_wrap_inverse(32, sy, dy, row);
    assert((sx + j) % 64 == col) by {
        vstd::arithmetic::div_mod::lemma_mod_add_multiples_vanish(sx + j - 64, 64);
        vstd::arithmetic::div_mod::lemma_small_mod((sx + j - 64) as nat, 64nat);
    }
    assert(sprite_hits(s.memory, addr, sx, sy, n as int, 0, col, row) == row_bit(
        s.memory[addr + dy],
        j as u8,
    ));
    assert(draw_result(s, x, y, n).screen[row * 64 + col] == (s.screen[row * 64 + col]
        != sprite_hits(s.memory, addr, sx, sy, n as int, 0, col, row)));
}

/// No key pressed means no lowest pressed key, from any starting index.
proof fn lemma_no_key_gives_none(keys: Seq<bool>, i: int)
    requires
        forall|k: int| 0 <= k < 16 ==> !keys[k],
        0 <= i,
    ensures
        lowest_pressed(keys, i) is None,
    decreases 16 - i,
{
    if i < 16 {
        lemma_no_key_gives_none(keys, i + 1);
    }
}

/// The lowest pressed key at or above `i` is `key` when `key` is pressed
/// and nothing below it is.
proof fn lemma_lowest_pressed_is(keys: Seq<bool>, i: int, key: int)
    requires
        0 <= i <= key < 16,
        keys[key],
        forall|k: int| i <= k < key ==> !keys[k],
    ensures
        lowest_pressed(keys, i) == Some(key),
    decreases key - i,
{
    if i < key {
        lemma_lowest_pressed_is(keys, i + 1, key);
    }
}

} // verus!
