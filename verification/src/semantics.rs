//! The mathematical model of the machine and of one execution cycle.
//!
//! `MachineState` is the ghost image of the machine; `spec_execute` says what
//! each of the 35 instructions does to it, and `spec_cycle` adds opcode fetch
//! and the key-wait mode on top. The executable machine is verified to follow
//! these functions exactly, with the one random byte of the masked-random
//! instruction passed in as an argument.

use vstd::prelude::*;
use crate::decode::{Instruction, spec_decode};
use crate::font::font_sprites;

verus! {

/// Whether the machine runs normally or sits inside the key-wait
/// instruction, holding the register that the pressed key's index will go to.
#[derive(Clone, Copy, Debug, PartialEq, Eq, Structural)]
pub enum RunMode {
    Running,
    AwaitingKey { target: u8 },
}

/// The fatal conditions that abort a load or a cycle.
#[derive(Clone, Copy, Debug, PartialEq, Eq, Structural)]
pub enum Chip8Error {
    /// The program image does not fit between 0x200 and the end of memory.
    RomTooLarge,
    /// A subroutine call found the stack already at its 16-frame bound.
    StackOverflow,
    /// A return instruction found the stack empty.
    StackUnderflow,
    /// A computed memory address reaches past the 4096-byte space.
    MemoryOutOfRange,
    /// A key-test instruction read a register holding 16 or more.
    KeyOutOfRange,
}

/// The ghost image of the whole machine.
#[verifier::ext_equal]
pub ghost struct MachineState {
    pub memory: Seq<u8>,
    pub registers: Seq<u8>,
    pub address_register: u16,
    pub program_counter: u16,
    pub delay_timer: u8,
    pub sound_timer: u8,
    pub stack: Seq<u16>,
    pub screen: Seq<bool>,
    pub keys: Seq<bool>,
    pub font_base: u16,
    pub mode: RunMode,
}

impl MachineState {
    /// Well-formedness: the fixed sizes of the state, the stack bound, and
    /// return addresses from which a fetch once succeeded. While the machine
    /// awaits a key, the program counter still points at the wait
    /// instruction, so it is fetchable and the target register is a nibble.
    pub open spec fn wf(self) -> bool {
        &&& self.memory.len() == 4096
        &&& self.registers.len() == 16
        &&& self.stack.len() <= 16
        &&& (forall|i: int| 0 <= i < self.stack.len() ==> self.stack[i] <= 4094)
        &&& self.screen.len() == 2048
        &&& self.keys.len() == 16
        &&& self.font_base + 80 <= 4096
        &&& (self.mode matches RunMode::AwaitingKey { target } ==> target < 16
            && self.program_counter <= 4094)
    }

    /// The value of register `i`.
    pub open spec fn reg(self, i: u8) -> u8 {
        self.registers[i as int]
    }
}

/// The state with register `i` set to `v`.
pub open spec fn set_reg(s: MachineState, i: u8, v: u8) -> MachineState {
    MachineState { registers: s.registers.update(i as int, v), ..s }
}

/// The state with the program counter moved `k` bytes forward.
pub open spec fn advance(s: MachineState, k: u16) -> MachineState {
    MachineState { program_counter: (s.program_counter + k) as u16, ..s }
}

/// A fully dark screen.
pub open spec fn blank_screen() -> Seq<bool> {
    Seq::new(2048, |i: int| false)
}

/// Pixel `j` of a sprite row, counted from the left: bit `7 - j` of the byte.
pub open spec fn row_bit(row: u8, j: u8) -> bool {
    (row >> ((7 - j) as u8)) & 1 == 1
}

/// Whether the part of the sprite already drawn covers screen cell `(x, y)`
/// with a lit pixel. The sprite's rows start at `memory[addr]`; its origin is
/// `(sx, sy)`; `rows` full rows are drawn, plus `cols` pixels of the next
/// row. Both coordinates wrap per pixel, so the cell is reached by the sprite
/// pixel `(dx, dy)` whose offsets from the origin wrap onto `(x, y)`.
pub open spec fn sprite_hits(
    mem: Seq<u8>,
    addr: int,
    sx: int,
    sy: int,
    rows: int,
    cols: int,
    x: int,
    y: int,
) -> bool {
    let dx = (x - sx) % 64;
    let dy = (y - sy) % 32;
    &&& dy < rows || (dy == rows && dx < cols)
    &&& dx < 8
    &&& row_bit(mem[addr + dy], dx as u8)
}

/// The screen after XOR-drawing the part of the sprite described by
/// `sprite_hits`. Cell `idx` of the row-major grid is `(idx % 64, idx / 64)`.
pub open spec fn draw_screen(
    screen: Seq<bool>,
    mem: Seq<u8>,
    addr: int,
    sx: int,
    sy: int,
    rows: int,
    cols: int,
) -> Seq<bool> {
    Seq::new(
        screen.len(),
        |idx: int| screen[idx] != sprite_hits(mem, addr, sx, sy, rows, cols, idx % 64, idx / 64),
    )
}

/// Whether that partial drawing turns any lit cell dark: the collision flag.
pub open spec fn draw_collision(
    screen: Seq<bool>,
    mem: Seq<u8>,
    addr: int,
    sx: int,
    sy: int,
    rows: int,
    cols: int,
) -> bool {
    exists|idx: int|
        0 <= idx < screen.len() && screen[idx] && #[trigger] sprite_hits(
            mem,
            addr,
            sx,
            sy,
            rows,
            cols,
            idx % 64,
            idx / 64,
        )
}

/// Memory after the register-dump instruction: registers 0 through `x`
/// inclusive written at `base` onward; everything else untouched.
pub open spec fn regs_to_memory(mem: Seq<u8>, regs: Seq<u8>, base: int, x: int) -> Seq<u8> {
    Seq::new(mem.len(), |i: int| if base <= i <= base + x { regs[i - base] } else { mem[i] })
}

/// Registers after the register-load instruction: registers 0 through `x`
/// inclusive read from `base` onward; the higher registers untouched.
pub open spec fn memory_to_regs(regs: Seq<u8>, mem: Seq<u8>, base: int, x: int) -> Seq<u8> {
    Seq::new(regs.len(), |i: int| if i <= x { mem[base + i] } else { regs[i] })
}

/// The state after the draw instruction's screen and flag effects: the
/// sprite of `n` rows at `memory[I..]` XOR-drawn at `(VX mod 64, VY mod 32)`
/// with per-pixel wraparound, and VF set to the collision flag — before the
/// program counter advances.
pub open spec fn draw_result(s: MachineState, x: u8, y: u8, n: u8) -> MachineState {
    let sx = (s.reg(x) % 64) as int;
    let sy = (s.reg(y) % 32) as int;
    let addr = s.address_register as int;
    let flag: u8 = if draw_collision(s.screen, s.memory, addr, sx, sy, n as int, 0) {
        1
    } else {
        0
    };
    MachineState {
        screen: draw_screen(s.screen, s.memory, addr, sx, sy, n as int, 0),
        registers: s.registers.update(15, flag),
        ..s
    }
}

/// What one instruction does: the next state, or the fatal condition that
/// aborts the cycle. `rnd` is the byte drawn for the masked-random
/// instruction and is ignored by every other instruction.
pub open spec fn spec_execute(s: MachineState, op: u16, rnd: u8) -> Result<
    MachineState,
    Chip8Error,
> {
    match spec_decode(op) {
        Instruction::ClearScreen => Ok(advance(MachineState { screen: blank_screen(), ..s }, 2)),
        Instruction::ReturnFromSub => {
            if s.stack.len() == 0 {
                Err(Chip8Error::StackUnderflow)
            } else {
                Ok(
                    MachineState {
                        stack: s.stack.drop_last(),
                        program_counter: (s.stack.last() + 2) as u16,
                        ..s
                    },
                )
            }
        },
        Instruction::Jump { nnn } => Ok(MachineState { program_counter: nnn, ..s }),
        Instruction::CallSub { nnn } => {
            if s.stack.len() >= 16 {
                Err(Chip8Error::StackOverflow)
            } else {
                Ok(
                    MachineState {
                        stack: s.stack.push(s.program_counter),
                        program_counter: nnn,
                        ..s
                    },
                )
            }
        },
        Instruction::SkipIfEqImm { x, nn } => Ok(
            advance(s, if s.reg(x) == nn { 4 } else { 2 }),
        ),
        Instruction::SkipIfNeImm { x, nn } => Ok(
            advance(s, if s.reg(x) != nn { 4 } else { 2 }),
        ),
        Instruction::SkipIfEqReg { x, y } => Ok(
            advance(s, if s.reg(x) == s.reg(y) { 4 } else { 2 }),
        ),
        Instruction::StoreImm { x, nn } => Ok(advance(set_reg(s, x, nn), 2)),
        Instruction::AddImm { x, nn } => Ok(
            advance(set_reg(s, x, ((s.reg(x) + nn) % 256) as u8), 2),
        ),
        Instruction::CopyReg { x, y } => Ok(advance(set_reg(s, x, s.reg(y)), 2)),
        Instruction::OrReg { x, y } => Ok(advance(set_reg(s, x, s.reg(x) | s.reg(y)), 2)),
        Instruction::AndReg { x, y } => Ok(advance(set_reg(s, x, s.reg(x) & s.reg(y)), 2)),
        Instruction::XorReg { x, y } => Ok(advance(set_reg(s, x, s.reg(x) ^ s.reg(y)), 2)),
        Instruction::AddReg { x, y } => {
            let flag: u8 = if s.reg(x) + s.reg(y) > 255 { 1 } else { 0 };
            let value = ((s.reg(x) + s.reg(y)) % 256) as u8;
            Ok(advance(set_reg(set_reg(s, x, value), 15, flag), 2))
        },
        Instruction::SubReg { x, y } => {
            let flag: u8 = if s.reg(x) >= s.reg(y) { 1 } else { 0 };
            let value = ((s.reg(x) - s.reg(y)) % 256) as u8;
            Ok(advance(set_reg(set_reg(s, x, value), 15, flag), 2))
        },
        Instruction::ShrReg { x } => Ok(
            advance(set_reg(set_reg(s, x, s.reg(x) / 2), 15, s.reg(x) % 2), 2),
        ),
        Instruction::RsbReg { x, y } => {
            let flag: u8 = if s.reg(y) >= s.reg(x) { 1 } else { 0 };
            let value = ((s.reg(y) - s.reg(x)) % 256) as u8;
            Ok(advance(set_reg(set_reg(s, x, value), 15, flag), 2))
        },
        Instruction::ShlReg { x } => Ok(
            advance(
                set_reg(set_reg(s, x, ((s.reg(x) * 2) % 256) as u8), 15, s.reg(x) / 128),
                2,
            ),
        ),
        Instruction::SkipIfNeReg { x, y } => Ok(
            advance(s, if s.reg(x) != s.reg(y) { 4 } else { 2 }),
        ),
        Instruction::StoreAddr { nnn } => Ok(
            advance(MachineState { address_register: nnn, ..s }, 2),
        ),
        Instruction::JumpOffset { nnn } => Ok(
            MachineState { program_counter: (nnn + s.reg(0)) as u16, ..s },
        ),
        Instruction::RandomMask { x, nn } => Ok(advance(set_reg(s, x, rnd & nn), 2)),
        Instruction::DrawSprite { x, y, n } => {
            if n > 0 && s.address_register + n > 4096 {
                Err(Chip8Error::MemoryOutOfRange)
            } else {
                Ok(advance(draw_result(s, x, y, n), 2))
            }
        },
        Instruction::SkipIfKey { x } => {
            if s.reg(x) >= 16 {
                Err(Chip8Error::KeyOutOfRange)
            } else {
                Ok(advance(s, if s.keys[s.reg(x) as int] { 4 } else { 2 }))
            }
        },
        Instruction::SkipIfNotKey { x } => {
            if s.reg(x) >= 16 {
                Err(Chip8Error::KeyOutOfRange)
            } else {
                Ok(advance(s, if !s.keys[s.reg(x) as int] { 4 } else { 2 }))
            }
        },
        Instruction::ReadDelay { x } => Ok(advance(set_reg(s, x, s.delay_timer), 2)),
        Instruction::WaitKey { x } => Ok(
            MachineState { mode: RunMode::AwaitingKey { target: x }, ..s },
        ),
        Instruction::StoreDelay { x } => Ok(
            advance(MachineState { delay_timer: s.reg(x), ..s }, 2),
        ),
        Instruction::StoreSound { x } => Ok(
            advance(MachineState { sound_timer: s.reg(x), ..s }, 2),
        ),
        Instruction::AddAddr { x } => Ok(
            advance(
                MachineState {
                    address_register: ((s.address_register + s.reg(x)) % 0x10000) as u16,
                    ..s
                },
                2,
            ),
        ),
        Instruction::FontAddr { x } => Ok(
            advance(
                MachineState { address_register: (s.font_base + 5 * s.reg(x)) as u16, ..s },
                2,
            ),
        ),
        Instruction::StoreBcd { x } => {
            if s.address_register + 3 > 4096 {
                Err(Chip8Error::MemoryOutOfRange)
            } else {
                let addr = s.address_register as int;
                let v = s.reg(x);
                Ok(
                    advance(
                        MachineState {
                            memory: s.memory.update(addr, v / 100).update(
                                addr + 1,
                                (v / 10) % 10,
                            ).update(addr + 2, v % 10),
                            ..s
                        },
                        2,
                    ),
                )
            }
        },
        Instruction::DumpRegs { x } => {
            if s.address_register + x + 1 > 4096 {
                Err(Chip8Error::MemoryOutOfRange)
            } else {
                Ok(
                    advance(
                        MachineState {
                            memory: regs_to_memory(
                                s.memory,
                                s.registers,
                                s.address_register as int,
                                x as int,
                            ),
                            ..s
                        },
                        2,
                    ),
                )
            }
        },
        Instruction::LoadRegs { x } => {
            if s.address_register + x + 1 > 4096 {
                Err(Chip8Error::MemoryOutOfRange)
            } else {
                Ok(
                    advance(
                        MachineState {
                            registers: memory_to_regs(
                                s.registers,
                                s.memory,
                                s.address_register as int,
                                x as int,
                            ),
                            ..s
                        },
                        2,
                    ),
                )
            }
        },
        Instruction::Unknown => Ok(advance(s, 2)),
    }
}

/// The opcode word at the program counter: two bytes, big-endian.
pub open spec fn spec_fetch(s: MachineState) -> u16 {
    (s.memory[s.program_counter as int] * 0x100 + s.memory[s.program_counter as int + 1]) as u16
}

/// The index of the lowest pressed key at or above `i`, if any.
pub open spec fn lowest_pressed(keys: Seq<bool>, i: int) -> Option<int>
    decreases 16 - i,
{
    if i >= 16 {
        None
    } else if keys[i] {
        Some(i)
    } else {
        lowest_pressed(keys, i + 1)
    }
}

/// One whole cycle. While the machine awaits a key, no instruction is
/// fetched: with no key pressed the state is unchanged, and once a key is
/// pressed its index goes to the target register, the program counter moves
/// past the wait instruction, and normal running resumes. Otherwise the
/// opcode at the program counter is fetched — both its bytes must lie inside
/// memory — and executed.
pub open spec fn spec_cycle(s: MachineState, rnd: u8) -> Result<MachineState, Chip8Error> {
    match s.mode {
        RunMode::AwaitingKey { target } => {
            match lowest_pressed(s.keys, 0) {
                Some(k) => Ok(
                    MachineState {
                        registers: s.registers.update(target as int, k as u8),
                        program_counter: (s.program_counter + 2) as u16,
                        mode: RunMode::Running,
                        ..s
                    },
                ),
                None => Ok(s),
            }
        },
        RunMode::Running => {
            if s.program_counter > 4094 {
                Err(Chip8Error::MemoryOutOfRange)
            } else {
                spec_execute(s, spec_fetch(s), rnd)
            }
        },
    }
}

/// One 60 Hz timer step: decrement toward zero, never below it.
pub open spec fn spec_tick(t: u8) -> u8 {
    if t > 0 {
        (t - 1) as u8
    } else {
        0
    }
}

/// The packed RGBA export of the screen: four bytes per pixel, opaque white
/// for lit and opaque black for unlit, with output row `j` showing screen
/// row `31 - j` so that row 0 of the grid sits at the bottom of the image.
pub open spec fn rgba_of(screen: Seq<bool>) -> Seq<u8> {
    Seq::new(
        8192,
        |k: int|
            {
                let j = k / 256;
                let i = (k / 4) % 64;
                let c = k % 4;
                if c == 3 {
                    255u8
                } else if screen[(31 - j) * 64 + i] {
                    255u8
                } else {
                    0u8
                }
            },
    )
}

/// The memory image right after construction: the font glyphs at the base of
/// memory, the program image from 0x200 on, zeroes elsewhere.
pub open spec fn initial_memory(rom: Seq<u8>) -> Seq<u8> {
    Seq::new(
        4096,
        |i: int|
            if i < 80 {
                font_sprites()[i]
            } else if 0x200 <= i < 0x200 + rom.len() {
                rom[i - 0x200]
            } else {
                0u8
            },
    )
}

/// The whole machine right after construction.
pub open spec fn initial_state(rom: Seq<u8>) -> MachineState {
    MachineState {
        memory: initial_memory(rom),
        registers: Seq::new(16, |i: int| 0u8),
        address_register: 0,
        program_counter: 0x200,
        delay_timer: 0,
        sound_timer: 0,
        stack: Seq::empty(),
        screen: blank_screen(),
        keys: Seq::new(16, |i: int| false),
        font_base: 0,
        mode: RunMode::Running,
    }
}

} // verus!
