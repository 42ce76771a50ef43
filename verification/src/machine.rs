//! The executable machine, verified against the model in `semantics`.

use vstd::prelude::*;
use crate::decode::{Instruction, decode};
use crate::font::{create_font_data, font_sprites};
use crate::lemmas::{
    lemma_draw_row_done,
    lemma_draw_step,
    lemma_grid_index,
    lemma_grid_unindex,
    lemma_rgba_index,
    lemma_wrap_inverse,
};
use crate::rng::random_byte;
use crate::semantics::{
    Chip8Error,
    MachineState,
    RunMode,
    blank_screen,
    draw_collision,
    draw_result,
    draw_screen,
    initial_memory,
    initial_state,
    lowest_pressed,
    memory_to_regs,
    regs_to_memory,
    rgba_of,
    row_bit,
    spec_cycle,
    spec_execute,
    spec_fetch,
    spec_tick,
    sprite_hits,
};
use vstd::arithmetic::div_mod::lemma_mod_bound;

verus! {

/// The virtual machine: memory, register file, call stack, timers, screen
/// bitmap, key latches and the run mode of the key-wait instruction.
pub struct Chip8 {
    pub memory: Vec<u8>,
    pub registers: Vec<u8>,
    pub address_register: u16,
    pub program_counter: u16,
    pub delay_timer: u8,
    pub sound_timer: u8,
    pub stack: Vec<u16>,
    pub screen: Vec<bool>,
    pub keys: Vec<bool>,
    pub font_data_base_address: u16,
    pub mode: RunMode,
}

impl View for Chip8 {
    type V = MachineState;

    open spec fn view(&self) -> MachineState {
        MachineState {
            memory: self.memory@,
            registers: self.registers@,
            address_register: self.address_register,
            program_counter: self.program_counter,
            delay_timer: self.delay_timer,
            sound_timer: self.sound_timer,
            stack: self.stack@,
            screen: self.screen@,
            keys: self.keys@,
            font_base: self.font_data_base_address,
            mode: self.mode,
        }
    }
}

/// A vector holding `value` `count` times.
fn repeat_u8(count: usize, value: u8) -> (v: Vec<u8>)
    ensures
        v@ == Seq::new(count as nat, |i: int| value),
{
    let mut v: Vec<u8> = Vec::new();
    let mut i: usize = 0;
    while i < count
        invariant
            i <= count,
            v@.len() == i,
            forall|k: int| 0 <= k < i ==> v@[k] == value,
        decreases count - i,
    {
        v.push(value);
        i += 1;
    }
    proof {
        assert(v@ =~= Seq::new(count as nat, |i: int| value));
    }
    v
}

/// A vector holding `value` `count` times.
fn repeat_bool(count: usize, value: bool) -> (v: Vec<bool>)
    ensures
        v@ == Seq::new(count as nat, |i: int| value),
{
    let mut v: Vec<bool> = Vec::new();
    let mut i: usize = 0;
    while i < count
        invariant
            i <= count,
            v@.len() == i,
            forall|k: int| 0 <= k < i ==> v@[k] == value,
        decreases count - i,
    {
        v.push(value);
        i += 1;
    }
    proof {
        assert(v@ =~= Seq::new(count as nat, |i: int| value));
    }
    v
}

impl Chip8 {
    /// Well-formedness of the machine: the model's invariant on its image.
    pub open spec fn wf(&self) -> bool {
        self@.wf()
    }

    /// Builds a machine with the program image loaded at 0x200: memory
    /// zeroed, the font written at its base, every register, timer, latch
    /// and pixel cleared, and the program counter at the image's start.
    /// An image that would reach past the 4096-byte space is rejected
    /// before any execution begins.
    pub fn new(rom_content: &Vec<u8>) -> (r: Result<Chip8, Chip8Error>)
        ensures
            match r {
                Ok(chip) => {
                    &&& rom_content@.len() + 0x200 <= 4096
                    &&& chip.wf()
                    &&& chip@ == initial_state(rom_content@)
                },
                Err(e) => {
                    &&& e == Chip8Error::RomTooLarge
                    &&& rom_content@.len() + 0x200 > 4096
                },
            },
    {
        if rom_content.len() > 4096 - 0x200 {
            return Err(Chip8Error::RomTooLarge);
        }
        let mut memory: Vec<u8> = repeat_u8(4096, 0);
        let font_data: Vec<u8> = create_font_data();
        let mut i: usize = 0;
        while i < 80
            invariant
                i <= 80,
                memory@.len() == 4096,
                font_data@ == font_sprites(),
                forall|k: int| 0 <= k < i ==> memory@[k] == font_sprites()[k],
                forall|k: int| i <= k < 4096 ==> memory@[k] == 0u8,
            decreases 80 - i,
        {
            memory[i] = font_data[i];
            i += 1;
        }
        let mut j: usize = 0;
        while j < rom_content.len()
            invariant
                j <= rom_content@.len(),
                rom_content@.len() + 0x200 <= 4096,
                memory@.len() == 4096,
                forall|k: int| 0 <= k < 80 ==> memory@[k] == font_sprites()[k],
                forall|k: int|
                    0x200 <= k < 0x200 + j ==> memory@[k] == rom_content@[k - 0x200],
                forall|k: int|
                    80 <= k < 4096 && !(0x200 <= k < 0x200 + j) ==> memory@[k] == 0u8,
            decreases rom_content@.len() - j,
        {
            memory[j + 0x200] = rom_content[j];
            j += 1;
        }
        let chip = Chip8 {
            memory,
            registers: repeat_u8(16, 0),
            address_register: 0,
            program_counter: 0x200,
            delay_timer: 0,
            sound_timer: 0,
            stack: Vec::new(),
            screen: repeat_bool(2048, false),
            keys: repeat_bool(16, false),
            font_data_base_address: 0,
            mode: RunMode::Running,
        };
        proof {
            assert(chip@.memory =~= initial_memory(rom_content@));
            assert(chip@ =~= initial_state(rom_content@));
        }
        Ok(chip)
    }

    /// Reads the two opcode bytes at the program counter, big-endian.
    pub fn fetch_opcode(&self) -> (op: u16)
        requires
            self.wf(),
            self.program_counter <= 4094,
        ensures
            op == spec_fetch(self@),
    {
        let hi: u16 = self.memory[self.program_counter as usize] as u16;
        let lo: u16 = self.memory[self.program_counter as usize + 1] as u16;
        hi * 0x100 + lo
    }

    /// One whole cycle, as `spec_cycle` describes it. While the machine
    /// awaits a key it does not fetch: with no key latched down the state is
    /// left as it is, and otherwise the lowest pressed key's index goes to
    /// the target register and running resumes past the wait instruction.
    /// Otherwise the opcode at the program counter is fetched — a fatal
    /// condition if its bytes reach past memory — and executed, drawing one
    /// byte of entropy when the instruction is the masked-random one. On a
    /// fatal condition the machine is left untouched, whatever byte the
    /// entropy source would have produced.
    #[verifier::loop_isolation(false)]
    pub fn run_one_cycle(&mut self) -> (r: Result<(), Chip8Error>)
        requires
            old(self).wf(),
        ensures
            final(self).wf(),
            match r {
                Ok(()) => exists|rnd: u8|
                    spec_cycle(old(self)@, rnd) == Ok::<MachineState, Chip8Error>(final(self)@),
                Err(e) => *final(self) == *old(self) && forall|rnd: u8|
                    spec_cycle(old(self)@, rnd) == Err::<MachineState, Chip8Error>(e),
            },
    {
        match self.mode {
            RunMode::AwaitingKey { target } => {
                let mut k: u8 = 0;
                while k < 16 && !self.keys[k as usize]
                    invariant
                        k <= 16,
                        lowest_pressed(self.keys@, 0) == lowest_pressed(self.keys@, k as int),
                    decreases 16 - k,
                {
                    k = k + 1;
                }
                if k < 16 {
                    self.registers[target as usize] = k;
                    self.program_counter = self.program_counter + 2;
                    self.mode = RunMode::Running;
                    proof {
                        assert(lowest_pressed(old(self)@.keys, 0) == Some(k as int));
                        assert(spec_cycle(old(self)@, 0) == Ok::<MachineState, Chip8Error>(
                            self@,
                        ));
                    }
                } else {
                    proof {
                        assert(lowest_pressed(old(self)@.keys, 0) is None);
                        assert(spec_cycle(old(self)@, 0) == Ok::<MachineState, Chip8Error>(
                            self@,
                        ));
                    }
                }
                Ok(())
            },
            RunMode::Running => {
                if self.program_counter > 4094 {
                    return Err(Chip8Error::MemoryOutOfRange);
                }
                let op: u16 = self.fetch_opcode();
                let instr: Instruction = decode(op);
                let rnd: u8 = match instr {
                    Instruction::RandomMask { .. } => random_byte(),
                    _ => 0,
                };
                let result: Result<(), Chip8Error> = self.execute_opcode(op, rnd);
                proof {
                    match result {
                        Ok(()) => {
                            assert(spec_cycle(old(self)@, rnd) == Ok::<
                                MachineState,
                                Chip8Error,
                            >(self@));
                        },
                        Err(e) => {
                            assert forall|rnd2: u8|
                                spec_cycle(old(self)@, rnd2) == Err::<
                                    MachineState,
                                    Chip8Error,
                                >(e) by {
                                assert(spec_execute(old(self)@, op, rnd) == Err::<
                                    MachineState,
                                    Chip8Error,
                                >(e));
                            }
                        },
                    }
                }
                result
            },
        }
    }

    /// The screen converted to a packed RGBA image for presentation: lit
    /// pixels opaque white, unlit ones opaque black, flipped vertically so
    /// that screen row 0 comes out at the bottom of the image.
    #[verifier::loop_isolation(false)]
    pub fn get_video_buffer_as_rgba(&self) -> (image_data: Vec<u8>)
        requires
            self.wf(),
        ensures
            image_data@ == rgba_of(self@.screen),
    {
        let mut image_data: Vec<u8> = Vec::new();
        let mut j: usize = 0;
        while j < 32
            invariant
                j <= 32,
                image_data@.len() == 256 * j,
                forall|k: int| 0 <= k < 256 * j ==> image_data@[k] == rgba_of(self@.screen)[k],
            decreases 32 - j,
        {
            let mut i: usize = 0;
            while i < 64
                invariant
                    i <= 64,
                    j < 32,
                    image_data@.len() == 256 * j + 4 * i,
                    forall|k: int|
                        0 <= k < 256 * j + 4 * i ==> image_data@[k] == rgba_of(self@.screen)[k],
                decreases 64 - i,
            {
                let v: usize = 31 - j;
                let lit: bool = self.screen[i + v * 64];
                if lit {
                    image_data.push(255);
                    image_data.push(255);
                    image_data.push(255);
                    image_data.push(255);
                } else {
                    image_data.push(0);
                    image_data.push(0);
                    image_data.push(0);
                    image_data.push(255);
                }
                proof {
                    lemma_rgba_index(j as int, i as int, 0);
                    lemma_rgba_index(j as int, i as int, 1);
                    lemma_rgba_index(j as int, i as int, 2);
                    lemma_rgba_index(j as int, i as int, 3);
                }
                i += 1;
            }
            j += 1;
        }
        proof {
            assert(image_data@ =~= rgba_of(self@.screen));
        }
        image_data
    }

    /// One 60 Hz step of both timers, driven by the caller's real-time
    /// pacing: each decrements when nonzero and never goes below zero.
    pub fn tick_timers(&mut self)
        requires
            old(self).wf(),
        ensures
            final(self).wf(),
            final(self)@ == (MachineState {
                delay_timer: spec_tick(old(self)@.delay_timer),
                sound_timer: spec_tick(old(self)@.sound_timer),
                ..old(self)@
            }),
    {
        if self.delay_timer > 0 {
            self.delay_timer = self.delay_timer - 1;
        }
        if self.sound_timer > 0 {
            self.sound_timer = self.sound_timer - 1;
        }
    }

    /// Latches one key up or down; the caller refreshes the latches from the
    /// real input device before each cycle.
    pub fn set_key(&mut self, key: u8, pressed: bool)
        requires
            old(self).wf(),
            key < 16,
        ensures
            final(self).wf(),
            final(self)@ == (MachineState {
                keys: old(self)@.keys.update(key as int, pressed),
                ..old(self)@
            }),
    {
        self.keys[key as usize] = pressed;
    }

    /// The draw instruction's screen and flag effects: XOR the sprite of
    /// `n` rows at `memory[I..]` onto the screen at `(VX mod 64, VY mod 32)`,
    /// wrapping each pixel, and set VF to 1 exactly when a lit pixel went
    /// dark.
    #[verifier::loop_isolation(false)]
    fn exec_draw(&mut self, x: u8, y: u8, n: u8)
        requires
            old(self).wf(),
            x < 16,
            y < 16,
            n < 16,
            n > 0 ==> old(self).address_register + n <= 4096,
        ensures
            final(self).wf(),
            final(self)@ == draw_result(old(self)@, x, y, n),
    {
        let ghost orig: MachineState = self@;
        let sx: u8 = self.registers[x as usize] % 64;
        let sy: u8 = self.registers[y as usize] % 32;
        let base: usize = self.address_register as usize;
        let ghost mem0: Seq<u8> = orig.memory;
        let ghost scr0: Seq<bool> = orig.screen;
        let ghost b0: int = base as int;
        let ghost gx: int = sx as int;
        let ghost gy: int = sy as int;
        let mut collision: bool = false;
        let mut i: u8 = 0;
        while i < n
            invariant
                i <= n,
                self.memory@ == orig.memory,
                self.registers@ == orig.registers,
                self.stack@ == orig.stack,
                self.keys@ == orig.keys,
                self.address_register == orig.address_register,
                self.program_counter == orig.program_counter,
                self.delay_timer == orig.delay_timer,
                self.sound_timer == orig.sound_timer,
                self.font_data_base_address == orig.font_base,
                self.mode == orig.mode,
                self.screen@.len() == 2048,
                self.screen@ == draw_screen(scr0, mem0, b0, gx, gy, i as int, 0),
                collision == draw_collision(scr0, mem0, b0, gx, gy, i as int, 0),
            decreases n - i,
        {
            let row: u8 = self.memory[base + i as usize];
            let mut j: u8 = 0;
            while j < 8
                invariant
                    j <= 8,
                    i < n,
                    self.memory@ == orig.memory,
                    self.registers@ == orig.registers,
                    self.stack@ == orig.stack,
                    self.keys@ == orig.keys,
                    self.address_register == orig.address_register,
                    self.program_counter == orig.program_counter,
                    self.delay_timer == orig.delay_timer,
                    self.sound_timer == orig.sound_timer,
                    self.font_data_base_address == orig.font_base,
                    self.mode == orig.mode,
                    self.screen@.len() == 2048,
                    self.screen@ == draw_screen(scr0, mem0, b0, gx, gy, i as int, j as int),
                    collision == draw_collision(scr0, mem0, b0, gx, gy, i as int, j as int),
                decreases 8 - j,
            {
                let ghost gi: int = i as int;
                let ghost gj: int = j as int;
                let cx: u8 = (sx + j) % 64;
                let cy: u8 = (sy + i) % 32;
                let idx: usize = (cy as usize) * 64 + (cx as usize);
                let bit: bool = ((row >> (7 - j)) & 1) == 1;
                proof {
                    lemma_grid_index(cx as int, cy as int);
                    lemma_draw_step(mem0, b0, gx, gy, gi, gj);
                    lemma_mod_bound(cx - gx, 64);
                    lemma_mod_bound(cy - gy, 32);
                    lemma_wrap_inverse(64, gx, gj, cx as int);
                    lemma_wrap_inverse(32, gy, gi, cy as int);
                    assert(bit == row_bit(mem0[b0 + gi], j));
                    // the pixel visited now is not yet covered, so the screen
                    // still holds its original value there
                    assert(!sprite_hits(mem0, b0, gx, gy, gi, gj, cx as int, cy as int));
                    assert(self.screen@[idx as int] == scr0[idx as int]);
                }
                let cur: bool = self.screen[idx];
                if bit {
                    self.screen[idx] = !cur;
                }
                let ghost colpre: bool = collision;
                if bit && cur {
                    collision = true;
                }
                proof {
                    assert forall|k: int| 0 <= k < 2048 implies self.screen@[k] == draw_screen(
                        scr0,
                        mem0,
                        b0,
                        gx,
                        gy,
                        gi,
                        gj + 1,
                    )[k] by {
                        lemma_grid_unindex(k);
                    }
                    assert(self.screen@ =~= draw_screen(scr0, mem0, b0, gx, gy, gi, gj + 1));
                    if bit && cur {
                        assert(sprite_hits(mem0, b0, gx, gy, gi, gj + 1, idx as int % 64, idx as int / 64));
                        assert(draw_collision(scr0, mem0, b0, gx, gy, gi, gj + 1));
                    } else {
                        if colpre {
                            let w = choose|w: int|
                                0 <= w < scr0.len() && scr0[w] && #[trigger] sprite_hits(
                                    mem0,
                                    b0,
                                    gx,
                                    gy,
                                    gi,
                                    gj,
                                    w % 64,
                                    w / 64,
                                );
                            lemma_grid_unindex(w);
                            assert(sprite_hits(mem0, b0, gx, gy, gi, gj + 1, w % 64, w / 64));
                            assert(draw_collision(scr0, mem0, b0, gx, gy, gi, gj + 1));
                        } else {
                            assert(!draw_collision(scr0, mem0, b0, gx, gy, gi, gj + 1)) by {
                                if draw_collision(scr0, mem0, b0, gx, gy, gi, gj + 1) {
                                    let w = choose|w: int|
                                        0 <= w < scr0.len() && scr0[w] && #[trigger] sprite_hits(
                                            mem0,
                                            b0,
                                            gx,
                                            gy,
                                            gi,
                                            gj + 1,
                                            w % 64,
                                            w / 64,
                                        );
                                    lemma_grid_unindex(w);
                                    if sprite_hits(mem0, b0, gx, gy, gi, gj, w % 64, w / 64) {
                                        assert(draw_collision(scr0, mem0, b0, gx, gy, gi, gj));
                                        assert(false);
                                    } else {
                                        assert(w == idx as int);
                                        assert(false);
                                    }
                                }
                            }
                        }
                    }
                    assert(collision == draw_collision(scr0, mem0, b0, gx, gy, gi, gj + 1));
                }
                j += 1;
            }
            proof {
                lemma_draw_row_done(mem0, b0, gx, gy, i as int);
                assert forall|k: int| 0 <= k < 2048 implies self.screen@[k] == draw_screen(
                    scr0,
                    mem0,
                    b0,
                    gx,
                    gy,
                    i as int + 1,
                    0,
                )[k] by {
                    lemma_grid_unindex(k);
                }
                assert(self.screen@ =~= draw_screen(scr0, mem0, b0, gx, gy, i as int + 1, 0));
                assert(draw_collision(scr0, mem0, b0, gx, gy, i as int, 8) == draw_collision(
                    scr0,
                    mem0,
                    b0,
                    gx,
                    gy,
                    i as int + 1,
                    0,
                )) by {
                    if draw_collision(scr0, mem0, b0, gx, gy, i as int, 8) {
                        let w = choose|w: int|
                            0 <= w < scr0.len() && scr0[w] && #[trigger] sprite_hits(
                                mem0,
                                b0,
                                gx,
                                gy,
                                i as int,
                                8,
                                w % 64,
                                w / 64,
                            );
                        lemma_grid_unindex(w);
                        assert(sprite_hits(mem0, b0, gx, gy, i as int + 1, 0, w % 64, w / 64));
                    }
                    if draw_collision(scr0, mem0, b0, gx, gy, i as int + 1, 0) {
                        let w = choose|w: int|
                            0 <= w < scr0.len() && scr0[w] && #[trigger] sprite_hits(
                                mem0,
                                b0,
                                gx,
                                gy,
                                i as int + 1,
                                0,
                                w % 64,
                                w / 64,
                            );
                        lemma_grid_unindex(w);
                        assert(sprite_hits(mem0, b0, gx, gy, i as int, 8, w % 64, w / 64));
                    }
                }
            }
            i += 1;
        }
        let flag: u8 = if collision {
            1
        } else {
            0
        };
        self.registers[15] = flag;
        proof {
            assert(self@ =~= draw_result(orig, x, y, n));
        }
    }

    /// Executes one decoded instruction: exactly the step that
    /// `spec_execute` describes, with `random_value` standing in for the
    /// byte of entropy that the masked-random instruction consumes. On a
    /// fatal condition the machine is left untouched and the condition is
    /// returned. The opcode must have been fetched at the current program
    /// counter, so both its bytes lie inside memory, and the machine must
    /// not be awaiting a key.
    pub fn execute_opcode(&mut self, opcode: u16, random_value: u8) -> (r: Result<(), Chip8Error>)
        requires
            old(self).wf(),
            old(self).program_counter <= 4094,
            old(self).mode == RunMode::Running,
        ensures
            final(self).wf(),
            match r {
                Ok(()) => spec_execute(old(self)@, opcode, random_value) == Ok::<
                    MachineState,
                    Chip8Error,
                >(final(self)@),
                Err(e) => spec_execute(old(self)@, opcode, random_value) == Err::<
                    MachineState,
                    Chip8Error,
                >(e) && *final(self) == *old(self),
            },
    {
        let instr: Instruction = decode(opcode);
        match instr {
            Instruction::ClearScreen => {
                self.screen = repeat_bool(2048, false);
                self.program_counter = self.program_counter + 2;
                proof {
                    assert(self.screen@ =~= blank_screen());
                }
                Ok(())
            },
            Instruction::ReturnFromSub => {
                if self.stack.len() == 0 {
                    return Err(Chip8Error::StackUnderflow);
                }
                let ret: u16 = self.stack.pop().unwrap();
                self.program_counter = ret + 2;
                Ok(())
            },
            Instruction::Jump { nnn } => {
                self.program_counter = nnn;
                Ok(())
            },
            Instruction::CallSub { nnn } => {
                if self.stack.len() >= 16 {
                    return Err(Chip8Error::StackOverflow);
                }
                self.stack.push(self.program_counter);
                self.program_counter = nnn;
                Ok(())
            },
            Instruction::SkipIfEqImm { x, nn } => {
                if self.registers[x as usize] == nn {
                    self.program_counter = self.program_counter + 4;
                } else {
                    self.program_counter = self.program_counter + 2;
                }
                Ok(())
            },
            Instruction::SkipIfNeImm { x, nn } => {
                if self.registers[x as usize] != nn {
                    self.program_counter = self.program_counter + 4;
                } else {
                    self.program_counter = self.program_counter + 2;
                }
                Ok(())
            },
            Instruction::SkipIfEqReg { x, y } => {
                if self.registers[x as usize] == self.registers[y as usize] {
                    self.program_counter = self.program_counter + 4;
                } else {
                    self.program_counter = self.program_counter + 2;
                }
                Ok(())
            },
            Instruction::StoreImm { x, nn } => {
                self.registers[x as usize] = nn;
                self.program_counter = self.program_counter + 2;
                Ok(())
            },
            Instruction::AddImm { x, nn } => {
                let vx: u8 = self.registers[x as usize];
                let value: u8 = ((vx as u16 + nn as u16) % 256) as u8;
                self.registers[x as usize] = value;
                self.program_counter = self.program_counter + 2;
                Ok(())
            },
            Instruction::CopyReg { x, y } => {
                self.registers[x as usize] = self.registers[y as usize];
                self.program_counter = self.program_counter + 2;
                Ok(())
            },
            Instruction::OrReg { x, y } => {
                self.registers[x as usize] = self.registers[x as usize] | self.registers[y
                    as usize];
                self.program_counter = self.program_counter + 2;
                Ok(())
            },
            Instruction::AndReg { x, y } => {
                self.registers[x as usize] = self.registers[x as usize] & self.registers[y
                    as usize];
                self.program_counter = self.program_counter + 2;
                Ok(())
            },
            Instruction::XorReg { x, y } => {
                self.registers[x as usize] = self.registers[x as usize] ^ self.registers[y
                    as usize];
                self.program_counter = self.program_counter + 2;
                Ok(())
            },
            Instruction::AddReg { x, y } => {
                let vx: u8 = self.registers[x as usize];
                let vy: u8 = self.registers[y as usize];
                let sum: u16 = vx as u16 + vy as u16;
                let flag: u8 = if sum > 255 {
                    1
                } else {
                    0
                };
                self.registers[x as usize] = (sum % 256) as u8;
                self.registers[15] = flag;
                self.program_counter = self.program_counter + 2;
                Ok(())
            },
            Instruction::SubReg { x, y } => {
                let vx: u8 = self.registers[x as usize];
                let vy: u8 = self.registers[y as usize];
                let flag: u8 = if vx >= vy {
                    1
                } else {
                    0
                };
                let value: u8 = (((vx as u16 + 256) - vy as u16) % 256) as u8;
                proof {
                    vstd::arithmetic::div_mod::lemma_mod_add_multiples_vanish(
                        vx as int - vy as int,
                        256,
                    );
                }
                self.registers[x as usize] = value;
                self.registers[15] = flag;
                self.program_counter = self.program_counter + 2;
                Ok(())
            },
            Instruction::ShrReg { x } => {
                let vx: u8 = self.registers[x as usize];
                self.registers[x as usize] = vx / 2;
                self.registers[15] = vx % 2;
                self.program_counter = self.program_counter + 2;
                Ok(())
            },
            Instruction::RsbReg { x, y } => {
                let vx: u8 = self.registers[x as usize];
                let vy: u8 = self.registers[y as usize];
                let flag: u8 = if vy >= vx {
                    1
                } else {
                    0
                };
                let value: u8 = (((vy as u16 + 256) - vx as u16) % 256) as u8;
                proof {
                    vstd::arithmetic::div_mod::lemma_mod_add_multiples_vanish(
                        vy as int - vx as int,
                        256,
                    );
                }
                self.registers[x as usize] = value;
                self.registers[15] = flag;
                self.program_counter = self.program_counter + 2;
                Ok(())
            },
            Instruction::ShlReg { x } => {
                let vx: u8 = self.registers[x as usize];
                self.registers[x as usize] = ((vx as u16 * 2) % 256) as u8;
                self.registers[15] = vx / 128;
                self.program_counter = self.program_counter + 2;
                Ok(())
            },
            Instruction::SkipIfNeReg { x, y } => {
                if self.registers[x as usize] != self.registers[y as usize] {
                    self.program_counter = self.program_counter + 4;
                } else {
                    self.program_counter = self.program_counter + 2;
                }
                Ok(())
            },
            Instruction::StoreAddr { nnn } => {
                self.address_register = nnn;
                self.program_counter = self.program_counter + 2;
                Ok(())
            },
            Instruction::JumpOffset { nnn } => {
                self.program_counter = nnn + self.registers[0] as u16;
                Ok(())
            },
            Instruction::RandomMask { x, nn } => {
                self.registers[x as usize] = random_value & nn;
                self.program_counter = self.program_counter + 2;
                Ok(())
            },
            Instruction::DrawSprite { x, y, n } => {
                if n > 0 && self.address_register as usize + n as usize > 4096 {
                    return Err(Chip8Error::MemoryOutOfRange);
                }
                self.exec_draw(x, y, n);
                self.program_counter = self.program_counter + 2;
                Ok(())
            },
            Instruction::SkipIfKey { x } => {
                let vx: u8 = self.registers[x as usize];
                if vx >= 16 {
                    return Err(Chip8Error::KeyOutOfRange);
                }
                if self.keys[vx as usize] {
                    self.program_counter = self.program_counter + 4;
                } else {
                    self.program_counter = self.program_counter + 2;
                }
                Ok(())
            },
            Instruction::SkipIfNotKey { x } => {
                let vx: u8 = self.registers[x as usize];
                if vx >= 16 {
                    return Err(Chip8Error::KeyOutOfRange);
                }
                if !self.keys[vx as usize] {
                    self.program_counter = self.program_counter + 4;
                } else {
                    self.program_counter = self.program_counter + 2;
                }
                Ok(())
            },
            Instruction::ReadDelay { x } => {
                self.registers[x as usize] = self.delay_timer;
                self.program_counter = self.program_counter + 2;
                Ok(())
            },
            Instruction::WaitKey { x } => {
                self.mode = RunMode::AwaitingKey { target: x };
                Ok(())
            },
            Instruction::StoreDelay { x } => {
                self.delay_timer = self.registers[x as usize];
                self.program_counter = self.program_counter + 2;
                Ok(())
            },
            Instruction::StoreSound { x } => {
                self.sound_timer = self.registers[x as usize];
                self.program_counter = self.program_counter + 2;
                Ok(())
            },
            Instruction::AddAddr { x } => {
                let sum: u32 = self.address_register as u32 + self.registers[x as usize] as u32;
                self.address_register = (sum % 0x10000) as u16;
                self.program_counter = self.program_counter + 2;
                Ok(())
            },
            Instruction::FontAddr { x } => {
                self.address_register = self.font_data_base_address + 5 * (self.registers[x
                    as usize] as u16);
                self.program_counter = self.program_counter + 2;
                Ok(())
            },
            Instruction::StoreBcd { x } => {
                if self.address_register as usize + 3 > 4096 {
                    return Err(Chip8Error::MemoryOutOfRange);
                }
                let base: usize = self.address_register as usize;
                let vx: u8 = self.registers[x as usize];
                self.memory[base] = vx / 100;
                self.memory[base + 1] = (vx / 10) % 10;
                self.memory[base + 2] = vx % 10;
                self.program_counter = self.program_counter + 2;
                Ok(())
            },
            Instruction::DumpRegs { x } => {
                if self.address_register as usize + x as usize + 1 > 4096 {
                    return Err(Chip8Error::MemoryOutOfRange);
                }
                self.exec_dump_regs(x);
                self.program_counter = self.program_counter + 2;
                Ok(())
            },
            Instruction::LoadRegs { x } => {
                if self.address_register as usize + x as usize + 1 > 4096 {
                    return Err(Chip8Error::MemoryOutOfRange);
                }
                self.exec_load_regs(x);
                self.program_counter = self.program_counter + 2;
                Ok(())
            },
            Instruction::Unknown => {
                self.program_counter = self.program_counter + 2;
                Ok(())
            },
        }
    }

    /// The register-dump instruction's effect: registers 0 through `x`
    /// inclusive written to memory starting at I.
    #[verifier::loop_isolation(false)]
    fn exec_dump_regs(&mut self, x: u8)
        requires
            old(self).wf(),
            x < 16,
            old(self).address_register + x + 1 <= 4096,
        ensures
            final(self).wf(),
            final(self)@ == (MachineState {
                memory: regs_to_memory(
                    old(self)@.memory,
                    old(self)@.registers,
                    old(self)@.address_register as int,
                    x as int,
                ),
                ..old(self)@
            }),
    {
        let ghost orig: MachineState = self@;
        let base: usize = self.address_register as usize;
        let mut i: usize = 0;
        while i <= x as usize
            invariant
                i <= x as usize + 1,
                self.memory@.len() == 4096,
                self.registers@ == orig.registers,
                self.stack@ == orig.stack,
                self.keys@ == orig.keys,
                self.screen@ == orig.screen,
                self.address_register == orig.address_register,
                self.program_counter == orig.program_counter,
                self.delay_timer == orig.delay_timer,
                self.sound_timer == orig.sound_timer,
                self.font_data_base_address == orig.font_base,
                self.mode == orig.mode,
                forall|k: int|
                    0 <= k < 4096 && !(base <= k < base + i) ==> self.memory@[k] == orig.memory[k],
                forall|k: int| base <= k < base + i ==> self.memory@[k] == orig.registers[k - base],
            decreases x as int + 1 - i,
        {
            self.memory[base + i] = self.registers[i];
            i += 1;
        }
        proof {
            assert(self.memory@ =~= regs_to_memory(
                orig.memory,
                orig.registers,
                orig.address_register as int,
                x as int,
            ));
        }
    }

    /// The register-load instruction's effect: registers 0 through `x`
    /// inclusive read from memory starting at I.
    #[verifier::loop_isolation(false)]
    fn exec_load_regs(&mut self, x: u8)
        requires
            old(self).wf(),
            x < 16,
            old(self).address_register + x + 1 <= 4096,
        ensures
            final(self).wf(),
            final(self)@ == (MachineState {
                registers: memory_to_regs(
                    old(self)@.registers,
                    old(self)@.memory,
                    old(self)@.address_register as int,
                    x as int,
                ),
                ..old(self)@
            }),
    {
        let ghost orig: MachineState = self@;
        let base: usize = self.address_register as usize;
        let mut i: usize = 0;
        while i <= x as usize
            invariant
                i <= x as usize + 1,
                self.registers@.len() == 16,
                self.memory@ == orig.memory,
                self.stack@ == orig.stack,
                self.keys@ == orig.keys,
                self.screen@ == orig.screen,
                self.address_register == orig.address_register,
                self.program_counter == orig.program_counter,
                self.delay_timer == orig.delay_timer,
                self.sound_timer == orig.sound_timer,
                self.font_data_base_address == orig.font_base,
                self.mode == orig.mode,
                forall|k: int| 0 <= k < i ==> self.registers@[k] == orig.memory[base + k],
                forall|k: int| i <= k < 16 ==> self.registers@[k] == orig.registers[k],
            decreases x as int + 1 - i,
        {
            self.registers[i] = self.memory[base + i];
            i += 1;
        }
        proof {
            assert(self.registers@ =~= memory_to_regs(
                orig.registers,
                orig.memory,
                orig.address_register as int,
                x as int,
            ));
        }
    }

    /// The screen's width in pixels.
    pub fn screen_width(&self) -> (w: u32)
        ensures
            w == 64,
    {
        64
    }

    /// The screen's height in pixels.
    pub fn screen_height(&self) -> (h: u32)
        ensures
            h == 32,
    {
        32
    }
}

} // verus!
