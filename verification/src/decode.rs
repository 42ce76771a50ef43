//! Decoding a 16-bit opcode word into one of the 35 instructions.
//!
//! The opcode is split into nibble fields: the high nibble selects a family,
//! and for the register-to-register and key/timer families the low nibble or
//! low byte selects the member. Operands are the second nibble (X), the third
//! nibble (Y), the low nibble (N), the low byte (NN) and the low twelve bits
//! (NNN). A word that matches no pattern decodes to `Unknown`, which the
//! machine treats as a no-op that still advances the program counter.

use vstd::prelude::*;

verus! {

/// One decoded instruction. `x` and `y` are register indices (always below
/// 16, being nibbles), `n` a nibble, `nn` a byte and `nnn` a 12-bit address.
#[derive(Clone, Copy, Debug, PartialEq, Eq, Structural)]
pub enum Instruction {
    /// 00E0: clear every screen pixel.
    ClearScreen,
    /// 00EE: pop the call stack and resume after the call site.
    ReturnFromSub,
    /// 1NNN: jump to NNN.
    Jump { nnn: u16 },
    /// 2NNN: push the current program counter and jump to NNN.
    CallSub { nnn: u16 },
    /// 3XNN: skip the next instruction if VX == NN.
    SkipIfEqImm { x: u8, nn: u8 },
    /// 4XNN: skip the next instruction if VX != NN.
    SkipIfNeImm { x: u8, nn: u8 },
    /// 5XY0: skip the next instruction if VX == VY.
    SkipIfEqReg { x: u8, y: u8 },
    /// 6XNN: VX = NN.
    StoreImm { x: u8, nn: u8 },
    /// 7XNN: VX = VX + NN modulo 256; VF untouched.
    AddImm { x: u8, nn: u8 },
    /// 8XY0: VX = VY.
    CopyReg { x: u8, y: u8 },
    /// 8XY1: VX = VX | VY.
    OrReg { x: u8, y: u8 },
    /// 8XY2: VX = VX & VY.
    AndReg { x: u8, y: u8 },
    /// 8XY3: VX = VX ^ VY.
    XorReg { x: u8, y: u8 },
    /// 8XY4: VX = VX + VY modulo 256; VF = carry.
    AddReg { x: u8, y: u8 },
    /// 8XY5: VX = VX - VY modulo 256; VF = 1 when no borrow.
    SubReg { x: u8, y: u8 },
    /// 8XY6: VX = VX >> 1; VF = the shifted-out bit.
    ShrReg { x: u8 },
    /// 8XY7: VX = VY - VX modulo 256; VF = 1 when no borrow.
    RsbReg { x: u8, y: u8 },
    /// 8XYE: VX = VX << 1 modulo 256; VF = the shifted-out bit.
    ShlReg { x: u8 },
    /// 9XY0: skip the next instruction if VX != VY.
    SkipIfNeReg { x: u8, y: u8 },
    /// ANNN: I = NNN.
    StoreAddr { nnn: u16 },
    /// BNNN: jump to NNN + V0.
    JumpOffset { nnn: u16 },
    /// CXNN: VX = random byte & NN.
    RandomMask { x: u8, nn: u8 },
    /// DXYN: draw the N-row sprite at memory[I..] at position (VX, VY).
    DrawSprite { x: u8, y: u8, n: u8 },
    /// EX9E: skip the next instruction if key VX is pressed.
    SkipIfKey { x: u8 },
    /// EXA1: skip the next instruction if key VX is not pressed.
    SkipIfNotKey { x: u8 },
    /// FX07: VX = delay timer.
    ReadDelay { x: u8 },
    /// FX0A: suspend until a key is pressed; store its index into VX.
    WaitKey { x: u8 },
    /// FX15: delay timer = VX.
    StoreDelay { x: u8 },
    /// FX18: sound timer = VX.
    StoreSound { x: u8 },
    /// FX1E: I = I + VX modulo 65536; no carry flag.
    AddAddr { x: u8 },
    /// FX29: I = font base + 5 * VX.
    FontAddr { x: u8 },
    /// FX33: write the decimal digits of VX to memory[I], [I+1], [I+2].
    StoreBcd { x: u8 },
    /// FX55: copy V0..VX inclusive to memory starting at I.
    DumpRegs { x: u8 },
    /// FX65: copy memory starting at I into V0..VX inclusive.
    LoadRegs { x: u8 },
    /// Any word matching no pattern: no-op.
    Unknown,
}

/// The X operand: the second nibble.
pub open spec fn op_x(op: u16) -> u8 {
    ((op / 0x100) % 0x10) as u8
}

/// The Y operand: the third nibble.
pub open spec fn op_y(op: u16) -> u8 {
    ((op / 0x10) % 0x10) as u8
}

/// The N operand: the low nibble.
pub open spec fn op_n(op: u16) -> u8 {
    (op % 0x10) as u8
}

/// The NN operand: the low byte.
pub open spec fn op_nn(op: u16) -> u8 {
    (op % 0x100) as u8
}

/// The NNN operand: the low twelve bits.
pub open spec fn op_nnn(op: u16) -> u16 {
    op % 0x1000
}

/// What a 16-bit opcode word means, by the fixed pattern precedence:
/// exact matches first, then the high-nibble families, the low nibble or
/// low byte discriminating within a family.
pub open spec fn spec_decode(op: u16) -> Instruction {
    let hi = op / 0x1000;
    if op == 0x00E0 {
        Instruction::ClearScreen
    } else if op == 0x00EE {
        Instruction::ReturnFromSub
    } else if hi == 0x1 {
        Instruction::Jump { nnn: op_nnn(op) }
    } else if hi == 0x2 {
        Instruction::CallSub { nnn: op_nnn(op) }
    } else if hi == 0x3 {
        Instruction::SkipIfEqImm { x: op_x(op), nn: op_nn(op) }
    } else if hi == 0x4 {
        Instruction::SkipIfNeImm { x: op_x(op), nn: op_nn(op) }
    } else if hi == 0x5 && op % 0x10 == 0x0 {
        Instruction::SkipIfEqReg { x: op_x(op), y: op_y(op) }
    } else if hi == 0x6 {
        Instruction::StoreImm { x: op_x(op), nn: op_nn(op) }
    } else if hi == 0x7 {
        Instruction::AddImm { x: op_x(op), nn: op_nn(op) }
    } else if hi == 0x8 && op % 0x10 == 0x0 {
        Instruction::CopyReg { x: op_x(op), y: op_y(op) }
    } else if hi == 0x8 && op % 0x10 == 0x1 {
        Instruction::OrReg { x: op_x(op), y: op_y(op) }
    } else if hi == 0x8 && op % 0x10 == 0x2 {
        Instruction::AndReg { x: op_x(op), y: op_y(op) }
    } else if hi == 0x8 && op % 0x10 == 0x3 {
        Instruction::XorReg { x: op_x(op), y: op_y(op) }
    } else if hi == 0x8 && op % 0x10 == 0x4 {
        Instruction::AddReg { x: op_x(op), y: op_y(op) }
    } else if hi == 0x8 && op % 0x10 == 0x5 {
        Instruction::SubReg { x: op_x(op), y: op_y(op) }
    } else if hi == 0x8 && op % 0x10 == 0x6 {
        Instruction::ShrReg { x: op_x(op) }
    } else if hi == 0x8 && op % 0x10 == 0x7 {
        Instruction::RsbReg { x: op_x(op), y: op_y(op) }
    } else if hi == 0x8 && op % 0x10 == 0xE {
        Instruction::ShlReg { x: op_x(op) }
    } else if hi == 0x9 && op % 0x10 == 0x0 {
        Instruction::SkipIfNeReg { x: op_x(op), y: op_y(op) }
    } else if hi == 0xA {
        Instruction::StoreAddr { nnn: op_nnn(op) }
    } else if hi == 0xB {
        Instruction::JumpOffset { nnn: op_nnn(op) }
    } else if hi == 0xC {
        Instruction::RandomMask { x: op_x(op), nn: op_nn(op) }
    } else if hi == 0xD {
        Instruction::DrawSprite { x: op_x(op), y: op_y(op), n: op_n(op) }
    } else if hi == 0xE && op % 0x100 == 0x9E {
        Instruction::SkipIfKey { x: op_x(op) }
    } else if hi == 0xE && op % 0x100 == 0xA1 {
        Instruction::SkipIfNotKey { x: op_x(op) }
    } else if hi == 0xF && op % 0x100 == 0x07 {
        Instruction::ReadDelay { x: op_x(op) }
    } else if hi == 0xF && op % 0x100 == 0x0A {
        Instruction::WaitKey { x: op_x(op) }
    } else if hi == 0xF && op % 0x100 == 0x15 {
        Instruction::StoreDelay { x: op_x(op) }
    } else if hi == 0xF && op % 0x100 == 0x18 {
        Instruction::StoreSound { x: op_x(op) }
    } else if hi == 0xF && op % 0x100 == 0x1E {
        Instruction::AddAddr { x: op_x(op) }
    } else if hi == 0xF && op % 0x100 == 0x29 {
        Instruction::FontAddr { x: op_x(op) }
    } else if hi == 0xF && op % 0x100 == 0x33 {
        Instruction::StoreBcd { x: op_x(op) }
    } else if hi == 0xF && op % 0x100 == 0x55 {
        Instruction::DumpRegs { x: op_x(op) }
    } else if hi == 0xF && op % 0x100 == 0x65 {
        Instruction::LoadRegs { x: op_x(op) }
    } else {
        Instruction::Unknown
    }
}

/// Operand fields in range: register indices and row counts are nibbles,
/// addresses are twelve bits. Every decoded instruction satisfies this.
pub open spec fn instruction_wf(instr: Instruction) -> bool {
    match instr {
        Instruction::ClearScreen => true,
        Instruction::ReturnFromSub => true,
        Instruction::Jump { nnn } => nnn < 0x1000,
        Instruction::CallSub { nnn } => nnn < 0x1000,
        Instruction::SkipIfEqImm { x, nn } => x < 16,
        Instruction::SkipIfNeImm { x, nn } => x < 16,
        Instruction::SkipIfEqReg { x, y } => x < 16 && y < 16,
        Instruction::StoreImm { x, nn } => x < 16,
        Instruction::AddImm { x, nn } => x < 16,
        Instruction::CopyReg { x, y } => x < 16 && y < 16,
        Instruction::OrReg { x, y } => x < 16 && y < 16,
        Instruction::AndReg { x, y } => x < 16 && y < 16,
        Instruction::XorReg { x, y } => x < 16 && y < 16,
        Instruction::AddReg { x, y } => x < 16 && y < 16,
        Instruction::SubReg { x, y } => x < 16 && y < 16,
        Instruction::ShrReg { x } => x < 16,
        Instruction::RsbReg { x, y } => x < 16 && y < 16,
        Instruction::ShlReg { x } => x < 16,
        Instruction::SkipIfNeReg { x, y } => x < 16 && y < 16,
        Instruction::StoreAddr { nnn } => nnn < 0x1000,
        Instruction::JumpOffset { nnn } => nnn < 0x1000,
        Instruction::RandomMask { x, nn } => x < 16,
        Instruction::DrawSprite { x, y, n } => x < 16 && y < 16 && n < 16,
        Instruction::SkipIfKey { x } => x < 16,
        Instruction::SkipIfNotKey { x } => x < 16,
        Instruction::ReadDelay { x } => x < 16,
        Instruction::WaitKey { x } => x < 16,
        Instruction::StoreDelay { x } => x < 16,
        Instruction::StoreSound { x } => x < 16,
        Instruction::AddAddr { x } => x < 16,
        Instruction::FontAddr { x } => x < 16,
        Instruction::StoreBcd { x } => x < 16,
        Instruction::DumpRegs { x } => x < 16,
        Instruction::LoadRegs { x } => x < 16,
        Instruction::Unknown => true,
    }
}

/// Decodes an opcode word, following `spec_decode` pattern for pattern.
pub fn decode(op: u16) -> (instr: Instruction)
    ensures
        instr == spec_decode(op),
        instruction_wf(instr),
{
    let hi: u16 = op / 0x1000;
    let low_nibble: u16 = op % 0x10;
    let low_byte: u16 = op % 0x100;
    let x: u8 = ((op / 0x100) % 0x10) as u8;
    let y: u8 = ((op / 0x10) % 0x10) as u8;
    let n: u8 = (op % 0x10) as u8;
    let nn: u8 = (op % 0x100) as u8;
    let nnn: u16 = op % 0x1000;
    if op == 0x00E0 {
        Instruction::ClearScreen
    } else if op == 0x00EE {
        Instruction::ReturnFromSub
    } else if hi == 0x1 {
        Instruction::Jump { nnn }
    } else if hi == 0x2 {
        Instruction::CallSub { nnn }
    } else if hi == 0x3 {
        Instruction::SkipIfEqImm { x, nn }
    } else if hi == 0x4 {
        Instruction::SkipIfNeImm { x, nn }
    } else if hi == 0x5 && low_nibble == 0x0 {
        Instruction::SkipIfEqReg { x, y }
    } else if hi == 0x6 {
        Instruction::StoreImm { x, nn }
    } else if hi == 0x7 {
        Instruction::AddImm { x, nn }
    } else if hi == 0x8 && low_nibble == 0x0 {
        Instruction::CopyReg { x, y }
    } else if hi == 0x8 && low_nibble == 0x1 {
        Instruction::OrReg { x, y }
    } else if hi == 0x8 && low_nibble == 0x2 {
        Instruction::AndReg { x, y }
    } else if hi == 0x8 && low_nibble == 0x3 {
        Instruction::XorReg { x, y }
    } else if hi == 0x8 && low_nibble == 0x4 {
        Instruction::AddReg { x, y }
    } else if hi == 0x8 && low_nibble == 0x5 {
        Instruction::SubReg { x, y }
    } else if hi == 0x8 && low_nibble == 0x6 {
        Instruction::ShrReg { x }
    } else if hi == 0x8 && low_nibble == 0x7 {
        Instruction::RsbReg { x, y }
    } else if hi == 0x8 && low_nibble == 0xE {
        Instruction::ShlReg { x }
    } else if hi == 0x9 && low_nibble == 0x0 {
        Instruction::SkipIfNeReg { x, y }
    } else if hi == 0xA {
        Instruction::StoreAddr { nnn }
    } else if hi == 0xB {
        Instruction::JumpOffset { nnn }
    } else if hi == 0xC {
        Instruction::RandomMask { x, nn }
    } else if hi == 0xD {
        Instruction::DrawSprite { x, y, n }
    } else if hi == 0xE && low_byte == 0x9E {
        Instruction::SkipIfKey { x }
    } else if hi == 0xE && low_byte == 0xA1 {
        Instruction::SkipIfNotKey { x }
    } else if hi == 0xF && low_byte == 0x07 {
        Instruction::ReadDelay { x }
    } else if hi == 0xF && low_byte == 0x0A {
        Instruction::WaitKey { x }
    } else if hi == 0xF && low_byte == 0x15 {
        Instruction::StoreDelay { x }
    } else if hi == 0xF && low_byte == 0x18 {
        Instruction::StoreSound { x }
    } else if hi == 0xF && low_byte == 0x1E {
        Instruction::AddAddr { x }
    } else if hi == 0xF && low_byte == 0x29 {
        Instruction::FontAddr { x }
    } else if hi == 0xF && low_byte == 0x33 {
        Instruction::StoreBcd { x }
    } else if hi == 0xF && low_byte == 0x55 {
        Instruction::DumpRegs { x }
    } else if hi == 0xF && low_byte == 0x65 {
        Instruction::LoadRegs { x }
    } else {
        Instruction::Unknown
    }
}

} // verus!
