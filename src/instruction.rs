//! Instructions of the base set and their decoding from 16-bit words.

use vstd::prelude::*;

use crate::utils::{
    get_addr, get_first_nibble, get_last_byte, get_last_nibble, get_second_nibble,
    get_third_nibble,
};

verus! {

/// One decoded instruction. `x` and `y` are register indices (below 16),
/// `kk` an immediate byte, `addr` a 12-bit address, `n` a sprite height.
#[derive(Debug, Clone, Copy, PartialEq, Eq, Structural)]
pub enum Instruction {
    /// `00E0`
    ClearScreen,
    /// `00EE`
    Return,
    /// `1nnn`
    Jump { addr: u16 },
    /// `2nnn`
    Call { addr: u16 },
    /// `3xkk`
    SkipIfEqualImm { x: u8, kk: u8 },
    /// `4xkk`
    SkipIfNotEqualImm { x: u8, kk: u8 },
    /// `5xy0`
    SkipIfEqualReg { x: u8, y: u8 },
    /// `6xkk`
    LoadImm { x: u8, kk: u8 },
    /// `7xkk`
    AddImm { x: u8, kk: u8 },
    /// `8xy0`
    Move { x: u8, y: u8 },
    /// `8xy2`
    And { x: u8, y: u8 },
    /// `8xy3`
    Xor { x: u8, y: u8 },
    /// `8xy4`
    AddReg { x: u8, y: u8 },
    /// `8xy5`
    SubReg { x: u8, y: u8 },
    /// `Annn`
    LoadIndex { addr: u16 },
    /// `Cxkk`
    Random { x: u8, kk: u8 },
    /// `Dxyn`
    Draw { x: u8, y: u8, n: u8 },
    /// `Ex9E`
    SkipIfKeyPressed { x: u8 },
    /// `ExA1`
    SkipIfKeyNotPressed { x: u8 },
    /// `Fx07`
    LoadDelay { x: u8 },
    /// `Fx0A`
    WaitKey { x: u8 },
    /// `Fx15`
    SetDelay { x: u8 },
    /// `Fx18`
    SetSound { x: u8 },
    /// `Fx1E`
    AddIndex { x: u8 },
    /// `Fx29`
    LoadGlyph { x: u8 },
    /// `Fx33`
    StoreDecimal { x: u8 },
    /// `Fx55`
    StoreRegisters { x: u8 },
    /// `Fx65`
    LoadRegisters { x: u8 },
}

/// What a word decodes to, read field by field; `None` for a word outside
/// the base set.
pub open spec fn decoded(op: u16) -> Option<Instruction> {
    let family = op / 0x1000;
    let x = ((op / 0x100) % 0x10) as u8;
    let y = ((op / 0x10) % 0x10) as u8;
    let n = (op % 0x10) as u8;
    let kk = (op % 0x100) as u8;
    let addr = (op % 0x1000) as u16;
    if family == 0x0 && op == 0x00E0 {
        Some(Instruction::ClearScreen)
    } else if family == 0x0 && op == 0x00EE {
        Some(Instruction::Return)
    } else if family == 0x1 {
        Some(Instruction::Jump { addr })
    } else if family == 0x2 {
        Some(Instruction::Call { addr })
    } else if family == 0x3 {
        Some(Instruction::SkipIfEqualImm { x, kk })
    } else if family == 0x4 {
        Some(Instruction::SkipIfNotEqualImm { x, kk })
    } else if family == 0x5 && n == 0 {
        Some(Instruction::SkipIfEqualReg { x, y })
    } else if family == 0x6 {
        Some(Instruction::LoadImm { x, kk })
    } else if family == 0x7 {
        Some(Instruction::AddImm { x, kk })
    } else if family == 0x8 && n == 0x0 {
        Some(Instruction::Move { x, y })
    } else if family == 0x8 && n == 0x2 {
        Some(Instruction::And { x, y })
    } else if family == 0x8 && n == 0x3 {
        Some(Instruction::Xor { x, y })
    } else if family == 0x8 && n == 0x4 {
        Some(Instruction::AddReg { x, y })
    } else if family == 0x8 && n == 0x5 {
        Some(Instruction::SubReg { x, y })
    } else if family == 0xA {
        Some(Instruction::LoadIndex { addr })
    } else if family == 0xC {
        Some(Instruction::Random { x, kk })
    } else if family == 0xD {
        Some(Instruction::Draw { x, y, n })
    } else if family == 0xE && kk == 0x9E {
        Some(Instruction::SkipIfKeyPressed { x })
    } else if family == 0xE && kk == 0xA1 {
        Some(Instruction::SkipIfKeyNotPressed { x })
    } else if family == 0xF && kk == 0x07 {
        Some(Instruction::LoadDelay { x })
    } else if family == 0xF && kk == 0x0A {
        Some(Instruction::WaitKey { x })
    } else if family == 0xF && kk == 0x15 {
        Some(Instruction::SetDelay { x })
    } else if family == 0xF && kk == 0x18 {
        Some(Instruction::SetSound { x })
    } else if family == 0xF && kk == 0x1E {
        Some(Instruction::AddIndex { x })
    } else if family == 0xF && kk == 0x29 {
        Some(Instruction::LoadGlyph { x })
    } else if family == 0xF && kk == 0x33 {
        Some(Instruction::StoreDecimal { x })
    } else if family == 0xF && kk == 0x55 {
        Some(Instruction::StoreRegisters { x })
    } else if family == 0xF && kk == 0x65 {
        Some(Instruction::LoadRegisters { x })
    } else {
        None
    }
}

/// Decodes an instruction word; `None` when it is outside the base set.
pub fn decode(op: u16) -> (r: Option<Instruction>)
    ensures
        r == decoded(op),
{
    let family = get_first_nibble(op);
    let x = get_second_nibble(op);
    let y = get_third_nibble(op);
    let n = get_last_nibble(op);
    let kk = get_last_byte(op);
    let addr = get_addr(op);
    match family {
        0x0 => {
            if op == 0x00E0 {
                Some(Instruction::ClearScreen)
            } else if op == 0x00EE {
                Some(Instruction::Return)
            } else {
                None
            }
        },
        0x1 => Some(Instruction::Jump { addr }),
        0x2 => Some(Instruction::Call { addr }),
        0x3 => Some(Instruction::SkipIfEqualImm { x, kk }),
        0x4 => Some(Instruction::SkipIfNotEqualImm { x, kk }),
        0x5 => {
            if n == 0 {
                Some(Instruction::SkipIfEqualReg { x, y })
            } else {
                None
            }
        },
        0x6 => Some(Instruction::LoadImm { x, kk }),
        0x7 => Some(Instruction::AddImm { x, kk }),
        0x8 => match n {
            0x0 => Some(Instruction::Move { x, y }),
            0x2 => Some(Instruction::And { x, y }),
            0x3 => Some(Instruction::Xor { x, y }),
            0x4 => Some(Instruction::AddReg { x, y }),
            0x5 => Some(Instruction::SubReg { x, y }),
            _ => None,
        },
        0xA => Some(Instruction::LoadIndex { addr }),
        0xC => Some(Instruction::Random { x, kk }),
        0xD => Some(Instruction::Draw { x, y, n }),
        0xE => match kk {
            0x9E => Some(Instruction::SkipIfKeyPressed { x }),
            0xA1 => Some(Instruction::SkipIfKeyNotPressed { x }),
            _ => None,
        },
        0xF => match kk {
            0x07 => Some(Instruction::LoadDelay { x }),
            0x0A => Some(Instruction::WaitKey { x }),
            0x15 => Some(Instruction::SetDelay { x }),
            0x18 => Some(Instruction::SetSound { x }),
            0x1E => Some(Instruction::AddIndex { x }),
            0x29 => Some(Instruction::LoadGlyph { x }),
            0x33 => Some(Instruction::StoreDecimal { x }),
            0x55 => Some(Instruction::StoreRegisters { x }),
            0x65 => Some(Instruction::LoadRegisters { x }),
            _ => None,
        },
        _ => None,
    }
}

} // verus!
