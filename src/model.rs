//! The abstract machine: its state, the effect of each instruction, and one
//! fetch-decode-execute cycle.

use vstd::prelude::*;

use crate::error::ChipError;
use crate::instruction::{decoded, Instruction};

verus! {

/// Pixels per display row.
pub const WIDTH: usize = 64;

/// Display rows.
pub const HEIGHT: usize = 32;

/// Pixels on the display.
pub const SCREEN_SIZE: usize = 2048;

/// Bytes of addressable memory.
pub const MEMORY_SIZE: usize = 4096;

/// Address at which a program image is loaded and execution starts.
pub const PROGRAM_START: usize = 0x200;

/// Largest program image that fits in memory.
pub const MAX_PROGRAM_SIZE: usize = 3584;

/// Return-address slots on the call stack.
pub const STACK_DEPTH: usize = 16;

/// Bytes per built-in hexadecimal glyph.
pub const GLYPH_SIZE: usize = 5;

/// The sixteen built-in glyphs, five rows each, digit `d` at `5 * d`.
pub open spec fn glyphs() -> Seq<u8> {
    seq![
        0xF0u8, 0x90, 0x90, 0x90, 0xF0,
        0x20, 0x60, 0x20, 0x20, 0x70,
        0xF0, 0x10, 0xF0, 0x80, 0xF0,
        0xF0, 0x10, 0xF0, 0x10, 0xF0,
        0x90, 0x90, 0xF0, 0x10, 0x10,
        0xF0, 0x80, 0xF0, 0x10, 0xF0,
        0xF0, 0x80, 0xF0, 0x90, 0xF0,
        0xF0, 0x10, 0x20, 0x40, 0x40,
        0xF0, 0x90, 0xF0, 0x90, 0xF0,
        0xF0, 0x90, 0xF0, 0x10, 0xF0,
        0xF0, 0x90, 0xF0, 0x90, 0x90,
        0xE0, 0x90, 0xE0, 0x90, 0xE0,
        0xF0, 0x80, 0x80, 0x80, 0xF0,
        0xE0, 0x90, 0x90, 0x90, 0xE0,
        0xF0, 0x80, 0xF0, 0x80, 0xF0,
        0xF0, 0x80, 0xF0, 0x80, 0x80,
    ]
}

/// The abstract machine state.
pub ghost struct ChipModel {
    pub memory: Seq<u8>,
    pub registers: Seq<u8>,
    pub screen: Seq<bool>,
    pub i: u16,
    pub delay: u8,
    pub sound: u8,
    pub pc: u16,
    /// Return addresses, oldest first.
    pub stack: Seq<u16>,
}

impl ChipModel {
    /// Sizes that every reachable state has.
    pub open spec fn inv(self) -> bool {
        &&& self.memory.len() == MEMORY_SIZE
        &&& self.registers.len() == 16
        &&& self.screen.len() == SCREEN_SIZE
        &&& self.stack.len() <= STACK_DEPTH
    }
}

/// Memory right after loading `program`: glyphs at the bottom, the program
/// from the program start on, zero elsewhere.
pub open spec fn loaded_memory(program: Seq<u8>) -> Seq<u8> {
    Seq::new(
        MEMORY_SIZE as nat,
        |a: int|
            if a < glyphs().len() {
                glyphs()[a]
            } else if PROGRAM_START <= a < PROGRAM_START + program.len() {
                program[a - PROGRAM_START]
            } else {
                0u8
            },
    )
}

/// The state in which a program starts.
pub open spec fn initial_state(program: Seq<u8>) -> ChipModel {
    ChipModel {
        memory: loaded_memory(program),
        registers: Seq::new(16, |k: int| 0u8),
        screen: Seq::new(SCREEN_SIZE as nat, |p: int| false),
        i: 0,
        delay: 0,
        sound: 0,
        pc: PROGRAM_START as u16,
        stack: Seq::empty(),
    }
}

/// A timer after one tick: one less, floored at zero.
pub open spec fn tick_timer(t: u8) -> u8 {
    if t > 0 {
        (t - 1) as u8
    } else {
        0
    }
}

/// The state after one 60 Hz tick.
pub open spec fn ticked(m: ChipModel) -> ChipModel {
    ChipModel { delay: tick_timer(m.delay), sound: tick_timer(m.sound), ..m }
}


/// How many frame pixels, in each direction, show one display pixel.
pub const SCALE: usize = 2;

/// Width of the scaled frame.
pub const FRAME_WIDTH: usize = 128;

/// Pixels in the scaled frame.
pub const FRAME_SIZE: usize = 8192;

/// Frame colour of a lit pixel (green).
pub const COLOR: u32 = 65280;

/// The display pixel that frame pixel `q` shows.
pub open spec fn frame_source(q: int) -> int {
    (q / FRAME_WIDTH as int / SCALE as int) * WIDTH as int + (q % FRAME_WIDTH as int) / SCALE as int
}

/// Frame pixel `q` for the display `screen`.
pub open spec fn frame_pixel(screen: Seq<bool>, q: int) -> u32 {
    if screen[frame_source(q)] {
        COLOR
    } else {
        0
    }
}

/// Index of the flag register.
pub const FLAG: u8 = 0xF;

impl Instruction {
    /// Operand ranges that every decoded instruction has.
    pub open spec fn wf(self) -> bool {
        match self {
            Instruction::Jump { addr } => addr < 0x1000,
            Instruction::Call { addr } => addr < 0x1000,
            Instruction::LoadIndex { addr } => addr < 0x1000,
            Instruction::SkipIfEqualImm { x, kk } => x < 16,
            Instruction::SkipIfNotEqualImm { x, kk } => x < 16,
            Instruction::SkipIfEqualReg { x, y } => x < 16 && y < 16,
            Instruction::LoadImm { x, kk } => x < 16,
            Instruction::AddImm { x, kk } => x < 16,
            Instruction::Move { x, y } => x < 16 && y < 16,
            Instruction::And { x, y } => x < 16 && y < 16,
            Instruction::Xor { x, y } => x < 16 && y < 16,
            Instruction::AddReg { x, y } => x < 16 && y < 16,
            Instruction::SubReg { x, y } => x < 16 && y < 16,
            Instruction::Random { x, kk } => x < 16,
            Instruction::Draw { x, y, n } => x < 16 && y < 16 && n < 16,
            Instruction::SkipIfKeyPressed { x } => x < 16,
            Instruction::SkipIfKeyNotPressed { x } => x < 16,
            Instruction::LoadDelay { x } => x < 16,
            Instruction::WaitKey { x } => x < 16,
            Instruction::SetDelay { x } => x < 16,
            Instruction::SetSound { x } => x < 16,
            Instruction::AddIndex { x } => x < 16,
            Instruction::LoadGlyph { x } => x < 16,
            Instruction::StoreDecimal { x } => x < 16,
            Instruction::StoreRegisters { x } => x < 16,
            Instruction::LoadRegisters { x } => x < 16,
            _ => true,
        }
    }
}

/// Register `x`.
pub open spec fn reg(m: ChipModel, x: u8) -> u8 {
    m.registers[x as int]
}

/// `m` with register `x` set to `v`.
pub open spec fn with_reg(m: ChipModel, x: u8, v: u8) -> ChipModel {
    ChipModel { registers: m.registers.update(x as int, v), ..m }
}

/// `m` with the program counter moved on by `by` bytes.
pub open spec fn advanced(m: ChipModel, by: int) -> ChipModel {
    ChipModel { pc: (m.pc + by) as u16, ..m }
}

/// `m` moved past the next instruction, and past one more when `cond` holds.
pub open spec fn skipped_if(m: ChipModel, cond: bool) -> ChipModel {
    advanced(m, if cond { 4 } else { 2 })
}

/// Bit `col` of a sprite row, counted from the most significant bit.
pub open spec fn sprite_bit(byte: u8, col: int) -> bool {
    (byte >> ((7 - col) as u8)) & 1u8 == 1u8
}

/// Row offset of pixel `p` within a sprite drawn at row `vy`, wrapping.
pub open spec fn sprite_row(vy: u8, p: int) -> int {
    (p / WIDTH as int - vy as int) % (HEIGHT as int)
}

/// Column offset of pixel `p` within a sprite drawn at column `vx`, wrapping.
pub open spec fn sprite_col(vx: u8, p: int) -> int {
    (p % WIDTH as int - vx as int) % (WIDTH as int)
}

/// Whether pixel `p` takes a set bit from the sprite at `I` drawn at column
/// `vx`, row `vy`, with both axes wrapping, counting rows `0..rows` and the
/// first `cols` bits of row `rows`.
pub open spec fn sprite_hits(m: ChipModel, vx: u8, vy: u8, p: int, rows: int, cols: int) -> bool {
    let dr = sprite_row(vy, p);
    let dc = sprite_col(vx, p);
    &&& dc < 8
    &&& dr < rows || (dr == rows && dc < cols)
    &&& sprite_bit(m.memory[m.i + dr], dc)
}

/// Whether drawing `n` rows at (`vx`, `vy`) turns some lit pixel off.
pub open spec fn sprite_erases(m: ChipModel, vx: u8, vy: u8, n: int) -> bool {
    exists|p: int| 0 <= p < SCREEN_SIZE && m.screen[p] && #[trigger] sprite_hits(m, vx, vy, p, n, 0)
}

/// The display after XOR-drawing `n` rows at (`vx`, `vy`).
pub open spec fn sprite_screen(m: ChipModel, vx: u8, vy: u8, n: int) -> Seq<bool> {
    Seq::new(SCREEN_SIZE as nat, |p: int| m.screen[p] != sprite_hits(m, vx, vy, p, n, 0))
}


/// The pixel that bit `col` of sprite row `row` lands on, drawn at
/// (`vx`, `vy`), is the one pixel whose wrapped offsets are (`row`, `col`).
pub proof fn lemma_sprite_pixel(vx: u8, vy: u8, row: int, col: int)
    requires
        0 <= row < 16,
        0 <= col < 8,
    ensures
        ({
            let loc = ((vy + row) % 32) * 64 + (vx + col) % 64;
            &&& 0 <= loc < SCREEN_SIZE
            &&& sprite_row(vy, loc) == row
            &&& sprite_col(vx, loc) == col
            &&& forall|p: int|
                0 <= p < SCREEN_SIZE && #[trigger] sprite_row(vy, p) == row && #[trigger] sprite_col(vx, p)
                    == col ==> p == loc
        }),
{
    let r = (vy + row) % 32;
    let c = (vx + col) % 64;
    let loc = r * 64 + c;
    assert(loc / 64 == r && loc % 64 == c) by (nonlinear_arith)
        requires
            0 <= r < 32,
            0 <= c < 64,
            loc == r * 64 + c,
    ;
    assert((r - vy) % 32 == row) by (nonlinear_arith)
        requires
            r == (vy + row) % 32,
            0 <= row < 16,
            0 <= vy < 256,
    ;
    assert((c - vx) % 64 == col) by (nonlinear_arith)
        requires
            c == (vx + col) % 64,
            0 <= col < 8,
            0 <= vx < 256,
    ;
    assert forall|p: int|
        0 <= p < SCREEN_SIZE && #[trigger] sprite_row(vy, p) == row && #[trigger] sprite_col(vx, p)
            == col implies p == loc by {
        let pr = p / 64;
        let pc = p % 64;
        assert(p == pr * 64 + pc && 0 <= pr < 32 && 0 <= pc < 64) by (nonlinear_arith)
            requires
                0 <= p < 2048,
                pr == p / 64,
                pc == p % 64,
        ;
        assert(pr == r) by (nonlinear_arith)
            requires
                (pr - vy) % 32 == row,
                r == (vy + row) % 32,
                0 <= pr < 32,
        ;
        assert(pc == c) by (nonlinear_arith)
            requires
                (pc - vx) % 64 == col,
                c == (vx + col) % 64,
                0 <= pc < 64,
        ;
    }
}

/// The state after `Dxyn`, before the counter moves: the sprite is XOR-drawn
/// at (`Vx`, `Vy`) and `VF` tells whether a lit pixel went dark.
pub open spec fn drawn(m: ChipModel, x: u8, y: u8, n: u8) -> ChipModel {
    let vx = reg(m, x);
    let vy = reg(m, y);
    ChipModel {
        screen: sprite_screen(m, vx, vy, n as int),
        registers: m.registers.update(FLAG as int, if sprite_erases(m, vx, vy, n as int) { 1u8 } else { 0u8 }),
        ..m
    }
}

/// Memory with registers `V0..=Vx` stored from `I` on.
pub open spec fn stored_registers(m: ChipModel, x: u8) -> Seq<u8> {
    Seq::new(
        MEMORY_SIZE as nat,
        |a: int| if m.i <= a <= m.i + x { m.registers[a - m.i] } else { m.memory[a] },
    )
}

/// Registers with `V0..=Vx` loaded from memory at `I` on.
pub open spec fn loaded_registers(m: ChipModel, x: u8) -> Seq<u8> {
    Seq::new(16, |k: int| if k <= x { m.memory[m.i + k] } else { m.registers[k] })
}

/// Memory with the decimal digits of `v` at `I`, `I + 1`, `I + 2`.
pub open spec fn stored_decimal(m: ChipModel, v: u8) -> Seq<u8> {
    m.memory.update(m.i as int, v / 100).update(m.i + 1, (v % 100) / 10).update(m.i + 2, v % 10)
}

/// The effect of one instruction on `m`, given the keys held down, the key
/// released this cycle, and a random byte for `Cxkk`.
pub open spec fn next_state(
    m: ChipModel,
    ins: Instruction,
    pressed: Set<u16>,
    released: Option<u16>,
    rnd: u8,
) -> Result<ChipModel, ChipError> {
    match ins {
        Instruction::ClearScreen => Ok(
            advanced(ChipModel { screen: Seq::new(SCREEN_SIZE as nat, |p: int| false), ..m }, 2),
        ),
        Instruction::Return => if m.stack.len() == 0 {
            Err(ChipError::CallStackUnderflow { addr: m.pc })
        } else {
            Ok(ChipModel { pc: m.stack.last(), stack: m.stack.drop_last(), ..m })
        },
        Instruction::Jump { addr } => Ok(ChipModel { pc: addr, ..m }),
        Instruction::Call { addr } => if m.stack.len() >= STACK_DEPTH {
            Err(ChipError::CallStackOverflow { addr: m.pc })
        } else {
            Ok(ChipModel { pc: addr, stack: m.stack.push((m.pc + 2) as u16), ..m })
        },
        Instruction::SkipIfEqualImm { x, kk } => Ok(skipped_if(m, reg(m, x) == kk)),
        Instruction::SkipIfNotEqualImm { x, kk } => Ok(skipped_if(m, reg(m, x) != kk)),
        Instruction::SkipIfEqualReg { x, y } => Ok(skipped_if(m, reg(m, x) == reg(m, y))),
        Instruction::LoadImm { x, kk } => Ok(advanced(with_reg(m, x, kk), 2)),
        Instruction::AddImm { x, kk } => Ok(
            advanced(with_reg(m, x, ((reg(m, x) + kk) % 256) as u8), 2),
        ),
        Instruction::Move { x, y } => Ok(advanced(with_reg(m, x, reg(m, y)), 2)),
        Instruction::And { x, y } => Ok(advanced(with_reg(m, x, reg(m, x) & reg(m, y)), 2)),
        Instruction::Xor { x, y } => Ok(advanced(with_reg(m, x, reg(m, x) ^ reg(m, y)), 2)),
        Instruction::AddReg { x, y } => {
            let sum = reg(m, x) + reg(m, y);
            let flagged = with_reg(m, FLAG, if sum > 255 { 1u8 } else { 0u8 });
            Ok(advanced(with_reg(flagged, x, (sum % 256) as u8), 2))
        },
        Instruction::SubReg { x, y } => {
            let flagged = with_reg(m, FLAG, if reg(m, x) > reg(m, y) { 1u8 } else { 0u8 });
            Ok(advanced(with_reg(flagged, x, ((reg(m, x) - reg(m, y)) % 256) as u8), 2))
        },
        Instruction::LoadIndex { addr } => Ok(advanced(ChipModel { i: addr, ..m }, 2)),
        Instruction::Random { x, kk } => Ok(advanced(with_reg(m, x, rnd & kk), 2)),
        Instruction::Draw { x, y, n } => if m.i + n > MEMORY_SIZE {
            Err(ChipError::AddressOutOfRange { location: (m.i + n - 1) as usize })
        } else {
            Ok(advanced(drawn(m, x, y, n), 2))
        },
        Instruction::SkipIfKeyPressed { x } => Ok(skipped_if(m, pressed.contains(reg(m, x) as u16))),
        Instruction::SkipIfKeyNotPressed { x } => Ok(
            skipped_if(m, !pressed.contains(reg(m, x) as u16)),
        ),
        Instruction::LoadDelay { x } => Ok(advanced(with_reg(m, x, m.delay), 2)),
        Instruction::WaitKey { x } => match released {
            None => Ok(m),
            Some(k) => Ok(advanced(with_reg(m, x, (k % 256) as u8), 2)),
        },
        Instruction::SetDelay { x } => Ok(advanced(ChipModel { delay: reg(m, x), ..m }, 2)),
        Instruction::SetSound { x } => Ok(advanced(ChipModel { sound: reg(m, x), ..m }, 2)),
        Instruction::AddIndex { x } => Ok(
            advanced(ChipModel { i: ((m.i + reg(m, x)) % 0x10000) as u16, ..m }, 2),
        ),
        Instruction::LoadGlyph { x } => Ok(
            advanced(ChipModel { i: (reg(m, x) * GLYPH_SIZE) as u16, ..m }, 2),
        ),
        Instruction::StoreDecimal { x } => if m.i + 3 > MEMORY_SIZE {
            Err(ChipError::AddressOutOfRange { location: (m.i + 2) as usize })
        } else {
            Ok(advanced(ChipModel { memory: stored_decimal(m, reg(m, x)), ..m }, 2))
        },
        Instruction::StoreRegisters { x } => if m.i + x + 1 > MEMORY_SIZE {
            Err(ChipError::AddressOutOfRange { location: (m.i + x) as usize })
        } else {
            Ok(advanced(ChipModel { memory: stored_registers(m, x), ..m }, 2))
        },
        Instruction::LoadRegisters { x } => if m.i + x + 1 > MEMORY_SIZE {
            Err(ChipError::AddressOutOfRange { location: (m.i + x) as usize })
        } else {
            Ok(advanced(ChipModel { registers: loaded_registers(m, x), ..m }, 2))
        },
    }
}

/// The big-endian word at the program counter.
pub open spec fn fetched(m: ChipModel) -> u16 {
    (m.memory[m.pc as int] * 256 + m.memory[m.pc + 1]) as u16
}

/// One fetch-decode-execute cycle.
pub open spec fn cycle(
    m: ChipModel,
    pressed: Set<u16>,
    released: Option<u16>,
    rnd: u8,
) -> Result<ChipModel, ChipError> {
    if m.pc + 1 >= MEMORY_SIZE {
        Err(ChipError::AddressOutOfRange { location: (m.pc + 1) as usize })
    } else {
        match decoded(fetched(m)) {
            None => Err(ChipError::InvalidOpcode { op: fetched(m), addr: m.pc }),
            Some(ins) => next_state(m, ins, pressed, released, rnd),
        }
    }
}

} // verus!
