//! The interpreter: the executable machine state and its operations.

use std::collections::BTreeSet;

use vstd::prelude::*;

use crate::error::ChipError;
use crate::instruction::{decode, Instruction};
use crate::model::{
    cycle, drawn, fetched, frame_pixel, frame_source, glyphs, initial_state, lemma_sprite_pixel,
    loaded_memory, loaded_registers, next_state, sprite_bit, sprite_col, sprite_hits, sprite_row,
    stored_registers, tick_timer, ticked, with_reg, ChipModel, COLOR, FLAG, FRAME_SIZE,
    FRAME_WIDTH, MAX_PROGRAM_SIZE, MEMORY_SIZE, PROGRAM_START, SCALE, SCREEN_SIZE, STACK_DEPTH,
    WIDTH,
};
use crate::utils::{get_second_nibble, get_third_nibble, invalid_instruction};

verus! {

/// Relies on rand::random::<u8>: a byte from the thread-local generator.
/// Nothing is known of its value.
#[verifier::external_body]
fn random_byte() -> (r: u8) {
    rand::random::<u8>()
}

/// The built-in glyphs as bytes.
fn glyph_bytes() -> (r: Vec<u8>)
    ensures
        r@ == glyphs(),
{
    let r: Vec<u8> = vec![
        0xF0u8, 0x90, 0x90, 0x90, 0xF0,
        0x20, 0x60, 0x20, 0x20, 0x70,
        0xF0, 0x10, 0xF0, 0x80, 0xF0,
        0xF0, 0x10, 0xF0, 0x10, 0xF0,
        0x90, 0x90, 0xF0, 0x10, 0x10,
        0xF0, 0x80, 0xF0, 0x10, 0xF0,
        0xF0, 0x80, 0xF0, 0x90, 0xF0,
        0xF0, 0x10, 0x20, 0x40, 0x40,
        0xF0, 0x90, 0xF0, 0x90, 0xF0,
        0xF0, 0x90, 0xF0, 0x10, 0xF0,
        0xF0, 0x90, 0xF0, 0x90, 0x90,
        0xE0, 0x90, 0xE0, 0x90, 0xE0,
        0xF0, 0x80, 0x80, 0x80, 0xF0,
        0xE0, 0x90, 0x90, 0x90, 0xE0,
        0xF0, 0x80, 0xF0, 0x80, 0xF0,
        0xF0, 0x80, 0xF0, 0x80, 0x80,
    ];
    assert(r@ =~= glyphs());
    r
}

/// The interpreter: memory, registers, call stack, display and timers.
pub struct Chip {
    memory: Vec<u8>,
    registers: Vec<u8>,
    screen: Vec<bool>,
    i: u16,
    delay: u8,
    sound: u8,
    pc: u16,
    sp: u8,
    stack: Vec<u16>,
}

impl View for Chip {
    type V = ChipModel;

    closed spec fn view(&self) -> ChipModel {
        ChipModel {
            memory: self.memory@,
            registers: self.registers@,
            screen: self.screen@,
            i: self.i,
            delay: self.delay,
            sound: self.sound,
            pc: self.pc,
            stack: self.stack@.take(self.sp as int),
        }
    }
}

impl Chip {
    /// Well-formedness: the state's sizes hold and the stack pointer stays
    /// within its slots.
    pub closed spec fn wf(&self) -> bool {
        &&& self.memory@.len() == MEMORY_SIZE
        &&& self.registers@.len() == 16
        &&& self.screen@.len() == SCREEN_SIZE
        &&& self.stack@.len() == STACK_DEPTH
        &&& self.sp as int <= STACK_DEPTH
    }

    /// A well-formed interpreter has a model with the right sizes.
    pub proof fn lemma_wf_inv(&self)
        requires
            self.wf(),
        ensures
            self@.inv(),
    {
    }

    /// Builds an interpreter with `program` loaded at the program start;
    /// fails when the program does not fit in memory.
    pub fn try_new(program: Vec<u8>) -> (r: Result<Chip, ChipError>)
        ensures
            program@.len() > MAX_PROGRAM_SIZE <==> r is Err,
            r is Err ==> r == Err::<Chip, ChipError>(ChipError::ProgramTooLarge { size: program@.len() as usize }),
            r matches Ok(c) ==> c.wf() && c@ == initial_state(program@),
    {
        if program.len() > MAX_PROGRAM_SIZE {
            return Err(ChipError::ProgramTooLarge { size: program.len() });
        }
        let mut memory: Vec<u8> = vec![0u8; MEMORY_SIZE];
        let glyph = glyph_bytes();
        let mut a: usize = 0;
        while a < glyph.len()
            invariant
                glyph@ == glyphs(),
                memory@.len() == MEMORY_SIZE,
                a <= glyph@.len(),
                forall|b: int| 0 <= b < a ==> memory@[b] == glyphs()[b],
                forall|b: int| a <= b < MEMORY_SIZE ==> memory@[b] == 0u8,
            decreases glyph@.len() - a,
        {
            memory[a] = glyph[a];
            a = a + 1;
        }
        let mut k: usize = 0;
        while k < program.len()
            invariant
                program@.len() <= MAX_PROGRAM_SIZE,
                memory@.len() == MEMORY_SIZE,
                k <= program@.len(),
                forall|b: int| 0 <= b < glyphs().len() ==> memory@[b] == glyphs()[b],
                forall|b: int|
                    PROGRAM_START <= b < PROGRAM_START + k ==> memory@[b] == program@[b - PROGRAM_START],
                forall|b: int|
                    glyphs().len() <= b < MEMORY_SIZE && !(PROGRAM_START <= b < PROGRAM_START + k)
                        ==> memory@[b] == 0u8,
            decreases program@.len() - k,
        {
            memory[PROGRAM_START + k] = program[k];
            k = k + 1;
        }
        assert(memory@ =~= loaded_memory(program@));
        let c = Chip {
            memory,
            registers: vec![0u8; 16],
            screen: vec![false; SCREEN_SIZE],
            i: 0,
            delay: 0,
            sound: 0,
            pc: PROGRAM_START as u16,
            sp: 0,
            stack: vec![0u16; STACK_DEPTH],
        };
        assert(c@.registers =~= initial_state(program@).registers);
        assert(c@.screen =~= initial_state(program@).screen);
        assert(c@.stack =~= Seq::<u16>::empty());
        Ok(c)
    }

    /// Counts the delay timer down by one, stopping at zero.
    pub fn decrement_delay(&mut self)
        requires
            old(self).wf(),
        ensures
            final(self).wf(),
            final(self)@ == (ChipModel { delay: tick_timer(old(self)@.delay), ..old(self)@ }),
    {
        if self.delay > 0 {
            self.delay = self.delay - 1;
        }
    }

    /// Counts the sound timer down by one, stopping at zero.
    pub fn decrement_sound(&mut self)
        requires
            old(self).wf(),
        ensures
            final(self).wf(),
            final(self)@ == (ChipModel { sound: tick_timer(old(self)@.sound), ..old(self)@ }),
    {
        if self.sound > 0 {
            self.sound = self.sound - 1;
        }
    }

    /// One 60 Hz tick: both timers count down, floored at zero.
    pub fn tick(&mut self)
        requires
            old(self).wf(),
        ensures
            final(self).wf(),
            final(self)@ == ticked(old(self)@),
    {
        self.decrement_delay();
        self.decrement_sound();
    }

    /// `Dxyn` without the counter: XOR-draws the `n` sprite rows at `I` at
    /// (`Vx`, `Vy`), wrapping per axis, and sets `VF` when a lit pixel goes dark.
    fn draw_sprite(&mut self, x: u8, y: u8, n: u8)
        requires
            old(self).wf(),
            x < 16,
            y < 16,
            n < 16,
            old(self).i + n <= MEMORY_SIZE,
        ensures
            final(self).wf(),
            final(self)@ == drawn(old(self)@, x, y, n),
    {
        let ghost m = self@;
        let vx = self.registers[x as usize];
        let vy = self.registers[y as usize];
        let base = self.i as usize;
        let mut erased = false;
        let mut row: usize = 0;
        while row < n as usize
            invariant
                self.wf(),
                m.inv(),
                self@ == (ChipModel { screen: self@.screen, ..m }),
                x < 16,
                y < 16,
                vx == m.registers[x as int],
                vy == m.registers[y as int],
                base == m.i,
                n < 16,
                base + n <= MEMORY_SIZE,
                row <= n,
                forall|p: int|
                    0 <= p < SCREEN_SIZE ==> self.screen@[p] == (m.screen[p] != #[trigger] sprite_hits(
                        m,
                        vx,
                        vy,
                        p,
                        row as int,
                        0,
                    )),
                erased == exists|p: int|
                    0 <= p < SCREEN_SIZE && m.screen[p] && #[trigger] sprite_hits(m, vx, vy, p, row as int, 0),
            decreases n - row,
        {
            let byte = self.memory[base + row];
            let mut col: usize = 0;
            while col < 8
                invariant
                    self.wf(),
                    m.inv(),
                    self@ == (ChipModel { screen: self@.screen, ..m }),
                    x < 16,
                    y < 16,
                    vx == m.registers[x as int],
                    vy == m.registers[y as int],
                    base == m.i,
                    base + n <= MEMORY_SIZE,
                    byte == m.memory[base + row],
                    row < n < 16,
                    col <= 8,
                    forall|p: int|
                        0 <= p < SCREEN_SIZE ==> self.screen@[p] == (m.screen[p] != #[trigger] sprite_hits(
                            m,
                            vx,
                            vy,
                            p,
                            row as int,
                            col as int,
                        )),
                    erased == exists|p: int|
                        0 <= p < SCREEN_SIZE && m.screen[p] && #[trigger] sprite_hits(
                            m,
                            vx,
                            vy,
                            p,
                            row as int,
                            col as int,
                        ),
                decreases 8 - col,
            {
                let loc = ((vy as usize + row) % 32) * 64 + (vx as usize + col) % 64;
                proof {
                    lemma_sprite_pixel(vx, vy, row as int, col as int);
                }
                let on = (byte >> (7 - col as u8)) & 1 == 1;
                assert(on == sprite_bit(byte, col as int));
                assert(!sprite_hits(m, vx, vy, loc as int, row as int, col as int));
                let ghost before = self.screen@;
                let ghost erased_before = erased;
                if on {
                    if self.screen[loc] {
                        erased = true;
                    }
                    let lit = self.screen[loc];
                    self.screen[loc] = !lit;
                }
                proof {
                    assert forall|p: int| 0 <= p < SCREEN_SIZE implies #[trigger] sprite_hits(
                        m,
                        vx,
                        vy,
                        p,
                        row as int,
                        col + 1,
                    ) == (sprite_hits(m, vx, vy, p, row as int, col as int) || (p == loc && on)) by {
                        if sprite_row(vy, p) == row && sprite_col(vx, p) == col {
                            assert(p == loc);
                        }
                    }
                    assert forall|p: int| 0 <= p < SCREEN_SIZE implies self.screen@[p] == (m.screen[p]
                        != #[trigger] sprite_hits(m, vx, vy, p, row as int, col + 1)) by {
                        assert(!sprite_hits(m, vx, vy, loc as int, row as int, col as int));
                    }
                    if on && before[loc as int] {
                        assert(m.screen[loc as int] && sprite_hits(m, vx, vy, loc as int, row as int, col + 1));
                    }
                    if erased {
                        if !erased_before {
                            assert(m.screen[loc as int] && sprite_hits(m, vx, vy, loc as int, row as int, col + 1));
                        } else {
                            let p = choose|p: int|
                                0 <= p < SCREEN_SIZE && m.screen[p] && #[trigger] sprite_hits(
                                    m,
                                    vx,
                                    vy,
                                    p,
                                    row as int,
                                    col as int,
                                );
                            assert(sprite_hits(m, vx, vy, p, row as int, col + 1));
                        }
                    } else {
                        assert forall|p: int| 0 <= p < SCREEN_SIZE && m.screen[p] implies !#[trigger] sprite_hits(
                            m,
                            vx,
                            vy,
                            p,
                            row as int,
                            col + 1,
                        ) by {
                            assert(!sprite_hits(m, vx, vy, p, row as int, col as int));
                        }
                    }
                }
                col = col + 1;
            }
            proof {
                assert forall|p: int| 0 <= p < SCREEN_SIZE implies #[trigger] sprite_hits(
                    m,
                    vx,
                    vy,
                    p,
                    row + 1,
                    0,
                ) == sprite_hits(m, vx, vy, p, row as int, 8) by {}
                if erased {
                    let p = choose|p: int|
                        0 <= p < SCREEN_SIZE && m.screen[p] && #[trigger] sprite_hits(m, vx, vy, p, row as int, 8);
                    assert(sprite_hits(m, vx, vy, p, row + 1, 0));
                } else {
                    assert forall|p: int| 0 <= p < SCREEN_SIZE && m.screen[p] implies !#[trigger] sprite_hits(
                        m,
                        vx,
                        vy,
                        p,
                        row + 1,
                        0,
                    ) by {
                        assert(!sprite_hits(m, vx, vy, p, row as int, 8));
                    }
                }
            }
            row = row + 1;
        }
        self.registers[FLAG as usize] = if erased {
            1
        } else {
            0
        };
        assert(self@.screen =~= drawn(m, x, y, n).screen);
        assert(self@.registers =~= drawn(m, x, y, n).registers);
    }

    /// `00E0` without the counter: every pixel off.
    fn clear_screen(&mut self)
        requires
            old(self).wf(),
        ensures
            final(self).wf(),
            final(self)@ == (ChipModel { screen: Seq::new(SCREEN_SIZE as nat, |p: int| false), ..old(self)@ }),
    {
        let ghost m = self@;
        let mut p: usize = 0;
        while p < SCREEN_SIZE
            invariant
                self.wf(),
                self@ == (ChipModel { screen: self@.screen, ..m }),
                p <= SCREEN_SIZE,
                forall|q: int| 0 <= q < p ==> !self.screen@[q],
            decreases SCREEN_SIZE - p,
        {
            self.screen[p] = false;
            p = p + 1;
        }
        assert(self@.screen =~= Seq::new(SCREEN_SIZE as nat, |q: int| false));
    }

    /// `Fx55` without the counter: `V0..=Vx` to memory from `I` on.
    fn store_registers(&mut self, x: u8)
        requires
            old(self).wf(),
            x < 16,
            old(self).i + x + 1 <= MEMORY_SIZE,
        ensures
            final(self).wf(),
            final(self)@ == (ChipModel { memory: stored_registers(old(self)@, x), ..old(self)@ }),
    {
        let ghost m = self@;
        let base = self.i as usize;
        let mut k: usize = 0;
        while k <= x as usize
            invariant
                self.wf(),
                self@ == (ChipModel { memory: self@.memory, ..m }),
                base == m.i,
                x < 16,
                base + x + 1 <= MEMORY_SIZE,
                k <= x + 1,
                forall|a: int|
                    0 <= a < MEMORY_SIZE ==> #[trigger] self.memory@[a] == if base <= a < base + k {
                        m.registers[a - base]
                    } else {
                        m.memory[a]
                    },
            decreases x + 1 - k,
        {
            self.memory[base + k] = self.registers[k];
            k = k + 1;
        }
        assert(self@.memory =~= stored_registers(m, x));
    }

    /// `Fx65` without the counter: `V0..=Vx` from memory at `I` on.
    fn load_registers(&mut self, x: u8)
        requires
            old(self).wf(),
            x < 16,
            old(self).i + x + 1 <= MEMORY_SIZE,
        ensures
            final(self).wf(),
            final(self)@ == (ChipModel { registers: loaded_registers(old(self)@, x), ..old(self)@ }),
    {
        let ghost m = self@;
        let base = self.i as usize;
        let mut k: usize = 0;
        while k <= x as usize
            invariant
                self.wf(),
                self@ == (ChipModel { registers: self@.registers, ..m }),
                base == m.i,
                x < 16,
                base + x + 1 <= MEMORY_SIZE,
                k <= x + 1,
                forall|j: int|
                    0 <= j < 16 ==> #[trigger] self.registers@[j] == if j < k {
                        m.memory[base + j]
                    } else {
                        m.registers[j]
                    },
            decreases x + 1 - k,
        {
            self.registers[k] = self.memory[base + k];
            k = k + 1;
        }
        assert(self@.registers =~= loaded_registers(m, x));
    }

    /// Carries out one decoded instruction. On an error nothing changes.
    #[verifier::rlimit(50)]
    fn execute(
        &mut self,
        ins: Instruction,
        pressed: &BTreeSet<u16>,
        released: &Option<u16>,
        rnd: u8,
    ) -> (r: Result<(), ChipError>)
        requires
            old(self).wf(),
            ins.wf(),
            old(self).pc + 1 < MEMORY_SIZE,
        ensures
            final(self).wf(),
            match next_state(old(self)@, ins, pressed@, *released, rnd) {
                Ok(m) => r is Ok && final(self)@ == m,
                Err(e) => r == Err::<(), ChipError>(e) && final(self)@ == old(self)@,
            },
    {
        let ghost m = self@;
        match ins {
            Instruction::ClearScreen => {
                self.clear_screen();
                self.pc = self.pc + 2;
            },
            Instruction::Return => {
                if self.sp == 0 {
                    return Err(ChipError::CallStackUnderflow { addr: self.pc });
                }
                self.sp = self.sp - 1;
                self.pc = self.stack[self.sp as usize];
                self.stack[self.sp as usize] = 0;
                assert(self@.stack =~= m.stack.drop_last());
            },
            Instruction::Jump { addr } => {
                self.pc = addr;
            },
            Instruction::Call { addr } => {
                if self.sp as usize >= STACK_DEPTH {
                    return Err(ChipError::CallStackOverflow { addr: self.pc });
                }
                self.stack[self.sp as usize] = self.pc + 2;
                self.sp = self.sp + 1;
                self.pc = addr;
                assert(self@.stack =~= m.stack.push((m.pc + 2) as u16));
            },
            Instruction::SkipIfEqualImm { x, kk } => {
                if self.registers[x as usize] == kk {
                    self.pc = self.pc + 2;
                }
                self.pc = self.pc + 2;
            },
            Instruction::SkipIfNotEqualImm { x, kk } => {
                if self.registers[x as usize] != kk {
                    self.pc = self.pc + 2;
                }
                self.pc = self.pc + 2;
            },
            Instruction::SkipIfEqualReg { x, y } => {
                if self.registers[x as usize] == self.registers[y as usize] {
                    self.pc = self.pc + 2;
                }
                self.pc = self.pc + 2;
            },
            Instruction::LoadImm { x, kk } => {
                self.registers[x as usize] = kk;
                self.pc = self.pc + 2;
            },
            Instruction::AddImm { x, kk } => {
                let v = self.registers[x as usize].wrapping_add(kk);
                self.registers[x as usize] = v;
                self.pc = self.pc + 2;
            },
            Instruction::Move { x, y } => {
                let v = self.registers[y as usize];
                self.registers[x as usize] = v;
                self.pc = self.pc + 2;
            },
            Instruction::And { x, y } => {
                let v = self.registers[x as usize] & self.registers[y as usize];
                self.registers[x as usize] = v;
                self.pc = self.pc + 2;
            },
            Instruction::Xor { x, y } => {
                let v = self.registers[x as usize] ^ self.registers[y as usize];
                self.registers[x as usize] = v;
                self.pc = self.pc + 2;
            },
            Instruction::AddReg { x, y } => {
                let sum = self.registers[x as usize] as u16 + self.registers[y as usize] as u16;
                self.registers[FLAG as usize] = if sum > 255 {
                    1
                } else {
                    0
                };
                self.registers[x as usize] = (sum % 256) as u8;
                self.pc = self.pc + 2;
            },
            Instruction::SubReg { x, y } => {
                let vx = self.registers[x as usize];
                let vy = self.registers[y as usize];
                self.registers[FLAG as usize] = if vx > vy {
                    1
                } else {
                    0
                };
                self.registers[x as usize] = vx.wrapping_sub(vy);
                self.pc = self.pc + 2;
            },
            Instruction::LoadIndex { addr } => {
                self.i = addr;
                self.pc = self.pc + 2;
            },
            Instruction::Random { x, kk } => {
                self.registers[x as usize] = rnd & kk;
                self.pc = self.pc + 2;
            },
            Instruction::Draw { x, y, n } => {
                if self.i as usize + n as usize > MEMORY_SIZE {
                    return Err(
                        ChipError::AddressOutOfRange { location: self.i as usize + n as usize - 1 },
                    );
                }
                self.draw_sprite(x, y, n);
                self.pc = self.pc + 2;
            },
            Instruction::SkipIfKeyPressed { x } => {
                if pressed.contains(&(self.registers[x as usize] as u16)) {
                    self.pc = self.pc + 2;
                }
                self.pc = self.pc + 2;
            },
            Instruction::SkipIfKeyNotPressed { x } => {
                if !pressed.contains(&(self.registers[x as usize] as u16)) {
                    self.pc = self.pc + 2;
                }
                self.pc = self.pc + 2;
            },
            Instruction::LoadDelay { x } => {
                self.registers[x as usize] = self.delay;
                self.pc = self.pc + 2;
            },
            Instruction::WaitKey { x } => {
                match released {
                    Some(k) => {
                        self.registers[x as usize] = (*k % 256) as u8;
                        self.pc = self.pc + 2;
                    },
                    None => {},
                }
            },
            Instruction::SetDelay { x } => {
                self.delay = self.registers[x as usize];
                self.pc = self.pc + 2;
            },
            Instruction::SetSound { x } => {
                self.sound = self.registers[x as usize];
                self.pc = self.pc + 2;
            },
            Instruction::AddIndex { x } => {
                self.i = self.i.wrapping_add(self.registers[x as usize] as u16);
                self.pc = self.pc + 2;
            },
            Instruction::LoadGlyph { x } => {
                self.i = self.registers[x as usize] as u16 * 5;
                self.pc = self.pc + 2;
            },
            Instruction::StoreDecimal { x } => {
                if self.i as usize + 3 > MEMORY_SIZE {
                    return Err(ChipError::AddressOutOfRange { location: self.i as usize + 2 });
                }
                let v = self.registers[x as usize];
                let at = self.i as usize;
                self.memory[at] = v / 100;
                self.memory[at + 1] = (v % 100) / 10;
                self.memory[at + 2] = v % 10;
                self.pc = self.pc + 2;
            },
            Instruction::StoreRegisters { x } => {
                if self.i as usize + x as usize + 1 > MEMORY_SIZE {
                    return Err(ChipError::AddressOutOfRange { location: self.i as usize + x as usize });
                }
                self.store_registers(x);
                self.pc = self.pc + 2;
            },
            Instruction::LoadRegisters { x } => {
                if self.i as usize + x as usize + 1 > MEMORY_SIZE {
                    return Err(ChipError::AddressOutOfRange { location: self.i as usize + x as usize });
                }
                self.load_registers(x);
                self.pc = self.pc + 2;
            },
        }
        Ok(())
    }

    /// One fetch-decode-execute cycle, with `rnd` as the random byte that
    /// `Cxkk` uses. `released` is the key let go since the last cycle and
    /// `pressed` the keys held down. On an error nothing changes.
    pub fn run_cycle(&mut self, released: &Option<u16>, pressed: &BTreeSet<u16>, rnd: u8) -> (r: Result<(), ChipError>)
        requires
            old(self).wf(),
        ensures
            final(self).wf(),
            match cycle(old(self)@, pressed@, *released, rnd) {
                Ok(m) => r is Ok && final(self)@ == m,
                Err(e) => r == Err::<(), ChipError>(e) && final(self)@ == old(self)@,
            },
    {
        let pc = self.pc as usize;
        if pc + 1 >= MEMORY_SIZE {
            return Err(ChipError::AddressOutOfRange { location: pc + 1 });
        }
        let op: u16 = self.memory[pc] as u16 * 256 + self.memory[pc + 1] as u16;
        assert(op == fetched(self@));
        match decode(op) {
            None => Err(invalid_instruction(op, self.pc)),
            Some(ins) => {
                assert(ins.wf());
                self.execute(ins, pressed, released, rnd)
            },
        }
    }

    /// One fetch-decode-execute cycle, drawing the random byte for `Cxkk`
    /// from the thread-local generator. The outcome is that of
    /// `run_cycle` for some byte. On an error nothing changes.
    pub fn step(&mut self, key: &Option<u16>, keys: &BTreeSet<u16>) -> (r: Result<(), ChipError>)
        requires
            old(self).wf(),
        ensures
            final(self).wf(),
            exists|rnd: u8|
                match #[trigger] cycle(old(self)@, keys@, *key, rnd) {
                    Ok(m) => r is Ok && final(self)@ == m,
                    Err(e) => r == Err::<(), ChipError>(e) && final(self)@ == old(self)@,
                },
    {
        let rnd = random_byte();
        self.run_cycle(key, keys, rnd)
    }

    /// Register `Vx`, with `x` taken from the second nibble of `op`.
    pub fn get_x_reg_value(&self, op: u16) -> (r: u8)
        requires
            self.wf(),
        ensures
            r == self@.registers[((op / 0x100) % 0x10) as int],
    {
        self.registers[get_second_nibble(op) as usize]
    }

    /// Register `Vy`, with `y` taken from the third nibble of `op`.
    pub fn get_y_reg_value(&self, op: u16) -> (r: u8)
        requires
            self.wf(),
        ensures
            r == self@.registers[((op / 0x10) % 0x10) as int],
    {
        self.registers[get_third_nibble(op) as usize]
    }

    /// Sets register `Vx`, with `x` taken from the second nibble of `op`.
    pub fn set_x_reg_value(&mut self, op: u16, val: u8)
        requires
            old(self).wf(),
        ensures
            final(self).wf(),
            final(self)@ == with_reg(old(self)@, ((op / 0x100) % 0x10) as u8, val),
    {
        let reg = get_second_nibble(op) as usize;
        self.registers[reg] = val;
    }

    /// Register `V{idx}`.
    pub fn register(&self, idx: usize) -> (r: u8)
        requires
            self.wf(),
            idx < 16,
        ensures
            r == self@.registers[idx as int],
    {
        self.registers[idx]
    }

    /// The byte at `addr`.
    pub fn memory_at(&self, addr: usize) -> (r: u8)
        requires
            self.wf(),
            addr < MEMORY_SIZE,
        ensures
            r == self@.memory[addr as int],
    {
        self.memory[addr]
    }

    /// The program counter.
    pub fn pc(&self) -> (r: u16)
        ensures
            r == self@.pc,
    {
        self.pc
    }

    /// The index register `I`.
    pub fn index(&self) -> (r: u16)
        ensures
            r == self@.i,
    {
        self.i
    }

    /// The delay timer.
    pub fn delay(&self) -> (r: u8)
        ensures
            r == self@.delay,
    {
        self.delay
    }

    /// The sound timer.
    pub fn sound(&self) -> (r: u8)
        ensures
            r == self@.sound,
    {
        self.sound
    }

    /// Whether the tone should sound: the sound timer is running.
    pub fn sound_active(&self) -> (r: bool)
        ensures
            r == (self@.sound > 0),
    {
        self.sound > 0
    }

    /// How many return addresses are on the call stack.
    pub fn stack_depth(&self) -> (r: usize)
        requires
            self.wf(),
        ensures
            r == self@.stack.len(),
    {
        self.sp as usize
    }

    /// The display, row by row, `WIDTH` pixels a row.
    pub fn display(&self) -> (r: &Vec<bool>)
        ensures
            r@ == self@.screen,
    {
        &self.screen
    }

    /// Fills `buffer` with the display scaled by `SCALE` in each direction:
    /// `COLOR` for a lit pixel, 0 for a dark one.
    pub fn render_to_buffer(&self, buffer: &mut Vec<u32>)
        requires
            self.wf(),
            old(buffer)@.len() == FRAME_SIZE,
        ensures
            final(buffer)@.len() == FRAME_SIZE,
            forall|q: int| 0 <= q < FRAME_SIZE ==> #[trigger] final(buffer)@[q] == frame_pixel(self@.screen, q),
    {
        let mut q: usize = 0;
        while q < FRAME_SIZE
            invariant
                self.wf(),
                buffer@.len() == FRAME_SIZE,
                q <= FRAME_SIZE,
                forall|k: int| 0 <= k < q ==> #[trigger] buffer@[k] == frame_pixel(self@.screen, k),
            decreases FRAME_SIZE - q,
        {
            let source = (q / FRAME_WIDTH / SCALE) * WIDTH + (q % FRAME_WIDTH) / SCALE;
            assert(source == frame_source(q as int) && 0 <= source < SCREEN_SIZE) by (nonlinear_arith)
                requires
                    source == (q / 128 / 2) * 64 + (q % 128) / 2,
                    0 <= q < 8192,
            ;
            buffer[q] = if self.screen[source] {
                COLOR
            } else {
                0
            };
            q = q + 1;
        }
    }
}

} // verus!
