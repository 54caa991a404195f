//! Properties of the machine that hold for every state and operand.

use vstd::prelude::*;

use crate::error::ChipError;
use crate::instruction::Instruction;
use crate::model::{
    next_state, sprite_bit, sprite_hits, ticked, ChipModel, FLAG, MEMORY_SIZE, SCREEN_SIZE, WIDTH,
};

verus! {

/// The state after `k` ticks.
pub open spec fn ticked_times(m: ChipModel, k: nat) -> ChipModel
    decreases k,
{
    if k == 0 {
        m
    } else {
        ticked(ticked_times(m, (k - 1) as nat))
    }
}

/// `7xkk` leaves `Vx` equal to the old `Vx` plus `kk` modulo 256 and does
/// not touch the flag register `VF` (other than as `Vx` itself).
pub proof fn lemma_add_immediate_wraps(
    m: ChipModel,
    x: u8,
    kk: u8,
    pressed: Set<u16>,
    released: Option<u16>,
    rnd: u8,
)
    requires
        m.inv(),
        x < 16,
    ensures
        next_state(m, Instruction::AddImm { x, kk }, pressed, released, rnd) matches Ok(n) && n.registers[x as int]
            == (m.registers[x as int] + kk) % 256 && (x != FLAG ==> n.registers[FLAG as int]
            == m.registers[FLAG as int]),
{
}

/// `8xy4` sets `VF` to 1 exactly when the widened sum of the old `Vx` and
/// `Vy` exceeds 255 (to 0 otherwise), and leaves the sum modulo 256 in `Vx`.
pub proof fn lemma_add_registers_carry(
    m: ChipModel,
    x: u8,
    y: u8,
    pressed: Set<u16>,
    released: Option<u16>,
    rnd: u8,
)
    requires
        m.inv(),
        x < 16,
        y < 16,
    ensures
        next_state(m, Instruction::AddReg { x, y }, pressed, released, rnd) matches Ok(n) && n.registers[x as int]
            == (m.registers[x as int] + m.registers[y as int]) % 256 && (x != FLAG
            ==> n.registers[FLAG as int] == if m.registers[x as int] + m.registers[y as int] > 255 {
            1u8
        } else {
            0u8
        }),
{
}

/// `8xy5` sets `VF` to 1 exactly when the old `Vx` exceeds the old `Vy` (to 0
/// otherwise), and leaves their difference modulo 256 in `Vx` either way.
pub proof fn lemma_sub_registers_borrow(
    m: ChipModel,
    x: u8,
    y: u8,
    pressed: Set<u16>,
    released: Option<u16>,
    rnd: u8,
)
    requires
        m.inv(),
        x < 16,
        y < 16,
    ensures
        next_state(m, Instruction::SubReg { x, y }, pressed, released, rnd) matches Ok(n) && n.registers[x as int]
            == (m.registers[x as int] - m.registers[y as int]) % 256 && (x != FLAG
            ==> n.registers[FLAG as int] == if m.registers[x as int] > m.registers[y as int] {
            1u8
        } else {
            0u8
        }),
{
}

/// Drawing the same sprite at the same place twice gives back the display
/// as it was, when neither coordinate register is the flag register that
/// the first draw overwrites.
pub proof fn lemma_draw_twice_restores(
    m: ChipModel,
    x: u8,
    y: u8,
    n: u8,
    pressed: Set<u16>,
    released: Option<u16>,
    rnd: u8,
)
    requires
        m.inv(),
        x < 16,
        y < 16,
        n < 16,
        x != FLAG,
        y != FLAG,
    ensures
        next_state(m, Instruction::Draw { x, y, n }, pressed, released, rnd) matches Ok(once)
            ==> next_state(once, Instruction::Draw { x, y, n }, pressed, released, rnd) matches Ok(
            twice,
        ) && twice.screen == m.screen,
{
    let ins = Instruction::Draw { x, y, n };
    if let Ok(once) = next_state(m, ins, pressed, released, rnd) {
        let vx = m.registers[x as int];
        let vy = m.registers[y as int];
        assert(once.registers[x as int] == vx && once.registers[y as int] == vy);
        assert forall|p: int| 0 <= p < SCREEN_SIZE implies #[trigger] sprite_hits(
            once,
            vx,
            vy,
            p,
            n as int,
            0,
        ) == sprite_hits(m, vx, vy, p, n as int, 0) by {}
        if let Ok(twice) = next_state(once, ins, pressed, released, rnd) {
            assert(twice.screen =~= m.screen);
        }
    }
}

/// A sprite drawn at column 63 wraps onto column 0 of the same row: the
/// second bit of its first row lands on the first pixel of row `Vy mod 32`.
pub proof fn lemma_draw_wraps_columns(
    m: ChipModel,
    x: u8,
    y: u8,
    n: u8,
    pressed: Set<u16>,
    released: Option<u16>,
    rnd: u8,
)
    requires
        m.inv(),
        x < 16,
        y < 16,
        0 < n < 16,
        m.registers[x as int] == 63,
        m.i + n <= MEMORY_SIZE,
        sprite_bit(m.memory[m.i as int], 1),
    ensures
        ({
            let p = (m.registers[y as int] % 32) * WIDTH as int;
            next_state(m, Instruction::Draw { x, y, n }, pressed, released, rnd) matches Ok(d)
                && d.screen[p] == !m.screen[p]
        }),
{
    let vy = m.registers[y as int];
    let p = (vy % 32) * WIDTH as int;
    assert(p / 64 == vy % 32 && p % 64 == 0) by (nonlinear_arith)
        requires
            p == (vy % 32) * 64,
            0 <= vy < 256,
    ;
    assert(sprite_hits(m, 63, vy, p, n as int, 0));
}

/// `Fx0A` leaves the state, and so the program counter, as it is when no key
/// was released, and moves the counter on by exactly one instruction when
/// one was.
pub proof fn lemma_wait_key_advances_once(
    m: ChipModel,
    x: u8,
    pressed: Set<u16>,
    released: Option<u16>,
    rnd: u8,
)
    requires
        m.inv(),
        x < 16,
        m.pc + 1 < MEMORY_SIZE,
    ensures
        next_state(m, Instruction::WaitKey { x }, pressed, released, rnd) matches Ok(n) && (
        released is None ==> n == m) && (released is Some ==> n.pc == m.pc + 2),
{
}

/// `00EE` with an empty call stack is an underflow error, not a change of
/// state.
pub proof fn lemma_return_on_empty_stack(
    m: ChipModel,
    pressed: Set<u16>,
    released: Option<u16>,
    rnd: u8,
)
    requires
        m.inv(),
        m.stack.len() == 0,
    ensures
        next_state(m, Instruction::Return, pressed, released, rnd) == Err::<ChipModel, ChipError>(
            ChipError::CallStackUnderflow { addr: m.pc },
        ),
{
}

/// However many ticks pass, each timer ends at its old value less the
/// number of ticks, or at zero if that would be negative.
pub proof fn lemma_timers_floor_at_zero(m: ChipModel, k: nat)
    ensures
        ticked_times(m, k).delay == if m.delay >= k {
            m.delay - k
        } else {
            0
        },
        ticked_times(m, k).sound == if m.sound >= k {
            m.sound - k
        } else {
            0
        },
    decreases k,
{
    if k > 0 {
        lemma_timers_floor_at_zero(m, (k - 1) as nat);
    }
}

} // verus!
