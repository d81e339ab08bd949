use vstd::prelude::*;
use crate::instruction::{Instruction, decode_spec};
use crate::memory::{MEMORY_SIZE, word_at};

verus! {

/// Number of general-purpose registers.
pub const REGISTER_COUNT: usize = 16;

/// The register that receives carry, borrow, shifted-out and collision flags.
pub const FLAG: usize = 15;

/// Number of return addresses the call stack can hold.
pub const STACK_DEPTH: usize = 16;

/// Frame-buffer width in pixels.
pub const WIDTH: usize = 64;

/// Frame-buffer height in pixels.
pub const HEIGHT: usize = 32;

/// Value of a lit pixel; an unlit pixel is zero.
pub const LIT: u8 = 0xFF;

/// An emulation error that stops the machine.
#[derive(Debug, Clone, Copy, PartialEq, Eq, Structural)]
pub enum Fault {
    /// An instruction fetch or an indexed access reached past the top of memory.
    MemoryOutOfBounds,
    /// A call with all stack entries in use.
    StackOverflow,
    /// A return with an empty stack.
    StackUnderflow,
}

/// How an executed instruction moves the program counter.
#[derive(Debug, Clone, Copy, PartialEq, Eq, Structural)]
pub enum ProcessorAction {
    /// To the next instruction.
    Next,
    /// Over the next instruction.
    Skip,
    /// To an absolute address.
    Jump(u16),
}

/// The observable state of the machine.
pub struct MachineState {
    /// The program counter.
    pub pc: u16,
    /// The return addresses on the call stack, oldest first.
    pub stack: Seq<u16>,
    /// The sixteen registers V0 through VF.
    pub v: Seq<u8>,
    /// The index register.
    pub i: u16,
    /// The delay timer.
    pub delay: u8,
    /// The sound timer.
    pub sound: u8,
    /// Whether the frame buffer was written during the current tick.
    pub dirty: bool,
    /// The frame buffer, by row then column.
    pub frame: Seq<Seq<u8>>,
    /// The whole memory.
    pub memory: Seq<u8>,
}

/// A frame buffer of the right shape in which every pixel is lit or unlit.
pub open spec fn frame_wf(frame: Seq<Seq<u8>>) -> bool {
    &&& frame.len() == HEIGHT
    &&& forall|r: int| 0 <= r < HEIGHT ==> (#[trigger] frame[r]).len() == WIDTH
    &&& forall|r: int, c: int|
        0 <= r < HEIGHT && 0 <= c < WIDTH ==> (#[trigger] frame[r][c] == 0 || frame[r][c] == LIT)
}

/// The shape every reachable machine state has.
pub open spec fn state_wf(s: MachineState) -> bool {
    &&& s.v.len() == REGISTER_COUNT
    &&& s.stack.len() <= STACK_DEPTH
    &&& s.memory.len() == MEMORY_SIZE
    &&& frame_wf(s.frame)
}

/// A frame buffer with every pixel unlit.
pub open spec fn blank_frame() -> Seq<Seq<u8>> {
    Seq::new(HEIGHT as nat, |r: int| Seq::new(WIDTH as nat, |c: int| 0u8))
}

/// The sprite row that lands on frame row `row` when drawing at height `y`.
pub open spec fn line_of(y: u8, row: int) -> int {
    (row - y) % (HEIGHT as int)
}

/// The sprite column that lands on frame column `col` when drawing at column `x`.
pub open spec fn bit_of(x: u8, col: int) -> int {
    (col - x) % (WIDTH as int)
}

/// Whether bit `bit` (counted from the most significant) of `b` is set.
pub open spec fn bit_set(b: u8, bit: int) -> bool {
    (b >> ((7 - bit) as u8)) & 1u8 == 1u8
}

/// Whether drawing the `n`-row sprite stored at `i` with its corner at column `x`,
/// row `y` flips the pixel at (`row`, `col`); coordinates wrap around the edges.
pub open spec fn sprite_pixel(mem: Seq<u8>, i: u16, x: u8, y: u8, n: u8, row: int, col: int) -> bool {
    let line = line_of(y, row);
    let bit = bit_of(x, col);
    line < n && bit < 8 && bit_set(mem[i + line], bit)
}

/// The frame buffer after drawing: every pixel the sprite covers is flipped.
pub open spec fn draw_frame(frame: Seq<Seq<u8>>, mem: Seq<u8>, i: u16, x: u8, y: u8, n: u8) -> Seq<Seq<u8>> {
    Seq::new(
        HEIGHT as nat,
        |r: int|
            Seq::new(
                WIDTH as nat,
                |c: int|
                    if sprite_pixel(mem, i, x, y, n, r, c) {
                        frame[r][c] ^ LIT
                    } else {
                        frame[r][c]
                    },
            ),
    )
}

/// Whether drawing turns off a pixel that was lit.
pub open spec fn draw_collides(frame: Seq<Seq<u8>>, mem: Seq<u8>, i: u16, x: u8, y: u8, n: u8) -> bool {
    exists|r: int, c: int|
        0 <= r < HEIGHT && 0 <= c < WIDTH && #[trigger] sprite_pixel(mem, i, x, y, n, r, c)
            && frame[r][c] == LIT
}

/// Whether logical key `k` is down; there is no key beyond 0xF.
pub open spec fn key_down(keys: Seq<bool>, k: u8) -> bool {
    k < 16 && keys[k as int]
}

/// The lowest key from `k` on that is down, or 16 when there is none.
pub open spec fn first_pressed(keys: Seq<bool>, k: int) -> int
    decreases 16 - k,
{
    if k >= 16 {
        16
    } else if keys[k] {
        k
    } else {
        first_pressed(keys, k + 1)
    }
}

/// The state with register `x` set to `val`.
pub open spec fn set_reg(s: MachineState, x: int, val: u8) -> MachineState {
    MachineState { v: s.v.update(x, val), ..s }
}

/// The effect of one instruction: the state it leaves before the program counter
/// moves, and how it moves, or the fault it stops with. `keys` is the keypad
/// snapshot and `rnd` the random byte that a random-number instruction uses.
#[verifier::opaque]
pub open spec fn effect(s: MachineState, ins: Instruction, keys: Seq<bool>, rnd: u8) -> Result<
    (MachineState, ProcessorAction),
    Fault,
> {
    match ins {
        Instruction::Clear => Ok((MachineState { frame: blank_frame(), dirty: true, ..s }, ProcessorAction::Next)),
        Instruction::Return => if s.stack.len() == 0 {
            Err(Fault::StackUnderflow)
        } else {
            Ok((MachineState { pc: s.stack.last(), stack: s.stack.drop_last(), ..s }, ProcessorAction::Next))
        },
        Instruction::Jump { addr } => Ok((s, ProcessorAction::Jump(addr))),
        Instruction::Call { addr } => if s.stack.len() >= STACK_DEPTH {
            Err(Fault::StackOverflow)
        } else {
            Ok((MachineState { stack: s.stack.push(s.pc), ..s }, ProcessorAction::Jump(addr)))
        },
        Instruction::SkipEqImm { x, kk } => Ok((s, skip_if(s.v[x as int] == kk))),
        Instruction::SkipNeImm { x, kk } => Ok((s, skip_if(s.v[x as int] != kk))),
        Instruction::SkipEqReg { x, y } => Ok((s, skip_if(s.v[x as int] == s.v[y as int]))),
        Instruction::LoadImm { x, kk } => Ok((set_reg(s, x as int, kk), ProcessorAction::Next)),
        Instruction::AddImm { x, kk } => Ok(
            (set_reg(s, x as int, ((s.v[x as int] + kk) % 256) as u8), ProcessorAction::Next),
        ),
        Instruction::Move { x, y } => Ok((set_reg(s, x as int, s.v[y as int]), ProcessorAction::Next)),
        Instruction::Or { x, y } => Ok(
            (set_reg(s, x as int, s.v[x as int] | s.v[y as int]), ProcessorAction::Next),
        ),
        Instruction::And { x, y } => Ok(
            (set_reg(s, x as int, s.v[x as int] & s.v[y as int]), ProcessorAction::Next),
        ),
        Instruction::Xor { x, y } => Ok(
            (set_reg(s, x as int, s.v[x as int] ^ s.v[y as int]), ProcessorAction::Next),
        ),
        Instruction::Add { x, y } => {
            let sum = s.v[x as int] + s.v[y as int];
            Ok(
                (
                    set_reg(
                        set_reg(s, x as int, (sum % 256) as u8),
                        FLAG as int,
                        if sum > 255 { 1 } else { 0 },
                    ),
                    ProcessorAction::Next,
                ),
            )
        },
        Instruction::Sub { x, y } => Ok(
            (
                set_reg(
                    set_reg(s, x as int, ((s.v[x as int] - s.v[y as int]) % 256) as u8),
                    FLAG as int,
                    if s.v[x as int] >= s.v[y as int] { 1 } else { 0 },
                ),
                ProcessorAction::Next,
            ),
        ),
        Instruction::ShiftRight { x } => Ok(
            (
                set_reg(set_reg(s, FLAG as int, s.v[x as int] % 2), x as int, s.v[x as int] / 2),
                ProcessorAction::Next,
            ),
        ),
        Instruction::SubReversed { x, y } => Ok(
            (
                set_reg(
                    set_reg(s, x as int, ((s.v[y as int] - s.v[x as int]) % 256) as u8),
                    FLAG as int,
                    if s.v[y as int] >= s.v[x as int] { 1 } else { 0 },
                ),
                ProcessorAction::Next,
            ),
        ),
        Instruction::ShiftLeft { x } => Ok(
            (
                set_reg(
                    set_reg(s, FLAG as int, s.v[x as int] / 128),
                    x as int,
                    ((s.v[x as int] * 2) % 256) as u8,
                ),
                ProcessorAction::Next,
            ),
        ),
        Instruction::SkipNeReg { x, y } => Ok((s, skip_if(s.v[x as int] != s.v[y as int]))),
        Instruction::LoadIndex { addr } => Ok((MachineState { i: addr, ..s }, ProcessorAction::Next)),
        Instruction::JumpOffset { addr } => Ok(
            (s, ProcessorAction::Jump((addr + s.v[0]) as u16)),
        ),
        Instruction::Random { x, kk } => Ok((set_reg(s, x as int, rnd & kk), ProcessorAction::Next)),
        Instruction::Draw { x, y, n } => if s.i + n > MEMORY_SIZE {
            Err(Fault::MemoryOutOfBounds)
        } else {
            let vx = s.v[x as int];
            let vy = s.v[y as int];
            Ok(
                (
                    MachineState {
                        v: s.v.update(
                            FLAG as int,
                            if draw_collides(s.frame, s.memory, s.i, vx, vy, n) { 1 } else { 0 },
                        ),
                        frame: draw_frame(s.frame, s.memory, s.i, vx, vy, n),
                        dirty: true,
                        ..s
                    },
                    ProcessorAction::Next,
                ),
            )
        },
        Instruction::SkipKeyDown { x } => Ok((s, skip_if(key_down(keys, s.v[x as int])))),
        Instruction::SkipKeyUp { x } => Ok((s, skip_if(!key_down(keys, s.v[x as int])))),
        Instruction::LoadDelay { x } => Ok((set_reg(s, x as int, s.delay), ProcessorAction::Next)),
        Instruction::WaitKey { x } => if first_pressed(keys, 0) < 16 {
            Ok((set_reg(s, x as int, first_pressed(keys, 0) as u8), ProcessorAction::Next))
        } else {
            Ok((s, ProcessorAction::Jump(s.pc)))
        },
        Instruction::SetDelay { x } => Ok((MachineState { delay: s.v[x as int], ..s }, ProcessorAction::Next)),
        Instruction::SetSound { x } => Ok((MachineState { sound: s.v[x as int], ..s }, ProcessorAction::Next)),
        Instruction::AddIndex { x } => Ok(
            (MachineState { i: ((s.i + s.v[x as int]) % 65536) as u16, ..s }, ProcessorAction::Next),
        ),
        Instruction::LoadGlyph { x } => Ok(
            (MachineState { i: (s.v[x as int] * 5) as u16, ..s }, ProcessorAction::Next),
        ),
        Instruction::StoreBcd { x } => if s.i + 3 > MEMORY_SIZE {
            Err(Fault::MemoryOutOfBounds)
        } else {
            let val = s.v[x as int];
            Ok(
                (
                    MachineState {
                        memory: s.memory.update(s.i as int, val / 100).update(
                            s.i + 1,
                            (val / 10) % 10,
                        ).update(s.i + 2, val % 10),
                        ..s
                    },
                    ProcessorAction::Next,
                ),
            )
        },
        Instruction::StoreRegisters { x } => if s.i + x + 1 > MEMORY_SIZE {
            Err(Fault::MemoryOutOfBounds)
        } else {
            Ok(
                (
                    MachineState { memory: registers_stored(s.memory, s.v, s.i as int, x as int), ..s },
                    ProcessorAction::Next,
                ),
            )
        },
        Instruction::LoadRegisters { x } => if s.i + x + 1 > MEMORY_SIZE {
            Err(Fault::MemoryOutOfBounds)
        } else {
            Ok(
                (
                    MachineState { v: registers_loaded(s.v, s.memory, s.i as int, x as int), ..s },
                    ProcessorAction::Next,
                ),
            )
        },
        Instruction::Unknown { .. } => Ok((s, ProcessorAction::Next)),
    }
}

/// An instruction that completed, leaving `t` and moving the program counter by `a`.
pub open spec fn proceeds(t: MachineState, a: ProcessorAction) -> Result<(MachineState, ProcessorAction), Fault> {
    Ok((t, a))
}

/// `Skip` when `cond` holds, else `Next`.
pub open spec fn skip_if(cond: bool) -> ProcessorAction {
    if cond {
        ProcessorAction::Skip
    } else {
        ProcessorAction::Next
    }
}

/// Memory with registers V0 through Vx written from address `i` on.
pub open spec fn registers_stored(mem: Seq<u8>, v: Seq<u8>, i: int, x: int) -> Seq<u8> {
    Seq::new(mem.len(), |a: int| if i <= a <= i + x { v[a - i] } else { mem[a] })
}

/// Registers with V0 through Vx read from address `i` on.
pub open spec fn registers_loaded(v: Seq<u8>, mem: Seq<u8>, i: int, x: int) -> Seq<u8> {
    Seq::new(v.len(), |r: int| if r <= x { mem[i + r] } else { v[r] })
}

/// The program counter after an instruction that moved it by `a`; it is a
/// 16-bit register and wraps.
pub open spec fn next_pc(pc: u16, a: ProcessorAction) -> u16 {
    match a {
        ProcessorAction::Next => ((pc + 2) % 65536) as u16,
        ProcessorAction::Skip => ((pc + 4) % 65536) as u16,
        ProcessorAction::Jump(t) => t,
    }
}

/// The state after executing one instruction, program counter included.
pub open spec fn execute(s: MachineState, ins: Instruction, keys: Seq<bool>, rnd: u8) -> Result<
    MachineState,
    Fault,
> {
    match effect(s, ins, keys, rnd) {
        Ok((t, a)) => Ok(MachineState { pc: next_pc(t.pc, a), ..t }),
        Err(e) => Err(e),
    }
}

/// A countdown timer after one tick: down by one, but never below zero.
pub open spec fn count_down(t: u8) -> u8 {
    if t > 0 {
        (t - 1) as u8
    } else {
        0
    }
}

/// The state at the start of a tick: dirty flag cleared, timers counted down.
pub open spec fn begin_tick(s: MachineState) -> MachineState {
    MachineState { dirty: false, sound: count_down(s.sound), delay: count_down(s.delay), ..s }
}

/// One tick: begin it, fetch the instruction word at the program counter, decode
/// and execute it.
pub open spec fn tick_spec(s: MachineState, keys: Seq<bool>, rnd: u8) -> Result<MachineState, Fault> {
    let t = begin_tick(s);
    if t.pc + 1 >= MEMORY_SIZE {
        Err(Fault::MemoryOutOfBounds)
    } else {
        execute(t, decode_spec(word_at(t.memory, t.pc as int)), keys, rnd)
    }
}

} // verus!
