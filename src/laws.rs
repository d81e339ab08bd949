use vstd::prelude::*;
use crate::instruction::{Instruction, decode_spec};
use crate::memory::MEMORY_SIZE;
use crate::semantics::{
    MachineState, FLAG, LIT, STACK_DEPTH, begin_tick, bit_set, count_down, draw_collides, draw_frame,
    effect, execute, frame_wf, sprite_pixel, state_wf,
};

verus! {

/// Loading an immediate: for every register `x` and byte `kk`, the word 6xkk
/// leaves `kk` in register `x`, touches no other register, and advances the
/// program counter by one instruction.
pub proof fn lemma_load_immediate(s: MachineState, x: u8, kk: u8, keys: Seq<bool>, rnd: u8)
    requires
        state_wf(s),
        x < 16,
    ensures
        decode_spec((0x6000 + x * 256 + kk) as u16) == (Instruction::LoadImm { x, kk }),
        execute(s, Instruction::LoadImm { x, kk }, keys, rnd) is Ok,
        ({
            let t = execute(s, Instruction::LoadImm { x, kk }, keys, rnd)->Ok_0;
            &&& t.v[x as int] == kk
            &&& forall|r: int| 0 <= r < 16 && r != x ==> t.v[r] == s.v[r]
            &&& t.pc == (s.pc + 2) % 65536
        }),
{
    reveal(effect);
    let op = (0x6000 + x * 256 + kk) as u16;
    assert(op / 4096 == 6 && (op / 256) % 16 == x && op % 256 == kk) by (nonlinear_arith)
        requires
            op == 0x6000 + x * 256 + kk,
            x < 16,
            kk < 256,
    ;
}

/// Immediate add wraps modulo 256 and never writes the flag register unless it
/// is the target.
pub proof fn lemma_add_immediate_keeps_flag(s: MachineState, x: u8, kk: u8, keys: Seq<bool>, rnd: u8)
    requires
        state_wf(s),
        x < 16,
    ensures
        execute(s, Instruction::AddImm { x, kk }, keys, rnd) is Ok,
        ({
            let t = execute(s, Instruction::AddImm { x, kk }, keys, rnd)->Ok_0;
            &&& t.v[x as int] == (s.v[x as int] + kk) % 256
            &&& x != FLAG ==> t.v[FLAG as int] == s.v[FLAG as int]
        }),
{
    reveal(effect);
}

/// A call followed by a return comes back to the instruction after the call,
/// with the call stack as it was before the call.
pub proof fn lemma_call_then_return(s: MachineState, addr: u16, keys: Seq<bool>, rnd: u8)
    requires
        state_wf(s),
        s.stack.len() < STACK_DEPTH,
    ensures
        execute(s, Instruction::Call { addr }, keys, rnd) is Ok,
        ({
            let t = execute(s, Instruction::Call { addr }, keys, rnd)->Ok_0;
            &&& t.pc == addr
            &&& t.stack.len() == s.stack.len() + 1
            &&& execute(t, Instruction::Return, keys, rnd) is Ok
            &&& execute(t, Instruction::Return, keys, rnd)->Ok_0.pc == (s.pc + 2) % 65536
            &&& execute(t, Instruction::Return, keys, rnd)->Ok_0.stack == s.stack
        }),
{
    reveal(effect);
    let t = execute(s, Instruction::Call { addr }, keys, rnd)->Ok_0;
    assert(t.stack.drop_last() =~= s.stack);
}

/// Drawing a sprite twice at the same place restores the frame buffer, and the
/// second draw reports a collision exactly when the first one lit a pixel.
pub proof fn lemma_draw_twice(frame: Seq<Seq<u8>>, mem: Seq<u8>, i: u16, x: u8, y: u8, n: u8)
    requires
        frame_wf(frame),
    ensures
        draw_frame(draw_frame(frame, mem, i, x, y, n), mem, i, x, y, n) == frame,
        draw_collides(draw_frame(frame, mem, i, x, y, n), mem, i, x, y, n) <==> exists|r: int, c: int|
            0 <= r < 32 && 0 <= c < 64 && #[trigger] sprite_pixel(mem, i, x, y, n, r, c) && frame[r][c]
                == 0,
{
    let f1 = draw_frame(frame, mem, i, x, y, n);
    assert forall|r: int, c: int|
        0 <= r < 32 && 0 <= c < 64 && sprite_pixel(mem, i, x, y, n, r, c) implies (#[trigger] f1[r][c]
        == LIT <==> frame[r][c] == 0) && f1[r][c] ^ LIT == frame[r][c] by {
        let p = frame[r][c];
        assert(p == 0 || p == 0xFF ==> ((p ^ 0xFF == 0xFF <==> p == 0) && (p ^ 0xFF) ^ 0xFF == p
            && (p == 0xFF <==> p != 0))) by (bit_vector);
    }
    assert(draw_frame(f1, mem, i, x, y, n) =~~= frame);
    if draw_collides(f1, mem, i, x, y, n) {
        let (r, c) = choose|r: int, c: int|
            0 <= r < 32 && 0 <= c < 64 && #[trigger] sprite_pixel(mem, i, x, y, n, r, c) && f1[r][c] == LIT;
        assert(frame[r][c] == 0);
    }
    if exists|r: int, c: int|
        0 <= r < 32 && 0 <= c < 64 && #[trigger] sprite_pixel(mem, i, x, y, n, r, c) && frame[r][c] == 0 {
        let (r, c) = choose|r: int, c: int|
            0 <= r < 32 && 0 <= c < 64 && #[trigger] sprite_pixel(mem, i, x, y, n, r, c) && frame[r][c] == 0;
        assert(f1[r][c] == LIT);
    }
}

/// The draw instruction executed twice at the same place, with coordinates held
/// in registers other than the flag register, restores the frame buffer and
/// sets the flag register to 1 on the second draw exactly when the first one lit
/// a pixel.
pub proof fn lemma_draw_instruction_twice(s: MachineState, x: u8, y: u8, n: u8, keys: Seq<bool>, rnd: u8)
    requires
        state_wf(s),
        x < 16,
        y < 16,
        x != FLAG,
        y != FLAG,
        s.i + n <= MEMORY_SIZE,
    ensures
        execute(s, Instruction::Draw { x, y, n }, keys, rnd) is Ok,
        ({
            let t = execute(s, Instruction::Draw { x, y, n }, keys, rnd)->Ok_0;
            let u = execute(t, Instruction::Draw { x, y, n }, keys, rnd);
            &&& u is Ok
            &&& u->Ok_0.frame == s.frame
            &&& (u->Ok_0.v[FLAG as int] == 1 <==> exists|r: int, c: int|
                0 <= r < 32 && 0 <= c < 64 && #[trigger] sprite_pixel(
                    s.memory,
                    s.i,
                    s.v[x as int],
                    s.v[y as int],
                    n,
                    r,
                    c,
                ) && s.frame[r][c] == 0)
        }),
{
    reveal(effect);
    lemma_draw_twice(s.frame, s.memory, s.i, s.v[x as int], s.v[y as int], n);
}

/// Coordinates wrap: sprite bit `b` of row `l` lands on column `(x + b) mod 64`
/// and row `(y + l) mod 32`, so a sprite drawn within eight pixels of the right
/// edge continues at the left edge rather than being clipped.
pub proof fn lemma_draw_wraps(frame: Seq<Seq<u8>>, mem: Seq<u8>, i: u16, x: u8, y: u8, n: u8, l: int, b: int)
    requires
        frame_wf(frame),
        n < 16,
        0 <= l < n,
        0 <= b < 8,
    ensures
        sprite_pixel(mem, i, x, y, n, (y + l) % 32, (x + b) % 64) == bit_set(mem[i + l], b),
        draw_frame(frame, mem, i, x, y, n)[(y + l) % 32][(x + b) % 64] == if bit_set(mem[i + l], b) {
            frame[(y + l) % 32][(x + b) % 64] ^ LIT
        } else {
            frame[(y + l) % 32][(x + b) % 64]
        },
{
}

/// Timers never go below zero: a tick counts a zero timer as zero and any
/// other timer down by exactly one.
pub proof fn lemma_timer_floor(s: MachineState)
    ensures
        begin_tick(s).delay == count_down(s.delay),
        begin_tick(s).sound == count_down(s.sound),
        s.delay == 0 ==> begin_tick(s).delay == 0,
        s.sound == 0 ==> begin_tick(s).sound == 0,
        s.delay > 0 ==> begin_tick(s).delay == s.delay - 1,
        s.sound > 0 ==> begin_tick(s).sound == s.sound - 1,
{
}

} // verus!
