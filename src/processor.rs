use vstd::prelude::*;
use crate::disassembler::Disassembler;
use crate::instruction::{Instruction, decode, decode_spec};
use crate::memory::{MemoryBus, MEMORY_SIZE, word_at};
use crate::semantics::{
    MachineState, Fault, ProcessorAction, FLAG, LIT, STACK_DEPTH, proceeds, blank_frame, effect, execute,
    first_pressed, frame_wf, key_down, registers_loaded, registers_stored, set_reg, state_wf,
    tick_spec, begin_tick, line_of, bit_of, bit_set, sprite_pixel, draw_frame, draw_collides,
};

verus! {

/// The frame buffer of `vram`, by row then column.
pub open spec fn frame_of(vram: [[u8; 64]; 32]) -> Seq<Seq<u8>> {
    Seq::new(32, |r: int| vram@[r]@)
}

/// What a tick hands the host: the frame buffer, whether it changed during the
/// tick, and whether a tone should sound.
pub struct ProcessorOutput<'a> {
    pub vram: &'a [[u8; 64]; 32],
    pub vram_changed: bool,
    pub beep: bool,
}

/// The interpreter: registers, program counter, call stack, timers, frame buffer
/// and the memory it owns.
pub struct Processor {
    pc: u16,
    sp: usize,
    v: [u8; 16],
    reg_i: u16,
    sound_timer: u8,
    delay_timer: u8,
    vram_changed: bool,
    stack: [u16; 16],
    vram: [[u8; 64]; 32],
    bus: MemoryBus,
    disassembler: Box<dyn Disassembler>,
}

impl View for Processor {
    type V = MachineState;

    closed spec fn view(&self) -> MachineState {
        MachineState {
            pc: self.pc,
            stack: self.stack@.subrange(0, self.sp as int),
            v: self.v@,
            i: self.reg_i,
            delay: self.delay_timer,
            sound: self.sound_timer,
            dirty: self.vram_changed,
            frame: frame_of(self.vram),
            memory: self.bus@,
        }
    }
}

/// Whether `out` shows the machine in state `s`.
pub open spec fn shows(out: ProcessorOutput, s: MachineState) -> bool {
    &&& frame_of(*out.vram) == s.frame
    &&& out.vram_changed == s.dirty
    &&& out.beep == (s.sound > 0)
}

/// Whether an operation that returned `r` and left state `after` did what the
/// effect of `ins` on `before` says; a faulting operation changes nothing.
pub open spec fn performed(
    before: MachineState,
    after: MachineState,
    ins: Instruction,
    keys: Seq<bool>,
    rnd: u8,
    r: Result<ProcessorAction, Fault>,
) -> bool {
    match r {
        Ok(a) => effect(before, ins, keys, rnd) == proceeds(after, a),
        Err(e) => effect(before, ins, keys, rnd) is Err && effect(before, ins, keys, rnd)->Err_0 == e && after == before,
    }
}

impl Processor {
    /// The processor's internal consistency: the stack pointer is within the
    /// stack, and the machine state is well formed.
    pub closed spec fn wf(&self) -> bool {
        &&& self.sp <= STACK_DEPTH
        &&& state_wf(self@)
    }

    /// A consistent processor shows a well-formed machine state.
    pub proof fn lemma_wf(&self)
        requires
            self.wf(),
        ensures
            state_wf(self@),
    {
    }

    /// A processor that owns `membus` and reports each decoded instruction to
    /// `dis`; execution starts at the program region with everything else zero.
    pub fn new(membus: MemoryBus, dis: Box<dyn Disassembler>) -> (r: Self)
        ensures
            r.wf(),
            r@ == (MachineState {
                pc: 0x200,
                stack: Seq::empty(),
                v: Seq::new(16, |k: int| 0u8),
                i: 0,
                delay: 0,
                sound: 0,
                dirty: false,
                frame: blank_frame(),
                memory: membus@,
            }),
    {
        proof {
            membus.lemma_size();
        }
        let r = Processor {
            pc: 0x200,
            sp: 0,
            stack: [0; 16],
            v: [0; 16],
            reg_i: 0,
            sound_timer: 0,
            delay_timer: 0,
            vram_changed: false,
            vram: [[0; 64]; 32],
            bus: membus,
            disassembler: dis,
        };
        assert(r@.stack =~= Seq::empty());
        assert(r@.v =~= Seq::new(16, |k: int| 0u8));
        assert(r@.frame =~~= blank_frame());
        r
    }

    /// The value of register `x`.
    pub fn register(&self, x: usize) -> (r: u8)
        requires
            self.wf(),
            x < 16,
        ensures
            r == self@.v[x as int],
    {
        self.v[x]
    }

    /// Sets register `x` to `val`.
    pub fn set_register(&mut self, x: usize, val: u8)
        requires
            old(self).wf(),
            x < 16,
        ensures
            final(self).wf(),
            final(self)@ == set_reg(old(self)@, x as int, val),
    {
        self.v[x] = val;
    }

    /// The program counter.
    pub fn program_counter(&self) -> (r: u16)
        ensures
            r == self@.pc,
    {
        self.pc
    }

    /// The index register.
    pub fn index(&self) -> (r: u16)
        ensures
            r == self@.i,
    {
        self.reg_i
    }

    /// The number of return addresses on the call stack.
    pub fn stack_depth(&self) -> (r: usize)
        requires
            self.wf(),
        ensures
            r == self@.stack.len(),
    {
        self.sp
    }

    /// The delay timer.
    pub fn delay_timer(&self) -> (r: u8)
        ensures
            r == self@.delay,
    {
        self.delay_timer
    }

    /// The sound timer.
    pub fn sound_timer(&self) -> (r: u8)
        ensures
            r == self@.sound,
    {
        self.sound_timer
    }

    /// The memory.
    pub fn memory(&self) -> (r: &MemoryBus)
        ensures
            r@ == self@.memory,
    {
        &self.bus
    }

    /// The pixel at (`row`, `col`): `LIT` or zero.
    pub fn pixel(&self, row: usize, col: usize) -> (r: u8)
        requires
            self.wf(),
            row < 32,
            col < 64,
        ensures
            r == self@.frame[row as int][col as int],
    {
        self.vram[row][col]
    }
}

// Operations. Each one changes the state as `effect` says and returns how the
// program counter moves.
impl Processor {
    fn op_nop(&self, opcode: u16) -> (r: ProcessorAction)
        ensures
            effect(self@, Instruction::Unknown { opcode }, Seq::empty(), 0) == proceeds(self@, r),
    {
        proof {
            reveal(effect);
        }
        ProcessorAction::Next
    }

    fn op_cls(&mut self) -> (r: ProcessorAction)
        requires
            old(self).wf(),
        ensures
            final(self).wf(),
            effect(old(self)@, Instruction::Clear, Seq::empty(), 0) == proceeds(final(self)@, r),
    {
        proof {
            reveal(effect);
        }
        self.vram = [[0; 64]; 32];
        self.vram_changed = true;
        assert(self@.frame =~~= blank_frame());
        ProcessorAction::Next
    }

    fn op_ret(&mut self) -> (r: Result<ProcessorAction, Fault>)
        requires
            old(self).wf(),
        ensures
            final(self).wf(),
            performed(old(self)@, final(self)@, Instruction::Return, Seq::empty(), 0, r),
    {
        proof {
            reveal(effect);
        }
        if self.sp == 0 {
            return Err(Fault::StackUnderflow);
        }
        self.sp -= 1;
        self.pc = self.stack[self.sp];
        assert(self@.stack =~= old(self)@.stack.drop_last());
        Ok(ProcessorAction::Next)
    }

    fn op_jmp(&self, addr: u16) -> (r: ProcessorAction)
        ensures
            effect(self@, Instruction::Jump { addr }, Seq::empty(), 0) == proceeds(self@, r),
    {
        proof {
            reveal(effect);
        }
        ProcessorAction::Jump(addr)
    }

    fn op_call(&mut self, addr: u16) -> (r: Result<ProcessorAction, Fault>)
        requires
            old(self).wf(),
        ensures
            final(self).wf(),
            performed(old(self)@, final(self)@, Instruction::Call { addr }, Seq::empty(), 0, r),
    {
        proof {
            reveal(effect);
        }
        if self.sp >= STACK_DEPTH {
            return Err(Fault::StackOverflow);
        }
        self.stack[self.sp] = self.pc;
        self.sp += 1;
        assert(self@.stack =~= old(self)@.stack.push(old(self)@.pc));
        Ok(ProcessorAction::Jump(addr))
    }

    fn op_skip_eq_vx_kk(&self, x: usize, kk: u8) -> (r: ProcessorAction)
        requires
            self.wf(),
            x < 16,
        ensures
            effect(self@, Instruction::SkipEqImm { x: x as u8, kk }, Seq::empty(), 0) == proceeds(self@, r),
    {
        proof {
            reveal(effect);
        }
        if self.v[x] == kk {
            return ProcessorAction::Skip;
        }
        ProcessorAction::Next
    }

    fn op_skip_neq_vx_kk(&self, x: usize, kk: u8) -> (r: ProcessorAction)
        requires
            self.wf(),
            x < 16,
        ensures
            effect(self@, Instruction::SkipNeImm { x: x as u8, kk }, Seq::empty(), 0) == proceeds(self@, r),
    {
        proof {
            reveal(effect);
        }
        if self.v[x] != kk {
            return ProcessorAction::Skip;
        }
        ProcessorAction::Next
    }

    fn op_skip_eq_vx_vy(&self, x: usize, y: usize) -> (r: ProcessorAction)
        requires
            self.wf(),
            x < 16,
            y < 16,
        ensures
            effect(self@, Instruction::SkipEqReg { x: x as u8, y: y as u8 }, Seq::empty(), 0) == proceeds(self@, r),
    {
        proof {
            reveal(effect);
        }
        if self.v[x] == self.v[y] {
            return ProcessorAction::Skip;
        }
        ProcessorAction::Next
    }

    fn op_mov_vx_kk(&mut self, x: usize, kk: u8) -> (r: ProcessorAction)
        requires
            old(self).wf(),
            x < 16,
        ensures
            final(self).wf(),
            effect(old(self)@, Instruction::LoadImm { x: x as u8, kk }, Seq::empty(), 0) == proceeds(final(self)@, r),
    {
        proof {
            reveal(effect);
        }
        self.v[x] = kk;
        ProcessorAction::Next
    }

    fn op_or_vx_vy(&mut self, x: usize, y: usize) -> (r: ProcessorAction)
        requires
            old(self).wf(),
            x < 16,
            y < 16,
        ensures
            final(self).wf(),
            effect(old(self)@, Instruction::Or { x: x as u8, y: y as u8 }, Seq::empty(), 0) == proceeds(final(self)@, r),
    {
        proof {
            reveal(effect);
        }
        self.v[x] = self.v[x] | self.v[y];
        ProcessorAction::Next
    }

    fn op_and_vx_vy(&mut self, x: usize, y: usize) -> (r: ProcessorAction)
        requires
            old(self).wf(),
            x < 16,
            y < 16,
        ensures
            final(self).wf(),
            effect(old(self)@, Instruction::And { x: x as u8, y: y as u8 }, Seq::empty(), 0) == proceeds(final(self)@, r),
    {
        proof {
            reveal(effect);
        }
        self.v[x] = self.v[x] & self.v[y];
        ProcessorAction::Next
    }

    fn op_xor_vx_vy(&mut self, x: usize, y: usize) -> (r: ProcessorAction)
        requires
            old(self).wf(),
            x < 16,
            y < 16,
        ensures
            final(self).wf(),
            effect(old(self)@, Instruction::Xor { x: x as u8, y: y as u8 }, Seq::empty(), 0) == proceeds(final(self)@, r),
    {
        proof {
            reveal(effect);
        }
        self.v[x] = self.v[x] ^ self.v[y];
        ProcessorAction::Next
    }

    fn op_add_vx_vy(&mut self, x: usize, y: usize) -> (r: ProcessorAction)
        requires
            old(self).wf(),
            x < 16,
            y < 16,
        ensures
            final(self).wf(),
            effect(old(self)@, Instruction::Add { x: x as u8, y: y as u8 }, Seq::empty(), 0) == proceeds(final(self)@, r),
    {
        proof {
            reveal(effect);
        }
        let (a, b) = (self.v[x], self.v[y]);
        let carry = a as u16 + b as u16 > 255;
        self.v[x] = a.wrapping_add(b);
        self.v[FLAG] = if carry { 1 } else { 0 };
        ProcessorAction::Next
    }

    fn op_sub_vx_vy(&mut self, x: usize, y: usize) -> (r: ProcessorAction)
        requires
            old(self).wf(),
            x < 16,
            y < 16,
        ensures
            final(self).wf(),
            effect(old(self)@, Instruction::Sub { x: x as u8, y: y as u8 }, Seq::empty(), 0) == proceeds(final(self)@, r),
    {
        proof {
            reveal(effect);
        }
        let (a, b) = (self.v[x], self.v[y]);
        let borrow = a < b;
        self.v[x] = a.wrapping_sub(b);
        self.v[FLAG] = if borrow { 0 } else { 1 };
        ProcessorAction::Next
    }

    fn op_subn_vx_vy(&mut self, x: usize, y: usize) -> (r: ProcessorAction)
        requires
            old(self).wf(),
            x < 16,
            y < 16,
        ensures
            final(self).wf(),
            effect(old(self)@, Instruction::SubReversed { x: x as u8, y: y as u8 }, Seq::empty(), 0)
                == proceeds(final(self)@, r),
    {
        proof {
            reveal(effect);
        }
        let (a, b) = (self.v[y], self.v[x]);
        let borrow = a < b;
        self.v[x] = a.wrapping_sub(b);
        self.v[FLAG] = if borrow { 0 } else { 1 };
        ProcessorAction::Next
    }

    fn op_add_vx_kk(&mut self, x: usize, kk: u8) -> (r: ProcessorAction)
        requires
            old(self).wf(),
            x < 16,
        ensures
            final(self).wf(),
            effect(old(self)@, Instruction::AddImm { x: x as u8, kk }, Seq::empty(), 0) == proceeds(final(self)@, r),
    {
        proof {
            reveal(effect);
        }
        self.v[x] = self.v[x].wrapping_add(kk);
        ProcessorAction::Next
    }

    fn op_mov_vx_vy(&mut self, x: usize, y: usize) -> (r: ProcessorAction)
        requires
            old(self).wf(),
            x < 16,
            y < 16,
        ensures
            final(self).wf(),
            effect(old(self)@, Instruction::Move { x: x as u8, y: y as u8 }, Seq::empty(), 0) == proceeds(final(self)@, r),
    {
        proof {
            reveal(effect);
        }
        self.v[x] = self.v[y];
        ProcessorAction::Next
    }

    fn op_shr_vx(&mut self, x: usize) -> (r: ProcessorAction)
        requires
            old(self).wf(),
            x < 16,
        ensures
            final(self).wf(),
            effect(old(self)@, Instruction::ShiftRight { x: x as u8 }, Seq::empty(), 0) == proceeds(final(self)@, r),
    {
        proof {
            reveal(effect);
        }
        let val = self.v[x];
        self.v[FLAG] = val & 1;
        self.v[x] = val >> 1;
        assert(val & 1 == val % 2) by (bit_vector);
        assert(val >> 1 == val / 2) by (bit_vector);
        ProcessorAction::Next
    }

    fn op_shl_vx(&mut self, x: usize) -> (r: ProcessorAction)
        requires
            old(self).wf(),
            x < 16,
        ensures
            final(self).wf(),
            effect(old(self)@, Instruction::ShiftLeft { x: x as u8 }, Seq::empty(), 0) == proceeds(final(self)@, r),
    {
        proof {
            reveal(effect);
        }
        let val = self.v[x];
        self.v[FLAG] = (val & 0x80) >> 7;
        self.v[x] = val << 1;
        assert((val & 0x80) >> 7 == val / 128) by (bit_vector);
        assert(val << 1 == (val * 2) % 256) by (bit_vector);
        ProcessorAction::Next
    }

    fn op_skip_neq_vx_vy(&self, x: usize, y: usize) -> (r: ProcessorAction)
        requires
            self.wf(),
            x < 16,
            y < 16,
        ensures
            effect(self@, Instruction::SkipNeReg { x: x as u8, y: y as u8 }, Seq::empty(), 0) == proceeds(self@, r),
    {
        proof {
            reveal(effect);
        }
        if self.v[x] != self.v[y] {
            return ProcessorAction::Skip;
        }
        ProcessorAction::Next
    }

    fn op_mov_i(&mut self, addr: u16) -> (r: ProcessorAction)
        requires
            old(self).wf(),
        ensures
            final(self).wf(),
            effect(old(self)@, Instruction::LoadIndex { addr }, Seq::empty(), 0) == proceeds(final(self)@, r),
    {
        proof {
            reveal(effect);
        }
        self.reg_i = addr;
        ProcessorAction::Next
    }

    fn op_jmp_v0(&self, addr: u16) -> (r: ProcessorAction)
        requires
            self.wf(),
            addr < 4096,
        ensures
            effect(self@, Instruction::JumpOffset { addr }, Seq::empty(), 0) == proceeds(self@, r),
    {
        proof {
            reveal(effect);
        }
        ProcessorAction::Jump(addr + self.v[0] as u16)
    }

    fn op_rand(&mut self, x: usize, kk: u8, rnd: u8) -> (r: ProcessorAction)
        requires
            old(self).wf(),
            x < 16,
        ensures
            final(self).wf(),
            effect(old(self)@, Instruction::Random { x: x as u8, kk }, Seq::empty(), rnd) == proceeds(final(self)@, r),
    {
        proof {
            reveal(effect);
        }
        self.v[x] = rnd & kk;
        ProcessorAction::Next
    }

    fn op_skip_key_eq_vx(&self, x: usize, keyboard: &[bool; 16]) -> (r: ProcessorAction)
        requires
            self.wf(),
            x < 16,
        ensures
            effect(self@, Instruction::SkipKeyDown { x: x as u8 }, keyboard@, 0) == proceeds(self@, r),
    {
        proof {
            reveal(effect);
        }
        let k = self.v[x];
        if k < 16 && keyboard[k as usize] {
            return ProcessorAction::Skip;
        }
        ProcessorAction::Next
    }

    fn op_skip_key_neq_vx(&self, x: usize, keyboard: &[bool; 16]) -> (r: ProcessorAction)
        requires
            self.wf(),
            x < 16,
        ensures
            effect(self@, Instruction::SkipKeyUp { x: x as u8 }, keyboard@, 0) == proceeds(self@, r),
    {
        proof {
            reveal(effect);
        }
        let k = self.v[x];
        if !(k < 16 && keyboard[k as usize]) {
            return ProcessorAction::Skip;
        }
        ProcessorAction::Next
    }

    fn op_ld_vx_delay(&mut self, x: usize) -> (r: ProcessorAction)
        requires
            old(self).wf(),
            x < 16,
        ensures
            final(self).wf(),
            effect(old(self)@, Instruction::LoadDelay { x: x as u8 }, Seq::empty(), 0) == proceeds(final(self)@, r),
    {
        proof {
            reveal(effect);
        }
        self.v[x] = self.delay_timer;
        ProcessorAction::Next
    }

    fn op_wait_key(&mut self, x: usize, keyboard: &[bool; 16]) -> (r: ProcessorAction)
        requires
            old(self).wf(),
            x < 16,
        ensures
            final(self).wf(),
            effect(old(self)@, Instruction::WaitKey { x: x as u8 }, keyboard@, 0) == proceeds(final(self)@, r),
    {
        proof {
            reveal(effect);
        }
        let mut k: usize = 0;
        while k < 16 && !keyboard[k]
            invariant
                k <= 16,
                first_pressed(keyboard@, 0) == first_pressed(keyboard@, k as int),
            decreases 16 - k,
        {
            k += 1;
        }
        if k < 16 {
            self.v[x] = k as u8;
            ProcessorAction::Next
        } else {
            ProcessorAction::Jump(self.pc)
        }
    }

    fn op_set_delay(&mut self, x: usize) -> (r: ProcessorAction)
        requires
            old(self).wf(),
            x < 16,
        ensures
            final(self).wf(),
            effect(old(self)@, Instruction::SetDelay { x: x as u8 }, Seq::empty(), 0) == proceeds(final(self)@, r),
    {
        proof {
            reveal(effect);
        }
        self.delay_timer = self.v[x];
        ProcessorAction::Next
    }

    fn op_set_sound(&mut self, x: usize) -> (r: ProcessorAction)
        requires
            old(self).wf(),
            x < 16,
        ensures
            final(self).wf(),
            effect(old(self)@, Instruction::SetSound { x: x as u8 }, Seq::empty(), 0) == proceeds(final(self)@, r),
    {
        proof {
            reveal(effect);
        }
        self.sound_timer = self.v[x];
        ProcessorAction::Next
    }

    fn op_add_i_vx(&mut self, x: usize) -> (r: ProcessorAction)
        requires
            old(self).wf(),
            x < 16,
        ensures
            final(self).wf(),
            effect(old(self)@, Instruction::AddIndex { x: x as u8 }, Seq::empty(), 0) == proceeds(final(self)@, r),
    {
        proof {
            reveal(effect);
        }
        self.reg_i = self.reg_i.wrapping_add(self.v[x] as u16);
        ProcessorAction::Next
    }

    fn op_ld_i_mem_vx(&mut self, x: usize) -> (r: ProcessorAction)
        requires
            old(self).wf(),
            x < 16,
        ensures
            final(self).wf(),
            effect(old(self)@, Instruction::LoadGlyph { x: x as u8 }, Seq::empty(), 0) == proceeds(final(self)@, r),
    {
        proof {
            reveal(effect);
        }
        self.reg_i = self.v[x] as u16 * 5;
        ProcessorAction::Next
    }

    fn op_bcd(&mut self, x: usize) -> (r: Result<ProcessorAction, Fault>)
        requires
            old(self).wf(),
            x < 16,
        ensures
            final(self).wf(),
            performed(
                old(self)@,
                final(self)@,
                Instruction::StoreBcd { x: x as u8 },
                Seq::empty(),
                0,
                r,
            ),
    {
        proof {
            reveal(effect);
        }
        if self.reg_i as usize + 3 > MEMORY_SIZE {
            return Err(Fault::MemoryOutOfBounds);
        }
        let val = self.v[x];
        self.bus.write(self.reg_i, val / 100);
        self.bus.write(self.reg_i + 1, (val / 10) % 10);
        self.bus.write(self.reg_i + 2, val % 10);
        Ok(ProcessorAction::Next)
    }

    fn op_ld_mem_i_vx(&mut self, x: usize) -> (r: Result<ProcessorAction, Fault>)
        requires
            old(self).wf(),
            x < 16,
        ensures
            final(self).wf(),
            performed(
                old(self)@,
                final(self)@,
                Instruction::StoreRegisters { x: x as u8 },
                Seq::empty(),
                0,
                r,
            ),
    {
        proof {
            reveal(effect);
        }
        if self.reg_i as usize + x + 1 > MEMORY_SIZE {
            return Err(Fault::MemoryOutOfBounds);
        }
        store_registers(&mut self.bus, &self.v, self.reg_i, x);
        Ok(ProcessorAction::Next)
    }

    fn op_ld_vx_mem_i(&mut self, x: usize) -> (r: Result<ProcessorAction, Fault>)
        requires
            old(self).wf(),
            x < 16,
        ensures
            final(self).wf(),
            performed(
                old(self)@,
                final(self)@,
                Instruction::LoadRegisters { x: x as u8 },
                Seq::empty(),
                0,
                r,
            ),
    {
        proof {
            reveal(effect);
        }
        if self.reg_i as usize + x + 1 > MEMORY_SIZE {
            return Err(Fault::MemoryOutOfBounds);
        }
        load_registers(&mut self.v, &self.bus, self.reg_i, x);
        Ok(ProcessorAction::Next)
    }
}

impl Processor {
    fn op_draw(&mut self, x: usize, y: usize, n: u8) -> (r: Result<ProcessorAction, Fault>)
        requires
            old(self).wf(),
            x < 16,
            y < 16,
            n < 16,
        ensures
            final(self).wf(),
            performed(
                old(self)@,
                final(self)@,
                Instruction::Draw { x: x as u8, y: y as u8, n },
                Seq::empty(),
                0,
                r,
            ),
    {
        proof {
            reveal(effect);
        }
        if self.reg_i as usize + n as usize > MEMORY_SIZE {
            return Err(Fault::MemoryOutOfBounds);
        }
        let vx = self.v[x];
        let vy = self.v[y];
        let collision = draw_sprite(&mut self.vram, &self.bus, self.reg_i, vx, vy, n);
        self.v[FLAG] = if collision { 1 } else { 0 };
        self.vram_changed = true;
        proof {
            let f0 = old(self)@.frame;
            assert forall|r: int, c: int| 0 <= r < 32 && 0 <= c < 64 implies (#[trigger] self@.frame[r][c]
                == 0 || self@.frame[r][c] == LIT) by {
                let p = f0[r][c];
                assert(p == 0 || p == 0xFF ==> (p ^ 0xFF == 0 || p ^ 0xFF == 0xFF)) by (bit_vector);
            }
        }
        Ok(ProcessorAction::Next)
    }

    /// Decodes `opcode` and dispatches it to its operation.
    fn dispatch(&mut self, opcode: u16, keyboard: &[bool; 16], rnd: u8) -> (r: Result<ProcessorAction, Fault>)
        requires
            old(self).wf(),
        ensures
            final(self).wf(),
            performed(old(self)@, final(self)@, decode_spec(opcode), keyboard@, rnd, r),
    {
        proof {
            reveal(effect);
        }
        let ins = decode(opcode);
        match ins {
            Instruction::Clear => Ok(self.op_cls()),
            Instruction::Return => self.op_ret(),
            Instruction::Jump { addr } => Ok(self.op_jmp(addr)),
            Instruction::Call { addr } => self.op_call(addr),
            Instruction::SkipEqImm { x, kk } => Ok(self.op_skip_eq_vx_kk(x as usize, kk)),
            Instruction::SkipNeImm { x, kk } => Ok(self.op_skip_neq_vx_kk(x as usize, kk)),
            Instruction::SkipEqReg { x, y } => Ok(self.op_skip_eq_vx_vy(x as usize, y as usize)),
            Instruction::LoadImm { x, kk } => Ok(self.op_mov_vx_kk(x as usize, kk)),
            Instruction::AddImm { x, kk } => Ok(self.op_add_vx_kk(x as usize, kk)),
            Instruction::Move { x, y } => Ok(self.op_mov_vx_vy(x as usize, y as usize)),
            Instruction::Or { x, y } => Ok(self.op_or_vx_vy(x as usize, y as usize)),
            Instruction::And { x, y } => Ok(self.op_and_vx_vy(x as usize, y as usize)),
            Instruction::Xor { x, y } => Ok(self.op_xor_vx_vy(x as usize, y as usize)),
            Instruction::Add { x, y } => Ok(self.op_add_vx_vy(x as usize, y as usize)),
            Instruction::Sub { x, y } => Ok(self.op_sub_vx_vy(x as usize, y as usize)),
            Instruction::ShiftRight { x } => Ok(self.op_shr_vx(x as usize)),
            Instruction::SubReversed { x, y } => Ok(self.op_subn_vx_vy(x as usize, y as usize)),
            Instruction::ShiftLeft { x } => Ok(self.op_shl_vx(x as usize)),
            Instruction::SkipNeReg { x, y } => Ok(self.op_skip_neq_vx_vy(x as usize, y as usize)),
            Instruction::LoadIndex { addr } => Ok(self.op_mov_i(addr)),
            Instruction::JumpOffset { addr } => Ok(self.op_jmp_v0(addr)),
            Instruction::Random { x, kk } => Ok(self.op_rand(x as usize, kk, rnd)),
            Instruction::Draw { x, y, n } => self.op_draw(x as usize, y as usize, n),
            Instruction::SkipKeyDown { x } => Ok(self.op_skip_key_eq_vx(x as usize, keyboard)),
            Instruction::SkipKeyUp { x } => Ok(self.op_skip_key_neq_vx(x as usize, keyboard)),
            Instruction::LoadDelay { x } => Ok(self.op_ld_vx_delay(x as usize)),
            Instruction::WaitKey { x } => Ok(self.op_wait_key(x as usize, keyboard)),
            Instruction::SetDelay { x } => Ok(self.op_set_delay(x as usize)),
            Instruction::SetSound { x } => Ok(self.op_set_sound(x as usize)),
            Instruction::AddIndex { x } => Ok(self.op_add_i_vx(x as usize)),
            Instruction::LoadGlyph { x } => Ok(self.op_ld_i_mem_vx(x as usize)),
            Instruction::StoreBcd { x } => self.op_bcd(x as usize),
            Instruction::StoreRegisters { x } => self.op_ld_mem_i_vx(x as usize),
            Instruction::LoadRegisters { x } => self.op_ld_vx_mem_i(x as usize),
            Instruction::Unknown { opcode } => Ok(self.op_nop(opcode)),
        }
    }
}

/// Whether the processor left in state `after`, having returned `r`, did what the
/// step outcome `res` says; on a fault the state is `unchanged`.
pub open spec fn reports(
    res: Result<MachineState, Fault>,
    unchanged: MachineState,
    after: MachineState,
    r: Result<ProcessorOutput, Fault>,
) -> bool {
    match r {
        Ok(out) => res is Ok && res->Ok_0 == after && shows(out, after),
        Err(e) => res is Err && res->Err_0 == e && after == unchanged,
    }
}

/// Relies on rand::thread_rng and rand::Rng::gen: a byte drawn from the
/// thread-local generator. Nothing is known of its value.
#[verifier::external_body]
fn random_byte() -> (r: u8) {
    rand::Rng::gen::<u8>(&mut rand::thread_rng())
}

impl Processor {
    /// Executes one instruction word, with `rnd` as the byte that a
    /// random-number instruction draws, and moves the program counter.
    /// On a fault nothing changes.
    pub fn execute_opcode_with(&mut self, opcode: u16, keyboard: &[bool; 16], rnd: u8) -> (r: Result<
        ProcessorOutput<'_>,
        Fault,
    >)
        requires
            old(self).wf(),
        ensures
            final(self).wf(),
            reports(execute(old(self)@, decode_spec(opcode), keyboard@, rnd), old(self)@, final(self)@, r),
    {
        self.disassembler.disassemble(opcode);
        match self.dispatch(opcode, keyboard, rnd) {
            Ok(action) => {
                match action {
                    ProcessorAction::Next => self.pc = self.pc.wrapping_add(2),
                    ProcessorAction::Skip => self.pc = self.pc.wrapping_add(4),
                    ProcessorAction::Jump(addr) => self.pc = addr,
                }
                Ok(
                    ProcessorOutput {
                        vram: &self.vram,
                        vram_changed: self.vram_changed,
                        beep: self.sound_timer > 0,
                    },
                )
            },
            Err(e) => Err(e),
        }
    }

    /// Executes one instruction word and moves the program counter; a
    /// random-number instruction draws its byte from the thread's generator.
    /// On a fault nothing changes.
    pub fn execute_opcode(&mut self, opcode: u16, keyboard: &[bool; 16]) -> (r: Result<
        ProcessorOutput<'_>,
        Fault,
    >)
        requires
            old(self).wf(),
        ensures
            final(self).wf(),
            exists|rnd: u8|
                reports(
                    #[trigger] execute(old(self)@, decode_spec(opcode), keyboard@, rnd),
                    old(self)@,
                    final(self)@,
                    r,
                ),
    {
        let rnd = random_byte();
        self.execute_opcode_with(opcode, keyboard, rnd)
    }

    /// One tick with `rnd` as the byte that a random-number instruction draws:
    /// clear the dirty flag, count the timers down, fetch the instruction word at
    /// the program counter and execute it. On a fault the tick's first two steps
    /// stand and nothing else changes.
    pub fn tick_with(&mut self, keyboard: &[bool; 16], rnd: u8) -> (r: Result<ProcessorOutput<'_>, Fault>)
        requires
            old(self).wf(),
        ensures
            final(self).wf(),
            reports(tick_spec(old(self)@, keyboard@, rnd), begin_tick(old(self)@), final(self)@, r),
    {
        self.vram_changed = false;
        if self.sound_timer > 0 {
            self.sound_timer -= 1;
        }
        if self.delay_timer > 0 {
            self.delay_timer -= 1;
        }
        if self.pc as usize + 1 >= MEMORY_SIZE {
            return Err(Fault::MemoryOutOfBounds);
        }
        let opcode = self.bus.read_word(self.pc);
        self.execute_opcode_with(opcode, keyboard, rnd)
    }

    /// One tick; a random-number instruction draws its byte from the thread's
    /// generator.
    pub fn tick(&mut self, keyboard: &[bool; 16]) -> (r: Result<ProcessorOutput<'_>, Fault>)
        requires
            old(self).wf(),
        ensures
            final(self).wf(),
            exists|rnd: u8|
                reports(
                    #[trigger] tick_spec(old(self)@, keyboard@, rnd),
                    begin_tick(old(self)@),
                    final(self)@,
                    r,
                ),
    {
        let rnd = random_byte();
        self.tick_with(keyboard, rnd)
    }
}

/// Writes registers V0 through Vx to memory from address `i` on.
fn store_registers(bus: &mut MemoryBus, v: &[u8; 16], i: u16, x: usize)
    requires
        x < 16,
        i + x + 1 <= MEMORY_SIZE,
        old(bus)@.len() == MEMORY_SIZE,
    ensures
        final(bus)@ == registers_stored(old(bus)@, v@, i as int, x as int),
{
    let mut k: usize = 0;
    while k <= x
        invariant
            k <= x + 1,
            x < 16,
            i + x + 1 <= MEMORY_SIZE,
            old(bus)@.len() == MEMORY_SIZE,
            bus@ =~= registers_stored(old(bus)@, v@, i as int, k - 1),
        decreases x + 1 - k,
    {
        bus.write(i + k as u16, v[k]);
        k += 1;
        assert(bus@ =~= registers_stored(old(bus)@, v@, i as int, k - 1));
    }
}

/// Reads registers V0 through Vx from memory from address `i` on.
fn load_registers(v: &mut [u8; 16], bus: &MemoryBus, i: u16, x: usize)
    requires
        x < 16,
        i + x + 1 <= MEMORY_SIZE,
        bus@.len() == MEMORY_SIZE,
    ensures
        final(v)@ == registers_loaded(old(v)@, bus@, i as int, x as int),
{
    let mut k: usize = 0;
    while k <= x
        invariant
            k <= x + 1,
            x < 16,
            i + x + 1 <= MEMORY_SIZE,
            bus@.len() == MEMORY_SIZE,
            v@ =~= registers_loaded(old(v)@, bus@, i as int, k - 1),
        decreases x + 1 - k,
    {
        v[k] = bus.read_byte(i + k as u16);
        k += 1;
        assert(v@ =~= registers_loaded(old(v)@, bus@, i as int, k - 1));
    }
}

/// Row `r` of `y`'s wraparound lands back where `line_of` says, and conversely.
proof fn lemma_wrap_row(y: u8, l: int, r: int)
    requires
        0 <= l < 32,
        0 <= r < 32,
    ensures
        line_of(y, (y + l) % 32) == l,
        line_of(y, r) == l <==> (y + l) % 32 == r,
{
}

/// Column counterpart of `lemma_wrap_row`.
proof fn lemma_wrap_col(x: u8, b: int, c: int)
    requires
        0 <= b < 64,
        0 <= c < 64,
    ensures
        bit_of(x, (x + b) % 64) == b,
        bit_of(x, c) == b <==> (x + b) % 64 == c,
{
}

/// Whether the draw loop, at sprite row `l` and bit `b`, has already flipped
/// the pixel at (`r`, `c`).
spec fn flipped_before(mem: Seq<u8>, i: u16, x: u8, y: u8, n: u8, r: int, c: int, l: int, b: int) -> bool {
    sprite_pixel(mem, i, x, y, n, r, c) && (line_of(y, r) < l || (line_of(y, r) == l && bit_of(x, c) < b))
}

/// XOR-draws the `n`-row sprite at `i` with its corner at (`vx`, `vy`), wrapping
/// at the edges; returns whether a lit pixel was turned off.
fn draw_sprite(vram: &mut [[u8; 64]; 32], bus: &MemoryBus, i: u16, vx: u8, vy: u8, n: u8) -> (collision: bool)
    requires
        frame_wf(frame_of(*old(vram))),
        n < 16,
        i + n <= MEMORY_SIZE,
        bus@.len() == MEMORY_SIZE,
    ensures
        frame_of(*final(vram)) == draw_frame(frame_of(*old(vram)), bus@, i, vx, vy, n),
        collision == draw_collides(frame_of(*old(vram)), bus@, i, vx, vy, n),
{
    let ghost f0 = frame_of(*vram);
    let ghost mem = bus@;
    let mut collision = false;
    let mut line: u8 = 0;
    while line < n
        invariant
            line <= n,
            n < 16,
            i + n <= MEMORY_SIZE,
            mem == bus@,
            mem.len() == MEMORY_SIZE,
            frame_wf(f0),
            forall|r: int, c: int|
                0 <= r < 32 && 0 <= c < 64 ==> #[trigger] vram@[r]@[c] == if flipped_before(
                    mem,
                    i,
                    vx,
                    vy,
                    n,
                    r,
                    c,
                    line as int,
                    0,
                ) {
                    f0[r][c] ^ LIT
                } else {
                    f0[r][c]
                },
            collision <==> exists|r: int, c: int|
                0 <= r < 32 && 0 <= c < 64 && #[trigger] flipped_before(
                    mem,
                    i,
                    vx,
                    vy,
                    n,
                    r,
                    c,
                    line as int,
                    0,
                ) && f0[r][c] == LIT,
        decreases n - line,
    {
        let row = (vy as usize + line as usize) % 32;
        let sprite = bus.read_byte(i + line as u16);
        let mut bit: u8 = 0;
        while bit < 8
            invariant
                line < n,
                n < 16,
                i + n <= MEMORY_SIZE,
                mem == bus@,
                mem.len() == MEMORY_SIZE,
                frame_wf(f0),
                row == (vy + line) % 32,
                sprite == mem[i + line],
                bit <= 8,
                forall|r: int, c: int|
                    0 <= r < 32 && 0 <= c < 64 ==> #[trigger] vram@[r]@[c] == if flipped_before(
                        mem,
                        i,
                        vx,
                        vy,
                        n,
                        r,
                        c,
                        line as int,
                        bit as int,
                    ) {
                        f0[r][c] ^ LIT
                    } else {
                        f0[r][c]
                    },
                collision <==> exists|r: int, c: int|
                    0 <= r < 32 && 0 <= c < 64 && #[trigger] flipped_before(
                        mem,
                        i,
                        vx,
                        vy,
                        n,
                        r,
                        c,
                        line as int,
                        bit as int,
                    ) && f0[r][c] == LIT,
            decreases 8 - bit,
        {
            let col = (vx as usize + bit as usize) % 64;
            proof {
                lemma_wrap_row(vy, line as int, row as int);
                lemma_wrap_col(vx, bit as int, col as int);
                assert forall|r: int, c: int| 0 <= r < 32 && 0 <= c < 64 implies (flipped_before(
                    mem,
                    i,
                    vx,
                    vy,
                    n,
                    r,
                    c,
                    line as int,
                    bit + 1,
                ) <==> (flipped_before(mem, i, vx, vy, n, r, c, line as int, bit as int) || (r
                    == row && c == col && bit_set(sprite, bit as int)))) by {
                    lemma_wrap_row(vy, line as int, r);
                    lemma_wrap_col(vx, bit as int, c);
                }
            }
            let ghost coll0 = collision;
            if (sprite >> (7 - bit)) & 1 == 1 {
                let old_pixel = vram[row][col];
                if old_pixel == LIT {
                    collision = true;
                }
                vram[row][col] = old_pixel ^ LIT;
            }
            proof {
                if coll0 {
                    let (r, c) = choose|r: int, c: int|
                        0 <= r < 32 && 0 <= c < 64 && #[trigger] flipped_before(
                            mem,
                            i,
                            vx,
                            vy,
                            n,
                            r,
                            c,
                            line as int,
                            bit as int,
                        ) && f0[r][c] == LIT;
                    assert(flipped_before(mem, i, vx, vy, n, r, c, line as int, bit + 1));
                }
                if bit_set(sprite, bit as int) && f0[row as int][col as int] == LIT {
                    assert(flipped_before(mem, i, vx, vy, n, row as int, col as int, line as int, bit + 1));
                }
                if exists|r: int, c: int|
                    0 <= r < 32 && 0 <= c < 64 && #[trigger] flipped_before(
                        mem,
                        i,
                        vx,
                        vy,
                        n,
                        r,
                        c,
                        line as int,
                        bit + 1,
                    ) && f0[r][c] == LIT {
                    let (r, c) = choose|r: int, c: int|
                        0 <= r < 32 && 0 <= c < 64 && #[trigger] flipped_before(
                            mem,
                            i,
                            vx,
                            vy,
                            n,
                            r,
                            c,
                            line as int,
                            bit + 1,
                        ) && f0[r][c] == LIT;
                    if flipped_before(mem, i, vx, vy, n, r, c, line as int, bit as int) {
                        assert(coll0);
                    } else {
                        assert(r == row && c == col);
                        assert(collision);
                    }
                }
            }
            bit += 1;
        }
        proof {
            assert forall|r: int, c: int| 0 <= r < 32 && 0 <= c < 64 implies (flipped_before(
                mem,
                i,
                vx,
                vy,
                n,
                r,
                c,
                line + 1,
                0,
            ) <==> flipped_before(mem, i, vx, vy, n, r, c, line as int, 8)) by {}
            if collision {
                let (r, c) = choose|r: int, c: int|
                    0 <= r < 32 && 0 <= c < 64 && #[trigger] flipped_before(
                        mem,
                        i,
                        vx,
                        vy,
                        n,
                        r,
                        c,
                        line as int,
                        8,
                    ) && f0[r][c] == LIT;
                assert(flipped_before(mem, i, vx, vy, n, r, c, line + 1, 0));
            }
            if exists|r: int, c: int|
                0 <= r < 32 && 0 <= c < 64 && #[trigger] flipped_before(
                    mem,
                    i,
                    vx,
                    vy,
                    n,
                    r,
                    c,
                    line + 1,
                    0,
                ) && f0[r][c] == LIT {
                let (r, c) = choose|r: int, c: int|
                    0 <= r < 32 && 0 <= c < 64 && #[trigger] flipped_before(
                        mem,
                        i,
                        vx,
                        vy,
                        n,
                        r,
                        c,
                        line + 1,
                        0,
                    ) && f0[r][c] == LIT;
                assert(flipped_before(mem, i, vx, vy, n, r, c, line as int, 8));
            }
        }
        line += 1;
    }
    proof {
        assert forall|r: int, c: int| 0 <= r < 32 && 0 <= c < 64 implies (flipped_before(
            mem,
            i,
            vx,
            vy,
            n,
            r,
            c,
            n as int,
            0,
        ) <==> sprite_pixel(mem, i, vx, vy, n, r, c)) by {}
        assert(frame_of(*vram) =~~= draw_frame(f0, mem, i, vx, vy, n));
    }
    collision
}

} // verus!
