use vstd::prelude::*;
use crate::fault::Fault;
use crate::keypad::{Keypad, KEYS_NUM};
use crate::memory::{Memory, MEMORY_SIZE};
use crate::random::Generator;
use crate::registers::{Registers, REGISTERS_NUM};
use crate::semantics::{
    collides, cycle_spec, decode, drawn, initial_state, performs, sprite_bit,
    sprite_col_at, sprite_hits, sprite_row_at, wf_state, Instruction, MachineState, Outcome,
};
use crate::stack::{Stack, STACK_SIZE};
use crate::video::{Video, PIXEL_OFF, PIXEL_ON, VIDEO_HEIGHT, VIDEO_SIZE, VIDEO_WIDTH};

verus! {

/// The interpreter: owns every state container and runs one cycle at a time.
pub struct Chip {
    memory: Memory,
    rand_gen: Generator,
    video: Video,
    stack: Stack,
    registers: Registers,
    keypad: Keypad,
    delay_timer: u8,
    sound_timer: u8,
}

impl View for Chip {
    type V = MachineState;

    closed spec fn view(&self) -> MachineState {
        MachineState {
            memory: self.memory@,
            pc: self.memory.pc(),
            index: self.memory.index(),
            registers: self.registers@,
            stack: self.stack@,
            video: self.video@,
            keys: self.keypad@,
            delay_timer: self.delay_timer,
            sound_timer: self.sound_timer,
        }
    }
}

/// Framebuffer part-way through drawing `sprite` at `(x, y)`: the cells of the rows
/// before `row`, and of the columns before `col` in row `row`, are toggled.
spec fn partly_drawn(video: Seq<u32>, x: u8, y: u8, sprite: Seq<u8>, row: int, col: int) -> Seq<
    u32,
> {
    Seq::new(
        video.len(),
        |k: int|
            if sprite_hits(sprite, x, y, k) && drawn_before(x, y, k, row, col) {
                video[k] ^ PIXEL_ON
            } else {
                video[k]
            },
    )
}

/// Whether cell `k` is reached before sprite position `(row, col)`.
spec fn drawn_before(x: u8, y: u8, k: int, row: int, col: int) -> bool {
    let r = sprite_row_at(y, k / VIDEO_WIDTH as int);
    let c = sprite_col_at(x, k % VIDEO_WIDTH as int);
    r < row || (r == row && c < col)
}

/// Whether drawing has turned off a lit cell before sprite position `(row, col)`.
spec fn partly_collides(video: Seq<u32>, x: u8, y: u8, sprite: Seq<u8>, row: int, col: int) -> bool {
    exists|k: int|
        0 <= k < video.len() && #[trigger] sprite_hits(sprite, x, y, k) && drawn_before(
            x,
            y,
            k,
            row,
            col,
        ) && video[k] == PIXEL_ON
}

proof fn lemma_cell_bv(k: u64, x: u64, y: u64, i: u64, j: u64)
    by (bit_vector)
    requires
        k < 2048,
        x < 256,
        y < 256,
        i < 32,
        j < 64,
    ensures
        ((k / 64 + 32 - y % 32) % 32 == i && (k % 64 + 64 - x % 64) % 64 == j) <==> k == ((y + i)
            % 32) * 64 + (x + j) % 64,
{
}

/// Sprite position `(i, j)` drawn at `(x, y)` lands on cell `k` and on no other.
proof fn lemma_cell(k: int, x: u8, y: u8, i: int, j: int)
    requires
        0 <= k < VIDEO_SIZE,
        0 <= i < VIDEO_HEIGHT,
        0 <= j < VIDEO_WIDTH,
    ensures
        (sprite_row_at(y, k / VIDEO_WIDTH as int) == i && sprite_col_at(x, k % VIDEO_WIDTH as int)
            == j) <==> k == ((y + i) % 32) * 64 + (x + j) % 64,
{
    lemma_cell_bv(k as u64, x as u64, y as u64, i as u64, j as u64);
}

/// Whether bit `col` (0 is the most significant) of a sprite row is set.
fn sprite_pixel(byte: u8, col: usize) -> (r: bool)
    requires
        col < 8,
    ensures
        r == sprite_bit(byte, col as int),
{
    byte & (0x80u8 >> (col as u8)) != 0
}

impl Chip {
    /// Sizes of the state containers, and every framebuffer cell canonical.
    pub open spec fn wf(&self) -> bool {
        wf_state(self@)
    }

    pub fn new() -> (r: Chip)
        ensures
            r@ == initial_state(),
            r.wf(),
    {
        let r = Chip {
            memory: Memory::new(),
            rand_gen: Generator::new(),
            video: Video::new(),
            stack: Stack::new(),
            registers: Registers::new(),
            keypad: Keypad::new(),
            delay_timer: 0,
            sound_timer: 0,
        };
        r
    }

    /// The keys, for the input collaborator to update.
    pub fn get_keypad(&mut self) -> (r: &mut Keypad)
        ensures
            r@ == old(self)@.keys,
            final(self)@ == (MachineState { keys: final(r)@, ..old(self)@ }),
    {
        &mut self.keypad
    }

    /// The framebuffer, for presentation.
    pub fn get_video(&mut self) -> (r: &mut Video)
        ensures
            r@ == old(self)@.video,
            final(self)@ == (MachineState { video: final(r)@, ..old(self)@ }),
    {
        &mut self.video
    }

    /// The register file.
    pub fn get_registers(&self) -> (r: &Registers)
        ensures
            r@ == self@.registers,
    {
        &self.registers
    }

    /// Memory, with the program counter and the index register.
    pub fn get_memory(&self) -> (r: &Memory)
        ensures
            r@ == self@.memory,
            r.pc() == self@.pc,
            r.index() == self@.index,
    {
        &self.memory
    }

    /// Number of return addresses on the call stack.
    pub fn get_stack_depth(&self) -> (r: usize)
        ensures
            r == self@.stack.len(),
    {
        self.stack.depth()
    }

    pub fn get_delay_timer(&self) -> (r: u8)
        ensures
            r == self@.delay_timer,
    {
        self.delay_timer
    }

    pub fn get_sound_timer(&self) -> (r: u8)
        ensures
            r == self@.sound_timer,
    {
        self.sound_timer
    }

    /// Writes a program image at `0x200`; fails when it is longer than 3584 bytes.
    pub fn load_rom(&mut self, data: &[u8]) -> (r: Result<(), Fault>)
        requires
            old(self).wf(),
        ensures
            final(self).wf(),
            r is Err <==> data@.len() > crate::memory::MAX_ROM_SIZE,
            r is Err ==> r == Err::<(), Fault>(Fault::RomTooLarge) && final(self)@ == old(self)@,
            r is Ok ==> final(self)@ == (MachineState {
                memory: crate::memory::overwrite(
                    old(self)@.memory,
                    crate::memory::START_ADDRESS as int,
                    data@,
                ),
                ..old(self)@
            }),
    {
        self.memory.load_instructions(data)
    }

    /// Runs one cycle, drawing the random byte that `Cxkk` uses from the generator.
    pub fn cycle(&mut self) -> (r: Result<Outcome, Fault>)
        requires
            old(self).wf(),
        ensures
            final(self).wf(),
            exists|b: u8| (final(self)@, r) == cycle_spec(old(self)@, b),
    {
        let b = self.rand_gen.get_random();
        self.cycle_with(b)
    }

    /// Runs one cycle with `random_byte` as the byte that `Cxkk` uses: fetches the word at
    /// the program counter, executes it, then moves both timers one step towards zero.
    pub fn cycle_with(&mut self, random_byte: u8) -> (r: Result<Outcome, Fault>)
        requires
            old(self).wf(),
        ensures
            final(self).wf(),
            (final(self)@, r) == cycle_spec(old(self)@, random_byte),
    {
        if self.memory.get_pointer() as usize + 1 >= MEMORY_SIZE {
            return Err(Fault::OutOfBounds);
        }
        let opcode = self.memory.fetch();
        let ins = decode(opcode);
        match self.execute_instruction(ins, random_byte) {
            Ok(()) => {},
            Err(e) => {
                self.memory.go_back(2);
                return Err(e);
            },
        }
        if self.delay_timer > 0 {
            self.delay_timer -= 1;
        }
        if self.sound_timer > 0 {
            self.sound_timer -= 1;
        }
        match ins {
            Instruction::Unknown(_) => Ok(Outcome::Unknown(opcode)),
            _ => Ok(Outcome::Executed),
        }
    }

    /// Executes a decoded instruction; the program counter has already moved past it.
    fn execute_instruction(&mut self, ins: Instruction, random_byte: u8) -> (r: Result<(), Fault>)
        requires
            old(self).wf(),
            2 <= old(self)@.pc <= MEMORY_SIZE,
            crate::semantics::operands_in_range(ins),
        ensures
            final(self).wf(),
            performs(old(self)@, ins, random_byte, final(self)@, r),
    {
        match ins {
            Instruction::Clear => {
                self.op_00E0();
                Ok(())
            },
            Instruction::Return => self.op_00EE(),
            Instruction::Jump(a) => {
                self.op_1nnn(a);
                Ok(())
            },
            Instruction::Call(a) => self.op_2nnn(a),
            Instruction::SkipEqImm(x, kk) => {
                self.op_3xkk(x, kk);
                Ok(())
            },
            Instruction::SkipNeImm(x, kk) => {
                self.op_4xkk(x, kk);
                Ok(())
            },
            Instruction::SkipEqReg(x, y) => {
                self.op_5xy0(x, y);
                Ok(())
            },
            Instruction::LoadImm(x, kk) => {
                self.op_6xkk(x, kk);
                Ok(())
            },
            Instruction::AddImm(x, kk) => {
                self.op_7xkk(x, kk);
                Ok(())
            },
            Instruction::Move(x, y) => {
                self.op_8xy0(x, y);
                Ok(())
            },
            Instruction::Or(x, y) => {
                self.op_8xy1(x, y);
                Ok(())
            },
            Instruction::And(x, y) => {
                self.op_8xy2(x, y);
                Ok(())
            },
            Instruction::Xor(x, y) => {
                self.op_8xy3(x, y);
                Ok(())
            },
            Instruction::AddReg(x, y) => {
                self.op_8xy4(x, y);
                Ok(())
            },
            Instruction::SubReg(x, y) => {
                self.op_8xy5(x, y);
                Ok(())
            },
            Instruction::ShiftRight(x) => {
                self.op_8xy6(x);
                Ok(())
            },
            Instruction::SubN(x, y) => {
                self.op_8xy7(x, y);
                Ok(())
            },
            Instruction::ShiftLeft(x) => {
                self.op_8xyE(x);
                Ok(())
            },
            Instruction::SkipNeReg(x, y) => {
                self.op_9xy0(x, y);
                Ok(())
            },
            Instruction::SetIndex(a) => {
                self.op_Annn(a);
                Ok(())
            },
            Instruction::JumpOffset(a) => {
                self.op_Bnnn(a);
                Ok(())
            },
            Instruction::Random(x, kk) => {
                self.op_Cxkk(x, kk, random_byte);
                Ok(())
            },
            Instruction::Draw(x, y, n) => self.op_Dxyn(x, y, n),
            Instruction::SkipKeyPressed(x) => self.op_Ex9E(x),
            Instruction::SkipKeyNotPressed(x) => self.op_ExA1(x),
            Instruction::LoadDelay(x) => {
                self.op_Fx07(x);
                Ok(())
            },
            Instruction::WaitKey(x) => {
                self.op_Fx0A(x);
                Ok(())
            },
            Instruction::SetDelay(x) => {
                self.op_Fx15(x);
                Ok(())
            },
            Instruction::SetSound(x) => {
                self.op_Fx18(x);
                Ok(())
            },
            Instruction::AddIndex(x) => {
                self.op_Fx1E(x);
                Ok(())
            },
            Instruction::LoadGlyph(x) => {
                self.op_Fx29(x);
                Ok(())
            },
            Instruction::StoreBcd(x) => self.op_Fx33(x),
            Instruction::StoreRegs(x) => self.op_Fx55(x),
            Instruction::LoadRegs(x) => self.op_Fx65(x),
            Instruction::Unknown(_) => Ok(()),
        }
    }
}

#[allow(non_snake_case)]
impl Chip {
    fn op_00E0(&mut self)
        requires
            old(self).wf(),
        ensures
            final(self).wf(),
            performs(old(self)@, Instruction::Clear, 0, final(self)@, Ok(())),
    {
        self.video.clear();
    }

    fn op_00EE(&mut self) -> (r: Result<(), Fault>)
        requires
            old(self).wf(),
        ensures
            final(self).wf(),
            performs(old(self)@, Instruction::Return, 0, final(self)@, r),
    {
        if self.stack.depth() == 0 {
            return Err(Fault::StackUnderflow);
        }
        let addr = self.stack.pop();
        self.memory.set_address(addr);
        Ok(())
    }

    fn op_1nnn(&mut self, addr: u16)
        requires
            old(self).wf(),
        ensures
            final(self).wf(),
            performs(old(self)@, Instruction::Jump(addr), 0, final(self)@, Ok(())),
    {
        self.memory.set_address(addr)
    }

    fn op_2nnn(&mut self, addr: u16) -> (r: Result<(), Fault>)
        requires
            old(self).wf(),
        ensures
            final(self).wf(),
            performs(old(self)@, Instruction::Call(addr), 0, final(self)@, r),
    {
        if self.stack.depth() >= STACK_SIZE {
            return Err(Fault::StackOverflow);
        }
        let ret = self.memory.get_pointer();
        self.stack.push(ret);
        self.memory.set_address(addr);
        Ok(())
    }

    fn op_3xkk(&mut self, reg: u8, byte: u8)
        requires
            old(self).wf(),
            old(self)@.pc <= MEMORY_SIZE,
            reg < REGISTERS_NUM,
        ensures
            final(self).wf(),
            performs(old(self)@, Instruction::SkipEqImm(reg, byte), 0, final(self)@, Ok(())),
    {
        if self.registers.read(reg) == byte {
            self.memory.advance(2);
        }
    }

    fn op_4xkk(&mut self, reg: u8, byte: u8)
        requires
            old(self).wf(),
            old(self)@.pc <= MEMORY_SIZE,
            reg < REGISTERS_NUM,
        ensures
            final(self).wf(),
            performs(old(self)@, Instruction::SkipNeImm(reg, byte), 0, final(self)@, Ok(())),
    {
        if self.registers.read(reg) != byte {
            self.memory.advance(2);
        }
    }

    fn op_5xy0(&mut self, reg_1: u8, reg_2: u8)
        requires
            old(self).wf(),
            old(self)@.pc <= MEMORY_SIZE,
            reg_1 < REGISTERS_NUM,
            reg_2 < REGISTERS_NUM,
        ensures
            final(self).wf(),
            performs(old(self)@, Instruction::SkipEqReg(reg_1, reg_2), 0, final(self)@, Ok(())),
    {
        if self.registers.read(reg_1) == self.registers.read(reg_2) {
            self.memory.advance(2);
        }
    }

    fn op_6xkk(&mut self, reg: u8, val: u8)
        requires
            old(self).wf(),
            reg < REGISTERS_NUM,
        ensures
            final(self).wf(),
            performs(old(self)@, Instruction::LoadImm(reg, val), 0, final(self)@, Ok(())),
    {
        self.registers.set(reg, val);
    }

    fn op_7xkk(&mut self, reg: u8, val: u8)
        requires
            old(self).wf(),
            reg < REGISTERS_NUM,
        ensures
            final(self).wf(),
            performs(old(self)@, Instruction::AddImm(reg, val), 0, final(self)@, Ok(())),
    {
        let value = self.registers.read(reg);
        self.registers.set(reg, value.wrapping_add(val));
    }

    fn op_8xy0(&mut self, reg_1: u8, reg_2: u8)
        requires
            old(self).wf(),
            reg_1 < REGISTERS_NUM,
            reg_2 < REGISTERS_NUM,
        ensures
            final(self).wf(),
            performs(old(self)@, Instruction::Move(reg_1, reg_2), 0, final(self)@, Ok(())),
    {
        let v = self.registers.read(reg_2);
        self.registers.set(reg_1, v);
    }

    fn op_8xy1(&mut self, reg_1: u8, reg_2: u8)
        requires
            old(self).wf(),
            reg_1 < REGISTERS_NUM,
            reg_2 < REGISTERS_NUM,
        ensures
            final(self).wf(),
            performs(old(self)@, Instruction::Or(reg_1, reg_2), 0, final(self)@, Ok(())),
    {
        let v = self.registers.or(reg_1, reg_2);
        self.registers.set(reg_1, v);
    }

    fn op_8xy2(&mut self, reg_1: u8, reg_2: u8)
        requires
            old(self).wf(),
            reg_1 < REGISTERS_NUM,
            reg_2 < REGISTERS_NUM,
        ensures
            final(self).wf(),
            performs(old(self)@, Instruction::And(reg_1, reg_2), 0, final(self)@, Ok(())),
    {
        let v = self.registers.and(reg_1, reg_2);
        self.registers.set(reg_1, v);
    }

    fn op_8xy3(&mut self, reg_1: u8, reg_2: u8)
        requires
            old(self).wf(),
            reg_1 < REGISTERS_NUM,
            reg_2 < REGISTERS_NUM,
        ensures
            final(self).wf(),
            performs(old(self)@, Instruction::Xor(reg_1, reg_2), 0, final(self)@, Ok(())),
    {
        let v = self.registers.xor(reg_1, reg_2);
        self.registers.set(reg_1, v);
    }

    fn op_8xy4(&mut self, reg_1: u8, reg_2: u8)
        requires
            old(self).wf(),
            reg_1 < REGISTERS_NUM,
            reg_2 < REGISTERS_NUM,
        ensures
            final(self).wf(),
            performs(old(self)@, Instruction::AddReg(reg_1, reg_2), 0, final(self)@, Ok(())),
    {
        self.registers.add_inplace(reg_1, reg_2);
    }

    fn op_8xy5(&mut self, lhs: u8, rhs: u8)
        requires
            old(self).wf(),
            lhs < REGISTERS_NUM,
            rhs < REGISTERS_NUM,
        ensures
            final(self).wf(),
            performs(old(self)@, Instruction::SubReg(lhs, rhs), 0, final(self)@, Ok(())),
    {
        self.registers.sub_inplace(lhs, rhs);
    }

    fn op_8xy6(&mut self, reg: u8)
        requires
            old(self).wf(),
            reg < REGISTERS_NUM,
        ensures
            final(self).wf(),
            performs(old(self)@, Instruction::ShiftRight(reg), 0, final(self)@, Ok(())),
    {
        self.registers.shitf_right_inplace(reg);
    }

    fn op_8xy7(&mut self, reg_1: u8, reg_2: u8)
        requires
            old(self).wf(),
            reg_1 < REGISTERS_NUM,
            reg_2 < REGISTERS_NUM,
        ensures
            final(self).wf(),
            performs(old(self)@, Instruction::SubN(reg_1, reg_2), 0, final(self)@, Ok(())),
    {
        self.registers.sub_n(reg_1, reg_2);
    }

    fn op_8xyE(&mut self, reg: u8)
        requires
            old(self).wf(),
            reg < REGISTERS_NUM,
        ensures
            final(self).wf(),
            performs(old(self)@, Instruction::ShiftLeft(reg), 0, final(self)@, Ok(())),
    {
        self.registers.shift_left_inplace(reg);
    }

    fn op_9xy0(&mut self, fst: u8, snd: u8)
        requires
            old(self).wf(),
            old(self)@.pc <= MEMORY_SIZE,
            fst < REGISTERS_NUM,
            snd < REGISTERS_NUM,
        ensures
            final(self).wf(),
            performs(old(self)@, Instruction::SkipNeReg(fst, snd), 0, final(self)@, Ok(())),
    {
        if self.registers.read(fst) != self.registers.read(snd) {
            self.memory.advance(2);
        }
    }

    fn op_Annn(&mut self, address: u16)
        requires
            old(self).wf(),
        ensures
            final(self).wf(),
            performs(old(self)@, Instruction::SetIndex(address), 0, final(self)@, Ok(())),
    {
        self.memory.set_index_register(address);
    }

    fn op_Bnnn(&mut self, address: u16)
        requires
            old(self).wf(),
            address < MEMORY_SIZE,
        ensures
            final(self).wf(),
            performs(old(self)@, Instruction::JumpOffset(address), 0, final(self)@, Ok(())),
    {
        let base = self.registers.read(0);
        self.memory.set_address(base as u16 + address);
    }

    fn op_Cxkk(&mut self, fst: u8, snd: u8, random_byte: u8)
        requires
            old(self).wf(),
            fst < REGISTERS_NUM,
        ensures
            final(self).wf(),
            performs(old(self)@, Instruction::Random(fst, snd), random_byte, final(self)@, Ok(())),
    {
        self.registers.set(fst, random_byte & snd);
    }

    fn op_Dxyn(&mut self, vx: u8, vy: u8, height: u8) -> (r: Result<(), Fault>)
        requires
            old(self).wf(),
            vx < REGISTERS_NUM,
            vy < REGISTERS_NUM,
            height < 16,
        ensures
            final(self).wf(),
            performs(old(self)@, Instruction::Draw(vx, vy, height), 0, final(self)@, r),
    {
        let from = self.memory.get_index_register() as usize;
        if from + height as usize > MEMORY_SIZE {
            return Err(Fault::OutOfBounds);
        }
        let sprite = self.memory.slice(from, from + height as usize);
        let x_pos = self.registers.read(vx);
        let y_pos = self.registers.read(vy);
        let ghost orig = self.video@;
        let mut collision = false;
        let mut row: usize = 0;
        proof {
            assert(self.video@ =~= partly_drawn(orig, x_pos, y_pos, sprite@, 0, 0));
        }
        while row < sprite.len()
            invariant
                wf_state(old(self)@),
                orig == old(self)@.video,
                sprite@ == old(self)@.memory.subrange(from as int, from + height),
                sprite@.len() == height < 16,
                x_pos == old(self)@.registers[vx as int],
                y_pos == old(self)@.registers[vy as int],
                row <= sprite@.len(),
                self.memory == old(self).memory,
                self.registers == old(self).registers,
                self.stack == old(self).stack,
                self.keypad == old(self).keypad,
                self.delay_timer == old(self).delay_timer,
                self.sound_timer == old(self).sound_timer,
                self.video@ == partly_drawn(orig, x_pos, y_pos, sprite@, row as int, 0),
                collision == partly_collides(orig, x_pos, y_pos, sprite@, row as int, 0),
            decreases sprite@.len() - row,
        {
            let byte = sprite[row];
            let mut col: usize = 0;
            while col < 8
                invariant
                    wf_state(old(self)@),
                    orig == old(self)@.video,
                    sprite@.len() == height < 16,
                    row < sprite@.len(),
                    byte == sprite@[row as int],
                    col <= 8,
                    self.memory == old(self).memory,
                    self.registers == old(self).registers,
                    self.stack == old(self).stack,
                    self.keypad == old(self).keypad,
                    self.delay_timer == old(self).delay_timer,
                    self.sound_timer == old(self).sound_timer,
                    self.video@ == partly_drawn(orig, x_pos, y_pos, sprite@, row as int, col as int),
                    collision == partly_collides(
                        orig,
                        x_pos,
                        y_pos,
                        sprite@,
                        row as int,
                        col as int,
                    ),
                decreases 8 - col,
            {
                let ghost k0: int = ((y_pos + row) % 32) * 64 + (x_pos + col) % 64;
                let ghost next = partly_drawn(orig, x_pos, y_pos, sprite@, row as int, col + 1);
                proof {
                    lemma_cell(k0, x_pos, y_pos, row as int, col as int);
                    assert forall|k: int| 0 <= k < VIDEO_SIZE implies (drawn_before(
                        x_pos,
                        y_pos,
                        k,
                        row as int,
                        col + 1,
                    ) <==> (drawn_before(x_pos, y_pos, k, row as int, col as int) || k == k0)) by {
                        lemma_cell(k, x_pos, y_pos, row as int, col as int);
                    }
                }
                if sprite_pixel(byte, col) {
                    let screen_pixel = self.video.pixel(
                        (y_pos as usize + row) % VIDEO_HEIGHT,
                        (x_pos as usize + col) % VIDEO_WIDTH,
                    );
                    if *screen_pixel == PIXEL_ON {
                        collision = true;
                    }
                    *screen_pixel = *screen_pixel ^ PIXEL_ON;
                    proof {
                        assert(self.video@ =~= next);
                    }
                } else {
                    proof {
                        assert(self.video@ =~= next);
                    }
                }
                proof {
                    let c = partly_collides(orig, x_pos, y_pos, sprite@, row as int, col + 1);
                    if partly_collides(orig, x_pos, y_pos, sprite@, row as int, col as int) {
                        let k = choose|k: int|
                            0 <= k < orig.len() && #[trigger] sprite_hits(sprite@, x_pos, y_pos, k)
                                && drawn_before(x_pos, y_pos, k, row as int, col as int) && orig[k]
                                == PIXEL_ON;
                        assert(c);
                    }
                    if sprite_bit(byte, col as int) && orig[k0] == PIXEL_ON {
                        assert(sprite_hits(sprite@, x_pos, y_pos, k0));
                        assert(c);
                    }
                }
                col += 1;
            }
            proof {
                assert(partly_drawn(orig, x_pos, y_pos, sprite@, row as int, 8) =~= partly_drawn(
                    orig,
                    x_pos,
                    y_pos,
                    sprite@,
                    row + 1,
                    0,
                ));
                if partly_collides(orig, x_pos, y_pos, sprite@, row + 1, 0) {
                    let k = choose|k: int|
                        0 <= k < orig.len() && #[trigger] sprite_hits(sprite@, x_pos, y_pos, k)
                            && drawn_before(x_pos, y_pos, k, row + 1, 0) && orig[k] == PIXEL_ON;
                    assert(drawn_before(x_pos, y_pos, k, row as int, 8));
                }
            }
            row += 1;
        }
        proof {
            let sp = sprite@;
            assert(self.video@ =~= drawn(orig, x_pos, y_pos, sp));
            if collides(orig, x_pos, y_pos, sp) {
                let k = choose|k: int|
                    0 <= k < orig.len() && #[trigger] sprite_hits(sp, x_pos, y_pos, k) && orig[k]
                        == PIXEL_ON;
                assert(drawn_before(x_pos, y_pos, k, row as int, 0));
            }
            assert forall|k: int| 0 <= k < self.video@.len() implies #[trigger] self.video@[k]
                == PIXEL_OFF || self.video@[k] == PIXEL_ON by {
                assert(PIXEL_OFF ^ PIXEL_ON == PIXEL_ON) by (bit_vector);
                assert(PIXEL_ON ^ PIXEL_ON == PIXEL_OFF) by (bit_vector);
            }
        }
        self.registers.vx_set(if collision { 1 } else { 0 });
        Ok(())
    }

    fn op_Ex9E(&mut self, reg: u8) -> (r: Result<(), Fault>)
        requires
            old(self).wf(),
            old(self)@.pc <= MEMORY_SIZE,
            reg < REGISTERS_NUM,
        ensures
            final(self).wf(),
            performs(old(self)@, Instruction::SkipKeyPressed(reg), 0, final(self)@, r),
    {
        let key = self.registers.read(reg);
        if key as usize >= KEYS_NUM {
            return Err(Fault::OutOfBounds);
        }
        if self.keypad.is_pressed(key) {
            self.memory.advance(2);
        }
        Ok(())
    }

    fn op_ExA1(&mut self, reg: u8) -> (r: Result<(), Fault>)
        requires
            old(self).wf(),
            old(self)@.pc <= MEMORY_SIZE,
            reg < REGISTERS_NUM,
        ensures
            final(self).wf(),
            performs(old(self)@, Instruction::SkipKeyNotPressed(reg), 0, final(self)@, r),
    {
        let key = self.registers.read(reg);
        if key as usize >= KEYS_NUM {
            return Err(Fault::OutOfBounds);
        }
        if !self.keypad.is_pressed(key) {
            self.memory.advance(2);
        }
        Ok(())
    }

    fn op_Fx07(&mut self, reg: u8)
        requires
            old(self).wf(),
            reg < REGISTERS_NUM,
        ensures
            final(self).wf(),
            performs(old(self)@, Instruction::LoadDelay(reg), 0, final(self)@, Ok(())),
    {
        let t = self.delay_timer;
        self.registers.set(reg, t);
    }

    fn op_Fx0A(&mut self, reg: u8)
        requires
            old(self).wf(),
            old(self)@.pc >= 2,
            reg < REGISTERS_NUM,
        ensures
            final(self).wf(),
            performs(old(self)@, Instruction::WaitKey(reg), 0, final(self)@, Ok(())),
    {
        if let Some(key) = self.keypad.get_pressed() {
            self.registers.set(reg, key as u8);
        } else {
            self.memory.go_back(2);
        }
    }

    fn op_Fx15(&mut self, reg: u8)
        requires
            old(self).wf(),
            reg < REGISTERS_NUM,
        ensures
            final(self).wf(),
            performs(old(self)@, Instruction::SetDelay(reg), 0, final(self)@, Ok(())),
    {
        self.delay_timer = self.registers.read(reg);
    }

    fn op_Fx18(&mut self, reg: u8)
        requires
            old(self).wf(),
            reg < REGISTERS_NUM,
        ensures
            final(self).wf(),
            performs(old(self)@, Instruction::SetSound(reg), 0, final(self)@, Ok(())),
    {
        self.sound_timer = self.registers.read(reg);
    }

    fn op_Fx1E(&mut self, reg: u8)
        requires
            old(self).wf(),
            reg < REGISTERS_NUM,
        ensures
            final(self).wf(),
            performs(old(self)@, Instruction::AddIndex(reg), 0, final(self)@, Ok(())),
    {
        let i = self.memory.get_index_register();
        let v = self.registers.read(reg);
        self.memory.set_index_register(i.wrapping_add(v as u16));
    }

    fn op_Fx29(&mut self, reg: u8)
        requires
            old(self).wf(),
            reg < REGISTERS_NUM,
        ensures
            final(self).wf(),
            performs(old(self)@, Instruction::LoadGlyph(reg), 0, final(self)@, Ok(())),
    {
        let digit = self.registers.read(reg);
        self.memory.set_index_register_to_font_no(digit);
    }

    fn op_Fx33(&mut self, reg: u8) -> (r: Result<(), Fault>)
        requires
            old(self).wf(),
            reg < REGISTERS_NUM,
        ensures
            final(self).wf(),
            performs(old(self)@, Instruction::StoreBcd(reg), 0, final(self)@, r),
    {
        if self.memory.get_index_register() as usize + 2 >= MEMORY_SIZE {
            return Err(Fault::OutOfBounds);
        }
        let v = self.registers.read(reg);
        self.memory.store_bcd_repr(v);
        Ok(())
    }

    fn op_Fx55(&mut self, reg: u8) -> (r: Result<(), Fault>)
        requires
            old(self).wf(),
            reg < REGISTERS_NUM,
        ensures
            final(self).wf(),
            performs(old(self)@, Instruction::StoreRegs(reg), 0, final(self)@, r),
    {
        if self.memory.get_index_register() as usize + reg as usize + 1 > MEMORY_SIZE {
            return Err(Fault::OutOfBounds);
        }
        let regs = self.registers.slice(0, reg as usize + 1);
        self.memory.copy_from(regs);
        Ok(())
    }

    fn op_Fx65(&mut self, reg: u8) -> (r: Result<(), Fault>)
        requires
            old(self).wf(),
            reg < REGISTERS_NUM,
        ensures
            final(self).wf(),
            performs(old(self)@, Instruction::LoadRegs(reg), 0, final(self)@, r),
    {
        let from = self.memory.get_index_register() as usize;
        if from + reg as usize + 1 > MEMORY_SIZE {
            return Err(Fault::OutOfBounds);
        }
        let bytes = self.memory.slice(from, from + reg as usize + 1);
        self.registers.copy_from(bytes);
        Ok(())
    }
}

} // verus!
