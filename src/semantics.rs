use vstd::prelude::*;
use crate::fault::Fault;
use crate::keypad::{lowest_pressed, KEYS_NUM};
use crate::memory::{
    glyph_address, initial_memory, overwrite, with_decimal_digits, word_at, MEMORY_SIZE,
    START_ADDRESS,
};
use crate::registers::{
    carry, no_borrow, with_flag_then, wrapped_add, wrapped_sub, FLAG_REGISTER, REGISTERS_NUM,
};
use crate::stack::STACK_SIZE;
use crate::video::{blank, is_canonical, PIXEL_ON, VIDEO_HEIGHT, VIDEO_SIZE, VIDEO_WIDTH};

verus! {

/// The whole observable state of the machine.
pub struct MachineState {
    pub memory: Seq<u8>,
    pub pc: u16,
    pub index: u16,
    pub registers: Seq<u8>,
    pub stack: Seq<u16>,
    pub video: Seq<u32>,
    pub keys: Seq<bool>,
    pub delay_timer: u8,
    pub sound_timer: u8,
}

/// Sizes of the state containers, and every framebuffer cell canonical.
pub open spec fn wf_state(s: MachineState) -> bool {
    &&& s.memory.len() == MEMORY_SIZE
    &&& s.registers.len() == REGISTERS_NUM
    &&& s.stack.len() <= STACK_SIZE
    &&& s.video.len() == VIDEO_SIZE
    &&& is_canonical(s.video)
    &&& s.keys.len() == KEYS_NUM
}

/// State at power-on, before a program is loaded.
pub open spec fn initial_state() -> MachineState {
    MachineState {
        memory: initial_memory(),
        pc: START_ADDRESS as u16,
        index: 0,
        registers: Seq::new(REGISTERS_NUM as nat, |i: int| 0u8),
        stack: Seq::empty(),
        video: blank(VIDEO_SIZE as nat),
        keys: Seq::new(KEYS_NUM as nat, |i: int| false),
        delay_timer: 0,
        sound_timer: 0,
    }
}

/// One decoded instruction word. Register operands are `x` and `y`, `kk` an
/// immediate byte, `nnn` an immediate address and `n` a sprite height.
#[derive(Clone, Copy, Debug, PartialEq, Eq, Structural)]
pub enum Instruction {
    /// `00E0`
    Clear,
    /// `00EE`
    Return,
    /// `1nnn`
    Jump(u16),
    /// `2nnn`
    Call(u16),
    /// `3xkk`
    SkipEqImm(u8, u8),
    /// `4xkk`
    SkipNeImm(u8, u8),
    /// `5xy0`
    SkipEqReg(u8, u8),
    /// `6xkk`
    LoadImm(u8, u8),
    /// `7xkk`
    AddImm(u8, u8),
    /// `8xy0`
    Move(u8, u8),
    /// `8xy1`
    Or(u8, u8),
    /// `8xy2`
    And(u8, u8),
    /// `8xy3`
    Xor(u8, u8),
    /// `8xy4`
    AddReg(u8, u8),
    /// `8xy5`
    SubReg(u8, u8),
    /// `8xy6`
    ShiftRight(u8),
    /// `8xy7`
    SubN(u8, u8),
    /// `8xyE`
    ShiftLeft(u8),
    /// `9xy0`
    SkipNeReg(u8, u8),
    /// `Annn`
    SetIndex(u16),
    /// `Bnnn`
    JumpOffset(u16),
    /// `Cxkk`
    Random(u8, u8),
    /// `Dxyn`
    Draw(u8, u8, u8),
    /// `Ex9E`
    SkipKeyPressed(u8),
    /// `ExA1`
    SkipKeyNotPressed(u8),
    /// `Fx07`
    LoadDelay(u8),
    /// `Fx0A`
    WaitKey(u8),
    /// `Fx15`
    SetDelay(u8),
    /// `Fx18`
    SetSound(u8),
    /// `Fx1E`
    AddIndex(u8),
    /// `Fx29`
    LoadGlyph(u8),
    /// `Fx33`
    StoreBcd(u8),
    /// `Fx55`
    StoreRegs(u8),
    /// `Fx65`
    LoadRegs(u8),
    /// Any other word; it is skipped.
    Unknown(u16),
}

/// What a cycle that did not fault did.
#[derive(Clone, Copy, Debug, PartialEq, Eq, Structural)]
pub enum Outcome {
    /// The instruction was executed.
    Executed,
    /// The word was not a known instruction and was skipped.
    Unknown(u16),
}

/// Bits 8..=11: the first register operand.
pub open spec fn x_of(op: u16) -> u8 {
    ((op & 0x0F00) >> 8u16) as u8
}

/// Bits 4..=7: the second register operand.
pub open spec fn y_of(op: u16) -> u8 {
    ((op & 0x00F0) >> 4u16) as u8
}

/// Bits 0..=3.
pub open spec fn n_of(op: u16) -> u8 {
    (op & 0x000F) as u8
}

/// Bits 0..=7: an immediate byte.
pub open spec fn kk_of(op: u16) -> u8 {
    (op & 0x00FF) as u8
}

/// Bits 0..=11: an immediate address.
pub open spec fn nnn_of(op: u16) -> u16 {
    op & 0x0FFF
}

/// The instruction that a word encodes.
pub open spec fn decode_spec(op: u16) -> Instruction {
    let x = x_of(op);
    let y = y_of(op);
    let n = n_of(op);
    let kk = kk_of(op);
    let nnn = nnn_of(op);
    if op == 0x00E0 {
        Instruction::Clear
    } else if op == 0x00EE {
        Instruction::Return
    } else if op & 0xF000 == 0x1000 {
        Instruction::Jump(nnn)
    } else if op & 0xF000 == 0x2000 {
        Instruction::Call(nnn)
    } else if op & 0xF000 == 0x3000 {
        Instruction::SkipEqImm(x, kk)
    } else if op & 0xF000 == 0x4000 {
        Instruction::SkipNeImm(x, kk)
    } else if op & 0xF00F == 0x5000 {
        Instruction::SkipEqReg(x, y)
    } else if op & 0xF000 == 0x6000 {
        Instruction::LoadImm(x, kk)
    } else if op & 0xF000 == 0x7000 {
        Instruction::AddImm(x, kk)
    } else if op & 0xF00F == 0x8000 {
        Instruction::Move(x, y)
    } else if op & 0xF00F == 0x8001 {
        Instruction::Or(x, y)
    } else if op & 0xF00F == 0x8002 {
        Instruction::And(x, y)
    } else if op & 0xF00F == 0x8003 {
        Instruction::Xor(x, y)
    } else if op & 0xF00F == 0x8004 {
        Instruction::AddReg(x, y)
    } else if op & 0xF00F == 0x8005 {
        Instruction::SubReg(x, y)
    } else if op & 0xF00F == 0x8006 {
        Instruction::ShiftRight(x)
    } else if op & 0xF00F == 0x8007 {
        Instruction::SubN(x, y)
    } else if op & 0xF00F == 0x800E {
        Instruction::ShiftLeft(x)
    } else if op & 0xF00F == 0x9000 {
        Instruction::SkipNeReg(x, y)
    } else if op & 0xF000 == 0xA000 {
        Instruction::SetIndex(nnn)
    } else if op & 0xF000 == 0xB000 {
        Instruction::JumpOffset(nnn)
    } else if op & 0xF000 == 0xC000 {
        Instruction::Random(x, kk)
    } else if op & 0xF000 == 0xD000 {
        Instruction::Draw(x, y, n)
    } else if op & 0xF0FF == 0xE09E {
        Instruction::SkipKeyPressed(x)
    } else if op & 0xF0FF == 0xE0A1 {
        Instruction::SkipKeyNotPressed(x)
    } else if op & 0xF0FF == 0xF007 {
        Instruction::LoadDelay(x)
    } else if op & 0xF0FF == 0xF00A {
        Instruction::WaitKey(x)
    } else if op & 0xF0FF == 0xF015 {
        Instruction::SetDelay(x)
    } else if op & 0xF0FF == 0xF018 {
        Instruction::SetSound(x)
    } else if op & 0xF0FF == 0xF01E {
        Instruction::AddIndex(x)
    } else if op & 0xF0FF == 0xF029 {
        Instruction::LoadGlyph(x)
    } else if op & 0xF0FF == 0xF033 {
        Instruction::StoreBcd(x)
    } else if op & 0xF0FF == 0xF055 {
        Instruction::StoreRegs(x)
    } else if op & 0xF0FF == 0xF065 {
        Instruction::LoadRegs(x)
    } else {
        Instruction::Unknown(op)
    }
}

/// Operands are in range: registers and heights below 16, addresses below 4096.
pub open spec fn operands_in_range(ins: Instruction) -> bool {
    match ins {
        Instruction::Jump(a) | Instruction::Call(a) | Instruction::SetIndex(a)
        | Instruction::JumpOffset(a) => a < MEMORY_SIZE,
        Instruction::SkipEqImm(x, _) | Instruction::SkipNeImm(x, _) | Instruction::LoadImm(x, _)
        | Instruction::AddImm(x, _) | Instruction::Random(x, _) | Instruction::ShiftRight(x)
        | Instruction::ShiftLeft(x) | Instruction::SkipKeyPressed(x)
        | Instruction::SkipKeyNotPressed(x) | Instruction::LoadDelay(x) | Instruction::WaitKey(x)
        | Instruction::SetDelay(x) | Instruction::SetSound(x) | Instruction::AddIndex(x)
        | Instruction::LoadGlyph(x) | Instruction::StoreBcd(x) | Instruction::StoreRegs(x)
        | Instruction::LoadRegs(x) => x < REGISTERS_NUM,
        Instruction::SkipEqReg(x, y) | Instruction::Move(x, y) | Instruction::Or(x, y)
        | Instruction::And(x, y) | Instruction::Xor(x, y) | Instruction::AddReg(x, y)
        | Instruction::SubReg(x, y) | Instruction::SubN(x, y) | Instruction::SkipNeReg(x, y) => x
            < REGISTERS_NUM && y < REGISTERS_NUM,
        Instruction::Draw(x, y, n) => x < REGISTERS_NUM && y < REGISTERS_NUM && n < 16,
        _ => true,
    }
}

/// Whether column `col` (0 is the most significant bit) of a sprite row is set.
pub open spec fn sprite_bit(row: u8, col: int) -> bool {
    row & (0x80u8 >> (col as u8)) != 0
}

/// Sprite row that lands on framebuffer row `r` when drawing at `y`, wrapping around.
pub open spec fn sprite_row_at(y: u8, r: int) -> int {
    (r + VIDEO_HEIGHT - (y as int) % (VIDEO_HEIGHT as int)) % (VIDEO_HEIGHT as int)
}

/// Sprite column that lands on framebuffer column `c` when drawing at `x`, wrapping around.
pub open spec fn sprite_col_at(x: u8, c: int) -> int {
    (c + VIDEO_WIDTH - (x as int) % (VIDEO_WIDTH as int)) % (VIDEO_WIDTH as int)
}

/// Whether a set bit of `sprite`, drawn at `(x, y)`, lands on cell `k`.
pub open spec fn sprite_hits(sprite: Seq<u8>, x: u8, y: u8, k: int) -> bool {
    let r = sprite_row_at(y, k / VIDEO_WIDTH as int);
    let c = sprite_col_at(x, k % VIDEO_WIDTH as int);
    r < sprite.len() && c < 8 && sprite_bit(sprite[r], c)
}

/// `video` with every cell that `sprite`, drawn at `(x, y)`, lands on toggled.
pub open spec fn drawn(video: Seq<u32>, x: u8, y: u8, sprite: Seq<u8>) -> Seq<u32> {
    Seq::new(
        video.len(),
        |k: int|
            if sprite_hits(sprite, x, y, k) {
                video[k] ^ PIXEL_ON
            } else {
                video[k]
            },
    )
}

/// Whether drawing `sprite` at `(x, y)` turns off a cell that was on.
pub open spec fn collides(video: Seq<u32>, x: u8, y: u8, sprite: Seq<u8>) -> bool {
    exists|k: int| 0 <= k < video.len() && #[trigger] sprite_hits(sprite, x, y, k) && video[k] == PIXEL_ON
}

/// Program counter moved past the next instruction when `cond` holds.
pub open spec fn skip_if(s: MachineState, cond: bool) -> MachineState {
    if cond {
        MachineState { pc: (s.pc + 2) as u16, ..s }
    } else {
        s
    }
}

/// Effect of executing `ins` once the program counter has moved past it; `rnd` is the
/// random byte that `Cxkk` uses.
pub open spec fn execute(s: MachineState, ins: Instruction, rnd: u8) -> Result<MachineState, Fault> {
    let regs = s.registers;
    match ins {
        Instruction::Clear => Ok(MachineState { video: blank(VIDEO_SIZE as nat), ..s }),
        Instruction::Return => if s.stack.len() == 0 {
            Err(Fault::StackUnderflow)
        } else {
            Ok(MachineState { pc: s.stack.last(), stack: s.stack.drop_last(), ..s })
        },
        Instruction::Jump(a) => Ok(MachineState { pc: a, ..s }),
        Instruction::Call(a) => if s.stack.len() >= STACK_SIZE {
            Err(Fault::StackOverflow)
        } else {
            Ok(MachineState { pc: a, stack: s.stack.push(s.pc), ..s })
        },
        Instruction::SkipEqImm(x, kk) => Ok(skip_if(s, regs[x as int] == kk)),
        Instruction::SkipNeImm(x, kk) => Ok(skip_if(s, regs[x as int] != kk)),
        Instruction::SkipEqReg(x, y) => Ok(skip_if(s, regs[x as int] == regs[y as int])),
        Instruction::LoadImm(x, kk) => Ok(MachineState { registers: regs.update(x as int, kk), ..s }),
        Instruction::AddImm(x, kk) => Ok(
            MachineState { registers: regs.update(x as int, wrapped_add(regs[x as int], kk)), ..s },
        ),
        Instruction::Move(x, y) => Ok(
            MachineState { registers: regs.update(x as int, regs[y as int]), ..s },
        ),
        Instruction::Or(x, y) => Ok(
            MachineState { registers: regs.update(x as int, regs[x as int] | regs[y as int]), ..s },
        ),
        Instruction::And(x, y) => Ok(
            MachineState { registers: regs.update(x as int, regs[x as int] & regs[y as int]), ..s },
        ),
        Instruction::Xor(x, y) => Ok(
            MachineState { registers: regs.update(x as int, regs[x as int] ^ regs[y as int]), ..s },
        ),
        Instruction::AddReg(x, y) => Ok(
            MachineState {
                registers: with_flag_then(
                    regs,
                    carry(regs[x as int], regs[y as int]),
                    x,
                    wrapped_add(regs[x as int], regs[y as int]),
                ),
                ..s
            },
        ),
        Instruction::SubReg(x, y) => Ok(
            MachineState {
                registers: with_flag_then(
                    regs,
                    no_borrow(regs[x as int], regs[y as int]),
                    x,
                    wrapped_sub(regs[x as int], regs[y as int]),
                ),
                ..s
            },
        ),
        Instruction::ShiftRight(x) => Ok(
            MachineState {
                registers: with_flag_then(regs, regs[x as int] & 1, x, regs[x as int] >> 1),
                ..s
            },
        ),
        Instruction::SubN(x, y) => Ok(
            MachineState {
                registers: with_flag_then(
                    regs,
                    no_borrow(regs[y as int], regs[x as int]),
                    x,
                    wrapped_sub(regs[y as int], regs[x as int]),
                ),
                ..s
            },
        ),
        Instruction::ShiftLeft(x) => Ok(
            MachineState {
                registers: with_flag_then(
                    regs,
                    regs[x as int] >> 7,
                    x,
                    ((regs[x as int] * 2) % 256) as u8,
                ),
                ..s
            },
        ),
        Instruction::SkipNeReg(x, y) => Ok(skip_if(s, regs[x as int] != regs[y as int])),
        Instruction::SetIndex(a) => Ok(MachineState { index: a, ..s }),
        Instruction::JumpOffset(a) => Ok(MachineState { pc: (regs[0] + a) as u16, ..s }),
        Instruction::Random(x, kk) => Ok(
            MachineState { registers: regs.update(x as int, rnd & kk), ..s },
        ),
        Instruction::Draw(x, y, n) => if s.index + n > MEMORY_SIZE {
            Err(Fault::OutOfBounds)
        } else {
            let sprite = s.memory.subrange(s.index as int, s.index + n);
            let vx = regs[x as int];
            let vy = regs[y as int];
            let flag: u8 = if collides(s.video, vx, vy, sprite) { 1 } else { 0 };
            Ok(
                MachineState {
                    video: drawn(s.video, vx, vy, sprite),
                    registers: regs.update(FLAG_REGISTER as int, flag),
                    ..s
                },
            )
        },
        Instruction::SkipKeyPressed(x) => if regs[x as int] >= KEYS_NUM {
            Err(Fault::OutOfBounds)
        } else {
            Ok(skip_if(s, s.keys[regs[x as int] as int]))
        },
        Instruction::SkipKeyNotPressed(x) => if regs[x as int] >= KEYS_NUM {
            Err(Fault::OutOfBounds)
        } else {
            Ok(skip_if(s, !s.keys[regs[x as int] as int]))
        },
        Instruction::LoadDelay(x) => Ok(
            MachineState { registers: regs.update(x as int, s.delay_timer), ..s },
        ),
        Instruction::WaitKey(x) => match lowest_pressed(s.keys) {
            Some(k) => Ok(MachineState { registers: regs.update(x as int, k as u8), ..s }),
            None => Ok(MachineState { pc: (s.pc - 2) as u16, ..s }),
        },
        Instruction::SetDelay(x) => Ok(MachineState { delay_timer: regs[x as int], ..s }),
        Instruction::SetSound(x) => Ok(MachineState { sound_timer: regs[x as int], ..s }),
        Instruction::AddIndex(x) => Ok(
            MachineState { index: ((s.index + regs[x as int]) % 0x10000) as u16, ..s },
        ),
        Instruction::LoadGlyph(x) => Ok(MachineState { index: glyph_address(regs[x as int]), ..s }),
        Instruction::StoreBcd(x) => if s.index + 2 >= MEMORY_SIZE {
            Err(Fault::OutOfBounds)
        } else {
            Ok(
                MachineState {
                    memory: with_decimal_digits(s.memory, s.index as int, regs[x as int]),
                    ..s
                },
            )
        },
        Instruction::StoreRegs(x) => if s.index + x + 1 > MEMORY_SIZE {
            Err(Fault::OutOfBounds)
        } else {
            Ok(
                MachineState {
                    memory: overwrite(s.memory, s.index as int, regs.subrange(0, x + 1)),
                    ..s
                },
            )
        },
        Instruction::LoadRegs(x) => if s.index + x + 1 > MEMORY_SIZE {
            Err(Fault::OutOfBounds)
        } else {
            Ok(
                MachineState {
                    registers: s.memory.subrange(s.index as int, s.index + x + 1) + regs.subrange(
                        x + 1,
                        REGISTERS_NUM as int,
                    ),
                    ..s
                },
            )
        },
        Instruction::Unknown(_) => Ok(s),
    }
}

/// Both timers moved one step towards zero.
pub open spec fn tick(s: MachineState) -> MachineState {
    MachineState {
        delay_timer: if s.delay_timer > 0 { (s.delay_timer - 1) as u8 } else { 0 },
        sound_timer: if s.sound_timer > 0 { (s.sound_timer - 1) as u8 } else { 0 },
        ..s
    }
}

/// One fetch-decode-execute cycle from `s`, with `rnd` as the random byte: the state
/// after it and what it reports. A fault leaves the state as it was.
pub open spec fn cycle_spec(s: MachineState, rnd: u8) -> (MachineState, Result<Outcome, Fault>) {
    if s.pc + 1 >= MEMORY_SIZE {
        (s, Err(Fault::OutOfBounds))
    } else {
        let op = word_at(s.memory, s.pc as int);
        let ins = decode_spec(op);
        let fetched = MachineState { pc: (s.pc + 2) as u16, ..s };
        match execute(fetched, ins, rnd) {
            Ok(t) => (
                tick(t),
                Ok(
                    if ins is Unknown {
                        Outcome::Unknown(op)
                    } else {
                        Outcome::Executed
                    },
                ),
            ),
            Err(e) => (s, Err(e)),
        }
    }
}

/// `after` and `r` are what executing `ins` from `before` gives; a fault changes nothing.
pub open spec fn performs(
    before: MachineState,
    ins: Instruction,
    rnd: u8,
    after: MachineState,
    r: Result<(), Fault>,
) -> bool {
    match execute(before, ins, rnd) {
        Ok(t) => r is Ok && after == t,
        Err(e) => r == Err::<(), Fault>(e) && after == before,
    }
}

pub fn decode_fst(n: u16) -> (r: u8)
    ensures
        r == x_of(n),
        r < 16,
{
    proof {
        assert((n & 0x0F00) >> 8u16 < 16) by (bit_vector);
    }
    ((n & 0x0F00) >> 8u16) as u8
}

pub fn decode_snd(n: u16) -> (r: u8)
    ensures
        r == y_of(n),
        r < 16,
{
    proof {
        assert((n & 0x00F0) >> 4u16 < 16) by (bit_vector);
    }
    ((n & 0x00F0) >> 4u16) as u8
}

pub fn decode_thrd(n: u16) -> (r: u8)
    ensures
        r == n_of(n),
        r < 16,
{
    proof {
        assert(n & 0x000F < 16) by (bit_vector);
    }
    (n & 0x000F) as u8
}

pub fn decode_bytes(n: u16) -> (r: u8)
    ensures
        r == kk_of(n),
{
    proof {
        assert(n & 0x00FF < 256) by (bit_vector);
    }
    (n & 0x00FF) as u8
}

pub fn decode_all(n: u16) -> (r: u16)
    ensures
        r == nnn_of(n),
        r < MEMORY_SIZE,
{
    proof {
        assert(n & 0x0FFF < 4096) by (bit_vector);
    }
    n & 0x0FFF
}

/// Decodes an instruction word.
pub fn decode(op: u16) -> (r: Instruction)
    ensures
        r == decode_spec(op),
        operands_in_range(r),
{
    let x = decode_fst(op);
    let y = decode_snd(op);
    let n = decode_thrd(op);
    let kk = decode_bytes(op);
    let nnn = decode_all(op);
    if op == 0x00E0 {
        Instruction::Clear
    } else if op == 0x00EE {
        Instruction::Return
    } else if op & 0xF000 == 0x1000 {
        Instruction::Jump(nnn)
    } else if op & 0xF000 == 0x2000 {
        Instruction::Call(nnn)
    } else if op & 0xF000 == 0x3000 {
        Instruction::SkipEqImm(x, kk)
    } else if op & 0xF000 == 0x4000 {
        Instruction::SkipNeImm(x, kk)
    } else if op & 0xF00F == 0x5000 {
        Instruction::SkipEqReg(x, y)
    } else if op & 0xF000 == 0x6000 {
        Instruction::LoadImm(x, kk)
    } else if op & 0xF000 == 0x7000 {
        Instruction::AddImm(x, kk)
    } else if op & 0xF00F == 0x8000 {
        Instruction::Move(x, y)
    } else if op & 0xF00F == 0x8001 {
        Instruction::Or(x, y)
    } else if op & 0xF00F == 0x8002 {
        Instruction::And(x, y)
    } else if op & 0xF00F == 0x8003 {
        Instruction::Xor(x, y)
    } else if op & 0xF00F == 0x8004 {
        Instruction::AddReg(x, y)
    } else if op & 0xF00F == 0x8005 {
        Instruction::SubReg(x, y)
    } else if op & 0xF00F == 0x8006 {
        Instruction::ShiftRight(x)
    } else if op & 0xF00F == 0x8007 {
        Instruction::SubN(x, y)
    } else if op & 0xF00F == 0x800E {
        Instruction::ShiftLeft(x)
    } else if op & 0xF00F == 0x9000 {
        Instruction::SkipNeReg(x, y)
    } else if op & 0xF000 == 0xA000 {
        Instruction::SetIndex(nnn)
    } else if op & 0xF000 == 0xB000 {
        Instruction::JumpOffset(nnn)
    } else if op & 0xF000 == 0xC000 {
        Instruction::Random(x, kk)
    } else if op & 0xF000 == 0xD000 {
        Instruction::Draw(x, y, n)
    } else if op & 0xF0FF == 0xE09E {
        Instruction::SkipKeyPressed(x)
    } else if op & 0xF0FF == 0xE0A1 {
        Instruction::SkipKeyNotPressed(x)
    } else if op & 0xF0FF == 0xF007 {
        Instruction::LoadDelay(x)
    } else if op & 0xF0FF == 0xF00A {
        Instruction::WaitKey(x)
    } else if op & 0xF0FF == 0xF015 {
        Instruction::SetDelay(x)
    } else if op & 0xF0FF == 0xF018 {
        Instruction::SetSound(x)
    } else if op & 0xF0FF == 0xF01E {
        Instruction::AddIndex(x)
    } else if op & 0xF0FF == 0xF029 {
        Instruction::LoadGlyph(x)
    } else if op & 0xF0FF == 0xF033 {
        Instruction::StoreBcd(x)
    } else if op & 0xF0FF == 0xF055 {
        Instruction::StoreRegs(x)
    } else if op & 0xF0FF == 0xF065 {
        Instruction::LoadRegs(x)
    } else {
        Instruction::Unknown(op)
    }
}

} // verus!
