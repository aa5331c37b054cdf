use vstd::prelude::*;
use crate::fault::Fault;
use crate::keypad::lowest_pressed;
use crate::memory::{word_at, MEMORY_SIZE};
use crate::registers::FLAG_REGISTER;
use crate::semantics::{
    collides, cycle_spec, drawn, execute, kk_of, n_of, nnn_of, sprite_hits, wf_state, x_of, y_of,
    Instruction, MachineState, Outcome,
};
use crate::stack::STACK_SIZE;
use crate::video::{blank, PIXEL_OFF, PIXEL_ON, VIDEO_SIZE};

verus! {

/// The fields of a word built from a category nibble `c` and nibbles `x`, `y`, `n`.
pub proof fn lemma_word_fields(op: u16, c: u16, x: u16, y: u16, n: u16)
    by (bit_vector)
    requires
        c < 16,
        x < 16,
        y < 16,
        n < 16,
        op == c * 4096 + x * 256 + y * 16 + n,
    ensures
        op & 0xF000 == c * 4096,
        op & 0xF00F == c * 4096 + n,
        op & 0xF0FF == c * 4096 + y * 16 + n,
        x_of(op) == x,
        y_of(op) == y,
        n_of(op) == n,
        kk_of(op) == y * 16 + n,
        nnn_of(op) == x * 256 + y * 16 + n,
{
}

proof fn lemma_word_with_byte(op: u16, c: u16, x: u8, kk: u8)
    requires
        c < 16,
        x < 16,
        op == c * 4096 + x * 256 + kk,
    ensures
        op & 0xF000 == c * 4096,
        op & 0xF00F == c * 4096 + kk % 16,
        op & 0xF0FF == c * 4096 + kk,
        x_of(op) == x,
        kk_of(op) == kk,
        op != 0x00E0 || c == 0,
        op != 0x00EE || c == 0,
{
    lemma_word_fields(op, c, x as u16, (kk / 16) as u16, (kk % 16) as u16);
}

proof fn lemma_word_with_address(op: u16, c: u16, a: u16)
    requires
        c < 16,
        a < 4096,
        op == c * 4096 + a,
    ensures
        op & 0xF000 == c * 4096,
        nnn_of(op) == a,
{
    lemma_word_fields(op, c, a / 256, (a / 16) % 16, a % 16);
}

/// Executing `6xkk` leaves `kk` in register `x`.
pub proof fn lemma_load_immediate(s: MachineState, b: u8, x: u8, kk: u8)
    requires
        wf_state(s),
        x < 16,
        s.pc + 1 < MEMORY_SIZE,
        word_at(s.memory, s.pc as int) == 0x6000 + x * 0x100 + kk,
    ensures
        cycle_spec(s, b).1 == Ok::<Outcome, Fault>(Outcome::Executed),
        cycle_spec(s, b).0.registers[x as int] == kk,
{
    lemma_word_with_byte(word_at(s.memory, s.pc as int), 6, x, kk);
}

/// Executing `7xkk` adds `kk` to register `x` modulo 256 and leaves every other
/// register, `VF` included, as it was.
pub proof fn lemma_add_immediate(s: MachineState, b: u8, x: u8, kk: u8)
    requires
        wf_state(s),
        x < 16,
        s.pc + 1 < MEMORY_SIZE,
        word_at(s.memory, s.pc as int) == 0x7000 + x * 0x100 + kk,
    ensures
        cycle_spec(s, b).1 == Ok::<Outcome, Fault>(Outcome::Executed),
        cycle_spec(s, b).0.registers[x as int] == (s.registers[x as int] + kk) % 256,
        forall|j: int|
            0 <= j < 16 && j != x ==> #[trigger] cycle_spec(s, b).0.registers[j] == s.registers[j],
{
    lemma_word_with_byte(word_at(s.memory, s.pc as int), 7, x, kk);
}

/// `3xkk` skips the next instruction exactly when `Vx == kk`.
pub proof fn lemma_skip_if_equal_immediate(s: MachineState, b: u8, x: u8, kk: u8)
    requires
        wf_state(s),
        x < 16,
        s.pc + 1 < MEMORY_SIZE,
        word_at(s.memory, s.pc as int) == 0x3000 + x * 0x100 + kk,
    ensures
        cycle_spec(s, b).1 == Ok::<Outcome, Fault>(Outcome::Executed),
        cycle_spec(s, b).0.pc == if s.registers[x as int] == kk {
            s.pc + 4
        } else {
            s.pc + 2
        },
{
    lemma_word_with_byte(word_at(s.memory, s.pc as int), 3, x, kk);
}

/// `4xkk` skips the next instruction exactly when `Vx != kk`.
pub proof fn lemma_skip_if_not_equal_immediate(s: MachineState, b: u8, x: u8, kk: u8)
    requires
        wf_state(s),
        x < 16,
        s.pc + 1 < MEMORY_SIZE,
        word_at(s.memory, s.pc as int) == 0x4000 + x * 0x100 + kk,
    ensures
        cycle_spec(s, b).1 == Ok::<Outcome, Fault>(Outcome::Executed),
        cycle_spec(s, b).0.pc == if s.registers[x as int] != kk {
            s.pc + 4
        } else {
            s.pc + 2
        },
{
    lemma_word_with_byte(word_at(s.memory, s.pc as int), 4, x, kk);
}

/// `5xy0` skips the next instruction exactly when `Vx == Vy`.
pub proof fn lemma_skip_if_equal_registers(s: MachineState, b: u8, x: u8, y: u8)
    requires
        wf_state(s),
        x < 16,
        y < 16,
        s.pc + 1 < MEMORY_SIZE,
        word_at(s.memory, s.pc as int) == 0x5000 + x * 0x100 + y * 0x10,
    ensures
        cycle_spec(s, b).1 == Ok::<Outcome, Fault>(Outcome::Executed),
        cycle_spec(s, b).0.pc == if s.registers[x as int] == s.registers[y as int] {
            s.pc + 4
        } else {
            s.pc + 2
        },
{
    lemma_word_fields(word_at(s.memory, s.pc as int), 5, x as u16, y as u16, 0);
}

/// `9xy0` skips the next instruction exactly when `Vx != Vy`.
pub proof fn lemma_skip_if_not_equal_registers(s: MachineState, b: u8, x: u8, y: u8)
    requires
        wf_state(s),
        x < 16,
        y < 16,
        s.pc + 1 < MEMORY_SIZE,
        word_at(s.memory, s.pc as int) == 0x9000 + x * 0x100 + y * 0x10,
    ensures
        cycle_spec(s, b).1 == Ok::<Outcome, Fault>(Outcome::Executed),
        cycle_spec(s, b).0.pc == if s.registers[x as int] != s.registers[y as int] {
            s.pc + 4
        } else {
            s.pc + 2
        },
{
    lemma_word_fields(word_at(s.memory, s.pc as int), 9, x as u16, y as u16, 0);
}

/// A call `2nnn` to a subroutine that starts with `00EE` comes back to the address
/// right after the call, with the stack as it was.
pub proof fn lemma_call_then_return(s: MachineState, b1: u8, b2: u8, nnn: u16)
    requires
        wf_state(s),
        s.pc + 1 < MEMORY_SIZE,
        s.stack.len() < STACK_SIZE,
        nnn + 1 < MEMORY_SIZE,
        word_at(s.memory, s.pc as int) == 0x2000 + nnn,
        word_at(s.memory, nnn as int) == 0x00EE,
    ensures
        cycle_spec(s, b1).1 == Ok::<Outcome, Fault>(Outcome::Executed),
        cycle_spec(s, b1).0.pc == nnn,
        cycle_spec(cycle_spec(s, b1).0, b2).1 == Ok::<Outcome, Fault>(Outcome::Executed),
        cycle_spec(cycle_spec(s, b1).0, b2).0.pc == s.pc + 2,
        cycle_spec(cycle_spec(s, b1).0, b2).0.stack == s.stack,
{
    lemma_word_with_address(word_at(s.memory, s.pc as int), 2, nnn);
    let t = cycle_spec(s, b1).0;
    assert(t.stack.drop_last() =~= s.stack);
}

/// `Fx55` followed by `Fx65` with the same `x` and index register leaves registers
/// `0..=x`, and every other register, unchanged.
pub proof fn lemma_store_then_load_registers(s: MachineState, x: u8)
    requires
        wf_state(s),
        x < 16,
        s.index + x + 1 <= MEMORY_SIZE,
    ensures
        execute(s, Instruction::StoreRegs(x), 0) is Ok,
        execute(execute(s, Instruction::StoreRegs(x), 0)->Ok_0, Instruction::LoadRegs(x), 0) is Ok,
        execute(
            execute(s, Instruction::StoreRegs(x), 0)->Ok_0,
            Instruction::LoadRegs(x),
            0,
        )->Ok_0.registers == s.registers,
{
    let t = execute(s, Instruction::StoreRegs(x), 0)->Ok_0;
    let u = execute(t, Instruction::LoadRegs(x), 0)->Ok_0;
    assert(u.registers =~= s.registers);
}

proof fn lemma_toggle_twice(a: u32)
    by (bit_vector)
    ensures
        (a ^ PIXEL_ON) ^ PIXEL_ON == a,
        a == PIXEL_OFF ==> a ^ PIXEL_ON == PIXEL_ON,
        a == PIXEL_ON ==> a ^ PIXEL_ON == PIXEL_OFF,
{
}

/// Drawing the same sprite twice at the same place with `Dxyn` gives back the framebuffer
/// as it was. The first draw reports a collision when the sprite meets a lit cell; the
/// second exactly when it meets a cell that was dark before the first, so from a blank
/// screen the first reports none and the second reports one when the sprite has a set bit.
pub proof fn lemma_draw_twice(s: MachineState, x: u8, y: u8, n: u8)
    requires
        wf_state(s),
        x < 16,
        y < 16,
        x != FLAG_REGISTER,
        y != FLAG_REGISTER,
        n < 16,
        s.index + n <= MEMORY_SIZE,
    ensures
        ({
            let sprite = s.memory.subrange(s.index as int, s.index + n);
            let vx = s.registers[x as int];
            let vy = s.registers[y as int];
            let t = execute(s, Instruction::Draw(x, y, n), 0);
            let u = execute(t->Ok_0, Instruction::Draw(x, y, n), 0);
            &&& t is Ok
            &&& u is Ok
            &&& u->Ok_0.video == s.video
            &&& t->Ok_0.registers[FLAG_REGISTER as int] == 1 <==> collides(s.video, vx, vy, sprite)
            &&& u->Ok_0.registers[FLAG_REGISTER as int] == 1 <==> exists|k: int|
                0 <= k < VIDEO_SIZE && #[trigger] sprite_hits(sprite, vx, vy, k) && s.video[k]
                    == PIXEL_OFF
            &&& s.video == blank(VIDEO_SIZE as nat) ==> t->Ok_0.registers[FLAG_REGISTER as int]
                == 0
            &&& s.video == blank(VIDEO_SIZE as nat) ==> (u->Ok_0.registers[FLAG_REGISTER as int]
                == 1 <==> exists|k: int| 0 <= k < VIDEO_SIZE && #[trigger] sprite_hits(sprite, vx, vy, k))
        }),
{
    let sprite = s.memory.subrange(s.index as int, s.index + n);
    let vx = s.registers[x as int];
    let vy = s.registers[y as int];
    let t = execute(s, Instruction::Draw(x, y, n), 0)->Ok_0;
    let u = execute(t, Instruction::Draw(x, y, n), 0)->Ok_0;
    assert(t.registers[x as int] == vx);
    assert(t.registers[y as int] == vy);
    assert forall|k: int| 0 <= k < VIDEO_SIZE implies #[trigger] u.video[k] == s.video[k] by {
        lemma_toggle_twice(s.video[k]);
    }
    assert(u.video =~= s.video);
    let once = drawn(s.video, vx, vy, sprite);
    if collides(once, vx, vy, sprite) {
        let k = choose|k: int|
            0 <= k < once.len() && #[trigger] sprite_hits(sprite, vx, vy, k) && once[k] == PIXEL_ON;
        lemma_toggle_twice(s.video[k]);
        assert(s.video[k] == PIXEL_OFF || s.video[k] == PIXEL_ON);
    }
    if exists|k: int|
        0 <= k < VIDEO_SIZE && #[trigger] sprite_hits(sprite, vx, vy, k) && s.video[k] == PIXEL_OFF {
        let k = choose|k: int|
            0 <= k < VIDEO_SIZE && #[trigger] sprite_hits(sprite, vx, vy, k) && s.video[k]
                == PIXEL_OFF;
        lemma_toggle_twice(s.video[k]);
        assert(once[k] == PIXEL_ON);
    }
    if s.video == blank(VIDEO_SIZE as nat) {
        if collides(s.video, vx, vy, sprite) {
            let k = choose|k: int|
                0 <= k < s.video.len() && #[trigger] sprite_hits(sprite, vx, vy, k) && s.video[k]
                    == PIXEL_ON;
            assert(s.video[k] == PIXEL_OFF);
        }
    }
}

/// `Fx0A` with no key pressed leaves the program counter on itself, so the next cycle
/// runs it again on the same memory and keys; with a key pressed it stores the lowest
/// pressed key in `Vx` and moves on.
pub proof fn lemma_wait_for_key(s: MachineState, b: u8, x: u8)
    requires
        wf_state(s),
        x < 16,
        s.pc + 1 < MEMORY_SIZE,
        word_at(s.memory, s.pc as int) == 0xF00A + x * 0x100,
    ensures
        cycle_spec(s, b).1 == Ok::<Outcome, Fault>(Outcome::Executed),
        wf_state(cycle_spec(s, b).0),
        cycle_spec(s, b).0.memory == s.memory,
        cycle_spec(s, b).0.keys == s.keys,
        lowest_pressed(s.keys) is None ==> cycle_spec(s, b).0.pc == s.pc
            && cycle_spec(s, b).0.registers == s.registers,
        lowest_pressed(s.keys) matches Some(k) ==> cycle_spec(s, b).0.pc == s.pc + 2
            && cycle_spec(s, b).0.registers[x as int] == k,
{
    lemma_word_fields(word_at(s.memory, s.pc as int), 15, x as u16, 0, 10);
    let ks = s.keys;
    if let Some(k) = lowest_pressed(ks) {
        let w = choose|i: int| 0 <= i < ks.len() && ks[i] && forall|j: int| 0 <= j < i ==> !ks[j];
        assert(0 <= w < ks.len() && ks[w]);
    }
}

/// The state after running one cycle for each byte of `rnds`, in order, each byte being
/// the random byte of its cycle; a cycle that faults leaves the state as it was.
pub open spec fn run_cycles(s: MachineState, rnds: Seq<u8>) -> MachineState
    decreases rnds.len(),
{
    if rnds.len() == 0 {
        s
    } else {
        run_cycles(cycle_spec(s, rnds[0]).0, rnds.drop_first())
    }
}

/// While no key is pressed, any number of cycles over `Fx0A` keep the program counter on
/// it and leave memory, keys and registers as they were.
pub proof fn lemma_wait_for_key_repeats(s: MachineState, rnds: Seq<u8>, x: u8)
    requires
        wf_state(s),
        x < 16,
        s.pc + 1 < MEMORY_SIZE,
        word_at(s.memory, s.pc as int) == 0xF00A + x * 0x100,
        lowest_pressed(s.keys) is None,
    ensures
        wf_state(run_cycles(s, rnds)),
        run_cycles(s, rnds).pc == s.pc,
        run_cycles(s, rnds).memory == s.memory,
        run_cycles(s, rnds).keys == s.keys,
        run_cycles(s, rnds).registers == s.registers,
    decreases rnds.len(),
{
    if rnds.len() > 0 {
        lemma_wait_for_key(s, rnds[0], x);
        lemma_wait_for_key_repeats(cycle_spec(s, rnds[0]).0, rnds.drop_first(), x);
    }
}

} // verus!
