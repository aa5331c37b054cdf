use vstd::prelude::*;

verus! {

/// Number of general-purpose registers.
pub const REGISTERS_NUM: usize = 16;

/// Index of the register `VF`, which doubles as the carry, borrow and collision flag.
pub const FLAG_REGISTER: u8 = 15;

/// The sixteen 8-bit general-purpose registers `V0`..`VF`.
pub struct Registers {
    regs: [u8; REGISTERS_NUM],
}

impl View for Registers {
    type V = Seq<u8>;

    closed spec fn view(&self) -> Seq<u8> {
        self.regs@
    }
}

/// Register file after an operation that first writes `flag` into `VF` and then
/// writes `value` into register `reg`.
pub open spec fn with_flag_then(regs: Seq<u8>, flag: u8, reg: u8, value: u8) -> Seq<u8> {
    regs.update(FLAG_REGISTER as int, flag).update(reg as int, value)
}

/// Carry of `a + b`: 1 when the sum does not fit in a byte.
pub open spec fn carry(a: u8, b: u8) -> u8 {
    if a + b > 255 { 1 } else { 0 }
}

/// No-borrow flag of `a - b`: 1 when `a` is strictly greater than `b`.
pub open spec fn no_borrow(a: u8, b: u8) -> u8 {
    if a > b { 1 } else { 0 }
}

/// `a + b` modulo 256.
pub open spec fn wrapped_add(a: u8, b: u8) -> u8 {
    ((a + b) % 256) as u8
}

/// `a - b` modulo 256.
pub open spec fn wrapped_sub(a: u8, b: u8) -> u8 {
    ((a - b + 256) % 256) as u8
}

impl Registers {
    pub fn new() -> (r: Registers)
        ensures
            r@ == Seq::new(REGISTERS_NUM as nat, |i: int| 0u8),
    {
        let r = Registers { regs: [0u8; REGISTERS_NUM] };
        assert(r@ =~= Seq::new(REGISTERS_NUM as nat, |i: int| 0u8));
        r
    }

    pub fn read(&self, n: u8) -> (r: u8)
        requires
            n < REGISTERS_NUM,
        ensures
            r == self@[n as int],
    {
        self.regs[n as usize]
    }

    pub fn set(&mut self, i: u8, n: u8)
        requires
            i < REGISTERS_NUM,
        ensures
            final(self)@ == old(self)@.update(i as int, n),
    {
        self.regs[i as usize] = n;
    }

    /// `V[lhs] += V[rhs]` modulo 256, with the carry in `VF`.
    pub fn add_inplace(&mut self, lhs: u8, rhs: u8)
        requires
            lhs < REGISTERS_NUM,
            rhs < REGISTERS_NUM,
        ensures
            final(self)@ == with_flag_then(
                old(self)@,
                carry(old(self)@[lhs as int], old(self)@[rhs as int]),
                lhs,
                wrapped_add(old(self)@[lhs as int], old(self)@[rhs as int]),
            ),
    {
        let sum: u16 = self.regs[lhs as usize] as u16 + self.regs[rhs as usize] as u16;
        if sum > u8::MAX as u16 {
            self.vx_set(1);
        } else {
            self.vx_set(0);
        }
        self.regs[lhs as usize] = (sum & 0xFF) as u8;
        proof {
            assert(sum & 0xFF == sum % 256) by (bit_vector);
        }
    }

    /// `V[lhs] -= V[rhs]` modulo 256, with the no-borrow flag in `VF`.
    pub fn sub_inplace(&mut self, lhs: u8, rhs: u8)
        requires
            lhs < REGISTERS_NUM,
            rhs < REGISTERS_NUM,
        ensures
            final(self)@ == with_flag_then(
                old(self)@,
                no_borrow(old(self)@[lhs as int], old(self)@[rhs as int]),
                lhs,
                wrapped_sub(old(self)@[lhs as int], old(self)@[rhs as int]),
            ),
    {
        let vx = self.regs[lhs as usize];
        let vy = self.regs[rhs as usize];
        if vx > vy {
            self.vx_set(1);
        } else {
            self.vx_set(0);
        }
        self.regs[lhs as usize] = vx.wrapping_sub(vy);
    }

    pub fn or(&self, reg_1: u8, reg_2: u8) -> (r: u8)
        requires
            reg_1 < REGISTERS_NUM,
            reg_2 < REGISTERS_NUM,
        ensures
            r == self@[reg_1 as int] | self@[reg_2 as int],
    {
        self.regs[reg_1 as usize] | self.regs[reg_2 as usize]
    }

    pub fn and(&self, reg_1: u8, reg_2: u8) -> (r: u8)
        requires
            reg_1 < REGISTERS_NUM,
            reg_2 < REGISTERS_NUM,
        ensures
            r == self@[reg_1 as int] & self@[reg_2 as int],
    {
        self.regs[reg_1 as usize] & self.regs[reg_2 as usize]
    }

    pub fn xor(&self, reg_1: u8, reg_2: u8) -> (r: u8)
        requires
            reg_1 < REGISTERS_NUM,
            reg_2 < REGISTERS_NUM,
        ensures
            r == self@[reg_1 as int] ^ self@[reg_2 as int],
    {
        self.regs[reg_1 as usize] ^ self.regs[reg_2 as usize]
    }

    /// Logical shift right by one; the bit shifted out goes to `VF`.
    pub fn shitf_right_inplace(&mut self, reg: u8)
        requires
            reg < REGISTERS_NUM,
        ensures
            final(self)@ == with_flag_then(
                old(self)@,
                old(self)@[reg as int] & 1,
                reg,
                old(self)@[reg as int] >> 1,
            ),
    {
        let v = self.regs[reg as usize];
        self.vx_set(v & 0x1);
        self.regs[reg as usize] = v >> 1;
    }

    /// `V[reg_1] = V[reg_2] - V[reg_1]` modulo 256, with the no-borrow flag in `VF`.
    pub fn sub_n(&mut self, reg_1: u8, reg_2: u8)
        requires
            reg_1 < REGISTERS_NUM,
            reg_2 < REGISTERS_NUM,
        ensures
            final(self)@ == with_flag_then(
                old(self)@,
                no_borrow(old(self)@[reg_2 as int], old(self)@[reg_1 as int]),
                reg_1,
                wrapped_sub(old(self)@[reg_2 as int], old(self)@[reg_1 as int]),
            ),
    {
        let vx = self.regs[reg_1 as usize];
        let vy = self.regs[reg_2 as usize];
        if vy > vx {
            self.vx_set(1);
        } else {
            self.vx_set(0);
        }
        self.regs[reg_1 as usize] = vy.wrapping_sub(vx);
    }

    /// Logical shift left by one, dropping bit 7; the bit shifted out goes to `VF`.
    pub fn shift_left_inplace(&mut self, reg: u8)
        requires
            reg < REGISTERS_NUM,
        ensures
            final(self)@ == with_flag_then(
                old(self)@,
                old(self)@[reg as int] >> 7,
                reg,
                ((old(self)@[reg as int] * 2) % 256) as u8,
            ),
    {
        let v = self.regs[reg as usize];
        self.vx_set((v & 0x80) >> 7);
        self.regs[reg as usize] = v << 1;
        proof {
            assert((v & 0x80) >> 7 == v >> 7) by (bit_vector);
            assert(v << 1 == ((v * 2) % 256) as u8) by (bit_vector);
        }
    }

    /// Writes `val` into the flag register `VF`.
    pub fn vx_set(&mut self, val: u8)
        ensures
            final(self)@ == old(self)@.update(FLAG_REGISTER as int, val),
    {
        self.regs[FLAG_REGISTER as usize] = val;
    }

    /// Registers `from` up to, not including, `to`.
    pub fn slice(&self, from: usize, to: usize) -> (r: &[u8])
        requires
            from <= to <= REGISTERS_NUM,
        ensures
            r@ == self@.subrange(from as int, to as int),
    {
        vstd::slice::slice_subrange(self.regs.as_slice(), from, to)
    }

    /// Overwrites registers `0..src.len()` with `src`.
    pub fn copy_from(&mut self, src: &[u8])
        requires
            src@.len() <= REGISTERS_NUM,
        ensures
            final(self)@ == src@ + old(self)@.subrange(src@.len() as int, REGISTERS_NUM as int),
    {
        let n = src.len();
        let mut i: usize = 0;
        while i < n
            invariant
                n == src@.len() <= REGISTERS_NUM,
                i <= n,
                self@.len() == REGISTERS_NUM,
                forall|j: int| 0 <= j < i ==> self@[j] == src@[j],
                forall|j: int| i <= j < REGISTERS_NUM ==> self@[j] == old(self)@[j],
            decreases n - i,
        {
            self.regs[i] = src[i];
            i += 1;
        }
        assert(self@ =~= src@ + old(self)@.subrange(n as int, REGISTERS_NUM as int));
    }
}

} // verus!
