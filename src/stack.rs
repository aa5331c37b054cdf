use vstd::prelude::*;

verus! {

/// Maximum number of return addresses the call stack holds.
pub const STACK_SIZE: usize = 16;

/// Fixed-depth stack of return addresses.
pub struct Stack {
    buf: [u16; STACK_SIZE],
    sp: usize,
}

impl Stack {
    #[verifier::type_invariant]
    spec fn inv(&self) -> bool {
        self.sp <= STACK_SIZE
    }
}

impl View for Stack {
    type V = Seq<u16>;

    /// The live return addresses, oldest first.
    closed spec fn view(&self) -> Seq<u16> {
        self.buf@.subrange(0, self.sp as int)
    }
}

impl Stack {
    pub fn new() -> (r: Stack)
        ensures
            r@ == Seq::<u16>::empty(),
    {
        let r = Stack { buf: [0u16; STACK_SIZE], sp: 0usize };
        assert(r@ =~= Seq::<u16>::empty());
        r
    }

    /// Number of addresses on the stack.
    pub fn depth(&self) -> (r: usize)
        ensures
            r == self@.len(),
            r <= STACK_SIZE,
    {
        proof {
            use_type_invariant(self);
        }
        self.sp
    }

    /// The most recently pushed address.
    pub fn top(&self) -> (r: u16)
        requires
            self@.len() > 0,
        ensures
            r == self@.last(),
    {
        proof {
            use_type_invariant(self);
        }
        self.buf[self.sp - 1]
    }

    pub fn push(&mut self, address: u16)
        requires
            old(self)@.len() < STACK_SIZE,
        ensures
            final(self)@ == old(self)@.push(address),
    {
        proof {
            use_type_invariant(&*self);
        }
        self.buf[self.sp] = address;
        self.sp += 1;
        assert(self@ =~= old(self)@.push(address));
    }

    pub fn pop(&mut self) -> (r: u16)
        requires
            old(self)@.len() > 0,
        ensures
            r == old(self)@.last(),
            final(self)@ == old(self)@.drop_last(),
    {
        proof {
            use_type_invariant(&*self);
        }
        let v = self.top();
        self.sp -= 1;
        assert(self@ =~= old(self)@.drop_last());
        v
    }
}

} // verus!
