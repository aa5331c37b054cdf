use vstd::prelude::*;
use rand::rngs::ThreadRng;
use rand::Rng;

verus! {

#[verifier::external_type_specification]
#[verifier::external_body]
pub struct ExThreadRng(ThreadRng);

/// Relies on rand::thread_rng: a handle to the thread-local generator, seeded from the
/// operating system (it panics only when the system cannot supply a seed).
#[verifier::external_body]
fn thread_rng() -> ThreadRng {
    rand::thread_rng()
}

/// Relies on rand::Rng::gen::<u8>: one byte drawn uniformly; nothing is known of its value.
#[verifier::external_body]
fn random_byte(rng: &mut ThreadRng) -> u8 {
    rng.gen::<u8>()
}

/// Source of uniformly random bytes.
pub struct Generator {
    rng: ThreadRng,
}

impl Generator {
    pub fn new() -> Generator {
        Generator { rng: thread_rng() }
    }

    /// One byte drawn uniformly from `0..=255`.
    pub fn get_random(&mut self) -> u8 {
        random_byte(&mut self.rng)
    }
}

} // verus!
