//! The source of random bytes for the random instruction.
//!
//! A generator is a deterministic machine: the seed it was made from fixes
//! every byte it will ever yield. The model of a generator is therefore the
//! stream of bytes that it is going to yield, by position.

use vstd::prelude::*;

verus! {

/// Makes `rand::rngs::StdRng` known as an opaque type: a generator is
/// carried around and handed back to `rand`, never looked into.
#[verifier::external_type_specification]
#[verifier::external_body]
pub struct ExStdRng(rand::rngs::StdRng);

/// The byte that the generator yields `position` draws from now, when it is
/// drawn from one byte at a time.
pub uninterp spec fn upcoming_byte(generator: rand::rngs::StdRng, position: nat) -> u8;

/// The byte that a generator made from `seed` yields at draw number
/// `position`, counted from zero, when it is drawn from one byte at a time.
pub uninterp spec fn seeded_byte(seed: u64, position: nat) -> u8;

/// The bytes that a generator is going to yield, by position.
pub open spec fn stream_of(generator: rand::rngs::StdRng) -> spec_fn(nat) -> u8 {
    |position: nat| upcoming_byte(generator, position)
}

/// The bytes that a generator made from `seed` yields, by position.
pub open spec fn seeded_stream(seed: u64) -> spec_fn(nat) -> u8 {
    |position: nat| seeded_byte(seed, position)
}

/// A stream after its first byte was drawn.
pub open spec fn rest_of(stream: spec_fn(nat) -> u8) -> spec_fn(nat) -> u8 {
    |position: nat| stream((position + 1) as nat)
}

/// Calls `rand::SeedableRng::seed_from_u64` for `rand::rngs::StdRng`, which
/// expands the seed and keys the generator with it. The contract claims that
/// the generator's bytes are a function of the seed alone: two generators
/// made from one seed yield the same bytes.
#[verifier::external_body]
pub(crate) fn seeded_generator(seed: u64) -> (generator: rand::rngs::StdRng)
    ensures
        forall|position: nat| #[trigger]
            upcoming_byte(generator, position) == seeded_byte(seed, position),
{
    rand::SeedableRng::seed_from_u64(seed)
}

/// Calls `rand::Rng::gen::<u8>` on the generator, which takes the next word
/// of its output and keeps the low byte. The contract claims that the byte
/// is the one the generator had next in its stream and that the rest of the
/// stream is what the generator yields from then on; which byte that is, it
/// does not say.
#[verifier::external_body]
pub(crate) fn next_random_byte(generator: &mut rand::rngs::StdRng) -> (byte: u8)
    ensures
        byte == upcoming_byte(*old(generator), 0),
        forall|position: nat| #[trigger]
            upcoming_byte(*final(generator), position) == upcoming_byte(
                *old(generator),
                (position + 1) as nat,
            ),
{
    rand::Rng::gen::<u8>(generator)
}

} // verus!
