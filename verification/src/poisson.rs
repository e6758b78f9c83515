//! The gossip scheduler's randomness: a seeded generator that times wake-ups
//! and picks the peer for each exchange.
//!
//! The generator is an owned component, seeded once, so an embedding with a
//! fixed seed gets reproducible draws on one machine. The exponential
//! inter-arrival time itself is computed outside the library from the raw
//! bits drawn here, since it is floating point.

use crate::peer::PeerState;
use crate::queue::SendError;
use vstd::prelude::*;

verus! {

#[verifier::external_type_specification]
#[verifier::external_body]
pub struct ExSmallRng(rand::rngs::SmallRng);

/// Relies on rand::rngs::SmallRng::from_seed (SeedableRng): builds the
/// generator deterministically from a 256-bit seed.
#[verifier::external_body]
fn rng_from_seed(seed: [u8; 32]) -> rand::rngs::SmallRng {
    <rand::rngs::SmallRng as rand::SeedableRng>::from_seed(seed)
}

/// Relies on rand::rng and rand_core Rng::fill_bytes: fills the seed from
/// the thread generator; nothing is promised of the bytes.
#[verifier::external_body]
fn os_random_seed() -> [u8; 32] {
    let mut seed = [0u8; 32];
    rand::Rng::fill_bytes(&mut rand::rng(), &mut seed);
    seed
}

/// Relies on rand::RngExt::random_range over `0..n`: a value drawn from the
/// non-empty range, so the result is below `n`; the call panics on an empty
/// range, hence the bound on `n`.
#[verifier::external_body]
fn rng_below(rng: &mut rand::rngs::SmallRng, n: usize) -> (r: usize)
    requires
        n > 0,
    ensures
        r < n,
{
    rand::RngExt::random_range(rng, 0..n)
}

/// Relies on rand::RngExt::random::<u64>: the generator's next 64 bits;
/// nothing is promised of the value.
#[verifier::external_body]
fn rng_bits(rng: &mut rand::rngs::SmallRng) -> u64 {
    rand::RngExt::random::<u64>(rng)
}

/// What one scheduler wake-up did.
#[derive(Debug, Clone, Copy, PartialEq, Eq, Structural)]
pub enum TickOutcome {
    /// The registry was empty: no selection, no fault, wait again.
    Idle,
    /// The local value was queued for the peer at this registry index.
    Sent(usize),
    /// The selected peer's queue was full or closed; the error says which.
    /// The scheduler is expected to stop.
    Rejected(usize, SendError),
}

/// The randomized-timing state of the gossip scheduler: a generator seeded
/// once per process.
pub struct Poisson {
    pub rng: rand::rngs::SmallRng,
}

impl Poisson {
    /// Creates the process from an injectable 256-bit seed.
    pub fn new(seed: [u8; 32]) -> Poisson {
        Poisson { rng: rng_from_seed(seed) }
    }

    /// Creates the process from a fresh random seed.
    pub fn from_fresh_seed() -> Poisson {
        Poisson { rng: rng_from_seed(os_random_seed()) }
    }

    /// Draws the 64 uniform bits the embedding turns into the exponential
    /// wait before the next event.
    pub fn next_event_bits(&mut self) -> u64 {
        rng_bits(&mut self.rng)
    }

    /// One scheduler wake-up on the given peer.
    ///
    /// With an empty registry this does nothing and reports `Idle`. With a
    /// non-empty one it selects a registered peer at random and offers the
    /// peer's current value to that entry's queue; the value itself and all
    /// other entries are untouched, whatever the queue answers.
    pub fn tick(&mut self, peer: &mut PeerState) -> (r: TickOutcome)
        requires
            old(peer).wf(),
        ensures
            final(peer).wf(),
            final(peer).value == old(peer).value,
            final(peer).address == old(peer).address,
            final(peer).connections.peers@.len() == old(peer).connections.peers@.len(),
            r == TickOutcome::Idle <==> old(peer).connections.peers@.len() == 0,
            r == TickOutcome::Idle ==> final(peer).connections == old(peer).connections,
            forall|i: usize, e: SendError|
                (r == TickOutcome::Sent(i) || r == TickOutcome::Rejected(i, e)) ==> (
                i as int) < old(peer).connections.peers@.len(),
            forall|i: usize|
                r == TickOutcome::Sent(i) ==> crate::peer::enqueue_outcome(
                    old(peer).connections,
                    final(peer).connections,
                    i as int,
                    old(peer).value,
                    Ok(()),
                ),
            forall|i: usize, e: SendError|
                r == TickOutcome::Rejected(i, e) ==> crate::peer::enqueue_outcome(
                    old(peer).connections,
                    final(peer).connections,
                    i as int,
                    old(peer).value,
                    Err(e),
                ),
    {
        let n = peer.connections.peers.len();
        if n == 0 {
            return TickOutcome::Idle;
        }
        let i = rng_below(&mut self.rng, n);
        let outcome = peer.connections.peers[i].queue.try_enqueue(peer.value);
        match outcome {
            Ok(()) => TickOutcome::Sent(i),
            Err(e) => TickOutcome::Rejected(i, e),
        }
    }
}

} // verus!
