use vstd::prelude::*;

verus! {

/// The seed of every generator that the pipeline creates: 'uwu!' = 75 77 75 21.
pub const SEED: u64 = 75777521;

/// What fastrand's `Rng::u8(0..n)` draws from a generator in state `state`, with the state
/// that it leaves behind.
pub uninterp spec fn draw_below(state: u64, n: u8) -> (u8, u64);

/// What fastrand's `Rng::choice` picks among `len` items from a generator in state `state`
/// (an index), with the state that it leaves behind.
pub uninterp spec fn draw_choice(state: u64, len: usize) -> (Option<usize>, u64);

/// Relies on fastrand::Rng::u8: for a non-empty range it returns a value in the range; its
/// result and the new state are a function of the state and the range alone.
#[verifier::external_body]
fn fastrand_u8(state: u64, n: u8) -> (r: (u8, u64))
    requires
        n >= 1,
    ensures
        r == draw_below(state, n),
        r.0 < n,
{
    let mut rng = fastrand::Rng::with_seed(state);
    let v = rng.u8(0..n);
    (v, rng.get_seed())
}

/// Relies on fastrand::Rng::choice over `0..len`: `None` without a draw when `len` is zero,
/// else the item at a drawn index below `len` (here the index itself).
#[verifier::external_body]
fn fastrand_choice(state: u64, len: usize) -> (r: (Option<usize>, u64))
    ensures
        r == draw_choice(state, len),
        len == 0 ==> r.0 is None && r.1 == state,
        len > 0 ==> r.0 is Some && r.0.unwrap() < len,
{
    let mut rng = fastrand::Rng::with_seed(state);
    let c = rng.choice(0..len);
    (c, rng.get_seed())
}

/// A deterministic pseudo-random generator: a 64-bit state that every draw advances.
pub struct Generator {
    pub state: u64,
}

impl Generator {
    /// A generator in the state `seed`.
    pub fn with_seed(seed: u64) -> (r: Generator)
        ensures
            r.state == seed,
    {
        Generator { state: seed }
    }

    /// Draws a value in `[0, n)`.
    pub fn bounded(&mut self, n: u8) -> (r: u8)
        requires
            n >= 1,
        ensures
            (r, final(self).state) == draw_below(old(self).state, n),
            r < n,
    {
        let (v, s) = fastrand_u8(self.state, n);
        self.state = s;
        v
    }

    /// Picks an index below `len`, or `None` when `len` is zero.
    pub fn choice(&mut self, len: usize) -> (r: Option<usize>)
        ensures
            (r, final(self).state) == draw_choice(old(self).state, len),
            len == 0 ==> r is None && final(self).state == old(self).state,
            len > 0 ==> r is Some && r.unwrap() < len,
    {
        let (c, s) = fastrand_choice(self.state, len);
        self.state = s;
        c
    }
}

} // verus!
