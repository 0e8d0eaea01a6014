//! Storage locations for fixture instances.
//!
//! Every fixture lives either in a transient in-memory store or in a
//! file named by a 128-bit token (the caller renders the token into a
//! path). Repeated provisioning must never hand out the same file
//! location twice; two token sources are offered. A counter generator
//! issues strictly increasing tokens, so distinct draws are provably
//! distinct. A random draw matches what a stateless caller wants, but of
//! a random value no distinctness can be promised, so nothing is.

use vstd::prelude::*;

verus! {

/// Where a fixture's backing store lives: in memory, or in a file named by
/// a numeric token (the caller renders the token into a path).
#[derive(Debug, Clone, Copy, PartialEq, Eq, Structural)]
pub enum StoreLocation {
    Memory,
    File { token: u128 },
}

/// A generator of fresh file locations. Tokens are issued in strictly
/// increasing order starting from `next`, so no two draws ever collide.
#[derive(Debug, Clone, Copy, PartialEq, Eq, Structural)]
pub struct LocationGen {
    pub next: u128,
}

/// The sequence of tokens a generator starting at `start` hands out over
/// `n` draws: `start, start + 1, ..., start + n - 1`.
pub open spec fn issued_tokens(start: int, n: nat) -> Seq<int> {
    Seq::new(n, |k: int| start + k)
}

impl LocationGen {
    /// A fresh generator; its first file location carries token 0.
    pub fn new() -> (g: LocationGen)
        ensures
            g.next == 0,
    {
        LocationGen { next: 0 }
    }

    /// Draw a fresh file location. The token equals the generator's counter
    /// before the call, and the counter advances, so later draws differ.
    pub fn fresh(&mut self) -> (loc: StoreLocation)
        requires
            old(self).next < u128::MAX,
        ensures
            loc == (StoreLocation::File { token: old(self).next }),
            final(self).next == old(self).next + 1,
    {
        let token = self.next;
        self.next = self.next + 1;
        StoreLocation::File { token }
    }

    /// Draw `n` fresh file locations in sequence. They carry the `n`
    /// tokens after the generator's counter, so no two of them collide.
    pub fn fresh_many(&mut self, n: usize) -> (locs: Vec<StoreLocation>)
        requires
            old(self).next + n <= u128::MAX,
        ensures
            locs@.len() == n,
            forall|k: int|
                0 <= k < n ==> locs@[k] == (StoreLocation::File {
                    token: (old(self).next + k) as u128,
                }),
            forall|i: int, j: int| 0 <= i < j < n ==> locs@[i] != locs@[j],
            final(self).next == old(self).next + n,
    {
        let ghost start = self.next as int;
        let mut locs: Vec<StoreLocation> = Vec::new();
        let mut k: usize = 0;
        while k < n
            invariant
                0 <= k <= n,
                start + n <= u128::MAX,
                self.next == start + k,
                locs@.len() == k,
                forall|m: int|
                    0 <= m < k ==> locs@[m] == (StoreLocation::File {
                        token: (start + m) as u128,
                    }),
            decreases n - k,
        {
            let loc = self.fresh();
            locs.push(loc);
            k = k + 1;
        }
        proof {
            assert forall|i: int, j: int| 0 <= i < j < n implies locs@[i] != locs@[j] by {
                assert((start + i) as u128 != (start + j) as u128);
            }
        }
        locs
    }
}

/// Relies on uuid::Uuid::new_v4 for a freshly drawn version-4 random
/// UUID, read out as its 128-bit value through Uuid::as_u128. The draw
/// depends on the process's randomness source, so nothing is promised of
/// the value.
#[verifier::external_body]
fn random_u128() -> u128 {
    uuid::Uuid::new_v4().as_u128()
}

/// Draw a file location named by a random token, for stateless callers.
/// Distinct draws are overwhelmingly likely to differ but not proved to:
/// where collision-freedom matters, draw from a `LocationGen` instead.
pub fn random_location() -> (loc: StoreLocation)
    ensures
        loc is File,
{
    StoreLocation::File { token: random_u128() }
}

/// Repeated draws never collide: among the tokens a generator issues over
/// any run of calls, any two distinct draws carry distinct tokens.
pub proof fn lemma_issued_tokens_distinct(start: int, n: nat, i: int, j: int)
    requires
        0 <= i < n,
        0 <= j < n,
        i != j,
    ensures
        issued_tokens(start, n)[i] != issued_tokens(start, n)[j],
{
}

} // verus!
