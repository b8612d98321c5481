use vstd::prelude::*;

verus! {

/// Hands out node ids: 1, 2, 3, … in order, wrapping around after `u64::MAX`.
pub struct IdGenerator {
    next: u64,
    issued: Ghost<nat>,
}

/// The id handed out by the `k`-th call, counting from zero.
pub open spec fn id_at(k: nat) -> u64 {
    ((1 + k) % 0x1_0000_0000_0000_0000) as u64
}

impl IdGenerator {
    #[verifier::type_invariant]
    spec fn next_follows_count(self) -> bool {
        self.next == id_at(self.issued@)
    }

    /// The id the next call hands out.
    pub closed spec fn upcoming(&self) -> u64 {
        self.next
    }

    /// How many ids this generator has handed out.
    pub closed spec fn issued(&self) -> nat {
        self.issued@
    }

    /// A generator whose first id is 1.
    pub fn new() -> (g: Self)
        ensures
            g.upcoming() == 1,
            g.issued() == 0,
    {
        IdGenerator { next: 1, issued: Ghost(0) }
    }

    /// Hands out an id and moves on to the following one: the `k`-th call
    /// (counting from zero) hands out `id_at(k)`.
    pub fn next_id(&mut self) -> (id: u64)
        ensures
            id == old(self).upcoming(),
            id == id_at(old(self).issued()),
            final(self).issued() == old(self).issued() + 1,
            final(self).upcoming() == (old(self).upcoming() + 1) % 0x1_0000_0000_0000_0000,
    {
        proof {
            use_type_invariant(&*self);
            lemma_id_sequence(self.issued@);
        }
        let id = self.next;
        let ghost count = self.issued@;
        *self = IdGenerator { next: id.wrapping_add(1), issued: Ghost(count + 1) };
        id
    }
}

/// Starting from a fresh generator, the `k`-th call hands out `id_at(k)`:
/// one call moves from `id_at(k)` to `id_at(k + 1)`, and until the counter
/// wraps the `k`-th id is `k + 1`, so never 0.
pub proof fn lemma_id_sequence(k: nat)
    ensures
        id_at(0) == 1,
        id_at(k + 1) == (id_at(k) + 1) % 0x1_0000_0000_0000_0000,
        k < 0xFFFF_FFFF_FFFF_FFFF ==> id_at(k) == k + 1,
{
    assert(((1 + k) % 0x1_0000_0000_0000_0000 + 1) % 0x1_0000_0000_0000_0000 == (1 + (k + 1))
        % 0x1_0000_0000_0000_0000) by (nonlinear_arith);
}

/// The ids one generator hands out in its first 2^64 calls are all
/// different: calls `i` and `j` give `id_at(i)` and `id_at(j)`.
pub proof fn lemma_ids_distinct(i: nat, j: nat)
    requires
        i < j < 0x1_0000_0000_0000_0000,
    ensures
        id_at(i) != id_at(j),
{
    assert((1 + i) % 0x1_0000_0000_0000_0000 != (1 + j) % 0x1_0000_0000_0000_0000) by (
    nonlinear_arith)
        requires
            i < j < 0x1_0000_0000_0000_0000,
    ;
}

} // verus!
