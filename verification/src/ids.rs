//! Identifiers of outbound requests.
//!
//! Within one connection the identifiers are handed out by a single counter
//! that starts at a configured value and wraps around at 2^64.

use vstd::prelude::*;

verus! {

/// The identifier of an outbound request.
#[derive(Clone, Copy, Debug, PartialEq, Eq, Structural, Hash)]
pub struct RequestId(pub u64);

/// The identifier handed out `n` allocations after a counter stood at `start`.
pub open spec fn id_after(start: u64, n: nat) -> u64 {
    ((start as nat + n) % 0x1_0000_0000_0000_0000) as u64
}

/// The source of outbound request identifiers of one connection. It
/// remembers where it started and how many identifiers it has handed out.
pub struct RequestIdCounter {
    next: u64,
    initial: Ghost<u64>,
    handed_out: Ghost<nat>,
}

impl RequestIdCounter {
    #[verifier::type_invariant]
    spec fn wf(self) -> bool {
        self.next == id_after(self.initial@, self.handed_out@)
    }

    /// The identifier that the counter started with.
    pub closed spec fn initial(&self) -> u64 {
        self.initial@
    }

    /// The number of identifiers handed out so far.
    pub closed spec fn count(&self) -> nat {
        self.handed_out@
    }

    /// The identifier that the next allocation returns.
    pub open spec fn next_id(&self) -> u64 {
        id_after(self.initial(), self.count())
    }

    /// A counter whose first identifier is `initial_request_id`.
    pub fn new(initial_request_id: u64) -> (counter: Self)
        ensures
            counter.initial() == initial_request_id,
            counter.count() == 0,
            counter.next_id() == initial_request_id,
    {
        RequestIdCounter {
            next: initial_request_id,
            initial: Ghost(initial_request_id),
            handed_out: Ghost(0),
        }
    }

    /// Hands out the current identifier and advances, wrapping at 2^64: the
    /// identifiers of a connection are its initial one and those that follow
    /// it, in order, modulo 2^64.
    pub fn allocate(&mut self) -> (id: u64)
        ensures
            id == id_after(old(self).initial(), old(self).count()),
            final(self).initial() == old(self).initial(),
            final(self).count() == old(self).count() + 1,
    {
        proof {
            use_type_invariant(&*self);
            lemma_id_after_add(self.initial@, self.handed_out@, 1);
        }
        let id: u64 = self.next;
        *self = RequestIdCounter {
            next: id.wrapping_add(1),
            initial: self.initial,
            handed_out: Ghost(self.handed_out@ + 1),
        };
        id
    }

    /// Reads the identifier that the next allocation returns.
    pub fn peek(&self) -> (id: u64)
        ensures
            id == self.next_id(),
    {
        proof {
            use_type_invariant(self);
        }
        self.next
    }
}

/// Advancing by `n` and then by `m` is advancing by `n + m`: the identifiers
/// of a connection form one contiguous run modulo 2^64.
pub proof fn lemma_id_after_add(start: u64, n: nat, m: nat)
    ensures
        id_after(id_after(start, n), m) == id_after(start, n + m),
        id_after(start, 0) == start,
{
    let w: int = 0x1_0000_0000_0000_0000;
    let s: int = start as int;
    assert(((s + n) % w + m) % w == (s + n + m) % w) by {
        vstd::arithmetic::div_mod::lemma_add_mod_noop(s + n, m as int, w);
        vstd::arithmetic::div_mod::lemma_mod_twice(s + n, w);
        vstd::arithmetic::div_mod::lemma_add_mod_noop((s + n) % w, m as int, w);
    }
}

/// Two identifiers of one run are equal exactly when their positions differ
/// by a multiple of 2^64; in particular any 2^64 consecutive ones are distinct.
pub proof fn lemma_ids_distinct(start: u64, i: nat, j: nat)
    requires
        i < j,
        j - i < 0x1_0000_0000_0000_0000,
    ensures
        id_after(start, i) != id_after(start, j),
{
    let w: int = 0x1_0000_0000_0000_0000;
    let a: int = start as int + i;
    let b: int = start as int + j;
    if a % w == b % w {
        vstd::arithmetic::div_mod::lemma_fundamental_div_mod(a, w);
        vstd::arithmetic::div_mod::lemma_fundamental_div_mod(b, w);
        let d: int = b / w - a / w;
        assert(b - a == w * d) by (nonlinear_arith)
            requires
                a == w * (a / w) + a % w,
                b == w * (b / w) + b % w,
                a % w == b % w,
                d == b / w - a / w,
        ;
        assert(false) by (nonlinear_arith)
            requires
                b - a == w * d,
                0 < b - a < w,
                w > 0,
        ;
    }
}

} // verus!
