use vstd::prelude::*;

use vstd::arithmetic::div_mod::{lemma_add_mod_noop, lemma_mod_bound, lemma_mod_self_0, lemma_small_mod};

use crate::picker::{clamp_highlight, next_highlight, prev_highlight};

verus! {

/// The stored highlight after moving down `k` times from `h` over `n` accounts.
pub open spec fn iterate_next(h: nat, n: nat, k: nat) -> nat
    decreases k,
{
    if k == 0 {
        h
    } else {
        next_highlight(iterate_next(h, n, (k - 1) as nat), n)
    }
}

proof fn lemma_iterate_next_offset(h: nat, n: nat, k: nat)
    requires
        k >= 1,
    ensures
        iterate_next(h, n, k) as int == (clamp_highlight(h, n) as int + k as int) % (n as int + 1),
    decreases k,
{
    let c = clamp_highlight(h, n) as int;
    let m = n as int + 1;
    let j = k as int;
    if k > 1 {
        lemma_iterate_next_offset(h, n, (k - 1) as nat);
        let x = iterate_next(h, n, (k - 1) as nat) as int;
        assert(x == (c + (j - 1)) % m);
        lemma_mod_bound(c + (j - 1), m);
        assert(clamp_highlight(x as nat, n) as int == x);
        assert(iterate_next(h, n, k) as int == (x + 1) % m);
        if n == 0 {
            lemma_mod_bound(x + 1, m);
            lemma_mod_bound(c + j, m);
        } else {
            lemma_small_mod(1, m as nat);
            lemma_add_mod_noop(c + (j - 1), 1, m);
        }
        assert(iterate_next(h, n, k) as int == (c + j) % m);
    } else {
        assert(iterate_next(h, n, 1) == next_highlight(iterate_next(h, n, 0), n));
        assert(iterate_next(h, n, 1) as int == (c + 1) % m);
    }
}

/// Moving down once per entry (`n` accounts and the "add new" entry) comes
/// back to the entry one started on.
pub proof fn lemma_next_cycles(h: nat, n: nat)
    ensures
        clamp_highlight(iterate_next(h, n, n + 1), n) == clamp_highlight(h, n),
{
    let c = clamp_highlight(h, n);
    let m = (n + 1) as int;
    lemma_iterate_next_offset(h, n, n + 1);
    lemma_add_mod_noop(c as int, m, m);
    lemma_mod_self_0(m);
    lemma_small_mod(c, (n + 1) as nat);
}

/// Moving down and then up leaves the effective highlight where it was.
pub proof fn lemma_prev_undoes_next(h: nat, n: nat)
    ensures
        clamp_highlight(prev_highlight(next_highlight(h, n), n), n) == clamp_highlight(h, n),
{
    let c = clamp_highlight(h, n);
    if c < n {
        lemma_small_mod(c + 1, (n + 1) as nat);
    } else {
        lemma_mod_self_0((n + 1) as int);
    }
}

} // verus!
