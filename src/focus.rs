//! Which tab receives focus when the user steps forwards or backwards
//! through the tab bar, stated over the tabs' disabled flags.
use vstd::arithmetic::div_mod::{
    lemma_add_mod_noop,
    lemma_add_mod_noop_right,
    lemma_mod_add_multiples_vanish,
    lemma_mod_bound,
    lemma_mod_self_0,
    lemma_mod_sub_multiples_vanish,
    lemma_small_mod,
};
use vstd::prelude::*;

verus! {

/// How many of the flags say "enabled" (`false` means not disabled).
pub open spec fn enabled_count(disabled: Seq<bool>) -> nat
    decreases disabled.len(),
{
    if disabled.len() == 0 {
        0
    } else {
        enabled_count(disabled.drop_last()) + if disabled.last() {
            0nat
        } else {
            1nat
        }
    }
}

/// One position forwards among `n` tabs, wrapping from the last to the first.
pub open spec fn step_fwd(n: int, i: int) -> int {
    if i + 1 < n {
        i + 1
    } else {
        0
    }
}

/// One position backwards among `n` tabs, wrapping from the first to the last.
pub open spec fn step_back(n: int, i: int) -> int {
    if i == 0 {
        n - 1
    } else {
        i - 1
    }
}

/// Steps forwards from `i` until an enabled tab is reached, taking at most `fuel` steps.
pub open spec fn walk_next(disabled: Seq<bool>, i: int, fuel: nat) -> int
    decreases fuel,
{
    if fuel == 0 {
        i
    } else {
        let j = step_fwd(disabled.len() as int, i);
        if !disabled[j] {
            j
        } else {
            walk_next(disabled, j, (fuel - 1) as nat)
        }
    }
}

/// Steps backwards from `i` until an enabled tab is reached, taking at most `fuel` steps.
pub open spec fn walk_prev(disabled: Seq<bool>, i: int, fuel: nat) -> int
    decreases fuel,
{
    if fuel == 0 {
        i
    } else {
        let j = step_back(disabled.len() as int, i);
        if !disabled[j] {
            j
        } else {
            walk_prev(disabled, j, (fuel - 1) as nat)
        }
    }
}

/// The focus after "next tab": unchanged when fewer than two tabs are
/// enabled, otherwise the first enabled tab after `i`, wrapping around.
pub open spec fn switch_next(disabled: Seq<bool>, i: int) -> int {
    if enabled_count(disabled) < 2 {
        i
    } else {
        walk_next(disabled, i, disabled.len())
    }
}

/// The focus after "previous tab": unchanged when fewer than two tabs are
/// enabled, otherwise the first enabled tab before `i`, wrapping around.
pub open spec fn switch_prev(disabled: Seq<bool>, i: int) -> int {
    if enabled_count(disabled) < 2 {
        i
    } else {
        walk_prev(disabled, i, disabled.len())
    }
}

/// The focus after `k` presses of "next tab" starting from `s`.
pub open spec fn iterate_next(disabled: Seq<bool>, s: int, k: nat) -> int
    decreases k,
{
    if k == 0 {
        s
    } else {
        switch_next(disabled, iterate_next(disabled, s, (k - 1) as nat))
    }
}

/// The position `delta` places forwards from `i` among `n` tabs.
pub open spec fn fwd(n: int, i: int, delta: int) -> int {
    (i + delta) % n
}

/// The number of steps that `walk_next` takes.
pub open spec fn walk_dist(disabled: Seq<bool>, i: int, fuel: nat) -> nat
    decreases fuel,
{
    if fuel == 0 {
        0
    } else {
        let j = step_fwd(disabled.len() as int, i);
        if !disabled[j] {
            1
        } else {
            1 + walk_dist(disabled, j, (fuel - 1) as nat)
        }
    }
}

proof fn lemma_fwd_step(n: int, i: int)
    requires
        0 <= i < n,
    ensures
        step_fwd(n, i) == fwd(n, i, 1),
{
    if i + 1 < n {
        lemma_small_mod((i + 1) as nat, n as nat);
    } else {
        lemma_mod_self_0(n);
    }
}

proof fn lemma_fwd_compose(n: int, i: int, a: int, b: int)
    requires
        0 < n,
        0 <= i,
        0 <= a,
        0 <= b,
    ensures
        fwd(n, fwd(n, i, a), b) == fwd(n, i, a + b),
{
    lemma_add_mod_noop(i + a, b, n);
    lemma_add_mod_noop_right((i + a) % n, b, n);
}

proof fn lemma_walk_position(disabled: Seq<bool>, i: int, fuel: nat)
    requires
        0 <= i < disabled.len(),
    ensures
        walk_dist(disabled, i, fuel) <= fuel,
        walk_next(disabled, i, fuel) == fwd(disabled.len() as int, i, walk_dist(disabled, i, fuel) as int),
        0 <= walk_next(disabled, i, fuel) < disabled.len(),
    decreases fuel,
{
    let n = disabled.len() as int;
    if fuel == 0 {
        lemma_small_mod(i as nat, n as nat);
    } else {
        let j = step_fwd(n, i);
        lemma_fwd_step(n, i);
        if disabled[j] {
            lemma_walk_position(disabled, j, (fuel - 1) as nat);
            lemma_fwd_compose(n, i, 1, walk_dist(disabled, j, (fuel - 1) as nat) as int);
        }
    }
}

/// If an enabled tab lies `delta` steps ahead and the walk may take that many
/// steps, the walk stops on an enabled tab no further than `delta` ahead.
proof fn lemma_walk_reaches(disabled: Seq<bool>, i: int, fuel: nat, delta: int)
    requires
        0 <= i < disabled.len(),
        1 <= delta <= fuel,
        !disabled[fwd(disabled.len() as int, i, delta)],
    ensures
        1 <= walk_dist(disabled, i, fuel) <= delta,
        !disabled[walk_next(disabled, i, fuel)],
    decreases fuel,
{
    let n = disabled.len() as int;
    let j = step_fwd(n, i);
    lemma_fwd_step(n, i);
    if disabled[j] {
        assert(delta != 1);
        lemma_fwd_compose(n, i, 1, delta - 1);
        lemma_walk_reaches(disabled, j, (fuel - 1) as nat, delta - 1);
    }
}

proof fn lemma_some_enabled(disabled: Seq<bool>) -> (e: int)
    requires
        enabled_count(disabled) > 0,
    ensures
        0 <= e < disabled.len(),
        !disabled[e],
    decreases disabled.len(),
{
    if !disabled.last() {
        disabled.len() - 1
    } else {
        let e = lemma_some_enabled(disabled.drop_last());
        e
    }
}

/// With two enabled tabs, one of them is not `i`.
proof fn lemma_other_enabled(disabled: Seq<bool>, i: int) -> (e: int)
    requires
        enabled_count(disabled) >= 2,
    ensures
        0 <= e < disabled.len(),
        e != i,
        !disabled[e],
    decreases disabled.len(),
{
    let last = disabled.len() - 1;
    if !disabled.last() && last != i {
        last
    } else if !disabled.last() {
        lemma_some_enabled(disabled.drop_last())
    } else {
        lemma_other_enabled(disabled.drop_last(), i)
    }
}

/// The number of steps forwards from `i` to `e`: between one and `n`, and
/// below `n` unless `e` is `i` itself.
proof fn lemma_dist_to(n: int, i: int, e: int) -> (delta: int)
    requires
        0 <= i < n,
        0 <= e < n,
    ensures
        1 <= delta <= n,
        fwd(n, i, delta) == e,
        e != i ==> delta < n,
{
    if e > i {
        lemma_small_mod(e as nat, n as nat);
        e - i
    } else {
        lemma_mod_add_multiples_vanish(e, n);
        lemma_small_mod(e as nat, n as nat);
        assert(i + (n - i + e) == n + e);
        n - i + e
    }
}

/// Fewer than `n` steps forwards never come back to the start.
proof fn lemma_fwd_moves(n: int, i: int, d: int)
    requires
        0 <= i < n,
        1 <= d < n,
    ensures
        fwd(n, i, d) != i,
{
    if i + d < n {
        lemma_small_mod((i + d) as nat, n as nat);
    } else {
        lemma_mod_sub_multiples_vanish(i + d, n);
        lemma_small_mod((i + d - n) as nat, n as nat);
    }
}

/// With at least two enabled tabs, "next tab" from any position lands on an
/// enabled tab within range, other than the one it started from.
pub proof fn lemma_switch_next_enabled(disabled: Seq<bool>, i: int)
    requires
        0 <= i < disabled.len(),
        enabled_count(disabled) >= 2,
    ensures
        0 <= switch_next(disabled, i) < disabled.len(),
        !disabled[switch_next(disabled, i)],
        switch_next(disabled, i) != i,
{
    let n = disabled.len() as int;
    let e = lemma_other_enabled(disabled, i);
    let delta = lemma_dist_to(n, i, e);
    lemma_walk_position(disabled, i, disabled.len());
    lemma_walk_reaches(disabled, i, disabled.len(), delta);
    lemma_fwd_moves(n, i, walk_dist(disabled, i, disabled.len()) as int);
}

proof fn lemma_iterate_enabled(disabled: Seq<bool>, s: int, k: nat)
    requires
        0 <= s < disabled.len(),
        enabled_count(disabled) >= 2,
    ensures
        0 <= iterate_next(disabled, s, k) < disabled.len(),
        k >= 1 ==> !disabled[iterate_next(disabled, s, k)],
    decreases k,
{
    if k > 0 {
        lemma_iterate_enabled(disabled, s, (k - 1) as nat);
        lemma_switch_next_enabled(disabled, iterate_next(disabled, s, (k - 1) as nat));
    }
}

/// After `k` presses, either the focus has already come back to `s`, or it
/// stands `dist` places ahead of `s` for some `k <= dist < n`.
proof fn lemma_progress(disabled: Seq<bool>, s: int, k: nat)
    requires
        0 <= s < disabled.len(),
        !disabled[s],
        enabled_count(disabled) >= 2,
        k <= disabled.len(),
    ensures
        (exists|j: nat| 1 <= j <= k && #[trigger] iterate_next(disabled, s, j) == s) || (exists|dist: int|
            k <= dist < disabled.len() && iterate_next(disabled, s, k) == #[trigger] fwd(
                disabled.len() as int,
                s,
                dist,
            )),
    decreases k,
{
    let n = disabled.len() as int;
    if k == 0 {
        lemma_small_mod(s as nat, n as nat);
        assert(iterate_next(disabled, s, 0) == fwd(n, s, 0));
    } else {
        let k1 = (k - 1) as nat;
        lemma_progress(disabled, s, k1);
        if exists|j: nat| 1 <= j <= k1 && #[trigger] iterate_next(disabled, s, j) == s {
            let j = choose|j: nat| 1 <= j <= k1 && #[trigger] iterate_next(disabled, s, j) == s;
            assert(1 <= j <= k && iterate_next(disabled, s, j) == s);
        } else {
            let dist = choose|dist: int|
                k1 <= dist < n && iterate_next(disabled, s, k1) == #[trigger] fwd(n, s, dist);
            let pos = iterate_next(disabled, s, k1);
            lemma_mod_bound(s + dist, n);
            let back = n - dist;
            lemma_fwd_compose(n, s, dist, back);
            lemma_mod_add_multiples_vanish(s, n);
            lemma_small_mod(s as nat, n as nat);
            assert(fwd(n, pos, back) == s);
            lemma_walk_reaches(disabled, pos, n as nat, back);
            lemma_walk_position(disabled, pos, n as nat);
            let step = walk_dist(disabled, pos, n as nat) as int;
            lemma_fwd_compose(n, s, dist, step);
            assert(iterate_next(disabled, s, k) == fwd(n, s, dist + step));
            if dist + step == n {
                assert(iterate_next(disabled, s, k) == s);
            } else {
                assert(k <= dist + step < n);
            }
        }
    }
}

/// Repeated "next tab" presses, with at least two tabs enabled, only ever
/// focus enabled tabs, and from an enabled tab they come back to it within
/// as many presses as there are tabs.
pub proof fn lemma_switch_next_cycles(disabled: Seq<bool>, s: int)
    requires
        0 <= s < disabled.len(),
        !disabled[s],
        enabled_count(disabled) >= 2,
    ensures
        forall|k: nat|
            k >= 1 ==> 0 <= #[trigger] iterate_next(disabled, s, k) < disabled.len()
                && !disabled[iterate_next(disabled, s, k)],
        exists|k: nat| 1 <= k <= disabled.len() && #[trigger] iterate_next(disabled, s, k) == s,
{
    assert forall|k: nat| k >= 1 implies 0 <= #[trigger] iterate_next(disabled, s, k) < disabled.len()
        && !disabled[iterate_next(disabled, s, k)] by {
        lemma_iterate_enabled(disabled, s, k);
    }
    lemma_progress(disabled, s, disabled.len());
}

/// With fewer than two enabled tabs, neither "next tab" nor "previous tab"
/// moves the focus.
pub proof fn lemma_switch_needs_two_enabled(disabled: Seq<bool>, i: int)
    requires
        enabled_count(disabled) < 2,
    ensures
        switch_next(disabled, i) == i,
        switch_prev(disabled, i) == i,
{
}

/// How many enabled tabs lie between one and `dist` places ahead of `s`.
pub open spec fn enabled_ahead(disabled: Seq<bool>, s: int, dist: nat) -> nat
    decreases dist,
{
    if dist == 0 {
        0
    } else {
        enabled_ahead(disabled, s, (dist - 1) as nat) + if disabled[fwd(disabled.len() as int, s, dist as int)] {
            0nat
        } else {
            1nat
        }
    }
}

/// How far the focus has travelled forwards after `k` presses from `s`.
pub open spec fn travelled(disabled: Seq<bool>, s: int, k: nat) -> nat
    decreases k,
{
    if k == 0 {
        0
    } else {
        travelled(disabled, s, (k - 1) as nat) + walk_dist(
            disabled,
            iterate_next(disabled, s, (k - 1) as nat),
            disabled.len(),
        )
    }
}

proof fn lemma_walk_skips(disabled: Seq<bool>, i: int, fuel: nat)
    requires
        0 <= i < disabled.len(),
    ensures
        forall|j: int|
            1 <= j < walk_dist(disabled, i, fuel) ==> #[trigger] disabled[fwd(disabled.len() as int, i, j)],
    decreases fuel,
{
    let n = disabled.len() as int;
    if fuel > 0 {
        let j1 = step_fwd(n, i);
        lemma_fwd_step(n, i);
        if disabled[j1] {
            lemma_walk_skips(disabled, j1, (fuel - 1) as nat);
            assert forall|j: int| 1 <= j < walk_dist(disabled, i, fuel) implies #[trigger] disabled[fwd(n, i, j)] by {
                if j > 1 {
                    lemma_fwd_compose(n, i, 1, j - 1);
                    assert(disabled[fwd(n, j1, j - 1)]);
                }
            }
        }
    }
}

proof fn lemma_prefix_step(disabled: Seq<bool>, k: int)
    requires
        0 <= k < disabled.len(),
    ensures
        enabled_count(disabled.subrange(0, k + 1)) == enabled_count(disabled.subrange(0, k)) + if disabled[k] {
            0nat
        } else {
            1nat
        },
{
    assert(disabled.subrange(0, k + 1).drop_last() =~= disabled.subrange(0, k));
}

/// `enabled_ahead` over prefix counts: the tabs after `s` up to the end, then
/// from the first tab on.
proof fn lemma_ahead_prefix(disabled: Seq<bool>, s: int, dist: nat)
    requires
        0 <= s < disabled.len(),
        dist <= disabled.len(),
    ensures
        ({
            let n = disabled.len() as int;
            let pc = |k: int| enabled_count(disabled.subrange(0, k)) as int;
            enabled_ahead(disabled, s, dist) == if s + dist < n {
                pc(s + dist + 1) - pc(s + 1)
            } else {
                pc(n) - pc(s + 1) + pc(s + dist - n + 1)
            }
        }),
    decreases dist,
{
    let n = disabled.len() as int;
    if dist > 0 {
        let d1 = (dist - 1) as nat;
        lemma_ahead_prefix(disabled, s, d1);
        let p = s + dist;
        if p < n {
            lemma_small_mod(p as nat, n as nat);
            lemma_prefix_step(disabled, p);
        } else {
            lemma_mod_sub_multiples_vanish(p, n);
            lemma_small_mod((p - n) as nat, n as nat);
            lemma_prefix_step(disabled, p - n);
            if p == n {
                assert(disabled.subrange(0, 0) =~= Seq::<bool>::empty());
            }
        }
    }
}

proof fn lemma_ahead_all(disabled: Seq<bool>, s: int)
    requires
        0 <= s < disabled.len(),
    ensures
        enabled_ahead(disabled, s, disabled.len()) == enabled_count(disabled),
{
    lemma_ahead_prefix(disabled, s, disabled.len());
    assert(disabled.subrange(0, disabled.len() as int) =~= disabled);
}

proof fn lemma_ahead_bounds(disabled: Seq<bool>, s: int, a: nat, b: nat)
    requires
        a <= b,
    ensures
        enabled_ahead(disabled, s, a) <= enabled_ahead(disabled, s, b),
        enabled_ahead(disabled, s, b) <= b,
    decreases b,
{
    if b > 0 {
        if a < b {
            lemma_ahead_bounds(disabled, s, a, (b - 1) as nat);
        } else {
            lemma_ahead_bounds(disabled, s, (b - 1) as nat, (b - 1) as nat);
        }
    }
}

proof fn lemma_ahead_flat(disabled: Seq<bool>, s: int, dist: nat, step: nat, j: nat)
    requires
        0 <= s < disabled.len(),
        1 <= j <= step,
        forall|i: int|
            1 <= i < step ==> #[trigger] disabled[fwd(
                disabled.len() as int,
                fwd(disabled.len() as int, s, dist as int),
                i,
            )],
    ensures
        enabled_ahead(disabled, s, (dist + j - 1) as nat) == enabled_ahead(disabled, s, dist),
    decreases j,
{
    let n = disabled.len() as int;
    if j > 1 {
        lemma_ahead_flat(disabled, s, dist, step, (j - 1) as nat);
        lemma_fwd_compose(n, s, dist as int, (j - 1) as int);
        assert(disabled[fwd(n, fwd(n, s, dist as int), (j - 1) as int)]);
    }
}

/// Walking from `dist` places ahead of `s` over disabled tabs onto an enabled
/// one adds exactly one enabled tab to the count.
proof fn lemma_ahead_step(disabled: Seq<bool>, s: int, dist: nat, step: nat)
    requires
        0 <= s < disabled.len(),
        step >= 1,
        forall|j: int|
            1 <= j < step ==> #[trigger] disabled[fwd(
                disabled.len() as int,
                fwd(disabled.len() as int, s, dist as int),
                j,
            )],
        !disabled[fwd(disabled.len() as int, fwd(disabled.len() as int, s, dist as int), step as int)],
    ensures
        enabled_ahead(disabled, s, dist + step) == enabled_ahead(disabled, s, dist) + 1,
{
    let n = disabled.len() as int;
    let pos = fwd(n, s, dist as int);
    lemma_ahead_flat(disabled, s, dist, step, step);
    lemma_fwd_compose(n, s, dist as int, step as int);
}

/// After `k <= E` presses from an enabled `s` (with `E` enabled tabs), the
/// focus stands `travelled` places ahead of `s`, having passed exactly `k`
/// enabled tabs, and it has gone all the way round only when `k == E`.
proof fn lemma_cycle_exact(disabled: Seq<bool>, s: int, k: nat)
    requires
        0 <= s < disabled.len(),
        !disabled[s],
        enabled_count(disabled) >= 2,
        k <= enabled_count(disabled),
    ensures
        k <= travelled(disabled, s, k) <= disabled.len(),
        iterate_next(disabled, s, k) == fwd(disabled.len() as int, s, travelled(disabled, s, k) as int),
        enabled_ahead(disabled, s, travelled(disabled, s, k)) == k,
        (travelled(disabled, s, k) == disabled.len()) == (k == enabled_count(disabled)),
        k >= 1 ==> travelled(disabled, s, k) >= travelled(disabled, s, (k - 1) as nat) + 1,
    decreases k,
{
    let n = disabled.len() as int;
    let e = enabled_count(disabled);
    lemma_ahead_all(disabled, s);
    lemma_mod_add_multiples_vanish(s, n);
    lemma_small_mod(s as nat, n as nat);
    assert(fwd(n, s, n) == s);
    let nm1 = (n - 1) as nat;
    lemma_ahead_bounds(disabled, s, nm1, nm1);
    assert(enabled_ahead(disabled, s, n as nat) == enabled_ahead(disabled, s, nm1) + 1);
    if k == 0 {
        assert(fwd(n, s, 0) == s);
    } else {
        let k1 = (k - 1) as nat;
        lemma_cycle_exact(disabled, s, k1);
        let d0 = travelled(disabled, s, k1);
        let pos = iterate_next(disabled, s, k1);
        lemma_mod_bound(s + d0, n);
        let back = n - d0;
        lemma_fwd_compose(n, s, d0 as int, back);
        assert(fwd(n, pos, back) == s);
        lemma_walk_reaches(disabled, pos, n as nat, back);
        lemma_walk_position(disabled, pos, n as nat);
        lemma_walk_skips(disabled, pos, n as nat);
        let step = walk_dist(disabled, pos, n as nat);
        lemma_ahead_step(disabled, s, d0, step);
        lemma_fwd_compose(n, s, d0 as int, step as int);
        let d1 = travelled(disabled, s, k);
        assert(d1 == d0 + step);
        if d1 < n {
            lemma_ahead_bounds(disabled, s, d1, nm1);
        }
    }
}

proof fn lemma_travelled_grows(disabled: Seq<bool>, s: int, j: nat, k: nat)
    requires
        0 <= s < disabled.len(),
        !disabled[s],
        enabled_count(disabled) >= 2,
        j <= k <= enabled_count(disabled),
    ensures
        travelled(disabled, s, j) + (k - j) <= travelled(disabled, s, k),
    decreases k,
{
    if j < k {
        lemma_cycle_exact(disabled, s, k);
        lemma_travelled_grows(disabled, s, j, (k - 1) as nat);
    }
}

/// From an enabled tab, with `E >= 2` tabs enabled, "next tab" comes back to
/// the start for the first time after exactly `E` presses, and the `E` tabs
/// it focuses on the way are all different.
pub proof fn lemma_switch_next_first_return(disabled: Seq<bool>, s: int)
    requires
        0 <= s < disabled.len(),
        !disabled[s],
        enabled_count(disabled) >= 2,
    ensures
        enabled_count(disabled) <= disabled.len(),
        iterate_next(disabled, s, enabled_count(disabled)) == s,
        forall|k: nat| 1 <= k < enabled_count(disabled) ==> #[trigger] iterate_next(disabled, s, k) != s,
        forall|j: nat, k: nat|
            1 <= j < k <= enabled_count(disabled) ==> #[trigger] iterate_next(disabled, s, j)
                != #[trigger] iterate_next(disabled, s, k),
{
    let n = disabled.len() as int;
    let e = enabled_count(disabled);
    lemma_ahead_all(disabled, s);
    lemma_ahead_bounds(disabled, s, 0, n as nat);
    lemma_cycle_exact(disabled, s, e);
    lemma_mod_add_multiples_vanish(s, n);
    lemma_small_mod(s as nat, n as nat);
    assert forall|k: nat| 1 <= k < e implies #[trigger] iterate_next(disabled, s, k) != s by {
        lemma_cycle_exact(disabled, s, k);
        lemma_fwd_moves(n, s, travelled(disabled, s, k) as int);
    }
    assert forall|j: nat, k: nat| 1 <= j < k <= e implies #[trigger] iterate_next(disabled, s, j)
        != #[trigger] iterate_next(disabled, s, k) by {
        lemma_cycle_exact(disabled, s, j);
        lemma_cycle_exact(disabled, s, k);
        lemma_travelled_grows(disabled, s, j, k);
        let dj = travelled(disabled, s, j) as int;
        let dk = travelled(disabled, s, k) as int;
        lemma_mod_bound(s + dj, n);
        lemma_fwd_compose(n, s, dj, dk - dj);
        lemma_fwd_moves(n, fwd(n, s, dj), dk - dj);
    }
}

} // verus!
