//! Voting power: fixed-point balance ratios for governance, contribution
//! shares for projects. All arithmetic is exact integer arithmetic.

use vstd::arithmetic::div_mod::{lemma_fundamental_div_mod_converse, lemma_div_is_ordered};
use vstd::prelude::*;

verus! {

/// Decimal digits of the governance fixed-point scale (×1,000,000).
pub const GOVERNANCE_SCALE_DIGITS: u32 = 6;

/// Decimal digits of the project percentage scale (×100).
pub const PROJECT_SCALE_DIGITS: u32 = 2;

/// Ten to the power `k`.
pub open spec fn pow10(k: nat) -> nat
    decreases k,
{
    if k == 0 {
        1
    } else {
        10 * pow10((k - 1) as nat)
    }
}

/// `part / whole` scaled by `10^digits`, rounded down.
pub open spec fn scaled_ratio(part: int, whole: int, digits: nat) -> int {
    part * pow10(digits) / whole
}

/// Governance power: the account's share of each circulating supply at the
/// ×1,000,000 scale, summed; zero when either supply is zero.
pub open spec fn governance_power(
    balance: u128,
    collateral_balance: u128,
    circulating: u128,
    circulating_collateral: u128,
) -> int {
    if circulating == 0 || circulating_collateral == 0 {
        0
    } else {
        scaled_ratio(balance as int, circulating as int, GOVERNANCE_SCALE_DIGITS as nat)
            + scaled_ratio(
            collateral_balance as int,
            circulating_collateral as int,
            GOVERNANCE_SCALE_DIGITS as nat,
        )
    }
}

/// Project power: the account's percentage of the project's contribution
/// hours, rounded down; zero when the project has none.
pub open spec fn project_power(contribution: int, total: int) -> int {
    if total == 0 {
        0
    } else {
        contribution * 100 / total
    }
}

proof fn lemma_pow10_positive(k: nat)
    ensures
        pow10(k) >= 1,
    decreases k,
{
    if k > 0 {
        lemma_pow10_positive((k - 1) as nat);
    }
}

proof fn lemma_pow10_monotone(j: nat, k: nat)
    requires
        j <= k,
    ensures
        pow10(j) <= pow10(k),
    decreases k,
{
    if j < k {
        lemma_pow10_monotone(j, (k - 1) as nat);
        lemma_pow10_positive((k - 1) as nat);
    }
}

proof fn lemma_pow10_eighteen()
    ensures
        pow10(18) == 1_000_000_000_000_000_000,
{
    reveal_with_fuel(pow10, 19);
}

/// `10^k` as a machine integer.
fn pow10_u128(k: u32) -> (r: u128)
    requires
        k <= 18,
    ensures
        r == pow10(k as nat),
{
    let mut r: u128 = 1;
    let mut i: u32 = 0;
    while i < k
        invariant
            i <= k <= 18,
            r == pow10(i as nat),
        decreases k - i,
    {
        proof {
            lemma_pow10_monotone((i + 1) as nat, 18);
            lemma_pow10_eighteen();
        }
        r = r * 10;
        i = i + 1;
    }
    r
}

/// Quotient and remainder of `10 * x` by `w`, for `x < w`, without forming
/// `10 * x`.
fn times_ten_divmod(x: u128, w: u128) -> (r: (u128, u128))
    requires
        x < w,
    ensures
        r.0 * w + r.1 == 10 * x,
        r.1 < w,
        r.0 <= 10,
{
    let mut q: u128 = 0;
    let mut y: u128 = 0;
    let mut j: u128 = 0;
    while j < 10
        invariant
            x < w,
            j <= 10,
            q <= j,
            y < w,
            q * w + y == j * x,
        decreases 10 - j,
    {
        proof {
            assert((q + 1) * w == q * w + w) by (nonlinear_arith);
            assert((j + 1) * x == j * x + x) by (nonlinear_arith);
        }
        if y >= w - x {
            y = y - (w - x);
            q = q + 1;
        } else {
            y = y + x;
        }
        j = j + 1;
    }
    (q, y)
}

/// `rem * 10^digits / whole` for `rem < whole`, computed one decimal digit at
/// a time so that no intermediate value exceeds `whole`.
fn scaled_fraction(rem: u128, whole: u128, digits: u32) -> (r: u128)
    requires
        rem < whole,
        digits <= 18,
    ensures
        r == scaled_ratio(rem as int, whole as int, digits as nat),
        r < pow10(digits as nat),
{
    let mut acc: u128 = 0;
    let mut x: u128 = rem;
    let mut i: u32 = 0;
    proof {
        lemma_pow10_eighteen();
        assert(pow10(0) == 1);
        assert(acc * whole + x == rem * pow10(0)) by (nonlinear_arith)
            requires
                acc == 0,
                x == rem,
                pow10(0) == 1,
        ;
    }
    while i < digits
        invariant
            rem < whole,
            i <= digits <= 18,
            x < whole,
            acc * whole + x == rem * pow10(i as nat),
            acc < pow10(i as nat),
            pow10(18) == 1_000_000_000_000_000_000,
        decreases digits - i,
    {
        let (q, y) = times_ten_divmod(x, whole);
        proof {
            lemma_pow10_monotone((i + 1) as nat, 18);
            let p = pow10(i as nat) as int;
            assert(pow10((i + 1) as nat) == 10 * p);
            assert((10 * acc + q) * whole + y == rem * (10 * p)) by (nonlinear_arith)
                requires
                    acc * whole + x == rem * p,
                    q * whole + y == 10 * x,
            ;
            let a2 = 10 * acc + q;
            assert(a2 < 10 * p) by (nonlinear_arith)
                requires
                    a2 * whole + y == rem * (10 * p),
                    rem < whole,
                    0 <= y,
                    p >= 1,
                    0 <= a2,
            ;
        }
        acc = 10 * acc + q;
        x = y;
        i = i + 1;
    }
    proof {
        let p = pow10(digits as nat) as int;
        assert(rem * p == acc * whole + x);
        lemma_fundamental_div_mod_converse(rem * p, whole as int, acc as int, x as int);
    }
    acc
}

/// `part * 10^digits / whole`, or `None` exactly when that value does not fit
/// in a `u128`. The product `part * 10^digits` is never formed.
pub fn scaled_share(part: u128, whole: u128, digits: u32) -> (r: Option<u128>)
    requires
        whole > 0,
        digits <= 18,
    ensures
        match r {
            Some(v) => v == scaled_ratio(part as int, whole as int, digits as nat),
            None => scaled_ratio(part as int, whole as int, digits as nat) > u128::MAX,
        },
{
    let q = part / whole;
    let rem = part % whole;
    let frac = scaled_fraction(rem, whole, digits);
    let scale = pow10_u128(digits);
    proof {
        let p = pow10(digits as nat) as int;
        lemma_pow10_positive(digits as nat);
        let (pa, w, rm, qq) = (part as int, whole as int, rem as int, q as int);
        let f = rm * p / w;
        let m = (rm * p) % w;
        vstd::arithmetic::div_mod::lemma_fundamental_div_mod(pa, w);
        assert(pa == qq * w + rm) by (nonlinear_arith)
            requires
                pa == w * qq + rm,
        ;
        assert(pa * p == (qq * p) * w + rm * p) by (nonlinear_arith)
            requires
                pa == qq * w + rm,
        ;
        vstd::arithmetic::div_mod::lemma_fundamental_div_mod(rm * p, w);
        assert(rm * p == f * w + m) by (nonlinear_arith)
            requires
                rm * p == w * f + m,
        ;
        assert(pa * p == (qq * p + f) * w + m) by (nonlinear_arith)
            requires
                pa * p == (qq * p) * w + rm * p,
                rm * p == f * w + m,
        ;
        vstd::arithmetic::div_mod::lemma_mod_pos_bound(rm * p, w);
        lemma_fundamental_div_mod_converse(pa * p, w, qq * p + f, m);
        assert(qq * p >= 0) by (nonlinear_arith)
            requires
                qq >= 0,
                p >= 1,
        ;
    }
    match q.checked_mul(scale) {
        Some(whole_units) => whole_units.checked_add(frac),
        None => None,
    }
}

/// Governance voting power from an account's balances and the circulating
/// supplies; `None` exactly when the power does not fit in a `u128`. Either
/// supply being zero gives zero power, never a division.
pub fn governance_voting_power(
    balance: u128,
    collateral_balance: u128,
    circulating: u128,
    circulating_collateral: u128,
) -> (r: Option<u128>)
    ensures
        circulating == 0 || circulating_collateral == 0 ==> r == Some(0u128),
        match r {
            Some(v) => v == governance_power(
                balance,
                collateral_balance,
                circulating,
                circulating_collateral,
            ),
            None => governance_power(
                balance,
                collateral_balance,
                circulating,
                circulating_collateral,
            ) > u128::MAX,
        },
{
    if circulating == 0 || circulating_collateral == 0 {
        return Some(0);
    }
    let primary = scaled_share(balance, circulating, GOVERNANCE_SCALE_DIGITS);
    let collateral = scaled_share(collateral_balance, circulating_collateral, GOVERNANCE_SCALE_DIGITS);
    proof {
        lemma_pow10_positive(GOVERNANCE_SCALE_DIGITS as nat);
        let p = pow10(GOVERNANCE_SCALE_DIGITS as nat) as int;
        assert(balance * p >= 0) by (nonlinear_arith)
            requires
                p >= 1,
        ;
        assert(collateral_balance * p >= 0) by (nonlinear_arith)
            requires
                p >= 1,
        ;
        lemma_div_is_ordered(0, balance * p, circulating as int);
        lemma_div_is_ordered(0, collateral_balance * p, circulating_collateral as int);
    }
    match (primary, collateral) {
        (Some(a), Some(b)) => a.checked_add(b),
        _ => None,
    }
}

/// Project voting power for a contribution out of a project's total hours.
/// A contribution never exceeds the total it is part of, so the result is at
/// most 100.
pub fn project_voting_power(contribution: u128, total: u128) -> (r: u128)
    requires
        contribution <= total,
    ensures
        r == project_power(contribution as int, total as int),
        r <= 100,
{
    if total == 0 {
        return 0;
    }
    proof {
        reveal_with_fuel(pow10, 3);
        assert(contribution * 100 <= total * 100) by (nonlinear_arith)
            requires
                contribution <= total,
        ;
        lemma_div_is_ordered(contribution * 100, total * 100, total as int);
        vstd::arithmetic::div_mod::lemma_div_multiples_vanish(100, total as int);
        assert(total * 100 == 100 * total) by (nonlinear_arith);
    }
    match scaled_share(contribution, total, PROJECT_SCALE_DIGITS) {
        Some(v) => v,
        None => 0,
    }
}

} // verus!
