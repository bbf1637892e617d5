//! Integer arithmetic shared by the planners: truncating division, integer
//! square roots and angle wrapping.
use vstd::prelude::*;
use crate::rl::{PI, TAU};

verus! {

/// Division that rounds toward zero, as machine division does.
pub open spec fn div_trunc(a: int, b: int) -> int
    recommends
        b > 0,
{
    if a >= 0 {
        a / b
    } else {
        -((-a) / b)
    }
}

/// The distance of `a` from zero.
pub open spec fn abs(a: int) -> int {
    if a >= 0 {
        a
    } else {
        -a
    }
}

/// Dividing a number that is within `limit * b` of zero by `b` leaves one
/// that is within `limit` of zero.
pub proof fn lemma_div_trunc_within(a: int, b: int, limit: int)
    requires
        b > 0,
        limit >= 0,
        -(limit * b) <= a <= limit * b,
    ensures
        -limit <= div_trunc(a, b) <= limit,
        a >= 0 ==> div_trunc(a, b) >= 0,
        a <= 0 ==> div_trunc(a, b) <= 0,
{
    let m = if a >= 0 {
        a
    } else {
        -a
    };
    assert(limit * b == b * limit) by (nonlinear_arith);
    vstd::arithmetic::div_mod::lemma_div_is_ordered(m, limit * b, b);
    vstd::arithmetic::div_mod::lemma_div_multiples_vanish(limit, b);
    vstd::arithmetic::div_mod::lemma_div_pos_is_pos(m, b);
}

/// `r` is the square root of `n`, rounded down.
pub open spec fn is_floor_sqrt(n: int, r: int) -> bool {
    0 <= r && r * r <= n < (r + 1) * (r + 1)
}

/// A number has at most one rounded-down square root.
pub proof fn lemma_floor_sqrt_unique(n: int, r1: int, r2: int)
    requires
        is_floor_sqrt(n, r1),
        is_floor_sqrt(n, r2),
    ensures
        r1 == r2,
{
    if r1 < r2 {
        assert((r1 + 1) * (r1 + 1) <= r2 * r2) by (nonlinear_arith)
            requires
                0 <= r1,
                r1 + 1 <= r2,
        ;
    } else if r2 < r1 {
        assert((r2 + 1) * (r2 + 1) <= r1 * r1) by (nonlinear_arith)
            requires
                0 <= r2,
                r2 + 1 <= r1,
        ;
    }
}

/// The square root of `n`, rounded down; zero for a negative `n`.
pub open spec fn floor_sqrt(n: int) -> int {
    if n < 0 {
        0
    } else {
        choose|r: int| is_floor_sqrt(n, r)
    }
}

/// Every number from zero on has a rounded-down square root, and
/// `floor_sqrt` is it.
pub proof fn lemma_floor_sqrt(n: int)
    requires
        n >= 0,
    ensures
        is_floor_sqrt(n, floor_sqrt(n)),
    decreases n,
{
    if n == 0 {
        assert(is_floor_sqrt(0, 0));
    } else {
        lemma_floor_sqrt(n - 1);
        let r = floor_sqrt(n - 1);
        if n < (r + 1) * (r + 1) {
            assert(is_floor_sqrt(n, r));
        } else {
            assert((r + 1) * (r + 1) <= n < (r + 2) * (r + 2)) by (nonlinear_arith)
                requires
                    0 <= r,
                    r * r <= n - 1 < (r + 1) * (r + 1),
                    n >= (r + 1) * (r + 1),
            ;
            assert(is_floor_sqrt(n, r + 1));
        }
    }
}

/// The square root of `n`, rounded down.
pub fn isqrt(n: u128) -> (r: u64)
    ensures
        is_floor_sqrt(n as int, r as int),
        r == floor_sqrt(n as int),
{
    proof {
        lemma_floor_sqrt(n as int);
    }
    let mut lo: u128 = 0;
    let mut hi: u128 = 0x1_0000_0000_0000_0000;
    assert(0x1_0000_0000_0000_0000int * 0x1_0000_0000_0000_0000int > u128::MAX) by (nonlinear_arith);
    while hi - lo > 1
        invariant
            lo < hi <= 0x1_0000_0000_0000_0000,
            lo * lo <= n,
            n < hi * hi,
        decreases hi - lo,
    {
        let mid: u128 = lo + (hi - lo) / 2;
        assert(mid * mid <= 0xFFFF_FFFF_FFFF_FFFFint * 0xFFFF_FFFF_FFFF_FFFFint)
            by (nonlinear_arith)
            requires
                0 <= mid <= 0xFFFF_FFFF_FFFF_FFFFint,
        ;
        assert(0xFFFF_FFFF_FFFF_FFFFint * 0xFFFF_FFFF_FFFF_FFFFint <= u128::MAX) by (nonlinear_arith);
        if mid * mid <= n {
            lo = mid;
        } else {
            hi = mid;
        }
    }
    proof {
        lemma_floor_sqrt_unique(n as int, lo as int, floor_sqrt(n as int));
    }
    lo as u64
}

/// `a` lies within half a turn of zero. The angles from `-PI` to `PI` are
/// `TAU` in number: each direction has exactly one of them.
pub open spec fn is_wrapped(a: int) -> bool {
    -PI <= a <= PI
}

/// The angle within half a turn of zero that differs from `a` by whole turns.
pub open spec fn wrap_angle(a: int) -> int {
    (a + PI) % (TAU as int) - PI
}

/// Brings an angle to within half a turn of zero by adding or removing whole
/// turns.
pub fn normalize_angle(a: i64) -> (r: i64)
    requires
        a <= i64::MAX - PI,
    ensures
        r == wrap_angle(a as int),
        is_wrapped(r as int),
        (r - a) % (TAU as int) == 0,
{
    let shifted: i64 = a + PI;
    let rem: i64 = shifted % TAU;
    let m: i64 = if rem < 0 {
        rem + TAU
    } else {
        rem
    };
    proof {
        lemma_rem_matches(shifted as int, rem as int, TAU as int);
        lemma_wrap_congruent(a as int);
    }
    m - PI
}

proof fn lemma_rem_matches(s: int, rem: int, t: int)
    requires
        t > 0,
        rem == if s >= 0 {
            s % t
        } else {
            -((-s) % t)
        },
    ensures
        (if rem < 0 {
            rem + t
        } else {
            rem
        }) == s % t,
{
    if s < 0 {
        vstd::arithmetic::div_mod::lemma_fundamental_div_mod(s, t);
        vstd::arithmetic::div_mod::lemma_fundamental_div_mod(-s, t);
        let q1 = s / t;
        let q2 = (-s) / t;
        let r1 = s % t;
        let r2 = (-s) % t;
        let k = -(q1 + q2);
        assert(r1 + r2 == t * k) by (nonlinear_arith)
            requires
                s == t * q1 + r1,
                -s == t * q2 + r2,
                k == -(q1 + q2),
        ;
        assert(k == 0 || k == 1) by (nonlinear_arith)
            requires
                0 <= r1 + r2 < 2 * t,
                r1 + r2 == t * k,
                t > 0,
        ;
        assert(r1 + r2 == 0 || r1 + r2 == t) by (nonlinear_arith)
            requires
                r1 + r2 == t * k,
                k == 0 || k == 1,
        ;
    }
}

/// An angle and its wrapped form differ by whole turns.
pub proof fn lemma_wrap_congruent(a: int)
    ensures
        is_wrapped(wrap_angle(a)),
        (wrap_angle(a) - a) % (TAU as int) == 0,
        is_wrapped(a) ==> wrap_angle(a) == a,
{
    let t = TAU as int;
    vstd::arithmetic::div_mod::lemma_fundamental_div_mod(a + PI, t);
    let q = (a + PI) / t;
    let m = (a + PI) % t;
    assert(wrap_angle(a) - a == t * (-q)) by (nonlinear_arith)
        requires
            a + PI == t * q + m,
            wrap_angle(a) == m - PI,
    ;
    vstd::arithmetic::div_mod::lemma_mod_multiples_basic(-q, t);
    assert(t * (-q) == (-q) * t) by (nonlinear_arith);
    if is_wrapped(a) {
        vstd::arithmetic::div_mod::lemma_small_mod((a + PI) as nat, t as nat);
    }
}

} // verus!
