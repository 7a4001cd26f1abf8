//! Timing statistics of an accepted submission: the mean of the measured
//! durations and their jitter, the largest distance of one of them from the mean.
//! Durations are whole nanoseconds.

use vstd::prelude::*;

verus! {

/// The sum of the durations.
pub open spec fn total(d: Seq<u64>) -> int
    decreases d.len(),
{
    if d.len() == 0 {
        0
    } else {
        total(d.drop_last()) + d.last()
    }
}

/// The mean of the durations, rounded down to a whole nanosecond.
pub open spec fn mean(d: Seq<u64>) -> int
    recommends
        d.len() > 0,
{
    total(d) / (d.len() as int)
}

/// The distance between two points in time.
pub open spec fn distance(a: int, b: int) -> int {
    if a >= b {
        a - b
    } else {
        b - a
    }
}

/// The largest distance of one of the durations from `m`; 0 where there is none.
pub open spec fn spread(d: Seq<u64>, m: int) -> int
    decreases d.len(),
{
    if d.len() == 0 {
        0
    } else {
        let rest = spread(d.drop_last(), m);
        let here = distance(d.last() as int, m);
        if here > rest {
            here
        } else {
            rest
        }
    }
}

/// The jitter: the largest distance of a duration from the mean.
pub open spec fn jitter(d: Seq<u64>) -> int
    recommends
        d.len() > 0,
{
    spread(d, mean(d))
}

/// The shortest of the durations.
pub open spec fn shortest(d: Seq<u64>) -> int
    recommends
        d.len() > 0,
    decreases d.len(),
{
    if d.len() <= 1 {
        d.last() as int
    } else {
        let rest = shortest(d.drop_last());
        if d.last() < rest {
            d.last() as int
        } else {
            rest
        }
    }
}

/// The longest of the durations.
pub open spec fn longest(d: Seq<u64>) -> int
    recommends
        d.len() > 0,
    decreases d.len(),
{
    if d.len() <= 1 {
        d.last() as int
    } else {
        let rest = longest(d.drop_last());
        if d.last() > rest {
            d.last() as int
        } else {
            rest
        }
    }
}

/// Every duration lies between the shortest and the longest.
pub proof fn lemma_extremes(d: Seq<u64>)
    requires
        d.len() > 0,
    ensures
        shortest(d) <= longest(d),
        forall|i: int| 0 <= i < d.len() ==> shortest(d) <= #[trigger] d[i] <= longest(d),
        exists|i: int| 0 <= i < d.len() && d[i] == shortest(d),
        exists|i: int| 0 <= i < d.len() && d[i] == longest(d),
    decreases d.len(),
{
    if d.len() == 1 {
        assert(d[0] == shortest(d));
        assert(d[0] == longest(d));
    } else {
        let p = d.drop_last();
        lemma_extremes(p);
        let lo = choose|i: int| 0 <= i < p.len() && p[i] == shortest(p);
        let hi = choose|i: int| 0 <= i < p.len() && p[i] == longest(p);
        assert(d[lo] == p[lo] && d[hi] == p[hi]);
        let last = d.len() - 1;
        assert(d[if d.last() < shortest(p) { last } else { lo }] == shortest(d));
        assert(d[if d.last() > longest(p) { last } else { hi }] == longest(d));
        assert forall|i: int| 0 <= i < d.len() implies shortest(d) <= #[trigger] d[i] <= longest(
            d,
        ) by {
            if i < p.len() {
                assert(d[i] == p[i]);
            }
        }
    }
}

/// The sum lies between as many times the shortest and the longest duration.
pub proof fn lemma_total_bounds(d: Seq<u64>, lo: int, hi: int)
    requires
        forall|i: int| 0 <= i < d.len() ==> lo <= #[trigger] d[i] <= hi,
    ensures
        d.len() * lo <= total(d) <= d.len() * hi,
    decreases d.len(),
{
    if d.len() > 0 {
        let p = d.drop_last();
        assert forall|i: int| 0 <= i < p.len() implies lo <= #[trigger] p[i] <= hi by {
            assert(p[i] == d[i]);
        }
        lemma_total_bounds(p, lo, hi);
        assert(d.len() * lo == p.len() * lo + lo) by (nonlinear_arith)
            requires
                d.len() == p.len() + 1,
        ;
        assert(d.len() * hi == p.len() * hi + hi) by (nonlinear_arith)
            requires
                d.len() == p.len() + 1,
        ;
    }
}

/// A quotient lies between the bounds of the average.
pub proof fn lemma_quotient_between(t: int, n: int, lo: int, hi: int)
    requires
        n > 0,
        n * lo <= t <= n * hi,
    ensures
        lo <= t / n <= hi,
{
    assert(lo <= t / n <= hi) by (nonlinear_arith)
        requires
            n > 0,
            n * lo <= t <= n * hi,
    ;
}

/// The spread about `m` is the distance of one of the durations, and no
/// duration is farther from `m`.
pub proof fn lemma_spread(d: Seq<u64>, m: int)
    ensures
        0 <= spread(d, m),
        forall|i: int| 0 <= i < d.len() ==> distance(#[trigger] d[i] as int, m) <= spread(d, m),
        d.len() > 0 ==> exists|i: int| 0 <= i < d.len() && distance(d[i] as int, m) == spread(d, m),
    decreases d.len(),
{
    if d.len() > 0 {
        let p = d.drop_last();
        lemma_spread(p, m);
        let last = d.len() - 1;
        assert forall|i: int| 0 <= i < d.len() implies distance(#[trigger] d[i] as int, m)
            <= spread(d, m) by {
            if i < p.len() {
                assert(p[i] == d[i]);
            }
        }
        if distance(d.last() as int, m) > spread(p, m) || p.len() == 0 {
            assert(distance(d[last] as int, m) == spread(d, m));
        } else {
            let w = choose|i: int| 0 <= i < p.len() && distance(p[i] as int, m) == spread(p, m);
            assert(p[w] == d[w]);
            assert(distance(d[w] as int, m) == spread(d, m));
        }
    }
}

/// The mean lies between the shortest and the longest duration, and the
/// jitter is at least 0 and at most the distance between those two.
pub proof fn lemma_timing_sound(d: Seq<u64>)
    requires
        d.len() > 0,
    ensures
        shortest(d) <= mean(d) <= longest(d),
        0 <= jitter(d) <= longest(d) - shortest(d),
{
    lemma_extremes(d);
    lemma_total_bounds(d, shortest(d), longest(d));
    lemma_quotient_between(total(d), d.len() as int, shortest(d), longest(d));
    lemma_spread(d, mean(d));
}

/// The mean and the jitter of the measured durations; `None` where nothing
/// was measured.
pub fn mean_and_jitter(d: &Vec<u64>) -> (r: Option<(u64, u64)>)
    ensures
        r is None <==> d@.len() == 0,
        r matches Some((m, j)) ==> m == mean(d@) && j == jitter(d@),
{
    let n = d.len();
    if n == 0 {
        return None;
    }
    let mut sum: u128 = 0;
    let mut i: usize = 0;
    while i < n
        invariant
            n == d.len(),
            i <= n,
            sum == total(d@.take(i as int)),
            sum <= i * 0xffff_ffff_ffff_ffff,
        decreases n - i,
    {
        proof {
            assert(d@.take(i + 1).drop_last() =~= d@.take(i as int));
        }
        sum = sum + d[i] as u128;
        i += 1;
    }
    proof {
        assert(d@.take(n as int) =~= d@);
        lemma_timing_sound(d@);
        lemma_extremes(d@);
    }
    let m: u64 = (sum / (n as u128)) as u64;
    let mut j: u64 = 0;
    let mut k: usize = 0;
    while k < n
        invariant
            n == d.len(),
            k <= n,
            j == spread(d@.take(k as int), m as int),
        decreases n - k,
    {
        proof {
            assert(d@.take(k + 1).drop_last() =~= d@.take(k as int));
        }
        let here = if d[k] >= m {
            d[k] - m
        } else {
            m - d[k]
        };
        if here > j {
            j = here;
        }
        k += 1;
    }
    proof {
        assert(d@.take(n as int) =~= d@);
    }
    Some((m, j))
}

} // verus!
