use vstd::prelude::*;
use crate::layout::{spectrum_len_of, twiddle_count};
use crate::zip::{min3, zip3};

verus! {

/// The number of bin pairs that an even transform with an `m`-bin half spectrum and `t` twiddle
/// factors treats: the interior bins of the lower half, those of the upper half and the twiddle
/// factors are walked in step, and the walk ends with the shortest of the three.
pub open spec fn pair_count(m: nat, t: nat) -> nat {
    if m >= 2 {
        min3(t, (m / 2 - 1) as nat, (m - 1 - m / 2) as nat)
    } else {
        0
    }
}

/// The bin of the lower half that the `j`-th pair treats.
pub open spec fn lower_bin(j: int) -> int {
    j + 1
}

/// The bin of the upper half of an `m`-bin half spectrum that the `j`-th pair treats.
pub open spec fn upper_bin(m: int, j: int) -> int {
    m - 2 - j
}

/// Whether bin `i` of an `m`-bin half spectrum belongs to one of the first `t` pairs.
pub open spec fn paired(m: int, t: int, i: int) -> bool {
    exists|j: int| 0 <= j < t && (i == #[trigger] lower_bin(j) || i == upper_bin(m, j))
}

/// The bins of an `m`-bin half spectrum that an even transform treats, and how.
///
/// The first and last bins are treated together (`edges`). When there are fewer than two bins
/// there is nothing else to treat. Otherwise each triple `(j, k, l)` of `pairs` treats bin `k`
/// of the lower half together with bin `l` of the upper half, using twiddle factor `j`; and when
/// `m` is odd, the centre bin is treated on its own.
pub struct BinPlan {
    pub edges: bool,
    pub pairs: Vec<(usize, usize, usize)>,
    pub center: Option<usize>,
}

/// The integers `from, from + 1, ..., to - 1` (none when `to <= from`).
fn ascending(from: usize, to: usize) -> (r: Vec<usize>)
    ensures
        r.len() == (if from <= to { to - from } else { 0 }),
        forall|j: int| 0 <= j < r.len() ==> #[trigger] r@[j] == from + j,
{
    let mut r: Vec<usize> = Vec::new();
    let mut i: usize = from;
    while i < to
        invariant
            from <= i,
            i <= to || i == from,
            r.len() == i - from,
            forall|j: int| 0 <= j < r.len() ==> #[trigger] r@[j] == from + j,
        decreases to - i,
    {
        r.push(i);
        i = i + 1;
    }
    r
}

/// The `count` integers `top, top - 1, ..., top - count + 1`.
fn descending(top: usize, count: usize) -> (r: Vec<usize>)
    requires
        count <= top + 1,
    ensures
        r.len() == count,
        forall|j: int| 0 <= j < r.len() ==> #[trigger] r@[j] == top - j,
{
    let mut r: Vec<usize> = Vec::new();
    let mut j: usize = 0;
    while j < count
        invariant
            j <= count,
            count <= top + 1,
            r.len() == j,
            forall|k: int| 0 <= k < r.len() ==> #[trigger] r@[k] == top - k,
        decreases count - j,
    {
        r.push(top - j);
        j = j + 1;
    }
    r
}

/// The treatment plan of an `m`-bin half spectrum for an even transform with `t` twiddle
/// factors (see `BinPlan`).
pub fn bin_plan(m: usize, t: usize) -> (p: BinPlan)
    ensures
        p.edges == (m >= 2),
        p.pairs.len() == pair_count(m as nat, t as nat),
        forall|j: int|
            0 <= j < p.pairs.len() ==> {
                &&& (#[trigger] p.pairs@[j]).0 == j
                &&& p.pairs@[j].1 == lower_bin(j)
                &&& p.pairs@[j].2 == upper_bin(m as int, j)
                &&& p.pairs@[j].1 == j + 1
                &&& p.pairs@[j].2 == m - 2 - j
            },
        m < 2 ==> p.pairs.len() == 0,
        m >= 2 ==> p.pairs.len() == (if t <= (m - 2) / 2 {
            t as int
        } else {
            (m - 2) / 2
        }),
        p.center == (if m >= 2 && m % 2 == 1 {
            Some((m / 2) as usize)
        } else {
            None::<usize>
        }),
{
    if m < 2 {
        return BinPlan { edges: false, pairs: Vec::new(), center: None };
    }
    let half = m / 2;
    // The lower half is the bins 0..half, the upper half the bins half..m; the first and last
    // bins are the edges, and the upper half is walked from its end.
    let twiddles = ascending(0, t);
    let lower = ascending(1, half);
    let upper = descending(m - 2, m - 1 - half);
    let pairs = zip3(twiddles, lower, upper);
    let center = if m % 2 == 1 {
        Some(half)
    } else {
        None
    };
    BinPlan { edges: true, pairs, center }
}

/// Where bin `p` of the full spectrum of an odd `n`-sample real signal is found in its half
/// spectrum: the bin's index there, and whether it must be conjugated.
pub open spec fn hermitian_source(n: nat, p: nat) -> (nat, bool) {
    if p < spectrum_len_of(n) {
        (p, false)
    } else {
        ((n - p) as nat, true)
    }
}

/// For each bin `p` of the full spectrum of an odd `n`-sample real signal, where it is found in
/// the half spectrum (see `hermitian_source`). The half spectrum is copied to the front, and its
/// bins after the first are conjugated into the back in reverse order.
pub fn hermitian_sources(n: usize) -> (r: Vec<(usize, bool)>)
    requires
        n % 2 == 1,
    ensures
        r.len() == n,
        forall|p: int|
            0 <= p < n ==> (#[trigger] r@[p]).0 == hermitian_source(n as nat, p as nat).0
                && r@[p].1 == hermitian_source(n as nat, p as nat).1,
        forall|p: int| 0 <= p <= n / 2 ==> #[trigger] r@[p] == (p as usize, false),
        forall|p: int| n / 2 < p < n ==> #[trigger] r@[p] == ((n - p) as usize, true),
{
    let m = n / 2 + 1;
    let mut r: Vec<(usize, bool)> = Vec::new();
    let mut p: usize = 0;
    while p < m
        invariant
            m == n / 2 + 1,
            n % 2 == 1,
            p <= m,
            r.len() == p,
            forall|q: int| 0 <= q < p ==> (#[trigger] r@[q]).0 == q && r@[q].1 == false,
        decreases m - p,
    {
        r.push((p, false));
        p = p + 1;
    }
    // The back holds the conjugates of bins n / 2, ..., 2, 1 of the half spectrum.
    let mut j: usize = n / 2;
    while j > 0
        invariant
            m == n / 2 + 1,
            n % 2 == 1,
            j <= n / 2,
            r.len() == m + (n / 2 - j),
            forall|q: int| 0 <= q < m ==> (#[trigger] r@[q]).0 == q && r@[q].1 == false,
            forall|q: int| m <= q < r.len() ==> (#[trigger] r@[q]).0 == n - q && r@[q].1 == true,
        decreases j,
    {
        r.push((j, true));
        j = j - 1;
    }
    r
}

/// For an even number `n >= 2` of samples, the treatment plan of its half spectrum uses every
/// twiddle factor exactly once and treats every bin exactly once: the edges are the first and
/// last bins; each pair joins a bin strictly inside the lower half with one strictly inside the
/// upper half, both moving inwards as the pairs go on; the centre bin, if any, lies between all
/// pairs; and every other bin belongs to some pair.
pub proof fn lemma_even_plan_treats_each_bin_once(n: nat)
    requires
        n % 2 == 0,
        n >= 2,
    ensures
        ({
            let m = spectrum_len_of(n) as int;
            let t = twiddle_count(n) as int;
            &&& m >= 2
            &&& pair_count(m as nat, t as nat) == t
            &&& forall|j: int|
                0 <= j < t ==> 0 < #[trigger] lower_bin(j) < m / 2 <= upper_bin(m, j) < m - 1
            &&& m % 2 == 1 ==> forall|j: int|
                0 <= j < t ==> #[trigger] lower_bin(j) < m / 2 < upper_bin(m, j)
            &&& forall|i: int|
                0 < i < m - 1 && !(m % 2 == 1 && i == m / 2) ==> #[trigger] paired(m, t, i)
        }),
{
    let m = spectrum_len_of(n) as int;
    let t = twiddle_count(n) as int;
    assert forall|i: int| 0 < i < m - 1 && !(m % 2 == 1 && i == m / 2) implies #[trigger] paired(
        m,
        t,
        i,
    ) by {
        if i < m / 2 {
            assert(lower_bin(i - 1) == i);
        } else {
            assert(upper_bin(m, m - 2 - i) == i);
            assert(lower_bin(m - 2 - i) == m - 1 - i);
        }
    }
}

/// For an odd number `n` of samples, the full spectrum is rebuilt by copying the half spectrum
/// unconjugated to the front (bins `0..=n/2`) and filling the back (bins `n/2+1..n`) with the
/// conjugates of bins `n/2, ..., 1`, the mirror images about `n / 2`.
pub proof fn lemma_half_spectrum_copied_to_front(n: nat)
    requires
        n % 2 == 1,
    ensures
        forall|p: nat| p < n / 2 + 1 ==> #[trigger] hermitian_source(n, p) == (p, false),
        forall|p: nat|
            n / 2 + 1 <= p < n ==> #[trigger] hermitian_source(n, p) == ((n - p) as nat, true)
                && 1 <= n - p <= n / 2,
{
}

/// For every half spectrum of `m` bins and every number `t` of twiddle factors, each pair joins
/// a lower-half bin with an upper-half bin, never the first or last bin, and later pairs lie
/// strictly inside earlier ones; there are as many pairs as twiddle factors allow, up to the
/// number of interior bins of the lower half.
pub proof fn lemma_pairs_nest_inwards(m: nat, t: nat)
    requires
        m >= 2,
    ensures
        pair_count(m, t) <= t,
        pair_count(m, t) <= (m - 2) / 2,
        pair_count(m, t) == t || pair_count(m, t) == (m - 2) / 2,
        forall|j: int|
            0 <= j < pair_count(m, t) ==> 0 < #[trigger] lower_bin(j) < upper_bin(m as int, j) < m
                - 1 && lower_bin(j) < m / 2 && upper_bin(m as int, j) >= m / 2,
        forall|j: int| 0 <= j < pair_count(m, t) ==> #[trigger] lower_bin(j) == j + 1,
        forall|j: int| 0 <= j < pair_count(m, t) ==> #[trigger] upper_bin(m as int, j) == m - 2 - j,
{
}

/// For an odd number `n` of samples, the full spectrum rebuilt from the half spectrum is
/// Hermitian: bin 0 is taken as it is, every source lies in the half spectrum, and for every
/// other bin `p`, bins `p` and `n - p` come from the same half-spectrum bin, exactly one of them
/// conjugated.
pub proof fn lemma_hermitian_symmetry(n: nat)
    requires
        n % 2 == 1,
    ensures
        hermitian_source(n, 0) == (0nat, false),
        forall|p: nat| p < n ==> #[trigger] hermitian_source(n, p).0 < spectrum_len_of(n),
        forall|p: nat|
            0 < p < n ==> #[trigger] hermitian_source(n, p).0 == hermitian_source(
                n,
                (n - p) as nat,
            ).0 && hermitian_source(n, p).1 != hermitian_source(n, (n - p) as nat).1,
{
}

} // verus!
