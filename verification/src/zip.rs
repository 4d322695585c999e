use vstd::prelude::*;

verus! {

/// The smallest of three lengths.
pub open spec fn min3(a: nat, b: nat, c: nat) -> nat {
    if a <= b && a <= c {
        a
    } else if b <= c {
        b
    } else {
        c
    }
}

/// Walks three sequences in step: the `i`-th triple holds the `i`-th item of each.
/// It stops at the end of the shortest one; the longer ones' remaining items are dropped.
pub fn zip3<A, B, C>(a: Vec<A>, b: Vec<B>, c: Vec<C>) -> (r: Vec<(A, B, C)>)
    ensures
        r.len() == min3(a.len() as nat, b.len() as nat, c.len() as nat),
        r.len() <= a.len() && r.len() <= b.len() && r.len() <= c.len(),
        r.len() == a.len() || r.len() == b.len() || r.len() == c.len(),
        forall|i: int| 0 <= i < r.len() ==> #[trigger] r@[i] == (a@[i], b@[i], c@[i]),
{
    let n = if a.len() <= b.len() && a.len() <= c.len() {
        a.len()
    } else if b.len() <= c.len() {
        b.len()
    } else {
        c.len()
    };
    let ghost a0 = a@;
    let ghost b0 = b@;
    let ghost c0 = c@;
    let mut a = a;
    let mut b = b;
    let mut c = c;
    a.truncate(n);
    b.truncate(n);
    c.truncate(n);
    let mut r: Vec<(A, B, C)> = Vec::new();
    let mut i: usize = 0;
    while i < n
        invariant
            n <= a0.len(),
            n <= b0.len(),
            n <= c0.len(),
            i <= n,
            r.len() == i,
            a@ == a0.subrange(i as int, n as int),
            b@ == b0.subrange(i as int, n as int),
            c@ == c0.subrange(i as int, n as int),
            forall|k: int| 0 <= k < i ==> #[trigger] r@[k] == (a0[k], b0[k], c0[k]),
        decreases n - i,
    {
        let x = a.remove(0);
        let y = b.remove(0);
        let z = c.remove(0);
        r.push((x, y, z));
        i = i + 1;
        assert(a@ =~= a0.subrange(i as int, n as int));
        assert(b@ =~= b0.subrange(i as int, n as int));
        assert(c@ =~= c0.subrange(i as int, n as int));
    }
    r
}

} // verus!
