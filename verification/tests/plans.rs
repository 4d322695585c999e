use realfft::{bin_plan, hermitian_sources, spectrum_len, twiddle_indices, zip3, Parity, PlanCache};

#[test]
fn zip3_stops_at_the_shortest() {
    let z = zip3(vec![1, 2, 3], vec!['a', 'b'], vec![true, false, true, false]);
    assert_eq!(z, vec![(1, 'a', true), (2, 'b', false)]);
    let z = zip3(Vec::<u8>::new(), vec![1], vec![2]);
    assert!(z.is_empty());
    let z = zip3(vec![String::from("x"), String::from("y")], vec![1, 2], vec![3, 4]);
    assert_eq!(z, vec![(String::from("x"), 1, 3), (String::from("y"), 2, 4)]);
}

#[test]
fn plan_of_an_odd_spectrum() {
    // 8 samples: 5 bins, one twiddle factor.
    let p = bin_plan(5, 1);
    assert!(p.edges);
    assert_eq!(p.pairs, vec![(0, 1, 3)]);
    assert_eq!(p.center, Some(2));
}

#[test]
fn plan_of_an_even_spectrum() {
    // 10 samples: 6 bins, two twiddle factors.
    let p = bin_plan(6, 2);
    assert!(p.edges);
    assert_eq!(p.pairs, vec![(0, 1, 4), (1, 2, 3)]);
    assert_eq!(p.center, None);
}

#[test]
fn plan_stops_at_the_last_twiddle() {
    let p = bin_plan(6, 1);
    assert_eq!(p.pairs, vec![(0, 1, 4)]);
    let p = bin_plan(6, 5);
    assert_eq!(p.pairs, vec![(0, 1, 4), (1, 2, 3)]);
}

#[test]
fn plan_of_tiny_spectra() {
    let p = bin_plan(1, 0);
    assert!(!p.edges);
    assert!(p.pairs.is_empty());
    assert_eq!(p.center, None);
    let p = bin_plan(0, 3);
    assert!(!p.edges);
    assert!(p.pairs.is_empty());
    let p = bin_plan(2, 0);
    assert!(p.edges);
    assert!(p.pairs.is_empty());
    assert_eq!(p.center, None);
    let p = bin_plan(3, 0);
    assert!(p.edges);
    assert_eq!(p.center, Some(1));
}

#[test]
fn even_plans_treat_each_bin_once() {
    for n in (2..200usize).step_by(2) {
        let m = spectrum_len(n);
        let t = twiddle_indices(n).len();
        let p = bin_plan(m, t);
        assert!(p.edges);
        assert_eq!(p.pairs.len(), t);
        let mut seen = vec![0u32; m];
        seen[0] += 1;
        seen[m - 1] += 1;
        for (j, &(tw, k, l)) in p.pairs.iter().enumerate() {
            assert_eq!(tw, j);
            seen[k] += 1;
            seen[l] += 1;
        }
        if let Some(c) = p.center {
            seen[c] += 1;
        }
        assert!(seen.iter().all(|&c| c == 1), "length {}", n);
    }
}

#[test]
fn hermitian_sources_of_five() {
    let h = hermitian_sources(5);
    assert_eq!(h, vec![(0, false), (1, false), (2, false), (2, true), (1, true)]);
    assert_eq!(hermitian_sources(1), vec![(0, false)]);
}

#[test]
fn hermitian_sources_are_symmetric() {
    for n in (1..100usize).step_by(2) {
        let h = hermitian_sources(n);
        assert_eq!(h.len(), n);
        assert_eq!(h[0], (0, false));
        for p in 1..n {
            assert_eq!(h[p].0, h[n - p].0);
            assert_ne!(h[p].1, h[n - p].1);
            assert!(h[p].0 < spectrum_len(n));
        }
    }
}

#[test]
fn cache_builds_once_per_length() {
    let mut cache: PlanCache<String> = PlanCache::new();
    let mut builds = 0;
    let a = cache.plan(6, |len, parity| {
        builds += 1;
        format!("{} {:?}", len, parity)
    });
    assert_eq!(a, "6 Even");
    let b = cache.plan(6, |len, parity| {
        builds += 1;
        format!("other {} {:?}", len, parity)
    });
    assert_eq!(b, "6 Even");
    let c = cache.plan(7, |len, parity| {
        builds += 1;
        format!("{} {:?}", len, parity)
    });
    assert_eq!(c, "7 Odd");
    assert_eq!(builds, 2);
    assert_eq!(cache.get(6).map(|s| s.as_str()), Some("6 Even"));
    assert_eq!(cache.get(7).map(|s| s.as_str()), Some("7 Odd"));
    assert_eq!(cache.get(8), None);
}

#[test]
fn cache_hands_the_parity_to_the_builder() {
    let mut cache: PlanCache<Parity> = PlanCache::new();
    for len in 0..10usize {
        let p = cache.plan(len, |_, parity| parity);
        assert_eq!(p, Parity::of(len));
    }
}
