use fleet_manifest::{
    chrono_timestamp, timestamp_string, Manifest, RepoDomain, Vessel, VesselStatus,
    MAX_TRUST_VECTOR, TRUST_SCALE,
};

fn fleet_of(n: usize) -> Manifest {
    let mut m = Manifest::new();
    for i in 0..n {
        m.vessels.push(Vessel::new(&format!("v{}", i), "role", 5000));
    }
    m
}

#[test]
fn timestamp_string_exact_values() {
    assert_eq!(timestamp_string(0), "0");
    assert_eq!(timestamp_string(7), "7");
    assert_eq!(timestamp_string(10), "10");
    assert_eq!(timestamp_string(105), "105");
    assert_eq!(timestamp_string(1_700_000_000), "1700000000");
    assert_eq!(timestamp_string(u64::MAX), "18446744073709551615");
}

#[test]
fn timestamp_reads_back_as_its_number() {
    for n in [0u64, 9, 10, 99, 100, 12345, 1_600_000_001, u64::MAX] {
        let s = timestamp_string(n);
        assert!(!s.is_empty());
        assert!(s.chars().all(|c| c.is_ascii_digit()));
        assert_eq!(s.parse::<u64>().unwrap(), n);
    }
}

#[test]
fn chrono_timestamp_comes_from_the_clock() {
    let s = chrono_timestamp();
    assert!(s.chars().all(|c| c.is_ascii_digit()));
    let secs: u64 = s.parse().unwrap();
    assert!(secs > 1_600_000_000, "clock seconds were not handed on: {}", secs);
}

#[test]
fn trust_vector_boundaries() {
    assert_eq!(Vessel::trust_vector_of(0), 0);
    assert_eq!(Vessel::trust_vector_of(212), 0);
    assert_eq!(Vessel::trust_vector_of(213), 1);
    assert_eq!(Vessel::trust_vector_of(8500), 39);
    assert_eq!(Vessel::trust_vector_of(7000), 32);
    assert_eq!(Vessel::trust_vector_of(9999), 46);
    assert_eq!(Vessel::trust_vector_of(TRUST_SCALE), MAX_TRUST_VECTOR);
    assert_eq!(Vessel::trust_vector_of(u32::MAX), MAX_TRUST_VECTOR);
}

#[test]
fn trust_vector_is_monotone_and_bounded() {
    let mut prev = 0u8;
    for t in (0..=30000u32).step_by(37) {
        let tv = Vessel::trust_vector_of(t);
        assert!(tv >= prev);
        assert!(tv <= MAX_TRUST_VECTOR);
        prev = tv;
    }
}

#[test]
fn builders_keep_trust_and_vector() {
    let v = Vessel::new("n", "r", 7000)
        .with_repo("o/r")
        .with_status(VesselStatus::Offline)
        .with_endpoint("http://e:1");
    assert_eq!(v.trust, 7000);
    assert_eq!(v.trust_vector, 32);
    assert_eq!(v.name, "n");
    assert_eq!(v.role, "r");
    assert!(matches!(v.status, VesselStatus::Offline));
}

#[test]
fn lamant_rigid_exactly_for_two_or_three() {
    for n in 0..15usize {
        let (rigid, edges, expected) = fleet_of(n).lamant_rigid();
        if n < 2 {
            assert_eq!((rigid, edges, expected), (false, 0, 0));
        } else {
            assert_eq!(edges, n * (n - 1) / 2);
            assert_eq!(expected, 2 * n - 3);
        }
        assert_eq!(rigid, n == 2 || n == 3);
        assert_eq!(rigid, n >= 2 && edges == expected);
    }
}

#[test]
fn trusted_keeps_manifest_order() {
    let m = Manifest::current_fleet();
    let names: Vec<&str> = m.trusted(7000).iter().map(|v| v.name.as_str()).collect();
    assert_eq!(names, vec!["oracle1", "fm", "jc1", "ccc"]);
    let all: Vec<&str> = m.trusted(0).iter().map(|v| v.name.as_str()).collect();
    assert_eq!(all, vec!["oracle1", "fm", "jc1", "ccc", "test-probe"]);
}

#[test]
fn trusted_matches_is_trusted() {
    let m = Manifest::current_fleet();
    for t in [0u32, 4999, 5000, 7001, 8500, 8501, 10000, 10001] {
        let got = m.trusted(t);
        let want: Vec<&Vessel> = m.vessels.iter().filter(|v| v.is_trusted(t)).collect();
        assert_eq!(got.len(), want.len());
        for (a, b) in got.iter().zip(want.iter()) {
            assert_eq!(a.name, b.name);
        }
    }
}

#[test]
fn trusted_shrinks_as_threshold_rises() {
    let m = Manifest::current_fleet();
    let low = m.trusted(7000);
    let high = m.trusted(8500);
    assert_eq!(high.len(), 2);
    for v in &high {
        assert!(low.iter().any(|w| w.name == v.name));
    }
}

#[test]
fn current_fleet_trust_vectors() {
    let m = Manifest::current_fleet();
    let tvs: Vec<u8> = m.vessels.iter().map(|v| v.trust_vector).collect();
    assert_eq!(tvs, vec![47, 39, 35, 32, 23]);
    let jc1 = &m.vessels[2];
    assert_eq!(jc1.endpoint, Some("http://146.7.52.185:8847".to_string()));
    assert_eq!(jc1.repo, Some("SuperInstance/jetsonclaw1-vessel".to_string()));
    assert!(m.vessels[1].endpoint.is_none());
}

#[test]
fn default_is_an_empty_manifest() {
    let m = Manifest::default();
    assert!(m.vessels.is_empty());
    assert!(m.last_updated.chars().all(|c| c.is_ascii_digit()));
}

#[test]
fn repo_urls_are_prefix_and_name() {
    for r in Manifest::current_repos() {
        assert_eq!(r.url, format!("https://github.com/SuperInstance/{}", r.name));
        assert_eq!(r.stars, 0);
        assert!(!matches!(r.domain, RepoDomain::Services));
    }
    let repos = Manifest::current_repos();
    assert_eq!(repos[3].name, "cocapn-glue-core");
    assert!(matches!(repos[3].domain, RepoDomain::Protocol));
    assert_eq!(
        repos[6].description,
        "LLVM backend — CDCL → AVX-512, analog spline computing, 210 tests"
    );
}

#[test]
fn timestamp_from_elapsed_before_epoch_is_zero() {
    assert_eq!(fleet_manifest::timestamp_from_elapsed(None), "0");
    assert_eq!(fleet_manifest::timestamp_from_elapsed(Some(0)), "0");
    assert_eq!(fleet_manifest::timestamp_from_elapsed(Some(42)), "42");
    assert_eq!(fleet_manifest::timestamp_from_elapsed(Some(1_700_000_001)), "1700000001");
}

#[test]
fn stamps_follow_the_clock() {
    let a = fleet_manifest::timestamp_from_elapsed(Some(1_699_999_999));
    let b = fleet_manifest::timestamp_from_elapsed(Some(1_700_000_000));
    assert!(a.parse::<u64>().unwrap() <= b.parse::<u64>().unwrap());
    assert_eq!(
        fleet_manifest::timestamp_from_elapsed(Some(5)),
        fleet_manifest::timestamp_from_elapsed(Some(5))
    );
}

#[test]
fn rigidity_depends_only_on_count() {
    let mut a = Manifest::new();
    let mut b = Manifest::current_fleet();
    b.vessels.truncate(3);
    a.vessels.push(Vessel::new("x", "y", 0));
    a.vessels.push(Vessel::new("z", "w", 20000).with_status(VesselStatus::Offline));
    a.vessels.push(Vessel::new("q", "r", 1));
    assert_eq!(a.lamant_rigid(), b.lamant_rigid());
    assert_eq!(a.lamant_rigid(), (true, 3, 3));
}
