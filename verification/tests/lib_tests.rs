use fleet_manifest::Manifest;
use fleet_manifest::{Vessel, TRUST_SCALE};

#[test]
fn test_current_fleet() {
    let manifest = Manifest::current_fleet();
    assert_eq!(manifest.size(), 5);
    let trusted = manifest.trusted(8000);
    assert!(trusted.len() >= 2); // oracle1 and fm at minimum
}

#[test]
fn test_lamant_rigid() {
    let manifest = Manifest::current_fleet();
    let (is_rigid, e, _expected) = manifest.lamant_rigid();
    // V=5, E=10, expected=7 → ratio=1.43 → not rigid (too many edges)
    assert!(!is_rigid, "complete graph of 5 is over-rigid, not Laman-rigid");
    assert_eq!(e, 10);
}

#[test]
fn test_vessel_is_trusted() {
    let v = Vessel::new("test", "role", 8500);
    assert!(v.is_trusted(8000));
    assert!(!v.is_trusted(9000));
}

#[test]
fn test_trust_vector_mapping() {
    let v = Vessel::new("oracle1", "keeper", TRUST_SCALE);
    assert_eq!(v.trust_vector, 47); // max trust → max vector index
}
