use kms_surface::claim::{ClaimEntry, PlaneClaimStorage};

#[test]
fn plane_exclusivity() {
    let mut storage = PlaneClaimStorage::new();
    let first = storage.claim(5, 42);
    assert!(first.is_some());
    let second = storage.claim(5, 43);
    assert!(second.is_none());
    storage.release(first.unwrap());
    let third = storage.claim(5, 43);
    assert!(third.is_some());
    assert_eq!(storage.holder(5), Some(43));
}

#[test]
fn claim_of_free_plane_records_the_holder() {
    let mut storage = PlaneClaimStorage::new();
    assert_eq!(storage.holder(7), None);
    let token = storage.claim(7, 42).unwrap();
    assert_eq!(token.plane(), 7);
    assert_eq!(token.crtc(), 42);
    assert_eq!(storage.holder(7), Some(42));
}

#[test]
fn same_crtc_claims_are_counted() {
    let mut storage = PlaneClaimStorage::new();
    let a = storage.claim(5, 42).unwrap();
    let b = storage.claim(5, 42).unwrap();
    let c = storage.claim(5, 42).unwrap();
    storage.release(a);
    assert!(storage.claim(5, 43).is_none());
    storage.release(b);
    assert!(storage.claim(5, 43).is_none());
    assert_eq!(storage.holder(5), Some(42));
    storage.release(c);
    assert_eq!(storage.holder(5), None);
    assert!(storage.claim(5, 43).is_some());
}

#[test]
fn claims_on_different_planes_do_not_interfere() {
    let mut storage = PlaneClaimStorage::new();
    let a = storage.claim(5, 42);
    let b = storage.claim(6, 43);
    assert!(a.is_some());
    assert!(b.is_some());
    assert_eq!(storage.holder(5), Some(42));
    assert_eq!(storage.holder(6), Some(43));
}

#[test]
fn release_of_a_foreign_claim_changes_nothing() {
    let mut registry = PlaneClaimStorage::new();
    let mut other = PlaneClaimStorage::new();
    let held = registry.claim(5, 42).unwrap();
    let foreign = other.claim(5, 43).unwrap();
    registry.release(foreign);
    assert_eq!(registry.holder(5), Some(42));
    assert!(registry.claim(5, 43).is_none());
    registry.release(held);
    assert_eq!(registry.holder(5), None);
}

#[test]
fn refused_claim_leaves_the_count() {
    let mut storage = PlaneClaimStorage::new();
    let held = storage.claim(5, 42).unwrap();
    assert!(storage.claim(5, 43).is_none());
    storage.release(held);
    assert_eq!(storage.holder(5), None);
}

#[test]
fn claim_entry_holds_crtc_and_count() {
    let entry = ClaimEntry { crtc: 42, count: 2 };
    assert_eq!(entry.crtc, 42);
    assert_eq!(entry.count, 2);
}
