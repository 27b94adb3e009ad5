use pax_core::message::FramePatch;
use pax_core::patch::{coefficients_eq, PatchCache};

fn bits(x: f64) -> u64 {
    x.to_bits()
}

fn coeffs(values: [f64; 6]) -> Vec<u64> {
    values.iter().map(|v| v.to_bits()).collect()
}

fn identity() -> Vec<u64> {
    coeffs([1.0, 0.0, 0.0, 1.0, 0.0, 0.0])
}

#[test]
fn the_first_observation_is_a_full_baseline() {
    let mut cache = PatchCache::new();
    let path = vec![4u64, 0];
    assert!(!cache.contains(&path));
    let message: FramePatch =
        cache.diff(&path, (bits(100.0), bits(50.0)), &identity(), 2).unwrap();
    assert_eq!(message.id_chain, path);
    assert_eq!(message.depth, Some(2));
    assert_eq!(message.size_x, Some(bits(100.0)));
    assert_eq!(message.size_y, Some(bits(50.0)));
    assert_eq!(message.transform, Some(identity()));
    assert!(cache.contains(&path));
}

#[test]
fn an_unchanged_node_is_reported_once() {
    let mut cache = PatchCache::new();
    let path = vec![4u64];
    assert!(cache.diff(&path, (bits(100.0), bits(50.0)), &identity(), 1).is_some());
    for _ in 0..5 {
        assert!(cache.diff(&path, (bits(100.0), bits(50.0)), &identity(), 1).is_none());
    }
}

#[test]
fn a_changed_height_is_the_only_field_of_the_update() {
    let mut cache = PatchCache::new();
    let path = vec![4u64];
    cache.diff(&path, (bits(100.0), bits(50.0)), &identity(), 1);
    let message = cache.diff(&path, (bits(100.0), bits(75.0)), &identity(), 1).unwrap();
    assert_eq!(message.id_chain, path);
    assert_eq!(message.size_y, Some(bits(75.0)));
    assert_eq!(message.size_x, None);
    assert_eq!(message.transform, None);
    assert_eq!(message.depth, None);
    assert!(cache.diff(&path, (bits(100.0), bits(75.0)), &identity(), 1).is_none());
}

#[test]
fn each_field_is_compared_on_its_own() {
    let mut cache = PatchCache::new();
    let path = vec![9u64];
    cache.diff(&path, (bits(10.0), bits(20.0)), &identity(), 0);
    let moved = coeffs([1.0, 0.0, 0.0, 1.0, 5.0, 0.0]);
    let message = cache.diff(&path, (bits(11.0), bits(20.0)), &moved, 3).unwrap();
    assert_eq!(message.depth, Some(3));
    assert_eq!(message.size_x, Some(bits(11.0)));
    assert_eq!(message.size_y, None);
    assert_eq!(message.transform, Some(moved));
}

#[test]
fn paths_are_cached_apart() {
    let mut cache = PatchCache::new();
    let first = vec![4u64, 0];
    let second = vec![4u64, 1];
    assert!(cache.diff(&first, (bits(1.0), bits(1.0)), &identity(), 1).is_some());
    let message = cache.diff(&second, (bits(1.0), bits(1.0)), &identity(), 1).unwrap();
    assert_eq!(message.id_chain, second);
    assert_eq!(message.size_x, Some(bits(1.0)));
    assert!(cache.diff(&first, (bits(1.0), bits(1.0)), &identity(), 1).is_none());
    assert!(cache.diff(&second, (bits(1.0), bits(1.0)), &identity(), 1).is_none());
    assert_eq!(cache.entries.len(), 2);
}

#[test]
fn zeros_of_either_sign_are_no_change() {
    let mut cache = PatchCache::new();
    let path = vec![1u64];
    cache.diff(&path, (bits(0.0), bits(0.0)), &identity(), 0);
    assert!(cache.diff(&path, (bits(-0.0), bits(0.0)), &identity(), 0).is_none());
}

#[test]
fn a_nan_is_reported_on_every_frame() {
    let mut cache = PatchCache::new();
    let path = vec![1u64];
    cache.diff(&path, (bits(f64::NAN), bits(1.0)), &identity(), 0);
    let message = cache.diff(&path, (bits(f64::NAN), bits(1.0)), &identity(), 0).unwrap();
    assert_eq!(message.size_x, Some(bits(f64::NAN)));
    assert_eq!(message.size_y, None);
}

#[test]
fn coefficient_lists_of_different_length_differ() {
    assert!(coefficients_eq(&identity(), &identity()));
    assert!(!coefficients_eq(&identity(), &identity()[..5].to_vec()));
    assert!(!coefficients_eq(&identity()[..5].to_vec(), &identity()));
    assert!(coefficients_eq(&vec![], &vec![]));
    assert!(!coefficients_eq(&vec![bits(f64::NAN)], &vec![bits(f64::NAN)]));
    assert!(coefficients_eq(&vec![bits(0.0)], &vec![bits(-0.0)]));
}

#[test]
fn a_patch_without_fields_has_no_updates() {
    let mut patch = FramePatch::default();
    assert!(!patch.has_any_updates());
    assert!(patch.id_chain.is_empty());
    patch.depth = Some(0);
    assert!(patch.has_any_updates());
}
