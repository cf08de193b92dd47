use pygbase_particles::{random_color, retain_marked};
use rand::rngs::SmallRng;
use rand::SeedableRng;

#[test]
fn cull_keeps_marked_in_order() {
    let mut v = vec![10, 20, 30, 40, 50];
    retain_marked(&mut v, &vec![true, false, true, false, true]);
    assert_eq!(v, vec![10, 30, 50]);
}

#[test]
fn cull_of_empty_list() {
    let mut v: Vec<String> = Vec::new();
    retain_marked(&mut v, &Vec::new());
    assert!(v.is_empty());
}

#[test]
fn cull_removes_faded_particle() {
    // a particle of size 1.0 fading by 5.0 per second, after a step of 0.2
    let size: f64 = 1.0 - 5.0 * 0.2;
    assert!(size <= 0.2);
    let mut sizes = vec![size];
    let keep: Vec<bool> = sizes.iter().map(|s| *s > 0.2).collect();
    retain_marked(&mut sizes, &keep);
    assert!(sizes.is_empty());
}

#[test]
fn cull_all_kept_and_none_kept() {
    let mut v = vec!["a".to_string(), "b".to_string()];
    retain_marked(&mut v, &vec![true, true]);
    assert_eq!(v, vec!["a".to_string(), "b".to_string()]);
    retain_marked(&mut v, &vec![false, false]);
    assert!(v.is_empty());
}

#[test]
fn colors_are_below_255() {
    let mut rng = SmallRng::seed_from_u64(7);
    let mut seen_varied = false;
    let first = random_color(&mut rng);
    for _ in 0..2000 {
        let c = random_color(&mut rng);
        assert!(c.0 < 255 && c.1 < 255 && c.2 < 255);
        if c != first {
            seen_varied = true;
        }
    }
    assert!(seen_varied);
}
