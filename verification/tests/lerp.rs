use scribl::lerp::{search_interval, Lerp};

#[test]
fn test_search_interval() {
    assert_eq!((0, 0), search_interval(1, &[1, 2, 3]));
    assert_eq!((2, 2), search_interval(3, &[1, 2, 3]));
    assert_eq!((1, 2), search_interval(3, &[1, 2, 4]));
    assert_eq!((1, 3), search_interval(1, &[0, 1, 1, 1, 2]));
    assert_eq!((1, 3), search_interval(1, &[0, 1, 1, 1]));
    assert_eq!((0, 2), search_interval(1, &[1, 1, 1, 2]));
    assert_eq!((0, 2), search_interval(1, &[1, 1, 1]));
}

#[test]
fn add_lerp() {
    let lerp = Lerp::new(vec![0, 100], vec![0, 100]);

    let out = lerp.with_new_lerp(50, 80);
    assert_eq!(out.original_values().to_vec(), vec![0, 50, 100]);
    assert_eq!(out.times().to_vec(), vec![0, 80, 100]);

    let out = lerp.with_new_lerp(50, 200);
    assert_eq!(out.original_values().to_vec(), vec![0, 50, 100]);
    assert_eq!(out.times().to_vec(), vec![0, 200, 200]);

    let out = lerp.with_new_lerp(100, 150);
    assert_eq!(out.original_values().to_vec(), vec![0, 100]);
    assert_eq!(out.times().to_vec(), vec![0, 150]);

    let lerp = Lerp::new(vec![0, 100], vec![0, 200]);
    let out = lerp.with_new_lerp(100, 150);
    assert_eq!(out.original_values().to_vec(), vec![0, 50, 100]);
    assert_eq!(out.times().to_vec(), vec![0, 150, 200]);
}

#[test]
fn lerp_interpolates_between_knots() {
    let lerp = Lerp::new(vec![0, 100], vec![0, 200]);
    assert_eq!(lerp.lerp(50), Some(100));
    assert_eq!(lerp.lerp(0), Some(0));
    assert_eq!(lerp.lerp(100), Some(200));
    assert_eq!(lerp.lerp(101), None);
    assert_eq!(lerp.lerp(-1), None);
    assert_eq!(lerp.unlerp(100), Some(50));
    assert_eq!(lerp.unlerp(201), None);
    assert_eq!(lerp.first(), 0);
    assert_eq!(lerp.last(), 200);
}

#[test]
fn lerp_rounds_towards_the_first_knot() {
    // 1/49 * 49 is exactly 1; the interpolation is done in integers.
    let lerp = Lerp::new(vec![0, 49], vec![0, 49]);
    assert_eq!(lerp.lerp(1), Some(1));
    let lerp = Lerp::new(vec![0, 3], vec![0, 10]);
    assert_eq!(lerp.lerp(1), Some(3));
    assert_eq!(lerp.lerp(2), Some(6));
}

#[test]
fn lerp_clamped_outside_knots() {
    let lerp = Lerp::new(vec![10, 20], vec![100, 300]);
    assert_eq!(lerp.lerp_clamped(0), 100);
    assert_eq!(lerp.lerp_clamped(30), 300);
    assert_eq!(lerp.lerp_clamped(15), 200);
    assert_eq!(lerp.unlerp_clamped(0), 10);
    assert_eq!(lerp.unlerp_clamped(1000), 20);
    assert_eq!(lerp.unlerp_clamped(200), 15);
}

#[test]
fn lerp_on_repeated_knots() {
    // A knot that repeats in original time maps to the first of its lerped times.
    let lerp = Lerp::new(vec![0, 10, 10, 20], vec![0, 5, 15, 20]);
    assert_eq!(lerp.lerp(10), Some(5));
    // A lerped time that repeats maps back to the first original time.
    let lerp = Lerp::new(vec![0, 10, 20], vec![0, 10, 10]);
    assert_eq!(lerp.unlerp(10), Some(10));
    assert_eq!(lerp.lerp(15), Some(10));
}

#[test]
fn warp_moves_the_image() {
    let lerp = Lerp::new(vec![0, 100], vec![0, 200]);
    let source = lerp.unlerp_clamped(60);
    let out = lerp.with_new_lerp(60, 20);
    assert_eq!(out.lerp(source), Some(20));
    // Knots before the moved one are pulled back so that time stays monotone.
    let out = Lerp::new(vec![0, 50, 100], vec![0, 50, 100]).with_new_lerp(80, 10);
    assert_eq!(out.original_values().to_vec(), vec![0, 50, 80, 100]);
    assert_eq!(out.times().to_vec(), vec![0, 10, 10, 100]);
}

#[test]
fn warp_outside_knots_moves_an_end() {
    let lerp = Lerp::new(vec![0, 100], vec![0, 100]);
    let out = lerp.with_new_lerp(-50, 30);
    assert_eq!(out.original_values().to_vec(), vec![0, 100]);
    assert_eq!(out.times().to_vec(), vec![30, 100]);
}

#[test]
fn lerp_clamped_is_monotone() {
    let lerp = Lerp::new(vec![0, 10, 10, 30], vec![0, 7, 9, 40]);
    let mut prev = lerp.lerp_clamped(-5);
    for t in -5..40 {
        let v = lerp.lerp_clamped(t);
        assert!(prev <= v);
        prev = v;
    }
}

#[test]
fn add_lerp_in_place() {
    let mut lerp = Lerp::new(vec![0, 100], vec![0, 100]);
    lerp.add_lerp(50, 80);
    assert_eq!(lerp.original_values().to_vec(), vec![0, 50, 100]);
    assert_eq!(lerp.times().to_vec(), vec![0, 80, 100]);
    let copy = lerp.clone();
    assert_eq!(copy, lerp);
}

#[test]
fn first_and_last_need_only_knots() {
    let lerp = Lerp::new(vec![5, 1], vec![9, 3]);
    assert_eq!(lerp.first(), 9);
    assert_eq!(lerp.last(), 3);
}
