use scribl::voice::convolve_bools;

#[test]
fn dilates_both_ways() {
    let mut xs = vec![false, false, false, true, false, false, false, false];
    convolve_bools(&mut xs[..], 2);
    assert_eq!(xs, vec![false, true, true, true, true, true, false, false]);
}

#[test]
fn zero_width_keeps_input() {
    let mut xs = vec![false, true, false, true];
    convolve_bools(&mut xs[..], 0);
    assert_eq!(xs, vec![false, true, false, true]);
}

#[test]
fn nothing_detected_stays_empty() {
    let mut xs = vec![false; 30];
    convolve_bools(&mut xs[..], 10);
    assert_eq!(xs, vec![false; 30]);
}

#[test]
fn edges_and_gaps() {
    let mut xs = vec![true, false, false, false, false, false, true];
    convolve_bools(&mut xs[..], 1);
    assert_eq!(xs, vec![true, true, false, false, false, true, true]);
    let mut xs = vec![true, false, false, false, true];
    convolve_bools(&mut xs[..], 10);
    assert_eq!(xs, vec![true; 5]);
}

#[test]
fn very_wide_windows() {
    let mut xs = [true, true];
    convolve_bools(&mut xs[..], usize::MAX - 1);
    assert_eq!(xs, [true, true]);
    let mut xs = [false, true, false];
    convolve_bools(&mut xs[..], usize::MAX);
    assert_eq!(xs, [true, true, true]);
    let mut xs = [false, false];
    convolve_bools(&mut xs[..], usize::MAX);
    assert_eq!(xs, [false, false]);
}
