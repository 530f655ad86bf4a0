use pose_nudge::debounce::push_and_count;
use std::collections::VecDeque;

#[test]
fn majority_of_three_with_threshold_two() {
    // raw detection flags [true, true, false], threshold 2 of 3: debounced true
    let mut window: VecDeque<bool> = VecDeque::new();
    assert_eq!(push_and_count(&mut window, 3, true), 1);
    assert_eq!(push_and_count(&mut window, 3, true), 2);
    let n = push_and_count(&mut window, 3, false);
    assert_eq!(n, 2);
    assert!(n >= 2);

    // raw detection flags [true, false, false]: debounced false
    let mut window: VecDeque<bool> = VecDeque::new();
    push_and_count(&mut window, 3, true);
    push_and_count(&mut window, 3, false);
    let n = push_and_count(&mut window, 3, false);
    assert_eq!(n, 1);
    assert!(n < 2);
}

#[test]
fn full_window_evicts_the_oldest() {
    let mut window: VecDeque<bool> = VecDeque::new();
    push_and_count(&mut window, 3, true);
    push_and_count(&mut window, 3, true);
    push_and_count(&mut window, 3, true);
    assert_eq!(window.len(), 3);
    // [t, t, t] -> [t, t, f]
    assert_eq!(push_and_count(&mut window, 3, false), 2);
    assert_eq!(window.len(), 3);
    // [t, t, f] -> [t, f, f]
    assert_eq!(push_and_count(&mut window, 3, false), 1);
    // [t, f, f] -> [f, f, f]
    assert_eq!(push_and_count(&mut window, 3, false), 0);
}
