//! The scanner animation's movement and holds.

use conduit_core::ui::spinner::KnightRiderSpinner;

#[test]
fn test_spinner_creation() {
    let spinner = KnightRiderSpinner::new();
    assert_eq!(spinner.width, 8);
    assert_eq!(spinner.position, 0);
    assert!(spinner.forward);
}

#[test]
fn test_spinner_movement() {
    let mut spinner = KnightRiderSpinner::with_width(4);

    // Should start at position 0
    assert_eq!(spinner.position, 0);

    // Move forward
    spinner.tick();
    assert_eq!(spinner.position, 1);

    spinner.tick();
    assert_eq!(spinner.position, 2);

    spinner.tick();
    assert_eq!(spinner.position, 3);

    // At end, should start holding
    spinner.tick();
    assert!(spinner.holding);
    assert!(!spinner.forward);
}

#[test]
fn test_spinner_holds_then_returns() {
    let mut spinner = KnightRiderSpinner::with_width(3);
    spinner.tick();
    spinner.tick();
    // Reached the right end: hold begins.
    spinner.tick();
    assert!(spinner.holding);
    assert_eq!(spinner.hold_counter, spinner.hold_end_frames);
    // Drain the hold.
    for _ in 0..spinner.hold_end_frames {
        spinner.tick();
    }
    assert_eq!(spinner.hold_counter, 0);
    // The next tick resumes movement leftward.
    spinner.tick();
    assert_eq!(spinner.position, 1);
    assert!(!spinner.forward);
}

#[test]
fn test_spinner_reset() {
    let mut spinner = KnightRiderSpinner::with_width(5);
    spinner.tick();
    spinner.tick();
    spinner.reset();
    assert_eq!(spinner.position, 0);
    assert!(spinner.forward);
    assert!(!spinner.holding);
    assert_eq!(spinner.hold_counter, 0);
}

#[test]
fn test_spinner_minimum_width() {
    let spinner = KnightRiderSpinner::with_width(0);
    assert_eq!(spinner.width, 3);
}

#[test]
fn test_trail_distances_mark_active_cell() {
    let spinner = KnightRiderSpinner::with_width(4);
    let distances = spinner.trail_distances();
    assert_eq!(distances.len(), 4);
    assert_eq!(distances[0], 0);
}
