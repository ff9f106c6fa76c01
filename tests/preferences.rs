use libot::model::user::preferences::MoveConfirmations;

fn confirmations(m: MoveConfirmations) -> [bool; 5] {
    [m.for_unlimited(), m.for_correspondence(), m.for_classical(), m.for_rapid(), m.for_blitz()]
}

#[test]
fn empty_move_confirmations_requires_no_confirmations() {
    assert_eq!(confirmations(MoveConfirmations::empty()), [false, false, false, false, false]);
}

#[test]
fn unlimited_only_move_confirmations_requires_only_confirmation_for_unlimited() {
    assert_eq!(confirmations(MoveConfirmations::unlimited()), [true, false, false, false, false]);
}

#[test]
fn correspondence_only_move_confirmations_requires_only_confirmation_for_correspondence() {
    assert_eq!(
        confirmations(MoveConfirmations::correspondence()),
        [false, true, false, false, false]
    );
}

#[test]
fn classical_only_move_confirmations_requires_only_confirmation_for_classical() {
    assert_eq!(confirmations(MoveConfirmations::classical()), [false, false, true, false, false]);
}

#[test]
fn rapid_only_move_confirmations_requires_only_confirmation_for_rapid() {
    assert_eq!(confirmations(MoveConfirmations::rapid()), [false, false, false, true, false]);
}

#[test]
fn blitz_only_move_confirmations_requires_only_confirmation_for_blitz() {
    assert_eq!(confirmations(MoveConfirmations::blitz()), [false, false, false, false, true]);
}

#[test]
fn move_confirmations_bitor_works() {
    let move_confirmations = MoveConfirmations::classical() | MoveConfirmations::blitz();

    assert_eq!(confirmations(move_confirmations), [false, false, true, false, true]);
}

#[test]
fn move_confirmations_bitor_assign_and_raw_bits() {
    let mut m = MoveConfirmations::unlimited();
    m |= MoveConfirmations::rapid();

    assert_eq!(confirmations(m), [true, false, false, true, false]);
    assert_eq!(m, MoveConfirmations::from_bits(9));
    assert_eq!(confirmations(MoveConfirmations::from_bits(31)), [true, true, true, true, true]);
    assert_eq!(m.union(MoveConfirmations::empty()), m);
}
