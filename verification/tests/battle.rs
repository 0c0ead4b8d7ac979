use directory::battle::pokemon::{clamp_stage, stage_to_multiplier_ratio, Status, STAGE_BOUND};

#[test]
fn stages_are_clamped_to_six() {
    assert_eq!(clamp_stage(7), 6);
    assert_eq!(clamp_stage(127), 6);
    assert_eq!(clamp_stage(-7), -6);
    assert_eq!(clamp_stage(-128), -6);
    assert_eq!(clamp_stage(3), 3);
    assert_eq!(clamp_stage(-6), -6);
    assert_eq!(STAGE_BOUND, 6);
}

#[test]
fn clamping_is_idempotent() {
    for v in i8::MIN..=i8::MAX {
        let once = clamp_stage(v);
        assert_eq!(clamp_stage(once), once);
        assert!(-6 <= once && once <= 6);
    }
}

#[test]
fn stage_multipliers() {
    assert_eq!(stage_to_multiplier_ratio(0, 2), (2, 2));
    assert_eq!(stage_to_multiplier_ratio(2, 2), (4, 2));
    assert_eq!(stage_to_multiplier_ratio(-2, 2), (2, 4));
    assert_eq!(stage_to_multiplier_ratio(6, 3), (9, 3));
    assert_eq!(stage_to_multiplier_ratio(-6, 3), (3, 9));
}

#[test]
fn statuses_compare() {
    assert_eq!(Status::Burned, Status::Burned);
    assert_ne!(Status::Burned, Status::Frozen);
}
