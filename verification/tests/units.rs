use playdeck::position::Position;
use playdeck::speed::Speed;
use playdeck::volume::Volume;

#[test]
fn position_parts_round_trip() {
    let at = Position::from_parts(7, 123_456_789).unwrap();
    assert_eq!(at.secs(), 7);
    assert_eq!(at.subsec_nanos(), 123_456_789);
    assert_eq!(at.as_nanos(), 7_123_456_789);
    assert_eq!(Position::from_secs(3), Position::from_parts(3, 0).unwrap());
    assert_eq!(Position::zero(), Position::from_secs(0));
    assert_eq!(Position::zero().as_nanos(), 0);
}

#[test]
fn position_rejects_a_full_second_of_nanos() {
    assert_eq!(Position::from_parts(0, 1_000_000_000), None);
    assert_eq!(Position::from_parts(5, u32::MAX), None);
    assert!(Position::from_parts(u64::MAX, 999_999_999).is_some());
}

#[test]
fn largest_position_in_nanoseconds() {
    let last = Position::from_parts(u64::MAX, 999_999_999).unwrap();
    assert_eq!(last.as_nanos(), 18_446_744_073_709_551_615_999_999_999u128);
}

#[test]
fn reached_compares_whole_positions() {
    let mark = Position::from_parts(10, 500).unwrap();
    assert!(Position::from_parts(10, 500).unwrap().reached(&mark));
    assert!(Position::from_parts(10, 501).unwrap().reached(&mark));
    assert!(Position::from_parts(11, 0).unwrap().reached(&mark));
    assert!(!Position::from_parts(10, 499).unwrap().reached(&mark));
    assert!(!Position::from_parts(9, 999_999_999).unwrap().reached(&mark));
    assert!(Position::zero().reached(&Position::zero()));
}

#[test]
fn rewind_floors_at_zero() {
    assert_eq!(Position::from_secs(0).rewind(), Position::zero());
    assert_eq!(Position::from_parts(4, 999_999_999).unwrap().rewind(), Position::zero());
    assert_eq!(Position::from_secs(5).rewind(), Position::zero());
    assert_eq!(
        Position::from_parts(5, 1).unwrap().rewind(),
        Position::from_parts(0, 1).unwrap()
    );
    assert_eq!(Position::from_secs(65).rewind(), Position::from_secs(60));
}

#[test]
fn advance_adds_five_seconds_up_to_the_limit() {
    assert_eq!(Position::zero().advance(), Position::from_secs(5));
    let last = Position::from_parts(u64::MAX - 5, 999_999_999).unwrap();
    assert!(last.can_advance());
    assert_eq!(last.advance(), Position::from_parts(u64::MAX, 999_999_999).unwrap());
    assert!(!Position::from_secs(u64::MAX - 4).can_advance());
    assert!(!Position::from_secs(u64::MAX).can_advance());
}

#[test]
fn volume_clamps_on_entry() {
    assert_eq!(Volume::clamped(0).percent(), 0);
    assert_eq!(Volume::clamped(37).percent(), 37);
    assert_eq!(Volume::clamped(100).percent(), 100);
    assert_eq!(Volume::clamped(101).percent(), 100);
    assert_eq!(Volume::clamped(255).percent(), 100);
    assert_eq!(Volume::full().percent(), 100);
}

#[test]
fn volume_raise_and_lower_by_ten() {
    assert_eq!(Volume::clamped(30).raise().percent(), 40);
    assert_eq!(Volume::clamped(30).lower().percent(), 20);
    assert_eq!(Volume::clamped(90).raise().percent(), 100);
    assert_eq!(Volume::clamped(91).raise().percent(), 100);
    assert_eq!(Volume::clamped(100).raise().percent(), 100);
    assert_eq!(Volume::clamped(10).lower().percent(), 0);
    assert_eq!(Volume::clamped(9).lower().percent(), 0);
    assert_eq!(Volume::clamped(0).lower().percent(), 0);
}

#[test]
fn volume_never_leaves_range() {
    let mut volume = Volume::clamped(55);
    for round in 0..200u32 {
        volume = if round % 7 < 4 { volume.raise() } else { volume.lower() };
        assert!(volume.percent() <= 100);
    }
    for _ in 0..20 {
        volume = volume.lower();
    }
    assert_eq!(volume.percent(), 0);
    for _ in 0..20 {
        volume = volume.raise();
    }
    assert_eq!(volume.percent(), 100);
}

#[test]
fn speed_halves_and_labels() {
    assert_eq!(Speed::Half.halves(), 1);
    assert_eq!(Speed::Normal.halves(), 2);
    assert_eq!(Speed::OneAndHalf.halves(), 3);
    assert_eq!(Speed::Double.halves(), 4);
    assert_eq!(Speed::Half.label(), "0.5");
    assert_eq!(Speed::Normal.label(), "1");
    assert_eq!(Speed::OneAndHalf.label(), "1.5");
    assert_eq!(Speed::Double.label(), "2");
}
