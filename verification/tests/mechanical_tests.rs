use a2vm_core::mechanical::{DiskMechTracker, MechanicalEvent};

#[test]
fn test_motor_on() {
    let mut tracker = DiskMechTracker::new();

    let event = tracker.check(true, 0);
    assert_eq!(event, Some(MechanicalEvent::MotorStart));

    let event = tracker.check(true, 0);
    assert_eq!(event, None);
}

#[test]
fn test_motor_off() {
    let mut tracker = DiskMechTracker::new();

    tracker.check(true, 0);

    let event = tracker.check(false, 0);
    assert_eq!(event, Some(MechanicalEvent::MotorStop));
}

#[test]
fn test_track_seek() {
    let mut tracker = DiskMechTracker::new();

    tracker.check(true, 0);

    let event = tracker.check(true, 2);
    assert_eq!(event, Some(MechanicalEvent::TrackSeek));

    let event = tracker.check(true, 4);
    assert_eq!(event, Some(MechanicalEvent::TrackSeek));
}

#[test]
fn test_no_event_when_motor_off() {
    let mut tracker = DiskMechTracker::new();

    let event = tracker.check(false, 2);
    assert_eq!(event, None);

    let event = tracker.check(false, 4);
    assert_eq!(event, None);
}

#[test]
fn test_reset() {
    let mut tracker = DiskMechTracker::new();

    tracker.check(true, 5);

    tracker.reset();

    let event = tracker.check(true, 0);
    assert_eq!(event, Some(MechanicalEvent::MotorStart));
}

#[test]
fn repeated_check_without_change_is_quiet() {
    let mut tracker = DiskMechTracker::new();
    tracker.check(true, 7);
    for _ in 0..5 {
        assert_eq!(tracker.check(true, 7), None);
    }
}
