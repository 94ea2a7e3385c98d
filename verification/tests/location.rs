use agent::location::{fix_in, LocationManager, LocationNotice, LocationRun, SensorAnswer};
use agent::session::bridge::Fix;

fn fix(latitude: f64, longitude: f64) -> Fix {
    Fix { latitude: latitude.to_bits(), longitude: longitude.to_bits() }
}

#[test]
fn null_island_is_no_fix() {
    assert_eq!(fix_in(SensorAnswer::Position { fix: fix(0.0, 0.0) }), None);
    assert_eq!(fix_in(SensorAnswer::Position { fix: fix(-0.0, 0.0) }), None);
    let equator = fix(0.0, 9.5);
    assert_eq!(fix_in(SensorAnswer::Position { fix: equator }), Some(equator));
    assert_eq!(fix_in(SensorAnswer::Failure), None);
}

#[test]
fn second_start_starts_no_second_thread() {
    let mut manager = LocationManager::new();
    assert!(manager.start());
    assert!(!manager.start());
    manager.stop();
    assert!(!manager.running);
    assert!(manager.start());
}

#[test]
fn only_the_first_failure_of_a_run_is_reported() {
    let mut manager = LocationManager::new();
    let mut run = LocationRun::new();
    assert_eq!(run.on_answer(&mut manager, None), vec![LocationNotice::Failed]);
    assert!(run.on_answer(&mut manager, None).is_empty());
    assert_eq!(run.on_switched_off(), None);
    let here = fix(51.5, -0.25);
    assert_eq!(
        run.on_answer(&mut manager, Some(here)),
        vec![LocationNotice::Recovered, LocationNotice::Located { fix: here }]
    );
    assert_eq!(
        run.on_answer(&mut manager, Some(here)),
        vec![LocationNotice::Located { fix: here }]
    );
    assert_eq!(run.on_switched_off(), Some(LocationNotice::SwitchedOff));
    assert_eq!(run.on_switched_off(), None);
    // A failure keeps the last fix.
    run.on_answer(&mut manager, None);
    assert_eq!(manager.current_location(), Some(here));
}

#[test]
fn refused_or_failed_run_can_start_again() {
    let mut manager = LocationManager::new();
    let mut run = LocationRun::new();
    assert!(manager.start());
    assert!(manager.on_permission(true));
    let here = fix(51.5, -0.25);
    run.on_answer(&mut manager, Some(here));
    assert!(!manager.start());

    // The thread died of an error.
    manager.on_ended();
    assert_eq!(manager.current_location(), Some(here));
    assert!(manager.start());

    // The user refused.
    assert!(!manager.on_permission(false));
    assert!(!manager.running);
    assert_eq!(manager.current_location(), Some(here));
    assert!(manager.start());
}

#[test]
fn readings_without_a_position_keep_the_location() {
    let mut manager = LocationManager::new();
    let mut run = LocationRun::new();
    manager.start();
    let here = fix(51.5, -0.25);
    run.on_answer(&mut manager, Some(here));
    for answer in [SensorAnswer::Failure, SensorAnswer::Position { fix: fix(0.0, -0.0) }] {
        run.on_answer(&mut manager, fix_in(answer));
        assert_eq!(manager.current_location(), Some(here));
        assert!(manager.running);
    }
}
