use connectivity_alarm::watch::{
    alarm_pause, any_connected, count_connected, join_outcome, next_watch_step,
    shutdown_outcome, WatchError, WatchStep,
};

#[test]
fn two_of_three_connected() {
    let v = vec![true, false, true];
    assert_eq!(count_connected(&v), 2);
    assert!(any_connected(&v));
}

#[test]
fn no_monitors_means_no_connection() {
    let v: Vec<bool> = Vec::new();
    assert_eq!(count_connected(&v), 0);
    assert!(!any_connected(&v));
}

#[test]
fn all_disconnected() {
    let v = vec![false, false, false, false];
    assert_eq!(count_connected(&v), 0);
    assert!(!any_connected(&v));
}

#[test]
fn one_connected_is_enough() {
    let v = vec![false, false, false, true];
    assert_eq!(count_connected(&v), 1);
    assert!(any_connected(&v));
}

#[test]
fn watcher_pauses_while_connected() {
    let v = vec![false, true];
    assert!(matches!(next_watch_step(false, &v), WatchStep::Pause { ms: 14 }));
}

#[test]
fn watcher_sounds_alarm_when_disconnected() {
    let v = vec![false, false];
    assert!(matches!(next_watch_step(false, &v), WatchStep::SoundAlarm));
}

#[test]
fn watcher_shuts_down_when_interrupted() {
    let v = vec![false, false];
    assert!(matches!(next_watch_step(true, &v), WatchStep::Shutdown));
    let w = vec![true];
    assert!(matches!(next_watch_step(true, &w), WatchStep::Shutdown));
}

#[test]
fn alarm_pause_is_the_sound_length() {
    assert_eq!(alarm_pause(Some(2500)), Ok(2500));
    assert_eq!(alarm_pause(None), Err(WatchError::UnknownAlarmLength));
}

#[test]
fn join_outcomes() {
    assert_eq!(join_outcome(true), Ok(()));
    assert_eq!(join_outcome(false), Err(WatchError::CouldNotJoin));
}

#[test]
fn shutdown_needs_every_join() {
    assert_eq!(shutdown_outcome(&vec![true, true, true]), Ok(()));
    assert_eq!(shutdown_outcome(&vec![true, false, true]), Err(WatchError::CouldNotJoin));
    assert_eq!(shutdown_outcome(&Vec::new()), Ok(()));
}

#[test]
fn error_messages() {
    assert_eq!(WatchError::CouldNotJoin.message(), "Could not join thread");
    assert_eq!(WatchError::UnknownAlarmLength.message(), "Could not get duration");
}
