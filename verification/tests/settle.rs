use robot_head_service::link::MotionStatus;
use robot_head_service::link::is_in_motion;
use robot_head_service::settle::SETTLE_GRACE_MS;
use robot_head_service::settle::SETTLE_POLL_MS;
use robot_head_service::settle::SettleAction;
use robot_head_service::settle::SettleWait;
use robot_head_service::settle::run_settle;

#[test]
fn in_motion_statuses_are_exactly_the_three_travel_states() {
    assert!(is_in_motion(MotionStatus::Accelerating));
    assert!(is_in_motion(MotionStatus::Traveling));
    assert!(is_in_motion(MotionStatus::Decelerating));
    assert!(!is_in_motion(MotionStatus::Unknown));
    assert!(!is_in_motion(MotionStatus::Limp));
    assert!(!is_in_motion(MotionStatus::FreeMoving));
    assert!(!is_in_motion(MotionStatus::Holding));
    assert!(!is_in_motion(MotionStatus::OutsideLimits));
    assert!(!is_in_motion(MotionStatus::Stuck));
    assert!(!is_in_motion(MotionStatus::Blocked));
    assert!(!is_in_motion(MotionStatus::SafeMode));
}

#[test]
fn settle_wait_steps_through_grace_poll_delay_and_finish() {
    let mut w = SettleWait::begin(7);
    assert_eq!(w.next_action(), SettleAction::Suspend { ms: SETTLE_GRACE_MS });
    w.note_suspended();
    assert_eq!(w.next_action(), SettleAction::QueryStatus { motor: 7 });
    w.note_status(MotionStatus::Traveling);
    assert!(!w.is_settled());
    assert_eq!(w.next_action(), SettleAction::Suspend { ms: SETTLE_POLL_MS });
    w.note_suspended();
    assert_eq!(w.next_action(), SettleAction::QueryStatus { motor: 7 });
    w.note_status(MotionStatus::Holding);
    assert!(w.is_settled());
    assert_eq!(w.next_action(), SettleAction::Finish);
}

#[test]
fn traveling_twice_then_holding_costs_one_grace_and_two_polls() {
    let statuses = vec![
        MotionStatus::Traveling,
        MotionStatus::Traveling,
        MotionStatus::Holding,
    ];
    let outcome = run_settle(1, &statuses);
    assert!(outcome.settled);
    assert_eq!(outcome.grace_suspensions, 1);
    assert_eq!(outcome.poll_suspensions, 2);
}

#[test]
fn first_settled_status_ends_the_wait_at_once() {
    let statuses = vec![MotionStatus::Holding];
    let outcome = run_settle(1, &statuses);
    assert!(outcome.settled);
    assert_eq!(outcome.grace_suspensions, 1);
    assert_eq!(outcome.poll_suspensions, 0);
}

#[test]
fn error_statuses_count_as_settled() {
    let statuses = vec![MotionStatus::Traveling, MotionStatus::Stuck];
    let outcome = run_settle(1, &statuses);
    assert!(outcome.settled);
    assert_eq!(outcome.poll_suspensions, 1);
}

#[test]
fn a_motor_that_never_settles_keeps_the_wait_going() {
    let statuses = vec![
        MotionStatus::Accelerating,
        MotionStatus::Traveling,
        MotionStatus::Decelerating,
    ];
    let outcome = run_settle(1, &statuses);
    assert!(!outcome.settled);
    assert_eq!(outcome.grace_suspensions, 1);
    assert_eq!(outcome.poll_suspensions, 3);
}

#[test]
fn an_empty_recording_never_settles() {
    let statuses: Vec<MotionStatus> = Vec::new();
    let outcome = run_settle(1, &statuses);
    assert!(!outcome.settled);
    assert_eq!(outcome.grace_suspensions, 1);
    assert_eq!(outcome.poll_suspensions, 0);
}
