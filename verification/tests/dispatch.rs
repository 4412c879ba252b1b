use robot_head_service::NECK_MOTOR_A_NORMAL_POSITION;
use robot_head_service::dispatch::ACTIVATION_BASE_POSITION;
use robot_head_service::dispatch::ActivationCommand;
use robot_head_service::dispatch::BASE_MOVE_SPEED;
use robot_head_service::dispatch::DEACTIVATE_DWELL_MS;
use robot_head_service::dispatch::HeadAction;
use robot_head_service::dispatch::NORMAL_NECK_SPEED;
use robot_head_service::dispatch::PITCH_OVERRIDE_NECK_SPEED;
use robot_head_service::dispatch::STOWED_NECK_POSITION;
use robot_head_service::dispatch::STOW_NECK_SPEED;
use robot_head_service::dispatch::dispatch_message;
use robot_head_service::dispatch::plan_command;

#[test]
fn it_works() {}

#[test]
fn deactivation_plan_is_the_full_shutdown_sequence() {
    let cmd = ActivationCommand { active: Some(false), yaw: None, pitch: None };
    let plan = plan_command(&cmd);
    assert_eq!(
        plan,
        vec![
            HeadAction::MoveBase { angle: ACTIVATION_BASE_POSITION, speed: BASE_MOVE_SPEED },
            HeadAction::WaitBaseSettled,
            HeadAction::MoveNeck { angle: STOWED_NECK_POSITION, speed: STOW_NECK_SPEED },
            HeadAction::WaitNeckSettled,
            HeadAction::Dwell { ms: DEACTIVATE_DWELL_MS },
            HeadAction::TurnOff,
            HeadAction::LimpNeck,
        ]
    );
}

#[test]
fn activation_plan_issues_two_unwaited_moves() {
    let cmd = ActivationCommand { active: Some(true), yaw: None, pitch: None };
    let plan = plan_command(&cmd);
    assert_eq!(
        plan,
        vec![
            HeadAction::MoveBase { angle: ACTIVATION_BASE_POSITION, speed: BASE_MOVE_SPEED },
            HeadAction::MoveNeck { angle: NECK_MOTOR_A_NORMAL_POSITION, speed: NORMAL_NECK_SPEED },
        ]
    );
}

#[test]
fn yaw_override_supersedes_activation_center() {
    // active: true with yaw 45.0 degrees (450 tenths).
    let cmd = ActivationCommand { active: Some(true), yaw: Some(450), pitch: None };
    let plan = plan_command(&cmd);
    assert_eq!(plan.len(), 3);
    // The activation branch still targets center first...
    assert_eq!(
        plan[0],
        HeadAction::MoveBase { angle: ACTIVATION_BASE_POSITION, speed: BASE_MOVE_SPEED }
    );
    // ...but the final issued base target is the override.
    let last_base = plan
        .iter()
        .rev()
        .find_map(|a| match a {
            HeadAction::MoveBase { angle, .. } => Some(*angle),
            _ => None,
        })
        .unwrap();
    assert_eq!(last_base, 450);
    // The final neck target is the configured normal pitch.
    let last_neck = plan
        .iter()
        .rev()
        .find_map(|a| match a {
            HeadAction::MoveNeck { angle, .. } => Some(*angle),
            _ => None,
        })
        .unwrap();
    assert_eq!(last_neck, NECK_MOTOR_A_NORMAL_POSITION);
}

#[test]
fn pitch_only_issues_one_neck_move_and_no_base_move() {
    // pitch 10.0 degrees (100 tenths), everything else absent.
    let cmd = ActivationCommand { active: None, yaw: None, pitch: Some(100) };
    let plan = plan_command(&cmd);
    assert_eq!(
        plan,
        vec![HeadAction::MoveNeck { angle: 100, speed: PITCH_OVERRIDE_NECK_SPEED }]
    );
    let base_moves = plan
        .iter()
        .filter(|a| matches!(a, HeadAction::MoveBase { .. }))
        .count();
    assert_eq!(base_moves, 0);
}

#[test]
fn malformed_message_acts_as_all_fields_absent() {
    // A message that failed to decode...
    let malformed_plan = dispatch_message(None);
    assert!(malformed_plan.is_empty());
    // ...is indistinguishable from a command with all fields absent.
    let empty_cmd = ActivationCommand::default();
    assert_eq!(malformed_plan, plan_command(&empty_cmd));
}

#[test]
fn default_command_has_all_fields_absent() {
    let cmd = ActivationCommand::default();
    assert!(cmd.active.is_none());
    assert!(cmd.yaw.is_none());
    assert!(cmd.pitch.is_none());
    assert!(plan_command(&cmd).is_empty());
}
