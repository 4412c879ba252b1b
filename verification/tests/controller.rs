use robot_head_service::DEFAULT_BASE_MOTOR_ID;
use robot_head_service::DEFAULT_NECK_MOTOR_A_ID;
use robot_head_service::HeadController;
use robot_head_service::MotorsConfig;
use robot_head_service::error::ErrorWrapper;
use robot_head_service::link::LedColor;
use robot_head_service::link::LinkCommand;
use robot_head_service::settle::SettleAction;

fn controller() -> HeadController {
    HeadController::new(DEFAULT_BASE_MOTOR_ID, DEFAULT_NECK_MOTOR_A_ID).unwrap()
}

#[test]
fn aliasing_both_axes_to_one_motor_is_rejected() {
    let r = HeadController::new(3, 3);
    assert!(matches!(r, Err(ErrorWrapper::GenericError)));
}

#[test]
fn distinct_motor_ids_are_accepted() {
    let c = controller();
    assert_eq!(c.base_motor_id, DEFAULT_BASE_MOTOR_ID);
    assert_eq!(c.neck_motor_id, DEFAULT_NECK_MOTOR_A_ID);
}

#[test]
fn with_config_binds_the_configured_ids() {
    let config = MotorsConfig {
        serial_port: "/dev/ttyUSB0".to_string(),
        base_motor_id: 5,
        neck_motor_id: 6,
    };
    let c = HeadController::with_config(&config).unwrap();
    assert_eq!(c.base_motor_id, 5);
    assert_eq!(c.neck_motor_id, 6);
    let bad = MotorsConfig {
        serial_port: "/dev/ttyUSB0".to_string(),
        base_motor_id: 5,
        neck_motor_id: 5,
    };
    assert!(HeadController::with_config(&bad).is_err());
}

#[test]
fn configure_walks_each_axis_in_order_base_first() {
    let c = controller();
    let base = DEFAULT_BASE_MOTOR_ID;
    let neck = DEFAULT_NECK_MOTOR_A_ID;
    assert_eq!(
        c.configure(),
        vec![
            LinkCommand::SetOriginOffset { motor: base, offset: 0 },
            LinkCommand::ConfigureColor { motor: base, color: LedColor::Off },
            LinkCommand::SetColor { motor: base, color: LedColor::Cyan },
            LinkCommand::SetMotionProfile { motor: base, on: true },
            LinkCommand::QueryPosition { motor: base },
            LinkCommand::SetOriginOffset { motor: neck, offset: 0 },
            LinkCommand::ConfigureColor { motor: neck, color: LedColor::Off },
            LinkCommand::SetColor { motor: neck, color: LedColor::Cyan },
            LinkCommand::SetMotionProfile { motor: neck, on: true },
            LinkCommand::QueryPosition { motor: neck },
        ]
    );
}

#[test]
fn moves_address_the_right_motor_with_the_given_cap() {
    let c = controller();
    assert_eq!(
        c.move_base_to(450, 60),
        LinkCommand::MoveTo { motor: DEFAULT_BASE_MOTOR_ID, angle: 450, speed: 60 }
    );
    assert_eq!(
        c.move_neck_to(-100, 45),
        LinkCommand::MoveTo { motor: DEFAULT_NECK_MOTOR_A_ID, angle: -100, speed: 45 }
    );
}

#[test]
fn settle_waits_poll_the_right_motor() {
    let c = controller();
    let mut wb = c.wait_until_base_in_position();
    wb.note_suspended();
    assert_eq!(
        wb.next_action(),
        SettleAction::QueryStatus { motor: DEFAULT_BASE_MOTOR_ID }
    );
    let mut wn = c.wait_until_neck_in_position();
    wn.note_suspended();
    assert_eq!(
        wn.next_action(),
        SettleAction::QueryStatus { motor: DEFAULT_NECK_MOTOR_A_ID }
    );
}

#[test]
fn turn_off_darkens_leds_and_releases_only_the_base() {
    let c = controller();
    let cmds = c.turn_off();
    assert_eq!(
        cmds,
        vec![
            LinkCommand::SetColor { motor: DEFAULT_BASE_MOTOR_ID, color: LedColor::Off },
            LinkCommand::SetColor { motor: DEFAULT_NECK_MOTOR_A_ID, color: LedColor::Off },
            LinkCommand::ReleaseTorque { motor: DEFAULT_BASE_MOTOR_ID },
        ]
    );
    // Never a release-torque for the neck axis.
    assert!(!cmds.iter().any(|cmd| matches!(
        cmd,
        LinkCommand::ReleaseTorque { motor } if *motor == DEFAULT_NECK_MOTOR_A_ID
    )));
}

#[test]
fn limp_neck_releases_only_the_neck() {
    let c = controller();
    let cmd = c.limp_neck();
    assert_eq!(cmd, LinkCommand::ReleaseTorque { motor: DEFAULT_NECK_MOTOR_A_ID });
    assert!(!matches!(
        cmd,
        LinkCommand::ReleaseTorque { motor } if motor == DEFAULT_BASE_MOTOR_ID
    ));
}

#[test]
fn error_description_names_the_error() {
    assert_eq!(ErrorWrapper::GenericError.describe(), "Generic error");
}
