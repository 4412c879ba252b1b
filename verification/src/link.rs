//! Plain-value model of the servo link's vocabulary: LED colors, the
//! device-reported motion status, and the operations the head issues.
//!
//! Angles are tenths of a degree (the servo's native position unit); speeds
//! are degrees per second.

use vstd::prelude::*;

verus! {

/// Color shown by a servo's LED; only the colors the head uses are modeled.
#[derive(Clone, Copy, Debug, PartialEq, Eq)]
pub enum LedColor {
    Off,
    Cyan,
}

/// Device-reported motion status of one servo.
#[derive(Clone, Copy, Debug, PartialEq, Eq)]
pub enum MotionStatus {
    Unknown,
    Limp,
    FreeMoving,
    Accelerating,
    Traveling,
    Decelerating,
    Holding,
    OutsideLimits,
    Stuck,
    Blocked,
    SafeMode,
}

/// A status counts as in motion exactly when the device reports that it is
/// still accelerating, traveling, or decelerating toward a target; every
/// other report, error and unknown states included, counts as settled.
pub open spec fn status_in_motion(s: MotionStatus) -> bool {
    s is Accelerating || s is Traveling || s is Decelerating
}

/// Classifies a device status as in-motion or settled.
pub fn is_in_motion(s: MotionStatus) -> (r: bool)
    ensures
        r == status_in_motion(s),
{
    match s {
        MotionStatus::Accelerating | MotionStatus::Traveling | MotionStatus::Decelerating => true,
        _ => false,
    }
}

/// One operation issued to the servo link, addressed to a physical motor id.
#[derive(Clone, Copy, Debug, PartialEq, Eq)]
pub enum LinkCommand {
    SetOriginOffset { motor: u8, offset: i32 },
    ConfigureColor { motor: u8, color: LedColor },
    SetColor { motor: u8, color: LedColor },
    SetMotionProfile { motor: u8, on: bool },
    QueryPosition { motor: u8 },
    MoveTo { motor: u8, angle: i32, speed: u32 },
    ReleaseTorque { motor: u8 },
}

} // verus!
