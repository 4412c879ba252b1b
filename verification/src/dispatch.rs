//! Command dispatch: translates one decoded activation/pose command into
//! the deterministic sequence of head actions the runtime performs, one
//! command at a time, end to end.
//!
//! The activation branch is evaluated first, then the pose overrides,
//! within the same command: a command carrying both `active: true` and a
//! yaw briefly targets the base at center before the override supersedes
//! it. Only the final issued move matters operationally, since the
//! activation branch's moves are not waited on.

use vstd::prelude::*;

use crate::NECK_MOTOR_A_NORMAL_POSITION;
use crate::controller::HeadController;
use crate::controller::LinkState;
use crate::controller::lemma_apply_links_concat;
use crate::controller::lemma_turn_off_effect;
use crate::link::LedColor;
use crate::link::LinkCommand;

verus! {

/// Base yaw target of the activation branch, tenths of a degree (center).
pub const ACTIVATION_BASE_POSITION: i32 = 0;

/// Neck pitch the head is stowed at on deactivation, tenths of a degree.
pub const STOWED_NECK_POSITION: i32 = 450;

/// Speed cap for every base move, degrees per second.
pub const BASE_MOVE_SPEED: u32 = 60;

/// Speed cap for the stow move of the neck, degrees per second.
pub const STOW_NECK_SPEED: u32 = 30;

/// Speed cap for the move to the active neck pitch, degrees per second.
pub const NORMAL_NECK_SPEED: u32 = 45;

/// Speed cap for a neck move requested by a pitch override, degrees per
/// second.
pub const PITCH_OVERRIDE_NECK_SPEED: u32 = 60;

/// Milliseconds of the unconditional dwell for visual settle during
/// deactivation.
pub const DEACTIVATE_DWELL_MS: u64 = 1000;

/// One decoded command. Each field is independently optional; absence
/// means no change requested for that field. Angles are tenths of a
/// degree: yaw 0 is center, pitch 0 is the level horizon.
#[derive(Clone, Copy, Debug)]
pub struct ActivationCommand {
    pub active: Option<bool>,
    pub yaw: Option<i32>,
    pub pitch: Option<i32>,
}

impl Default for ActivationCommand {
    /// The default command has every field absent: a complete no-op.
    fn default() -> (c: Self)
        ensures
            c.active is None,
            c.yaw is None,
            c.pitch is None,
    {
        ActivationCommand { active: None, yaw: None, pitch: None }
    }
}

/// One controller-level step of a command's plan.
#[derive(Clone, Copy, Debug, PartialEq, Eq)]
pub enum HeadAction {
    /// Issue a base move to `angle` tenths of a degree, capped at `speed`
    /// degrees per second, without waiting for completion.
    MoveBase { angle: i32, speed: u32 },
    /// Issue a neck move, as `MoveBase`.
    MoveNeck { angle: i32, speed: u32 },
    /// Block until the base motor reports a settled status.
    WaitBaseSettled,
    /// Block until the neck motor reports a settled status.
    WaitNeckSettled,
    /// Suspend for the given milliseconds.
    Dwell { ms: u64 },
    /// LEDs off on every motor and base torque released.
    TurnOff,
    /// Neck torque released.
    LimpNeck,
}

/// The steps of the activation branch. Deactivation centers the base and
/// stows the neck, each waited on, dwells, and powers the head down;
/// activation centers the base and lifts the neck without waiting.
pub open spec fn activation_steps(active: Option<bool>) -> Seq<HeadAction> {
    match active {
        Option::None => Seq::empty(),
        Option::Some(false) => seq![
            HeadAction::MoveBase { angle: ACTIVATION_BASE_POSITION, speed: BASE_MOVE_SPEED },
            HeadAction::WaitBaseSettled,
            HeadAction::MoveNeck { angle: STOWED_NECK_POSITION, speed: STOW_NECK_SPEED },
            HeadAction::WaitNeckSettled,
            HeadAction::Dwell { ms: DEACTIVATE_DWELL_MS },
            HeadAction::TurnOff,
            HeadAction::LimpNeck,
        ],
        Option::Some(true) => seq![
            HeadAction::MoveBase { angle: ACTIVATION_BASE_POSITION, speed: BASE_MOVE_SPEED },
            HeadAction::MoveNeck { angle: NECK_MOTOR_A_NORMAL_POSITION, speed: NORMAL_NECK_SPEED },
        ],
    }
}

/// The yaw override's step: one base move, issued whatever the activation
/// branch did.
pub open spec fn yaw_steps(yaw: Option<i32>) -> Seq<HeadAction> {
    match yaw {
        Option::None => Seq::empty(),
        Option::Some(angle) => seq![
            HeadAction::MoveBase { angle, speed: BASE_MOVE_SPEED },
        ],
    }
}

/// The pitch override's step: one neck move, as the yaw override.
pub open spec fn pitch_steps(pitch: Option<i32>) -> Seq<HeadAction> {
    match pitch {
        Option::None => Seq::empty(),
        Option::Some(angle) => seq![
            HeadAction::MoveNeck { angle, speed: PITCH_OVERRIDE_NECK_SPEED },
        ],
    }
}

/// The full plan of one command: the activation branch first, then the
/// yaw override, then the pitch override.
pub open spec fn plan_spec(c: ActivationCommand) -> Seq<HeadAction> {
    activation_steps(c.active) + yaw_steps(c.yaw) + pitch_steps(c.pitch)
}

/// Translates one decoded command into its plan, in issue order.
pub fn plan_command(cmd: &ActivationCommand) -> (r: Vec<HeadAction>)
    ensures
        r@ == plan_spec(*cmd),
{
    let mut r: Vec<HeadAction> = Vec::new();
    match cmd.active {
        None => {},
        Some(false) => {
            r.push(HeadAction::MoveBase {
                angle: ACTIVATION_BASE_POSITION,
                speed: BASE_MOVE_SPEED,
            });
            r.push(HeadAction::WaitBaseSettled);
            r.push(HeadAction::MoveNeck { angle: STOWED_NECK_POSITION, speed: STOW_NECK_SPEED });
            r.push(HeadAction::WaitNeckSettled);
            r.push(HeadAction::Dwell { ms: DEACTIVATE_DWELL_MS });
            r.push(HeadAction::TurnOff);
            r.push(HeadAction::LimpNeck);
        },
        Some(true) => {
            r.push(HeadAction::MoveBase {
                angle: ACTIVATION_BASE_POSITION,
                speed: BASE_MOVE_SPEED,
            });
            r.push(HeadAction::MoveNeck {
                angle: NECK_MOTOR_A_NORMAL_POSITION,
                speed: NORMAL_NECK_SPEED,
            });
        },
    }
    proof {
        assert(r@ =~= activation_steps(cmd.active));
    }
    if let Some(angle) = cmd.yaw {
        r.push(HeadAction::MoveBase { angle, speed: BASE_MOVE_SPEED });
    }
    proof {
        assert(r@ =~= activation_steps(cmd.active) + yaw_steps(cmd.yaw));
    }
    if let Some(angle) = cmd.pitch {
        r.push(HeadAction::MoveNeck { angle, speed: PITCH_OVERRIDE_NECK_SPEED });
    }
    proof {
        assert(r@ =~= plan_spec(*cmd));
    }
    r
}

/// Handles one channel message's decode outcome. Message text that failed
/// to decode is treated as a command with all fields absent — a complete
/// no-op — so the dispatch loop performs nothing for it and goes on to
/// the next message. The function is total: no input refuses dispatch.
pub fn dispatch_message(decoded: Option<ActivationCommand>) -> (r: Vec<HeadAction>)
    ensures
        decoded matches Some(c) ==> r@ == plan_spec(c),
        decoded is None ==> r@ == plan_spec(
            (ActivationCommand { active: None, yaw: None, pitch: None }),
        ),
        decoded is None ==> r@ == Seq::<HeadAction>::empty(),
{
    match decoded {
        Some(c) => plan_command(&c),
        None => {
            let cmd = ActivationCommand::default();
            let r = plan_command(&cmd);
            proof {
                assert(plan_spec(cmd) =~= Seq::<HeadAction>::empty());
            }
            r
        },
    }
}

/// Observable head state that a plan's actions act on. Targets are in
/// tenths of a degree; a torque flag says whether the axis is actively
/// holding.
#[derive(Clone, Copy, Debug, PartialEq, Eq)]
pub struct HeadState {
    pub base_torque_on: bool,
    pub neck_torque_on: bool,
    pub base_led: LedColor,
    pub neck_led: LedColor,
    pub base_target: i32,
    pub neck_target: i32,
}

/// What one action does to the head: a move retargets its axis and holds
/// it, the shutdown turns both LEDs off and releases the base, letting
/// the neck go limp releases the neck, and waits and dwells change
/// nothing.
pub open spec fn apply_action(s: HeadState, a: HeadAction) -> HeadState {
    match a {
        HeadAction::MoveBase { angle, .. } => HeadState {
            base_torque_on: true,
            base_target: angle,
            ..s
        },
        HeadAction::MoveNeck { angle, .. } => HeadState {
            neck_torque_on: true,
            neck_target: angle,
            ..s
        },
        HeadAction::WaitBaseSettled => s,
        HeadAction::WaitNeckSettled => s,
        HeadAction::Dwell { .. } => s,
        HeadAction::TurnOff => HeadState {
            base_torque_on: false,
            base_led: LedColor::Off,
            neck_led: LedColor::Off,
            ..s
        },
        HeadAction::LimpNeck => HeadState { neck_torque_on: false, ..s },
    }
}

/// The head state after a whole plan, applied in issue order.
pub open spec fn apply_plan(s: HeadState, p: Seq<HeadAction>) -> HeadState
    decreases p.len(),
{
    if p.len() == 0 {
        s
    } else {
        apply_action(apply_plan(s, p.drop_last()), p.last())
    }
}

/// Applying a concatenated plan is applying its parts in order.
pub proof fn lemma_apply_plan_concat(s: HeadState, p: Seq<HeadAction>, q: Seq<HeadAction>)
    ensures
        apply_plan(s, p + q) == apply_plan(apply_plan(s, p), q),
    decreases q.len(),
{
    if q.len() == 0 {
        assert(p + q =~= p);
    } else {
        lemma_apply_plan_concat(s, p, q.drop_last());
        assert((p + q).drop_last() =~= p + q.drop_last());
        assert((p + q).last() == q.last());
    }
}

/// Law: a pure deactivation command — `active: false` with no overrides —
/// ends, from any starting head state, with both axes torque-released and
/// both LEDs off.
pub proof fn lemma_deactivation_releases_head(s: HeadState, c: ActivationCommand)
    requires
        c.active == Some(false),
        c.yaw is None,
        c.pitch is None,
    ensures
        !apply_plan(s, plan_spec(c)).base_torque_on,
        !apply_plan(s, plan_spec(c)).neck_torque_on,
        apply_plan(s, plan_spec(c)).base_led == LedColor::Off,
        apply_plan(s, plan_spec(c)).neck_led == LedColor::Off,
{
    let steps = activation_steps(c.active);
    assert(plan_spec(c) =~= steps);
    assert(steps.len() == 7);
    let s5 = apply_plan(s, steps.drop_last().drop_last());
    assert(steps.drop_last().drop_last().last() == steps[4]);
    assert(apply_plan(s, steps.drop_last()) == apply_action(s5, HeadAction::TurnOff));
    assert(apply_plan(s, steps) == apply_action(apply_action(s5, HeadAction::TurnOff),
    HeadAction::LimpNeck));
}

/// Law: a command `{active: true, yaw}` ends with the base targeted at
/// the override yaw — the activation branch's center target is issued
/// first and superseded — and the neck targeted at the active pitch;
/// both axes are left holding.
pub proof fn lemma_activation_yaw_override(s: HeadState, c: ActivationCommand, yaw: i32)
    requires
        c.active == Some(true),
        c.yaw == Some(yaw),
        c.pitch is None,
    ensures
        apply_plan(s, plan_spec(c)).base_target == yaw,
        apply_plan(s, plan_spec(c)).neck_target == NECK_MOTOR_A_NORMAL_POSITION,
        apply_plan(s, plan_spec(c)).base_torque_on,
        apply_plan(s, plan_spec(c)).neck_torque_on,
{
    let a0 = HeadAction::MoveBase { angle: ACTIVATION_BASE_POSITION, speed: BASE_MOVE_SPEED };
    let a1 = HeadAction::MoveNeck { angle: NECK_MOTOR_A_NORMAL_POSITION, speed: NORMAL_NECK_SPEED };
    let a2 = HeadAction::MoveBase { angle: yaw, speed: BASE_MOVE_SPEED };
    let act = activation_steps(c.active);
    let over = yaw_steps(c.yaw) + pitch_steps(c.pitch);
    assert(plan_spec(c) =~= act + over);
    lemma_apply_plan_concat(s, act, over);
    assert(act =~= seq![a0, a1]);
    assert(seq![a0, a1].drop_last() =~= seq![a0]);
    assert(seq![a0].drop_last() =~= Seq::<HeadAction>::empty());
    assert(apply_plan(s, Seq::<HeadAction>::empty()) == s);
    assert(apply_plan(s, seq![a0]) == apply_action(s, a0));
    assert(apply_plan(s, seq![a0, a1]) == apply_action(apply_action(s, a0), a1));
    let s_act = apply_plan(s, act);
    assert(over =~= seq![a2]);
    assert(seq![a2].drop_last() =~= Seq::<HeadAction>::empty());
    assert(apply_plan(s_act, Seq::<HeadAction>::empty()) == s_act);
    assert(apply_plan(s_act, seq![a2]) == apply_action(s_act, a2));
}

/// Number of base moves a plan issues.
pub open spec fn base_move_count(p: Seq<HeadAction>) -> int
    decreases p.len(),
{
    if p.len() == 0 {
        0
    } else {
        base_move_count(p.drop_last()) + (if p.last() is MoveBase {
            1int
        } else {
            0int
        })
    }
}

/// Number of neck moves a plan issues.
pub open spec fn neck_move_count(p: Seq<HeadAction>) -> int
    decreases p.len(),
{
    if p.len() == 0 {
        0
    } else {
        neck_move_count(p.drop_last()) + (if p.last() is MoveNeck {
            1int
        } else {
            0int
        })
    }
}

/// Law: a command carrying only a pitch issues exactly one neck move and
/// no base move.
pub proof fn lemma_pitch_only_touches_neck(c: ActivationCommand, pitch: i32)
    requires
        c.active is None,
        c.yaw is None,
        c.pitch == Some(pitch),
    ensures
        neck_move_count(plan_spec(c)) == 1,
        base_move_count(plan_spec(c)) == 0,
{
    let a = HeadAction::MoveNeck { angle: pitch, speed: PITCH_OVERRIDE_NECK_SPEED };
    let p = plan_spec(c);
    assert(p =~= seq![a]);
    assert(seq![a].drop_last() =~= Seq::<HeadAction>::empty());
    assert(neck_move_count(Seq::<HeadAction>::empty()) == 0);
    assert(base_move_count(Seq::<HeadAction>::empty()) == 0);
    assert(neck_move_count(seq![a]) == 1);
    assert(base_move_count(seq![a]) == 0);
}

/// The link commands one head action issues through a controller: moves
/// and the shutdown become their command sequences; waits and dwells
/// issue only status queries and sleeps, which change no observable
/// motor state.
pub open spec fn action_link_seq(c: HeadController, a: HeadAction) -> Seq<LinkCommand> {
    match a {
        HeadAction::MoveBase { angle, speed } => seq![
            LinkCommand::MoveTo { motor: c.base_motor_id, angle, speed },
        ],
        HeadAction::MoveNeck { angle, speed } => seq![
            LinkCommand::MoveTo { motor: c.neck_motor_id, angle, speed },
        ],
        HeadAction::WaitBaseSettled => Seq::empty(),
        HeadAction::WaitNeckSettled => Seq::empty(),
        HeadAction::Dwell { .. } => Seq::empty(),
        HeadAction::TurnOff => c.turn_off_seq(),
        HeadAction::LimpNeck => seq![c.limp_neck_cmd()],
    }
}

/// The link commands a whole plan issues, in issue order.
pub open spec fn plan_link_seq(c: HeadController, p: Seq<HeadAction>) -> Seq<LinkCommand>
    decreases p.len(),
{
    if p.len() == 0 {
        Seq::empty()
    } else {
        plan_link_seq(c, p.drop_last()) + action_link_seq(c, p.last())
    }
}

/// The action-level head state and the link-level motor state agree.
pub open spec fn corresponds(h: HeadState, l: LinkState) -> bool {
    &&& h.base_torque_on == l.base.torque_on
    &&& h.neck_torque_on == l.neck.torque_on
    &&& h.base_led == l.base.led
    &&& h.neck_led == l.neck.led
    &&& h.base_target == l.base.target
    &&& h.neck_target == l.neck.target
}

/// Law: the action-level meaning of each head action agrees with the
/// link-level effect of the commands a well-formed controller issues
/// for it.
pub proof fn lemma_action_link_agree(c: HeadController, h: HeadState, l: LinkState, a: HeadAction)
    requires
        c.wf(),
        corresponds(h, l),
    ensures
        corresponds(apply_action(h, a), c.apply_links(l, action_link_seq(c, a))),
{
    assert(c.apply_links(l, Seq::<LinkCommand>::empty()) == l);
    match a {
        HeadAction::MoveBase { angle, speed } => {
            let cmd = LinkCommand::MoveTo { motor: c.base_motor_id, angle, speed };
            assert(seq![cmd].drop_last() =~= Seq::<LinkCommand>::empty());
            assert(c.apply_links(l, seq![cmd]) == c.apply_link(l, cmd));
        },
        HeadAction::MoveNeck { angle, speed } => {
            let cmd = LinkCommand::MoveTo { motor: c.neck_motor_id, angle, speed };
            assert(seq![cmd].drop_last() =~= Seq::<LinkCommand>::empty());
            assert(c.apply_links(l, seq![cmd]) == c.apply_link(l, cmd));
        },
        HeadAction::TurnOff => {
            lemma_turn_off_effect(c, l);
        },
        HeadAction::LimpNeck => {
            let cmd = c.limp_neck_cmd();
            assert(seq![cmd].drop_last() =~= Seq::<LinkCommand>::empty());
            assert(c.apply_links(l, seq![cmd]) == c.apply_link(l, cmd));
        },
        _ => {},
    }
}

/// Law: over a whole plan, the action-level interpreter and the issued
/// link commands stay in agreement: the final head state the dispatch
/// laws speak of is the state the wire-level commands produce.
pub proof fn lemma_plan_link_agree(c: HeadController, h: HeadState, l: LinkState, p: Seq<HeadAction>)
    requires
        c.wf(),
        corresponds(h, l),
    ensures
        corresponds(apply_plan(h, p), c.apply_links(l, plan_link_seq(c, p))),
    decreases p.len(),
{
    if p.len() == 0 {
    } else {
        lemma_plan_link_agree(c, h, l, p.drop_last());
        lemma_apply_links_concat(
            c,
            l,
            plan_link_seq(c, p.drop_last()),
            action_link_seq(c, p.last()),
        );
        lemma_action_link_agree(
            c,
            apply_plan(h, p.drop_last()),
            c.apply_links(l, plan_link_seq(c, p.drop_last())),
            p.last(),
        );
    }
}

/// Law: the deactivation command's plan, issued through any well-formed
/// controller from any starting motor state, leaves both motors
/// torque-released with their LEDs off on the wire.
pub proof fn lemma_deactivation_releases_on_the_wire(
    c: HeadController,
    l: LinkState,
    cmd: ActivationCommand,
)
    requires
        c.wf(),
        cmd.active == Some(false),
        cmd.yaw is None,
        cmd.pitch is None,
    ensures
        !c.apply_links(l, plan_link_seq(c, plan_spec(cmd))).base.torque_on,
        !c.apply_links(l, plan_link_seq(c, plan_spec(cmd))).neck.torque_on,
        c.apply_links(l, plan_link_seq(c, plan_spec(cmd))).base.led == LedColor::Off,
        c.apply_links(l, plan_link_seq(c, plan_spec(cmd))).neck.led == LedColor::Off,
{
    let h = HeadState {
        base_torque_on: l.base.torque_on,
        neck_torque_on: l.neck.torque_on,
        base_led: l.base.led,
        neck_led: l.neck.led,
        base_target: l.base.target,
        neck_target: l.neck.target,
    };
    lemma_deactivation_releases_head(h, cmd);
    lemma_plan_link_agree(c, h, l, plan_spec(cmd));
}

/// Law: a command with every field absent — what malformed message text
/// decodes to — plans nothing at all.
pub proof fn lemma_empty_command_is_noop(c: ActivationCommand)
    requires
        c.active is None,
        c.yaw is None,
        c.pitch is None,
    ensures
        plan_spec(c) == Seq::<HeadAction>::empty(),
{
    assert(plan_spec(c) =~= Seq::<HeadAction>::empty());
}

} // verus!
