//! The head controller: binds the two logical axes (base yaw, neck pitch)
//! to physical motor ids and decides, for each high-level operation, the
//! exact link commands to issue and in what order. The serial link that
//! performs the commands lives outside the library; a runtime walks each
//! returned sequence and stops at the first link failure, surfacing it
//! unmodified.

use vstd::prelude::*;

use crate::error::ErrorWrapper;
use crate::link::LedColor;
use crate::link::LinkCommand;
use crate::settle::SettlePhase;
use crate::settle::SettleWait;

verus! {

/// Startup configuration: the serial port the link opens, and the two
/// motor bindings.
#[derive(Clone, Debug)]
pub struct MotorsConfig {
    pub serial_port: String,
    pub base_motor_id: u8,
    pub neck_motor_id: u8,
}

/// Maps the two logical axes to physical motor ids, fixed for the
/// controller's lifetime.
#[derive(Clone, Copy, Debug)]
pub struct HeadController {
    pub base_motor_id: u8,
    pub neck_motor_id: u8,
}

/// The configuration sequence for one motor, in order: reset the origin
/// offset to zero, set the LED color policy, show the ready color, enable
/// motion smoothing, and read the current position (a diagnostic read).
pub open spec fn axis_configure_seq(motor: u8) -> Seq<LinkCommand> {
    seq![
        LinkCommand::SetOriginOffset { motor, offset: 0 },
        LinkCommand::ConfigureColor { motor, color: LedColor::Off },
        LinkCommand::SetColor { motor, color: LedColor::Cyan },
        LinkCommand::SetMotionProfile { motor, on: true },
        LinkCommand::QueryPosition { motor },
    ]
}

/// The configuration commands for a list of motors, each motor's five
/// commands in list order.
pub open spec fn configure_prefix(ids: Seq<u8>) -> Seq<LinkCommand>
    decreases ids.len(),
{
    if ids.len() == 0 {
        Seq::empty()
    } else {
        configure_prefix(ids.drop_last()) + axis_configure_seq(ids.last())
    }
}

/// Whether a command releases the holding torque of the given motor.
pub open spec fn is_release_of(c: LinkCommand, id: u8) -> bool {
    c matches LinkCommand::ReleaseTorque { motor } && motor == id
}

impl HeadController {
    /// Well-formed: the two axes are bound to distinct physical motors.
    pub open spec fn wf(self) -> bool {
        self.base_motor_id != self.neck_motor_id
    }

    /// Binds the two axes to the given motor ids. A binding that aliases
    /// both axes to one motor is rejected.
    pub fn new(base_motor_id: u8, neck_motor_id: u8) -> (r: Result<Self, ErrorWrapper>)
        ensures
            r is Ok <==> base_motor_id != neck_motor_id,
            r matches Ok(c) ==> c == (HeadController { base_motor_id, neck_motor_id }) && c.wf(),
            r matches Err(e) ==> e == ErrorWrapper::GenericError,
    {
        if base_motor_id == neck_motor_id {
            Err(ErrorWrapper::GenericError)
        } else {
            Ok(HeadController { base_motor_id, neck_motor_id })
        }
    }

    /// Binds the axes as the configuration record says.
    pub fn with_config(config: &MotorsConfig) -> (r: Result<Self, ErrorWrapper>)
        ensures
            r is Ok <==> config.base_motor_id != config.neck_motor_id,
            r matches Ok(c) ==> c == (HeadController {
                base_motor_id: config.base_motor_id,
                neck_motor_id: config.neck_motor_id,
            }) && c.wf(),
            r matches Err(e) ==> e == ErrorWrapper::GenericError,
    {
        Self::new(config.base_motor_id, config.neck_motor_id)
    }

    /// The physical ids of all motors, base axis first.
    pub open spec fn all_ids(self) -> Seq<u8> {
        seq![self.base_motor_id, self.neck_motor_id]
    }

    /// The physical ids of all motors, base axis first.
    fn all_motor_ids(&self) -> (r: Vec<u8>)
        ensures
            r@ == self.all_ids(),
    {
        let mut r: Vec<u8> = Vec::new();
        r.push(self.base_motor_id);
        r.push(self.neck_motor_id);
        proof {
            assert(r@ =~= self.all_ids());
        }
        r
    }

    /// The full configuration sequence: the base axis configured first,
    /// then the neck. The runtime stops at the first failed command, so
    /// a failure on the base axis leaves the neck unconfigured.
    pub open spec fn configure_seq(self) -> Seq<LinkCommand> {
        axis_configure_seq(self.base_motor_id) + axis_configure_seq(self.neck_motor_id)
    }

    /// The commands that configure both axes, in issue order.
    pub fn configure(&self) -> (r: Vec<LinkCommand>)
        ensures
            r@ == self.configure_seq(),
    {
        let ids = self.all_motor_ids();
        let mut r: Vec<LinkCommand> = Vec::new();
        let mut i: usize = 0;
        while i < ids.len()
            invariant
                i <= ids@.len(),
                ids@ == self.all_ids(),
                r@ == configure_prefix(ids@.subrange(0, i as int)),
            decreases ids@.len() - i,
        {
            let motor = ids[i];
            r.push(LinkCommand::SetOriginOffset { motor, offset: 0 });
            r.push(LinkCommand::ConfigureColor { motor, color: LedColor::Off });
            r.push(LinkCommand::SetColor { motor, color: LedColor::Cyan });
            r.push(LinkCommand::SetMotionProfile { motor, on: true });
            r.push(LinkCommand::QueryPosition { motor });
            proof {
                let pre = ids@.subrange(0, i as int);
                let cur = ids@.subrange(0, i as int + 1);
                assert(cur.drop_last() =~= pre);
                assert(cur.last() == motor);
                assert(r@ =~= configure_prefix(pre) + axis_configure_seq(motor));
                assert(r@ =~= configure_prefix(cur));
            }
            i = i + 1;
        }
        proof {
            let both = self.all_ids();
            assert(ids@.subrange(0, ids@.len() as int) =~= both);
            assert(both.drop_last() =~= seq![self.base_motor_id]);
            assert(both.last() == self.neck_motor_id);
            assert(seq![self.base_motor_id].drop_last() =~= Seq::<u8>::empty());
            assert(seq![self.base_motor_id].last() == self.base_motor_id);
            assert(configure_prefix(Seq::<u8>::empty()) == Seq::<LinkCommand>::empty());
            assert(configure_prefix(seq![self.base_motor_id]) =~= axis_configure_seq(
                self.base_motor_id,
            ));
            assert(r@ =~= self.configure_seq());
        }
        r
    }

    /// The single move command for the base axis: target angle in tenths
    /// of a degree, capped at `speed` degrees per second. The command
    /// returns as soon as the link accepts it; completion is observed
    /// separately through a settle-wait.
    pub fn move_base_to(&self, angle: i32, speed: u32) -> (r: LinkCommand)
        ensures
            r == (LinkCommand::MoveTo { motor: self.base_motor_id, angle, speed }),
    {
        LinkCommand::MoveTo { motor: self.base_motor_id, angle, speed }
    }

    /// The single move command for the neck axis, as `move_base_to`.
    pub fn move_neck_to(&self, angle: i32, speed: u32) -> (r: LinkCommand)
        ensures
            r == (LinkCommand::MoveTo { motor: self.neck_motor_id, angle, speed }),
    {
        LinkCommand::MoveTo { motor: self.neck_motor_id, angle, speed }
    }

    /// Begins the settle-detection protocol for the base axis.
    pub fn wait_until_base_in_position(&self) -> (w: SettleWait)
        ensures
            w.motor == self.base_motor_id,
            w.phase == SettlePhase::Grace,
    {
        SettleWait::begin(self.base_motor_id)
    }

    /// Begins the settle-detection protocol for the neck axis.
    pub fn wait_until_neck_in_position(&self) -> (w: SettleWait)
        ensures
            w.motor == self.neck_motor_id,
            w.phase == SettlePhase::Grace,
    {
        SettleWait::begin(self.neck_motor_id)
    }

    /// The shutdown sequence: LED off on every motor, base first, then
    /// release the base axis's holding torque. The neck axis's torque is
    /// deliberately not touched here; `limp_neck` releases it separately.
    pub open spec fn turn_off_seq(self) -> Seq<LinkCommand> {
        seq![
            LinkCommand::SetColor { motor: self.base_motor_id, color: LedColor::Off },
            LinkCommand::SetColor { motor: self.neck_motor_id, color: LedColor::Off },
            LinkCommand::ReleaseTorque { motor: self.base_motor_id },
        ]
    }

    /// The commands that shut the head down, in issue order.
    pub fn turn_off(&self) -> (r: Vec<LinkCommand>)
        ensures
            r@ == self.turn_off_seq(),
    {
        let mut r: Vec<LinkCommand> = Vec::new();
        r.push(LinkCommand::SetColor { motor: self.base_motor_id, color: LedColor::Off });
        r.push(LinkCommand::SetColor { motor: self.neck_motor_id, color: LedColor::Off });
        r.push(LinkCommand::ReleaseTorque { motor: self.base_motor_id });
        proof {
            assert(r@ =~= self.turn_off_seq());
        }
        r
    }

    /// The command that releases the neck axis's holding torque.
    pub open spec fn limp_neck_cmd(self) -> LinkCommand {
        LinkCommand::ReleaseTorque { motor: self.neck_motor_id }
    }

    /// The single command that lets the neck go limp, independently of
    /// `turn_off`.
    pub fn limp_neck(&self) -> (r: LinkCommand)
        ensures
            r == self.limp_neck_cmd(),
    {
        LinkCommand::ReleaseTorque { motor: self.neck_motor_id }
    }
}

/// Observable state of one motor that the issued commands act on.
#[derive(Clone, Copy, Debug, PartialEq, Eq)]
pub struct AxisState {
    pub torque_on: bool,
    pub led: LedColor,
    pub target: i32,
}

/// Observable state of both motors.
#[derive(Clone, Copy, Debug, PartialEq, Eq)]
pub struct LinkState {
    pub base: AxisState,
    pub neck: AxisState,
}

impl HeadController {
    /// What one link command does to the motors this controller drives: a
    /// move retargets its motor and holds it, a color change repaints its
    /// LED, a torque release lets it go limp, and the configuration and
    /// query commands leave this observable state alone.
    pub open spec fn apply_link(self, s: LinkState, c: LinkCommand) -> LinkState {
        match c {
            LinkCommand::SetColor { motor, color } => if motor == self.base_motor_id {
                LinkState { base: AxisState { led: color, ..s.base }, ..s }
            } else if motor == self.neck_motor_id {
                LinkState { neck: AxisState { led: color, ..s.neck }, ..s }
            } else {
                s
            },
            LinkCommand::MoveTo { motor, angle, .. } => if motor == self.base_motor_id {
                LinkState { base: AxisState { torque_on: true, target: angle, ..s.base }, ..s }
            } else if motor == self.neck_motor_id {
                LinkState { neck: AxisState { torque_on: true, target: angle, ..s.neck }, ..s }
            } else {
                s
            },
            LinkCommand::ReleaseTorque { motor } => if motor == self.base_motor_id {
                LinkState { base: AxisState { torque_on: false, ..s.base }, ..s }
            } else if motor == self.neck_motor_id {
                LinkState { neck: AxisState { torque_on: false, ..s.neck }, ..s }
            } else {
                s
            },
            _ => s,
        }
    }

    /// The motors' state after a whole command sequence, in issue order.
    pub open spec fn apply_links(self, s: LinkState, cs: Seq<LinkCommand>) -> LinkState
        decreases cs.len(),
    {
        if cs.len() == 0 {
            s
        } else {
            self.apply_link(self.apply_links(s, cs.drop_last()), cs.last())
        }
    }
}

/// Applying a concatenated command sequence is applying its parts in
/// order.
pub proof fn lemma_apply_links_concat(
    c: HeadController,
    s: LinkState,
    p: Seq<LinkCommand>,
    q: Seq<LinkCommand>,
)
    ensures
        c.apply_links(s, p + q) == c.apply_links(c.apply_links(s, p), q),
    decreases q.len(),
{
    if q.len() == 0 {
        assert(p + q =~= p);
    } else {
        lemma_apply_links_concat(c, s, p, q.drop_last());
        assert((p + q).drop_last() =~= p + q.drop_last());
        assert((p + q).last() == q.last());
    }
}

/// Law: from any motor state, the shutdown sequence turns both LEDs off
/// and releases the base axis's torque, while the neck axis's torque and
/// both targets stay exactly what they were.
pub proof fn lemma_turn_off_effect(c: HeadController, s: LinkState)
    requires
        c.wf(),
    ensures
        c.apply_links(s, c.turn_off_seq()).base.led == LedColor::Off,
        c.apply_links(s, c.turn_off_seq()).neck.led == LedColor::Off,
        !c.apply_links(s, c.turn_off_seq()).base.torque_on,
        c.apply_links(s, c.turn_off_seq()).neck.torque_on == s.neck.torque_on,
        c.apply_links(s, c.turn_off_seq()).base.target == s.base.target,
        c.apply_links(s, c.turn_off_seq()).neck.target == s.neck.target,
{
    let c0 = LinkCommand::SetColor { motor: c.base_motor_id, color: LedColor::Off };
    let c1 = LinkCommand::SetColor { motor: c.neck_motor_id, color: LedColor::Off };
    let c2 = LinkCommand::ReleaseTorque { motor: c.base_motor_id };
    assert(c.turn_off_seq() =~= seq![c0, c1, c2]);
    assert(seq![c0, c1, c2].drop_last() =~= seq![c0, c1]);
    assert(seq![c0, c1].drop_last() =~= seq![c0]);
    assert(seq![c0].drop_last() =~= Seq::<LinkCommand>::empty());
    assert(c.apply_links(s, Seq::<LinkCommand>::empty()) == s);
    assert(c.apply_links(s, seq![c0]) == c.apply_link(s, c0));
    assert(c.apply_links(s, seq![c0, c1]) == c.apply_link(c.apply_link(s, c0), c1));
    assert(c.apply_links(s, seq![c0, c1, c2]) == c.apply_link(
        c.apply_link(c.apply_link(s, c0), c1),
        c2,
    ));
}

/// Law: from any motor state, letting the neck go limp releases exactly
/// the neck axis's torque and changes nothing else.
pub proof fn lemma_limp_neck_effect(c: HeadController, s: LinkState)
    requires
        c.wf(),
    ensures
        !c.apply_link(s, c.limp_neck_cmd()).neck.torque_on,
        c.apply_link(s, c.limp_neck_cmd()).base == s.base,
        c.apply_link(s, c.limp_neck_cmd()).neck.led == s.neck.led,
        c.apply_link(s, c.limp_neck_cmd()).neck.target == s.neck.target,
{
}

/// Law: the shutdown sequence never releases the neck axis's torque.
pub proof fn lemma_turn_off_spares_neck(c: HeadController)
    requires
        c.wf(),
    ensures
        forall|i: int|
            0 <= i < c.turn_off_seq().len() ==> !is_release_of(c.turn_off_seq()[i], c.neck_motor_id),
{
}

/// Law: letting the neck go limp never releases the base axis's torque.
pub proof fn lemma_limp_neck_spares_base(c: HeadController)
    requires
        c.wf(),
    ensures
        !is_release_of(c.limp_neck_cmd(), c.base_motor_id),
{
}

} // verus!
