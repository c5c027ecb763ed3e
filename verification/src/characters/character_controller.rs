//! Movement and controls for playable characters.

use vstd::prelude::*;

verus! {

/// A movement input action.
#[derive(Debug, Clone, Copy, PartialEq, Eq, Structural, Hash)]
pub enum MovementAction {
    /// Turn to the left
    TurnLeft,
    /// Turn to the right
    TurnRight,
    /// Strafe left
    StrafeLeft,
    /// Strafe right
    StrafeRight,
    /// Move forward
    MoveForward,
    /// Move backward
    MoveBackward,
    /// Jump in the Y direction.
    Jump,
}

/// The keys that control a character, as read in one frame: whether each
/// is held down, and whether the jump key went down this frame.
#[derive(Debug, Clone, Copy, PartialEq, Eq, Structural, Hash, Default)]
pub struct KeyboardState {
    pub key_w: bool,
    pub key_s: bool,
    pub key_a: bool,
    pub key_d: bool,
    pub key_q: bool,
    pub key_e: bool,
    pub arrow_up: bool,
    pub arrow_down: bool,
    pub arrow_left: bool,
    pub arrow_right: bool,
    pub space_just_pressed: bool,
}

impl KeyboardState {
    /// W or the up arrow.
    pub open spec fn forward_held(self) -> bool {
        self.key_w || self.arrow_up
    }

    /// S or the down arrow.
    pub open spec fn back_held(self) -> bool {
        self.key_s || self.arrow_down
    }

    /// Q or the left arrow.
    pub open spec fn strafe_left_held(self) -> bool {
        self.key_q || self.arrow_left
    }

    /// E or the right arrow.
    pub open spec fn strafe_right_held(self) -> bool {
        self.key_e || self.arrow_right
    }

    /// A or the left arrow.
    pub open spec fn turn_left_held(self) -> bool {
        self.key_a || self.arrow_left
    }

    /// D or the right arrow.
    pub open spec fn turn_right_held(self) -> bool {
        self.key_d || self.arrow_right
    }
}

/// The value of an input axis: 1 toward `positive`, -1 toward `negative`,
/// 0 when neither or both are held.
pub open spec fn axis_value(positive: bool, negative: bool) -> int {
    (if positive { 1int } else { 0int }) - (if negative { 1int } else { 0int })
}

/// The action an axis value sends: `pos` for 1, `neg` for -1, none otherwise.
pub open spec fn axis_actions(value: int, pos: MovementAction, neg: MovementAction) -> Seq<
    MovementAction,
> {
    if value == 1 {
        seq![pos]
    } else if value == -1 {
        seq![neg]
    } else {
        Seq::empty()
    }
}

/// The actions sent for one frame of keyboard state, in order: turning,
/// strafing, moving forward or back, jumping.
pub open spec fn spec_keyboard_actions(keys: KeyboardState) -> Seq<MovementAction> {
    axis_actions(
        axis_value(keys.turn_right_held(), keys.turn_left_held()),
        MovementAction::TurnRight,
        MovementAction::TurnLeft,
    ) + axis_actions(
        axis_value(keys.strafe_right_held(), keys.strafe_left_held()),
        MovementAction::StrafeRight,
        MovementAction::StrafeLeft,
    ) + axis_actions(
        axis_value(keys.forward_held(), keys.back_held()),
        MovementAction::MoveForward,
        MovementAction::MoveBackward,
    ) + (if keys.space_just_pressed {
        seq![MovementAction::Jump]
    } else {
        Seq::empty()
    })
}

/// The value of an input axis from its two directions.
fn axis(positive: bool, negative: bool) -> (res: i8)
    ensures
        res == axis_value(positive, negative),
{
    let p: i8 = if positive { 1 } else { 0 };
    let n: i8 = if negative { 1 } else { 0 };
    p - n
}

/// Pushes the action for an axis value onto `actions`.
fn push_axis_action(
    actions: &mut Vec<MovementAction>,
    value: i8,
    pos: MovementAction,
    neg: MovementAction,
)
    ensures
        final(actions)@ == old(actions)@ + axis_actions(value as int, pos, neg),
{
    if value == 1 {
        actions.push(pos);
    } else if value == -1 {
        actions.push(neg);
    }
    proof {
        assert(final(actions)@ =~= old(actions)@ + axis_actions(value as int, pos, neg));
    }
}

/// The movement actions sent for one frame of keyboard state.
///
/// Opposite directions on the same axis cancel out. The left arrow is bound
/// both to strafing left and to turning left, the right arrow both to
/// strafing right and to turning right.
pub fn keyboard_input(keys: &KeyboardState) -> (res: Vec<MovementAction>)
    ensures
        res@ == spec_keyboard_actions(*keys),
        res@.no_duplicates(),
{
    let forward = keys.key_w || keys.arrow_up;
    let back = keys.key_s || keys.arrow_down;
    let strafe_left = keys.key_q || keys.arrow_left;
    let strafe_right = keys.key_e || keys.arrow_right;
    let turn_left = keys.key_a || keys.arrow_left;
    let turn_right = keys.key_d || keys.arrow_right;

    let turning = axis(turn_right, turn_left);
    let horizontal = axis(strafe_right, strafe_left);
    let vertical = axis(forward, back);

    let mut actions: Vec<MovementAction> = Vec::new();
    push_axis_action(&mut actions, turning, MovementAction::TurnRight, MovementAction::TurnLeft);
    push_axis_action(
        &mut actions,
        horizontal,
        MovementAction::StrafeRight,
        MovementAction::StrafeLeft,
    );
    push_axis_action(
        &mut actions,
        vertical,
        MovementAction::MoveForward,
        MovementAction::MoveBackward,
    );
    if keys.space_just_pressed {
        actions.push(MovementAction::Jump);
    }
    proof {
        assert(actions@ =~= spec_keyboard_actions(*keys));
        lemma_keyboard_actions_distinct(*keys);
    }
    actions
}


/// What an axis sends: `pos` exactly at value 1, `neg` exactly at value -1.
proof fn lemma_axis_actions_contains(
    value: int,
    pos: MovementAction,
    neg: MovementAction,
    a: MovementAction,
)
    requires
        pos != neg,
    ensures
        axis_actions(value, pos, neg).contains(a) <==> ((value == 1 && a == pos) || (value == -1
            && a == neg)),
{
    if value == 1 {
        assert(axis_actions(value, pos, neg)[0] == pos);
    } else if value == -1 {
        assert(axis_actions(value, pos, neg)[0] == neg);
    }
}

/// Each movement action is sent exactly when its direction is held and the
/// opposite direction of the same axis is not (jumping: when the jump key
/// went down); so opposite actions are never sent together.
pub proof fn lemma_keyboard_actions_exact(keys: KeyboardState, a: MovementAction)
    ensures
        spec_keyboard_actions(keys).contains(a) <==> match a {
            MovementAction::TurnLeft => (keys.key_a || keys.arrow_left) && !(keys.key_d
                || keys.arrow_right),
            MovementAction::TurnRight => (keys.key_d || keys.arrow_right) && !(keys.key_a
                || keys.arrow_left),
            MovementAction::StrafeLeft => (keys.key_q || keys.arrow_left) && !(keys.key_e
                || keys.arrow_right),
            MovementAction::StrafeRight => (keys.key_e || keys.arrow_right) && !(keys.key_q
                || keys.arrow_left),
            MovementAction::MoveForward => (keys.key_w || keys.arrow_up) && !(keys.key_s
                || keys.arrow_down),
            MovementAction::MoveBackward => (keys.key_s || keys.arrow_down) && !(keys.key_w
                || keys.arrow_up),
            MovementAction::Jump => keys.space_just_pressed,
        },
        !(spec_keyboard_actions(keys).contains(MovementAction::TurnLeft)
            && spec_keyboard_actions(keys).contains(MovementAction::TurnRight)),
        !(spec_keyboard_actions(keys).contains(MovementAction::StrafeLeft)
            && spec_keyboard_actions(keys).contains(MovementAction::StrafeRight)),
        !(spec_keyboard_actions(keys).contains(MovementAction::MoveForward)
            && spec_keyboard_actions(keys).contains(MovementAction::MoveBackward)),
{
    let tv = axis_value(keys.turn_right_held(), keys.turn_left_held());
    let hv = axis_value(keys.strafe_right_held(), keys.strafe_left_held());
    let vv = axis_value(keys.forward_held(), keys.back_held());
    let t = axis_actions(tv, MovementAction::TurnRight, MovementAction::TurnLeft);
    let h = axis_actions(hv, MovementAction::StrafeRight, MovementAction::StrafeLeft);
    let v = axis_actions(vv, MovementAction::MoveForward, MovementAction::MoveBackward);
    let j = if keys.space_just_pressed {
        seq![MovementAction::Jump]
    } else {
        Seq::<MovementAction>::empty()
    };
    assert forall|x: MovementAction| #[trigger] spec_keyboard_actions(keys).contains(x) <==> (
    t.contains(x) || h.contains(x) || v.contains(x) || j.contains(x)) by {
        vstd::seq_lib::lemma_seq_concat_contains_all_elements(t, h, x);
        vstd::seq_lib::lemma_seq_concat_contains_all_elements(t + h, v, x);
        vstd::seq_lib::lemma_seq_concat_contains_all_elements(t + h + v, j, x);
    }
    assert forall|x: MovementAction| #[trigger] j.contains(x) <==> (keys.space_just_pressed && x
        == MovementAction::Jump) by {
        if keys.space_just_pressed {
            assert(j[0] == MovementAction::Jump);
        }
    }
    lemma_axis_actions_contains(tv, MovementAction::TurnRight, MovementAction::TurnLeft, a);
    lemma_axis_actions_contains(hv, MovementAction::StrafeRight, MovementAction::StrafeLeft, a);
    lemma_axis_actions_contains(vv, MovementAction::MoveForward, MovementAction::MoveBackward, a);
    let tl = MovementAction::TurnLeft;
    let tr = MovementAction::TurnRight;
    let sl = MovementAction::StrafeLeft;
    let sr = MovementAction::StrafeRight;
    let mf = MovementAction::MoveForward;
    let mb = MovementAction::MoveBackward;
    lemma_axis_actions_contains(tv, tr, tl, tl);
    lemma_axis_actions_contains(tv, tr, tl, tr);
    lemma_axis_actions_contains(hv, sr, sl, tl);
    lemma_axis_actions_contains(hv, sr, sl, tr);
    lemma_axis_actions_contains(vv, mf, mb, tl);
    lemma_axis_actions_contains(vv, mf, mb, tr);
    lemma_axis_actions_contains(tv, tr, tl, sl);
    lemma_axis_actions_contains(tv, tr, tl, sr);
    lemma_axis_actions_contains(hv, sr, sl, sl);
    lemma_axis_actions_contains(hv, sr, sl, sr);
    lemma_axis_actions_contains(vv, mf, mb, sl);
    lemma_axis_actions_contains(vv, mf, mb, sr);
    lemma_axis_actions_contains(tv, tr, tl, mf);
    lemma_axis_actions_contains(tv, tr, tl, mb);
    lemma_axis_actions_contains(hv, sr, sl, mf);
    lemma_axis_actions_contains(hv, sr, sl, mb);
    lemma_axis_actions_contains(vv, mf, mb, mf);
    lemma_axis_actions_contains(vv, mf, mb, mb);
}

/// The axis an action belongs to: turning, strafing, moving, jumping.
pub open spec fn action_axis(a: MovementAction) -> int {
    match a {
        MovementAction::TurnLeft | MovementAction::TurnRight => 0,
        MovementAction::StrafeLeft | MovementAction::StrafeRight => 1,
        MovementAction::MoveForward | MovementAction::MoveBackward => 2,
        MovementAction::Jump => 3,
    }
}

/// The actions of `s` belong to strictly increasing axes.
spec fn axes_increasing(s: Seq<MovementAction>) -> bool {
    forall|i: int, k: int| 0 <= i < k < s.len() ==> action_axis(s[i]) < action_axis(s[k])
}

/// What an axis sends is at most one action, of that axis.
proof fn lemma_axis_actions_one_axis(
    value: int,
    pos: MovementAction,
    neg: MovementAction,
    axis: int,
)
    requires
        action_axis(pos) == axis,
        action_axis(neg) == axis,
    ensures
        axis_actions(value, pos, neg).len() <= 1,
        forall|i: int|
            0 <= i < axis_actions(value, pos, neg).len() ==> action_axis(
                #[trigger] axis_actions(value, pos, neg)[i],
            ) == axis,
{
}

/// Joining two runs whose axes increase, the first below the second, keeps
/// the axes increasing.
proof fn lemma_axes_increasing_concat(a: Seq<MovementAction>, b: Seq<MovementAction>)
    requires
        axes_increasing(a),
        axes_increasing(b),
        forall|i: int, k: int|
            0 <= i < a.len() && 0 <= k < b.len() ==> action_axis(a[i]) < action_axis(b[k]),
    ensures
        axes_increasing(a + b),
{
    assert forall|i: int, k: int| 0 <= i < k < (a + b).len() implies action_axis((a + b)[i])
        < action_axis((a + b)[k]) by {
        if k < a.len() {
        } else if i < a.len() {
            assert((a + b)[k] == b[k - a.len()]);
        } else {
            assert((a + b)[i] == b[i - a.len()]);
            assert((a + b)[k] == b[k - a.len()]);
        }
    }
}

/// No action is sent twice in one frame, and the actions come in axis
/// order: turning, then strafing, then moving, then jumping.
pub proof fn lemma_keyboard_actions_distinct(keys: KeyboardState)
    ensures
        forall|i: int, k: int|
            0 <= i < k < spec_keyboard_actions(keys).len() ==> action_axis(
                spec_keyboard_actions(keys)[i],
            ) < action_axis(spec_keyboard_actions(keys)[k]),
        forall|i: int, k: int|
            0 <= i < spec_keyboard_actions(keys).len() && 0 <= k < spec_keyboard_actions(keys).len()
                && i != k ==> spec_keyboard_actions(keys)[i] != spec_keyboard_actions(keys)[k],
{
    let t = axis_actions(
        axis_value(keys.turn_right_held(), keys.turn_left_held()),
        MovementAction::TurnRight,
        MovementAction::TurnLeft,
    );
    let h = axis_actions(
        axis_value(keys.strafe_right_held(), keys.strafe_left_held()),
        MovementAction::StrafeRight,
        MovementAction::StrafeLeft,
    );
    let v = axis_actions(
        axis_value(keys.forward_held(), keys.back_held()),
        MovementAction::MoveForward,
        MovementAction::MoveBackward,
    );
    let j = if keys.space_just_pressed {
        seq![MovementAction::Jump]
    } else {
        Seq::<MovementAction>::empty()
    };
    lemma_axis_actions_one_axis(
        axis_value(keys.turn_right_held(), keys.turn_left_held()),
        MovementAction::TurnRight,
        MovementAction::TurnLeft,
        0,
    );
    lemma_axis_actions_one_axis(
        axis_value(keys.strafe_right_held(), keys.strafe_left_held()),
        MovementAction::StrafeRight,
        MovementAction::StrafeLeft,
        1,
    );
    lemma_axis_actions_one_axis(
        axis_value(keys.forward_held(), keys.back_held()),
        MovementAction::MoveForward,
        MovementAction::MoveBackward,
        2,
    );
    assert(forall|i: int| 0 <= i < j.len() ==> action_axis(#[trigger] j[i]) == 3);
    lemma_axes_increasing_concat(t, h);
    assert forall|i: int| 0 <= i < (t + h).len() implies action_axis(#[trigger] (t + h)[i]) <= 1 by {
        if i >= t.len() {
            assert((t + h)[i] == h[i - t.len()]);
        }
    }
    lemma_axes_increasing_concat(t + h, v);
    assert forall|i: int| 0 <= i < (t + h + v).len() implies action_axis(#[trigger] (t + h + v)[i])
        <= 2 by {
        if i >= (t + h).len() {
            assert((t + h + v)[i] == v[i - (t + h).len()]);
        } else {
            assert((t + h + v)[i] == (t + h)[i]);
        }
    }
    lemma_axes_increasing_concat(t + h + v, j);
    let all = spec_keyboard_actions(keys);
    assert(all == t + h + v + j);
    assert forall|i: int, k: int| 0 <= i < all.len() && 0 <= k < all.len() && i != k implies all[i]
        != all[k] by {
        if i < k {
            assert(action_axis(all[i]) < action_axis(all[k]));
        } else {
            assert(action_axis(all[k]) < action_axis(all[i]));
        }
    }
}

/// At most one action per axis and one jump are sent in a frame, and the
/// jump, when sent, comes last.
pub proof fn lemma_keyboard_actions_shape(keys: KeyboardState)
    ensures
        spec_keyboard_actions(keys).len() <= 4,
        keys.space_just_pressed ==> spec_keyboard_actions(keys).last() == MovementAction::Jump,
{
}

/// A turn of the character about its vertical axis.
#[derive(Debug, Clone, Copy, PartialEq, Eq, Structural, Hash)]
pub enum TurnDirection {
    /// Raise the angular velocity about the vertical axis by the turn rate.
    Left,
    /// Lower the angular velocity about the vertical axis by the turn rate.
    Right,
}

/// A direction in the character's own frame.
#[derive(Debug, Clone, Copy, PartialEq, Eq, Structural, Hash)]
pub enum Heading {
    Forward,
    Back,
    Left,
    Right,
}

/// Which of the character's acceleration rates a push uses.
#[derive(Debug, Clone, Copy, PartialEq, Eq, Structural, Hash)]
pub enum PushRate {
    /// The forward acceleration.
    Forward,
    /// The backward acceleration.
    Backward,
    /// The sideways (strafing) acceleration.
    Strafe,
}

/// How one movement action changes a character's velocity.
#[derive(Debug, Clone, Copy, PartialEq, Eq, Structural, Hash)]
pub enum VelocityChange {
    /// Change the angular velocity about the vertical axis by the turn rate
    /// times the frame time, up for `Left`, down for `Right`.
    Turn(TurnDirection),
    /// Add to the linear velocity the unit vector of `heading` in the
    /// character's frame, times the acceleration `rate`, times the frame time.
    Push { heading: Heading, rate: PushRate },
    /// Set the vertical linear velocity to the jump impulse.
    Jump,
}

/// How `action` changes the velocity of a character that is (or is not) on
/// the ground; `None` when it has no effect.
pub open spec fn spec_velocity_change(action: MovementAction, grounded: bool) -> Option<
    VelocityChange,
> {
    match action {
        MovementAction::TurnLeft => Some(VelocityChange::Turn(TurnDirection::Left)),
        MovementAction::TurnRight => Some(VelocityChange::Turn(TurnDirection::Right)),
        MovementAction::MoveForward => Some(
            VelocityChange::Push { heading: Heading::Forward, rate: PushRate::Forward },
        ),
        MovementAction::MoveBackward => Some(
            VelocityChange::Push { heading: Heading::Back, rate: PushRate::Backward },
        ),
        MovementAction::StrafeLeft => Some(
            VelocityChange::Push { heading: Heading::Left, rate: PushRate::Strafe },
        ),
        MovementAction::StrafeRight => Some(
            VelocityChange::Push { heading: Heading::Right, rate: PushRate::Strafe },
        ),
        MovementAction::Jump => if grounded {
            Some(VelocityChange::Jump)
        } else {
            None
        },
    }
}

/// How `action` changes the velocity of a character: turning and moving
/// always act, jumping only while the character is on the ground.
pub fn velocity_change(action: MovementAction, grounded: bool) -> (res: Option<VelocityChange>)
    ensures
        res == spec_velocity_change(action, grounded),
{
    match action {
        MovementAction::TurnLeft => Some(VelocityChange::Turn(TurnDirection::Left)),
        MovementAction::TurnRight => Some(VelocityChange::Turn(TurnDirection::Right)),
        MovementAction::MoveForward => Some(
            VelocityChange::Push { heading: Heading::Forward, rate: PushRate::Forward },
        ),
        MovementAction::MoveBackward => Some(
            VelocityChange::Push { heading: Heading::Back, rate: PushRate::Backward },
        ),
        MovementAction::StrafeLeft => Some(
            VelocityChange::Push { heading: Heading::Left, rate: PushRate::Strafe },
        ),
        MovementAction::StrafeRight => Some(
            VelocityChange::Push { heading: Heading::Right, rate: PushRate::Strafe },
        ),
        MovementAction::Jump => {
            if grounded {
                Some(VelocityChange::Jump)
            } else {
                None
            }
        },
    }
}

/// The velocity changes that a sequence of actions makes to one character,
/// in the order of the actions, leaving out the actions that have no effect.
pub open spec fn spec_movement_plan(actions: Seq<MovementAction>, grounded: bool) -> Seq<
    VelocityChange,
>
    decreases actions.len(),
{
    if actions.len() == 0 {
        Seq::empty()
    } else {
        let before = spec_movement_plan(actions.drop_last(), grounded);
        match spec_velocity_change(actions.last(), grounded) {
            Some(change) => before.push(change),
            None => before,
        }
    }
}

/// The velocity changes that the actions of one frame make to a character
/// that is (or is not) on the ground, in the order of the actions.
pub fn movement_plan(actions: &Vec<MovementAction>, grounded: bool) -> (res: Vec<VelocityChange>)
    ensures
        res@ == spec_movement_plan(actions@, grounded),
{
    let mut plan: Vec<VelocityChange> = Vec::new();
    let mut i: usize = 0;
    while i < actions.len()
        invariant
            i <= actions@.len(),
            plan@ == spec_movement_plan(actions@.take(i as int), grounded),
        decreases actions@.len() - i,
    {
        assert(actions@.take(i as int + 1).drop_last() =~= actions@.take(i as int));
        assert(actions@.take(i as int + 1).last() == actions@[i as int]);
        match velocity_change(actions[i], grounded) {
            Some(change) => plan.push(change),
            None => {},
        }
        i = i + 1;
    }
    assert(actions@.take(actions@.len() as int) =~= actions@);
    plan
}

/// Whether a character is on the ground: some hit of its ground caster has
/// a surface that is not too steep to stand on.
pub open spec fn spec_is_grounded(hit_not_too_steep: Seq<bool>) -> bool {
    exists|i: int| 0 <= i < hit_not_too_steep.len() && hit_not_too_steep[i]
}

/// Whether a character is on the ground, given for each hit of its ground
/// caster whether the surface hit is gentle enough to stand on.
pub fn is_grounded(hit_not_too_steep: &Vec<bool>) -> (res: bool)
    ensures
        res == spec_is_grounded(hit_not_too_steep@),
{
    let mut i: usize = 0;
    while i < hit_not_too_steep.len()
        invariant
            i <= hit_not_too_steep@.len(),
            forall|k: int| 0 <= k < i ==> !hit_not_too_steep@[k],
        decreases hit_not_too_steep@.len() - i,
    {
        if hit_not_too_steep[i] {
            return true;
        }
        i = i + 1;
    }
    false
}

/// Planning is compositional: the plan for one run of actions followed by
/// another is the plan for the first followed by the plan for the second.
pub proof fn lemma_movement_plan_concat(a: Seq<MovementAction>, b: Seq<MovementAction>, grounded: bool)
    ensures
        spec_movement_plan(a + b, grounded) == spec_movement_plan(a, grounded) + spec_movement_plan(
            b,
            grounded,
        ),
    decreases b.len(),
{
    if b.len() == 0 {
        assert(a + b =~= a);
        assert(spec_movement_plan(a, grounded) + spec_movement_plan(b, grounded) =~= spec_movement_plan(a, grounded));
    } else {
        lemma_movement_plan_concat(a, b.drop_last(), grounded);
        assert((a + b).drop_last() =~= a + b.drop_last());
        assert((a + b).last() == b.last());
        let pa = spec_movement_plan(a, grounded);
        let pb = spec_movement_plan(b.drop_last(), grounded);
        match spec_velocity_change(b.last(), grounded) {
            Some(c) => {
                assert((pa + pb).push(c) =~= pa + pb.push(c));
            },
            None => {},
        }
    }
}

/// A character that is in the air never jumps; one on the ground acts on
/// every action, so its plan has one change per action.
pub proof fn lemma_movement_plan_grounding(actions: Seq<MovementAction>, grounded: bool)
    ensures
        !grounded ==> !spec_movement_plan(actions, grounded).contains(VelocityChange::Jump),
        grounded ==> spec_movement_plan(actions, grounded).len() == actions.len(),
        spec_movement_plan(actions, grounded).len() <= actions.len(),
    decreases actions.len(),
{
    if actions.len() > 0 {
        lemma_movement_plan_grounding(actions.drop_last(), grounded);
        let before = spec_movement_plan(actions.drop_last(), grounded);
        match spec_velocity_change(actions.last(), grounded) {
            Some(c) => {
                vstd::seq_lib::lemma_seq_contains_after_push(before, c, VelocityChange::Jump);
            },
            None => {},
        }
    }
}

/// The plan for a single action is that action's own change: a turn left
/// raises the yaw rate, a turn right lowers it, forward and back push along
/// the character's forward and back directions at the forward and backward
/// rates, strafing pushes left or right at the strafing rate, in the air as
/// on the ground; a jump launches only from the ground.
pub proof fn lemma_movement_plan_single(a: MovementAction, grounded: bool)
    ensures
        spec_movement_plan(seq![a], grounded) == match a {
            MovementAction::TurnLeft => seq![VelocityChange::Turn(TurnDirection::Left)],
            MovementAction::TurnRight => seq![VelocityChange::Turn(TurnDirection::Right)],
            MovementAction::MoveForward => seq![
                VelocityChange::Push { heading: Heading::Forward, rate: PushRate::Forward },
            ],
            MovementAction::MoveBackward => seq![
                VelocityChange::Push { heading: Heading::Back, rate: PushRate::Backward },
            ],
            MovementAction::StrafeLeft => seq![
                VelocityChange::Push { heading: Heading::Left, rate: PushRate::Strafe },
            ],
            MovementAction::StrafeRight => seq![
                VelocityChange::Push { heading: Heading::Right, rate: PushRate::Strafe },
            ],
            MovementAction::Jump => if grounded {
                seq![VelocityChange::Jump]
            } else {
                Seq::<VelocityChange>::empty()
            },
        },
{
    let s = seq![a];
    assert(s.drop_last() =~= Seq::<MovementAction>::empty());
    assert(s.last() == a);
    assert(spec_movement_plan(Seq::<MovementAction>::empty(), grounded) == Seq::<
        VelocityChange,
    >::empty());
    assert(Seq::<VelocityChange>::empty().push(VelocityChange::Turn(TurnDirection::Left)) =~= seq![
        VelocityChange::Turn(TurnDirection::Left),
    ]);
    assert(Seq::<VelocityChange>::empty().push(VelocityChange::Turn(TurnDirection::Right)) =~= seq![
        VelocityChange::Turn(TurnDirection::Right),
    ]);
    assert(Seq::<VelocityChange>::empty().push(
        VelocityChange::Push { heading: Heading::Forward, rate: PushRate::Forward },
    ) =~= seq![VelocityChange::Push { heading: Heading::Forward, rate: PushRate::Forward }]);
    assert(Seq::<VelocityChange>::empty().push(
        VelocityChange::Push { heading: Heading::Back, rate: PushRate::Backward },
    ) =~= seq![VelocityChange::Push { heading: Heading::Back, rate: PushRate::Backward }]);
    assert(Seq::<VelocityChange>::empty().push(
        VelocityChange::Push { heading: Heading::Left, rate: PushRate::Strafe },
    ) =~= seq![VelocityChange::Push { heading: Heading::Left, rate: PushRate::Strafe }]);
    assert(Seq::<VelocityChange>::empty().push(
        VelocityChange::Push { heading: Heading::Right, rate: PushRate::Strafe },
    ) =~= seq![VelocityChange::Push { heading: Heading::Right, rate: PushRate::Strafe }]);
    assert(Seq::<VelocityChange>::empty().push(VelocityChange::Jump) =~= seq![VelocityChange::Jump]);
}

/// Only jumping depends on whether the character is on the ground: the plan
/// in the air is the plan on the ground without its jumps, with one change
/// for each action that is not a jump.
pub proof fn lemma_movement_plan_airborne(actions: Seq<MovementAction>)
    ensures
        spec_movement_plan(actions, false) == spec_movement_plan(actions, true).filter(
            |c: VelocityChange| c != VelocityChange::Jump,
        ),
        spec_movement_plan(actions, false).len() == actions.filter(
            |a: MovementAction| a != MovementAction::Jump,
        ).len(),
    decreases actions.len(),
{
    reveal(Seq::filter);
    let not_jump_change = |c: VelocityChange| c != VelocityChange::Jump;
    let not_jump = |a: MovementAction| a != MovementAction::Jump;
    if actions.len() > 0 {
        let prefix = actions.drop_last();
        let a = actions.last();
        lemma_movement_plan_airborne(prefix);
        let ground = spec_movement_plan(prefix, true);
        let c = spec_velocity_change(a, true).unwrap();
        assert(spec_movement_plan(actions, true) == ground.push(c));
        assert(ground.push(c).drop_last() =~= ground);
        assert(ground.push(c).last() == c);
        assert(ground.push(c).filter(not_jump_change) == if not_jump_change(c) {
            ground.filter(not_jump_change).push(c)
        } else {
            ground.filter(not_jump_change)
        });
        assert(actions.filter(not_jump) == if not_jump(a) {
            prefix.filter(not_jump).push(a)
        } else {
            prefix.filter(not_jump)
        });
    }
}

} // verus!
