//! One fixed-rate tick of the controller: the actor moves first, then the
//! cameras turn and follow it.
use vstd::prelude::*;

use crate::bindings::{bindings_for, lemma_binding_table, roles_distinct, Key, MovementBindings};
use crate::facing::{left_of, right_of, Direction};
use crate::geometry::{
    add3, bounded, norm_sq, rot_y, sub3, GridVec, Point3, COORD_LIMIT,
    lemma_rot_y_keeps_norm,
};

verus! {

/// The keys that went down during the current tick.
#[derive(Debug)]
pub struct KeyInput {
    pub keys: Vec<Key>,
}

impl View for KeyInput {
    type V = Set<Key>;

    open spec fn view(&self) -> Set<Key> {
        Set::new(|k: Key| self.keys@.contains(k))
    }
}

impl KeyInput {
    pub fn new(keys: Vec<Key>) -> (r: KeyInput)
        ensures
            r.keys@ == keys@,
    {
        KeyInput { keys }
    }

    /// Whether `k` went down during this tick.
    pub fn just_pressed(&self, k: Key) -> (r: bool)
        ensures
            r == self@.contains(k),
    {
        let mut i: usize = 0;
        while i < self.keys.len()
            invariant
                i <= self.keys@.len(),
                forall|j: int| 0 <= j < i ==> self.keys@[j] != k,
            decreases self.keys@.len() - i,
        {
            if self.keys[i] == k {
                return true;
            }
            i = i + 1;
        }
        false
    }
}

/// 1 when `b` holds, else 0.
pub open spec fn one_if(b: bool) -> int {
    if b {
        1
    } else {
        0
    }
}

/// The displacement of one tick: each of the four roles whose key went down
/// adds its own unit step, independently of the others.
pub open spec fn step_of(b: MovementBindings, keys: Set<Key>) -> Point3 {
    (
        one_if(keys.contains(b.right)) - one_if(keys.contains(b.left)),
        0,
        one_if(keys.contains(b.down)) - one_if(keys.contains(b.up)),
    )
}

/// The facing after this tick's turn command; a left turn wins over a right
/// one pressed in the same tick.
pub open spec fn turned(d: Direction, keys: Set<Key>) -> Direction {
    if keys.contains(Key::Left) {
        left_of(d)
    } else if keys.contains(Key::Right) {
        right_of(d)
    } else {
        d
    }
}

/// The camera yaw of this tick in quarter turns: +1 for a left turn, -1 for
/// a right turn.
pub open spec fn yaw_step(keys: Set<Key>) -> int {
    if keys.contains(Key::Left) {
        1
    } else if keys.contains(Key::Right) {
        -1
    } else {
        0
    }
}

/// The actor's position and facing after one tick: it moves with the facing
/// it had when the tick began, and turns afterwards.
pub open spec fn tick_player(s: (Point3, Direction), keys: Set<Key>) -> (Point3, Direction) {
    (add3(s.0, step_of(bindings_for(s.1), keys)), turned(s.1, keys))
}

/// The actor's position and facing after a run of ticks, one key set each.
pub open spec fn run_player(s: (Point3, Direction), inputs: Seq<Set<Key>>) -> (Point3, Direction)
    decreases inputs.len(),
{
    if inputs.len() == 0 {
        s
    } else {
        run_player(tick_player(s, inputs[0]), inputs.drop_first())
    }
}

/// The controllable actor.
#[derive(Clone, Copy, Debug)]
pub struct Player {
    pub position: GridVec,
    pub facing: Direction,
    pub movement_bindings: MovementBindings,
}

impl Player {
    /// The bindings are the table's row for the facing.
    pub open spec fn wf(&self) -> bool {
        self.movement_bindings == bindings_for(self.facing)
    }

    /// Every coordinate can take one more unit step and stay within
    /// `COORD_LIMIT`.
    pub open spec fn has_room(&self) -> bool {
        &&& -COORD_LIMIT < self.position.x < COORD_LIMIT
        &&& -COORD_LIMIT < self.position.y < COORD_LIMIT
        &&& -COORD_LIMIT < self.position.z < COORD_LIMIT
    }

    pub open spec fn state(&self) -> (Point3, Direction) {
        (self.position@, self.facing)
    }

    /// Whether the bindings are the table's row for the facing.
    pub fn is_consistent(&self) -> (r: bool)
        ensures
            r == self.wf(),
    {
        self.movement_bindings == MovementBindings::for_facing(self.facing)
    }

    pub fn can_step(&self) -> (r: bool)
        ensures
            r == self.has_room(),
    {
        -COORD_LIMIT < self.position.x && self.position.x < COORD_LIMIT && -COORD_LIMIT
            < self.position.y && self.position.y < COORD_LIMIT && -COORD_LIMIT < self.position.z
            && self.position.z < COORD_LIMIT
    }
}

impl Default for Player {
    /// At the origin, facing North, with the North bindings.
    fn default() -> (r: Player)
        ensures
            r.position@ == (0int, 0int, 0int),
            r.facing == Direction::North,
            r.wf(),
    {
        Player {
            position: GridVec::zero(),
            facing: Direction::North,
            movement_bindings: MovementBindings::for_facing(Direction::North),
        }
    }
}

/// A camera that orbits the actor at a fixed distance.
#[derive(Clone, Copy, Debug)]
pub struct IsoCamera {
    /// The point looked at: the actor's position.
    pub focus: GridVec,
    /// The camera's offset from the focus at zero yaw; its length is the
    /// orbit radius.
    pub offset: GridVec,
    /// Accumulated yaw, in quarter turns modulo four.
    pub quarter_turns: u8,
    /// Where the camera stands.
    pub position: GridVec,
}

impl IsoCamera {
    /// The camera stands at the focus plus its offset turned by its yaw.
    pub open spec fn orbits(&self) -> bool {
        &&& self.quarter_turns < 4
        &&& bounded(self.focus@)
        &&& bounded(self.offset@)
        &&& self.position@ == add3(self.focus@, rot_y(self.offset@, self.quarter_turns as nat))
    }

    /// The square of the orbit radius.
    pub open spec fn radius_sq(&self) -> int {
        norm_sq(self.offset@)
    }

    /// `next` is `self` after a tick whose yaw is `step` quarter turns and
    /// whose actor ends at `focus`.
    pub open spec fn followed_by(&self, next: IsoCamera, focus: Point3, step: int) -> bool {
        &&& next.offset == self.offset
        &&& next.quarter_turns as int == (self.quarter_turns as int + step) % 4
        &&& next.focus@ == focus
        &&& next.orbits()
    }

    /// Whether the camera stands on its orbit.
    pub fn is_on_orbit(&self) -> (r: bool)
        ensures
            r == self.orbits(),
    {
        if self.quarter_turns >= 4 || !self.focus.is_bounded() || !self.offset.is_bounded() {
            return false;
        }
        let expected = self.focus.add(&self.offset.rotate_y(self.quarter_turns));
        self.position == expected
    }

    /// A camera placed at `position` around `focus`; the distance between
    /// the two becomes its orbit radius.
    pub fn new(focus: GridVec, position: GridVec) -> (r: IsoCamera)
        requires
            bounded(focus@),
            bounded(position@),
            bounded(sub3(position@, focus@)),
        ensures
            r.orbits(),
            r.focus == focus,
            r.position == position,
            r.quarter_turns == 0,
            r.offset@ == sub3(position@, focus@),
    {
        let offset = position.sub(&focus);
        proof {
            reveal_with_fuel(rot_y, 1);
        }
        IsoCamera { focus, offset, quarter_turns: 0, position }
    }

    /// This camera after a tick: yaw turned by `step` quarter turns (0 or
    /// 1 or 3, that is -1, modulo four), focus moved to `focus`.
    fn follow(&self, focus: GridVec, step: u8) -> (r: IsoCamera)
        requires
            self.orbits(),
            bounded(focus@),
            step < 4,
        ensures
            self.followed_by(r, focus@, step as int),
    {
        let q = (self.quarter_turns + step) % 4;
        let turned_offset = self.offset.rotate_y(q);
        IsoCamera { focus, offset: self.offset, quarter_turns: q, position: focus.add(&turned_offset) }
    }
}

impl Default for IsoCamera {
    /// Focused on the origin, five units out along +Z.
    fn default() -> (r: IsoCamera)
        ensures
            r.orbits(),
            r.focus@ == (0int, 0int, 0int),
            r.offset@ == (0int, 0int, 5int),
            r.quarter_turns == 0,
            r.position@ == (0int, 0int, 5int),
    {
        IsoCamera::new(GridVec::zero(), GridVec::new(0, 0, 5))
    }
}

/// The next facing after a left (`left`) or right turn, with its bindings.
pub fn change_player_facing(direction: &Direction, left: bool) -> (r: (Direction, MovementBindings))
    ensures
        r.0 == if left {
            left_of(*direction)
        } else {
            right_of(*direction)
        },
        r.1 == bindings_for(r.0),
{
    let new_direction = if left {
        direction.turn_left()
    } else {
        direction.turn_right()
    };
    (new_direction, MovementBindings::for_facing(new_direction))
}

/// Moves the actor by the roles whose keys went down this tick.
pub fn move_player(input: &KeyInput, player: &mut Player)
    requires
        old(player).has_room(),
    ensures
        final(player).position@ == add3(
            old(player).position@,
            step_of(old(player).movement_bindings, input@),
        ),
        final(player).facing == old(player).facing,
        final(player).movement_bindings == old(player).movement_bindings,
        bounded(final(player).position@),
{
    let b = player.movement_bindings;
    let mut dx: i64 = 0;
    let mut dz: i64 = 0;
    if input.just_pressed(b.up) {
        dz = dz - 1;
    }
    if input.just_pressed(b.down) {
        dz = dz + 1;
    }
    if input.just_pressed(b.left) {
        dx = dx - 1;
    }
    if input.just_pressed(b.right) {
        dx = dx + 1;
    }
    player.position = GridVec::new(player.position.x + dx, player.position.y, player.position.z + dz);
}

/// Applies this tick's turn command to the actor, then turns every camera
/// by the same yaw and puts it back on its orbit around the actor.
pub fn move_camera(input: &KeyInput, cameras: &mut Vec<IsoCamera>, player: &mut Player)
    requires
        old(player).wf(),
        bounded(old(player).position@),
        forall|i: int| 0 <= i < old(cameras)@.len() ==> #[trigger] old(cameras)@[i].orbits(),
    ensures
        final(player).position == old(player).position,
        final(player).facing == turned(old(player).facing, input@),
        final(player).wf(),
        final(cameras)@.len() == old(cameras)@.len(),
        forall|i: int|
            #![trigger final(cameras)@[i]]
            0 <= i < final(cameras)@.len() ==> old(cameras)@[i].followed_by(
                final(cameras)@[i],
                final(player).position@,
                yaw_step(input@),
            ),
{
    let mut step: u8 = 0;
    if input.just_pressed(Key::Left) {
        step = 1;
        let (f, b) = change_player_facing(&player.facing, true);
        player.facing = f;
        player.movement_bindings = b;
    } else if input.just_pressed(Key::Right) {
        step = 3;
        let (f, b) = change_player_facing(&player.facing, false);
        player.facing = f;
        player.movement_bindings = b;
    }
    let focus = player.position;
    let n = cameras.len();
    let mut i: usize = 0;
    while i < n
        invariant
            n == cameras@.len(),
            n == old(cameras)@.len(),
            i <= n,
            bounded(focus@),
            step < 4,
            (step as int) % 4 == yaw_step(input@) % 4,
            forall|j: int| 0 <= j < n ==> #[trigger] old(cameras)@[j].orbits(),
            forall|j: int|
                0 <= j < i ==> #[trigger] old(cameras)@[j].followed_by(
                    cameras@[j],
                    focus@,
                    yaw_step(input@),
                ),
            forall|j: int| i <= j < n ==> #[trigger] cameras@[j] == old(cameras)@[j],
        decreases n - i,
    {
        let c = cameras[i].follow(focus, step);
        proof {
            let q = old(cameras)@[i as int].quarter_turns as int;
            assert((q + step as int) % 4 == (q + yaw_step(input@)) % 4);
        }
        cameras.set(i, c);
        i = i + 1;
    }
}

/// One tick: the actor moves with the bindings it had when the tick began,
/// and only then do the turn command and the cameras take effect.
pub fn tick(input: &KeyInput, player: &mut Player, cameras: &mut Vec<IsoCamera>)
    requires
        old(player).wf(),
        old(player).has_room(),
        forall|i: int| 0 <= i < old(cameras)@.len() ==> #[trigger] old(cameras)@[i].orbits(),
    ensures
        final(player).state() == tick_player(old(player).state(), input@),
        final(player).wf(),
        final(cameras)@.len() == old(cameras)@.len(),
        forall|i: int|
            #![trigger final(cameras)@[i]]
            0 <= i < final(cameras)@.len() ==> old(cameras)@[i].followed_by(
                final(cameras)@[i],
                final(player).position@,
                yaw_step(input@),
            ),
{
    move_player(input, player);
    move_camera(input, cameras, player);
}

/// A camera on its orbit stands exactly at its orbit radius from the point
/// it follows.
pub proof fn lemma_orbit_radius(c: IsoCamera)
    requires
        c.orbits(),
    ensures
        norm_sq(sub3(c.position@, c.focus@)) == c.radius_sq(),
{
    lemma_rot_y_keeps_norm(c.offset@, c.quarter_turns as nat);
    assert(sub3(c.position@, c.focus@) == rot_y(c.offset@, c.quarter_turns as nat));
}

/// Through any tick, a camera on its orbit stays on it: it ends at its
/// unchanged radius from the actor's new position.
pub proof fn lemma_orbit_kept(c: IsoCamera, next: IsoCamera, focus: Point3, step: int)
    requires
        c.orbits(),
        c.followed_by(next, focus, step),
    ensures
        next.radius_sq() == c.radius_sq(),
        norm_sq(sub3(next.position@, focus)) == c.radius_sq(),
{
    lemma_orbit_radius(next);
}

/// Motion comes before the turn: when the forward key and the left turn key
/// go down in the same tick, the actor steps forward as the facing it had
/// before the turn reads that key, although the new facing's row gives the
/// same key the strafe-left role.
pub proof fn lemma_motion_before_turn(pos: Point3, d: Direction)
    ensures
        tick_player((pos, d), set![bindings_for(d).up, Key::Left]) == (
            add3(pos, (0int, 0int, -1int)),
            left_of(d),
        ),
        step_of(bindings_for(left_of(d)), set![bindings_for(d).up]) == (-1int, 0int, 0int),
{
    lemma_binding_table();
    assert(roles_distinct(bindings_for(d)));
    assert(roles_distinct(bindings_for(left_of(d))));
    let b = bindings_for(d);
    assert(b.up != Key::Left);
}

/// Ticks in which no key went down leave the actor where it is.
pub proof fn lemma_idle_ticks(s: (Point3, Direction), inputs: Seq<Set<Key>>)
    requires
        forall|i: int| 0 <= i < inputs.len() ==> #[trigger] inputs[i] == Set::<Key>::empty(),
    ensures
        run_player(s, inputs) == s,
    decreases inputs.len(),
{
    if inputs.len() > 0 {
        assert(tick_player(s, inputs[0]) == s);
        lemma_idle_ticks(s, inputs.drop_first());
    }
}

/// Motion is edge-triggered: a forward key pressed once and then held, so
/// that it goes down in the first of `n + 1` ticks and in none after,
/// moves the actor by exactly one step.
pub proof fn lemma_held_key_steps_once(pos: Point3, d: Direction, n: nat)
    ensures
        run_player(
            (pos, d),
            seq![set![bindings_for(d).up]] + Seq::new(n, |i: int| Set::<Key>::empty()),
        ) == (add3(pos, (0int, 0int, -1int)), d),
{
    lemma_binding_table();
    assert(roles_distinct(bindings_for(d)));
    let inputs = seq![set![bindings_for(d).up]] + Seq::new(n, |i: int| Set::<Key>::empty());
    let first = tick_player((pos, d), inputs[0]);
    assert(first == (add3(pos, (0int, 0int, -1int)), d));
    assert(inputs.drop_first() =~= Seq::new(n, |i: int| Set::<Key>::empty()));
    lemma_idle_ticks(first, inputs.drop_first());
}

/// Over any run of ticks, each camera keeps its radius and ends every tick
/// at that distance from where the actor then stands: `cams[i + 1]` is
/// `cams[i]` after a tick whose actor ends at `foci[i]`.
pub proof fn lemma_orbit_over_ticks(cams: Seq<IsoCamera>, foci: Seq<Point3>, steps: Seq<int>)
    requires
        cams.len() == foci.len() + 1,
        steps.len() == foci.len(),
        cams[0].orbits(),
        forall|i: int|
            0 <= i < foci.len() ==> #[trigger] cams[i].followed_by(cams[i + 1], foci[i], steps[i]),
    ensures
        forall|i: int| 0 <= i < cams.len() ==> #[trigger] cams[i].radius_sq() == cams[0].radius_sq(),
        forall|i: int|
            0 <= i < foci.len() ==> norm_sq(sub3(#[trigger] cams[i + 1].position@, foci[i]))
                == cams[0].radius_sq(),
    decreases foci.len(),
{
    if foci.len() > 0 {
        let n = foci.len() - 1;
        lemma_orbit_over_ticks(cams.take(n + 1), foci.take(n), steps.take(n));
        assert forall|i: int| 0 <= i < n + 1 implies #[trigger] cams[i].radius_sq() == cams[0].radius_sq() by {
            assert(cams.take(n + 1)[i] == cams[i]);
        }
        assert forall|i: int| 0 <= i < n implies norm_sq(sub3(#[trigger] cams[i + 1].position@, foci[i]))
            == cams[0].radius_sq() by {
            assert(cams.take(n + 1)[i + 1] == cams[i + 1]);
            assert(foci.take(n)[i] == foci[i]);
        }
        if n > 0 {
            let k = n - 1;
            assert(cams[k].followed_by(cams[k + 1], foci[k], steps[k]));
            assert(cams[k + 1].orbits());
        }
        assert(cams[n].followed_by(cams[n + 1], foci[n], steps[n]));
        lemma_orbit_kept(cams[n], cams[n + 1], foci[n], steps[n]);
    }
}

/// Four right turns make a full turn: a camera whose actor stays put comes
/// back to exactly where it started, with the same yaw.
pub proof fn lemma_full_turn_restores(
    c: IsoCamera,
    c1: IsoCamera,
    c2: IsoCamera,
    c3: IsoCamera,
    c4: IsoCamera,
)
    requires
        c.orbits(),
        c.followed_by(c1, c.focus@, -1),
        c1.followed_by(c2, c.focus@, -1),
        c2.followed_by(c3, c.focus@, -1),
        c3.followed_by(c4, c.focus@, -1),
    ensures
        c4 == c,
{
}

} // verus!
