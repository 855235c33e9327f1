//! The actor: the body that the player steers through the gaps.

use crate::AppState;
use crate::Score;
use crate::geometry::Vec2;
use crate::physics::is_reported;
use crate::physics::reported;
use crate::pipes::GapSensor;
use crate::pipes::PipeGroup;
use crate::pipes::lemma_uncounted_prefix;
use crate::pipes::lemma_uncounted_push;
use crate::pipes::uncounted;
use crate::ratio::lemma_proportion_bounds;
use crate::ratio::proportion;
use crate::ratio::proportional;
use crate::roster::lemma_filter_step;
use vstd::prelude::*;

verus! {

/// The side of the actor's square footprint.
pub const FLAPPY_SIZE: i64 = 100;

/// How many times stronger gravity pulls at the actor than at other bodies.
pub const GRAVITY_SCALE: u32 = 25;

/// The upward impulse of one jump.
pub const JUMP_IMPULSE: i64 = 800;

/// The rotation that a jump snaps the actor to: nose up.
pub const CLIMB_ROTATION: i32 = 60_000;

/// The rotation that the actor tilts towards while no jump lifts it: nose down.
pub const DIVE_ROTATION: i32 = -90_000;

/// The share of the way to `DIVE_ROTATION`, in thousandths, that the actor
/// turns in one step while it rises.
pub const CLIMB_TURN_RATE: i64 = 20;

/// The share of the way to `DIVE_ROTATION`, in thousandths, that the actor
/// turns in one step while it does not rise.
pub const DIVE_TURN_RATE: i64 = 40;

/// The turn rate that covers the whole way in one step.
pub const FULL_TURN_RATE: i64 = 1000;

/// The actor. Its place and velocity are those that the physics world last
/// told of; `impulse` is the push that the physics world is still to apply.
#[derive(Clone, Copy, Debug, PartialEq, Eq, Structural)]
pub struct Flappy {
    pub id: u32,
    pub translation: Vec2,
    pub velocity: Vec2,
    pub impulse: Vec2,
    pub rotation: i32,
    pub gravity_scale: u32,
}

/// The share of the way to `DIVE_ROTATION` that an actor with the vertical
/// velocity `rise` turns in one step: it turns down faster when it falls.
pub open spec fn turn_rate(rise: i64) -> int {
    if rise > 0 {
        CLIMB_TURN_RATE as int
    } else {
        DIVE_TURN_RATE as int
    }
}

/// The rotation that lies `rate` thousandths of the way from `rotation` to `target`.
pub open spec fn turned_toward(rotation: int, target: int, rate: int) -> int {
    rotation + proportion(rate, target - rotation, FULL_TURN_RATE as int)
}

/// A turn ends between where it began and its target, and never beyond the target.
pub proof fn lemma_turn_stays_between(rotation: int, target: int, rate: int)
    requires
        0 <= rate <= FULL_TURN_RATE,
    ensures
        rotation <= target ==> rotation <= turned_toward(rotation, target, rate) <= target,
        rotation >= target ==> rotation >= turned_toward(rotation, target, rate) >= target,
{
    lemma_proportion_bounds(rate, target - rotation, FULL_TURN_RATE as int);
}

impl Flappy {
    /// The actor as it enters a game: at rest at the origin, level.
    pub open spec fn spawned(id: u32) -> Flappy {
        Flappy {
            id,
            translation: Vec2::zero(),
            velocity: Vec2::zero(),
            impulse: Vec2::zero(),
            rotation: 0,
            gravity_scale: GRAVITY_SCALE,
        }
    }

    /// The actor after one step's tilt towards `DIVE_ROTATION`.
    pub open spec fn tilted(self) -> Flappy {
        Flappy {
            rotation: turned_toward(
                self.rotation as int,
                DIVE_ROTATION as int,
                turn_rate(self.velocity.y),
            ) as i32,
            ..self
        }
    }

    /// The actor after a jump: its velocity is cancelled, the jump's impulse
    /// is pending and its nose points up.
    pub open spec fn jumped(self) -> Flappy {
        Flappy {
            velocity: Vec2::zero(),
            impulse: Vec2 { x: 0, y: JUMP_IMPULSE },
            rotation: CLIMB_ROTATION,
            ..self
        }
    }

    /// The actor after the physics world has applied the pending impulse and
    /// told where the actor is and how it moves.
    pub open spec fn moved(self, translation: Vec2, velocity: Vec2) -> Flappy {
        Flappy { translation, velocity, impulse: Vec2::zero(), ..self }
    }
}

/// Creates the actor for a new game, under the identifier `id`.
pub fn spawn_flappy(id: u32) -> (flappy: Flappy)
    ensures
        flappy == Flappy::spawned(id),
{
    Flappy {
        id,
        translation: Vec2 { x: 0, y: 0 },
        velocity: Vec2 { x: 0, y: 0 },
        impulse: Vec2 { x: 0, y: 0 },
        rotation: 0,
        gravity_scale: GRAVITY_SCALE,
    }
}

/// Removes the actor at the end of a game and returns its identifier.
pub fn despawn_flappy(flappy: &mut Option<Flappy>) -> (gone: Vec<u32>)
    ensures
        *final(flappy) == None::<Flappy>,
        gone@ == match *old(flappy) {
            Some(flappy) => seq![flappy.id],
            None => seq![],
        },
{
    let mut gone: Vec<u32> = Vec::new();
    if let Some(actor) = *flappy {
        gone.push(actor.id);
    }
    *flappy = None;
    gone
}

/// Tilts the actor a share of the way towards `DIVE_ROTATION`.
pub fn animate_flappy(flappy: &mut Flappy)
    ensures
        *final(flappy) == old(flappy).tilted(),
{
    let rate: i64 = if flappy.velocity.y > 0 {
        CLIMB_TURN_RATE
    } else {
        DIVE_TURN_RATE
    };
    proof {
        lemma_turn_stays_between(flappy.rotation as int, DIVE_ROTATION as int, rate as int);
    }
    let way: i64 = DIVE_ROTATION as i64 - flappy.rotation as i64;
    let turn: i64 = proportional(rate, way, FULL_TURN_RATE);
    flappy.rotation = (flappy.rotation as i64 + turn) as i32;
}

/// Acts on the player's input of one step during a game. A jump that was
/// pressed in this step lifts the actor. A cancel that was pressed in this
/// step asks for the return to `GameStart`, which is what is returned.
pub fn in_game_control(flappy: &mut Flappy, jump: bool, cancel: bool) -> (request: Option<
    AppState,
>)
    ensures
        *final(flappy) == if jump {
            old(flappy).jumped()
        } else {
            *old(flappy)
        },
        request == if cancel {
            Some(AppState::GameStart)
        } else {
            None
        },
{
    if jump {
        flappy.impulse = Vec2 { x: 0, y: JUMP_IMPULSE };
        flappy.velocity = Vec2 { x: 0, y: 0 };
        flappy.rotation = CLIMB_ROTATION;
    }
    if cancel {
        Some(AppState::GameStart)
    } else {
        None
    }
}

/// Whether the actor `flappy` is in contact with one of the pipes of `group`.
pub open spec fn touches(group: PipeGroup, flappy: u32, contacts: Seq<(u32, u32)>) -> bool {
    reported(contacts, flappy as int, group.top_id()) || reported(
        contacts,
        flappy as int,
        group.bottom_id(),
    )
}

/// Whether the actor `flappy` is in contact with a pipe of any pair of `groups`.
pub open spec fn crashed(groups: Seq<PipeGroup>, flappy: u32, contacts: Seq<(u32, u32)>) -> bool {
    exists|i: int| 0 <= i < groups.len() && touches(#[trigger] groups[i], flappy, contacts)
}

/// Looks for a contact between the actor and a pipe. One contact ends the
/// game: the return to `GameStart` is asked for, which is what is returned.
pub fn detect_flappy_pipes_collision(
    flappy: u32,
    groups: &Vec<PipeGroup>,
    contacts: &Vec<(u32, u32)>,
) -> (request: Option<AppState>)
    ensures
        request == if crashed(groups@, flappy, contacts@) {
            Some(AppState::GameStart)
        } else {
            None
        },
{
    let mut i: usize = 0;
    while i < groups.len()
        invariant
            i <= groups.len(),
            forall|k: int| 0 <= k < i ==> !touches(#[trigger] groups@[k], flappy, contacts@),
        decreases groups.len() - i,
    {
        let group = groups[i];
        if is_reported(contacts, flappy as u64, group.id as u64 + 1) || is_reported(
            contacts,
            flappy as u64,
            group.id as u64 + 3,
        ) {
            return Some(AppState::GameStart);
        }
        i += 1;
    }
    None
}

/// Whether the actor `flappy` has begun to overlap the sensor of `group`.
pub open spec fn enters(group: PipeGroup, flappy: u32, started: Seq<(u32, u32)>) -> bool {
    reported(started, flappy as int, group.sensor_id())
}

/// Whether the sensor of `group` counts the actor in this step: the actor has
/// begun to overlap it and it has not counted before.
pub open spec fn passing(group: PipeGroup, flappy: u32, started: Seq<(u32, u32)>) -> bool {
    !group.sensor.counted && enters(group, flappy, started)
}

/// The pair `group` after the overlaps that began in this step.
pub open spec fn seen(group: PipeGroup, flappy: u32, started: Seq<(u32, u32)>) -> PipeGroup {
    PipeGroup {
        sensor: GapSensor { counted: group.sensor.counted || enters(group, flappy, started) },
        ..group
    }
}

/// The pairs `groups` after the overlaps that began in this step.
pub open spec fn marked(groups: Seq<PipeGroup>, flappy: u32, started: Seq<(u32, u32)>) -> Seq<
    PipeGroup,
> {
    groups.map_values(|group: PipeGroup| seen(group, flappy, started))
}

/// The number of pairs of `groups` whose sensor counts the actor in this step.
pub open spec fn passed(groups: Seq<PipeGroup>, flappy: u32, started: Seq<(u32, u32)>) -> nat {
    groups.filter(|group: PipeGroup| passing(group, flappy, started)).len()
}

/// Each sensor that counts in a step is one that had not counted, and has counted after it.
pub proof fn lemma_marked_uncounted(groups: Seq<PipeGroup>, flappy: u32, started: Seq<(u32, u32)>)
    ensures
        uncounted(marked(groups, flappy, started)) + passed(groups, flappy, started) == uncounted(
            groups,
        ),
    decreases groups.len(),
{
    let pass = |group: PipeGroup| passing(group, flappy, started);
    if groups.len() > 0 {
        let front = groups.drop_last();
        let last = groups.last();
        assert(groups =~= front.push(last));
        lemma_marked_uncounted(front, flappy, started);
        assert(marked(groups, flappy, started) =~= marked(front, flappy, started).push(
            seen(last, flappy, started),
        ));
        front.lemma_filter_push(last, pass);
        lemma_uncounted_push(front, last);
        lemma_uncounted_push(marked(front, flappy, started), seen(last, flappy, started));
    } else {
        reveal(Seq::filter);
        assert(marked(groups, flappy, started) =~= groups);
    }
}

/// Counts the gaps that the actor has entered in this step. Each sensor that
/// the actor has begun to overlap, and that has not counted before, counts
/// now and adds one to the score. A sensor that has counted is left alone,
/// however often the overlap is reported.
pub fn detect_flappy_gap_sensor_collision(
    flappy: u32,
    groups: &mut Vec<PipeGroup>,
    started: &Vec<(u32, u32)>,
    score: &mut Score,
)
    requires
        old(score).0 + uncounted(old(groups)@) <= u32::MAX,
    ensures
        final(groups)@ == marked(old(groups)@, flappy, started@),
        final(score).0 == old(score).0 + passed(old(groups)@, flappy, started@),
{
    let ghost before = groups@;
    let ghost start = score.0;
    let ghost pass = |group: PipeGroup| passing(group, flappy, started@);
    let mut i: usize = 0;
    proof {
        reveal(Seq::filter);
        assert(before.take(0).filter(pass) =~= Seq::<PipeGroup>::empty());
    }
    while i < groups.len()
        invariant
            i <= groups.len(),
            groups@.len() == before.len(),
            pass == |group: PipeGroup| passing(group, flappy, started@),
            start + uncounted(before) <= u32::MAX,
            forall|k: int| 0 <= k < i ==> #[trigger] groups@[k] == seen(before[k], flappy, started@),
            forall|k: int| i <= k < before.len() ==> #[trigger] groups@[k] == before[k],
            score.0 == start + before.take(i as int).filter(pass).len(),
            before.take(i as int).filter(pass).len() <= uncounted(before.take(i as int)),
        decreases groups.len() - i,
    {
        let group = groups[i];
        proof {
            lemma_filter_step(before, pass, i as int);
            lemma_filter_step(before, |group: PipeGroup| !group.sensor.counted, i as int);
            lemma_uncounted_prefix(before, i + 1);
        }
        if !group.sensor.counted && is_reported(started, flappy as u64, group.id as u64 + 2) {
            groups.set(i, PipeGroup { sensor: GapSensor { counted: true }, ..group });
            score.0 = score.0 + 1;
        }
        i += 1;
    }
    assert(before.take(i as int) =~= before);
    assert(groups@ =~= marked(before, flappy, started@));
}

} // verus!
