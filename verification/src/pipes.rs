//! The obstacles: pairs of pipes with a gap between them.
//!
//! A pair is one rigid group. Its two pipes and the sensor in its gap are
//! attached to the group and move with it, so a pair has one place and one
//! speed. The group and its three colliders have four identifiers in a row:
//! the group's own, then those of the upper pipe, of the sensor and of the
//! lower pipe.

use crate::Score;
use crate::geometry::DESPAWN_AREA_WIDTH;
use crate::geometry::DespawnArea;
use crate::geometry::Window;
use crate::physics::is_reported;
use crate::physics::reported;
use crate::random::random_in_range;
use crate::roster::lemma_filter_step;
use crate::timer::Timer;
use crate::timer::TimerMode;
use vstd::prelude::*;

verus! {

/// The side of one square sprite of a pipe.
pub const SPRITE_SIZE: i64 = 250;

/// The height of one pipe.
pub const PIPE_HEIGHT: i64 = 2000;

/// The width of one pipe.
pub const PIPE_WIDTH: i64 = 250;

/// The height of the gap between the two pipes of a pair.
pub const GAP_SIZE: i64 = 600;

/// The least distance between the gap and the upper or lower edge of the field.
pub const GAP_MARGIN: i64 = 20;

/// The width of the sensor in the gap.
pub const SENSOR_WIDTH: i64 = 50;

/// The horizontal speed of every pair.
pub const PIPE_SPEED: i64 = -300;

/// How much further left of the origin the pipes' despawn area lies than a
/// pair is spawned right of it.
pub const DESPAWN_AREA_MARGIN: i64 = 20;

/// The number of identifiers that one pair takes.
pub const IDS_PER_GROUP: u32 = 4;

/// The clock of the pipe spawner.
#[derive(Clone, Copy, Debug, PartialEq, Eq, Structural)]
pub struct PipesSpawnConfig {
    pub timer: Timer,
}

/// The upper pipe of a pair.
#[derive(Clone, Copy, Debug, PartialEq, Eq, Structural)]
pub struct PipeTop;

/// The lower pipe of a pair.
#[derive(Clone, Copy, Debug, PartialEq, Eq, Structural)]
pub struct PipeBottom;

/// The sensor in the gap of a pair. `counted` is set when the actor has been
/// seen in the gap, and stays set.
#[derive(Clone, Copy, Debug, PartialEq, Eq, Structural)]
pub struct GapSensor {
    pub counted: bool,
}

/// One pair of pipes. `(x, y)` is the centre of its gap.
#[derive(Clone, Copy, Debug, PartialEq, Eq, Structural)]
pub struct PipeGroup {
    pub id: u32,
    pub x: i64,
    pub y: i64,
    pub speed: i64,
    pub sensor: GapSensor,
}

impl PipeTop {
    /// The height of the pipe's centre above the centre of the gap.
    pub open spec fn offset() -> int {
        PIPE_HEIGHT / 2 + GAP_SIZE / 2
    }

    /// The height of the pipe's centre above the centre of the gap.
    pub fn center_offset() -> (offset: i64)
        ensures
            offset == PipeTop::offset(),
    {
        PIPE_HEIGHT / 2 + GAP_SIZE / 2
    }
}

impl PipeBottom {
    /// The height of the pipe's centre above the centre of the gap, which is negative.
    pub open spec fn offset() -> int {
        -(PIPE_HEIGHT / 2 + GAP_SIZE / 2)
    }

    /// The height of the pipe's centre above the centre of the gap, which is negative.
    pub fn center_offset() -> (offset: i64)
        ensures
            offset == PipeBottom::offset(),
    {
        -(PIPE_HEIGHT / 2 + GAP_SIZE / 2)
    }
}

impl PipeGroup {
    /// The identifier of the upper pipe's collider.
    pub open spec fn top_id(self) -> int {
        self.id + 1
    }

    /// The identifier of the gap sensor's collider.
    pub open spec fn sensor_id(self) -> int {
        self.id + 2
    }

    /// The identifier of the lower pipe's collider.
    pub open spec fn bottom_id(self) -> int {
        self.id + 3
    }

    /// The upper edge of the gap.
    pub open spec fn gap_top(self) -> int {
        self.y + GAP_SIZE / 2
    }

    /// The lower edge of the gap.
    pub open spec fn gap_bottom(self) -> int {
        self.y - GAP_SIZE / 2
    }

    /// The pair that is spawned for `window` with its gap centred at height `y`.
    pub open spec fn at(window: Window, y: i64, id: u32) -> PipeGroup {
        PipeGroup {
            id,
            x: (window.width + PIPE_WIDTH) as i64,
            y,
            speed: PIPE_SPEED,
            sensor: GapSensor { counted: false },
        }
    }
}

/// The key by which a list of pairs is sorted.
pub open spec fn group_key() -> spec_fn(PipeGroup) -> int {
    |group: PipeGroup| group.id as int
}

/// The heights of the centres of a pipe's sprites above the pipe's centre,
/// from the lowest sprite up.
pub open spec fn sprite_offsets() -> Seq<i64> {
    Seq::new(
        (PIPE_HEIGHT / SPRITE_SIZE) as nat,
        |i: int| (i * SPRITE_SIZE - (PIPE_HEIGHT / 2 - SPRITE_SIZE / 2)) as i64,
    )
}

/// Lays out the sprites that one pipe is drawn with: as many as fit into its
/// height, stacked from its lower end to its upper end.
pub fn pipe_sprite_offsets() -> (offsets: Vec<i64>)
    ensures
        offsets@ == sprite_offsets(),
{
    let number_of_sprites: i64 = PIPE_HEIGHT / SPRITE_SIZE;
    let initial_position: i64 = -(PIPE_HEIGHT / 2 - SPRITE_SIZE / 2);
    let mut offsets: Vec<i64> = Vec::new();
    let mut pipe_index: i64 = 0;
    while pipe_index < number_of_sprites
        invariant
            0 <= pipe_index <= number_of_sprites,
            number_of_sprites == PIPE_HEIGHT / SPRITE_SIZE,
            initial_position == -(PIPE_HEIGHT / 2 - SPRITE_SIZE / 2),
            offsets@.len() == pipe_index,
            forall|i: int| 0 <= i < pipe_index ==> #[trigger] offsets@[i] == sprite_offsets()[i],
        decreases number_of_sprites - pipe_index,
    {
        offsets.push(initial_position + pipe_index * SPRITE_SIZE);
        pipe_index += 1;
    }
    assert(offsets@ =~= sprite_offsets());
    offsets
}

/// How far from the middle of the field the centre of a gap may lie, so that
/// the whole gap keeps `GAP_MARGIN` away from the field's upper and lower edge.
/// The field reaches `window.height` up and down from its middle.
pub open spec fn gap_center_limit(window: Window) -> int {
    window.height - GAP_SIZE / 2 - GAP_MARGIN
}

/// Whether a gap centred at height `y` may be spawned for `window`.
pub open spec fn gap_center_fits(window: Window, y: int) -> bool {
    -gap_center_limit(window) <= y < gap_center_limit(window)
}

/// A gap whose centre fits lies within the field with its whole height, and
/// keeps the margin to both edges.
pub proof fn lemma_gap_stays_in_field(window: Window, y: i64, id: u32)
    requires
        gap_center_fits(window, y as int),
    ensures
        PipeGroup::at(window, y, id).gap_top() < window.height - GAP_MARGIN,
        PipeGroup::at(window, y, id).gap_bottom() >= -(window.height - GAP_MARGIN),
{
}

/// What the pipe spawner brings forth in a step that took `delta`, when `y` was drawn
/// for the centre of the gap.
///
/// A pair is spawned when the clock fires in this step, the size of the display is known
/// and `y` fits the display. It is placed one pipe's width right of the display's width.
pub open spec fn pipe_spawned(
    timer: Timer,
    delta: u64,
    window: Option<Window>,
    y: i64,
    id: u32,
) -> Option<PipeGroup> {
    if timer.ticked(delta).finished && window is Some && gap_center_fits(
        window->Some_0,
        y as int,
    ) {
        Some(PipeGroup::at(window->Some_0, y, id))
    } else {
        None
    }
}

/// Starts the clock of the pipe spawner, which fires every `period`.
pub fn setup_spawn_pipe(period: u64) -> (config: PipesSpawnConfig)
    requires
        period > 0,
    ensures
        config.timer == Timer::fresh(period, TimerMode::Repeating),
{
    PipesSpawnConfig { timer: Timer::new(period, TimerMode::Repeating) }
}

/// The despawn area of the pipes for `window`.
pub open spec fn pipe_despawn_area(window: Window, id: u32) -> DespawnArea {
    DespawnArea::at(id, -(window.width + PIPE_WIDTH + DESPAWN_AREA_MARGIN), window)
}

/// Places the despawn area of the pipes: left of the origin, a little further
/// than the pipes are spawned right of it. Without the size of the display
/// there is no area.
pub fn spawn_pipe_despawn_area(window: Option<Window>, id: u32) -> (area: Option<DespawnArea>)
    ensures
        area == match window {
            Some(window) => Some(pipe_despawn_area(window, id)),
            None => None,
        },
{
    let Some(window) = window else {
        return None;
    };
    let x_position: i64 = -(window.width as i64 + PIPE_WIDTH + DESPAWN_AREA_MARGIN);
    let height: i64 = window.height as i64 * 2;
    Some(DespawnArea { id, x: x_position, width: DESPAWN_AREA_WIDTH, height })
}

/// Draws the height of a gap's centre for `window`. Nothing is drawn where no gap fits
/// the display.
pub fn draw_gap_center(window: Window) -> (y: Option<i64>)
    ensures
        y is Some <==> gap_center_limit(window) > 0,
        y matches Some(y) ==> gap_center_fits(window, y as int),
{
    let initial_height_variation: i64 = window.height as i64 - GAP_SIZE / 2 - GAP_MARGIN;
    if initial_height_variation > 0 {
        Some(random_in_range(-initial_height_variation, initial_height_variation))
    } else {
        None
    }
}

/// Advances the spawner's clock by `delta` and, when it fires, spawns a pair
/// whose gap is centred at height `y`, under the identifier `id`.
pub fn spawn_pipe(
    config: &mut PipesSpawnConfig,
    delta: u64,
    window: Option<Window>,
    y: i64,
    id: u32,
) -> (spawned: Option<PipeGroup>)
    requires
        old(config).timer.wf(),
    ensures
        final(config).timer == old(config).timer.ticked(delta),
        final(config).timer.wf(),
        spawned == pipe_spawned(old(config).timer, delta, window, y, id),
{
    config.timer.tick(delta);
    if config.timer.finished() {
        let Some(window) = window else {
            return None;
        };
        let initial_position_x: i64 = window.width as i64 + PIPE_WIDTH;
        let initial_height_variation: i64 = window.height as i64 - GAP_SIZE / 2 - GAP_MARGIN;
        if -initial_height_variation <= y && y < initial_height_variation {
            return Some(
                PipeGroup {
                    id,
                    x: initial_position_x,
                    y,
                    speed: PIPE_SPEED,
                    sensor: GapSensor { counted: false },
                },
            );
        }
    }
    None
}

/// Whether the pair `group` has reached the despawn area `area`: the two
/// intersect at the pair's upper pipe.
pub open spec fn leaving(group: PipeGroup, area: u32, intersections: Seq<(u32, u32)>) -> bool {
    reported(intersections, area as int, group.top_id())
}

/// The pairs of `groups` that have not reached the despawn area, in their order.
pub open spec fn survivors(
    groups: Seq<PipeGroup>,
    area: u32,
    intersections: Seq<(u32, u32)>,
) -> Seq<PipeGroup> {
    groups.filter(|group: PipeGroup| !leaving(group, area, intersections))
}

/// The identifiers of the pairs of `groups` that have reached the despawn area, in their order.
pub open spec fn departed(
    groups: Seq<PipeGroup>,
    area: u32,
    intersections: Seq<(u32, u32)>,
) -> Seq<u32> {
    groups.filter(|group: PipeGroup| leaving(group, area, intersections)).map_values(
        |group: PipeGroup| group.id,
    )
}

/// Removes every pair that has reached the despawn area `area`, each with its
/// pipes and its sensor, and returns the identifiers of the removed pairs.
pub fn detect_pipe_despawn_and_pipes_collision(
    area: u32,
    groups: &mut Vec<PipeGroup>,
    intersections: &Vec<(u32, u32)>,
) -> (gone: Vec<u32>)
    ensures
        final(groups)@ == survivors(old(groups)@, area, intersections@),
        gone@ == departed(old(groups)@, area, intersections@),
{
    let ghost before = groups@;
    let ghost stay = |group: PipeGroup| !leaving(group, area, intersections@);
    let ghost leave = |group: PipeGroup| leaving(group, area, intersections@);
    let ghost name = |group: PipeGroup| group.id;
    let mut kept: Vec<PipeGroup> = Vec::new();
    let mut gone: Vec<u32> = Vec::new();
    let mut i: usize = 0;
    proof {
        reveal(Seq::filter);
        assert(before.take(0).filter(stay) =~= Seq::<PipeGroup>::empty());
        assert(before.take(0).filter(leave).map_values(name) =~= Seq::<u32>::empty());
    }
    while i < groups.len()
        invariant
            i <= groups.len(),
            groups@ == before,
            stay == |group: PipeGroup| !leaving(group, area, intersections@),
            leave == |group: PipeGroup| leaving(group, area, intersections@),
            name == |group: PipeGroup| group.id,
            kept@ == before.take(i as int).filter(stay),
            gone@ == before.take(i as int).filter(leave).map_values(name),
        decreases groups.len() - i,
    {
        let group = groups[i];
        proof {
            lemma_filter_step(before, stay, i as int);
            lemma_filter_step(before, leave, i as int);
        }
        if is_reported(intersections, area as u64, group.id as u64 + 1) {
            gone.push(group.id);
            assert(gone@ =~= before.take(i + 1).filter(leave).map_values(name));
        } else {
            kept.push(group);
        }
        i += 1;
    }
    assert(before.take(i as int) =~= before);
    *groups = kept;
    gone
}

/// The number of pairs of `groups` whose sensor has not counted yet.
pub open spec fn uncounted(groups: Seq<PipeGroup>) -> nat {
    groups.filter(|group: PipeGroup| !group.sensor.counted).len()
}

/// One more pair adds to the number of sensors that have not counted yet if
/// its own has not.
pub proof fn lemma_uncounted_push(groups: Seq<PipeGroup>, group: PipeGroup)
    ensures
        uncounted(groups.push(group)) == uncounted(groups) + if group.sensor.counted {
            0nat
        } else {
            1nat
        },
{
    groups.lemma_filter_push(group, |group: PipeGroup| !group.sensor.counted);
}

/// The first `n` pairs hold no more sensors that have not counted than the whole list.
pub proof fn lemma_uncounted_prefix(groups: Seq<PipeGroup>, n: int)
    requires
        0 <= n <= groups.len(),
    ensures
        uncounted(groups.take(n)) <= uncounted(groups),
{
    let open = |group: PipeGroup| !group.sensor.counted;
    assert(groups =~= groups.take(n) + groups.skip(n));
    Seq::filter_distributes_over_add(groups.take(n), groups.skip(n), open);
}

/// Removing pairs adds no sensor that has not counted.
pub proof fn lemma_survivors_uncounted(
    groups: Seq<PipeGroup>,
    area: u32,
    intersections: Seq<(u32, u32)>,
)
    ensures
        uncounted(survivors(groups, area, intersections)) <= uncounted(groups),
    decreases groups.len(),
{
    let stay = |group: PipeGroup| !leaving(group, area, intersections);
    if groups.len() > 0 {
        let front = groups.drop_last();
        let last = groups.last();
        assert(groups =~= front.push(last));
        lemma_survivors_uncounted(front, area, intersections);
        front.lemma_filter_push(last, stay);
        lemma_uncounted_push(front, last);
        lemma_uncounted_push(front.filter(stay), last);
    } else {
        reveal(Seq::filter);
    }
}

/// Ends a game: the score goes back to zero and every pair and the despawn
/// area are removed. Returns the identifiers of what was removed, the pairs
/// first.
pub fn despawn(
    groups: &mut Vec<PipeGroup>,
    area: &mut Option<DespawnArea>,
    score: &mut Score,
) -> (gone: Vec<u32>)
    ensures
        final(groups)@ == Seq::<PipeGroup>::empty(),
        *final(area) == None::<DespawnArea>,
        *final(score) == Score(0),
        gone@ == old(groups)@.map_values(|group: PipeGroup| group.id) + match *old(area) {
            Some(area) => seq![area.id],
            None => seq![],
        },
{
    let ghost before = groups@;
    let ghost name = |group: PipeGroup| group.id;
    *score = Score(0);
    let mut gone: Vec<u32> = Vec::new();
    let mut i: usize = 0;
    while i < groups.len()
        invariant
            i <= groups.len(),
            groups@ == before,
            name == |group: PipeGroup| group.id,
            gone@ == before.take(i as int).map_values(name),
        decreases groups.len() - i,
    {
        gone.push(groups[i].id);
        assert(gone@ =~= before.take(i + 1).map_values(name));
        i += 1;
    }
    assert(before.take(i as int) =~= before);
    if let Some(zone) = *area {
        gone.push(zone.id);
    }
    assert(gone@ =~= before.map_values(name) + match *area {
        Some(area) => seq![area.id],
        None => seq![],
    });
    groups.clear();
    *area = None;
    gone
}

} // verus!
