//! The scenery behind the game: a range of mountains and drifting clouds.
//!
//! Scenery does not take part in the game. It drifts to the left at its own
//! speed and is removed when it reaches the scenery's despawn area.

use crate::geometry::DESPAWN_AREA_WIDTH;
use crate::geometry::DespawnArea;
use crate::geometry::Window;
use crate::physics::is_reported;
use crate::physics::reported;
use crate::random::random_in_range;
use crate::random::random_ratio;
use crate::ratio::lemma_proportion_bounds;
use crate::ratio::lemma_proportion_ordered;
use crate::ratio::proportion;
use crate::ratio::proportional;
use crate::roster::lemma_filter_step;
use crate::timer::Timer;
use crate::timer::TimerMode;
use vstd::prelude::*;

verus! {

/// The speed of the mountains.
pub const LAYER_1_SPEED: i32 = -50;

/// The speed of the fastest cloud.
pub const CLOUD_SPEED_MIN: i32 = -500;

/// The speed of the slowest cloud.
pub const CLOUD_SPEED_MAX: i32 = -50;

/// The scale of the fastest cloud, in thousandths.
pub const CLOUD_SCALE_MIN: i32 = 250;

/// The scale of the slowest cloud, in thousandths.
pub const CLOUD_SCALE_MAX: i32 = 2000;

/// The depth of the fastest cloud, in thousandths.
pub const CLOUD_DISTANCE_MIN: i32 = 0;

/// The depth of the slowest cloud, in thousandths.
pub const CLOUD_DISTANCE_MAX: i32 = 1000;

/// The number of pictures that a cloud is drawn from; they are numbered from 1.
pub const CLOUD_SPRITES: u8 = 8;

/// The scale of what is shown in its own size, in thousandths.
pub const FULL_SCALE: i32 = 1000;

/// How far the upper edge of the mountains' picture reaches into the lower
/// half of the window.
pub const MOUNTAINS_RISE: i64 = 100;

/// The clock of the cloud spawner and the chance, `numerator` in
/// `denominator`, that a cloud is spawned when the clock fires.
#[derive(Clone, Copy, Debug, PartialEq, Eq, Structural)]
pub struct CloudsSpawnConfig {
    pub timer: Timer,
    pub numerator: u32,
    pub denominator: u32,
}

/// What a piece of scenery shows.
#[derive(Clone, Copy, Debug, PartialEq, Eq, Structural)]
pub enum Sprite {
    Mountains,
    /// A cloud, with the number of its picture.
    Cloud(u8),
}

/// A piece of scenery. `distance` is the depth at which it is shown and
/// `scale` the size at which it is shown, both in thousandths. Of two pieces
/// the one with the greater depth is shown in front of the other.
#[derive(Clone, Copy, Debug, PartialEq, Eq, Structural)]
pub struct Decoration {
    pub id: u32,
    pub sprite: Sprite,
    pub x: i64,
    pub y: i64,
    pub distance: i32,
    pub scale: i32,
    pub speed: i32,
}

/// What was drawn for one cloud: its height, its speed and the number of its picture.
#[derive(Clone, Copy, Debug, PartialEq, Eq, Structural)]
pub struct CloudDraw {
    pub y: i64,
    pub speed: i32,
    pub sprite: u8,
}

impl CloudsSpawnConfig {
    /// The clock is well formed and the chance is at most one.
    pub open spec fn wf(self) -> bool {
        &&& self.timer.wf()
        &&& 0 < self.denominator
        &&& self.numerator <= self.denominator
    }
}

/// The key by which a list of scenery is sorted.
pub open spec fn decoration_key() -> spec_fn(Decoration) -> int {
    |decoration: Decoration| decoration.id as int
}

/// The value that lies in the range from `new_range_min` to `new_range_max`
/// where `current_value` lies in the range from `current_range_min` to
/// `current_range_max`, rounded down.
pub open spec fn translated(
    current_value: int,
    current_range_min: int,
    current_range_max: int,
    new_range_min: int,
    new_range_max: int,
) -> int {
    new_range_min + proportion(
        current_value - current_range_min,
        new_range_max - new_range_min,
        current_range_max - current_range_min,
    )
}

/// The ends of the one range are translated to the ends of the other, and
/// every value between them to a value between them.
pub proof fn lemma_translated_bounds(
    current_value: int,
    current_range_min: int,
    current_range_max: int,
    new_range_min: int,
    new_range_max: int,
)
    requires
        current_range_min < current_range_max,
        current_range_min <= current_value <= current_range_max,
    ensures
        translated(
            current_range_min,
            current_range_min,
            current_range_max,
            new_range_min,
            new_range_max,
        ) == new_range_min,
        translated(
            current_range_max,
            current_range_min,
            current_range_max,
            new_range_min,
            new_range_max,
        ) == new_range_max,
        new_range_min <= new_range_max ==> new_range_min <= translated(
            current_value,
            current_range_min,
            current_range_max,
            new_range_min,
            new_range_max,
        ) <= new_range_max,
        new_range_min >= new_range_max ==> new_range_min >= translated(
            current_value,
            current_range_min,
            current_range_max,
            new_range_min,
            new_range_max,
        ) >= new_range_max,
{
    let span = current_range_max - current_range_min;
    let reach = new_range_max - new_range_min;
    lemma_proportion_bounds(0, reach, span);
    lemma_proportion_bounds(span, reach, span);
    lemma_proportion_bounds(current_value - current_range_min, reach, span);
}

/// Of two values, the larger is translated further towards `new_range_max`.
pub proof fn lemma_translated_ordered(
    lower: int,
    higher: int,
    current_range_min: int,
    current_range_max: int,
    new_range_min: int,
    new_range_max: int,
)
    requires
        current_range_min < current_range_max,
        lower <= higher,
    ensures
        new_range_min <= new_range_max ==> translated(
            lower,
            current_range_min,
            current_range_max,
            new_range_min,
            new_range_max,
        ) <= translated(
            higher,
            current_range_min,
            current_range_max,
            new_range_min,
            new_range_max,
        ),
        new_range_min >= new_range_max ==> translated(
            lower,
            current_range_min,
            current_range_max,
            new_range_min,
            new_range_max,
        ) >= translated(
            higher,
            current_range_min,
            current_range_max,
            new_range_min,
            new_range_max,
        ),
{
    lemma_proportion_ordered(
        lower - current_range_min,
        higher - current_range_min,
        new_range_max - new_range_min,
        current_range_max - current_range_min,
    );
}

/// Translates a value of one range to the value at the same relative place of another range.
pub fn translate_value_from_one_range_to_another(
    current_value: i32,
    current_range_min: i32,
    current_range_max: i32,
    new_range_min: i32,
    new_range_max: i32,
) -> (new_value: i32)
    requires
        current_range_min < current_range_max,
        current_range_min <= current_value <= current_range_max,
    ensures
        new_value == translated(
            current_value as int,
            current_range_min as int,
            current_range_max as int,
            new_range_min as int,
            new_range_max as int,
        ),
{
    let current_range: i64 = current_range_max as i64 - current_range_min as i64;
    let new_range: i64 = new_range_max as i64 - new_range_min as i64;
    proof {
        lemma_translated_bounds(
            current_value as int,
            current_range_min as int,
            current_range_max as int,
            new_range_min as int,
            new_range_max as int,
        );
    }
    let part: i64 = proportional(
        current_value as i64 - current_range_min as i64,
        new_range,
        current_range,
    );
    (part + new_range_min as i64) as i32
}

/// The mountains for `window`: in the middle of the field, with their upper
/// edge a little above the lower edge of the window.
pub open spec fn mountains(window: Window, id: u32) -> Decoration {
    Decoration {
        id,
        sprite: Sprite::Mountains,
        x: 0,
        y: (-(window.width / 2 - MOUNTAINS_RISE)) as i64,
        distance: 0,
        scale: FULL_SCALE,
        speed: LAYER_1_SPEED,
    }
}

/// Places the mountains. Without the size of the display there are none.
pub fn spawn(window: Option<Window>, id: u32) -> (scenery: Option<Decoration>)
    ensures
        scenery == match window {
            Some(window) => Some(mountains(window, id)),
            None => None,
        },
{
    let Some(window) = window else {
        return None;
    };
    Some(
        Decoration {
            id,
            sprite: Sprite::Mountains,
            x: 0,
            y: -((window.width / 2) as i64 - MOUNTAINS_RISE),
            distance: 0,
            scale: FULL_SCALE,
            speed: LAYER_1_SPEED,
        },
    )
}

/// Starts the clock of the cloud spawner, which fires every `period`, and
/// sets the chance of a cloud at each firing to `numerator` in `denominator`.
pub fn setup_cloud_spawn_timer(period: u64, numerator: u32, denominator: u32) -> (config:
    CloudsSpawnConfig)
    requires
        period > 0,
        0 < denominator,
        numerator <= denominator,
    ensures
        config == (CloudsSpawnConfig {
            timer: Timer::fresh(period, TimerMode::Repeating),
            numerator,
            denominator,
        }),
        config.wf(),
{
    CloudsSpawnConfig { timer: Timer::new(period, TimerMode::Repeating), numerator, denominator }
}

/// The despawn area of the scenery for `window`.
pub open spec fn scenery_despawn_area(window: Window, id: u32) -> DespawnArea {
    DespawnArea::at(id, -(4 * window.width), window)
}

/// Places the despawn area of the scenery: four widths of the window left of
/// the origin. Without the size of the display there is no area.
pub fn spawn_despawn_area(window: Option<Window>, id: u32) -> (area: Option<DespawnArea>)
    ensures
        area == match window {
            Some(window) => Some(scenery_despawn_area(window, id)),
            None => None,
        },
{
    let Some(window) = window else {
        return None;
    };
    let x_position: i64 = -(4 * window.width as i64);
    let height: i64 = window.height as i64 * 2;
    Some(DespawnArea { id, x: x_position, width: DESPAWN_AREA_WIDTH, height })
}

/// How far from the middle of the field a cloud may be spawned: nine tenths
/// of the window's height.
pub open spec fn cloud_height_limit(window: Window) -> int {
    window.height - window.height / 10
}

/// Whether `draw` is a draw that a cloud may be spawned from for `window`.
pub open spec fn cloud_draw_fits(window: Window, draw: CloudDraw) -> bool {
    &&& -cloud_height_limit(window) <= draw.y < cloud_height_limit(window)
    &&& CLOUD_SPEED_MIN <= draw.speed <= CLOUD_SPEED_MAX
    &&& 1 <= draw.sprite <= CLOUD_SPRITES
}

/// The cloud that is spawned for `window` from `draw`. It starts two widths
/// of the window right of the origin. Its scale and its depth lie in their
/// ranges where its speed lies in the range of the speeds: the faster it is,
/// the smaller its scale and its depth.
pub open spec fn cloud_at(window: Window, draw: CloudDraw, id: u32) -> Decoration {
    Decoration {
        id,
        sprite: Sprite::Cloud(draw.sprite),
        x: (window.width * 2) as i64,
        y: draw.y,
        distance: translated(
            draw.speed as int,
            CLOUD_SPEED_MIN as int,
            CLOUD_SPEED_MAX as int,
            CLOUD_DISTANCE_MIN as int,
            CLOUD_DISTANCE_MAX as int,
        ) as i32,
        scale: translated(
            draw.speed as int,
            CLOUD_SPEED_MIN as int,
            CLOUD_SPEED_MAX as int,
            CLOUD_SCALE_MIN as int,
            CLOUD_SCALE_MAX as int,
        ) as i32,
        speed: draw.speed,
    }
}

/// A cloud's scale and depth lie in their ranges. The fastest cloud has the
/// least scale and the least depth, the slowest cloud the greatest of both.
pub proof fn lemma_cloud_in_ranges(window: Window, draw: CloudDraw, id: u32)
    requires
        CLOUD_SPEED_MIN <= draw.speed <= CLOUD_SPEED_MAX,
    ensures
        CLOUD_SCALE_MIN <= cloud_at(window, draw, id).scale <= CLOUD_SCALE_MAX,
        CLOUD_DISTANCE_MIN <= cloud_at(window, draw, id).distance <= CLOUD_DISTANCE_MAX,
        draw.speed == CLOUD_SPEED_MIN ==> cloud_at(window, draw, id).scale == CLOUD_SCALE_MIN
            && cloud_at(window, draw, id).distance == CLOUD_DISTANCE_MIN,
        draw.speed == CLOUD_SPEED_MAX ==> cloud_at(window, draw, id).scale == CLOUD_SCALE_MAX
            && cloud_at(window, draw, id).distance == CLOUD_DISTANCE_MAX,
{
    lemma_translated_bounds(
        draw.speed as int,
        CLOUD_SPEED_MIN as int,
        CLOUD_SPEED_MAX as int,
        CLOUD_SCALE_MIN as int,
        CLOUD_SCALE_MAX as int,
    );
    lemma_translated_bounds(
        draw.speed as int,
        CLOUD_SPEED_MIN as int,
        CLOUD_SPEED_MAX as int,
        CLOUD_DISTANCE_MIN as int,
        CLOUD_DISTANCE_MAX as int,
    );
}

/// What the cloud spawner brings forth in a step that took `delta`.
///
/// A cloud is spawned when the clock fires in this step, the size of the display is known,
/// the coin fell for a cloud, so that there is a draw, and the draw fits the display.
pub open spec fn cloud_spawned(
    timer: Timer,
    delta: u64,
    window: Option<Window>,
    draw: Option<CloudDraw>,
    id: u32,
) -> Option<Decoration> {
    if timer.ticked(delta).finished && window is Some && draw is Some && cloud_draw_fits(
        window->Some_0,
        draw->Some_0,
    ) {
        Some(cloud_at(window->Some_0, draw->Some_0, id))
    } else {
        None
    }
}

/// Tosses the coin for a cloud and, if it falls for one, draws the cloud's
/// height, speed and picture. Nothing is drawn for a window without height.
pub fn draw_cloud(config: &CloudsSpawnConfig, window: Window) -> (draw: Option<CloudDraw>)
    requires
        config.wf(),
    ensures
        draw matches Some(draw) ==> cloud_draw_fits(window, draw),
        draw is Some ==> config.numerator > 0 && cloud_height_limit(window) > 0,
        config.numerator == config.denominator && cloud_height_limit(window) > 0 ==> draw is Some,
{
    let initial_height_variation: i64 = (window.height - window.height / 10) as i64;
    if initial_height_variation <= 0 {
        return None;
    }
    if random_ratio(config.numerator, config.denominator) {
        let y: i64 = random_in_range(-initial_height_variation, initial_height_variation);
        let speed: i64 = random_in_range(CLOUD_SPEED_MIN as i64, CLOUD_SPEED_MAX as i64 + 1);
        let sprite: i64 = random_in_range(1, CLOUD_SPRITES as i64 + 1);
        Some(CloudDraw { y, speed: speed as i32, sprite: sprite as u8 })
    } else {
        None
    }
}

/// Advances the spawner's clock by `delta` and, when it fires and there is a
/// draw, spawns the cloud of that draw under the identifier `id`.
pub fn cloud_spawner(
    config: &mut CloudsSpawnConfig,
    delta: u64,
    window: Option<Window>,
    draw: Option<CloudDraw>,
    id: u32,
) -> (spawned: Option<Decoration>)
    requires
        old(config).wf(),
    ensures
        *final(config) == (CloudsSpawnConfig {
            timer: old(config).timer.ticked(delta),
            ..*old(config)
        }),
        final(config).wf(),
        spawned == cloud_spawned(old(config).timer, delta, window, draw, id),
{
    config.timer.tick(delta);
    if config.timer.finished() {
        let Some(window) = window else {
            return None;
        };
        let Some(draw) = draw else {
            return None;
        };
        let initial_height_variation: i64 = (window.height - window.height / 10) as i64;
        if -initial_height_variation <= draw.y && draw.y < initial_height_variation
            && CLOUD_SPEED_MIN <= draw.speed && draw.speed <= CLOUD_SPEED_MAX && 1 <= draw.sprite
            && draw.sprite <= CLOUD_SPRITES {
            let initial_position_x: i64 = window.width as i64 * 2;
            proof {
                lemma_cloud_in_ranges(window, draw, id);
            }
            let scale = translate_value_from_one_range_to_another(
                draw.speed,
                CLOUD_SPEED_MIN,
                CLOUD_SPEED_MAX,
                CLOUD_SCALE_MIN,
                CLOUD_SCALE_MAX,
            );
            let distance = translate_value_from_one_range_to_another(
                draw.speed,
                CLOUD_SPEED_MIN,
                CLOUD_SPEED_MAX,
                CLOUD_DISTANCE_MIN,
                CLOUD_DISTANCE_MAX,
            );
            return Some(
                Decoration {
                    id,
                    sprite: Sprite::Cloud(draw.sprite),
                    x: initial_position_x,
                    y: draw.y,
                    distance,
                    scale,
                    speed: draw.speed,
                },
            );
        }
    }
    None
}

/// Whether the piece of scenery `decoration` has reached the despawn area `area`.
pub open spec fn drifted_off(
    decoration: Decoration,
    area: u32,
    intersections: Seq<(u32, u32)>,
) -> bool {
    reported(intersections, area as int, decoration.id as int)
}

/// The scenery of `scenario` that has not reached the despawn area, in its order.
pub open spec fn remaining(
    scenario: Seq<Decoration>,
    area: u32,
    intersections: Seq<(u32, u32)>,
) -> Seq<Decoration> {
    scenario.filter(|decoration: Decoration| !drifted_off(decoration, area, intersections))
}

/// The identifiers of the scenery of `scenario` that has reached the despawn area, in its order.
pub open spec fn vanished(
    scenario: Seq<Decoration>,
    area: u32,
    intersections: Seq<(u32, u32)>,
) -> Seq<u32> {
    scenario.filter(
        |decoration: Decoration| drifted_off(decoration, area, intersections),
    ).map_values(|decoration: Decoration| decoration.id)
}

/// Removes every piece of scenery that has reached the despawn area `area`
/// and returns the identifiers of what was removed.
pub fn detect_and_despawn(
    area: u32,
    scenario: &mut Vec<Decoration>,
    intersections: &Vec<(u32, u32)>,
) -> (gone: Vec<u32>)
    ensures
        final(scenario)@ == remaining(old(scenario)@, area, intersections@),
        gone@ == vanished(old(scenario)@, area, intersections@),
{
    let ghost before = scenario@;
    let ghost stay = |decoration: Decoration| !drifted_off(decoration, area, intersections@);
    let ghost leave = |decoration: Decoration| drifted_off(decoration, area, intersections@);
    let ghost name = |decoration: Decoration| decoration.id;
    let mut kept: Vec<Decoration> = Vec::new();
    let mut gone: Vec<u32> = Vec::new();
    let mut i: usize = 0;
    proof {
        reveal(Seq::filter);
        assert(before.take(0).filter(stay) =~= Seq::<Decoration>::empty());
        assert(before.take(0).filter(leave).map_values(name) =~= Seq::<u32>::empty());
    }
    while i < scenario.len()
        invariant
            i <= scenario.len(),
            scenario@ == before,
            stay == |decoration: Decoration| !drifted_off(decoration, area, intersections@),
            leave == |decoration: Decoration| drifted_off(decoration, area, intersections@),
            name == |decoration: Decoration| decoration.id,
            kept@ == before.take(i as int).filter(stay),
            gone@ == before.take(i as int).filter(leave).map_values(name),
        decreases scenario.len() - i,
    {
        let decoration = scenario[i];
        proof {
            lemma_filter_step(before, stay, i as int);
            lemma_filter_step(before, leave, i as int);
        }
        if is_reported(intersections, area as u64, decoration.id as u64) {
            gone.push(decoration.id);
            assert(gone@ =~= before.take(i + 1).filter(leave).map_values(name));
        } else {
            kept.push(decoration);
        }
        i += 1;
    }
    assert(before.take(i as int) =~= before);
    *scenario = kept;
    gone
}

} // verus!
