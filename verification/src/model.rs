//! The game as a mathematical state machine.
//!
//! [`GameView`] is what a [`crate::game::Game`] holds, with sequences in place
//! of vectors. Each part of a step is a function from one such state to the
//! next, and [`GameView::stepped`] puts the parts together in their order.
//! Whatever is drawn at random in a step enters as an argument, so that a step
//! is a function of the state, of what the collaborators told and of the draws.

use crate::AppState;
use crate::Score;
use crate::background::CloudDraw;
use crate::background::CloudsSpawnConfig;
use crate::background::Decoration;
use crate::background::cloud_draw_fits;
use crate::background::cloud_height_limit;
use crate::background::cloud_spawned;
use crate::background::decoration_key;
use crate::background::mountains;
use crate::background::remaining;
use crate::background::scenery_despawn_area;
use crate::background::vanished;
use crate::config::GameConfig;
use crate::flappy::Flappy;
use crate::flappy::crashed;
use crate::flappy::lemma_marked_uncounted;
use crate::flappy::marked;
use crate::flappy::passed;
use crate::geometry::DespawnArea;
use crate::geometry::Vec2;
use crate::geometry::Window;
use crate::pipes::IDS_PER_GROUP;
use crate::pipes::PipeGroup;
use crate::pipes::PipesSpawnConfig;
use crate::pipes::departed;
use crate::pipes::gap_center_fits;
use crate::pipes::gap_center_limit;
use crate::pipes::group_key;
use crate::pipes::lemma_survivors_uncounted;
use crate::pipes::lemma_uncounted_push;
use crate::pipes::pipe_despawn_area;
use crate::pipes::pipe_spawned;
use crate::pipes::survivors;
use crate::pipes::uncounted;
use crate::roster::below;
use crate::roster::lemma_filter_below;
use crate::roster::lemma_filter_spaced;
use crate::roster::lemma_push_spaced;
use crate::roster::spaced;
use crate::timer::Timer;
use crate::timer::TimerMode;
use vstd::prelude::*;

verus! {

/// The number of identifiers that entering a game takes: one for the actor
/// and one for the pipes' despawn area.
pub const IDS_PER_GAME: u32 = 2;

/// The number of identifiers that the start takes: one for the scenery's
/// despawn area and one for the mountains.
pub const IDS_AT_START: u32 = 2;

/// What is drawn at random in one step.
#[derive(Clone, Copy, Debug, PartialEq, Eq, Structural)]
pub struct Draws {
    /// The draw for a cloud, if the coin fell for one.
    pub cloud: Option<CloudDraw>,
    /// The height of the centre of a new pair's gap, if one was drawn.
    pub gap_center: Option<i64>,
}

/// What the collaborators tell of one step.
pub struct StepInputView {
    pub delta: u64,
    pub window: Option<Window>,
    pub jump: bool,
    pub cancel: bool,
    pub translation: Vec2,
    pub velocity: Vec2,
    pub started: Seq<(u32, u32)>,
    pub contacts: Seq<(u32, u32)>,
    pub intersections: Seq<(u32, u32)>,
}

/// The state of the game.
pub struct GameView {
    /// The active mode.
    pub state: AppState,
    /// The mode that was asked for and is entered when the step ends.
    pub next_state: Option<AppState>,
    pub score: Score,
    /// The actor; there is one during a game and none outside.
    pub flappy: Option<Flappy>,
    /// The live pairs of pipes, in the order in which they were spawned.
    pub pipes: Seq<PipeGroup>,
    pub pipe_despawn_area: Option<DespawnArea>,
    pub pipes_spawn: PipesSpawnConfig,
    /// The live scenery, in the order in which it was spawned.
    pub scenario: Seq<Decoration>,
    pub despawn_area: Option<DespawnArea>,
    pub clouds_spawn: CloudsSpawnConfig,
    /// The identifier that the next spawned object gets. Every identifier in
    /// use is smaller.
    pub next_id: u32,
}

impl GameView {
    /// What holds of the game between any two steps.
    ///
    /// The mode is never `GameOver`. There is an actor exactly during a game.
    /// Outside a game there are no pipes and no despawn area for them, and the
    /// score is zero. Both lists are sorted by identifier, and every identifier
    /// in use lies below `next_id`. The score and the sensors that have yet to
    /// count are together no more than the identifiers handed out.
    pub open spec fn wf(self) -> bool {
        &&& self.state != AppState::GameOver
        &&& (self.state == AppState::InGame) == (self.flappy is Some)
        &&& self.state != AppState::InGame ==> self.pipes.len() == 0 && self.pipe_despawn_area
            is None && self.score.0 == 0
        &&& self.pipes_spawn.timer.wf()
        &&& self.clouds_spawn.wf()
        &&& spaced(self.pipes, group_key(), 3)
        &&& below(self.pipes, group_key(), 3, self.next_id as int)
        &&& spaced(self.scenario, decoration_key(), 0)
        &&& below(self.scenario, decoration_key(), 0, self.next_id as int)
        &&& self.flappy matches Some(flappy) ==> flappy.id < self.next_id
        &&& self.pipe_despawn_area matches Some(area) ==> area.id < self.next_id
        &&& self.despawn_area matches Some(area) ==> area.id < self.next_id
        &&& self.score.0 + uncounted(self.pipes) <= self.next_id
    }

    /// The game as it starts with the configuration `config`: in `GameStart`,
    /// with the mountains and the scenery's despawn area if the size of the
    /// display is known.
    pub open spec fn started(config: GameConfig, window: Option<Window>) -> GameView {
        GameView {
            state: AppState::GameStart,
            next_state: None,
            score: Score(0),
            flappy: None,
            pipes: Seq::empty(),
            pipe_despawn_area: None,
            pipes_spawn: PipesSpawnConfig {
                timer: Timer::fresh(config.pipe_period, TimerMode::Repeating),
            },
            scenario: match window {
                Some(window) => seq![mountains(window, 1)],
                None => seq![],
            },
            despawn_area: match window {
                Some(window) => Some(scenery_despawn_area(window, 0)),
                None => None,
            },
            clouds_spawn: CloudsSpawnConfig {
                timer: Timer::fresh(config.cloud_period, TimerMode::Repeating),
                numerator: config.cloud_numerator,
                denominator: config.cloud_denominator,
            },
            next_id: IDS_AT_START,
        }
    }

    /// Whether the pair with the identifier `id` is live.
    pub open spec fn has_pipe(self, id: int) -> bool {
        exists|i: int| 0 <= i < self.pipes.len() && (#[trigger] self.pipes[i]).id == id
    }

    /// Whether the piece of scenery with the identifier `id` is live.
    pub open spec fn has_decoration(self, id: int) -> bool {
        exists|i: int| 0 <= i < self.scenario.len() && (#[trigger] self.scenario[i]).id == id
    }

    /// The game after `mode` was asked for.
    pub open spec fn requested(self, mode: AppState) -> GameView {
        GameView { next_state: Some(mode), ..self }
    }

    /// The game after the physics world told where the actor is and how it moves.
    pub open spec fn observed(self, translation: Vec2, velocity: Vec2) -> GameView {
        GameView {
            flappy: match self.flappy {
                Some(flappy) => Some(flappy.moved(translation, velocity)),
                None => None,
            },
            ..self
        }
    }

    /// The game after the actor's tilt of one step.
    pub open spec fn animated(self) -> GameView {
        GameView {
            flappy: match self.flappy {
                Some(flappy) => Some(flappy.tilted()),
                None => None,
            },
            ..self
        }
    }

    /// The game after the player's input of one step.
    ///
    /// Before a game, the primary action asks for the game. During a game, it
    /// makes the actor jump, and a cancel asks for the return to `GameStart`.
    pub open spec fn controlled(self, jump: bool, cancel: bool) -> GameView {
        match self.state {
            AppState::GameStart => if jump {
                self.requested(AppState::InGame)
            } else {
                self
            },
            AppState::InGame => GameView {
                flappy: match self.flappy {
                    Some(flappy) if jump => Some(flappy.jumped()),
                    other => other,
                },
                next_state: if cancel {
                    Some(AppState::GameStart)
                } else {
                    self.next_state
                },
                ..self
            },
            AppState::GameOver => self,
        }
    }

    /// The cloud that this step spawns, if any.
    pub open spec fn new_cloud(self, delta: u64, window: Option<Window>, draw: Option<CloudDraw>)
        -> Option<Decoration> {
        if self.next_id < u32::MAX {
            cloud_spawned(self.clouds_spawn.timer, delta, window, draw, self.next_id)
        } else {
            None
        }
    }

    /// The game after the cloud spawner's turn: its clock has advanced, and
    /// the cloud that it spawned, if any, is the last of the scenery.
    pub open spec fn with_cloud(self, delta: u64, window: Option<Window>, draw: Option<CloudDraw>)
        -> GameView {
        let clouds_spawn = CloudsSpawnConfig {
            timer: self.clouds_spawn.timer.ticked(delta),
            ..self.clouds_spawn
        };
        match self.new_cloud(delta, window, draw) {
            Some(cloud) => GameView {
                clouds_spawn,
                scenario: self.scenario.push(cloud),
                next_id: (self.next_id + 1) as u32,
                ..self
            },
            None => GameView { clouds_spawn, ..self },
        }
    }

    /// The pair of pipes that this step spawns, if any.
    pub open spec fn new_pipe(self, delta: u64, window: Option<Window>, y: Option<i64>) -> Option<
        PipeGroup,
    > {
        if self.state == AppState::InGame && y is Some && self.next_id <= u32::MAX
            - IDS_PER_GROUP {
            pipe_spawned(self.pipes_spawn.timer, delta, window, y->Some_0, self.next_id)
        } else {
            None
        }
    }

    /// The game after the pipe spawner's turn. It runs during a game only:
    /// its clock has advanced, and the pair that it spawned, if any, is the
    /// last of the pairs.
    pub open spec fn with_pipe(self, delta: u64, window: Option<Window>, y: Option<i64>)
        -> GameView {
        if self.state == AppState::InGame {
            let pipes_spawn = PipesSpawnConfig { timer: self.pipes_spawn.timer.ticked(delta) };
            match self.new_pipe(delta, window, y) {
                Some(group) => GameView {
                    pipes_spawn,
                    pipes: self.pipes.push(group),
                    next_id: (self.next_id + IDS_PER_GROUP) as u32,
                    ..self
                },
                None => GameView { pipes_spawn, ..self },
            }
        } else {
            self
        }
    }

    /// The game after the gaps that the actor entered in this step were counted.
    pub open spec fn scored(self, started: Seq<(u32, u32)>) -> GameView {
        match self.flappy {
            Some(flappy) => GameView {
                pipes: marked(self.pipes, flappy.id, started),
                score: Score((self.score.0 + passed(self.pipes, flappy.id, started)) as u32),
                ..self
            },
            None => self,
        }
    }

    /// The game after the contacts of this step were looked at: a contact of
    /// the actor with a pipe asks for the return to `GameStart`.
    pub open spec fn checked(self, contacts: Seq<(u32, u32)>) -> GameView {
        match self.flappy {
            Some(flappy) if crashed(self.pipes, flappy.id, contacts) => self.requested(
                AppState::GameStart,
            ),
            _ => self,
        }
    }

    /// The game after what has reached a despawn area was removed.
    pub open spec fn swept(self, intersections: Seq<(u32, u32)>) -> GameView {
        GameView {
            pipes: match self.pipe_despawn_area {
                Some(area) => survivors(self.pipes, area.id, intersections),
                None => self.pipes,
            },
            scenario: match self.despawn_area {
                Some(area) => remaining(self.scenario, area.id, intersections),
                None => self.scenario,
            },
            ..self
        }
    }

    /// The game after it began: the actor rests at the origin, the pipes' despawn area
    /// is placed if the size of the display is known, the score is zero and
    /// the pipe spawner's clock starts anew.
    pub open spec fn entered(self, window: Option<Window>) -> GameView {
        GameView {
            state: AppState::InGame,
            next_state: None,
            score: Score(0),
            flappy: Some(Flappy::spawned(self.next_id)),
            pipe_despawn_area: match window {
                Some(window) => Some(pipe_despawn_area(window, (self.next_id + 1) as u32)),
                None => None,
            },
            pipes_spawn: PipesSpawnConfig {
                timer: Timer::fresh(self.pipes_spawn.timer.duration, TimerMode::Repeating),
            },
            next_id: (self.next_id + IDS_PER_GAME) as u32,
            ..self
        }
    }

    /// The game after it ended: the actor, the pairs and their despawn area
    /// are gone and the score is zero.
    pub open spec fn left(self) -> GameView {
        GameView {
            state: AppState::GameStart,
            next_state: None,
            score: Score(0),
            flappy: None,
            pipes: Seq::empty(),
            pipe_despawn_area: None,
            ..self
        }
    }

    /// The mode that the game is in after the mode that was asked for was
    /// taken up.
    pub open spec fn target(self) -> AppState {
        match self.next_state {
            Some(mode) if mode.settled() == AppState::InGame && self.state != AppState::InGame
                && self.next_id > u32::MAX - IDS_PER_GAME => self.state,
            Some(mode) => mode.settled(),
            None => self.state,
        }
    }

    /// The game after the mode that was asked for was taken up.
    ///
    /// Nothing changes where no mode was asked for. A request for the active
    /// mode is dropped, and so is one for a game when the identifiers have run out.
    pub open spec fn transitioned(self, window: Option<Window>) -> GameView {
        if self.target() == self.state {
            GameView { next_state: None, ..self }
        } else if self.target() == AppState::InGame {
            self.entered(window)
        } else {
            self.left()
        }
    }

    /// The identifiers of what reaches a despawn area in this step: the pairs first,
    /// then the scenery.
    pub open spec fn removed(self, intersections: Seq<(u32, u32)>) -> Seq<u32> {
        let pairs = match self.pipe_despawn_area {
            Some(area) => departed(self.pipes, area.id, intersections),
            None => seq![],
        };
        let scenery = match self.despawn_area {
            Some(area) => vanished(self.scenario, area.id, intersections),
            None => seq![],
        };
        pairs + scenery
    }

    /// The mode that is entered when the mode that was asked for is taken up,
    /// if that is another mode than the active one.
    pub open spec fn entry(self) -> Option<AppState> {
        if self.target() == self.state {
            None
        } else {
            Some(self.target())
        }
    }

    /// The identifiers of what the end of a game removes: the actor, the
    /// pairs and the pipes' despawn area.
    pub open spec fn discarded(self) -> Seq<u32> {
        if self.target() != self.state && self.target() != AppState::InGame {
            let actor = match self.flappy {
                Some(flappy) => seq![flappy.id],
                None => seq![],
            };
            let area = match self.pipe_despawn_area {
                Some(area) => seq![area.id],
                None => seq![],
            };
            actor + self.pipes.map_values(|group: PipeGroup| group.id) + area
        } else {
            seq![]
        }
    }

    /// The first part of a step: the physics world's word of the actor, the
    /// actor's tilt and the player's input.
    pub open spec fn prepared(self, input: StepInputView) -> GameView {
        self.observed(input.translation, input.velocity).animated().controlled(
            input.jump,
            input.cancel,
        )
    }

    /// The second part of a step: the two spawners.
    pub open spec fn populated(self, input: StepInputView, draws: Draws) -> GameView {
        self.prepared(input).with_cloud(input.delta, input.window, draws.cloud).with_pipe(
            input.delta,
            input.window,
            draws.gap_center,
        )
    }

    /// The third part of a step: the gaps that the actor entered and the
    /// pipes that it touched.
    pub open spec fn judged(self, input: StepInputView, draws: Draws) -> GameView {
        self.populated(input, draws).scored(input.started).checked(input.contacts)
    }

    /// The game after one step. The last part of a step removes what has
    /// reached a despawn area and takes up the mode that was asked for.
    pub open spec fn stepped(self, input: StepInputView, draws: Draws) -> GameView {
        self.judged(input, draws).swept(input.intersections).transitioned(input.window)
    }

    /// Whether the cloud spawner's clock fires in a step that takes `delta`.
    pub open spec fn cloud_due(self, delta: u64) -> bool {
        self.clouds_spawn.timer.ticked(delta).finished
    }

    /// Whether the pipe spawner's clock fires in a step that takes `delta`.
    pub open spec fn pipe_due(self, delta: u64) -> bool {
        self.state == AppState::InGame && self.pipes_spawn.timer.ticked(delta).finished
    }

    /// Whether `draws` can have been drawn for a step that takes `delta`:
    /// a draw is made only for a spawner whose clock fires, only when the size
    /// of the display is known, and it fits the display.
    pub open spec fn draws_fit(self, delta: u64, window: Option<Window>, draws: Draws) -> bool {
        &&& draws.cloud matches Some(draw) ==> self.cloud_due(delta) && window is Some
            && cloud_draw_fits(window->Some_0, draw) && self.clouds_spawn.numerator > 0
        &&& draws.gap_center matches Some(y) ==> self.pipe_due(delta) && window is Some
            && gap_center_fits(window->Some_0, y as int)
    }

    /// Whether `draws` holds every draw that is certain to be made in a step
    /// that takes `delta`: the height of a gap whenever a pair is due and fits
    /// the display, and a cloud whenever one is due and its chance is one.
    pub open spec fn draws_owed(self, delta: u64, window: Option<Window>, draws: Draws) -> bool {
        &&& self.pipe_due(delta) && window is Some && gap_center_limit(window->Some_0) > 0
            ==> draws.gap_center is Some
        &&& self.cloud_due(delta) && window is Some && cloud_height_limit(window->Some_0) > 0
            && self.clouds_spawn.numerator == self.clouds_spawn.denominator ==> draws.cloud
            is Some
    }
}

impl GameView {
    /// Asking for a mode keeps the game well formed.
    pub proof fn lemma_requested_wf(self, mode: AppState)
        requires
            self.wf(),
        ensures
            self.requested(mode).wf(),
    {
    }

    /// Word from the physics world keeps the game well formed.
    pub proof fn lemma_observed_wf(self, translation: Vec2, velocity: Vec2)
        requires
            self.wf(),
        ensures
            self.observed(translation, velocity).wf(),
    {
    }

    /// The actor's tilt keeps the game well formed.
    pub proof fn lemma_animated_wf(self)
        requires
            self.wf(),
        ensures
            self.animated().wf(),
    {
    }

    /// The player's input keeps the game well formed.
    pub proof fn lemma_controlled_wf(self, jump: bool, cancel: bool)
        requires
            self.wf(),
        ensures
            self.controlled(jump, cancel).wf(),
    {
    }

    /// The cloud spawner keeps the game well formed.
    pub proof fn lemma_with_cloud_wf(
        self,
        delta: u64,
        window: Option<Window>,
        draw: Option<CloudDraw>,
    )
        requires
            self.wf(),
        ensures
            self.with_cloud(delta, window, draw).wf(),
    {
        self.clouds_spawn.timer.lemma_ticked_wf(delta);
        if let Some(cloud) = self.new_cloud(delta, window, draw) {
            lemma_push_spaced(
                self.scenario,
                decoration_key(),
                0,
                self.next_id as int,
                cloud,
                self.next_id + 1,
            );
        }
    }

    /// The pipe spawner keeps the game well formed.
    pub proof fn lemma_with_pipe_wf(self, delta: u64, window: Option<Window>, y: Option<i64>)
        requires
            self.wf(),
        ensures
            self.with_pipe(delta, window, y).wf(),
    {
        self.pipes_spawn.timer.lemma_ticked_wf(delta);
        if let Some(group) = self.new_pipe(delta, window, y) {
            lemma_push_spaced(
                self.pipes,
                group_key(),
                3,
                self.next_id as int,
                group,
                self.next_id + IDS_PER_GROUP,
            );
            lemma_uncounted_push(self.pipes, group);
        }
    }

    /// Counting the gaps keeps the game well formed.
    pub proof fn lemma_scored_wf(self, started: Seq<(u32, u32)>)
        requires
            self.wf(),
        ensures
            self.scored(started).wf(),
            self.flappy matches Some(flappy) ==> self.score.0 + passed(
                self.pipes,
                flappy.id,
                started,
            ) <= u32::MAX,
    {
        if let Some(flappy) = self.flappy {
            lemma_marked_uncounted(self.pipes, flappy.id, started);
            let after = marked(self.pipes, flappy.id, started);
            assert forall|i: int, j: int|
                #![trigger after[i], after[j]]
                0 <= i < j < after.len() implies group_key()(after[i]) + 3 < group_key()(
                after[j],
            ) by {
                assert(group_key()(self.pipes[i]) + 3 < group_key()(self.pipes[j]));
            }
            assert forall|i: int| 0 <= i < after.len() implies group_key()(#[trigger] after[i])
                + 3 < self.next_id by {
                assert(group_key()(self.pipes[i]) + 3 < self.next_id);
            }
        }
    }

    /// The look at the contacts keeps the game well formed.
    pub proof fn lemma_checked_wf(self, contacts: Seq<(u32, u32)>)
        requires
            self.wf(),
        ensures
            self.checked(contacts).wf(),
    {
    }

    /// The removal of what reached a despawn area keeps the game well formed.
    pub proof fn lemma_swept_wf(self, intersections: Seq<(u32, u32)>)
        requires
            self.wf(),
        ensures
            self.swept(intersections).wf(),
    {
        if let Some(area) = self.pipe_despawn_area {
            let stay = |group: PipeGroup| !crate::pipes::leaving(group, area.id, intersections);
            lemma_filter_spaced(self.pipes, stay, group_key(), 3);
            lemma_filter_below(self.pipes, stay, group_key(), 3, self.next_id as int);
            lemma_survivors_uncounted(self.pipes, area.id, intersections);
        }
        if let Some(area) = self.despawn_area {
            let stay = |decoration: Decoration|
                !crate::background::drifted_off(decoration, area.id, intersections);
            lemma_filter_spaced(self.scenario, stay, decoration_key(), 0);
            lemma_filter_below(self.scenario, stay, decoration_key(), 0, self.next_id as int);
        }
    }

    /// The change of mode keeps the game well formed.
    pub proof fn lemma_transitioned_wf(self, window: Option<Window>)
        requires
            self.wf(),
        ensures
            self.transitioned(window).wf(),
            self.transitioned(window).state == self.target(),
            self.transitioned(window).next_state is None,
    {
        reveal(Seq::filter);
        assert(uncounted(Seq::<PipeGroup>::empty()) == 0);
        if self.state != AppState::InGame {
            assert(self.pipes =~= Seq::<PipeGroup>::empty());
        }
    }

    /// A game starts well formed.
    pub proof fn lemma_started_wf(config: GameConfig, window: Option<Window>)
        requires
            config.fault() is None,
        ensures
            GameView::started(config, window).wf(),
    {
        reveal(Seq::filter);
        assert(uncounted(Seq::<PipeGroup>::empty()) == 0);
    }

    /// Each part of a step keeps the game well formed.
    pub proof fn lemma_parts_wf(self, input: StepInputView, draws: Draws)
        requires
            self.wf(),
        ensures
            self.prepared(input).wf(),
            self.populated(input, draws).wf(),
            self.judged(input, draws).wf(),
            self.judged(input, draws).swept(input.intersections).wf(),
            self.stepped(input, draws).wf(),
    {
        let observed = self.observed(input.translation, input.velocity);
        self.lemma_observed_wf(input.translation, input.velocity);
        observed.lemma_animated_wf();
        observed.animated().lemma_controlled_wf(input.jump, input.cancel);
        let prepared = self.prepared(input);
        prepared.lemma_with_cloud_wf(input.delta, input.window, draws.cloud);
        let clouded = prepared.with_cloud(input.delta, input.window, draws.cloud);
        clouded.lemma_with_pipe_wf(input.delta, input.window, draws.gap_center);
        let populated = self.populated(input, draws);
        populated.lemma_scored_wf(input.started);
        populated.scored(input.started).lemma_checked_wf(input.contacts);
        let judged = self.judged(input, draws);
        judged.lemma_swept_wf(input.intersections);
        judged.swept(input.intersections).lemma_transitioned_wf(input.window);
    }

    /// A step keeps the game well formed.
    pub proof fn lemma_stepped_wf(self, input: StepInputView, draws: Draws)
        requires
            self.wf(),
        ensures
            self.stepped(input, draws).wf(),
    {
        self.lemma_parts_wf(input, draws);
    }
}

} // verus!
