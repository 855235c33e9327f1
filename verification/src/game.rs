//! The game: its state and the steps that change it.
//!
//! A [`Game`] owns everything that lives in the simulation. Once per step the
//! caller hands it a [`StepInput`] and gets a [`StepOutcome`] back, which says
//! what was spawned and what was removed, so that the caller can do the same
//! in the physics world and on the screen.

use crate::AppState;
use crate::Score;
use crate::background::CloudDraw;
use crate::background::CloudsSpawnConfig;
use crate::background::Decoration;
use crate::background::draw_cloud;
use crate::background::setup_cloud_spawn_timer;
use crate::background::spawn_despawn_area;
use crate::config::ConfigError;
use crate::config::GameConfig;
use crate::flappy::Flappy;
use crate::flappy::despawn_flappy;
use crate::flappy::in_game_control;
use crate::flappy::spawn_flappy;
use crate::geometry::DespawnArea;
use crate::geometry::Vec2;
use crate::geometry::Window;
use crate::main_menu::wait_for_interaction_to_start;
use crate::model::Draws;
use crate::model::GameView;
use crate::model::IDS_AT_START;
use crate::model::IDS_PER_GAME;
use crate::model::StepInputView;
use crate::pipes::IDS_PER_GROUP;
use crate::pipes::PipeGroup;
use crate::pipes::PipesSpawnConfig;
use crate::pipes::draw_gap_center;
use crate::pipes::setup_spawn_pipe;
use crate::pipes::spawn_pipe_despawn_area;
use vstd::prelude::*;

verus! {

/// What the collaborators tell of one step.
pub struct StepInput {
    /// The time that has passed since the step before.
    pub delta: u64,
    /// The size of the display, if it is known.
    pub window: Option<Window>,
    /// Whether the primary action was pressed in this step.
    pub jump: bool,
    /// Whether the return to the start was pressed in this step.
    pub cancel: bool,
    /// Where the physics world has the actor.
    pub translation: Vec2,
    /// How the physics world has the actor moving.
    pub velocity: Vec2,
    /// The pairs of colliders that began to overlap.
    pub started: Vec<(u32, u32)>,
    /// The pairs of solid colliders that are in contact.
    pub contacts: Vec<(u32, u32)>,
    /// The pairs of colliders, one of them a sensor, that intersect.
    pub intersections: Vec<(u32, u32)>,
}

impl View for StepInput {
    type V = StepInputView;

    open spec fn view(&self) -> StepInputView {
        StepInputView {
            delta: self.delta,
            window: self.window,
            jump: self.jump,
            cancel: self.cancel,
            translation: self.translation,
            velocity: self.velocity,
            started: self.started@,
            contacts: self.contacts@,
            intersections: self.intersections@,
        }
    }
}

/// What a change of mode did.
pub struct Transition {
    /// The mode that was entered, if the mode changed.
    pub entered: Option<AppState>,
    /// The identifiers of what was removed.
    pub gone: Vec<u32>,
}

/// What one step did.
pub struct StepOutcome {
    /// What was drawn at random.
    pub draws: Draws,
    /// The cloud that was spawned.
    pub cloud: Option<Decoration>,
    /// The pair of pipes that was spawned.
    pub pipe: Option<PipeGroup>,
    /// The identifiers of what was removed: first what reached a despawn
    /// area, then what the end of the game removed.
    pub gone: Vec<u32>,
    /// The mode that was entered, if the mode changed.
    pub entered: Option<AppState>,
}

/// The state of the game.
pub struct Game {
    state: AppState,
    next_state: Option<AppState>,
    score: Score,
    flappy: Option<Flappy>,
    pipes: Vec<PipeGroup>,
    pipe_despawn_area: Option<DespawnArea>,
    pipes_spawn: PipesSpawnConfig,
    scenario: Vec<Decoration>,
    despawn_area: Option<DespawnArea>,
    clouds_spawn: CloudsSpawnConfig,
    next_id: u32,
}

impl View for Game {
    type V = GameView;

    closed spec fn view(&self) -> GameView {
        GameView {
            state: self.state,
            next_state: self.next_state,
            score: self.score,
            flappy: self.flappy,
            pipes: self.pipes@,
            pipe_despawn_area: self.pipe_despawn_area,
            pipes_spawn: self.pipes_spawn,
            scenario: self.scenario@,
            despawn_area: self.despawn_area,
            clouds_spawn: self.clouds_spawn,
            next_id: self.next_id,
        }
    }
}

impl Game {
    /// Whether the game is well formed (see [`GameView::wf`]).
    pub open spec fn wf(&self) -> bool {
        self@.wf()
    }

    /// Starts the simulation in `GameStart`. The scenery's despawn area and
    /// the mountains are placed if the size of the display is known. A
    /// configuration with a fault is refused.
    pub fn new(config: GameConfig, window: Option<Window>) -> (game: Result<Game, ConfigError>)
        ensures
            match config.fault() {
                Some(error) => game matches Err(refused) && refused == error,
                None => game matches Ok(game) && game@ == GameView::started(config, window)
                    && game.wf(),
            },
    {
        if let Err(error) = config.validate() {
            return Err(error);
        }
        let despawn_area = spawn_despawn_area(window, 0);
        let mut scenario: Vec<Decoration> = Vec::new();
        if let Some(mountains) = crate::background::spawn(window, 1) {
            scenario.push(mountains);
        }
        let clouds_spawn = setup_cloud_spawn_timer(
            config.cloud_period,
            config.cloud_numerator,
            config.cloud_denominator,
        );
        let game = Game {
            state: AppState::GameStart,
            next_state: None,
            score: Score(0),
            flappy: None,
            pipes: Vec::new(),
            pipe_despawn_area: None,
            pipes_spawn: setup_spawn_pipe(config.pipe_period),
            scenario,
            despawn_area,
            clouds_spawn,
            next_id: IDS_AT_START,
        };
        proof {
            GameView::lemma_started_wf(config, window);
            assert(game@.scenario =~= GameView::started(config, window).scenario);
            assert(game@.pipes =~= GameView::started(config, window).pipes);
        }
        Ok(game)
    }

    /// The active mode.
    pub fn state(&self) -> (state: AppState)
        ensures
            state == self@.state,
    {
        self.state
    }

    /// The mode that was asked for and has not been taken up yet.
    pub fn next_state(&self) -> (next_state: Option<AppState>)
        ensures
            next_state == self@.next_state,
    {
        self.next_state
    }

    /// The score.
    pub fn score(&self) -> (score: Score)
        ensures
            score == self@.score,
    {
        self.score
    }

    /// The actor.
    pub fn flappy(&self) -> (flappy: Option<Flappy>)
        ensures
            flappy == self@.flappy,
    {
        self.flappy
    }

    /// The number of live pairs of pipes.
    pub fn pipe_count(&self) -> (count: usize)
        ensures
            count == self@.pipes.len(),
    {
        self.pipes.len()
    }

    /// The live pair of pipes at the place `index`, counted from the oldest.
    pub fn pipe(&self, index: usize) -> (group: Option<PipeGroup>)
        ensures
            group == if index < self@.pipes.len() {
                Some(self@.pipes[index as int])
            } else {
                None
            },
    {
        if index < self.pipes.len() {
            Some(self.pipes[index])
        } else {
            None
        }
    }

    /// The despawn area of the pipes.
    pub fn pipe_despawn_area(&self) -> (area: Option<DespawnArea>)
        ensures
            area == self@.pipe_despawn_area,
    {
        self.pipe_despawn_area
    }

    /// The clock of the pipe spawner.
    pub fn pipes_spawn(&self) -> (config: PipesSpawnConfig)
        ensures
            config == self@.pipes_spawn,
    {
        self.pipes_spawn
    }

    /// The number of live pieces of scenery.
    pub fn decoration_count(&self) -> (count: usize)
        ensures
            count == self@.scenario.len(),
    {
        self.scenario.len()
    }

    /// The live piece of scenery at the place `index`, counted from the oldest.
    pub fn decoration(&self, index: usize) -> (decoration: Option<Decoration>)
        ensures
            decoration == if index < self@.scenario.len() {
                Some(self@.scenario[index as int])
            } else {
                None
            },
    {
        if index < self.scenario.len() {
            Some(self.scenario[index])
        } else {
            None
        }
    }

    /// The despawn area of the scenery.
    pub fn despawn_area(&self) -> (area: Option<DespawnArea>)
        ensures
            area == self@.despawn_area,
    {
        self.despawn_area
    }

    /// The clock and the chance of the cloud spawner.
    pub fn clouds_spawn(&self) -> (config: CloudsSpawnConfig)
        ensures
            config == self@.clouds_spawn,
    {
        self.clouds_spawn
    }

    /// Asks for the mode `new_mode`. It is taken up when the step ends.
    pub fn request_transition(&mut self, new_mode: AppState)
        requires
            old(self).wf(),
        ensures
            final(self)@ == old(self)@.requested(new_mode),
            final(self).wf(),
    {
        proof {
            self@.lemma_requested_wf(new_mode);
        }
        self.next_state = Some(new_mode);
    }

    /// Takes the physics world's word of where the actor is and how it moves.
    /// The impulse that was pending has been applied.
    pub fn observe(&mut self, translation: Vec2, velocity: Vec2)
        requires
            old(self).wf(),
        ensures
            final(self)@ == old(self)@.observed(translation, velocity),
            final(self).wf(),
    {
        if let Some(flappy) = self.flappy {
            self.flappy = Some(
                Flappy { translation, velocity, impulse: Vec2 { x: 0, y: 0 }, ..flappy },
            );
        }
    }

    /// Tilts the actor as it does in every step.
    pub fn animate_flappy(&mut self)
        requires
            old(self).wf(),
        ensures
            final(self)@ == old(self)@.animated(),
            final(self).wf(),
    {
        if let Some(flappy) = self.flappy {
            let mut actor = flappy;
            crate::flappy::animate_flappy(&mut actor);
            self.flappy = Some(actor);
        }
    }

    /// Acts on the player's input of one step: `jump` says that the primary
    /// action was pressed in this step and `cancel` that the return to the
    /// start was.
    pub fn control(&mut self, jump: bool, cancel: bool)
        requires
            old(self).wf(),
        ensures
            final(self)@ == old(self)@.controlled(jump, cancel),
            final(self).wf(),
    {
        match self.state {
            AppState::GameStart => {
                if let Some(mode) = wait_for_interaction_to_start(jump) {
                    self.next_state = Some(mode);
                }
            },
            AppState::InGame => {
                if let Some(flappy) = self.flappy {
                    let mut actor = flappy;
                    let request = in_game_control(&mut actor, jump, cancel);
                    self.flappy = Some(actor);
                    if let Some(mode) = request {
                        self.next_state = Some(mode);
                    }
                }
            },
            AppState::GameOver => {},
        }
    }

    /// Runs the cloud spawner for a step that took `delta`. `draw` is what
    /// was drawn for a cloud, if the coin fell for one.
    pub fn cloud_spawner(&mut self, delta: u64, window: Option<Window>, draw: Option<CloudDraw>)
        -> (spawned: Option<Decoration>)
        requires
            old(self).wf(),
        ensures
            final(self)@ == old(self)@.with_cloud(delta, window, draw),
            final(self).wf(),
            spawned == old(self)@.new_cloud(delta, window, draw),
    {
        proof {
            self@.lemma_with_cloud_wf(delta, window, draw);
        }
        let spawned = crate::background::cloud_spawner(
            &mut self.clouds_spawn,
            delta,
            window,
            draw,
            self.next_id,
        );
        if self.next_id < u32::MAX {
            if let Some(cloud) = spawned {
                self.scenario.push(cloud);
                self.next_id = self.next_id + 1;
                return Some(cloud);
            }
        }
        None
    }

    /// Runs the pipe spawner for a step that took `delta`. `y` is the height
    /// that was drawn for the centre of the gap, if one was drawn. Outside a
    /// game the spawner rests.
    pub fn spawn_pipe(&mut self, delta: u64, window: Option<Window>, y: Option<i64>) -> (spawned:
        Option<PipeGroup>)
        requires
            old(self).wf(),
        ensures
            final(self)@ == old(self)@.with_pipe(delta, window, y),
            final(self).wf(),
            spawned == old(self)@.new_pipe(delta, window, y),
    {
        proof {
            self@.lemma_with_pipe_wf(delta, window, y);
        }
        if self.state != AppState::InGame {
            return None;
        }
        let height: i64 = match y {
            Some(height) => height,
            None => 0,
        };
        let spawned = crate::pipes::spawn_pipe(
            &mut self.pipes_spawn,
            delta,
            window,
            height,
            self.next_id,
        );
        if y.is_some() && self.next_id <= u32::MAX - IDS_PER_GROUP {
            if let Some(group) = spawned {
                self.pipes.push(group);
                self.next_id = self.next_id + IDS_PER_GROUP;
                return Some(group);
            }
        }
        None
    }

    /// Counts the gaps that the actor has entered, from the overlaps that
    /// began in this step.
    pub fn detect_flappy_gap_sensor_collision(&mut self, started: &Vec<(u32, u32)>)
        requires
            old(self).wf(),
        ensures
            final(self)@ == old(self)@.scored(started@),
            final(self).wf(),
    {
        proof {
            self@.lemma_scored_wf(started@);
        }
        if let Some(flappy) = self.flappy {
            crate::flappy::detect_flappy_gap_sensor_collision(
                flappy.id,
                &mut self.pipes,
                started,
                &mut self.score,
            );
        }
    }

    /// Ends the game if the actor touches a pipe, from the contacts of this
    /// step: the return to `GameStart` is asked for.
    pub fn detect_flappy_pipes_collision(&mut self, contacts: &Vec<(u32, u32)>)
        requires
            old(self).wf(),
        ensures
            final(self)@ == old(self)@.checked(contacts@),
            final(self).wf(),
    {
        if let Some(flappy) = self.flappy {
            if let Some(mode) = crate::flappy::detect_flappy_pipes_collision(
                flappy.id,
                &self.pipes,
                contacts,
            ) {
                self.next_state = Some(mode);
            }
        }
    }

    /// Removes the pairs of pipes and the scenery that have reached their
    /// despawn area, from the intersections of this step, and returns the
    /// identifiers of what was removed.
    pub fn detect_and_despawn(&mut self, intersections: &Vec<(u32, u32)>) -> (gone: Vec<u32>)
        requires
            old(self).wf(),
        ensures
            final(self)@ == old(self)@.swept(intersections@),
            final(self).wf(),
            gone@ == old(self)@.removed(intersections@),
    {
        proof {
            self@.lemma_swept_wf(intersections@);
        }
        let mut gone: Vec<u32> = Vec::new();
        if let Some(area) = self.pipe_despawn_area {
            let mut pairs = crate::pipes::detect_pipe_despawn_and_pipes_collision(
                area.id,
                &mut self.pipes,
                intersections,
            );
            gone.append(&mut pairs);
        }
        if let Some(area) = self.despawn_area {
            let mut scenery = crate::background::detect_and_despawn(
                area.id,
                &mut self.scenario,
                intersections,
            );
            gone.append(&mut scenery);
        }
        assert(gone@ =~= old(self)@.removed(intersections@));
        gone
    }

    /// Takes up the mode that was asked for. Entering a game spawns the actor
    /// and the pipes' despawn area and starts the pipe spawner's clock; ending
    /// it removes the actor, the pairs and the despawn area. Both set the
    /// score to zero.
    pub fn apply_transition(&mut self, window: Option<Window>) -> (transition: Transition)
        requires
            old(self).wf(),
        ensures
            final(self)@ == old(self)@.transitioned(window),
            final(self).wf(),
            transition.entered == old(self)@.entry(),
            transition.gone@ == old(self)@.discarded(),
    {
        proof {
            self@.lemma_transitioned_wf(window);
        }
        let target = match self.next_state {
            Some(mode) => {
                let settled = mode.settle();
                if settled == AppState::InGame && self.state != AppState::InGame && self.next_id
                    > u32::MAX - IDS_PER_GAME {
                    self.state
                } else {
                    settled
                }
            },
            None => self.state,
        };
        self.next_state = None;
        if target == self.state {
            return Transition { entered: None, gone: Vec::new() };
        }
        if target == AppState::InGame {
            self.flappy = Some(spawn_flappy(self.next_id));
            self.pipe_despawn_area = spawn_pipe_despawn_area(window, self.next_id + 1);
            self.score = Score(0);
            self.pipes_spawn = setup_spawn_pipe(self.pipes_spawn.timer.duration);
            self.next_id = self.next_id + IDS_PER_GAME;
            self.state = AppState::InGame;
            Transition { entered: Some(AppState::InGame), gone: Vec::new() }
        } else {
            let mut gone = despawn_flappy(&mut self.flappy);
            let mut rest = crate::pipes::despawn(
                &mut self.pipes,
                &mut self.pipe_despawn_area,
                &mut self.score,
            );
            gone.append(&mut rest);
            self.state = AppState::GameStart;
            assert(gone@ =~= old(self)@.discarded());
            Transition { entered: Some(AppState::GameStart), gone }
        }
    }

    /// Draws what the spawners need for a step that takes `delta`: for each
    /// spawner whose clock fires in this step, and only if the size of the
    /// display is known.
    pub fn draw(&self, delta: u64, window: Option<Window>) -> (draws: Draws)
        requires
            self.wf(),
        ensures
            self@.draws_fit(delta, window, draws),
            self@.draws_owed(delta, window, draws),
    {
        let Some(window) = window else {
            return Draws { cloud: None, gap_center: None };
        };
        let mut cloud_clock = self.clouds_spawn.timer;
        cloud_clock.tick(delta);
        let cloud = if cloud_clock.finished() {
            draw_cloud(&self.clouds_spawn, window)
        } else {
            None
        };
        let mut pipe_clock = self.pipes_spawn.timer;
        pipe_clock.tick(delta);
        let gap_center = if self.state == AppState::InGame && pipe_clock.finished() {
            draw_gap_center(window)
        } else {
            None
        };
        Draws { cloud, gap_center }
    }

    /// Does one step with given draws.
    ///
    /// The parts of the step come in this order: the physics world's word of
    /// the actor, the actor's tilt, the player's input, the two spawners, the
    /// gaps that the actor entered, the pipes that it touched, the removal of
    /// what reached a despawn area, and the change of mode.
    pub fn step_with(&mut self, input: &StepInput, draws: Draws) -> (outcome: StepOutcome)
        requires
            old(self).wf(),
        ensures
            final(self)@ == old(self)@.stepped(input@, draws),
            final(self).wf(),
            outcome.draws == draws,
            outcome.cloud == old(self)@.prepared(input@).new_cloud(
                input.delta,
                input.window,
                draws.cloud,
            ),
            outcome.pipe == old(self)@.prepared(input@).with_cloud(
                input.delta,
                input.window,
                draws.cloud,
            ).new_pipe(input.delta, input.window, draws.gap_center),
            outcome.gone@ == old(self)@.judged(input@, draws).removed(input@.intersections)
                + old(self)@.judged(input@, draws).swept(input@.intersections).discarded(),
            outcome.entered == old(self)@.judged(input@, draws).swept(
                input@.intersections,
            ).entry(),
    {
        self.observe(input.translation, input.velocity);
        self.animate_flappy();
        self.control(input.jump, input.cancel);
        let cloud = self.cloud_spawner(input.delta, input.window, draws.cloud);
        let pipe = self.spawn_pipe(input.delta, input.window, draws.gap_center);
        self.detect_flappy_gap_sensor_collision(&input.started);
        self.detect_flappy_pipes_collision(&input.contacts);
        let mut gone = self.detect_and_despawn(&input.intersections);
        let mut transition = self.apply_transition(input.window);
        gone.append(&mut transition.gone);
        StepOutcome { draws, cloud, pipe, gone, entered: transition.entered }
    }

    /// Does one step: draws what the spawners need and does the step with
    /// these draws, which the outcome tells.
    pub fn step(&mut self, input: &StepInput) -> (outcome: StepOutcome)
        requires
            old(self).wf(),
        ensures
            old(self)@.draws_fit(input.delta, input.window, outcome.draws),
            old(self)@.draws_owed(input.delta, input.window, outcome.draws),
            final(self)@ == old(self)@.stepped(input@, outcome.draws),
            final(self).wf(),
            outcome.cloud == old(self)@.prepared(input@).new_cloud(
                input.delta,
                input.window,
                outcome.draws.cloud,
            ),
            outcome.pipe == old(self)@.prepared(input@).with_cloud(
                input.delta,
                input.window,
                outcome.draws.cloud,
            ).new_pipe(input.delta, input.window, outcome.draws.gap_center),
            outcome.gone@ == old(self)@.judged(input@, outcome.draws).removed(
                input@.intersections,
            ) + old(self)@.judged(input@, outcome.draws).swept(input@.intersections).discarded(),
            outcome.entered == old(self)@.judged(input@, outcome.draws).swept(
                input@.intersections,
            ).entry(),
    {
        let draws = self.draw(input.delta, input.window);
        self.step_with(input, draws)
    }
}

} // verus!
