//! What holds of the game whatever the player, the physics world and the
//! random generator do.

use crate::AppState;
use crate::Score;
use crate::background::decoration_key;
use crate::background::drifted_off;
use crate::flappy::crashed;
use crate::flappy::marked;
use crate::flappy::passed;
use crate::flappy::passing;
use crate::flappy::seen;
use crate::flappy::touches;
use crate::geometry::Vec2;
use crate::model::Draws;
use crate::model::GameView;
use crate::model::IDS_PER_GAME;
use crate::model::StepInputView;
use crate::pipes::IDS_PER_GROUP;
use crate::pipes::PIPE_WIDTH;
use crate::pipes::PipeGroup;
use crate::pipes::gap_center_fits;
use crate::pipes::gap_center_limit;
use crate::pipes::group_key;
use crate::pipes::leaving;
use crate::roster::holds;
use crate::roster::lemma_filter_drops;
use crate::roster::spaced;
use crate::timer::Timer;
use crate::timer::TimerMode;
use vstd::prelude::*;

verus! {

impl GameView {
    /// The game after the steps `inputs` with the draws `draws`, one draw for each step.
    pub open spec fn run(self, inputs: Seq<StepInputView>, draws: Seq<Draws>) -> GameView
        decreases inputs.len(),
    {
        if inputs.len() == 0 || draws.len() != inputs.len() {
            self
        } else {
            self.run(inputs.drop_last(), draws.drop_last()).stepped(inputs.last(), draws.last())
        }
    }
}

/// The number of places at which the sensor of `before` has not counted and
/// that of `after` has.
pub open spec fn turned_on(before: Seq<PipeGroup>, after: Seq<PipeGroup>) -> nat
    decreases before.len(),
{
    if before.len() == 0 || after.len() != before.len() {
        0
    } else {
        turned_on(before.drop_last(), after.drop_last()) + if !before.last().sensor.counted
            && after.last().sensor.counted {
            1nat
        } else {
            0nat
        }
    }
}

/// Any number of steps keeps a well-formed game well formed.
pub proof fn lemma_run_wf(start: GameView, inputs: Seq<StepInputView>, draws: Seq<Draws>)
    requires
        start.wf(),
    ensures
        start.run(inputs, draws).wf(),
    decreases inputs.len(),
{
    if inputs.len() != 0 && draws.len() == inputs.len() {
        lemma_run_wf(start, inputs.drop_last(), draws.drop_last());
        start.run(inputs.drop_last(), draws.drop_last()).lemma_stepped_wf(
            inputs.last(),
            draws.last(),
        );
    }
}

/// After any steps the score is not negative, and it is zero outside a game.
/// So wherever one more step leads from a game back to the start, the score
/// is zero after that step.
pub proof fn lemma_score_resets(
    start: GameView,
    inputs: Seq<StepInputView>,
    draws: Seq<Draws>,
    input: StepInputView,
    draw: Draws,
)
    requires
        start.wf(),
    ensures
        start.run(inputs, draws).score.0 >= 0,
        start.run(inputs, draws).state != AppState::InGame ==> start.run(inputs, draws).score
            == Score(0),
        start.run(inputs, draws).state == AppState::InGame && start.run(inputs, draws).stepped(
            input,
            draw,
        ).state == AppState::GameStart ==> start.run(inputs, draws).stepped(input, draw).score
            == Score(0),
{
    lemma_run_wf(start, inputs, draws);
    start.run(inputs, draws).lemma_stepped_wf(input, draw);
}

/// After any steps there is an actor exactly during a game, and outside a
/// game no pair of pipes and no despawn area for them is live.
pub proof fn lemma_game_objects_live_in_game(
    start: GameView,
    inputs: Seq<StepInputView>,
    draws: Seq<Draws>,
)
    requires
        start.wf(),
    ensures
        start.run(inputs, draws).flappy is Some <==> start.run(inputs, draws).state
            == AppState::InGame,
        start.run(inputs, draws).state != AppState::InGame ==> start.run(inputs, draws).pipes.len()
            == 0 && start.run(inputs, draws).pipe_despawn_area is None,
        start.run(inputs, draws).state != AppState::GameOver,
{
    lemma_run_wf(start, inputs, draws);
}

/// Before a game, the primary action starts one with the step in which it is
/// pressed, while identifiers are left: the actor rests at the origin, the
/// score is zero and the pipe spawner's clock starts anew.
pub proof fn lemma_press_starts_game(game: GameView, input: StepInputView, draws: Draws)
    requires
        game.wf(),
        game.state == AppState::GameStart,
        input.jump,
        game.next_id < u32::MAX - IDS_PER_GAME,
    ensures
        game.stepped(input, draws).state == AppState::InGame,
        game.stepped(input, draws).flappy is Some,
        game.stepped(input, draws).flappy->Some_0.translation == Vec2::zero(),
        game.stepped(input, draws).flappy->Some_0.velocity == Vec2::zero(),
        game.stepped(input, draws).score == Score(0),
        game.stepped(input, draws).pipes.len() == 0,
        game.stepped(input, draws).pipes_spawn.timer == Timer::fresh(
            game.pipes_spawn.timer.duration,
            TimerMode::Repeating,
        ),
{
    game.lemma_parts_wf(input, draws);
    let judged = game.judged(input, draws);
    assert(judged.pipes =~= Seq::<PipeGroup>::empty());
}

/// Marking the pairs turns on exactly the sensors that count in this step.
pub proof fn lemma_turned_on_marked(groups: Seq<PipeGroup>, flappy: u32, started: Seq<(u32, u32)>)
    ensures
        turned_on(groups, marked(groups, flappy, started)) == passed(groups, flappy, started),
    decreases groups.len(),
{
    let pass = |group: PipeGroup| passing(group, flappy, started);
    let after = marked(groups, flappy, started);
    if groups.len() > 0 {
        let front = groups.drop_last();
        lemma_turned_on_marked(front, flappy, started);
        assert(after.drop_last() =~= marked(front, flappy, started));
        assert(groups =~= front.push(groups.last()));
        front.lemma_filter_push(groups.last(), pass);
        assert(after.last() == seen(groups.last(), flappy, started));
    } else {
        reveal(Seq::filter);
    }
}

/// A sensor that has counted stays counted: a pair that is live before and
/// after a step, and whose sensor had counted before, has it counted after.
/// So no sensor turns from not counted to counted twice.
pub proof fn lemma_counted_stays(
    game: GameView,
    input: StepInputView,
    draws: Draws,
    before: int,
    after: int,
)
    requires
        game.wf(),
        0 <= before < game.pipes.len(),
        0 <= after < game.stepped(input, draws).pipes.len(),
        game.pipes[before].id == game.stepped(input, draws).pipes[after].id,
        game.pipes[before].sensor.counted,
    ensures
        game.stepped(input, draws).pipes[after].sensor.counted,
{
    let prepared = game.prepared(input);
    let populated = game.populated(input, draws);
    let judged = game.judged(input, draws);
    let swept = judged.swept(input.intersections);
    let end = game.stepped(input, draws);
    game.lemma_parts_wf(input, draws);
    assert(prepared.pipes == game.pipes);
    assert(end.pipes.len() > 0);
    assert(end.pipes == swept.pipes);
    let group = end.pipes[after];
    assert(judged.pipes.contains(group)) by {
        if let Some(area) = judged.pipe_despawn_area {
            judged.pipes.lemma_filter_contains_rev(
                |group: PipeGroup| !leaving(group, area.id, input.intersections),
                group,
            );
        }
    }
    let k = choose|k: int| 0 <= k < judged.pipes.len() && judged.pipes[k] == group;
    assert(judged.pipes.len() == populated.pipes.len());
    assert(populated.pipes[before] == game.pipes[before]);
    assert(judged.pipes[k].id == populated.pipes[k].id);
    if k < before {
        assert(group_key()(populated.pipes[k]) + 3 < group_key()(populated.pipes[before]));
    } else if before < k {
        assert(group_key()(populated.pipes[before]) + 3 < group_key()(populated.pipes[k]));
    }
}

/// A pair that is live after a step was live before it, or was spawned in it
/// under an identifier that had not been handed out. Identifiers that were
/// handed out are never handed out again.
pub proof fn lemma_pairs_are_old_or_new(
    game: GameView,
    input: StepInputView,
    draws: Draws,
    after: int,
)
    requires
        game.wf(),
        0 <= after < game.stepped(input, draws).pipes.len(),
    ensures
        game.has_pipe(game.stepped(input, draws).pipes[after].id as int) || game.stepped(
            input,
            draws,
        ).pipes[after].id >= game.next_id,
        game.next_id <= game.stepped(input, draws).next_id,
{
    let prepared = game.prepared(input);
    let populated = game.populated(input, draws);
    let judged = game.judged(input, draws);
    let swept = judged.swept(input.intersections);
    let end = game.stepped(input, draws);
    game.lemma_parts_wf(input, draws);
    assert(prepared.pipes == game.pipes);
    assert(end.pipes == swept.pipes);
    let group = end.pipes[after];
    assert(judged.pipes.contains(group)) by {
        if let Some(area) = judged.pipe_despawn_area {
            judged.pipes.lemma_filter_contains_rev(
                |group: PipeGroup| !leaving(group, area.id, input.intersections),
                group,
            );
        }
    }
    let k = choose|k: int| 0 <= k < judged.pipes.len() && judged.pipes[k] == group;
    assert(judged.pipes[k].id == populated.pipes[k].id);
    if k < game.pipes.len() {
        assert(populated.pipes[k] == game.pipes[k]);
    }
}

/// No step takes an identifier back.
pub proof fn lemma_step_keeps_identifiers(game: GameView, input: StepInputView, draws: Draws)
    requires
        game.wf(),
    ensures
        game.next_id <= game.stepped(input, draws).next_id,
{
    game.lemma_parts_wf(input, draws);
}

/// No number of steps takes an identifier back.
pub proof fn lemma_run_keeps_identifiers(
    start: GameView,
    inputs: Seq<StepInputView>,
    draws: Seq<Draws>,
)
    requires
        start.wf(),
    ensures
        start.next_id <= start.run(inputs, draws).next_id,
    decreases inputs.len(),
{
    if inputs.len() != 0 && draws.len() == inputs.len() {
        let middle = start.run(inputs.drop_last(), draws.drop_last());
        lemma_run_keeps_identifiers(start, inputs.drop_last(), draws.drop_last());
        lemma_run_wf(start, inputs.drop_last(), draws.drop_last());
        lemma_step_keeps_identifiers(middle, inputs.last(), draws.last());
    }
}

/// A sensor counts once in its life: a pair whose sensor has counted, and
/// that is still live after any number of steps, has it counted then.
pub proof fn lemma_counted_for_life(
    start: GameView,
    inputs: Seq<StepInputView>,
    draws: Seq<Draws>,
    before: int,
    after: int,
)
    requires
        start.wf(),
        0 <= before < start.pipes.len(),
        0 <= after < start.run(inputs, draws).pipes.len(),
        start.pipes[before].id == start.run(inputs, draws).pipes[after].id,
        start.pipes[before].sensor.counted,
    ensures
        start.run(inputs, draws).pipes[after].sensor.counted,
    decreases inputs.len(),
{
    if inputs.len() != 0 && draws.len() == inputs.len() {
        let middle = start.run(inputs.drop_last(), draws.drop_last());
        lemma_run_wf(start, inputs.drop_last(), draws.drop_last());
        lemma_run_keeps_identifiers(start, inputs.drop_last(), draws.drop_last());
        lemma_pairs_are_old_or_new(middle, inputs.last(), draws.last(), after);
        assert(group_key()(start.pipes[before]) + 3 < start.next_id);
        let m = choose|m: int|
            0 <= m < middle.pipes.len() && (#[trigger] middle.pipes[m]).id
                == start.pipes[before].id;
        lemma_counted_for_life(start, inputs.drop_last(), draws.drop_last(), before, m);
        lemma_counted_stays(middle, inputs.last(), draws.last(), m, after);
    } else {
        if before < after {
            assert(group_key()(start.pipes[before]) + 3 < group_key()(start.pipes[after]));
        } else if after < before {
            assert(group_key()(start.pipes[after]) + 3 < group_key()(start.pipes[before]));
        }
    }
}

/// What a despawn area has removed stays removed: after a step in which a
/// pair has reached the despawn area, no number of further steps brings a
/// pair with its identifier back.
pub proof fn lemma_pipes_leave_for_good(
    game: GameView,
    input: StepInputView,
    draw: Draws,
    n: int,
    inputs: Seq<StepInputView>,
    draws: Seq<Draws>,
)
    requires
        game.wf(),
        0 <= n < game.pipes.len(),
        game.pipe_despawn_area is Some,
        leaving(game.pipes[n], game.pipe_despawn_area->Some_0.id, input.intersections),
    ensures
        !game.stepped(input, draw).run(inputs, draws).has_pipe(game.pipes[n].id as int),
    decreases inputs.len(),
{
    let next = game.stepped(input, draw);
    let id = game.pipes[n].id;
    game.lemma_parts_wf(input, draw);
    lemma_pipes_leave(game, input, draw, n);
    lemma_step_keeps_identifiers(game, input, draw);
    if inputs.len() != 0 && draws.len() == inputs.len() {
        let middle = next.run(inputs.drop_last(), draws.drop_last());
        let end = next.run(inputs, draws);
        lemma_pipes_leave_for_good(game, input, draw, n, inputs.drop_last(), draws.drop_last());
        lemma_run_wf(next, inputs.drop_last(), draws.drop_last());
        lemma_run_keeps_identifiers(next, inputs.drop_last(), draws.drop_last());
        if end.has_pipe(id as int) {
            let i = choose|i: int| 0 <= i < end.pipes.len() && (#[trigger] end.pipes[i]).id == id;
            lemma_pairs_are_old_or_new(middle, inputs.last(), draws.last(), i);
            assert(group_key()(game.pipes[n]) + 3 < game.next_id);
        }
    }
}

/// In a step within a game the score rises by one for each sensor that
/// turns from not counted to counted in that step, and by no more. The
/// sensors are those of the pairs that are live when the gaps are counted:
/// the pairs from before the step and the pair that the step spawned.
pub proof fn lemma_score_counts_sensors(game: GameView, input: StepInputView, draws: Draws)
    requires
        game.wf(),
        game.state == AppState::InGame,
        game.stepped(input, draws).state == AppState::InGame,
    ensures
        game.judged(input, draws).pipes.len() == game.populated(input, draws).pipes.len(),
        forall|k: int|
            0 <= k < game.populated(input, draws).pipes.len() ==> (#[trigger] game.judged(
                input,
                draws,
            ).pipes[k]).id == game.populated(input, draws).pipes[k].id,
        game.stepped(input, draws).score.0 == game.score.0 + turned_on(
            game.populated(input, draws).pipes,
            game.judged(input, draws).pipes,
        ),
{
    let populated = game.populated(input, draws);
    game.lemma_parts_wf(input, draws);
    populated.lemma_scored_wf(input.started);
    let flappy = populated.flappy->Some_0;
    lemma_turned_on_marked(populated.pipes, flappy.id, input.started);
}

/// During a game the pipe spawner spawns a pair in every step in which its
/// clock fires, if the size of the display is known, a gap fits the display
/// and identifiers are left. The pair is the last of the pairs; its gap is
/// centred at the height that was drawn, which fits the display, and its
/// sensor has not counted.
pub proof fn lemma_due_pair_spawns(game: GameView, input: StepInputView, draws: Draws)
    requires
        game.wf(),
        game.pipe_due(input.delta),
        input.window is Some,
        gap_center_limit(input.window->Some_0) > 0,
        game.draws_fit(input.delta, input.window, draws),
        game.draws_owed(input.delta, input.window, draws),
        game.next_id < u32::MAX - IDS_PER_GROUP,
    ensures
        draws.gap_center is Some,
        game.populated(input, draws).pipes == game.pipes.push(
            game.populated(input, draws).pipes.last(),
        ),
        game.populated(input, draws).pipes.last().x == input.window->Some_0.width + PIPE_WIDTH,
        game.populated(input, draws).pipes.last().y == draws.gap_center->Some_0,
        gap_center_fits(input.window->Some_0, game.populated(input, draws).pipes.last().y as int),
        !game.populated(input, draws).pipes.last().sensor.counted,
{
    let prepared = game.prepared(input);
    let clouded = prepared.with_cloud(input.delta, input.window, draws.cloud);
    assert(clouded.new_pipe(input.delta, input.window, draws.gap_center) is Some);
}

/// No pair is spawned in a step in which the pipe spawner's clock does not
/// fire, and never more than one in a step.
pub proof fn lemma_pairs_spawn_when_due(game: GameView, input: StepInputView, draws: Draws)
    requires
        game.wf(),
    ensures
        !game.pipe_due(input.delta) ==> game.populated(input, draws).pipes == game.pipes,
        game.populated(input, draws).pipes.len() <= game.pipes.len() + 1,
        game.populated(input, draws).scenario.len() <= game.scenario.len() + 1,
        !game.cloud_due(input.delta) ==> game.populated(input, draws).scenario == game.scenario,
{
}

/// A pair of pipes that has reached the despawn area is not live after the step.
pub proof fn lemma_pipes_leave(game: GameView, input: StepInputView, draws: Draws, n: int)
    requires
        game.wf(),
        0 <= n < game.pipes.len(),
        game.pipe_despawn_area is Some,
        leaving(game.pipes[n], game.pipe_despawn_area->Some_0.id, input.intersections),
    ensures
        !game.stepped(input, draws).has_pipe(game.pipes[n].id as int),
{
    let populated = game.populated(input, draws);
    let judged = game.judged(input, draws);
    let swept = judged.swept(input.intersections);
    let end = game.stepped(input, draws);
    let area = game.pipe_despawn_area->Some_0;
    game.lemma_parts_wf(input, draws);
    assert(populated.pipes[n] == game.pipes[n]);
    assert(judged.pipes[n].id == game.pipes[n].id);
    let stay = |group: PipeGroup| !leaving(group, area.id, input.intersections);
    assert(spaced(judged.pipes, group_key(), 0)) by {
        assert forall|i: int, j: int|
            #![trigger judged.pipes[i], judged.pipes[j]]
            0 <= i < j < judged.pipes.len() implies group_key()(judged.pipes[i]) + 0
            < group_key()(judged.pipes[j]) by {
            assert(group_key()(judged.pipes[i]) + 3 < group_key()(judged.pipes[j]));
        }
    }
    lemma_filter_drops(judged.pipes, stay, group_key(), n);
    if end.has_pipe(game.pipes[n].id as int) {
        let i = choose|i: int| 0 <= i < end.pipes.len() && (#[trigger] end.pipes[i]).id
            == game.pipes[n].id;
        assert(end.pipes == swept.pipes);
        assert(group_key()(swept.pipes[i]) == group_key()(judged.pipes[n]));
    }
}

/// A piece of scenery that has reached the despawn area is not live after the step.
pub proof fn lemma_scenery_leaves(game: GameView, input: StepInputView, draws: Draws, n: int)
    requires
        game.wf(),
        0 <= n < game.scenario.len(),
        game.despawn_area is Some,
        drifted_off(game.scenario[n], game.despawn_area->Some_0.id, input.intersections),
    ensures
        !game.stepped(input, draws).has_decoration(game.scenario[n].id as int),
{
    let judged = game.judged(input, draws);
    let swept = judged.swept(input.intersections);
    let end = game.stepped(input, draws);
    let area = game.despawn_area->Some_0;
    game.lemma_parts_wf(input, draws);
    assert(judged.scenario[n] == game.scenario[n]);
    let stay = |decoration: crate::background::Decoration|
        !drifted_off(decoration, area.id, input.intersections);
    lemma_filter_drops(judged.scenario, stay, decoration_key(), n);
    if end.has_decoration(game.scenario[n].id as int) {
        let i = choose|i: int| 0 <= i < end.scenario.len() && (#[trigger] end.scenario[i]).id
            == game.scenario[n].id;
        assert(end.scenario == swept.scenario);
        assert(decoration_key()(swept.scenario[i]) == decoration_key()(judged.scenario[n]));
    }
}

/// A contact between the actor and a pipe ends the game with the step in
/// which it is reported, whatever else happens in that step.
pub proof fn lemma_contact_ends_game(game: GameView, input: StepInputView, draws: Draws)
    requires
        game.wf(),
        game.flappy is Some,
        crashed(game.pipes, game.flappy->Some_0.id, input.contacts),
    ensures
        game.stepped(input, draws).state == AppState::GameStart,
        game.stepped(input, draws).score == Score(0),
        game.stepped(input, draws).flappy is None,
        game.stepped(input, draws).pipes.len() == 0,
        game.stepped(input, draws).pipe_despawn_area is None,
{
    let populated = game.populated(input, draws);
    let scored = populated.scored(input.started);
    let flappy = game.flappy->Some_0.id;
    game.lemma_parts_wf(input, draws);
    let n = choose|n: int|
        0 <= n < game.pipes.len() && touches(#[trigger] game.pipes[n], flappy, input.contacts);
    assert(populated.pipes[n] == game.pipes[n]);
    assert(touches(scored.pipes[n], flappy, input.contacts));
}

/// Counting the gaps and looking at the contacts do not depend on each other:
/// either order leads to the same game.
pub proof fn lemma_resolvers_commute(
    game: GameView,
    started: Seq<(u32, u32)>,
    contacts: Seq<(u32, u32)>,
)
    ensures
        game.scored(started).checked(contacts) == game.checked(contacts).scored(started),
{
    if let Some(flappy) = game.flappy {
        let after = marked(game.pipes, flappy.id, started);
        if crashed(game.pipes, flappy.id, contacts) {
            let n = choose|n: int|
                0 <= n < game.pipes.len() && touches(#[trigger] game.pipes[n], flappy.id, contacts);
            assert(touches(after[n], flappy.id, contacts));
        }
        if crashed(after, flappy.id, contacts) {
            let n = choose|n: int|
                0 <= n < after.len() && touches(#[trigger] after[n], flappy.id, contacts);
            assert(touches(game.pipes[n], flappy.id, contacts));
        }
    }
}

} // verus!
