//! What holds of every game: how the selection grows, what a command does to
//! it, and which floaters the steering leaves alone.

use crate::floater::FLOATER_SIZE;
use crate::game::{
    lemma_pursuits_are_floaters, lemma_same_owners_stay_valid, pursuits, steering, Game,
};
use crate::geometry::Vector2;
use crate::physics::{lemma_total_force_ignores_others, total_force, AppliedForce};
use vstd::prelude::*;

verus! {

/// A click selects a floater exactly if it falls strictly inside the disc
/// that the floater is drawn as. A click on the rim misses.
pub proof fn lemma_click_selects_inside_only(game: Game, i: int, p: Vector2)
    requires
        game.valid(),
        0 <= i < game.floaters.len(),
    ensures
        game.hits(p).contains(game.floaters[i].handle@) <==> p.dist_sq(game.position(i))
            < FLOATER_SIZE * FLOATER_SIZE,
        p.dist_sq(game.position(i)) == FLOATER_SIZE * FLOATER_SIZE ==> !game.hits(p).contains(
            game.floaters[i].handle@,
        ),
{
    let id = game.floaters[i].handle@;
    if game.hits(p).contains(id) {
        let j = choose|j: int|
            0 <= j < game.floaters.len() && (#[trigger] game.floaters[j]).handle@ == id
                && game.hit(j, p);
        if j < i {
            assert(game.floaters[j].handle@ != game.floaters[i].handle@);
        } else if i < j {
            assert(game.floaters[i].handle@ != game.floaters[j].handle@);
        }
        assert(j == i);
    }
    if game.hit(i, p) {
        assert(game.hits(p).contains(id));
    }
}

/// The same select click twice selects what it selects once.
pub proof fn lemma_select_is_idempotent(game: Game, p: Vector2)
    ensures
        game.select(p).select(p) == game.select(p),
{
    assert(game.select(p).hits(p) =~= game.hits(p));
    assert(game.select(p).select(p).selected =~= game.select(p).selected);
}

/// The order of two select clicks does not matter.
pub proof fn lemma_select_commutes(game: Game, p: Vector2, q: Vector2)
    ensures
        game.select(p).select(q) == game.select(q).select(p),
{
    assert(game.select(p).hits(q) =~= game.hits(q));
    assert(game.select(q).hits(p) =~= game.hits(p));
    assert(game.select(p).select(q).selected =~= game.select(q).select(p).selected);
}

/// The floaters that a click hits are finitely many.
pub proof fn lemma_hits_is_finite(game: Game, p: Vector2, n: int)
    requires
        0 <= n <= game.floaters.len(),
    ensures
        game.hits_among(p, n).finite(),
        game.hits_among(p, n).len() <= n,
    decreases n,
{
    if n == 0 {
        assert(game.hits_among(p, n) =~= Set::<usize>::empty());
    } else {
        lemma_hits_is_finite(game, p, n - 1);
        let id = game.floaters[n - 1].handle@;
        if game.hit(n - 1, p) {
            assert(game.hits_among(p, n) =~= game.hits_among(p, n - 1).insert(id));
        } else {
            assert(game.hits_among(p, n) =~= game.hits_among(p, n - 1));
        }
    }
}

/// A select click never unmarks a floater and keeps a valid game valid. One
/// that hits nothing changes nothing.
pub proof fn lemma_select_only_grows(game: Game, p: Vector2)
    requires
        game.valid(),
    ensures
        game.selected.subset_of(game.select(p).selected),
        game.select(p).valid(),
        game.hits(p) == Set::<usize>::empty() ==> game.select(p) == game,
{
    lemma_hits_is_finite(game, p, game.floaters.len() as int);
    let after = game.select(p);
    assert forall|id: usize| after.selected.contains(id) implies after.owns(id) by {
        if game.selected.contains(id) {
            assert(game.owns(id));
        }
    }
    if game.hits(p) == Set::<usize>::empty() {
        assert(after.selected =~= game.selected);
    }
}

/// Starting with nothing selected, a click on the centre of one floater and
/// a click on the centre of another select these two and no more, in either
/// order, provided that neither click reaches any other floater. A second
/// click on the same floater adds nothing.
pub proof fn lemma_two_clicks_select_two(game: Game, a: int, b: int)
    requires
        game.valid(),
        game.selected == Set::<usize>::empty(),
        0 <= a < game.floaters.len(),
        0 <= b < game.floaters.len(),
        a != b,
        forall|k: int|
            0 <= k < game.floaters.len() && k != a ==> !#[trigger] game.hit(k, game.position(a)),
        forall|k: int|
            0 <= k < game.floaters.len() && k != b ==> !#[trigger] game.hit(k, game.position(b)),
    ensures
        ({
            let both = game.select(game.position(a)).select(game.position(b)).selected;
            &&& both == set![game.floaters[a].handle@, game.floaters[b].handle@]
            &&& both.len() == 2
            &&& both == game.select(game.position(b)).select(game.position(a)).selected
        }),
        ({
            let once = game.select(game.position(a)).selected;
            &&& once == set![game.floaters[a].handle@]
            &&& once.len() == 1
            &&& once == game.select(game.position(a)).select(game.position(a)).selected
        }),
{
    let pa = game.position(a);
    let pb = game.position(b);
    let ida = game.floaters[a].handle@;
    let idb = game.floaters[b].handle@;
    pa.lemma_disc(pa, FLOATER_SIZE as int);
    pb.lemma_disc(pb, FLOATER_SIZE as int);
    assert(game.hit(a, pa));
    assert(game.hit(b, pb));
    assert(game.hits(pa) =~= set![ida]);
    assert(game.hits(pb) =~= set![idb]);
    if a < b {
        assert(game.floaters[a].handle@ != game.floaters[b].handle@);
    } else {
        assert(game.floaters[b].handle@ != game.floaters[a].handle@);
    }
    let first = game.select(pa);
    assert(first.selected =~= set![ida]);
    assert(first.hits(pb) =~= game.hits(pb));
    assert(first.select(pb).selected =~= set![ida, idb]);
    lemma_select_commutes(game, pa, pb);
    lemma_select_is_idempotent(game, pa);
}

/// After a command click nothing is selected, whatever was before, and every
/// floater that was selected pursues the point of the click. The others, the
/// world and the beach ball are as before.
pub proof fn lemma_command_clears_selection(game: Game, p: Vector2)
    ensures
        game.command(p).selected == Set::<usize>::empty(),
        game.command(p).floaters.len() == game.floaters.len(),
        forall|i: int|
            0 <= i < game.floaters.len() && game.selected.contains(
                (#[trigger] game.floaters[i]).handle@,
            ) ==> game.command(p).floaters[i].target == Some(p),
        forall|i: int|
            0 <= i < game.floaters.len() && !game.selected.contains(
                (#[trigger] game.floaters[i]).handle@,
            ) ==> game.command(p).floaters[i] == game.floaters[i],
        forall|i: int|
            0 <= i < game.floaters.len() ==> (#[trigger] game.command(p).floaters[i]).handle
                == game.floaters[i].handle,
        game.command(p).world == game.world,
        game.command(p).beach_ball == game.beach_ball,
{
}

/// A command click with nothing selected changes nothing, so a second
/// command click right after a first one does nothing more.
pub proof fn lemma_command_on_nothing(game: Game, p: Vector2, q: Vector2)
    ensures
        game.selected == Set::<usize>::empty() ==> game.command(p) == game,
        game.command(p).command(q) == game.command(p),
{
    if game.selected == Set::<usize>::empty() {
        assert(game.command(p).floaters =~= game.floaters);
    }
    assert(game.command(p).command(q).floaters =~= game.command(p).floaters);
}

/// A command click keeps a valid game valid.
pub proof fn lemma_command_keeps_valid(game: Game, p: Vector2)
    requires
        game.valid(),
    ensures
        game.command(p).valid(),
{
    lemma_same_owners_stay_valid(game, game.command(p));
}

/// Steering keeps a valid game valid, and changes nothing but the forces
/// applied to the world.
pub proof fn lemma_steering_keeps_valid(game: Game)
    requires
        game.valid(),
    ensures
        game.steered().valid(),
        game.steered().floaters == game.floaters,
        game.steered().selected == game.selected,
        game.steered().world.balls == game.world.balls,
{
    let forces = steering(game.world, game.floaters);
    lemma_pursuits_are_floaters(game.floaters);
    let after = game.steered();
    assert forall|k: int| 0 <= k < after.world.forces.len() implies after.world.has(
        (#[trigger] after.world.forces[k]).handle,
    ) by {
        if k < game.world.forces.len() {
            assert(after.world.forces[k] == game.world.forces[k]);
        } else {
            let at = k - game.world.forces.len();
            assert(after.world.forces[k] == forces[at]);
            let pursuit = pursuits(game.floaters)[at];
            let j = choose|j: int|
                0 <= j < game.floaters.len() && (#[trigger] game.floaters[j]).handle == pursuit.0
                    && game.floaters[j].target == Some(pursuit.1);
            assert(game.world.has(game.floaters[j].handle));
        }
    }
    lemma_same_owners_stay_valid(game, after);
}

/// A tick that reports one position for each ball keeps a valid game valid,
/// and changes neither the floaters nor the selection.
pub proof fn lemma_tick_keeps_valid(game: Game, positions: Seq<Vector2>)
    requires
        game.valid(),
        positions.len() == game.world.balls.len(),
    ensures
        game.ticked(positions).valid(),
        game.ticked(positions).floaters == game.floaters,
        game.ticked(positions).selected == game.selected,
        game.ticked(positions).world.forces == Seq::<AppliedForce>::empty(),
{
    lemma_same_owners_stay_valid(game, game.ticked(positions));
}

/// The steering applies no force to a floater that has no target: none of
/// its forces names the floater's ball, so their sum for it is zero and the
/// net force on it is what it was.
pub proof fn lemma_untargeted_floater_is_inert(game: Game, i: int)
    requires
        game.valid(),
        0 <= i < game.floaters.len(),
        game.floaters[i].target is None,
    ensures
        forall|k: int|
            0 <= k < steering(game.world, game.floaters).len() ==> (#[trigger] steering(
                game.world,
                game.floaters,
            )[k]).handle != game.floaters[i].handle,
        total_force(steering(game.world, game.floaters), game.floaters[i].handle) == (0int, 0int),
        game.steered().world.net_force(game.floaters[i].handle) == game.world.net_force(
            game.floaters[i].handle,
        ),
{
    let forces = steering(game.world, game.floaters);
    let handle = game.floaters[i].handle;
    lemma_pursuits_are_floaters(game.floaters);
    assert forall|k: int| 0 <= k < forces.len() implies (#[trigger] forces[k]).handle
        != handle by {
        let pursuit = pursuits(game.floaters)[k];
        let j = choose|j: int|
            0 <= j < game.floaters.len() && (#[trigger] game.floaters[j]).handle == pursuit.0
                && game.floaters[j].target == Some(pursuit.1);
        if j < i {
            assert(game.floaters[j].handle@ != game.floaters[i].handle@);
        } else if i < j {
            assert(game.floaters[i].handle@ != game.floaters[j].handle@);
        }
    }
    lemma_total_force_ignores_others(Seq::empty(), forces, handle);
    assert(Seq::<AppliedForce>::empty() + forces =~= forces);
    lemma_total_force_ignores_others(game.world.forces, forces, handle);
}

/// The game after some frames, each one a steering and then a tick with the
/// positions that the integrator reported for it.
pub open spec fn after_frames(game: Game, reports: Seq<Seq<Vector2>>) -> Game
    decreases reports.len(),
{
    if reports.len() == 0 {
        game
    } else {
        after_frames(game, reports.drop_last()).steered().ticked(reports.last())
    }
}

/// However many frames pass and wherever the integrator puts the bodies, a
/// floater without a target stays without one, and the steering of the next
/// frame applies no force to it.
pub proof fn lemma_inert_in_every_frame(game: Game, i: int, reports: Seq<Seq<Vector2>>)
    requires
        game.valid(),
        0 <= i < game.floaters.len(),
        game.floaters[i].target is None,
        forall|r: int|
            0 <= r < reports.len() ==> (#[trigger] reports[r]).len() == game.world.balls.len(),
    ensures
        ({
            let later = after_frames(game, reports);
            &&& later.valid()
            &&& later.floaters == game.floaters
            &&& later.selected == game.selected
            &&& later.world.balls.len() == game.world.balls.len()
            &&& total_force(steering(later.world, later.floaters), game.floaters[i].handle) == (
                0int,
                0int,
            )
            &&& later.steered().world.net_force(game.floaters[i].handle) == later.world.net_force(
                game.floaters[i].handle,
            )
        }),
    decreases reports.len(),
{
    if reports.len() > 0 {
        let front = reports.drop_last();
        assert forall|r: int| 0 <= r < front.len() implies (#[trigger] front[r]).len()
            == game.world.balls.len() by {
            assert(front[r] == reports[r]);
        }
        lemma_inert_in_every_frame(game, i, front);
        let before = after_frames(game, front);
        lemma_steering_keeps_valid(before);
        assert(reports.last() == reports[reports.len() - 1]);
        lemma_tick_keeps_valid(before.steered(), reports.last());
    }
    lemma_untargeted_floater_is_inert(after_frames(game, reports), i);
}

/// The game with floater `i` told to pursue `target`.
pub open spec fn retargeted(game: Game, i: int, target: Vector2) -> Game
    recommends
        0 <= i < game.floaters.len(),
{
    Game { floaters: game.floaters.update(i, game.floaters[i].with_target(target)), ..game }
}

/// Telling a floater twice in a row to pursue the same point leaves the game,
/// and with it the steering of every later frame, as telling it once does.
pub proof fn lemma_same_target_twice(game: Game, i: int, target: Vector2)
    requires
        0 <= i < game.floaters.len(),
    ensures
        retargeted(retargeted(game, i, target), i, target) == retargeted(game, i, target),
        steering(
            retargeted(retargeted(game, i, target), i, target).world,
            retargeted(retargeted(game, i, target), i, target).floaters,
        ) == steering(retargeted(game, i, target).world, retargeted(game, i, target).floaters),
        retargeted(game, i, target).floaters[i] == game.floaters[i].with_target(target),
{
    let once = retargeted(game, i, target);
    let twice = retargeted(once, i, target);
    assert(twice.floaters =~= once.floaters);
}

} // verus!
