use vstd::prelude::*;
use crate::types::{Actor, Collision, CollisionType, WorldTile};
use crate::world::{check_collision_list, first_actor_from, lemma_first_actor_from};
use crate::actor::{undo_fits, undone};
use crate::act::texts;
use crate::text::{actor_collision_message, actor_collision_text, world_collision_message, world_collision_text};

verus! {

// ---------------------------------------------------------------------------
// Separating actors that ended up on the same cell
// ---------------------------------------------------------------------------

/// The visit of actor `i` in a separating pass. When an earlier actor `j`
/// stands on the same cell, the one with the higher moveability takes back
/// its move; on a tie both do. Returns the actors and whether they clashed.
pub open spec fn settle_visit(actors: Seq<Actor>, i: int) -> (Seq<Actor>, bool) {
    let a = actors[i];
    match first_actor_from(actors, a.x as int, a.y as int, 0) {
        Some(j) => if j == i {
            (actors, false)
        } else {
            let b = actors[j];
            if a.moveability > b.moveability {
                (actors.update(i, undone(a)), true)
            } else if a.moveability < b.moveability {
                (actors.update(j, undone(b)), true)
            } else {
                (actors.update(i, undone(a)).update(j, undone(b)), true)
            }
        },
        None => (actors, false),
    }
}

/// Whether the visit of actor `i` keeps every coordinate within `i32`.
pub open spec fn visit_fits(actors: Seq<Actor>, i: int) -> bool {
    let a = actors[i];
    match first_actor_from(actors, a.x as int, a.y as int, 0) {
        Some(j) => j != i ==> {
            let b = actors[j];
            if a.moveability > b.moveability {
                undo_fits(a)
            } else if a.moveability < b.moveability {
                undo_fits(b)
            } else {
                undo_fits(a) && undo_fits(b)
            }
        },
        None => true,
    }
}

/// The actors after the visits of actors `0 .. k` of a pass, and whether
/// none of them clashed.
pub open spec fn settle_pass_upto(actors: Seq<Actor>, k: nat) -> (Seq<Actor>, bool)
    decreases k,
{
    if k == 0 {
        (actors, true)
    } else {
        let prev = settle_pass_upto(actors, (k - 1) as nat);
        let v = settle_visit(prev.0, k - 1);
        (v.0, prev.1 && !v.1)
    }
}

/// Whether the visits of actors `0 .. k` of a pass keep coordinates within `i32`.
pub open spec fn pass_fits_upto(actors: Seq<Actor>, k: nat) -> bool
    decreases k,
{
    k == 0 || (pass_fits_upto(actors, (k - 1) as nat) && visit_fits(
        settle_pass_upto(actors, (k - 1) as nat).0,
        k - 1,
    ))
}

/// A whole separating pass over the actors, and whether it found them clean.
pub open spec fn settle_pass(actors: Seq<Actor>) -> (Seq<Actor>, bool) {
    settle_pass_upto(actors, actors.len())
}

/// Whether a whole pass keeps coordinates within `i32`.
pub open spec fn pass_fits(actors: Seq<Actor>) -> bool {
    pass_fits_upto(actors, actors.len())
}

/// The actors after `m` separating passes.
pub open spec fn settle_rounds(actors: Seq<Actor>, m: nat) -> Seq<Actor>
    decreases m,
{
    if m == 0 {
        actors
    } else {
        settle_pass(settle_rounds(actors, (m - 1) as nat)).0
    }
}

/// Whether the pass after `m` passes finds the actors clean, every pass up
/// to it keeping coordinates within `i32`.
pub open spec fn settles_within(actors: Seq<Actor>, m: nat) -> bool {
    &&& settle_pass(settle_rounds(actors, m)).1
    &&& forall|r: nat| r <= m ==> pass_fits(#[trigger] settle_rounds(actors, r))
}

/// Whether repeated separating passes come to rest (the game hangs otherwise).
pub open spec fn settles(actors: Seq<Actor>) -> bool {
    exists|m: nat| settles_within(actors, m)
}

/// A number of passes after which the actors are at rest.
pub open spec fn settle_count(actors: Seq<Actor>) -> nat {
    choose|m: nat| settles_within(actors, m)
}

/// The actors once separating passes have come to rest.
pub open spec fn settled(actors: Seq<Actor>) -> Seq<Actor> {
    settle_rounds(actors, settle_count(actors))
}

/// A visit keeps the number of actors.
proof fn lemma_visit_len(actors: Seq<Actor>, i: int)
    requires
        0 <= i < actors.len(),
    ensures
        settle_visit(actors, i).0.len() == actors.len(),
{
    let a = actors[i];
    lemma_first_actor_from(actors, a.x as int, a.y as int, 0);
}

/// A partial pass keeps the number of actors.
proof fn lemma_pass_upto_len(actors: Seq<Actor>, k: nat)
    requires
        k <= actors.len(),
    ensures
        settle_pass_upto(actors, k).0.len() == actors.len(),
    decreases k,
{
    if k > 0 {
        lemma_pass_upto_len(actors, (k - 1) as nat);
        lemma_visit_len(settle_pass_upto(actors, (k - 1) as nat).0, k - 1);
    }
}

/// A partial pass that found no clash changed nothing.
pub proof fn lemma_clean_pass_upto_unchanged(actors: Seq<Actor>, k: nat)
    requires
        k <= actors.len(),
        settle_pass_upto(actors, k).1,
    ensures
        settle_pass_upto(actors, k).0 == actors,
    decreases k,
{
    if k > 0 {
        lemma_clean_pass_upto_unchanged(actors, (k - 1) as nat);
    }
}

/// Once a pass finds the actors clean, further passes change nothing.
pub proof fn lemma_rounds_stable(actors: Seq<Actor>, m: nat, m2: nat)
    requires
        settle_pass(settle_rounds(actors, m)).1,
        m <= m2,
    ensures
        settle_rounds(actors, m2) == settle_rounds(actors, m),
    decreases m2,
{
    if m2 > m {
        lemma_rounds_stable(actors, m, (m2 - 1) as nat);
        let s = settle_rounds(actors, m);
        lemma_clean_pass_upto_unchanged(s, s.len());
    }
}

/// Fitting visits up to `k` fit up to any `j <= k`.
proof fn lemma_pass_fits_prefix(actors: Seq<Actor>, k: nat, j: nat)
    requires
        pass_fits_upto(actors, k),
        j <= k,
    ensures
        pass_fits_upto(actors, j),
    decreases k,
{
    if j < k {
        lemma_pass_fits_prefix(actors, (k - 1) as nat, j);
    }
}

/// Takes back the move of actor `i`.
fn undo_at(actors: &mut Vec<Actor>, i: usize)
    requires
        i < old(actors).len(),
        undo_fits(old(actors)@[i as int]),
    ensures
        final(actors)@ == old(actors)@.update(i as int, undone(old(actors)@[i as int])),
{
    let mut a = actors[i];
    a.undo_action();
    actors.set(i, a);
}

/// Visits actor `i`: separates it from an earlier actor on its cell.
fn settle_visit_exec(actors: &mut Vec<Actor>, world: &Vec<WorldTile>, i: usize) -> (hit: bool)
    requires
        i < old(actors).len(),
        visit_fits(old(actors)@, i as int),
    ensures
        (final(actors)@, hit) == settle_visit(old(actors)@, i as int),
{
    let a = actors[i];
    proof {
        lemma_first_actor_from(actors@, a.x as int, a.y as int, 0);
    }
    match check_collision_list(a.x, a.y, actors, world) {
        Collision::Collision(j, ctype) => {
            if i == j {
                return false;
            }
            match ctype {
                CollisionType::Actor => {
                    let ma = actors[i].moveability;
                    let mb = actors[j].moveability;
                    if ma > mb {
                        undo_at(actors, i);
                    } else if ma < mb {
                        undo_at(actors, j);
                    } else {
                        undo_at(actors, i);
                        undo_at(actors, j);
                    }
                    true
                },
                _ => false,
            }
        },
        Collision::NoCollision => false,
    }
}

/// One separating pass over all actors; tells whether it found them clean.
fn settle_pass_exec(actors: &mut Vec<Actor>, world: &Vec<WorldTile>) -> (clean: bool)
    requires
        pass_fits(old(actors)@),
    ensures
        (final(actors)@, clean) == settle_pass(old(actors)@),
{
    let ghost a0 = actors@;
    let n = actors.len();
    let mut clean = true;
    let mut i: usize = 0;
    while i < n
        invariant
            i <= n,
            n == a0.len(),
            (actors@, clean) == settle_pass_upto(a0, i as nat),
            pass_fits_upto(a0, n as nat),
        decreases n - i,
    {
        proof {
            lemma_pass_fits_prefix(a0, n as nat, (i + 1) as nat);
            lemma_pass_upto_len(a0, i as nat);
        }
        if settle_visit_exec(actors, world, i) {
            clean = false;
        }
        i = i + 1;
    }
    clean
}

// ---------------------------------------------------------------------------
// Fights
// ---------------------------------------------------------------------------

/// One logged collision (actor, what it hit, kind) taking effect. A fight
/// between two living actors costs the one hit the attacker's attack in
/// health and is logged with both healths afterwards; a fight involving a
/// dead actor is dropped; a bump into the world is only logged.
pub open spec fn resolve_step(actors: Seq<Actor>, c: (usize, usize, CollisionType)) -> (Seq<Actor>, Option<Seq<char>>) {
    match c.2 {
        CollisionType::Actor => if actors[c.0 as int].health == 0 || actors[c.1 as int].health == 0 {
            (actors, None)
        } else {
            let victim = actors[c.1 as int];
            let hurt = actors.update(
                c.1 as int,
                Actor { health: (victim.health - actors[c.0 as int].attack) as u8, ..victim },
            );
            (hurt, Some(actor_collision_text(c.0 as nat, c.1 as nat, hurt[c.0 as int].health as nat, hurt[c.1 as int].health as nat)))
        },
        CollisionType::World => (actors, Some(world_collision_text(c.0 as nat, c.1 as nat))),
    }
}

/// Whether a logged collision can take effect: the actors it names exist
/// where they are read, and the damage does not exceed the victim's health.
pub open spec fn resolve_step_fits(actors: Seq<Actor>, c: (usize, usize, CollisionType)) -> bool {
    c.2 is Actor ==> {
        &&& c.0 < actors.len()
        &&& actors[c.0 as int].health != 0 ==> {
            &&& c.1 < actors.len()
            &&& actors[c.1 as int].health != 0 ==> actors[c.0 as int].attack <= actors[c.1 as int].health
        }
    }
}

/// The actors and the log lines after the logged collisions take effect in order.
pub open spec fn resolve_all(actors: Seq<Actor>, list: Seq<(usize, usize, CollisionType)>) -> (Seq<Actor>, Seq<Seq<char>>)
    decreases list.len(),
{
    if list.len() == 0 {
        (actors, seq![])
    } else {
        let step = resolve_step(actors, list[0]);
        let rest = resolve_all(step.0, list.drop_first());
        (rest.0, match step.1 {
            Some(t) => seq![t] + rest.1,
            None => rest.1,
        })
    }
}

/// Whether each logged collision, in order, can take effect.
pub open spec fn resolve_fits(actors: Seq<Actor>, list: Seq<(usize, usize, CollisionType)>) -> bool
    decreases list.len(),
{
    list.len() == 0 || (resolve_step_fits(actors, list[0]) && resolve_fits(
        resolve_step(actors, list[0]).0,
        list.drop_first(),
    ))
}

// ---------------------------------------------------------------------------
// Removing the dead, trimming the log
// ---------------------------------------------------------------------------

/// The actors with health left, in their order.
pub open spec fn survivors(s: Seq<Actor>) -> Seq<Actor>
    decreases s.len(),
{
    if s.len() == 0 {
        s
    } else {
        let rest = survivors(s.drop_last());
        if s.last().health == 0 {
            rest
        } else {
            rest.push(s.last())
        }
    }
}

/// The last five lines of a log (all of it when it is shorter).
pub open spec fn last_five(s: Seq<Seq<char>>) -> Seq<Seq<char>> {
    if s.len() > 5 {
        s.skip(s.len() - 5)
    } else {
        s
    }
}

/// When every actor has health left, all survive.
pub proof fn lemma_survivors_all_alive(s: Seq<Actor>)
    requires
        forall|j: int| 0 <= j < s.len() ==> #[trigger] s[j].health != 0,
    ensures
        survivors(s) == s,
    decreases s.len(),
{
    if s.len() > 0 {
        lemma_survivors_all_alive(s.drop_last());
        assert(s.drop_last().push(s.last()) =~= s);
    }
}

/// Removing a dead actor does not change who survives.
pub proof fn lemma_survivors_remove_dead(s: Seq<Actor>, i: int)
    requires
        0 <= i < s.len(),
        s[i].health == 0,
    ensures
        survivors(s.remove(i)) == survivors(s),
    decreases s.len(),
{
    if i == s.len() - 1 {
        assert(s.remove(i) =~= s.drop_last());
    } else {
        let t = s.remove(i);
        assert(t.drop_last() =~= s.drop_last().remove(i));
        assert(t.last() == s.last());
        lemma_survivors_remove_dead(s.drop_last(), i);
    }
}

/// The index of the first actor without health, if any.
fn first_dead(actors: &Vec<Actor>) -> (r: Option<usize>)
    ensures
        match r {
            Some(i) => i < actors.len() && actors@[i as int].health == 0,
            None => forall|j: int| 0 <= j < actors.len() ==> #[trigger] actors@[j].health != 0,
        },
{
    let mut i: usize = 0;
    while i < actors.len()
        invariant
            i <= actors.len(),
            forall|j: int| 0 <= j < i ==> #[trigger] actors@[j].health != 0,
        decreases actors.len() - i,
    {
        if actors[i].health == 0 {
            return Some(i);
        }
        i = i + 1;
    }
    None
}

/// Ends a round: actors left on a shared cell take back their moves until
/// no two share a cell; the logged collisions then take effect in order;
/// actors without health are removed; and only the last five log lines are
/// kept.
pub fn update_world(
    world: &mut Vec<WorldTile>,
    actors: &mut Vec<Actor>,
    collision_list: &mut Vec<(usize, usize, CollisionType)>,
    debug_messages: &mut Vec<String>,
)
    requires
        settles(old(actors)@),
        resolve_fits(settled(old(actors)@), old(collision_list)@),
    ensures
        final(world)@ == old(world)@,
        final(actors)@ == survivors(resolve_all(settled(old(actors)@), old(collision_list)@).0),
        final(collision_list)@ == Seq::<(usize, usize, CollisionType)>::empty(),
        texts(final(debug_messages)@) == last_five(
            texts(old(debug_messages)@) + resolve_all(settled(old(actors)@), old(collision_list)@).1,
        ),
{
    // Separate actors that share a cell.
    let ghost a0 = actors@;
    let ghost k0 = settle_count(a0);
    let ghost mut r: nat = 0;
    loop
        invariant_except_break
            actors@ == settle_rounds(a0, r),
            r <= k0,
            k0 == settle_count(a0),
            settles_within(a0, k0),
        ensures
            actors@ == settled(a0),
        decreases k0 - r,
    {
        assert(pass_fits(settle_rounds(a0, r)));
        let clean = settle_pass_exec(actors, world);
        if clean {
            proof {
                let s = settle_rounds(a0, r);
                lemma_clean_pass_upto_unchanged(s, s.len());
                lemma_rounds_stable(a0, r, k0);
            }
            break;
        }
        proof {
            r = r + 1;
        }
    }

    // Let the logged collisions take effect.
    let ghost a1 = actors@;
    let ghost l0 = collision_list@;
    let ghost m0 = texts(debug_messages@);
    while collision_list.len() > 0
        invariant
            resolve_fits(actors@, collision_list@),
            resolve_all(actors@, collision_list@).0 == resolve_all(a1, l0).0,
            texts(debug_messages@) + resolve_all(actors@, collision_list@).1 == m0 + resolve_all(a1, l0).1,
        decreases collision_list.len(),
    {
        let c = collision_list[0];
        let ghost before = texts(debug_messages@);
        let ghost rest = collision_list@.drop_first();
        match c.2 {
            CollisionType::Actor => {
                if actors[c.0].health == 0 || actors[c.1].health == 0 {
                    collision_list.remove(0);
                    assert(collision_list@ =~= rest);
                } else {
                    let attack = actors[c.0].attack;
                    let mut victim = actors[c.1];
                    victim.health = victim.health - attack;
                    actors.set(c.1, victim);
                    let line = actor_collision_message(c.0, c.1, actors[c.0].health, actors[c.1].health);
                    debug_messages.push(line);
                    collision_list.remove(0);
                    assert(collision_list@ =~= rest);
                    assert(texts(debug_messages@) =~= before.push(line@));
                    assert(texts(debug_messages@) + resolve_all(actors@, rest).1 =~= before + (seq![line@] + resolve_all(actors@, rest).1));
                }
            },
            CollisionType::World => {
                let line = world_collision_message(c.0, c.1);
                debug_messages.push(line);
                collision_list.remove(0);
                assert(collision_list@ =~= rest);
                assert(texts(debug_messages@) =~= before.push(line@));
                assert(texts(debug_messages@) + resolve_all(actors@, rest).1 =~= before + (seq![line@] + resolve_all(actors@, rest).1));
            },
        }
    }
    assert(texts(debug_messages@) =~= m0 + resolve_all(a1, l0).1);

    // Remove the actors without health.
    let ghost a2 = actors@;
    loop
        invariant_except_break
            survivors(actors@) == survivors(a2),
        ensures
            actors@ == survivors(a2),
        decreases actors.len(),
    {
        match first_dead(actors) {
            Some(i) => {
                proof {
                    lemma_survivors_remove_dead(actors@, i as int);
                }
                actors.remove(i);
            },
            None => {
                proof {
                    lemma_survivors_all_alive(actors@);
                }
                break;
            },
        }
    }

    // Keep the last five log lines.
    let ghost full = texts(debug_messages@);
    while debug_messages.len() > 5
        invariant
            last_five(texts(debug_messages@)) == last_five(full),
        decreases debug_messages.len(),
    {
        let ghost cur = texts(debug_messages@);
        debug_messages.remove(0);
        assert(texts(debug_messages@) =~= cur.drop_first());
        assert(cur.drop_first().skip(cur.len() - 1 - 5) =~= cur.skip(cur.len() - 5));
    }
}

} // verus!
