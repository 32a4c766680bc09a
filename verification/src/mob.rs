//! Mobs: timer-gated spawning, "seek the player" steering, and the periodic
//! nearest-target scan.
//!
//! The selector runs on its own repeating timer. Each cycle it clears every
//! mob's nearest tag, finds the mob with the smallest squared distance to the
//! player (the first one in iteration order on an exact tie), and tags it
//! again only if that distance is within `MAX_TARGET_DISTANCE`. At most one
//! mob ever carries the tag, and a cycle with every mob out of range leaves
//! no tag at all.

use crate::math::{
    distance_squared, normalize_scaled, spec_distance_squared, steer_component, Position, Velocity,
};
use crate::timer::{FrameTimer, TimerMode};
use vstd::prelude::*;

verus! {

/// Units per second at which a mob chases the player.
pub const MOB_SPEED: u64 = 150;

/// Distance from the player at which new mobs appear, in world units.
pub const SPAWN_RADIUS: i32 = 1000;

/// A mob farther from the player than this is never tagged as nearest.
pub const MAX_TARGET_DISTANCE: u64 = 500;

/// Squared form of `MAX_TARGET_DISTANCE`, for comparison without a root.
pub const MAX_TARGET_DISTANCE_SQUARED: u64 = 500 * 500;

/// The most mobs the spawner keeps alive at once.
pub const MOB_CAP: u32 = 3;

/// Milliseconds between two spawn attempts.
pub const MOB_SPAWN_INTERVAL_MS: u64 = 300;

/// Milliseconds between two nearest-target scans.
pub const TARGETTING_INTERVAL_MS: u64 = 500;

/// One enemy: where it is, how it moves, and whether the last scan found it
/// to be the nearest mob in range of the player.
#[derive(Clone, Copy, PartialEq, Eq, Structural, Debug)]
pub struct Mob {
    pub position: Position,
    pub velocity: Velocity,
    pub nearest: bool,
}

/// The countdown between spawn attempts.
#[derive(Clone, Copy, PartialEq, Eq, Structural, Debug)]
pub struct MobTimer(pub FrameTimer);

/// The countdown between nearest-target scans.
#[derive(Clone, Copy, PartialEq, Eq, Structural, Debug)]
pub struct TargettingTimer(pub FrameTimer);

/// How many mobs have been spawned and are counted against `MOB_CAP`.
/// Nothing in this prototype despawns a mob, so the count never falls.
#[derive(Clone, Copy, PartialEq, Eq, Structural, Debug)]
pub struct MobCount(pub u32);

/// The initial mob state: no mobs counted, both timers fresh and repeating.
pub fn setup() -> (r: (MobCount, MobTimer, TargettingTimer))
    ensures
        r.0 == (MobCount(0)),
        r.1.0 == (FrameTimer {
            duration_ms: MOB_SPAWN_INTERVAL_MS,
            elapsed_ms: 0,
            mode: TimerMode::Repeating,
            finished_this_tick: false,
        }),
        r.2.0 == (FrameTimer {
            duration_ms: TARGETTING_INTERVAL_MS,
            elapsed_ms: 0,
            mode: TimerMode::Repeating,
            finished_this_tick: false,
        }),
{
    (
        MobCount(0),
        MobTimer(FrameTimer::new(MOB_SPAWN_INTERVAL_MS, TimerMode::Repeating)),
        TargettingTimer(FrameTimer::new(TARGETTING_INTERVAL_MS, TimerMode::Repeating)),
    )
}

/// Decide whether this frame spawns a mob, and where.
///
/// Ticks the spawn timer by `delta_ms`. When the countdown completes, fewer
/// than `MOB_CAP` mobs are counted, and a player exists, one new mob appears
/// displaced by `(offset_x, offset_y)` from the player — the host picks that
/// displacement on the spawn circle — with zero velocity and no tag, and the
/// count rises by one. Otherwise nothing spawns and the count is unchanged.
pub fn spawn_mobs(
    timer: &mut MobTimer,
    count: &mut MobCount,
    delta_ms: u64,
    player: Option<Position>,
    offset_x: i32,
    offset_y: i32,
) -> (spawned: Option<Mob>)
    requires
        old(timer).0.wf(),
        -SPAWN_RADIUS <= offset_x <= SPAWN_RADIUS,
        -SPAWN_RADIUS <= offset_y <= SPAWN_RADIUS,
        player matches Some(p) ==> i32::MIN <= p.x + offset_x <= i32::MAX && i32::MIN <= p.y
            + offset_y <= i32::MAX,
    ensures
        final(timer).0 == old(timer).0.spec_tick(delta_ms),
        ({
            let fired = old(timer).0.spec_tick(delta_ms).finished_this_tick;
            &&& (match player {
                Some(p) => {
                    if fired && old(count).0 < MOB_CAP {
                        &&& spawned == Some(
                            Mob {
                                position: Position {
                                    x: (p.x + offset_x) as i32,
                                    y: (p.y + offset_y) as i32,
                                },
                                velocity: Velocity { x: 0, y: 0 },
                                nearest: false,
                            },
                        )
                        &&& final(count).0 == old(count).0 + 1
                    } else {
                        spawned is None && *final(count) == *old(count)
                    }
                },
                None => spawned is None && *final(count) == *old(count),
            })
        }),
{
    timer.0.tick(delta_ms);
    if timer.0.just_finished() && count.0 < MOB_CAP {
        if let Some(p) = player {
            let position = Position { x: p.x + offset_x, y: p.y + offset_y };
            count.0 = count.0 + 1;
            return Some(Mob { position, velocity: Velocity::zero(), nearest: false });
        }
    }
    None
}

/// The steering velocity of a mob chasing the player: the unit vector from
/// the mob toward the player scaled to `MOB_SPEED`, in fixed point; the zero
/// vector when the two coincide.
pub open spec fn spec_steer(player: Position, mob: Position) -> Velocity {
    Velocity {
        x: steer_component(
            player.x - mob.x,
            player.x - mob.x,
            player.y - mob.y,
            MOB_SPEED as int,
        ) as i64,
        y: steer_component(
            player.y - mob.y,
            player.x - mob.x,
            player.y - mob.y,
            MOB_SPEED as int,
        ) as i64,
    }
}

/// Zero-vector guard: a mob exactly coincident with the player gets the zero
/// steering velocity, never an invalid direction.
pub proof fn lemma_zero_vector_guard(player: Position)
    ensures
        spec_steer(player, player) == (Velocity { x: 0, y: 0 }),
{
}

/// Point every mob's velocity at the player.
///
/// With no player present nothing moves differently: every mob is left
/// untouched. Positions and nearest tags are never changed here.
pub fn mob_movement(player: Option<Position>, mobs: &mut Vec<Mob>)
    ensures
        player is None ==> *final(mobs) == *old(mobs),
        ({
            match player {
                Some(p) => {
                    &&& final(mobs)@.len() == old(mobs)@.len()
                    &&& forall|i: int|
                        0 <= i < old(mobs)@.len() ==> #[trigger] final(mobs)@[i] == (Mob {
                            velocity: spec_steer(p, old(mobs)@[i].position),
                            ..old(mobs)@[i]
                        })
                },
                None => true,
            }
        }),
{
    if let Some(p) = player {
        let n = mobs.len();
        let mut i: usize = 0;
        while i < n
            invariant
                i <= n,
                n == mobs@.len() == old(mobs)@.len(),
                forall|j: int|
                    0 <= j < i ==> #[trigger] mobs@[j] == (Mob {
                        velocity: spec_steer(p, old(mobs)@[j].position),
                        ..old(mobs)@[j]
                    }),
                forall|j: int| i <= j < n ==> #[trigger] mobs@[j] == old(mobs)@[j],
            decreases n - i,
        {
            let dx: i64 = p.x as i64 - mobs[i].position.x as i64;
            let dy: i64 = p.y as i64 - mobs[i].position.y as i64;
            let v = normalize_scaled(dx, dy, MOB_SPEED);
            let m = &mut mobs[i];
            m.velocity = v;
            i = i + 1;
        }
    }
}

/// Index `i` holds the mob the selector picks: strictly closer to the player
/// than every mob before it in iteration order, and at least as close as
/// every mob from it onward — the "first strict minimum" of the squared
/// distances.
pub open spec fn is_nearest(mobs: Seq<Mob>, player: Position, i: int) -> bool {
    &&& 0 <= i < mobs.len()
    &&& forall|j: int|
        0 <= j < i ==> spec_distance_squared(player, mobs[i].position) < #[trigger] spec_distance_squared(
            player,
            mobs[j].position,
        )
    &&& forall|j: int|
        i <= j < mobs.len() ==> spec_distance_squared(player, mobs[i].position)
            <= #[trigger] spec_distance_squared(player, mobs[j].position)
}

/// How many mobs of the sequence carry the nearest tag.
pub open spec fn count_nearest(mobs: Seq<Mob>) -> int
    decreases mobs.len(),
{
    if mobs.len() == 0 {
        0
    } else {
        count_nearest(mobs.drop_last()) + if mobs.last().nearest {
            1int
        } else {
            0int
        }
    }
}

/// Only one index of a mob sequence can be the selector's pick.
pub proof fn lemma_nearest_unique(mobs: Seq<Mob>, player: Position, i: int, j: int)
    requires
        is_nearest(mobs, player, i),
        is_nearest(mobs, player, j),
    ensures
        i == j,
{
    if i < j {
        assert(spec_distance_squared(player, mobs[j].position) < spec_distance_squared(
            player,
            mobs[i].position,
        ));
        assert(spec_distance_squared(player, mobs[i].position) <= spec_distance_squared(
            player,
            mobs[j].position,
        ));
    }
    if j < i {
        assert(spec_distance_squared(player, mobs[i].position) < spec_distance_squared(
            player,
            mobs[j].position,
        ));
        assert(spec_distance_squared(player, mobs[j].position) <= spec_distance_squared(
            player,
            mobs[i].position,
        ));
    }
}

/// Tie-break determinism: of two mobs at exactly equal squared distance, the
/// later one in iteration order is never picked, so the earlier wins.
pub proof fn lemma_tie_break_earlier(mobs: Seq<Mob>, player: Position, i: int, j: int)
    requires
        0 <= i < j < mobs.len(),
        spec_distance_squared(player, mobs[i].position) == spec_distance_squared(
            player,
            mobs[j].position,
        ),
    ensures
        !is_nearest(mobs, player, j),
{
}

/// Whether an index is the selector's pick depends only on the positions,
/// not on the tags or velocities beside them.
proof fn lemma_nearest_same_positions(a: Seq<Mob>, b: Seq<Mob>, player: Position, i: int)
    requires
        a.len() == b.len(),
        forall|k: int| 0 <= k < a.len() ==> (#[trigger] a[k].position) == b[k].position,
        is_nearest(a, player, i),
    ensures
        is_nearest(b, player, i),
{
    assert forall|j: int| 0 <= j < i implies spec_distance_squared(player, b[i].position)
        < #[trigger] spec_distance_squared(player, b[j].position) by {
        assert(a[j].position == b[j].position);
        assert(a[i].position == b[i].position);
    }
    assert forall|j: int| i <= j < b.len() implies spec_distance_squared(player, b[i].position)
        <= #[trigger] spec_distance_squared(player, b[j].position) by {
        assert(a[j].position == b[j].position);
        assert(a[i].position == b[i].position);
    }
}

/// A sequence without a tagged mob counts zero tags.
proof fn lemma_count_nearest_zero(mobs: Seq<Mob>)
    requires
        forall|i: int| 0 <= i < mobs.len() ==> !(#[trigger] mobs[i].nearest),
    ensures
        count_nearest(mobs) == 0,
    decreases mobs.len(),
{
    if mobs.len() > 0 {
        lemma_count_nearest_zero(mobs.drop_last());
    }
}

/// A sequence whose tags all sit at one index counts at most one tag.
proof fn lemma_count_nearest_at_most_one(mobs: Seq<Mob>, w: int)
    requires
        forall|i: int| 0 <= i < mobs.len() && (#[trigger] mobs[i].nearest) ==> i == w,
    ensures
        count_nearest(mobs) <= 1,
    decreases mobs.len(),
{
    if mobs.len() > 0 {
        if w == mobs.len() - 1 {
            lemma_count_nearest_zero(mobs.drop_last());
        } else {
            lemma_count_nearest_at_most_one(mobs.drop_last(), w);
        }
    }
}

/// At-most-one nearest: if every tag in a sequence marks a selector's pick,
/// the sequence carries 0 or 1 tags, never more.
pub proof fn lemma_at_most_one_nearest(mobs: Seq<Mob>, player: Position)
    requires
        forall|i: int|
            0 <= i < mobs.len() && (#[trigger] mobs[i].nearest) ==> is_nearest(mobs, player, i),
    ensures
        count_nearest(mobs) <= 1,
{
    if exists|i: int| 0 <= i < mobs.len() && (#[trigger] mobs[i].nearest) {
        let w = choose|i: int| 0 <= i < mobs.len() && (#[trigger] mobs[i].nearest);
        assert forall|i: int| 0 <= i < mobs.len() && (#[trigger] mobs[i].nearest) implies i
            == w by {
            lemma_nearest_unique(mobs, player, i, w);
        }
        lemma_count_nearest_at_most_one(mobs, w);
    } else {
        lemma_count_nearest_zero(mobs);
    }
}

/// Radius cutoff: a cycle over mobs that are all strictly farther than the
/// radius tags nothing, whatever their relative order.
pub proof fn lemma_radius_cutoff(mobs: Seq<Mob>, player: Position)
    requires
        forall|i: int|
            0 <= i < mobs.len() ==> ((#[trigger] mobs[i].nearest) <==> is_nearest(
                mobs,
                player,
                i,
            ) && spec_distance_squared(player, mobs[i].position) <= MAX_TARGET_DISTANCE_SQUARED),
        forall|i: int|
            0 <= i < mobs.len() ==> #[trigger] spec_distance_squared(player, mobs[i].position)
                > MAX_TARGET_DISTANCE_SQUARED,
    ensures
        count_nearest(mobs) == 0,
{
    lemma_count_nearest_zero(mobs);
}

/// Find the mob the selector picks: the first strict minimum of squared
/// distance to the player, over all mobs, in iteration order.
pub fn nearest_mob(player: Position, mobs: &Vec<Mob>) -> (r: Option<usize>)
    ensures
        r is None <==> mobs@.len() == 0,
        r matches Some(i) ==> is_nearest(mobs@, player, i as int),
{
    if mobs.len() == 0 {
        return None;
    }
    let mut best_i: usize = 0;
    let mut best_d: u128 = distance_squared(player, mobs[0].position);
    let mut j: usize = 1;
    while j < mobs.len()
        invariant
            1 <= j <= mobs@.len(),
            best_i < j,
            best_d == spec_distance_squared(player, mobs@[best_i as int].position),
            forall|k: int|
                0 <= k < best_i ==> best_d < #[trigger] spec_distance_squared(
                    player,
                    mobs@[k].position,
                ),
            forall|k: int|
                best_i <= k < j ==> best_d <= #[trigger] spec_distance_squared(
                    player,
                    mobs@[k].position,
                ),
        decreases mobs@.len() - j,
    {
        let d = distance_squared(player, mobs[j].position);
        if d < best_d {
            best_d = d;
            best_i = j;
        }
        j = j + 1;
    }
    Some(best_i)
}

/// Rescan for the nearest mob, if this frame completes the scan countdown.
///
/// Ticks the targetting timer by `delta_ms`. When it completes and a player
/// exists, every mob's tag is cleared and the selector's pick — first strict
/// minimum of squared distance, in iteration order — is tagged again only if
/// it lies within `MAX_TARGET_DISTANCE` of the player. Without a completion
/// or without a player, the mobs are left exactly as they were. Positions
/// and velocities are never changed, and after a cycle at most one mob
/// carries the tag.
pub fn target_nearest_mob(
    timer: &mut TargettingTimer,
    delta_ms: u64,
    player: Option<Position>,
    mobs: &mut Vec<Mob>,
)
    requires
        old(timer).0.wf(),
    ensures
        final(timer).0 == old(timer).0.spec_tick(delta_ms),
        !old(timer).0.spec_tick(delta_ms).finished_this_tick || player is None ==> *final(mobs)
            == *old(mobs),
        ({
            let fired = old(timer).0.spec_tick(delta_ms).finished_this_tick;
            match player {
                Some(p) => fired ==> {
                    &&& final(mobs)@.len() == old(mobs)@.len()
                    &&& forall|i: int|
                        0 <= i < old(mobs)@.len() ==> #[trigger] final(mobs)@[i] == (Mob {
                            nearest: is_nearest(old(mobs)@, p, i) && spec_distance_squared(
                                p,
                                old(mobs)@[i].position,
                            ) <= MAX_TARGET_DISTANCE_SQUARED,
                            ..old(mobs)@[i]
                        })
                    &&& forall|i: int|
                        0 <= i < final(mobs)@.len() ==> ((#[trigger] final(mobs)@[i].nearest)
                            <==> is_nearest(final(mobs)@, p, i) && spec_distance_squared(
                            p,
                            final(mobs)@[i].position,
                        ) <= MAX_TARGET_DISTANCE_SQUARED)
                    &&& count_nearest(final(mobs)@) <= 1
                },
                None => true,
            }
        }),
{
    timer.0.tick(delta_ms);
    if timer.0.just_finished() {
        if let Some(p) = player {
            let n = mobs.len();
            let mut closest: Option<usize> = None;
            let mut closest_d: u128 = 0;
            let mut i: usize = 0;
            while i < n
                invariant
                    i <= n,
                    n == mobs@.len() == old(mobs)@.len(),
                    forall|j: int|
                        0 <= j < i ==> #[trigger] mobs@[j] == (Mob {
                            nearest: false,
                            ..old(mobs)@[j]
                        }),
                    forall|j: int| i <= j < n ==> #[trigger] mobs@[j] == old(mobs)@[j],
                    closest is None <==> i == 0,
                    ({
                        match closest {
                            Some(ci) => {
                                &&& ci < i
                                &&& closest_d == spec_distance_squared(
                                    p,
                                    old(mobs)@[ci as int].position,
                                )
                                &&& forall|k: int|
                                    0 <= k < ci ==> closest_d < #[trigger] spec_distance_squared(
                                        p,
                                        old(mobs)@[k].position,
                                    )
                                &&& forall|k: int|
                                    ci <= k < i ==> closest_d <= #[trigger] spec_distance_squared(
                                        p,
                                        old(mobs)@[k].position,
                                    )
                            },
                            None => true,
                        }
                    }),
                decreases n - i,
            {
                let d = distance_squared(p, mobs[i].position);
                let m = &mut mobs[i];
                m.nearest = false;
                let take = match closest {
                    None => true,
                    Some(_) => d < closest_d,
                };
                if take {
                    closest = Some(i);
                    closest_d = d;
                }
                i = i + 1;
            }
            if closest_d <= MAX_TARGET_DISTANCE_SQUARED as u128 {
                if let Some(ci) = closest {
                    proof {
                        assert(is_nearest(old(mobs)@, p, ci as int));
                    }
                    let m = &mut mobs[ci];
                    m.nearest = true;
                }
            }
            proof {
                assert forall|i_: int|
                    0 <= i_ < old(mobs)@.len() implies ((#[trigger] mobs@[i_].nearest)
                    <==> is_nearest(mobs@, p, i_) && spec_distance_squared(p, mobs@[i_].position)
                    <= MAX_TARGET_DISTANCE_SQUARED) by {
                    if mobs@[i_].nearest {
                        lemma_nearest_same_positions(old(mobs)@, mobs@, p, i_);
                    }
                    if is_nearest(mobs@, p, i_) {
                        lemma_nearest_same_positions(mobs@, old(mobs)@, p, i_);
                    }
                }
                lemma_at_most_one_nearest(mobs@, p);
            }
        }
    }
}

} // verus!
