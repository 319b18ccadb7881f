//! Turning a delta-encoded tracker event stream into per-frame snapshots of
//! each player's economy and army.

use vstd::prelude::*;

verus! {

/// The largest supply a player can have.
pub const SUPPLY_CAP_LIMIT: i32 = 200;

/// The economy figures that a player-stats event carries.
#[derive(Clone, Copy, Debug, PartialEq, Eq, Structural)]
pub struct PlayerStats {
    pub player_id: u8,
    pub minerals_current: i32,
    pub vespene_current: i32,
    pub food_used: i32,
    pub food_made: i32,
    pub minerals_used_active_forces: i32,
    pub vespene_used_active_forces: i32,
}

/// What a tracker event reports, as far as this library reads it.
#[derive(Clone, Copy, Debug, PartialEq, Eq, Structural)]
pub enum TrackerEventKind {
    PlayerStats(PlayerStats),
    UnitInit,
    Other,
}

/// A tracker event: the frames elapsed since the previous event, and what it
/// reports.
#[derive(Clone, Copy, Debug, PartialEq, Eq, Structural)]
pub struct TrackerEvent {
    pub delta: u32,
    pub event: TrackerEventKind,
}

/// A player's economy and army at an absolute frame.
#[derive(Clone, Copy, Debug, PartialEq, Eq, Structural)]
pub struct GameSnapshot {
    pub frame: u32,
    pub user_id: u8,
    pub minerals: i32,
    pub vespene: i32,
    pub supply_available: i32,
    pub supply_used: i32,
    pub active_force_minerals: i32,
    pub active_force_vespene: i32,
}

/// The sum of the deltas of a sequence of events: the absolute frame of its
/// last event.
pub open spec fn total_delta(events: Seq<TrackerEvent>) -> int
    decreases events.len(),
{
    if events.len() == 0 {
        0
    } else {
        total_delta(events.drop_last()) + events.last().delta
    }
}

pub open spec fn is_player_stats(e: TrackerEvent) -> bool {
    e.event is PlayerStats
}

/// How many of the events are player-stats events.
pub open spec fn player_stats_count(events: Seq<TrackerEvent>) -> nat
    decreases events.len(),
{
    if events.len() == 0 {
        0
    } else {
        player_stats_count(events.drop_last()) + if is_player_stats(events.last()) {
            1nat
        } else {
            0nat
        }
    }
}

/// The snapshot that a player-stats event taken at an absolute frame yields.
pub open spec fn snapshot_of(s: PlayerStats, frame: u32) -> GameSnapshot {
    GameSnapshot {
        frame,
        user_id: s.player_id,
        minerals: s.minerals_current,
        vespene: s.vespene_current,
        supply_available: if s.food_made < SUPPLY_CAP_LIMIT {
            s.food_made
        } else {
            SUPPLY_CAP_LIMIT
        },
        supply_used: s.food_used,
        active_force_minerals: s.minerals_used_active_forces,
        active_force_vespene: s.vespene_used_active_forces,
    }
}

/// The snapshots of an event sequence: one for each player-stats event, in
/// order, at the absolute frame of that event.
pub open spec fn snapshots_of(events: Seq<TrackerEvent>) -> Seq<GameSnapshot>
    decreases events.len(),
{
    if events.len() == 0 {
        Seq::empty()
    } else {
        let earlier = snapshots_of(events.drop_last());
        match events.last().event {
            TrackerEventKind::PlayerStats(s) => earlier.push(
                snapshot_of(s, total_delta(events) as u32),
            ),
            _ => earlier,
        }
    }
}

proof fn lemma_total_delta_prefix(events: Seq<TrackerEvent>, i: int)
    requires
        0 <= i <= events.len(),
    ensures
        0 <= total_delta(events.take(i)) <= total_delta(events),
    decreases events.len(),
{
    if events.len() > 0 {
        if i == events.len() {
            assert(events.take(i) =~= events);
            lemma_total_delta_prefix(events.drop_last(), i - 1);
        } else {
            lemma_total_delta_prefix(events.drop_last(), i);
            assert(events.drop_last().take(i) =~= events.take(i));
        }
    }
}

/// Turns the event stream into snapshots: the running frame counter grows by
/// each event's delta before the event is looked at, and each player-stats
/// event yields one snapshot at that frame, with the supply cap clamped to
/// the engine's ceiling. Other events only move the counter.
pub fn extract_game_snapshots(tracker_events: Vec<TrackerEvent>) -> (r: Vec<GameSnapshot>)
    requires
        total_delta(tracker_events@) <= u32::MAX,
    ensures
        r@ == snapshots_of(tracker_events@),
{
    let mut frame: u32 = 0;
    let mut snapshots: Vec<GameSnapshot> = Vec::new();
    let n = tracker_events.len();
    let mut i: usize = 0;
    while i < n
        invariant
            n == tracker_events@.len(),
            i <= n,
            frame as int == total_delta(tracker_events@.take(i as int)),
            snapshots@ == snapshots_of(tracker_events@.take(i as int)),
            total_delta(tracker_events@) <= u32::MAX,
        decreases n - i,
    {
        let event = tracker_events[i];
        proof {
            let next = tracker_events@.take(i + 1);
            assert(next.drop_last() =~= tracker_events@.take(i as int));
            lemma_total_delta_prefix(tracker_events@, i + 1);
        }
        frame = frame + event.delta;
        match event.event {
            TrackerEventKind::PlayerStats(player_stats) => {
                let supply_available = if player_stats.food_made < SUPPLY_CAP_LIMIT {
                    player_stats.food_made
                } else {
                    SUPPLY_CAP_LIMIT
                };
                snapshots.push(
                    GameSnapshot {
                        frame,
                        user_id: player_stats.player_id,
                        minerals: player_stats.minerals_current,
                        vespene: player_stats.vespene_current,
                        supply_available,
                        supply_used: player_stats.food_used,
                        active_force_minerals: player_stats.minerals_used_active_forces,
                        active_force_vespene: player_stats.vespene_used_active_forces,
                    },
                );
            },
            _ => {},
        }
        i = i + 1;
    }
    assert(tracker_events@.take(n as int) =~= tracker_events@);
    snapshots
}

/// Extraction yields one snapshot for each player-stats event and none for
/// any other event, so never more snapshots than events.
pub proof fn lemma_snapshot_count(events: Seq<TrackerEvent>)
    ensures
        snapshots_of(events).len() == player_stats_count(events),
        player_stats_count(events) <= events.len(),
    decreases events.len(),
{
    if events.len() > 0 {
        lemma_snapshot_count(events.drop_last());
    }
}

proof fn lemma_count_step(events: Seq<TrackerEvent>, i: int)
    requires
        0 <= i < events.len(),
    ensures
        player_stats_count(events.take(i + 1)) == player_stats_count(events.take(i)) + if is_player_stats(events[i]) {
            1nat
        } else {
            0nat
        },
{
    assert(events.take(i + 1).drop_last() =~= events.take(i));
}

proof fn lemma_count_monotone(events: Seq<TrackerEvent>, i: int, j: int)
    requires
        0 <= i <= j <= events.len(),
    ensures
        player_stats_count(events.take(i)) <= player_stats_count(events.take(j)),
    decreases j - i,
{
    if i < j {
        lemma_count_step(events, j - 1);
        lemma_count_monotone(events, i, j - 1);
    }
}

/// The snapshot that the player-stats event at position `i` yields stands
/// after the snapshots of the player-stats events before it, and its frame is
/// the sum of the deltas from the start of the stream up to and including
/// that event.
pub proof fn lemma_snapshot_frame(events: Seq<TrackerEvent>, i: int)
    requires
        0 <= i < events.len(),
        is_player_stats(events[i]),
        total_delta(events) <= u32::MAX,
    ensures
        player_stats_count(events.take(i)) < snapshots_of(events).len(),
        snapshots_of(events)[player_stats_count(events.take(i)) as int].frame == total_delta(
            events.take(i + 1),
        ),
    decreases events.len(),
{
    let last = events.len() - 1;
    let front = events.drop_last();
    lemma_snapshot_count(front);
    lemma_snapshot_count(events);
    lemma_total_delta_prefix(events, last);
    if i == last {
        assert(events.take(i) =~= front);
        assert(events.take(i + 1) =~= events);
    } else {
        assert(front.take(i) =~= events.take(i));
        assert(front.take(i + 1) =~= events.take(i + 1));
        assert(front[i] == events[i]);
        lemma_snapshot_frame(front, i);
    }
}

/// Every snapshot's supply cap is at most the engine's ceiling, whatever the
/// event reported.
pub proof fn lemma_supply_capped(events: Seq<TrackerEvent>)
    ensures
        forall|k: int|
            0 <= k < snapshots_of(events).len() ==> #[trigger] snapshots_of(events)[k].supply_available
                <= SUPPLY_CAP_LIMIT,
    decreases events.len(),
{
    if events.len() > 0 {
        let earlier = snapshots_of(events.drop_last());
        lemma_supply_capped(events.drop_last());
        assert forall|k: int| 0 <= k < snapshots_of(events).len() implies #[trigger] snapshots_of(
            events,
        )[k].supply_available <= SUPPLY_CAP_LIMIT by {
            if k < earlier.len() {
                assert(earlier[k].supply_available <= SUPPLY_CAP_LIMIT);
            }
        }
    }
}

/// Extraction is a function of its input: two runs on the same events give
/// the same snapshots.
pub proof fn lemma_extract_repeatable(
    events: Seq<TrackerEvent>,
    first: Seq<GameSnapshot>,
    second: Seq<GameSnapshot>,
)
    requires
        first == snapshots_of(events),
        second == snapshots_of(events),
    ensures
        first == second,
{
}

} // verus!
