use sc2_replay_view::timeline::{
    extract_game_snapshots, GameSnapshot, PlayerStats, TrackerEvent, TrackerEventKind,
};

fn stats(player_id: u8, minerals: i32, food_made: i32) -> PlayerStats {
    PlayerStats {
        player_id,
        minerals_current: minerals,
        vespene_current: 10,
        food_used: 12,
        food_made,
        minerals_used_active_forces: 300,
        vespene_used_active_forces: 150,
    }
}

fn stats_event(delta: u32, s: PlayerStats) -> TrackerEvent {
    TrackerEvent { delta, event: TrackerEventKind::PlayerStats(s) }
}

fn other(delta: u32) -> TrackerEvent {
    TrackerEvent { delta, event: TrackerEventKind::Other }
}

#[test]
fn two_snapshots_at_frame_eight() {
    let events = vec![other(5), stats_event(3, stats(1, 50, 100)), stats_event(0, stats(2, 75, 250))];
    let snaps = extract_game_snapshots(events);
    assert_eq!(snaps.len(), 2);
    assert_eq!(
        snaps[0],
        GameSnapshot {
            frame: 8,
            user_id: 1,
            minerals: 50,
            vespene: 10,
            supply_available: 100,
            supply_used: 12,
            active_force_minerals: 300,
            active_force_vespene: 150,
        }
    );
    assert_eq!(snaps[1].frame, 8);
    assert_eq!(snaps[1].user_id, 2);
    assert_eq!(snaps[1].minerals, 75);
    assert_eq!(snaps[1].supply_available, 200);
}

#[test]
fn empty_stream_gives_no_snapshots() {
    assert!(extract_game_snapshots(Vec::new()).is_empty());
}

#[test]
fn other_events_only_move_the_frame() {
    let events = vec![
        other(7),
        TrackerEvent { delta: 4, event: TrackerEventKind::UnitInit },
        other(0),
        stats_event(1, stats(3, 1, 1)),
    ];
    let snaps = extract_game_snapshots(events);
    assert_eq!(snaps.len(), 1);
    assert_eq!(snaps[0].frame, 12);
    assert_eq!(snaps[0].user_id, 3);
}

#[test]
fn count_and_frames_follow_the_deltas() {
    let deltas = [0u32, 16, 3, 160, 0, 1, 999];
    let mut events = Vec::new();
    let mut expected_frames = Vec::new();
    let mut total = 0u32;
    for (i, d) in deltas.iter().enumerate() {
        total += d;
        if i % 2 == 1 {
            events.push(stats_event(*d, stats(i as u8, i as i32, 0)));
            expected_frames.push(total);
        } else {
            events.push(other(*d));
        }
    }
    let snaps = extract_game_snapshots(events.clone());
    assert!(snaps.len() <= events.len());
    assert_eq!(snaps.len(), 3);
    let frames: Vec<u32> = snaps.iter().map(|s| s.frame).collect();
    assert_eq!(frames, expected_frames);
    assert_eq!(frames, vec![16, 179, 180]);
    let ids: Vec<u8> = snaps.iter().map(|s| s.user_id).collect();
    assert_eq!(ids, vec![1, 3, 5]);
}

#[test]
fn supply_cap_is_clamped() {
    let events = vec![
        stats_event(1, stats(1, 0, 200)),
        stats_event(1, stats(1, 0, 201)),
        stats_event(1, stats(1, 0, i32::MAX)),
        stats_event(1, stats(1, 0, -5)),
        stats_event(1, stats(1, 0, i32::MIN)),
        stats_event(1, stats(1, 0, 199)),
    ];
    let caps: Vec<i32> = extract_game_snapshots(events).iter().map(|s| s.supply_available).collect();
    assert_eq!(caps, vec![200, 200, 200, -5, i32::MIN, 199]);
    assert!(caps.iter().all(|c| *c <= 200));
}

#[test]
fn extraction_is_repeatable() {
    let events = vec![other(2), stats_event(9, stats(1, 5, 300)), other(1), stats_event(2, stats(2, 6, 7))];
    let first = extract_game_snapshots(events.clone());
    let second = extract_game_snapshots(events);
    assert_eq!(first, second);
}

#[test]
fn frame_reaches_the_largest_value() {
    let events = vec![other(u32::MAX - 1), stats_event(1, stats(1, 0, 0))];
    let snaps = extract_game_snapshots(events);
    assert_eq!(snaps[0].frame, u32::MAX);
}
