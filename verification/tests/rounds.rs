use arena_sim::combat::{is_lethal, is_struck, kill_players};
use arena_sim::components::{Bullet, BulletReady, DistanceTraveled, MoveDir, Player, Wall};
use arena_sim::geometry::Vec2;
use arena_sim::input::{INPUT_FIRE, INPUT_RIGHT, INPUT_UP};
use arena_sim::map::generate;
use arena_sim::round::{generate_map, round_end_timeout, spawn_players, start_round};
use arena_sim::seed::{derive_round_seed, Scoreboard};
use arena_sim::state::{RoundEndTimer, RoundPhase, SimulationState};

const WEST: MoveDir = MoveDir(Vec2 { x: -1_000_000, y: 0 });
const EAST: MoveDir = MoveDir(Vec2 { x: 1_000_000, y: 0 });

fn fighter(handle: usize, x: i64, y: i64) -> Player {
    Player {
        handle,
        position: Vec2 { x, y },
        facing: WEST,
        distance: DistanceTraveled(0),
        bullet_ready: BulletReady(true),
    }
}

fn duel(p0: Player, p1: Player, bullets: Vec<Bullet>) -> SimulationState {
    SimulationState {
        player0: Some(p0),
        player1: Some(p1),
        bullets,
        walls: Vec::new(),
        scores: Scoreboard { p0: 0, p1: 0 },
        phase: RoundPhase::InRound,
        timer: RoundEndTimer { elapsed: 0 },
        session_seed: 0xABCD,
    }
}

fn shot(x: i64, y: i64, direction: MoveDir) -> Bullet {
    Bullet { position: Vec2 { x, y }, direction }
}

#[test]
fn lethal_range_is_the_sum_of_the_radii_exclusive() {
    let origin = Vec2 { x: 0, y: 0 };
    assert!(is_lethal(&origin, &Vec2 { x: 524_999, y: 0 }));
    assert!(!is_lethal(&origin, &Vec2 { x: 525_000, y: 0 }));
    assert!(!is_lethal(&origin, &Vec2 { x: 0, y: -525_000 }));
    assert!(is_lethal(&origin, &Vec2 { x: 300_000, y: 400_000 }));
    assert!(is_lethal(&origin, &Vec2 { x: -315_000, y: 419_999 }));
    assert!(!is_lethal(&origin, &Vec2 { x: -315_000, y: 420_000 }));
    assert!(!is_lethal(&origin, &Vec2 { x: 524_999, y: 524_999 }));
    assert!(is_lethal(&origin, &origin));
    assert!(!is_lethal(&origin, &Vec2 { x: 90_000_000_000, y: 90_000_000_000 }));
}

#[test]
fn struck_looks_at_every_projectile() {
    let at = Vec2 { x: 1_000_000, y: 1_000_000 };
    let far = shot(9_000_000, 0, EAST);
    let near = shot(1_100_000, 900_000, EAST);
    assert!(!is_struck(&at, &vec![]));
    assert!(!is_struck(&at, &vec![far]));
    assert!(is_struck(&at, &vec![far, far, near]));
    assert!(is_struck(&at, &vec![near, far]));
}

#[test]
fn a_hit_kills_scores_for_the_other_player_and_ends_the_round() {
    let mut state = duel(
        fighter(0, 0, 0),
        fighter(1, 5_000_000, 0),
        vec![shot(5_100_000, 0, EAST), shot(-9_000_000, 0, WEST)],
    );
    kill_players(&mut state);
    assert!(state.player0.is_some());
    assert_eq!(state.player1, None);
    assert_eq!(state.scores, Scoreboard { p0: 1, p1: 0 });
    assert_eq!(state.phase, RoundPhase::RoundEnding);
    assert_eq!(state.bullets, vec![shot(-9_000_000, 0, WEST)]);
}

#[test]
fn no_hit_changes_nothing() {
    let before = duel(fighter(0, 0, 0), fighter(1, 5_000_000, 0), vec![shot(2_000_000, 0, EAST)]);
    let mut state = before.save_snapshot();
    kill_players(&mut state);
    assert_eq!(state, before);
}

#[test]
fn several_hits_on_one_player_score_once() {
    let mut state = duel(
        fighter(0, 0, 0),
        fighter(1, 5_000_000, 0),
        vec![shot(100_000, 0, EAST), shot(0, 200_000, EAST), shot(-300_000, -300_000, WEST)],
    );
    kill_players(&mut state);
    assert_eq!(state.player0, None);
    assert!(state.player1.is_some());
    assert_eq!(state.scores, Scoreboard { p0: 0, p1: 1 });
    assert!(state.bullets.is_empty());
}

#[test]
fn both_players_can_die_in_one_frame() {
    let mut state = duel(
        fighter(0, 0, 0),
        fighter(1, 5_000_000, 0),
        vec![shot(100_000, 0, EAST), shot(5_000_000, 100_000, WEST)],
    );
    kill_players(&mut state);
    assert_eq!(state.player0, None);
    assert_eq!(state.player1, None);
    assert_eq!(state.scores, Scoreboard { p0: 1, p1: 1 });
    assert_eq!(state.phase, RoundPhase::RoundEnding);
}

#[test]
fn one_projectile_between_two_close_players_kills_both() {
    let mut state = duel(fighter(0, 0, 0), fighter(1, 400_000, 0), vec![shot(200_000, 0, EAST)]);
    kill_players(&mut state);
    assert_eq!(state.player0, None);
    assert_eq!(state.player1, None);
    assert_eq!(state.scores, Scoreboard { p0: 1, p1: 1 });
    assert!(state.bullets.is_empty());
}

#[test]
fn a_score_stops_at_the_largest_value() {
    let mut state = duel(fighter(0, 0, 0), fighter(1, 5_000_000, 0), vec![shot(0, 0, EAST)]);
    state.scores = Scoreboard { p0: 3, p1: u32::MAX };
    kill_players(&mut state);
    assert_eq!(state.player0, None);
    assert_eq!(state.scores, Scoreboard { p0: 3, p1: u32::MAX });
}

#[test]
fn close_players_one_hit_round_ends_and_restarts() {
    let mut state =
        duel(fighter(0, 0, 0), fighter(1, 400_000, 0), vec![shot(-600_000, 0, EAST)]);
    assert!(state.is_wf());
    state.step([0, 0], 10_000);
    assert_eq!(state.player0, None);
    assert_eq!(state.player1, Some(fighter(1, 400_000, 0)));
    assert_eq!(state.scores, Scoreboard { p0: 0, p1: 1 });
    assert_eq!(state.phase, RoundPhase::RoundEnding);
    assert_eq!(state.timer, RoundEndTimer { elapsed: 10_000 });
    assert!(state.bullets.is_empty());

    state.step([0, 0], 500_000);
    assert_eq!(state.phase, RoundPhase::RoundEnding);
    assert_eq!(state.player0, None);
    assert_eq!(state.timer, RoundEndTimer { elapsed: 510_000 });
    state.step([0, 0], 489_999);
    assert_eq!(state.phase, RoundPhase::RoundEnding);
    assert_eq!(state.timer, RoundEndTimer { elapsed: 999_999 });
    state.step([0, 0], 1);

    assert_eq!(state.phase, RoundPhase::InRound);
    assert_eq!(state.scores, Scoreboard { p0: 0, p1: 1 });
    let map = generate(derive_round_seed(&Scoreboard { p0: 0, p1: 1 }, 0xABCD));
    assert_eq!(map, generate(1 ^ 0xABCD));
    assert_eq!(state.walls, map.walls);
    assert_eq!(state.walls.len(), 20);
    assert_eq!(state.player0, Some(fighter(0, map.spawn0.x, map.spawn0.y)));
    assert_eq!(state.player1, Some(fighter(1, map.spawn1.x, map.spawn1.y)));
    assert!(state.bullets.is_empty());
    assert_eq!(state.timer, RoundEndTimer { elapsed: 0 });
    assert!(state.is_wf());
}

#[test]
fn nothing_moves_while_the_round_is_ending() {
    let mut state =
        duel(fighter(0, 0, 0), fighter(1, 5_000_000, 0), vec![shot(1_000_000, 0, EAST)]);
    state.player0 = None;
    state.phase = RoundPhase::RoundEnding;
    state.step([INPUT_RIGHT, INPUT_FIRE | INPUT_UP], 16_667);
    assert_eq!(state.player1, Some(fighter(1, 5_000_000, 0)));
    assert_eq!(state.bullets, vec![shot(1_000_000, 0, EAST)]);
    assert_eq!(state.timer, RoundEndTimer { elapsed: 16_667 });
    assert_eq!(state.phase, RoundPhase::RoundEnding);
}

#[test]
fn the_timer_rests_while_the_round_is_on() {
    let mut state = duel(fighter(0, 0, 0), fighter(1, 5_000_000, 0), Vec::new());
    state.timer = RoundEndTimer { elapsed: 123 };
    state.step([0, 0], 16_667);
    assert_eq!(state.timer, RoundEndTimer { elapsed: 123 });
    assert_eq!(state.phase, RoundPhase::InRound);
}

#[test]
fn the_timer_stage_does_nothing_while_the_round_is_on() {
    let before = duel(fighter(0, 0, 0), fighter(1, 5_000_000, 0), Vec::new());
    let mut state = before.save_snapshot();
    state.timer = RoundEndTimer { elapsed: 999_999 };
    round_end_timeout(&mut state, 16_667);
    assert_eq!(state.timer, RoundEndTimer { elapsed: 999_999 });
    assert_eq!(state.phase, RoundPhase::InRound);
    assert_eq!(state.player0, before.player0);
    assert_eq!(state.walls, before.walls);
}

#[test]
fn the_frame_of_a_death_counts_toward_the_wait() {
    let mut state = duel(fighter(0, 0, 0), fighter(1, 5_000_000, 0), vec![shot(0, 0, EAST)]);
    state.step([0, 0], 0);
    assert_eq!(state.phase, RoundPhase::RoundEnding);
    assert_eq!(state.timer, RoundEndTimer { elapsed: 0 });

    let mut long =
        duel(fighter(0, 0, 0), fighter(1, 5_000_000, 0), vec![shot(-20_000_000, 0, EAST)]);
    long.step([0, 0], 1_000_000);
    assert_eq!(long.scores, Scoreboard { p0: 0, p1: 1 });
    assert_eq!(long.phase, RoundPhase::InRound);
    assert!(long.player0.is_some() && long.player1.is_some());
    assert_eq!(long.walls, generate(1 ^ 0xABCD).walls);
}

#[test]
fn the_timer_keeps_its_surplus() {
    let mut state = duel(fighter(0, 0, 0), fighter(1, 5_000_000, 0), Vec::new());
    state.phase = RoundPhase::RoundEnding;
    state.timer = RoundEndTimer { elapsed: 990_000 };
    round_end_timeout(&mut state, 16_667);
    assert_eq!(state.phase, RoundPhase::InRound);
    assert_eq!(state.timer, RoundEndTimer { elapsed: 6_667 });
}

#[test]
fn the_timer_expires_exactly_at_its_duration() {
    let mut state = duel(fighter(0, 0, 0), fighter(1, 5_000_000, 0), Vec::new());
    state.phase = RoundPhase::RoundEnding;
    state.timer = RoundEndTimer { elapsed: 999_998 };
    round_end_timeout(&mut state, 1);
    assert_eq!(state.phase, RoundPhase::RoundEnding);
    assert_eq!(state.timer, RoundEndTimer { elapsed: 999_999 });
    round_end_timeout(&mut state, 1);
    assert_eq!(state.phase, RoundPhase::InRound);
    assert_eq!(state.timer, RoundEndTimer { elapsed: 0 });
}

#[test]
fn a_very_long_frame_ends_the_wait_at_once() {
    let mut state = duel(fighter(0, 0, 0), fighter(1, 5_000_000, 0), Vec::new());
    state.phase = RoundPhase::RoundEnding;
    round_end_timeout(&mut state, u32::MAX);
    assert_eq!(state.phase, RoundPhase::InRound);
    assert_eq!(state.timer, RoundEndTimer { elapsed: 967_295 });
}

#[test]
fn generate_map_replaces_the_walls_only() {
    let mut state =
        duel(fighter(0, 1, 2), fighter(1, 3, 4), vec![shot(1_000_000, 0, EAST)]);
    state.scores = Scoreboard { p0: 2, p1: 5 };
    state.walls = vec![Wall {
        position: Vec2 { x: 0, y: 0 },
        half_extents: Vec2 { x: 500_000, y: 500_000 },
    }];
    let spawns = generate_map(&mut state);
    let map = generate(7 ^ 0xABCD);
    assert_eq!(state.walls, map.walls);
    assert_eq!(spawns, (map.spawn0, map.spawn1));
    assert_eq!(state.player0, Some(fighter(0, 1, 2)));
    assert_eq!(state.bullets.len(), 1);
    assert_eq!(state.scores, Scoreboard { p0: 2, p1: 5 });
}

#[test]
fn spawn_players_puts_fresh_players_and_clears_projectiles() {
    let mut state = duel(fighter(0, 1, 2), fighter(1, 3, 4), vec![shot(1_000_000, 0, EAST)]);
    state.player1 = None;
    let mut tired = fighter(0, 1, 2);
    tired.distance = DistanceTraveled(500);
    tired.bullet_ready = BulletReady(false);
    tired.facing = EAST;
    state.player0 = Some(tired);
    spawn_players(&mut state, Vec2 { x: -7, y: 8 }, Vec2 { x: 9, y: -10 });
    assert_eq!(state.player0, Some(fighter(0, -7, 8)));
    assert_eq!(state.player1, Some(fighter(1, 9, -10)));
    assert!(state.bullets.is_empty());
    assert_eq!(Player::spawn(1, Vec2 { x: 9, y: -10 }), fighter(1, 9, -10));
}

#[test]
fn start_round_uses_the_score_and_the_session_seed() {
    let mut state = duel(fighter(0, 1, 2), fighter(1, 3, 4), Vec::new());
    state.scores = Scoreboard { p0: 4, p1: 4 };
    state.session_seed = 77;
    start_round(&mut state);
    let map = generate(8 ^ 77);
    assert_eq!(state.walls, map.walls);
    assert_eq!(state.player0.unwrap().position, map.spawn0);
    assert_eq!(state.player1.unwrap().position, map.spawn1);
}

#[test]
fn a_new_world_is_the_first_round() {
    let state = SimulationState::new(31_337);
    let map = generate(31_337);
    assert_eq!(state.phase, RoundPhase::InRound);
    assert_eq!(state.scores, Scoreboard { p0: 0, p1: 0 });
    assert_eq!(state.timer, RoundEndTimer { elapsed: 0 });
    assert_eq!(state.session_seed, 31_337);
    assert_eq!(state.walls, map.walls);
    assert_eq!(state.player0, Some(fighter(0, map.spawn0.x, map.spawn0.y)));
    assert_eq!(state.player1, Some(fighter(1, map.spawn1.x, map.spawn1.y)));
    assert!(state.bullets.is_empty());
    assert!(state.is_wf());
}

#[test]
fn scores_never_fall_over_a_match() {
    let mut state = SimulationState::new(5);
    let mut last = state.scores;
    for frame in 0u32..2_000 {
        let a = (frame.wrapping_mul(7) % 32) as u8;
        let b = (frame.wrapping_mul(13) % 32) as u8;
        state.step([a, b], 16_667);
        assert!(state.scores.p0 >= last.p0 && state.scores.p0 - last.p0 <= 1);
        assert!(state.scores.p1 >= last.p1 && state.scores.p1 - last.p1 <= 1);
        if state.phase == RoundPhase::InRound {
            assert!(state.player0.is_some() && state.player1.is_some());
        }
        assert!(state.is_wf());
        last = state.scores;
    }
}
