use arena_sim::animation::sprite_index;
use arena_sim::components::{Bullet, BulletReady, DistanceTraveled, MoveDir, Player, Wall};
use arena_sim::geometry::Vec2;
use arena_sim::seed::Scoreboard;
use arena_sim::state::{RoundEndTimer, RoundPhase, SimulationState};

fn dir(x: i64, y: i64) -> MoveDir {
    MoveDir(Vec2 { x, y })
}

fn valid_world() -> SimulationState {
    SimulationState {
        player0: Some(Player::spawn(0, Vec2 { x: 0, y: 0 })),
        player1: Some(Player::spawn(1, Vec2 { x: 21_000_000, y: -21_000_000 })),
        bullets: vec![Bullet { position: Vec2 { x: 20_499_999, y: 0 }, direction: dir(0, 1_000_000) }],
        walls: vec![Wall {
            position: Vec2 { x: 20_000_000, y: -20_000_000 },
            half_extents: Vec2 { x: 500_000, y: 500_000 },
        }],
        scores: Scoreboard { p0: 0, p1: 0 },
        phase: RoundPhase::InRound,
        timer: RoundEndTimer { elapsed: 999_999 },
        session_seed: 0,
    }
}

#[test]
fn octants_run_counter_clockwise_from_the_right() {
    assert_eq!(dir(1_000_000, 0).octant(), 0);
    assert_eq!(dir(707_107, 707_107).octant(), 1);
    assert_eq!(dir(0, 1_000_000).octant(), 2);
    assert_eq!(dir(-707_107, 707_107).octant(), 3);
    assert_eq!(dir(-1_000_000, 0).octant(), 4);
    assert_eq!(dir(-707_107, -707_107).octant(), 5);
    assert_eq!(dir(0, -1_000_000).octant(), 6);
    assert_eq!(dir(707_107, -707_107).octant(), 7);
}

#[test]
fn only_the_eight_unit_vectors_are_directions() {
    assert!(dir(1_000_000, 0).is_wf());
    assert!(dir(0, -1_000_000).is_wf());
    assert!(dir(-707_107, 707_107).is_wf());
    assert!(!dir(0, 0).is_wf());
    assert!(!dir(1_000_000, 1_000_000).is_wf());
    assert!(!dir(707_107, 0).is_wf());
    assert!(!dir(1, 0).is_wf());
    assert!(!dir(707_107, 707_106).is_wf());
}

#[test]
fn a_fresh_player_faces_left_with_an_open_latch() {
    let p = Player::spawn(1, Vec2 { x: 3, y: 4 });
    assert_eq!(p.handle, 1);
    assert_eq!(p.position, Vec2 { x: 3, y: 4 });
    assert_eq!(p.facing, dir(-1_000_000, 0));
    assert_eq!(p.distance, DistanceTraveled(0));
    assert_eq!(p.bullet_ready, BulletReady(true));
    assert_eq!(p.facing.octant(), 4);
}

#[test]
fn a_player_is_valid_in_its_own_slot_and_within_the_bound() {
    let p = Player::spawn(0, Vec2 { x: 21_000_000, y: -21_000_000 });
    assert!(p.is_wf(0));
    assert!(!p.is_wf(1));
    assert!(!Player::spawn(0, Vec2 { x: 21_000_001, y: 0 }).is_wf(0));
    let mut q = p;
    q.facing = dir(0, 0);
    assert!(!q.is_wf(0));
}

#[test]
fn a_wall_is_valid_inside_the_arena() {
    let wall = |x: i64, y: i64, hx: i64, hy: i64| Wall {
        position: Vec2 { x, y },
        half_extents: Vec2 { x: hx, y: hy },
    };
    assert!(wall(0, 0, 1, 1).is_wf());
    assert!(wall(20_000_000, -20_000_000, 500_000, 500_000).is_wf());
    assert!(wall(0, 0, 20_500_000, 20_500_000).is_wf());
    assert!(!wall(20_000_001, 0, 500_000, 500_000).is_wf());
    assert!(!wall(0, -20_000_001, 500_000, 500_000).is_wf());
    assert!(!wall(0, 0, 0, 1).is_wf());
    assert!(!wall(0, 0, 1, -1).is_wf());
    assert!(!wall(0, 0, 20_500_001, 1).is_wf());
}

#[test]
fn a_projectile_is_valid_within_its_bound() {
    let b = Bullet { position: Vec2 { x: 100, y: -100 }, direction: dir(1_000_000, 0) };
    assert!(b.is_wf(100));
    assert!(!b.is_wf(99));
    let c = Bullet { position: Vec2 { x: 0, y: 0 }, direction: dir(5, 5) };
    assert!(!c.is_wf(100));
}

#[test]
fn vectors_know_their_bounds() {
    let v = Vec2::new(-7, 3);
    assert_eq!(v, Vec2 { x: -7, y: 3 });
    assert!(v.is_within(7));
    assert!(!v.is_within(6));
    assert!(Vec2::new(0, 0).is_within(0));
}

#[test]
fn a_world_is_valid_up_to_its_limits() {
    assert!(valid_world().is_wf());
    let mut s = valid_world();
    s.player0 = None;
    s.player1 = None;
    s.bullets.clear();
    s.walls.clear();
    assert!(s.is_wf());
}

#[test]
fn a_world_with_a_part_out_of_place_is_not_valid() {
    let mut s = valid_world();
    s.timer = RoundEndTimer { elapsed: 1_000_000 };
    assert!(!s.is_wf());
    let mut s = valid_world();
    s.bullets[0].position.x = 20_500_000;
    assert!(!s.is_wf());
    let mut s = valid_world();
    s.bullets.push(Bullet { position: Vec2 { x: 0, y: 0 }, direction: dir(0, 0) });
    assert!(!s.is_wf());
    let mut s = valid_world();
    s.walls[0].position.x = 20_000_001;
    assert!(!s.is_wf());
    let mut s = valid_world();
    s.player1 = s.player0;
    assert!(!s.is_wf());
    let mut s = valid_world();
    s.player0 = Some(Player::spawn(0, Vec2 { x: 0, y: 21_000_001 }));
    assert!(!s.is_wf());
}

#[test]
fn the_sprite_follows_the_octant_and_the_way_gone() {
    assert_eq!(sprite_index(&dir(1_000_000, 0), &DistanceTraveled(0)), 0);
    assert_eq!(sprite_index(&dir(1_000_000, 0), &DistanceTraveled(249_999)), 0);
    assert_eq!(sprite_index(&dir(1_000_000, 0), &DistanceTraveled(250_000)), 1);
    assert_eq!(sprite_index(&dir(1_000_000, 0), &DistanceTraveled(1_000_000)), 4);
    assert_eq!(sprite_index(&dir(1_000_000, 0), &DistanceTraveled(1_250_000)), 0);
    assert_eq!(sprite_index(&dir(-1_000_000, 0), &DistanceTraveled(500_000)), 26);
    assert_eq!(sprite_index(&dir(0, 1_000_000), &DistanceTraveled(750_000)), 15);
    assert_eq!(sprite_index(&dir(0, 1_000_000), &DistanceTraveled(1_000_000)), 12);
    assert_eq!(sprite_index(&dir(-707_107, -707_107), &DistanceTraveled(1_250_000)), 31);
    assert_eq!(sprite_index(&dir(0, -1_000_000), &DistanceTraveled(0)), 36);
    assert_eq!(sprite_index(&dir(707_107, -707_107), &DistanceTraveled(u64::MAX)), 45);
}

#[test]
fn defaults_are_the_start_of_a_session() {
    assert_eq!(RoundPhase::default(), RoundPhase::InRound);
    assert_eq!(RoundEndTimer::default(), RoundEndTimer { elapsed: 0 });
    assert_eq!(Scoreboard::default(), Scoreboard { p0: 0, p1: 0 });
    assert_eq!(DistanceTraveled::default(), DistanceTraveled(0));
}
