use arena_sim::seed::{derive_round_seed, session_seed, Scoreboard};

#[test]
fn round_seed_is_score_sum_xor_session_seed() {
    let scores = Scoreboard { p0: 3, p1: 4 };
    assert_eq!(derive_round_seed(&scores, 0xFF), 0xF8);
    assert_eq!(derive_round_seed(&Scoreboard { p0: 0, p1: 0 }, 1234), 1234);
    assert_eq!(derive_round_seed(&Scoreboard { p0: 1, p1: 0 }, 0), 1);
}

#[test]
fn round_seed_does_not_depend_on_who_scored() {
    for (a, b) in [(0u32, 0u32), (1, 2), (7, 0), (1000, 999)] {
        for seed in [0u64, 1, 0xDEAD_BEEF, u64::MAX] {
            assert_eq!(
                derive_round_seed(&Scoreboard { p0: a, p1: b }, seed),
                derive_round_seed(&Scoreboard { p0: b, p1: a }, seed)
            );
        }
    }
}

#[test]
fn round_seed_changes_with_the_score() {
    let before = derive_round_seed(&Scoreboard { p0: 0, p1: 0 }, 99);
    let after = derive_round_seed(&Scoreboard { p0: 0, p1: 1 }, 99);
    assert_ne!(before, after);
}

#[test]
fn round_seed_sums_without_overflow() {
    let scores = Scoreboard { p0: u32::MAX, p1: u32::MAX };
    assert_eq!(derive_round_seed(&scores, 0), 8_589_934_590);
}

#[test]
fn session_seed_combines_all_halves() {
    assert_eq!(session_seed(&vec![(1, 2), (3, 4), (5, 6)]), 7);
    assert_eq!(session_seed(&vec![(0xF0, 0x0F)]), 0xFF);
    assert_eq!(session_seed(&vec![]), 0);
}

#[test]
fn session_seed_is_the_same_in_any_order() {
    let a = (0x1234_5678_9ABC_DEF0u64, 0x0FED_CBA9_8765_4321u64);
    let b = (0xAAAA_AAAA_AAAA_AAAAu64, 0x5555_0000_5555_0000u64);
    let c = (17u64, 4_000_000_000_000u64);
    let expected = a.0 ^ a.1 ^ b.0 ^ b.1 ^ c.0 ^ c.1;
    assert_eq!(session_seed(&vec![a, b, c]), expected);
    assert_eq!(session_seed(&vec![a, c, b]), expected);
    assert_eq!(session_seed(&vec![b, a, c]), expected);
    assert_eq!(session_seed(&vec![b, c, a]), expected);
    assert_eq!(session_seed(&vec![c, a, b]), expected);
    assert_eq!(session_seed(&vec![c, b, a]), expected);
}

#[test]
fn two_peers_agree_on_the_session_seed() {
    let mine = (11u64, 22u64);
    let theirs = (33u64, 44u64);
    assert_eq!(session_seed(&vec![mine, theirs]), session_seed(&vec![theirs, mine]));
}
