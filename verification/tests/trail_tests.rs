use player_dash::trail::{DashGhost, GhostStep, GHOST_DECAY_MS};

#[test]
fn fresh_ghost_has_full_decay_ahead() {
    let g = DashGhost::new();
    assert_eq!(g.decay.elapsed_ms, 0);
    assert_eq!(g.decay.duration_ms, GHOST_DECAY_MS);
}

#[test]
fn ghost_fades_by_remaining_over_total() {
    let mut g = DashGhost::new();
    let step = g.animate_dash(30);
    assert_eq!(step, GhostStep::Fade { alpha_num: 70, alpha_den: 100 });
}

#[test]
fn ghost_alpha_never_increases() {
    let mut g = DashGhost::new();
    let mut last_num = GHOST_DECAY_MS;
    for delta in [10u64, 0, 25, 5, 40] {
        match g.animate_dash(delta) {
            GhostStep::Fade { alpha_num, alpha_den } => {
                assert!(alpha_num <= last_num);
                assert_eq!(alpha_den, GHOST_DECAY_MS);
                last_num = alpha_num;
            }
            GhostStep::Despawn => panic!("decay must not complete within 80 ms"),
        }
    }
    assert_eq!(last_num, 20);
}

#[test]
fn ghost_despawns_exactly_when_decay_completes() {
    let mut g = DashGhost::new();
    let step = g.animate_dash(99);
    assert_eq!(step, GhostStep::Fade { alpha_num: 1, alpha_den: 100 });
    let step = g.animate_dash(1);
    assert_eq!(step, GhostStep::Despawn);
    assert_eq!(g.decay.elapsed_ms, g.decay.duration_ms);
}

#[test]
fn ghost_despawns_on_a_long_frame() {
    let mut g = DashGhost::new();
    let step = g.animate_dash(1000);
    assert_eq!(step, GhostStep::Despawn);
}
