use space_invaders::coordinates::Coordinates;
use space_invaders::game_context::GameContext;
use space_invaders::hero::HeroMovementDirection;
use space_invaders::{get_input_keys, update_scores_after_session, EndOfGame, KeyPressedKeys,
    MAX_LIVES};

#[test]
fn fresh_session_is_ready_to_play() {
    let gc = GameContext::new(100, 40, MAX_LIVES);
    assert_eq!(gc.enemies.enemies_dead, 0);
    assert_eq!(gc.lives_count.count, MAX_LIVES);
    assert_eq!(gc.barricades_alive, 56);
    assert_eq!(gc.barricades.len(), 56);
    assert_eq!(gc.score_count.high_score, 100);
    assert_eq!(gc.score_count.current_score, 40);
    assert!(gc.hero.structure.alive);
}

/// A restart request short-circuits the tick: the outcome is `Restarted`
/// and neither scores nor lives move.
#[test]
fn restart_short_circuits_the_tick() {
    let mut gc = GameContext::new(100, 40, MAX_LIVES);
    let r = gc.tick(HeroMovementDirection::RestartGame, None, 16);
    assert!(matches!(r, Some(EndOfGame::Restarted)));
    assert_eq!(gc.score_count.current_score, 40);
    assert_eq!(gc.score_count.high_score, 100);
    assert_eq!(gc.score_count.current_score_updated, 40);
    assert_eq!(gc.lives_count.count, MAX_LIVES);
    assert_eq!(gc.enemies.enemies_dead, 0);
}

#[test]
fn quiet_tick_continues_play() {
    let mut gc = GameContext::new(0, 0, MAX_LIVES);
    let r = gc.tick(HeroMovementDirection::Still, None, 16);
    assert!(r.is_none());
    // The formation travelled right: 20 sub-pixels/ms for 16 ms.
    assert_eq!(gc.enemies.enemies[0].structure.coordinates.virtual_x, 20000 + 320);
    // The tick's enemy shot spawned.
    assert_eq!(gc.shoots.enemy_shoots_alive, 1);
}

/// The terminal evaluator reports a win exactly when the whole formation is
/// dead.
#[test]
fn all_enemies_dead_wins() {
    let mut gc = GameContext::new(0, 0, MAX_LIVES);
    let total = gc.enemies.enemies.len();
    for e in gc.enemies.enemies.iter_mut() {
        e.structure.alive = false;
    }
    gc.enemies.enemies_dead = total;
    let r = gc.check_game_over();
    assert!(matches!(r, Some(EndOfGame::Won(n)) if n == total));
}

/// A downed hero with lives left costs one life and respawns the hero; the
/// game goes on.
#[test]
fn downed_hero_spends_a_life() {
    let mut gc = GameContext::new(0, 0, MAX_LIVES);
    gc.hero.structure.alive = false;
    let r = gc.check_game_over();
    assert!(r.is_none());
    assert_eq!(gc.lives_count.count, MAX_LIVES - 1);
    assert!(gc.hero.structure.alive);
}

/// The terminal evaluator reports a loss exactly when the hero goes down
/// with no lives left.
#[test]
fn downed_hero_without_lives_loses() {
    let mut gc = GameContext::new(0, 0, 0);
    gc.hero.structure.alive = false;
    gc.enemies.enemies_dead = 3;
    for i in 0..3 {
        gc.enemies.enemies[i].structure.alive = false;
    }
    let r = gc.check_game_over();
    assert!(matches!(r, Some(EndOfGame::Lost(3))));
}

#[test]
fn formation_reaching_hero_row_loses() {
    let mut gc = GameContext::new(0, 0, MAX_LIVES);
    // Drop one live enemy so far down that its lower edge passes the hero's
    // upper edge.
    gc.enemies.enemies[5].structure.coordinates = Coordinates::new(100, 650);
    let r = gc.check_game_over();
    assert!(matches!(r, Some(EndOfGame::Lost(0))));
}

/// A live enemy reaching the barricade row while the set is partly alive
/// razes every block in the same tick, and the game continues.
#[test]
fn formation_reaching_barricades_razes_them() {
    let mut gc = GameContext::new(0, 0, MAX_LIVES);
    // Fell a couple of blocks first: the set is partly alive.
    gc.barricades[0].structure.alive = false;
    gc.barricades[1].structure.alive = false;
    gc.barricades_alive -= 2;
    // The barricade row's top sits at 571; an enemy at 545 with height 32
    // reaches it, while staying above the hero row.
    gc.enemies.enemies[3].structure.coordinates = Coordinates::new(300, 545);
    let r = gc.check_game_over();
    assert!(r.is_none());
    assert_eq!(gc.barricades_alive, 0);
    for b in gc.barricades.iter() {
        assert!(!b.structure.alive);
    }
    assert_eq!(gc.lives_count.count, MAX_LIVES);
}

#[test]
fn coalesce_last_directional_event_wins() {
    let hero_at = Coordinates::new(580, 671);
    let keys = vec![KeyPressedKeys::Left, KeyPressedKeys::Right];
    let (dir, shot) = get_input_keys(&keys, &hero_at);
    assert!(matches!(dir, HeroMovementDirection::Right));
    assert!(shot.is_none());

    let keys = vec![KeyPressedKeys::Right, KeyPressedKeys::Left];
    let (dir, _) = get_input_keys(&keys, &hero_at);
    assert!(matches!(dir, HeroMovementDirection::Left));

    let keys: Vec<KeyPressedKeys> = Vec::new();
    let (dir, shot) = get_input_keys(&keys, &hero_at);
    assert!(matches!(dir, HeroMovementDirection::Still));
    assert!(shot.is_none());
}

#[test]
fn coalesce_shoot_spawns_above_hero_middle() {
    let hero_at = Coordinates::new(580, 671);
    let keys = vec![KeyPressedKeys::Left, KeyPressedKeys::Shoot];
    let (dir, shot) = get_input_keys(&keys, &hero_at);
    assert!(matches!(dir, HeroMovementDirection::Left));
    let shot = shot.unwrap();
    assert_eq!(shot.structure.coordinates.x(), 580 + 30);
    assert_eq!(shot.structure.coordinates.y(), 671 - 10);
}

#[test]
fn coalesce_restart_overrides_everything() {
    let hero_at = Coordinates::new(580, 671);
    let keys = vec![KeyPressedKeys::Left, KeyPressedKeys::Restart, KeyPressedKeys::Shoot];
    let (dir, shot) = get_input_keys(&keys, &hero_at);
    assert!(matches!(dir, HeroMovementDirection::RestartGame));
    assert!(shot.is_none());
}

#[test]
fn session_scores_fold_into_running_totals() {
    assert_eq!(EndOfGame::Won(7).to_score(), 7);
    assert_eq!(EndOfGame::Lost(4).to_score(), 4);
    assert_eq!(EndOfGame::Restarted.to_score(), 0);

    let (current, high) = update_scores_after_session(10, 12, &EndOfGame::Won(5));
    assert_eq!(current, 15);
    assert_eq!(high, 15);

    let (current, high) = update_scores_after_session(10, 20, &EndOfGame::Lost(3));
    assert_eq!(current, 0);
    assert_eq!(high, 20);

    let (current, high) = update_scores_after_session(10, 20, &EndOfGame::Restarted);
    assert_eq!(current, 10);
    assert_eq!(high, 20);
}

#[test]
fn score_updates_with_kills() {
    let mut gc = GameContext::new(50, 30, MAX_LIVES);
    gc.enemies.enemies[0].structure.alive = false;
    gc.enemies.enemies[1].structure.alive = false;
    gc.enemies.enemies_dead = 2;
    let r = gc.tick(HeroMovementDirection::Still, None, 16);
    assert!(r.is_none());
    assert_eq!(gc.score_count.current_score_updated, 32);
    assert_eq!(gc.score_count.high_score_updated, 50);
}
