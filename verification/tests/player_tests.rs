use chicken_sim::base::Base;
use chicken_sim::chicken::{Chicken, ChickenBehaviour};
use chicken_sim::player::{
    catch_chicken, move_player, player_chicken_collision, player_lvlup, try_give_chickens_to_base,
    LvlupType, Player,
};
use chicken_sim::timer::Timer;
use chicken_sim::vec2::Vec2i;

fn idle_chicken_at(x: i64, y: i64) -> Chicken {
    Chicken {
        pos: Vec2i { x, y },
        behaviour: ChickenBehaviour::Idle,
        move_dir: None,
        behaviour_change_timer: Timer { period_ms: 5000, elapsed_ms: 0 },
        catchable: false,
    }
}

#[test]
fn scenario_first_chicken_in_radius_becomes_catchable() {
    // Player at the origin, one chicken one unit inside the radius.
    let mut player = Player::default();
    let mut chickens = vec![Some(idle_chicken_at(99, 0))];
    let ev = player_chicken_collision(&mut player, &mut chickens);
    assert_eq!(player.catchable_chicken, Some(0));
    assert!(chickens[0].unwrap().catchable);
    assert_eq!(ev.marked, Some(0));
    assert_eq!(ev.unmarked, None);
}

#[test]
fn scenario_drifted_target_is_released() {
    // The target has drifted one unit beyond the radius.
    let mut player = Player::default();
    player.catchable_chicken = Some(0);
    let mut target = idle_chicken_at(101, 0);
    target.catchable = true;
    let mut chickens = vec![Some(target)];
    let ev = player_chicken_collision(&mut player, &mut chickens);
    assert_eq!(player.catchable_chicken, None);
    assert!(!chickens[0].unwrap().catchable);
    assert_eq!(ev.marked, None);
    assert_eq!(ev.unmarked, Some(0));
}

#[test]
fn chicken_just_inside_radius_is_kept() {
    let mut player = Player::default();
    player.catchable_chicken = Some(0);
    let mut target = idle_chicken_at(99, 0);
    target.catchable = true;
    let mut chickens = vec![Some(target)];
    let ev = player_chicken_collision(&mut player, &mut chickens);
    assert_eq!(player.catchable_chicken, Some(0));
    assert!(chickens[0].unwrap().catchable);
    assert_eq!(ev.marked, None);
    assert_eq!(ev.unmarked, None);
}

#[test]
fn nearer_chicken_takes_over_the_mark() {
    let mut player = Player::default();
    player.catchable_chicken = Some(0);
    let mut target = idle_chicken_at(50, 0);
    target.catchable = true;
    let mut chickens = vec![Some(target), Some(idle_chicken_at(10, 0))];
    let ev = player_chicken_collision(&mut player, &mut chickens);
    assert_eq!(player.catchable_chicken, Some(1));
    assert!(!chickens[0].unwrap().catchable);
    assert!(chickens[1].unwrap().catchable);
    assert_eq!(ev.marked, Some(1));
    assert_eq!(ev.unmarked, Some(0));
}

#[test]
fn stale_target_is_cleared_quietly() {
    let mut player = Player::default();
    player.catchable_chicken = Some(0);
    let mut chickens: Vec<Option<Chicken>> = vec![None, Some(idle_chicken_at(10, 0))];
    let ev = player_chicken_collision(&mut player, &mut chickens);
    assert_eq!(player.catchable_chicken, None);
    assert!(!chickens[1].unwrap().catchable);
    assert_eq!(ev.marked, None);
    assert_eq!(ev.unmarked, None);
}

#[test]
fn catch_at_full_inventory_raises_notification() {
    let mut player = Player::default();
    player.catchable_chicken = Some(0);
    player.inventory_chickens_amount = 5;
    let mut target = idle_chicken_at(10, 0);
    target.catchable = true;
    let mut chickens = vec![Some(target)];
    let full = catch_chicken(&mut player, &mut chickens, true);
    assert!(full);
    assert_eq!(player.inventory_chickens_amount, 5);
    assert!(chickens[0].is_some());
    assert_eq!(player.catchable_chicken, Some(0));
}

#[test]
fn catch_at_one_below_max_reaches_max() {
    let mut player = Player::default();
    player.catchable_chicken = Some(0);
    player.inventory_chickens_amount = 4;
    let mut target = idle_chicken_at(10, 0);
    target.catchable = true;
    let mut chickens = vec![Some(target)];
    let full = catch_chicken(&mut player, &mut chickens, true);
    assert!(!full);
    assert_eq!(player.inventory_chickens_amount, 5);
    assert!(chickens[0].is_none());
    assert_eq!(player.catchable_chicken, None);
}

#[test]
fn catch_without_press_does_nothing() {
    let mut player = Player::default();
    player.catchable_chicken = Some(0);
    let mut target = idle_chicken_at(10, 0);
    target.catchable = true;
    let mut chickens = vec![Some(target)];
    let full = catch_chicken(&mut player, &mut chickens, false);
    assert!(!full);
    assert!(chickens[0].is_some());
    assert_eq!(player.inventory_chickens_amount, 0);
}

#[test]
fn catch_of_consumed_target_is_a_noop() {
    let mut player = Player::default();
    player.catchable_chicken = Some(0);
    let mut chickens: Vec<Option<Chicken>> = vec![None];
    let full = catch_chicken(&mut player, &mut chickens, true);
    assert!(!full);
    assert_eq!(player.inventory_chickens_amount, 0);
    assert_eq!(player.catchable_chicken, None);
}

#[test]
fn deposit_moves_whole_inventory() {
    let mut base = Base::default_on_point(Vec2i { x: 0, y: 0 });
    let mut player = Player::default();
    player.inventory_chickens_amount = 3;
    player.pos = Vec2i { x: 60, y: 0 };
    try_give_chickens_to_base(&mut base, &mut player, true);
    assert_eq!(base.chickens_amount, 3);
    assert_eq!(player.inventory_chickens_amount, 0);
}

#[test]
fn deposit_of_empty_inventory_changes_nothing() {
    let mut base = Base::default_on_point(Vec2i { x: 0, y: 0 });
    base.chickens_amount = 7;
    let mut player = Player::default();
    try_give_chickens_to_base(&mut base, &mut player, true);
    assert_eq!(base.chickens_amount, 7);
    assert_eq!(player.inventory_chickens_amount, 0);
}

#[test]
fn deposit_needs_range_and_press() {
    let mut base = Base::default_on_point(Vec2i { x: 0, y: 0 });
    let mut player = Player::default();
    player.inventory_chickens_amount = 3;
    player.pos = Vec2i { x: 101, y: 0 };
    try_give_chickens_to_base(&mut base, &mut player, true);
    assert_eq!(base.chickens_amount, 0);
    assert_eq!(player.inventory_chickens_amount, 3);

    player.pos = Vec2i { x: 50, y: 0 };
    try_give_chickens_to_base(&mut base, &mut player, false);
    assert_eq!(base.chickens_amount, 0);
    assert_eq!(player.inventory_chickens_amount, 3);
}

#[test]
fn lvlup_charges_the_base() {
    let mut player = Player::default();
    let mut base = Base::default_on_point(Vec2i { x: 0, y: 0 });
    base.chickens_amount = 25;
    player_lvlup(&mut player, &mut base, LvlupType::Speed);
    assert_eq!(player.speed_multiplier, 110);
    assert_eq!(base.chickens_amount, 15);
    player_lvlup(&mut player, &mut base, LvlupType::CatchingRadius);
    assert_eq!(player.catching_radius_multiplier, 110);
    assert_eq!(base.chickens_amount, 5);
}

#[test]
fn lvlup_without_funds_is_refused() {
    let mut player = Player::default();
    let mut base = Base::default_on_point(Vec2i { x: 0, y: 0 });
    base.chickens_amount = 9;
    player_lvlup(&mut player, &mut base, LvlupType::Speed);
    assert_eq!(player.speed_multiplier, 100);
    assert_eq!(base.chickens_amount, 9);
}

#[test]
fn upgrades_bump_multipliers() {
    let mut player = Player::default();
    player.speed_up();
    player.speed_up();
    player.catch_radius_up();
    assert_eq!(player.speed_multiplier, 120);
    assert_eq!(player.catching_radius_multiplier, 110);
}

#[test]
fn move_player_follows_inputs() {
    let mut player = Player::default();
    move_player(&mut player, false, false, false, true, 1000);
    assert_eq!(player.pos, Vec2i { x: 100, y: 0 });
    move_player(&mut player, true, false, false, true, 500);
    assert_eq!(player.pos, Vec2i { x: 150, y: 50 });
    // Opposite inputs cancel out.
    move_player(&mut player, true, true, true, true, 1000);
    assert_eq!(player.pos, Vec2i { x: 150, y: 50 });
}

#[test]
fn upgraded_speed_moves_farther() {
    let mut player = Player::default();
    player.speed_multiplier = 150;
    move_player(&mut player, false, false, true, false, 1000);
    assert_eq!(player.pos, Vec2i { x: -150, y: 0 });
}

#[test]
fn equidistant_rival_chicken_does_not_steal_the_mark() {
    // On a distance tie the current target is kept.
    let mut player = Player::default();
    player.catchable_chicken = Some(1);
    let mut target = idle_chicken_at(50, 0);
    target.catchable = true;
    let mut chickens = vec![Some(idle_chicken_at(-50, 0)), Some(target)];
    let ev = player_chicken_collision(&mut player, &mut chickens);
    assert_eq!(player.catchable_chicken, Some(1));
    assert!(chickens[1].unwrap().catchable);
    assert!(!chickens[0].unwrap().catchable);
    assert_eq!(ev.marked, None);
    assert_eq!(ev.unmarked, None);
}

#[test]
fn acquisition_takes_the_first_in_slot_order() {
    let mut player = Player::default();
    let mut chickens = vec![Some(idle_chicken_at(90, 0)), Some(idle_chicken_at(10, 0))];
    player_chicken_collision(&mut player, &mut chickens);
    // The nearer chicken sits in a later slot; the first within radius wins.
    assert_eq!(player.catchable_chicken, Some(0));
}
