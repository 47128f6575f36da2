use chicken_sim::chicken::{
    behave_chicken, behave_chickens, chicken_corral_collision, chicken_reroll_choice, Chicken,
    ChickenBehaviour,
};
use chicken_sim::chicken_corral::{ChickenCorralWall, WallType};
use chicken_sim::timer::Timer;
use chicken_sim::vec2::Vec2i;

fn calm_chicken_at(x: i64, y: i64, dir: Vec2i) -> Chicken {
    Chicken {
        pos: Vec2i { x, y },
        behaviour: ChickenBehaviour::Calm,
        move_dir: Some(dir),
        behaviour_change_timer: Timer { period_ms: 5000, elapsed_ms: 0 },
        catchable: false,
    }
}

#[test]
fn reroll_choice_policy() {
    assert_eq!(chicken_reroll_choice(0, 9), ChickenBehaviour::Mad);
    assert_eq!(chicken_reroll_choice(4, 9), ChickenBehaviour::Mad);
    assert_eq!(chicken_reroll_choice(5, 0), ChickenBehaviour::Calm);
    assert_eq!(chicken_reroll_choice(9, 4), ChickenBehaviour::Calm);
    assert_eq!(chicken_reroll_choice(5, 5), ChickenBehaviour::Idle);
    assert_eq!(chicken_reroll_choice(9, 9), ChickenBehaviour::Idle);
}

#[test]
fn calm_chicken_wanders_at_calm_speed() {
    let mut c = calm_chicken_at(0, 0, Vec2i { x: 1000, y: 0 });
    behave_chicken(&mut c, 1000);
    // 30 units/s for one second; the timer did not fire, so the mood stays.
    assert_eq!(c.pos, Vec2i { x: 30, y: 0 });
    assert_eq!(c.behaviour, ChickenBehaviour::Calm);
    assert_eq!(c.move_dir, Some(Vec2i { x: 1000, y: 0 }));
    assert_eq!(c.behaviour_change_timer.elapsed_ms, 1000);
}

#[test]
fn mad_chicken_wanders_at_mad_speed() {
    let mut c = calm_chicken_at(0, 0, Vec2i { x: 0, y: -1000 });
    c.behaviour = ChickenBehaviour::Mad;
    behave_chicken(&mut c, 1000);
    assert_eq!(c.pos, Vec2i { x: 0, y: -75 });
}

#[test]
fn idle_chicken_stays_put() {
    let mut c = Chicken::default();
    behave_chicken(&mut c, 1000);
    assert_eq!(c.pos, Vec2i { x: 0, y: 0 });
}

#[test]
fn reroll_keeps_direction_invariant() {
    // Fire the timer: whatever mood comes out, a direction exists
    // exactly when the chicken is not idle.
    for _ in 0..50 {
        let mut c = Chicken::default();
        behave_chicken(&mut c, 5000);
        match c.behaviour {
            ChickenBehaviour::Idle => assert!(c.move_dir.is_none()),
            _ => assert!(c.move_dir.is_some()),
        }
    }
}

#[test]
fn behave_chickens_keeps_slots() {
    let mut chickens = vec![
        Some(calm_chicken_at(0, 0, Vec2i { x: 1000, y: 0 })),
        None,
        Some(Chicken::default()),
    ];
    behave_chickens(&mut chickens, 1000);
    assert_eq!(chickens.len(), 3);
    assert_eq!(chickens[0].unwrap().pos, Vec2i { x: 30, y: 0 });
    assert!(chickens[1].is_none());
    assert_eq!(chickens[2].unwrap().pos, Vec2i { x: 0, y: 0 });
}

#[test]
fn wall_in_range_flips_direction() {
    let mut chickens = vec![Some(calm_chicken_at(0, 0, Vec2i { x: 960, y: 280 }))];
    let walls = vec![ChickenCorralWall {
        wall_type: WallType::Edge,
        pos: Vec2i { x: 10, y: 0 },
    }];
    chicken_corral_collision(&mut chickens, &walls);
    assert_eq!(chickens[0].unwrap().move_dir, Some(Vec2i { x: -960, y: -280 }));
    assert_eq!(chickens[0].unwrap().pos, Vec2i { x: 0, y: 0 });
}

#[test]
fn two_walls_in_range_flip_twice() {
    let mut chickens = vec![Some(calm_chicken_at(0, 0, Vec2i { x: 1000, y: 0 }))];
    let walls = vec![
        ChickenCorralWall { wall_type: WallType::Corner, pos: Vec2i { x: 10, y: 0 } },
        ChickenCorralWall { wall_type: WallType::Edge, pos: Vec2i { x: -10, y: 0 } },
    ];
    chicken_corral_collision(&mut chickens, &walls);
    assert_eq!(chickens[0].unwrap().move_dir, Some(Vec2i { x: 1000, y: 0 }));
}

#[test]
fn distant_wall_leaves_direction_alone() {
    let mut chickens = vec![Some(calm_chicken_at(0, 0, Vec2i { x: 1000, y: 0 }))];
    // Threshold is 40 units: (50 + 30) / 2.
    let walls = vec![ChickenCorralWall {
        wall_type: WallType::Edge,
        pos: Vec2i { x: 41, y: 0 },
    }];
    chicken_corral_collision(&mut chickens, &walls);
    assert_eq!(chickens[0].unwrap().move_dir, Some(Vec2i { x: 1000, y: 0 }));
}

#[test]
fn wall_at_threshold_still_deflects() {
    let mut chickens = vec![Some(calm_chicken_at(0, 0, Vec2i { x: 1000, y: 0 }))];
    let walls = vec![ChickenCorralWall {
        wall_type: WallType::Edge,
        pos: Vec2i { x: 40, y: 0 },
    }];
    chicken_corral_collision(&mut chickens, &walls);
    assert_eq!(chickens[0].unwrap().move_dir, Some(Vec2i { x: -1000, y: 0 }));
}
