use chicken_sim::base::Base;
use chicken_sim::chicken::{Chicken, ChickenBehaviour};
use chicken_sim::timer::Timer;
use chicken_sim::vec2::Vec2i;
use chicken_sim::werewolf::{
    werewolf_behave, werewolf_choose, werewolf_step, Werewolf, WerewolfBehaviour,
};

fn werewolf_at(x: i64, y: i64) -> Werewolf {
    let mut w = Werewolf::default_on_point_with_base(Vec2i { x, y }, 0);
    w.corral = Some(0);
    w.corral_pos = Some(Vec2i { x: x + 600, y });
    w
}

fn idle_chicken_at(x: i64, y: i64) -> Chicken {
    Chicken {
        pos: Vec2i { x, y },
        behaviour: ChickenBehaviour::Idle,
        move_dir: None,
        behaviour_change_timer: Timer { period_ms: 5000, elapsed_ms: 0 },
        catchable: false,
    }
}

#[test]
fn fresh_werewolf_is_idle_and_empty() {
    let w = Werewolf::default_on_point_with_base(Vec2i { x: 7, y: -3 }, 4);
    assert_eq!(w.pos, Vec2i { x: 7, y: -3 });
    assert_eq!(w.base, 4);
    assert_eq!(w.base_pos, Vec2i { x: 7, y: -3 });
    assert_eq!(w.behaviour, WerewolfBehaviour::Idle);
    assert!(w.move_dir.is_none());
    assert_eq!(w.chickens_in_inventory, 0);
    assert!(!w.in_base && !w.in_corral);
}

#[test]
fn scenario_full_rival_at_base_banks_everything() {
    // A rival heading home with a full inventory, inside the base radius:
    // the next decision point banks the whole load, whatever it rolls.
    let mut w = werewolf_at(50, 0);
    w.base_pos = Vec2i { x: 0, y: 0 };
    w.behaviour = WerewolfBehaviour::MoveToBase;
    w.move_dir = Some(Vec2i { x: -1000, y: 0 });
    w.in_base = true;
    w.chickens_in_inventory = 5;
    let mut base = Base::default_on_point(Vec2i { x: 0, y: 0 });
    let mut chickens: Vec<Option<Chicken>> = Vec::new();
    werewolf_step(&mut w, &mut base, &mut chickens, 16);
    assert_eq!(base.chickens_amount, 5);
    assert_eq!(w.chickens_in_inventory, 0);
}

#[test]
fn scenario_zero_delta_goal_falls_back_to_random_move() {
    // The corral position coincides with the rival's own position: the
    // goal roll lands on RandomMove instead of normalizing a zero delta.
    let mut w = werewolf_at(0, 0);
    w.corral_pos = Some(Vec2i { x: 0, y: 0 });
    let choice = werewolf_choose(&w, 5, 5);
    assert_eq!(choice, WerewolfBehaviour::RandomMove);
}

#[test]
fn goal_roll_heads_for_the_corral() {
    let w = werewolf_at(0, 0);
    let choice = werewolf_choose(&w, 5, 5);
    assert_eq!(choice, WerewolfBehaviour::GoToCorral);
}

#[test]
fn full_inventory_heads_for_the_base() {
    let mut w = werewolf_at(50, 0);
    w.base_pos = Vec2i { x: 0, y: 0 };
    w.chickens_in_inventory = 5;
    assert_eq!(werewolf_choose(&w, 5, 5), WerewolfBehaviour::MoveToBase);
    // At the base point itself the fallback is RandomMove.
    w.pos = Vec2i { x: 0, y: 0 };
    assert_eq!(werewolf_choose(&w, 5, 5), WerewolfBehaviour::RandomMove);
}

#[test]
fn small_rolls_pick_the_lazy_behaviours() {
    let w = werewolf_at(0, 0);
    assert_eq!(werewolf_choose(&w, 0, 9), WerewolfBehaviour::Idle);
    assert_eq!(werewolf_choose(&w, 9, 0), WerewolfBehaviour::RandomMove);
    assert_eq!(werewolf_choose(&w, 9, 2), WerewolfBehaviour::RandomMove);
}

#[test]
fn rival_in_corral_turns_to_catching() {
    let mut w = werewolf_at(0, 0);
    w.in_corral = true;
    assert_eq!(werewolf_choose(&w, 5, 5), WerewolfBehaviour::Catch);
}

#[test]
fn catching_rival_takes_first_chicken_in_reach() {
    let mut w = werewolf_at(0, 0);
    w.behaviour = WerewolfBehaviour::Catch;
    w.move_dir = Some(Vec2i { x: 1000, y: 0 });
    w.in_corral = true;
    w.catching_try_timer = Timer { period_ms: 1000, elapsed_ms: 999 };
    let mut base = Base::default_on_point(Vec2i { x: 500, y: 0 });
    let mut chickens = vec![
        Some(idle_chicken_at(200, 0)),
        Some(idle_chicken_at(30, 0)),
        Some(idle_chicken_at(40, 0)),
    ];
    let caught = werewolf_step(&mut w, &mut base, &mut chickens, 16);
    // The first chicken within 100 units in slot order is slot 1.
    assert_eq!(caught, Some(1));
    assert!(chickens[1].is_none());
    assert!(chickens[0].is_some());
    assert!(chickens[2].is_some());
    assert_eq!(w.chickens_in_inventory, 1);
    assert_eq!(w.pos, Vec2i { x: 0, y: 0 });
}

#[test]
fn catch_timer_paces_the_attempts() {
    let mut w = werewolf_at(0, 0);
    w.behaviour = WerewolfBehaviour::Catch;
    w.move_dir = Some(Vec2i { x: 1000, y: 0 });
    w.in_corral = true;
    let mut base = Base::default_on_point(Vec2i { x: 500, y: 0 });
    let mut chickens = vec![Some(idle_chicken_at(30, 0))];
    // A fresh catch timer has a full second to go: no attempt yet.
    let caught = werewolf_step(&mut w, &mut base, &mut chickens, 16);
    assert_eq!(caught, None);
    assert!(chickens[0].is_some());
    assert_eq!(w.chickens_in_inventory, 0);
}

#[test]
fn moving_rival_translates_along_its_direction() {
    let mut w = werewolf_at(0, 0);
    w.behaviour = WerewolfBehaviour::GoToCorral;
    w.move_dir = Some(Vec2i { x: 1000, y: 0 });
    w.in_corral = true;
    let mut base = Base::default_on_point(Vec2i { x: 5000, y: 0 });
    let mut chickens: Vec<Option<Chicken>> = Vec::new();
    werewolf_step(&mut w, &mut base, &mut chickens, 1000);
    // 100 units/s for one second, still far from the corral.
    assert_eq!(w.pos, Vec2i { x: 100, y: 0 });
    assert_eq!(w.behaviour, WerewolfBehaviour::GoToCorral);
}

#[test]
fn behave_pass_steps_every_rival() {
    let mut w0 = werewolf_at(50, 0);
    w0.base_pos = Vec2i { x: 0, y: 0 };
    w0.behaviour = WerewolfBehaviour::MoveToBase;
    w0.move_dir = Some(Vec2i { x: -1000, y: 0 });
    w0.in_base = true;
    w0.chickens_in_inventory = 3;
    let mut w1 = werewolf_at(2000, 0);
    w1.base = 1;
    let mut werewolves = vec![w0, w1];
    let mut bases = vec![
        Base::default_on_point(Vec2i { x: 0, y: 0 }),
        Base::default_on_point(Vec2i { x: 2000, y: 0 }),
    ];
    let mut chickens: Vec<Option<Chicken>> = Vec::new();
    werewolf_behave(&mut werewolves, &mut bases, &mut chickens, 16);
    assert_eq!(bases[0].chickens_amount, 3);
    assert_eq!(werewolves[0].chickens_in_inventory, 0);
    assert_eq!(bases[1].chickens_amount, 0);
}
