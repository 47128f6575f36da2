use chicken_sim::base::Base;
use chicken_sim::chicken::{Chicken, ChickenBehaviour};
use chicken_sim::chicken_corral::ChickenCorral;
use chicken_sim::sim::{PlayerInput, Sim};
use chicken_sim::spawning::spawn_corral_walls;
use chicken_sim::timer::Timer;
use chicken_sim::vec2::Vec2i;
use chicken_sim::werewolf::Werewolf;

fn no_input() -> PlayerInput {
    PlayerInput {
        up: false,
        down: false,
        left: false,
        right: false,
        catch_pressed: false,
        give_pressed: false,
    }
}

fn small_world() -> Sim {
    let corrals = vec![ChickenCorral::unclaimed_at(Vec2i { x: 600, y: 0 })];
    let walls = spawn_corral_walls(&corrals);
    let mut rival = Werewolf::default_on_point_with_base(Vec2i { x: 5000, y: 0 }, 1);
    rival.corral = Some(0);
    rival.corral_pos = Some(Vec2i { x: 600, y: 0 });
    Sim {
        player: chicken_sim::player::Player::default(),
        player_base: 0,
        bases: vec![
            Base::default_on_point(Vec2i { x: 0, y: 0 }),
            Base::default_on_point(Vec2i { x: 5000, y: 0 }),
        ],
        corrals,
        walls,
        chickens: vec![Some(Chicken {
            pos: Vec2i { x: 99, y: 0 },
            behaviour: ChickenBehaviour::Idle,
            move_dir: None,
            behaviour_change_timer: Timer::from_millis(5000),
            catchable: false,
        })],
        werewolves: vec![rival],
        chicken_spawn_timer: Timer::from_millis(3000),
        popup: None,
    }
}

#[test]
fn first_frame_acquires_the_nearby_chicken() {
    let mut sim = small_world();
    let ev = sim.tick(no_input(), 16);
    assert_eq!(ev.targeting.marked, Some(0));
    assert_eq!(sim.player.catchable_chicken, Some(0));
    assert!(sim.chickens[0].unwrap().catchable);
    assert!(!ev.inventory_full);
}

#[test]
fn catch_then_deposit_banks_the_chicken() {
    let mut sim = small_world();
    sim.tick(no_input(), 16);
    let mut catch_input = no_input();
    catch_input.catch_pressed = true;
    sim.tick(catch_input, 16);
    assert_eq!(sim.player.inventory_chickens_amount, 1);
    assert!(sim.chickens[0].is_none());
    let mut give_input = no_input();
    give_input.give_pressed = true;
    sim.tick(give_input, 16);
    assert_eq!(sim.player.inventory_chickens_amount, 0);
    assert_eq!(sim.bases[0].chickens_amount, 1);
}

#[test]
fn scores_never_shrink_and_marks_stay_single() {
    let mut sim = small_world();
    let mut input = no_input();
    input.right = true;
    input.catch_pressed = true;
    input.give_pressed = true;
    let mut last_scores: Vec<u64> = sim.bases.iter().map(|b| b.chickens_amount).collect();
    for _ in 0..600 {
        let before_len = sim.chickens.len();
        sim.tick(input, 16);
        // A spawn wave adds one chicken per corral, at most.
        assert!(sim.chickens.len() <= before_len + sim.corrals.len());
        // Banked scores only ever grow during play.
        for (b, last) in sim.bases.iter().zip(last_scores.iter()) {
            assert!(b.chickens_amount >= *last);
        }
        last_scores = sim.bases.iter().map(|b| b.chickens_amount).collect();
        // At most one chicken carries the Catchable mark, and only the
        // player's current target does.
        let marked: Vec<usize> = sim
            .chickens
            .iter()
            .enumerate()
            .filter_map(|(i, c)| match c {
                Some(c) if c.catchable => Some(i),
                _ => None,
            })
            .collect();
        assert!(marked.len() <= 1);
        for i in &marked {
            assert_eq!(sim.player.catchable_chicken, Some(*i));
        }
        // Inventories stay within their bounds.
        assert!(sim.player.inventory_chickens_amount <= 5);
        for w in &sim.werewolves {
            assert!(w.chickens_in_inventory <= 5);
        }
    }
}

#[test]
fn lvlup_through_the_context() {
    let mut sim = small_world();
    sim.bases[0].chickens_amount = 10;
    sim.lvlup(chicken_sim::player::LvlupType::Speed);
    assert_eq!(sim.player.speed_multiplier, 110);
    assert_eq!(sim.bases[0].chickens_amount, 0);
}
