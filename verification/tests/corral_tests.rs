use chicken_sim::chicken::Chicken;
use chicken_sim::chicken_corral::{
    assign_player_to_corral, assign_werewolf_to_corral, ChickenCorral, CorralOwner, WallType,
};
use chicken_sim::player::Player;
use chicken_sim::spawning::{
    spawn_chicken_in_corral, spawn_chicken_in_corrals, spawn_corral_walls,
};
use chicken_sim::timer::Timer;
use chicken_sim::vec2::Vec2i;
use chicken_sim::werewolf::Werewolf;

#[test]
fn player_claims_first_unclaimed_corral() {
    let mut player = Player::default();
    let mut corrals = vec![
        ChickenCorral {
            pos: Vec2i { x: 0, y: 0 },
            belongs_to: Some(CorralOwner::Werewolf(0)),
            length: 8,
            heigth: 8,
        },
        ChickenCorral::unclaimed_at(Vec2i { x: 500, y: 0 }),
        ChickenCorral::unclaimed_at(Vec2i { x: 900, y: 0 }),
    ];
    assign_player_to_corral(&mut player, &mut corrals);
    assert_eq!(player.corral, Some(1));
    assert_eq!(corrals[1].belongs_to, Some(CorralOwner::Player));
    // Claims are permanent: the rival's corral kept its owner.
    assert_eq!(corrals[0].belongs_to, Some(CorralOwner::Werewolf(0)));
    assert_eq!(corrals[2].belongs_to, None);
}

#[test]
fn scenario_each_rival_gets_its_nearest_corral() {
    // Two corrals, two rivals: each rival is assigned the corral nearest
    // to its spawn point, and no corral is assigned twice.
    let mut werewolves = vec![
        Werewolf::default_on_point_with_base(Vec2i { x: 850, y: 0 }, 0),
        Werewolf::default_on_point_with_base(Vec2i { x: 0, y: 0 }, 1),
    ];
    let mut corrals = vec![
        ChickenCorral::unclaimed_at(Vec2i { x: 600, y: 0 }),
        ChickenCorral::unclaimed_at(Vec2i { x: 900, y: 0 }),
    ];
    assign_werewolf_to_corral(&mut werewolves, &mut corrals);
    assert_eq!(werewolves[0].corral, Some(1));
    assert_eq!(werewolves[0].corral_pos, Some(Vec2i { x: 900, y: 0 }));
    assert_eq!(werewolves[1].corral, Some(0));
    assert_eq!(werewolves[1].corral_pos, Some(Vec2i { x: 600, y: 0 }));
    assert_eq!(corrals[1].belongs_to, Some(CorralOwner::Werewolf(0)));
    assert_eq!(corrals[0].belongs_to, Some(CorralOwner::Werewolf(1)));
    assert_ne!(werewolves[0].corral, werewolves[1].corral);
}

#[test]
fn rival_assignment_skips_claimed_corrals() {
    let mut werewolves = vec![Werewolf::default_on_point_with_base(Vec2i { x: 0, y: 0 }, 0)];
    let mut corrals = vec![
        ChickenCorral {
            pos: Vec2i { x: 10, y: 0 },
            belongs_to: Some(CorralOwner::Player),
            length: 8,
            heigth: 8,
        },
        ChickenCorral::unclaimed_at(Vec2i { x: 5000, y: 0 }),
    ];
    assign_werewolf_to_corral(&mut werewolves, &mut corrals);
    // The nearer corral is taken, so the far unclaimed one is assigned.
    assert_eq!(werewolves[0].corral, Some(1));
    assert_eq!(corrals[0].belongs_to, Some(CorralOwner::Player));
}

#[test]
fn wall_perimeter_of_a_two_by_two_corral() {
    let corrals = vec![ChickenCorral {
        pos: Vec2i { x: 0, y: 0 },
        belongs_to: None,
        length: 2,
        heigth: 2,
    }];
    let walls = spawn_corral_walls(&corrals);
    assert_eq!(walls.len(), 8);
    // The grid starts at the top-left corner and runs clockwise.
    assert_eq!(walls[0].pos, Vec2i { x: -50, y: 50 });
    assert_eq!(walls[0].wall_type, WallType::Corner);
    assert_eq!(walls[1].pos, Vec2i { x: 0, y: 50 });
    assert_eq!(walls[1].wall_type, WallType::Edge);
    assert_eq!(walls[2].pos, Vec2i { x: 50, y: 50 });
    assert_eq!(walls[2].wall_type, WallType::Corner);
    assert_eq!(walls[3].pos, Vec2i { x: 50, y: 0 });
    assert_eq!(walls[4].pos, Vec2i { x: 50, y: -50 });
    assert_eq!(walls[4].wall_type, WallType::Corner);
    assert_eq!(walls[5].pos, Vec2i { x: 0, y: -50 });
    assert_eq!(walls[6].pos, Vec2i { x: -50, y: -50 });
    assert_eq!(walls[6].wall_type, WallType::Corner);
    assert_eq!(walls[7].pos, Vec2i { x: -50, y: 0 });
}

#[test]
fn wall_count_covers_every_corral() {
    let corrals = vec![
        ChickenCorral::unclaimed_at(Vec2i { x: 0, y: 0 }),
        ChickenCorral { pos: Vec2i { x: 1000, y: 0 }, belongs_to: None, length: 3, heigth: 2 },
    ];
    let walls = spawn_corral_walls(&corrals);
    // 2 * (8 + 8) for the default corral plus 2 * (3 + 2).
    assert_eq!(walls.len(), 42);
}

#[test]
fn spawned_chicken_lands_inside_the_corral() {
    let corral = ChickenCorral::unclaimed_at(Vec2i { x: 0, y: 0 });
    for _ in 0..100 {
        let c = spawn_chicken_in_corral(&corral);
        // The spawn box of a default corral at the origin; the far
        // edges are excluded.
        assert!(-150 <= c.pos.x && c.pos.x < 200);
        assert!(-200 < c.pos.y && c.pos.y <= 150);
        assert!(c.move_dir.is_none());
        assert!(!c.catchable);
    }
}

#[test]
fn spawn_wave_fills_every_corral() {
    // One chicken appears in each corral per wave, and none before the
    // timer fires.
    let corrals = vec![
        ChickenCorral::unclaimed_at(Vec2i { x: 0, y: 0 }),
        ChickenCorral::unclaimed_at(Vec2i { x: 5000, y: 0 }),
    ];
    let mut chickens: Vec<Option<Chicken>> = vec![None];
    let mut timer = Timer::from_millis(3000);
    spawn_chicken_in_corrals(&mut timer, &corrals, &mut chickens, 1000);
    assert_eq!(chickens.len(), 1);
    spawn_chicken_in_corrals(&mut timer, &corrals, &mut chickens, 2000);
    assert_eq!(chickens.len(), 3);
    let first = chickens[1].unwrap();
    let second = chickens[2].unwrap();
    // Each new chicken sits in its own corral's spawn box.
    assert!(first.pos.x < 2500);
    assert!(second.pos.x > 2500);
}

#[test]
fn corral_tie_goes_to_the_lowest_slot() {
    let mut werewolves = vec![Werewolf::default_on_point_with_base(Vec2i { x: 0, y: 0 }, 0)];
    let mut corrals = vec![
        ChickenCorral::unclaimed_at(Vec2i { x: 0, y: 300 }),
        ChickenCorral::unclaimed_at(Vec2i { x: 0, y: -300 }),
    ];
    assign_werewolf_to_corral(&mut werewolves, &mut corrals);
    assert_eq!(werewolves[0].corral, Some(0));
}
