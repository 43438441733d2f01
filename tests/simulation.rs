use rand::thread_rng;
use snake::direction::Direction;
use snake::game::Game;
use snake::geometry::{GridPosition, CELL_SIZE, HALF_HEIGHT, HALF_WIDTH};

fn pos(x: i32, y: i32) -> GridPosition {
    GridPosition { x, y }
}

fn on_grid(p: GridPosition) -> bool {
    p.x % CELL_SIZE == 0 && p.y % CELL_SIZE == 0 && -500 <= p.x && p.x < 500 && -500 <= p.y && p.y < 500
}

#[test]
fn start_state_one_tick_and_ten_ticks() {
    let mut rng = thread_rng();
    let mut g = Game::new(pos(200, 180));
    let none: Vec<Direction> = Vec::new();
    g.tick(&none, &mut rng);
    assert_eq!(g.head, pos(0, 20));
    assert_eq!(g.body, vec![pos(0, 0)]);
    for _ in 1..10 {
        g.tick(&none, &mut rng);
    }
    assert_eq!(g.head, pos(0, 200));
    assert_eq!(g.direction, Direction::Up);
    assert_eq!(g.body, vec![pos(0, 180)]);
    assert_eq!(g.apple, pos(200, 180));
}

#[test]
fn tick_below_edge_does_not_wrap() {
    let mut rng = thread_rng();
    let mut g = Game::new(pos(200, 180));
    g.head = pos(0, 200);
    g.tick(&Vec::new(), &mut rng);
    assert_eq!(g.head, pos(0, 220));
}

#[test]
fn tick_past_top_edge_wraps_to_bottom() {
    let mut rng = thread_rng();
    let mut g = Game::new(pos(200, 180));
    g.head = pos(0, 490);
    g.body = vec![pos(0, 470)];
    g.tick(&Vec::new(), &mut rng);
    assert_eq!(g.head, pos(0, -500));
    assert_eq!(g.body, vec![pos(0, 490)]);
}

#[test]
fn eating_apple_relocates_it_and_grows_body() {
    let mut rng = thread_rng();
    let mut g = Game::new(pos(0, 20));
    g.tick(&Vec::new(), &mut rng);
    assert_eq!(g.head, pos(0, 20));
    assert_eq!(g.body.len(), 2);
    assert_eq!(g.body, vec![pos(0, 0), pos(0, -20)]);
    assert_ne!(g.apple, pos(0, 0));
    assert_ne!(g.apple, pos(0, -20));
    assert_ne!(g.apple, g.head);
    assert!(on_grid(g.apple));
}

#[test]
fn growth_adds_exactly_one_segment_many_times() {
    let mut rng = thread_rng();
    for _ in 0..200 {
        let mut g = Game::new(pos(0, 20));
        g.body = vec![pos(0, -20), pos(0, -40), pos(0, -60)];
        let before = g.body.len();
        g.tick(&Vec::new(), &mut rng);
        assert_eq!(g.body.len(), before + 1);
        assert_eq!(g.body, vec![pos(0, 0), pos(0, -20), pos(0, -40), pos(0, -60)]);
        assert_ne!(g.apple, pos(0, 0));
        assert_ne!(g.apple, pos(0, -20));
        assert_ne!(g.apple, pos(0, 20));
        assert!(on_grid(g.apple));
    }
}

#[test]
fn movement_is_one_cell_in_each_direction() {
    let cases = [
        (Direction::Up, pos(40, 60)),
        (Direction::Down, pos(40, 20)),
        (Direction::Left, pos(20, 40)),
        (Direction::Right, pos(60, 40)),
    ];
    for (d, expected) in cases {
        let mut g = Game::new(pos(200, 180));
        g.head = pos(40, 40);
        g.direction = d;
        g.move_snake();
        assert_eq!(g.head, expected);
        let ddx = (g.head.x - 40).abs();
        let ddy = (g.head.y - 40).abs();
        assert_eq!(ddx + ddy, CELL_SIZE);
        assert!(ddx == 0 || ddy == 0);
    }
}

#[test]
fn body_follows_the_head_as_a_chain() {
    let mut g = Game::new(pos(200, 180));
    g.head = pos(0, 0);
    g.direction = Direction::Right;
    g.body = vec![pos(-20, 0), pos(-40, 0), pos(-40, -20)];
    let vacated = g.move_snake();
    assert_eq!(g.head, pos(20, 0));
    assert_eq!(g.body, vec![pos(0, 0), pos(-20, 0), pos(-40, 0)]);
    assert_eq!(vacated, pos(-40, -20));
}

#[test]
fn empty_body_moves_only_the_head() {
    let mut g = Game::new(pos(200, 180));
    g.body = Vec::new();
    g.direction = Direction::Left;
    let vacated = g.move_snake();
    assert_eq!(g.head, pos(-20, 0));
    assert!(g.body.is_empty());
    assert_eq!(vacated, pos(0, 0));
}

#[test]
fn wrap_on_every_edge() {
    let cases = [
        (pos(520, 40), pos(-HALF_WIDTH, 40)),
        (pos(-520, 40), pos(HALF_WIDTH, 40)),
        (pos(40, 520), pos(40, -HALF_HEIGHT)),
        (pos(40, -520), pos(40, HALF_HEIGHT)),
        (pos(500, -500), pos(500, -500)),
        (pos(40, 60), pos(40, 60)),
    ];
    for (before, after) in cases {
        let mut g = Game::new(pos(200, 180));
        g.head = before;
        g.wrap_head();
        assert_eq!(g.head, after);
        assert_eq!(before.wrapped(), after);
    }
}

#[test]
fn self_collision_clears_body() {
    let mut g = Game::new(pos(200, 180));
    g.head = pos(20, 20);
    g.body = vec![pos(0, 20), pos(0, 0), pos(20, 0), pos(20, 20), pos(40, 20)];
    assert!(g.check_self_collision());
    assert!(g.body.is_empty());
    assert_eq!(g.head, pos(20, 20));
}

#[test]
fn no_self_collision_keeps_body() {
    let mut g = Game::new(pos(200, 180));
    g.body = vec![pos(0, -20), pos(0, -40)];
    assert!(!g.check_self_collision());
    assert_eq!(g.body, vec![pos(0, -20), pos(0, -40)]);
}

#[test]
fn tick_into_own_body_clears_it() {
    let mut rng = thread_rng();
    let mut g = Game::new(pos(200, 180));
    g.head = pos(0, 0);
    g.direction = Direction::Left;
    g.body = vec![pos(20, 0), pos(20, -20), pos(0, -20), pos(-20, -20), pos(-20, 0), pos(-40, 0)];
    g.tick(&Vec::new(), &mut rng);
    assert_eq!(g.head, pos(-20, 0));
    assert!(g.body.is_empty());
    g.tick(&Vec::new(), &mut rng);
    assert_eq!(g.head, pos(-40, 0));
    assert!(g.body.is_empty());
}

#[test]
fn crash_and_apple_on_same_tick() {
    let mut rng = thread_rng();
    let mut g = Game::new(pos(-20, 0));
    g.head = pos(0, 0);
    g.direction = Direction::Left;
    g.body = vec![pos(20, 0), pos(20, -20), pos(0, -20), pos(-20, -20), pos(-20, 0), pos(-40, 0)];
    g.tick(&Vec::new(), &mut rng);
    assert_eq!(g.head, pos(-20, 0));
    assert_eq!(g.body, vec![pos(-40, 0)]);
    assert_ne!(g.apple, pos(-20, 0));
    assert_ne!(g.apple, pos(-40, 0));
}

#[test]
fn reversal_is_refused_for_every_direction() {
    for d in [Direction::Up, Direction::Down, Direction::Left, Direction::Right] {
        let mut g = Game::new(pos(200, 180));
        g.direction = d;
        g.handle_input(&vec![d.opposite()]);
        assert_eq!(g.direction, d);
    }
}

#[test]
fn turns_are_accepted() {
    let mut g = Game::new(pos(200, 180));
    g.handle_input(&vec![Direction::Left]);
    assert_eq!(g.direction, Direction::Left);
    g.handle_input(&vec![Direction::Up]);
    assert_eq!(g.direction, Direction::Up);
    g.handle_input(&Vec::new());
    assert_eq!(g.direction, Direction::Up);
}

#[test]
fn last_accepted_key_wins() {
    assert_eq!(
        Direction::Up.apply_inputs(&vec![Direction::Down, Direction::Left]),
        Direction::Left
    );
    assert_eq!(
        Direction::Up.apply_inputs(&vec![Direction::Left, Direction::Right]),
        Direction::Right
    );
    assert_eq!(
        Direction::Up.apply_inputs(&vec![Direction::Right, Direction::Down]),
        Direction::Right
    );
    assert_eq!(
        Direction::Up.apply_inputs(&vec![Direction::Down, Direction::Down]),
        Direction::Up
    );
}

#[test]
fn no_key_order_reverses_the_heading() {
    let all = [Direction::Up, Direction::Down, Direction::Left, Direction::Right];
    for d in all {
        for a in all {
            for b in all {
                let mut g = Game::new(pos(200, 180));
                g.direction = d;
                g.handle_input(&vec![a, b]);
                assert_ne!(g.direction, d.opposite());
                let expected = if b != d.opposite() {
                    b
                } else if a != d.opposite() {
                    a
                } else {
                    d
                };
                assert_eq!(g.direction, expected);
            }
        }
    }
}

#[test]
fn tick_with_turn_then_reversal_keeps_clear_of_the_neck() {
    let mut rng = thread_rng();
    let mut g = Game::new(pos(200, 180));
    g.tick(&vec![Direction::Left, Direction::Down], &mut rng);
    assert_eq!(g.direction, Direction::Left);
    assert_eq!(g.head, pos(-20, 0));
    assert_eq!(g.body, vec![pos(0, 0)]);
}

#[test]
fn input_takes_effect_on_next_step() {
    let mut rng = thread_rng();
    let mut g = Game::new(pos(200, 180));
    g.tick(&vec![Direction::Right], &mut rng);
    assert_eq!(g.head, pos(20, 0));
    assert_eq!(g.body, vec![pos(0, 0)]);
    g.tick(&vec![Direction::Left], &mut rng);
    assert_eq!(g.direction, Direction::Right);
    assert_eq!(g.head, pos(40, 0));
}

#[test]
fn setup_places_apple_off_spawn_cells() {
    let mut rng = thread_rng();
    for _ in 0..200 {
        let g = Game::setup(&mut rng);
        assert_eq!(g.head, pos(0, 0));
        assert_eq!(g.direction, Direction::Up);
        assert_eq!(g.body, vec![pos(0, -20)]);
        assert_ne!(g.apple, pos(0, 0));
        assert_ne!(g.apple, pos(0, -20));
        assert!(on_grid(g.apple));
    }
}

#[test]
fn well_formed_requires_every_position_in_playfield() {
    let mut g = Game::new(pos(200, 180));
    assert!(g.is_well_formed());
    g.body.push(pos(0, 520));
    assert!(!g.is_well_formed());
    g.body.pop();
    g.head = pos(-520, 0);
    assert!(!g.is_well_formed());
    assert!(pos(500, -500).in_playfield());
    assert!(!pos(501, 0).in_playfield());
}
