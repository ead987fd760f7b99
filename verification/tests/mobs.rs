use runner::mobs::{Goomba, Troopa, SQUASHED_HALF_HEIGHT, TROOPA_HALF_HEIGHT};
use runner::collision::{
    resolve, Collision_rect, Collisioner, Contact, TypeTag, BOTTOM, LEFT, NONE, RIGHT, TOP,
};
use runner::render::Sprite;
use runner::spirit::Mario;
use runner::units::{
    CELL_H, CELL_W, DESPAWN_TICKS, EPSILON, SHELL_SPEED, TRIGGER_DISTANCE, WALK_SPEED,
};

fn at(x: i64, y: i64) -> Collision_rect {
    Collision_rect { x, y, w: CELL_W, h: CELL_H }
}

#[test]
fn a_new_goomba_sleeps() {
    let g = Goomba::create(1_000, 2_000);
    assert_eq!((g.obj.x, g.obj.y, g.obj.h, g.obj.w), (1_000, 2_000, 40_000, 37_500));
    assert_eq!(g.obj.move_acc_x, -WALK_SPEED);
    assert_eq!(g.obj.move_acc_x, -20);
    assert_eq!(g.obj.frames, 3);
    assert_eq!(g.obj.sprite, Sprite::Goomba);
    assert_eq!((g.delay, g.state), (0, 0));
    assert!(!g.to_move && !g.is_squash);
    assert_eq!(g.get_type(), TypeTag::Goomba);
    assert_eq!(g.get_collision_rect(), at(1_000, 2_000));
    let mut same = g;
    same.run_default_behavior(16);
    assert_eq!(same, g);
}

#[test]
fn squashing_a_goomba_flattens_it() {
    let mut g = Goomba::create(1_000, 2_000);
    g.state = 1;
    g.delay = 7;
    g.to_move = true;
    g.squash();
    assert!(g.is_squash);
    assert_eq!((g.obj.x, g.obj.y), (1_000, 2_000));
    assert_eq!(g.obj.h, SQUASHED_HALF_HEIGHT);
    assert_eq!(g.obj.h, 20_000);
    assert_eq!(g.obj.w, 37_500);
    assert_eq!(g.obj.move_acc_x, 0);
    assert_eq!(g.obj.sprite, Sprite::GoombaSquash);
    assert_eq!(g.obj.frames, 1);
    assert_eq!(g.state, 0);
    assert_eq!(g.delay, 0);
    assert!(g.to_move);
    assert_eq!(g.get_type(), TypeTag::Nil);
}

#[test]
fn a_stomp_squashes_and_the_player_lives() {
    let mut player = Mario::create(0, 0, CELL_H, CELL_W);
    player.move_acc_y = -30;
    let mut goomba = Goomba::create(10_000, -70_000);
    let seen_by_player = player.get_collision_rect().check_hitbox(goomba.get_collision_rect());
    let seen_by_goomba = goomba.get_collision_rect().check_hitbox(player.get_collision_rect());
    assert_eq!(seen_by_player, vec![BOTTOM]);
    assert_eq!(seen_by_goomba, vec![TOP]);
    let (goomba_rect, player_rect) = (goomba.get_collision_rect(), player.get_collision_rect());
    player.handle_collision(goomba.get_type(), goomba_rect, seen_by_player);
    goomba.handle_collision(TypeTag::Player, player_rect, seen_by_goomba);
    assert!(goomba.is_squash);
    assert!(!player.is_dead);
    assert_eq!(player.move_acc_y, 30);
}

#[test]
fn a_goomba_from_the_side_kills_and_walks_on() {
    for (x, player_side, goomba_side) in [(-60_000, LEFT, RIGHT), (60_000, RIGHT, LEFT)] {
        let mut player = Mario::create(0, 0, CELL_H, CELL_W);
        let mut goomba = Goomba::create(x, 1_000);
        let before = goomba;
        let seen_by_player = player.get_collision_rect().check_hitbox(goomba.get_collision_rect());
        let seen_by_goomba = goomba.get_collision_rect().check_hitbox(player.get_collision_rect());
        assert_eq!(seen_by_player, vec![player_side]);
        assert_eq!(seen_by_goomba, vec![goomba_side]);
        let (goomba_rect, player_rect) = (goomba.get_collision_rect(), player.get_collision_rect());
        player.handle_collision(goomba.get_type(), goomba_rect, seen_by_player);
        goomba.handle_collision(TypeTag::Player, player_rect, seen_by_goomba);
        assert!(player.is_dead);
        assert!(!goomba.is_squash);
        assert_eq!(goomba, before);
    }
}

#[test]
fn a_squashed_goomba_is_harmless_and_reacts_to_nothing() {
    let mut g = Goomba::create(0, 0);
    g.squash();
    let before = g;
    for tag in [TypeTag::Player, TypeTag::KickedShell, TypeTag::Block, TypeTag::Goomba] {
        for side in [BOTTOM, TOP, LEFT, RIGHT] {
            g.handle_collision(tag, at(10_000, 10_000), vec![side]);
            assert_eq!(g, before);
        }
    }
    let mut player = Mario::create(0, 30_000, CELL_H, CELL_W);
    let still = player;
    let hits = resolve(
        &mut player,
        &vec![Contact { kind: g.get_type(), rect: g.get_collision_rect(), enter: false }],
        None,
    );
    assert_eq!(hits, vec![BOTTOM]);
    assert_eq!(player, still);
}

#[test]
fn a_squashed_goomba_counts_down() {
    let mut g = Goomba::create(0, 0);
    g.squash();
    assert!(!g.gone());
    for n in 1..=DESPAWN_TICKS {
        g.set_default_behavior();
        g.run_default_behavior(16);
        assert_eq!(g.delay, n);
        assert_eq!((g.obj.x, g.obj.y), (0, 0));
    }
    assert_eq!(DESPAWN_TICKS, 30);
    assert!(g.gone());
    g.run_default_behavior(16);
    assert_eq!(g.delay, 30);
}

#[test]
fn a_goomba_wakes_when_the_player_is_in_reach() {
    assert_eq!(TRIGGER_DISTANCE, 1_200_000);
    let mut g = Goomba::create(2_000_000, 0);
    g.wake(799_999);
    assert!(!g.to_move);
    g.wake(3_200_001);
    assert!(!g.to_move);
    g.wake(800_000);
    assert!(g.to_move);
    g.wake(-9_000_000);
    assert!(g.to_move);
    let mut h = Goomba::create(2_000_000, 0);
    h.wake(3_200_000);
    assert!(h.to_move);
}

#[test]
fn a_woken_goomba_walks_and_steps() {
    let mut g = Goomba::create(0, 0);
    g.to_move = true;
    g.run_default_behavior(10);
    assert_eq!(g.obj.x, -20 * 10 * 30);
    assert_eq!(g.obj.y, 0);
    assert_eq!(g.delay, 1);
    g.set_default_behavior();
    assert!(g.obj.is_falling);
    g.run_default_behavior(10);
    assert_eq!(g.obj.move_acc_y, -3);
    assert_eq!(g.obj.y, -900);
    let mut states = vec![g.state];
    for _ in 0..20 {
        g.run_default_behavior(1);
        states.push(g.state);
    }
    assert_eq!(&states[..8], &[0; 8]);
    assert_eq!(&states[8..18], &[1; 10]);
    assert_eq!(&states[18..], &[0, 0, 0]);
}

#[test]
fn a_goomba_lands_and_turns_at_walls_and_mobs() {
    let mut g = Goomba::create(0, 0);
    g.set_default_behavior();
    g.obj.move_acc_y = -9;
    g.handle_collision(TypeTag::Block, at(0, -79_000), vec![BOTTOM]);
    assert_eq!(g.obj.y, 1_000);
    assert_eq!(g.obj.move_acc_y, 0);
    assert!(!g.obj.is_falling);
    g.handle_collision(TypeTag::Stone, at(-70_000, 0), vec![LEFT]);
    assert_eq!(g.obj.x, -70_000 + 75_000 + EPSILON);
    assert_eq!(g.obj.move_acc_x, 20);
    let x = g.obj.x;
    g.handle_collision(TypeTag::Goomba, at(x + 60_000, 0), vec![RIGHT]);
    assert_eq!(g.obj.x, x);
    assert_eq!(g.obj.move_acc_x, -20);
    g.handle_collision(TypeTag::Troopa, at(x - 60_000, 0), vec![LEFT]);
    assert_eq!(g.obj.move_acc_x, 20);
    // a meeting from above or below does not turn it
    g.handle_collision(TypeTag::Goomba, at(x, 60_000), vec![TOP]);
    assert_eq!(g.obj.move_acc_x, 20);
    // the player does not turn it either
    g.handle_collision(TypeTag::Player, at(x + 60_000, 0), vec![RIGHT]);
    assert_eq!(g.obj.move_acc_x, 20);
    assert!(!g.is_squash);
}

#[test]
fn a_kicked_shell_squashes_a_goomba_from_any_side() {
    for side in [BOTTOM, TOP, LEFT, RIGHT] {
        let mut g = Goomba::create(0, 0);
        g.handle_collision(TypeTag::KickedShell, at(10_000, 0), vec![side]);
        assert!(g.is_squash);
    }
    let mut g = Goomba::create(0, 0);
    g.handle_collision(TypeTag::KickedShell, at(10_000, 0), vec![NONE]);
    assert!(!g.is_squash);
    let mut g = Goomba::create(0, 0);
    g.handle_collision(TypeTag::Shell, at(10_000, 0), vec![LEFT]);
    assert!(!g.is_squash);
    assert_eq!(g.obj.move_acc_x, -20);
}

#[test]
fn a_new_troopa_is_taller() {
    let t = Troopa::create(1_000, 2_000);
    assert_eq!(t.obj.h, TROOPA_HALF_HEIGHT);
    assert_eq!((t.obj.x, t.obj.y, t.obj.h, t.obj.w), (1_000, 2_000, 60_000, 37_500));
    assert_eq!(t.obj.move_acc_x, -20);
    assert_eq!(t.obj.sprite, Sprite::Troopa);
    assert!(!t.to_move && !t.is_squash && !t.to_move_squash);
    assert_eq!(t.get_type(), TypeTag::Troopa);
}

#[test]
fn squashing_a_troopa_leaves_a_shell() {
    let mut t = Troopa::create(1_000, 2_000);
    t.state = 1;
    t.delay = 3;
    t.squash();
    assert!(t.is_squash);
    assert!(!t.to_move_squash);
    assert_eq!((t.obj.x, t.obj.y, t.obj.h, t.obj.w), (1_000, 2_000, 40_000, 37_500));
    assert_eq!(t.obj.sprite, Sprite::TroopaSquash);
    assert_eq!(t.obj.move_acc_x, 0);
    assert_eq!((t.state, t.delay), (0, 0));
    assert_eq!(t.get_type(), TypeTag::Shell);
}

#[test]
fn a_shell_is_kicked_away_from_the_player() {
    let mut t = Troopa::create(0, 0);
    t.handle_collision(TypeTag::Player, at(0, 70_000), vec![TOP]);
    assert!(t.is_squash);
    let resting = t;
    // touching it from above again does nothing
    t.handle_collision(TypeTag::Player, at(0, 70_000), vec![TOP]);
    assert_eq!(t, resting);
    // the player on its left kicks it to the right
    t.handle_collision(TypeTag::Player, at(-60_000, 0), vec![LEFT]);
    assert!(t.to_move_squash);
    assert_eq!(t.obj.move_acc_x, SHELL_SPEED);
    assert_eq!(t.obj.move_acc_x, 60);
    assert_eq!(t.get_type(), TypeTag::KickedShell);
    let mut u = resting;
    u.handle_collision(TypeTag::Player, at(60_000, 0), vec![RIGHT]);
    assert_eq!(u.obj.move_acc_x, -60);
    assert_eq!(u.get_type(), TypeTag::KickedShell);
}

#[test]
fn a_kicked_shell_kills_turns_and_can_be_halted() {
    let mut t = Troopa::create(0, 0);
    t.squash();
    t.handle_collision(TypeTag::Player, at(-60_000, 0), vec![LEFT]);
    // deadly to the player from the side
    let mut player = Mario::create(60_000, 0, CELL_H, CELL_W);
    player.handle_collision(t.get_type(), t.get_collision_rect(), vec![LEFT]);
    assert!(player.is_dead);
    // moves three times as fast as a walking mob
    t.run_default_behavior(10);
    assert_eq!(t.obj.x, 60 * 10 * 30);
    assert_eq!(t.delay, 0);
    // turns at a wall
    let x = t.obj.x;
    t.handle_collision(TypeTag::Pipe, at(x + 70_000, 0), vec![RIGHT]);
    assert_eq!(t.obj.move_acc_x, -60);
    assert_eq!(t.obj.x, x + 70_000 - 75_000 - EPSILON);
    // goes through other mobs
    let moving = t;
    t.handle_collision(TypeTag::Goomba, at(0, 0), vec![LEFT]);
    assert_eq!(t, moving);
    // a touch from the side does not kick it again
    t.handle_collision(TypeTag::Player, at(0, 0), vec![LEFT]);
    assert_eq!(t, moving);
    // a stomp halts it
    t.handle_collision(TypeTag::Player, at(0, 70_000), vec![TOP]);
    assert!(!t.to_move_squash);
    assert_eq!(t.obj.move_acc_x, 0);
    assert_eq!(t.get_type(), TypeTag::Shell);
}

#[test]
fn a_shell_at_rest_counts_down_and_a_kicked_one_does_not() {
    let mut t = Troopa::create(0, 0);
    t.squash();
    for _ in 0..30 {
        assert!(!t.gone());
        t.run_default_behavior(1);
    }
    assert!(t.gone());
    let mut u = Troopa::create(0, 0);
    u.squash();
    u.handle_collision(TypeTag::Player, at(-60_000, 0), vec![LEFT]);
    for _ in 0..40 {
        u.run_default_behavior(1);
    }
    assert_eq!(u.delay, 0);
    assert!(!u.gone());
}

#[test]
fn a_walking_troopa_behaves_like_a_goomba() {
    let mut t = Troopa::create(0, 0);
    t.wake(TRIGGER_DISTANCE + 1);
    assert!(!t.to_move);
    t.wake(TRIGGER_DISTANCE);
    assert!(t.to_move);
    t.run_default_behavior(10);
    assert_eq!(t.obj.x, -6_000);
    t.handle_collision(TypeTag::Goomba, at(-60_000, 0), vec![LEFT]);
    assert_eq!(t.obj.move_acc_x, 20);
    t.handle_collision(TypeTag::KickedShell, at(0, 0), vec![RIGHT]);
    assert!(t.is_squash);
    assert_eq!(t.get_type(), TypeTag::Shell);
    let mut u = Troopa::create(0, 0);
    u.handle_collision(TypeTag::Player, at(-60_000, 0), vec![LEFT]);
    assert!(!u.is_squash);
}
