use runner::game::{Block, Game, SCROLL_EDGE, START_TIME, START_X};
use runner::mobs::{Goomba, Troopa};
use runner::collision::{Collisioner, TypeTag};
use runner::objects::Objects;
use runner::render::Sprite;
use runner::spirit::{Mario, DEAD_FRAME, JUMP_FRAME};
use runner::units::{grid_x, grid_y, CELL_H, CELL_W, EPSILON, UNIT};
use runner::worlds::{BgColor, Tile, TileUnderground, World};

/// A level of one tile: a full floor, and on it what `furnish` adds.
fn level(furnish: impl Fn(&mut Objects)) -> World {
    let mut tile = Tile::create(1, 1, 1, 0, vec![]);
    furnish(&mut tile.objects);
    World { tiles: vec![tile], tiles_underground: vec![], bg_color: BgColor::Blue }
}

/// A player that stands on the floor at `x`.
fn standing(x: i64) -> Mario {
    Mario::create(x, grid_y(5), CELL_H, CELL_W)
}

fn game(world: World, spirit: Mario) -> Game {
    Game::start(world, spirit, vec![], vec![])
}

#[test]
fn the_game_starts_at_the_start() {
    let g = Game::init();
    let m = g.spirit();
    assert_eq!(START_X, -180_000);
    assert_eq!((m.x, m.y, m.h, m.w), (-180_000, -400_000, 40_000, 37_500));
    assert!(m.is_falling);
    assert_eq!((g.score(), g.coins(), g.time()), (0, 0, 400));
    assert_eq!(START_TIME, 400);
    assert_eq!((g.world_number(), g.world_level()), (1, 1));
    assert_eq!((g.screen_move_x(), g.screen_move_y()), (0, 0));
    assert!(!g.is_over());
    assert!(!g.is_endlvl());
    assert_eq!(g.bg_color(), BgColor::Blue);
    assert_eq!(g.goombas().len(), 16);
    assert_eq!(g.troopas().len(), 1);
    assert_eq!((g.goombas()[0].obj.x, g.goombas()[0].obj.y), (grid_x(45), grid_y(5)));
    assert_eq!((g.goombas()[4].obj.x, g.goombas()[4].obj.y), (grid_x(161), grid_y(21)));
    assert_eq!((g.goombas()[15].obj.x, g.goombas()[15].obj.y), (grid_x(351), grid_y(5)));
    assert_eq!((g.troopas()[0].obj.x, g.troopas()[0].obj.y), (grid_x(215), grid_y(5)));
    assert_eq!(g.blocks().len(), 51);
    assert_eq!(g.question_blocks().len(), 13);
    assert_eq!(g.coin_blocks().len(), 19);
    assert!(g.objects_still().is_empty());
    assert!(g.objects_inmove().is_empty());
    let icon = g.hud_coin_icon();
    assert_eq!((icon.x, icon.y, icon.h, icon.w), (-168_750, 460_000, 20_000, 18_750));
    assert_eq!(icon.frames, 3);
    assert_eq!(icon.sprite, Sprite::CoinIcon);
    assert_eq!(g.world().tiles.len(), 13);
}

#[test]
fn the_player_settles_on_the_floor() {
    let mut g = Game::init();
    // The player starts with its feet on the floor. Gravity pulls it one
    // step in, the next frame lifts it back out, and so on.
    g.handle(16);
    assert_eq!(g.spirit().y, -400_000 - 3 * 16 * 30);
    assert_eq!(g.spirit().move_acc_y, -3);
    assert!(g.spirit().is_falling);
    g.handle(16);
    assert_eq!(g.spirit().y, -400_000);
    assert_eq!(g.spirit().move_acc_y, 0);
    assert!(!g.spirit().is_falling);
    for _ in 0..100 {
        g.handle(16);
        assert!(g.spirit().y == -400_000 || g.spirit().y == -401_440);
        assert_eq!(g.spirit().x, -180_000);
    }
    assert!(!g.is_over());
    assert_eq!(g.score(), 0);
}

#[test]
fn a_falling_player_lands_on_the_floor() {
    let mut m = Mario::create(0, grid_y(5) - 30_000, CELL_H, CELL_W);
    m.move_acc_y = -40;
    let mut g = game(level(|_| {}), m);
    g.handle(16);
    let m = g.spirit();
    // the phase of collisions puts the player on the floor and stops it
    assert_eq!(m.y, grid_y(3) + CELL_H + CELL_H);
    assert_eq!(m.y, grid_y(5));
    assert_eq!(m.move_acc_y, 0);
    assert!(!m.is_falling);
    assert_eq!(m.x, 0);
}

#[test]
fn jumping_needs_firm_ground() {
    let mut g = Game::init();
    g.jump();
    assert_eq!(g.spirit().move_acc_y, 60);
    assert!(g.spirit().is_falling);
    g.jump();
    assert_eq!(g.spirit().move_acc_y, 60);
    g.handle(16);
    assert_eq!(g.spirit().move_acc_y, 57);
    assert_eq!(g.spirit().y, -400_000 + 57 * 16 * 30);
    g.jump();
    assert_eq!(g.spirit().move_acc_y, 57);
    assert_eq!(g.spirit().frame(), JUMP_FRAME);
}

#[test]
fn a_jump_comes_back_down() {
    let mut g = Game::init();
    g.jump();
    let mut top = i64::MIN;
    let mut frames = 0;
    loop {
        g.handle(16);
        frames += 1;
        top = top.max(g.spirit().y);
        if !g.spirit().is_falling {
            break;
        }
        assert!(frames < 200);
    }
    assert_eq!(g.spirit().y, -400_000);
    assert_eq!(g.spirit().move_acc_y, 0);
    // nineteen frames up from 57 down to 3 steps of speed
    assert_eq!(top, -400_000 + (57 + 3) * 19 / 2 * 16 * 30);
    assert!(frames > 38);
}

#[test]
fn the_direction_keys() {
    let mut g = Game::init();
    g.move_x("left");
    assert_eq!(g.spirit().move_vel_x, 1);
    g.move_x("right");
    assert_eq!(g.spirit().move_vel_x, -1);
    g.move_x("up");
    assert_eq!(g.spirit().move_vel_x, -1);
    g.move_x("left");
    g.move_x("");
    assert_eq!(g.spirit().move_vel_x, -1);
    g.handle(16);
    assert_eq!(g.spirit().x, -180_000 + 16 * 600);
    assert_eq!(g.spirit().move_vel_x, 0);
    g.crouch();
    assert!(g.spirit().is_crouch);
    g.handle(16);
    assert!(!g.spirit().is_crouch);
}

#[test]
fn the_keys_of_a_frame() {
    let mut g = Game::init();
    g.press(true, false, false, false);
    assert_eq!(g.spirit().move_vel_x, 1);
    g.press(true, true, false, false);
    assert_eq!(g.spirit().move_vel_x, -1);
    assert_eq!(g.spirit().move_acc_y, 0);
    assert!(!g.spirit().is_crouch);
    g.press(false, false, true, true);
    assert_eq!(g.spirit().move_vel_x, -1);
    assert_eq!(g.spirit().move_acc_y, 60);
    assert!(g.spirit().is_crouch);
    let mut h = Game::init();
    h.press(false, false, false, false);
    assert_eq!(h.spirit(), Game::init().spirit());
}

#[test]
fn the_left_edge_of_the_screen_holds_the_player() {
    let mut g = game(level(|_| {}), standing(-UNIT + CELL_W + 100));
    g.move_x("left");
    g.handle(16);
    assert_eq!(g.spirit().x, -UNIT + CELL_W + 100 - 9_600);
    g.handle(16);
    assert_eq!(g.spirit().x, -UNIT + CELL_W);
    assert_eq!(g.screen_move_x(), 0);
}

#[test]
fn the_camera_follows_to_the_right() {
    assert_eq!(SCROLL_EDGE, 120_000);
    let mut g = game(level(|_| {}), standing(-SCROLL_EDGE - 9_600));
    g.move_x("right");
    g.handle(16);
    assert_eq!(g.spirit().x, -120_000);
    assert_eq!(g.screen_move_x(), -9_600);
    g.handle(16);
    assert_eq!(g.screen_move_x(), -9_600);
    g.move_x("right");
    g.handle(16);
    assert_eq!(g.spirit().x, -110_400);
    assert_eq!(g.screen_move_x(), -19_200);
}

#[test]
fn a_wall_stops_the_walk() {
    let wall_x = grid_x(21);
    let mut g = game(
        level(|o| o.create_stone(grid_x(21), grid_y(5), CELL_H, CELL_W)),
        standing(wall_x - 2 * CELL_W - 9_000),
    );
    g.move_x("right");
    g.handle(16);
    // the player is now 600 steps inside the stone
    assert_eq!(g.spirit().x, wall_x - 2 * CELL_W + 600);
    g.handle(16);
    assert_eq!(g.spirit().x, wall_x - 2 * CELL_W - EPSILON);
    let x = g.spirit().x;
    g.handle(16);
    assert_eq!(g.spirit().x, x);
}

/// A player right under a brick at the grid lines (15, 11), on its way up.
fn under_the_block() -> Mario {
    let mut m = Mario::create(grid_x(15), grid_y(9) - 1_000, CELL_H, CELL_W);
    m.move_acc_y = 40;
    m
}

#[test]
fn a_brick_with_a_coin() {
    let world =
        level(|o| o.create_block(grid_x(15), grid_y(11), CELL_H, CELL_W, true, Sprite::Brick));
    let mut g = game(world, under_the_block());
    // the player rises into the brick
    g.handle(16);
    assert_eq!(g.spirit().y, grid_y(9) - 1_000 + 37 * 16 * 30);
    assert!(g.objects_still().is_empty());
    // the brick is hit from below
    g.handle(16);
    assert_eq!(g.blocks()[0].sprite, Sprite::BrickStill);
    assert!(!g.blocks()[0].collision_event);
    assert_eq!(g.blocks()[0].collision_num, 0);
    assert_eq!(g.objects_still().len(), 1);
    let coin = g.objects_still()[0];
    assert_eq!(coin.object_type, TypeTag::Coin);
    assert_eq!(coin.x, grid_x(15));
    // popped two half-heights above the brick, and one frame on its way
    assert_eq!(coin.move_acc_y, 47);
    assert_eq!(coin.y, grid_y(13) + 47 * 16 * 51);
    // the player was put under the brick and sent down
    assert_eq!(g.spirit().move_acc_y, -23);
    assert_eq!(g.spirit().y, grid_y(9) - 23 * 16 * 30);
    assert_eq!((g.coins(), g.score()), (0, 0));
    // the coin rises for sixteen frames in all, is spent in the frame after
    // its speed turned negative, and counts
    let mut frames = 1;
    while !g.objects_still().is_empty() {
        g.handle(16);
        frames += 1;
        assert!(frames < 100);
    }
    assert_eq!(frames, 18);
    assert_eq!(g.coins(), 1);
    assert_eq!(g.score(), 200);
    // the player landed long ago; jumping into the used brick gives nothing
    for _ in 0..3 {
        g.jump();
        for _ in 0..60 {
            g.handle(16);
        }
    }
    assert!(g.objects_still().is_empty());
    assert_eq!(g.coins(), 1);
    assert_eq!(g.score(), 200);
}

#[test]
fn a_popped_coin_spins() {
    let world =
        level(|o| o.create_block(grid_x(15), grid_y(11), CELL_H, CELL_W, true, Sprite::Brick));
    let mut g = game(world, under_the_block());
    g.handle(16);
    g.handle(16);
    let mut states = vec![g.objects_still()[0].state];
    for _ in 0..12 {
        g.handle(16);
        states.push(g.objects_still()[0].state);
    }
    // the counter of the still objects started with the game
    assert_eq!(states, vec![0, 0, 0, 0, 1, 1, 1, 1, 1, 2, 2, 2, 2]);
}

#[test]
fn a_mystery_block_is_good_for_one_hit() {
    let world = level(|o| {
        o.create_question_mark_block(grid_x(15), grid_y(11), CELL_H, CELL_W, true, TypeTag::Coin)
    });
    let mut g = game(world, under_the_block());
    g.handle(16);
    g.handle(16);
    assert!(g.question_blocks()[0].is_hit);
    assert_eq!(g.objects_still().len(), 1);
    for _ in 0..3 {
        for _ in 0..60 {
            g.handle(16);
        }
        g.jump();
    }
    assert!(g.objects_still().is_empty());
    assert!(g.objects_inmove().is_empty());
    assert_eq!(g.coins(), 1);
    assert_eq!(g.score(), 200);
}

#[test]
fn a_mushroom_leaves_its_block_and_is_eaten() {
    let world = level(|o| {
        o.create_question_mark_block(grid_x(15), grid_y(11), CELL_H, CELL_W, true, TypeTag::Mushroom)
    });
    let mut g = game(world, under_the_block());
    g.handle(16);
    g.handle(16);
    assert!(g.objects_still().is_empty());
    assert_eq!(g.objects_inmove().len(), 1);
    let m = g.objects_inmove()[0];
    assert_eq!(m.object_type, TypeTag::Mushroom);
    // one frame of walking to the right, not yet falling
    assert_eq!((m.x, m.y), (grid_x(15) + 20 * 16 * 30, grid_y(13)));
    // it walks off the block, falls to the floor, and walks on
    for _ in 0..40 {
        g.handle(16);
    }
    let m = g.objects_inmove()[0];
    assert!(m.x > grid_x(17));
    assert!(m.y == grid_y(5) || m.y == grid_y(5) - 1_440);
    assert_eq!(m.move_acc_x, 20);
    // the player walks after it and eats it
    let mut frames = 0;
    while !g.objects_inmove().is_empty() {
        g.move_x("right");
        g.handle(48);
        frames += 1;
        assert!(frames < 500);
    }
    assert!(!g.is_over());
    assert_eq!(g.score(), 0);
}

#[test]
fn a_star_leaves_its_block_flying() {
    let mut world =
        level(|o| o.create_block(grid_x(15), grid_y(11), CELL_H, CELL_W, true, Sprite::Brick));
    world.tiles[0].objects.blocks[0].collision_name = TypeTag::Star;
    let mut g = game(world, under_the_block());
    g.handle(16);
    g.handle(16);
    assert!(g.objects_still().is_empty());
    assert_eq!(g.objects_inmove().len(), 1);
    let s = g.objects_inmove()[0];
    assert_eq!(s.object_type, TypeTag::Star);
    assert_eq!(s.move_acc_y, 60);
    assert_eq!((s.x, s.y), (grid_x(15) + 20 * 16 * 30, grid_y(13) + 60 * 16 * 30));
    g.handle(16);
    let s = g.objects_inmove()[0];
    assert_eq!(s.move_acc_y, 57);
    assert!(s.is_falling);
}

#[test]
fn lying_coins_are_collected_by_touch() {
    let world = level(|o| {
        o.create_coin(grid_x(17), grid_y(5));
        o.create_coin(grid_x(25), grid_y(5));
    });
    let mut g = game(world, standing(grid_x(17) - 2 * CELL_W - 600));
    g.handle(16);
    assert_eq!(g.coin_blocks().len(), 2);
    g.move_x("right");
    g.handle(16);
    assert_eq!(g.coin_blocks().len(), 2);
    g.handle(16);
    assert_eq!(g.coin_blocks().len(), 1);
    assert_eq!(g.coin_blocks()[0].x, grid_x(25));
    assert_eq!(g.coins(), 1);
    assert_eq!(g.score(), 200);
    // a coin does not stop the player
    assert_eq!(g.spirit().x, grid_x(17) - 2 * CELL_W - 600 + 9_600);
}

#[test]
fn lying_coins_glint() {
    let world = level(|o| o.create_coin(grid_x(25), grid_y(15)));
    let mut g = game(world, standing(0));
    let mut states = vec![];
    let mut icon = vec![];
    for _ in 0..32 {
        g.handle(16);
        states.push(g.coin_blocks()[0].state);
        icon.push(g.hud_coin_icon().state);
    }
    assert_eq!(&states[..10], &[0; 10]);
    assert_eq!(&states[10..20], &[1; 10]);
    assert_eq!(&states[20..30], &[2; 10]);
    assert_eq!(&states[30..], &[0, 0]);
    assert_eq!(states, icon);
}

fn awake(x: i64) -> Goomba {
    let mut g = Goomba::create(x, grid_y(5));
    g.to_move = true;
    g
}

#[test]
fn a_stomp_scores_and_the_goomba_goes() {
    let mut m = Mario::create(0, grid_y(7) - 10_000, CELL_H, CELL_W);
    m.move_acc_y = -30;
    let mut goomba = Goomba::create(grid_x(17), grid_y(5));
    goomba.obj.move_acc_x = 0;
    let mut g = Game::start(level(|_| {}), m, vec![goomba], vec![]);
    g.handle(16);
    assert!(g.goombas()[0].is_squash);
    assert_eq!(g.score(), 100);
    assert!(!g.spirit().is_dead);
    assert!(!g.is_over());
    // bounced, then one frame of gravity
    assert_eq!(g.spirit().move_acc_y, 27);
    assert_eq!(g.goombas()[0].delay, 1);
    for n in 2..30 {
        g.handle(16);
        assert_eq!(g.goombas().len(), 1);
        assert_eq!(g.goombas()[0].delay, n);
    }
    g.handle(16);
    assert!(g.goombas().is_empty());
    assert_eq!(g.score(), 100);
    assert!(!g.is_over());
}

#[test]
fn a_goomba_from_the_side_ends_the_game() {
    let mut g = Game::start(
        level(|_| {}),
        standing(0),
        vec![awake(2 * CELL_W + 10_000)],
        vec![],
    );
    let mut frames = 0;
    while !g.is_over() {
        g.handle(16);
        frames += 1;
        assert!(frames < 100);
    }
    // the goomba walks 9_600 steps a frame and has 10_000 to go
    assert_eq!(frames, 3);
    assert!(g.spirit().is_dead);
    assert_eq!(g.spirit().state, DEAD_FRAME);
    assert_eq!(g.spirit().frame(), DEAD_FRAME);
    // the frame of its death is one more frame of falling
    assert_eq!(g.spirit().move_acc_y, -3);
    assert_eq!(g.spirit().y, grid_y(5) - 1_440);
    assert!(!g.goombas()[0].is_squash);
    assert_eq!(g.score(), 0);
    // nothing moves any more
    let (m, x) = (g.spirit(), g.goombas()[0].obj.x);
    g.move_x("right");
    let pressed = g.spirit();
    g.handle(16);
    g.update(16);
    assert_eq!(g.spirit(), pressed);
    assert_eq!(pressed.x, m.x);
    assert_eq!(g.goombas()[0].obj.x, x);
}

#[test]
fn sleeping_mobs_wake_when_the_player_comes_near() {
    let far = Goomba::create(1_500_000, grid_y(5));
    let mut g = Game::start(level(|_| {}), standing(0), vec![far], vec![Troopa::create(1_000_000, grid_y(5) + 20_000)]);
    g.handle(16);
    assert!(!g.goombas()[0].to_move);
    assert_eq!(g.goombas()[0].obj.x, 1_500_000);
    assert!(g.troopas()[0].to_move);
    assert_eq!(g.troopas()[0].obj.x, 1_000_000 - 9_600);
    for _ in 0..40 {
        g.move_x("right");
        g.handle(16);
    }
    assert!(g.goombas()[0].to_move);
    assert!(g.goombas()[0].obj.x < 1_500_000);
}

#[test]
fn two_goombas_turn_round_when_they_meet() {
    let left = {
        let mut g = awake(500_000);
        g.obj.move_acc_x = 20;
        g
    };
    let right = awake(500_000 + 2 * CELL_W + 9_000);
    let mut g = Game::start(level(|_| {}), standing(-300_000), vec![left, right], vec![]);
    g.handle(16);
    assert_eq!(g.goombas()[0].obj.move_acc_x, 20);
    assert_eq!(g.goombas()[1].obj.move_acc_x, -20);
    g.handle(16);
    assert_eq!(g.goombas()[0].obj.move_acc_x, -20);
    assert_eq!(g.goombas()[1].obj.move_acc_x, 20);
    for _ in 0..5 {
        g.handle(16);
        assert_eq!(g.goombas()[0].obj.move_acc_x, -20);
        assert_eq!(g.goombas()[1].obj.move_acc_x, 20);
    }
}

#[test]
fn a_kicked_shell_clears_the_way() {
    let mut troopa = Troopa::create(grid_x(17), grid_y(5));
    troopa.squash();
    let victim = awake(grid_x(17) + 600_000);
    let mut g = Game::start(
        level(|_| {}),
        standing(grid_x(17) - 2 * CELL_W - 600),
        vec![victim],
        vec![troopa],
    );
    g.handle(16);
    g.move_x("right");
    g.handle(16);
    assert!(!g.troopas()[0].to_move_squash);
    // the player now overlaps the shell from the left and kicks it
    g.handle(16);
    assert!(g.troopas()[0].to_move_squash);
    assert_eq!(g.troopas()[0].get_type(), TypeTag::KickedShell);
    assert_eq!(g.troopas()[0].obj.move_acc_x, 60);
    assert!(!g.is_over());
    let mut frames = 0;
    while !g.goombas()[0].is_squash {
        g.handle(16);
        frames += 1;
        assert!(frames < 100);
    }
    assert!(!g.is_over());
    assert_eq!(g.score(), 0);
}

#[test]
fn a_fall_without_a_floor_goes_on() {
    // no floor at all
    let world = World { tiles: vec![], tiles_underground: vec![], bg_color: BgColor::Blue };
    let mut mob = awake(1_000_000);
    mob.obj.move_acc_x = 20;
    let mut g = Game::start(world, standing(0), vec![mob], vec![]);
    let mut y = grid_y(5);
    for frame in 1..=200i64 {
        g.handle(16);
        // gravity takes three steps of speed a frame, and nothing else
        // touches the speed
        y -= 3 * frame * 16 * 30;
        assert_eq!(g.spirit().move_acc_y, -3 * frame);
        assert_eq!(g.spirit().y, y);
        assert!(g.spirit().is_falling);
    }
    assert!(g.spirit().y < -4 * UNIT);
    assert!(!g.spirit().is_dead);
    assert!(!g.is_over());
    assert_eq!(g.spirit().x, 0);
    // a living mob falls on as well
    assert_eq!(g.goombas().len(), 1);
    assert_eq!(g.goombas()[0].obj.y, y);
    assert!(!g.goombas()[0].is_squash);
}

#[test]
fn far_below_the_level_the_rules_are_the_same() {
    // a stone far below: the player lands on it as on any other
    let mut deep = level(|_| {});
    deep.tiles[0].objects.create_stone(0, -10 * UNIT, CELL_H, CELL_W);
    let mut m = Mario::create(0, -10 * UNIT + 2 * CELL_H - 1_000, CELL_H, CELL_W);
    m.move_acc_y = -40;
    let mut g = game(deep, m);
    g.handle(16);
    assert_eq!(g.spirit().y, -10 * UNIT + 2 * CELL_H);
    assert_eq!(g.spirit().move_acc_y, 0);
    assert!(!g.spirit().is_falling);
    assert!(!g.spirit().is_dead);
    assert!(!g.is_over());
    // an upward speed survives the landing
    let mut m = Mario::create(0, -10 * UNIT + 2 * CELL_H - 1_000, CELL_H, CELL_W);
    m.move_acc_y = 60;
    let mut g = game(level(|o| o.create_stone(0, -10 * UNIT, CELL_H, CELL_W)), m);
    g.handle(16);
    assert_eq!(g.spirit().move_acc_y, 60);
    assert_eq!(g.spirit().y, -10 * UNIT + 2 * CELL_H + 60 * 16 * 30);
    assert!(!g.is_over());
    // and a stomp down there is a stomp
    let mut m = Mario::create(0, -10 * UNIT + 70_000, CELL_H, CELL_W);
    m.move_acc_y = -30;
    let mut goomba = Goomba::create(0, -10 * UNIT);
    goomba.obj.move_acc_x = 0;
    let mut g = Game::start(level(|_| {}), m, vec![goomba], vec![]);
    g.handle(16);
    assert!(!g.spirit().is_dead);
    assert!(!g.is_over());
    assert_eq!(g.spirit().move_acc_y, 27);
    assert_eq!(g.score(), 100);
}

#[test]
fn killing_the_player_flings_it_up() {
    let mut g = Game::init();
    g.handle(16);
    g.handle(16);
    g.dead();
    assert!(g.spirit().is_dead);
    assert_eq!(g.spirit().move_acc_y, 100);
    assert!(!g.is_over());
    // the next frame shows it dead and ends the game
    g.handle(16);
    assert!(g.is_over());
    assert_eq!(g.spirit().state, DEAD_FRAME);
    assert_eq!(g.spirit().move_acc_y, 97);
    assert_eq!(g.spirit().y, grid_y(5) + 97 * 16 * 30);
}

#[test]
fn the_player_the_goal_flag_and_the_clock_can_be_set() {
    let mut g = Game::init();
    let mut m = Mario::create(grid_x(40), grid_y(9), CELL_H, CELL_W);
    m.move_acc_y = 12;
    g.set_spirit(m);
    assert_eq!(g.spirit(), m);
    g.set_time(7);
    assert_eq!(g.time(), 7);
    g.set_is_endlvl(true);
    assert!(g.is_endlvl());
    g.set_is_endlvl(false);
    assert!(!g.is_endlvl());
    assert_eq!(g.score(), 0);
    assert_eq!(g.goombas().len(), 16);
    g.handle(16);
    assert_eq!(g.spirit().move_acc_y, 9);
    assert_eq!(g.spirit().y, grid_y(9) + 9 * 16 * 30);
    assert_eq!(g.spirit().x, grid_x(40));
    g.update(1_001);
    assert_eq!(g.time(), 6);
}

#[test]
fn a_pipe_is_solid_and_an_open_one_takes_the_player_down() {
    for open in [false, true] {
        let world = level(|o| o.create_pipe(grid_x(16), grid_y(7), CELL_H, 2 * CELL_W, 1, true, open));
        let on_top = Mario::create(grid_x(17), grid_y(9), CELL_H, CELL_W);
        let mut g = game(world, on_top);
        g.handle(16);
        g.handle(16);
        assert_eq!(g.spirit().y, grid_y(9));
        assert!(!g.spirit().is_falling);
        assert!(!g.spirit().is_underground);
        // crouching while standing still: the player is inside the mouth
        // every other frame
        g.crouch();
        g.handle(16);
        g.crouch();
        g.handle(16);
        let m = g.spirit();
        if open {
            assert!(m.is_underground);
            assert_eq!(m.x, grid_x(5));
            assert_eq!(g.screen_move_x(), 0);
            assert_eq!(g.screen_move_y(), 1_242_000);
            assert_eq!(g.bg_color(), BgColor::Black);
        } else {
            assert!(!m.is_underground);
            assert_eq!(m.x, grid_x(17));
            assert_eq!(g.bg_color(), BgColor::Blue);
        }
    }
}

#[test]
fn through_the_pipes() {
    let mut g = Game::init();
    g.go_into_pipe(false);
    let m = g.spirit();
    assert_eq!((m.x, m.y), (grid_x(5), -2 * UNIT));
    assert!(m.is_underground);
    assert_eq!((g.screen_move_x(), g.screen_move_y()), (0, 1_242_000));
    assert_eq!(g.bg_color(), BgColor::Black);
    // the player drops onto the floor of the room
    for _ in 0..200 {
        g.handle(16);
    }
    assert!(g.spirit().y == grid_y(-26) || g.spirit().y == grid_y(-26) - 1_440);
    assert!(!g.is_over());
    // underground the camera stays
    for _ in 0..20 {
        g.move_x("right");
        g.handle(16);
    }
    assert_eq!(g.screen_move_x(), 0);
    g.go_into_pipe(true);
    let m = g.spirit();
    assert_eq!((m.x, m.y), (grid_x(328), grid_y(9)));
    assert!(!m.is_underground);
    assert_eq!((g.screen_move_x(), g.screen_move_y()), (-12_000_000, 0));
    assert_eq!(g.bg_color(), BgColor::Blue);
}

#[test]
fn the_side_pipe_leads_back_up() {
    let room = TileUnderground::create();
    let world = World { tiles: vec![], tiles_underground: vec![room], bg_color: BgColor::Black };
    let mut m = Mario::create(grid_x(27) - 2 * CELL_W - 600, grid_y(-26), CELL_H, CELL_W);
    m.is_underground = true;
    let mut g = game(world, m);
    g.handle(16);
    g.move_x("right");
    g.crouch();
    g.handle(16);
    assert!(g.spirit().is_underground);
    g.crouch();
    g.handle(16);
    assert!(!g.spirit().is_underground);
    assert_eq!(g.spirit().x, grid_x(328));
    assert_eq!(g.bg_color(), BgColor::Blue);
}

#[test]
fn the_goal_ends_the_level() {
    let world = level(|o| o.create_flag(grid_x(21), grid_y(5)));
    let mut g = game(world, standing(grid_x(21) - 2 * CELL_W - 600));
    g.update(16);
    assert!(!g.is_endlvl());
    g.move_x("right");
    g.update(16);
    assert!(!g.is_endlvl());
    g.update(16);
    assert!(g.is_endlvl());
    // the goal does not stop the player
    assert_eq!(g.spirit().x, grid_x(21) - 2 * CELL_W - 600 + 9_600);
}

#[test]
fn the_end_of_the_level() {
    let mut m = Mario::create(grid_x(397), grid_y(7) + 4_800, CELL_H, CELL_W);
    m.delay = 4;
    let world = level(|o| o.create_flag(grid_x(397), grid_y(5)));
    let mut g = game(world, m);
    g.update(16);
    assert!(g.is_endlvl());
    // down the pole, 480 steps a millisecond
    g.endLevel(10);
    assert_eq!(g.spirit().y, grid_y(7) + 4_800 - 3 * 16 * 30 - 4_800);
    assert!(!g.spirit().is_falling);
    g.endLevel(10);
    // onto the ground and on to the castle, the camera alongside
    assert_eq!(g.spirit().y, grid_y(5));
    assert_eq!(g.spirit().x, grid_x(397) + 6_000);
    // the camera followed for one frame before the goal was touched
    assert_eq!(g.screen_move_x(), -9_600 - 6_000);
    // the fifth frame of walking steps the run cycle
    assert_eq!((g.spirit().delay, g.spirit().state), (0, 1));
    let mut frames = 0;
    while !g.is_over() {
        let before = g.screen_move_x();
        g.update(16);
        frames += 1;
        if !g.is_over() {
            assert_eq!(g.screen_move_x(), before - 9_600);
        }
        assert!(frames < 200);
    }
    assert!(g.spirit().x > grid_x(409));
    assert_eq!(g.spirit().y, grid_y(5));
    assert!(!g.spirit().is_dead);
    assert_eq!(frames, (12 * CELL_W - 6_000) / 9_600 + 2);
    // forty-seven frames of walking: nine steps of the cycle 1, 2, 3, 0
    assert_eq!((g.spirit().delay, g.spirit().state), (2, 2));
    // once the game is over nothing moves
    let m = g.spirit();
    g.endLevel(16);
    assert_eq!(g.spirit(), m);
}

#[test]
fn the_clock() {
    let mut g = Game::init();
    g.update(999);
    assert_eq!(g.time(), 400);
    g.update(1);
    assert_eq!(g.time(), 400);
    g.update(1);
    assert_eq!(g.time(), 399);
    g.update(1_000);
    assert_eq!(g.time(), 399);
    g.update(1);
    assert_eq!(g.time(), 398);
    g.update(u32::MAX);
    assert_eq!(g.time(), 397);
}

#[test]
fn a_block_as_it_is_drawn() {
    let b = Block::create(1, 2, 3, 4, false, Sprite::Stone, TypeTag::Block, TypeTag::Block);
    assert_eq!((b.state, b.frames), (0, 1));
}

#[test]
fn a_run_through_the_level() {
    let mut g = Game::init();
    let mut farthest = g.spirit().x;
    let mut frames = 0;
    while !g.is_over() && frames < 3_000 {
        g.press(false, true, frames % 45 == 0, false);
        g.update(16);
        frames += 1;
        let m = g.spirit();
        farthest = farthest.max(m.x);
        // the camera never leaves the player behind on the left
        assert!(m.x - m.w >= -UNIT - g.screen_move_x() - 9_600);
        assert!(m.state <= DEAD_FRAME);
        assert!(g.goombas().len() <= 16);
        assert!(g.troopas().len() <= 1);
        assert!(g.blocks().len() == 51 && g.question_blocks().len() == 13);
    }
    // running and hopping to the right gets the player well into the level
    assert!(farthest > grid_x(40));
    assert!(g.time() <= 400);
    assert!(g.score() % 100 == 0);
}
