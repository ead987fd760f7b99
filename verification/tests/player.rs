use runner::game::Block;
use runner::collision::{
    resolve, Collision_rect, Collisioner, Contact, TypeTag, BOTTOM, LEFT, NONE, RIGHT, TOP,
};
use runner::render::Sprite;
use runner::spirit::{Mario, DEAD_FRAME, IDLE_FRAME, JUMP_FRAME, TURN_FRAME};
use runner::units::{
    CELL_H, CELL_W, EPSILON, GRAVITY, JUMP_IMPULSE, LIMIT, REBOUND, SPEED_LIMIT, STOMP_BOUNCE,
};

fn player(x: i64, y: i64) -> Mario {
    Mario::create(x, y, CELL_H, CELL_W)
}

fn block_at(x: i64, y: i64) -> Collision_rect {
    Collision_rect { x, y, w: CELL_W, h: CELL_H }
}

#[test]
fn a_new_player_is_in_the_air() {
    let m = player(-180_000, -400_000);
    assert_eq!(m.x, -180_000);
    assert_eq!(m.y, -400_000);
    assert_eq!(m.h, 40_000);
    assert_eq!(m.w, 37_500);
    assert_eq!(m.state, 0);
    assert!(m.is_falling);
    assert!(!m.is_dead);
    assert_eq!(m.is_moving, 0);
    assert_eq!(m.move_vel_x, 0);
    assert_eq!(m.move_acc_y, 0);
    assert_eq!(m.delay, 0);
    assert!(!m.flip && !m.is_turn && !m.is_crouch && !m.is_underground);
    assert_eq!(m.get_type(), TypeTag::Player);
    assert_eq!(m.get_collision_rect(), block_at(-180_000, -400_000));
    assert_eq!(m.frame(), JUMP_FRAME);
}

#[test]
fn landing_stops_the_fall() {
    // Falling at two speed units onto a block directly below.
    let mut m = player(0, 0);
    m.move_acc_y = -40;
    let block = block_at(0, -75_000);
    let sides = m.get_collision_rect().check_hitbox(block);
    assert_eq!(sides, vec![BOTTOM]);
    m.handle_collision(TypeTag::Block, block, sides);
    assert_eq!(m.move_acc_y, 0);
    assert_eq!(m.y, block.y + block.h + m.h);
    assert_eq!(m.y, 5_000);
    assert_eq!(m.x, 0);
    assert!(!m.is_falling);
    assert!(!m.is_dead);
}

#[test]
fn landing_keeps_an_upward_speed() {
    let mut m = player(0, 0);
    m.move_acc_y = 25;
    m.handle_collision(TypeTag::Stone, block_at(0, -75_000), vec![BOTTOM]);
    assert_eq!(m.move_acc_y, 25);
    assert_eq!(m.y, 5_000);
    assert!(!m.is_falling);
}

#[test]
fn every_solid_category_stops_the_player() {
    for tag in [
        TypeTag::Block,
        TypeTag::BreakableBlock,
        TypeTag::BlockUp,
        TypeTag::QuestionBlock,
        TypeTag::Stone,
        TypeTag::Pipe,
    ] {
        let mut m = player(0, 0);
        m.handle_collision(tag, block_at(0, -75_000), vec![BOTTOM]);
        assert_eq!(m.y, 5_000);
        assert!(!m.is_falling);
    }
}

#[test]
fn a_bump_of_the_head_sends_the_player_down() {
    let mut m = player(0, 0);
    m.move_acc_y = JUMP_IMPULSE;
    let block = block_at(0, 75_000);
    let sides = m.get_collision_rect().check_hitbox(block);
    assert_eq!(sides, vec![TOP]);
    m.handle_collision(TypeTag::BreakableBlock, block, sides);
    assert_eq!(m.y, block.y - block.h - m.h);
    assert_eq!(m.y, -5_000);
    assert_eq!(m.move_acc_y, REBOUND);
    assert_eq!(m.move_acc_y, -20);
    assert!(m.is_falling);
}

#[test]
fn a_wall_on_the_left_pushes_to_the_right_with_a_gap() {
    let mut m = player(0, 0);
    let block = block_at(-70_000, 0);
    let sides = m.get_collision_rect().check_hitbox(block);
    assert_eq!(sides, vec![LEFT]);
    m.handle_collision(TypeTag::Block, block, sides);
    assert_eq!(m.x, block.x + block.w + m.w + EPSILON);
    assert_eq!(m.x, 11_000);
    assert_eq!(m.y, 0);
    assert_eq!(m.get_collision_rect().check_hitbox(block), vec![NONE]);
}

#[test]
fn a_wall_on_the_right_pushes_to_the_left_with_a_gap() {
    let mut m = player(0, 0);
    let block = block_at(70_000, 0);
    let sides = m.get_collision_rect().check_hitbox(block);
    assert_eq!(sides, vec![RIGHT]);
    m.handle_collision(TypeTag::Block, block, sides);
    assert_eq!(m.x, block.x - block.w - m.w - EPSILON);
    assert_eq!(m.x, -11_000);
    assert_eq!(m.get_collision_rect().check_hitbox(block), vec![NONE]);
}

#[test]
fn a_second_check_after_a_side_collision_finds_nothing() {
    let mut m = player(0, 0);
    let wall = Contact { kind: TypeTag::Block, rect: block_at(-70_000, 0), enter: false };
    let first = resolve(&mut m, &vec![wall], None);
    assert_eq!(first, vec![LEFT]);
    let after_first = m;
    let second = resolve(&mut m, &vec![wall], None);
    assert_eq!(second, vec![NONE]);
    assert_eq!(m, after_first);
}

#[test]
fn a_stomp_bounces_and_a_side_contact_kills() {
    for tag in [TypeTag::Goomba, TypeTag::Troopa, TypeTag::KickedShell] {
        let mut m = player(0, 0);
        m.move_acc_y = -30;
        m.handle_collision(tag, block_at(0, -70_000), vec![BOTTOM]);
        assert!(!m.is_dead);
        assert_eq!(m.move_acc_y, STOMP_BOUNCE);
        assert_eq!(m.move_acc_y, 30);
        assert_eq!(m.y, 0);
        for side in [LEFT, RIGHT, TOP] {
            let mut m = player(0, 0);
            m.handle_collision(tag, block_at(0, 0), vec![side]);
            assert!(m.is_dead);
            assert_eq!(m.move_acc_y, 0);
            assert_eq!((m.x, m.y), (0, 0));
        }
    }
}

#[test]
fn what_the_player_does_not_know_changes_nothing() {
    for tag in [
        TypeTag::Nil,
        TypeTag::Shell,
        TypeTag::Coin,
        TypeTag::Mushroom,
        TypeTag::Star,
        TypeTag::Flag,
        TypeTag::Castle,
        TypeTag::Player,
    ] {
        for side in [BOTTOM, TOP, LEFT, RIGHT, NONE] {
            let mut m = player(0, 0);
            m.move_acc_y = -12;
            let before = m;
            m.handle_collision(tag, block_at(10_000, -10_000), vec![side]);
            assert_eq!(m, before);
        }
    }
}

#[test]
fn an_empty_list_of_sides_changes_nothing() {
    let mut m = player(0, 0);
    let before = m;
    m.handle_collision(TypeTag::Block, block_at(0, -75_000), vec![]);
    assert_eq!(m, before);
    m.handle_collision(TypeTag::Goomba, block_at(0, -75_000), vec![NONE]);
    assert_eq!(m, before);
}

#[test]
fn each_frame_rearms_the_fall() {
    let mut m = player(0, 0);
    m.handle_collision(TypeTag::Block, block_at(0, -75_000), vec![BOTTOM]);
    assert!(!m.is_falling);
    m.set_default_behavior();
    assert!(m.is_falling);
}

#[test]
fn gravity_pulls_a_falling_player() {
    let mut m = player(0, 0);
    m.run_default_behavior(16);
    assert_eq!(m.move_acc_y, -GRAVITY);
    assert_eq!(m.move_acc_y, -3);
    // 16 ms at three speed steps, thirty steps per millisecond and speed step
    assert_eq!(m.y, -1_440);
    m.run_default_behavior(16);
    assert_eq!(m.move_acc_y, -6);
    assert_eq!(m.y, -1_440 - 2_880);
}

#[test]
fn a_standing_player_keeps_its_height() {
    let mut m = player(0, 0);
    m.is_falling = false;
    m.run_default_behavior(16);
    assert_eq!(m.move_acc_y, 0);
    assert_eq!(m.y, 0);
    assert_eq!(m.state, IDLE_FRAME);
}

#[test]
fn a_jump_rises_by_its_impulse() {
    let mut m = player(0, 0);
    m.is_falling = true;
    m.move_acc_y = JUMP_IMPULSE;
    m.run_default_behavior(10);
    assert_eq!(m.move_acc_y, 57);
    assert_eq!(m.y, 57 * 10 * 30);
}

#[test]
fn speed_and_position_saturate() {
    let mut m = player(0, -LIMIT);
    m.move_acc_y = -SPEED_LIMIT;
    m.run_default_behavior(u32::MAX);
    assert_eq!(m.move_acc_y, -SPEED_LIMIT);
    assert_eq!(m.y, -LIMIT);
    let mut m = player(LIMIT, 0);
    m.is_falling = false;
    m.move_vel_x = -1;
    m.run_default_behavior(u32::MAX);
    assert_eq!(m.x, LIMIT);
}

#[test]
fn walking_moves_a_step_a_millisecond() {
    let mut m = player(0, 0);
    m.is_falling = false;
    m.move_vel_x = -1;
    m.run_default_behavior(16);
    assert_eq!(m.x, 9_600);
    assert!(!m.flip);
    assert_eq!(m.is_moving, -1);
    assert_eq!(m.move_vel_x, 0);
    assert_eq!(m.delay, 1);
    let mut m = player(0, 0);
    m.is_falling = false;
    m.move_vel_x = 1;
    m.run_default_behavior(16);
    assert_eq!(m.x, -9_600);
    assert!(m.flip);
    assert_eq!(m.is_moving, 1);
}

#[test]
fn the_run_cycle_steps_every_fifth_frame() {
    let mut m = player(0, 0);
    m.is_falling = false;
    let mut states = vec![];
    for _ in 0..25 {
        m.move_vel_x = -1;
        m.run_default_behavior(1);
        states.push(m.state);
    }
    assert_eq!(
        states,
        vec![0, 0, 0, 0, 1, 1, 1, 1, 1, 2, 2, 2, 2, 2, 3, 3, 3, 3, 3, 0, 0, 0, 0, 0, 1]
    );
    assert_eq!(m.delay, 0);
}

#[test]
fn standing_still_shows_the_idle_frame() {
    let mut m = player(0, 0);
    m.is_falling = false;
    for _ in 0..7 {
        m.move_vel_x = -1;
        m.run_default_behavior(1);
    }
    assert_eq!(m.state, 1);
    m.run_default_behavior(1);
    assert_eq!(m.state, IDLE_FRAME);
    assert_eq!(m.is_moving, 0);
    assert_eq!(m.delay, 2);
}

#[test]
fn a_turn_pins_the_turn_frame() {
    let mut m = player(0, 0);
    m.is_falling = false;
    m.move_vel_x = -1;
    m.run_default_behavior(1);
    m.move_vel_x = 1;
    m.run_default_behavior(1);
    assert_eq!(m.state, TURN_FRAME);
    assert!(m.is_turn);
    m.move_vel_x = 1;
    m.run_default_behavior(1);
    assert_eq!(m.state, TURN_FRAME);
    m.move_vel_x = 1;
    m.run_default_behavior(1);
    m.move_vel_x = 1;
    m.run_default_behavior(1);
    // the fifth frame of walking ends the turn
    assert_eq!(m.state, 1);
    assert!(!m.is_turn);
    assert_eq!(m.delay, 0);
}

#[test]
fn the_jump_frame_shows_in_the_air() {
    let mut m = player(0, 0);
    m.state = 2;
    m.is_falling = true;
    assert_eq!(m.frame(), JUMP_FRAME);
    m.is_falling = false;
    assert_eq!(m.frame(), 2);
    m.is_falling = true;
    m.is_dead = true;
    m.state = DEAD_FRAME;
    assert_eq!(m.frame(), DEAD_FRAME);
}

#[test]
fn the_crouch_lasts_one_frame() {
    let mut m = player(0, 0);
    m.is_crouch = true;
    m.is_falling = false;
    m.run_default_behavior(16);
    assert!(!m.is_crouch);
}

#[test]
fn a_dead_player_only_falls() {
    let mut m = player(0, 0);
    m.is_dead = true;
    m.state = DEAD_FRAME;
    m.move_acc_y = 100;
    m.move_vel_x = -1;
    m.is_crouch = true;
    m.run_default_behavior(10);
    assert_eq!(m.move_acc_y, 97);
    assert_eq!(m.y, 97 * 10 * 30);
    assert_eq!(m.x, 0);
    assert_eq!(m.state, DEAD_FRAME);
    assert_eq!(m.move_vel_x, -1);
    assert!(m.is_crouch);
}

#[test]
fn the_player_reports_a_hit_as_text() {
    let m = player(0, 0);
    let below = Block::create(
        0,
        -75_000,
        CELL_H,
        CELL_W,
        false,
        Sprite::Stone,
        TypeTag::Block,
        TypeTag::Block,
    );
    assert_eq!(m.check_hitbox(&below), "bottom");
    let far = Block::create(
        500_000,
        0,
        CELL_H,
        CELL_W,
        false,
        Sprite::Stone,
        TypeTag::Block,
        TypeTag::Block,
    );
    assert_eq!(m.check_hitbox(&far), "nil");
}

#[test]
fn resolve_takes_the_contacts_in_order_and_skips_its_own() {
    let mut m = player(0, 0);
    m.move_acc_y = -9;
    let own = Contact { kind: TypeTag::Player, rect: m.get_collision_rect(), enter: false };
    let floor_left = Contact { kind: TypeTag::Block, rect: block_at(-37_500, -79_000), enter: false };
    let floor_right = Contact { kind: TypeTag::Block, rect: block_at(37_500, -79_000), enter: false };
    let hits = resolve(&mut m, &vec![own, floor_left, floor_right], Some(0));
    // The first stone lifts the player onto the floor; the second one is
    // then only touched.
    assert_eq!(hits, vec![NONE, BOTTOM, NONE]);
    assert_eq!(m.y, 1_000);
    assert_eq!(m.move_acc_y, 0);
    assert!(!m.is_falling);
}
