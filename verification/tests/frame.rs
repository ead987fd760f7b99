use runner::collision::{
    advance_all, arm_all, contacts_of, resolve_all, Collision_rect, Contact, TypeTag, BOTTOM,
    LEFT, NONE, RIGHT, TOP,
};
use runner::frame::{
    animate_tagged, count_stomps, find_entry, gain, hit_blocks, hit_questions, run_goombas,
    run_troopas, sweep_movers, sweep_still, take_touched, touch_any, ABYSS,
};
use runner::game::Block;
use runner::mobs::{Goomba, Troopa};
use runner::objects::QuestionMarkBlock;
use runner::render::Sprite;
use runner::units::{advance, CELL_H, CELL_W, LIMIT, UNIT};
use runner::worlds::append_all;

fn rect(x: i64, y: i64) -> Collision_rect {
    Collision_rect { x, y, w: CELL_W, h: CELL_H }
}

fn contact(kind: TypeTag, x: i64, y: i64, enter: bool) -> Contact {
    Contact { kind, rect: rect(x, y), enter }
}

fn brick(x: i64, coin: bool) -> Block {
    Block::create(x, 0, CELL_H, CELL_W, coin, Sprite::Brick, TypeTag::BreakableBlock, TypeTag::Block)
}

fn coin_at(x: i64, y: i64) -> Block {
    let mut b = Block::create(x, y, CELL_H, CELL_W, true, Sprite::CoinStill, TypeTag::Coin, TypeTag::Coin);
    b.frames = 3;
    b
}

#[test]
fn counters_saturate() {
    assert_eq!(gain(0, 200, 1), 200);
    assert_eq!(gain(7, 100, 3), 307);
    assert_eq!(gain(7, 100, 0), 7);
    assert_eq!(gain(u32::MAX - 200, 200, 1), u32::MAX);
    assert_eq!(gain(u32::MAX - 199, 200, 1), u32::MAX);
    assert_eq!(gain(u32::MAX, 1, usize::MAX), u32::MAX);
    assert_eq!(gain(1, u32::MAX, usize::MAX), u32::MAX);
    assert_eq!(gain(5, 0, usize::MAX), 5);
}

#[test]
fn motion_in_steps() {
    assert_eq!(advance(0, 1, 1, 30), 30);
    assert_eq!(advance(100, -3, 16, 30), 100 - 1_440);
    assert_eq!(advance(0, 50, 10, 51), 25_500);
    assert_eq!(advance(5, 7, 0, 600), 5);
    assert_eq!(advance(LIMIT - 1, 1, 1, 600), LIMIT);
    assert_eq!(advance(-LIMIT, -1_000_000, u32::MAX, 1_000), -LIMIT);
}

#[test]
fn stomps_are_meetings_from_above_with_a_mob() {
    let scene = vec![
        contact(TypeTag::Player, 0, 0, false),
        contact(TypeTag::Goomba, 0, 0, false),
        contact(TypeTag::Troopa, 0, 0, false),
        contact(TypeTag::KickedShell, 0, 0, false),
        contact(TypeTag::Shell, 0, 0, false),
        contact(TypeTag::Nil, 0, 0, false),
        contact(TypeTag::Block, 0, 0, false),
        contact(TypeTag::Goomba, 0, 0, false),
        contact(TypeTag::Goomba, 0, 0, false),
    ];
    let hits = vec![NONE, BOTTOM, BOTTOM, BOTTOM, BOTTOM, BOTTOM, BOTTOM, LEFT, NONE];
    assert_eq!(count_stomps(&scene, &hits), 3);
    assert_eq!(count_stomps(&vec![], &vec![]), 0);
}

#[test]
fn an_entry_is_a_meeting_with_an_open_mouth() {
    let scene = vec![
        contact(TypeTag::Pipe, 0, 0, false),
        contact(TypeTag::Pipe, 0, 0, true),
        contact(TypeTag::Pipe, 0, 0, true),
    ];
    assert!(!find_entry(&scene, &vec![BOTTOM, NONE, NONE]));
    assert!(find_entry(&scene, &vec![NONE, NONE, RIGHT]));
    assert!(find_entry(&scene, &vec![NONE, TOP, NONE]));
    assert!(!find_entry(&vec![], &vec![]));
}

#[test]
fn touching_is_overlapping() {
    let player = rect(0, 0);
    assert!(!touch_any(player, &vec![]));
    assert!(!touch_any(player, &vec![rect(2 * CELL_W, 0), rect(0, -2 * CELL_H)]));
    assert!(touch_any(player, &vec![rect(UNIT, 0), rect(2 * CELL_W - 1, 0)]));
}

#[test]
fn hit_blocks_react_in_order() {
    let mut star = brick(3, true);
    star.collision_name = TypeTag::Star;
    let mut blocks = vec![brick(0, true), brick(1, true), brick(2, false), star];
    // the first two entries belong to something else
    let hits = vec![TOP, TOP, TOP, BOTTOM, TOP, TOP];
    let mut still = vec![coin_at(9, 9)];
    let mut inmove = vec![];
    hit_blocks(&mut blocks, &hits, 2, &mut still, &mut inmove);
    assert_eq!(blocks[0].sprite, Sprite::BrickStill);
    assert_eq!(blocks[1], brick(1, true));
    assert_eq!(blocks[2].sprite, Sprite::BrickStill);
    assert_eq!(blocks[3].sprite, Sprite::BrickStill);
    assert_eq!(still.len(), 2);
    assert_eq!(still[0], coin_at(9, 9));
    assert_eq!((still[1].x, still[1].object_type), (0, TypeTag::Coin));
    assert_eq!(inmove.len(), 1);
    assert_eq!((inmove[0].x, inmove[0].object_type), (3, TypeTag::Star));
}

#[test]
fn hit_mystery_blocks_react_in_order() {
    let q = |x: i64, holds: TypeTag| QuestionMarkBlock::create(x, 0, CELL_H, CELL_W, true, holds);
    let mut blocks = vec![q(0, TypeTag::Coin), q(1, TypeTag::Mushroom), q(2, TypeTag::Mushroom), q(3, TypeTag::Star)];
    let hits = vec![TOP, TOP, LEFT, TOP];
    let mut still = vec![];
    let mut inmove = vec![];
    hit_questions(&mut blocks, &hits, 0, &mut still, &mut inmove);
    assert_eq!(
        blocks.iter().map(|b| b.is_hit).collect::<Vec<_>>(),
        vec![true, true, false, true]
    );
    assert_eq!(still.iter().map(|b| b.x).collect::<Vec<_>>(), vec![0, 3]);
    assert_eq!(inmove.iter().map(|b| (b.x, b.object_type)).collect::<Vec<_>>(), vec![(1, TypeTag::Mushroom)]);
}

#[test]
fn touched_objects_are_taken_in_order() {
    let mut coins = vec![coin_at(0, 0), coin_at(UNIT, 0), coin_at(10, 10), coin_at(0, UNIT)];
    let taken = take_touched(&mut coins, rect(0, 0));
    assert_eq!(taken, 2);
    assert_eq!(coins, vec![coin_at(UNIT, 0), coin_at(0, UNIT)]);
    assert_eq!(take_touched(&mut coins, rect(0, 0)), 0);
    assert_eq!(coins.len(), 2);
}

#[test]
fn spent_coins_are_swept_and_the_others_move() {
    let mut rising = coin_at(0, 0);
    rising.move_acc_y = 50;
    let mut turning = coin_at(1, 0);
    turning.move_acc_y = 0;
    let mut spent = coin_at(2, 0);
    spent.move_acc_y = -1;
    let mut other = brick(3, false);
    other.move_acc_y = -5;
    let mut still = vec![rising, spent, turning, other, spent];
    let n = sweep_still(&mut still, 10);
    assert_eq!(n, 2);
    assert_eq!(still.len(), 3);
    assert_eq!((still[0].x, still[0].move_acc_y, still[0].y), (0, 47, 47 * 10 * 51));
    assert_eq!((still[1].x, still[1].move_acc_y, still[1].y), (1, -3, -3 * 10 * 51));
    assert_eq!(still[2], other);
}

#[test]
fn animation_goes_by_category() {
    let mut v = vec![coin_at(0, 0), brick(1, true), coin_at(2, 0)];
    v[2].state = 2;
    animate_tagged(&mut v, TypeTag::Coin);
    assert_eq!(v.iter().map(|b| b.state).collect::<Vec<_>>(), vec![1, 0, 0]);
    animate_tagged(&mut v, TypeTag::Star);
    assert_eq!(v.iter().map(|b| b.state).collect::<Vec<_>>(), vec![1, 0, 0]);
}

#[test]
fn what_fell_out_is_swept() {
    assert_eq!(ABYSS, -4 * UNIT);
    let mut v = vec![coin_at(0, ABYSS), coin_at(1, ABYSS - 1), coin_at(2, 0), coin_at(3, -LIMIT)];
    sweep_movers(&mut v);
    assert_eq!(v.iter().map(|b| b.x).collect::<Vec<_>>(), vec![0, 2]);
}

#[test]
fn goombas_wake_move_and_leave() {
    let mut near = Goomba::create(0, 0);
    near.obj.is_falling = false;
    let far = Goomba::create(5 * UNIT, 0);
    let mut flat = Goomba::create(100, 0);
    flat.squash();
    flat.delay = 29;
    let mut fresh = Goomba::create(200, 0);
    fresh.squash();
    let mut sinking = Goomba::create(300, ABYSS + 100);
    sinking.to_move = true;
    sinking.obj.is_falling = true;
    let mut v = vec![near, far, flat, fresh, sinking];
    run_goombas(&mut v, 0, 10);
    assert_eq!(v.len(), 4);
    assert!(v[0].to_move);
    assert_eq!(v[0].obj.x, -6_000);
    assert_eq!(v[1], far);
    assert!(v[2].is_squash);
    assert_eq!((v[2].obj.x, v[2].delay), (200, 1));
    // a living goomba stays, however deep it falls
    assert_eq!((v[3].obj.x, v[3].obj.y), (300 - 6_000, ABYSS + 100 - 900));
    run_goombas(&mut v, 0, 10);
    assert_eq!(v.len(), 4);
    assert!(v[3].obj.y < ABYSS);
}

#[test]
fn troopas_wake_move_and_leave() {
    let mut walking = Troopa::create(0, 0);
    walking.obj.is_falling = false;
    let mut old_shell = Troopa::create(100, 0);
    old_shell.squash();
    old_shell.delay = 29;
    let mut deep = Troopa::create(200, ABYSS - 1_000);
    deep.obj.is_falling = false;
    let mut deep_shell = Troopa::create(300, ABYSS - 1_000);
    deep_shell.squash();
    let mut v = vec![walking, old_shell, deep, deep_shell];
    run_troopas(&mut v, UNIT, 10);
    // the shell that lay long enough and the shell that fell out are gone;
    // a walking troopa stays, however deep it is
    assert_eq!(v.len(), 2);
    assert!(v[0].to_move);
    assert_eq!(v[0].obj.x, -6_000);
    assert_eq!((v[1].obj.x, v[1].obj.y), (200 - 6_000, ABYSS - 1_000));
    assert!(!v[1].is_squash);
}

#[test]
fn the_protocol_over_a_collection() {
    let mut v = vec![Goomba::create(0, 0), Goomba::create(2 * CELL_W - 1_000, 0), Goomba::create(UNIT, -1_000)];
    for g in v.iter_mut() {
        g.to_move = true;
    }
    let mut scene = vec![contact(TypeTag::Block, UNIT, -2 * CELL_H, false)];
    contacts_of(&v, &mut scene);
    assert_eq!(scene.len(), 4);
    assert_eq!(scene[1], Contact { kind: TypeTag::Goomba, rect: rect(0, 0), enter: false });
    assert_eq!(scene[3].rect, rect(UNIT, -1_000));
    arm_all(&mut v);
    assert!(v.iter().all(|g| g.obj.is_falling));
    // each goomba skips its own snapshot: the first two meet each other and
    // turn round, the third lands on the block
    resolve_all(&mut v, &scene, Some(1));
    assert_eq!(v[0].obj.move_acc_x, 20);
    assert_eq!(v[1].obj.move_acc_x, 20);
    assert_eq!(v[2].obj.move_acc_x, -20);
    assert_eq!(v[2].obj.y, 0);
    assert!(!v[2].obj.is_falling);
    advance_all(&mut v, 10);
    assert_eq!(v[0].obj.x, 6_000);
    assert_eq!(v[0].obj.y, -900);
    assert_eq!(v[2].obj.x, UNIT - 6_000);
    assert_eq!(v[2].obj.y, 0);
}

#[test]
fn collections_are_appended_in_order() {
    let mut a = vec![1, 2];
    append_all(&mut a, &vec![3, 4, 5]);
    assert_eq!(a, vec![1, 2, 3, 4, 5]);
    append_all(&mut a, &vec![]);
    assert_eq!(a.len(), 5);
}
