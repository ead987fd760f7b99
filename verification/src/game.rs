//! Blocks and the frame driver.

use vstd::prelude::*;
use crate::units::{
    UNIT, CELL_W, CELL_H, GRAVITY, JUMP_IMPULSE, DEATH_IMPULSE, COIN_POP, STAR_POP,
    WALK_SPEED, MOTION, COIN_MOTION, WALK, SLIDE, COIN_SCORE, STOMP_SCORE, RUN_TICKS, in_world,
    in_speed, clamp_pos, clamp_speed, travel, saturate_speed, saturate_pos, advance, column_of,
    row_of, grid_x, grid_y, same_text,
};
use crate::collision::{
    Collision_rect, Collisioner, Contact, TypeTag, BOTTOM, TOP, LEFT, RIGHT, first_side, pick_side,
    name_of, side_name, saturate_wide, all_valid, contact_of, contacts, contacts_of, armed_all,
    arm_all, advanced_all, advance_all, resolved, met, resolve, resolved_all, resolve_all,
};
use crate::objects::QuestionMarkBlock;
use crate::render::{
    Letter, Object, Sprite, Texts, LETTER_HALF_WIDTH, LETTER_HALF_HEIGHT, glyph_index, known,
    number_letters, text_letters,
};
use crate::spirit::{Mario, DEAD_FRAME, TURN_FRAME};
use crate::mobs::{Goomba, Troopa};
use crate::worlds::{World, BgColor, append_all};
use crate::frame::{
    gained, gain, stomps, count_stomps, entered, find_entry, touches_any, touch_any,
    blocks_hit, blocks_yield, questions_hit, questions_yield, hit_blocks, hit_questions, untouched,
    take_touched, still_after, sweep_still, animated_tagged, animate_tagged, present, sweep_movers,
    goombas_after, run_goombas, troopas_after, run_troopas,
};

verus! {

/// Half the width of a popped coin.
pub const COIN_HALF_WIDTH: i64 = 18_750;

/// A rectangular object of the level: a tile, a brick, a coin, a mushroom,
/// a star, or the body of a mob.
#[derive(Clone, Copy, Debug, PartialEq, Eq, Structural)]
pub struct Block {
    pub x: i64,
    pub y: i64,
    pub h: i64,
    pub w: i64,
    /// Vertical speed.
    pub move_acc_y: i64,
    /// Horizontal speed.
    pub move_acc_x: i64,
    /// Whether a hit from below still sets something free.
    pub collision_event: bool,
    /// What a hit sets free (`Block` stands for a coin), and for the body of
    /// a mob the category under which others see it.
    pub collision_name: TypeTag,
    /// How many more hits set something free.
    pub collision_num: u32,
    /// Animation frame, below `frames`.
    pub state: usize,
    pub object_type: TypeTag,
    pub is_falling: bool,
    pub sprite: Sprite,
    /// Number of animation frames of `sprite`.
    pub frames: usize,
}

impl Block {
    /// A block at rest. With `collision_event` it reacts to one hit.
    pub open spec fn created(
        x: i64,
        y: i64,
        h: i64,
        w: i64,
        collision_event: bool,
        sprite: Sprite,
        object_type: TypeTag,
        collision_name: TypeTag,
    ) -> Block {
        Block {
            x,
            y,
            h,
            w,
            move_acc_y: 0,
            move_acc_x: 0,
            collision_event,
            collision_name,
            collision_num: if collision_event {
                1u32
            } else {
                0u32
            },
            state: 0,
            object_type,
            is_falling: false,
            sprite,
            frames: 1,
        }
    }

    /// Makes a block at rest. With `collision_event` it reacts to one hit.
    pub fn create(
        x: i64,
        y: i64,
        h: i64,
        w: i64,
        collision_event: bool,
        sprite: Sprite,
        object_type: TypeTag,
        collision_name: TypeTag,
    ) -> (b: Block)
        ensures
            b == Block::created(x, y, h, w, collision_event, sprite, object_type, collision_name),
            b.valid() <==> (Collision_rect { x, y, w, h }).wf(),
    {
        let mut collision_num: u32 = 0;
        if collision_event {
            collision_num = 1;
        }
        Block {
            x,
            y,
            h,
            w,
            move_acc_y: 0,
            move_acc_x: 0,
            collision_event,
            collision_name,
            collision_num,
            state: 0,
            object_type,
            is_falling: false,
            sprite,
            frames: 1,
        }
    }

    /// Hit test against another block, as text.
    pub fn check_hitbox(&self, obj: &Block) -> (r: &'static str)
        ensures
            r@ == side_name(self.rect().side(obj.rect())),
    {
        name_of(self.get_collision_rect().hit_side(obj.get_collision_rect()))
    }

    /// Hit test against the player, as text.
    pub fn check_hitbox_spirit(&self, obj: &Mario) -> (r: &'static str)
        ensures
            r@ == side_name(self.rect().side(obj.rect())),
    {
        name_of(self.get_collision_rect().hit_side(obj.get_collision_rect()))
    }

    /// Hit test against a mystery block, as text.
    pub fn check_hitbox_question_mark_block(&self, obj: &QuestionMarkBlock) -> (r: &'static str)
        ensures
            r@ == side_name(self.rect().side(obj.rect())),
    {
        name_of(self.get_collision_rect().hit_side(obj.get_collision_rect()))
    }

    /// Hit test against a quad of a pipe, as text.
    pub fn check_hitbox_pipe(&self, obj: &Object) -> (r: &'static str)
        ensures
            r@ == side_name(self.rect().side(obj.rect())),
    {
        name_of(self.get_collision_rect().hit_side(obj.get_collision_rect()))
    }

    /// Whether the block moves on its own.
    pub open spec fn is_mover(self) -> bool {
        self.object_type == TypeTag::Mushroom || self.object_type == TypeTag::Star
    }

    /// Whether the block moves on its own.
    pub fn mover(&self) -> (r: bool)
        ensures
            r == self.is_mover(),
    {
        match self.object_type {
            TypeTag::Mushroom | TypeTag::Star => true,
            _ => false,
        }
    }

    /// The coin that pops out of a block at `(x, y)` of half-height `h`.
    pub open spec fn popped_coin(x: i64, y: i64, h: i64) -> Block {
        Block {
            x,
            y: clamp_pos(y + 2 * h) as i64,
            h,
            w: COIN_HALF_WIDTH,
            move_acc_y: COIN_POP,
            move_acc_x: 0,
            collision_event: true,
            collision_name: TypeTag::Coin,
            collision_num: 1,
            state: 0,
            object_type: TypeTag::Coin,
            is_falling: false,
            sprite: Sprite::Coin,
            frames: 4,
        }
    }

    /// The star that leaves a block at `(x, y)` of half-extents `h`, `w`.
    pub open spec fn risen_star(x: i64, y: i64, h: i64, w: i64) -> Block {
        Block {
            x,
            y: clamp_pos(y + 2 * h) as i64,
            h,
            w,
            move_acc_y: STAR_POP,
            move_acc_x: WALK_SPEED,
            collision_event: true,
            collision_name: TypeTag::Star,
            collision_num: 1,
            state: 0,
            object_type: TypeTag::Star,
            is_falling: false,
            sprite: Sprite::Star,
            frames: 4,
        }
    }

    /// The mushroom that leaves a block at `(x, y)` of half-extents `h`, `w`.
    pub open spec fn risen_mushroom(x: i64, y: i64, h: i64, w: i64) -> Block {
        Block {
            x,
            y: clamp_pos(y + 2 * h) as i64,
            h,
            w,
            move_acc_y: 0,
            move_acc_x: WALK_SPEED,
            collision_event: false,
            collision_name: TypeTag::Mushroom,
            collision_num: 0,
            state: 0,
            object_type: TypeTag::Mushroom,
            is_falling: false,
            sprite: Sprite::Mushroom,
            frames: 1,
        }
    }

    pub(crate) fn pop_coin(x: i64, y: i64, h: i64) -> (b: Block)
        ensures
            b == Block::popped_coin(x, y, h),
    {
        let mut block = Block::create(
            x,
            saturate_wide(y as i128 + 2 * (h as i128)),
            h,
            COIN_HALF_WIDTH,
            true,
            Sprite::Coin,
            TypeTag::Coin,
            TypeTag::Coin,
        );
        block.frames = 4;
        block.move_acc_y = COIN_POP;
        block
    }

    pub(crate) fn raise_star(x: i64, y: i64, h: i64, w: i64) -> (b: Block)
        ensures
            b == Block::risen_star(x, y, h, w),
    {
        let mut block = Block::create(
            x,
            saturate_wide(y as i128 + 2 * (h as i128)),
            h,
            w,
            true,
            Sprite::Star,
            TypeTag::Star,
            TypeTag::Star,
        );
        block.frames = 4;
        block.move_acc_y = STAR_POP;
        block.move_acc_x = WALK_SPEED;
        block
    }

    pub(crate) fn raise_mushroom(x: i64, y: i64, h: i64, w: i64) -> (b: Block)
        ensures
            b == Block::risen_mushroom(x, y, h, w),
    {
        let mut block = Block::create(
            x,
            saturate_wide(y as i128 + 2 * (h as i128)),
            h,
            w,
            false,
            Sprite::Mushroom,
            TypeTag::Mushroom,
            TypeTag::Mushroom,
        );
        block.move_acc_x = WALK_SPEED;
        block
    }

    /// Whether a hit from below sets something free.
    pub open spec fn reacts(self) -> bool {
        self.collision_event && self.collision_num != 0
    }

    /// What a hit from below sets free, if anything.
    pub open spec fn yield_of(self) -> Option<Block> {
        if !self.reacts() {
            None
        } else if self.collision_name == TypeTag::Block {
            Some(Block::popped_coin(self.x, self.y, self.h))
        } else if self.collision_name == TypeTag::Star {
            Some(Block::risen_star(self.x, self.y, self.h, self.w))
        } else {
            None
        }
    }

    /// The block after a hit from below: one hit less in its budget, and
    /// with the budget at zero shown as used and deaf to further hits.
    pub open spec fn hit(self) -> Block {
        let collision_num = if self.reacts() {
            (self.collision_num - 1) as u32
        } else {
            self.collision_num
        };
        if collision_num == 0 {
            Block {
                collision_num,
                collision_event: false,
                sprite: Sprite::BrickStill,
                frames: 1,
                state: 0,
                ..self
            }
        } else {
            Block { collision_num, ..self }
        }
    }

    /// Reaction to a hit from below. What the hit sets free is appended to
    /// `objects`.
    pub fn handle(&mut self, objects: &mut Vec<Block>)
        ensures
            *final(self) == old(self).hit(),
            final(objects)@ == match old(self).yield_of() {
                Some(b) => old(objects)@.push(b),
                None => old(objects)@,
            },
            old(self).valid() ==> final(self).valid(),
    {
        if self.collision_event && self.collision_num != 0 {
            match self.collision_name {
                TypeTag::Block => {
                    objects.push(Block::pop_coin(self.x, self.y, self.h));
                },
                TypeTag::Star => {
                    objects.push(Block::raise_star(self.x, self.y, self.h, self.w));
                },
                _ => {},
            }
            self.collision_num -= 1;
        }
        if self.collision_num == 0 {
            self.sprite = Sprite::BrickStill;
            self.frames = 1;
            self.state = 0;
            self.collision_event = false;
        }
    }

    /// The block after it ran into a solid at `r` on `side`: moved out of
    /// it; a landing stops the fall, a bump from below stops the rise, a
    /// wall turns the block round.
    pub open spec fn stopped_by(self, r: Collision_rect, side: char) -> Block {
        let p = self.rect().pushed_out(r, side);
        if side == BOTTOM {
            Block {
                y: p.y,
                move_acc_y: if self.move_acc_y < 0 {
                    0
                } else {
                    self.move_acc_y
                },
                is_falling: false,
                ..self
            }
        } else if side == TOP {
            Block {
                y: p.y,
                move_acc_y: if self.move_acc_y > 0 {
                    0
                } else {
                    self.move_acc_y
                },
                ..self
            }
        } else if side == LEFT || side == RIGHT {
            Block { x: p.x, move_acc_x: (-self.move_acc_x) as i64, ..self }
        } else {
            self
        }
    }

    /// Runs the block into a solid at `r` on `side`.
    pub fn stop_at(&mut self, r: Collision_rect, side: char)
        requires
            in_speed(old(self).move_acc_x as int),
        ensures
            *final(self) == old(self).stopped_by(r, side),
            old(self).valid() ==> final(self).valid(),
    {
        let p = self.get_collision_rect().push_out(r, side);
        if side == BOTTOM {
            self.y = p.y;
            if self.move_acc_y < 0 {
                self.move_acc_y = 0;
            }
            self.is_falling = false;
        } else if side == TOP {
            self.y = p.y;
            if self.move_acc_y > 0 {
                self.move_acc_y = 0;
            }
        } else if side == LEFT || side == RIGHT {
            self.x = p.x;
            self.move_acc_x = -self.move_acc_x;
        }
    }

    /// The block after gravity and `deltatime` milliseconds of motion along
    /// both axes.
    pub open spec fn drifted(self, deltatime: u32) -> Block {
        let speed = if self.is_falling {
            clamp_speed(self.move_acc_y - GRAVITY)
        } else {
            self.move_acc_y as int
        };
        Block {
            move_acc_y: speed as i64,
            y: clamp_pos(self.y + travel(speed, deltatime as int, MOTION as int)) as i64,
            x: clamp_pos(
                self.x + travel(self.move_acc_x as int, deltatime as int, MOTION as int),
            ) as i64,
            ..self
        }
    }

    /// Applies gravity and moves the block for `deltatime` milliseconds.
    pub fn drift(&mut self, deltatime: u32)
        requires
            old(self).valid(),
        ensures
            *final(self) == old(self).drifted(deltatime),
            final(self).valid(),
    {
        if self.is_falling {
            self.move_acc_y = saturate_speed(self.move_acc_y - GRAVITY);
        }
        self.y = advance(self.y, self.move_acc_y, deltatime, MOTION);
        self.x = advance(self.x, self.move_acc_x, deltatime, MOTION);
    }

    /// A popped coin after one frame: slowed by gravity, then moved.
    pub open spec fn popped(self, deltatime: u32) -> Block {
        let speed = clamp_speed(self.move_acc_y - GRAVITY);
        Block {
            move_acc_y: speed as i64,
            y: clamp_pos(self.y + travel(speed, deltatime as int, COIN_MOTION as int)) as i64,
            ..self
        }
    }

    /// Moves a popped coin by one frame.
    pub fn pop_step(&mut self, deltatime: u32)
        requires
            old(self).valid(),
        ensures
            *final(self) == old(self).popped(deltatime),
            final(self).valid(),
    {
        self.move_acc_y = saturate_speed(self.move_acc_y - GRAVITY);
        self.y = advance(self.y, self.move_acc_y, deltatime, COIN_MOTION);
    }

    /// The block one animation frame further, cyclically.
    pub open spec fn animated(self) -> Block {
        Block {
            state: if self.state + 1 >= self.frames {
                0
            } else {
                (self.state + 1) as usize
            },
            ..self
        }
    }

    /// Steps the animation.
    pub fn animate(&mut self)
        requires
            old(self).valid(),
        ensures
            *final(self) == old(self).animated(),
            final(self).valid(),
    {
        if self.state + 1 >= self.frames {
            self.state = 0;
        } else {
            self.state += 1;
        }
    }
}

/// A block with a budget of one coin gives exactly one coin: the first hit
/// sets the coin free and leaves the block used up, shown as used, and
/// every later hit changes nothing and sets nothing free.
pub proof fn lemma_budget_of_one(b: Block)
    requires
        b.collision_event,
        b.collision_num == 1,
        b.collision_name == TypeTag::Block,
    ensures
        b.yield_of() == Some(Block::popped_coin(b.x, b.y, b.h)),
        b.hit().yield_of() is None,
        !b.hit().collision_event,
        b.hit().sprite == Sprite::BrickStill,
        b.hit().hit() == b.hit(),
{
}

/// A hit never raises the budget of a block, and a block whose budget is
/// used up stays as it is under any number of further hits.
pub proof fn lemma_budget_runs_out(b: Block)
    ensures
        b.hit().collision_num <= b.collision_num,
        b.reacts() ==> b.hit().collision_num == b.collision_num - 1,
        !b.hit().reacts() ==> b.hit().yield_of() is None && b.hit().hit().yield_of() is None,
        b.hit().collision_num == 0 ==> b.hit().hit() == b.hit(),
{
}

impl Collisioner for Block {
    open spec fn valid(&self) -> bool {
        &&& self.rect().wf()
        &&& in_speed(self.move_acc_y as int)
        &&& in_speed(self.move_acc_x as int)
        &&& self.state < self.frames
    }

    open spec fn rect(&self) -> Collision_rect {
        Collision_rect { x: self.x, y: self.y, w: self.w, h: self.h }
    }

    open spec fn type_tag(&self) -> TypeTag {
        self.object_type
    }

    /// Only a block that moves on its own can fall.
    open spec fn armed(&self) -> Block {
        if self.is_mover() {
            Block { is_falling: true, ..*self }
        } else {
            *self
        }
    }

    /// A block that moves on its own is stopped by a solid; nothing else
    /// changes a block.
    open spec fn collided(&self, other: TypeTag, rect: Collision_rect, sides: Seq<char>) -> Block {
        if self.is_mover() && other.is_solid() {
            self.stopped_by(rect, first_side(sides))
        } else {
            *self
        }
    }

    /// A block that moves on its own drifts; every other block stays.
    open spec fn advanced(&self, deltatime: u32) -> Block {
        if self.is_mover() {
            self.drifted(deltatime)
        } else {
            *self
        }
    }

    fn get_collision_rect(&self) -> (r: Collision_rect) {
        Collision_rect { x: self.x, y: self.y, w: self.w, h: self.h }
    }

    fn get_type(&self) -> (t: TypeTag) {
        self.object_type
    }

    fn handle_collision(
        &mut self,
        collision_object: TypeTag,
        collision_rect: Collision_rect,
        collisions: Vec<char>,
    ) {
        if self.mover() && collision_object.solid() {
            let side = pick_side(&collisions);
            self.stop_at(collision_rect, side);
        }
    }

    fn set_default_behavior(&mut self) {
        if self.mover() {
            self.is_falling = true;
        }
    }

    fn run_default_behavior(&mut self, deltatime: u32) {
        if self.mover() {
            self.drift(deltatime);
        }
    }
}

/// Frames between two animation steps of the popped coins and the stars.
pub const SPIN_TICKS: i32 = 5;

/// Frames between two animation steps of the coins that lie in the level.
pub const GLINT_TICKS: i32 = 10;

/// How far left of the screen's middle the player is when the camera
/// starts to follow it to the right.
pub const SCROLL_EDGE: i64 = 120_000;

/// Seconds on the clock at the start of the level.
pub const START_TIME: u32 = 400;

/// Milliseconds in a second of the clock.
pub const SECOND: u32 = 1000;

/// Where the player stands when the level starts.
pub const START_X: i64 = -180_000;

/// Camera offset along y while the player is underground.
pub const UNDERGROUND_VIEW: i64 = 1_242_000;

/// Camera offset along x after the player came back up.
pub const SURFACE_VIEW: i64 = -12_000_000;

/// Number of images of the coin in the status line.
pub const ICON_FRAMES: usize = 3;

/// Half the height of the coin in the status line.
pub const ICON_HALF_HEIGHT: i64 = 20_000;

/// Least number of digits of the score in the status line.
pub const SCORE_DIGITS: usize = 6;

/// Least number of digits of the coins in the status line.
pub const COIN_DIGITS: usize = 2;

/// The x coordinate of the column `c` of the status line, counted in half
/// letters from the left edge of the screen.
pub open spec fn status_x(c: int) -> int {
    -UNIT + LETTER_HALF_WIDTH * c
}

/// The y coordinate of the row `r` of the status line, counted in half
/// letters from the upper edge of the screen.
pub open spec fn status_y(r: int) -> int {
    UNIT - LETTER_HALF_HEIGHT * r
}

/// The font knows every letter of the headings of the status line.
proof fn lemma_headings_known()
    ensures
        known("mario"@),
        known("world"@),
        known("time"@),
{
    reveal_strlit("mario");
    reveal_strlit("world");
    reveal_strlit("time");
    assert forall|i: int| 0 <= i < 5 implies glyph_index(#[trigger] "mario"@[i]) is Some by {
        assert(i == 0 || i == 1 || i == 2 || i == 3 || i == 4);
    }
    assert forall|i: int| 0 <= i < 5 implies glyph_index(#[trigger] "world"@[i]) is Some by {
        assert(i == 0 || i == 1 || i == 2 || i == 3 || i == 4);
    }
    assert forall|i: int| 0 <= i < 4 implies glyph_index(#[trigger] "time"@[i]) is Some by {
        assert(i == 0 || i == 1 || i == 2 || i == 3);
    }
}

/// The game: the level, the player, and every object that takes part in a
/// frame, each kind in a collection of its own.
pub struct Game {
    world: World,
    spirit: Mario,
    solids: Vec<Contact>,
    blocks: Vec<Block>,
    question_blocks: Vec<QuestionMarkBlock>,
    flags: Vec<Collision_rect>,
    coin_blocks: Vec<Block>,
    objects_still: Vec<Block>,
    objects_inmove: Vec<Block>,
    goombas: Vec<Goomba>,
    troopas: Vec<Troopa>,
    delay: i32,
    coin_delay: i32,
    screen_move_x: i64,
    screen_move_y: i64,
    is_over: bool,
    is_endlvl: bool,
    hud_coin_icon: Block,
    score: u32,
    coins: u32,
    world_number: u32,
    world_level: u32,
    time: u32,
    clock: u32,
}

/// The state of the game as plain values.
pub struct GameView {
    pub spirit: Mario,
    /// The ground that nothing passes through and that never changes.
    pub solids: Seq<Contact>,
    /// The bricks.
    pub blocks: Seq<Block>,
    pub question_blocks: Seq<QuestionMarkBlock>,
    /// The rectangles at which the player touches a goal.
    pub flags: Seq<Collision_rect>,
    /// The coins that lie in the level.
    pub coin_blocks: Seq<Block>,
    /// What left a block and does not move sideways: the popped coins.
    pub objects_still: Seq<Block>,
    /// What left a block and moves on its own: mushrooms and stars.
    pub objects_inmove: Seq<Block>,
    pub goombas: Seq<Goomba>,
    pub troopas: Seq<Troopa>,
    /// Frames since the last animation step of the popped coins.
    pub delay: i32,
    /// Frames since the last animation step of the lying coins.
    pub coin_delay: i32,
    /// Camera offset.
    pub screen_move_x: i64,
    pub screen_move_y: i64,
    pub is_over: bool,
    pub is_endlvl: bool,
    pub hud_coin_icon: Block,
    pub score: u32,
    pub coins: u32,
    pub world_number: u32,
    pub world_level: u32,
    /// Seconds left on the clock.
    pub time: u32,
    /// Milliseconds since the clock last moved.
    pub clock: u32,
    pub bg_color: BgColor,
}

/// The player held at the left edge of the screen.
pub open spec fn held_on_screen(m: Mario, screen_move_x: i64) -> Mario {
    if m.x - m.w <= -UNIT - screen_move_x {
        Mario { x: clamp_pos(-UNIT - screen_move_x + m.w) as i64, ..m }
    } else {
        m
    }
}

/// Holds the player at the left edge of the screen.
fn hold_on_screen(m: &mut Mario, screen_move_x: i64)
    requires
        old(m).valid(),
        in_world(screen_move_x as int),
    ensures
        *final(m) == held_on_screen(*old(m), screen_move_x),
        final(m).valid(),
{
    if m.x - m.w <= -UNIT - screen_move_x {
        m.x = saturate_pos(-UNIT - screen_move_x + m.w);
    }
}

/// A frame counter after one more frame: it starts over after `period`.
pub open spec fn ticked(delay: i32, period: i32) -> i32 {
    if delay >= period {
        1
    } else {
        (delay + 1) as i32
    }
}

/// The goombas of the level, by the grid lines at which they start.
pub open spec fn start_goombas() -> Seq<Goomba> {
    seq![
        Goomba::created(column_of(45) as i64, row_of(5) as i64),
        Goomba::created(column_of(81) as i64, row_of(5) as i64),
        Goomba::created(column_of(103) as i64, row_of(5) as i64),
        Goomba::created(column_of(107) as i64, row_of(5) as i64),
        Goomba::created(column_of(161) as i64, row_of(21) as i64),
        Goomba::created(column_of(165) as i64, row_of(21) as i64),
        Goomba::created(column_of(195) as i64, row_of(5) as i64),
        Goomba::created(column_of(199) as i64, row_of(5) as i64),
        Goomba::created(column_of(229) as i64, row_of(5) as i64),
        Goomba::created(column_of(233) as i64, row_of(5) as i64),
        Goomba::created(column_of(249) as i64, row_of(5) as i64),
        Goomba::created(column_of(253) as i64, row_of(5) as i64),
        Goomba::created(column_of(257) as i64, row_of(5) as i64),
        Goomba::created(column_of(261) as i64, row_of(5) as i64),
        Goomba::created(column_of(349) as i64, row_of(5) as i64),
        Goomba::created(column_of(351) as i64, row_of(5) as i64),
    ]
}

/// The coin in the status line.
pub open spec fn start_icon() -> Block {
    Block {
        frames: ICON_FRAMES,
        ..Block::created(
            (-UNIT + 23 * COIN_HALF_WIDTH) as i64,
            (UNIT - 7 * ICON_HALF_HEIGHT) as i64,
            ICON_HALF_HEIGHT,
            COIN_HALF_WIDTH,
            false,
            Sprite::CoinIcon,
            TypeTag::Nil,
            TypeTag::Nil,
        )
    }
}

impl GameView {
    /// The game at the start of the level `world`.
    pub open spec fn started(world: World) -> GameView {
        GameView {
            spirit: Mario::created(START_X, row_of(5) as i64, CELL_H, CELL_W),
            solids: world.all_solids(),
            blocks: world.all_bricks(),
            question_blocks: world.all_questions(),
            flags: world.all_flags(),
            coin_blocks: world.all_coins(),
            objects_still: Seq::empty(),
            objects_inmove: Seq::empty(),
            goombas: start_goombas(),
            troopas: seq![Troopa::created(column_of(215) as i64, row_of(5) as i64)],
            delay: 0,
            coin_delay: 0,
            screen_move_x: 0,
            screen_move_y: 0,
            is_over: false,
            is_endlvl: false,
            hud_coin_icon: start_icon(),
            score: 0,
            coins: 0,
            world_number: 1,
            world_level: 1,
            time: START_TIME,
            clock: 0,
            bg_color: world.bg_color,
        }
    }

    /// The invariant of the game's state.
    pub open spec fn valid(self) -> bool {
        &&& self.spirit.valid()
        &&& all_valid(self.blocks)
        &&& all_valid(self.question_blocks)
        &&& all_valid(self.coin_blocks)
        &&& all_valid(self.objects_still)
        &&& all_valid(self.objects_inmove)
        &&& all_valid(self.goombas)
        &&& all_valid(self.troopas)
        &&& self.hud_coin_icon.valid()
        &&& 0 <= self.delay <= SPIN_TICKS
        &&& 0 <= self.coin_delay <= GLINT_TICKS
        &&& in_world(self.screen_move_x as int)
        &&& in_world(self.screen_move_y as int)
        &&& self.clock <= SECOND
    }

    /// Everything that a body can collide with, as snapshots: the player,
    /// the goombas, the troopas, the solid ground, the bricks and the
    /// mystery blocks.
    pub open spec fn scene(self) -> Seq<Contact> {
        seq![contact_of(self.spirit)] + contacts(self.goombas) + contacts(self.troopas)
            + self.solids + contacts(self.blocks) + contacts(self.question_blocks)
    }

    /// Index of the first brick in the scene.
    pub open spec fn first_block(self) -> int {
        (1 + self.goombas.len() + self.troopas.len() + self.solids.len()) as int
    }

    /// Index of the first mystery block in the scene.
    pub open spec fn first_question(self) -> int {
        self.first_block() + self.blocks.len()
    }

    /// The letters of the status line: the player's name over the score, the
    /// coins, the world and the level under their heading, and the seconds
    /// left under theirs.
    pub open spec fn status(self) -> Seq<Letter> {
        text_letters("mario"@, status_x(5) as i64, status_y(5) as i64) + number_letters(
            self.score as nat,
            SCORE_DIGITS as nat,
            status_x(5) as i64,
            status_y(7) as i64,
        ) + number_letters(
            self.coins as nat,
            COIN_DIGITS as nat,
            status_x(27) as i64,
            status_y(7) as i64,
        ) + text_letters("world"@, status_x(40) as i64, status_y(5) as i64) + number_letters(
            self.world_number as nat,
            1,
            status_x(42) as i64,
            status_y(7) as i64,
        ) + number_letters(self.world_level as nat, 1, status_x(46) as i64, status_y(7) as i64)
            + text_letters("time"@, status_x(55) as i64, status_y(5) as i64) + number_letters(
            self.time as nat,
            1,
            status_x(57) as i64,
            status_y(7) as i64,
        )
    }

    /// The game after the jump key: the player is in the air, and gets the
    /// impulse only if it neither rises nor falls.
    pub open spec fn jumped(self) -> GameView {
        GameView {
            spirit: Mario {
                is_falling: true,
                move_acc_y: if self.spirit.move_acc_y == 0 {
                    JUMP_IMPULSE
                } else {
                    self.spirit.move_acc_y
                },
                ..self.spirit
            },
            ..self
        }
    }

    /// The game after the crouch key.
    pub open spec fn crouched(self) -> GameView {
        GameView { spirit: Mario { is_crouch: true, ..self.spirit }, ..self }
    }

    /// The game after a direction key: `"left"` asks for a step to the
    /// left, every other text for one to the right.
    pub open spec fn moved(self, dir: Seq<char>) -> GameView {
        GameView {
            spirit: Mario {
                move_vel_x: if dir == "left"@ {
                    1i32
                } else {
                    (-1) as i32
                },
                ..self.spirit
            },
            ..self
        }
    }

    /// The game after the player went through a pipe: out of the
    /// underground for `exit`, else into it.
    pub open spec fn piped(self, exit: bool) -> GameView {
        if exit {
            GameView {
                spirit: Mario {
                    x: column_of(328) as i64,
                    y: row_of(9) as i64,
                    is_underground: false,
                    ..self.spirit
                },
                screen_move_x: SURFACE_VIEW,
                screen_move_y: 0,
                bg_color: BgColor::Blue,
                ..self
            }
        } else {
            GameView {
                spirit: Mario {
                    x: column_of(5) as i64,
                    y: (-2 * UNIT) as i64,
                    is_underground: true,
                    ..self.spirit
                },
                screen_move_x: 0,
                screen_move_y: UNDERGROUND_VIEW,
                bg_color: BgColor::Black,
                ..self
            }
        }
    }

    /// The game after the player was killed: flung up, and marked dead.
    pub open spec fn died(self) -> GameView {
        GameView {
            spirit: Mario { is_dead: true, move_acc_y: DEATH_IMPULSE, ..self.spirit },
            ..self
        }
    }

    /// The game after it ended.
    pub open spec fn ended(self) -> GameView {
        GameView { is_over: true, ..self }
    }

    /// The game one frame into the end of the level: the player slides down
    /// the pole, then walks to the castle with the camera following, and at
    /// the castle the game ends.
    pub open spec fn slid(self, deltatime: u32) -> GameView {
        let m = Mario { is_falling: false, ..self.spirit };
        if self.is_over {
            self
        } else if m.y >= row_of(7) {
            GameView {
                spirit: Mario {
                    y: clamp_pos(m.y + travel(-1, deltatime as int, SLIDE as int)) as i64,
                    ..m
                },
                ..self
            }
        } else if m.x <= column_of(409) {
            let stepped = m.delay + 1 >= RUN_TICKS;
            GameView {
                spirit: Mario {
                    y: row_of(5) as i64,
                    x: clamp_pos(m.x + travel(1, deltatime as int, WALK as int)) as i64,
                    delay: if stepped {
                        0
                    } else {
                        (m.delay + 1) as i32
                    },
                    state: if !stepped {
                        m.state
                    } else if m.state + 1 >= TURN_FRAME {
                        0
                    } else {
                        (m.state + 1) as usize
                    },
                    ..m
                },
                screen_move_x: clamp_pos(
                    self.screen_move_x + travel(-1, deltatime as int, WALK as int),
                ) as i64,
                ..self
            }
        } else {
            GameView { spirit: Mario { y: row_of(5) as i64, ..m }, is_over: true, ..self }
        }
    }

    /// First phase of a frame: every body that can fall is set falling.
    pub open spec fn armed(self) -> GameView {
        GameView {
            spirit: self.spirit.armed(),
            goombas: armed_all(self.goombas),
            troopas: armed_all(self.troopas),
            objects_inmove: armed_all(self.objects_inmove),
            ..self
        }
    }

    /// Second phase of a frame: the player, each mob and each mover is held
    /// against the snapshots of everything else, in the order of the scene,
    /// and reacts to what it meets. After that the blocks that the player
    /// hit from below react, the player collects what it touches, a stomp
    /// and a coin score, a goal ends the level, and a crouch on the mouth of
    /// an open pipe takes the player through it.
    pub open spec fn collided(self) -> GameView {
        let scene = self.scene();
        let hits = met(self.spirit, scene, Some(0usize));
        let spirit = resolved(self.spirit, scene, Some(0usize));
        let block_hits = hits.skip(self.first_block());
        let question_hits = hits.skip(self.first_question());
        let movers = resolved_all(self.objects_inmove, scene, None);
        let coin_blocks = untouched(self.coin_blocks, spirit.rect());
        let taken = self.coin_blocks.len() - coin_blocks.len();
        let after = GameView {
            spirit,
            goombas: resolved_all(self.goombas, scene, Some(1usize)),
            troopas: resolved_all(self.troopas, scene, Some((1 + self.goombas.len()) as usize)),
            blocks: blocks_hit(self.blocks, block_hits),
            question_blocks: questions_hit(self.question_blocks, question_hits),
            objects_still: self.objects_still + blocks_yield(self.blocks, block_hits, false)
                + questions_yield(self.question_blocks, question_hits, false),
            objects_inmove: untouched(movers, spirit.rect()) + blocks_yield(
                self.blocks,
                block_hits,
                true,
            ) + questions_yield(self.question_blocks, question_hits, true),
            coin_blocks,
            coins: gained(self.coins, 1, taken),
            score: gained(
                gained(self.score, STOMP_SCORE as int, stomps(scene, hits)),
                COIN_SCORE as int,
                taken,
            ),
            is_endlvl: self.is_endlvl || touches_any(spirit.rect(), self.flags),
            ..self
        };
        if spirit.is_crouch && entered(scene, hits) {
            after.piped(spirit.is_underground)
        } else {
            after
        }
    }

    /// Third phase of a frame, the objects: the spent coins are counted and
    /// removed; the animations step; the mystery blocks, the mobs and the
    /// movers move, the mobs after waking up if the player is in reach; and
    /// the squashed mobs that have lain long enough are removed, and the
    /// movers and shells that have fallen out of the level.
    pub open spec fn swept(self, deltatime: u32) -> GameView {
        let still = still_after(self.objects_still, deltatime);
        let spent = self.objects_still.len() - still.len();
        let spin = self.delay >= SPIN_TICKS;
        let glint = self.coin_delay >= GLINT_TICKS;
        GameView {
            objects_still: if spin {
                animated_tagged(still, TypeTag::Coin)
            } else {
                still
            },
            objects_inmove: present(
                advanced_all(
                    if spin {
                        animated_tagged(self.objects_inmove, TypeTag::Star)
                    } else {
                        self.objects_inmove
                    },
                    deltatime,
                ),
            ),
            coin_blocks: if glint {
                animated_tagged(self.coin_blocks, TypeTag::Coin)
            } else {
                self.coin_blocks
            },
            hud_coin_icon: if glint {
                self.hud_coin_icon.animated()
            } else {
                self.hud_coin_icon
            },
            delay: ticked(self.delay, SPIN_TICKS),
            coin_delay: ticked(self.coin_delay, GLINT_TICKS),
            question_blocks: advanced_all(self.question_blocks, deltatime),
            goombas: goombas_after(self.goombas, self.spirit.x, deltatime),
            troopas: troopas_after(self.troopas, self.spirit.x, deltatime),
            coins: gained(self.coins, 1, spent),
            score: gained(self.score, COIN_SCORE as int, spent),
            ..self
        }
    }

    /// Third phase of a frame, the player: it is held at the left edge of
    /// the screen and then moves; the camera follows it on the surface; and
    /// a player that is dead is shown dead and ends the game.
    pub open spec fn walked(self, deltatime: u32) -> GameView {
        let spirit = held_on_screen(self.spirit, self.screen_move_x).advanced(deltatime);
        let lost = spirit.is_dead;
        GameView {
            spirit: if lost {
                Mario { state: DEAD_FRAME, ..spirit }
            } else {
                spirit
            },
            screen_move_x: if spirit.x >= -SCROLL_EDGE - self.screen_move_x
                && !spirit.is_underground {
                clamp_pos(self.screen_move_x + travel(-1, deltatime as int, WALK as int)) as i64
            } else {
                self.screen_move_x
            },
            is_over: self.is_over || lost,
            ..self
        }
    }

    /// Third phase of a frame: everything moves, the objects first.
    pub open spec fn settled(self, deltatime: u32) -> GameView {
        self.swept(deltatime).walked(deltatime)
    }

    /// The game one frame later. A game that is over stays as it is.
    pub open spec fn stepped(self, deltatime: u32) -> GameView {
        if self.is_over {
            self
        } else {
            self.armed().collided().settled(deltatime)
        }
    }

    /// The clock after `deltatime` milliseconds: it moves by one second
    /// once more than a second has gone by, and stops at zero.
    pub open spec fn timed(self, deltatime: u32) -> GameView {
        if self.clock + deltatime > SECOND {
            GameView {
                clock: 0,
                time: if self.time > 0 {
                    (self.time - 1) as u32
                } else {
                    0
                },
                ..self
            }
        } else {
            GameView { clock: (self.clock + deltatime) as u32, ..self }
        }
    }

    /// The game after the keys that are held down in this frame.
    pub open spec fn pressed(self, left: bool, right: bool, up: bool, down: bool) -> GameView {
        let a = if left {
            self.moved("left"@)
        } else {
            self
        };
        let b = if right {
            a.moved("right"@)
        } else {
            a
        };
        let c = if up {
            b.jumped()
        } else {
            b
        };
        if down {
            c.crouched()
        } else {
            c
        }
    }

    /// The game after `deltatime` milliseconds: the clock moves, and the
    /// frame is that of the end of the level once a goal was touched.
    pub open spec fn updated(self, deltatime: u32) -> GameView {
        let t = self.timed(deltatime);
        if t.is_endlvl {
            t.slid(deltatime)
        } else {
            t.stepped(deltatime)
        }
    }
}

impl View for Game {
    type V = GameView;

    closed spec fn view(&self) -> GameView {
        GameView {
            spirit: self.spirit,
            solids: self.solids@,
            blocks: self.blocks@,
            question_blocks: self.question_blocks@,
            flags: self.flags@,
            coin_blocks: self.coin_blocks@,
            objects_still: self.objects_still@,
            objects_inmove: self.objects_inmove@,
            goombas: self.goombas@,
            troopas: self.troopas@,
            delay: self.delay,
            coin_delay: self.coin_delay,
            screen_move_x: self.screen_move_x,
            screen_move_y: self.screen_move_y,
            is_over: self.is_over,
            is_endlvl: self.is_endlvl,
            hud_coin_icon: self.hud_coin_icon,
            score: self.score,
            coins: self.coins,
            world_number: self.world_number,
            world_level: self.world_level,
            time: self.time,
            clock: self.clock,
            bg_color: self.world.bg_color,
        }
    }
}

impl Game {
    /// The level as it was built. The game works on collections of its own
    /// and changes nothing of the level but the colour behind it.
    pub closed spec fn level(&self) -> World {
        self.world
    }

    /// Whether the game still has the tiles and rooms that `before` had.
    pub open spec fn keeps_level(&self, before: &Game) -> bool {
        &&& self.level().tiles == before.level().tiles
        &&& self.level().tiles_underground == before.level().tiles_underground
    }

    /// A game on the level `world` with the given player and mobs. The
    /// interactive objects of the level are copied into collections of the
    /// game's own.
    pub fn start(
        world: World,
        spirit: Mario,
        goombas: Vec<Goomba>,
        troopas: Vec<Troopa>,
    ) -> (g: Game)
        requires
            world.valid(),
            spirit.valid(),
            all_valid(goombas@),
            all_valid(troopas@),
        ensures
            g@ == (GameView {
                spirit,
                goombas: goombas@,
                troopas: troopas@,
                ..GameView::started(world)
            }),
            g@.valid(),
            g.level() == world,
    {
        let solids = world.solids();
        let blocks = world.bricks();
        let question_blocks = world.questions();
        let flags = world.flags();
        let coin_blocks = world.coins();
        let mut hud_coin_icon = Block::create(
            -UNIT + 23 * COIN_HALF_WIDTH,
            UNIT - 7 * ICON_HALF_HEIGHT,
            ICON_HALF_HEIGHT,
            COIN_HALF_WIDTH,
            false,
            Sprite::CoinIcon,
            TypeTag::Nil,
            TypeTag::Nil,
        );
        hud_coin_icon.frames = ICON_FRAMES;
        Game {
            world,
            spirit,
            solids,
            blocks,
            question_blocks,
            flags,
            coin_blocks,
            objects_still: Vec::new(),
            objects_inmove: Vec::new(),
            goombas,
            troopas,
            delay: 0,
            coin_delay: 0,
            screen_move_x: 0,
            screen_move_y: 0,
            is_over: false,
            is_endlvl: false,
            hud_coin_icon,
            score: 0,
            coins: 0,
            world_number: 1,
            world_level: 1,
            time: START_TIME,
            clock: 0,
        }
    }

    /// The game at the start of the level of the game.
    pub fn init() -> (g: Game)
        ensures
            g@ == GameView::started(g.level()),
            g@.valid(),
            g.level().is_level(),
            g.level().valid(),
    {
        let world = World::init();
        let mut goombas: Vec<Goomba> = Vec::new();
        goombas.push(Goomba::create(grid_x(45), grid_y(5)));
        goombas.push(Goomba::create(grid_x(81), grid_y(5)));
        goombas.push(Goomba::create(grid_x(103), grid_y(5)));
        goombas.push(Goomba::create(grid_x(107), grid_y(5)));
        goombas.push(Goomba::create(grid_x(161), grid_y(21)));
        goombas.push(Goomba::create(grid_x(165), grid_y(21)));
        goombas.push(Goomba::create(grid_x(195), grid_y(5)));
        goombas.push(Goomba::create(grid_x(199), grid_y(5)));
        let mut troopas: Vec<Troopa> = Vec::new();
        troopas.push(Troopa::create(grid_x(215), grid_y(5)));
        goombas.push(Goomba::create(grid_x(229), grid_y(5)));
        goombas.push(Goomba::create(grid_x(233), grid_y(5)));
        goombas.push(Goomba::create(grid_x(249), grid_y(5)));
        goombas.push(Goomba::create(grid_x(253), grid_y(5)));
        goombas.push(Goomba::create(grid_x(257), grid_y(5)));
        goombas.push(Goomba::create(grid_x(261), grid_y(5)));
        goombas.push(Goomba::create(grid_x(349), grid_y(5)));
        goombas.push(Goomba::create(grid_x(351), grid_y(5)));
        let spirit = Mario::create(START_X, grid_y(5), CELL_H, CELL_W);
        proof {
            assert(goombas@ =~= start_goombas());
        }
        Game::start(world, spirit, goombas, troopas)
    }

    /// The level, for the renderer.
    pub fn world(&self) -> (r: &World)
        ensures
            *r == self.level(),
            r.bg_color == self@.bg_color,
    {
        &self.world
    }

    /// The player.
    pub fn spirit(&self) -> (r: Mario)
        ensures
            r == self@.spirit,
    {
        self.spirit
    }

    /// The bricks.
    pub fn blocks(&self) -> (r: &Vec<Block>)
        ensures
            r@ == self@.blocks,
    {
        &self.blocks
    }

    /// The mystery blocks.
    pub fn question_blocks(&self) -> (r: &Vec<QuestionMarkBlock>)
        ensures
            r@ == self@.question_blocks,
    {
        &self.question_blocks
    }

    /// The coins that lie in the level.
    pub fn coin_blocks(&self) -> (r: &Vec<Block>)
        ensures
            r@ == self@.coin_blocks,
    {
        &self.coin_blocks
    }

    /// The popped coins.
    pub fn objects_still(&self) -> (r: &Vec<Block>)
        ensures
            r@ == self@.objects_still,
    {
        &self.objects_still
    }

    /// The mushrooms and stars on their way.
    pub fn objects_inmove(&self) -> (r: &Vec<Block>)
        ensures
            r@ == self@.objects_inmove,
    {
        &self.objects_inmove
    }

    /// The goombas that are still in the level.
    pub fn goombas(&self) -> (r: &Vec<Goomba>)
        ensures
            r@ == self@.goombas,
    {
        &self.goombas
    }

    /// The troopas that are still in the level.
    pub fn troopas(&self) -> (r: &Vec<Troopa>)
        ensures
            r@ == self@.troopas,
    {
        &self.troopas
    }

    /// The coin in the status line.
    pub fn hud_coin_icon(&self) -> (r: Block)
        ensures
            r == self@.hud_coin_icon,
    {
        self.hud_coin_icon
    }

    /// The camera offset along x.
    pub fn screen_move_x(&self) -> (r: i64)
        ensures
            r == self@.screen_move_x,
    {
        self.screen_move_x
    }

    /// The camera offset along y.
    pub fn screen_move_y(&self) -> (r: i64)
        ensures
            r == self@.screen_move_y,
    {
        self.screen_move_y
    }

    /// Whether the game has ended.
    pub fn is_over(&self) -> (r: bool)
        ensures
            r == self@.is_over,
    {
        self.is_over
    }

    /// Whether the player has touched a goal.
    pub fn is_endlvl(&self) -> (r: bool)
        ensures
            r == self@.is_endlvl,
    {
        self.is_endlvl
    }

    /// The score.
    pub fn score(&self) -> (r: u32)
        ensures
            r == self@.score,
    {
        self.score
    }

    /// The number of coins collected.
    pub fn coins(&self) -> (r: u32)
        ensures
            r == self@.coins,
    {
        self.coins
    }

    /// The number of the world, for the status line.
    pub fn world_number(&self) -> (r: u32)
        ensures
            r == self@.world_number,
    {
        self.world_number
    }

    /// The number of the level in its world, for the status line.
    pub fn world_level(&self) -> (r: u32)
        ensures
            r == self@.world_level,
    {
        self.world_level
    }

    /// The seconds left on the clock.
    pub fn time(&self) -> (r: u32)
        ensures
            r == self@.time,
    {
        self.time
    }

    /// Puts `spirit` in the place of the player.
    pub fn set_spirit(&mut self, spirit: Mario)
        requires
            old(self)@.valid(),
            spirit.valid(),
        ensures
            final(self)@ == (GameView { spirit, ..old(self)@ }),
            final(self)@.valid(),
            final(self).keeps_level(old(self)),
    {
        self.spirit = spirit;
    }

    /// Says whether the player has touched a goal.
    pub fn set_is_endlvl(&mut self, is_endlvl: bool)
        requires
            old(self)@.valid(),
        ensures
            final(self)@ == (GameView { is_endlvl, ..old(self)@ }),
            final(self)@.valid(),
            final(self).keeps_level(old(self)),
    {
        self.is_endlvl = is_endlvl;
    }

    /// Sets the seconds left on the clock.
    pub fn set_time(&mut self, time: u32)
        requires
            old(self)@.valid(),
        ensures
            final(self)@ == (GameView { time, ..old(self)@ }),
            final(self)@.valid(),
            final(self).keeps_level(old(self)),
    {
        self.time = time;
    }

    /// The colour behind everything.
    pub fn bg_color(&self) -> (r: BgColor)
        ensures
            r == self@.bg_color,
    {
        self.world.bg_color
    }

    /// Writes the status line of the game into `hud`, in place of what
    /// `hud` held.
    pub fn status(&self, hud: &mut Texts)
        requires
            old(hud).valid(),
        ensures
            final(hud).valid(),
            final(hud).objects@ == self@.status(),
    {
        proof {
            lemma_headings_known();
        }
        let upper = UNIT - 5 * LETTER_HALF_HEIGHT;
        let lower = UNIT - 7 * LETTER_HALF_HEIGHT;
        hud.clear();
        hud.add_text("mario", -UNIT + 5 * LETTER_HALF_WIDTH, upper);
        hud.add_number(self.score, SCORE_DIGITS, -UNIT + 5 * LETTER_HALF_WIDTH, lower);
        hud.add_number(self.coins, COIN_DIGITS, -UNIT + 27 * LETTER_HALF_WIDTH, lower);
        hud.add_text("world", -UNIT + 40 * LETTER_HALF_WIDTH, upper);
        hud.add_number(self.world_number, 1, -UNIT + 42 * LETTER_HALF_WIDTH, lower);
        hud.add_number(self.world_level, 1, -UNIT + 46 * LETTER_HALF_WIDTH, lower);
        hud.add_text("time", -UNIT + 55 * LETTER_HALF_WIDTH, upper);
        hud.add_number(self.time, 1, -UNIT + 57 * LETTER_HALF_WIDTH, lower);
    }

    /// The jump key.
    pub fn jump(&mut self)
        requires
            old(self)@.valid(),
        ensures
            final(self)@ == old(self)@.jumped(),
            final(self)@.valid(),
            final(self).keeps_level(old(self)),
    {
        self.spirit.is_falling = true;
        if self.spirit.move_acc_y == 0 {
            self.spirit.move_acc_y = JUMP_IMPULSE;
        }
    }

    /// The crouch key.
    pub fn crouch(&mut self)
        requires
            old(self)@.valid(),
        ensures
            final(self)@ == old(self)@.crouched(),
            final(self)@.valid(),
            final(self).keeps_level(old(self)),
    {
        self.spirit.is_crouch = true;
    }

    /// Takes the player through a pipe: out of the underground for `exit`,
    /// else into it.
    pub fn go_into_pipe(&mut self, exit: bool)
        requires
            old(self)@.valid(),
        ensures
            final(self)@ == old(self)@.piped(exit),
            final(self)@.valid(),
            final(self).keeps_level(old(self)),
    {
        if exit {
            self.spirit.y = grid_y(9);
            self.spirit.x = grid_x(328);
            self.spirit.is_underground = false;
            self.screen_move_y = 0;
            self.screen_move_x = SURFACE_VIEW;
            self.world.bg_color = BgColor::Blue;
        } else {
            self.spirit.y = -2 * UNIT;
            self.spirit.x = grid_x(5);
            self.spirit.is_underground = true;
            self.screen_move_y = UNDERGROUND_VIEW;
            self.screen_move_x = 0;
            self.world.bg_color = BgColor::Black;
        }
    }

    /// One frame of the end of the level.
    #[allow(non_snake_case)]
    pub fn endLevel(&mut self, deltatime: u32)
        requires
            old(self)@.valid(),
        ensures
            final(self)@ == old(self)@.slid(deltatime),
            final(self)@.valid(),
            final(self).keeps_level(old(self)),
    {
        if self.is_over {
            return;
        }
        self.spirit.is_falling = false;
        if self.spirit.y >= grid_y(7) {
            self.spirit.y = advance(self.spirit.y, -1, deltatime, SLIDE);
        } else {
            self.spirit.y = grid_y(5);
            if self.spirit.x <= grid_x(409) {
                self.spirit.x = advance(self.spirit.x, 1, deltatime, WALK);
                self.spirit.delay += 1;
                if self.spirit.delay >= RUN_TICKS {
                    self.spirit.delay = 0;
                    self.spirit.state += 1;
                    if self.spirit.state >= TURN_FRAME {
                        self.spirit.state = 0;
                    }
                }
                self.screen_move_x = advance(self.screen_move_x, -1, deltatime, WALK);
            } else {
                self.over();
            }
        }
    }

    /// A direction key: `"left"` asks for a step to the left, every other
    /// text for one to the right.
    pub fn move_x(&mut self, dir: &str)
        requires
            old(self)@.valid(),
        ensures
            final(self)@ == old(self)@.moved(dir@),
            final(self)@.valid(),
            final(self).keeps_level(old(self)),
    {
        if same_text(dir, "left") {
            self.spirit.move_vel_x = 1;
        } else {
            self.spirit.move_vel_x = -1;
        }
    }

    /// Kills the player: it is flung up and marked dead. The next frame
    /// shows it dead and ends the game.
    pub fn dead(&mut self)
        requires
            old(self)@.valid(),
        ensures
            final(self)@ == old(self)@.died(),
            final(self)@.valid(),
            final(self).keeps_level(old(self)),
    {
        self.spirit.move_acc_y = DEATH_IMPULSE;
        self.spirit.is_dead = true;
    }

    /// The game ends.
    fn over(&mut self)
        ensures
            final(self)@ == old(self)@.ended(),
            final(self).keeps_level(old(self)),
    {
        self.is_over = true;
    }

    /// First phase of a frame.
    fn arm(&mut self)
        requires
            old(self)@.valid(),
        ensures
            final(self)@ == old(self)@.armed(),
            final(self)@.valid(),
            final(self).keeps_level(old(self)),
    {
        self.spirit.set_default_behavior();
        arm_all(&mut self.goombas);
        arm_all(&mut self.troopas);
        arm_all(&mut self.objects_inmove);
    }

    /// Second phase of a frame.
    fn collide(&mut self)
        requires
            old(self)@.valid(),
        ensures
            final(self)@ == old(self)@.collided(),
            final(self)@.valid(),
            final(self).keeps_level(old(self)),
    {
        let mut scene: Vec<Contact> = Vec::new();
        scene.push(
            Contact { kind: TypeTag::Player, rect: self.spirit.get_collision_rect(), enter: false },
        );
        contacts_of(&self.goombas, &mut scene);
        contacts_of(&self.troopas, &mut scene);
        append_all(&mut scene, &self.solids);
        let first_block = scene.len();
        contacts_of(&self.blocks, &mut scene);
        let first_question = scene.len();
        contacts_of(&self.question_blocks, &mut scene);
        let hits = resolve(&mut self.spirit, &scene, Some(0));
        let first_troopa = 1 + self.goombas.len();
        resolve_all(&mut self.goombas, &scene, Some(1));
        resolve_all(&mut self.troopas, &scene, Some(first_troopa));
        resolve_all(&mut self.objects_inmove, &scene, None);
        let player = self.spirit.get_collision_rect();
        let _ = take_touched(&mut self.objects_inmove, player);
        hit_blocks(
            &mut self.blocks,
            &hits,
            first_block,
            &mut self.objects_still,
            &mut self.objects_inmove,
        );
        hit_questions(
            &mut self.question_blocks,
            &hits,
            first_question,
            &mut self.objects_still,
            &mut self.objects_inmove,
        );
        let taken = take_touched(&mut self.coin_blocks, player);
        self.coins = gain(self.coins, 1, taken);
        let stomped = count_stomps(&scene, &hits);
        self.score = gain(gain(self.score, STOMP_SCORE, stomped), COIN_SCORE, taken);
        if touch_any(player, &self.flags) {
            self.is_endlvl = true;
        }
        if self.spirit.is_crouch && find_entry(&scene, &hits) {
            let exit = self.spirit.is_underground;
            self.go_into_pipe(exit);
        }
    }

    /// Third phase of a frame, the objects.
    fn sweep(&mut self, deltatime: u32)
        requires
            old(self)@.valid(),
        ensures
            final(self)@ == old(self)@.swept(deltatime),
            final(self)@.valid(),
            final(self).keeps_level(old(self)),
    {
        let spent = sweep_still(&mut self.objects_still, deltatime);
        self.coins = gain(self.coins, 1, spent);
        self.score = gain(self.score, COIN_SCORE, spent);
        if self.delay >= SPIN_TICKS {
            animate_tagged(&mut self.objects_still, TypeTag::Coin);
            animate_tagged(&mut self.objects_inmove, TypeTag::Star);
            self.delay = 0;
        }
        self.delay += 1;
        if self.coin_delay >= GLINT_TICKS {
            animate_tagged(&mut self.coin_blocks, TypeTag::Coin);
            self.hud_coin_icon.animate();
            self.coin_delay = 0;
        }
        self.coin_delay += 1;
        let player_x = self.spirit.x;
        advance_all(&mut self.question_blocks, deltatime);
        run_goombas(&mut self.goombas, player_x, deltatime);
        run_troopas(&mut self.troopas, player_x, deltatime);
        advance_all(&mut self.objects_inmove, deltatime);
        sweep_movers(&mut self.objects_inmove);
    }

    /// Third phase of a frame, the player.
    fn walk(&mut self, deltatime: u32)
        requires
            old(self)@.valid(),
        ensures
            final(self)@ == old(self)@.walked(deltatime),
            final(self)@.valid(),
            final(self).keeps_level(old(self)),
    {
        let mut spirit = self.spirit;
        hold_on_screen(&mut spirit, self.screen_move_x);
        spirit.run_default_behavior(deltatime);
        if spirit.x >= -SCROLL_EDGE - self.screen_move_x && !spirit.is_underground {
            self.screen_move_x = advance(self.screen_move_x, -1, deltatime, WALK);
        }
        self.spirit = spirit;
        if spirit.is_dead {
            self.spirit.state = DEAD_FRAME;
            self.over();
        }
    }

    /// Third phase of a frame.
    fn settle(&mut self, deltatime: u32)
        requires
            old(self)@.valid(),
        ensures
            final(self)@ == old(self)@.settled(deltatime),
            final(self)@.valid(),
            final(self).keeps_level(old(self)),
    {
        self.sweep(deltatime);
        self.walk(deltatime);
    }

    /// One frame of the game.
    pub fn handle(&mut self, deltatime: u32)
        requires
            old(self)@.valid(),
        ensures
            final(self)@ == old(self)@.stepped(deltatime),
            final(self)@.valid(),
            final(self).keeps_level(old(self)),
    {
        if self.is_over {
            return;
        }
        self.arm();
        self.collide();
        self.settle(deltatime);
    }

    /// Applies the keys that are held down in this frame.
    pub fn press(&mut self, left: bool, right: bool, up: bool, down: bool)
        requires
            old(self)@.valid(),
        ensures
            final(self)@ == old(self)@.pressed(left, right, up, down),
            final(self)@.valid(),
            final(self).keeps_level(old(self)),
    {
        if left {
            self.move_x("left");
        }
        if right {
            self.move_x("right");
        }
        if up {
            self.jump();
        }
        if down {
            self.crouch();
        }
    }

    /// Lets `deltatime` milliseconds go by: the clock moves, and the game
    /// runs one frame, that of the end of the level once a goal was touched.
    pub fn update(&mut self, deltatime: u32)
        requires
            old(self)@.valid(),
        ensures
            final(self)@ == old(self)@.updated(deltatime),
            final(self)@.valid(),
            final(self).keeps_level(old(self)),
    {
        let gone: u64 = self.clock as u64 + deltatime as u64;
        if gone > SECOND as u64 {
            self.clock = 0;
            if self.time > 0 {
                self.time -= 1;
            }
        } else {
            self.clock = gone as u32;
        }
        if self.is_endlvl {
            self.endLevel(deltatime);
        } else {
            self.handle(deltatime);
        }
    }
}

} // verus!
