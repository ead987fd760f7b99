//! The interactive objects of a level: mystery blocks, the goal, pipes, and
//! the collections of a tile.

use vstd::prelude::*;
use crate::units::{
    UNIT, CELL_W, CELL_H, LIMIT, MOB_TICKS, in_world, clamp_pos, row_of, grid_y, same_text,
    saturate_pos,
};
use crate::collision::{TypeTag, all_valid};
use crate::game::Block;
use crate::render::{Object, Sprite};

pub use crate::collision::{Collision_rect, Collisioner};

verus! {

/// Number of animation frames of a mystery block.
pub const QUESTION_FRAMES: usize = 3;

/// A mystery block: animated until it is hit, and good for one hit.
#[derive(Clone, Copy, Debug, PartialEq, Eq, Structural)]
pub struct QuestionMarkBlock {
    pub x: i64,
    pub y: i64,
    pub h: i64,
    pub w: i64,
    pub object_type: TypeTag,
    pub move_block: bool,
    /// Whether the hit still sets something free.
    pub collision_event: bool,
    /// What the hit sets free: `Mushroom`, or a coin for anything else.
    pub collision_name: TypeTag,
    /// Animation frame, below `QUESTION_FRAMES`.
    pub state: usize,
    /// Frames since the last animation step.
    pub delay: usize,
    pub is_hit: bool,
}

impl QuestionMarkBlock {
    /// A mystery block that was not hit yet. With `collision_event` it holds
    /// what `collision_name` says.
    pub open spec fn created(
        x: i64,
        y: i64,
        h: i64,
        w: i64,
        collision_event: bool,
        collision_name: TypeTag,
    ) -> QuestionMarkBlock {
        QuestionMarkBlock {
            x,
            y,
            h,
            w,
            object_type: TypeTag::QuestionBlock,
            move_block: false,
            collision_event,
            collision_name,
            state: 0,
            delay: 0,
            is_hit: false,
        }
    }

    /// Makes a mystery block that was not hit yet.
    pub fn create(
        x: i64,
        y: i64,
        h: i64,
        w: i64,
        collision_event: bool,
        collision_name: TypeTag,
    ) -> (q: QuestionMarkBlock)
        ensures
            q == QuestionMarkBlock::created(x, y, h, w, collision_event, collision_name),
            q.valid() <==> (Collision_rect { x, y, w, h }).wf(),
    {
        QuestionMarkBlock {
            x,
            y,
            h,
            w,
            object_type: TypeTag::QuestionBlock,
            move_block: false,
            collision_event,
            collision_name,
            state: 0,
            delay: 0,
            is_hit: false,
        }
    }

    /// Hands the block over to the collection that the frame driver walks.
    pub fn attach_to_main_loop(self, collisions_objects: &mut Vec<QuestionMarkBlock>)
        ensures
            final(collisions_objects)@ == old(collisions_objects)@.push(self),
    {
        collisions_objects.push(self);
    }

    /// What a hit from below sets free, if anything.
    pub open spec fn yield_of(self) -> Option<Block> {
        if !self.collision_event {
            None
        } else if self.collision_name == TypeTag::Mushroom {
            Some(Block::risen_mushroom(self.x, self.y, self.h, self.w))
        } else {
            Some(Block::popped_coin(self.x, self.y, self.h))
        }
    }

    /// The block after a hit from below: used up and frozen on its first
    /// frame.
    pub open spec fn hit(self) -> QuestionMarkBlock {
        QuestionMarkBlock { state: 0, collision_event: false, is_hit: true, ..self }
    }

    /// Reaction to a hit from below. What the hit sets free is appended to
    /// `objects`.
    pub fn handler(&mut self, objects: &mut Vec<Block>)
        ensures
            *final(self) == old(self).hit(),
            final(objects)@ == match old(self).yield_of() {
                Some(b) => old(objects)@.push(b),
                None => old(objects)@,
            },
            old(self).valid() ==> final(self).valid(),
    {
        if self.collision_event {
            match self.collision_name {
                TypeTag::Mushroom => {
                    objects.push(Block::raise_mushroom(self.x, self.y, self.h, self.w));
                },
                _ => {
                    objects.push(Block::pop_coin(self.x, self.y, self.h));
                },
            }
        }
        self.state = 0;
        self.collision_event = false;
        self.is_hit = true;
    }

    /// The image that the block shows.
    pub fn sprite(&self) -> (s: Sprite)
        ensures
            s == if self.is_hit {
                Sprite::BrickStill
            } else {
                Sprite::QuestionMark
            },
    {
        if self.is_hit {
            Sprite::BrickStill
        } else {
            Sprite::QuestionMark
        }
    }
}

/// A mystery block is good for one hit: after it, the block is used up, and
/// every later hit changes nothing and sets nothing free.
pub proof fn lemma_single_use(q: QuestionMarkBlock)
    ensures
        q.hit().is_hit,
        q.hit().yield_of() is None,
        q.hit().hit() == q.hit(),
{
}

impl Collisioner for QuestionMarkBlock {
    open spec fn valid(&self) -> bool {
        &&& self.rect().wf()
        &&& self.state < QUESTION_FRAMES
        &&& self.delay < MOB_TICKS
    }

    open spec fn rect(&self) -> Collision_rect {
        Collision_rect { x: self.x, y: self.y, w: self.w, h: self.h }
    }

    open spec fn type_tag(&self) -> TypeTag {
        self.object_type
    }

    open spec fn armed(&self) -> QuestionMarkBlock {
        *self
    }

    /// The block does not react to a collision by itself: the frame driver
    /// calls `handler` when the player hits it from below.
    open spec fn collided(
        &self,
        other: TypeTag,
        rect: Collision_rect,
        sides: Seq<char>,
    ) -> QuestionMarkBlock {
        *self
    }

    /// Until it is hit, the block steps through its frames, one step every
    /// `MOB_TICKS` frames.
    open spec fn advanced(&self, deltatime: u32) -> QuestionMarkBlock {
        if self.is_hit {
            *self
        } else if self.delay + 1 >= MOB_TICKS {
            QuestionMarkBlock {
                delay: 0,
                state: if self.state + 1 >= QUESTION_FRAMES {
                    0
                } else {
                    (self.state + 1) as usize
                },
                ..*self
            }
        } else {
            QuestionMarkBlock { delay: (self.delay + 1) as usize, ..*self }
        }
    }

    fn get_collision_rect(&self) -> (r: Collision_rect) {
        Collision_rect { x: self.x, y: self.y, w: self.w, h: self.h }
    }

    fn get_type(&self) -> (t: TypeTag) {
        self.object_type
    }

    fn handle_collision(
        &mut self,
        collision_object: TypeTag,
        collision_rect: Collision_rect,
        collisions: Vec<char>,
    ) {
    }

    fn set_default_behavior(&mut self) {
    }

    fn run_default_behavior(&mut self, deltatime: u32) {
        if !self.is_hit {
            self.delay += 1;
            if self.delay >= MOB_TICKS {
                self.delay = 0;
                self.state += 1;
                if self.state >= QUESTION_FRAMES {
                    self.state = 0;
                }
            }
        }
    }
}

/// Number of quads of the goal: nine of the pole, the cloth and the ball.
pub const FLAG_QUADS: usize = 11;

/// Number of quads of the goal's pole.
pub const POLE_QUADS: usize = 9;

/// The goal: a base stone and, above it, the pole with the cloth and the
/// ball. The stone and the quads of the pole are what the player can touch.
pub struct Flag {
    pub x: i64,
    pub y: i64,
    pub stone: Block,
    pub objects: Vec<Object>,
}

impl Flag {
    /// The quad `k` of a goal whose base stone is at `(x, y)`.
    pub open spec fn quad_of(x: i64, y: i64, k: int) -> Object {
        if k < POLE_QUADS {
            Object {
                left: (x - CELL_W) as i64,
                right: (x + CELL_W) as i64,
                bottom: (y + (2 * k + 1) * CELL_H) as i64,
                top: (y + (2 * k + 3) * CELL_H) as i64,
                sprite: Sprite::FlagPole,
                x,
                y: (y + (2 * k + 2) * CELL_H) as i64,
                h: CELL_H,
                w: CELL_W,
            }
        } else if k == POLE_QUADS {
            Object {
                left: (x - 2 * CELL_W) as i64,
                right: x,
                bottom: (y + 17 * CELL_H) as i64,
                top: (y + 19 * CELL_H) as i64,
                sprite: Sprite::FlagCloth,
                x: (-UNIT) as i64,
                y: (-UNIT) as i64,
                h: 0,
                w: 0,
            }
        } else {
            Object {
                left: (x - CELL_W) as i64,
                right: (x + CELL_W) as i64,
                bottom: (y + 19 * CELL_H) as i64,
                top: (y + 21 * CELL_H) as i64,
                sprite: Sprite::FlagBall,
                x: (-UNIT) as i64,
                y: (-UNIT) as i64,
                h: 0,
                w: 0,
            }
        }
    }

    /// The goal is the one that `create` makes at its place.
    pub open spec fn valid(self) -> bool {
        &&& in_world(self.x as int)
        &&& in_world(self.y as int)
        &&& self.stone == Block::created(
            self.x,
            self.y,
            CELL_H,
            CELL_W,
            false,
            Sprite::StoneUp,
            TypeTag::Flag,
            TypeTag::Flag,
        )
        &&& self.objects@ == Seq::new(FLAG_QUADS as nat, |k: int| Flag::quad_of(self.x, self.y, k))
    }

    /// The rectangles at which the player touches the goal: the base stone
    /// and the quads of the pole.
    pub open spec fn touch_rects(self) -> Seq<Collision_rect> {
        seq![self.stone.rect()] + Seq::new(POLE_QUADS as nat, |k: int| self.objects@[k].rect())
    }

    /// A goal with its base stone at `(x, y)`.
    pub fn create(x: i64, y: i64) -> (f: Flag)
        requires
            in_world(x as int),
            in_world(y as int),
        ensures
            f.x == x,
            f.y == y,
            f.valid(),
    {
        let stone = Block::create(
            x,
            y,
            CELL_H,
            CELL_W,
            false,
            Sprite::StoneUp,
            TypeTag::Flag,
            TypeTag::Flag,
        );
        let mut objects: Vec<Object> = Vec::new();
        let mut k: usize = 0;
        while k < POLE_QUADS
            invariant
                k <= POLE_QUADS,
                in_world(x as int),
                in_world(y as int),
                objects@ == Seq::new(k as nat, |j: int| Flag::quad_of(x, y, j)),
            decreases POLE_QUADS - k,
        {
            let offset: i64 = 2 * (k as i64) + 1;
            let mut obj = Object::create_square_with_points(
                x - CELL_W,
                x + CELL_W,
                y + offset * CELL_H,
                y + (offset + 2) * CELL_H,
                Sprite::FlagPole,
            );
            obj.set_cordinates(x, y + (offset + 1) * CELL_H, CELL_H, CELL_W);
            objects.push(obj);
            k += 1;
        }
        objects.push(
            Object::create_square_with_points(
                x - 2 * CELL_W,
                x,
                y + 17 * CELL_H,
                y + 19 * CELL_H,
                Sprite::FlagCloth,
            ),
        );
        objects.push(
            Object::create_square_with_points(
                x - CELL_W,
                x + CELL_W,
                y + 19 * CELL_H,
                y + 21 * CELL_H,
                Sprite::FlagBall,
            ),
        );
        proof {
            assert(objects@ =~= Seq::new(FLAG_QUADS as nat, |j: int| Flag::quad_of(x, y, j)));
        }
        Flag { x, y, stone, objects }
    }
}

/// Largest number of segments of a pipe.
pub const PIPE_LIMIT: usize = 1_000_000;

/// Number of quads of the lying part of a side pipe.
pub const SIDE_QUADS: usize = 8;

/// Number of segments of the upright part of the tallest side pipe.
pub const SIDE_PIPE_REACH: usize = 13;

/// A pipe: quads in pairs, left and right half, from the mouth down.
pub struct Pipe {
    pub x: i64,
    pub y: i64,
    pub h: i64,
    pub w: i64,
    /// Whether the first two quads are a mouth.
    pub with_enter: bool,
    /// Whether the player can enter through the mouth.
    pub is_collision: bool,
    /// Number of pairs of quads after the mouth.
    pub pipe_len: usize,
    pub objects: Vec<Object>,
}

impl Pipe {
    /// The half of a pipe's mouth: the right one for `k == 0`.
    pub open spec fn mouth_of(x: i64, y: i64, h: i64, w: i64, k: int) -> Object {
        if k == 0 {
            Object {
                left: x,
                right: (x + w) as i64,
                bottom: (y - h) as i64,
                top: (y + h) as i64,
                sprite: Sprite::PipeEnterRight,
                x: (x + w / 2) as i64,
                y,
                h: CELL_H,
                w: CELL_W,
            }
        } else {
            Object {
                left: (x - w) as i64,
                right: x,
                bottom: (y - h) as i64,
                top: (y + h) as i64,
                sprite: Sprite::PipeEnterLeft,
                x: (x - w / 2) as i64,
                y,
                h: CELL_H,
                w: CELL_W,
            }
        }
    }

    /// The half `s` of a pipe's shaft, counted from the top: the right half
    /// of a segment for an even `s`, the left half of the same segment for
    /// the odd `s` after it.
    pub open spec fn shaft_of(x: i64, y: i64, h: i64, w: i64, s: int) -> Object {
        let offset = 2 * (s / 2) + 1;
        if s % 2 == 0 {
            Object {
                left: x,
                right: (x + w) as i64,
                bottom: (y - (offset + 2) * h) as i64,
                top: (y - offset * h) as i64,
                sprite: Sprite::PipeRight,
                x: (x + w / 2) as i64,
                y: (y - (offset + 1) * h) as i64,
                h: CELL_H,
                w: CELL_W,
            }
        } else {
            Object {
                left: (x - w) as i64,
                right: x,
                bottom: (y - (offset + 2) * h) as i64,
                top: (y - offset * h) as i64,
                sprite: Sprite::PipeLeft,
                x: (x - w / 2) as i64,
                y: (y - (offset + 1) * h) as i64,
                h: CELL_H,
                w: CELL_W,
            }
        }
    }

    /// The quads of an upright pipe whose mouth has its centre at `(x, y)`:
    /// the mouth, if there is one, and `pipe_len` segments below it.
    pub open spec fn upright_quads(
        x: i64,
        y: i64,
        h: i64,
        w: i64,
        pipe_len: usize,
        with_enter: bool,
    ) -> Seq<Object> {
        let mouth: int = if with_enter {
            2
        } else {
            0
        };
        Seq::new(
            (mouth + 2 * pipe_len) as nat,
            |k: int|
                if k < mouth {
                    Pipe::mouth_of(x, y, h, w, k)
                } else {
                    Pipe::shaft_of(x, y, h, w, k - mouth)
                },
        )
    }

    /// The quad `k` of the lying part of a side pipe: the mouth, the body,
    /// the connection and the foot of the upright part, each as an upper and
    /// a lower half. Only the mouth and the body can be touched.
    pub open spec fn side_of(x: i64, y: i64, h: i64, w: i64, k: int) -> Object {
        let column = k / 2;
        let upper = k % 2 == 0;
        let centre = x + 2 * (column * w);
        Object {
            left: (centre - w) as i64,
            right: (centre + w) as i64,
            bottom: if upper {
                y
            } else {
                (y - 2 * h) as i64
            },
            top: if upper {
                (y + 2 * h) as i64
            } else {
                y
            },
            sprite: if column == 0 {
                if upper {
                    Sprite::PipeSideEnterTop
                } else {
                    Sprite::PipeSideEnterBottom
                }
            } else if column == 1 {
                if upper {
                    Sprite::PipeSideTop
                } else {
                    Sprite::PipeSideBottom
                }
            } else if column == 2 {
                if upper {
                    Sprite::PipeSideConnectionTop
                } else {
                    Sprite::PipeSideConnectionBottom
                }
            } else {
                Sprite::PipeRight
            },
            x: if column < 2 {
                centre as i64
            } else {
                (-UNIT) as i64
            },
            y: if column < 2 {
                if upper {
                    (y + h) as i64
                } else {
                    (y - h) as i64
                }
            } else {
                (-UNIT) as i64
            },
            h: if column < 2 {
                CELL_H
            } else {
                0
            },
            w: if column < 2 {
                CELL_W
            } else {
                0
            },
        }
    }

    /// The quads of a side pipe: the lying part, then the upright part that
    /// leads up and out of the underground.
    pub open spec fn side_quads(x: i64, y: i64, h: i64, w: i64, pipe_len: usize) -> Seq<Object> {
        Seq::new(SIDE_QUADS as nat, |k: int| Pipe::side_of(x, y, h, w, k)) + Pipe::upright_quads(
            clamp_pos(x + 5 * CELL_W) as i64,
            row_of(-(SIDE_PIPE_REACH - pipe_len)) as i64,
            CELL_H,
            (2 * CELL_W) as i64,
            pipe_len,
            false,
        )
    }

    /// What the renderer relies on: the pipe has as many quads as its
    /// length says.
    pub open spec fn valid(self) -> bool {
        self.objects@.len() == 2 * self.pipe_len + if self.with_enter {
            2int
        } else {
            0int
        }
    }

    /// The pipe is the upright one that `create` makes of these arguments.
    pub open spec fn is_upright(
        self,
        x: i64,
        y: i64,
        h: i64,
        w: i64,
        pipe_len: usize,
        with_enter: bool,
        is_collision: bool,
    ) -> bool {
        &&& self.x == x
        &&& self.y == y
        &&& self.h == h
        &&& self.w == w
        &&& self.pipe_len == pipe_len
        &&& self.with_enter == with_enter
        &&& self.is_collision == is_collision
        &&& self.objects@ == Pipe::upright_quads(x, y, h, w, pipe_len, with_enter)
    }

    /// The pipe is the side pipe that `create_sidepipe` makes of these
    /// arguments.
    pub open spec fn is_side(self, x: i64, y: i64, h: i64, w: i64, pipe_len: usize) -> bool {
        &&& self.x == x
        &&& self.y == y
        &&& self.h == h
        &&& self.w == w
        &&& self.pipe_len == pipe_len + 3
        &&& self.with_enter
        &&& self.is_collision
        &&& self.objects@ == Pipe::side_quads(x, y, h, w, pipe_len)
    }

    /// Whether the quad `k` is a mouth through which the player can enter.
    pub open spec fn is_entry(self, k: int) -> bool {
        self.is_collision && self.with_enter && k < 2
    }

    /// An upright pipe whose mouth has its centre at `(x, y)`, with quads of
    /// half-extents `h` and `w`.
    pub fn create(
        x: i64,
        y: i64,
        h: i64,
        w: i64,
        pipe_len: usize,
        with_enter: bool,
        is_collision: bool,
    ) -> (p: Pipe)
        requires
            in_world(x as int),
            in_world(y as int),
            0 < h <= LIMIT,
            0 < w <= LIMIT,
            pipe_len <= PIPE_LIMIT,
        ensures
            p.is_upright(x, y, h, w, pipe_len, with_enter, is_collision),
            p.valid(),
    {
        let mut objects: Vec<Object> = Vec::new();
        if with_enter {
            let mut obj = Object::create_square_with_points(
                x,
                x + w,
                y - h,
                y + h,
                Sprite::PipeEnterRight,
            );
            obj.set_cordinates(x + w / 2, y, CELL_H, CELL_W);
            objects.push(obj);
            let mut obj = Object::create_square_with_points(
                x - w,
                x,
                y - h,
                y + h,
                Sprite::PipeEnterLeft,
            );
            obj.set_cordinates(x - w / 2, y, CELL_H, CELL_W);
            objects.push(obj);
        }
        let ghost mouth: int = if with_enter {
            2
        } else {
            0
        };
        let mut i: usize = 0;
        while i < pipe_len
            invariant
                i <= pipe_len,
                pipe_len <= PIPE_LIMIT,
                in_world(x as int),
                in_world(y as int),
                0 < h <= LIMIT,
                0 < w <= LIMIT,
                mouth == if with_enter {
                    2int
                } else {
                    0int
                },
                objects@ == Pipe::upright_quads(x, y, h, w, i, with_enter),
            decreases pipe_len - i,
        {
            let offset: i64 = 2 * (i as i64) + 1;
            assert(0 < offset * h <= 2_000_001 * LIMIT && 0 < (offset + 1) * h <= 2_000_002
                * LIMIT && 0 < (offset + 2) * h <= 2_000_003 * LIMIT) by (nonlinear_arith)
                requires
                    0 < offset <= 2_000_000,
                    0 < h <= LIMIT,
            ;
            let mut obj = Object::create_square_with_points(
                x,
                x + w,
                y - (offset + 2) * h,
                y - offset * h,
                Sprite::PipeRight,
            );
            obj.set_cordinates(x + w / 2, y - (offset + 1) * h, CELL_H, CELL_W);
            objects.push(obj);
            let mut obj = Object::create_square_with_points(
                x - w,
                x,
                y - (offset + 2) * h,
                y - offset * h,
                Sprite::PipeLeft,
            );
            obj.set_cordinates(x - w / 2, y - (offset + 1) * h, CELL_H, CELL_W);
            objects.push(obj);
            i += 1;
        }
        Pipe { x, y, h, w, with_enter, is_collision, pipe_len, objects }
    }

    /// A side pipe: a mouth at `(x, y)` that opens to the left, and an
    /// upright part of `pipe_len` segments. The player can enter it.
    pub fn create_sidepipe(x: i64, y: i64, h: i64, w: i64, pipe_len: usize) -> (p: Pipe)
        requires
            in_world(x as int),
            in_world(y as int),
            0 < h <= LIMIT,
            0 < w <= LIMIT,
            pipe_len <= SIDE_PIPE_REACH,
        ensures
            p.is_side(x, y, h, w, pipe_len),
            p.valid(),
    {
        let mut objects: Vec<Object> = Vec::new();
        let mut k: usize = 0;
        while k < SIDE_QUADS
            invariant
                k <= SIDE_QUADS,
                k % 2 == 0,
                in_world(x as int),
                in_world(y as int),
                0 < h <= LIMIT,
                0 < w <= LIMIT,
                objects@ == Seq::new(k as nat, |j: int| Pipe::side_of(x, y, h, w, j)),
            decreases SIDE_QUADS - k,
        {
            let column: i64 = (k / 2) as i64;
            assert(0 <= column * w <= 3 * LIMIT) by (nonlinear_arith)
                requires
                    0 <= column <= 3,
                    0 < w <= LIMIT,
            ;
            let centre = x + 2 * (column * w);
            let left = centre - w;
            let right = centre + w;
            let upper_sprite = if column == 0 {
                Sprite::PipeSideEnterTop
            } else if column == 1 {
                Sprite::PipeSideTop
            } else if column == 2 {
                Sprite::PipeSideConnectionTop
            } else {
                Sprite::PipeRight
            };
            let lower_sprite = if column == 0 {
                Sprite::PipeSideEnterBottom
            } else if column == 1 {
                Sprite::PipeSideBottom
            } else if column == 2 {
                Sprite::PipeSideConnectionBottom
            } else {
                Sprite::PipeRight
            };
            let mut upper = Object::create_square_with_points(
                left,
                right,
                y,
                y + 2 * h,
                upper_sprite,
            );
            let mut lower = Object::create_square_with_points(
                left,
                right,
                y - 2 * h,
                y,
                lower_sprite,
            );
            if column < 2 {
                upper.set_cordinates(centre, y + h, CELL_H, CELL_W);
                lower.set_cordinates(centre, y - h, CELL_H, CELL_W);
            }
            objects.push(upper);
            objects.push(lower);
            k += 2;
        }
        let reach: i32 = (SIDE_PIPE_REACH - pipe_len) as i32;
        let pipe = Pipe::create(
            saturate_pos(x + 5 * CELL_W),
            grid_y(-reach),
            CELL_H,
            2 * CELL_W,
            pipe_len,
            false,
            false,
        );
        let mut upright = pipe.objects;
        objects.append(&mut upright);
        Pipe {
            x,
            y,
            h,
            w,
            with_enter: true,
            is_collision: true,
            pipe_len: pipe_len + 3,
            objects,
        }
    }
}

/// The interactive objects of one tile.
pub struct Objects {
    pub pipes: Vec<Pipe>,
    pub flag: Vec<Flag>,
    pub castle: Vec<Block>,
    pub coins: Vec<Block>,
    pub blocks: Vec<Block>,
    pub stones: Vec<Block>,
    pub question_mark_blocks: Vec<QuestionMarkBlock>,
}

/// Half the height of the castle.
pub const CASTLE_HALF_HEIGHT: i64 = 200_000;

/// Half the width of the castle.
pub const CASTLE_HALF_WIDTH: i64 = 187_500;

/// Number of images of a coin that lies in the level.
pub const COIN_FRAMES: usize = 3;

/// Whether every pipe of `s` is valid.
pub open spec fn pipes_valid(s: Seq<Pipe>) -> bool {
    forall|i: int| 0 <= i < s.len() ==> (#[trigger] s[i]).valid()
}

/// Whether every goal of `s` is valid.
pub open spec fn flags_valid(s: Seq<Flag>) -> bool {
    forall|i: int| 0 <= i < s.len() ==> (#[trigger] s[i]).valid()
}

impl Objects {
    /// Every object of the collections is valid.
    pub open spec fn valid(self) -> bool {
        &&& pipes_valid(self.pipes@)
        &&& flags_valid(self.flag@)
        &&& all_valid(self.castle@)
        &&& all_valid(self.coins@)
        &&& all_valid(self.blocks@)
        &&& all_valid(self.stones@)
        &&& all_valid(self.question_mark_blocks@)
    }

    /// No objects.
    pub fn init() -> (o: Objects)
        ensures
            o.pipes@.len() == 0,
            o.flag@.len() == 0,
            o.castle@.len() == 0,
            o.coins@.len() == 0,
            o.blocks@.len() == 0,
            o.stones@.len() == 0,
            o.question_mark_blocks@.len() == 0,
            o.valid(),
    {
        Objects {
            pipes: Vec::new(),
            flag: Vec::new(),
            castle: Vec::new(),
            coins: Vec::new(),
            blocks: Vec::new(),
            stones: Vec::new(),
            question_mark_blocks: Vec::new(),
        }
    }

    /// The castle that `create_castle` adds: the small one for the size
    /// `"small"`, the large one for every other.
    pub open spec fn castle_of(x: i64, y: i64, size: Seq<char>) -> Block {
        Block::created(
            x,
            y,
            CASTLE_HALF_HEIGHT,
            CASTLE_HALF_WIDTH,
            false,
            if size == "small"@ {
                Sprite::CastleSmall
            } else {
                Sprite::CastleLarge
            },
            TypeTag::Castle,
            TypeTag::Nil,
        )
    }

    /// Adds a castle at `(x, y)`.
    pub fn create_castle(&mut self, x: i64, y: i64, size: &str)
        ensures
            old(self).valid() && in_world(x as int) && in_world(y as int) ==> final(self).valid(),
            final(self).castle@ == old(self).castle@.push(Objects::castle_of(x, y, size@)),
            final(self).pipes == old(self).pipes,
            final(self).flag == old(self).flag,
            final(self).coins == old(self).coins,
            final(self).blocks == old(self).blocks,
            final(self).stones == old(self).stones,
            final(self).question_mark_blocks == old(self).question_mark_blocks,
    {
        let sprite = if same_text(size, "small") {
            Sprite::CastleSmall
        } else {
            Sprite::CastleLarge
        };
        let block = Block::create(
            x,
            y,
            CASTLE_HALF_HEIGHT,
            CASTLE_HALF_WIDTH,
            false,
            sprite,
            TypeTag::Castle,
            TypeTag::Nil,
        );
        self.castle.push(block);
    }

    /// The coin that `create_coin` adds.
    pub open spec fn coin_of(x: i64, y: i64) -> Block {
        Block {
            frames: COIN_FRAMES,
            ..Block::created(
                x,
                y,
                CELL_H,
                CELL_W,
                true,
                Sprite::CoinStill,
                TypeTag::Coin,
                TypeTag::Coin,
            )
        }
    }

    /// Adds a coin at `(x, y)`.
    pub fn create_coin(&mut self, x: i64, y: i64)
        ensures
            old(self).valid() && in_world(x as int) && in_world(y as int) ==> final(self).valid(),
            final(self).coins@ == old(self).coins@.push(Objects::coin_of(x, y)),
            final(self).pipes == old(self).pipes,
            final(self).flag == old(self).flag,
            final(self).castle == old(self).castle,
            final(self).blocks == old(self).blocks,
            final(self).stones == old(self).stones,
            final(self).question_mark_blocks == old(self).question_mark_blocks,
    {
        let mut block = Block::create(
            x,
            y,
            CELL_H,
            CELL_W,
            true,
            Sprite::CoinStill,
            TypeTag::Coin,
            TypeTag::Coin,
        );
        block.frames = COIN_FRAMES;
        self.coins.push(block);
    }

    /// Adds a goal with its base stone at `(x, y)`.
    pub fn create_flag(&mut self, x: i64, y: i64)
        requires
            in_world(x as int),
            in_world(y as int),
        ensures
            old(self).valid() ==> final(self).valid(),
            final(self).flag@.len() == old(self).flag@.len() + 1,
            final(self).flag@.drop_last() == old(self).flag@,
            final(self).flag@.last().x == x,
            final(self).flag@.last().y == y,
            final(self).flag@.last().valid(),
            final(self).pipes == old(self).pipes,
            final(self).castle == old(self).castle,
            final(self).coins == old(self).coins,
            final(self).blocks == old(self).blocks,
            final(self).stones == old(self).stones,
            final(self).question_mark_blocks == old(self).question_mark_blocks,
    {
        let block = Flag::create(x, y);
        self.flag.push(block);
    }

    /// Adds an upright pipe, see `Pipe::create`.
    pub fn create_pipe(
        &mut self,
        x: i64,
        y: i64,
        h: i64,
        w: i64,
        pipe_len: usize,
        with_enter: bool,
        is_collision: bool,
    )
        requires
            in_world(x as int),
            in_world(y as int),
            0 < h <= LIMIT,
            0 < w <= LIMIT,
            pipe_len <= PIPE_LIMIT,
        ensures
            old(self).valid() ==> final(self).valid(),
            final(self).pipes@.len() == old(self).pipes@.len() + 1,
            final(self).pipes@.drop_last() == old(self).pipes@,
            final(self).pipes@.last().is_upright(x, y, h, w, pipe_len, with_enter, is_collision),
            final(self).pipes@.last().valid(),
            final(self).flag == old(self).flag,
            final(self).castle == old(self).castle,
            final(self).coins == old(self).coins,
            final(self).blocks == old(self).blocks,
            final(self).stones == old(self).stones,
            final(self).question_mark_blocks == old(self).question_mark_blocks,
    {
        let block = Pipe::create(x, y, h, w, pipe_len, with_enter, is_collision);
        self.pipes.push(block);
    }

    /// The brick that `create_block` adds. With `collision_event` it holds
    /// one coin.
    pub open spec fn brick_of(
        x: i64,
        y: i64,
        h: i64,
        w: i64,
        collision_event: bool,
        sprite: Sprite,
    ) -> Block {
        Block::created(
            x,
            y,
            h,
            w,
            collision_event,
            sprite,
            TypeTag::BreakableBlock,
            TypeTag::Block,
        )
    }

    /// Adds a brick at `(x, y)`.
    pub fn create_block(
        &mut self,
        x: i64,
        y: i64,
        h: i64,
        w: i64,
        collision_event: bool,
        sprite: Sprite,
    )
        ensures
            old(self).valid() && (Collision_rect { x, y, w, h }).wf() ==> final(self).valid(),
            final(self).blocks@ == old(self).blocks@.push(
                Objects::brick_of(x, y, h, w, collision_event, sprite),
            ),
            final(self).pipes == old(self).pipes,
            final(self).flag == old(self).flag,
            final(self).castle == old(self).castle,
            final(self).coins == old(self).coins,
            final(self).stones == old(self).stones,
            final(self).question_mark_blocks == old(self).question_mark_blocks,
    {
        let block = Block::create(
            x,
            y,
            h,
            w,
            collision_event,
            sprite,
            TypeTag::BreakableBlock,
            TypeTag::Block,
        );
        self.blocks.push(block);
    }

    /// The stone that `create_stone` adds.
    pub open spec fn stone_of(x: i64, y: i64, h: i64, w: i64) -> Block {
        Block::created(x, y, h, w, false, Sprite::StoneUp, TypeTag::Stone, TypeTag::Stone)
    }

    /// Adds a stone at `(x, y)`.
    pub fn create_stone(&mut self, x: i64, y: i64, h: i64, w: i64)
        ensures
            old(self).valid() && (Collision_rect { x, y, w, h }).wf() ==> final(self).valid(),
            final(self).stones@ == old(self).stones@.push(Objects::stone_of(x, y, h, w)),
            final(self).pipes == old(self).pipes,
            final(self).flag == old(self).flag,
            final(self).castle == old(self).castle,
            final(self).coins == old(self).coins,
            final(self).blocks == old(self).blocks,
            final(self).question_mark_blocks == old(self).question_mark_blocks,
    {
        let block = Block::create(
            x,
            y,
            h,
            w,
            false,
            Sprite::StoneUp,
            TypeTag::Stone,
            TypeTag::Stone,
        );
        self.stones.push(block);
    }

    /// Adds a mystery block at `(x, y)`.
    pub fn create_question_mark_block(
        &mut self,
        x: i64,
        y: i64,
        h: i64,
        w: i64,
        collision_event: bool,
        collision_name: TypeTag,
    )
        ensures
            old(self).valid() && (Collision_rect { x, y, w, h }).wf() ==> final(self).valid(),
            final(self).question_mark_blocks@ == old(self).question_mark_blocks@.push(
                QuestionMarkBlock::created(x, y, h, w, collision_event, collision_name),
            ),
            final(self).pipes == old(self).pipes,
            final(self).flag == old(self).flag,
            final(self).castle == old(self).castle,
            final(self).coins == old(self).coins,
            final(self).blocks == old(self).blocks,
            final(self).stones == old(self).stones,
    {
        let block = QuestionMarkBlock::create(x, y, h, w, collision_event, collision_name);
        block.attach_to_main_loop(&mut self.question_mark_blocks);
    }
}

} // verus!
