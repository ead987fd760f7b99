//! The player.

use vstd::prelude::*;
use crate::units::{
    GRAVITY, STOMP_BOUNCE, REBOUND, MOTION, WALK, RUN_TICKS, in_speed, clamp_pos, clamp_speed,
    travel, saturate_speed, advance,
};
use crate::collision::{
    Collision_rect, Collisioner, Contact, TypeTag, BOTTOM, TOP, LEFT, RIGHT, NONE, first_side,
    pick_side, name_of, side_name, after_contact, lemma_push_out_clears,
};
use crate::game::Block;

verus! {

/// Animation frame of the player standing still.
pub const IDLE_FRAME: usize = 0;

/// Animation frame shown while the player reverses direction.
pub const TURN_FRAME: usize = 4;

/// Animation frame shown while the player is in the air.
pub const JUMP_FRAME: usize = 5;

/// Animation frame of the dead player.
pub const DEAD_FRAME: usize = 6;

/// The player: position, half-extents, and the state of movement and
/// animation.
#[derive(Clone, Copy, Debug, PartialEq, Eq, Structural)]
pub struct Mario {
    pub x: i64,
    pub y: i64,
    pub h: i64,
    pub w: i64,
    /// Frame of the run cycle (`0..=3`), `TURN_FRAME`, or `DEAD_FRAME`.
    pub state: usize,
    pub is_falling: bool,
    pub is_dead: bool,
    /// Direction of the last frame's walk: `1` left, `-1` right, `0` none.
    pub is_moving: i32,
    pub is_turn: bool,
    pub is_crouch: bool,
    pub is_underground: bool,
    /// Frames walked since the last step of the run cycle.
    pub delay: i32,
    /// Direction asked for in this frame: `1` left, `-1` right, `0` none.
    pub move_vel_x: i32,
    /// Vertical speed.
    pub move_acc_y: i64,
    /// Whether the sprite faces left.
    pub flip: bool,
}

impl Mario {
    /// A player at rest in the air at `(x, y)`.
    pub open spec fn created(x: i64, y: i64, h: i64, w: i64) -> Mario {
        Mario {
            x,
            y,
            h,
            w,
            state: 0,
            is_falling: true,
            is_dead: false,
            is_moving: 0,
            is_turn: false,
            is_crouch: false,
            is_underground: false,
            delay: 0,
            move_vel_x: 0,
            move_acc_y: 0,
            flip: false,
        }
    }

    /// Makes a player at rest in the air at `(x, y)`.
    pub fn create(x: i64, y: i64, h: i64, w: i64) -> (m: Mario)
        ensures
            m == Mario::created(x, y, h, w),
            m.valid() <==> (Collision_rect { x, y, w, h }).wf(),
    {
        Mario {
            x,
            y,
            h,
            w,
            state: 0,
            is_falling: true,
            is_dead: false,
            is_moving: 0,
            is_turn: false,
            is_crouch: false,
            is_underground: false,
            delay: 0,
            move_vel_x: 0,
            move_acc_y: 0,
            flip: false,
        }
    }

    /// Hit test of the player against a block, as text.
    pub fn check_hitbox(&self, obj: &Block) -> (r: &'static str)
        ensures
            r@ == side_name(self.rect().side(obj.rect())),
    {
        name_of(self.get_collision_rect().hit_side(obj.get_collision_rect()))
    }

    /// The animation frame to draw: the jump frame while a living player is
    /// in the air, else `state`.
    pub open spec fn shown_frame(self) -> usize {
        if self.is_falling && !self.is_dead {
            JUMP_FRAME
        } else {
            self.state
        }
    }

    /// The animation frame to draw.
    pub fn frame(&self) -> (r: usize)
        ensures
            r == self.shown_frame(),
            self.valid() ==> r <= DEAD_FRAME,
    {
        if self.is_falling && !self.is_dead {
            JUMP_FRAME
        } else {
            self.state
        }
    }

    /// The player after it ran into a solid at `r` on `side`: moved out of
    /// it; a landing stops the fall, a bump of the head sends the player
    /// down.
    pub open spec fn stopped_by(self, r: Collision_rect, side: char) -> Mario {
        let p = self.rect().pushed_out(r, side);
        if side == BOTTOM {
            Mario {
                y: p.y,
                move_acc_y: if self.move_acc_y < 0 {
                    0
                } else {
                    self.move_acc_y
                },
                is_falling: false,
                ..self
            }
        } else if side == TOP {
            Mario { y: p.y, move_acc_y: REBOUND, ..self }
        } else if side == LEFT || side == RIGHT {
            Mario { x: p.x, ..self }
        } else {
            self
        }
    }

    /// The player after it touched a mob on `side`: a stomp bounces the
    /// player up, any other contact kills.
    pub open spec fn touched_mob(self, side: char) -> Mario {
        if side == BOTTOM {
            Mario { move_acc_y: STOMP_BOUNCE, ..self }
        } else if side == TOP || side == LEFT || side == RIGHT {
            Mario { is_dead: true, ..self }
        } else {
            self
        }
    }

    /// The player after gravity and `deltatime` milliseconds of vertical
    /// motion.
    pub open spec fn fallen(self, deltatime: u32) -> Mario {
        let speed = if self.is_falling {
            clamp_speed(self.move_acc_y - GRAVITY)
        } else {
            self.move_acc_y as int
        };
        Mario {
            move_acc_y: speed as i64,
            y: clamp_pos(self.y + travel(speed, deltatime as int, MOTION as int)) as i64,
            ..self
        }
    }

    /// The player after `deltatime` milliseconds of walking in the direction
    /// asked for, with the run cycle one frame further. The cycle steps
    /// through its four frames, one step every `RUN_TICKS` frames of
    /// walking. A reversal of the direction shows the turn frame until the
    /// cycle steps next, and the cycle then goes on from its second frame.
    /// Without a direction the player stands.
    pub open spec fn walked(self, deltatime: u32) -> Mario {
        if self.move_vel_x != 0 {
            let turning = self.is_moving != 0 && self.is_moving != self.move_vel_x;
            let is_turn = self.is_turn || turning;
            let state = if turning {
                TURN_FRAME
            } else {
                self.state
            };
            let stepped = self.delay + 1 >= RUN_TICKS;
            let state = if stepped {
                if is_turn {
                    1
                } else {
                    (state + 1) as usize
                }
            } else {
                state
            };
            let is_turn = is_turn && !stepped;
            Mario {
                flip: self.move_vel_x == 1,
                is_moving: self.move_vel_x,
                x: clamp_pos(
                    self.x + travel(-self.move_vel_x, deltatime as int, WALK as int),
                ) as i64,
                delay: if stepped {
                    0
                } else {
                    (self.delay + 1) as i32
                },
                state: if state >= TURN_FRAME && !is_turn {
                    0
                } else {
                    state
                },
                is_turn,
                move_vel_x: 0,
                ..self
            }
        } else {
            Mario { is_moving: 0, state: IDLE_FRAME, ..self }
        }
    }
}

impl Collisioner for Mario {
    open spec fn valid(&self) -> bool {
        &&& self.rect().wf()
        &&& in_speed(self.move_acc_y as int)
        &&& self.state <= DEAD_FRAME
        &&& (self.state > TURN_FRAME ==> self.is_dead)
        &&& (self.state == TURN_FRAME ==> self.is_turn || self.is_dead)
        &&& 0 <= self.delay < RUN_TICKS
        &&& -1 <= self.move_vel_x <= 1
        &&& -1 <= self.is_moving <= 1
    }

    open spec fn rect(&self) -> Collision_rect {
        Collision_rect { x: self.x, y: self.y, w: self.w, h: self.h }
    }

    open spec fn type_tag(&self) -> TypeTag {
        TypeTag::Player
    }

    open spec fn armed(&self) -> Mario {
        Mario { is_falling: true, ..*self }
    }

    /// A solid stops the player, a mob is stomped or kills; everything else
    /// leaves the player as it is.
    open spec fn collided(&self, other: TypeTag, rect: Collision_rect, sides: Seq<char>) -> Mario {
        if other.is_solid() {
            self.stopped_by(rect, first_side(sides))
        } else if other.is_mob() {
            self.touched_mob(first_side(sides))
        } else {
            *self
        }
    }

    /// Gravity and vertical motion; for a living player also the walk, the
    /// run cycle, and the end of this frame's crouch.
    open spec fn advanced(&self, deltatime: u32) -> Mario {
        if self.is_dead {
            self.fallen(deltatime)
        } else {
            Mario { is_crouch: false, ..self.fallen(deltatime).walked(deltatime) }
        }
    }

    fn get_collision_rect(&self) -> (r: Collision_rect) {
        Collision_rect { x: self.x, y: self.y, w: self.w, h: self.h }
    }

    fn get_type(&self) -> (t: TypeTag) {
        TypeTag::Player
    }

    fn handle_collision(
        &mut self,
        collision_object: TypeTag,
        collision_rect: Collision_rect,
        collisions: Vec<char>,
    ) {
        let side = pick_side(&collisions);
        if collision_object.solid() {
            let p = self.get_collision_rect().push_out(collision_rect, side);
            if side == BOTTOM {
                self.y = p.y;
                if self.move_acc_y < 0 {
                    self.move_acc_y = 0;
                }
                self.is_falling = false;
            } else if side == TOP {
                self.y = p.y;
                self.move_acc_y = REBOUND;
            } else if side == LEFT || side == RIGHT {
                self.x = p.x;
            }
        } else if collision_object.mob() {
            if side == BOTTOM {
                self.move_acc_y = STOMP_BOUNCE;
            } else if side == TOP || side == LEFT || side == RIGHT {
                self.is_dead = true;
            }
        }
    }

    fn set_default_behavior(&mut self) {
        self.is_falling = true;
    }

    fn run_default_behavior(&mut self, deltatime: u32) {
        if self.is_falling {
            self.move_acc_y = saturate_speed(self.move_acc_y - GRAVITY);
        }
        self.y = advance(self.y, self.move_acc_y, deltatime, MOTION);
        if self.is_dead {
            return;
        }
        if self.move_vel_x != 0 {
            self.flip = self.move_vel_x == 1;
            if self.is_moving != 0 && self.is_moving != self.move_vel_x {
                self.state = TURN_FRAME;
                self.is_turn = true;
            }
            self.is_moving = self.move_vel_x;
            self.x = advance(self.x, -(self.move_vel_x as i64), deltatime, WALK);
            self.delay += 1;
            if self.delay >= RUN_TICKS {
                self.delay = 0;
                if self.is_turn {
                    self.state = 1;
                    self.is_turn = false;
                } else {
                    self.state += 1;
                }
            }
            if self.state >= TURN_FRAME && !self.is_turn {
                self.state = 0;
            }
        } else {
            self.is_moving = 0;
            self.state = IDLE_FRAME;
        }
        self.move_vel_x = 0;
        self.is_crouch = false;
    }
}

/// A player that comes down on a solid stands on it afterwards: its lower
/// edge is the solid's upper edge, it no longer falls, and a downward speed
/// is gone. (As everywhere, provided the new position lies inside the world
/// box.)
pub proof fn lemma_landing(p: Mario, c: Contact)
    requires
        c.kind.is_solid(),
        p.rect().side(c.rect) == BOTTOM,
        p.rect().push_fits(c.rect, BOTTOM),
    ensures
        after_contact(p, c).y == c.rect.y + c.rect.h + p.h,
        !after_contact(p, c).is_falling,
        after_contact(p, c).move_acc_y == if p.move_acc_y < 0 {
            0
        } else {
            p.move_acc_y
        },
        after_contact(p, c).x == p.x,
{
    assert(seq![BOTTOM].contains(BOTTOM)) by {
        assert(seq![BOTTOM][0] == BOTTOM);
    }
}

/// After the player reacted to a solid that it ran into, a second hit test
/// against the same solid finds nothing, and no collision triggers itself
/// again, if and only if the world box has room for the player on that side
/// of the solid.
pub proof fn lemma_no_retrigger(p: Mario, c: Contact)
    requires
        p.valid(),
        c.rect.wf(),
        c.kind.is_solid(),
        p.rect().side(c.rect) != NONE,
    ensures
        after_contact(p, c).rect().side(c.rect) == NONE <==> p.rect().push_clears(
            c.rect,
            p.rect().side(c.rect),
        ),
        p.rect().push_clears(c.rect, p.rect().side(c.rect)) ==> after_contact(
            after_contact(p, c),
            c,
        ) == after_contact(p, c),
{
    let s = p.rect().side(c.rect);
    lemma_push_out_clears(p.rect(), c.rect);
    assert(seq![s].contains(s)) by {
        assert(seq![s][0] == s);
    }
    assert(forall|t: char| t != s ==> !seq![s].contains(t));
    assert(first_side(seq![s]) == s);
    assert(after_contact(p, c).rect() == p.rect().pushed_out(c.rect, s));
}

} // verus!
