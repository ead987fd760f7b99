//! The ground enemies.

use vstd::prelude::*;
use crate::units::{
    CELL_W, CELL_H, WALK_SPEED, SHELL_SPEED, STOMP_BOUNCE, MOB_TICKS, DESPAWN_TICKS,
    TRIGGER_DISTANCE,
};
use crate::collision::{
    Collision_rect, Collisioner, TypeTag, BOTTOM, TOP, LEFT, RIGHT, NONE, first_side, pick_side,
    after_contact, contact_of, lemma_side_swaps,
};
use crate::spirit::Mario;
use crate::game::Block;
use crate::render::Sprite;

verus! {

/// Half the height of a walking troopa.
pub const TROOPA_HALF_HEIGHT: i64 = 60_000;

/// Half the height of a squashed goomba.
pub const SQUASHED_HALF_HEIGHT: i64 = 20_000;

/// Number of images of a walking mob: two steps and the squashed body.
pub const MOB_FRAMES: usize = 3;

/// A goomba: walks once it woke up, and dies of a stomp.
#[derive(Clone, Copy, Debug, PartialEq, Eq, Structural)]
pub struct Goomba {
    /// Frames since the last animation step, or since the squash.
    pub delay: usize,
    /// Animation frame, below `obj.frames`.
    pub state: usize,
    /// The body.
    pub obj: Block,
    /// Whether the goomba woke up.
    pub to_move: bool,
    pub is_squash: bool,
}

/// A troopa: walks like a goomba, and leaves a shell that can be kicked.
#[derive(Clone, Copy, Debug, PartialEq, Eq, Structural)]
pub struct Troopa {
    /// Frames since the last animation step, or since the shell came to rest.
    pub delay: usize,
    /// Animation frame, below `obj.frames`.
    pub state: usize,
    /// The body.
    pub obj: Block,
    /// Whether the troopa woke up.
    pub to_move: bool,
    pub is_squash: bool,
    /// Whether the shell is on its way.
    pub to_move_squash: bool,
}

/// The body of a mob after it met another mob on `side`: turned round on a
/// meeting from the side.
pub open spec fn turned(obj: Block, side: char) -> Block {
    if side == LEFT || side == RIGHT {
        Block { move_acc_x: (-obj.move_acc_x) as i64, ..obj }
    } else {
        obj
    }
}

/// Whether a mob at `x` is near enough to a player at `player_x` to wake up.
pub open spec fn in_reach(x: i64, player_x: i64) -> bool {
    -TRIGGER_DISTANCE <= x - player_x <= TRIGGER_DISTANCE
}

fn near(x: i64, player_x: i64) -> (r: bool)
    ensures
        r == in_reach(x, player_x),
{
    let d: i128 = x as i128 - player_x as i128;
    -(TRIGGER_DISTANCE as i128) <= d && d <= TRIGGER_DISTANCE as i128
}

/// The frame counter one frame later, held at `DESPAWN_TICKS`.
pub open spec fn counted(delay: usize) -> usize {
    if delay >= DESPAWN_TICKS {
        DESPAWN_TICKS
    } else {
        (delay + 1) as usize
    }
}

impl Goomba {
    /// A sleeping goomba at `(x, y)` that will walk to the left.
    pub open spec fn created(x: i64, y: i64) -> Goomba {
        Goomba {
            delay: 0,
            state: 0,
            obj: Block {
                move_acc_x: (-WALK_SPEED) as i64,
                frames: MOB_FRAMES,
                ..Block::created(
                    x,
                    y,
                    CELL_H,
                    CELL_W,
                    false,
                    Sprite::Goomba,
                    TypeTag::Goomba,
                    TypeTag::Goomba,
                )
            },
            to_move: false,
            is_squash: false,
        }
    }

    /// Makes a sleeping goomba at `(x, y)` that will walk to the left.
    pub fn create(x: i64, y: i64) -> (g: Goomba)
        ensures
            g == Goomba::created(x, y),
            g.valid() <==> (Collision_rect { x, y, w: CELL_W, h: CELL_H }).wf(),
    {
        let mut obj = Block::create(
            x,
            y,
            CELL_H,
            CELL_W,
            false,
            Sprite::Goomba,
            TypeTag::Goomba,
            TypeTag::Goomba,
        );
        obj.frames = MOB_FRAMES;
        obj.move_acc_x = -WALK_SPEED;
        Goomba { delay: 0, state: 0, obj, to_move: false, is_squash: false }
    }

    /// The goomba squashed: a flat body at the same place that nothing
    /// reacts to any more, with the countdown to its removal at zero.
    pub open spec fn squashed(self) -> Goomba {
        Goomba {
            obj: Block::created(
                self.obj.x,
                self.obj.y,
                SQUASHED_HALF_HEIGHT,
                CELL_W,
                false,
                Sprite::GoombaSquash,
                TypeTag::Goomba,
                TypeTag::Nil,
            ),
            state: 0,
            delay: 0,
            is_squash: true,
            ..self
        }
    }

    /// Squashes the mob.
    pub fn squash(&mut self)
        ensures
            *final(self) == old(self).squashed(),
            final(self).is_squash,
            old(self).valid() ==> final(self).valid(),
    {
        let x = self.obj.x;
        let y = self.obj.y;
        self.obj = Block::create(
            x,
            y,
            SQUASHED_HALF_HEIGHT,
            CELL_W,
            false,
            Sprite::GoombaSquash,
            TypeTag::Goomba,
            TypeTag::Nil,
        );
        self.state = 0;
        self.delay = 0;
        self.is_squash = true;
    }

    /// The goomba woken up if the player at `player_x` is in reach.
    pub open spec fn woken(self, player_x: i64) -> Goomba {
        if in_reach(self.obj.x, player_x) {
            Goomba { to_move: true, ..self }
        } else {
            self
        }
    }

    /// Wakes the mob up if the player at `player_x` is in reach.
    pub fn wake(&mut self, player_x: i64)
        ensures
            *final(self) == old(self).woken(player_x),
            old(self).valid() ==> final(self).valid(),
    {
        if near(self.obj.x, player_x) {
            self.to_move = true;
        }
    }

    /// Whether the squashed body has lain long enough to be removed.
    pub open spec fn is_gone(self) -> bool {
        self.is_squash && self.delay >= DESPAWN_TICKS
    }

    /// Whether the mob has lain long enough to be removed.
    pub fn gone(&self) -> (r: bool)
        ensures
            r == self.is_gone(),
    {
        self.is_squash && self.delay >= DESPAWN_TICKS
    }
}

impl Collisioner for Goomba {
    /// The body is valid, the animation frame and the frame counter are in
    /// range, and others see a living goomba as `Goomba` and a squashed one
    /// as `Nil`.
    open spec fn valid(&self) -> bool {
        &&& self.obj.valid()
        &&& self.state < self.obj.frames
        &&& self.delay <= DESPAWN_TICKS
        &&& (!self.is_squash ==> self.delay < MOB_TICKS && self.obj.frames >= 2)
        &&& self.obj.collision_name == if self.is_squash {
            TypeTag::Nil
        } else {
            TypeTag::Goomba
        }
    }

    open spec fn rect(&self) -> Collision_rect {
        self.obj.rect()
    }

    open spec fn type_tag(&self) -> TypeTag {
        self.obj.collision_name
    }

    /// A living goomba can fall.
    open spec fn armed(&self) -> Goomba {
        if self.is_squash {
            *self
        } else {
            Goomba { obj: Block { is_falling: true, ..self.obj }, ..*self }
        }
    }

    /// A living goomba is squashed by a player that lands on it and by a
    /// kicked shell, stopped by a solid, and turned round by another mob
    /// that it meets from the side. A squashed one reacts to nothing.
    open spec fn collided(&self, other: TypeTag, rect: Collision_rect, sides: Seq<char>) -> Goomba {
        let side = first_side(sides);
        if self.is_squash {
            *self
        } else if other == TypeTag::Player {
            if side == TOP {
                self.squashed()
            } else {
                *self
            }
        } else if other == TypeTag::KickedShell {
            if side != NONE {
                self.squashed()
            } else {
                *self
            }
        } else if other.is_solid() {
            Goomba { obj: self.obj.stopped_by(rect, side), ..*self }
        } else if other.is_mob() {
            Goomba { obj: turned(self.obj, side), ..*self }
        } else {
            *self
        }
    }

    /// A squashed goomba counts the frames to its removal. A living one
    /// that woke up walks and falls, and changes its step every `MOB_TICKS`
    /// frames.
    open spec fn advanced(&self, deltatime: u32) -> Goomba {
        if self.is_squash {
            Goomba { delay: counted(self.delay), ..*self }
        } else if !self.to_move {
            *self
        } else if self.delay + 1 >= MOB_TICKS {
            Goomba {
                delay: 0,
                state: if self.state == 0 {
                    1
                } else {
                    0
                },
                obj: self.obj.drifted(deltatime),
                ..*self
            }
        } else {
            Goomba {
                delay: (self.delay + 1) as usize,
                obj: self.obj.drifted(deltatime),
                ..*self
            }
        }
    }

    fn get_collision_rect(&self) -> (r: Collision_rect) {
        self.obj.get_collision_rect()
    }

    fn get_type(&self) -> (t: TypeTag) {
        self.obj.collision_name
    }

    fn handle_collision(
        &mut self,
        collision_object: TypeTag,
        collision_rect: Collision_rect,
        collisions: Vec<char>,
    ) {
        let side = pick_side(&collisions);
        if self.is_squash {
            return;
        }
        match collision_object {
            TypeTag::Player => {
                if side == TOP {
                    self.squash();
                }
            },
            TypeTag::KickedShell => {
                if side != NONE {
                    self.squash();
                }
            },
            _ => {
                if collision_object.solid() {
                    self.obj.stop_at(collision_rect, side);
                } else if collision_object.mob() {
                    if side == LEFT || side == RIGHT {
                        self.obj.move_acc_x = -self.obj.move_acc_x;
                    }
                }
            },
        }
    }

    fn set_default_behavior(&mut self) {
        if !self.is_squash {
            self.obj.is_falling = true;
        }
    }

    fn run_default_behavior(&mut self, deltatime: u32) {
        if self.is_squash {
            if self.delay < DESPAWN_TICKS {
                self.delay += 1;
            }
        } else if self.to_move {
            self.delay += 1;
            if self.delay >= MOB_TICKS {
                self.delay = 0;
                self.state = if self.state == 0 {
                    1
                } else {
                    0
                };
            }
            self.obj.drift(deltatime);
        }
    }
}

impl Troopa {
    /// A sleeping troopa at `(x, y)` that will walk to the left.
    pub open spec fn created(x: i64, y: i64) -> Troopa {
        Troopa {
            delay: 0,
            state: 0,
            obj: Block {
                move_acc_x: (-WALK_SPEED) as i64,
                frames: MOB_FRAMES,
                ..Block::created(
                    x,
                    y,
                    TROOPA_HALF_HEIGHT,
                    CELL_W,
                    false,
                    Sprite::Troopa,
                    TypeTag::Troopa,
                    TypeTag::Troopa,
                )
            },
            to_move: false,
            is_squash: false,
            to_move_squash: false,
        }
    }

    /// Makes a sleeping troopa at `(x, y)` that will walk to the left.
    pub fn create(x: i64, y: i64) -> (t: Troopa)
        ensures
            t == Troopa::created(x, y),
            t.valid() <==> (Collision_rect { x, y, w: CELL_W, h: TROOPA_HALF_HEIGHT }).wf(),
    {
        let mut obj = Block::create(
            x,
            y,
            TROOPA_HALF_HEIGHT,
            CELL_W,
            false,
            Sprite::Troopa,
            TypeTag::Troopa,
            TypeTag::Troopa,
        );
        obj.frames = MOB_FRAMES;
        obj.move_acc_x = -WALK_SPEED;
        Troopa { delay: 0, state: 0, obj, to_move: false, is_squash: false, to_move_squash: false }
    }

    /// The troopa squashed: a shell at rest at the same place, with the
    /// countdown to its removal at zero.
    pub open spec fn squashed(self) -> Troopa {
        Troopa {
            obj: Block::created(
                self.obj.x,
                self.obj.y,
                CELL_H,
                CELL_W,
                false,
                Sprite::TroopaSquash,
                TypeTag::Troopa,
                TypeTag::Shell,
            ),
            state: 0,
            delay: 0,
            is_squash: true,
            to_move_squash: false,
            ..self
        }
    }

    /// Squashes the mob.
    pub fn squash(&mut self)
        ensures
            *final(self) == old(self).squashed(),
            final(self).is_squash,
            old(self).valid() ==> final(self).valid(),
    {
        let x = self.obj.x;
        let y = self.obj.y;
        self.obj = Block::create(
            x,
            y,
            CELL_H,
            CELL_W,
            false,
            Sprite::TroopaSquash,
            TypeTag::Troopa,
            TypeTag::Shell,
        );
        self.state = 0;
        self.delay = 0;
        self.is_squash = true;
        self.to_move_squash = false;
    }

    /// The shell kicked away from the side on which it was touched.
    pub open spec fn kicked(self, side: char) -> Troopa {
        Troopa {
            obj: Block {
                move_acc_x: if side == LEFT {
                    SHELL_SPEED
                } else {
                    (-SHELL_SPEED) as i64
                },
                collision_name: TypeTag::KickedShell,
                ..self.obj
            },
            to_move_squash: true,
            ..self
        }
    }

    /// The shell brought to rest, with the countdown to its removal at zero.
    pub open spec fn halted(self) -> Troopa {
        Troopa {
            obj: Block { move_acc_x: 0, collision_name: TypeTag::Shell, ..self.obj },
            to_move_squash: false,
            delay: 0,
            ..self
        }
    }

    /// The troopa woken up if the player at `player_x` is in reach.
    pub open spec fn woken(self, player_x: i64) -> Troopa {
        if in_reach(self.obj.x, player_x) {
            Troopa { to_move: true, ..self }
        } else {
            self
        }
    }

    /// Wakes the mob up if the player at `player_x` is in reach.
    pub fn wake(&mut self, player_x: i64)
        ensures
            *final(self) == old(self).woken(player_x),
            old(self).valid() ==> final(self).valid(),
    {
        if near(self.obj.x, player_x) {
            self.to_move = true;
        }
    }

    /// Whether the shell has lain at rest long enough to be removed.
    pub open spec fn is_gone(self) -> bool {
        self.is_squash && !self.to_move_squash && self.delay >= DESPAWN_TICKS
    }

    /// Whether the mob has lain long enough to be removed.
    pub fn gone(&self) -> (r: bool)
        ensures
            r == self.is_gone(),
    {
        self.is_squash && !self.to_move_squash && self.delay >= DESPAWN_TICKS
    }
}

impl Collisioner for Troopa {
    /// The body is valid, the animation frame and the frame counter are in
    /// range, and others see a walking troopa as `Troopa`, a shell at rest
    /// as `Shell`, and a shell on its way as `KickedShell`.
    open spec fn valid(&self) -> bool {
        &&& self.obj.valid()
        &&& self.state < self.obj.frames
        &&& self.delay <= DESPAWN_TICKS
        &&& (!self.is_squash ==> self.delay < MOB_TICKS && self.obj.frames >= 2)
        &&& self.obj.collision_name == if !self.is_squash {
            TypeTag::Troopa
        } else if self.to_move_squash {
            TypeTag::KickedShell
        } else {
            TypeTag::Shell
        }
    }

    open spec fn rect(&self) -> Collision_rect {
        self.obj.rect()
    }

    open spec fn type_tag(&self) -> TypeTag {
        self.obj.collision_name
    }

    /// A troopa can fall, walking or as a shell.
    open spec fn armed(&self) -> Troopa {
        Troopa { obj: Block { is_falling: true, ..self.obj }, ..*self }
    }

    /// A solid stops the troopa in each of its states. Beyond that, a
    /// walking troopa is squashed by a player that lands on it and by a
    /// kicked shell, and turned round by another mob that it meets from the
    /// side; a shell at rest is kicked by a player that touches it from the
    /// side; a shell on its way is halted by a player that lands on it.
    open spec fn collided(&self, other: TypeTag, rect: Collision_rect, sides: Seq<char>) -> Troopa {
        let side = first_side(sides);
        if other.is_solid() {
            Troopa { obj: self.obj.stopped_by(rect, side), ..*self }
        } else if !self.is_squash {
            if other == TypeTag::Player {
                if side == TOP {
                    self.squashed()
                } else {
                    *self
                }
            } else if other == TypeTag::KickedShell {
                if side != NONE {
                    self.squashed()
                } else {
                    *self
                }
            } else if other.is_mob() {
                Troopa { obj: turned(self.obj, side), ..*self }
            } else {
                *self
            }
        } else if other == TypeTag::Player {
            if !self.to_move_squash && (side == LEFT || side == RIGHT) {
                self.kicked(side)
            } else if self.to_move_squash && side == TOP {
                self.halted()
            } else {
                *self
            }
        } else {
            *self
        }
    }

    /// A shell at rest counts the frames to its removal and falls; a shell
    /// on its way moves and falls. A walking troopa that woke up walks and
    /// falls, and changes its step every `MOB_TICKS` frames.
    open spec fn advanced(&self, deltatime: u32) -> Troopa {
        if self.is_squash {
            if self.to_move_squash {
                Troopa { obj: self.obj.drifted(deltatime), ..*self }
            } else {
                Troopa { delay: counted(self.delay), obj: self.obj.drifted(deltatime), ..*self }
            }
        } else if !self.to_move {
            *self
        } else if self.delay + 1 >= MOB_TICKS {
            Troopa {
                delay: 0,
                state: if self.state == 0 {
                    1
                } else {
                    0
                },
                obj: self.obj.drifted(deltatime),
                ..*self
            }
        } else {
            Troopa {
                delay: (self.delay + 1) as usize,
                obj: self.obj.drifted(deltatime),
                ..*self
            }
        }
    }

    fn get_collision_rect(&self) -> (r: Collision_rect) {
        self.obj.get_collision_rect()
    }

    fn get_type(&self) -> (t: TypeTag) {
        self.obj.collision_name
    }

    fn handle_collision(
        &mut self,
        collision_object: TypeTag,
        collision_rect: Collision_rect,
        collisions: Vec<char>,
    ) {
        let side = pick_side(&collisions);
        if collision_object.solid() {
            self.obj.stop_at(collision_rect, side);
        } else if !self.is_squash {
            match collision_object {
                TypeTag::Player => {
                    if side == TOP {
                        self.squash();
                    }
                },
                TypeTag::KickedShell => {
                    if side != NONE {
                        self.squash();
                    }
                },
                _ => {
                    if collision_object.mob() {
                        if side == LEFT || side == RIGHT {
                            self.obj.move_acc_x = -self.obj.move_acc_x;
                        }
                    }
                },
            }
        } else {
            match collision_object {
                TypeTag::Player => {
                    if !self.to_move_squash && (side == LEFT || side == RIGHT) {
                        self.obj.move_acc_x = if side == LEFT {
                            SHELL_SPEED
                        } else {
                            -SHELL_SPEED
                        };
                        self.obj.collision_name = TypeTag::KickedShell;
                        self.to_move_squash = true;
                    } else if self.to_move_squash && side == TOP {
                        self.obj.move_acc_x = 0;
                        self.obj.collision_name = TypeTag::Shell;
                        self.to_move_squash = false;
                        self.delay = 0;
                    }
                },
                _ => {},
            }
        }
    }

    fn set_default_behavior(&mut self) {
        self.obj.is_falling = true;
    }

    fn run_default_behavior(&mut self, deltatime: u32) {
        if self.is_squash {
            if !self.to_move_squash && self.delay < DESPAWN_TICKS {
                self.delay += 1;
            }
            self.obj.drift(deltatime);
        } else if self.to_move {
            self.delay += 1;
            if self.delay >= MOB_TICKS {
                self.delay = 0;
                self.state = if self.state == 0 {
                    1
                } else {
                    0
                };
            }
            self.obj.drift(deltatime);
        }
    }
}

/// A living player that comes down on a living goomba squashes it, bounces
/// off, and lives on.
pub proof fn lemma_stomp_squashes(p: Mario, g: Goomba)
    requires
        p.valid(),
        g.valid(),
        !p.is_dead,
        !g.is_squash,
        p.rect().side(g.rect()) == BOTTOM,
    ensures
        !after_contact(p, contact_of(g)).is_dead,
        after_contact(p, contact_of(g)).move_acc_y == STOMP_BOUNCE,
        g.rect().side(p.rect()) == TOP,
        after_contact(g, contact_of(p)).is_squash,
        after_contact(g, contact_of(p)) == g.squashed(),
{
    lemma_side_swaps(p.rect(), g.rect());
    assert(seq![BOTTOM].contains(BOTTOM)) by {
        assert(seq![BOTTOM][0] == BOTTOM);
    }
    assert(seq![TOP].contains(TOP)) by {
        assert(seq![TOP][0] == TOP);
    }
}

/// A living player that runs into a living goomba from the side dies, and
/// the goomba walks on.
pub proof fn lemma_side_contact_kills(p: Mario, g: Goomba)
    requires
        p.valid(),
        g.valid(),
        !p.is_dead,
        !g.is_squash,
        p.rect().side(g.rect()) == LEFT || p.rect().side(g.rect()) == RIGHT,
    ensures
        after_contact(p, contact_of(g)).is_dead,
        !after_contact(g, contact_of(p)).is_squash,
        after_contact(g, contact_of(p)) == g,
{
    let s = p.rect().side(g.rect());
    assert(seq![s].contains(s)) by {
        assert(seq![s][0] == s);
    }
    let t = g.rect().side(p.rect());
    if p.x != g.obj.x {
        lemma_side_swaps(p.rect(), g.rect());
    }
}

/// The same holds of a walking troopa: a stomp leaves a shell at rest.
pub proof fn lemma_stomp_leaves_shell(p: Mario, t: Troopa)
    requires
        p.valid(),
        t.valid(),
        !p.is_dead,
        !t.is_squash,
        p.rect().side(t.rect()) == BOTTOM,
    ensures
        !after_contact(p, contact_of(t)).is_dead,
        after_contact(t, contact_of(p)) == t.squashed(),
        after_contact(t, contact_of(p)).type_tag() == TypeTag::Shell,
{
    lemma_side_swaps(p.rect(), t.rect());
    assert(seq![BOTTOM].contains(BOTTOM)) by {
        assert(seq![BOTTOM][0] == BOTTOM);
    }
    assert(seq![TOP].contains(TOP)) by {
        assert(seq![TOP][0] == TOP);
    }
}

} // verus!
