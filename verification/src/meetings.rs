//! What a whole frame makes of a player that meets nothing, or one thing
//! and nothing else: a fall, a landing, a wall, a stomp, a mob from the side.

use vstd::prelude::*;
use crate::units::{
    EPSILON, GRAVITY, MOTION, STOMP_BOUNCE, UNIT, clamp_pos, clamp_speed, travel,
};
use crate::collision::{
    Collisioner, Contact, TypeTag, BOTTOM, LEFT, RIGHT, TOP, after_contact, met, misses, resolved,
    lemma_collides_iff_overlaps, lemma_resolved_none, lemma_resolved_one,
    lemma_side_swaps,
};
use crate::frame::{blocks_hit, entered, goomba_leaves, goomba_step};
use crate::game::{GameView, held_on_screen};
use crate::mobs::Goomba;
use crate::spirit::{Mario, DEAD_FRAME};

verus! {

impl GameView {
    /// Whether the player meets the contact `i` of the scene in this frame
    /// and no other: as it is, it misses the contacts before `i`, and after
    /// its reaction to `i` it misses those after `i`.
    pub open spec fn meets_only(self, i: int) -> bool {
        &&& 1 <= i < self.scene().len() <= usize::MAX
        &&& misses(self.spirit, self.scene(), Some(0usize), 0, i)
        &&& misses(
            after_contact(self.spirit.armed(), self.scene()[i]),
            self.scene(),
            Some(0usize),
            i + 1,
            self.scene().len() as int,
        )
    }

    /// The player after the second phase of a frame in which it went
    /// through no pipe.
    pub open spec fn met_player(self) -> Mario {
        resolved(self.armed().spirit, self.armed().scene(), Some(0usize))
    }
}

/// Setting the bodies falling changes nothing of what they show each other.
pub proof fn lemma_armed_scene(g: GameView)
    ensures
        g.armed().scene() == g.scene(),
{
}

/// A player that meets one contact and no other reacts to that one alone,
/// and goes through no pipe unless it crouches on an open mouth.
pub proof fn lemma_player_meets_one(g: GameView, i: int)
    requires
        g.meets_only(i),
    ensures
        g.met_player() == after_contact(g.spirit.armed(), g.scene()[i]),
        !(g.spirit.is_crouch && g.scene()[i].enter) ==> g.armed().collided().spirit
            == g.met_player(),
        !(g.spirit.is_crouch && g.scene()[i].enter) ==> g.armed().collided().screen_move_x
            == g.screen_move_x,
        g.armed().collided().is_over == g.is_over,
        g.armed().collided().solids == g.solids,
{
    lemma_armed_scene(g);
    let a = g.armed();
    let scene = g.scene();
    lemma_resolved_one(a.spirit, scene, Some(0usize), i);
    let hits = met(a.spirit, scene, Some(0usize));
    let p = after_contact(a.spirit, scene[i]);
    assert(p.is_crouch == g.spirit.is_crouch);
    if !(g.spirit.is_crouch && scene[i].enter) {
        assert(!(p.is_crouch && entered(scene, hits)));
    }
}

/// Free fall, for a whole frame: a living player that stands still and
/// meets nothing falls at the end of the frame; gravity has taken its one
/// step of speed, and the player has moved by the new speed. It has not
/// moved sideways but for the hold at the left edge of the screen. The
/// player lives and the game goes on, however deep the fall goes.
pub proof fn lemma_frame_free_fall(g: GameView, deltatime: u32)
    requires
        g.valid(),
        !g.is_over,
        !g.spirit.is_dead,
        g.spirit.move_vel_x == 0,
        g.scene().len() <= usize::MAX,
        misses(g.spirit, g.scene(), Some(0usize), 0, g.scene().len() as int),
    ensures
        g.stepped(deltatime).spirit.is_falling,
        g.stepped(deltatime).spirit.move_acc_y == clamp_speed(g.spirit.move_acc_y - GRAVITY),
        g.stepped(deltatime).spirit.y == clamp_pos(
            g.spirit.y + travel(
                clamp_speed(g.spirit.move_acc_y - GRAVITY),
                deltatime as int,
                MOTION as int,
            ),
        ),
        g.stepped(deltatime).spirit.x == held_on_screen(g.spirit, g.screen_move_x).x,
        !g.stepped(deltatime).spirit.is_dead,
        !g.stepped(deltatime).is_over,
{
    lemma_armed_scene(g);
    let a = g.armed();
    lemma_resolved_none(a.spirit, g.scene(), Some(0usize));
    assert(!entered(g.scene(), met(a.spirit, g.scene(), Some(0usize))));
}

/// Landing, for a whole frame: a living player that comes down on a solid
/// and meets nothing else stands on it at the end of the frame. It no
/// longer falls, so gravity adds nothing; a downward speed is gone and the
/// player stays on top of the solid; an upward speed is kept and carries
/// the player up from there. The player lives and the game goes on. (The
/// top of the solid has to be a place inside the world box, and the player
/// must not crouch on the mouth of an open pipe, which would take it away.)
pub proof fn lemma_frame_landing(g: GameView, i: int, deltatime: u32)
    requires
        g.valid(),
        !g.is_over,
        !g.spirit.is_dead,
        g.meets_only(i),
        g.scene()[i].kind.is_solid(),
        g.spirit.rect().side(g.scene()[i].rect) == BOTTOM,
        g.spirit.rect().push_fits(g.scene()[i].rect, BOTTOM),
        !(g.spirit.is_crouch && g.scene()[i].enter),
    ensures
        !g.stepped(deltatime).spirit.is_falling,
        !g.stepped(deltatime).spirit.is_dead,
        !g.stepped(deltatime).is_over,
        g.spirit.move_acc_y <= 0 ==> g.stepped(deltatime).spirit.move_acc_y == 0
            && g.stepped(deltatime).spirit.y == g.scene()[i].rect.y + g.scene()[i].rect.h
            + g.spirit.h,
        g.spirit.move_acc_y >= 0 ==> g.stepped(deltatime).spirit.move_acc_y
            == g.spirit.move_acc_y && g.stepped(deltatime).spirit.y == clamp_pos(
            g.scene()[i].rect.y + g.scene()[i].rect.h + g.spirit.h + travel(
                g.spirit.move_acc_y as int,
                deltatime as int,
                MOTION as int,
            ),
        ),
{
    lemma_player_meets_one(g, i);
    let c = g.scene()[i];
    assert(seq![BOTTOM].contains(BOTTOM)) by {
        assert(seq![BOTTOM][0] == BOTTOM);
    }
    assert(after_contact(g.spirit.armed(), c) == g.spirit.armed().stopped_by(c.rect, BOTTOM));
    assert(travel(0, deltatime as int, MOTION as int) == 0) by (nonlinear_arith);
}

/// Clearance, for a whole frame: a living player that stands still, runs
/// into a solid from the side and meets nothing else is beside the solid at
/// the end of the frame, with the clearance between them, so that the two
/// no longer overlap. The solid ground and the bricks are as they were, the
/// player lives and the game goes on. (The place beside the solid has to be
/// inside the world box and right of the screen's left edge, and the player
/// must not crouch on the mouth of an open pipe.)
pub proof fn lemma_frame_clearance(g: GameView, i: int, deltatime: u32)
    requires
        g.valid(),
        !g.is_over,
        !g.spirit.is_dead,
        g.spirit.move_vel_x == 0,
        g.meets_only(i),
        g.scene()[i].kind.is_solid(),
        g.spirit.rect().side(g.scene()[i].rect) == LEFT || g.spirit.rect().side(
            g.scene()[i].rect,
        ) == RIGHT,
        g.spirit.rect().push_fits(g.scene()[i].rect, g.spirit.rect().side(g.scene()[i].rect)),
        g.spirit.rect().pushed_out(g.scene()[i].rect, g.spirit.rect().side(g.scene()[i].rect)).x
            - g.spirit.w > -UNIT - g.screen_move_x,
        !(g.spirit.is_crouch && g.scene()[i].enter),
    ensures
        g.stepped(deltatime).spirit.x == if g.spirit.rect().side(g.scene()[i].rect) == LEFT {
            g.scene()[i].rect.x + g.scene()[i].rect.w + g.spirit.w + EPSILON
        } else {
            g.scene()[i].rect.x - g.scene()[i].rect.w - g.spirit.w - EPSILON
        },
        !g.stepped(deltatime).spirit.rect().overlaps(g.scene()[i].rect),
        g.stepped(deltatime).solids == g.solids,
        g.stepped(deltatime).blocks == g.blocks,
        !g.stepped(deltatime).spirit.is_dead,
        !g.stepped(deltatime).is_over,
{
    lemma_player_meets_one(g, i);
    lemma_armed_scene(g);
    let c = g.scene()[i];
    let side = g.spirit.rect().side(c.rect);
    assert(seq![side].contains(side)) by {
        assert(seq![side][0] == side);
    }
    let a = g.armed();
    lemma_resolved_one(a.spirit, g.scene(), Some(0usize), i);
    let hits = met(a.spirit, g.scene(), Some(0usize));
    assert(blocks_hit(a.blocks, hits.skip(a.first_block())) =~= g.blocks);
}

/// A living goomba on which the player comes down is squashed by the end of
/// the second phase, whatever else is held against it: once squashed it
/// reacts to nothing.
pub proof fn lemma_stomped_goomba(m: Goomba, others: Seq<Contact>, skip: Option<usize>)
    requires
        1 <= others.len() <= usize::MAX,
        skip != Some(0usize),
        !m.is_squash,
        others[0].kind == TypeTag::Player,
        m.rect().side(others[0].rect) == TOP,
    ensures
        resolved(m, others, skip) == m.squashed(),
    decreases others.len(),
{
    assert(seq![TOP].contains(TOP)) by {
        assert(seq![TOP][0] == TOP);
    }
    let front = others.drop_last();
    if others.len() == 1 {
    } else {
        lemma_stomped_goomba(m, front, skip);
    }
}

/// Stomp, for a whole frame: a living player that comes down on a living
/// goomba and meets nothing else squashes it, bounces off, and lives; the
/// game goes on. The goomba is squashed whatever else it meets, and it is
/// still there at the end of the frame, as a squashed body that has lain
/// for one frame.
pub proof fn lemma_frame_stomp(g: GameView, j: int, deltatime: u32)
    requires
        g.valid(),
        !g.is_over,
        !g.spirit.is_dead,
        0 <= j < g.goombas.len(),
        !g.goombas[j].is_squash,
        g.meets_only(1 + j),
        g.spirit.rect().side(g.goombas[j].rect()) == BOTTOM,
    ensures
        !g.stepped(deltatime).spirit.is_dead,
        !g.stepped(deltatime).is_over,
        g.stepped(deltatime).spirit.move_acc_y == STOMP_BOUNCE - GRAVITY,
        g.armed().collided().goombas[j] == g.goombas[j].squashed(),
        g.stepped(deltatime).goombas.contains(
            goomba_step(g.goombas[j].squashed(), g.spirit.x, deltatime),
        ),
        goomba_step(g.goombas[j].squashed(), g.spirit.x, deltatime).is_squash,
{
    let i = 1 + j;
    let m = g.goombas[j];
    lemma_armed_scene(g);
    let a = g.armed();
    let scene = g.scene();
    lemma_player_meets_one(g, i);
    assert(seq![BOTTOM].contains(BOTTOM)) by {
        assert(seq![BOTTOM][0] == BOTTOM);
    }
    lemma_side_swaps(g.spirit.rect(), m.rect());
    let armed = a.goombas[j];
    lemma_stomped_goomba(armed, scene, Some(i as usize));
    let met_goombas = a.collided().goombas;
    let x = a.collided().spirit.x;
    let stepped = met_goombas.map_values(|e: Goomba| goomba_step(e, x, deltatime));
    let stays = |e: Goomba| !goomba_leaves(e);
    stepped.lemma_filter_contains(stays, j);
}

/// A mob from the side, for a whole frame: a living player that runs into a
/// living goomba from the side and meets nothing else is dead at the end of
/// the frame, shown dead, and the game is over. A goomba that meets nothing
/// but the player walks on unsquashed, and is still there at the end of the
/// frame.
pub proof fn lemma_frame_side_contact(g: GameView, j: int, deltatime: u32)
    requires
        g.valid(),
        !g.is_over,
        !g.spirit.is_dead,
        0 <= j < g.goombas.len(),
        !g.goombas[j].is_squash,
        g.meets_only(1 + j),
        g.spirit.rect().side(g.goombas[j].rect()) == LEFT || g.spirit.rect().side(
            g.goombas[j].rect(),
        ) == RIGHT,
        misses(g.goombas[j], g.scene(), Some((1 + j) as usize), 1, g.scene().len() as int),
    ensures
        g.stepped(deltatime).spirit.is_dead,
        g.stepped(deltatime).spirit.state == DEAD_FRAME,
        g.stepped(deltatime).is_over,
        g.armed().collided().goombas[j] == g.goombas[j].armed(),
        !g.armed().collided().goombas[j].is_squash,
        g.stepped(deltatime).goombas.contains(
            goomba_step(g.goombas[j].armed(), g.spirit.x, deltatime),
        ),
        !goomba_step(g.goombas[j].armed(), g.spirit.x, deltatime).is_squash,
{
    let i = 1 + j;
    let m = g.goombas[j];
    lemma_armed_scene(g);
    let a = g.armed();
    let scene = g.scene();
    lemma_player_meets_one(g, i);
    let side = g.spirit.rect().side(m.rect());
    assert(seq![side].contains(side)) by {
        assert(seq![side][0] == side);
    }
    lemma_collides_iff_overlaps(g.spirit.rect(), m.rect());
    lemma_side_swaps(g.spirit.rect(), m.rect());
    let armed = a.goombas[j];
    let seen = armed.rect().side(scene[0].rect);
    assert(seq![seen].contains(seen)) by {
        assert(seq![seen][0] == seen);
    }
    lemma_resolved_one(armed, scene, Some(i as usize), 0);
    let met_goombas = a.collided().goombas;
    let x = a.collided().spirit.x;
    let stepped = met_goombas.map_values(|e: Goomba| goomba_step(e, x, deltatime));
    let stays = |e: Goomba| !goomba_leaves(e);
    stepped.lemma_filter_contains(stays, j);
}

} // verus!
