//! Bookkeeping of one frame: what the hit blocks set free, what the player
//! collects, which objects leave the level, and the score.

use vstd::prelude::*;
use crate::collision::{
    Collision_rect, Collisioner, Contact, TypeTag, BOTTOM, TOP, NONE, all_valid,
    lemma_collides_iff_overlaps,
};
use crate::objects::QuestionMarkBlock;
use crate::game::Block;
use crate::mobs::{Goomba, Troopa};

verus! {

/// Height below which a mushroom, a star or a shell has fallen out of the
/// level.
pub const ABYSS: i64 = -2_400_000;

/// A counter after `times` gains of `points` each, held at the largest value
/// that it can show.
pub open spec fn gained(value: u32, points: int, times: int) -> u32 {
    if value + points * times > u32::MAX {
        u32::MAX
    } else {
        (value + points * times) as u32
    }
}

/// Adds `times` gains of `points` each to a counter, saturating.
pub fn gain(value: u32, points: u32, times: usize) -> (r: u32)
    ensures
        r == gained(value, points as int, times as int),
{
    assert(0 <= (points as int) * (times as int) <= 0xffff_ffff * 0xffff_ffff_ffff_ffff)
        by (nonlinear_arith)
        requires
            0 <= points <= 0xffff_ffff,
            0 <= times <= 0xffff_ffff_ffff_ffff,
    ;
    let total: u128 = value as u128 + (points as u128) * (times as u128);
    if total > u32::MAX as u128 {
        u32::MAX
    } else {
        total as u32
    }
}

/// Number of contacts at which the player stomped on a mob: the meetings on
/// `BOTTOM` with a contact that is a mob.
pub open spec fn stomps(scene: Seq<Contact>, hits: Seq<char>) -> int
    decreases scene.len(),
{
    if scene.len() == 0 {
        0
    } else {
        let i = scene.len() - 1;
        stomps(scene.drop_last(), hits) + if scene[i].kind.is_mob() && hits[i] == BOTTOM {
            1int
        } else {
            0int
        }
    }
}

/// Counts the stomps among the player's meetings.
pub fn count_stomps(scene: &Vec<Contact>, hits: &Vec<char>) -> (n: usize)
    requires
        hits@.len() == scene@.len(),
    ensures
        n == stomps(scene@, hits@),
{
    let mut n: usize = 0;
    let mut i: usize = 0;
    while i < scene.len()
        invariant
            i <= scene.len(),
            hits@.len() == scene@.len(),
            n == stomps(scene@.take(i as int), hits@),
            n <= i,
        decreases scene.len() - i,
    {
        proof {
            assert(scene@.take(i + 1).drop_last() =~= scene@.take(i as int));
        }
        if scene[i].kind.mob() && hits[i] == BOTTOM {
            n += 1;
        }
        i += 1;
    }
    proof {
        assert(scene@.take(scene.len() as int) =~= scene@);
    }
    n
}

/// Whether the player met the mouth of a pipe that can be entered.
pub open spec fn entered(scene: Seq<Contact>, hits: Seq<char>) -> bool {
    exists|i: int| 0 <= i < scene.len() && (#[trigger] scene[i]).enter && hits[i] != NONE
}

/// Looks for the mouth of an open pipe among the player's meetings.
pub fn find_entry(scene: &Vec<Contact>, hits: &Vec<char>) -> (r: bool)
    requires
        hits@.len() == scene@.len(),
    ensures
        r == entered(scene@, hits@),
{
    let mut i: usize = 0;
    while i < scene.len()
        invariant
            i <= scene.len(),
            hits@.len() == scene@.len(),
            forall|k: int| 0 <= k < i ==> !((#[trigger] scene@[k]).enter && hits@[k] != NONE),
        decreases scene.len() - i,
    {
        if scene[i].enter && hits[i] != NONE {
            return true;
        }
        i += 1;
    }
    false
}

/// Whether `player` overlaps one of `rects`.
pub open spec fn touches_any(player: Collision_rect, rects: Seq<Collision_rect>) -> bool {
    exists|i: int| 0 <= i < rects.len() && player.overlaps(#[trigger] rects[i])
}

/// Whether `player` overlaps one of `rects`.
pub fn touch_any(player: Collision_rect, rects: &Vec<Collision_rect>) -> (r: bool)
    ensures
        r == touches_any(player, rects@),
{
    let mut i: usize = 0;
    while i < rects.len()
        invariant
            i <= rects.len(),
            forall|k: int| 0 <= k < i ==> !player.overlaps(#[trigger] rects@[k]),
        decreases rects.len() - i,
    {
        proof {
            lemma_collides_iff_overlaps(player, rects@[i as int]);
        }
        if player.hit_side(rects[i]) != NONE {
            return true;
        }
        i += 1;
    }
    false
}

/// The blocks after the player's meetings: each one that was hit from below
/// has reacted.
pub open spec fn blocks_hit(blocks: Seq<Block>, hits: Seq<char>) -> Seq<Block> {
    Seq::new(
        blocks.len(),
        |i: int|
            if hits[i] == TOP {
                blocks[i].hit()
            } else {
                blocks[i]
            },
    )
}

/// What the blocks that were hit from below set free, in the order of the
/// blocks: the movers among it if `movers`, else the rest.
pub open spec fn blocks_yield(blocks: Seq<Block>, hits: Seq<char>, movers: bool) -> Seq<Block>
    decreases blocks.len(),
{
    if blocks.len() == 0 {
        Seq::empty()
    } else {
        let i = blocks.len() - 1;
        let rest = blocks_yield(blocks.drop_last(), hits, movers);
        match blocks[i].yield_of() {
            Some(b) => if hits[i] == TOP && b.is_mover() == movers {
                rest.push(b)
            } else {
                rest
            },
            None => rest,
        }
    }
}

/// The mystery blocks after the player's meetings.
pub open spec fn questions_hit(blocks: Seq<QuestionMarkBlock>, hits: Seq<char>) -> Seq<
    QuestionMarkBlock,
> {
    Seq::new(
        blocks.len(),
        |i: int|
            if hits[i] == TOP {
                blocks[i].hit()
            } else {
                blocks[i]
            },
    )
}

/// What the mystery blocks that were hit from below set free.
pub open spec fn questions_yield(
    blocks: Seq<QuestionMarkBlock>,
    hits: Seq<char>,
    movers: bool,
) -> Seq<Block>
    decreases blocks.len(),
{
    if blocks.len() == 0 {
        Seq::empty()
    } else {
        let i = blocks.len() - 1;
        let rest = questions_yield(blocks.drop_last(), hits, movers);
        match blocks[i].yield_of() {
            Some(b) => if hits[i] == TOP && b.is_mover() == movers {
                rest.push(b)
            } else {
                rest
            },
            None => rest,
        }
    }
}

/// What a valid block sets free is valid.
pub proof fn lemma_yield_valid(b: Block)
    requires
        b.valid(),
    ensures
        b.yield_of() matches Some(c) ==> c.valid(),
{
}

/// What a valid mystery block sets free is valid.
pub proof fn lemma_question_yield_valid(q: QuestionMarkBlock)
    requires
        q.valid(),
    ensures
        q.yield_of() matches Some(c) ==> c.valid(),
{
}

/// Lets each block that the player hit from below react. `hits` holds the
/// side of the player's meeting with each block, from index `offset` on.
/// What a block sets free goes to `inmove` if it moves on its own, else to
/// `still`.
pub fn hit_blocks(
    blocks: &mut Vec<Block>,
    hits: &Vec<char>,
    offset: usize,
    still: &mut Vec<Block>,
    inmove: &mut Vec<Block>,
)
    requires
        offset + old(blocks)@.len() <= hits@.len(),
        all_valid(old(blocks)@),
        all_valid(old(still)@),
        all_valid(old(inmove)@),
    ensures
        final(blocks)@ == blocks_hit(old(blocks)@, hits@.skip(offset as int)),
        final(still)@ == old(still)@ + blocks_yield(
            old(blocks)@,
            hits@.skip(offset as int),
            false,
        ),
        final(inmove)@ == old(inmove)@ + blocks_yield(
            old(blocks)@,
            hits@.skip(offset as int),
            true,
        ),
        all_valid(final(blocks)@),
        all_valid(final(still)@),
        all_valid(final(inmove)@),
{
    let ghost h = hits@.skip(offset as int);
    let total = hits.len();
    let mut i: usize = 0;
    while i < blocks.len()
        invariant
            i <= blocks.len(),
            hits@.len() == total,
            blocks@.len() == old(blocks)@.len(),
            offset + blocks@.len() <= hits@.len(),
            h == hits@.skip(offset as int),
            forall|k: int| 0 <= k < i ==> blocks@[k] == blocks_hit(old(blocks)@, h)[k],
            forall|k: int| i <= k < blocks@.len() ==> blocks@[k] == old(blocks)@[k],
            still@ == old(still)@ + blocks_yield(old(blocks)@.take(i as int), h, false),
            inmove@ == old(inmove)@ + blocks_yield(old(blocks)@.take(i as int), h, true),
            all_valid(blocks@),
            all_valid(still@),
            all_valid(inmove@),
        decreases blocks.len() - i,
    {
        proof {
            assert(old(blocks)@.take(i + 1).drop_last() =~= old(blocks)@.take(i as int));
            lemma_yield_valid(blocks@[i as int]);
        }
        if hits[offset + i] == TOP {
            let mut block = blocks[i];
            if block.collision_name == TypeTag::Star {
                block.handle(inmove);
            } else {
                block.handle(still);
            }
            blocks[i] = block;
        }
        i += 1;
    }
    proof {
        assert(old(blocks)@.take(blocks.len() as int) =~= old(blocks)@);
    }
}

/// Lets each mystery block that the player hit from below react, as
/// `hit_blocks` does for the bricks.
pub fn hit_questions(
    blocks: &mut Vec<QuestionMarkBlock>,
    hits: &Vec<char>,
    offset: usize,
    still: &mut Vec<Block>,
    inmove: &mut Vec<Block>,
)
    requires
        offset + old(blocks)@.len() <= hits@.len(),
        all_valid(old(blocks)@),
        all_valid(old(still)@),
        all_valid(old(inmove)@),
    ensures
        final(blocks)@ == questions_hit(old(blocks)@, hits@.skip(offset as int)),
        final(still)@ == old(still)@ + questions_yield(
            old(blocks)@,
            hits@.skip(offset as int),
            false,
        ),
        final(inmove)@ == old(inmove)@ + questions_yield(
            old(blocks)@,
            hits@.skip(offset as int),
            true,
        ),
        all_valid(final(blocks)@),
        all_valid(final(still)@),
        all_valid(final(inmove)@),
{
    let ghost h = hits@.skip(offset as int);
    let total = hits.len();
    let mut i: usize = 0;
    while i < blocks.len()
        invariant
            i <= blocks.len(),
            hits@.len() == total,
            blocks@.len() == old(blocks)@.len(),
            offset + blocks@.len() <= hits@.len(),
            h == hits@.skip(offset as int),
            forall|k: int| 0 <= k < i ==> blocks@[k] == questions_hit(old(blocks)@, h)[k],
            forall|k: int| i <= k < blocks@.len() ==> blocks@[k] == old(blocks)@[k],
            still@ == old(still)@ + questions_yield(old(blocks)@.take(i as int), h, false),
            inmove@ == old(inmove)@ + questions_yield(old(blocks)@.take(i as int), h, true),
            all_valid(blocks@),
            all_valid(still@),
            all_valid(inmove@),
        decreases blocks.len() - i,
    {
        proof {
            assert(old(blocks)@.take(i + 1).drop_last() =~= old(blocks)@.take(i as int));
            lemma_question_yield_valid(blocks@[i as int]);
        }
        if hits[offset + i] == TOP {
            let mut block = blocks[i];
            if block.collision_name == TypeTag::Mushroom {
                block.handler(inmove);
            } else {
                block.handler(still);
            }
            blocks[i] = block;
        }
        i += 1;
    }
    proof {
        assert(old(blocks)@.take(blocks.len() as int) =~= old(blocks)@);
    }
}

/// The objects of `v` that `player` does not overlap.
pub open spec fn untouched(v: Seq<Block>, player: Collision_rect) -> Seq<Block> {
    v.filter(|b: Block| !player.overlaps(b.rect()))
}

/// Removes from `v` every object that `player` overlaps, keeping the order
/// of the rest. Returns how many were removed.
pub fn take_touched(v: &mut Vec<Block>, player: Collision_rect) -> (n: usize)
    ensures
        final(v)@ == untouched(old(v)@, player),
        n == old(v)@.len() - final(v)@.len(),
        all_valid(old(v)@) ==> all_valid(final(v)@),
{
    let mut kept: Vec<Block> = Vec::new();
    let mut n: usize = 0;
    let mut i: usize = 0;
    while i < v.len()
        invariant
            i <= v.len(),
            v@ == old(v)@,
            kept@ == untouched(v@.take(i as int), player),
            n + kept@.len() == i,
            all_valid(v@) ==> all_valid(kept@),
        decreases v.len() - i,
    {
        proof {
            reveal(Seq::filter);
            assert(v@.take(i + 1).drop_last() =~= v@.take(i as int));
            lemma_collides_iff_overlaps(player, v@[i as int].rect());
        }
        let b = v[i];
        if player.hit_side(b.get_collision_rect()) != NONE {
            n += 1;
        } else {
            kept.push(b);
        }
        i += 1;
    }
    proof {
        assert(v@.take(v.len() as int) =~= v@);
    }
    *v = kept;
    n
}

/// A popped coin that has turned back down: it is spent.
pub open spec fn is_spent(b: Block) -> bool {
    b.collision_name == TypeTag::Coin && b.move_acc_y < 0
}

/// The popped coins among `v` that are spent.
pub open spec fn spent(v: Seq<Block>) -> Seq<Block> {
    v.filter(|b: Block| is_spent(b))
}

/// An object of the still collection one frame later: a popped coin moves.
pub open spec fn still_step(b: Block, deltatime: u32) -> Block {
    if b.collision_name == TypeTag::Coin {
        b.popped(deltatime)
    } else {
        b
    }
}

/// The still collection one frame later: the spent coins are gone, the
/// other popped coins have moved.
pub open spec fn still_after(v: Seq<Block>, deltatime: u32) -> Seq<Block> {
    v.filter(|b: Block| !is_spent(b)).map_values(|b: Block| still_step(b, deltatime))
}

/// Removes the spent coins from `v` and moves the other popped coins by one
/// frame. Returns how many coins were removed.
pub fn sweep_still(v: &mut Vec<Block>, deltatime: u32) -> (n: usize)
    requires
        all_valid(old(v)@),
    ensures
        final(v)@ == still_after(old(v)@, deltatime),
        n == old(v)@.len() - final(v)@.len(),
        all_valid(final(v)@),
{
    let mut kept: Vec<Block> = Vec::new();
    let mut n: usize = 0;
    let mut i: usize = 0;
    while i < v.len()
        invariant
            i <= v.len(),
            v@ == old(v)@,
            all_valid(v@),
            kept@ == still_after(v@.take(i as int), deltatime),
            n + kept@.len() == i,
            all_valid(kept@),
        decreases v.len() - i,
    {
        proof {
            reveal(Seq::filter);
            assert(v@.take(i + 1).drop_last() =~= v@.take(i as int));
        }
        let mut b = v[i];
        let coin = b.collision_name == TypeTag::Coin;
        if coin && b.move_acc_y < 0 {
            n += 1;
        } else {
            if coin {
                b.pop_step(deltatime);
            }
            kept.push(b);
        }
        i += 1;
    }
    proof {
        assert(v@.take(v.len() as int) =~= v@);
    }
    *v = kept;
    n
}

/// The objects of `v` with the category `tag` one animation frame further.
pub open spec fn animated_tagged(v: Seq<Block>, tag: TypeTag) -> Seq<Block> {
    v.map_values(
        |b: Block|
            if b.collision_name == tag {
                b.animated()
            } else {
                b
            },
    )
}

/// Steps the animation of every object of `v` with the category `tag`.
pub fn animate_tagged(v: &mut Vec<Block>, tag: TypeTag)
    requires
        all_valid(old(v)@),
    ensures
        final(v)@ == animated_tagged(old(v)@, tag),
        all_valid(final(v)@),
{
    let mut i: usize = 0;
    while i < v.len()
        invariant
            i <= v.len(),
            v@.len() == old(v)@.len(),
            forall|k: int| 0 <= k < i ==> v@[k] == animated_tagged(old(v)@, tag)[k],
            forall|k: int| i <= k < v@.len() ==> v@[k] == old(v)@[k],
            all_valid(v@),
        decreases v.len() - i,
    {
        if v[i].collision_name == tag {
            v[i].animate();
        }
        i += 1;
    }
}

/// Whether the object has fallen out of the level.
pub open spec fn fell(b: Block) -> bool {
    b.y < ABYSS
}

/// The movers that are still in the level.
pub open spec fn present(v: Seq<Block>) -> Seq<Block> {
    v.filter(|b: Block| !fell(b))
}

/// Removes the objects that have fallen out of the level.
pub fn sweep_movers(v: &mut Vec<Block>)
    ensures
        final(v)@ == present(old(v)@),
        all_valid(old(v)@) ==> all_valid(final(v)@),
{
    let mut kept: Vec<Block> = Vec::new();
    let mut i: usize = 0;
    while i < v.len()
        invariant
            i <= v.len(),
            v@ == old(v)@,
            kept@ == present(v@.take(i as int)),
            all_valid(v@) ==> all_valid(kept@),
        decreases v.len() - i,
    {
        proof {
            reveal(Seq::filter);
            assert(v@.take(i + 1).drop_last() =~= v@.take(i as int));
        }
        let b = v[i];
        if !(b.y < ABYSS) {
            kept.push(b);
        }
        i += 1;
    }
    proof {
        assert(v@.take(v.len() as int) =~= v@);
    }
    *v = kept;
}

/// A goomba one frame later: woken up if the player at `player_x` is in
/// reach, then moved.
pub open spec fn goomba_step(g: Goomba, player_x: i64, deltatime: u32) -> Goomba {
    g.woken(player_x).advanced(deltatime)
}

/// Whether a goomba leaves the level: its squashed body has lain long
/// enough. A living goomba stays, wherever it is.
pub open spec fn goomba_leaves(g: Goomba) -> bool {
    g.is_gone()
}

/// The goombas one frame later, without those that leave the level.
pub open spec fn goombas_after(v: Seq<Goomba>, player_x: i64, deltatime: u32) -> Seq<Goomba> {
    v.map_values(|g: Goomba| goomba_step(g, player_x, deltatime)).filter(
        |g: Goomba| !goomba_leaves(g),
    )
}

/// Wakes and moves the goombas, and removes those that leave the level.
pub fn run_goombas(v: &mut Vec<Goomba>, player_x: i64, deltatime: u32)
    requires
        all_valid(old(v)@),
    ensures
        final(v)@ == goombas_after(old(v)@, player_x, deltatime),
        all_valid(final(v)@),
{
    let mut kept: Vec<Goomba> = Vec::new();
    let mut i: usize = 0;
    while i < v.len()
        invariant
            i <= v.len(),
            v@ == old(v)@,
            all_valid(v@),
            kept@ == goombas_after(v@.take(i as int), player_x, deltatime),
            all_valid(kept@),
        decreases v.len() - i,
    {
        let ghost stepped = v@.take(i + 1).map_values(
            |g: Goomba| goomba_step(g, player_x, deltatime),
        );
        proof {
            reveal(Seq::filter);
            assert(stepped.drop_last() =~= v@.take(i as int).map_values(
                |g: Goomba| goomba_step(g, player_x, deltatime),
            ));
        }
        let mut g = v[i];
        g.wake(player_x);
        g.run_default_behavior(deltatime);
        if !g.gone() {
            kept.push(g);
        }
        i += 1;
    }
    proof {
        assert(v@.take(v.len() as int) =~= v@);
    }
    *v = kept;
}

/// A troopa one frame later: woken up if the player at `player_x` is in
/// reach, then moved.
pub open spec fn troopa_step(t: Troopa, player_x: i64, deltatime: u32) -> Troopa {
    t.woken(player_x).advanced(deltatime)
}

/// Whether a troopa leaves the level: its shell has lain at rest long
/// enough, or has fallen out of the level. A walking troopa stays, wherever
/// it is.
pub open spec fn troopa_leaves(t: Troopa) -> bool {
    t.is_gone() || t.is_squash && fell(t.obj)
}

/// The troopas one frame later, without those that leave the level.
pub open spec fn troopas_after(v: Seq<Troopa>, player_x: i64, deltatime: u32) -> Seq<Troopa> {
    v.map_values(|t: Troopa| troopa_step(t, player_x, deltatime)).filter(
        |t: Troopa| !troopa_leaves(t),
    )
}

/// Wakes and moves the troopas, and removes those that leave the level.
pub fn run_troopas(v: &mut Vec<Troopa>, player_x: i64, deltatime: u32)
    requires
        all_valid(old(v)@),
    ensures
        final(v)@ == troopas_after(old(v)@, player_x, deltatime),
        all_valid(final(v)@),
{
    let mut kept: Vec<Troopa> = Vec::new();
    let mut i: usize = 0;
    while i < v.len()
        invariant
            i <= v.len(),
            v@ == old(v)@,
            all_valid(v@),
            kept@ == troopas_after(v@.take(i as int), player_x, deltatime),
            all_valid(kept@),
        decreases v.len() - i,
    {
        let ghost stepped = v@.take(i + 1).map_values(
            |t: Troopa| troopa_step(t, player_x, deltatime),
        );
        proof {
            reveal(Seq::filter);
            assert(stepped.drop_last() =~= v@.take(i as int).map_values(
                |t: Troopa| troopa_step(t, player_x, deltatime),
            ));
        }
        let mut t = v[i];
        t.wake(player_x);
        t.run_default_behavior(deltatime);
        if !(t.gone() || t.is_squash && t.obj.y < ABYSS) {
            kept.push(t);
        }
        i += 1;
    }
    proof {
        assert(v@.take(v.len() as int) =~= v@);
    }
    *v = kept;
}

} // verus!
