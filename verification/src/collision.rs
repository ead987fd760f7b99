//! Collision geometry, and the behaviour protocol of everything that
//! collides.

use vstd::prelude::*;
use crate::units::{LIMIT, EPSILON, in_world, clamp_pos};

verus! {

/// The semantic category of an object, as another object sees it when the
/// two collide.
#[derive(Clone, Copy, Debug, PartialEq, Eq, Hash, Structural)]
pub enum TypeTag {
    /// Nothing that anything reacts to.
    Nil,
    /// A floor or wall tile.
    Block,
    /// A brick that reacts to a hit from below.
    BreakableBlock,
    /// A brick on its way up after a hit.
    BlockUp,
    /// A mystery block.
    QuestionBlock,
    /// A stair stone.
    Stone,
    Mushroom,
    Star,
    Coin,
    /// A segment of a pipe.
    Pipe,
    /// The goal.
    Flag,
    Player,
    Goomba,
    Troopa,
    /// A shell at rest, harmless until it is kicked.
    Shell,
    /// A shell on its way, deadly to the player and to every mob.
    KickedShell,
    /// Scenery behind the goal.
    Castle,
}

impl TypeTag {
    /// The categories that a moving body cannot pass through.
    pub open spec fn is_solid(self) -> bool {
        self == TypeTag::Block || self == TypeTag::BreakableBlock || self == TypeTag::BlockUp
            || self == TypeTag::QuestionBlock || self == TypeTag::Stone || self == TypeTag::Pipe
    }

    /// The categories that kill the player on a contact that is no stomp.
    pub open spec fn is_mob(self) -> bool {
        self == TypeTag::Goomba || self == TypeTag::Troopa || self == TypeTag::KickedShell
    }

    /// Whether a moving body cannot pass through this category.
    pub fn solid(self) -> (r: bool)
        ensures
            r == self.is_solid(),
    {
        match self {
            TypeTag::Block | TypeTag::BreakableBlock | TypeTag::BlockUp | TypeTag::QuestionBlock
            | TypeTag::Stone | TypeTag::Pipe => true,
            _ => false,
        }
    }

    /// Whether this category kills the player on a contact that is no stomp.
    pub fn mob(self) -> (r: bool)
        ensures
            r == self.is_mob(),
    {
        match self {
            TypeTag::Goomba | TypeTag::Troopa | TypeTag::KickedShell => true,
            _ => false,
        }
    }
}

/// Tag of an empty collision result.
pub const NONE: char = '0';

/// The other rectangle lies below the probe.
pub const BOTTOM: char = 'b';

/// The other rectangle lies above the probe.
pub const TOP: char = 't';

/// The other rectangle lies to the left of the probe.
pub const LEFT: char = 'l';

/// The other rectangle lies to the right of the probe.
pub const RIGHT: char = 'r';

/// The tag that the other party of a collision sees.
pub open spec fn opposite(side: char) -> char {
    if side == BOTTOM {
        TOP
    } else if side == TOP {
        BOTTOM
    } else if side == LEFT {
        RIGHT
    } else if side == RIGHT {
        LEFT
    } else {
        side
    }
}

/// The magnitude of `v`.
pub open spec fn abs(v: int) -> int {
    if v < 0 {
        -v
    } else {
        v
    }
}

/// An axis-aligned rectangle: centre and half-extents.
#[allow(non_camel_case_types)]
#[derive(Clone, Copy, Debug, PartialEq, Eq, Structural)]
pub struct Collision_rect {
    pub x: i64,
    pub y: i64,
    pub w: i64,
    pub h: i64,
}

impl Collision_rect {
    /// A rectangle with positive half-extents that lies inside the world box.
    pub open spec fn wf(self) -> bool {
        &&& in_world(self.x as int)
        &&& in_world(self.y as int)
        &&& 0 < self.w <= LIMIT
        &&& 0 < self.h <= LIMIT
    }

    /// The interiors of the two rectangles share a point on both axes.
    pub open spec fn overlaps(self, b: Collision_rect) -> bool {
        &&& self.x - self.w < b.x + b.w
        &&& b.x - b.w < self.x + self.w
        &&& self.y - self.h < b.y + b.h
        &&& b.y - b.h < self.y + self.h
    }

    /// Signed distance along x by which `self` has to move to separate from
    /// `b`: positive to the right, negative to the left.
    pub open spec fn depth_x(self, b: Collision_rect) -> int {
        if self.x > b.x {
            (self.w + b.w) - (self.x - b.x)
        } else {
            -(self.w + b.w) - (self.x - b.x)
        }
    }

    /// Signed distance along y by which `self` has to move to separate from
    /// `b`: positive upwards, negative downwards.
    pub open spec fn depth_y(self, b: Collision_rect) -> int {
        if self.y > b.y {
            (self.h + b.h) - (self.y - b.y)
        } else {
            -(self.h + b.h) - (self.y - b.y)
        }
    }

    /// An overlap is resolved along y unless the way out along x is shorter
    /// by more than `EPSILON`.
    pub open spec fn resolves_vertically(self, b: Collision_rect) -> bool {
        abs(self.depth_y(b)) - EPSILON <= abs(self.depth_x(b))
    }

    /// The side of `self` on which it meets `b`, or `NONE`.
    pub open spec fn side(self, b: Collision_rect) -> char {
        if !self.overlaps(b) {
            NONE
        } else if self.resolves_vertically(b) {
            if self.depth_y(b) > 0 {
                BOTTOM
            } else {
                TOP
            }
        } else {
            if self.depth_x(b) > 0 {
                LEFT
            } else {
                RIGHT
            }
        }
    }

    /// `self` moved out of `b` towards the side on which the two met: onto
    /// `b` for `BOTTOM`, under it for `TOP`, and beside it with a gap of
    /// `EPSILON` for `LEFT` and `RIGHT`. The new coordinate saturates at the
    /// edge of the world box. Any other tag leaves `self` where it is.
    pub open spec fn pushed_out(self, b: Collision_rect, side: char) -> Collision_rect {
        if side == BOTTOM {
            Collision_rect { y: clamp_pos(b.y + b.h + self.h) as i64, ..self }
        } else if side == TOP {
            Collision_rect { y: clamp_pos(b.y - b.h - self.h) as i64, ..self }
        } else if side == LEFT {
            Collision_rect { x: clamp_pos(b.x + b.w + self.w + EPSILON) as i64, ..self }
        } else if side == RIGHT {
            Collision_rect { x: clamp_pos(b.x - b.w - self.w - EPSILON) as i64, ..self }
        } else {
            self
        }
    }

    /// Whether the position that `pushed_out` aims at lies inside the world
    /// box, so that nothing saturates.
    pub open spec fn push_fits(self, b: Collision_rect, side: char) -> bool {
        if side == BOTTOM {
            in_world(b.y + b.h + self.h)
        } else if side == TOP {
            in_world(b.y - b.h - self.h)
        } else if side == LEFT {
            in_world(b.x + b.w + self.w + EPSILON)
        } else if side == RIGHT {
            in_world(b.x - b.w - self.w - EPSILON)
        } else {
            true
        }
    }

    /// Whether the world box has room for `self` next to `b` on `side`: on
    /// top of `b` for `BOTTOM`, under it for `TOP`, right of it for `LEFT`
    /// and left of it for `RIGHT`.
    pub open spec fn push_clears(self, b: Collision_rect, side: char) -> bool {
        if side == BOTTOM {
            b.y + b.h + self.h <= LIMIT
        } else if side == TOP {
            b.y - b.h - self.h >= -LIMIT
        } else if side == LEFT {
            b.x + b.w + self.w <= LIMIT
        } else if side == RIGHT {
            b.x - b.w - self.w >= -LIMIT
        } else {
            true
        }
    }

    /// Moves `self` out of `b` towards `side`.
    pub fn push_out(&self, b: Collision_rect, side: char) -> (r: Collision_rect)
        ensures
            r == self.pushed_out(b, side),
            self.wf() ==> r.wf(),
    {
        let mut r = *self;
        if side == BOTTOM {
            r.y = saturate_wide(b.y as i128 + b.h as i128 + self.h as i128);
        } else if side == TOP {
            r.y = saturate_wide(b.y as i128 - b.h as i128 - self.h as i128);
        } else if side == LEFT {
            r.x = saturate_wide(b.x as i128 + b.w as i128 + self.w as i128 + EPSILON as i128);
        } else if side == RIGHT {
            r.x = saturate_wide(b.x as i128 - b.w as i128 - self.w as i128 - EPSILON as i128);
        }
        r
    }

    /// Penetration depth of `self` into `b` along both axes, and whether the
    /// two overlap at all.
    fn get_intersection(&self, b: Collision_rect) -> (r: (i128, i128, bool))
        ensures
            r.2 == self.overlaps(b),
            r.2 ==> r.0 == self.depth_x(b) && r.1 == self.depth_y(b),
            r.2 ==> r.0 != 0 && r.1 != 0,
            !r.2 ==> r.0 == 0 && r.1 == 0,
    {
        let x_distance: i128 = self.x as i128 - b.x as i128;
        let y_distance: i128 = self.y as i128 - b.y as i128;
        let min_distance_x: i128 = self.w as i128 + b.w as i128;
        let min_distance_y: i128 = self.h as i128 + b.h as i128;
        let abs_x: i128 = if x_distance < 0 { -x_distance } else { x_distance };
        let abs_y: i128 = if y_distance < 0 { -y_distance } else { y_distance };
        if abs_x >= min_distance_x || abs_y >= min_distance_y {
            return (0, 0, false);
        }
        let depth_x: i128 = if x_distance > 0 {
            min_distance_x - x_distance
        } else {
            -min_distance_x - x_distance
        };
        let depth_y: i128 = if y_distance > 0 {
            min_distance_y - y_distance
        } else {
            -min_distance_y - y_distance
        };
        (depth_x, depth_y, true)
    }

    /// The side on which the overlap of `self` with `b` is resolved.
    pub(crate) fn hit_side(&self, b: Collision_rect) -> (r: char)
        ensures
            r == self.side(b),
    {
        let intersection = self.get_intersection(b);
        if !intersection.2 {
            return NONE;
        }
        let abs_x: i128 = if intersection.0 < 0 { -intersection.0 } else { intersection.0 };
        let abs_y: i128 = if intersection.1 < 0 { -intersection.1 } else { intersection.1 };
        if abs_y - EPSILON as i128 <= abs_x {
            if intersection.1 > 0 {
                BOTTOM
            } else {
                TOP
            }
        } else {
            if intersection.0 > 0 {
                LEFT
            } else {
                RIGHT
            }
        }
    }

    /// Hit test of `self` against `b`: the one-element list `[NONE]` when the
    /// two do not overlap, else the one side on which the overlap is
    /// resolved.
    pub fn check_hitbox(&self, b: Collision_rect) -> (r: Vec<char>)
        ensures
            r@ == seq![self.side(b)],
            !self.overlaps(b) <==> r@ == seq![NONE],
    {
        let side = self.hit_side(b);
        let mut collisions: Vec<char> = Vec::new();
        collisions.push(side);
        assert(collisions@[0] == side);
        collisions
    }
}

/// Saturates a wide intermediate result at the edge of the world box.
pub(crate) fn saturate_wide(v: i128) -> (r: i64)
    ensures
        r == clamp_pos(v as int),
        in_world(r as int),
{
    if v < -(LIMIT as i128) {
        -LIMIT
    } else if v > LIMIT as i128 {
        LIMIT
    } else {
        v as i64
    }
}

/// Rectangles that do not overlap never collide, and rectangles that overlap
/// always collide on exactly one of the four sides.
pub proof fn lemma_collides_iff_overlaps(a: Collision_rect, b: Collision_rect)
    ensures
        !a.overlaps(b) <==> a.side(b) == NONE,
        a.overlaps(b) ==> a.side(b) == BOTTOM || a.side(b) == TOP || a.side(b) == LEFT
            || a.side(b) == RIGHT,
{
}

/// Swapping the two rectangles of an overlapping pair turns the side into its
/// opposite if and only if the centres differ on the axis along which the
/// overlap is resolved. (With equal centres on that axis neither rectangle is
/// below or left of the other, and both orders answer `TOP` or `RIGHT`.)
pub proof fn lemma_side_swaps(a: Collision_rect, b: Collision_rect)
    requires
        a.overlaps(b),
    ensures
        b.overlaps(a),
        b.resolves_vertically(a) == a.resolves_vertically(b),
        b.side(a) == opposite(a.side(b)) <==> if a.resolves_vertically(b) {
            a.y != b.y
        } else {
            a.x != b.x
        },
        a.side(b) == BOTTOM || a.side(b) == LEFT ==> b.side(a) == opposite(a.side(b)),
{
}

/// After `a` was moved out of `b` towards the side on which the two met, an
/// immediate second hit test of the same pair finds no collision, if and
/// only if the world box has room for `a` on that side of `b`.
pub proof fn lemma_push_out_clears(a: Collision_rect, b: Collision_rect)
    requires
        a.wf(),
        b.wf(),
        a.side(b) != NONE,
    ensures
        a.pushed_out(b, a.side(b)).side(b) == NONE <==> a.push_clears(b, a.side(b)),
        a.push_fits(b, a.side(b)) ==> a.push_clears(b, a.side(b)),
{
}

/// Whether the tag `side` is among `collisions`.
pub fn has_side(collisions: &Vec<char>, side: char) -> (r: bool)
    ensures
        r == collisions@.contains(side),
{
    let mut i: usize = 0;
    while i < collisions.len()
        invariant
            i <= collisions.len(),
            forall|k: int| 0 <= k < i ==> collisions@[k] != side,
        decreases collisions.len() - i,
    {
        if collisions[i] == side {
            return true;
        }
        i += 1;
    }
    false
}

/// The side that a reaction goes by when a collision reports several: the
/// first of `BOTTOM`, `TOP`, `LEFT`, `RIGHT` that is among `sides`, or `NONE`.
pub open spec fn first_side(sides: Seq<char>) -> char {
    if sides.contains(BOTTOM) {
        BOTTOM
    } else if sides.contains(TOP) {
        TOP
    } else if sides.contains(LEFT) {
        LEFT
    } else if sides.contains(RIGHT) {
        RIGHT
    } else {
        NONE
    }
}

/// Picks the side that a reaction goes by.
pub fn pick_side(collisions: &Vec<char>) -> (r: char)
    ensures
        r == first_side(collisions@),
{
    if has_side(collisions, BOTTOM) {
        BOTTOM
    } else if has_side(collisions, TOP) {
        TOP
    } else if has_side(collisions, LEFT) {
        LEFT
    } else if has_side(collisions, RIGHT) {
        RIGHT
    } else {
        NONE
    }
}

/// The name under which a side is reported as text.
pub open spec fn side_name(side: char) -> Seq<char> {
    if side == BOTTOM {
        "bottom"@
    } else if side == TOP {
        "top"@
    } else if side == LEFT {
        "left"@
    } else if side == RIGHT {
        "right"@
    } else {
        "nil"@
    }
}

/// The text for a side: `"bottom"`, `"top"`, `"left"`, `"right"`, and `"nil"`
/// for anything else.
pub fn name_of(side: char) -> (r: &'static str)
    ensures
        r@ == side_name(side),
{
    if side == BOTTOM {
        "bottom"
    } else if side == TOP {
        "top"
    } else if side == LEFT {
        "left"
    } else if side == RIGHT {
        "right"
    } else {
        "nil"
    }
}

/// The behaviour protocol of everything that takes part in collisions.
///
/// The frame driver calls `set_default_behavior` on every object, then
/// `handle_collision` on an object for each other object that its rectangle
/// overlaps, then `run_default_behavior` on every object. Each method has a
/// spec counterpart that says what the object is afterwards.
pub trait Collisioner: Sized {
    /// The invariant of the object's state.
    spec fn valid(&self) -> bool;

    /// The rectangle that the object occupies.
    spec fn rect(&self) -> Collision_rect;

    /// The category under which others see the object.
    spec fn type_tag(&self) -> TypeTag;

    /// The object with its per-frame flags reset.
    spec fn armed(&self) -> Self;

    /// The object after it met an `other` at `rect` on `sides`.
    spec fn collided(&self, other: TypeTag, rect: Collision_rect, sides: Seq<char>) -> Self;

    /// The object after `deltatime` milliseconds of its own motion.
    spec fn advanced(&self, deltatime: u32) -> Self;

    fn get_collision_rect(&self) -> (r: Collision_rect)
        ensures
            r == self.rect(),
    ;

    fn get_type(&self) -> (t: TypeTag)
        ensures
            t == self.type_tag(),
    ;

    fn handle_collision(
        &mut self,
        collision_object: TypeTag,
        collision_rect: Collision_rect,
        collisions: Vec<char>,
    )
        requires
            old(self).valid(),
        ensures
            *final(self) == old(self).collided(collision_object, collision_rect, collisions@),
            final(self).valid(),
    ;

    fn set_default_behavior(&mut self)
        requires
            old(self).valid(),
        ensures
            *final(self) == old(self).armed(),
            final(self).valid(),
    ;

    fn run_default_behavior(&mut self, deltatime: u32)
        requires
            old(self).valid(),
        ensures
            *final(self) == old(self).advanced(deltatime),
            final(self).valid(),
    ;
}

/// What one object sees of another during collision resolution: a snapshot
/// of its category and rectangle, taken before anything moved.
#[derive(Clone, Copy, Debug, PartialEq, Eq, Structural)]
pub struct Contact {
    pub kind: TypeTag,
    pub rect: Collision_rect,
    /// Whether the rectangle is the mouth of a pipe that can be entered.
    pub enter: bool,
}

/// The snapshot that others get of `e`.
pub open spec fn contact_of<E: Collisioner>(e: E) -> Contact {
    Contact { kind: e.type_tag(), rect: e.rect(), enter: false }
}

/// `e` after it was held against `c`: it reacts if the two collide.
pub open spec fn after_contact<E: Collisioner>(e: E, c: Contact) -> E {
    if e.rect().side(c.rect) != NONE {
        e.collided(c.kind, c.rect, seq![e.rect().side(c.rect)])
    } else {
        e
    }
}

/// `e` after it was held against each of `others` in order, but for the one
/// at index `skip` (its own snapshot).
pub open spec fn resolved<E: Collisioner>(e: E, others: Seq<Contact>, skip: Option<usize>) -> E
    decreases others.len(),
{
    if others.len() == 0 {
        e
    } else {
        let before = resolved(e, others.drop_last(), skip);
        if skip == Some((others.len() - 1) as usize) {
            before
        } else {
            after_contact(before, others.last())
        }
    }
}

/// The side on which `e` met each of `others` while it was held against
/// them in order; `NONE` for a miss and for the one at index `skip`.
pub open spec fn met<E: Collisioner>(e: E, others: Seq<Contact>, skip: Option<usize>) -> Seq<char>
    decreases others.len(),
{
    if others.len() == 0 {
        Seq::empty()
    } else {
        let before = resolved(e, others.drop_last(), skip);
        met(e, others.drop_last(), skip).push(
            if skip == Some((others.len() - 1) as usize) {
                NONE
            } else {
                before.rect().side(others.last().rect)
            },
        )
    }
}

/// Whether `e` as it is would miss each of the contacts `from .. to` of
/// `others`, the one at index `skip` aside.
pub open spec fn misses<E: Collisioner>(
    e: E,
    others: Seq<Contact>,
    skip: Option<usize>,
    from: int,
    to: int,
) -> bool {
    forall|j: int|
        from <= j < to && skip != Some(j as usize) ==> !e.rect().overlaps(
            (#[trigger] others[j]).rect,
        )
}

/// An object that misses everything that is held against it stays as it is,
/// and every meeting is `NONE`.
pub proof fn lemma_resolved_none<E: Collisioner>(e: E, others: Seq<Contact>, skip: Option<usize>)
    requires
        others.len() <= usize::MAX,
        misses(e, others, skip, 0, others.len() as int),
    ensures
        resolved(e, others, skip) == e,
        met(e, others, skip).len() == others.len(),
        forall|j: int| 0 <= j < others.len() ==> met(e, others, skip)[j] == NONE,
    decreases others.len(),
{
    if others.len() > 0 {
        let front = others.drop_last();
        assert(misses(e, front, skip, 0, front.len() as int)) by {
            assert forall|j: int|
                0 <= j < front.len() && skip != Some(j as usize) implies !e.rect().overlaps(
                (#[trigger] front[j]).rect,
            ) by {
                assert(front[j] == others[j]);
            }
        }
        lemma_resolved_none(e, front, skip);
        let last = others.len() - 1;
        if skip != Some(last as usize) {
            lemma_collides_iff_overlaps(e.rect(), others[last].rect);
        }
    }
}

/// An object that meets exactly one of the contacts that are held against
/// it, the one at index `i`, is afterwards what its reaction to that one
/// makes of it. "Exactly one" is: as it is, it misses the contacts before
/// `i`, and after its reaction it misses those after `i`.
pub proof fn lemma_resolved_one<E: Collisioner>(
    e: E,
    others: Seq<Contact>,
    skip: Option<usize>,
    i: int,
)
    requires
        others.len() <= usize::MAX,
        0 <= i < others.len(),
        skip != Some(i as usize),
        misses(e, others, skip, 0, i),
        misses(after_contact(e, others[i]), others, skip, i + 1, others.len() as int),
    ensures
        resolved(e, others, skip) == after_contact(e, others[i]),
        met(e, others, skip).len() == others.len(),
        met(e, others, skip)[i] == e.rect().side(others[i].rect),
        forall|j: int| 0 <= j < others.len() && j != i ==> met(e, others, skip)[j] == NONE,
    decreases others.len(),
{
    let front = others.drop_last();
    let last = others.len() - 1;
    if i == last {
        assert(misses(e, front, skip, 0, front.len() as int)) by {
            assert forall|j: int|
                0 <= j < front.len() && skip != Some(j as usize) implies !e.rect().overlaps(
                (#[trigger] front[j]).rect,
            ) by {
                assert(front[j] == others[j]);
            }
        }
        lemma_resolved_none(e, front, skip);
    } else {
        let after = after_contact(e, others[i]);
        assert(misses(e, front, skip, 0, i)) by {
            assert forall|j: int| 0 <= j < i && skip != Some(j as usize) implies !e.rect().overlaps(
                (#[trigger] front[j]).rect,
            ) by {
                assert(front[j] == others[j]);
            }
        }
        assert(misses(after, front, skip, i + 1, front.len() as int)) by {
            assert forall|j: int|
                i + 1 <= j < front.len() && skip != Some(j as usize) implies !after.rect().overlaps(
                (#[trigger] front[j]).rect,
            ) by {
                assert(front[j] == others[j]);
            }
        }
        lemma_resolved_one(e, front, skip, i);
        if skip != Some(last as usize) {
            lemma_collides_iff_overlaps(after.rect(), others[last].rect);
        }
    }
}

/// Holds `e` against each of `others` in order and lets it react to every
/// collision. Returns the side of each meeting.
pub fn resolve<E: Collisioner>(
    e: &mut E,
    others: &Vec<Contact>,
    skip: Option<usize>,
) -> (hits: Vec<char>)
    requires
        old(e).valid(),
    ensures
        *final(e) == resolved(*old(e), others@, skip),
        hits@ == met(*old(e), others@, skip),
        hits@.len() == others@.len(),
        final(e).valid(),
{
    let mut hits: Vec<char> = Vec::new();
    let mut i: usize = 0;
    while i < others.len()
        invariant
            i <= others.len(),
            e.valid(),
            *e == resolved(*old(e), others@.take(i as int), skip),
            hits@ == met(*old(e), others@.take(i as int), skip),
            hits@.len() == i,
        decreases others.len() - i,
    {
        let c = others[i];
        let mut side = NONE;
        let skipped = match skip {
            Some(k) => k == i,
            None => false,
        };
        if !skipped {
            side = e.get_collision_rect().hit_side(c.rect);
            if side != NONE {
                let mut sides: Vec<char> = Vec::new();
                sides.push(side);
                e.handle_collision(c.kind, c.rect, sides);
            }
        }
        hits.push(side);
        proof {
            assert(others@.take(i + 1).drop_last() =~= others@.take(i as int));
        }
        i += 1;
    }
    proof {
        assert(others@.take(others.len() as int) =~= others@);
    }
    hits
}

/// Whether every element of `s` is valid.
pub open spec fn all_valid<E: Collisioner>(s: Seq<E>) -> bool {
    forall|i: int| 0 <= i < s.len() ==> (#[trigger] s[i]).valid()
}

/// The snapshots of all elements of `s`.
pub open spec fn contacts<E: Collisioner>(s: Seq<E>) -> Seq<Contact> {
    s.map_values(|e: E| contact_of(e))
}

/// All elements of `s` with their per-frame flags reset.
pub open spec fn armed_all<E: Collisioner>(s: Seq<E>) -> Seq<E> {
    s.map_values(|e: E| e.armed())
}

/// All elements of `s` after `deltatime` milliseconds of their own motion.
pub open spec fn advanced_all<E: Collisioner>(s: Seq<E>, deltatime: u32) -> Seq<E> {
    s.map_values(|e: E| e.advanced(deltatime))
}

/// All elements of `s` after each was held against `scene`, where the
/// element at index `i` has its own snapshot at index `first + i`.
pub open spec fn resolved_all<E: Collisioner>(
    s: Seq<E>,
    scene: Seq<Contact>,
    first: Option<usize>,
) -> Seq<E> {
    Seq::new(
        s.len(),
        |i: int|
            resolved(
                s[i],
                scene,
                match first {
                    Some(f) => Some((f + i) as usize),
                    None => None,
                },
            ),
    )
}

/// Appends the snapshots of all elements of `v` to `scene`.
pub fn contacts_of<E: Collisioner>(v: &Vec<E>, scene: &mut Vec<Contact>)
    ensures
        final(scene)@ == old(scene)@ + contacts(v@),
{
    let mut i: usize = 0;
    while i < v.len()
        invariant
            i <= v.len(),
            scene@ == old(scene)@ + contacts(v@.take(i as int)),
        decreases v.len() - i,
    {
        let c = Contact { kind: v[i].get_type(), rect: v[i].get_collision_rect(), enter: false };
        scene.push(c);
        i += 1;
    }
}

/// Holds every element of `v` against `scene` and lets it react to every
/// collision. The element at index `i` has its own snapshot at index
/// `first + i` of `scene`, if `first` is given.
pub fn resolve_all<E: Collisioner>(v: &mut Vec<E>, scene: &Vec<Contact>, first: Option<usize>)
    requires
        all_valid(old(v)@),
        first matches Some(f) ==> f + old(v)@.len() <= usize::MAX,
    ensures
        final(v)@ == resolved_all(old(v)@, scene@, first),
        all_valid(final(v)@),
{
    let mut i: usize = 0;
    while i < v.len()
        invariant
            i <= v.len(),
            v@.len() == old(v)@.len(),
            first matches Some(f) ==> f + v@.len() <= usize::MAX,
            forall|k: int| 0 <= k < i ==> v@[k] == resolved_all(old(v)@, scene@, first)[k],
            forall|k: int| i <= k < v@.len() ==> v@[k] == old(v)@[k],
            all_valid(v@),
        decreases v.len() - i,
    {
        let skip = match first {
            Some(f) => Some(f + i),
            None => None,
        };
        let _ = resolve(&mut v[i], scene, skip);
        i += 1;
    }
}

/// Resets the per-frame flags of every element.
pub fn arm_all<E: Collisioner>(v: &mut Vec<E>)
    requires
        all_valid(old(v)@),
    ensures
        final(v)@ == armed_all(old(v)@),
        all_valid(final(v)@),
{
    let mut i: usize = 0;
    while i < v.len()
        invariant
            i <= v.len(),
            v@.len() == old(v)@.len(),
            forall|k: int| 0 <= k < i ==> v@[k] == (#[trigger] old(v)@[k]).armed(),
            forall|k: int| i <= k < v@.len() ==> v@[k] == old(v)@[k],
            all_valid(v@),
        decreases v.len() - i,
    {
        v[i].set_default_behavior();
        i += 1;
    }
}

/// Lets every element run its own motion for `deltatime` milliseconds.
pub fn advance_all<E: Collisioner>(v: &mut Vec<E>, deltatime: u32)
    requires
        all_valid(old(v)@),
    ensures
        final(v)@ == advanced_all(old(v)@, deltatime),
        all_valid(final(v)@),
{
    let mut i: usize = 0;
    while i < v.len()
        invariant
            i <= v.len(),
            v@.len() == old(v)@.len(),
            forall|k: int| 0 <= k < i ==> v@[k] == (#[trigger] old(v)@[k]).advanced(deltatime),
            forall|k: int| i <= k < v@.len() ==> v@[k] == old(v)@[k],
            all_valid(v@),
        decreases v.len() - i,
    {
        v[i].run_default_behavior(deltatime);
        i += 1;
    }
}

} // verus!
