//! The level: its tiles, and what stands on them.

use vstd::prelude::*;
use crate::units::{UNIT, CELL_W, CELL_H, column_of, in_world, row_of, grid_x, grid_y};
use crate::collision::{
    Collision_rect, Collisioner, Contact, TypeTag, all_valid, contacts, contacts_of,
};
use crate::objects::{Flag, Objects, Pipe, QuestionMarkBlock, POLE_QUADS};
use crate::game::Block;
use crate::background::Background;
use crate::render::Sprite;

verus! {

/// Number of grid lines that one tile spans.
pub const TILE_SPAN: i32 = 32;

/// Number of tiles within which the builders of the level place things.
pub const TILE_LIMIT: i32 = 1000;

/// Number of stones in each of the two rows of the underground floor.
pub const UNDERGROUND_ROW: usize = 16;

/// Number of bricks of the underground wall.
pub const UNDERGROUND_WALL: usize = 11;

/// Half the height of a backdrop.
pub const BACKDROP_HALF_HEIGHT: i64 = 520_000;

/// The colour behind everything.
#[derive(Clone, Copy, Debug, PartialEq, Eq, Structural)]
pub enum BgColor {
    /// The sky of the surface.
    Blue,
    /// The dark of the underground.
    Black,
}

/// The room below the surface: a floor, a wall on the left, and the side
/// pipe that leads back up.
pub struct TileUnderground {
    pub floor: Vec<Block>,
    pub wall: Vec<Block>,
    pub pipe: Pipe,
    pub objects: Objects,
    pub delay: i32,
}

/// One screen of the surface: its backdrop, its floor, and what stands on it.
pub struct Tile {
    pub bg: Background,
    pub floor: Vec<Block>,
    pub objects: Objects,
    /// Where the backdrop of the next tile goes.
    pub move_by: i64,
    /// Which backdrop the next tile shows.
    pub bg_index: u32,
    /// The grid line of the last floor column.
    pub last_drawpos: i32,
}

/// The whole level.
pub struct World {
    pub tiles: Vec<Tile>,
    pub tiles_underground: Vec<TileUnderground>,
    pub bg_color: BgColor,
}

/// A floor stone of the surface at the grid lines `(i, j)`.
pub open spec fn floor_stone(i: int, j: int) -> Block {
    Block::created(
        column_of(i) as i64,
        row_of(j) as i64,
        CELL_H,
        CELL_W,
        false,
        Sprite::Stone,
        TypeTag::Block,
        TypeTag::Block,
    )
}

/// Number of floor columns of a tile whose first column is the grid line
/// `last_pos` and whose last grid line is `TILE_SPAN * add`.
pub open spec fn columns(last_pos: int, add: int) -> int {
    if last_pos > TILE_SPAN * add {
        0
    } else {
        (TILE_SPAN * add - last_pos) / 2 + 1
    }
}

/// Number of holes that are used up before the floor position `k`. The
/// positions are counted from 1, the lower row first; the holes are taken in
/// the order of the list, each by the first position that equals it.
pub open spec fn matched(holes: Seq<i32>, k: int) -> int
    decreases k,
{
    if k <= 1 {
        0
    } else {
        let m = matched(holes, k - 1);
        if 0 <= m < holes.len() && holes[m] == k - 1 {
            m + 1
        } else {
            m
        }
    }
}

/// Whether the floor position `k` is a hole.
pub open spec fn hole_at(holes: Seq<i32>, k: int) -> bool {
    let m = matched(holes, k);
    0 <= m < holes.len() && holes[m] == k
}

/// The floor stones of the positions `1 ..= k`, in order, of a tile with `n`
/// columns from the grid line `last_pos` on.
pub open spec fn floor_upto(last_pos: int, n: int, holes: Seq<i32>, k: int) -> Seq<Block>
    decreases k,
{
    if k <= 0 {
        Seq::empty()
    } else {
        let rest = floor_upto(last_pos, n, holes, k - 1);
        if hole_at(holes, k) {
            rest
        } else if k <= n {
            rest.push(floor_stone(last_pos + 2 * (k - 1), 1))
        } else {
            rest.push(floor_stone(last_pos + 2 * (k - 1 - n), 3))
        }
    }
}

proof fn lemma_matched_bounds(holes: Seq<i32>, k: int)
    ensures
        0 <= matched(holes, k) <= holes.len(),
        k >= 1 ==> matched(holes, k) <= k - 1,
    decreases k,
{
    if k > 1 {
        lemma_matched_bounds(holes, k - 1);
    }
}

impl Tile {
    /// The floor and the objects of the tile are valid.
    pub open spec fn valid(self) -> bool {
        &&& all_valid(self.floor@)
        &&& self.objects.valid()
    }

    /// Whether the floor columns of a tile lie inside the world box: the
    /// first, the grid line `last_pos`, and the last.
    pub open spec fn floor_fits(last_pos: int, add: int) -> bool {
        columns(last_pos, add) > 0 ==> in_world(column_of(last_pos)) && in_world(
            column_of(last_pos + 2 * (columns(last_pos, add) - 1)),
        )
    }

    /// Lays one row of the floor: the columns `0 .. n` from the grid line
    /// `last_pos` on, in the row `j`, as the positions `first + 1 ..= first
    /// + n`.
    fn lay_row(
        floor: &mut Vec<Block>,
        last_pos: i32,
        n: i32,
        j: i32,
        first: i32,
        floor_hole: &Vec<i32>,
        counter: &mut usize,
        Ghost(fits): Ghost<bool>,
    )
        requires
            0 <= n,
            2 * n < i32::MAX,
            n == 0 || last_pos + 2 * (n - 1) <= i32::MAX,
            first == 0 && j == 1 || first == n && j == 3,
            old(floor)@ == floor_upto(last_pos as int, n as int, floor_hole@, first as int),
            *old(counter) == matched(floor_hole@, first + 1),
            fits ==> all_valid(old(floor)@),
            fits && n > 0 ==> in_world(column_of(last_pos as int)) && in_world(
                column_of(last_pos + 2 * (n - 1)),
            ),
        ensures
            final(floor)@ == floor_upto(last_pos as int, n as int, floor_hole@, first + n),
            *final(counter) == matched(floor_hole@, first + n + 1),
            fits ==> all_valid(final(floor)@),
    {
        let mut c: i32 = 0;
        while c < n
            invariant
                0 <= c <= n,
                2 * n < i32::MAX,
                n == 0 || last_pos + 2 * (n - 1) <= i32::MAX,
                first == 0 && j == 1 || first == n && j == 3,
                floor@ == floor_upto(last_pos as int, n as int, floor_hole@, first + c),
                *counter == matched(floor_hole@, first + c + 1),
                fits ==> all_valid(floor@),
                fits && n > 0 ==> in_world(column_of(last_pos as int)) && in_world(
                    column_of(last_pos + 2 * (n - 1)),
                ),
            decreases n - c,
        {
            let block_index: i32 = first + c + 1;
            proof {
                lemma_matched_bounds(floor_hole@, block_index as int);
            }
            if floor_hole.len() != 0 && floor_hole.len() != *counter && floor_hole[*counter]
                == block_index {
                *counter += 1;
            } else {
                let stone = Block::create(
                    grid_x(last_pos + 2 * c),
                    grid_y(j),
                    CELL_H,
                    CELL_W,
                    false,
                    Sprite::Stone,
                    TypeTag::Block,
                    TypeTag::Block,
                );
                floor.push(stone);
            }
            c += 1;
        }
    }

    /// A tile of the surface. Its floor runs in two rows from the grid line
    /// `last_pos` to the grid line `TILE_SPAN * add`, with one stone on
    /// every other grid line but for the holes, which `floor_hole` lists by
    /// position. The backdrop lies at `move_by` and shows the image
    /// `bg_index`; the tile remembers where the next one goes on. The last
    /// grid line and the count of the floor positions have to fit an `i32`;
    /// the tile is valid where its floor lies inside the world box.
    pub fn create(
        last_pos: i32,
        add: i32,
        bg_index: u32,
        move_by: i64,
        floor_hole: Vec<i32>,
    ) -> (t: Tile)
        requires
            i32::MIN <= TILE_SPAN * add <= i32::MAX,
            2 * columns(last_pos as int, add as int) < i32::MAX,
            bg_index < u32::MAX,
            move_by + 2 * UNIT <= i64::MAX,
        ensures
            t.bg == (Background {
                x: move_by,
                y: row_of(13) as i64,
                h: BACKDROP_HALF_HEIGHT,
                w: UNIT,
                which_bg: Background::image_of(bg_index),
            }),
            t.floor@ == floor_upto(
                last_pos as int,
                columns(last_pos as int, add as int),
                floor_hole@,
                2 * columns(last_pos as int, add as int),
            ),
            t.objects.valid(),
            t.objects.pipes@.len() == 0,
            t.objects.flag@.len() == 0,
            t.objects.castle@.len() == 0,
            t.objects.coins@.len() == 0,
            t.objects.blocks@.len() == 0,
            t.objects.stones@.len() == 0,
            t.objects.question_mark_blocks@.len() == 0,
            t.move_by == move_by + 2 * UNIT,
            t.bg_index == if bg_index + 1 == 4 {
                1
            } else {
                bg_index + 1
            },
            t.last_drawpos == if columns(last_pos as int, add as int) == 0 {
                0
            } else {
                last_pos + 2 * (columns(last_pos as int, add as int) - 1)
            },
            Tile::floor_fits(last_pos as int, add as int) ==> t.valid(),
    {
        let bg = Background::init(move_by, grid_y(13), BACKDROP_HALF_HEIGHT, UNIT, bg_index);
        let mut floor: Vec<Block> = Vec::new();
        let n: i32 = if last_pos > TILE_SPAN * add {
            0
        } else {
            (TILE_SPAN * add - last_pos) / 2 + 1
        };
        let mut counter: usize = 0;
        let ghost fits = Tile::floor_fits(last_pos as int, add as int);
        Tile::lay_row(&mut floor, last_pos, n, 1, 0, &floor_hole, &mut counter, Ghost(fits));
        Tile::lay_row(&mut floor, last_pos, n, 3, n, &floor_hole, &mut counter, Ghost(fits));
        let last_drawpos = if n == 0 {
            0
        } else {
            last_pos + 2 * (n - 1)
        };
        let objects = Objects::init();
        let mut bg_index = bg_index + 1;
        if bg_index == 4 {
            bg_index = 1;
        }
        Tile { bg, floor, objects, move_by: move_by + 2 * UNIT, bg_index, last_drawpos }
    }
}

/// The floor stone `k` of the underground: two rows of `UNDERGROUND_ROW`
/// stones, the upper row first.
pub open spec fn underground_stone(k: int) -> Block {
    Block::created(
        column_of(1 + 2 * (k % UNDERGROUND_ROW as int)) as i64,
        row_of(
            if k < UNDERGROUND_ROW {
                -28
            } else {
                -30
            },
        ) as i64,
        CELL_H,
        CELL_W,
        false,
        Sprite::StoneUnderground,
        TypeTag::Block,
        TypeTag::Block,
    )
}

/// The brick `k` of the underground wall, counted from the bottom.
pub open spec fn underground_brick(k: int) -> Block {
    Block::created(
        column_of(1) as i64,
        row_of(-(26 - 2 * k)) as i64,
        CELL_H,
        CELL_W,
        false,
        Sprite::BrickUnderground,
        TypeTag::Block,
        TypeTag::Block,
    )
}

impl TileUnderground {
    /// The floor, the wall, the side pipe and the objects of the room are
    /// valid.
    pub open spec fn valid(self) -> bool {
        &&& all_valid(self.floor@)
        &&& all_valid(self.wall@)
        &&& self.pipe.valid()
        &&& self.objects.valid()
        &&& 0 <= self.delay <= 10
    }

    /// The empty underground room.
    pub fn create() -> (t: TileUnderground)
        ensures
            t.floor@ == Seq::new(2 * UNDERGROUND_ROW as nat, |k: int| underground_stone(k)),
            t.wall@ == Seq::new(UNDERGROUND_WALL as nat, |k: int| underground_brick(k)),
            t.pipe.is_side(column_of(27) as i64, row_of(-25) as i64, CELL_H, CELL_W, 9),
            t.objects.valid(),
            t.objects.pipes@.len() == 0,
            t.objects.flag@.len() == 0,
            t.objects.castle@.len() == 0,
            t.objects.coins@.len() == 0,
            t.objects.blocks@.len() == 0,
            t.objects.stones@.len() == 0,
            t.objects.question_mark_blocks@.len() == 0,
            t.delay == 0,
            t.valid(),
    {
        let mut floor: Vec<Block> = Vec::new();
        let mut k: usize = 0;
        while k < 2 * UNDERGROUND_ROW
            invariant
                k <= 2 * UNDERGROUND_ROW,
                floor@ == Seq::new(k as nat, |j: int| underground_stone(j)),
                all_valid(floor@),
            decreases 2 * UNDERGROUND_ROW - k,
        {
            let j: i32 = if k < UNDERGROUND_ROW {
                1
            } else {
                3
            };
            let i: i32 = 1 + 2 * ((k % UNDERGROUND_ROW) as i32);
            let stone = Block::create(
                grid_x(i),
                grid_y(-(27 + j)),
                CELL_H,
                CELL_W,
                false,
                Sprite::StoneUnderground,
                TypeTag::Block,
                TypeTag::Block,
            );
            floor.push(stone);
            k += 1;
        }
        let mut wall: Vec<Block> = Vec::new();
        let mut k: usize = 0;
        while k < UNDERGROUND_WALL
            invariant
                k <= UNDERGROUND_WALL,
                wall@ == Seq::new(k as nat, |j: int| underground_brick(j)),
                all_valid(wall@),
            decreases UNDERGROUND_WALL - k,
        {
            let i: i32 = 26 - 2 * (k as i32);
            let brick = Block::create(
                grid_x(1),
                grid_y(-i),
                CELL_H,
                CELL_W,
                false,
                Sprite::BrickUnderground,
                TypeTag::Block,
                TypeTag::Block,
            );
            wall.push(brick);
            k += 1;
        }
        let pipe = Pipe::create_sidepipe(grid_x(27), grid_y(-25), CELL_H, CELL_W, 9);
        let objects = Objects::init();
        TileUnderground { floor, wall, pipe, objects, delay: 0 }
    }
}

/// A brick of the surface at the grid lines `(c, r)`, with or without a
/// coin in it.
pub open spec fn brick(c: int, r: int, coin: bool) -> Block {
    Objects::brick_of(column_of(c) as i64, row_of(r) as i64, CELL_H, CELL_W, coin, Sprite::Brick)
}

/// A brick of the underground at the grid lines `(c, r)`.
pub open spec fn dark_brick(c: int, r: int) -> Block {
    Objects::brick_of(
        column_of(c) as i64,
        row_of(r) as i64,
        CELL_H,
        CELL_W,
        false,
        Sprite::BrickUnderground,
    )
}

/// A full mystery block at the grid lines `(c, r)`.
pub open spec fn question(c: int, r: int, holds: TypeTag) -> QuestionMarkBlock {
    QuestionMarkBlock::created(column_of(c) as i64, row_of(r) as i64, CELL_H, CELL_W, true, holds)
}

/// A stair stone at the grid lines `(c, r)`.
pub open spec fn stone(c: int, r: int) -> Block {
    Objects::stone_of(column_of(c) as i64, row_of(r) as i64, CELL_H, CELL_W)
}

/// A coin at the grid lines `(c, r)`.
pub open spec fn coin(c: int, r: int) -> Block {
    Objects::coin_of(column_of(c) as i64, row_of(r) as i64)
}

/// `count` plain bricks in the row `r`, on every other grid line from
/// `first` on.
pub open spec fn bricks_row_of(first: int, count: int, r: int) -> Seq<Block> {
    Seq::new(count as nat, |i: int| brick(first + 2 * i, r, false))
}

/// `count` underground bricks in the row `r`, on every other grid line from
/// `first` on.
pub open spec fn dark_row_of(first: int, count: int, r: int) -> Seq<Block> {
    Seq::new(count as nat, |i: int| dark_brick(first + 2 * i, r))
}

/// `count` coins in the row `r`, on every other grid line from `first` on.
pub open spec fn coins_row_of(first: int, count: int, r: int) -> Seq<Block> {
    Seq::new(count as nat, |i: int| coin(first + 2 * i, r))
}

/// A column of stones on the grid line `c`, from the ground up to `top`
/// grid lines above it; no stone for a negative `top`.
pub open spec fn stone_column_of(c: int, top: int) -> Seq<Block> {
    if top < 0 {
        Seq::empty()
    } else {
        Seq::new((top / 2 + 1) as nat, |i: int| stone(c, 5 + 2 * i))
    }
}

/// The first `k` columns of a staircase: columns of stones on every other
/// grid line from `base` on, to the left if `left` and else to the right;
/// the column at `base` is `top` grid lines high, and each further one is
/// one stone lower.
pub open spec fn stairs_of(base: int, left: bool, top: int, k: int) -> Seq<Block>
    decreases k,
{
    if k <= 0 {
        Seq::empty()
    } else {
        let i = 2 * (k - 1);
        stairs_of(base, left, top, k - 1) + stone_column_of(
            if left {
                base - i
            } else {
                base + i
            },
            top - i,
        )
    }
}

/// Adds `count` plain bricks in the row `j`, on every other grid line from
/// `first` on.
fn bricks_row(objects: &mut Objects, first: i32, count: i32, j: i32)
    requires
        old(objects).valid(),
        0 <= first <= TILE_SPAN * TILE_LIMIT,
        0 <= count <= TILE_SPAN,
        -TILE_SPAN <= j <= TILE_SPAN,
    ensures
        final(objects).valid(),
        final(objects).blocks@ == old(objects).blocks@ + bricks_row_of(
            first as int,
            count as int,
            j as int,
        ),
        final(objects).pipes == old(objects).pipes,
        final(objects).flag == old(objects).flag,
        final(objects).castle == old(objects).castle,
        final(objects).coins == old(objects).coins,
        final(objects).stones == old(objects).stones,
        final(objects).question_mark_blocks == old(objects).question_mark_blocks,
{
    let mut i: i32 = 0;
    while i < count
        invariant
            0 <= i <= count,
            count <= TILE_SPAN,
            0 <= first <= TILE_SPAN * TILE_LIMIT,
            -TILE_SPAN <= j <= TILE_SPAN,
            objects.valid(),
            objects.blocks@ == old(objects).blocks@ + bricks_row_of(
                first as int,
                i as int,
                j as int,
            ),
            objects.pipes == old(objects).pipes,
            objects.flag == old(objects).flag,
            objects.castle == old(objects).castle,
            objects.coins == old(objects).coins,
            objects.stones == old(objects).stones,
            objects.question_mark_blocks == old(objects).question_mark_blocks,
        decreases count - i,
    {
        objects.create_block(
            grid_x(first + 2 * i),
            grid_y(j),
            CELL_H,
            CELL_W,
            false,
            Sprite::Brick,
        );
        i += 1;
    }
}

/// Adds `count` underground bricks in the row `j`, on every other grid line
/// from `first` on.
fn dark_row(objects: &mut Objects, first: i32, count: i32, j: i32)
    requires
        old(objects).valid(),
        0 <= first <= TILE_SPAN,
        0 <= count <= TILE_SPAN,
        -TILE_SPAN <= j <= TILE_SPAN,
    ensures
        final(objects).valid(),
        final(objects).blocks@ == old(objects).blocks@ + dark_row_of(
            first as int,
            count as int,
            j as int,
        ),
        final(objects).pipes == old(objects).pipes,
        final(objects).flag == old(objects).flag,
        final(objects).castle == old(objects).castle,
        final(objects).coins == old(objects).coins,
        final(objects).stones == old(objects).stones,
        final(objects).question_mark_blocks == old(objects).question_mark_blocks,
{
    let mut i: i32 = 0;
    while i < count
        invariant
            0 <= i <= count,
            count <= TILE_SPAN,
            0 <= first <= TILE_SPAN,
            -TILE_SPAN <= j <= TILE_SPAN,
            objects.valid(),
            objects.blocks@ == old(objects).blocks@ + dark_row_of(
                first as int,
                i as int,
                j as int,
            ),
            objects.pipes == old(objects).pipes,
            objects.flag == old(objects).flag,
            objects.castle == old(objects).castle,
            objects.coins == old(objects).coins,
            objects.stones == old(objects).stones,
            objects.question_mark_blocks == old(objects).question_mark_blocks,
        decreases count - i,
    {
        objects.create_block(
            grid_x(first + 2 * i),
            grid_y(j),
            CELL_H,
            CELL_W,
            false,
            Sprite::BrickUnderground,
        );
        i += 1;
    }
}

/// Adds `count` coins in the row `j`, on every other grid line from `first`
/// on.
fn coins_row(objects: &mut Objects, first: i32, count: i32, j: i32)
    requires
        old(objects).valid(),
        0 <= first <= TILE_SPAN,
        0 <= count <= TILE_SPAN,
        -TILE_SPAN <= j <= TILE_SPAN,
    ensures
        final(objects).valid(),
        final(objects).coins@ == old(objects).coins@ + coins_row_of(
            first as int,
            count as int,
            j as int,
        ),
        final(objects).pipes == old(objects).pipes,
        final(objects).flag == old(objects).flag,
        final(objects).castle == old(objects).castle,
        final(objects).blocks == old(objects).blocks,
        final(objects).stones == old(objects).stones,
        final(objects).question_mark_blocks == old(objects).question_mark_blocks,
{
    let mut i: i32 = 0;
    while i < count
        invariant
            0 <= i <= count,
            count <= TILE_SPAN,
            0 <= first <= TILE_SPAN,
            -TILE_SPAN <= j <= TILE_SPAN,
            objects.valid(),
            objects.coins@ == old(objects).coins@ + coins_row_of(
                first as int,
                i as int,
                j as int,
            ),
            objects.pipes == old(objects).pipes,
            objects.flag == old(objects).flag,
            objects.castle == old(objects).castle,
            objects.blocks == old(objects).blocks,
            objects.stones == old(objects).stones,
            objects.question_mark_blocks == old(objects).question_mark_blocks,
        decreases count - i,
    {
        objects.create_coin(grid_x(first + 2 * i), grid_y(j));
        i += 1;
    }
}

/// Adds a column of stones on the grid line `col`, from the ground up to
/// `top` grid lines above it; no stone for a negative `top`.
fn stone_column(objects: &mut Objects, col: i32, top: i32)
    requires
        old(objects).valid(),
        0 <= col <= TILE_SPAN * TILE_LIMIT,
        -TILE_SPAN <= top <= TILE_SPAN,
    ensures
        final(objects).valid(),
        final(objects).stones@ == old(objects).stones@ + stone_column_of(col as int, top as int),
        final(objects).pipes == old(objects).pipes,
        final(objects).flag == old(objects).flag,
        final(objects).castle == old(objects).castle,
        final(objects).coins == old(objects).coins,
        final(objects).blocks == old(objects).blocks,
        final(objects).question_mark_blocks == old(objects).question_mark_blocks,
{
    if top < 0 {
        return;
    }
    let count: i32 = top / 2 + 1;
    let mut i: i32 = 0;
    while i < count
        invariant
            0 <= i <= count,
            count == top / 2 + 1,
            0 <= top <= TILE_SPAN,
            0 <= col <= TILE_SPAN * TILE_LIMIT,
            objects.valid(),
            objects.stones@ == old(objects).stones@ + Seq::new(
                i as nat,
                |n: int| stone(col as int, 5 + 2 * n),
            ),
            objects.pipes == old(objects).pipes,
            objects.flag == old(objects).flag,
            objects.castle == old(objects).castle,
            objects.coins == old(objects).coins,
            objects.blocks == old(objects).blocks,
            objects.question_mark_blocks == old(objects).question_mark_blocks,
        decreases count - i,
    {
        objects.create_stone(grid_x(col), grid_y(5 + 2 * i), CELL_H, CELL_W);
        i += 1;
    }
}

/// Adds a staircase: columns of stones on every other grid line from `base`
/// as far as `reach` grid lines away, to the left if `left` and else to the
/// right; the column at `base` is `top` grid lines high, and each further
/// one is one stone lower.
fn stairs(objects: &mut Objects, base: i32, left: bool, reach: i32, top: i32)
    requires
        old(objects).valid(),
        TILE_SPAN <= base <= TILE_SPAN * TILE_LIMIT - TILE_SPAN,
        0 <= reach <= TILE_SPAN,
        0 <= top <= TILE_SPAN,
    ensures
        final(objects).valid(),
        final(objects).stones@ == old(objects).stones@ + stairs_of(
            base as int,
            left,
            top as int,
            reach / 2 + 1,
        ),
        final(objects).pipes == old(objects).pipes,
        final(objects).flag == old(objects).flag,
        final(objects).castle == old(objects).castle,
        final(objects).coins == old(objects).coins,
        final(objects).blocks == old(objects).blocks,
        final(objects).question_mark_blocks == old(objects).question_mark_blocks,
{
    let count: i32 = reach / 2 + 1;
    let mut k: i32 = 0;
    while k < count
        invariant
            0 <= k <= count,
            count == reach / 2 + 1,
            0 <= reach <= TILE_SPAN,
            0 <= top <= TILE_SPAN,
            TILE_SPAN <= base <= TILE_SPAN * TILE_LIMIT - TILE_SPAN,
            objects.valid(),
            objects.stones@ == old(objects).stones@ + stairs_of(
                base as int,
                left,
                top as int,
                k as int,
            ),
            objects.pipes == old(objects).pipes,
            objects.flag == old(objects).flag,
            objects.castle == old(objects).castle,
            objects.coins == old(objects).coins,
            objects.blocks == old(objects).blocks,
            objects.question_mark_blocks == old(objects).question_mark_blocks,
        decreases count - k,
    {
        let i: i32 = 2 * k;
        let col = if left {
            base - i
        } else {
            base + i
        };
        stone_column(objects, col, top - i);
        k += 1;
    }
}

/// What a moving body meets of the first `k` quads of a pipe: one contact
/// for each quad that can be touched, in order.
pub open spec fn pipe_contacts(p: Pipe, k: int) -> Seq<Contact>
    decreases k,
{
    if k <= 0 {
        Seq::empty()
    } else {
        let rest = pipe_contacts(p, k - 1);
        if p.objects@[k - 1].collidable() {
            rest.push(
                Contact {
                    kind: TypeTag::Pipe,
                    rect: p.objects@[k - 1].rect(),
                    enter: p.is_entry(k - 1),
                },
            )
        } else {
            rest
        }
    }
}

/// What a moving body meets of the pipes `s`.
pub open spec fn pipes_contacts(s: Seq<Pipe>) -> Seq<Contact>
    decreases s.len(),
{
    if s.len() == 0 {
        Seq::empty()
    } else {
        pipes_contacts(s.drop_last()) + pipe_contacts(s.last(), s.last().objects@.len() as int)
    }
}

/// The rectangles at which the player touches one of the goals `s`.
pub open spec fn flags_rects(s: Seq<Flag>) -> Seq<Collision_rect>
    decreases s.len(),
{
    if s.len() == 0 {
        Seq::empty()
    } else {
        flags_rects(s.drop_last()) + s.last().touch_rects()
    }
}

/// The solid ground of a tile: its floor, its stones and its pipes.
pub open spec fn tile_solids(t: Tile) -> Seq<Contact> {
    contacts(t.floor@) + contacts(t.objects.stones@) + pipes_contacts(t.objects.pipes@)
}

/// The solid ground of an underground room: its floor, its wall, its side
/// pipe, and the stones and pipes that stand in it.
pub open spec fn room_solids(t: TileUnderground) -> Seq<Contact> {
    contacts(t.floor@) + contacts(t.wall@) + pipe_contacts(t.pipe, t.pipe.objects@.len() as int)
        + contacts(t.objects.stones@) + pipes_contacts(t.objects.pipes@)
}

/// The solid ground of the first `k` surface tiles.
pub open spec fn tiles_solids(s: Seq<Tile>, k: int) -> Seq<Contact>
    decreases k,
{
    if k <= 0 {
        Seq::empty()
    } else {
        tiles_solids(s, k - 1) + tile_solids(s[k - 1])
    }
}

/// The bricks of the first `k` surface tiles.
pub open spec fn tiles_bricks(s: Seq<Tile>, k: int) -> Seq<Block>
    decreases k,
{
    if k <= 0 {
        Seq::empty()
    } else {
        tiles_bricks(s, k - 1) + s[k - 1].objects.blocks@
    }
}

/// The mystery blocks of the first `k` surface tiles.
pub open spec fn tiles_questions(s: Seq<Tile>, k: int) -> Seq<QuestionMarkBlock>
    decreases k,
{
    if k <= 0 {
        Seq::empty()
    } else {
        tiles_questions(s, k - 1) + s[k - 1].objects.question_mark_blocks@
    }
}

/// The coins of the first `k` surface tiles.
pub open spec fn tiles_coins(s: Seq<Tile>, k: int) -> Seq<Block>
    decreases k,
{
    if k <= 0 {
        Seq::empty()
    } else {
        tiles_coins(s, k - 1) + s[k - 1].objects.coins@
    }
}

/// The rectangles of the goals of the first `k` surface tiles.
pub open spec fn tiles_flags(s: Seq<Tile>, k: int) -> Seq<Collision_rect>
    decreases k,
{
    if k <= 0 {
        Seq::empty()
    } else {
        tiles_flags(s, k - 1) + flags_rects(s[k - 1].objects.flag@)
    }
}

/// The solid ground of the first `k` underground rooms.
pub open spec fn rooms_solids(s: Seq<TileUnderground>, k: int) -> Seq<Contact>
    decreases k,
{
    if k <= 0 {
        Seq::empty()
    } else {
        rooms_solids(s, k - 1) + room_solids(s[k - 1])
    }
}

/// The bricks of the first `k` underground rooms.
pub open spec fn rooms_bricks(s: Seq<TileUnderground>, k: int) -> Seq<Block>
    decreases k,
{
    if k <= 0 {
        Seq::empty()
    } else {
        rooms_bricks(s, k - 1) + s[k - 1].objects.blocks@
    }
}

/// The mystery blocks of the first `k` underground rooms.
pub open spec fn rooms_questions(s: Seq<TileUnderground>, k: int) -> Seq<QuestionMarkBlock>
    decreases k,
{
    if k <= 0 {
        Seq::empty()
    } else {
        rooms_questions(s, k - 1) + s[k - 1].objects.question_mark_blocks@
    }
}

/// The coins of the first `k` underground rooms.
pub open spec fn rooms_coins(s: Seq<TileUnderground>, k: int) -> Seq<Block>
    decreases k,
{
    if k <= 0 {
        Seq::empty()
    } else {
        rooms_coins(s, k - 1) + s[k - 1].objects.coins@
    }
}

/// The rectangles of the goals of the first `k` underground rooms.
pub open spec fn rooms_flags(s: Seq<TileUnderground>, k: int) -> Seq<Collision_rect>
    decreases k,
{
    if k <= 0 {
        Seq::empty()
    } else {
        rooms_flags(s, k - 1) + flags_rects(s[k - 1].objects.flag@)
    }
}

/// Appends the elements of `src` to `dst`.
pub fn append_all<T: Copy>(dst: &mut Vec<T>, src: &Vec<T>)
    ensures
        final(dst)@ == old(dst)@ + src@,
{
    let mut i: usize = 0;
    while i < src.len()
        invariant
            i <= src.len(),
            dst@ == old(dst)@ + src@.take(i as int),
        decreases src.len() - i,
    {
        dst.push(src[i]);
        i += 1;
    }
}

/// Appends what a moving body meets of a pipe.
fn add_pipe(p: &Pipe, scene: &mut Vec<Contact>)
    ensures
        final(scene)@ == old(scene)@ + pipe_contacts(*p, p.objects@.len() as int),
{
    let mut k: usize = 0;
    while k < p.objects.len()
        invariant
            k <= p.objects.len(),
            scene@ == old(scene)@ + pipe_contacts(*p, k as int),
        decreases p.objects.len() - k,
    {
        let obj = p.objects[k];
        if obj.w > 0 && obj.h > 0 {
            scene.push(
                Contact {
                    kind: TypeTag::Pipe,
                    rect: obj.get_collision_rect(),
                    enter: p.is_collision && p.with_enter && k < 2,
                },
            );
        }
        k += 1;
    }
}

/// Appends what a moving body meets of the pipes `v`.
fn add_pipes(v: &Vec<Pipe>, scene: &mut Vec<Contact>)
    ensures
        final(scene)@ == old(scene)@ + pipes_contacts(v@),
{
    let mut i: usize = 0;
    while i < v.len()
        invariant
            i <= v.len(),
            scene@ == old(scene)@ + pipes_contacts(v@.take(i as int)),
        decreases v.len() - i,
    {
        add_pipe(&v[i], scene);
        proof {
            assert(v@.take(i + 1).drop_last() =~= v@.take(i as int));
        }
        i += 1;
    }
    proof {
        assert(v@.take(v.len() as int) =~= v@);
    }
}

/// Appends the rectangles at which the player touches one of the goals `v`.
fn add_flags(v: &Vec<Flag>, rects: &mut Vec<Collision_rect>)
    requires
        forall|i: int| 0 <= i < v@.len() ==> (#[trigger] v@[i]).valid(),
    ensures
        final(rects)@ == old(rects)@ + flags_rects(v@),
{
    let mut i: usize = 0;
    while i < v.len()
        invariant
            i <= v.len(),
            forall|i: int| 0 <= i < v@.len() ==> (#[trigger] v@[i]).valid(),
            rects@ == old(rects)@ + flags_rects(v@.take(i as int)),
        decreases v.len() - i,
    {
        let flag = &v[i];
        let ghost before = rects@;
        rects.push(flag.stone.get_collision_rect());
        let mut k: usize = 0;
        while k < POLE_QUADS
            invariant
                k <= POLE_QUADS,
                flag.valid(),
                rects@ == before + seq![flag.stone.rect()] + Seq::new(
                    k as nat,
                    |j: int| flag.objects@[j].rect(),
                ),
            decreases POLE_QUADS - k,
        {
            rects.push(flag.objects[k].get_collision_rect());
            k += 1;
        }
        proof {
            assert(v@.take(i + 1).drop_last() =~= v@.take(i as int));
        }
        i += 1;
    }
    proof {
        assert(v@.take(v.len() as int) =~= v@);
    }
}

/// The holes in the floor of the tile `k` of the level, by position.
pub open spec fn level_holes(k: int) -> Seq<i32> {
    if k == 4 {
        seq![5i32, 6i32, 21i32, 22i32]
    } else if k == 5 {
        seq![7i32, 8i32, 9i32, 23i32, 24i32, 25i32]
    } else if k == 9 {
        seq![10i32, 11i32, 26i32, 27i32]
    } else {
        Seq::empty()
    }
}

/// The bricks of the tile `k` of the level.
pub open spec fn level_bricks(k: int) -> Seq<Block> {
    if k == 1 {
        seq![brick(41, 11, true), brick(45, 11, false), brick(49, 11, false)]
    } else if k == 4 {
        seq![brick(155, 11, false), brick(159, 11, false)]
    } else if k == 5 {
        (bricks_row_of(161, 8, 19) + bricks_row_of(183, 3, 19) + seq![brick(189, 11, true)]).update(
            11,
            Block { collision_num: 10, ..brick(189, 11, true) },
        )
    } else if k == 6 {
        (seq![brick(201, 11, false), brick(203, 11, true)]).update(
            1,
            Block { collision_name: TypeTag::Star, ..brick(203, 11, true) },
        )
    } else if k == 7 {
        seq![brick(237, 11, false)] + bricks_row_of(243, 3, 19)
    } else if k == 8 {
        seq![
            brick(257, 19, false),
            brick(263, 19, false),
            brick(259, 11, false),
            brick(261, 11, false),
        ]
    } else if k == 10 {
        seq![brick(337, 11, false), brick(339, 11, false), brick(343, 11, false)]
    } else {
        Seq::empty()
    }
}

/// The mystery blocks of the tile `k` of the level.
pub open spec fn level_questions(k: int) -> Seq<QuestionMarkBlock> {
    if k == 1 {
        seq![
            question(33, 11, TypeTag::Coin),
            question(43, 11, TypeTag::Mushroom),
            question(45, 19, TypeTag::Coin),
            question(47, 11, TypeTag::Coin),
        ]
    } else if k == 4 {
        seq![question(157, 11, TypeTag::Mushroom)]
    } else if k == 5 {
        seq![question(189, 19, TypeTag::Coin)]
    } else if k == 6 {
        seq![
            question(213, 11, TypeTag::Mushroom),
            question(219, 11, TypeTag::Coin),
            question(219, 19, TypeTag::Coin),
        ]
    } else if k == 7 {
        seq![question(225, 11, TypeTag::Coin)]
    } else if k == 8 {
        seq![question(259, 19, TypeTag::Coin), question(261, 19, TypeTag::Coin)]
    } else if k == 10 {
        seq![question(341, 11, TypeTag::Coin)]
    } else {
        Seq::empty()
    }
}

/// The stair stones of the tile `k` of the level.
pub open spec fn level_stones(k: int) -> Seq<Block> {
    if k == 8 {
        stairs_of(275, true, 6, 4) + stairs_of(281, false, 6, 4)
    } else if k == 9 {
        stone_column_of(305, 6) + stairs_of(303, true, 6, 4) + stairs_of(311, false, 6, 4)
    } else if k == 11 {
        stone_column_of(379, 14) + stairs_of(377, true, 14, 9)
    } else {
        Seq::empty()
    }
}

/// The pipes of the tile `k` of the level: the grid lines of the mouth, the
/// number of segments, and whether the player can enter.
pub open spec fn level_pipes(k: int) -> Seq<(int, int, usize, bool)> {
    if k == 1 {
        seq![(58int, 7int, 1usize, false)]
    } else if k == 2 {
        seq![(78int, 9int, 2usize, false), (94int, 11int, 3usize, false)]
    } else if k == 3 {
        seq![(116int, 11int, 3usize, true)]
    } else if k == 10 {
        seq![(328int, 7int, 1usize, false)]
    } else if k == 11 {
        seq![(360int, 7int, 1usize, false)]
    } else {
        Seq::empty()
    }
}

/// The goals of the tile `k` of the level, by the grid lines of the base
/// stone.
pub open spec fn level_flags(k: int) -> Seq<(int, int)> {
    if k == 12 {
        seq![(397int, 5int)]
    } else {
        Seq::empty()
    }
}

/// The castles of the tile `k` of the level.
pub open spec fn level_castles(k: int) -> Seq<Block> {
    if k == 12 {
        seq![Objects::castle_of(column_of(409) as i64, row_of(9) as i64, "small"@)]
    } else {
        Seq::empty()
    }
}

/// The pipes `s` are the upright pipes that `plan` lists.
pub open spec fn pipes_are(s: Seq<Pipe>, plan: Seq<(int, int, usize, bool)>) -> bool {
    &&& s.len() == plan.len()
    &&& forall|i: int|
        0 <= i < s.len() ==> (#[trigger] s[i]).is_upright(
            column_of(plan[i].0) as i64,
            row_of(plan[i].1) as i64,
            CELL_H,
            (2 * CELL_W) as i64,
            plan[i].2,
            true,
            plan[i].3,
        )
}

/// The goals `s` are the goals that `plan` lists.
pub open spec fn flags_are(s: Seq<Flag>, plan: Seq<(int, int)>) -> bool {
    &&& s.len() == plan.len()
    &&& forall|i: int|
        0 <= i < s.len() ==> (#[trigger] s[i]).valid() && s[i].x == column_of(plan[i].0)
            && s[i].y == row_of(plan[i].1)
}

/// The tile `t` is the tile `k` of the level, counted from 0: it spans the
/// grid lines from `TILE_SPAN * k + 1` on, shows the backdrops in turn, and
/// holds what the tables of the level list for it.
pub open spec fn is_tile(k: int, t: Tile) -> bool {
    &&& t.bg == (Background {
        x: (2 * UNIT * k) as i64,
        y: row_of(13) as i64,
        h: BACKDROP_HALF_HEIGHT,
        w: UNIT,
        which_bg: (k % 3 + 1) as u32,
    })
    &&& t.floor@ == floor_upto(TILE_SPAN * k + 1, 16, level_holes(k), 32)
    &&& t.objects.blocks@ == level_bricks(k)
    &&& t.objects.question_mark_blocks@ == level_questions(k)
    &&& t.objects.stones@ == level_stones(k)
    &&& t.objects.coins@ == Seq::<Block>::empty()
    &&& t.objects.castle@ == level_castles(k)
    &&& pipes_are(t.objects.pipes@, level_pipes(k))
    &&& flags_are(t.objects.flag@, level_flags(k))
    &&& t.move_by == 2 * UNIT * (k + 1)
    &&& t.bg_index == (k + 1) % 3 + 1
    &&& t.last_drawpos == TILE_SPAN * (k + 1) - 1
}

/// The room `t` is the underground room of the level: the empty room with
/// three rows of bricks and three rows of coins in it.
pub open spec fn is_room(t: TileUnderground) -> bool {
    &&& t.floor@ == Seq::new(2 * UNDERGROUND_ROW as nat, |k: int| underground_stone(k))
    &&& t.wall@ == Seq::new(UNDERGROUND_WALL as nat, |k: int| underground_brick(k))
    &&& t.pipe.is_side(column_of(27) as i64, row_of(-25) as i64, CELL_H, CELL_W, 9)
    &&& t.objects.blocks@ == dark_row_of(9, 7, -24) + dark_row_of(9, 7, -26) + dark_row_of(
        9,
        7,
        -6,
    )
    &&& t.objects.coins@ == coins_row_of(9, 7, -22) + coins_row_of(9, 7, -18) + coins_row_of(
        11,
        5,
        -14,
    )
    &&& t.objects.question_mark_blocks@ == Seq::<QuestionMarkBlock>::empty()
    &&& t.objects.stones@ == Seq::<Block>::empty()
    &&& t.objects.castle@ == Seq::<Block>::empty()
    &&& t.objects.pipes@.len() == 0
    &&& t.objects.flag@.len() == 0
    &&& t.delay == 0
}

/// Number of tiles of the surface.
pub const TILES: usize = 13;

/// Whether every tile of `s` is valid.
pub open spec fn tiles_valid(s: Seq<Tile>) -> bool {
    forall|i: int| 0 <= i < s.len() ==> (#[trigger] s[i]).valid()
}

/// Whether every underground room of `s` is valid.
pub open spec fn rooms_valid(s: Seq<TileUnderground>) -> bool {
    forall|i: int| 0 <= i < s.len() ==> (#[trigger] s[i]).valid()
}

impl World {
    /// Every tile and every room of the level is valid.
    pub open spec fn valid(self) -> bool {
        &&& tiles_valid(self.tiles@)
        &&& rooms_valid(self.tiles_underground@)
    }

    /// The solid ground of the level: that of the underground rooms, then
    /// that of the surface tiles.
    pub open spec fn all_solids(self) -> Seq<Contact> {
        rooms_solids(self.tiles_underground@, self.tiles_underground@.len() as int) + tiles_solids(
            self.tiles@,
            self.tiles@.len() as int,
        )
    }

    /// The bricks of the level.
    pub open spec fn all_bricks(self) -> Seq<Block> {
        rooms_bricks(self.tiles_underground@, self.tiles_underground@.len() as int) + tiles_bricks(
            self.tiles@,
            self.tiles@.len() as int,
        )
    }

    /// The mystery blocks of the level.
    pub open spec fn all_questions(self) -> Seq<QuestionMarkBlock> {
        rooms_questions(self.tiles_underground@, self.tiles_underground@.len() as int)
            + tiles_questions(self.tiles@, self.tiles@.len() as int)
    }

    /// The coins that lie in the level.
    pub open spec fn all_coins(self) -> Seq<Block> {
        rooms_coins(self.tiles_underground@, self.tiles_underground@.len() as int) + tiles_coins(
            self.tiles@,
            self.tiles@.len() as int,
        )
    }

    /// The rectangles at which the player touches a goal.
    pub open spec fn all_flags(self) -> Seq<Collision_rect> {
        rooms_flags(self.tiles_underground@, self.tiles_underground@.len() as int) + tiles_flags(
            self.tiles@,
            self.tiles@.len() as int,
        )
    }

    /// Collects the solid ground of the level.
    pub fn solids(&self) -> (r: Vec<Contact>)
        ensures
            r@ == self.all_solids(),
    {
        let mut r: Vec<Contact> = Vec::new();
        let mut i: usize = 0;
        while i < self.tiles_underground.len()
            invariant
                i <= self.tiles_underground.len(),
                r@ == rooms_solids(self.tiles_underground@, i as int),
            decreases self.tiles_underground.len() - i,
        {
            let room = &self.tiles_underground[i];
            contacts_of(&room.floor, &mut r);
            contacts_of(&room.wall, &mut r);
            add_pipe(&room.pipe, &mut r);
            contacts_of(&room.objects.stones, &mut r);
            add_pipes(&room.objects.pipes, &mut r);
            i += 1;
        }
        let ghost below = r@;
        let mut i: usize = 0;
        while i < self.tiles.len()
            invariant
                i <= self.tiles.len(),
                r@ == below + tiles_solids(self.tiles@, i as int),
            decreases self.tiles.len() - i,
        {
            let tile = &self.tiles[i];
            contacts_of(&tile.floor, &mut r);
            contacts_of(&tile.objects.stones, &mut r);
            add_pipes(&tile.objects.pipes, &mut r);
            i += 1;
        }
        r
    }

    /// Collects the bricks of the level.
    pub fn bricks(&self) -> (r: Vec<Block>)
        ensures
            r@ == self.all_bricks(),
            self.valid() ==> all_valid(r@),
    {
        let mut r: Vec<Block> = Vec::new();
        let mut i: usize = 0;
        while i < self.tiles_underground.len()
            invariant
                i <= self.tiles_underground.len(),
                self.valid() ==> all_valid(r@),
                r@ == rooms_bricks(self.tiles_underground@, i as int),
            decreases self.tiles_underground.len() - i,
        {
            append_all(&mut r, &self.tiles_underground[i].objects.blocks);
            i += 1;
        }
        let ghost below = r@;
        let mut i: usize = 0;
        while i < self.tiles.len()
            invariant
                i <= self.tiles.len(),
                self.valid() ==> all_valid(r@),
                r@ == below + tiles_bricks(self.tiles@, i as int),
            decreases self.tiles.len() - i,
        {
            append_all(&mut r, &self.tiles[i].objects.blocks);
            i += 1;
        }
        r
    }

    /// Collects the mystery blocks of the level.
    pub fn questions(&self) -> (r: Vec<QuestionMarkBlock>)
        ensures
            r@ == self.all_questions(),
            self.valid() ==> all_valid(r@),
    {
        let mut r: Vec<QuestionMarkBlock> = Vec::new();
        let mut i: usize = 0;
        while i < self.tiles_underground.len()
            invariant
                i <= self.tiles_underground.len(),
                self.valid() ==> all_valid(r@),
                r@ == rooms_questions(self.tiles_underground@, i as int),
            decreases self.tiles_underground.len() - i,
        {
            append_all(&mut r, &self.tiles_underground[i].objects.question_mark_blocks);
            i += 1;
        }
        let ghost below = r@;
        let mut i: usize = 0;
        while i < self.tiles.len()
            invariant
                i <= self.tiles.len(),
                self.valid() ==> all_valid(r@),
                r@ == below + tiles_questions(self.tiles@, i as int),
            decreases self.tiles.len() - i,
        {
            append_all(&mut r, &self.tiles[i].objects.question_mark_blocks);
            i += 1;
        }
        r
    }

    /// Collects the coins that lie in the level.
    pub fn coins(&self) -> (r: Vec<Block>)
        ensures
            r@ == self.all_coins(),
            self.valid() ==> all_valid(r@),
    {
        let mut r: Vec<Block> = Vec::new();
        let mut i: usize = 0;
        while i < self.tiles_underground.len()
            invariant
                i <= self.tiles_underground.len(),
                self.valid() ==> all_valid(r@),
                r@ == rooms_coins(self.tiles_underground@, i as int),
            decreases self.tiles_underground.len() - i,
        {
            append_all(&mut r, &self.tiles_underground[i].objects.coins);
            i += 1;
        }
        let ghost below = r@;
        let mut i: usize = 0;
        while i < self.tiles.len()
            invariant
                i <= self.tiles.len(),
                self.valid() ==> all_valid(r@),
                r@ == below + tiles_coins(self.tiles@, i as int),
            decreases self.tiles.len() - i,
        {
            append_all(&mut r, &self.tiles[i].objects.coins);
            i += 1;
        }
        r
    }

    /// Collects the rectangles at which the player touches a goal.
    pub fn flags(&self) -> (r: Vec<Collision_rect>)
        requires
            self.valid(),
        ensures
            r@ == self.all_flags(),
    {
        let mut r: Vec<Collision_rect> = Vec::new();
        let mut i: usize = 0;
        while i < self.tiles_underground.len()
            invariant
                i <= self.tiles_underground.len(),
                self.valid(),
                r@ == rooms_flags(self.tiles_underground@, i as int),
            decreases self.tiles_underground.len() - i,
        {
            add_flags(&self.tiles_underground[i].objects.flag, &mut r);
            i += 1;
        }
        let ghost below = r@;
        let mut i: usize = 0;
        while i < self.tiles.len()
            invariant
                i <= self.tiles.len(),
                self.valid(),
                r@ == below + tiles_flags(self.tiles@, i as int),
            decreases self.tiles.len() - i,
        {
            add_flags(&self.tiles[i].objects.flag, &mut r);
            i += 1;
        }
        r
    }

    /// The world is the level of the game: its one underground room and
    /// its `TILES` tiles of the surface, each as the tables of the level
    /// list it, under a blue sky.
    pub open spec fn is_level(self) -> bool {
        &&& self.tiles@.len() == TILES
        &&& forall|k: int| 0 <= k < TILES ==> is_tile(k, #[trigger] self.tiles@[k])
        &&& self.tiles_underground@.len() == 1
        &&& is_room(self.tiles_underground@[0])
        &&& self.bg_color == BgColor::Blue
    }

    /// The underground room with its bricks and coins.
    fn underground() -> (room: TileUnderground)
        ensures
            is_room(room),
            room.valid(),
    {
        let mut room = TileUnderground::create();
        dark_row(&mut room.objects, 9, 7, -24);
        dark_row(&mut room.objects, 9, 7, -26);
        dark_row(&mut room.objects, 9, 7, -6);
        coins_row(&mut room.objects, 9, 7, -22);
        coins_row(&mut room.objects, 9, 7, -18);
        coins_row(&mut room.objects, 11, 5, -14);
        proof {
            assert(room.objects.question_mark_blocks@ =~= Seq::<QuestionMarkBlock>::empty());
            assert(room.objects.stones@ =~= Seq::<Block>::empty());
            assert(room.objects.castle@ =~= Seq::<Block>::empty());
        }
        room
    }

    /// The first tile.
    fn first_tile() -> (tile: Tile)
        ensures
            is_tile(0, tile),
            tile.valid(),
    {
        let floor_hole: Vec<i32> = vec![];
        let tile = Tile::create(1, 1, 1, 0, floor_hole);
        proof {
            assert(tile.objects.blocks@ =~= level_bricks(0));
            assert(tile.objects.question_mark_blocks@ =~= level_questions(0));
            assert(tile.objects.stones@ =~= level_stones(0));
            assert(tile.objects.castle@ =~= level_castles(0));
            assert(tile.objects.coins@ =~= Seq::<Block>::empty());
        }
        tile
    }

    /// The second tile, built on from the first.
    fn second_tile(prev: &Tile) -> (tile: Tile)
        requires
            is_tile(0, *prev),
        ensures
            is_tile(1, tile),
            tile.valid(),
    {
        let floor_hole: Vec<i32> = vec![];
        let mut tile = Tile::create(
            prev.last_drawpos + 2,
            2,
            prev.bg_index,
            prev.move_by,
            floor_hole,
        );
        tile.objects.create_question_mark_block(
            grid_x(33),
            grid_y(11),
            CELL_H,
            CELL_W,
            true,
            TypeTag::Coin,
        );
        tile.objects.create_block(grid_x(41), grid_y(11), CELL_H, CELL_W, true, Sprite::Brick);
        tile.objects.create_question_mark_block(
            grid_x(43),
            grid_y(11),
            CELL_H,
            CELL_W,
            true,
            TypeTag::Mushroom,
        );
        tile.objects.create_block(grid_x(45), grid_y(11), CELL_H, CELL_W, false, Sprite::Brick);
        tile.objects.create_question_mark_block(
            grid_x(45),
            grid_y(19),
            CELL_H,
            CELL_W,
            true,
            TypeTag::Coin,
        );
        tile.objects.create_question_mark_block(
            grid_x(47),
            grid_y(11),
            CELL_H,
            CELL_W,
            true,
            TypeTag::Coin,
        );
        tile.objects.create_block(grid_x(49), grid_y(11), CELL_H, CELL_W, false, Sprite::Brick);
        tile.objects.create_pipe(grid_x(58), grid_y(7), CELL_H, 2 * CELL_W, 1, true, false);
        proof {
            assert(tile.objects.blocks@ =~= level_bricks(1));
            assert(tile.objects.question_mark_blocks@ =~= level_questions(1));
            assert(tile.objects.stones@ =~= level_stones(1));
            assert(tile.objects.castle@ =~= level_castles(1));
            assert(tile.objects.coins@ =~= Seq::<Block>::empty());
        }
        tile
    }

    /// The third tile, built on from the second.
    fn third_tile(prev: &Tile) -> (tile: Tile)
        requires
            is_tile(1, *prev),
        ensures
            is_tile(2, tile),
            tile.valid(),
    {
        let floor_hole: Vec<i32> = vec![];
        let mut tile = Tile::create(
            prev.last_drawpos + 2,
            3,
            prev.bg_index,
            prev.move_by,
            floor_hole,
        );
        tile.objects.create_pipe(grid_x(78), grid_y(9), CELL_H, 2 * CELL_W, 2, true, false);
        tile.objects.create_pipe(grid_x(94), grid_y(11), CELL_H, 2 * CELL_W, 3, true, false);
        proof {
            assert(tile.objects.blocks@ =~= level_bricks(2));
            assert(tile.objects.question_mark_blocks@ =~= level_questions(2));
            assert(tile.objects.stones@ =~= level_stones(2));
            assert(tile.objects.castle@ =~= level_castles(2));
            assert(tile.objects.coins@ =~= Seq::<Block>::empty());
        }
        tile
    }

    /// The fourth tile, built on from the third.
    fn fourth_tile(prev: &Tile) -> (tile: Tile)
        requires
            is_tile(2, *prev),
        ensures
            is_tile(3, tile),
            tile.valid(),
    {
        let floor_hole: Vec<i32> = vec![];
        let mut tile = Tile::create(
            prev.last_drawpos + 2,
            4,
            prev.bg_index,
            prev.move_by,
            floor_hole,
        );
        tile.objects.create_pipe(grid_x(116), grid_y(11), CELL_H, 2 * CELL_W, 3, true, true);
        proof {
            assert(tile.objects.blocks@ =~= level_bricks(3));
            assert(tile.objects.question_mark_blocks@ =~= level_questions(3));
            assert(tile.objects.stones@ =~= level_stones(3));
            assert(tile.objects.castle@ =~= level_castles(3));
            assert(tile.objects.coins@ =~= Seq::<Block>::empty());
        }
        tile
    }

    /// The fifth tile, built on from the fourth.
    fn fifth_tile(prev: &Tile) -> (tile: Tile)
        requires
            is_tile(3, *prev),
        ensures
            is_tile(4, tile),
            tile.valid(),
    {
        let floor_hole: Vec<i32> = vec![5, 6, 21, 22];
        let mut tile = Tile::create(
            prev.last_drawpos + 2,
            5,
            prev.bg_index,
            prev.move_by,
            floor_hole,
        );
        tile.objects.create_block(grid_x(155), grid_y(11), CELL_H, CELL_W, false, Sprite::Brick);
        tile.objects.create_question_mark_block(
            grid_x(157),
            grid_y(11),
            CELL_H,
            CELL_W,
            true,
            TypeTag::Mushroom,
        );
        tile.objects.create_block(grid_x(159), grid_y(11), CELL_H, CELL_W, false, Sprite::Brick);
        proof {
            assert(tile.objects.blocks@ =~= level_bricks(4));
            assert(tile.objects.question_mark_blocks@ =~= level_questions(4));
            assert(tile.objects.stones@ =~= level_stones(4));
            assert(tile.objects.castle@ =~= level_castles(4));
            assert(tile.objects.coins@ =~= Seq::<Block>::empty());
        }
        tile
    }

    /// The sixth tile, built on from the fifth.
    fn sixth_tile(prev: &Tile) -> (tile: Tile)
        requires
            is_tile(4, *prev),
        ensures
            is_tile(5, tile),
            tile.valid(),
    {
        let floor_hole: Vec<i32> = vec![7, 8, 9, 23, 24, 25];
        let mut tile = Tile::create(
            prev.last_drawpos + 2,
            6,
            prev.bg_index,
            prev.move_by,
            floor_hole,
        );
        bricks_row(&mut tile.objects, 161, 8, 19);
        bricks_row(&mut tile.objects, 183, 3, 19);
        tile.objects.create_question_mark_block(
            grid_x(189),
            grid_y(19),
            CELL_H,
            CELL_W,
            true,
            TypeTag::Coin,
        );
        tile.objects.create_block(grid_x(189), grid_y(11), CELL_H, CELL_W, true, Sprite::Brick);
        tile.objects.blocks[11].collision_num = 10;
        proof {
            assert(tile.objects.blocks@ =~= level_bricks(5));
            assert(tile.objects.question_mark_blocks@ =~= level_questions(5));
            assert(tile.objects.stones@ =~= level_stones(5));
            assert(tile.objects.castle@ =~= level_castles(5));
            assert(tile.objects.coins@ =~= Seq::<Block>::empty());
        }
        tile
    }

    /// The seventh tile, built on from the sixth.
    fn seventh_tile(prev: &Tile) -> (tile: Tile)
        requires
            is_tile(5, *prev),
        ensures
            is_tile(6, tile),
            tile.valid(),
    {
        let floor_hole: Vec<i32> = vec![];
        let mut tile = Tile::create(
            prev.last_drawpos + 2,
            7,
            prev.bg_index,
            prev.move_by,
            floor_hole,
        );
        tile.objects.create_block(grid_x(201), grid_y(11), CELL_H, CELL_W, false, Sprite::Brick);
        tile.objects.create_block(grid_x(203), grid_y(11), CELL_H, CELL_W, true, Sprite::Brick);
        tile.objects.blocks[1].collision_name = TypeTag::Star;
        tile.objects.create_question_mark_block(
            grid_x(213),
            grid_y(11),
            CELL_H,
            CELL_W,
            true,
            TypeTag::Mushroom,
        );
        tile.objects.create_question_mark_block(
            grid_x(219),
            grid_y(11),
            CELL_H,
            CELL_W,
            true,
            TypeTag::Coin,
        );
        tile.objects.create_question_mark_block(
            grid_x(219),
            grid_y(19),
            CELL_H,
            CELL_W,
            true,
            TypeTag::Coin,
        );
        proof {
            assert(tile.objects.blocks@ =~= level_bricks(6));
            assert(tile.objects.question_mark_blocks@ =~= level_questions(6));
            assert(tile.objects.stones@ =~= level_stones(6));
            assert(tile.objects.castle@ =~= level_castles(6));
            assert(tile.objects.coins@ =~= Seq::<Block>::empty());
        }
        tile
    }

    /// The eighth tile, built on from the seventh.
    fn eighth_tile(prev: &Tile) -> (tile: Tile)
        requires
            is_tile(6, *prev),
        ensures
            is_tile(7, tile),
            tile.valid(),
    {
        let floor_hole: Vec<i32> = vec![];
        let mut tile = Tile::create(
            prev.last_drawpos + 2,
            8,
            prev.bg_index,
            prev.move_by,
            floor_hole,
        );
        tile.objects.create_question_mark_block(
            grid_x(225),
            grid_y(11),
            CELL_H,
            CELL_W,
            true,
            TypeTag::Coin,
        );
        tile.objects.create_block(grid_x(237), grid_y(11), CELL_H, CELL_W, false, Sprite::Brick);
        bricks_row(&mut tile.objects, 243, 3, 19);
        proof {
            assert(tile.objects.blocks@ =~= level_bricks(7));
            assert(tile.objects.question_mark_blocks@ =~= level_questions(7));
            assert(tile.objects.stones@ =~= level_stones(7));
            assert(tile.objects.castle@ =~= level_castles(7));
            assert(tile.objects.coins@ =~= Seq::<Block>::empty());
        }
        tile
    }

    /// The ninth tile, built on from the eighth.
    fn ninth_tile(prev: &Tile) -> (tile: Tile)
        requires
            is_tile(7, *prev),
        ensures
            is_tile(8, tile),
            tile.valid(),
    {
        let floor_hole: Vec<i32> = vec![];
        let mut tile = Tile::create(
            prev.last_drawpos + 2,
            9,
            prev.bg_index,
            prev.move_by,
            floor_hole,
        );
        tile.objects.create_block(grid_x(257), grid_y(19), CELL_H, CELL_W, false, Sprite::Brick);
        tile.objects.create_question_mark_block(
            grid_x(259),
            grid_y(19),
            CELL_H,
            CELL_W,
            true,
            TypeTag::Coin,
        );
        tile.objects.create_question_mark_block(
            grid_x(261),
            grid_y(19),
            CELL_H,
            CELL_W,
            true,
            TypeTag::Coin,
        );
        tile.objects.create_block(grid_x(263), grid_y(19), CELL_H, CELL_W, false, Sprite::Brick);
        tile.objects.create_block(grid_x(259), grid_y(11), CELL_H, CELL_W, false, Sprite::Brick);
        tile.objects.create_block(grid_x(261), grid_y(11), CELL_H, CELL_W, false, Sprite::Brick);
        stairs(&mut tile.objects, 275, true, 6, 6);
        stairs(&mut tile.objects, 281, false, 6, 6);
        proof {
            assert(tile.objects.blocks@ =~= level_bricks(8));
            assert(tile.objects.question_mark_blocks@ =~= level_questions(8));
            assert(tile.objects.castle@ =~= level_castles(8));
            assert(tile.objects.coins@ =~= Seq::<Block>::empty());
        }
        tile
    }

    /// The tenth tile, built on from the ninth.
    fn tenth_tile(prev: &Tile) -> (tile: Tile)
        requires
            is_tile(8, *prev),
        ensures
            is_tile(9, tile),
            tile.valid(),
    {
        let floor_hole: Vec<i32> = vec![10, 11, 26, 27];
        let mut tile = Tile::create(
            prev.last_drawpos + 2,
            10,
            prev.bg_index,
            prev.move_by,
            floor_hole,
        );
        stone_column(&mut tile.objects, 305, 6);
        stairs(&mut tile.objects, 303, true, 6, 6);
        stairs(&mut tile.objects, 311, false, 6, 6);
        proof {
            assert(tile.objects.blocks@ =~= level_bricks(9));
            assert(tile.objects.question_mark_blocks@ =~= level_questions(9));
            assert(tile.objects.castle@ =~= level_castles(9));
            assert(tile.objects.coins@ =~= Seq::<Block>::empty());
        }
        tile
    }

    /// The eleventh tile, built on from the tenth.
    fn eleventh_tile(prev: &Tile) -> (tile: Tile)
        requires
            is_tile(9, *prev),
        ensures
            is_tile(10, tile),
            tile.valid(),
    {
        let floor_hole: Vec<i32> = vec![];
        let mut tile = Tile::create(
            prev.last_drawpos + 2,
            11,
            prev.bg_index,
            prev.move_by,
            floor_hole,
        );
        tile.objects.create_pipe(grid_x(328), grid_y(7), CELL_H, 2 * CELL_W, 1, true, false);
        tile.objects.create_block(grid_x(337), grid_y(11), CELL_H, CELL_W, false, Sprite::Brick);
        tile.objects.create_block(grid_x(339), grid_y(11), CELL_H, CELL_W, false, Sprite::Brick);
        tile.objects.create_question_mark_block(
            grid_x(341),
            grid_y(11),
            CELL_H,
            CELL_W,
            true,
            TypeTag::Coin,
        );
        tile.objects.create_block(grid_x(343), grid_y(11), CELL_H, CELL_W, false, Sprite::Brick);
        proof {
            assert(tile.objects.blocks@ =~= level_bricks(10));
            assert(tile.objects.question_mark_blocks@ =~= level_questions(10));
            assert(tile.objects.stones@ =~= level_stones(10));
            assert(tile.objects.castle@ =~= level_castles(10));
            assert(tile.objects.coins@ =~= Seq::<Block>::empty());
        }
        tile
    }

    /// The twelfth tile, built on from the eleventh.
    fn twelfth_tile(prev: &Tile) -> (tile: Tile)
        requires
            is_tile(10, *prev),
        ensures
            is_tile(11, tile),
            tile.valid(),
    {
        let floor_hole: Vec<i32> = vec![];
        let mut tile = Tile::create(
            prev.last_drawpos + 2,
            12,
            prev.bg_index,
            prev.move_by,
            floor_hole,
        );
        tile.objects.create_pipe(grid_x(360), grid_y(7), CELL_H, 2 * CELL_W, 1, true, false);
        stone_column(&mut tile.objects, 379, 14);
        stairs(&mut tile.objects, 377, true, 16, 14);
        proof {
            assert(tile.objects.blocks@ =~= level_bricks(11));
            assert(tile.objects.question_mark_blocks@ =~= level_questions(11));
            assert(tile.objects.castle@ =~= level_castles(11));
            assert(tile.objects.coins@ =~= Seq::<Block>::empty());
        }
        tile
    }

    /// The thirteenth tile, built on from the twelfth.
    fn thirteenth_tile(prev: &Tile) -> (tile: Tile)
        requires
            is_tile(11, *prev),
        ensures
            is_tile(12, tile),
            tile.valid(),
    {
        let floor_hole: Vec<i32> = vec![];
        let mut tile = Tile::create(
            prev.last_drawpos + 2,
            13,
            prev.bg_index,
            prev.move_by,
            floor_hole,
        );
        tile.objects.create_flag(grid_x(397), grid_y(5));
        tile.objects.create_castle(grid_x(409), grid_y(9), "small");
        proof {
            assert(tile.objects.blocks@ =~= level_bricks(12));
            assert(tile.objects.question_mark_blocks@ =~= level_questions(12));
            assert(tile.objects.stones@ =~= level_stones(12));
            assert(tile.objects.castle@ =~= level_castles(12));
            assert(tile.objects.coins@ =~= Seq::<Block>::empty());
        }
        tile
    }

    /// Builds the level of the game.
    pub fn init() -> (w: World)
        ensures
            w.is_level(),
            w.valid(),
    {
        let mut tiles: Vec<Tile> = Vec::new();
        let mut tiles_underground: Vec<TileUnderground> = Vec::new();
        tiles_underground.push(World::underground());
        let tile = World::first_tile();
        tiles.push(tile);
        let tile = World::second_tile(&tiles[0]);
        tiles.push(tile);
        let tile = World::third_tile(&tiles[1]);
        tiles.push(tile);
        let tile = World::fourth_tile(&tiles[2]);
        tiles.push(tile);
        let tile = World::fifth_tile(&tiles[3]);
        tiles.push(tile);
        let tile = World::sixth_tile(&tiles[4]);
        tiles.push(tile);
        let tile = World::seventh_tile(&tiles[5]);
        tiles.push(tile);
        let tile = World::eighth_tile(&tiles[6]);
        tiles.push(tile);
        let tile = World::ninth_tile(&tiles[7]);
        tiles.push(tile);
        let tile = World::tenth_tile(&tiles[8]);
        tiles.push(tile);
        let tile = World::eleventh_tile(&tiles[9]);
        tiles.push(tile);
        let tile = World::twelfth_tile(&tiles[10]);
        tiles.push(tile);
        let tile = World::thirteenth_tile(&tiles[11]);
        tiles.push(tile);
        World { tiles, tiles_underground, bg_color: BgColor::Blue }
    }
}

} // verus!
