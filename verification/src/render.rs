//! What the renderer has to know: which image an object shows and where
//! its quad lies, and the letters of the status line.

use vstd::prelude::*;
use vstd::string::StrSliceExecFns;
use crate::units::{UNIT, clamp_pos};
use crate::collision::{Collision_rect, saturate_wide};

verus! {

/// The images of the game. An animated image counts once; the object's
/// `state` picks the frame.
#[derive(Clone, Copy, Debug, PartialEq, Eq, Hash, Structural)]
pub enum Sprite {
    Brick,
    BrickStill,
    BrickUnderground,
    Stone,
    StoneUnderground,
    StoneUp,
    Coin,
    CoinStill,
    CoinIcon,
    Star,
    Mushroom,
    Goomba,
    GoombaSquash,
    Troopa,
    TroopaSquash,
    CastleSmall,
    CastleLarge,
    QuestionMark,
    FlagPole,
    FlagCloth,
    FlagBall,
    PipeEnterRight,
    PipeEnterLeft,
    PipeRight,
    PipeLeft,
    PipeSideEnterTop,
    PipeSideEnterBottom,
    PipeSideTop,
    PipeSideBottom,
    PipeSideConnectionTop,
    PipeSideConnectionBottom,
}

/// One textured quad of a composite object. The quad is given by its edges;
/// the collision rectangle is separate and stays empty (`w == 0`, `h == 0`)
/// for a quad that nothing collides with.
#[derive(Clone, Copy, Debug, PartialEq, Eq, Structural)]
pub struct Object {
    pub left: i64,
    pub right: i64,
    pub bottom: i64,
    pub top: i64,
    pub sprite: Sprite,
    pub x: i64,
    pub y: i64,
    pub h: i64,
    pub w: i64,
}

impl Object {
    /// The collision rectangle of the quad.
    pub open spec fn rect(self) -> Collision_rect {
        Collision_rect { x: self.x, y: self.y, w: self.w, h: self.h }
    }

    /// Whether anything can collide with the quad.
    pub open spec fn collidable(self) -> bool {
        self.w > 0 && self.h > 0
    }

    /// A quad between the given edges, with an empty collision rectangle.
    pub fn create_square_with_points(
        left: i64,
        right: i64,
        bottom: i64,
        top: i64,
        sprite: Sprite,
    ) -> (o: Object)
        ensures
            o == (Object {
                left,
                right,
                bottom,
                top,
                sprite,
                x: (-UNIT) as i64,
                y: (-UNIT) as i64,
                h: 0,
                w: 0,
            }),
            !o.collidable(),
    {
        Object { left, right, bottom, top, sprite, x: -UNIT, y: -UNIT, h: 0, w: 0 }
    }

    /// Gives the quad its collision rectangle.
    pub fn set_cordinates(&mut self, x: i64, y: i64, h: i64, w: i64)
        ensures
            *final(self) == (Object { x, y, h, w, ..*old(self) }),
    {
        self.x = x;
        self.y = y;
        self.h = h;
        self.w = w;
    }

    /// The collision rectangle of the quad.
    pub fn get_collision_rect(&self) -> (r: Collision_rect)
        ensures
            r == self.rect(),
    {
        Collision_rect { x: self.x, y: self.y, w: self.w, h: self.h }
    }
}

/// Number of glyphs in the font bitmap: the digits and the small letters.
pub const GLYPHS: usize = 36;

/// Number of glyphs in one row of the font bitmap.
pub const GLYPHS_IN_ROW: usize = 16;

/// Width and height of a glyph in pixels.
pub const GLYPH_SIZE: u32 = 8;

/// Distance in pixels from one glyph to the next, along both axes.
pub const GLYPH_STEP: u32 = 9;

/// Half the width of a letter on the screen.
pub const LETTER_HALF_WIDTH: i64 = 18_750;

/// Half the height of a letter on the screen.
pub const LETTER_HALF_HEIGHT: i64 = 20_000;

/// The box of a glyph in the font bitmap, in pixels from its upper left
/// corner.
#[derive(Clone, Copy, Debug, PartialEq, Eq, Structural)]
pub struct Glyph {
    pub left: u32,
    pub right: u32,
    pub top: u32,
    pub bottom: u32,
}

/// One letter of a text on the screen: its centre, its half-extents, and
/// the glyph that it shows.
#[derive(Clone, Copy, Debug, PartialEq, Eq, Structural)]
pub struct Letter {
    pub x: i64,
    pub y: i64,
    pub h: i64,
    pub w: i64,
    pub glyph: Glyph,
}

/// The letter `k` of the font: the digits, then the small letters.
pub open spec fn char_of(k: int) -> char {
    if k < 10 {
        ('0' as int + k) as char
    } else {
        ('a' as int + k - 10) as char
    }
}

/// The number of the glyph that shows `c`, if the font has one: a digit or
/// a letter of the English alphabet, where a capital shows as the small
/// letter.
pub open spec fn glyph_index(c: char) -> Option<int> {
    if '0' <= c <= '9' {
        Some(c as int - '0' as int)
    } else if 'a' <= c <= 'z' {
        Some(10 + c as int - 'a' as int)
    } else if 'A' <= c <= 'Z' {
        Some(10 + c as int - 'A' as int)
    } else {
        None
    }
}

/// The box of the glyph `k` in the font bitmap: the glyphs lie in rows of
/// `GLYPHS_IN_ROW`, `GLYPH_STEP` pixels apart.
pub open spec fn glyph_of(k: int) -> Glyph {
    Glyph {
        left: (GLYPH_STEP * (k % GLYPHS_IN_ROW as int)) as u32,
        right: (GLYPH_STEP * (k % GLYPHS_IN_ROW as int) + GLYPH_SIZE) as u32,
        top: (GLYPH_STEP * (k / GLYPHS_IN_ROW as int)) as u32,
        bottom: (GLYPH_STEP * (k / GLYPHS_IN_ROW as int) + GLYPH_SIZE) as u32,
    }
}

/// The letter at the place `k` of a text that starts at `(x, y)` and shows
/// the glyph `glyph` there: each letter stands one letter's width right of
/// the last, as far as the world box goes.
pub open spec fn letter_at(x: i64, y: i64, k: int, glyph: int) -> Letter {
    Letter {
        x: clamp_pos(x + 2 * LETTER_HALF_WIDTH * k) as i64,
        y,
        h: LETTER_HALF_HEIGHT,
        w: LETTER_HALF_WIDTH,
        glyph: glyph_of(glyph),
    }
}

/// Whether the font has a glyph for every letter of `text`.
pub open spec fn known(text: Seq<char>) -> bool {
    forall|i: int| 0 <= i < text.len() ==> glyph_index(#[trigger] text[i]) is Some
}

/// The letters of `text`, laid out from `(x, y)` to the right.
pub open spec fn text_letters(text: Seq<char>, x: i64, y: i64) -> Seq<Letter> {
    Seq::new(text.len(), |k: int| letter_at(x, y, k, glyph_index(text[k])->0))
}

/// The decimal digits of `n`, the most significant first.
pub open spec fn digits_of(n: nat) -> Seq<u32>
    decreases n,
{
    if n < 10 {
        seq![n as u32]
    } else {
        digits_of(n / 10).push((n % 10) as u32)
    }
}

/// The decimal digits of `n`, with zeros in front up to `width` digits.
pub open spec fn padded(n: nat, width: nat) -> Seq<u32> {
    if digits_of(n).len() >= width {
        digits_of(n)
    } else {
        Seq::new((width - digits_of(n).len()) as nat, |i: int| 0u32) + digits_of(n)
    }
}

/// The letters of the number `n`, written with at least `width` digits and
/// laid out from `(x, y)` to the right.
pub open spec fn number_letters(n: nat, width: nat, x: i64, y: i64) -> Seq<Letter> {
    Seq::new(padded(n, width).len(), |k: int| letter_at(x, y, k, padded(n, width)[k] as int))
}

proof fn lemma_digits(n: nat)
    ensures
        digits_of(n).len() >= 1,
        forall|i: int| 0 <= i < digits_of(n).len() ==> #[trigger] digits_of(n)[i] < 10,
    decreases n,
{
    if n >= 10 {
        lemma_digits(n / 10);
    }
}

/// The decimal digits of `value`, with zeros in front up to `width` digits.
pub fn digits(value: u32, width: usize) -> (r: Vec<u32>)
    ensures
        r@ == padded(value as nat, width as nat),
        forall|i: int| 0 <= i < r@.len() ==> #[trigger] r@[i] < 10,
{
    let mut r: Vec<u32> = Vec::new();
    let mut rest = value;
    r.insert(0, rest % 10);
    rest = rest / 10;
    proof {
        lemma_digits(value as nat);
    }
    while rest > 0
        invariant
            digits_of(value as nat) == if rest > 0 {
                digits_of(rest as nat) + r@
            } else {
                r@
            },
        decreases rest,
    {
        r.insert(0, rest % 10);
        rest = rest / 10;
    }
    let ghost plain = r@;
    while r.len() < width
        invariant
            plain == digits_of(value as nat),
            r@.len() >= plain.len(),
            r@.len() <= width || r@.len() == plain.len(),
            r@ == Seq::new((r@.len() - plain.len()) as nat, |i: int| 0u32) + plain,
        decreases width - r.len(),
    {
        r.insert(0, 0);
    }
    r
}

/// The texts of the status line, one quad for each letter.
pub struct Texts {
    pub objects: Vec<Letter>,
    pub chars: Vec<char>,
    pub positions: Vec<Glyph>,
}

impl Texts {
    /// The font is the one that `init` sets up: the letters of the font in
    /// order, each with the box of its glyph.
    pub open spec fn valid(self) -> bool {
        &&& self.chars@ == Seq::new(GLYPHS as nat, |k: int| char_of(k))
        &&& self.positions@ == Seq::new(GLYPHS as nat, |k: int| glyph_of(k))
    }

    /// The font, and no text yet.
    pub fn init() -> (t: Texts)
        ensures
            t.valid(),
            t.objects@.len() == 0,
    {
        let mut chars: Vec<char> = Vec::new();
        let mut positions: Vec<Glyph> = Vec::new();
        let mut y_bitmap: u32 = 0;
        let mut i: u32 = 0;
        let mut k: u8 = 0;
        while k < 36
            invariant
                k <= 36,
                i == k % 16,
                y_bitmap == k / 16,
                chars@ == Seq::new(k as nat, |j: int| char_of(j)),
                positions@ == Seq::new(k as nat, |j: int| glyph_of(j)),
            decreases 36 - k,
        {
            let c = if k < 10 {
                (48 + k) as char
            } else {
                (97 + k - 10) as char
            };
            chars.push(c);
            positions.push(
                Glyph {
                    left: GLYPH_STEP * i,
                    right: GLYPH_STEP * i + GLYPH_SIZE,
                    top: GLYPH_STEP * y_bitmap,
                    bottom: GLYPH_STEP * y_bitmap + GLYPH_SIZE,
                },
            );
            i += 1;
            if i == 16 {
                y_bitmap += 1;
                i = 0;
            }
            k += 1;
        }
        Texts { objects: Vec::new(), chars, positions }
    }

    /// Whether the font has a glyph for every letter of `text`.
    pub fn knows(text: &str) -> (r: bool)
        ensures
            r == known(text@),
    {
        let n = text.unicode_len();
        let mut i: usize = 0;
        while i < n
            invariant
                i <= n,
                n == text@.len(),
                forall|j: int| 0 <= j < i ==> glyph_index(#[trigger] text@[j]) is Some,
            decreases n - i,
        {
            let code = text.get_char(i) as u32;
            if !(48 <= code && code <= 57 || 97 <= code && code <= 122 || 65 <= code && code
                <= 90) {
                return false;
            }
            i += 1;
        }
        true
    }

    /// The glyph of a letter that the font knows, looked up in the table.
    fn glyph(&self, c: char) -> (g: Glyph)
        requires
            self.valid(),
            glyph_index(c) is Some,
        ensures
            g == glyph_of(glyph_index(c)->0),
    {
        let code = c as u32;
        let small = if 65 <= code && code <= 90 {
            ((code + 32) as u8) as char
        } else {
            c
        };
        let ghost at = glyph_index(c)->0;
        let mut k: usize = 0;
        while self.chars[k] != small
            invariant
                self.valid(),
                0 <= k <= at < GLYPHS,
                self.chars@[at] == small,
            decreases at - k,
        {
            k += 1;
        }
        self.positions[k]
    }

    /// Adds `text` to the status line, laid out from `(x, y)` to the right.
    /// The font has to know every letter of it.
    pub fn add_text(&mut self, text: &str, x: i64, y: i64)
        requires
            old(self).valid(),
            known(text@),
        ensures
            final(self).valid(),
            final(self).objects@ == old(self).objects@ + text_letters(text@, x, y),
    {
        let n = text.unicode_len();
        let mut index: usize = 0;
        while index < n
            invariant
                index <= n,
                n == text@.len(),
                known(text@),
                self.valid(),
                self.objects@ == old(self).objects@ + text_letters(text@, x, y).take(index as int),
            decreases n - index,
        {
            let c = text.get_char(index);
            let glyph = self.glyph(c);
            assert(0 <= 2 * LETTER_HALF_WIDTH * index <= 2 * LETTER_HALF_WIDTH
                * 0xffff_ffff_ffff_ffff) by (nonlinear_arith)
                requires
                    0 <= index <= 0xffff_ffff_ffff_ffff,
            ;
            let middle = saturate_wide(
                x as i128 + 2 * (LETTER_HALF_WIDTH as i128) * (index as i128),
            );
            self.objects.push(
                Letter { x: middle, y, h: LETTER_HALF_HEIGHT, w: LETTER_HALF_WIDTH, glyph },
            );
            index += 1;
        }
    }

    /// Adds the number `value`, written with at least `width` digits, to
    /// the status line, laid out from `(x, y)` to the right.
    pub fn add_number(&mut self, value: u32, width: usize, x: i64, y: i64)
        requires
            old(self).valid(),
        ensures
            final(self).valid(),
            final(self).objects@ == old(self).objects@ + number_letters(
                value as nat,
                width as nat,
                x,
                y,
            ),
    {
        let text = digits(value, width);
        let ghost letters = number_letters(value as nat, width as nat, x, y);
        let mut index: usize = 0;
        while index < text.len()
            invariant
                index <= text.len(),
                text@ == padded(value as nat, width as nat),
                forall|i: int| 0 <= i < text@.len() ==> #[trigger] text@[i] < 10,
                letters == number_letters(value as nat, width as nat, x, y),
                self.valid(),
                self.objects@ == old(self).objects@ + letters.take(index as int),
            decreases text.len() - index,
        {
            let glyph = self.positions[text[index] as usize];
            assert(0 <= 2 * LETTER_HALF_WIDTH * index <= 2 * LETTER_HALF_WIDTH
                * 0xffff_ffff_ffff_ffff) by (nonlinear_arith)
                requires
                    0 <= index <= 0xffff_ffff_ffff_ffff,
            ;
            let middle = saturate_wide(
                x as i128 + 2 * (LETTER_HALF_WIDTH as i128) * (index as i128),
            );
            self.objects.push(
                Letter { x: middle, y, h: LETTER_HALF_HEIGHT, w: LETTER_HALF_WIDTH, glyph },
            );
            index += 1;
        }
    }

    /// Forgets the texts of the status line.
    pub fn clear(&mut self)
        ensures
            final(self).objects@.len() == 0,
            final(self).chars == old(self).chars,
            final(self).positions == old(self).positions,
    {
        self.objects.clear();
    }
}

} // verus!
