use runner::game::Game;
use runner::render::{digits, Glyph, Letter, Texts};
use runner::units::{LIMIT, UNIT};

fn glyph(column: u32, row: u32) -> Glyph {
    Glyph { left: 9 * column, right: 9 * column + 8, top: 9 * row, bottom: 9 * row + 8 }
}

#[test]
fn the_font() {
    let t = Texts::init();
    assert!(t.objects.is_empty());
    assert_eq!(t.chars.iter().collect::<String>(), "0123456789abcdefghijklmnopqrstuvwxyz");
    assert_eq!(t.positions.len(), 36);
    assert_eq!(t.positions[0], Glyph { left: 0, right: 8, top: 0, bottom: 8 });
    assert_eq!(t.positions[1], Glyph { left: 9, right: 17, top: 0, bottom: 8 });
    assert_eq!(t.positions[15], Glyph { left: 135, right: 143, top: 0, bottom: 8 });
    assert_eq!(t.positions[16], Glyph { left: 0, right: 8, top: 9, bottom: 17 });
    assert_eq!(t.positions[35], Glyph { left: 27, right: 35, top: 18, bottom: 26 });
}

#[test]
fn decimal_digits() {
    assert_eq!(digits(0, 0), vec![0]);
    assert_eq!(digits(0, 1), vec![0]);
    assert_eq!(digits(0, 3), vec![0, 0, 0]);
    assert_eq!(digits(7, 2), vec![0, 7]);
    assert_eq!(digits(200, 6), vec![0, 0, 0, 2, 0, 0]);
    assert_eq!(digits(123_456, 6), vec![1, 2, 3, 4, 5, 6]);
    assert_eq!(digits(1_234_567, 6), vec![1, 2, 3, 4, 5, 6, 7]);
    assert_eq!(digits(u32::MAX, 2), vec![4, 2, 9, 4, 9, 6, 7, 2, 9, 5]);
    assert_eq!(digits(10, 1), vec![1, 0]);
}

#[test]
fn what_the_font_knows() {
    assert!(Texts::knows("mario"));
    assert!(Texts::knows("World9"));
    assert!(Texts::knows(""));
    assert!(Texts::knows("AZaz09"));
    assert!(!Texts::knows("1-1"));
    assert!(!Texts::knows("+00"));
    assert!(!Texts::knows("a b"));
    assert!(!Texts::knows("\u{212a}"));
    assert!(!Texts::knows("`"));
    assert!(!Texts::knows("{"));
    assert!(!Texts::knows("@"));
    assert!(!Texts::knows("["));
    assert!(!Texts::knows("/"));
    assert!(!Texts::knows(":"));
}

#[test]
fn a_text_is_laid_out_to_the_right() {
    let mut t = Texts::init();
    t.add_text("a0Z", -100, 50);
    assert_eq!(
        t.objects,
        vec![
            Letter { x: -100, y: 50, h: 20_000, w: 18_750, glyph: glyph(10, 0) },
            Letter { x: -100 + 37_500, y: 50, h: 20_000, w: 18_750, glyph: glyph(0, 0) },
            Letter { x: -100 + 75_000, y: 50, h: 20_000, w: 18_750, glyph: glyph(3, 2) },
        ]
    );
    t.add_text("", 0, 0);
    assert_eq!(t.objects.len(), 3);
    t.add_text("q", LIMIT, 0);
    t.add_text("gg", LIMIT - 1, 7);
    assert_eq!(t.objects[3], Letter { x: LIMIT, y: 0, h: 20_000, w: 18_750, glyph: glyph(10, 1) });
    assert_eq!(t.objects[4].x, LIMIT - 1);
    assert_eq!(t.objects[5].x, LIMIT);
    t.clear();
    assert!(t.objects.is_empty());
    assert_eq!(t.chars.len(), 36);
}

#[test]
fn a_number_is_laid_out_with_zeros_in_front() {
    let mut t = Texts::init();
    t.add_number(42, 4, 1_000, -7);
    assert_eq!(t.objects.len(), 4);
    assert_eq!(t.objects.iter().map(|l| l.glyph).collect::<Vec<_>>(), vec![
        glyph(0, 0),
        glyph(0, 0),
        glyph(4, 0),
        glyph(2, 0),
    ]);
    assert_eq!(
        t.objects.iter().map(|l| (l.x, l.y)).collect::<Vec<_>>(),
        vec![(1_000, -7), (38_500, -7), (76_000, -7), (113_500, -7)]
    );
}

#[test]
fn the_status_line() {
    let g = Game::init();
    let mut hud = Texts::init();
    hud.add_text("old", 0, 0);
    g.status(&mut hud);
    // mario, 000000, 00, world, 1, 1, time, 400
    assert_eq!(hud.objects.len(), 5 + 6 + 2 + 5 + 1 + 1 + 4 + 3);
    let upper = UNIT - 5 * 20_000;
    let lower = UNIT - 7 * 20_000;
    let at = |column: i64| -UNIT + 18_750 * column;
    assert_eq!(hud.objects[0], Letter { x: at(5), y: upper, h: 20_000, w: 18_750, glyph: glyph(6, 1) });
    assert_eq!(hud.objects[4], Letter { x: at(13), y: upper, h: 20_000, w: 18_750, glyph: glyph(8, 1) });
    assert_eq!(hud.objects[5], Letter { x: at(5), y: lower, h: 20_000, w: 18_750, glyph: glyph(0, 0) });
    assert_eq!(hud.objects[10].x, at(15));
    assert_eq!((hud.objects[11].x, hud.objects[11].y), (at(27), lower));
    assert_eq!((hud.objects[12].x, hud.objects[12].glyph), (at(29), glyph(0, 0)));
    assert_eq!((hud.objects[13].x, hud.objects[13].y), (at(40), upper));
    assert_eq!(hud.objects[13].glyph, glyph(0, 2));
    assert_eq!((hud.objects[18].x, hud.objects[18].glyph), (at(42), glyph(1, 0)));
    assert_eq!((hud.objects[19].x, hud.objects[19].glyph), (at(46), glyph(1, 0)));
    assert_eq!((hud.objects[20].x, hud.objects[20].y), (at(55), upper));
    assert_eq!(hud.objects[20].glyph, glyph(13, 1));
    assert_eq!((hud.objects[24].x, hud.objects[24].glyph), (at(57), glyph(4, 0)));
    assert_eq!((hud.objects[26].x, hud.objects[26].glyph), (at(61), glyph(0, 0)));
    // writing it again replaces it
    g.status(&mut hud);
    assert_eq!(hud.objects.len(), 27);
}
