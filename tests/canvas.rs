use crossterm::style::{Attribute, Color};
use mpdterm::buffer::{Buffer, Patch, TextError};
use mpdterm::style::Cell;
use mpdterm::ui::{Overflow, Rect};

fn rect(x: u32, y: u32, width: u32, height: u32) -> Rect {
    Rect { x, y, width, height }
}

fn row_text(b: &Buffer, y: usize) -> String {
    (0..b.width() as usize).map(|x| b.get(x, y).unwrap().ch).collect()
}

#[test]
fn blank_cell_is_a_space_in_default_colors() {
    let c = Cell::default();
    assert_eq!(c.ch, ' ');
    assert_eq!(c.fg, Color::Reset);
    assert_eq!(c.bg, Color::Reset);
    assert_eq!(c.attribute, None);
}

#[test]
fn cells_are_equal_only_in_all_fields() {
    let a = Cell::default();
    assert!(a.same_as(&Cell::default()));
    assert!(!a.same_as(&Cell { ch: 'x', ..a }));
    assert!(!a.same_as(&Cell { fg: Color::Red, ..a }));
    assert!(!a.same_as(&Cell { bg: Color::Rgb { r: 1, g: 2, b: 3 }, ..a }));
    assert!(!a.same_as(&Cell { attribute: Some(Attribute::Bold), ..a }));
    let bold = Cell { attribute: Some(Attribute::Bold), ..a };
    assert!(!bold.same_as(&Cell { attribute: Some(Attribute::Italic), ..a }));
    assert!(bold.same_as(&Cell { attribute: Some(Attribute::Bold), ..a }));
}

#[test]
fn new_canvas_is_blank() {
    let b = Buffer::new(rect(0, 0, 4, 3));
    assert_eq!(b.width(), 4);
    assert_eq!(b.height(), 3);
    for y in 0..3 {
        for x in 0..4 {
            assert_eq!(b.get(x, y), Some(Cell::default()));
        }
    }
}

#[test]
fn get_outside_the_canvas_is_none() {
    let b = Buffer::new(rect(0, 0, 4, 3));
    assert_eq!(b.get(4, 0), None);
    assert_eq!(b.get(0, 3), None);
    assert_eq!(b.get(usize::MAX, usize::MAX), None);
}

#[test]
fn write_text_hello_leaves_rest_blank() {
    let mut b = Buffer::new(rect(0, 0, 10, 1));
    assert_eq!(b.write_text(rect(0, 0, 10, 1), "hello", Overflow::Char), Ok(()));
    let expected = ['h', 'e', 'l', 'l', 'o'];
    for x in 0..5 {
        assert_eq!(b.get(x, 0).unwrap().ch, expected[x]);
    }
    for x in 5..10 {
        assert_eq!(b.get(x, 0).unwrap().ch, ' ');
    }
}

#[test]
fn write_text_erases_earlier_text_in_rect() {
    let mut b = Buffer::new(rect(0, 0, 10, 1));
    b.write_text(rect(0, 0, 10, 1), "abcdefghij", Overflow::Char).unwrap();
    b.write_text(rect(2, 0, 5, 1), "xy", Overflow::Char).unwrap();
    assert_eq!(row_text(&b, 0), "abxy   hij");
}

#[test]
fn write_text_keeps_colors() {
    let mut b = Buffer::new(rect(0, 0, 3, 1));
    b.fill_background(rect(0, 0, 3, 1), Color::Blue);
    b.write_text(rect(0, 0, 3, 1), "ab", Overflow::Char).unwrap();
    assert_eq!(b.get(0, 0).unwrap(), Cell { ch: 'a', bg: Color::Blue, ..Cell::default() });
    assert_eq!(b.get(2, 0).unwrap(), Cell { ch: ' ', bg: Color::Blue, ..Cell::default() });
}

#[test]
fn write_text_wraps_at_rect_width() {
    let mut b = Buffer::new(rect(0, 0, 5, 3));
    b.write_text(rect(1, 0, 3, 3), "abcdefg", Overflow::Char).unwrap();
    assert_eq!(row_text(&b, 0), " abc ");
    assert_eq!(row_text(&b, 1), " def ");
    assert_eq!(row_text(&b, 2), " g   ");
}

#[test]
fn write_text_drops_what_falls_below_rect() {
    let mut b = Buffer::new(rect(0, 0, 3, 3));
    b.write_text(rect(0, 0, 3, 2), "abcdefghi", Overflow::Char).unwrap();
    assert_eq!(row_text(&b, 0), "abc");
    assert_eq!(row_text(&b, 1), "def");
    assert_eq!(row_text(&b, 2), "   ");
}

#[test]
fn write_text_line_break_takes_no_cell() {
    let mut b = Buffer::new(rect(0, 0, 4, 3));
    b.write_text(rect(0, 0, 4, 3), "ab\ncd", Overflow::Char).unwrap();
    assert_eq!(row_text(&b, 0), "ab  ");
    assert_eq!(row_text(&b, 1), "cd  ");
    assert_eq!(row_text(&b, 2), "    ");
}

#[test]
fn write_text_line_break_after_full_row_is_one_break() {
    let mut b = Buffer::new(rect(0, 0, 3, 3));
    b.write_text(rect(0, 0, 3, 3), "abc\nd", Overflow::Char).unwrap();
    assert_eq!(row_text(&b, 0), "abc");
    assert_eq!(row_text(&b, 1), "d  ");
    assert_eq!(row_text(&b, 2), "   ");
}

#[test]
fn write_text_is_clipped_to_the_canvas() {
    let mut b = Buffer::new(rect(0, 0, 4, 2));
    b.write_text(rect(2, 1, 10, 5), "wxyz", Overflow::Char).unwrap();
    assert_eq!(row_text(&b, 0), "    ");
    assert_eq!(row_text(&b, 1), "  wx");
}

#[test]
fn write_text_into_empty_rect_changes_nothing() {
    let mut b = Buffer::new(rect(0, 0, 3, 2));
    b.write_text(rect(0, 0, 3, 2), "abcdef", Overflow::Char).unwrap();
    b.write_text(rect(0, 0, 0, 2), "zz", Overflow::Char).unwrap();
    b.write_text(rect(0, 0, 3, 0), "zz", Overflow::Char).unwrap();
    assert_eq!(row_text(&b, 0), "abc");
    assert_eq!(row_text(&b, 1), "def");
}

#[test]
fn write_text_word_overflow_is_unsupported() {
    let mut b = Buffer::new(rect(0, 0, 3, 1));
    b.write_text(rect(0, 0, 3, 1), "abc", Overflow::Char).unwrap();
    assert_eq!(
        b.write_text(rect(0, 0, 3, 1), "xyz", Overflow::Word),
        Err(TextError::UnsupportedOverflow)
    );
    assert_eq!(row_text(&b, 0), "abc");
}

#[test]
fn fill_background_stays_inside_rect() {
    let mut b = Buffer::new(rect(0, 0, 4, 4));
    b.fill_background(rect(1, 2, 2, 5), Color::Green);
    for y in 0..4 {
        for x in 0..4 {
            let inside = (1..3).contains(&x) && (2..4).contains(&y);
            let expected = if inside { Color::Green } else { Color::Reset };
            assert_eq!(b.get(x, y).unwrap().bg, expected);
            assert_eq!(b.get(x, y).unwrap().fg, Color::Reset);
        }
    }
}

#[test]
fn fill_does_not_bleed_past_the_right_edge() {
    let mut b = Buffer::new(rect(0, 0, 3, 3));
    b.fill_foreground(rect(2, 0, 4, 1), Color::Red);
    assert_eq!(b.get(2, 0).unwrap().fg, Color::Red);
    assert_eq!(b.get(0, 1).unwrap().fg, Color::Reset);
    assert_eq!(b.get(1, 1).unwrap().fg, Color::Reset);
}

#[test]
fn fill_with_huge_rect_covers_the_canvas() {
    let mut b = Buffer::new(rect(0, 0, 3, 2));
    b.fill_attribute(rect(0, 0, u32::MAX, u32::MAX), Attribute::Bold);
    b.fill_background(rect(u32::MAX, u32::MAX, u32::MAX, u32::MAX), Color::Red);
    for y in 0..2 {
        for x in 0..3 {
            assert_eq!(b.get(x, y).unwrap().attribute, Some(Attribute::Bold));
            assert_eq!(b.get(x, y).unwrap().bg, Color::Reset);
        }
    }
}

#[test]
fn diff_of_identical_canvases_is_empty() {
    let mut a = Buffer::new(rect(0, 0, 6, 4));
    a.write_text(rect(0, 0, 6, 4), "some text here", Overflow::Char).unwrap();
    a.fill_background(rect(1, 1, 3, 2), Color::Cyan);
    let copy = a.snapshot();
    assert!(a.diff(&copy).is_empty());
    assert!(a.diff(&a).is_empty());
}

#[test]
fn diff_after_resize_repaints_every_cell() {
    let mut cur = Buffer::new(rect(0, 0, 3, 2));
    cur.write_text(rect(0, 0, 3, 2), "abcdef", Overflow::Char).unwrap();
    let prev = Buffer::new(rect(0, 0, 2, 2));
    let patches = cur.diff(&prev);
    assert_eq!(patches.len(), 6);
    let text: Vec<char> = "abcdef".chars().collect();
    for (k, p) in patches.iter().enumerate() {
        assert_eq!((p.y * 3 + p.x) as usize, k);
        assert_eq!(p.data.ch, text[k]);
    }
}

#[test]
fn diff_reports_exactly_the_changed_cells() {
    let a0 = Buffer::new(rect(0, 0, 4, 3));
    let mut a = a0.snapshot();
    a.write_text(rect(3, 0, 1, 1), "x", Overflow::Char).unwrap();
    a.fill_foreground(rect(0, 2, 2, 1), Color::Yellow);
    let patches = a.diff(&a0);
    let coords: Vec<(u32, u32)> = patches.iter().map(|p| (p.x, p.y)).collect();
    assert_eq!(coords, vec![(3, 0), (0, 2), (1, 2)]);
    assert_eq!(patches[0].data.ch, 'x');
    assert_eq!(patches[1].data.fg, Color::Yellow);
}

#[test]
fn diff_patches_are_in_increasing_index_order() {
    let prev = Buffer::new(rect(0, 0, 5, 5));
    let mut cur = prev.snapshot();
    cur.fill_background(rect(3, 0, 2, 5), Color::Red);
    cur.fill_background(rect(0, 3, 5, 1), Color::Blue);
    let patches = cur.diff(&prev);
    let idx: Vec<u32> = patches.iter().map(|p| p.y * 5 + p.x).collect();
    assert_eq!(idx.len(), 13);
    assert!(idx.windows(2).all(|w| w[0] < w[1]));
}

#[test]
fn fill_then_diff_gives_four_red_patches() {
    let prev = Buffer::new(rect(0, 0, 5, 5));
    let mut cur = Buffer::new(rect(0, 0, 5, 5));
    cur.fill_background(rect(1, 1, 2, 2), Color::Red);
    let patches = cur.diff(&prev);
    let red = Cell { bg: Color::Red, ..Cell::default() };
    assert_eq!(
        patches,
        vec![
            Patch { x: 1, y: 1, data: red },
            Patch { x: 2, y: 1, data: red },
            Patch { x: 1, y: 2, data: red },
            Patch { x: 2, y: 2, data: red },
        ]
    );
}

#[test]
fn empty_canvas_has_nothing_to_diff() {
    let a = Buffer::new(rect(0, 0, 0, 7));
    let b = Buffer::new(rect(0, 0, 7, 0));
    assert!(a.diff(&b).is_empty());
    assert_eq!(a.get(0, 0), None);
}
