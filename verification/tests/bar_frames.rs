use wmbar::bar::{Bar, BarConfig};
use wmbar::block::{Block, BlockError, BlockText, MeasuredBlock, StatusBlock};
use wmbar::color::ColorScheme;
use wmbar::font::Font;
use wmbar::frame::DrawOp;
use wmbar::text::{MeasuredText, MeasuredTitle};

const NORMAL: ColorScheme = ColorScheme { foreground: 0xbbbbbb, background: 0x1a1b26, underline: 0x444444 };
const OCCUPIED: ColorScheme = ColorScheme { foreground: 0x0db9d7, background: 0x1a1b26, underline: 0x0db9d8 };
const SELECTED: ColorScheme = ColorScheme { foreground: 0x0db9d9, background: 0x1a1b27, underline: 0xad8ee6 };
const URGENT: ColorScheme = ColorScheme { foreground: 0xf7768e, background: 0x1a1b28, underline: 0xf7768f };

struct Fixed {
    text: &'static str,
    color: u32,
}

impl Block for Fixed {
    fn interval(&self) -> u64 {
        0
    }

    fn content(&mut self) -> Result<String, BlockError> {
        Ok(self.text.to_string())
    }

    fn color(&self) -> u32 {
        self.color
    }
}

struct Broken;

impl Block for Broken {
    fn interval(&self) -> u64 {
        0
    }

    fn content(&mut self) -> Result<String, BlockError> {
        Err(BlockError)
    }

    fn color(&self) -> u32 {
        9
    }
}

fn tags(labels: &[(&str, u16)]) -> Vec<MeasuredText> {
    labels.iter().map(|(t, w)| MeasuredText::new(t.to_string(), *w)).collect()
}

fn config(labels: &[(&str, u16)], hide: bool, blocks: Vec<StatusBlock>) -> BarConfig {
    BarConfig {
        tags: tags(labels),
        scheme_normal: NORMAL,
        scheme_occupied: OCCUPIED,
        scheme_selected: SELECTED,
        scheme_urgent: URGENT,
        hide_vacant_tags: hide,
        status_blocks: blocks,
    }
}

const FOUR: [(&str, u16); 4] = [("1", 10), ("2", 10), ("3", 10), ("4", 10)];

fn four_tag_bar(hide: bool) -> Bar {
    Bar::new(77, 800, Font::new(20, 15), config(&FOUR, hide, Vec::new()), 0)
}

fn symbol() -> MeasuredText {
    MeasuredText::new("[]=".to_string(), 30)
}

fn text(color: u32, x: i32, y: i32, text: &str) -> DrawOp {
    DrawOp::Text { color, x, y, text: text.to_string() }
}

fn fill(color: u32, x: i32, y: i32, width: u32, height: u32) -> DrawOp {
    DrawOp::Fill { color, x, y, width, height }
}

fn measured(texts: Vec<Option<BlockText>>, widths: &[u16]) -> Vec<MeasuredBlock> {
    texts
        .into_iter()
        .flatten()
        .zip(widths.iter())
        .map(|(b, w)| MeasuredBlock { text: b.text, width: *w, color: b.color, underline: b.underline })
        .collect()
}

#[test]
fn a_new_bar_is_as_high_as_its_font_asks_and_needs_a_frame() {
    let bar = four_tag_bar(false);
    assert_eq!(bar.window(), 77);
    assert_eq!(bar.height(), 28);
    assert!(bar.needs_redraw());
    assert_eq!(bar.status_text(), "");
}

#[test]
fn four_tags_one_selected_one_urgent() {
    let mut bar = four_tag_bar(false);
    let frame = bar.draw(0b0010, 0b0010, 0b0100, false, &symbol(), None, None, &Vec::new());
    assert_eq!(
        frame,
        vec![
            fill(NORMAL.background, 0, 0, 800, 28),
            fill(SELECTED.underline, 28, 23, 22, 2),
            fill(URGENT.underline, 54, 23, 22, 2),
            text(NORMAL.foreground, 8, 19, "1"),
            text(SELECTED.foreground, 34, 19, "2"),
            text(URGENT.foreground, 60, 19, "3"),
            text(NORMAL.foreground, 86, 19, "4"),
            text(NORMAL.foreground, 114, 19, "[]="),
            DrawOp::Present { width: 800, height: 28 },
        ]
    );
    let labels = frame.iter().filter(|op| matches!(op, DrawOp::Text { .. })).count();
    assert_eq!(labels, 5);
    let selected_underlines = frame
        .iter()
        .filter(|op| matches!(op, DrawOp::Fill { color, .. } if *color == SELECTED.underline))
        .count();
    let urgent_underlines = frame
        .iter()
        .filter(|op| matches!(op, DrawOp::Fill { color, .. } if *color == URGENT.underline))
        .count();
    assert_eq!(selected_underlines, 1);
    assert_eq!(urgent_underlines, 1);
    assert_eq!(bar.handle_click(60), Some(2));
    assert_eq!(bar.handle_click(52), Some(2));
    assert_eq!(bar.handle_click(77), Some(2));
    assert_eq!(bar.handle_click(78), Some(3));
    assert!(!bar.needs_redraw());
}

#[test]
fn selected_wins_over_urgent_wins_over_occupied() {
    let mut bar = four_tag_bar(false);
    // tag 0: selected, urgent and occupied; tag 1: urgent and occupied;
    // tag 2: occupied; tag 3: none of them.
    let frame = bar.draw(0b0001, 0b0111, 0b0011, false, &symbol(), None, None, &Vec::new());
    assert_eq!(frame[1], fill(SELECTED.underline, 2, 23, 22, 2));
    assert_eq!(frame[2], fill(URGENT.underline, 28, 23, 22, 2));
    assert_eq!(frame[3], text(SELECTED.foreground, 8, 19, "1"));
    assert_eq!(frame[4], text(URGENT.foreground, 34, 19, "2"));
    assert_eq!(frame[5], text(OCCUPIED.foreground, 60, 19, "3"));
    assert_eq!(frame[6], text(NORMAL.foreground, 86, 19, "4"));
    assert_eq!(frame.len(), 9);
}

#[test]
fn without_hiding_the_layout_symbol_follows_the_sum_of_all_tag_widths() {
    let labels = [("web", 31), ("code", 40), ("", 0), ("chat", 37)];
    let font = Font::new(20, 15);
    let total: i32 = labels.iter().map(|(_, w)| *w as i32 + 2 * 8).sum();
    for (current, occupied) in [(0u32, 0u32), (0b1, 0b10), (0b1111, 0), (0, 0b1010), (u32::MAX, u32::MAX)] {
        let mut bar = Bar::new(1, 1000, font, config(&labels, false, Vec::new()), 0);
        let frame = bar.draw(current, occupied, 0, false, &symbol(), None, None, &Vec::new());
        let symbol_at = frame
            .iter()
            .find_map(|op| match op {
                DrawOp::Text { x, text, .. } if text == "[]=" => Some(*x),
                _ => None,
            })
            .unwrap();
        assert_eq!(symbol_at - 10, total);
        assert_eq!(total, 172);
    }
}

#[test]
fn a_hidden_tag_takes_no_room_and_no_click() {
    let mut bar = four_tag_bar(true);
    // selected: tag 0; occupied: tag 2; tags 1 and 3 are vacant and hidden.
    let frame = bar.draw(0b0001, 0b0100, 0, false, &symbol(), None, None, &Vec::new());
    assert_eq!(
        frame,
        vec![
            fill(NORMAL.background, 0, 0, 800, 28),
            fill(SELECTED.underline, 2, 23, 22, 2),
            text(SELECTED.foreground, 8, 19, "1"),
            text(OCCUPIED.foreground, 34, 19, "3"),
            text(NORMAL.foreground, 62, 19, "[]="),
            DrawOp::Present { width: 800, height: 28 },
        ]
    );
    assert_eq!(bar.handle_click(0), Some(0));
    assert_eq!(bar.handle_click(25), Some(0));
    assert_eq!(bar.handle_click(26), Some(2));
    assert_eq!(bar.handle_click(51), Some(2));
    assert_eq!(bar.handle_click(52), None);
    assert_eq!(bar.handle_click(60), None);
    for x in -5i16..200 {
        let hit = bar.handle_click(x);
        assert!(hit != Some(1) && hit != Some(3));
    }
}

#[test]
fn an_urgent_but_vacant_tag_is_hidden_too() {
    let mut bar = four_tag_bar(true);
    let frame = bar.draw(0, 0, 0b0010, false, &symbol(), None, None, &Vec::new());
    assert_eq!(
        frame,
        vec![
            fill(NORMAL.background, 0, 0, 800, 28),
            text(NORMAL.foreground, 10, 19, "[]="),
            DrawOp::Present { width: 800, height: 28 },
        ]
    );
    assert_eq!(bar.handle_click(0), None);
}

#[test]
fn clicks_outside_the_tags_hit_nothing() {
    let mut bar = four_tag_bar(false);
    bar.draw(0, 0, 0, false, &symbol(), None, None, &Vec::new());
    assert_eq!(bar.handle_click(-1), None);
    assert_eq!(bar.handle_click(i16::MIN), None);
    assert_eq!(bar.handle_click(0), Some(0));
    assert_eq!(bar.handle_click(103), Some(3));
    assert_eq!(bar.handle_click(104), None);
    assert_eq!(bar.handle_click(i16::MAX), None);
}

#[test]
fn clicks_go_by_the_frame_drawn_last() {
    let mut bar = four_tag_bar(true);
    // Before any frame the bar remembers no tag: all are hidden.
    assert_eq!(bar.handle_click(10), None);
    bar.draw(0b0001, 0b0100, 0, false, &symbol(), None, None, &Vec::new());
    assert_eq!(bar.handle_click(30), Some(2));
    // The bar is clean: this draw is idle, and its masks are not taken up.
    let idle = bar.draw(0b1000, 0b0010, 0, false, &symbol(), None, None, &Vec::new());
    assert!(idle.is_empty());
    assert_eq!(bar.handle_click(30), Some(2));
    assert_eq!(bar.handle_click(10), Some(0));
    // After a redraw with the new masks, clicks follow them.
    bar.invalidate();
    let frame = bar.draw(0b1000, 0b0010, 0, false, &symbol(), None, None, &Vec::new());
    assert!(!frame.is_empty());
    assert_eq!(bar.handle_click(10), Some(1));
    assert_eq!(bar.handle_click(30), Some(3));
}

#[test]
fn a_second_draw_does_nothing() {
    let mut bar = four_tag_bar(false);
    let first = bar.draw(1, 1, 0, true, &symbol(), None, None, &Vec::new());
    assert_eq!(first.len(), 8);
    assert!(!bar.needs_redraw());
    let second = bar.draw(1, 1, 0, true, &symbol(), None, None, &Vec::new());
    assert!(second.is_empty());
    assert!(!bar.needs_redraw());
    bar.invalidate();
    assert!(bar.needs_redraw());
    let third = bar.draw(1, 1, 0, true, &symbol(), None, None, &Vec::new());
    assert_eq!(third, first);
}

#[test]
fn a_keychord_indicator_follows_the_symbol_and_moves_the_cursor() {
    let mut bar = four_tag_bar(false);
    let chord = MeasuredText::new("[g]".to_string(), 24);
    let title = MeasuredTitle::new("t".to_string(), vec![0, 20]).unwrap();
    let frame = bar.draw(0, 0, 0, false, &symbol(), Some(&chord), Some(&title), &Vec::new());
    assert_eq!(frame[5], text(NORMAL.foreground, 114, 19, "[]="));
    assert_eq!(frame[6], text(NORMAL.foreground, 154, 19, "[g]"));
    // The layout region ends at 154 + 24 + 10 = 188; the midpoint to the
    // right edge is (188 + 800) / 2 = 494, and the title starts 10 before it.
    assert_eq!(frame[7], text(SELECTED.foreground, 484, 19, "t"));
    assert_eq!(frame.len(), 9);
}

fn bar_with_blocks() -> Bar {
    let blocks = vec![
        StatusBlock { block: Box::new(Fixed { text: "cpu 5%", color: 0x111111 }), underline: false },
        StatusBlock { block: Box::new(Broken), underline: true },
        StatusBlock { block: Box::new(Fixed { text: "12:00", color: 0x222222 }), underline: true },
    ];
    let mut bar = Bar::new(1, 800, Font::new(20, 15), config(&FOUR, false, blocks), 0);
    bar.update_blocks(0);
    bar
}

#[test]
fn blocks_run_from_the_right_edge_inwards() {
    let mut bar = bar_with_blocks();
    assert_eq!(bar.status_text(), "cpu 5%12:00");
    let contents = bar.block_contents(true);
    assert_eq!(
        contents,
        vec![
            Some(BlockText { text: "cpu 5%".to_string(), color: 0x111111, underline: false }),
            None,
            Some(BlockText { text: "12:00".to_string(), color: 0x222222, underline: true }),
        ]
    );
    let blocks = measured(contents, &[60, 50]);
    let frame = bar.draw(0, 0, 0, true, &symbol(), None, None, &blocks);
    assert_eq!(
        frame,
        vec![
            fill(NORMAL.background, 0, 0, 800, 28),
            fill(0x222222, 736, 23, 58, 2),
            text(NORMAL.foreground, 8, 19, "1"),
            text(NORMAL.foreground, 34, 19, "2"),
            text(NORMAL.foreground, 60, 19, "3"),
            text(NORMAL.foreground, 86, 19, "4"),
            text(NORMAL.foreground, 114, 19, "[]="),
            text(0x222222, 740, 19, "12:00"),
            text(0x111111, 670, 19, "cpu 5%"),
            DrawOp::Present { width: 800, height: 28 },
        ]
    );
}

#[test]
fn blocks_are_left_out_when_not_to_be_drawn() {
    let mut bar = bar_with_blocks();
    assert!(bar.block_contents(false).is_empty());
    let blocks = vec![MeasuredBlock { text: "x".to_string(), width: 9, color: 5, underline: true }];
    let frame = bar.draw(0, 0, 0, false, &symbol(), None, None, &blocks);
    assert_eq!(frame.len(), 7);
    assert!(frame.iter().all(|op| !matches!(op, DrawOp::Text { text, .. } if text == "x")));
}

#[test]
fn blocks_are_left_out_without_status_text() {
    let blocks = vec![StatusBlock { block: Box::new(Fixed { text: "up", color: 3 }), underline: false }];
    let mut bar = Bar::new(1, 800, Font::new(20, 15), config(&FOUR, false, blocks), 0);
    // No refresh has happened yet: there is no status text.
    assert!(bar.block_contents(true).is_empty());
    let handed = vec![MeasuredBlock { text: "up".to_string(), width: 20, color: 3, underline: false }];
    let frame = bar.draw(0, 0, 0, true, &symbol(), None, None, &handed);
    assert_eq!(frame.len(), 7);
}

#[test]
fn no_block_is_asked_for_a_clean_bar() {
    let mut bar = bar_with_blocks();
    bar.draw(0, 0, 0, true, &symbol(), None, None, &Vec::new());
    assert!(!bar.needs_redraw());
    assert!(bar.block_contents(true).is_empty());
}

#[test]
fn a_title_is_centred_between_layout_and_blocks() {
    let mut bar = bar_with_blocks();
    let blocks = measured(bar.block_contents(true), &[60, 50]);
    // Layout ends at 114 + 30 + 10 = 154, blocks start at 670: the
    // midpoint is 412, and a title of width 100 starts at 362.
    let title = MeasuredTitle::new("shell".to_string(), vec![0, 20, 40, 60, 80, 100]).unwrap();
    let frame = bar.draw(0, 0, 0, true, &symbol(), None, Some(&title), &blocks);
    assert_eq!(frame[9], text(SELECTED.foreground, 362, 19, "shell"));
    assert_eq!(frame.len(), 11);
}

#[test]
fn a_wide_title_starts_after_the_layout_and_is_cut_before_the_blocks() {
    let mut bar = bar_with_blocks();
    let blocks = measured(bar.block_contents(true), &[60, 50]);
    // Width 600: centred it would start at 412 - 300 = 112, before the
    // layout ends at 154; so it starts at 164, with 506 pixels to the blocks.
    let widths: Vec<u16> = (0..=10).map(|k| 60 * k).collect();
    let title = MeasuredTitle::new("abcdefghij".to_string(), widths).unwrap();
    let frame = bar.draw(0, 0, 0, true, &symbol(), None, Some(&title), &blocks);
    assert_eq!(frame[9], text(SELECTED.foreground, 164, 19, "abcdefgh"));
}

#[test]
fn a_centred_title_that_reaches_the_blocks_is_cut() {
    let mut bar = Bar::new(1, 400, Font::new(20, 15), config(&[], false, Vec::new()), 0);
    let narrow = MeasuredText::new(String::new(), 0);
    // Layout ends at 10 + 0 + 10 = 20; the right edge is 400; the midpoint
    // is 210. Width 390 centred starts at 15, before 20: it starts at 30 and
    // has 370 pixels, enough for 37 of its 39 characters.
    let text_39: String = "x".repeat(39);
    let widths: Vec<u16> = (0..=39).map(|k| 10 * k).collect();
    let title = MeasuredTitle::new(text_39, widths).unwrap();
    let frame = bar.draw(0, 0, 0, false, &narrow, None, Some(&title), &Vec::new());
    assert_eq!(frame[2], text(SELECTED.foreground, 30, 19, &"x".repeat(37)));
}

#[test]
fn a_title_without_room_is_drawn_empty() {
    let blocks = vec![StatusBlock { block: Box::new(Fixed { text: "wide", color: 3 }), underline: false }];
    let mut bar = Bar::new(1, 200, Font::new(20, 15), config(&FOUR, false, blocks), 0);
    bar.update_blocks(0);
    let handed = measured(bar.block_contents(true), &[150]);
    // Blocks start at 200 - 10 - 150 = 40, left of the layout's end at 154:
    // the title starts at 164 and nothing of it fits.
    let title = MeasuredTitle::new("abc".to_string(), vec![0, 10, 20, 30]).unwrap();
    let frame = bar.draw(0, 0, 0, true, &symbol(), None, Some(&title), &handed);
    assert_eq!(frame[frame.len() - 2], text(SELECTED.foreground, 164, 19, ""));
}

#[test]
fn a_narrow_tag_gets_an_underline_of_no_width() {
    let mut bar = Bar::new(1, 100, Font::new(2, 1), config(&[("", 0), ("a", 3)], false, Vec::new()), 0);
    assert_eq!(bar.height(), 2);
    let frame = bar.draw(0b11, 0, 0, false, &symbol(), None, None, &Vec::new());
    // Font height 2: no padding, underlines of height 0 at y = 2 - 0 - 3.
    assert_eq!(frame[1], fill(SELECTED.underline, 2, -1, 0, 0));
    assert_eq!(frame[2], fill(SELECTED.underline, 2, -1, 0, 0));
    assert_eq!(frame[3], text(SELECTED.foreground, 0, 5, ""));
    assert_eq!(frame[4], text(SELECTED.foreground, 0, 5, "a"));
    assert_eq!(bar.handle_click(0), Some(1));
    assert_eq!(bar.handle_click(2), Some(1));
    assert_eq!(bar.handle_click(3), None);
}

#[test]
fn tags_beyond_the_mask_are_never_selected() {
    let many: Vec<(String, u16)> = (0..32).map(|i| (i.to_string(), 5u16)).collect();
    let labels: Vec<(&str, u16)> = many.iter().map(|(s, w)| (s.as_str(), *w)).collect();
    let mut bar = Bar::new(1, 2000, Font::new(20, 15), config(&labels, true, Vec::new()), 0);
    let frame = bar.draw(1 << 31, 1, 0, false, &symbol(), None, None, &Vec::new());
    assert_eq!(frame[2], text(OCCUPIED.foreground, 8, 19, "0"));
    assert_eq!(frame[3], text(SELECTED.foreground, 29, 19, "31"));
    assert_eq!(bar.handle_click(21), Some(31));
    assert_eq!(bar.handle_click(20), Some(0));
}

#[test]
fn update_tags_changes_nothing() {
    let mut bar = four_tag_bar(false);
    bar.draw(0, 0, 0, false, &symbol(), None, None, &Vec::new());
    bar.update_tags();
    assert!(!bar.needs_redraw());
    assert_eq!(bar.handle_click(30), Some(1));
}
