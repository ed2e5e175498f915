use std::cell::Cell;
use std::rc::Rc;
use wmbar::bar::{produced_texts, Bar, BarConfig};
use wmbar::block::{block_is_due, Block, BlockAnswer, BlockError, StatusBlock};
use wmbar::color::ColorScheme;
use wmbar::font::Font;
use wmbar::text::MeasuredText;

const PLAIN: ColorScheme = ColorScheme { foreground: 1, background: 2, underline: 3 };

/// A block that answers from a script and counts how often it is asked.
struct Scripted {
    interval: u64,
    answers: Vec<Option<&'static str>>,
    asked: Rc<Cell<usize>>,
}

impl Block for Scripted {
    fn interval(&self) -> u64 {
        self.interval
    }

    fn content(&mut self) -> Result<String, BlockError> {
        let n = self.asked.get();
        self.asked.set(n + 1);
        let answer = if self.answers.is_empty() { None } else { self.answers[n % self.answers.len()] };
        match answer {
            Some(text) => Ok(text.to_string()),
            None => Err(BlockError),
        }
    }

    fn color(&self) -> u32 {
        7
    }
}

fn scripted(interval: u64, answers: Vec<Option<&'static str>>) -> (StatusBlock, Rc<Cell<usize>>) {
    let asked = Rc::new(Cell::new(0));
    let block = Scripted { interval, answers, asked: asked.clone() };
    (StatusBlock { block: Box::new(block), underline: false }, asked)
}

fn config(blocks: Vec<StatusBlock>) -> BarConfig {
    BarConfig {
        tags: vec![MeasuredText::new("1".to_string(), 10)],
        scheme_normal: PLAIN,
        scheme_occupied: PLAIN,
        scheme_selected: PLAIN,
        scheme_urgent: PLAIN,
        hide_vacant_tags: false,
        status_blocks: blocks,
    }
}

fn clean_bar(blocks: Vec<StatusBlock>, now: u64) -> Bar {
    let mut bar = Bar::new(1, 500, Font::new(20, 15), config(blocks), now);
    let symbol = MeasuredText::new("[]".to_string(), 20);
    bar.draw(0, 0, 0, false, &symbol, None, None, &Vec::new());
    assert!(!bar.needs_redraw());
    bar
}

#[test]
fn due_is_elapsed_time_against_the_interval() {
    assert!(block_is_due(100, 50, 150));
    assert!(block_is_due(100, 50, 151));
    assert!(!block_is_due(100, 50, 149));
    assert!(block_is_due(100, 0, 100));
    assert!(!block_is_due(100, 1, 100));
    assert!(block_is_due(0, u64::MAX, u64::MAX));
    assert!(!block_is_due(1, u64::MAX, u64::MAX));
}

#[test]
fn a_clock_that_runs_backwards_counts_as_no_time_passed() {
    assert!(!block_is_due(100, 1, 99));
    assert!(block_is_due(100, 0, 99));
    assert!(!block_is_due(u64::MAX, 1, 0));
}

#[test]
fn no_block_due_means_nothing_asked_and_nothing_changed() {
    let (a, asked_a) = scripted(1000, vec![Some("a")]);
    let (b, asked_b) = scripted(2000, vec![Some("b")]);
    let mut bar = clean_bar(vec![a, b], 5000);
    bar.update_blocks(5999);
    assert!(!bar.needs_redraw());
    assert_eq!(bar.status_text(), "");
    assert_eq!(asked_a.get(), 0);
    assert_eq!(asked_b.get(), 0);
}

#[test]
fn a_due_block_that_fails_leaves_the_bar_clean() {
    let (a, asked_a) = scripted(1000, vec![None]);
    let (b, asked_b) = scripted(2000, vec![Some("b")]);
    let mut bar = clean_bar(vec![a, b], 5000);
    bar.update_blocks(6500);
    assert!(!bar.needs_redraw());
    assert_eq!(bar.status_text(), "");
    assert_eq!(asked_a.get(), 1);
    assert_eq!(asked_b.get(), 0);
    // Its time was not noted: it is due, and asked, again at once.
    bar.update_blocks(6501);
    assert_eq!(asked_a.get(), 2);
    assert!(!bar.needs_redraw());
}

#[test]
fn a_due_block_that_answers_marks_the_bar_and_rebuilds_the_text() {
    let (a, asked_a) = scripted(1000, vec![Some("load 1 ")]);
    let (b, asked_b) = scripted(9000, vec![Some("12:00")]);
    let mut bar = clean_bar(vec![a, b], 5000);
    bar.update_blocks(6000);
    assert!(bar.needs_redraw());
    // Every block contributes to the rebuilt text, due or not.
    assert_eq!(bar.status_text(), "load 1 12:00");
    assert_eq!(asked_a.get(), 2);
    assert_eq!(asked_b.get(), 1);
}

#[test]
fn a_refreshed_block_waits_a_full_interval_again() {
    let (a, asked) = scripted(1000, vec![Some("x")]);
    let mut bar = clean_bar(vec![a], 0);
    bar.update_blocks(1000);
    assert_eq!(asked.get(), 2);
    bar.update_blocks(1999);
    assert_eq!(asked.get(), 2);
    bar.update_blocks(2000);
    assert_eq!(asked.get(), 4);
}

#[test]
fn a_block_that_fails_in_the_rebuild_contributes_nothing() {
    // The first block answers when asked whether it is fresh, and fails
    // when asked again for the text.
    let (a, _) = scripted(0, vec![Some("gone"), None]);
    let (b, _) = scripted(0, vec![Some("first"), Some("stays")]);
    let mut bar = clean_bar(vec![a, b], 0);
    bar.update_blocks(10);
    assert!(bar.needs_redraw());
    assert_eq!(bar.status_text(), "stays");
}

#[test]
fn a_dirty_bar_stays_dirty_when_no_block_answers() {
    let (a, _) = scripted(1000, vec![None]);
    let mut bar = Bar::new(1, 500, Font::new(20, 15), config(vec![a]), 0);
    assert!(bar.needs_redraw());
    bar.update_blocks(5000);
    assert!(bar.needs_redraw());
    bar.update_blocks(10);
    assert!(bar.needs_redraw());
}

#[test]
fn a_bar_without_blocks_is_never_marked_by_a_refresh() {
    let mut bar = clean_bar(Vec::new(), 0);
    bar.update_blocks(u64::MAX);
    assert!(!bar.needs_redraw());
    assert_eq!(bar.status_text(), "");
}

fn answer(interval: u64, succeeded: bool) -> BlockAnswer {
    BlockAnswer { interval, succeeded }
}

#[test]
fn applying_answers_marks_the_bar_only_for_a_due_success() {
    let (a, _) = scripted(0, vec![]);
    let (b, _) = scripted(0, vec![]);
    let texts = vec!["one".to_string(), "two".to_string()];

    // Due but failed, and answered but not due: no mark.
    let mut bar = clean_bar(vec![a, b], 100);
    bar.apply_refresh(150, &vec![answer(50, false), answer(51, true)], &texts);
    assert!(!bar.needs_redraw());
    assert_eq!(bar.status_text(), "");

    // Due and answered: mark, and the texts joined.
    bar.apply_refresh(150, &vec![answer(50, false), answer(50, true)], &texts);
    assert!(bar.needs_redraw());
    assert_eq!(bar.status_text(), "onetwo");
}

#[test]
fn applying_answers_notes_the_time_of_the_refreshed_blocks_only() {
    let (a, asked_a) = scripted(10, vec![Some("a")]);
    let (b, asked_b) = scripted(10, vec![Some("b")]);
    let mut bar = clean_bar(vec![a, b], 0);
    // Only the second block counts as refreshed at 100.
    bar.apply_refresh(100, &vec![answer(10, false), answer(10, true)], &Vec::new());
    assert!(bar.needs_redraw());
    assert_eq!(bar.status_text(), "");
    // At 105 the first block is due (105 since 0), the second is not (5 since 100).
    bar.update_blocks(105);
    assert_eq!(asked_a.get(), 2);
    assert_eq!(asked_b.get(), 1);
    assert_eq!(bar.status_text(), "ab");
}

#[test]
fn answers_without_a_block_and_blocks_without_an_answer_count_for_nothing() {
    let (a, _) = scripted(0, vec![]);
    let mut bar = clean_bar(vec![a], 0);
    bar.apply_refresh(10, &Vec::new(), &vec!["x".to_string()]);
    assert!(!bar.needs_redraw());
    bar.apply_refresh(10, &vec![answer(0, false), answer(0, true), answer(0, true)], &vec!["x".to_string()]);
    assert!(!bar.needs_redraw());
    assert_eq!(bar.status_text(), "");
}

#[test]
fn a_new_configuration_replaces_tags_blocks_and_text() {
    let (a, _) = scripted(0, vec![Some("old")]);
    let mut bar = clean_bar(vec![a], 0);
    bar.update_blocks(1);
    assert_eq!(bar.status_text(), "old");
    let symbol = MeasuredText::new("[]".to_string(), 20);
    bar.draw(1, 1, 0, false, &symbol, None, None, &Vec::new());
    assert!(!bar.needs_redraw());
    assert_eq!(bar.handle_click(0), Some(0));
    assert_eq!(bar.handle_click(30), None);

    let (b, asked_b) = scripted(100, vec![Some("new")]);
    let mut next = config(vec![b]);
    next.tags = vec![MeasuredText::new("web".to_string(), 30), MeasuredText::new("code".to_string(), 40)];
    next.hide_vacant_tags = true;
    bar.update_from_config(next, 1000);
    assert!(bar.needs_redraw());
    assert_eq!(bar.status_text(), "");
    assert_eq!(bar.window(), 1);
    assert_eq!(bar.height(), 28);
    // The masks of the last frame stay (tag 0 selected); the widths follow
    // the new labels: 30 + 2 * 8.
    assert_eq!(bar.handle_click(45), Some(0));
    assert_eq!(bar.handle_click(46), None);
    // The new block counts as refreshed at 1000.
    bar.update_blocks(1099);
    assert_eq!(asked_b.get(), 0);
    bar.update_blocks(1100);
    assert_eq!(asked_b.get(), 2);
    assert_eq!(bar.status_text(), "new");
}

#[test]
fn produced_texts_are_the_answers_that_hold_one_in_order() {
    let contents = vec![Some("a".to_string()), None, Some(String::new()), Some("b".to_string()), None];
    assert_eq!(produced_texts(&contents), vec!["a".to_string(), String::new(), "b".to_string()]);
    assert_eq!(produced_texts(&vec![None, None]), Vec::<String>::new());
    assert_eq!(produced_texts(&Vec::new()), Vec::<String>::new());
}
