use surara::cursor::Cursor;
use surara::display::DisplayCommand;
use surara::editor::Surara;
use surara::key::KeyEvent;

fn text(lines: &[&str]) -> Vec<Vec<char>> {
    lines.iter().map(|l| l.chars().collect()).collect()
}

fn write(s: &str) -> DisplayCommand {
    let mut chars: Vec<char> = s.chars().collect();
    chars.push('\r');
    chars.push('\n');
    DisplayCommand::Write(chars)
}

fn goto(column: u128, row: u128) -> DisplayCommand {
    DisplayCommand::Goto { column, row }
}

fn press(session: &mut Surara, keys: &[KeyEvent]) {
    for key in keys {
        assert!(session.is_wf());
        assert!(session.step(*key).is_some());
    }
}

fn at(row: usize, column: usize) -> Cursor {
    Cursor { row, column }
}

#[test]
fn default_cursor_is_the_origin() {
    assert_eq!(Cursor::default(), at(0, 0));
}

#[test]
fn new_session_starts_at_the_origin_and_dirty() {
    let session = Surara::new(text(&["ab", "c"]));
    assert_eq!(session.cursor(), at(0, 0));
    assert_eq!(session.text().lines(), &text(&["ab", "c"]));
    assert!(session.text().is_dirty());
    assert!(session.is_wf());
}

#[test]
fn new_session_without_lines_has_no_line() {
    let session = Surara::new(Vec::new());
    assert_eq!(session.text().line_count(), 0);
    assert_eq!(session.text().lines(), &Vec::<Vec<char>>::new());
    assert_eq!(session.cursor(), at(0, 0));
    assert!(session.text().is_dirty());
    assert!(session.is_wf());
}

#[test]
fn new_session_keeps_an_empty_line_that_it_is_given() {
    let session = Surara::new(text(&[""]));
    assert_eq!(session.text().lines(), &text(&[""]));
    assert_eq!(session.text().line_count(), 1);
}

#[test]
fn moves_in_a_document_without_lines_are_absorbed() {
    let mut session = Surara::new(Vec::new());
    session.init();
    for key in [KeyEvent::Right, KeyEvent::Down, KeyEvent::Left, KeyEvent::Up, KeyEvent::Other] {
        let sent = session.step(key).unwrap();
        assert_eq!(sent, vec![goto(1, 1), DisplayCommand::Flush]);
        assert_eq!(session.cursor(), at(0, 0));
        assert_eq!(session.text().line_count(), 0);
        assert!(!session.text().is_dirty());
        assert!(session.is_wf());
    }
}

#[test]
fn draw_of_a_document_without_lines_writes_no_line() {
    let mut session = Surara::new(Vec::new());
    assert_eq!(
        session.draw(),
        vec![DisplayCommand::ClearAll, goto(1, 1), DisplayCommand::Flush]
    );
    assert!(!session.text().is_dirty());
    assert_eq!(session.draw(), Vec::new());
}

#[test]
fn init_of_a_document_without_lines_writes_no_line() {
    let mut session = Surara::new(Vec::new());
    assert_eq!(
        session.init(),
        vec![
            DisplayCommand::ClearAll,
            goto(1, 1),
            DisplayCommand::ClearAll,
            goto(1, 1),
            DisplayCommand::Flush,
            goto(1, 1),
            DisplayCommand::Flush,
        ]
    );
    assert_eq!(session.text().line_count(), 0);
}

#[test]
fn caret_of_a_document_without_lines_is_the_origin() {
    let session = Surara::new(Vec::new());
    assert_eq!(session.visual_column(), 0);
    assert_eq!(session.place_cursor(), goto(1, 1));
}

#[test]
fn typing_a_character_into_a_document_without_lines_makes_its_first_line() {
    let mut session = Surara::new(Vec::new());
    session.insert('日');
    assert_eq!(session.text().lines(), &text(&["日"]));
    assert_eq!(session.cursor(), at(0, 1));
    assert_eq!(session.visual_column(), 2);
    assert!(session.is_wf());
}

#[test]
fn typing_a_newline_into_a_document_without_lines_makes_two_empty_lines() {
    let mut session = Surara::new(Vec::new());
    session.insert('\n');
    assert_eq!(session.text().lines(), &text(&["", ""]));
    assert_eq!(session.cursor(), at(1, 0));
    assert!(session.is_wf());
}

#[test]
fn typing_a_control_character_into_a_document_without_lines_adds_no_line() {
    let mut session = Surara::new(Vec::new());
    session.init();
    let sent = session.step(KeyEvent::Char('\t')).unwrap();
    assert_eq!(session.text().line_count(), 0);
    assert_eq!(session.cursor(), at(0, 0));
    assert_eq!(
        sent,
        vec![DisplayCommand::ClearAll, goto(1, 1), DisplayCommand::Flush, goto(1, 1), DisplayCommand::Flush]
    );
}

#[test]
fn typing_into_an_empty_document() {
    let mut session = Surara::new(Vec::new());
    session.init();
    press(
        &mut session,
        &[KeyEvent::Char('a'), KeyEvent::Char('b'), KeyEvent::Char('\n'), KeyEvent::Char('c')],
    );
    assert_eq!(session.text().lines(), &text(&["ab", "c"]));
    assert_eq!(session.cursor(), at(1, 1));
}

#[test]
fn left_three_times_then_up_on_the_first_line() {
    let mut session = Surara::new(text(&["hello"]));
    press(&mut session, &[KeyEvent::Right; 5]);
    assert_eq!(session.cursor(), at(0, 5));
    press(&mut session, &[KeyEvent::Left; 3]);
    assert_eq!(session.cursor(), at(0, 2));
    press(&mut session, &[KeyEvent::Up]);
    assert_eq!(session.cursor(), at(0, 2));
}

#[test]
fn down_then_right_twice_stops_at_the_line_end() {
    let mut session = Surara::new(text(&["a", "bb"]));
    press(&mut session, &[KeyEvent::Down, KeyEvent::Right, KeyEvent::Right]);
    assert_eq!(session.cursor(), at(1, 2));
    press(&mut session, &[KeyEvent::Right]);
    assert_eq!(session.cursor(), at(1, 2));
}

#[test]
fn move_up_clamps_the_column() {
    let mut session = Surara::new(text(&["a", "bbb"]));
    press(&mut session, &[KeyEvent::Down, KeyEvent::Right, KeyEvent::Right, KeyEvent::Right]);
    assert_eq!(session.cursor(), at(1, 3));
    session.move_up();
    assert_eq!(session.cursor(), at(0, 1));
}

#[test]
fn move_up_keeps_a_column_that_fits() {
    let mut session = Surara::new(text(&["abcd", "bbb"]));
    press(&mut session, &[KeyEvent::Down, KeyEvent::Right, KeyEvent::Right]);
    session.move_up();
    assert_eq!(session.cursor(), at(0, 2));
}

#[test]
fn move_down_clamps_the_column() {
    let mut session = Surara::new(text(&["abc", "", "xy"]));
    press(&mut session, &[KeyEvent::Right, KeyEvent::Right, KeyEvent::Right]);
    session.move_down();
    assert_eq!(session.cursor(), at(1, 0));
    session.move_down();
    assert_eq!(session.cursor(), at(2, 0));
}

#[test]
fn move_down_on_the_last_line_is_absorbed() {
    let mut session = Surara::new(text(&["a", "b"]));
    session.move_down();
    session.move_right();
    session.move_down();
    assert_eq!(session.cursor(), at(1, 1));
}

#[test]
fn move_left_at_the_line_start_is_absorbed() {
    let mut session = Surara::new(text(&["a", "b"]));
    session.move_down();
    session.move_left();
    assert_eq!(session.cursor(), at(1, 0));
}

#[test]
fn move_right_on_an_empty_line_is_absorbed() {
    let mut session = Surara::new(text(&[""]));
    session.move_right();
    assert_eq!(session.cursor(), at(0, 0));
    assert_eq!(session.text().lines(), &text(&[""]));
}

#[test]
fn movement_never_repaints() {
    let mut session = Surara::new(text(&["hello", "wide 日本", ""]));
    session.init();
    assert!(!session.text().is_dirty());
    let keys = [
        KeyEvent::Right,
        KeyEvent::Down,
        KeyEvent::Down,
        KeyEvent::Down,
        KeyEvent::Left,
        KeyEvent::Up,
        KeyEvent::Right,
        KeyEvent::Right,
        KeyEvent::Up,
        KeyEvent::Up,
    ];
    for key in keys {
        let sent = session.step(key).unwrap();
        assert_eq!(sent.len(), 2);
        assert!(matches!(sent[0], DisplayCommand::Goto { .. }));
        assert_eq!(sent[1], DisplayCommand::Flush);
        assert!(!session.text().is_dirty());
        assert_eq!(session.text().lines(), &text(&["hello", "wide 日本", ""]));
    }
}

#[test]
fn cursor_stays_in_the_document_after_every_key() {
    let keys = [
        KeyEvent::Up,
        KeyEvent::Down,
        KeyEvent::Left,
        KeyEvent::Right,
        KeyEvent::Char('x'),
        KeyEvent::Char('\n'),
        KeyEvent::Char('\t'),
        KeyEvent::Char('語'),
        KeyEvent::Other,
    ];
    let mut session = Surara::new(text(&["ab", "", "cdef"]));
    let mut seed: u32 = 12345;
    for _ in 0..2000 {
        seed = seed.wrapping_mul(1103515245).wrapping_add(12345);
        let key = keys[(seed >> 16) as usize % keys.len()];
        assert!(session.step(key).is_some());
        let cursor = session.cursor();
        assert!(session.is_wf());
        assert!(cursor.row < session.text().line_count());
        assert!(cursor.column <= session.text().line_length(cursor.row).unwrap());
        assert!(session.text().lines().iter().all(|l| l.iter().all(|c| !c.is_control())));
    }
}

#[test]
fn cursor_rests_at_the_origin_until_a_document_has_a_line() {
    let keys = [
        KeyEvent::Up,
        KeyEvent::Down,
        KeyEvent::Left,
        KeyEvent::Right,
        KeyEvent::Char('\t'),
        KeyEvent::Other,
        KeyEvent::Char('x'),
        KeyEvent::Char('\n'),
    ];
    for first in 0..keys.len() {
        let mut session = Surara::new(Vec::new());
        let mut seed: u32 = 977 + first as u32;
        for turn in 0..200 {
            seed = seed.wrapping_mul(1103515245).wrapping_add(12345);
            let key = if turn == 0 { keys[first] } else { keys[(seed >> 16) as usize % keys.len()] };
            assert!(session.step(key).is_some());
            assert!(session.is_wf());
            let cursor = session.cursor();
            if session.text().line_count() == 0 {
                assert_eq!(cursor, at(0, 0));
            } else {
                assert!(cursor.row < session.text().line_count());
                assert!(cursor.column <= session.text().line_length(cursor.row).unwrap());
            }
        }
    }
}

#[test]
fn typing_a_character_lengthens_the_line_by_one() {
    let mut session = Surara::new(text(&["ac", "z"]));
    session.move_right();
    session.insert('b');
    assert_eq!(session.text().line_length(0), Ok(3));
    assert_eq!(session.cursor(), at(0, 2));
    assert_eq!(session.text().lines()[0][1], 'b');
    assert_eq!(session.text().lines(), &text(&["abc", "z"]));
    assert!(session.text().is_dirty());
}

#[test]
fn typing_a_newline_splits_the_line_at_the_cursor() {
    let mut session = Surara::new(text(&["hello", "z"]));
    session.move_right();
    session.move_right();
    session.insert('\n');
    assert_eq!(session.text().line_count(), 3);
    assert_eq!(session.text().line_length(0), Ok(2));
    assert_eq!(session.text().lines(), &text(&["he", "llo", "z"]));
    assert_eq!(session.cursor(), at(1, 0));
}

#[test]
fn typing_a_newline_at_the_line_end_opens_an_empty_line() {
    let mut session = Surara::new(text(&["ab"]));
    press(&mut session, &[KeyEvent::Right, KeyEvent::Right, KeyEvent::Char('\n')]);
    assert_eq!(session.text().lines(), &text(&["ab", ""]));
    assert_eq!(session.cursor(), at(1, 0));
}

#[test]
fn typing_a_control_character_changes_nothing_but_repaints() {
    let mut session = Surara::new(text(&["ab"]));
    session.init();
    session.move_right();
    let sent = session.step(KeyEvent::Char('\t')).unwrap();
    assert_eq!(session.text().lines(), &text(&["ab"]));
    assert_eq!(session.cursor(), at(0, 1));
    assert_eq!(
        sent,
        vec![DisplayCommand::ClearAll, goto(1, 1), write("ab"), DisplayCommand::Flush, goto(2, 1), DisplayCommand::Flush]
    );
    assert!(!session.text().is_dirty());
}

#[test]
fn visual_column_grows_by_two_for_a_wide_character() {
    let mut session = Surara::new(text(&["ab"]));
    session.move_right();
    assert_eq!(session.visual_column(), 1);
    session.insert('日');
    assert_eq!(session.cursor(), at(0, 2));
    assert_eq!(session.visual_column(), 3);
}

#[test]
fn visual_column_grows_by_one_for_a_narrow_character() {
    let mut session = Surara::new(text(&["日本"]));
    session.move_right();
    assert_eq!(session.visual_column(), 2);
    session.insert('x');
    assert_eq!(session.visual_column(), 3);
}

#[test]
fn visual_column_does_not_grow_for_a_combining_mark() {
    let mut session = Surara::new(text(&["e"]));
    session.move_right();
    session.insert('\u{301}');
    assert_eq!(session.cursor(), at(0, 2));
    assert_eq!(session.visual_column(), 1);
}

#[test]
fn visual_column_counts_only_what_is_before_the_cursor() {
    let mut session = Surara::new(text(&["日本語"]));
    assert_eq!(session.visual_column(), 0);
    session.move_right();
    assert_eq!(session.visual_column(), 2);
    session.move_right();
    session.move_right();
    assert_eq!(session.visual_column(), 6);
}

#[test]
fn loaded_control_characters_take_no_cells() {
    let mut session = Surara::new(vec![vec!['\t', 'a', 'b']]);
    session.move_right();
    assert_eq!(session.visual_column(), 0);
    session.move_right();
    assert_eq!(session.visual_column(), 1);
}

#[test]
fn place_cursor_counts_from_one() {
    let mut session = Surara::new(text(&["x", "日本語"]));
    assert_eq!(session.place_cursor(), goto(1, 1));
    press(&mut session, &[KeyEvent::Down, KeyEvent::Right]);
    assert_eq!(session.place_cursor(), goto(3, 2));
}

#[test]
fn init_paints_the_document_and_goes_to_the_origin() {
    let mut session = Surara::new(text(&["ab", "c"]));
    let sent = session.init();
    assert_eq!(
        sent,
        vec![
            DisplayCommand::ClearAll,
            goto(1, 1),
            DisplayCommand::ClearAll,
            goto(1, 1),
            write("ab"),
            write("c"),
            DisplayCommand::Flush,
            goto(1, 1),
            DisplayCommand::Flush,
        ]
    );
    assert!(!session.text().is_dirty());
    assert_eq!(session.cursor(), at(0, 0));
}

#[test]
fn init_paints_also_what_is_clean() {
    let mut session = Surara::new(text(&["ab"]));
    assert!(session.draw().len() > 0);
    assert!(!session.text().is_dirty());
    let sent = session.init();
    assert_eq!(
        sent,
        vec![
            DisplayCommand::ClearAll,
            goto(1, 1),
            DisplayCommand::ClearAll,
            goto(1, 1),
            write("ab"),
            DisplayCommand::Flush,
            goto(1, 1),
            DisplayCommand::Flush,
        ]
    );
}

#[test]
fn draw_paints_once() {
    let mut session = Surara::new(text(&["ab", ""]));
    let first = session.draw();
    assert_eq!(
        first,
        vec![DisplayCommand::ClearAll, goto(1, 1), write("ab"), write(""), DisplayCommand::Flush]
    );
    assert!(!session.text().is_dirty());
    let second = session.draw();
    assert_eq!(second, Vec::new());
}

#[test]
fn render_of_a_clean_document_places_the_cursor_only() {
    let mut session = Surara::new(text(&["ab"]));
    session.init();
    session.move_right();
    assert_eq!(session.render(), vec![goto(2, 1), DisplayCommand::Flush]);
}

#[test]
fn step_after_typing_repaints_then_places_the_cursor() {
    let mut session = Surara::new(text(&["a"]));
    session.init();
    let sent = session.step(KeyEvent::Char('日')).unwrap();
    assert_eq!(
        sent,
        vec![
            DisplayCommand::ClearAll,
            goto(1, 1),
            write("日a"),
            DisplayCommand::Flush,
            goto(3, 1),
            DisplayCommand::Flush,
        ]
    );
    assert!(!session.text().is_dirty());
}

#[test]
fn terminate_ends_the_session_and_sends_nothing() {
    let mut session = Surara::new(text(&["ab"]));
    session.move_right();
    assert_eq!(session.step(KeyEvent::Terminate), None);
    assert_eq!(session.cursor(), at(0, 1));
    assert_eq!(session.text().lines(), &text(&["ab"]));
    assert!(session.text().is_dirty());
}

#[test]
fn apply_says_whether_the_session_goes_on() {
    let mut session = Surara::new(text(&["ab"]));
    assert!(session.apply(KeyEvent::Right));
    assert!(session.apply(KeyEvent::Char('x')));
    assert!(session.apply(KeyEvent::Other));
    assert!(!session.apply(KeyEvent::Terminate));
    assert_eq!(session.text().lines(), &text(&["axb"]));
    assert_eq!(session.cursor(), at(0, 2));
}

#[test]
fn other_keys_are_ignored() {
    let mut session = Surara::new(text(&["ab"]));
    session.init();
    session.move_right();
    let sent = session.step(KeyEvent::Other).unwrap();
    assert_eq!(sent, vec![goto(2, 1), DisplayCommand::Flush]);
    assert_eq!(session.cursor(), at(0, 1));
    assert_eq!(session.text().lines(), &text(&["ab"]));
}
