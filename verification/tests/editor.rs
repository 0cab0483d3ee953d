use hecto::editor::terminal::{Command, Position, Size};
use hecto::editor::{
    classify, move_caret, Direction, Editor, EditorCommand, Event, KeyCode, KeyEvent,
    KeyEventKind, Modifiers,
};

fn plain_key(code: KeyCode) -> Event {
    Event::Key(KeyEvent {
        code,
        modifiers: Modifiers { ctrl: false, alt: false, shift: false },
        kind: KeyEventKind::Press,
    })
}

fn quit_chord() -> Event {
    Event::Key(KeyEvent {
        code: KeyCode::Char('c'),
        modifiers: Modifiers { ctrl: true, alt: false, shift: false },
        kind: KeyEventKind::Press,
    })
}

#[test]
fn default_editor_starts_running_at_origin() {
    let editor = Editor::default();
    assert!(!editor.should_quit);
    assert_eq!(editor.caret, Position { col: 0, row: 0 });
}

#[test]
fn quit_chord_classifies_as_quit() {
    assert_eq!(classify(&quit_chord()), Some(EditorCommand::Quit));
}

#[test]
fn arrow_and_mnemonic_keys_classify_alike() {
    let pairs = [
        (KeyCode::Up, KeyCode::Char('k'), Direction::Up),
        (KeyCode::Down, KeyCode::Char('j'), Direction::Down),
        (KeyCode::Left, KeyCode::Char('h'), Direction::Left),
        (KeyCode::Right, KeyCode::Char('l'), Direction::Right),
    ];
    for (arrow, mnemonic, direction) in pairs {
        assert_eq!(classify(&plain_key(arrow)), Some(EditorCommand::Move(direction)));
        assert_eq!(classify(&plain_key(mnemonic)), Some(EditorCommand::Move(direction)));
    }
}

#[test]
fn jump_keys_classify_as_jumps() {
    assert_eq!(classify(&plain_key(KeyCode::PageUp)), Some(EditorCommand::Move(Direction::Top)));
    assert_eq!(
        classify(&plain_key(KeyCode::PageDown)),
        Some(EditorCommand::Move(Direction::Bottom))
    );
    assert_eq!(
        classify(&plain_key(KeyCode::Home)),
        Some(EditorCommand::Move(Direction::LineStart))
    );
    assert_eq!(classify(&plain_key(KeyCode::End)), Some(EditorCommand::Move(Direction::LineEnd)));
}

#[test]
fn releases_repeats_and_other_input_are_ignored() {
    for kind in [KeyEventKind::Repeat, KeyEventKind::Release] {
        let event = Event::Key(KeyEvent {
            code: KeyCode::Char('c'),
            modifiers: Modifiers { ctrl: true, alt: false, shift: false },
            kind,
        });
        assert_eq!(classify(&event), None);
    }
    let chord_with_shift = Event::Key(KeyEvent {
        code: KeyCode::Char('c'),
        modifiers: Modifiers { ctrl: true, alt: false, shift: true },
        kind: KeyEventKind::Press,
    });
    assert_eq!(classify(&chord_with_shift), None);
    assert_eq!(classify(&plain_key(KeyCode::Char('c'))), None);
    assert_eq!(classify(&Event::Other), None);
}

#[test]
fn up_saturates_at_the_top() {
    // Caret at the origin on a 20-row screen: "up" leaves it at the origin.
    let size = Size { width: 40, height: 20 };
    let moved = move_caret(Position { col: 0, row: 0 }, Direction::Up, size);
    assert_eq!(moved, Position { col: 0, row: 0 });
}

#[test]
fn right_clamps_to_a_shrunk_terminal() {
    // Caret at (5, 5) when the terminal shrinks to width 3: "right" clamps
    // the column to 2, not 6.
    let size = Size { width: 3, height: 20 };
    let moved = move_caret(Position { col: 5, row: 5 }, Direction::Right, size);
    assert_eq!(moved, Position { col: 2, row: 5 });
}

#[test]
fn steps_move_one_cell_within_bounds() {
    let size = Size { width: 40, height: 20 };
    let start = Position { col: 5, row: 5 };
    assert_eq!(move_caret(start, Direction::Up, size), Position { col: 5, row: 4 });
    assert_eq!(move_caret(start, Direction::Down, size), Position { col: 5, row: 6 });
    assert_eq!(move_caret(start, Direction::Left, size), Position { col: 4, row: 5 });
    assert_eq!(move_caret(start, Direction::Right, size), Position { col: 6, row: 5 });
}

#[test]
fn jumps_land_on_the_screen_edges() {
    let size = Size { width: 40, height: 20 };
    let start = Position { col: 5, row: 5 };
    assert_eq!(move_caret(start, Direction::Top, size), Position { col: 5, row: 0 });
    assert_eq!(move_caret(start, Direction::Bottom, size), Position { col: 5, row: 19 });
    assert_eq!(move_caret(start, Direction::LineStart, size), Position { col: 0, row: 5 });
    assert_eq!(move_caret(start, Direction::LineEnd, size), Position { col: 39, row: 5 });
}

#[test]
fn movement_stays_in_bounds_on_a_degenerate_terminal() {
    let size = Size { width: 0, height: 0 };
    for direction in [
        Direction::Up,
        Direction::Down,
        Direction::Left,
        Direction::Right,
        Direction::Top,
        Direction::Bottom,
        Direction::LineStart,
        Direction::LineEnd,
    ] {
        let moved = move_caret(Position { col: 7, row: 7 }, direction, size);
        assert_eq!(moved, Position { col: 0, row: 0 });
    }
}

#[test]
fn movement_key_sequence_stays_in_bounds() {
    let size = Size { width: 3, height: 2 };
    let mut caret = Position { col: 0, row: 0 };
    let script = [
        Direction::Right,
        Direction::Right,
        Direction::Right,
        Direction::Down,
        Direction::Down,
        Direction::Up,
        Direction::Left,
        Direction::Bottom,
        Direction::LineEnd,
        Direction::Right,
        Direction::Down,
    ];
    for direction in script {
        caret = move_caret(caret, direction, size);
        assert!(caret.col < size.width);
        assert!(caret.row < size.height);
    }
    assert_eq!(caret, Position { col: 2, row: 1 });
}

#[test]
fn quit_chord_quits_from_any_state() {
    let size = Size { width: 40, height: 20 };
    let mut editor = Editor::default();
    editor.evaluate_event(&plain_key(KeyCode::Right), size);
    assert!(!editor.should_quit);
    editor.evaluate_event(&quit_chord(), size);
    assert!(editor.should_quit);
}

#[test]
fn quitting_is_never_undone_by_later_events() {
    let size = Size { width: 40, height: 20 };
    let mut editor = Editor::default();
    editor.evaluate_event(&quit_chord(), size);
    assert!(editor.should_quit);
    editor.evaluate_event(&plain_key(KeyCode::Down), size);
    editor.evaluate_event(&Event::Other, size);
    editor.evaluate_event(&quit_chord(), size);
    assert!(editor.should_quit);
}

#[test]
fn movement_events_update_the_editor_caret() {
    let size = Size { width: 40, height: 20 };
    let mut editor = Editor::default();
    editor.evaluate_event(&plain_key(KeyCode::Down), size);
    editor.evaluate_event(&plain_key(KeyCode::Right), size);
    editor.evaluate_event(&plain_key(KeyCode::Char('l')), size);
    assert_eq!(editor.caret, Position { col: 2, row: 1 });
    editor.evaluate_event(&Event::Other, size);
    assert_eq!(editor.caret, Position { col: 2, row: 1 });
}

#[test]
fn goodbye_screen_replaces_the_viewport_when_quitting() {
    let size = Size { width: 40, height: 4 };
    let mut editor = Editor::default();
    let mut terminal = hecto::editor::terminal::Terminal::new();
    editor.evaluate_event(&quit_chord(), size);
    editor.refresh_screen(size, &mut terminal);
    let commands = terminal.execute();
    assert_eq!(
        commands,
        vec![Command::ClearScreen, Command::Print(String::from("Goodbye.\r\n"))]
    );
}

#[test]
fn running_refresh_renders_then_parks_the_caret() {
    let size = Size { width: 40, height: 4 };
    let editor = Editor::default();
    let mut terminal = hecto::editor::terminal::Terminal::new();
    editor.refresh_screen(size, &mut terminal);
    let commands = terminal.execute();
    assert_eq!(commands.len(), 3 * 4 - 1 + 1);
    assert_eq!(commands[0], Command::ClearLine);
    assert_eq!(commands[1], Command::Print(String::from("Hello, World!")));
    assert_eq!(
        commands.last(),
        Some(&Command::MoveCaretTo(Position { col: 0, row: 0 }))
    );
}
