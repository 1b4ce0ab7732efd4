use modal_editor::buffer::Buffer;
use modal_editor::buffer::BufferPosition;
use modal_editor::editor::Editor;
use modal_editor::editor::Mode;
use modal_editor::keymap::Key;
use modal_editor::keymap::KeyMap;
use modal_editor::keymap::KeyResolution;

fn untitled_editor() -> Editor {
    Editor::new(vec![Buffer::untitled()])
}

/// One key press routed the way the interactive loop routes it: resolve
/// against the current mode, then execute whatever action is bound.
fn press(editor: &mut Editor, key: Key) {
    let keymap = KeyMap::default();
    match keymap.handle_key(&key, editor.get_mode()) {
        KeyResolution::Bound(action) => {
            editor.execute_editor_action(action);
        }
        _ => {}
    }
}

fn buffer_lines(editor: &Editor) -> Vec<String> {
    editor
        .current_buffer()
        .lines
        .iter()
        .map(|l| l.iter().collect::<String>())
        .collect()
}

fn strs(xs: &[&str]) -> Vec<String> {
    xs.iter().map(|s| s.to_string()).collect()
}

fn type_lines(editor: &mut Editor, lines: &[&str]) {
    press(editor, Key::Char('i'));
    for (i, line) in lines.iter().enumerate() {
        for c in line.chars() {
            press(editor, Key::Char(c));
        }
        if i != lines.len() - 1 {
            press(editor, Key::Enter);
        }
    }
    press(editor, Key::Esc);
}

#[test]
fn test_create_unnamed_editor() {
    let editor = untitled_editor();
    assert_eq!(editor.current_bufpos(), BufferPosition { line: 0, col: 0 });
    assert_eq!(editor.get_mode(), &Mode::Normal);
    assert!(editor.current_buffer().read_name().is_none());
    assert!(editor.current_buffer().path().is_none());
}

#[test]
fn test_create_named_editor() {
    let editor = Editor::new(vec![Buffer::empty(
        "newfile.txt".to_string(),
        "newdir/newfile.txt".to_string(),
    )]);
    assert_eq!(editor.current_bufpos(), BufferPosition { line: 0, col: 0 });
    assert_eq!(editor.get_mode(), &Mode::Normal);
    assert_eq!(
        editor.current_buffer().read_name(),
        Some(&"newfile.txt".to_string())
    );
    assert_eq!(
        editor.current_buffer().path(),
        Some(&"newdir/newfile.txt".to_string())
    );
}

#[test]
fn test_simple_one_line_input() {
    let mut editor = untitled_editor();
    press(&mut editor, Key::Char('i'));
    press(&mut editor, Key::Char('a'));
    press(&mut editor, Key::Char('b'));
    press(&mut editor, Key::Char('c'));
    press(&mut editor, Key::Char('d'));
    press(&mut editor, Key::Char('1'));
    press(&mut editor, Key::Char('2'));
    press(&mut editor, Key::Char('3'));
    press(&mut editor, Key::Char('!'));
    assert_eq!(editor.current_bufpos(), BufferPosition { line: 0, col: 8 });
    assert_eq!(editor.get_mode(), &Mode::Insert);
    press(&mut editor, Key::Esc);
    assert_eq!(editor.current_bufpos(), BufferPosition { line: 0, col: 7 });
    assert_eq!(editor.get_mode(), &Mode::Normal);
    assert_eq!(buffer_lines(&editor), strs(&["abcd123!"]));
}

#[test]
fn test_multi_line_input() {
    let mut editor = untitled_editor();
    press(&mut editor, Key::Char('i'));
    assert_eq!(editor.current_bufpos(), BufferPosition { line: 0, col: 0 });
    press(&mut editor, Key::Enter);
    assert_eq!(editor.current_bufpos(), BufferPosition { line: 1, col: 0 });
    press(&mut editor, Key::Char('H'));
    press(&mut editor, Key::Char('e'));
    press(&mut editor, Key::Char('l'));
    press(&mut editor, Key::Char('l'));
    press(&mut editor, Key::Char('o'));
    assert_eq!(editor.current_bufpos(), BufferPosition { line: 1, col: 5 });
    press(&mut editor, Key::Enter);
    assert_eq!(editor.current_bufpos(), BufferPosition { line: 2, col: 0 });
    press(&mut editor, Key::Char('W'));
    press(&mut editor, Key::Char('o'));
    press(&mut editor, Key::Char('r'));
    press(&mut editor, Key::Char('l'));
    press(&mut editor, Key::Char('d'));
    assert_eq!(editor.current_bufpos(), BufferPosition { line: 2, col: 5 });
    press(&mut editor, Key::Enter);
    assert_eq!(editor.current_bufpos(), BufferPosition { line: 3, col: 0 });
    press(&mut editor, Key::Char('!'));
    assert_eq!(editor.current_bufpos(), BufferPosition { line: 3, col: 1 });
    press(&mut editor, Key::Esc);
    assert_eq!(editor.current_bufpos(), BufferPosition { line: 3, col: 0 });
    assert_eq!(buffer_lines(&editor), strs(&["", "Hello", "World", "!"]));
}

#[test]
fn test_text_with_multiple_line_breaks() {
    let mut editor = untitled_editor();
    press(&mut editor, Key::Char('i'));
    assert_eq!(editor.current_bufpos(), BufferPosition { line: 0, col: 0 });
    press(&mut editor, Key::Char('a'));
    press(&mut editor, Key::Char('b'));
    press(&mut editor, Key::Char('c'));
    assert_eq!(editor.current_bufpos(), BufferPosition { line: 0, col: 3 });
    press(&mut editor, Key::Enter);
    assert_eq!(editor.current_bufpos(), BufferPosition { line: 1, col: 0 });
    press(&mut editor, Key::Char('d'));
    press(&mut editor, Key::Char('e'));
    press(&mut editor, Key::Char('f'));
    press(&mut editor, Key::Char('g'));
    press(&mut editor, Key::Char('h'));
    assert_eq!(editor.current_bufpos(), BufferPosition { line: 1, col: 5 });
    press(&mut editor, Key::Enter);
    assert_eq!(editor.current_bufpos(), BufferPosition { line: 2, col: 0 });
    press(&mut editor, Key::Enter);
    assert_eq!(editor.current_bufpos(), BufferPosition { line: 3, col: 0 });
    press(&mut editor, Key::Enter);
    assert_eq!(editor.current_bufpos(), BufferPosition { line: 4, col: 0 });
    press(&mut editor, Key::Char('i'));
    press(&mut editor, Key::Char('j'));
    press(&mut editor, Key::Char('k'));
    press(&mut editor, Key::Char('l'));
    press(&mut editor, Key::Esc);
    assert_eq!(editor.current_bufpos(), BufferPosition { line: 4, col: 3 });
    assert_eq!(
        buffer_lines(&editor),
        strs(&["abc", "defgh", "", "", "ijkl"])
    );
}

#[test]
fn test_forward_deletion_in_empty_buffer_in_normal_mode() {
    let mut editor = untitled_editor();
    assert!(editor.current_buffer().lines.is_empty());
    assert_eq!(editor.current_bufpos(), BufferPosition { line: 0, col: 0 });
    press(&mut editor, Key::Char('x'));
    assert!(editor.current_buffer().lines.is_empty());
    assert_eq!(editor.current_bufpos(), BufferPosition { line: 0, col: 0 });
}

#[test]
fn test_forward_deletion_at_the_end_in_normal_mode() {
    let mut editor = untitled_editor();
    let lines = ["abcdefgh", "ijklmnop", "qrstu"];
    press(&mut editor, Key::Char('i'));
    for (i, line) in lines.iter().enumerate() {
        for c in line.chars() {
            press(&mut editor, Key::Char(c));
        }
        if i != lines.len() - 1 {
            press(&mut editor, Key::Enter);
        }
    }
    press(&mut editor, Key::Esc);
    assert_eq!(buffer_lines(&editor), strs(&lines));
    assert_eq!(editor.current_bufpos(), BufferPosition { line: 2, col: 4 });
    press(&mut editor, Key::Char('x'));
    assert_eq!(buffer_lines(&editor), strs(&["abcdefgh", "ijklmnop", "qrst"]));
    assert_eq!(editor.current_bufpos(), BufferPosition { line: 2, col: 3 });
    press(&mut editor, Key::Char('x'));
    press(&mut editor, Key::Char('x'));
    press(&mut editor, Key::Char('x'));
    press(&mut editor, Key::Char('x'));
    assert_eq!(buffer_lines(&editor), strs(&["abcdefgh", "ijklmnop", ""]));
    assert_eq!(editor.current_bufpos(), BufferPosition { line: 2, col: 0 });
    press(&mut editor, Key::Char('x'));
    assert_eq!(buffer_lines(&editor), strs(&["abcdefgh", "ijklmnop", ""]));
    assert_eq!(editor.current_bufpos(), BufferPosition { line: 2, col: 0 });
}

#[test]
fn test_forward_deletion_in_the_middle_in_normal_mode() {
    let mut editor = untitled_editor();
    let lines = ["abcdefgh", "ijklmnop", "qrstu"];
    press(&mut editor, Key::Char('i'));
    for (i, line) in lines.iter().enumerate() {
        for c in line.chars() {
            press(&mut editor, Key::Char(c));
        }
        if i != lines.len() - 1 {
            press(&mut editor, Key::Enter);
        }
    }
    press(&mut editor, Key::Esc);
    assert_eq!(buffer_lines(&editor), strs(&lines));
    assert_eq!(editor.current_bufpos(), BufferPosition { line: 2, col: 4 });
    press(&mut editor, Key::Char('h'));
    press(&mut editor, Key::Char('k'));
    assert_eq!(editor.current_bufpos(), BufferPosition { line: 1, col: 3 });
    press(&mut editor, Key::Char('x'));
    assert_eq!(buffer_lines(&editor), strs(&["abcdefgh", "ijkmnop", "qrstu"]));
    assert_eq!(editor.current_bufpos(), BufferPosition { line: 1, col: 3 });
    for _ in 0..4 {
        press(&mut editor, Key::Char('x'));
    }
    assert_eq!(buffer_lines(&editor), strs(&["abcdefgh", "ijk", "qrstu"]));
    assert_eq!(editor.current_bufpos(), BufferPosition { line: 1, col: 2 });
    for _ in 0..3 {
        press(&mut editor, Key::Char('x'));
    }
    assert_eq!(buffer_lines(&editor), strs(&["abcdefgh", "", "qrstu"]));
    assert_eq!(editor.current_bufpos(), BufferPosition { line: 1, col: 0 });
    press(&mut editor, Key::Char('x'));
    assert_eq!(buffer_lines(&editor), strs(&["abcdefgh", "", "qrstu"]));
    assert_eq!(editor.current_bufpos(), BufferPosition { line: 1, col: 0 });
}

#[test]
fn test_forward_deletion_at_the_start_in_normal_mode() {
    let mut editor = untitled_editor();
    let lines = ["abcdefgh", "ijklmnop", "qrstu"];
    press(&mut editor, Key::Char('i'));
    for (i, line) in lines.iter().enumerate() {
        for c in line.chars() {
            press(&mut editor, Key::Char(c));
        }
        if i != lines.len() - 1 {
            press(&mut editor, Key::Enter);
        }
    }
    press(&mut editor, Key::Esc);
    assert_eq!(buffer_lines(&editor), strs(&lines));
    assert_eq!(editor.current_bufpos(), BufferPosition { line: 2, col: 4 });
    press(&mut editor, Key::Char('k'));
    press(&mut editor, Key::Char('0'));
    assert_eq!(editor.current_bufpos(), BufferPosition { line: 1, col: 0 });
    press(&mut editor, Key::Char('x'));
    assert_eq!(buffer_lines(&editor), strs(&["abcdefgh", "jklmnop", "qrstu"]));
    assert_eq!(editor.current_bufpos(), BufferPosition { line: 1, col: 0 });
    for _ in 0..3 {
        press(&mut editor, Key::Char('x'));
    }
    assert_eq!(buffer_lines(&editor), strs(&["abcdefgh", "mnop", "qrstu"]));
    assert_eq!(editor.current_bufpos(), BufferPosition { line: 1, col: 0 });
    for _ in 0..4 {
        press(&mut editor, Key::Char('x'));
    }
    assert_eq!(buffer_lines(&editor), strs(&["abcdefgh", "", "qrstu"]));
    assert_eq!(editor.current_bufpos(), BufferPosition { line: 1, col: 0 });
}

#[test]
fn test_backward_deletion_in_empty_buffer_in_normal_mode() {
    let mut editor = untitled_editor();
    assert!(editor.current_buffer().lines.is_empty());
    assert_eq!(editor.current_bufpos(), BufferPosition { line: 0, col: 0 });
    press(&mut editor, Key::Char('X'));
    assert!(editor.current_buffer().lines.is_empty());
    assert_eq!(editor.current_bufpos(), BufferPosition { line: 0, col: 0 });
}

#[test]
fn test_deletion_in_empty_buffer_in_insert_mode() {
    let mut editor = untitled_editor();
    assert!(editor.current_buffer().lines.is_empty());
    assert_eq!(editor.current_bufpos(), BufferPosition { line: 0, col: 0 });
    press(&mut editor, Key::Char('i'));
    press(&mut editor, Key::Backspace);
    assert!(editor.current_buffer().lines.is_empty());
    assert_eq!(editor.current_bufpos(), BufferPosition { line: 0, col: 0 });
    press(&mut editor, Key::Delete);
    assert!(editor.current_buffer().lines.is_empty());
    assert_eq!(editor.current_bufpos(), BufferPosition { line: 0, col: 0 });
}

#[test]
fn test_backward_deletion_at_the_start_in_normal_mode() {
    let mut editor = untitled_editor();
    let lines = ["abcdefgh", "ijklmnop", "qrstu"];
    press(&mut editor, Key::Char('i'));
    for (i, line) in lines.iter().enumerate() {
        for c in line.chars() {
            press(&mut editor, Key::Char(c));
        }
        if i != lines.len() - 1 {
            press(&mut editor, Key::Enter);
        }
    }
    press(&mut editor, Key::Esc);
    press(&mut editor, Key::Char('k'));
    press(&mut editor, Key::Char('k'));
    press(&mut editor, Key::Char('0'));
    assert_eq!(buffer_lines(&editor), strs(&lines));
    assert_eq!(editor.current_bufpos(), BufferPosition { line: 0, col: 0 });
    press(&mut editor, Key::Char('X'));
    assert_eq!(buffer_lines(&editor), strs(&lines));
    assert_eq!(editor.current_bufpos(), BufferPosition { line: 0, col: 0 });
}

#[test]
fn test_backward_deletion_middle_and_start_in_normal_mode() {
    let mut editor = untitled_editor();
    let lines = ["abcdefgh", "ijklmnop", "qrstu"];
    press(&mut editor, Key::Char('i'));
    for (i, line) in lines.iter().enumerate() {
        for c in line.chars() {
            press(&mut editor, Key::Char(c));
        }
        if i != lines.len() - 1 {
            press(&mut editor, Key::Enter);
        }
    }
    press(&mut editor, Key::Esc);
    press(&mut editor, Key::Char('k'));
    assert_eq!(buffer_lines(&editor), strs(&lines));
    assert_eq!(editor.current_bufpos(), BufferPosition { line: 1, col: 4 });
    press(&mut editor, Key::Char('X'));
    assert_eq!(buffer_lines(&editor), strs(&["abcdefgh", "ijkmnop", "qrstu"]));
    assert_eq!(editor.current_bufpos(), BufferPosition { line: 1, col: 3 });
    press(&mut editor, Key::Char('X'));
    press(&mut editor, Key::Char('X'));
    press(&mut editor, Key::Char('X'));
    assert_eq!(buffer_lines(&editor), strs(&["abcdefgh", "mnop", "qrstu"]));
    assert_eq!(editor.current_bufpos(), BufferPosition { line: 1, col: 0 });
    press(&mut editor, Key::Char('X'));
    assert_eq!(buffer_lines(&editor), strs(&["abcdefgh", "mnop", "qrstu"]));
    assert_eq!(editor.current_bufpos(), BufferPosition { line: 1, col: 0 });
}

#[test]
fn test_backward_deletion_in_empty_line_in_normal_mode() {
    let mut editor = untitled_editor();
    let lines = ["abcdefgh", "", "qrstu"];
    press(&mut editor, Key::Char('i'));
    for (i, line) in lines.iter().enumerate() {
        for c in line.chars() {
            press(&mut editor, Key::Char(c));
        }
        if i != lines.len() - 1 {
            press(&mut editor, Key::Enter);
        }
    }
    press(&mut editor, Key::Esc);
    press(&mut editor, Key::Char('k'));
    assert_eq!(buffer_lines(&editor), strs(&lines));
    assert_eq!(editor.current_bufpos(), BufferPosition { line: 1, col: 0 });
    press(&mut editor, Key::Char('X'));
    assert_eq!(buffer_lines(&editor), strs(&lines));
    assert_eq!(editor.current_bufpos(), BufferPosition { line: 1, col: 0 });
}

#[test]
fn test_backward_deletion_at_the_end_in_normal_mode() {
    let mut editor = untitled_editor();
    let lines = ["abcdefgh", "ijklmnop", "qrstu"];
    press(&mut editor, Key::Char('i'));
    for (i, line) in lines.iter().enumerate() {
        for c in line.chars() {
            press(&mut editor, Key::Char(c));
        }
        if i != lines.len() - 1 {
            press(&mut editor, Key::Enter);
        }
    }
    press(&mut editor, Key::Esc);
    assert_eq!(buffer_lines(&editor), strs(&lines));
    assert_eq!(editor.current_bufpos(), BufferPosition { line: 2, col: 4 });
    press(&mut editor, Key::Char('X'));
    assert_eq!(buffer_lines(&editor), strs(&["abcdefgh", "ijklmnop", "qrsu"]));
    assert_eq!(editor.current_bufpos(), BufferPosition { line: 2, col: 3 });
    press(&mut editor, Key::Char('X'));
    press(&mut editor, Key::Char('X'));
    press(&mut editor, Key::Char('X'));
    assert_eq!(buffer_lines(&editor), strs(&["abcdefgh", "ijklmnop", "u"]));
    assert_eq!(editor.current_bufpos(), BufferPosition { line: 2, col: 0 });
    press(&mut editor, Key::Char('X'));
    assert_eq!(buffer_lines(&editor), strs(&["abcdefgh", "ijklmnop", "u"]));
    assert_eq!(editor.current_bufpos(), BufferPosition { line: 2, col: 0 });
}

#[test]
fn test_forward_deletion_at_the_end_in_insert_mode() {
    let mut editor = untitled_editor();
    let lines = ["abcdefgh", "ijklmnop", "qrstu"];
    press(&mut editor, Key::Char('i'));
    for (i, line) in lines.iter().enumerate() {
        for c in line.chars() {
            press(&mut editor, Key::Char(c));
        }
        if i != lines.len() - 1 {
            press(&mut editor, Key::Enter);
        }
    }
    assert_eq!(buffer_lines(&editor), strs(&lines));
    assert_eq!(editor.current_bufpos(), BufferPosition { line: 2, col: 5 });
    press(&mut editor, Key::Delete);
    assert_eq!(buffer_lines(&editor), strs(&lines));
    assert_eq!(editor.current_bufpos(), BufferPosition { line: 2, col: 5 });
}

#[test]
fn test_forward_deletion_middle_and_end_in_insert_mode() {
    let mut editor = untitled_editor();
    let lines = ["abcdefgh", "ijklmnop", "qrstu"];
    press(&mut editor, Key::Char('i'));
    for (i, line) in lines.iter().enumerate() {
        for c in line.chars() {
            press(&mut editor, Key::Char(c));
        }
        if i != lines.len() - 1 {
            press(&mut editor, Key::Enter);
        }
    }
    press(&mut editor, Key::Esc);
    press(&mut editor, Key::Char('k'));
    press(&mut editor, Key::Char('i'));
    assert_eq!(buffer_lines(&editor), strs(&lines));
    assert_eq!(editor.current_bufpos(), BufferPosition { line: 1, col: 4 });
    press(&mut editor, Key::Delete);
    assert_eq!(buffer_lines(&editor), strs(&["abcdefgh", "ijklnop", "qrstu"]));
    assert_eq!(editor.current_bufpos(), BufferPosition { line: 1, col: 4 });
    press(&mut editor, Key::Delete);
    press(&mut editor, Key::Delete);
    press(&mut editor, Key::Delete);
    assert_eq!(buffer_lines(&editor), strs(&["abcdefgh", "ijkl", "qrstu"]));
    assert_eq!(editor.current_bufpos(), BufferPosition { line: 1, col: 4 });
    press(&mut editor, Key::Delete);
    assert_eq!(buffer_lines(&editor), strs(&["abcdefgh", "ijklqrstu"]));
    assert_eq!(editor.current_bufpos(), BufferPosition { line: 1, col: 4 });
}

#[test]
fn test_forward_deletion_at_the_start_in_insert_mode() {
    let mut editor = untitled_editor();
    let lines = ["abcdefgh", "ijklmnop", "qrstu"];
    press(&mut editor, Key::Char('i'));
    for (i, line) in lines.iter().enumerate() {
        for c in line.chars() {
            press(&mut editor, Key::Char(c));
        }
        if i != lines.len() - 1 {
            press(&mut editor, Key::Enter);
        }
    }
    press(&mut editor, Key::Esc);
    press(&mut editor, Key::Char('k'));
    press(&mut editor, Key::Char('k'));
    press(&mut editor, Key::Char('0'));
    press(&mut editor, Key::Char('i'));
    assert_eq!(buffer_lines(&editor), strs(&lines));
    assert_eq!(editor.current_bufpos(), BufferPosition { line: 0, col: 0 });
    press(&mut editor, Key::Delete);
    assert_eq!(buffer_lines(&editor), strs(&["bcdefgh", "ijklmnop", "qrstu"]));
    assert_eq!(editor.current_bufpos(), BufferPosition { line: 0, col: 0 });
}

#[test]
fn test_forward_deletion_appending_empty_line() {
    let mut editor = untitled_editor();
    let lines = ["abcdefgh", "ijklmnop", "", "", "qrstu"];
    press(&mut editor, Key::Char('i'));
    for (i, line) in lines.iter().enumerate() {
        for c in line.chars() {
            press(&mut editor, Key::Char(c));
        }
        if i != lines.len() - 1 {
            press(&mut editor, Key::Enter);
        }
    }
    press(&mut editor, Key::Esc);
    press(&mut editor, Key::Char('k'));
    press(&mut editor, Key::Char('k'));
    press(&mut editor, Key::Char('k'));
    press(&mut editor, Key::Char('A'));
    assert_eq!(buffer_lines(&editor), strs(&lines));
    assert_eq!(editor.current_bufpos(), BufferPosition { line: 1, col: 8 });
    press(&mut editor, Key::Delete);
    assert_eq!(
        buffer_lines(&editor),
        strs(&["abcdefgh", "ijklmnop", "", "qrstu"])
    );
    assert_eq!(editor.current_bufpos(), BufferPosition { line: 1, col: 8 });
}

#[test]
fn test_forward_deletion_appending_to_empty_line() {
    let mut editor = untitled_editor();
    let lines = ["abcdefgh", "ijklmnop", "", "", "qrstu"];
    press(&mut editor, Key::Char('i'));
    for (i, line) in lines.iter().enumerate() {
        for c in line.chars() {
            press(&mut editor, Key::Char(c));
        }
        if i != lines.len() - 1 {
            press(&mut editor, Key::Enter);
        }
    }
    press(&mut editor, Key::Esc);
    press(&mut editor, Key::Char('k'));
    press(&mut editor, Key::Char('A'));
    assert_eq!(buffer_lines(&editor), strs(&lines));
    assert_eq!(editor.current_bufpos(), BufferPosition { line: 3, col: 0 });
    press(&mut editor, Key::Delete);
    assert_eq!(
        buffer_lines(&editor),
        strs(&["abcdefgh", "ijklmnop", "", "qrstu"])
    );
    assert_eq!(editor.current_bufpos(), BufferPosition { line: 3, col: 0 });
}

#[test]
fn test_forward_deletion_joining_empty_lines() {
    let mut editor = untitled_editor();
    let lines = ["abcdefgh", "ijklmnop", "", "", "qrstu"];
    press(&mut editor, Key::Char('i'));
    for (i, line) in lines.iter().enumerate() {
        for c in line.chars() {
            press(&mut editor, Key::Char(c));
        }
        if i != lines.len() - 1 {
            press(&mut editor, Key::Enter);
        }
    }
    press(&mut editor, Key::Esc);
    press(&mut editor, Key::Char('k'));
    press(&mut editor, Key::Char('k'));
    press(&mut editor, Key::Char('A'));
    assert_eq!(buffer_lines(&editor), strs(&lines));
    assert_eq!(editor.current_bufpos(), BufferPosition { line: 2, col: 0 });
    press(&mut editor, Key::Delete);
    assert_eq!(
        buffer_lines(&editor),
        strs(&["abcdefgh", "ijklmnop", "", "qrstu"])
    );
    assert_eq!(editor.current_bufpos(), BufferPosition { line: 2, col: 0 });
}

#[test]
fn test_backward_deletion_at_the_end_in_insert_mode() {
    let mut editor = untitled_editor();
    let lines = ["abcdefgh", "ijklmnop", "qrstu"];
    press(&mut editor, Key::Char('i'));
    for (i, line) in lines.iter().enumerate() {
        for c in line.chars() {
            press(&mut editor, Key::Char(c));
        }
        if i != lines.len() - 1 {
            press(&mut editor, Key::Enter);
        }
    }
    assert_eq!(buffer_lines(&editor), strs(&lines));
    assert_eq!(editor.current_bufpos(), BufferPosition { line: 2, col: 5 });
    press(&mut editor, Key::Backspace);
    assert_eq!(buffer_lines(&editor), strs(&["abcdefgh", "ijklmnop", "qrst"]));
    assert_eq!(editor.current_bufpos(), BufferPosition { line: 2, col: 4 });
    for _ in 0..4 {
        press(&mut editor, Key::Backspace);
    }
    assert_eq!(buffer_lines(&editor), strs(&["abcdefgh", "ijklmnop", ""]));
    assert_eq!(editor.current_bufpos(), BufferPosition { line: 2, col: 0 });
    press(&mut editor, Key::Backspace);
    assert_eq!(buffer_lines(&editor), strs(&["abcdefgh", "ijklmnop"]));
    assert_eq!(editor.current_bufpos(), BufferPosition { line: 1, col: 8 });
}

#[test]
fn test_backward_deletion_in_the_middle_in_insert_mode() {
    let mut editor = untitled_editor();
    let lines = ["abcdefgh", "ijklmnop", "qrstu"];
    press(&mut editor, Key::Char('i'));
    for (i, line) in lines.iter().enumerate() {
        for c in line.chars() {
            press(&mut editor, Key::Char(c));
        }
        if i != lines.len() - 1 {
            press(&mut editor, Key::Enter);
        }
    }
    press(&mut editor, Key::Esc);
    press(&mut editor, Key::Char('k'));
    assert_eq!(buffer_lines(&editor), strs(&lines));
    assert_eq!(editor.current_bufpos(), BufferPosition { line: 1, col: 4 });
    press(&mut editor, Key::Char('i'));
    press(&mut editor, Key::Backspace);
    assert_eq!(buffer_lines(&editor), strs(&["abcdefgh", "ijkmnop", "qrstu"]));
    assert_eq!(editor.current_bufpos(), BufferPosition { line: 1, col: 3 });
    press(&mut editor, Key::Backspace);
    press(&mut editor, Key::Backspace);
    press(&mut editor, Key::Backspace);
    assert_eq!(buffer_lines(&editor), strs(&["abcdefgh", "mnop", "qrstu"]));
    assert_eq!(editor.current_bufpos(), BufferPosition { line: 1, col: 0 });
    press(&mut editor, Key::Backspace);
    assert_eq!(buffer_lines(&editor), strs(&["abcdefghmnop", "qrstu"]));
    assert_eq!(editor.current_bufpos(), BufferPosition { line: 0, col: 8 });
}

#[test]
fn test_backward_deletion_at_the_start_in_insert_mode() {
    let mut editor = untitled_editor();
    let lines = ["abcdefgh", "ijklmnop", "qrstu"];
    press(&mut editor, Key::Char('i'));
    for (i, line) in lines.iter().enumerate() {
        for c in line.chars() {
            press(&mut editor, Key::Char(c));
        }
        if i != lines.len() - 1 {
            press(&mut editor, Key::Enter);
        }
    }
    press(&mut editor, Key::Esc);
    press(&mut editor, Key::Char('k'));
    press(&mut editor, Key::Char('k'));
    press(&mut editor, Key::Char('I'));
    assert_eq!(buffer_lines(&editor), strs(&lines));
    assert_eq!(editor.current_bufpos(), BufferPosition { line: 0, col: 0 });
    press(&mut editor, Key::Backspace);
    assert_eq!(buffer_lines(&editor), strs(&lines));
    assert_eq!(editor.current_bufpos(), BufferPosition { line: 0, col: 0 });
}

#[test]
fn test_backward_deletion_appending_to_empty_line() {
    let mut editor = untitled_editor();
    let lines = ["abcdefgh", "ijklmnop", "", "", "qrstu"];
    press(&mut editor, Key::Char('i'));
    for (i, line) in lines.iter().enumerate() {
        for c in line.chars() {
            press(&mut editor, Key::Char(c));
        }
        if i != lines.len() - 1 {
            press(&mut editor, Key::Enter);
        }
    }
    press(&mut editor, Key::Esc);
    press(&mut editor, Key::Char('I'));
    assert_eq!(buffer_lines(&editor), strs(&lines));
    assert_eq!(editor.current_bufpos(), BufferPosition { line: 4, col: 0 });
    press(&mut editor, Key::Backspace);
    assert_eq!(
        buffer_lines(&editor),
        strs(&["abcdefgh", "ijklmnop", "", "qrstu"])
    );
    assert_eq!(editor.current_bufpos(), BufferPosition { line: 3, col: 0 });
}

#[test]
fn test_backward_deletion_joining_empty_lines() {
    let mut editor = untitled_editor();
    let lines = ["abcdefgh", "ijklmnop", "", "", "qrstu"];
    press(&mut editor, Key::Char('i'));
    for (i, line) in lines.iter().enumerate() {
        for c in line.chars() {
            press(&mut editor, Key::Char(c));
        }
        if i != lines.len() - 1 {
            press(&mut editor, Key::Enter);
        }
    }
    press(&mut editor, Key::Esc);
    press(&mut editor, Key::Char('k'));
    press(&mut editor, Key::Char('i'));
    assert_eq!(buffer_lines(&editor), strs(&lines));
    assert_eq!(editor.current_bufpos(), BufferPosition { line: 3, col: 0 });
    press(&mut editor, Key::Backspace);
    assert_eq!(
        buffer_lines(&editor),
        strs(&["abcdefgh", "ijklmnop", "", "qrstu"])
    );
    assert_eq!(editor.current_bufpos(), BufferPosition { line: 2, col: 0 });
}

#[test]
fn test_normal_mode_arrow_movement() {
    let mut editor = untitled_editor();
    let lines = ["abcdefg", "hij", "klmnop", "", "qrstu"];
    type_lines(&mut editor, &lines);
    assert_eq!(buffer_lines(&editor), strs(&lines));
    assert_eq!(editor.current_bufpos(), BufferPosition { line: 4, col: 4 });
    press(&mut editor, Key::Down);
    assert_eq!(editor.current_bufpos(), BufferPosition { line: 4, col: 4 });
    press(&mut editor, Key::Up);
    assert_eq!(editor.current_bufpos(), BufferPosition { line: 3, col: 0 });
    press(&mut editor, Key::Up);
    assert_eq!(editor.current_bufpos(), BufferPosition { line: 2, col: 4 });
    press(&mut editor, Key::Up);
    assert_eq!(editor.current_bufpos(), BufferPosition { line: 1, col: 2 });
    press(&mut editor, Key::Up);
    assert_eq!(editor.current_bufpos(), BufferPosition { line: 0, col: 4 });
    press(&mut editor, Key::Up);
    assert_eq!(editor.current_bufpos(), BufferPosition { line: 0, col: 4 });
    press(&mut editor, Key::Right);
    assert_eq!(editor.current_bufpos(), BufferPosition { line: 0, col: 5 });
    press(&mut editor, Key::Right);
    assert_eq!(editor.current_bufpos(), BufferPosition { line: 0, col: 6 });
    press(&mut editor, Key::Right);
    assert_eq!(editor.current_bufpos(), BufferPosition { line: 0, col: 6 });
    press(&mut editor, Key::Left);
    assert_eq!(editor.current_bufpos(), BufferPosition { line: 0, col: 5 });
    for _ in 0..5 {
        press(&mut editor, Key::Left);
    }
    assert_eq!(editor.current_bufpos(), BufferPosition { line: 0, col: 0 });
    press(&mut editor, Key::Left);
    assert_eq!(editor.current_bufpos(), BufferPosition { line: 0, col: 0 });
    press(&mut editor, Key::Right);
    assert_eq!(editor.current_bufpos(), BufferPosition { line: 0, col: 1 });
    press(&mut editor, Key::Right);
    assert_eq!(editor.current_bufpos(), BufferPosition { line: 0, col: 2 });
    press(&mut editor, Key::Down);
    assert_eq!(editor.current_bufpos(), BufferPosition { line: 1, col: 2 });
    press(&mut editor, Key::Down);
    assert_eq!(editor.current_bufpos(), BufferPosition { line: 2, col: 2 });
    press(&mut editor, Key::Down);
    assert_eq!(editor.current_bufpos(), BufferPosition { line: 3, col: 0 });
    press(&mut editor, Key::Left);
    assert_eq!(editor.current_bufpos(), BufferPosition { line: 3, col: 0 });
    press(&mut editor, Key::Right);
    assert_eq!(editor.current_bufpos(), BufferPosition { line: 3, col: 0 });
    press(&mut editor, Key::Down);
    assert_eq!(editor.current_bufpos(), BufferPosition { line: 4, col: 2 });
    assert_eq!(buffer_lines(&editor), strs(&lines));
}

#[test]
fn test_empty_buffer_normal_mode() {
    let mut editor = untitled_editor();
    assert!(editor.current_buffer().lines.is_empty());
    assert_eq!(editor.current_bufpos(), BufferPosition { line: 0, col: 0 });
    press(&mut editor, Key::Down);
    assert_eq!(editor.current_bufpos(), BufferPosition { line: 0, col: 0 });
    press(&mut editor, Key::Up);
    assert_eq!(editor.current_bufpos(), BufferPosition { line: 0, col: 0 });
    press(&mut editor, Key::Left);
    assert_eq!(editor.current_bufpos(), BufferPosition { line: 0, col: 0 });
    press(&mut editor, Key::Right);
    assert_eq!(editor.current_bufpos(), BufferPosition { line: 0, col: 0 });
}

#[test]
fn test_empty_buffer_insert_mode() {
    let mut editor = untitled_editor();
    assert!(editor.current_buffer().lines.is_empty());
    assert_eq!(editor.current_bufpos(), BufferPosition { line: 0, col: 0 });
    press(&mut editor, Key::Char('i'));
    assert_eq!(editor.current_bufpos(), BufferPosition { line: 0, col: 0 });
    press(&mut editor, Key::Down);
    assert_eq!(editor.current_bufpos(), BufferPosition { line: 0, col: 0 });
    press(&mut editor, Key::Up);
    assert_eq!(editor.current_bufpos(), BufferPosition { line: 0, col: 0 });
    press(&mut editor, Key::Left);
    assert_eq!(editor.current_bufpos(), BufferPosition { line: 0, col: 0 });
    press(&mut editor, Key::Right);
    assert_eq!(editor.current_bufpos(), BufferPosition { line: 0, col: 0 });
    press(&mut editor, Key::Home);
    assert_eq!(editor.current_bufpos(), BufferPosition { line: 0, col: 0 });
    press(&mut editor, Key::End);
    assert_eq!(editor.current_bufpos(), BufferPosition { line: 0, col: 0 });
    press(&mut editor, Key::Esc);
    assert_eq!(editor.current_bufpos(), BufferPosition { line: 0, col: 0 });
}

#[test]
fn test_horizontal_movement_insert_mode() {
    let mut editor = untitled_editor();
    let lines = ["abcdefg", "hij", "klmnop", "", "qrstu"];
    type_lines(&mut editor, &lines);
    assert_eq!(buffer_lines(&editor), strs(&lines));
    assert_eq!(editor.current_bufpos(), BufferPosition { line: 4, col: 4 });
    press(&mut editor, Key::Char('a'));
    assert_eq!(editor.current_bufpos(), BufferPosition { line: 4, col: 5 });
    press(&mut editor, Key::Right);
    assert_eq!(editor.current_bufpos(), BufferPosition { line: 4, col: 5 });
    press(&mut editor, Key::Left);
    assert_eq!(editor.current_bufpos(), BufferPosition { line: 4, col: 4 });
    for _ in 0..4 {
        press(&mut editor, Key::Left);
    }
    assert_eq!(editor.current_bufpos(), BufferPosition { line: 4, col: 0 });
    press(&mut editor, Key::Left);
    assert_eq!(editor.current_bufpos(), BufferPosition { line: 3, col: 0 });
    press(&mut editor, Key::Left);
    assert_eq!(editor.current_bufpos(), BufferPosition { line: 2, col: 6 });
    for _ in 0..6 {
        press(&mut editor, Key::Left);
    }
    assert_eq!(editor.current_bufpos(), BufferPosition { line: 2, col: 0 });
    for _ in 0..4 {
        press(&mut editor, Key::Left);
    }
    assert_eq!(editor.current_bufpos(), BufferPosition { line: 1, col: 0 });
    for _ in 0..8 {
        press(&mut editor, Key::Left);
    }
    assert_eq!(editor.current_bufpos(), BufferPosition { line: 0, col: 0 });
    press(&mut editor, Key::Left);
    assert_eq!(editor.current_bufpos(), BufferPosition { line: 0, col: 0 });
    for _ in 0..7 {
        press(&mut editor, Key::Right);
    }
    assert_eq!(editor.current_bufpos(), BufferPosition { line: 0, col: 7 });
    press(&mut editor, Key::Right);
    assert_eq!(editor.current_bufpos(), BufferPosition { line: 1, col: 0 });
    for _ in 0..10 {
        press(&mut editor, Key::Right);
    }
    assert_eq!(editor.current_bufpos(), BufferPosition { line: 2, col: 6 });
    press(&mut editor, Key::Right);
    assert_eq!(editor.current_bufpos(), BufferPosition { line: 3, col: 0 });
    press(&mut editor, Key::Right);
    assert_eq!(editor.current_bufpos(), BufferPosition { line: 4, col: 0 });
    for _ in 0..5 {
        press(&mut editor, Key::Right);
    }
    assert_eq!(editor.current_bufpos(), BufferPosition { line: 4, col: 5 });
}

#[test]
fn test_vertical_movement_insert_mode() {
    let mut editor = untitled_editor();
    let lines = ["abcdefg", "hij", "klmnop", "", "qrstu"];
    type_lines(&mut editor, &lines);
    assert_eq!(editor.current_bufpos(), BufferPosition { line: 4, col: 4 });
    press(&mut editor, Key::Char('i'));
    assert_eq!(editor.current_bufpos(), BufferPosition { line: 4, col: 4 });
    press(&mut editor, Key::Down);
    assert_eq!(editor.current_bufpos(), BufferPosition { line: 4, col: 4 });
    press(&mut editor, Key::Up);
    assert_eq!(editor.current_bufpos(), BufferPosition { line: 3, col: 0 });
    press(&mut editor, Key::Up);
    assert_eq!(editor.current_bufpos(), BufferPosition { line: 2, col: 4 });
    press(&mut editor, Key::Up);
    assert_eq!(editor.current_bufpos(), BufferPosition { line: 1, col: 3 });
    press(&mut editor, Key::Up);
    assert_eq!(editor.current_bufpos(), BufferPosition { line: 0, col: 4 });
    press(&mut editor, Key::Up);
    assert_eq!(editor.current_bufpos(), BufferPosition { line: 0, col: 4 });
    press(&mut editor, Key::Right);
    press(&mut editor, Key::Right);
    assert_eq!(editor.current_bufpos(), BufferPosition { line: 0, col: 6 });
    press(&mut editor, Key::Down);
    assert_eq!(editor.current_bufpos(), BufferPosition { line: 1, col: 3 });
    press(&mut editor, Key::Down);
    assert_eq!(editor.current_bufpos(), BufferPosition { line: 2, col: 6 });
    press(&mut editor, Key::Down);
    assert_eq!(editor.current_bufpos(), BufferPosition { line: 3, col: 0 });
    press(&mut editor, Key::Down);
    assert_eq!(editor.current_bufpos(), BufferPosition { line: 4, col: 5 });
    for _ in 0..3 {
        press(&mut editor, Key::Left);
    }
    assert_eq!(editor.current_bufpos(), BufferPosition { line: 4, col: 2 });
    press(&mut editor, Key::Up);
    assert_eq!(editor.current_bufpos(), BufferPosition { line: 3, col: 0 });
    press(&mut editor, Key::Up);
    assert_eq!(editor.current_bufpos(), BufferPosition { line: 2, col: 2 });
    press(&mut editor, Key::Up);
    assert_eq!(editor.current_bufpos(), BufferPosition { line: 1, col: 2 });
    press(&mut editor, Key::Up);
    assert_eq!(editor.current_bufpos(), BufferPosition { line: 0, col: 2 });
}

#[test]
fn test_home_and_end_insert_mode() {
    let mut editor = untitled_editor();
    let lines = ["abcdefg", "hij", "klmnop", "", "qrstu"];
    type_lines(&mut editor, &lines);
    assert_eq!(editor.current_bufpos(), BufferPosition { line: 4, col: 4 });
    press(&mut editor, Key::Char('i'));
    assert_eq!(editor.current_bufpos(), BufferPosition { line: 4, col: 4 });
    press(&mut editor, Key::Home);
    assert_eq!(editor.current_bufpos(), BufferPosition { line: 4, col: 0 });
    press(&mut editor, Key::Home);
    assert_eq!(editor.current_bufpos(), BufferPosition { line: 4, col: 0 });
    press(&mut editor, Key::End);
    assert_eq!(editor.current_bufpos(), BufferPosition { line: 4, col: 5 });
    press(&mut editor, Key::Up);
    assert_eq!(editor.current_bufpos(), BufferPosition { line: 3, col: 0 });
    press(&mut editor, Key::Up);
    assert_eq!(editor.current_bufpos(), BufferPosition { line: 2, col: 6 });
    press(&mut editor, Key::Up);
    assert_eq!(editor.current_bufpos(), BufferPosition { line: 1, col: 3 });
    press(&mut editor, Key::End);
    assert_eq!(editor.current_bufpos(), BufferPosition { line: 1, col: 3 });
    press(&mut editor, Key::Up);
    assert_eq!(editor.current_bufpos(), BufferPosition { line: 0, col: 7 });
    for _ in 0..4 {
        press(&mut editor, Key::Down);
    }
    assert_eq!(editor.current_bufpos(), BufferPosition { line: 4, col: 5 });
    press(&mut editor, Key::Left);
    press(&mut editor, Key::Right);
    assert_eq!(editor.current_bufpos(), BufferPosition { line: 4, col: 5 });
    press(&mut editor, Key::Up);
    assert_eq!(editor.current_bufpos(), BufferPosition { line: 3, col: 0 });
    press(&mut editor, Key::Up);
    assert_eq!(editor.current_bufpos(), BufferPosition { line: 2, col: 5 });
    press(&mut editor, Key::Up);
    assert_eq!(editor.current_bufpos(), BufferPosition { line: 1, col: 3 });
    press(&mut editor, Key::Up);
    assert_eq!(editor.current_bufpos(), BufferPosition { line: 0, col: 5 });
    press(&mut editor, Key::Down);
    press(&mut editor, Key::Down);
    press(&mut editor, Key::Down);
    assert_eq!(editor.current_bufpos(), BufferPosition { line: 3, col: 0 });
    press(&mut editor, Key::End);
    assert_eq!(editor.current_bufpos(), BufferPosition { line: 3, col: 0 });
    press(&mut editor, Key::Home);
    assert_eq!(editor.current_bufpos(), BufferPosition { line: 3, col: 0 });
    press(&mut editor, Key::Down);
    assert_eq!(editor.current_bufpos(), BufferPosition { line: 4, col: 0 });
}
