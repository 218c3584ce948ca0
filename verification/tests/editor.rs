use brewcode::buffer::Buffer;
use brewcode::editor::Editor;

#[test]
fn new_buffer_is_empty() {
    let buffer = Buffer::new();
    assert!(buffer.text().is_empty());
}

#[test]
fn buffer_keeps_the_characters_in_order() {
    let mut buffer = Buffer::new();
    for c in "héllo\n".chars() {
        buffer.handle_char_input(c);
    }
    assert_eq!(buffer.text(), &vec!['h', 'é', 'l', 'l', 'o', '\n']);
}

#[test]
fn new_editor_has_an_empty_active_buffer() {
    let editor = Editor::new();
    assert!(editor.active_text().is_empty());
}

#[test]
fn editor_hands_the_input_to_the_active_buffer() {
    let mut editor = Editor::new();
    editor.handle_char_input('a');
    assert_eq!(editor.active_text(), &vec!['a']);
    editor.handle_char_input('b');
    editor.handle_char_input(' ');
    assert_eq!(editor.active_text(), &vec!['a', 'b', ' ']);
}

#[test]
fn editors_do_not_share_their_buffers() {
    let mut first = Editor::new();
    let second = Editor::new();
    first.handle_char_input('x');
    assert_eq!(first.active_text(), &vec!['x']);
    assert!(second.active_text().is_empty());
}
