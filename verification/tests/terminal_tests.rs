use pico_shell::constants::MAX_LINE_LENGTH;
use pico_shell::queue::InputQueue;
use pico_shell::terminal::ASCIIControl;
use pico_shell::terminal::EscapeState;
use pico_shell::terminal::Terminal;
use pico_shell::terminal::TerminalTextColor;

const ESC: u8 = 0x1B;
const LB: u8 = 0x5B;

fn new_editor() -> Terminal {
    let mut out = Vec::new();
    Terminal::new(TerminalTextColor::Blue, b"hi".to_vec(), b"$ ".to_vec(), &mut out)
}

/// The prompt as emitted: color selection, text, formatting reset.
fn prompt_seq() -> Vec<u8> {
    vec![ESC, LB, 0x33, 0x34, 0x6D, b'$', b' ', ESC, LB, 0x30, 0x6D]
}

/// What erasing the displayed line emits: clear to end of line, carriage
/// return, prompt.
fn clear_line_seq() -> Vec<u8> {
    let mut s = vec![ESC, LB, 0x30, 0x4B, 0x0D];
    s.extend(prompt_seq());
    s
}

fn arrow_left_seq() -> Vec<u8> {
    vec![ESC, LB, 0x44]
}

fn arrow_right_seq() -> Vec<u8> {
    vec![ESC, LB, 0x43]
}

#[test]
fn startup_output_is_exact() {
    let mut out = Vec::new();
    let editor = Terminal::new(
        TerminalTextColor::Blue,
        b"hi".to_vec(),
        b"$ ".to_vec(),
        &mut out,
    );
    let mut expected = vec![ESC, LB, 0x32, 0x4A, ESC, LB, 0x48];
    expected.extend(vec![ESC, LB, 0x33, 0x34, 0x6D, b'h', b'i', ESC, LB, 0x30, 0x6D]);
    expected.extend(prompt_seq());
    assert_eq!(out, expected);
    assert_eq!(editor.cursor_position(), 0);
    assert_eq!(editor.line_bytes(), Vec::<u8>::new());
    assert_eq!(editor.current_escape_state(), EscapeState::NotReceived);
}

#[test]
fn printable_bytes_echo_and_append() {
    let mut editor = new_editor();
    let mut out = Vec::new();
    editor.process_bytes(b"abc", &mut out);
    assert_eq!(out, b"abc".to_vec());
    assert_eq!(editor.line_bytes(), b"abc".to_vec());
    assert_eq!(editor.cursor_position(), 3);
}

#[test]
fn line_stops_growing_at_capacity() {
    let mut editor = new_editor();
    let mut out = Vec::new();
    let long: Vec<u8> = std::iter::repeat(b'x').take(MAX_LINE_LENGTH + 6).collect();
    editor.process_bytes(&long, &mut out);
    assert_eq!(editor.line_bytes().len(), MAX_LINE_LENGTH);
    assert_eq!(editor.cursor_position(), MAX_LINE_LENGTH);
    // Only the accepted bytes are echoed.
    assert_eq!(out.len(), MAX_LINE_LENGTH);
}

#[test]
fn escape_progression_and_consumption() {
    let mut editor = new_editor();
    let mut out = Vec::new();
    editor.process_bytes(&[ESC], &mut out);
    assert_eq!(editor.current_escape_state(), EscapeState::Received);
    editor.process_bytes(&[LB], &mut out);
    assert_eq!(editor.current_escape_state(), EscapeState::BracketReceived);
    // An unrecognised final byte is consumed silently.
    editor.process_bytes(&[b'Z'], &mut out);
    assert_eq!(editor.current_escape_state(), EscapeState::NotReceived);
    assert_eq!(out, Vec::<u8>::new());
}

#[test]
fn escape_abort_leaves_editor_unchanged() {
    let mut editor = new_editor();
    let mut out = Vec::new();
    editor.process_bytes(b"ab", &mut out);
    out.clear();
    editor.process_bytes(&[ESC, b'x'], &mut out);
    assert_eq!(editor.current_escape_state(), EscapeState::NotReceived);
    assert_eq!(editor.line_bytes(), b"ab".to_vec());
    assert_eq!(editor.cursor_position(), 2);
    assert_eq!(out, Vec::<u8>::new());
}

#[test]
fn arrow_navigation_stops_at_both_ends() {
    let mut editor = new_editor();
    let mut out = Vec::new();
    editor.process_bytes(b"abc", &mut out);
    out.clear();
    // Three lefts reach column 0; a fourth does not underflow.
    for expected_cursor in [2usize, 1, 0, 0] {
        editor.process_bytes(&[ESC, LB, b'D'], &mut out);
        assert_eq!(editor.cursor_position(), expected_cursor);
    }
    let mut expected = Vec::new();
    expected.extend(arrow_left_seq());
    expected.extend(arrow_left_seq());
    expected.extend(arrow_left_seq());
    assert_eq!(out, expected);
    out.clear();
    // Three rights reach column 3; a fourth does not overflow.
    for expected_cursor in [1usize, 2, 3, 3] {
        editor.process_bytes(&[ESC, LB, b'C'], &mut out);
        assert_eq!(editor.cursor_position(), expected_cursor);
    }
    let mut expected = Vec::new();
    expected.extend(arrow_right_seq());
    expected.extend(arrow_right_seq());
    expected.extend(arrow_right_seq());
    assert_eq!(out, expected);
}

#[test]
fn insert_backspace_round_trip() {
    let mut editor = new_editor();
    let mut out = Vec::new();
    editor.process_bytes(b"hello", &mut out);
    editor.process_bytes(&[0x08; 5], &mut out);
    assert_eq!(editor.line_bytes(), Vec::<u8>::new());
    assert_eq!(editor.cursor_position(), 0);
}

#[test]
fn backspace_at_start_does_nothing() {
    let mut editor = new_editor();
    let mut out = Vec::new();
    editor.process_bytes(&[0x08], &mut out);
    assert_eq!(editor.line_bytes(), Vec::<u8>::new());
    assert_eq!(editor.cursor_position(), 0);
    assert_eq!(out, Vec::<u8>::new());
}

#[test]
fn backspace_redraw_bytes_are_exact() {
    let mut editor = new_editor();
    let mut out = Vec::new();
    editor.process_bytes(b"abc", &mut out);
    out.clear();
    editor.process_bytes(&[0x08], &mut out);
    assert_eq!(editor.line_bytes(), b"ab".to_vec());
    assert_eq!(editor.cursor_position(), 2);
    // Cursor steps left, the line is erased and reprinted in full; the
    // cursor already sits at the line's end, so no trailing arrows.
    let mut expected = arrow_left_seq();
    expected.extend(clear_line_seq());
    expected.extend(b"ab");
    assert_eq!(out, expected);
}

#[test]
fn delete_behaves_like_backspace() {
    let mut editor = new_editor();
    let mut out = Vec::new();
    editor.process_bytes(b"abc", &mut out);
    editor.process_bytes(&[0x7F], &mut out);
    assert_eq!(editor.line_bytes(), b"ab".to_vec());
    assert_eq!(editor.cursor_position(), 2);
}

#[test]
fn mid_line_insert_echoes_only_the_byte() {
    let mut editor = new_editor();
    let mut out = Vec::new();
    editor.process_bytes(b"ab", &mut out);
    editor.process_bytes(&[ESC, LB, b'D'], &mut out);
    assert_eq!(editor.cursor_position(), 1);
    out.clear();
    editor.process_bytes(b"X", &mut out);
    assert_eq!(editor.line_bytes(), b"aXb".to_vec());
    assert_eq!(editor.cursor_position(), 2);
    // A plain insert echoes the new byte alone, even before the tail.
    assert_eq!(out, b"X".to_vec());
}

#[test]
fn space_mid_line_triggers_full_redraw() {
    let mut editor = new_editor();
    let mut out = Vec::new();
    editor.process_bytes(b"ab", &mut out);
    editor.process_bytes(&[ESC, LB, b'D'], &mut out);
    out.clear();
    editor.process_bytes(&[0x20], &mut out);
    assert_eq!(editor.line_bytes(), b"a b".to_vec());
    assert_eq!(editor.cursor_position(), 2);
    // Cursor steps right past the space, the line is erased and reprinted,
    // and one arrow walks the cursor back to its column.
    let mut expected = arrow_right_seq();
    expected.extend(clear_line_seq());
    expected.extend(b"a b");
    expected.extend(arrow_left_seq());
    assert_eq!(out, expected);
}

#[test]
fn space_appends_at_the_tail_too() {
    let mut editor = new_editor();
    let mut out = Vec::new();
    editor.process_bytes(b"a", &mut out);
    editor.process_bytes(&[0x20], &mut out);
    assert_eq!(editor.line_bytes(), b"a ".to_vec());
    assert_eq!(editor.cursor_position(), 2);
}

#[test]
fn carriage_return_commits_the_line() {
    let mut editor = new_editor();
    let mut out = Vec::new();
    editor.process_bytes(b"go", &mut out);
    out.clear();
    editor.process_bytes(&[0x0D], &mut out);
    assert_eq!(editor.line_bytes(), Vec::<u8>::new());
    assert_eq!(editor.cursor_position(), 0);
    let mut expected = vec![0x0D, 0x0A];
    expected.extend(prompt_seq());
    assert_eq!(out, expected);
}

#[test]
fn commit_ignores_cursor_position() {
    let mut editor = new_editor();
    let mut out = Vec::new();
    editor.process_bytes(b"go", &mut out);
    editor.process_bytes(&[ESC, LB, b'D'], &mut out);
    assert_eq!(editor.cursor_position(), 1);
    out.clear();
    editor.process_bytes(&[0x0A], &mut out);
    assert_eq!(editor.line_bytes(), Vec::<u8>::new());
    assert_eq!(editor.cursor_position(), 0);
    let mut expected = vec![0x0D, 0x0A];
    expected.extend(prompt_seq());
    assert_eq!(out, expected);
}

#[test]
fn unrecognised_control_bytes_are_ignored() {
    let mut editor = new_editor();
    let mut out = Vec::new();
    editor.process_bytes(&[0x07, 0x01, 0x1F, 0x00], &mut out);
    assert_eq!(editor.line_bytes(), Vec::<u8>::new());
    assert_eq!(editor.cursor_position(), 0);
    assert_eq!(out, Vec::<u8>::new());
}

#[test]
fn clear_screen_resets_the_line() {
    let mut editor = new_editor();
    let mut out = Vec::new();
    editor.process_bytes(b"ab", &mut out);
    out.clear();
    editor.clear_screen(&mut out);
    assert_eq!(editor.line_bytes(), Vec::<u8>::new());
    assert_eq!(editor.cursor_position(), 0);
    assert_eq!(out, vec![ESC, LB, 0x32, 0x4A, ESC, LB, 0x48]);
}

#[test]
fn print_with_and_without_color() {
    let editor = new_editor();
    let mut out = Vec::new();
    editor.print(b"ok", false, &mut out);
    let mut expected = b"ok".to_vec();
    expected.extend(vec![ESC, LB, 0x30, 0x6D]);
    assert_eq!(out, expected);
    out.clear();
    editor.print(b"ok", true, &mut out);
    let mut expected = vec![ESC, LB, 0x33, 0x34, 0x6D];
    expected.extend(b"ok");
    expected.extend(vec![ESC, LB, 0x30, 0x6D]);
    assert_eq!(out, expected);
}

#[test]
fn process_input_drains_the_queue() {
    let mut editor = new_editor();
    let mut queue = InputQueue::new();
    for &b in b"hi" {
        queue.enqueue(b);
    }
    let mut out = Vec::new();
    editor.process_input(&mut queue, &mut out);
    assert_eq!(queue.len(), 0);
    assert_eq!(editor.line_bytes(), b"hi".to_vec());
    assert_eq!(out, b"hi".to_vec());
}

#[test]
fn control_sequence_tails_are_exact() {
    assert_eq!(ASCIIControl::ClearToEndOfLine.as_bytes(), b"0K".to_vec());
    assert_eq!(ASCIIControl::ClearScreen.as_bytes(), b"2J".to_vec());
    assert_eq!(ASCIIControl::MoveCursorToTop.as_bytes(), b"H".to_vec());
    assert_eq!(ASCIIControl::ClearFormatting.as_bytes(), b"0m".to_vec());
}

#[test]
fn color_codes_are_exact() {
    assert_eq!(TerminalTextColor::Red.as_bytes(), b"31m".to_vec());
    assert_eq!(TerminalTextColor::Green.as_bytes(), b"32m".to_vec());
    assert_eq!(TerminalTextColor::Blue.as_bytes(), b"34m".to_vec());
}
