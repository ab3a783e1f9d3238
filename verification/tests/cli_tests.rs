use pico_shell::cli::Cli;
use pico_shell::queue::InputQueue;
use pico_shell::terminal::TerminalTextColor;

const ESC: u8 = 0x1B;
const LB: u8 = 0x5B;

fn new_cli() -> Cli {
    let mut out = Vec::new();
    Cli::new(TerminalTextColor::Blue, b"hi".to_vec(), b"$ ".to_vec(), &mut out)
}

#[test]
fn cli_startup_matches_editor_startup() {
    let mut out = Vec::new();
    let cli = Cli::new(
        TerminalTextColor::Green,
        b"hi".to_vec(),
        b"$ ".to_vec(),
        &mut out,
    );
    let mut expected = vec![ESC, LB, 0x32, 0x4A, ESC, LB, 0x48];
    expected.extend(vec![ESC, LB, 0x33, 0x32, 0x6D, b'h', b'i', ESC, LB, 0x30, 0x6D]);
    expected.extend(vec![ESC, LB, 0x33, 0x32, 0x6D, b'$', b' ', ESC, LB, 0x30, 0x6D]);
    assert_eq!(out, expected);
    assert_eq!(cli.editor().cursor_position(), 0);
}

#[test]
fn cli_print_does_not_force_the_prompt_color() {
    let cli = new_cli();
    let mut out = Vec::new();
    cli.print(b"ready", &mut out);
    let mut expected = b"ready".to_vec();
    expected.extend(vec![ESC, LB, 0x30, 0x6D]);
    assert_eq!(out, expected);
}

#[test]
fn cli_process_input_edits_and_commits() {
    let mut cli = new_cli();
    let mut queue = InputQueue::new();
    for &b in b"go" {
        queue.enqueue(b);
    }
    queue.enqueue(0x0D);
    let mut out = Vec::new();
    cli.process_input(&mut queue, &mut out);
    assert_eq!(queue.len(), 0);
    assert_eq!(cli.editor().line_bytes(), Vec::<u8>::new());
    assert_eq!(cli.editor().cursor_position(), 0);
    let mut expected = b"go".to_vec();
    expected.extend(vec![0x0D, 0x0A]);
    expected.extend(vec![ESC, LB, 0x33, 0x34, 0x6D, b'$', b' ', ESC, LB, 0x30, 0x6D]);
    assert_eq!(out, expected);
}
