//! Escape-sequence-aware line editor.
//!
//! The editor owns the current input line and the cursor, consumes raw
//! bytes, and emits the bytes that keep the remote terminal's displayed
//! line equal to the buffer. Its whole behaviour is captured by a pure
//! transition relation over [`EdState`] — [`step`] for the state and
//! [`step_out`] for the emitted bytes — and every operation is proved
//! against it; [`Terminal::process_bytes`] folds the relation over its
//! input ([`run`], [`run_out`]).
//!
//! The line storage is a `heapless::Vec`, kept behind trusted wrappers at
//! the bottom of the file; everything above them is verified. The editor
//! never touches hardware: callers hand it input bytes and transmit the
//! bytes it appends to `out`.

use vstd::prelude::*;

use crate::constants::MAX_LINE_LENGTH;

verus! {

use vstd::slice::slice_index_get;

/// Backspace control code.
pub const BACKSPACE: u8 = 0x08;

/// Line feed.
pub const NEWLINE: u8 = 0x0A;

/// Carriage return.
pub const CARRIAGE_RETURN: u8 = 0x0D;

/// Escape: introduces an ANSI control sequence.
pub const ESCAPE: u8 = 0x1B;

/// Space character.
pub const SPACE: u8 = 0x20;

/// Final byte of the ANSI cursor-right sequence.
pub const ARROW_RIGHT: u8 = 0x43;

/// Final byte of the ANSI cursor-left sequence.
pub const ARROW_LEFT: u8 = 0x44;

/// Left bracket: second byte of an ANSI control sequence.
pub const LEFT_BRACKET: u8 = 0x5B;

/// Delete control code, treated like backspace.
pub const DELETE: u8 = 0x7F;

/// First byte of the printable range the editor inserts.
pub const PRINTABLE_FIRST: u8 = 0x21;

/// Last byte of the printable range the editor inserts.
pub const PRINTABLE_LAST: u8 = 0x7E;

/// ANSI terminal control sequences used by the editor.
pub enum ASCIIControl {
    /// Clears from the cursor to the end of the line.
    ClearToEndOfLine,
    /// Clears the entire screen.
    ClearScreen,
    /// Moves the cursor to the top-left position.
    MoveCursorToTop,
    /// Resets all text formatting.
    ClearFormatting,
}

/// Available colors for terminal text.
#[derive(Debug, Clone, Copy, PartialEq, Eq, Structural)]
pub enum TerminalTextColor {
    Red,
    Green,
    Blue,
}

/// How many bytes of an ANSI escape introducer have been matched.
#[derive(Debug, Clone, Copy, PartialEq, Eq, Structural)]
pub enum EscapeState {
    /// No escape sequence in progress.
    NotReceived,
    /// ESC received.
    Received,
    /// ESC `[` received.
    BracketReceived,
}

/// Mathematical state of the editor: the line, the cursor index into it,
/// and the escape-sequence state.
#[verifier::ext_equal]
pub ghost struct EdState {
    pub line: Seq<u8>,
    pub cursor: int,
    pub esc: EscapeState,
}

/// The editor's invariant: the cursor stays inside the line, and the line
/// inside its capacity.
pub open spec fn state_wf(s: EdState) -> bool {
    &&& 0 <= s.cursor <= s.line.len()
    &&& s.line.len() <= MAX_LINE_LENGTH
}

/// The state the editor starts in and returns to on commit: empty line,
/// cursor at the start, no escape sequence in progress.
pub open spec fn initial_state() -> EdState {
    EdState { line: Seq::<u8>::empty(), cursor: 0, esc: EscapeState::NotReceived }
}

/// The two bytes introducing every ANSI control sequence: ESC `[`.
pub open spec fn escape_intro() -> Seq<u8> {
    seq![ESCAPE, LEFT_BRACKET]
}

/// A full control sequence: the introducer followed by its tail.
pub open spec fn control_out(tail: Seq<u8>) -> Seq<u8> {
    escape_intro() + tail
}

/// Tail of the clear-to-end-of-line sequence: `0K`.
pub open spec fn clear_to_eol_code() -> Seq<u8> {
    seq![0x30u8, 0x4Bu8]
}

/// Tail of the clear-screen sequence: `2J`.
pub open spec fn clear_screen_code() -> Seq<u8> {
    seq![0x32u8, 0x4Au8]
}

/// Tail of the cursor-to-top-left sequence: `H`.
pub open spec fn cursor_to_top_code() -> Seq<u8> {
    seq![0x48u8]
}

/// Tail of the reset-formatting sequence: `0m`.
pub open spec fn clear_formatting_code() -> Seq<u8> {
    seq![0x30u8, 0x6Du8]
}

/// Tail of the color-selection sequence of each prompt color: `31m`,
/// `32m` or `34m`.
pub open spec fn color_code(color: TerminalTextColor) -> Seq<u8> {
    match color {
        TerminalTextColor::Red => seq![0x33u8, 0x31u8, 0x6Du8],
        TerminalTextColor::Green => seq![0x33u8, 0x32u8, 0x6Du8],
        TerminalTextColor::Blue => seq![0x33u8, 0x34u8, 0x6Du8],
    }
}

/// What printing `s` emits: the color-selection sequence when the prompt
/// color is applied, the text itself, and a formatting reset.
pub open spec fn print_out(color: TerminalTextColor, apply_color: bool, s: Seq<u8>) -> Seq<u8> {
    (if apply_color {
        control_out(color_code(color))
    } else {
        Seq::<u8>::empty()
    }) + s + control_out(clear_formatting_code())
}

/// What printing the prompt emits: the prompt text in the prompt color.
pub open spec fn prompt_out(color: TerminalTextColor, prompt: Seq<u8>) -> Seq<u8> {
    print_out(color, true, prompt)
}

/// The cursor-left sequence: ESC `[` `D`.
pub open spec fn arrow_left_out() -> Seq<u8> {
    control_out(seq![ARROW_LEFT])
}

/// The cursor-right sequence: ESC `[` `C`.
pub open spec fn arrow_right_out() -> Seq<u8> {
    control_out(seq![ARROW_RIGHT])
}

/// `n` repetitions of the cursor-left sequence.
pub open spec fn arrows_left_out(n: int) -> Seq<u8>
    decreases n,
{
    if n <= 0 {
        Seq::<u8>::empty()
    } else {
        arrows_left_out(n - 1) + arrow_left_out()
    }
}

/// What erasing the displayed line emits: clear to end of line, a carriage
/// return, and the prompt again.
pub open spec fn clear_line_out(color: TerminalTextColor, prompt: Seq<u8>) -> Seq<u8> {
    control_out(clear_to_eol_code()) + seq![CARRIAGE_RETURN] + prompt_out(color, prompt)
}

/// What a full redraw emits: erase the displayed line, reprint the whole
/// buffer (which leaves the remote cursor at the line's end), then step the
/// cursor left until it is back at `cursor`.
pub open spec fn rewrite_line_out(
    color: TerminalTextColor,
    prompt: Seq<u8>,
    line: Seq<u8>,
    cursor: int,
) -> Seq<u8> {
    clear_line_out(color, prompt) + line + arrows_left_out(line.len() - cursor)
}

/// What a line commit emits: carriage return, line feed, and the prompt.
pub open spec fn newline_out(color: TerminalTextColor, prompt: Seq<u8>) -> Seq<u8> {
    seq![CARRIAGE_RETURN, NEWLINE] + prompt_out(color, prompt)
}

/// What starting the console emits: clear the screen, move the cursor to
/// the top, print the banner in the prompt color, print the prompt.
pub open spec fn startup_out(
    color: TerminalTextColor,
    banner: Seq<u8>,
    prompt: Seq<u8>,
) -> Seq<u8> {
    control_out(clear_screen_code()) + control_out(cursor_to_top_code()) + print_out(
        color,
        true,
        banner,
    ) + prompt_out(color, prompt)
}

impl ASCIIControl {
    /// The tail bytes of this control sequence, to follow ESC `[`.
    pub open spec fn code(&self) -> Seq<u8> {
        match self {
            ASCIIControl::ClearToEndOfLine => clear_to_eol_code(),
            ASCIIControl::ClearScreen => clear_screen_code(),
            ASCIIControl::MoveCursorToTop => cursor_to_top_code(),
            ASCIIControl::ClearFormatting => clear_formatting_code(),
        }
    }

    /// Converts the control sequence to its byte representation.
    pub fn as_bytes(&self) -> (r: Vec<u8>)
        ensures
            r@ == self.code(),
    {
        let r = match self {
            ASCIIControl::ClearToEndOfLine => vec![0x30u8, 0x4Bu8],
            ASCIIControl::ClearScreen => vec![0x32u8, 0x4Au8],
            ASCIIControl::MoveCursorToTop => vec![0x48u8],
            ASCIIControl::ClearFormatting => vec![0x30u8, 0x6Du8],
        };
        proof {
            assert(r@ =~= self.code());
        }
        r
    }
}

impl TerminalTextColor {
    /// Converts the color to the tail of its ANSI selection sequence.
    pub fn as_bytes(&self) -> (r: Vec<u8>)
        ensures
            r@ == color_code(*self),
    {
        let r = match self {
            TerminalTextColor::Red => vec![0x33u8, 0x31u8, 0x6Du8],
            TerminalTextColor::Green => vec![0x33u8, 0x32u8, 0x6Du8],
            TerminalTextColor::Blue => vec![0x33u8, 0x34u8, 0x6Du8],
        };
        proof {
            assert(r@ =~= color_code(*self));
        }
        r
    }
}

/// Declares `heapless::Vec` to the verifier; the value is opaque, its
/// contents are named by [`line_contents`].
#[verifier::external_type_specification]
#[verifier::external_body]
#[verifier::reject_recursive_types(T)]
pub struct ExHeaplessVec<T, const N: usize>(heapless::Vec<T, N>);

/// The bytes held by a line buffer, in order.
pub uninterp spec fn line_contents(v: heapless::Vec<u8, MAX_LINE_LENGTH>) -> Seq<u8>;

/// Relies on `heapless::Vec::new`: an empty vector.
#[verifier::external_body]
fn line_new() -> (r: heapless::Vec<u8, MAX_LINE_LENGTH>)
    ensures
        line_contents(r) == Seq::<u8>::empty(),
{
    heapless::Vec::new()
}

/// Relies on `heapless::Vec::len`: the number of elements held.
#[verifier::external_body]
fn line_len(v: &heapless::Vec<u8, MAX_LINE_LENGTH>) -> (r: usize)
    ensures
        r == line_contents(*v).len(),
{
    v.len()
}

/// Relies on `heapless::Vec::as_slice`: the elements in order; indexing
/// below the length cannot fail.
#[verifier::external_body]
fn line_get(v: &heapless::Vec<u8, MAX_LINE_LENGTH>, i: usize) -> (r: u8)
    requires
        i < line_contents(*v).len(),
    ensures
        r == line_contents(*v)[i as int],
{
    v.as_slice()[i]
}

/// Relies on `heapless::Vec::insert`: shifts the elements from `i` one
/// place right and writes the new one at `i`; it fails only on a full
/// vector and panics only above the length, both left out here.
#[verifier::external_body]
fn line_insert(v: &mut heapless::Vec<u8, MAX_LINE_LENGTH>, i: usize, byte: u8)
    requires
        i <= line_contents(*old(v)).len(),
        line_contents(*old(v)).len() < MAX_LINE_LENGTH,
    ensures
        line_contents(*final(v)) == line_contents(*old(v)).insert(i as int, byte),
{
    let _ = v.insert(i, byte);
}

/// Relies on `heapless::Vec::remove`: removes the element at `i`, shifting
/// the rest left; it panics only at or above the length, left out here.
#[verifier::external_body]
fn line_remove(v: &mut heapless::Vec<u8, MAX_LINE_LENGTH>, i: usize) -> (r: u8)
    requires
        i < line_contents(*old(v)).len(),
    ensures
        r == line_contents(*old(v))[i as int],
        line_contents(*final(v)) == line_contents(*old(v)).remove(i as int),
{
    v.remove(i)
}

/// Relies on `heapless::Vec::clear`: removes every element.
#[verifier::external_body]
fn line_clear(v: &mut heapless::Vec<u8, MAX_LINE_LENGTH>)
    ensures
        line_contents(*final(v)) == Seq::<u8>::empty(),
{
    v.clear();
}

/// Appends every byte of `s` to `out`.
fn emit_bytes(out: &mut Vec<u8>, s: &[u8])
    ensures
        final(out)@ == old(out)@ + s@,
{
    let mut i: usize = 0;
    while i < s.len()
        invariant
            i <= s@.len(),
            out@ == old(out)@ + s@.take(i as int),
        decreases s@.len() - i,
    {
        let byte = *slice_index_get(s, i);
        out.push(byte);
        proof {
            assert(s@.take(i + 1 as int) =~= s@.take(i as int).push(s@[i as int]));
            assert(out@ =~= old(out)@ + s@.take(i + 1 as int));
        }
        i = i + 1;
    }
    proof {
        assert(s@.take(s@.len() as int) =~= s@);
    }
}

/// One step of the editor's state machine: how one input byte changes the
/// line, the cursor and the escape state. This is the transition table of
/// the design: escape handling first, then commit, deletion, space,
/// printable insertion; unrecognised bytes are ignored.
pub open spec fn step(s: EdState, data: u8) -> EdState {
    match s.esc {
        EscapeState::NotReceived => {
            if data == ESCAPE {
                EdState { esc: EscapeState::Received, ..s }
            } else if data == CARRIAGE_RETURN || data == NEWLINE {
                EdState { line: Seq::<u8>::empty(), cursor: 0, esc: s.esc }
            } else if data == BACKSPACE || data == DELETE {
                if s.cursor > 0 {
                    EdState { line: s.line.remove(s.cursor - 1), cursor: s.cursor - 1, esc: s.esc }
                } else {
                    s
                }
            } else if data == SPACE {
                if s.line.len() < MAX_LINE_LENGTH {
                    EdState {
                        line: s.line.insert(s.cursor, SPACE),
                        cursor: s.cursor + 1,
                        esc: s.esc,
                    }
                } else {
                    s
                }
            } else if PRINTABLE_FIRST <= data && data <= PRINTABLE_LAST {
                if s.line.len() < MAX_LINE_LENGTH {
                    EdState { line: s.line.insert(s.cursor, data), cursor: s.cursor + 1, esc: s.esc }
                } else {
                    s
                }
            } else {
                s
            }
        },
        EscapeState::Received => {
            if data == LEFT_BRACKET {
                EdState { esc: EscapeState::BracketReceived, ..s }
            } else {
                EdState { esc: EscapeState::NotReceived, ..s }
            }
        },
        EscapeState::BracketReceived => {
            if data == ARROW_LEFT && s.cursor > 0 {
                EdState { cursor: s.cursor - 1, esc: EscapeState::NotReceived, ..s }
            } else if data == ARROW_RIGHT && s.cursor < s.line.len() {
                EdState { cursor: s.cursor + 1, esc: EscapeState::NotReceived, ..s }
            } else {
                EdState { esc: EscapeState::NotReceived, ..s }
            }
        },
    }
}

/// The bytes one step emits towards the remote terminal: an echo for a
/// tail append, a full redraw for an edit before the tail, the commit
/// sequence for carriage return or line feed, a cursor move for a
/// recognised arrow, and nothing otherwise.
pub open spec fn step_out(
    s: EdState,
    color: TerminalTextColor,
    prompt: Seq<u8>,
    data: u8,
) -> Seq<u8> {
    match s.esc {
        EscapeState::NotReceived => {
            if data == ESCAPE {
                Seq::<u8>::empty()
            } else if data == CARRIAGE_RETURN || data == NEWLINE {
                newline_out(color, prompt)
            } else if data == BACKSPACE || data == DELETE {
                if s.cursor > 0 {
                    arrow_left_out() + rewrite_line_out(
                        color,
                        prompt,
                        s.line.remove(s.cursor - 1),
                        s.cursor - 1,
                    )
                } else {
                    Seq::<u8>::empty()
                }
            } else if data == SPACE {
                if s.line.len() < MAX_LINE_LENGTH {
                    arrow_right_out() + rewrite_line_out(
                        color,
                        prompt,
                        s.line.insert(s.cursor, SPACE),
                        s.cursor + 1,
                    )
                } else {
                    Seq::<u8>::empty()
                }
            } else if PRINTABLE_FIRST <= data && data <= PRINTABLE_LAST {
                if s.line.len() < MAX_LINE_LENGTH {
                    seq![data]
                } else {
                    Seq::<u8>::empty()
                }
            } else {
                Seq::<u8>::empty()
            }
        },
        EscapeState::Received => Seq::<u8>::empty(),
        EscapeState::BracketReceived => {
            if data == ARROW_LEFT && s.cursor > 0 {
                arrow_left_out()
            } else if data == ARROW_RIGHT && s.cursor < s.line.len() {
                arrow_right_out()
            } else {
                Seq::<u8>::empty()
            }
        },
    }
}

/// The state after feeding every byte of `input`, in order, from `s`.
pub open spec fn run(s: EdState, input: Seq<u8>) -> EdState
    decreases input.len(),
{
    if input.len() == 0 {
        s
    } else {
        run(step(s, input[0]), input.drop_first())
    }
}

/// Everything feeding `input` from `s` emits, in order.
pub open spec fn run_out(
    s: EdState,
    color: TerminalTextColor,
    prompt: Seq<u8>,
    input: Seq<u8>,
) -> Seq<u8>
    decreases input.len(),
{
    if input.len() == 0 {
        Seq::<u8>::empty()
    } else {
        step_out(s, color, prompt, input[0]) + run_out(
            step(s, input[0]),
            color,
            prompt,
            input.drop_first(),
        )
    }
}

/// Peeling one byte off the end of a run: feeding `t` then `b` is feeding
/// `t` and then stepping once on `b`.
proof fn lemma_run_snoc(
    s: EdState,
    color: TerminalTextColor,
    prompt: Seq<u8>,
    t: Seq<u8>,
    b: u8,
)
    ensures
        run(s, t.push(b)) == step(run(s, t), b),
        run_out(s, color, prompt, t.push(b)) == run_out(s, color, prompt, t) + step_out(
            run(s, t),
            color,
            prompt,
            b,
        ),
    decreases t.len(),
{
    if t.len() == 0 {
        assert(t.push(b)[0] == b);
        assert(t.push(b).drop_first() =~= t);
        assert(run(s, t.push(b)) == run(step(s, b), t));
        assert(run_out(s, color, prompt, t.push(b)) == step_out(s, color, prompt, b) + run_out(
            step(s, b),
            color,
            prompt,
            t,
        ));
        assert(step_out(s, color, prompt, b) + Seq::<u8>::empty() =~= step_out(
            s,
            color,
            prompt,
            b,
        ));
        assert(Seq::<u8>::empty() + step_out(s, color, prompt, b) =~= step_out(
            s,
            color,
            prompt,
            b,
        ));
    } else {
        assert(t.push(b).drop_first() =~= t.drop_first().push(b));
        assert(t.push(b)[0] == t[0]);
        lemma_run_snoc(step(s, t[0]), color, prompt, t.drop_first(), b);
        assert(run(s, t.push(b)) == run(step(s, t[0]), t.drop_first().push(b)));
        assert(run_out(s, color, prompt, t.push(b)) == step_out(s, color, prompt, t[0]) + run_out(
            step(s, t[0]),
            color,
            prompt,
            t.drop_first().push(b),
        ));
        assert(step_out(s, color, prompt, t[0]) + (run_out(
            step(s, t[0]),
            color,
            prompt,
            t.drop_first(),
        ) + step_out(run(s, t), color, prompt, b)) =~= run_out(s, color, prompt, t) + step_out(
            run(s, t),
            color,
            prompt,
            b,
        ));
    }
}

/// Main terminal editor structure handling terminal input and output.
pub struct Terminal {
    /// Current cursor position in the line.
    cursor: usize,
    /// Current state of escape-sequence processing.
    escape_state: EscapeState,
    /// Current line buffer.
    current_line: heapless::Vec<u8, MAX_LINE_LENGTH>,
    /// Color used for the prompt.
    prompt_color: TerminalTextColor,
    /// Banner text displayed at startup.
    cli_banner: Vec<u8>,
    /// Prompt text displayed at the start of each line.
    cli_prompt: Vec<u8>,
}

impl Terminal {
    /// The editor's mathematical state.
    pub closed spec fn model(&self) -> EdState {
        EdState {
            line: line_contents(self.current_line),
            cursor: self.cursor as int,
            esc: self.escape_state,
        }
    }

    /// The configured prompt color.
    pub closed spec fn color(&self) -> TerminalTextColor {
        self.prompt_color
    }

    /// The configured prompt text.
    pub closed spec fn prompt(&self) -> Seq<u8> {
        self.cli_prompt@
    }

    /// The configured banner text.
    pub closed spec fn banner(&self) -> Seq<u8> {
        self.cli_banner@
    }

    /// The fixed presentation configuration, unchanged by every operation.
    pub open spec fn style(&self) -> (TerminalTextColor, Seq<u8>, Seq<u8>) {
        (self.color(), self.banner(), self.prompt())
    }

    /// The editor's invariant; see [`state_wf`].
    pub open spec fn wf(&self) -> bool {
        state_wf(self.model())
    }

    /// Creates a new editor and emits the startup sequence: clear screen,
    /// banner in the prompt color, prompt.
    pub fn new(
        prompt_color: TerminalTextColor,
        cli_banner: Vec<u8>,
        cli_prompt: Vec<u8>,
        out: &mut Vec<u8>,
    ) -> (editor: Terminal)
        ensures
            editor.wf(),
            editor.model() == initial_state(),
            editor.color() == prompt_color,
            editor.banner() == cli_banner@,
            editor.prompt() == cli_prompt@,
            final(out)@ == old(out)@ + startup_out(prompt_color, cli_banner@, cli_prompt@),
    {
        let mut editor = Terminal {
            cursor: 0,
            escape_state: EscapeState::NotReceived,
            current_line: line_new(),
            prompt_color,
            cli_banner,
            cli_prompt,
        };
        editor.clear_screen(out);
        editor.print_banner(out);
        editor.print_prompt(out);
        proof {
            assert(editor.model() =~= initial_state());
            assert(final(out)@ =~= old(out)@ + startup_out(
                prompt_color,
                editor.banner(),
                editor.prompt(),
            ));
        }
        editor
    }

    /// Prints the prompt at the beginning of the line.
    fn print_prompt(&self, out: &mut Vec<u8>)
        ensures
            final(out)@ == old(out)@ + prompt_out(self.color(), self.prompt()),
    {
        self.print(self.cli_prompt.as_slice(), true, out);
    }

    /// Prints the CLI banner at startup.
    fn print_banner(&self, out: &mut Vec<u8>)
        ensures
            final(out)@ == old(out)@ + print_out(self.color(), true, self.banner()),
    {
        self.print(self.cli_banner.as_slice(), true, out);
    }

    /// Emits the escape-sequence introducer ESC `[`.
    fn print_escape_sequence(&self, out: &mut Vec<u8>)
        ensures
            final(out)@ == old(out)@ + escape_intro(),
    {
        out.push(ESCAPE);
        out.push(LEFT_BRACKET);
        proof {
            assert(final(out)@ =~= old(out)@ + escape_intro());
        }
    }

    /// Emits a full control sequence: ESC `[` followed by `control_sequence`.
    fn print_control_sequence(&self, control_sequence: &[u8], out: &mut Vec<u8>)
        ensures
            final(out)@ == old(out)@ + control_out(control_sequence@),
    {
        self.print_escape_sequence(out);
        emit_bytes(out, control_sequence);
        proof {
            assert(final(out)@ =~= old(out)@ + control_out(control_sequence@));
        }
    }

    /// Emits the sequence that clears the screen and moves the cursor to
    /// the top, and empties the editor's own line.
    pub fn clear_screen(&mut self, out: &mut Vec<u8>)
        ensures
            final(self).wf(),
            final(self).style() == old(self).style(),
            final(self).model() == (EdState {
                line: Seq::<u8>::empty(),
                cursor: 0,
                esc: old(self).model().esc,
            }),
            final(out)@ == old(out)@ + control_out(clear_screen_code()) + control_out(
                cursor_to_top_code(),
            ),
    {
        let clear = ASCIIControl::ClearScreen.as_bytes();
        self.print_control_sequence(clear.as_slice(), out);
        let top = ASCIIControl::MoveCursorToTop.as_bytes();
        self.print_control_sequence(top.as_slice(), out);
        self.cursor = 0;
        line_clear(&mut self.current_line);
    }

    /// Emits the color-selection sequence of the prompt color.
    fn apply_prompt_color(&self, out: &mut Vec<u8>)
        ensures
            final(out)@ == old(out)@ + control_out(color_code(self.color())),
    {
        self.print_escape_sequence(out);
        let color = self.prompt_color.as_bytes();
        emit_bytes(out, color.as_slice());
        proof {
            assert(final(out)@ =~= old(out)@ + control_out(color_code(self.color())));
        }
    }

    /// Emits the reset-formatting sequence.
    fn clear_formatting(&self, out: &mut Vec<u8>)
        ensures
            final(out)@ == old(out)@ + control_out(clear_formatting_code()),
    {
        let code = ASCIIControl::ClearFormatting.as_bytes();
        self.print_control_sequence(code.as_slice(), out);
    }

    /// Prints text: optionally selects the prompt color first, and always
    /// resets formatting afterwards.
    pub fn print(&self, s: &[u8], apply_prompt_color: bool, out: &mut Vec<u8>)
        ensures
            final(out)@ == old(out)@ + print_out(self.color(), apply_prompt_color, s@),
    {
        if apply_prompt_color {
            self.apply_prompt_color(out);
        }
        emit_bytes(out, s);
        self.clear_formatting(out);
        proof {
            assert(final(out)@ =~= old(out)@ + print_out(self.color(), apply_prompt_color, s@));
        }
    }

    /// Moves the cursor one place left, if it is not already at the start,
    /// and emits the matching cursor-left sequence.
    fn move_cursor_left(&mut self, out: &mut Vec<u8>)
        ensures
            final(self).style() == old(self).style(),
            final(self).model().line == old(self).model().line,
            final(self).model().esc == old(self).model().esc,
            old(self).model().cursor > 0 ==> {
                &&& final(self).model().cursor == old(self).model().cursor - 1
                &&& final(out)@ == old(out)@ + arrow_left_out()
            },
            old(self).model().cursor == 0 ==> {
                &&& final(self).model().cursor == 0
                &&& final(out)@ == old(out)@
            },
    {
        if self.cursor > 0 {
            out.push(ESCAPE);
            out.push(LEFT_BRACKET);
            out.push(ARROW_LEFT);
            self.cursor = self.cursor - 1;
            proof {
                assert(final(out)@ =~= old(out)@ + arrow_left_out());
            }
        }
    }

    /// Moves the cursor one place right, if it is not already at the end
    /// of the line, and emits the matching cursor-right sequence.
    fn move_cursor_right(&mut self, out: &mut Vec<u8>)
        ensures
            final(self).style() == old(self).style(),
            final(self).model().line == old(self).model().line,
            final(self).model().esc == old(self).model().esc,
            old(self).model().cursor < old(self).model().line.len() ==> {
                &&& final(self).model().cursor == old(self).model().cursor + 1
                &&& final(out)@ == old(out)@ + arrow_right_out()
            },
            old(self).model().cursor >= old(self).model().line.len() ==> {
                &&& final(self).model().cursor == old(self).model().cursor
                &&& final(out)@ == old(out)@
            },
    {
        let len = line_len(&self.current_line);
        if self.cursor < len {
            out.push(ESCAPE);
            out.push(LEFT_BRACKET);
            out.push(ARROW_RIGHT);
            self.cursor = self.cursor + 1;
            proof {
                assert(final(out)@ =~= old(out)@ + arrow_right_out());
            }
        }
    }

    /// Erases the displayed line and moves the cursor to the start of the
    /// line: clear to end of line, carriage return, prompt again.
    fn clear_line(&mut self, out: &mut Vec<u8>)
        ensures
            final(self).style() == old(self).style(),
            final(self).model().line == old(self).model().line,
            final(self).model().esc == old(self).model().esc,
            final(self).model().cursor == 0,
            final(out)@ == old(out)@ + clear_line_out(old(self).color(), old(self).prompt()),
    {
        let code = ASCIIControl::ClearToEndOfLine.as_bytes();
        self.print_control_sequence(code.as_slice(), out);
        // The carriage return after the clear sequence resets the remote
        // cursor to the start of the line.
        out.push(CARRIAGE_RETURN);
        self.cursor = 0;
        self.print_prompt(out);
        proof {
            assert(final(out)@ =~= old(out)@ + clear_line_out(old(self).color(), old(self).prompt()));
        }
    }

    /// Redraws the whole line and returns the cursor to its original
    /// column: erase, reprint the buffer, then step left back to the
    /// cursor.
    fn rewrite_line(&mut self, out: &mut Vec<u8>)
        requires
            old(self).wf(),
        ensures
            final(self).wf(),
            final(self).style() == old(self).style(),
            final(self).model() == old(self).model(),
            final(out)@ == old(out)@ + rewrite_line_out(
                old(self).color(),
                old(self).prompt(),
                old(self).model().line,
                old(self).model().cursor,
            ),
    {
        let original_cursor = self.cursor;
        self.clear_line(out);
        let ghost after_clear = out@;
        let len = line_len(&self.current_line);
        let mut i: usize = 0;
        while i < len
            invariant
                i <= len,
                len == self.model().line.len(),
                self.model().line == old(self).model().line,
                self.model().esc == old(self).model().esc,
                self.style() == old(self).style(),
                out@ == after_clear + self.model().line.take(i as int),
            decreases len - i,
        {
            let byte = line_get(&self.current_line, i);
            self.cursor = i;
            out.push(byte);
            i = i + 1;
            proof {
                assert(self.model().line.take(i as int) =~= self.model().line.take(
                    i - 1,
                ).push(self.model().line[i - 1]));
                assert(out@ =~= after_clear + self.model().line.take(i as int));
            }
        }
        self.cursor = len;
        proof {
            assert(self.model().line.take(len as int) =~= self.model().line);
        }
        let ghost after_reprint = out@;
        while self.cursor > original_cursor
            invariant
                original_cursor <= self.cursor <= len,
                len == self.model().line.len(),
                self.model().line == old(self).model().line,
                self.model().esc == old(self).model().esc,
                self.style() == old(self).style(),
                out@ == after_reprint + arrows_left_out(len - self.cursor),
            decreases self.cursor,
        {
            let ghost before = self.model().cursor;
            self.move_cursor_left(out);
            proof {
                assert(arrows_left_out(len - self.cursor as int) =~= arrows_left_out(
                    len - before,
                ) + arrow_left_out());
                assert(out@ =~= after_reprint + arrows_left_out(len - self.cursor as int));
            }
        }
        proof {
            assert(final(out)@ =~= old(out)@ + rewrite_line_out(
                old(self).color(),
                old(self).prompt(),
                old(self).model().line,
                old(self).model().cursor,
            ));
        }
    }

    /// Commits the displayed line: carriage return, line feed, prompt; the
    /// cursor returns to the start of the line.
    fn newline(&mut self, out: &mut Vec<u8>)
        ensures
            final(self).style() == old(self).style(),
            final(self).model().line == old(self).model().line,
            final(self).model().esc == old(self).model().esc,
            final(self).model().cursor == 0,
            final(out)@ == old(out)@ + newline_out(old(self).color(), old(self).prompt()),
    {
        out.push(CARRIAGE_RETURN);
        out.push(NEWLINE);
        self.print_prompt(out);
        self.cursor = 0;
        proof {
            assert(final(out)@ =~= old(out)@ + newline_out(old(self).color(), old(self).prompt()));
        }
    }

    /// Deletes the byte before the cursor, moves the cursor left, and
    /// redraws the line; at the start of the line it does nothing.
    fn backspace(&mut self, out: &mut Vec<u8>)
        requires
            old(self).wf(),
        ensures
            final(self).wf(),
            final(self).style() == old(self).style(),
            final(self).model().esc == old(self).model().esc,
            old(self).model().cursor > 0 ==> {
                &&& final(self).model().line == old(self).model().line.remove(
                    old(self).model().cursor - 1,
                )
                &&& final(self).model().cursor == old(self).model().cursor - 1
                &&& final(out)@ == old(out)@ + arrow_left_out() + rewrite_line_out(
                    old(self).color(),
                    old(self).prompt(),
                    old(self).model().line.remove(old(self).model().cursor - 1),
                    old(self).model().cursor - 1,
                )
            },
            old(self).model().cursor == 0 ==> {
                &&& final(self).model() == old(self).model()
                &&& final(out)@ == old(out)@
            },
    {
        if self.cursor > 0 {
            let _ = line_remove(&mut self.current_line, self.cursor - 1);
            self.move_cursor_left(out);
            self.rewrite_line(out);
        }
    }

    /// Inserts a space at the cursor, moves the cursor right, and redraws
    /// the line; on a full line it does nothing.
    fn space(&mut self, out: &mut Vec<u8>)
        requires
            old(self).wf(),
        ensures
            final(self).wf(),
            final(self).style() == old(self).style(),
            final(self).model().esc == old(self).model().esc,
            old(self).model().line.len() < MAX_LINE_LENGTH ==> {
                &&& final(self).model().line == old(self).model().line.insert(
                    old(self).model().cursor,
                    SPACE,
                )
                &&& final(self).model().cursor == old(self).model().cursor + 1
                &&& final(out)@ == old(out)@ + arrow_right_out() + rewrite_line_out(
                    old(self).color(),
                    old(self).prompt(),
                    old(self).model().line.insert(old(self).model().cursor, SPACE),
                    old(self).model().cursor + 1,
                )
            },
            old(self).model().line.len() >= MAX_LINE_LENGTH ==> {
                &&& final(self).model() == old(self).model()
                &&& final(out)@ == old(out)@
            },
    {
        let len = line_len(&self.current_line);
        if len < MAX_LINE_LENGTH {
            line_insert(&mut self.current_line, self.cursor, SPACE);
            self.move_cursor_right(out);
            self.rewrite_line(out);
        }
    }

    /// Inserts a printable byte at the cursor and echoes it; the cursor
    /// advances past it. On a full line it does nothing.
    fn insert_character(&mut self, data: u8, out: &mut Vec<u8>)
        requires
            old(self).wf(),
        ensures
            final(self).wf(),
            final(self).style() == old(self).style(),
            final(self).model().esc == old(self).model().esc,
            old(self).model().line.len() < MAX_LINE_LENGTH ==> {
                &&& final(self).model().line == old(self).model().line.insert(
                    old(self).model().cursor,
                    data,
                )
                &&& final(self).model().cursor == old(self).model().cursor + 1
                &&& final(out)@ == old(out)@ + seq![data]
            },
            old(self).model().line.len() >= MAX_LINE_LENGTH ==> {
                &&& final(self).model() == old(self).model()
                &&& final(out)@ == old(out)@
            },
    {
        let len = line_len(&self.current_line);
        if len < MAX_LINE_LENGTH {
            line_insert(&mut self.current_line, self.cursor, data);
            out.push(data);
            self.cursor = self.cursor + 1;
            proof {
                assert(final(out)@ =~= old(out)@ + seq![data]);
            }
        }
    }

    /// Processes a buffer of input bytes: folds the editor's transition
    /// relation over them, emitting the matching redraw and echo bytes.
    #[verifier::rlimit(60)]
    pub fn process_bytes(&mut self, buffer: &[u8], out: &mut Vec<u8>)
        requires
            old(self).wf(),
        ensures
            final(self).wf(),
            final(self).style() == old(self).style(),
            final(self).model() == run(old(self).model(), buffer@),
            final(out)@ == old(out)@ + run_out(
                old(self).model(),
                old(self).color(),
                old(self).prompt(),
                buffer@,
            ),
    {
        let ghost first_state = self.model();
        let ghost first_out = out@;
        let mut i: usize = 0;
        while i < buffer.len()
            invariant
                i <= buffer@.len(),
                self.wf(),
                self.style() == old(self).style(),
                self.model() == run(first_state, buffer@.take(i as int)),
                out@ == first_out + run_out(
                    first_state,
                    self.color(),
                    self.prompt(),
                    buffer@.take(i as int),
                ),
            decreases buffer@.len() - i,
        {
            let data = *slice_index_get(buffer, i);
            let ghost prev_state = self.model();
            let ghost prev_out = out@;
            match self.escape_state {
                EscapeState::NotReceived => {
                    if data == ESCAPE {
                        self.escape_state = EscapeState::Received;
                    } else if data == CARRIAGE_RETURN || data == NEWLINE {
                        self.newline(out);
                        line_clear(&mut self.current_line);
                    } else if data == BACKSPACE || data == DELETE {
                        self.backspace(out);
                    } else if data == SPACE {
                        self.space(out);
                    } else if PRINTABLE_FIRST <= data && data <= PRINTABLE_LAST {
                        self.insert_character(data, out);
                    }
                },
                EscapeState::Received => {
                    if data == LEFT_BRACKET {
                        self.escape_state = EscapeState::BracketReceived;
                    } else {
                        self.escape_state = EscapeState::NotReceived;
                    }
                },
                EscapeState::BracketReceived => {
                    if data == ARROW_LEFT {
                        self.move_cursor_left(out);
                    } else if data == ARROW_RIGHT {
                        self.move_cursor_right(out);
                    }
                    self.escape_state = EscapeState::NotReceived;
                },
            }
            proof {
                assert(self.model() =~= step(prev_state, data));
                assert(out@ =~= prev_out + step_out(prev_state, self.color(), self.prompt(), data));
                lemma_run_snoc(
                    first_state,
                    self.color(),
                    self.prompt(),
                    buffer@.take(i as int),
                    data,
                );
                assert(buffer@.take(i + 1 as int) =~= buffer@.take(i as int).push(data));
                assert(out@ =~= first_out + run_out(
                    first_state,
                    self.color(),
                    self.prompt(),
                    buffer@.take(i + 1 as int),
                ));
            }
            i = i + 1;
        }
        proof {
            assert(buffer@.take(buffer@.len() as int) =~= buffer@);
        }
    }

    /// Pulls every byte waiting in the input queue and processes it; the
    /// queue is left empty.
    pub fn process_input(&mut self, queue: &mut crate::queue::InputQueue, out: &mut Vec<u8>)
        requires
            old(self).wf(),
            old(queue).wf(),
        ensures
            final(self).wf(),
            final(queue).wf(),
            final(queue)@ == Seq::<u8>::empty(),
            final(self).style() == old(self).style(),
            final(self).model() == run(old(self).model(), old(queue)@),
            final(out)@ == old(out)@ + run_out(
                old(self).model(),
                old(self).color(),
                old(self).prompt(),
                old(queue)@,
            ),
    {
        let bytes = queue.drain_all();
        self.process_bytes(bytes.as_slice(), out);
    }

    /// The cursor's current position in the line.
    pub fn cursor_position(&self) -> (r: usize)
        ensures
            r == self.model().cursor,
    {
        self.cursor
    }

    /// The current escape-sequence state.
    pub fn current_escape_state(&self) -> (r: EscapeState)
        ensures
            r == self.model().esc,
    {
        self.escape_state
    }

    /// A copy of the current line's bytes.
    pub fn line_bytes(&self) -> (r: Vec<u8>)
        ensures
            r@ == self.model().line,
    {
        let len = line_len(&self.current_line);
        let mut r: Vec<u8> = Vec::new();
        let mut i: usize = 0;
        while i < len
            invariant
                i <= len,
                len == self.model().line.len(),
                r@ == self.model().line.take(i as int),
            decreases len - i,
        {
            r.push(line_get(&self.current_line, i));
            i = i + 1;
            proof {
                assert(self.model().line.take(i as int) =~= self.model().line.take(i - 1).push(
                    self.model().line[i - 1],
                ));
            }
        }
        proof {
            assert(self.model().line.take(len as int) =~= self.model().line);
        }
        r
    }
}

/// Every byte of `text` lies in the printable range the editor inserts.
pub open spec fn all_printable(text: Seq<u8>) -> bool {
    forall|i: int|
        0 <= i < text.len() ==> PRINTABLE_FIRST <= #[trigger] text[i] <= PRINTABLE_LAST
}

/// One step keeps the editor's invariant: the cursor stays within the
/// line, and the line within its capacity.
pub proof fn lemma_step_preserves_wf(s: EdState, data: u8)
    requires
        state_wf(s),
    ensures
        state_wf(step(s, data)),
{
}

/// Cursor-bound law: under any sequence of insert, backspace, space and
/// arrow operations — any input bytes at all — the cursor stays within
/// `[0, line length]` at every step, the line within its capacity.
pub proof fn lemma_cursor_stays_in_bounds(s: EdState, input: Seq<u8>)
    requires
        state_wf(s),
    ensures
        state_wf(run(s, input)),
    decreases input.len(),
{
    if input.len() > 0 {
        lemma_step_preserves_wf(s, input[0]);
        lemma_cursor_stays_in_bounds(step(s, input[0]), input.drop_first());
    }
}

/// Escape-abort law: ESC followed by any byte other than `[` returns the
/// state machine to idle and leaves the line and the cursor unchanged,
/// with nothing emitted.
pub proof fn lemma_escape_abort(
    s: EdState,
    color: TerminalTextColor,
    prompt: Seq<u8>,
    data: u8,
)
    requires
        s.esc == EscapeState::NotReceived,
        data != LEFT_BRACKET,
    ensures
        run(s, seq![ESCAPE, data]) == s,
        run_out(s, color, prompt, seq![ESCAPE, data]) == Seq::<u8>::empty(),
{
    let input = seq![ESCAPE, data];
    let after_esc = step(s, ESCAPE);
    assert(input[0] == ESCAPE);
    assert(input.drop_first() =~= seq![data]);
    assert(seq![data][0] == data);
    assert(seq![data].drop_first() =~= Seq::<u8>::empty());
    assert(run(s, input) == run(after_esc, seq![data]));
    assert(run(after_esc, seq![data]) == run(step(after_esc, data), Seq::<u8>::empty()));
    assert(step(after_esc, data) =~= s);
    assert(run_out(s, color, prompt, input) == step_out(s, color, prompt, ESCAPE) + run_out(
        after_esc,
        color,
        prompt,
        seq![data],
    ));
    assert(run_out(after_esc, color, prompt, seq![data]) == step_out(after_esc, color, prompt, data)
        + run_out(step(after_esc, data), color, prompt, Seq::<u8>::empty()));
    assert(run_out(s, color, prompt, input) =~= Seq::<u8>::empty());
}

/// Line-commit law: a carriage return or line feed, at any cursor
/// position, clears the line, resets the cursor, and emits exactly the
/// newline-plus-prompt sequence.
pub proof fn lemma_line_commit(s: EdState, color: TerminalTextColor, prompt: Seq<u8>, data: u8)
    requires
        s.esc == EscapeState::NotReceived,
        data == CARRIAGE_RETURN || data == NEWLINE,
    ensures
        step(s, data) == initial_state(),
        step_out(s, color, prompt, data) == newline_out(color, prompt),
{
    assert(step(s, data) =~= initial_state());
}

/// Feeding a concatenation is feeding its parts one after the other.
proof fn lemma_run_append(s: EdState, left: Seq<u8>, right: Seq<u8>)
    ensures
        run(s, left + right) == run(run(s, left), right),
    decreases left.len(),
{
    if left.len() == 0 {
        assert(left + right =~= right);
    } else {
        assert((left + right)[0] == left[0]);
        assert((left + right).drop_first() =~= left.drop_first() + right);
        lemma_run_append(step(s, left[0]), left.drop_first(), right);
    }
}

/// Typing printable text with the cursor at the end of the line appends
/// it byte by byte.
proof fn lemma_insert_all(line: Seq<u8>, text: Seq<u8>)
    requires
        line.len() + text.len() <= MAX_LINE_LENGTH,
        all_printable(text),
    ensures
        run(EdState { line, cursor: line.len() as int, esc: EscapeState::NotReceived }, text)
            == (EdState {
            line: line + text,
            cursor: line.len() + text.len() as int,
            esc: EscapeState::NotReceived,
        }),
    decreases text.len(),
{
    let s = EdState { line, cursor: line.len() as int, esc: EscapeState::NotReceived };
    if text.len() == 0 {
        assert(line + text =~= line);
        assert(run(s, text) =~= EdState {
            line: line + text,
            cursor: line.len() + text.len() as int,
            esc: EscapeState::NotReceived,
        });
    } else {
        let data = text[0];
        assert(PRINTABLE_FIRST <= data <= PRINTABLE_LAST);
        assert(line.insert(line.len() as int, data) =~= line.push(data));
        lemma_insert_all(line.push(data), text.drop_first());
        assert(line.push(data) + text.drop_first() =~= line + text);
    }
}

/// With the cursor at the end of the line, one backspace per byte erases
/// the line completely.
proof fn lemma_backspace_all(line: Seq<u8>)
    ensures
        run(
            EdState { line, cursor: line.len() as int, esc: EscapeState::NotReceived },
            Seq::new(line.len(), |i: int| BACKSPACE),
        ) == initial_state(),
    decreases line.len(),
{
    let s = EdState { line, cursor: line.len() as int, esc: EscapeState::NotReceived };
    let input = Seq::new(line.len(), |i: int| BACKSPACE);
    if line.len() == 0 {
        assert(run(s, input) =~= initial_state());
    } else {
        assert(input[0] == BACKSPACE);
        let shorter = line.remove(line.len() - 1);
        assert(step(s, BACKSPACE) =~= EdState {
            line: shorter,
            cursor: shorter.len() as int,
            esc: EscapeState::NotReceived,
        });
        lemma_backspace_all(shorter);
        assert(input.drop_first() =~= Seq::new(shorter.len(), |i: int| BACKSPACE));
    }
}

/// Insert/backspace round-trip law: from an empty line, typing any
/// printable text and then issuing one backspace per typed byte returns
/// the editor to an empty line with the cursor at the start.
pub proof fn lemma_insert_backspace_round_trip(text: Seq<u8>)
    requires
        text.len() <= MAX_LINE_LENGTH,
        all_printable(text),
    ensures
        run(initial_state(), text + Seq::new(text.len(), |i: int| BACKSPACE)) == initial_state(),
{
    let erases = Seq::new(text.len(), |i: int| BACKSPACE);
    lemma_run_append(initial_state(), text, erases);
    lemma_insert_all(Seq::<u8>::empty(), text);
    assert(Seq::<u8>::empty() + text =~= text);
    assert(run(initial_state(), text) == EdState {
        line: text,
        cursor: text.len() as int,
        esc: EscapeState::NotReceived,
    });
    lemma_backspace_all(text);
}

} // verus!
