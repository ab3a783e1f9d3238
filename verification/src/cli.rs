//! Command-line-interface facade.
//!
//! A thin pass-through over the line editor: `print` for program output
//! and a periodic `process_input` tick that feeds queued input bytes to
//! the editor. It holds no state beyond the editor instance and surfaces
//! no errors, matching the console's no-error-propagation policy.

use vstd::prelude::*;

use crate::queue::InputQueue;
use crate::terminal::EdState;
use crate::terminal::Terminal;
use crate::terminal::TerminalTextColor;
use crate::terminal::initial_state;
use crate::terminal::print_out;
use crate::terminal::run;
use crate::terminal::run_out;
use crate::terminal::startup_out;

verus! {

/// Main CLI structure handling the command-line interface.
pub struct Cli {
    /// The underlying terminal instance.
    line_editor: Terminal,
}

impl Cli {
    /// The editor's mathematical state.
    pub closed spec fn model(&self) -> EdState {
        self.line_editor.model()
    }

    /// The configured prompt color.
    pub closed spec fn color(&self) -> TerminalTextColor {
        self.line_editor.color()
    }

    /// The configured prompt text.
    pub closed spec fn prompt(&self) -> Seq<u8> {
        self.line_editor.prompt()
    }

    /// The configured banner text.
    pub closed spec fn banner(&self) -> Seq<u8> {
        self.line_editor.banner()
    }

    /// The editor's invariant; see [`crate::terminal::state_wf`].
    pub closed spec fn wf(&self) -> bool {
        self.line_editor.wf()
    }

    /// Creates a new CLI around a fresh editor and emits the startup
    /// sequence: clear screen, banner in the prompt color, prompt.
    pub fn new(
        prompt_color: TerminalTextColor,
        cli_banner: Vec<u8>,
        cli_prompt: Vec<u8>,
        out: &mut Vec<u8>,
    ) -> (cli: Cli)
        ensures
            cli.wf(),
            cli.model() == initial_state(),
            cli.color() == prompt_color,
            cli.banner() == cli_banner@,
            cli.prompt() == cli_prompt@,
            final(out)@ == old(out)@ + startup_out(prompt_color, cli_banner@, cli_prompt@),
    {
        let line_editor = Terminal::new(prompt_color, cli_banner, cli_prompt, out);
        Cli { line_editor }
    }

    /// Prints text to the console without forcing the prompt color.
    pub fn print(&self, s: &[u8], out: &mut Vec<u8>)
        ensures
            final(out)@ == old(out)@ + print_out(self.color(), false, s@),
    {
        self.line_editor.print(s, false, out);
    }

    /// Processes any pending input: drains the queue and feeds the bytes
    /// to the editor, in arrival order. Meant to be called regularly from
    /// the foreground loop.
    pub fn process_input(&mut self, queue: &mut InputQueue, out: &mut Vec<u8>)
        requires
            old(self).wf(),
            old(queue).wf(),
        ensures
            final(self).wf(),
            final(queue).wf(),
            final(queue)@ == Seq::<u8>::empty(),
            final(self).color() == old(self).color(),
            final(self).prompt() == old(self).prompt(),
            final(self).banner() == old(self).banner(),
            final(self).model() == run(old(self).model(), old(queue)@),
            final(out)@ == old(out)@ + run_out(
                old(self).model(),
                old(self).color(),
                old(self).prompt(),
                old(queue)@,
            ),
    {
        self.line_editor.process_input(queue, out);
    }

    /// The underlying editor, for inspection.
    pub fn editor(&self) -> (r: &Terminal)
        ensures
            r.model() == self.model(),
            r.color() == self.color(),
            r.prompt() == self.prompt(),
            r.banner() == self.banner(),
    {
        &self.line_editor
    }
}

} // verus!
