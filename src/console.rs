use vstd::prelude::*;
use vstd::string::*;
use crate::dispatch::Command;

verus! {

/// What an operator's input line asks for.
#[derive(Clone, Copy, Debug, PartialEq, Eq, Structural)]
pub enum ConsoleInput {
    Exit,
    Pause,
    Resume,
    /// An empty line: nothing to do.
    Nothing,
    /// Text that is no command: reported and otherwise ignored.
    Unknown,
}

/// The meaning of an input line.
pub open spec fn console_input_of(line: Seq<char>) -> ConsoleInput {
    if line == "exit"@ {
        ConsoleInput::Exit
    } else if line == "pause"@ {
        ConsoleInput::Pause
    } else if line == "resume"@ {
        ConsoleInput::Resume
    } else if line.len() == 0 {
        ConsoleInput::Nothing
    } else {
        ConsoleInput::Unknown
    }
}

fn same_text(a: &str, b: &str) -> (r: bool)
    ensures
        r == (a@ == b@),
{
    let n = a.unicode_len();
    if n != b.unicode_len() {
        return false;
    }
    let mut i: usize = 0;
    while i < n
        invariant
            n == a@.len(),
            n == b@.len(),
            i <= n,
            a@.subrange(0, i as int) == b@.subrange(0, i as int),
        decreases n - i,
    {
        if a.get_char(i) != b.get_char(i) {
            return false;
        }
        i = i + 1;
        proof {
            assert(a@.subrange(0, i as int) =~= b@.subrange(0, i as int));
        }
    }
    proof {
        assert(a@ =~= a@.subrange(0, n as int));
        assert(b@ =~= b@.subrange(0, n as int));
    }
    true
}

/// Reads an operator's input line.
pub fn parse_console(line: &str) -> (r: ConsoleInput)
    ensures
        r == console_input_of(line@),
{
    if same_text(line, "exit") {
        ConsoleInput::Exit
    } else if same_text(line, "pause") {
        ConsoleInput::Pause
    } else if same_text(line, "resume") {
        ConsoleInput::Resume
    } else if line.unicode_len() == 0 {
        ConsoleInput::Nothing
    } else {
        ConsoleInput::Unknown
    }
}

/// What an interrupt does: it flips between paused and running. Given
/// whether the console shows the loop paused, the command to send and
/// whether it shows it paused afterwards.
pub fn interrupt_command(paused: bool) -> (r: (Command, bool))
    ensures
        r.1 == !paused,
        r.0 == (if paused { Command::Resume } else { Command::Pause }),
{
    if paused {
        (Command::Resume, false)
    } else {
        (Command::Pause, true)
    }
}

} // verus!
