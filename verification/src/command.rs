//! Resolving a raw line of input to a calculator command.

use vstd::prelude::*;
use crate::text::normalize_line;
use crate::text::normalize_spec;

verus! {

/// The resolved meaning of one line of user input: an arithmetic operator,
/// a meta-command, or `Invalid` for anything unrecognized.
#[derive(Clone, Copy, Debug, PartialEq, Eq, Structural)]
pub enum Command {
    Add,
    Subtract,
    Multiply,
    Divide,
    Modulo,
    Power,
    SquareRoot,
    Help,
    ClearScreen,
    Exit,
    Invalid,
}

/// The commands that go on to collect two operands. Help, clear, exit and
/// invalid input never do.
pub open spec fn needs_operands(c: Command) -> bool {
    match c {
        Command::Add => true,
        Command::Subtract => true,
        Command::Multiply => true,
        Command::Divide => true,
        Command::Modulo => true,
        Command::Power => true,
        Command::SquareRoot => true,
        _ => false,
    }
}

/// The command that a trimmed, lower-cased line of text names.
pub open spec fn command_of(s: Seq<char>) -> Command {
    if s == seq!['+'] {
        Command::Add
    } else if s == seq!['-'] {
        Command::Subtract
    } else if s == seq!['*'] {
        Command::Multiply
    } else if s == seq!['/'] {
        Command::Divide
    } else if s == seq!['%'] {
        Command::Modulo
    } else if s == seq!['^'] {
        Command::Power
    } else if s == seq!['s', 'q', 'r', 't'] {
        Command::SquareRoot
    } else if s == seq!['h', 'e', 'l', 'p'] {
        Command::Help
    } else if s == seq!['c', 'l', 'e', 'a', 'r'] {
        Command::ClearScreen
    } else if s == seq!['c', 'l', 's'] {
        Command::ClearScreen
    } else if s == seq!['e', 'x', 'i', 't'] {
        Command::Exit
    } else {
        Command::Invalid
    }
}

/// True of commands that collect operands, per `needs_operands`.
pub fn requires_operands(c: Command) -> (b: bool)
    ensures
        b == needs_operands(c),
{
    match c {
        Command::Add => true,
        Command::Subtract => true,
        Command::Multiply => true,
        Command::Divide => true,
        Command::Modulo => true,
        Command::Power => true,
        Command::SquareRoot => true,
        _ => false,
    }
}

/// Classifies an already-normalized line of text.
pub fn classify(v: &Vec<char>) -> (c: Command)
    ensures
        c == command_of(v@),
{
    let n = v.len();
    if n == 1 {
        let c0 = v[0];
        let r = if c0 == '+' {
            Command::Add
        } else if c0 == '-' {
            Command::Subtract
        } else if c0 == '*' {
            Command::Multiply
        } else if c0 == '/' {
            Command::Divide
        } else if c0 == '%' {
            Command::Modulo
        } else if c0 == '^' {
            Command::Power
        } else {
            Command::Invalid
        };
        proof {
            if c0 == '+' {
                assert(v@ =~= seq!['+']);
            } else if c0 == '-' {
                assert(v@ =~= seq!['-']);
            } else if c0 == '*' {
                assert(v@ =~= seq!['*']);
            } else if c0 == '/' {
                assert(v@ =~= seq!['/']);
            } else if c0 == '%' {
                assert(v@ =~= seq!['%']);
            } else if c0 == '^' {
                assert(v@ =~= seq!['^']);
            }
        }
        r
    } else if n == 3 {
        if v[0] == 'c' && v[1] == 'l' && v[2] == 's' {
            proof {
                assert(v@ =~= seq!['c', 'l', 's']);
            }
            Command::ClearScreen
        } else {
            Command::Invalid
        }
    } else if n == 4 {
        if v[0] == 's' && v[1] == 'q' && v[2] == 'r' && v[3] == 't' {
            proof {
                assert(v@ =~= seq!['s', 'q', 'r', 't']);
            }
            Command::SquareRoot
        } else if v[0] == 'h' && v[1] == 'e' && v[2] == 'l' && v[3] == 'p' {
            proof {
                assert(v@ =~= seq!['h', 'e', 'l', 'p']);
            }
            Command::Help
        } else if v[0] == 'e' && v[1] == 'x' && v[2] == 'i' && v[3] == 't' {
            proof {
                assert(v@ =~= seq!['e', 'x', 'i', 't']);
            }
            Command::Exit
        } else {
            Command::Invalid
        }
    } else if n == 5 {
        if v[0] == 'c' && v[1] == 'l' && v[2] == 'e' && v[3] == 'a' && v[4] == 'r' {
            proof {
                assert(v@ =~= seq!['c', 'l', 'e', 'a', 'r']);
            }
            Command::ClearScreen
        } else {
            Command::Invalid
        }
    } else {
        Command::Invalid
    }
}

/// Resolves a raw input line: trims whitespace, lower-cases, and classifies.
pub fn resolve_command(line: &str) -> (c: Command)
    ensures
        c == command_of(normalize_spec(line@)),
{
    let v = normalize_line(line);
    classify(&v)
}

/// Each recognized spelling resolves to its own command, and any other text
/// resolves to `Invalid`.
pub proof fn lemma_command_resolution(s: Seq<char>)
    ensures
        command_of(s) == Command::Add <==> s == seq!['+'],
        command_of(s) == Command::Subtract <==> s == seq!['-'],
        command_of(s) == Command::Multiply <==> s == seq!['*'],
        command_of(s) == Command::Divide <==> s == seq!['/'],
        command_of(s) == Command::Modulo <==> s == seq!['%'],
        command_of(s) == Command::Power <==> s == seq!['^'],
        command_of(s) == Command::SquareRoot <==> s == seq!['s', 'q', 'r', 't'],
        command_of(s) == Command::Help <==> s == seq!['h', 'e', 'l', 'p'],
        command_of(s) == Command::ClearScreen <==> (s == seq!['c', 'l', 'e', 'a', 'r'] || s
            == seq!['c', 'l', 's']),
        command_of(s) == Command::Exit <==> s == seq!['e', 'x', 'i', 't'],
        command_of(s) == Command::Invalid <==> !(s == seq!['+'] || s == seq!['-'] || s
            == seq!['*'] || s == seq!['/'] || s == seq!['%'] || s == seq!['^'] || s
            == seq!['s', 'q', 'r', 't'] || s == seq!['h', 'e', 'l', 'p'] || s
            == seq!['c', 'l', 'e', 'a', 'r'] || s == seq!['c', 'l', 's'] || s
            == seq!['e', 'x', 'i', 't']),
{
    assert(seq!['+'].len() == 1 && seq!['+'][0] == '+');
    assert(seq!['-'].len() == 1 && seq!['-'][0] == '-');
    assert(seq!['*'].len() == 1 && seq!['*'][0] == '*');
    assert(seq!['/'].len() == 1 && seq!['/'][0] == '/');
    assert(seq!['%'].len() == 1 && seq!['%'][0] == '%');
    assert(seq!['^'].len() == 1 && seq!['^'][0] == '^');
    assert(seq!['s', 'q', 'r', 't'].len() == 4 && seq!['s', 'q', 'r', 't'][0] == 's');
    assert(seq!['h', 'e', 'l', 'p'].len() == 4 && seq!['h', 'e', 'l', 'p'][0] == 'h');
    assert(seq!['e', 'x', 'i', 't'].len() == 4 && seq!['e', 'x', 'i', 't'][0] == 'e');
    assert(seq!['c', 'l', 'e', 'a', 'r'].len() == 5 && seq!['c', 'l', 'e', 'a', 'r'][0] == 'c');
    assert(seq!['c', 'l', 's'].len() == 3 && seq!['c', 'l', 's'][0] == 'c');
}

} // verus!
