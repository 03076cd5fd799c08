//! How a command is handed to the operating system.

use crate::invocation::{texts, Invocation};
use vstd::prelude::*;

verus! {

/// The two kinds of platform that a command is launched on.
#[derive(Clone, Copy, Debug, PartialEq, Eq, Structural)]
pub enum Platform {
    /// Built-in commands are no programs of their own here: every command
    /// goes through the command interpreter.
    Windows,
    /// The program is started directly, with no shell in between.
    Other,
}

/// The words that are handed to the operating system for a command: behind
/// the interpreter and its switch on Windows, the command as it is elsewhere.
pub open spec fn launch_line(platform: Platform, command: Seq<Seq<char>>) -> Seq<Seq<char>> {
    match platform {
        Platform::Windows => seq!["cmd"@, "/C"@] + command,
        Platform::Other => command,
    }
}

/// A program and the arguments to start it with.
#[derive(Debug)]
pub struct Launch {
    pub program: String,
    pub arguments: Vec<String>,
}

/// Decides what to start for one run of the invocation's command. Nothing
/// is expanded or split: every word goes through as it was given.
pub fn plan_launch(platform: Platform, invocation: &Invocation) -> (launch: Launch)
    ensures
        launch.program@ == launch_line(platform, invocation@.command).first(),
        texts(launch.arguments@) == launch_line(platform, invocation@.command).skip(1),
{
    let command = invocation.command();
    let mut arguments: Vec<String> = Vec::new();
    let ghost lead: Seq<Seq<char>>;
    let program: String;
    let first: usize;
    match platform {
        Platform::Windows => {
            program = "cmd".to_owned();
            arguments.push("/C".to_owned());
            first = 0;
            proof {
                lead = seq!["/C"@];
            }
        },
        Platform::Other => {
            program = command[0].clone();
            first = 1;
            proof {
                lead = Seq::empty();
            }
        },
    }
    assert(texts(arguments@) =~= lead);
    let mut i: usize = first;
    while i < command.len()
        invariant
            first <= i <= command.len(),
            texts(arguments@) == lead + texts(command@).subrange(first as int, i as int),
        decreases command.len() - i,
    {
        let ghost before = arguments@;
        arguments.push(command[i].clone());
        assert(texts(arguments@) =~= texts(before).push(command@[i as int]@));
        assert(texts(command@).subrange(first as int, i + 1) =~= texts(command@).subrange(
            first as int,
            i as int,
        ).push(command@[i as int]@));
        i += 1;
    }
    assert(texts(arguments@) =~= launch_line(platform, invocation@.command).skip(1));
    Launch { program, arguments }
}

} // verus!
