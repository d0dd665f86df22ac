use vstd::prelude::*;

use crate::error::ErrorCode;

verus! {

/// An operation the user can ask for on the command line.
#[derive(Debug, Clone, Copy, PartialEq, Eq, Structural)]
pub enum Command {
    Help,
    GetValue,
    AddValue,
    ListAll,
}

/// The command-line token that selects each command.
pub open spec fn command_token(c: Command) -> Seq<char> {
    match c {
        Command::Help => "help"@,
        Command::GetValue => "get"@,
        Command::AddValue => "add"@,
        Command::ListAll => "ls"@,
    }
}

/// The command selected by a token: an exact, case-sensitive match against
/// the fixed tokens, and `UnsupportedOperation` for anything else.
pub open spec fn command_for_token(s: Seq<char>) -> Result<Command, ErrorCode> {
    if s == command_token(Command::Help) {
        Ok(Command::Help)
    } else if s == command_token(Command::GetValue) {
        Ok(Command::GetValue)
    } else if s == command_token(Command::AddValue) {
        Ok(Command::AddValue)
    } else if s == command_token(Command::ListAll) {
        Ok(Command::ListAll)
    } else {
        Err(ErrorCode::UnsupportedOperation)
    }
}

/// What resolving the command from the program arguments yields: the second
/// argument selects the command; without one the argument is missing.
pub open spec fn operation_for_args(args: Seq<Seq<char>>) -> Result<Command, ErrorCode> {
    if args.len() < 2 {
        Err(ErrorCode::NonexistentArgument)
    } else {
        command_for_token(args[1])
    }
}

/// What resolving the supplementary argument yields: the third argument, verbatim.
pub open spec fn supplementary_for_args(args: Seq<Seq<char>>) -> Result<Seq<char>, ErrorCode> {
    if args.len() < 3 {
        Err(ErrorCode::NonexistentArgument)
    } else {
        Ok(args[2])
    }
}

/// The view of a list of arguments as a sequence of character sequences.
pub open spec fn args_view(args: Seq<String>) -> Seq<Seq<char>> {
    args.map_values(|a: String| a@)
}

/// Distinct commands have distinct tokens, so each token leads back to its command.
pub proof fn lemma_token_selects_command(c: Command)
    ensures
        command_for_token(command_token(c)) == Ok::<Command, ErrorCode>(c),
{
    reveal_strlit("help");
    reveal_strlit("get");
    reveal_strlit("add");
    reveal_strlit("ls");
    assert("get"@ != "help"@) by { assert("get"@[0] != "help"@[0]); }
    assert("add"@ != "help"@) by { assert("add"@[0] != "help"@[0]); }
    assert("add"@ != "get"@) by { assert("add"@[0] != "get"@[0]); }
    assert("ls"@ != "help"@) by { assert("ls"@.len() != "help"@.len()); }
    assert("ls"@ != "get"@) by { assert("ls"@.len() != "get"@.len()); }
    assert("ls"@ != "add"@) by { assert("ls"@.len() != "add"@.len()); }
}

impl Command {
    /// Returns the command-line token of this command.
    pub fn get_command(&self) -> (r: String)
        ensures
            r@ == command_token(*self),
    {
        match *self {
            Command::Help => "help".to_owned(),
            Command::GetValue => "get".to_owned(),
            Command::AddValue => "add".to_owned(),
            Command::ListAll => "ls".to_owned(),
        }
    }

    /// Returns every command, each once.
    pub fn all() -> (r: Vec<Command>)
        ensures
            r@ == seq![Command::Help, Command::GetValue, Command::AddValue, Command::ListAll],
    {
        vec![Command::Help, Command::GetValue, Command::AddValue, Command::ListAll]
    }

    /// Determines the command selected by a token given by the user.
    pub fn get_by_command_str(command_str: &str) -> (r: Result<Command, ErrorCode>)
        ensures
            r == command_for_token(command_str@),
    {
        let commands = Command::all();
        let wanted = command_str.to_owned();
        let mut i: usize = 0;
        while i < commands.len()
            invariant
                commands@ == seq![Command::Help, Command::GetValue, Command::AddValue, Command::ListAll],
                wanted@ == command_str@,
                forall|j: int| 0 <= j < i ==> command_token(#[trigger] commands@[j]) != command_str@,
            decreases commands.len() - i,
        {
            let c = commands[i];
            if c.get_command() == wanted {
                proof {
                    lemma_token_selects_command(c);
                }
                return Ok(c);
            }
            i += 1;
        }
        assert(command_token(commands@[0]) != command_str@);
        assert(command_token(commands@[1]) != command_str@);
        assert(command_token(commands@[2]) != command_str@);
        assert(command_token(commands@[3]) != command_str@);
        Err(ErrorCode::UnsupportedOperation)
    }
}

/// Reads the command and its argument out of the program arguments.
pub struct Cmd {}

impl Cmd {
    /// Determines the command from the program arguments (program name first).
    pub fn resolve_operation_type(args: Vec<String>) -> (r: Result<Command, ErrorCode>)
        ensures
            r == operation_for_args(args_view(args@)),
    {
        if args.len() < 2 {
            Err(ErrorCode::NonexistentArgument)
        } else {
            Command::get_by_command_str(args[1].as_str())
        }
    }

    /// Determines the supplementary argument (the key of `get`) from the
    /// program arguments.
    pub fn get_supplementary_arg(args: Vec<String>) -> (r: Result<String, ErrorCode>)
        ensures
            match r {
                Ok(s) => supplementary_for_args(args_view(args@)) == Ok::<Seq<char>, ErrorCode>(s@),
                Err(e) => supplementary_for_args(args_view(args@)) == Err::<Seq<char>, ErrorCode>(e),
            },
    {
        if args.len() < 3 {
            Err(ErrorCode::NonexistentArgument)
        } else {
            Ok(args[2].clone())
        }
    }
}

/// What one run of the tool does once the arguments are read.
#[derive(Debug, Clone, PartialEq, Eq)]
pub enum Action {
    /// Print the usage text.
    ShowHelp,
    /// Look up the value stored under the key.
    ReadValue(String),
    /// Prompt for a key and a value and store them.
    AddValue,
    /// Print every stored entry.
    ListAll,
    /// Report the error; the config is not read or written.
    Report(ErrorCode),
}

impl Cmd {
    /// Decides what a run does from the program arguments.
    pub fn plan(args: Vec<String>) -> (r: Action)
        ensures
            match r {
                Action::ShowHelp => operation_for_args(args_view(args@)) == Ok::<Command, ErrorCode>(Command::Help),
                Action::ReadValue(key) => operation_for_args(args_view(args@)) == Ok::<Command, ErrorCode>(Command::GetValue)
                    && supplementary_for_args(args_view(args@)) == Ok::<Seq<char>, ErrorCode>(key@),
                Action::AddValue => operation_for_args(args_view(args@)) == Ok::<Command, ErrorCode>(Command::AddValue),
                Action::ListAll => operation_for_args(args_view(args@)) == Ok::<Command, ErrorCode>(Command::ListAll),
                Action::Report(e) => operation_for_args(args_view(args@)) == Err::<Command, ErrorCode>(e)
                    || (operation_for_args(args_view(args@)) == Ok::<Command, ErrorCode>(Command::GetValue)
                        && supplementary_for_args(args_view(args@)) == Err::<Seq<char>, ErrorCode>(e)),
            },
    {
        match Cmd::resolve_operation_type(args.clone()) {
            Err(e) => Action::Report(e),
            Ok(Command::Help) => Action::ShowHelp,
            Ok(Command::GetValue) => match Cmd::get_supplementary_arg(args) {
                Ok(key) => Action::ReadValue(key),
                Err(e) => Action::Report(e),
            },
            Ok(Command::AddValue) => Action::AddValue,
            Ok(Command::ListAll) => Action::ListAll,
        }
    }
}

/// A second argument that is no command's token resolves to
/// `UnsupportedOperation`.
pub proof fn lemma_unknown_command_is_reported(args: Seq<Seq<char>>)
    requires
        args.len() >= 2,
        forall|c: Command| command_token(c) != args[1],
    ensures
        operation_for_args(args) == Err::<Command, ErrorCode>(ErrorCode::UnsupportedOperation),
{
    assert(command_token(Command::Help) != args[1]);
    assert(command_token(Command::GetValue) != args[1]);
    assert(command_token(Command::AddValue) != args[1]);
    assert(command_token(Command::ListAll) != args[1]);
}

} // verus!
