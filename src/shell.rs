//! The command line: the line being typed, what each key does to it, and
//! the commands it knows.
use vstd::prelude::*;

verus! {

/// A command of the shell.
#[derive(Clone, Copy, Debug, PartialEq, Eq)]
pub enum Command {
    /// `hello`: greets.
    Hello,
    /// `shutdown`: leaves the machine.
    Shutdown,
    /// Anything else.
    NotFound,
}

impl Command {
    /// The text printed for the command; `shutdown` prints nothing, as the
    /// machine stops.
    pub fn message(&self) -> (r: &'static str)
        ensures
            *self == Command::Hello ==> r@ == "Hello world"@,
            *self == Command::NotFound ==> r@ == "Command not found"@,
            *self == Command::Shutdown ==> r@ == ""@,
    {
        match self {
            Command::Hello => "Hello world",
            Command::Shutdown => "",
            Command::NotFound => "Command not found",
        }
    }
}

pub open spec fn hello_word() -> Seq<char> {
    seq!['h', 'e', 'l', 'l', 'o']
}

pub open spec fn shutdown_word() -> Seq<char> {
    seq!['s', 'h', 'u', 't', 'd', 'o', 'w', 'n']
}

/// The command that the line `cmd` names.
pub open spec fn spec_command(cmd: Seq<char>) -> Command {
    if cmd == hello_word() {
        Command::Hello
    } else if cmd == shutdown_word() {
        Command::Shutdown
    } else {
        Command::NotFound
    }
}

fn equals(a: &Vec<char>, b: &Vec<char>) -> (r: bool)
    ensures
        r == (a@ == b@),
{
    if a.len() != b.len() {
        return false;
    }
    let mut i: usize = 0;
    while i < a.len()
        invariant
            a.len() == b.len(),
            i <= a.len(),
            forall|j: int| 0 <= j < i ==> a@[j] == b@[j],
        decreases a.len() - i,
    {
        if a[i] != b[i] {
            return false;
        }
        i = i + 1;
    }
    assert(a@ =~= b@);
    true
}

/// The command that the line `cmd` names.
pub fn run(cmd: &Vec<char>) -> (r: Command)
    ensures
        r == spec_command(cmd@),
{
    let hello = vec!['h', 'e', 'l', 'l', 'o'];
    let shutdown = vec!['s', 'h', 'u', 't', 'd', 'o', 'w', 'n'];
    assert(hello@ =~= hello_word());
    assert(shutdown@ =~= shutdown_word());
    if equals(cmd, &hello) {
        Command::Hello
    } else if equals(cmd, &shutdown) {
        Command::Shutdown
    } else {
        Command::NotFound
    }
}

/// What the terminal must do after a key.
#[derive(Clone, Copy, Debug, PartialEq, Eq)]
pub enum ShellAction {
    /// Redraw the prompt with the line.
    Render,
    /// Print the outcome of the command, then redraw the empty prompt.
    Enter(Command),
}

/// The low byte of a character, as the key handling reads it.
pub open spec fn key_byte(c: char) -> u32 {
    c as u32 % 256
}

/// The line being typed.
#[derive(Debug)]
pub struct Shell {
    cmd: Vec<char>,
}

impl Shell {
    pub closed spec fn line(&self) -> Seq<char> {
        self.cmd@
    }

    /// An empty line.
    pub fn new() -> (r: Shell)
        ensures
            r.line() == Seq::<char>::empty(),
    {
        Shell { cmd: Vec::new() }
    }

    /// The line typed so far.
    pub fn command(&self) -> (r: &Vec<char>)
        ensures
            r@ == self.line(),
    {
        &self.cmd
    }

    /// Takes key `char`: a newline runs the line and empties it, a
    /// backspace drops the last character, anything else is appended.
    pub fn handle_keypress(&mut self, char: char) -> (r: ShellAction)
        ensures
            key_byte(char) == 10 ==> r == ShellAction::Enter(spec_command(old(self).line()))
                && final(self).line() == Seq::<char>::empty(),
            key_byte(char) == 8 ==> r == ShellAction::Render && final(self).line() == if old(
                self,
            ).line().len() > 0 {
                old(self).line().drop_last()
            } else {
                old(self).line()
            },
            key_byte(char) != 10 && key_byte(char) != 8 ==> r == ShellAction::Render
                && final(self).line() == old(self).line().push(char),
    {
        let b = (char as u32) % 256;
        if b == 10 {
            self.enter()
        } else if b == 8 {
            self.cmd.pop();
            ShellAction::Render
        } else {
            self.cmd.push(char);
            ShellAction::Render
        }
    }

    fn enter(&mut self) -> (r: ShellAction)
        ensures
            r == ShellAction::Enter(spec_command(old(self).line())),
            final(self).line() == Seq::<char>::empty(),
    {
        let res = run(&self.cmd);
        self.cmd = Vec::new();
        ShellAction::Enter(res)
    }
}

/// A key as the terminal receives it.
#[derive(Clone, Copy, Debug, PartialEq, Eq)]
pub enum Key {
    Unicode(char),
    RawKey,
}

/// The simple terminal: collects typed characters into a command.
#[derive(Debug)]
pub struct Terminal {
    command: Vec<char>,
}

impl Terminal {
    pub closed spec fn line(&self) -> Seq<char> {
        self.command@
    }

    pub fn new() -> (r: Terminal)
        ensures
            r.line() == Seq::<char>::empty(),
    {
        Terminal { command: Vec::new() }
    }

    /// Takes a key; returns the character to echo, if any. A newline ends
    /// the command; another character is appended and echoed.
    pub fn key_press(&mut self, key: Key) -> (r: Option<char>)
        ensures
            key == Key::Unicode('\n') ==> r.is_none() && final(self).line() == old(self).line(),
            key == Key::RawKey ==> r.is_none() && final(self).line() == old(self).line(),
            (forall|c: char| key == Key::Unicode(c) ==> c != '\n') && key != Key::RawKey ==> {
                let c = match key {
                    Key::Unicode(c) => c,
                    Key::RawKey => ' ',
                };
                r == Some(c) && final(self).line() == old(self).line().push(c)
            },
    {
        match key {
            Key::Unicode('\n') => {
                self.enter_cmd();
                None
            },
            Key::Unicode(character) => {
                self.command.push(character);
                Some(character)
            },
            Key::RawKey => None,
        }
    }

    /// Ends the command line; nothing is run.
    pub fn enter_cmd(&mut self)
        ensures
            final(self).line() == old(self).line(),
    {
    }
}

} // verus!
