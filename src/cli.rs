use vstd::prelude::*;
use crate::layout::{join, joined};

verus! {

/// Why the command line could not be read.
#[derive(Debug)]
pub enum CliError {
    /// The first word names no command.
    InvalidCommand,
    /// A command that takes an argument was given none; says which.
    MissingArgument(&'static str),
}

impl CliError {
    /// The text shown for this error.
    pub fn message(&self) -> (r: String)
        ensures
            match self {
                CliError::InvalidCommand => r@ == "Error: Invalid command was given."@,
                CliError::MissingArgument(arg) => r@ == "Error: Missing argument "@ + arg@
                    + "\n"@,
            },
    {
        match self {
            CliError::InvalidCommand => "Error: Invalid command was given.".to_owned(),
            CliError::MissingArgument(arg) => "Error: Missing argument ".to_owned().concat(
                arg,
            ).concat("\n"),
        }
    }
}

/// What part of the program to run.
#[derive(Clone, Copy, Debug, PartialEq, Eq, Structural)]
pub enum Commands {
    /// Sets up a project in the current directory.
    Init,
    /// Sets up a project at a given path.
    New,
    /// Compiles the project in the current directory.
    Build,
    /// Compiles the project in the current directory, then runs it.
    Run,
    /// Shows the usage text.
    Help,
}

/// Options that may follow the command.
#[derive(Clone, Copy, Debug, PartialEq, Eq, Structural)]
pub enum Flags {
    /// Sets up a git repository in the new project.
    Git,
}

/// A read command line.
pub struct Args {
    pub command: Commands,
    /// Where the project goes; only `new` has one.
    pub path: Option<String>,
    pub flags: Vec<Flags>,
}

/// The work that a command line asks for.
pub enum Task {
    /// Set up a project in the current directory, with a git repository if asked.
    Init { git: bool },
    /// Set up a project at `path`, with a git repository if asked.
    New { path: String, git: bool },
    /// Build the project in the current directory.
    Build,
    /// Build the project in the current directory, then run its binary.
    Run,
    /// Show the usage text.
    Help,
}

pub open spec fn word(s: Seq<char>) -> Option<Commands> {
    if s == seq!['i', 'n', 'i', 't'] {
        Some(Commands::Init)
    } else if s == seq!['n', 'e', 'w'] {
        Some(Commands::New)
    } else if s == seq!['b', 'u', 'i', 'l', 'd'] {
        Some(Commands::Build)
    } else if s == seq!['r', 'u', 'n'] {
        Some(Commands::Run)
    } else if s == seq!['h', 'e', 'l', 'p'] {
        Some(Commands::Help)
    } else {
        None
    }
}

/// Whitespace as Unicode's `White_Space` property lists it.
pub open spec fn is_space(c: char) -> bool {
    c == ' ' || ('\t' <= c && c <= '\r') || c == '\u{85}' || c == '\u{a0}' || c == '\u{1680}' || (
    '\u{2000}' <= c && c <= '\u{200a}') || c == '\u{2028}' || c == '\u{2029}' || c == '\u{202f}'
        || c == '\u{205f}' || c == '\u{3000}'
}

/// The first index of `s` from `i` on that holds no whitespace, or its length.
pub open spec fn space_end(s: Seq<char>, i: int) -> int
    decreases s.len() - i,
{
    if i < s.len() && is_space(s[i]) {
        space_end(s, i + 1)
    } else {
        i
    }
}

/// The end of `s[lo..j]` once trailing whitespace is cut off.
pub open spec fn space_start(s: Seq<char>, lo: int, j: int) -> int
    decreases j - lo,
{
    if j > lo && is_space(s[j - 1]) {
        space_start(s, lo, j - 1)
    } else {
        j
    }
}

/// `s` without leading and trailing whitespace.
pub open spec fn trimmed(s: Seq<char>) -> Seq<char> {
    let a = space_end(s, 0);
    s.subrange(a, space_start(s, a, s.len() as int))
}

pub open spec fn is_git_flag(s: Seq<char>) -> bool {
    trimmed(s) == seq!['-', '-', 'g', 'i', 't'] || trimmed(s) == seq!['-', 'g']
}

fn is_space_char(c: char) -> (r: bool)
    ensures
        r == is_space(c),
{
    c == ' ' || ('\t' <= c && c <= '\r') || c == '\u{85}' || c == '\u{a0}' || c == '\u{1680}' || (
    '\u{2000}' <= c && c <= '\u{200a}') || c == '\u{2028}' || c == '\u{2029}' || c == '\u{202f}'
        || c == '\u{205f}' || c == '\u{3000}'
}

/// A copy of `s` without leading and trailing whitespace.
pub fn trim_text(s: &str) -> (r: String)
    ensures
        r@ == trimmed(s@),
{
    let n = s.unicode_len();
    let mut a: usize = 0;
    while a < n && is_space_char(s.get_char(a))
        invariant
            n == s@.len(),
            a <= n,
            space_end(s@, a as int) == space_end(s@, 0),
        decreases n - a,
    {
        a = a + 1;
    }
    let mut b: usize = n;
    while b > a && is_space_char(s.get_char(b - 1))
        invariant
            n == s@.len(),
            a <= b <= n,
            space_start(s@, a as int, b as int) == space_start(s@, a as int, n as int),
        decreases b - a,
    {
        b = b - 1;
    }
    s.substring_char(a, b).to_owned()
}

/// One `Git` for each word that is `--git` or `-g`, in order.
pub open spec fn git_flags(words: Seq<Seq<char>>) -> Seq<Flags>
    decreases words.len(),
{
    if words.len() == 0 {
        Seq::empty()
    } else if is_git_flag(words.last()) {
        git_flags(words.drop_last()).push(Flags::Git)
    } else {
        git_flags(words.drop_last())
    }
}

/// The index of the first character of `s` from `i` on that is no `/`.
pub open spec fn skip_slashes(s: Seq<char>, i: int) -> int
    decreases s.len() - i,
{
    if i < s.len() && s[i] == '/' {
        skip_slashes(s, i + 1)
    } else {
        i
    }
}

/// `s` without its leading slashes.
pub open spec fn relative(s: Seq<char>) -> Seq<char> {
    s.subrange(skip_slashes(s, 0), s.len() as int)
}

fn trailing_relative(s: &str) -> (r: String)
    ensures
        r@ == relative(s@),
{
    let n = s.unicode_len();
    let mut i: usize = 0;
    while i < n && s.get_char(i) == '/'
        invariant
            n == s@.len(),
            i <= n,
            skip_slashes(s@, i as int) == skip_slashes(s@, 0),
        decreases n - i,
    {
        i = i + 1;
    }
    s.substring_char(i, n).to_owned()
}

fn git_flags_of(words: &Vec<String>, from: usize) -> (r: Vec<Flags>)
    requires
        from <= words@.len(),
    ensures
        r@ == git_flags(crate::manifest::views(words@).subrange(from as int, words@.len() as int)),
{
    let ghost ws = crate::manifest::views(words@);
    let mut r: Vec<Flags> = Vec::new();
    let mut i = from;
    assert(ws.subrange(from as int, from as int) =~= Seq::<Seq<char>>::empty());
    while i < words.len()
        invariant
            ws == crate::manifest::views(words@),
            from <= i <= words@.len(),
            r@ == git_flags(ws.subrange(from as int, i as int)),
        decreases words@.len() - i,
    {
        let t = trim_text(words[i].as_str());
        let w = t.as_str();
        assert(ws.subrange(from as int, i + 1).drop_last() =~= ws.subrange(from as int, i as int));
        let a = crate::toolchain::equal_text(w, "--git");
        let b = crate::toolchain::equal_text(w, "-g");
        proof {
            reveal_strlit("--git");
            reveal_strlit("-g");
            assert("--git"@ =~= seq!['-', '-', 'g', 'i', 't']);
            assert("-g"@ =~= seq!['-', 'g']);
        }
        if a || b {
            r.push(Flags::Git);
        }
        i = i + 1;
    }
    r
}

impl Args {
    /// Reads a command line, given without the program's name. The first
    /// word, without surrounding whitespace, is the command (`init`, `new`,
    /// `build`, `run` or `help`); with no words, the command is `help`. `new`
    /// takes the next word, as it stands, as the project's name, placed under
    /// `cwd` with leading slashes dropped. Each later word that is `--git` or
    /// `-g` once whitespace around it is dropped adds a `Git` flag; others
    /// are ignored.
    pub fn parse(words: &Vec<String>, cwd: &str) -> (r: Result<Args, CliError>)
        ensures
            ({
                let ws = crate::manifest::views(words@);
                if ws.len() == 0 {
                    r matches Ok(a) && a.command == Commands::Help && a.path is None
                        && a.flags@.len() == 0
                } else {
                    match word(trimmed(ws[0])) {
                        None => r matches Err(CliError::InvalidCommand),
                        Some(Commands::New) => if ws.len() < 2 {
                            r matches Err(CliError::MissingArgument(m)) && m@
                                == "name after command new."@
                        } else {
                            r matches Ok(a) && a.command == Commands::New && (a.path matches Some(
                                p,
                            ) && p@ == joined(cwd@, relative(ws[1]))) && a.flags@ == git_flags(
                                ws.subrange(2, ws.len() as int),
                            )
                        },
                        Some(c) => r matches Ok(a) && a.command == c && a.path is None
                            && a.flags@ == git_flags(ws.subrange(1, ws.len() as int)),
                    }
                }
            }),
    {
        if words.len() == 0 {
            return Ok(Args { command: Commands::Help, path: None, flags: Vec::new() });
        }
        proof {
            reveal_strlit("init");
            reveal_strlit("new");
            reveal_strlit("build");
            reveal_strlit("run");
            reveal_strlit("help");
            assert("init"@ =~= seq!['i', 'n', 'i', 't']);
            assert("new"@ =~= seq!['n', 'e', 'w']);
            assert("build"@ =~= seq!['b', 'u', 'i', 'l', 'd']);
            assert("run"@ =~= seq!['r', 'u', 'n']);
            assert("help"@ =~= seq!['h', 'e', 'l', 'p']);
        }
        let t = trim_text(words[0].as_str());
        let first = t.as_str();
        let command = if crate::toolchain::equal_text(first, "init") {
            Commands::Init
        } else if crate::toolchain::equal_text(first, "new") {
            Commands::New
        } else if crate::toolchain::equal_text(first, "build") {
            Commands::Build
        } else if crate::toolchain::equal_text(first, "run") {
            Commands::Run
        } else if crate::toolchain::equal_text(first, "help") {
            Commands::Help
        } else {
            return Err(CliError::InvalidCommand);
        };
        match command {
            Commands::New => {
                if words.len() < 2 {
                    return Err(CliError::MissingArgument("name after command new."));
                }
                let name = trailing_relative(words[1].as_str());
                let path = join(cwd, name.as_str());
                Ok(Args { command, path: Some(path), flags: git_flags_of(words, 2) })
            },
            _ => Ok(Args { command, path: None, flags: git_flags_of(words, 1) }),
        }
    }

    /// The work this command line asks for; a `Git` flag asks for a git
    /// repository. A `new` without a path asks for the usage text.
    pub fn exec(&self) -> (r: Task)
        ensures
            match self.command {
                Commands::Init => r matches Task::Init { git } && git == self.flags@.contains(
                    Flags::Git,
                ),
                Commands::New => match self.path {
                    Some(p) => r matches Task::New { path, git } && path@ == p@ && git
                        == self.flags@.contains(Flags::Git),
                    None => r is Help,
                },
                Commands::Build => r is Build,
                Commands::Run => r is Run,
                Commands::Help => r is Help,
            },
    {
        let mut git = false;
        let mut i: usize = 0;
        while i < self.flags.len()
            invariant
                i <= self.flags@.len(),
                git == self.flags@.subrange(0, i as int).contains(Flags::Git),
            decreases self.flags@.len() - i,
        {
            if self.flags[i] == Flags::Git {
                git = true;
                assert(self.flags@.subrange(0, i + 1)[i as int] == Flags::Git);
            } else {
                assert(self.flags@.subrange(0, i + 1) =~= self.flags@.subrange(0, i as int).push(
                    self.flags@[i as int],
                ));
            }
            i = i + 1;
        }
        assert(self.flags@.subrange(0, self.flags@.len() as int) =~= self.flags@);
        match self.command {
            Commands::Init => Task::Init { git },
            Commands::New => match &self.path {
                Some(p) => Task::New { path: p.clone(), git },
                None => Task::Help,
            },
            Commands::Build => Task::Build,
            Commands::Run => Task::Run,
            Commands::Help => Task::Help,
        }
    }
}

} // verus!
