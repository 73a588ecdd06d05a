//! The commands of the client, and the registry that builds one from the
//! argument tokens.
use vstd::prelude::*;

use crate::text::{parse_port, port_value};

verus! {

/// What the client is asked to do: one variant for each subcommand, each
/// holding what its one HTTP call needs.
#[derive(Clone, Debug, PartialEq, Eq)]
pub enum Commands {
    /// Starts a server.
    Start { name: String, id: String },
    /// Stops a server.
    Stop { name: String, id: String },
    /// Executes a command on a server.
    Exec { name: String, id: String, cmd: Vec<String> },
    /// Streams a server's output as raw bytes.
    Output { name: String, id: String },
    /// Reports a server's status.
    Status { name: String, id: String },
    /// Creates a new server.
    New {
        name: String,
        id: String,
        path: Option<String>,
        port: Option<u16>,
        version: Option<String>,
        server_type: Option<String>,
    },
    /// Lists the servers under a name.
    List { name: String },
    /// Streams a server's output as text.
    CleanOutput { name: String, id: String },
}

/// A command as plain values.
pub enum CommandView {
    Start { name: Seq<char>, id: Seq<char> },
    Stop { name: Seq<char>, id: Seq<char> },
    Exec { name: Seq<char>, id: Seq<char>, cmd: Seq<Seq<char>> },
    Output { name: Seq<char>, id: Seq<char> },
    Status { name: Seq<char>, id: Seq<char> },
    New {
        name: Seq<char>,
        id: Seq<char>,
        path: Option<Seq<char>>,
        port: Option<u16>,
        version: Option<Seq<char>>,
        server_type: Option<Seq<char>>,
    },
    List { name: Seq<char> },
    CleanOutput { name: Seq<char>, id: Seq<char> },
}

/// The contents of each string of a sequence.
pub open spec fn string_views(v: Seq<String>) -> Seq<Seq<char>> {
    v.map_values(|s: String| s@)
}

/// The contents of an optional string.
pub open spec fn opt_view(o: Option<String>) -> Option<Seq<char>> {
    match o {
        Some(s) => Some(s@),
        None => None,
    }
}

impl View for Commands {
    type V = CommandView;

    open spec fn view(&self) -> CommandView {
        match self {
            Commands::Start { name, id } => CommandView::Start { name: name@, id: id@ },
            Commands::Stop { name, id } => CommandView::Stop { name: name@, id: id@ },
            Commands::Exec { name, id, cmd } => CommandView::Exec {
                name: name@,
                id: id@,
                cmd: string_views(cmd@),
            },
            Commands::Output { name, id } => CommandView::Output { name: name@, id: id@ },
            Commands::Status { name, id } => CommandView::Status { name: name@, id: id@ },
            Commands::New { name, id, path, port, version, server_type } => CommandView::New {
                name: name@,
                id: id@,
                path: opt_view(*path),
                port: *port,
                version: opt_view(*version),
                server_type: opt_view(*server_type),
            },
            Commands::List { name } => CommandView::List { name: name@ },
            Commands::CleanOutput { name, id } => CommandView::CleanOutput {
                name: name@,
                id: id@,
            },
        }
    }
}

/// The variant that a subcommand token selects.
#[derive(PartialEq, Eq, Structural, Clone, Copy, Debug)]
pub enum CommandKind {
    Start,
    Stop,
    Exec,
    Output,
    Status,
    New,
    List,
    CleanOutput,
}

/// Why no command could be built from the arguments.
#[derive(PartialEq, Eq, Structural, Clone, Copy, Debug)]
pub enum CommandError {
    /// The first token names no subcommand, or there is none.
    NoSuchCommand,
    /// The subcommand lacks a required argument, or a flag lacks its value.
    TooFewArguments,
    /// The value given for the port is not a number from 0 to 65535.
    InvalidPort,
    /// A token after the required arguments of `new` is not one of its flags.
    UnexpectedArgument,
}

/// The text shown for an error.
pub open spec fn error_message(e: CommandError) -> Seq<char> {
    match e {
        CommandError::NoSuchCommand => "Command not found"@,
        CommandError::TooFewArguments => "Too few arguments"@,
        CommandError::InvalidPort => "Invalid port"@,
        CommandError::UnexpectedArgument => "Unexpected argument"@,
    }
}

impl CommandError {
    /// The text shown for this error.
    pub fn message(&self) -> (r: &'static str)
        ensures
            r@ == error_message(*self),
    {
        match self {
            CommandError::NoSuchCommand => "Command not found",
            CommandError::TooFewArguments => "Too few arguments",
            CommandError::InvalidPort => "Invalid port",
            CommandError::UnexpectedArgument => "Unexpected argument",
        }
    }
}

/// The variant that the token `t` selects, if any.
pub open spec fn token_kind(t: Seq<char>) -> Option<CommandKind> {
    if t == "start"@ {
        Some(CommandKind::Start)
    } else if t == "stop"@ {
        Some(CommandKind::Stop)
    } else if t == "exec"@ {
        Some(CommandKind::Exec)
    } else if t == "output"@ || t == "fullout"@ {
        Some(CommandKind::Output)
    } else if t == "status"@ {
        Some(CommandKind::Status)
    } else if t == "new"@ {
        Some(CommandKind::New)
    } else if t == "list"@ {
        Some(CommandKind::List)
    } else if t == "out"@ || t == "clean-output"@ {
        Some(CommandKind::CleanOutput)
    } else {
        None
    }
}

/// How many positional arguments a variant needs after its token: a name,
/// and an id for every variant but `list`.
pub open spec fn min_operands(k: CommandKind) -> nat {
    match k {
        CommandKind::List => 1,
        _ => 2,
    }
}

/// The variant of a command.
pub open spec fn kind_of(c: CommandView) -> CommandKind {
    match c {
        CommandView::Start { .. } => CommandKind::Start,
        CommandView::Stop { .. } => CommandKind::Stop,
        CommandView::Exec { .. } => CommandKind::Exec,
        CommandView::Output { .. } => CommandKind::Output,
        CommandView::Status { .. } => CommandKind::Status,
        CommandView::New { .. } => CommandKind::New,
        CommandView::List { .. } => CommandKind::List,
        CommandView::CleanOutput { .. } => CommandKind::CleanOutput,
    }
}

/// The optional settings of `new`.
pub struct NewOptionsView {
    pub path: Option<Seq<char>>,
    pub port: Option<u16>,
    pub version: Option<Seq<char>>,
    pub server_type: Option<Seq<char>>,
}

/// The flags that `new` takes, each followed by its value.
pub enum NewFlag {
    Port,
    Path,
    Version,
    ServerType,
}

/// The flag of `new` that the token `t` is, if any.
pub open spec fn new_flag(t: Seq<char>) -> Option<NewFlag> {
    if t == "-p"@ || t == "--port"@ {
        Some(NewFlag::Port)
    } else if t == "-d"@ || t == "--path"@ {
        Some(NewFlag::Path)
    } else if t == "-v"@ || t == "--version"@ {
        Some(NewFlag::Version)
    } else if t == "-t"@ || t == "--server-type"@ {
        Some(NewFlag::ServerType)
    } else {
        None
    }
}

/// Reads the flags of `new` from `rest` into `acc`, left to right; where a
/// flag comes twice, the later value holds.
pub open spec fn apply_new_flags(rest: Seq<Seq<char>>, acc: NewOptionsView) -> Result<
    NewOptionsView,
    CommandError,
>
    decreases rest.len(),
{
    if rest.len() == 0 {
        Ok(acc)
    } else {
        match new_flag(rest[0]) {
            None => Err(CommandError::UnexpectedArgument),
            Some(f) => if rest.len() < 2 {
                Err(CommandError::TooFewArguments)
            } else {
                let v = rest[1];
                let tail = rest.subrange(2, rest.len() as int);
                match f {
                    NewFlag::Port => match port_value(v) {
                        None => Err(CommandError::InvalidPort),
                        Some(p) => apply_new_flags(
                            tail,
                            NewOptionsView {
                                path: acc.path,
                                port: Some(p),
                                version: acc.version,
                                server_type: acc.server_type,
                            },
                        ),
                    },
                    NewFlag::Path => apply_new_flags(
                        tail,
                        NewOptionsView {
                            path: Some(v),
                            port: acc.port,
                            version: acc.version,
                            server_type: acc.server_type,
                        },
                    ),
                    NewFlag::Version => apply_new_flags(
                        tail,
                        NewOptionsView {
                            path: acc.path,
                            port: acc.port,
                            version: Some(v),
                            server_type: acc.server_type,
                        },
                    ),
                    NewFlag::ServerType => apply_new_flags(
                        tail,
                        NewOptionsView {
                            path: acc.path,
                            port: acc.port,
                            version: acc.version,
                            server_type: Some(v),
                        },
                    ),
                }
            },
        }
    }
}

/// No optional setting given.
pub open spec fn no_new_options() -> NewOptionsView {
    NewOptionsView { path: None, port: None, version: None, server_type: None }
}

/// The command that the tokens `a` stand for: the first selects the
/// variant, the next ones are the name and the id; `exec` takes all that
/// follow as the command to run, `new` reads its flags from them, and the
/// other variants leave them unread.
pub open spec fn parse_args(a: Seq<Seq<char>>) -> Result<CommandView, CommandError> {
    if a.len() == 0 {
        Err(CommandError::NoSuchCommand)
    } else {
        match token_kind(a[0]) {
            None => Err(CommandError::NoSuchCommand),
            Some(k) => if a.len() < 1 + min_operands(k) {
                Err(CommandError::TooFewArguments)
            } else {
                match k {
                    CommandKind::Start => Ok(CommandView::Start { name: a[1], id: a[2] }),
                    CommandKind::Stop => Ok(CommandView::Stop { name: a[1], id: a[2] }),
                    CommandKind::Exec => Ok(
                        CommandView::Exec {
                            name: a[1],
                            id: a[2],
                            cmd: a.subrange(3, a.len() as int),
                        },
                    ),
                    CommandKind::Output => Ok(CommandView::Output { name: a[1], id: a[2] }),
                    CommandKind::Status => Ok(CommandView::Status { name: a[1], id: a[2] }),
                    CommandKind::New => match apply_new_flags(
                        a.subrange(3, a.len() as int),
                        no_new_options(),
                    ) {
                        Ok(o) => Ok(
                            CommandView::New {
                                name: a[1],
                                id: a[2],
                                path: o.path,
                                port: o.port,
                                version: o.version,
                                server_type: o.server_type,
                            },
                        ),
                        Err(e) => Err(e),
                    },
                    CommandKind::List => Ok(CommandView::List { name: a[1] }),
                    CommandKind::CleanOutput => Ok(
                        CommandView::CleanOutput { name: a[1], id: a[2] },
                    ),
                }
            },
        }
    }
}

/// A built command, or the error, as plain values.
pub open spec fn outcome_view(r: Result<Commands, CommandError>) -> Result<
    CommandView,
    CommandError,
> {
    match r {
        Ok(c) => Ok(c@),
        Err(e) => Err(e),
    }
}

fn token_is(t: &String, lit: &str) -> (r: bool)
    ensures
        r == (t@ == lit@),
{
    *t == lit.to_owned()
}

fn kind_of_token(t: &String) -> (r: Option<CommandKind>)
    ensures
        r == token_kind(t@),
{
    if token_is(t, "start") {
        Some(CommandKind::Start)
    } else if token_is(t, "stop") {
        Some(CommandKind::Stop)
    } else if token_is(t, "exec") {
        Some(CommandKind::Exec)
    } else if token_is(t, "output") || token_is(t, "fullout") {
        Some(CommandKind::Output)
    } else if token_is(t, "status") {
        Some(CommandKind::Status)
    } else if token_is(t, "new") {
        Some(CommandKind::New)
    } else if token_is(t, "list") {
        Some(CommandKind::List)
    } else if token_is(t, "out") || token_is(t, "clean-output") {
        Some(CommandKind::CleanOutput)
    } else {
        None
    }
}

fn new_flag_of(t: &String) -> (r: Option<NewFlag>)
    ensures
        r == new_flag(t@),
{
    if token_is(t, "-p") || token_is(t, "--port") {
        Some(NewFlag::Port)
    } else if token_is(t, "-d") || token_is(t, "--path") {
        Some(NewFlag::Path)
    } else if token_is(t, "-v") || token_is(t, "--version") {
        Some(NewFlag::Version)
    } else if token_is(t, "-t") || token_is(t, "--server-type") {
        Some(NewFlag::ServerType)
    } else {
        None
    }
}

/// The settings read by `read_new_options`, as plain values.
pub open spec fn options_view(
    path: Option<String>,
    port: Option<u16>,
    version: Option<String>,
    server_type: Option<String>,
) -> NewOptionsView {
    NewOptionsView {
        path: opt_view(path),
        port: port,
        version: opt_view(version),
        server_type: opt_view(server_type),
    }
}

fn read_new_options(args: &Vec<String>, start: usize) -> (r: Result<
    (Option<String>, Option<u16>, Option<String>, Option<String>),
    CommandError,
>)
    requires
        start <= args.len(),
    ensures
        match r {
            Ok((path, port, version, server_type)) => apply_new_flags(
                string_views(args@).subrange(start as int, args.len() as int),
                no_new_options(),
            ) == Ok::<NewOptionsView, CommandError>(options_view(path, port, version, server_type)),
            Err(e) => apply_new_flags(
                string_views(args@).subrange(start as int, args.len() as int),
                no_new_options(),
            ) == Err::<NewOptionsView, CommandError>(e),
        },
{
    let ghost a = string_views(args@);
    let n = args.len();
    let mut path: Option<String> = None;
    let mut port: Option<u16> = None;
    let mut version: Option<String> = None;
    let mut server_type: Option<String> = None;
    let mut i: usize = start;
    while i < n
        invariant
            n == args.len(),
            a == string_views(args@),
            start <= i <= n,
            apply_new_flags(a.subrange(start as int, n as int), no_new_options())
                == apply_new_flags(
                a.subrange(i as int, n as int),
                options_view(path, port, version, server_type),
            ),
        decreases n - i,
    {
        let ghost rest = a.subrange(i as int, n as int);
        assert(rest[0] == args@[i as int]@);
        let flag = new_flag_of(&args[i]);
        match flag {
            None => {
                return Err(CommandError::UnexpectedArgument);
            },
            Some(f) => {
                if i + 1 >= n {
                    return Err(CommandError::TooFewArguments);
                }
                let v = &args[i + 1];
                assert(rest[1] == v@);
                assert(rest.subrange(2, rest.len() as int) =~= a.subrange(i + 2, n as int));
                match f {
                    NewFlag::Port => {
                        match parse_port(v.as_str()) {
                            None => {
                                return Err(CommandError::InvalidPort);
                            },
                            Some(p) => {
                                port = Some(p);
                            },
                        }
                    },
                    NewFlag::Path => {
                        path = Some(v.clone());
                    },
                    NewFlag::Version => {
                        version = Some(v.clone());
                    },
                    NewFlag::ServerType => {
                        server_type = Some(v.clone());
                    },
                }
                i = i + 2;
            },
        }
    }
    Ok((path, port, version, server_type))
}

fn strings_from(args: &Vec<String>, start: usize) -> (r: Vec<String>)
    requires
        start <= args.len(),
    ensures
        string_views(r@) == string_views(args@).subrange(start as int, args.len() as int),
{
    let mut out: Vec<String> = Vec::new();
    let mut i: usize = start;
    while i < args.len()
        invariant
            start <= i <= args.len(),
            out@ =~= args@.subrange(start as int, i as int),
        decreases args.len() - i,
    {
        out.push(args[i].clone());
        i = i + 1;
    }
    assert(string_views(out@) =~= string_views(args@).subrange(start as int, args.len() as int));
    out
}

/// Builds the command that the tokens of `args` from index `start` on
/// stand for.
pub fn command_from(args: &Vec<String>, start: usize) -> (r: Result<Commands, CommandError>)
    requires
        start <= args.len(),
    ensures
        outcome_view(r) == parse_args(
            string_views(args@).subrange(start as int, args.len() as int),
        ),
{
    let ghost a = string_views(args@).subrange(start as int, args.len() as int);
    if start == args.len() {
        return Err(CommandError::NoSuchCommand);
    }
    assert(a[0] == args@[start as int]@);
    let kind = match kind_of_token(&args[start]) {
        None => {
            return Err(CommandError::NoSuchCommand);
        },
        Some(k) => k,
    };
    let operands = args.len() - start - 1;
    let needed: usize = if kind == CommandKind::List { 1 } else { 2 };
    if operands < needed {
        return Err(CommandError::TooFewArguments);
    }
    let name = args[start + 1].clone();
    assert(a[1] == name@);
    if kind == CommandKind::List {
        return Ok(Commands::List { name });
    }
    let id = args[start + 2].clone();
    assert(a[2] == id@);
    match kind {
        CommandKind::Start => Ok(Commands::Start { name, id }),
        CommandKind::Stop => Ok(Commands::Stop { name, id }),
        CommandKind::Exec => {
            let cmd = strings_from(args, start + 3);
            assert(string_views(cmd@) =~= a.subrange(3, a.len() as int));
            Ok(Commands::Exec { name, id, cmd })
        },
        CommandKind::Output => Ok(Commands::Output { name, id }),
        CommandKind::Status => Ok(Commands::Status { name, id }),
        CommandKind::New => {
            assert(a.subrange(3, a.len() as int) =~= string_views(args@).subrange(
                start + 3,
                args.len() as int,
            ));
            match read_new_options(args, start + 3) {
                Ok((path, port, version, server_type)) => Ok(
                    Commands::New { name, id, path, port, version, server_type },
                ),
                Err(e) => Err(e),
            }
        },
        CommandKind::CleanOutput => Ok(Commands::CleanOutput { name, id }),
        CommandKind::List => Ok(Commands::List { name }),
    }
}

/// The registry: builds the command that the argument tokens stand for.
/// The first token selects the variant; an unknown or missing one gives
/// `NoSuchCommand`, and too few arguments after it give `TooFewArguments`.
pub fn match_command(args: &Vec<String>) -> (r: Result<Commands, CommandError>)
    ensures
        outcome_view(r) == parse_args(string_views(args@)),
{
    assert(string_views(args@).subrange(0, args.len() as int) =~= string_views(args@));
    command_from(args, 0)
}

/// The whole command line: how often debugging was asked for, and the
/// command, if one was given.
#[derive(Clone, Debug, PartialEq, Eq)]
pub struct Cli {
    /// How many debug flags lead the arguments, at most 255.
    pub debug: u8,
    pub command: Option<Commands>,
}

/// A command line as plain values.
pub struct CliView {
    pub debug: u8,
    pub command: Option<CommandView>,
}

impl View for Cli {
    type V = CliView;

    open spec fn view(&self) -> CliView {
        CliView {
            debug: self.debug,
            command: match self.command {
                Some(c) => Some(c@),
                None => None,
            },
        }
    }
}

/// Whether the token asks for debugging information.
pub open spec fn is_debug_flag(t: Seq<char>) -> bool {
    t == "-d"@ || t == "--debug"@
}

/// How many debug flags stand in `a` from index `i` on, before any other token.
pub open spec fn debug_count_from(a: Seq<Seq<char>>, i: int) -> nat
    decreases a.len() - i,
{
    if 0 <= i < a.len() && is_debug_flag(a[i]) {
        1 + debug_count_from(a, i + 1)
    } else {
        0
    }
}

/// The command line that the tokens `a` stand for: leading debug flags are
/// counted (up to 255), and what follows them, if anything, is a command.
pub open spec fn parse_cli(a: Seq<Seq<char>>) -> Result<CliView, CommandError> {
    let n = debug_count_from(a, 0);
    let debug = if n < 255 { n as u8 } else { 255u8 };
    if n >= a.len() {
        Ok(CliView { debug, command: None })
    } else {
        match parse_args(a.subrange(n as int, a.len() as int)) {
            Ok(c) => Ok(CliView { debug, command: Some(c) }),
            Err(e) => Err(e),
        }
    }
}

fn is_debug_token(t: &String) -> (r: bool)
    ensures
        r == is_debug_flag(t@),
{
    token_is(t, "-d") || token_is(t, "--debug")
}

impl Cli {
    /// Reads the command line from the argument tokens that follow the
    /// program's name.
    pub fn parse_from(args: &Vec<String>) -> (r: Result<Cli, CommandError>)
        ensures
            match r {
                Ok(c) => parse_cli(string_views(args@)) == Ok::<CliView, CommandError>(c@),
                Err(e) => parse_cli(string_views(args@)) == Err::<CliView, CommandError>(e),
            },
    {
        let ghost a = string_views(args@);
        let mut i: usize = 0;
        let mut debug: u8 = 0;
        while i < args.len() && is_debug_token(&args[i])
            invariant
                a == string_views(args@),
                i <= args.len(),
                debug_count_from(a, 0) == i + debug_count_from(a, i as int),
                debug as int == if i < 255 { i as int } else { 255 },
            decreases args.len() - i,
        {
            if debug < 255 {
                debug = debug + 1;
            }
            i = i + 1;
        }
        assert(debug_count_from(a, i as int) == 0);
        if i == args.len() {
            return Ok(Cli { debug, command: None });
        }
        match command_from(args, i) {
            Ok(c) => Ok(Cli { debug, command: Some(c) }),
            Err(e) => Err(e),
        }
    }
}

proof fn lemma_new_flags_error(rest: Seq<Seq<char>>, acc: NewOptionsView)
    ensures
        apply_new_flags(rest, acc) is Err ==> apply_new_flags(rest, acc)->Err_0
            != CommandError::NoSuchCommand,
    decreases rest.len(),
{
    if rest.len() >= 2 {
        let tail = rest.subrange(2, rest.len() as int);
        let v = rest[1];
        lemma_new_flags_error(
            tail,
            NewOptionsView {
                path: acc.path,
                port: port_value(v),
                version: acc.version,
                server_type: acc.server_type,
            },
        );
        lemma_new_flags_error(
            tail,
            NewOptionsView {
                path: Some(v),
                port: acc.port,
                version: acc.version,
                server_type: acc.server_type,
            },
        );
        lemma_new_flags_error(
            tail,
            NewOptionsView {
                path: acc.path,
                port: acc.port,
                version: Some(v),
                server_type: acc.server_type,
            },
        );
        lemma_new_flags_error(
            tail,
            NewOptionsView {
                path: acc.path,
                port: acc.port,
                version: acc.version,
                server_type: Some(v),
            },
        );
    }
}

/// Every subcommand token leads to its own variant, and with fewer
/// arguments than that variant needs, to a `TooFewArguments` error.
pub proof fn lemma_registry_routes(a: Seq<Seq<char>>, k: CommandKind)
    requires
        a.len() > 0,
        token_kind(a[0]) == Some(k),
    ensures
        a.len() < 1 + min_operands(k) ==> parse_args(a) == Err::<CommandView, CommandError>(
            CommandError::TooFewArguments,
        ),
        a.len() >= 1 + min_operands(k) && k != CommandKind::New ==> parse_args(a) is Ok,
        parse_args(a) is Ok ==> kind_of(parse_args(a)->Ok_0) == k,
        parse_args(a) is Err ==> parse_args(a)->Err_0 != CommandError::NoSuchCommand,
{
    if a.len() >= 3 {
        lemma_new_flags_error(a.subrange(3, a.len() as int), no_new_options());
    }
}

/// A first token that names no subcommand gives `NoSuchCommand`, whatever follows.
pub proof fn lemma_unknown_token(a: Seq<Seq<char>>)
    requires
        a.len() == 0 || token_kind(a[0]) is None,
    ensures
        parse_args(a) == Err::<CommandView, CommandError>(CommandError::NoSuchCommand),
{
}

} // verus!
