//! The command line: its options, what an invocation asks for, task id
//! lists, and the command that starts the daemon in a tmux session.
use vstd::prelude::*;
use crate::config::Config;
use crate::text::{
    chars_of, int_error_message, int_error_text, parse_unsigned, parse_unsigned_at, push_decimal,
    push_str, split_bounds, split_on, str_eq, string_of, trim, trim_bounds, IntErrorKind,
};

verus! {

// ---------------------------------------------------------------------------
// Options
// ---------------------------------------------------------------------------

/// The options of the command line.
#[derive(Clone, Debug)]
pub struct Args {
    pub command: Option<Command>,
    /// URL to download.
    pub url: Option<String>,
    /// Show verbose status information.
    pub verbose: bool,
    /// Kill the running daemon.
    pub kill: bool,
    /// Remove task(s) by id (comma-separated for several).
    pub remove: Option<String>,
    /// Show detailed info/logs for a task.
    pub info: Option<u64>,
    /// Clear all completed downloads.
    pub clear: bool,
    /// Show only failed tasks.
    pub failed: bool,
    /// Path to a custom configuration file.
    pub config: Option<String>,
}

/// Subcommands.
#[derive(Clone, Debug)]
pub enum Command {
    /// Start the daemon, in a detached tmux session if `tmux`, after killing
    /// a running one if `kill`.
    Daemon { tmux: bool, kill: bool },
}

/// What a client invocation asks the daemon for.
#[derive(Clone, Debug)]
pub enum ClientAction {
    Kill,
    Remove(Vec<u64>),
    Info(u64),
    Clear,
    Add(String),
    Failed,
    Status { verbose: bool },
}

/// What an invocation does.
#[derive(Clone, Debug)]
pub enum Invocation {
    Daemon { tmux: bool, kill: bool },
    Client(ClientAction),
}

// ---------------------------------------------------------------------------
// Task id lists
// ---------------------------------------------------------------------------

/// The error for a piece of an id list that is not an id.
pub open spec fn invalid_id_text(piece: Seq<char>, kind: IntErrorKind) -> Seq<char> {
    "Invalid task ID '"@ + piece + "': "@ + int_error_text(kind)
}

/// The ids of the pieces, each trimmed and read as a `u64`; the first piece
/// that is not an id decides the error.
pub open spec fn parse_ids(pieces: Seq<Seq<char>>) -> Result<Seq<u64>, Seq<char>>
    decreases pieces.len(),
{
    if pieces.len() == 0 {
        Ok(seq![])
    } else {
        match parse_ids(pieces.drop_last()) {
            Err(e) => Err(e),
            Ok(ids) => match parse_unsigned(trim(pieces.last()), u64::MAX as nat) {
                Ok(n) => Ok(ids.push(n as u64)),
                Err(k) => Err(invalid_id_text(trim(pieces.last()), k)),
            },
        }
    }
}

proof fn lemma_parse_ids_error_persists(pieces: Seq<Seq<char>>, k: int)
    requires
        0 <= k <= pieces.len(),
        parse_ids(pieces.take(k)) is Err,
    ensures
        parse_ids(pieces) == parse_ids(pieces.take(k)),
    decreases pieces.len() - k,
{
    if k < pieces.len() {
        assert(pieces.take(k + 1).drop_last() =~= pieces.take(k));
        lemma_parse_ids_error_persists(pieces, k + 1);
    } else {
        assert(pieces.take(k) =~= pieces);
    }
}

/// A comma-separated list of task ids (see `parse_ids`).
pub fn parse_id_list(input: &str) -> (r: Result<Vec<u64>, String>)
    ensures
        match parse_ids(split_on(input@, ',')) {
            Ok(ids) => r matches Ok(v) && v@ == ids,
            Err(e) => r matches Err(s) && s@ == e,
        },
{
    let v = chars_of(input);
    let bounds = split_bounds(&v, 0, v.len(), ',');
    let ghost pieces = split_on(input@, ',');
    proof {
        assert(v@.subrange(0, v@.len() as int) =~= input@);
    }
    let mut ids: Vec<u64> = Vec::new();
    let mut i: usize = 0;
    assert(pieces.take(0) =~= Seq::<Seq<char>>::empty());
    while i < bounds.len()
        invariant
            i <= bounds.len(),
            v@ == input@,
            pieces == split_on(input@, ','),
            bounds.len() == pieces.len(),
            forall|j: int|
                0 <= j < bounds.len() ==> {
                    &&& 0 <= (#[trigger] bounds[j]).0 <= bounds[j].1 <= v@.len()
                    &&& pieces[j] == v@.subrange(bounds[j].0 as int, bounds[j].1 as int)
                },
            parse_ids(pieces.take(i as int)) == Ok::<Seq<u64>, Seq<char>>(ids@),
        decreases bounds.len() - i,
    {
        let (a, b) = bounds[i];
        let (c, d) = trim_bounds(&v, a, b);
        assert(pieces.take(i + 1).drop_last() =~= pieces.take(i as int));
        assert(pieces.take(i + 1).last() == pieces[i as int]);
        match parse_unsigned_at(&v, c, d, u64::MAX) {
            Ok(n) => {
                ids.push(n);
            },
            Err(k) => {
                let piece = string_of(&v, c, d);
                let mut e = "Invalid task ID '".to_owned();
                push_str(&mut e, piece.as_str());
                push_str(&mut e, "': ");
                push_str(&mut e, int_error_message(k));
                proof {
                    lemma_parse_ids_error_persists(pieces, i + 1);
                    assert(pieces.take(pieces.len() as int) =~= pieces);
                }
                return Err(e);
            },
        }
        i += 1;
    }
    assert(pieces.take(pieces.len() as int) =~= pieces);
    Ok(ids)
}

// ---------------------------------------------------------------------------
// Invocations
// ---------------------------------------------------------------------------

pub enum ActionView {
    Kill,
    Remove(Seq<u64>),
    Info(u64),
    Clear,
    Add(Seq<char>),
    Failed,
    Status { verbose: bool },
}

pub enum InvocationView {
    Daemon { tmux: bool, kill: bool },
    Client(ActionView),
}

impl View for ClientAction {
    type V = ActionView;

    open spec fn view(&self) -> ActionView {
        match *self {
            ClientAction::Kill => ActionView::Kill,
            ClientAction::Remove(ids) => ActionView::Remove(ids@),
            ClientAction::Info(id) => ActionView::Info(id),
            ClientAction::Clear => ActionView::Clear,
            ClientAction::Add(url) => ActionView::Add(url@),
            ClientAction::Failed => ActionView::Failed,
            ClientAction::Status { verbose } => ActionView::Status { verbose },
        }
    }
}

impl View for Invocation {
    type V = InvocationView;

    open spec fn view(&self) -> InvocationView {
        match *self {
            Invocation::Daemon { tmux, kill } => InvocationView::Daemon { tmux, kill },
            Invocation::Client(a) => InvocationView::Client(a@),
        }
    }
}

/// What the options ask for: the daemon subcommand; else, in this order of
/// precedence, kill, remove, info, clear, add a URL, list failed tasks, or
/// show the status. A remove list that does not read is an error.
pub open spec fn invocation_of(args: Args) -> Result<InvocationView, Seq<char>> {
    match args.command {
        Some(Command::Daemon { tmux, kill }) => Ok(InvocationView::Daemon { tmux, kill }),
        None => if args.kill {
            Ok(InvocationView::Client(ActionView::Kill))
        } else if args.remove is Some {
            match parse_ids(split_on(args.remove->0@, ',')) {
                Ok(ids) => Ok(InvocationView::Client(ActionView::Remove(ids))),
                Err(e) => Err(e),
            }
        } else if args.info is Some {
            Ok(InvocationView::Client(ActionView::Info(args.info->0)))
        } else if args.clear {
            Ok(InvocationView::Client(ActionView::Clear))
        } else if args.url is Some {
            Ok(InvocationView::Client(ActionView::Add(args.url->0@)))
        } else if args.failed {
            Ok(InvocationView::Client(ActionView::Failed))
        } else {
            Ok(InvocationView::Client(ActionView::Status { verbose: args.verbose }))
        },
    }
}

/// What the options ask for (see `invocation_of`).
pub fn invocation(args: &Args) -> (r: Result<Invocation, String>)
    ensures
        match invocation_of(*args) {
            Ok(i) => r matches Ok(v) && v@ == i,
            Err(e) => r matches Err(s) && s@ == e,
        },
{
    match &args.command {
        Some(Command::Daemon { tmux, kill }) => {
            return Ok(Invocation::Daemon { tmux: *tmux, kill: *kill });
        },
        None => {},
    }
    if args.kill {
        Ok(Invocation::Client(ClientAction::Kill))
    } else if let Some(list) = &args.remove {
        match parse_id_list(list.as_str()) {
            Ok(ids) => Ok(Invocation::Client(ClientAction::Remove(ids))),
            Err(e) => Err(e),
        }
    } else if let Some(id) = args.info {
        Ok(Invocation::Client(ClientAction::Info(id)))
    } else if args.clear {
        Ok(Invocation::Client(ClientAction::Clear))
    } else if let Some(url) = &args.url {
        Ok(Invocation::Client(ClientAction::Add(url.clone())))
    } else if args.failed {
        Ok(Invocation::Client(ClientAction::Failed))
    } else {
        Ok(Invocation::Client(ClientAction::Status { verbose: args.verbose }))
    }
}

// ---------------------------------------------------------------------------
// The daemon in tmux
// ---------------------------------------------------------------------------

/// The name of the tmux session of the daemon.
pub open spec fn session_name() -> Seq<char> {
    "tsp_ytdlp"@
}

/// The program's arguments (after its name) without `--tmux` and `--kill`.
pub open spec fn kept_args(argv: Seq<Seq<char>>) -> Seq<Seq<char>>
    decreases argv.len(),
{
    if argv.len() == 0 {
        seq![]
    } else if argv.last() == "--tmux"@ || argv.last() == "--kill"@ {
        kept_args(argv.drop_last())
    } else {
        kept_args(argv.drop_last()).push(argv.last())
    }
}

/// The arguments of the `tmux` run that starts the daemon, given the
/// program's path and its arguments (its name first).
pub open spec fn tmux_args_of(binary: Seq<char>, argv: Seq<Seq<char>>) -> Seq<Seq<char>> {
    seq!["new-session"@, "-d"@, "-s"@, session_name(), "-n"@, "tsp-ytdlp daemon"@, "--"@, binary]
        + kept_args(if argv.len() > 0 {
        argv.drop_first()
    } else {
        argv
    })
}

/// The arguments of the `tmux` run that starts the daemon (see
/// `tmux_args_of`).
pub fn tmux_args(binary: &str, argv: &Vec<String>) -> (r: Vec<String>)
    ensures
        r.deep_view() == tmux_args_of(binary@, argv.deep_view()),
{
    let mut r: Vec<String> = Vec::new();
    r.push("new-session".to_owned());
    r.push("-d".to_owned());
    r.push("-s".to_owned());
    r.push("tsp_ytdlp".to_owned());
    r.push("-n".to_owned());
    r.push("tsp-ytdlp daemon".to_owned());
    r.push("--".to_owned());
    r.push(binary.to_owned());
    let ghost head = r.deep_view();
    assert(head =~= seq!["new-session"@, "-d"@, "-s"@, session_name(), "-n"@, "tsp-ytdlp daemon"@, "--"@, binary@]);
    let ghost rest = if argv@.len() > 0 {
        argv.deep_view().drop_first()
    } else {
        argv.deep_view()
    };
    let start: usize = if argv.len() > 0 {
        1
    } else {
        0
    };
    let mut i = start;
    assert(rest.take(0) =~= Seq::<Seq<char>>::empty());
    while i < argv.len()
        invariant
            start <= i <= argv@.len(),
            start == (if argv@.len() > 0 { 1int } else { 0int }),
            rest == argv.deep_view().skip(start as int),
            r.deep_view() == head + kept_args(rest.take(i - start)),
        decreases argv.len() - i,
    {
        let a = argv[i].as_str();
        assert(rest.take(i - start + 1).drop_last() =~= rest.take(i - start));
        assert(rest.take(i - start + 1).last() == a@);
        let ghost r0 = r.deep_view();
        if !str_eq(a, "--tmux") && !str_eq(a, "--kill") {
            let c = a.to_owned();
            r.push(c);
            assert(r.deep_view() =~= r0.push(a@));
            assert(kept_args(rest.take(i - start + 1)) == kept_args(rest.take(i - start)).push(a@));
            assert(r.deep_view() =~= head + kept_args(rest.take(i - start + 1)));
        }
        i += 1;
    }
    assert(rest.take(i - start) =~= rest);
    r
}

} // verus!
