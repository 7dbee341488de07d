//! Turns the settings and a command line into the work of one batch.

use vstd::prelude::*;
use vstd::string::*;
use crate::operations::{plan_of, steps_for, steps_view, Operation, Step};
use crate::repo_name::{extract_repo_name, repo_name_of};
use crate::settings::{commit_message, commit_message_of, GitpSetting, Repos};
use crate::text::strings_view;

verus! {

/// What a command line asks for: an operation, run one repository at a time
/// when the flag is set, or the help text.
#[derive(Debug, Clone, Copy, PartialEq, Eq, Structural)]
pub enum Command {
    Run(Operation, bool),
    Help,
}

/// Why a command line gives no batch.
#[derive(Debug)]
pub enum CommandError {
    UnknownCommand(String),
    UnknownSubcommand(String),
    /// Two enabled repositories derive the same name.
    DuplicateName(String),
}

/// How a command line resolves, as plain values.
pub enum Resolution {
    Run(Operation, bool),
    Help,
    UnknownCommand(Seq<char>),
    UnknownSubcommand(Seq<char>),
}

pub open spec fn is_serial_flag(args: Seq<Seq<char>>, i: int) -> bool {
    args.len() > i && args[i] == "serial"@
}

/// The command that a non-empty command line names, with its abbreviations.
pub open spec fn resolve(args: Seq<Seq<char>>) -> Resolution {
    let c = args[0];
    if c == "clone"@ || c == "clo"@ || c == "cl"@ {
        Resolution::Run(Operation::Clone, is_serial_flag(args, 1))
    } else if c == "pull"@ || c == "pul"@ || c == "pu"@ {
        Resolution::Run(Operation::Pull, is_serial_flag(args, 1))
    } else if c == "push"@ || c == "pus"@ || c == "ps"@ {
        Resolution::Run(Operation::Push, is_serial_flag(args, 1))
    } else if c == "config"@ || c == "conf"@ || c == "cfg"@ {
        if args.len() < 2 {
            Resolution::Run(Operation::ConfigAll, false)
        } else if args[1] == "user"@ || args[1] == "u"@ || args[1] == "usr"@ {
            Resolution::Run(Operation::ConfigUser, is_serial_flag(args, 2))
        } else if args[1] == "serial"@ {
            Resolution::Run(Operation::ConfigAll, true)
        } else {
            Resolution::UnknownSubcommand(args[1])
        }
    } else if c == "help"@ || c == "?"@ {
        Resolution::Help
    } else {
        Resolution::UnknownCommand(c)
    }
}

fn is(s: &String, lit: &str) -> (r: bool)
    ensures
        r == (s@ == lit@),
{
    *s == String::from_str(lit)
}

fn serial_at(args: &Vec<String>, i: usize) -> (r: bool)
    ensures
        r == is_serial_flag(strings_view(args@), i as int),
{
    if i < args.len() {
        is(&args[i], "serial")
    } else {
        false
    }
}

/// Resolves a non-empty command line.
pub fn resolve_command(args: &Vec<String>) -> (r: Result<Command, CommandError>)
    requires
        args@.len() > 0,
    ensures
        match resolve(strings_view(args@)) {
            Resolution::Run(op, serial) => r matches Ok(Command::Run(o, s)) && o == op && s
                == serial,
            Resolution::Help => r matches Ok(Command::Help),
            Resolution::UnknownCommand(c) => r matches Err(CommandError::UnknownCommand(x)) && x@
                == c,
            Resolution::UnknownSubcommand(c) => r matches Err(CommandError::UnknownSubcommand(x))
                && x@ == c,
        },
{
    let ghost a = strings_view(args@);
    assert(a[0] == args@[0]@);
    let c = &args[0];
    if is(c, "clone") || is(c, "clo") || is(c, "cl") {
        Ok(Command::Run(Operation::Clone, serial_at(args, 1)))
    } else if is(c, "pull") || is(c, "pul") || is(c, "pu") {
        Ok(Command::Run(Operation::Pull, serial_at(args, 1)))
    } else if is(c, "push") || is(c, "pus") || is(c, "ps") {
        Ok(Command::Run(Operation::Push, serial_at(args, 1)))
    } else if is(c, "config") || is(c, "conf") || is(c, "cfg") {
        if args.len() < 2 {
            Ok(Command::Run(Operation::ConfigAll, false))
        } else {
            let sub = &args[1];
            assert(a[1] == sub@);
            if is(sub, "user") || is(sub, "u") || is(sub, "usr") {
                Ok(Command::Run(Operation::ConfigUser, serial_at(args, 2)))
            } else if is(sub, "serial") {
                Ok(Command::Run(Operation::ConfigAll, true))
            } else {
                Err(CommandError::UnknownSubcommand(sub.clone()))
            }
        }
    } else if is(c, "help") || is(c, "?") {
        Ok(Command::Help)
    } else {
        Err(CommandError::UnknownCommand(c.clone()))
    }
}

impl CommandError {
    /// The message shown for this error.
    pub fn message(&self) -> (r: String)
        ensures
            r@ == match self {
                CommandError::UnknownCommand(c) => "Unknown command: "@ + c@,
                CommandError::UnknownSubcommand(c) => "Unknown subcommand: config "@ + c@,
                CommandError::DuplicateName(n) => "Duplicate repository name: "@ + n@,
            },
    {
        let (mut m, detail) = match self {
            CommandError::UnknownCommand(c) => (String::from_str("Unknown command: "), c),
            CommandError::UnknownSubcommand(c) => (
                String::from_str("Unknown subcommand: config "),
                c,
            ),
            CommandError::DuplicateName(n) => (String::from_str("Duplicate repository name: "), n),
        };
        m.append(detail.as_str());
        m
    }
}

/// The repositories that take part in batches, in order.
pub open spec fn enabled_of(repos: Seq<Repos>) -> Seq<Repos>
    decreases repos.len(),
{
    if repos.len() == 0 {
        Seq::empty()
    } else if repos.last().enabled {
        enabled_of(repos.drop_last()).push(repos.last())
    } else {
        enabled_of(repos.drop_last())
    }
}

/// The derived names of `repos`, in order.
pub open spec fn repo_names(repos: Seq<Repos>) -> Seq<Seq<char>> {
    repos.map_values(|r: Repos| repo_name_of(r.remote@))
}

pub open spec fn distinct(names: Seq<Seq<char>>) -> bool {
    forall|i: int, j: int| 0 <= i < j < names.len() ==> names[i] != names[j]
}

/// The work for one repository: the name its progress is shown under and
/// its steps.
pub struct Job {
    pub name: String,
    pub steps: Vec<Step>,
}

/// What a command line comes to.
pub enum Batch {
    /// Nothing to do: no command, or no enabled repository.
    Idle,
    Help,
    /// Run `op` on every enabled repository, one at a time when `serial`.
    Run { op: Operation, serial: bool, jobs: Vec<Job> },
}

/// The jobs of `op` over `repos`, one per repository, in order.
pub open spec fn jobs_match(
    jobs: Seq<Job>,
    op: Operation,
    repos: Seq<Repos>,
    setting: GitpSetting,
) -> bool {
    &&& jobs.len() == repos.len()
    &&& forall|i: int|
        0 <= i < jobs.len() ==> {
            &&& (#[trigger] jobs[i]).name@ == repo_name_of(repos[i].remote@)
            &&& steps_view(jobs[i].steps@) == plan_of(
                op,
                repos[i],
                setting.user,
                commit_message_of(setting.comments@),
                setting.config@,
            )
        }
}

/// The enabled repositories of `repos`, copied.
fn enabled_repos(repos: &Vec<Repos>) -> (r: Vec<Repos>)
    ensures
        r@ == enabled_of(repos@),
{
    let mut r: Vec<Repos> = Vec::new();
    let mut i: usize = 0;
    while i < repos.len()
        invariant
            i <= repos.len(),
            r@ == enabled_of(repos@.take(i as int)),
        decreases repos.len() - i,
    {
        assert(repos@.take(i + 1).drop_last() =~= repos@.take(i as int));
        if repos[i].enabled {
            r.push(repos[i].duplicate());
        }
        i = i + 1;
    }
    assert(repos@.take(repos.len() as int) =~= repos@);
    r
}

/// The index of a name that occurs earlier too, if any.
fn find_duplicate(names: &Vec<String>) -> (r: Option<usize>)
    ensures
        r is None <==> distinct(strings_view(names@)),
        r matches Some(k) ==> k < names@.len() && exists|j: int|
            0 <= j < k && names@[j]@ == names@[k as int]@,
{
    let mut k: usize = 0;
    while k < names.len()
        invariant
            k <= names.len(),
            forall|i: int, j: int| 0 <= i < j < k ==> names@[i]@ != names@[j]@,
        decreases names.len() - k,
    {
        let mut j: usize = 0;
        while j < k
            invariant
                j <= k < names.len(),
                forall|i: int| 0 <= i < j ==> names@[i]@ != names@[k as int]@,
            decreases k - j,
        {
            if names[j] == names[k] {
                assert(strings_view(names@)[j as int] == strings_view(names@)[k as int]);
                return Some(k);
            }
            j = j + 1;
        }
        k = k + 1;
    }
    None
}

/// Plans the batch that a command line asks for. Nothing is planned without
/// a command or without an enabled repository; a command that names no
/// operation, or enabled repositories that share a derived name, give an
/// error.
pub fn plan_batch(setting: &GitpSetting, args: &Vec<String>) -> (r: Result<Batch, CommandError>)
    ensures
        args@.len() == 0 || enabled_of(setting.repos@).len() == 0 ==> r matches Ok(Batch::Idle),
        args@.len() > 0 && enabled_of(setting.repos@).len() > 0 ==> match resolve(
            strings_view(args@),
        ) {
            Resolution::Help => r matches Ok(Batch::Help),
            Resolution::UnknownCommand(c) => r matches Err(CommandError::UnknownCommand(s))
                && s@ == c,
            Resolution::UnknownSubcommand(c) => r matches Err(CommandError::UnknownSubcommand(s))
                && s@ == c,
            Resolution::Run(op, serial) => {
                let names = repo_names(enabled_of(setting.repos@));
                if distinct(names) {
                    r matches Ok(Batch::Run { op: o, serial: s, jobs }) && o == op && s == serial
                        && jobs_match(jobs@, op, enabled_of(setting.repos@), *setting)
                } else {
                    r matches Err(CommandError::DuplicateName(n)) && exists|i: int, j: int|
                        0 <= i < j < names.len() && names[i] == n@ && names[j] == n@
                }
            },
        },
{
    if args.len() == 0 {
        return Ok(Batch::Idle);
    }
    let enabled = enabled_repos(&setting.repos);
    if enabled.len() == 0 {
        return Ok(Batch::Idle);
    }
    let (op, serial) = match resolve_command(args) {
        Ok(Command::Help) => {
            return Ok(Batch::Help);
        },
        Ok(Command::Run(op, serial)) => (op, serial),
        Err(e) => {
            return Err(e);
        },
    };
    let ghost names = repo_names(enabled@);
    let mut name_list: Vec<String> = Vec::new();
    let mut i: usize = 0;
    while i < enabled.len()
        invariant
            i <= enabled.len(),
            names == repo_names(enabled@),
            strings_view(name_list@) == names.take(i as int),
        decreases enabled.len() - i,
    {
        let n = extract_repo_name(enabled[i].remote.as_str());
        let ghost before = name_list@;
        name_list.push(n);
        assert(strings_view(name_list@) =~= strings_view(before).push(n@));
        assert(strings_view(name_list@) =~= names.take(i + 1));
        i = i + 1;
    }
    assert(names.take(enabled.len() as int) =~= names);
    match find_duplicate(&name_list) {
        Some(k) => {
            proof {
                let j = choose|j: int| 0 <= j < k && name_list@[j]@ == name_list@[k as int]@;
                assert(names[j] == name_list@[j]@);
                assert(names[k as int] == name_list@[k as int]@);
            }
            return Err(CommandError::DuplicateName(name_list[k].clone()));
        },
        None => {},
    }
    let message = commit_message(setting);
    let mut jobs: Vec<Job> = Vec::new();
    let mut i: usize = 0;
    while i < enabled.len()
        invariant
            i <= enabled.len(),
            name_list@.len() == enabled@.len(),
            strings_view(name_list@) == repo_names(enabled@),
            message@ == commit_message_of(setting.comments@),
            jobs_match(jobs@, op, enabled@.take(i as int), *setting),
        decreases enabled.len() - i,
    {
        let steps = steps_for(op, &enabled[i], &setting.user, &message, &setting.config);
        let job = Job { name: name_list[i].clone(), steps };
        assert(strings_view(name_list@)[i as int] == name_list@[i as int]@);
        jobs.push(job);
        assert(jobs_match(jobs@, op, enabled@.take(i + 1), *setting)) by {
            assert forall|t: int| 0 <= t < jobs@.len() implies {
                &&& (#[trigger] jobs@[t]).name@ == repo_name_of(enabled@.take(i + 1)[t].remote@)
                &&& steps_view(jobs@[t].steps@) == plan_of(
                    op,
                    enabled@.take(i + 1)[t],
                    setting.user,
                    commit_message_of(setting.comments@),
                    setting.config@,
                )
            } by {
                if t < i {
                    assert(enabled@.take(i + 1)[t] == enabled@.take(i as int)[t]);
                }
            }
        }
        i = i + 1;
    }
    assert(enabled@.take(enabled.len() as int) =~= enabled@);
    Ok(Batch::Run { op, serial, jobs })
}

/// The `serial` flag changes only how a batch is scheduled: adding it to a
/// command line that runs an operation names the same operation, so the same
/// jobs are planned.
pub proof fn lemma_serial_flag_keeps_operation(args: Seq<Seq<char>>, op: Operation)
    requires
        args.len() >= 1,
        resolve(args) == Resolution::Run(op, false),
        args.len() == 1 || (args.len() == 2 && op == Operation::ConfigUser),
    ensures
        resolve(args.push("serial"@)) == Resolution::Run(op, true),
{
    let a = args.push("serial"@);
    reveal_strlit("serial");
    reveal_strlit("user");
    reveal_strlit("u");
    reveal_strlit("usr");
    assert(a[0] == args[0]);
    if args.len() == 2 {
        assert(a[1] == args[1]);
        assert(a[2] == "serial"@);
    } else {
        assert(a[1] == "serial"@);
    }
}

} // verus!
