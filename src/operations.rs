//! What each operation does to one repository, as an ordered list of steps,
//! and how its outcome is judged.

use vstd::prelude::*;
use vstd::string::*;
use crate::progress::RepoStatus;
use crate::repo_name::{extract_repo_name, lemma_repo_name_idempotent, repo_name_of};
use crate::settings::{Repos, User};
use crate::text::{chars_of, contains_text, strings_view, text_contains};

verus! {

/// The operation a batch runs on each repository.
#[derive(Debug, Clone, Copy, PartialEq, Eq, Structural)]
pub enum Operation {
    Clone,
    Pull,
    Push,
    /// Identity and every configuration entry.
    ConfigAll,
    /// Identity only.
    ConfigUser,
}

/// One run of git: its arguments, the directory it runs in, and whether it
/// is judged: a judged run that failed ends the repository's operation as
/// failed.
pub struct GitInvocation {
    pub args: Vec<String>,
    pub dir: String,
    pub decisive: bool,
}

/// One step of a repository's operation.
pub enum Step {
    /// Record a status, message and percentage in the progress table.
    Report(RepoStatus, String, u16),
    /// Create a directory and its parents.
    CreateDir(String),
    /// Run git.
    Git(GitInvocation),
}

/// A step as plain values.
pub enum StepView {
    Report(RepoStatus, Seq<char>, u16),
    CreateDir(Seq<char>),
    Git(Seq<Seq<char>>, Seq<char>, bool),
}

impl View for Step {
    type V = StepView;

    open spec fn view(&self) -> StepView {
        match self {
            Step::Report(status, message, progress) => StepView::Report(
                *status,
                message@,
                *progress,
            ),
            Step::CreateDir(dir) => StepView::CreateDir(dir@),
            Step::Git(g) => StepView::Git(strings_view(g.args@), g.dir@, g.decisive),
        }
    }
}

pub open spec fn steps_view(v: Seq<Step>) -> Seq<StepView> {
    v.map_values(|s: Step| s@)
}

pub open spec fn running(message: Seq<char>, progress: u16) -> StepView {
    StepView::Report(RepoStatus::Running, message, progress)
}

/// Where a repository is checked out: its group, a `/`, its derived name.
pub open spec fn checkout_dir(group: Seq<char>, remote: Seq<char>) -> Seq<char> {
    group + "/"@ + repo_name_of(remote)
}

/// Writing the user's name and email into the repository at `dir`; the two
/// runs are judged when `decisive` is set.
pub open spec fn identity_steps(
    dir: Seq<char>,
    name: Seq<char>,
    email: Seq<char>,
    decisive: bool,
) -> Seq<StepView> {
    seq![
        StepView::Git(seq!["config"@, "user.name"@, name], dir, decisive),
        StepView::Git(seq!["config"@, "user.email"@, email], dir, decisive),
    ]
}

pub open spec fn clone_plan(repo: Repos, user: User) -> Seq<StepView> {
    seq![
        running("Starting..."@, 10),
        running("Creating directory..."@, 20),
        StepView::CreateDir(repo.group@),
        running("Cloning..."@, 40),
        StepView::Git(seq!["clone"@, repo.remote@, "-b"@, repo.branch@], repo.group@, true),
        running("Configuring..."@, 80),
    ] + identity_steps(checkout_dir(repo.group@, repo.remote@), user.name@, user.email@, false)
}

pub open spec fn pull_plan(repo: Repos, user: User) -> Seq<StepView> {
    let dir = checkout_dir(repo.group@, repo.remote@);
    seq![running("Starting..."@, 10), running("Configuring..."@, 30)] + identity_steps(
        dir,
        user.name@,
        user.email@,
        false,
    ) + seq![running("Pulling..."@, 50), StepView::Git(seq!["pull"@], dir, true)]
}

pub open spec fn push_plan(repo: Repos, user: User, message: Seq<char>) -> Seq<StepView> {
    let dir = checkout_dir(repo.group@, repo.remote@);
    seq![running("Starting..."@, 10), running("Configuring..."@, 20)] + identity_steps(
        dir,
        user.name@,
        user.email@,
        false,
    ) + seq![
        running("Adding files..."@, 40),
        StepView::Git(seq!["add"@, "-A"@], dir, false),
        running("Committing..."@, 60),
        StepView::Git(seq!["commit"@, "-m"@, message], dir, false),
        running("Pushing..."@, 80),
        StepView::Git(seq!["push"@], dir, true),
    ]
}

pub open spec fn config_user_plan(repo: Repos, user: User) -> Seq<StepView> {
    let dir = checkout_dir(repo.group@, repo.remote@);
    seq![running("Starting..."@, 10), running("Setting user.name..."@, 40)] + identity_steps(
        dir,
        user.name@,
        user.email@,
        true,
    ) + seq![running("Setting user.email..."@, 80)]
}

/// The percentage shown while the `i`-th of `n` configuration entries is set.
pub open spec fn config_progress(i: int, n: int) -> int {
    20 + (i + 1) * 70 / if n > 1 {
        n
    } else {
        1
    }
}

/// Setting the first `k` configuration entries in the repository at `dir`.
pub open spec fn config_entry_steps(
    config: Seq<(String, String)>,
    dir: Seq<char>,
    k: int,
) -> Seq<StepView>
    decreases k,
{
    if k <= 0 {
        Seq::empty()
    } else {
        let (key, value) = config[k - 1];
        config_entry_steps(config, dir, k - 1) + seq![
            running("Setting "@ + key@ + "..."@, config_progress(k - 1, config.len() as int) as u16),
            StepView::Git(seq!["config"@, key@, value@], dir, true),
        ]
    }
}

pub open spec fn config_all_plan(repo: Repos, user: User, config: Seq<(String, String)>) -> Seq<
    StepView,
> {
    let dir = checkout_dir(repo.group@, repo.remote@);
    seq![running("Starting..."@, 10), running("Setting user..."@, 20)] + identity_steps(
        dir,
        user.name@,
        user.email@,
        true,
    ) + config_entry_steps(config, dir, config.len() as int)
}

/// The steps of `op` on `repo`.
pub open spec fn plan_of(
    op: Operation,
    repo: Repos,
    user: User,
    message: Seq<char>,
    config: Seq<(String, String)>,
) -> Seq<StepView> {
    match op {
        Operation::Clone => clone_plan(repo, user),
        Operation::Pull => pull_plan(repo, user),
        Operation::Push => push_plan(repo, user, message),
        Operation::ConfigAll => config_all_plan(repo, user, config),
        Operation::ConfigUser => config_user_plan(repo, user),
    }
}

/// An output that mentions `fatal` or `error` marks a failure.
pub open spec fn output_status(output: Seq<char>) -> RepoStatus {
    if contains_text(output, "fatal"@) || contains_text(output, "error"@) {
        RepoStatus::Failed
    } else {
        RepoStatus::Success
    }
}

/// How the outcome of a repository's operation is judged.
#[derive(Debug, Clone, Copy, PartialEq, Eq, Structural)]
pub enum Verdict {
    /// By the words `fatal` and `error` in what the run printed.
    OutputText,
    /// By the exit status of the run.
    ExitStatus,
}

pub open spec fn judged_status(verdict: Verdict, output: Seq<char>, exit_ok: bool) -> RepoStatus {
    match verdict {
        Verdict::OutputText => output_status(output),
        Verdict::ExitStatus => if exit_ok {
            RepoStatus::Success
        } else {
            RepoStatus::Failed
        },
    }
}

/// The report of a repository whose steps all ran without a failure.
pub open spec fn success_report_of(op: Operation) -> StepView {
    match op {
        Operation::ConfigAll | Operation::ConfigUser => StepView::Report(
            RepoStatus::Success,
            "Configured"@,
            100,
        ),
        _ => StepView::Report(RepoStatus::Success, "Done"@, 100),
    }
}

/// The report of a repository whose decisive run of git was judged failed.
pub open spec fn failed_report_of() -> StepView {
    StepView::Report(RepoStatus::Failed, "Failed"@, 100)
}

/// The report that a decisive run of git leads to, judged by `verdict`.
pub open spec fn final_report_by_of(
    op: Operation,
    verdict: Verdict,
    output: Seq<char>,
    exit_ok: bool,
) -> StepView {
    if judged_status(verdict, output, exit_ok) == RepoStatus::Failed {
        failed_report_of()
    } else {
        success_report_of(op)
    }
}

/// The report that a decisive run of git leads to, judged by its output.
pub open spec fn final_report_of(op: Operation, output: Seq<char>) -> StepView {
    final_report_by_of(op, Verdict::OutputText, output, true)
}

fn text(s: &str) -> (r: String)
    ensures
        r@ == s@,
{
    String::from_str(s)
}

fn push_step(steps: &mut Vec<Step>, s: Step)
    ensures
        steps_view(final(steps)@) == steps_view(old(steps)@).push(s@),
{
    steps.push(s);
    assert(steps_view(final(steps)@) =~= steps_view(old(steps)@).push(s@));
}

fn report_running(steps: &mut Vec<Step>, message: &str, progress: u16)
    ensures
        steps_view(final(steps)@) == steps_view(old(steps)@).push(running(message@, progress)),
{
    push_step(steps, Step::Report(RepoStatus::Running, text(message), progress));
}

fn push_git(steps: &mut Vec<Step>, args: Vec<String>, dir: &String, decisive: bool)
    ensures
        steps_view(final(steps)@) == steps_view(old(steps)@).push(
            StepView::Git(strings_view(args@), dir@, decisive),
        ),
{
    push_step(steps, Step::Git(GitInvocation { args, dir: dir.clone(), decisive }));
}

fn args1(a: &str) -> (r: Vec<String>)
    ensures
        strings_view(r@) == seq![a@],
{
    let mut r: Vec<String> = Vec::new();
    r.push(text(a));
    assert(strings_view(r@) =~= seq![a@]);
    r
}

fn args2(a: &str, b: &str) -> (r: Vec<String>)
    ensures
        strings_view(r@) == seq![a@, b@],
{
    let mut r: Vec<String> = Vec::new();
    r.push(text(a));
    r.push(text(b));
    assert(strings_view(r@) =~= seq![a@, b@]);
    r
}

fn args3(a: &str, b: &str, c: &str) -> (r: Vec<String>)
    ensures
        strings_view(r@) == seq![a@, b@, c@],
{
    let mut r: Vec<String> = Vec::new();
    r.push(text(a));
    r.push(text(b));
    r.push(text(c));
    assert(strings_view(r@) =~= seq![a@, b@, c@]);
    r
}

fn args4(a: &str, b: &str, c: &str, d: &str) -> (r: Vec<String>)
    ensures
        strings_view(r@) == seq![a@, b@, c@, d@],
{
    let mut r: Vec<String> = Vec::new();
    r.push(text(a));
    r.push(text(b));
    r.push(text(c));
    r.push(text(d));
    assert(strings_view(r@) =~= seq![a@, b@, c@, d@]);
    r
}

fn push_identity(steps: &mut Vec<Step>, dir: &String, user: &User, decisive: bool)
    ensures
        steps_view(final(steps)@) == steps_view(old(steps)@) + identity_steps(
            dir@,
            user.name@,
            user.email@,
            decisive,
        ),
{
    push_git(steps, args3("config", "user.name", user.name.as_str()), dir, decisive);
    push_git(steps, args3("config", "user.email", user.email.as_str()), dir, decisive);
    assert(steps_view(final(steps)@) =~= steps_view(old(steps)@) + identity_steps(
        dir@,
        user.name@,
        user.email@,
        decisive,
    ));
}

/// The directory a repository is checked out in.
pub fn checkout_path(repo: &Repos) -> (r: String)
    ensures
        r@ == checkout_dir(repo.group@, repo.remote@),
{
    let name = extract_repo_name(repo.remote.as_str());
    let mut p = repo.group.clone();
    p.append("/");
    p.append(name.as_str());
    p
}

/// Clone into the group directory, which is created first, then write the
/// identity into the new checkout. The clone's output decides the outcome.
pub fn clone_steps(repo: &Repos, user: &User) -> (r: Vec<Step>)
    ensures
        steps_view(r@) == clone_plan(*repo, *user),
{
    let dir = checkout_path(repo);
    let mut r: Vec<Step> = Vec::new();
    report_running(&mut r, "Starting...", 10);
    report_running(&mut r, "Creating directory...", 20);
    push_step(&mut r, Step::CreateDir(repo.group.clone()));
    report_running(&mut r, "Cloning...", 40);
    let args = args4("clone", repo.remote.as_str(), "-b", repo.branch.as_str());
    push_git(&mut r, args, &repo.group, true);
    report_running(&mut r, "Configuring...", 80);
    let ghost before = steps_view(r@);
    push_identity(&mut r, &dir, user, false);
    assert(before =~= seq![
        running("Starting..."@, 10),
        running("Creating directory..."@, 20),
        StepView::CreateDir(repo.group@),
        running("Cloning..."@, 40),
        StepView::Git(seq!["clone"@, repo.remote@, "-b"@, repo.branch@], repo.group@, true),
        running("Configuring..."@, 80),
    ]);
    r
}

/// Write the identity into the checkout, then pull; the pull decides.
pub fn pull_steps(repo: &Repos, user: &User) -> (r: Vec<Step>)
    ensures
        steps_view(r@) == pull_plan(*repo, *user),
{
    let dir = checkout_path(repo);
    let mut r: Vec<Step> = Vec::new();
    report_running(&mut r, "Starting...", 10);
    report_running(&mut r, "Configuring...", 30);
    let ghost head = steps_view(r@);
    push_identity(&mut r, &dir, user, false);
    let ghost mid = steps_view(r@);
    report_running(&mut r, "Pulling...", 50);
    push_git(&mut r, args1("pull"), &dir, true);
    assert(head =~= seq![running("Starting..."@, 10), running("Configuring..."@, 30)]);
    assert(steps_view(r@) =~= mid + seq![
        running("Pulling..."@, 50),
        StepView::Git(seq!["pull"@], dir@, true),
    ]);
    r
}

/// Write the identity, stage everything, commit with `message`, push; the
/// push decides.
pub fn push_steps(repo: &Repos, user: &User, message: &String) -> (r: Vec<Step>)
    ensures
        steps_view(r@) == push_plan(*repo, *user, message@),
{
    let dir = checkout_path(repo);
    let mut r: Vec<Step> = Vec::new();
    report_running(&mut r, "Starting...", 10);
    report_running(&mut r, "Configuring...", 20);
    let ghost head = steps_view(r@);
    push_identity(&mut r, &dir, user, false);
    let ghost mid = steps_view(r@);
    report_running(&mut r, "Adding files...", 40);
    push_git(&mut r, args2("add", "-A"), &dir, false);
    report_running(&mut r, "Committing...", 60);
    push_git(&mut r, args3("commit", "-m", message.as_str()), &dir, false);
    report_running(&mut r, "Pushing...", 80);
    push_git(&mut r, args1("push"), &dir, true);
    assert(head =~= seq![running("Starting..."@, 10), running("Configuring..."@, 20)]);
    assert(steps_view(r@) =~= mid + seq![
        running("Adding files..."@, 40),
        StepView::Git(seq!["add"@, "-A"@], dir@, false),
        running("Committing..."@, 60),
        StepView::Git(seq!["commit"@, "-m"@, message@], dir@, false),
        running("Pushing..."@, 80),
        StepView::Git(seq!["push"@], dir@, true),
    ]);
    r
}

/// Write the identity into the checkout.
pub fn config_user_steps(repo: &Repos, user: &User) -> (r: Vec<Step>)
    ensures
        steps_view(r@) == config_user_plan(*repo, *user),
{
    let dir = checkout_path(repo);
    let mut r: Vec<Step> = Vec::new();
    report_running(&mut r, "Starting...", 10);
    report_running(&mut r, "Setting user.name...", 40);
    let ghost head = steps_view(r@);
    push_identity(&mut r, &dir, user, true);
    let ghost mid = steps_view(r@);
    report_running(&mut r, "Setting user.email...", 80);
    assert(head =~= seq![running("Starting..."@, 10), running("Setting user.name..."@, 40)]);
    assert(steps_view(r@) =~= mid + seq![running("Setting user.email..."@, 80)]);
    r
}

/// Write the identity, then every configuration entry, in order.
pub fn config_all_steps(repo: &Repos, user: &User, config: &Vec<(String, String)>) -> (r: Vec<
    Step,
>)
    ensures
        steps_view(r@) == config_all_plan(*repo, *user, config@),
{
    let dir = checkout_path(repo);
    let mut r: Vec<Step> = Vec::new();
    report_running(&mut r, "Starting...", 10);
    report_running(&mut r, "Setting user...", 20);
    let ghost head = steps_view(r@);
    push_identity(&mut r, &dir, user, true);
    let ghost mid = steps_view(r@);
    assert(head =~= seq![running("Starting..."@, 10), running("Setting user..."@, 20)]);
    let n = config.len();
    let d: usize = if n > 1 {
        n
    } else {
        1
    };
    let mut i: usize = 0;
    assert(mid =~= mid + config_entry_steps(config@, dir@, 0));
    while i < n
        invariant
            n == config@.len(),
            d == (if n > 1 {
                n
            } else {
                1
            }),
            i <= n,
            steps_view(r@) == mid + config_entry_steps(config@, dir@, i as int),
            dir@ == checkout_dir(repo.group@, repo.remote@),
        decreases n - i,
    {
        proof {
            assert((i + 1) * 70 / (d as int) <= 70) by (nonlinear_arith)
                requires
                    i + 1 <= d,
                    d >= 1,
            ;
            assert(0 <= (i + 1) * 70 / (d as int)) by (nonlinear_arith)
                requires
                    d >= 1,
            ;
        }
        let step: u128 = (i as u128 + 1) * 70 / (d as u128);
        let progress: u16 = (20 + step) as u16;
        let mut message = text("Setting ");
        message.append(config[i].0.as_str());
        message.append("...");
        let ghost before = steps_view(r@);
        report_running(&mut r, message.as_str(), progress);
        push_git(&mut r, args3("config", config[i].0.as_str(), config[i].1.as_str()), &dir, true);
        assert(steps_view(r@) =~= mid + config_entry_steps(config@, dir@, i + 1));
        i = i + 1;
    }
    r
}

/// The steps of `op` on `repo`; `message` is the commit message of a push,
/// `config` the entries of a full configuration.
pub fn steps_for(
    op: Operation,
    repo: &Repos,
    user: &User,
    message: &String,
    config: &Vec<(String, String)>,
) -> (r: Vec<Step>)
    ensures
        steps_view(r@) == plan_of(op, *repo, *user, message@, config@),
{
    match op {
        Operation::Clone => clone_steps(repo, user),
        Operation::Pull => pull_steps(repo, user),
        Operation::Push => push_steps(repo, user, message),
        Operation::ConfigAll => config_all_steps(repo, user, config),
        Operation::ConfigUser => config_user_steps(repo, user),
    }
}

/// Judges an output by text: `Failed` when it mentions `fatal` or `error`,
/// else `Success`.
pub fn classify_output(output: &str) -> (r: RepoStatus)
    ensures
        r == output_status(output@),
{
    let out = chars_of(output);
    let fatal = chars_of("fatal");
    let error = chars_of("error");
    if text_contains(&out, &fatal) || text_contains(&out, &error) {
        RepoStatus::Failed
    } else {
        RepoStatus::Success
    }
}

/// The report that a decisive run of git leads to, judged by its output.
pub fn final_report(op: Operation, output: &str) -> (r: Step)
    ensures
        r@ == final_report_of(op, output@),
{
    final_report_by(op, Verdict::OutputText, output, true)
}

/// Judges an outcome by `verdict`.
pub fn judge(verdict: Verdict, output: &str, exit_ok: bool) -> (r: RepoStatus)
    ensures
        r == judged_status(verdict, output@, exit_ok),
{
    match verdict {
        Verdict::OutputText => classify_output(output),
        Verdict::ExitStatus => if exit_ok {
            RepoStatus::Success
        } else {
            RepoStatus::Failed
        },
    }
}

/// The report of a repository whose steps all ran without a failure.
pub fn success_report(op: Operation) -> (r: Step)
    ensures
        r@ == success_report_of(op),
{
    match op {
        Operation::ConfigAll | Operation::ConfigUser => Step::Report(
            RepoStatus::Success,
            text("Configured"),
            100,
        ),
        _ => Step::Report(RepoStatus::Success, text("Done"), 100),
    }
}

/// The report of a repository whose decisive run of git was judged failed.
pub fn failed_report() -> (r: Step)
    ensures
        r@ == failed_report_of(),
{
    Step::Report(RepoStatus::Failed, text("Failed"), 100)
}

/// The report that a decisive run of git leads to, judged by `verdict`.
pub fn final_report_by(op: Operation, verdict: Verdict, output: &str, exit_ok: bool) -> (r: Step)
    ensures
        r@ == final_report_by_of(op, verdict, output@, exit_ok),
{
    if judge(verdict, output, exit_ok) == RepoStatus::Failed {
        failed_report()
    } else {
        success_report(op)
    }
}

pub open spec fn error_message(detail: Seq<char>) -> Seq<char> {
    "Error: "@ + detail
}

/// The report of a repository whose step failed to run, with the reason.
pub fn failure_report(detail: &str) -> (r: Step)
    ensures
        r@ == StepView::Report(RepoStatus::Failed, error_message(detail@), 100),
{
    let mut m = text("Error: ");
    m.append(detail);
    Step::Report(RepoStatus::Failed, m, 100)
}

/// Every run of git in a clone names its directory: the group directory for
/// the clone itself, the new checkout for the rest.
pub proof fn lemma_clone_dirs_explicit(repo: Repos, user: User)
    ensures
        forall|i: int|
            0 <= i < clone_plan(repo, user).len() ==> match #[trigger] clone_plan(repo, user)[i] {
                StepView::Git(_, dir, _) => dir == repo.group@ || dir == checkout_dir(
                    repo.group@,
                    repo.remote@,
                ),
                _ => true,
            },
{
}

/// Repositories in different group directories are checked out in
/// different directories.
pub proof fn lemma_checkout_dirs_distinct(
    group_a: Seq<char>,
    remote_a: Seq<char>,
    group_b: Seq<char>,
    remote_b: Seq<char>,
)
    requires
        group_a != group_b,
    ensures
        checkout_dir(group_a, remote_a) != checkout_dir(group_b, remote_b),
{
    let na = repo_name_of(remote_a);
    let nb = repo_name_of(remote_b);
    let da = checkout_dir(group_a, remote_a);
    let db = checkout_dir(group_b, remote_b);
    lemma_repo_name_idempotent(remote_a);
    lemma_repo_name_idempotent(remote_b);
    reveal_strlit("/");
    if da == db {
        assert(da.len() == group_a.len() + 1 + na.len());
        assert(db.len() == group_b.len() + 1 + nb.len());
        if na.len() < nb.len() {
            let p = group_a.len() as int;
            assert(da[p] == '/');
            let q = p - group_b.len() - 1;
            assert(db[p] == nb[q]);
            assert(nb.contains('/'));
        } else if nb.len() < na.len() {
            let p = group_b.len() as int;
            assert(db[p] == '/');
            let q = p - group_a.len() - 1;
            assert(da[p] == na[q]);
            assert(na.contains('/'));
        } else {
            assert(group_a =~= da.subrange(0, group_a.len() as int));
            assert(group_b =~= db.subrange(0, group_b.len() as int));
        }
    }
}

} // verus!
