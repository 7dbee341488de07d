use gitp::batch::{plan_batch, resolve_command, Batch, Command, CommandError};
use gitp::interactive::{interpret_line, GitpHelper, LineAction};
use gitp::job::{JobState, StepOutcome};
use gitp::operations::{
    checkout_path, classify_output, clone_steps, config_all_steps, config_user_steps,
    failure_report, final_report, final_report_by, judge, pull_steps, push_steps, Operation, Step,
    Verdict,
};
use gitp::progress::{
    all_done, apply_update, bar_cells, initial_progress, is_cancel_key, summarize, RepoProgress,
    RepoStatus,
};
use gitp::repo_name::extract_repo_name;
use gitp::runner::{exec_git_command, git_clone, git_status, GitController, TextEncoding};
use gitp::settings::{commit_message, GitpSetting, Repos, User};
use gitp::table::{update_repo_status, TuiApp};

fn s(x: &str) -> String {
    x.to_string()
}

fn repo(enabled: bool, remote: &str, branch: &str, group: &str) -> Repos {
    Repos { enabled, remote: s(remote), branch: s(branch), group: s(group) }
}

fn user() -> User {
    User { name: s("Ann Lee"), email: s("ann@example.com") }
}

fn setting(repos: Vec<Repos>) -> GitpSetting {
    let mut st = GitpSetting::default();
    st.user = user();
    st.repos = repos;
    st
}

fn args(words: &[&str]) -> Vec<String> {
    words.iter().map(|w| s(w)).collect()
}

/// A step as text, to compare whole plans at once.
fn show(step: &Step) -> String {
    match step {
        Step::Report(status, message, progress) => format!("report {:?} {} {}", status, message, progress),
        Step::CreateDir(dir) => format!("mkdir {}", dir),
        Step::Git(g) => format!("git {} @ {} {}", g.args.join("|"), g.dir, g.decisive),
    }
}

fn show_all(steps: &[Step]) -> Vec<String> {
    steps.iter().map(show).collect()
}

fn rows(names: &[&str]) -> Vec<RepoProgress> {
    initial_progress(args(names))
}

#[test]
fn repo_name_strips_git_suffix() {
    assert_eq!(extract_repo_name("https://host/group/name.git"), "name");
}

#[test]
fn repo_name_without_suffix() {
    assert_eq!(extract_repo_name("https://host/group/name"), "name");
}

#[test]
fn repo_name_strips_repeated_suffixes() {
    assert_eq!(extract_repo_name("https://host/group/name.git.git"), "name");
}

#[test]
fn repo_name_of_scp_style_remote() {
    assert_eq!(extract_repo_name("git@github.com:owner/tool.git"), "tool");
}

#[test]
fn repo_name_edge_cases() {
    assert_eq!(extract_repo_name(""), "");
    assert_eq!(extract_repo_name("plain"), "plain");
    assert_eq!(extract_repo_name("https://host/group/"), "");
    assert_eq!(extract_repo_name(".git"), "");
    assert_eq!(extract_repo_name("a/b.gitx"), "b.gitx");
}

#[test]
fn repo_name_is_idempotent() {
    for remote in ["https://host/group/name.git", "x/y/z", "a.git.git", "", "só/ñame.git"] {
        let once = extract_repo_name(remote);
        assert!(!once.contains('/'));
        assert_eq!(extract_repo_name(&once), once);
    }
}

#[test]
fn initial_rows_are_pending() {
    let r = rows(&["a", "b"]);
    assert_eq!(r.len(), 2);
    for (row, name) in r.iter().zip(["a", "b"]) {
        assert_eq!(row.name, name);
        assert_eq!(row.status, RepoStatus::Pending);
        assert_eq!(row.message, "Waiting...");
        assert_eq!(row.progress, 0);
    }
}

#[test]
fn update_overwrites_named_row() {
    let mut r = rows(&["a", "b"]);
    assert!(apply_update(&mut r, "b", RepoStatus::Running, "Cloning...", 40));
    assert_eq!(r[1].status, RepoStatus::Running);
    assert_eq!(r[1].message, "Cloning...");
    assert_eq!(r[1].progress, 40);
    assert_eq!(r[0].status, RepoStatus::Pending);
}

#[test]
fn update_of_unknown_name_changes_nothing() {
    let mut r = rows(&["a"]);
    assert!(!apply_update(&mut r, "zz", RepoStatus::Failed, "x", 100));
    assert_eq!(r[0].status, RepoStatus::Pending);
    assert_eq!(r[0].message, "Waiting...");
}

#[test]
fn update_touches_first_of_equal_names() {
    let mut r = rows(&["a", "a"]);
    apply_update(&mut r, "a", RepoStatus::Success, "Done", 100);
    assert_eq!(r[0].status, RepoStatus::Success);
    assert_eq!(r[1].status, RepoStatus::Pending);
}

#[test]
fn updates_to_distinct_names_commute() {
    let mut x = rows(&["a", "b", "c"]);
    let mut y = rows(&["a", "b", "c"]);
    apply_update(&mut x, "a", RepoStatus::Success, "Done", 100);
    apply_update(&mut x, "c", RepoStatus::Failed, "Failed", 100);
    apply_update(&mut y, "c", RepoStatus::Failed, "Failed", 100);
    apply_update(&mut y, "a", RepoStatus::Success, "Done", 100);
    assert_eq!(show_rows(&x), show_rows(&y));
    assert_eq!(x[0].status, RepoStatus::Success);
    assert_eq!(x[2].status, RepoStatus::Failed);
}

fn show_rows(r: &[RepoProgress]) -> Vec<String> {
    r.iter().map(|e| format!("{} {:?} {} {}", e.name, e.status, e.message, e.progress)).collect()
}

#[test]
fn last_update_to_a_name_wins() {
    let mut r = rows(&["a"]);
    apply_update(&mut r, "a", RepoStatus::Running, "Pulling...", 50);
    apply_update(&mut r, "a", RepoStatus::Success, "Done", 100);
    assert_eq!(show_rows(&r), vec![s("a Success Done 100")]);
}

#[test]
fn summary_counts_rows() {
    let mut r = rows(&["a", "b", "c", "d"]);
    apply_update(&mut r, "a", RepoStatus::Success, "Done", 100);
    apply_update(&mut r, "b", RepoStatus::Failed, "Failed", 100);
    apply_update(&mut r, "c", RepoStatus::Running, "Cloning...", 40);
    let sm = summarize(&r);
    assert_eq!((sm.total, sm.completed, sm.succeeded, sm.failed), (4, 2, 1, 1));
}

#[test]
fn done_only_when_every_row_is_terminal() {
    let mut r = rows(&["a", "b"]);
    assert!(!all_done(&r));
    apply_update(&mut r, "a", RepoStatus::Success, "Done", 100);
    assert!(!all_done(&r));
    apply_update(&mut r, "b", RepoStatus::Failed, "Failed", 100);
    assert!(all_done(&r));
    assert!(all_done(&rows(&[])));
}

#[test]
fn done_in_either_completion_order() {
    let mut r = rows(&["a", "b"]);
    apply_update(&mut r, "b", RepoStatus::Success, "Done", 100);
    assert!(!all_done(&r));
    apply_update(&mut r, "a", RepoStatus::Success, "Done", 100);
    assert!(all_done(&r));
}

#[test]
fn bar_cells_are_proportional() {
    assert_eq!(bar_cells(0), (0, 50));
    assert_eq!(bar_cells(100), (50, 0));
    assert_eq!(bar_cells(33), (16, 34));
    assert_eq!(bar_cells(10), (5, 45));
}

#[test]
fn shared_table_takes_updates() {
    let app = TuiApp::new(args(&["one", "two"]));
    let handle = app.get_repos_handle();
    assert!(update_repo_status(&handle, "two", RepoStatus::Running, "Starting...", 10).found);
    assert!(!update_repo_status(&handle, "three", RepoStatus::Running, "Starting...", 10).found);
    let snap = app.snapshot();
    assert_eq!(snap[1].status, RepoStatus::Running);
    assert_eq!(snap[1].progress, 10);
    assert_eq!(snap[0].status, RepoStatus::Pending);
}

#[test]
fn clone_plan_runs_in_explicit_directories() {
    let r = repo(true, "https://host/g/tool.git", "main", "work/g");
    let steps = clone_steps(&r, &user());
    assert_eq!(
        show_all(&steps),
        vec![
            s("report Running Starting... 10"),
            s("report Running Creating directory... 20"),
            s("mkdir work/g"),
            s("report Running Cloning... 40"),
            s("git clone|https://host/g/tool.git|-b|main @ work/g true"),
            s("report Running Configuring... 80"),
            s("git config|user.name|Ann Lee @ work/g/tool false"),
            s("git config|user.email|ann@example.com @ work/g/tool false"),
        ]
    );
}

#[test]
fn clones_into_distinct_groups_use_distinct_directories() {
    let a = clone_steps(&repo(true, "h/x/tool.git", "main", "ga"), &user());
    let b = clone_steps(&repo(true, "h/y/tool.git", "main", "gb"), &user());
    let dirs = |v: &[Step]| -> Vec<String> {
        v.iter()
            .filter_map(|st| match st {
                Step::Git(g) => Some(g.dir.clone()),
                _ => None,
            })
            .collect()
    };
    for d in dirs(&a) {
        assert!(!dirs(&b).contains(&d));
    }
    assert_eq!(checkout_path(&repo(true, "h/x/tool.git", "main", "ga")), "ga/tool");
}

#[test]
fn pull_plan() {
    let steps = pull_steps(&repo(true, "h/tool", "dev", "g"), &user());
    assert_eq!(
        show_all(&steps),
        vec![
            s("report Running Starting... 10"),
            s("report Running Configuring... 30"),
            s("git config|user.name|Ann Lee @ g/tool false"),
            s("git config|user.email|ann@example.com @ g/tool false"),
            s("report Running Pulling... 50"),
            s("git pull @ g/tool true"),
        ]
    );
}

#[test]
fn push_plan_commits_with_message() {
    let steps = push_steps(&repo(true, "h/tool", "dev", "g"), &user(), &s("fix things"));
    assert_eq!(
        show_all(&steps)[4..],
        [
            s("report Running Adding files... 40"),
            s("git add|-A @ g/tool false"),
            s("report Running Committing... 60"),
            s("git commit|-m|fix things @ g/tool false"),
            s("report Running Pushing... 80"),
            s("git push @ g/tool true"),
        ]
    );
}

#[test]
fn config_user_plan() {
    let steps = config_user_steps(&repo(true, "h/tool", "dev", "g"), &user());
    assert_eq!(steps.len(), 5);
    assert_eq!(show(&steps[1]), "report Running Setting user.name... 40");
    assert_eq!(show(&steps[4]), "report Running Setting user.email... 80");
}

#[test]
fn config_all_plan_spreads_progress() {
    let cfg = vec![(s("core.autocrlf"), s("false")), (s("pull.rebase"), s("true"))];
    let steps = config_all_steps(&repo(true, "h/tool", "dev", "g"), &user(), &cfg);
    assert_eq!(
        show_all(&steps)[4..],
        [
            s("report Running Setting core.autocrlf... 55"),
            s("git config|core.autocrlf|false @ g/tool true"),
            s("report Running Setting pull.rebase... 90"),
            s("git config|pull.rebase|true @ g/tool true"),
        ]
    );
}

#[test]
fn config_all_without_entries() {
    let steps = config_all_steps(&repo(true, "h/tool", "dev", "g"), &user(), &vec![]);
    assert_eq!(steps.len(), 4);
}

#[test]
fn fatal_output_fails() {
    assert_eq!(classify_output("fatal: repository not found"), RepoStatus::Failed);
    assert_eq!(show(&final_report(Operation::Clone, "fatal: repository not found")), "report Failed Failed 100");
}

#[test]
fn error_output_fails() {
    assert_eq!(classify_output("error: failed to push some refs"), RepoStatus::Failed);
}

#[test]
fn clean_output_succeeds() {
    assert_eq!(classify_output("Already up to date."), RepoStatus::Success);
    assert_eq!(classify_output(""), RepoStatus::Success);
    assert_eq!(show(&final_report(Operation::Pull, "Already up to date.")), "report Success Done 100");
}

#[test]
fn configuration_output_is_judged() {
    assert_eq!(show(&final_report(Operation::ConfigAll, "error: could not lock config file")), "report Failed Failed 100");
    assert_eq!(show(&final_report(Operation::ConfigUser, "")), "report Success Configured 100");
}

#[test]
fn failure_report_carries_reason() {
    assert_eq!(show(&failure_report("No such file or directory")), "report Failed Error: No such file or directory 100");
}

#[test]
fn commit_message_defaults() {
    let mut st = setting(vec![]);
    assert_eq!(commit_message(&st), "update.");
    st.comments = vec![(s("other"), s("x")), (s("default"), s("daily sync"))];
    assert_eq!(commit_message(&st), "daily sync");
}

#[test]
fn default_setting_is_empty() {
    let st = GitpSetting::default();
    assert_eq!(st.user.name, "");
    assert_eq!(st.user.email, "");
    assert!(st.comments.is_empty() && st.config.is_empty() && st.repos.is_empty());
}

#[test]
fn no_enabled_repository_is_idle() {
    let st = setting(vec![repo(false, "h/a", "main", "g")]);
    assert!(matches!(plan_batch(&st, &args(&["clone"])), Ok(Batch::Idle)));
    assert!(matches!(plan_batch(&st, &args(&["bogus"])), Ok(Batch::Idle)));
    let st = setting(vec![repo(true, "h/a", "main", "g")]);
    assert!(matches!(plan_batch(&st, &args(&[])), Ok(Batch::Idle)));
}

#[test]
fn unknown_command_is_reported() {
    let st = setting(vec![repo(true, "h/a", "main", "g")]);
    match plan_batch(&st, &args(&["fetch"])) {
        Err(e) => assert_eq!(e.message(), "Unknown command: fetch"),
        _ => panic!("expected an error"),
    }
}

#[test]
fn unknown_config_subcommand_is_reported() {
    let st = setting(vec![repo(true, "h/a", "main", "g")]);
    match plan_batch(&st, &args(&["config", "remote"])) {
        Err(e) => assert_eq!(e.message(), "Unknown subcommand: config remote"),
        _ => panic!("expected an error"),
    }
}

#[test]
fn duplicate_names_are_rejected() {
    let st = setting(vec![repo(true, "h/x/a.git", "main", "g1"), repo(true, "h/y/a", "main", "g2")]);
    match plan_batch(&st, &args(&["pull"])) {
        Err(CommandError::DuplicateName(n)) => assert_eq!(n, "a"),
        _ => panic!("expected a duplicate name"),
    }
}

#[test]
fn help_is_planned() {
    let st = setting(vec![repo(true, "h/a", "main", "g")]);
    assert!(matches!(plan_batch(&st, &args(&["?"])), Ok(Batch::Help)));
}

#[test]
fn commands_resolve_with_abbreviations() {
    assert!(matches!(resolve_command(&args(&["cl"])), Ok(Command::Run(Operation::Clone, false))));
    assert!(matches!(resolve_command(&args(&["pu", "serial"])), Ok(Command::Run(Operation::Pull, true))));
    assert!(matches!(resolve_command(&args(&["ps"])), Ok(Command::Run(Operation::Push, false))));
    assert!(matches!(resolve_command(&args(&["cfg"])), Ok(Command::Run(Operation::ConfigAll, false))));
    assert!(matches!(resolve_command(&args(&["conf", "serial"])), Ok(Command::Run(Operation::ConfigAll, true))));
    assert!(matches!(resolve_command(&args(&["config", "usr", "serial"])), Ok(Command::Run(Operation::ConfigUser, true))));
    assert!(matches!(resolve_command(&args(&["config", "u"])), Ok(Command::Run(Operation::ConfigUser, false))));
}

#[test]
fn serial_and_parallel_plan_the_same_jobs() {
    let st = setting(vec![repo(true, "h/a", "main", "g"), repo(false, "h/b", "main", "g"), repo(true, "h/c.git", "main", "g")]);
    let (p, q) = match (plan_batch(&st, &args(&["clone"])), plan_batch(&st, &args(&["clone", "serial"]))) {
        (Ok(Batch::Run { op: o1, serial: false, jobs: j1 }), Ok(Batch::Run { op: o2, serial: true, jobs: j2 })) => {
            assert_eq!(o1, o2);
            (j1, j2)
        }
        _ => panic!("expected two runs"),
    };
    assert_eq!(p.len(), 2);
    for (a, b) in p.iter().zip(q.iter()) {
        assert_eq!(a.name, b.name);
        assert_eq!(show_all(&a.steps), show_all(&b.steps));
    }
    assert_eq!(p[1].name, "c");
}

#[test]
fn helper_completes_and_hints() {
    let h = GitpHelper::new();
    assert_eq!(h.completions("c"), vec![s("clone"), s("config user")]);
    assert_eq!(h.completions(""), vec![s("clone"), s("pull"), s("push"), s("config user"), s("help"), s("exit"), s("quit")]);
    assert_eq!(h.hint("pu", true), Some(s("ll")));
    assert_eq!(h.hint("pu", false), None);
    assert_eq!(h.hint("clone", true), None);
    assert!(h.is_command("help"));
    assert!(!h.is_command("hel"));
}

#[test]
fn prompt_lines_are_interpreted() {
    assert!(matches!(interpret_line("   "), LineAction::Skip));
    assert!(matches!(interpret_line(" exit "), LineAction::Exit));
    assert!(matches!(interpret_line("quit"), LineAction::Exit));
    assert!(matches!(interpret_line("?"), LineAction::Help));
    match interpret_line("  clone \t serial ") {
        LineAction::Run(parts) => assert_eq!(parts, vec![s("clone"), s("serial")]),
        _ => panic!("expected a command"),
    }
}

#[test]
fn output_is_decoded_and_joined() {
    let git = GitController::new(false);
    assert_eq!(git.encoding, TextEncoding::Utf8);
    assert_eq!(git.decode_output("héllo ".as_bytes(), b"err"), "héllo err");
    assert_eq!(git.decode_output(&[0xff], b""), "\u{fffd}");
}

#[test]
fn shift_jis_output_is_decoded() {
    let git = GitController::new(true);
    assert_eq!(git.encoding, TextEncoding::ShiftJis);
    assert_eq!(git.decode_output(&[0x82, 0xa0], b"!"), "あ!");
}

#[test]
fn shell_command_lines() {
    assert_eq!(git_status(), "git status");
    assert_eq!(git_clone("https://h/x.git"), "git clone https://h/x.git");
    assert_eq!(exec_git_command("log"), "git log");
}

fn run_with(op: Operation, steps: &Vec<Step>, outcomes: Vec<StepOutcome>, verdict: Verdict) -> (JobState, Vec<String>) {
    let mut st = JobState::start();
    let mut posted = Vec::new();
    for o in outcomes {
        if st.done {
            break;
        }
        if let Some(p) = st.advance(steps, op, verdict, o) {
            posted.push(show(&p));
        }
    }
    (st, posted)
}

fn outcomes_for(steps: &[Step], decisive_output: &str, exit_ok: bool) -> Vec<StepOutcome> {
    steps
        .iter()
        .map(|st| match st {
            Step::Git(g) if g.decisive => StepOutcome::Ran(s(decisive_output), exit_ok),
            Step::Git(_) => StepOutcome::Ran(s(""), true),
            _ => StepOutcome::Completed,
        })
        .collect()
}

#[test]
fn job_fails_on_fatal_clone_output() {
    let steps = clone_steps(&repo(true, "h/x.git", "main", "g"), &user());
    let outs = outcomes_for(&steps, "fatal: repository not found", false);
    let (st, posted) = run_with(Operation::Clone, &steps, outs, Verdict::OutputText);
    assert!(st.done);
    assert_eq!(st.pos, 4);
    assert!(show(&steps[4]).starts_with("git clone"));
    assert_eq!(posted, vec![s("report Failed Failed 100")]);
}

#[test]
fn job_succeeds_on_clean_output() {
    let steps = pull_steps(&repo(true, "h/x.git", "main", "g"), &user());
    let outs = outcomes_for(&steps, "Already up to date.", true);
    let (_, posted) = run_with(Operation::Pull, &steps, outs, Verdict::OutputText);
    assert_eq!(posted, vec![s("report Success Done 100")]);
}

#[test]
fn job_stops_at_a_step_that_cannot_run() {
    let steps = clone_steps(&repo(true, "h/x.git", "main", "g"), &user());
    let mut outs = outcomes_for(&steps, "", true);
    outs[2] = StepOutcome::Broke(s("permission denied"));
    let (st, posted) = run_with(Operation::Clone, &steps, outs, Verdict::OutputText);
    assert!(st.done);
    assert_eq!(st.pos, 2);
    assert_eq!(posted, vec![s("report Failed Error: permission denied 100")]);
}

#[test]
fn job_judged_by_exit_status() {
    let steps = push_steps(&repo(true, "h/x.git", "main", "g"), &user(), &s("m"));
    let outs = outcomes_for(&steps, "remote: no errors here", true);
    let (_, posted) = run_with(Operation::Push, &steps, outs, Verdict::ExitStatus);
    assert_eq!(posted, vec![s("report Success Done 100")]);
    let outs = outcomes_for(&steps, "", false);
    let (_, posted) = run_with(Operation::Push, &steps, outs, Verdict::ExitStatus);
    assert_eq!(posted, vec![s("report Failed Failed 100")]);
}

#[test]
fn verdicts_differ_on_innocent_error_word() {
    assert_eq!(judge(Verdict::OutputText, "0 errors", true), RepoStatus::Failed);
    assert_eq!(judge(Verdict::ExitStatus, "0 errors", true), RepoStatus::Success);
    assert_eq!(show(&final_report_by(Operation::ConfigUser, Verdict::ExitStatus, "", false)), "report Failed Failed 100");
    assert_eq!(show(&final_report_by(Operation::ConfigUser, Verdict::ExitStatus, "error", true)), "report Success Configured 100");
}

#[test]
fn cancel_key_is_q() {
    assert!(is_cancel_key('q'));
    assert!(!is_cancel_key('Q'));
    assert!(!is_cancel_key('x'));
}

#[test]
fn new_table_starts_pending() {
    let app = TuiApp::new(args(&["one", "two"]));
    assert_eq!(show_rows(&app.snapshot()), vec![s("one Pending Waiting... 0"), s("two Pending Waiting... 0")]);
}

#[test]
fn table_update_reports_the_write() {
    let app = TuiApp::new(args(&["one", "two"]));
    let handle = app.get_repos_handle();
    let w = update_repo_status(&handle, "one", RepoStatus::Success, "Done", 100);
    assert_eq!(show_rows(&w.before), vec![s("one Pending Waiting... 0"), s("two Pending Waiting... 0")]);
    assert_eq!(show_rows(&w.after), vec![s("one Success Done 100"), s("two Pending Waiting... 0")]);
    assert_eq!(show_rows(&app.snapshot()), show_rows(&w.after));
}

#[test]
fn table_update_of_unknown_name_changes_nothing() {
    let app = TuiApp::new(args(&["one"]));
    let w = update_repo_status(&app.get_repos_handle(), "zzz", RepoStatus::Failed, "x", 100);
    assert!(!w.found);
    assert_eq!(show_rows(&w.before), show_rows(&w.after));
    assert_eq!(show_rows(&app.snapshot()), vec![s("one Pending Waiting... 0")]);
}

#[test]
fn table_last_write_wins() {
    let app = TuiApp::new(args(&["one"]));
    let h = app.get_repos_handle();
    update_repo_status(&h, "one", RepoStatus::Running, "Pulling...", 50);
    update_repo_status(&h, "one", RepoStatus::Failed, "Failed", 100);
    assert_eq!(show_rows(&app.snapshot()), vec![s("one Failed Failed 100")]);
}

#[test]
fn config_job_fails_on_error_output() {
    let cfg = vec![(s("core.autocrlf"), s("false")), (s("pull.rebase"), s("true"))];
    let steps = config_all_steps(&repo(true, "h/tool", "dev", "g"), &user(), &cfg);
    let outs: Vec<StepOutcome> = steps
        .iter()
        .map(|st| match st {
            Step::Git(g) if g.args.contains(&s("pull.rebase")) => StepOutcome::Ran(s("error: could not lock config file"), false),
            Step::Git(_) => StepOutcome::Ran(s(""), true),
            _ => StepOutcome::Completed,
        })
        .collect();
    let (st, posted) = run_with(Operation::ConfigAll, &steps, outs, Verdict::OutputText);
    assert!(st.done);
    assert_eq!(st.pos, steps.len() - 1);
    assert_eq!(posted, vec![s("report Failed Failed 100")]);
}

#[test]
fn config_user_job_succeeds() {
    let steps = config_user_steps(&repo(true, "h/tool", "dev", "g"), &user());
    let outs = outcomes_for(&steps, "", true);
    let (_, posted) = run_with(Operation::ConfigUser, &steps, outs, Verdict::OutputText);
    assert_eq!(posted, vec![s("report Success Configured 100")]);
}
