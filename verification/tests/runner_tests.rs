use mgt::filter_args::generate_filter_arg_vec;
use mgt::repo_file::RepoFile;
use mgt::rules::inclusion_var_valid;
use mgt::rules::panic_if_array_invalid;
use mgt::runner::stage_sequence;
use mgt::runner::strip_refs_heads;
use mgt::runner::ChdirPlan;
use mgt::runner::CliOptions;
use mgt::runner::CommandPlan;
use mgt::runner::ExecEvent;
use mgt::runner::ExecOutput;
use mgt::runner::OrphanPlan;
use mgt::runner::PopulatePlan;
use mgt::runner::RebasePlan;
use mgt::runner::RunError;
use mgt::runner::Runner;
use mgt::runner::SafetyCheck;
use mgt::runner::SplitMode;
use mgt::runner::Stage;
use mgt::runner::UNSAFE_EXIT_STATUS;
use mgt::strutil::first_line;

fn base_options() -> CliOptions {
    CliOptions {
        repo_file_path: Some("repo_file.txt".to_string()),
        dry_run: false,
        verbose: false,
        should_rebase: false,
        should_topbase: false,
        output_branch: Some("out-branch".to_string()),
    }
}

fn completed(status: i32, stdout: &str, stderr: &str) -> ExecEvent {
    ExecEvent::Completed(ExecOutput {
        status,
        stdout: stdout.to_string(),
        stderr: stderr.to_string(),
    })
}

#[test]
fn rule_arrays_of_even_length_are_always_valid() {
    for len in [2usize, 4, 6, 100] {
        let v: Vec<String> = vec!["x".to_string(); len];
        assert!(inclusion_var_valid(&v, true));
        assert!(inclusion_var_valid(&v, false));
    }
}

#[test]
fn rule_array_of_length_one_is_valid_only_when_single_allowed() {
    let v: Vec<String> = vec!["x".to_string()];
    assert!(inclusion_var_valid(&v, true));
    assert!(!inclusion_var_valid(&v, false));
}

#[test]
fn empty_and_odd_rule_arrays_are_invalid() {
    let empty: Vec<String> = vec![];
    assert!(!inclusion_var_valid(&empty, true));
    assert!(!inclusion_var_valid(&empty, false));
    for len in [3usize, 5, 7] {
        let v: Vec<String> = vec!["x".to_string(); len];
        assert!(!inclusion_var_valid(&v, true));
        assert!(!inclusion_var_valid(&v, false));
    }
}

#[test]
fn invalid_array_reports_its_name() {
    let bad: Option<Vec<String>> = Some(vec!["a".to_string(), "b".to_string(), "c".to_string()]);
    assert_eq!(panic_if_array_invalid(&bad, true, "inclusion"), Err("inclusion"));
    let single: Option<Vec<String>> = Some(vec!["a".to_string()]);
    assert_eq!(panic_if_array_invalid(&single, false, "inclusion_as"), Err("inclusion_as"));
    assert_eq!(panic_if_array_invalid(&single, true, "inclusion"), Ok(()));
    assert_eq!(panic_if_array_invalid(&None, false, "exclude"), Ok(()));
}

#[test]
fn repo_file_validation_gates_all_three_arrays() {
    let mut rf = RepoFile::new();
    assert!(rf.validate().is_ok());
    rf.inclusion = Some(vec!["lib/".to_string()]);
    rf.exclude = Some(vec!["lib/secret".to_string()]);
    rf.inclusion_as = Some(vec!["lib/".to_string(), "src/".to_string()]);
    assert!(rf.validate().is_ok());
    rf.inclusion_as = Some(vec!["lib/".to_string()]);
    assert_eq!(rf.validate(), Err("inclusion_as"));
}

#[test]
fn filter_arg_vec_has_engine_first_args_verbatim_and_trailer_last() {
    let args: Vec<String> = vec!["--path".to_string(), "lib/".to_string()];
    let v = generate_filter_arg_vec(&args, "my-branch");
    assert_eq!(v, vec!["git", "filter-repo", "--path", "lib/", "--refs", "my-branch", "--force"]);
}

#[test]
fn filter_arg_vec_of_empty_args_is_just_the_trailer() {
    let args: Vec<String> = vec![];
    let v = generate_filter_arg_vec(&args, "b");
    assert_eq!(v, vec!["git", "filter-repo", "--refs", "b", "--force"]);
}

#[test]
fn new_runner_copies_flags_and_starts_clean() {
    let mut opts = base_options();
    opts.dry_run = true;
    opts.verbose = true;
    let r = Runner::new(opts);
    assert_eq!(r.repo_file_path, Some("repo_file.txt".to_string()));
    assert!(r.dry_run);
    assert!(r.verbose);
    assert!(!r.should_rebase);
    assert!(!r.should_topbase);
    assert_eq!(r.output_branch, Some("out-branch".to_string()));
    assert_eq!(r.status, 0);
    assert!(!r.has_repo);
    assert!(r.current_dir.is_none());
    assert!(r.repo_root_dir.is_none());
    assert!(r.repo_original_ref.is_none());
    assert!(r.topbase_top_ref.is_none());
    assert!(r.input_branch.is_none());
    assert!(r.inclusion_arg_str.is_none());
    assert!(r.inclusion_as_arg_str.is_none());
    assert!(r.exclude_arg_str.is_none());
    assert_eq!(r.log_prefix(), "   # ");
    let r2 = Runner::new(base_options());
    assert_eq!(r2.log_prefix(), "");
}

#[test]
fn verify_dependencies_names_the_missing_tool() {
    let r = Runner::new(base_options());
    assert!(matches!(
        r.verify_dependencies(false, true),
        Err(RunError::MissingDependencyGit)
    ));
    let r = Runner::new(base_options());
    assert!(matches!(
        r.verify_dependencies(true, false),
        Err(RunError::MissingDependencyFilterRepo)
    ));
    let r = Runner::new(base_options());
    assert!(r.verify_dependencies(true, true).is_ok());
}

#[test]
fn save_current_dir_requires_one() {
    let r = Runner::new(base_options());
    let r = r.save_current_dir(Some("/work".to_string())).unwrap();
    assert_eq!(r.current_dir, Some("/work".to_string()));
    let r2 = Runner::new(base_options());
    assert!(matches!(r2.save_current_dir(None), Err(RunError::NoCurrentDirectory)));
}

#[test]
fn discovery_binds_repository_and_root() {
    let r = Runner::new(base_options());
    let r = r.get_repository_from_current_dir(Some("/work/repo".to_string())).unwrap();
    assert!(r.has_repo);
    assert_eq!(r.repo_root_dir, Some("/work/repo".to_string()));
    let r2 = Runner::new(base_options());
    assert!(matches!(
        r2.get_repository_from_current_dir(None),
        Err(RunError::RepositoryNotFound)
    ));
}

#[test]
fn change_to_repo_root_is_shown_in_dry_run() {
    let mut opts = base_options();
    opts.dry_run = true;
    let r = Runner::new(opts);
    let r = r.get_repository_from_current_dir(Some("/work/repo".to_string())).unwrap();
    let (_, plan) = r.change_to_repo_root();
    match plan {
        ChdirPlan::Show { cmd } => assert_eq!(cmd.join(" "), "cd /work/repo"),
        _ => panic!("dry-run must only show the directory change"),
    }
    let r2 = Runner::new(base_options());
    let r2 = r2.get_repository_from_current_dir(Some("/work/repo".to_string())).unwrap();
    let (_, plan2) = r2.change_to_repo_root();
    assert!(matches!(plan2, ChdirPlan::Change { dir } if dir == "/work/repo"));
    assert!(matches!(
        Runner::chdir_outcome(false),
        Err(RunError::FailedToChangeToRepoRoot)
    ));
    assert!(Runner::chdir_outcome(true).is_ok());
}

#[test]
fn dirty_working_tree_stops_with_status_one() {
    let r = Runner::new(base_options());
    let (_, verdict) = r.safe_to_proceed(completed(0, "lib/changed.rs\n", ""));
    assert!(matches!(verdict, Ok(SafetyCheck::StopUnsafe)));
    assert_eq!(UNSAFE_EXIT_STATUS, 1);
    assert_eq!(
        Runner::unsafe_working_tree_message(),
        "You have modified changes. Please stash or commit your changes before running this command"
    );
}

#[test]
fn clean_working_tree_proceeds() {
    let r = Runner::new(base_options());
    let (_, verdict) = r.safe_to_proceed(completed(0, "", ""));
    assert!(matches!(verdict, Ok(SafetyCheck::Proceed)));
}

#[test]
fn failed_listing_is_fatal() {
    let r = Runner::new(base_options());
    let (_, verdict) = r.safe_to_proceed(completed(128, "", "not a git repository"));
    assert!(matches!(
        verdict,
        Err(RunError::LsFilesFailed { detail }) if detail == "not a git repository"
    ));
    let r2 = Runner::new(base_options());
    let (_, verdict2) = r2.safe_to_proceed(ExecEvent::FailedToLaunch("no such binary".to_string()));
    assert!(matches!(
        verdict2,
        Err(RunError::LsFilesFailed { detail }) if detail == "no such binary"
    ));
}

#[test]
fn current_ref_is_captured_only_with_a_repository() {
    let r = Runner::new(base_options());
    let r = r.save_current_ref(Some("refs/heads/master".to_string()));
    assert!(r.repo_original_ref.is_none());
    let r2 = Runner::new(base_options());
    let r2 = r2.get_repository_from_current_dir(Some("/repo".to_string())).unwrap();
    let r2 = r2.save_current_ref(Some("refs/heads/master".to_string()));
    assert_eq!(r2.repo_original_ref, Some("refs/heads/master".to_string()));
}

#[test]
fn repo_file_is_bound_into_the_context() {
    let r = Runner::new(base_options());
    let mut rf = RepoFile::new();
    rf.remote_repo = Some("https://host/repo".to_string());
    let r = r.get_repo_file(rf);
    assert_eq!(r.repo_file.remote_repo, Some("https://host/repo".to_string()));
}

#[test]
fn orphan_branch_is_shown_in_dry_run() {
    let mut opts = base_options();
    opts.dry_run = true;
    let r = Runner::new(opts);
    let (_, plan) = r.make_and_checkout_orphan_branch("out-branch").unwrap();
    match plan {
        OrphanPlan::Show { checkout_cmd, clean_cmd } => {
            assert_eq!(checkout_cmd.join(" "), "git checkout --orphan out-branch");
            assert_eq!(clean_cmd.join(" "), "git rm -rf . > /dev/null");
        },
        _ => panic!("dry-run must only show the branch preparation"),
    }
}

#[test]
fn orphan_branch_needs_the_repository_for_real() {
    let r = Runner::new(base_options());
    assert!(matches!(
        r.make_and_checkout_orphan_branch("out-branch"),
        Err(RunError::MissingRepository)
    ));
    let r2 = Runner::new(base_options());
    let r2 = r2.get_repository_from_current_dir(Some("/repo".to_string())).unwrap();
    let (_, plan) = r2.make_and_checkout_orphan_branch("out-branch").unwrap();
    assert!(matches!(plan, OrphanPlan::Perform { branch } if branch == "out-branch"));
    assert!(matches!(
        Runner::orphan_outcome(false, true),
        Err(RunError::OrphanCheckoutFailed)
    ));
    assert!(matches!(
        Runner::orphan_outcome(true, false),
        Err(RunError::IndexCleanupFailed)
    ));
    assert!(Runner::orphan_outcome(true, true).is_ok());
}

#[test]
fn population_merges_an_explicit_local_branch() {
    let mut r = Runner::new(base_options());
    r = r.get_repository_from_current_dir(Some("/repo".to_string())).unwrap();
    r.input_branch = Some("feature".to_string());
    let (_, plan) = r.populate_empty_branch_with_remote_commits().unwrap();
    assert!(matches!(plan, PopulatePlan::Merge { branch } if branch == "feature"));
}

#[test]
fn population_pulls_from_the_remote_otherwise() {
    let mut r = Runner::new(base_options());
    r = r.get_repository_from_current_dir(Some("/repo".to_string())).unwrap();
    r.repo_file.remote_repo = Some("https://host/repo".to_string());
    r.repo_file.remote_branch = Some("main".to_string());
    let (_, plan) = r.populate_empty_branch_with_remote_commits().unwrap();
    assert!(matches!(
        plan,
        PopulatePlan::Pull { remote, remote_branch }
            if remote == "https://host/repo" && remote_branch == Some("main".to_string())
    ));
}

#[test]
fn population_without_remote_or_branch_is_fatal() {
    let mut r = Runner::new(base_options());
    r = r.get_repository_from_current_dir(Some("/repo".to_string())).unwrap();
    assert!(matches!(
        r.populate_empty_branch_with_remote_commits(),
        Err(RunError::MissingRemoteRepo)
    ));
    let r2 = Runner::new(base_options());
    assert!(matches!(
        r2.populate_empty_branch_with_remote_commits(),
        Err(RunError::MissingRepository)
    ));
}

#[test]
fn population_is_shown_in_dry_run() {
    let mut opts = base_options();
    opts.dry_run = true;
    let mut r = Runner::new(opts);
    r = r.get_repository_from_current_dir(Some("/repo".to_string())).unwrap();
    r.input_branch = Some("feature".to_string());
    let (_, plan) = r.populate_empty_branch_with_remote_commits().unwrap();
    match plan {
        PopulatePlan::ShowMerge { cmd } => assert_eq!(cmd.join(" "), "git merge feature"),
        _ => panic!("dry-run must only show the merge"),
    }
    let mut opts2 = base_options();
    opts2.dry_run = true;
    let mut r2 = Runner::new(opts2);
    r2 = r2.get_repository_from_current_dir(Some("/repo".to_string())).unwrap();
    r2.repo_file.remote_repo = Some("https://host/repo".to_string());
    let (_, plan2) = r2.populate_empty_branch_with_remote_commits().unwrap();
    match plan2 {
        PopulatePlan::ShowPull { cmd } => assert_eq!(cmd.join(" "), "git pull https://host/repo"),
        _ => panic!("dry-run must only show the pull"),
    }
}

#[test]
fn filter_passes_run_only_when_rules_are_present() {
    let r = Runner::new(base_options());
    let (r, plan) = r.filter_inclusion();
    assert!(plan.is_none());
    let (r, plan) = r.filter_inclusion_as();
    assert!(plan.is_none());
    let (_, plan) = r.filter_exclude();
    assert!(plan.is_none());
}

#[test]
fn filter_pass_carries_the_exact_argument_vector() {
    let mut r = Runner::new(base_options());
    r.inclusion_arg_str = Some(vec!["--path".to_string(), "lib/".to_string()]);
    let (_, plan) = r.filter_inclusion();
    match plan.unwrap() {
        CommandPlan::Run { args, log } => {
            assert_eq!(
                args.join(" "),
                "git filter-repo --path lib/ --refs out-branch --force"
            );
            assert_eq!(log, "Filtering inclusion");
        },
        _ => panic!("a real run must yield a Run plan"),
    }
}

#[test]
fn filter_pass_is_shown_in_dry_run() {
    let mut opts = base_options();
    opts.dry_run = true;
    let mut r = Runner::new(opts);
    r.exclude_arg_str = Some(vec!["--invert-paths".to_string(), "--path".to_string(), "secret".to_string()]);
    let (_, plan) = r.filter_exclude();
    match plan.unwrap() {
        CommandPlan::Show { cmd } => {
            assert_eq!(
                cmd.join(" "),
                "git filter-repo --invert-paths --path secret --refs out-branch --force"
            );
        },
        _ => panic!("dry-run must only show the filter pass"),
    }
}

#[test]
fn filter_failure_is_fatal() {
    assert!(Runner::filter_completed(completed(0, "", "")).is_ok());
    assert!(matches!(
        Runner::filter_completed(completed(1, "", "boom")),
        Err(RunError::FilterFailed { detail }) if detail == "boom"
    ));
    assert!(matches!(
        Runner::filter_completed(ExecEvent::FailedToLaunch("gone".to_string())),
        Err(RunError::FilterFailed { detail }) if detail == "gone"
    ));
}

#[test]
fn rebase_strips_the_branch_ref_prefix() {
    assert_eq!(strip_refs_heads("refs/heads/master"), "master");
    assert_eq!(strip_refs_heads("master"), "master");
    let mut r = Runner::new(base_options());
    r = r.get_repository_from_current_dir(Some("/repo".to_string())).unwrap();
    r = r.save_current_ref(Some("refs/heads/master".to_string()));
    let (_, plan) = r.rebase();
    assert!(matches!(plan, RebasePlan::Run { args } if args.join(" ") == "git rebase master"));
}

#[test]
fn rebase_is_skipped_without_a_captured_ref() {
    let r = Runner::new(base_options());
    let (_, plan) = r.rebase();
    assert!(matches!(plan, RebasePlan::SkipNoRef));
}

#[test]
fn rebase_is_shown_in_dry_run() {
    let mut opts = base_options();
    opts.dry_run = true;
    let mut r = Runner::new(opts);
    r = r.get_repository_from_current_dir(Some("/repo".to_string())).unwrap();
    r = r.save_current_ref(Some("refs/heads/main".to_string()));
    let (_, plan) = r.rebase();
    assert!(matches!(plan, RebasePlan::Show { cmd } if cmd.join(" ") == "git rebase main"));
}

#[test]
fn failed_rebase_sets_status_but_keeps_everything_else() {
    let mut r = Runner::new(base_options());
    r = r.get_repository_from_current_dir(Some("/repo".to_string())).unwrap();
    r.inclusion_arg_str = Some(vec!["--path".to_string(), "lib/".to_string()]);
    let (post, report) = r.rebase_completed(completed(1, "", "conflict in lib/a\nmore detail"));
    assert_eq!(post.status, 1);
    assert_eq!(report, Some("conflict in lib/a".to_string()));
    // Everything but the status survives: the run's results are not reverted.
    assert!(post.has_repo);
    assert_eq!(post.repo_root_dir, Some("/repo".to_string()));
    assert_eq!(
        post.inclusion_arg_str,
        Some(vec!["--path".to_string(), "lib/".to_string()])
    );
    assert_eq!(post.output_branch, Some("out-branch".to_string()));
}

#[test]
fn clean_rebase_keeps_status_zero() {
    let r = Runner::new(base_options());
    let (post, report) = r.rebase_completed(completed(0, "", ""));
    assert_eq!(post.status, 0);
    assert!(report.is_none());
    let r2 = Runner::new(base_options());
    let (post2, report2) = r2.rebase_completed(ExecEvent::FailedToLaunch("gone".to_string()));
    assert_eq!(post2.status, 1);
    assert_eq!(report2, Some("gone".to_string()));
}

#[test]
fn first_line_cuts_at_the_newline() {
    assert_eq!(first_line("a\nb\nc"), "a");
    assert_eq!(first_line("single"), "single");
    assert_eq!(first_line(""), "");
}

#[test]
fn stage_order_is_fixed_and_guarded() {
    let order = stage_sequence(SplitMode::SplitOut);
    assert_eq!(
        order,
        vec![
            Stage::VerifyDependencies,
            Stage::SaveCurrentDir,
            Stage::DiscoverRepository,
            Stage::ChangeToRepoRoot,
            Stage::SafeToProceed,
            Stage::SaveCurrentRef,
            Stage::GetRepoFile,
            Stage::BranchPreparation,
            Stage::FilterInclusion,
            Stage::FilterInclusionAs,
            Stage::FilterExclude,
            Stage::Reconciliation,
        ]
    );
    let order_in = stage_sequence(SplitMode::SplitIn);
    assert_eq!(order_in.len(), 13);
    assert_eq!(order_in[4], Stage::SafeToProceed);
    assert_eq!(order_in[8], Stage::HistoryPopulation);
}
