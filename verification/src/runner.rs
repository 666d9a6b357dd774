//! The pipeline state machine.
//!
//! A run is a fixed sequence of stages.  Each stage here is a decision
//! function: it takes the pipeline context plus whatever the surrounding
//! program observed (a subprocess outcome, the current directory, the
//! discovered repository root) and returns the advanced context together
//! with a plan — what must be done next.  In dry-run mode every plan that
//! would mutate the repository is a `Show` plan carrying the literal
//! command line a user would run instead; the surrounding program prints
//! it and mutates nothing.

use crate::filter_args::filter_arg_vec_spec;
use crate::filter_args::generate_filter_arg_vec;
use crate::repo_file::RepoFile;
use crate::strutil::first_line;
use crate::strutil::first_line_spec;
use crate::strutil::str_starts_with;
use vstd::prelude::*;

verus! {

/// Exit status of the guarded stop on a dirty working tree.
pub const UNSAFE_EXIT_STATUS: i32 = 1;

/// The flags and values the command line hands the pipeline.
pub struct CliOptions {
    pub repo_file_path: Option<String>,
    pub dry_run: bool,
    pub verbose: bool,
    pub should_rebase: bool,
    pub should_topbase: bool,
    pub output_branch: Option<String>,
}

/// The pipeline context, one instance per invocation.  `has_repo` stands
/// for the open repository handle, which the surrounding program owns; the
/// paths and refs are carried as plain strings.
pub struct Runner {
    pub repo_file_path: Option<String>,
    pub current_dir: Option<String>,
    pub dry_run: bool,
    pub verbose: bool,
    pub should_rebase: bool,
    pub should_topbase: bool,
    pub repo_file: RepoFile,
    pub repo_root_dir: Option<String>,
    pub topbase_top_ref: Option<String>,
    pub repo_original_ref: Option<String>,
    pub has_repo: bool,
    pub input_branch: Option<String>,
    pub output_branch: Option<String>,
    pub inclusion_arg_str: Option<Vec<String>>,
    pub inclusion_as_arg_str: Option<Vec<String>>,
    pub exclude_arg_str: Option<Vec<String>>,
    pub status: i32,
}

/// What a finished subprocess came back with.
pub struct ExecOutput {
    pub status: i32,
    pub stdout: String,
    pub stderr: String,
}

/// A subprocess either ran to completion or could not be launched.
pub enum ExecEvent {
    Completed(ExecOutput),
    FailedToLaunch(String),
}

/// A condition on which the pipeline must stop.  All of these are fatal
/// except where a stage's contract says otherwise.
#[derive(Debug)]
pub enum RunError {
    MissingDependencyGit,
    MissingDependencyFilterRepo,
    NoCurrentDirectory,
    RepositoryNotFound,
    FailedToChangeToRepoRoot,
    MissingRepository,
    OrphanCheckoutFailed,
    IndexCleanupFailed,
    LsFilesFailed { detail: String },
    FilterFailed { detail: String },
    MissingRemoteRepo,
}

/// The verdict of the working-tree safety check.
pub enum SafetyCheck {
    Proceed,
    StopUnsafe,
}

/// One subprocess invocation: shown in dry-run, run otherwise.
pub enum CommandPlan {
    Show { cmd: Vec<String> },
    Run { args: Vec<String>, log: String },
}

/// Branch preparation: the two command lines to show in dry-run, or the
/// orphan branch to create and check out for real.
pub enum OrphanPlan {
    Show { checkout_cmd: Vec<String>, clean_cmd: Vec<String> },
    Perform { branch: String },
}

/// History population: merge a local branch or pull from the remote.
pub enum PopulatePlan {
    ShowMerge { cmd: Vec<String> },
    ShowPull { cmd: Vec<String> },
    Merge { branch: String },
    Pull { remote: String, remote_branch: Option<String> },
}

/// Normalizing the working directory to the repository root.
pub enum ChdirPlan {
    Show { cmd: Vec<String> },
    Change { dir: String },
}

/// Reconciliation by rebase: skipped without a captured ref, shown in
/// dry-run, run otherwise.
pub enum RebasePlan {
    SkipNoRef,
    Show { cmd: Vec<String> },
    Run { args: Vec<String> },
}

// ---------------------------------------------------------------------
// The literal command lines the pipeline issues or, in dry-run, shows.
// ---------------------------------------------------------------------

pub open spec fn git_version_tokens() -> Seq<Seq<char>> {
    seq!["git"@, "--version"@]
}

pub open spec fn filter_repo_version_tokens() -> Seq<Seq<char>> {
    seq!["git"@, "filter-repo"@, "--version"@]
}

pub open spec fn ls_files_modified_tokens() -> Seq<Seq<char>> {
    seq!["git"@, "ls-files"@, "--modified"@]
}

pub open spec fn orphan_checkout_tokens(branch: Seq<char>) -> Seq<Seq<char>> {
    seq!["git"@, "checkout"@, "--orphan"@, branch]
}

pub open spec fn orphan_clean_tokens() -> Seq<Seq<char>> {
    seq!["git"@, "rm"@, "-rf"@, "."@, ">"@, "/dev/null"@]
}

pub open spec fn merge_tokens(branch: Seq<char>) -> Seq<Seq<char>> {
    seq!["git"@, "merge"@, branch]
}

pub open spec fn pull_tokens(remote: Seq<char>) -> Seq<Seq<char>> {
    seq!["git"@, "pull"@, remote]
}

pub open spec fn rebase_tokens(upstream: Seq<char>) -> Seq<Seq<char>> {
    seq!["git"@, "rebase"@, upstream]
}

pub open spec fn cd_tokens(dir: Seq<char>) -> Seq<Seq<char>> {
    seq!["cd"@, dir]
}

/// Appends one token to a command line under construction.
fn push_token(v: &mut Vec<String>, t: &str)
    ensures
        final(v).deep_view() == old(v).deep_view().push(t@),
{
    let ghost pre = v.deep_view();
    v.push(t.to_owned());
    proof {
        assert(v.deep_view() =~~= pre.push(t@));
    }
}

/// The invocation that probes for the git binary.
pub fn git_version_args() -> (r: Vec<String>)
    ensures
        r.deep_view() == git_version_tokens(),
{
    let mut v: Vec<String> = Vec::new();
    push_token(&mut v, "git");
    push_token(&mut v, "--version");
    proof {
        assert(v.deep_view() =~~= git_version_tokens());
    }
    v
}

/// The invocation that probes for the history-filtering engine.
pub fn filter_repo_version_args() -> (r: Vec<String>)
    ensures
        r.deep_view() == filter_repo_version_tokens(),
{
    let mut v: Vec<String> = Vec::new();
    push_token(&mut v, "git");
    push_token(&mut v, "filter-repo");
    push_token(&mut v, "--version");
    proof {
        assert(v.deep_view() =~~= filter_repo_version_tokens());
    }
    v
}

/// The invocation that lists modified tracked files.
pub fn ls_files_modified_args() -> (r: Vec<String>)
    ensures
        r.deep_view() == ls_files_modified_tokens(),
{
    let mut v: Vec<String> = Vec::new();
    push_token(&mut v, "git");
    push_token(&mut v, "ls-files");
    push_token(&mut v, "--modified");
    proof {
        assert(v.deep_view() =~~= ls_files_modified_tokens());
    }
    v
}

/// Clones an optional string, value for value.
fn clone_opt_string(o: &Option<String>) -> (r: Option<String>)
    ensures
        r == *o,
{
    match o {
        Some(s) => Some(s.clone()),
        None => None,
    }
}

/// Clones an optional string array; the clone views to the same sequences.
fn clone_opt_vec_string(o: &Option<Vec<String>>) -> (r: Option<Vec<String>>)
    ensures
        r is Some <==> o is Some,
        r matches Some(c) ==> (o matches Some(v) && c.deep_view() == v.deep_view()),
{
    match o {
        Some(v) => {
            let c = v.clone();
            proof {
                assert forall|i: int| 0 <= i < v@.len() implies c@[i]@ == v@[i]@ by {
                    assert(cloned::<String>(v[i], c[i]));
                }
                assert(c.deep_view() =~~= v.deep_view());
            }
            Some(c)
        },
        None => None,
    }
}

/// Turns borrowed tokens into owned ones, keeping the same sequences.
fn own_tokens(v: &Vec<&str>) -> (r: Vec<String>)
    ensures
        r.deep_view() == v.deep_view(),
{
    let mut out: Vec<String> = Vec::new();
    proof {
        assert(out.deep_view() =~~= v.deep_view().subrange(0, 0));
    }
    let mut i: usize = 0;
    while i < v.len()
        invariant
            i <= v.len(),
            out.deep_view() == v.deep_view().subrange(0, i as int),
        decreases v.len() - i,
    {
        let ghost pre = out.deep_view();
        let t: &str = v[i];
        out.push(t.to_owned());
        proof {
            assert(out.deep_view() =~~= pre.push(v.deep_view()[i as int]));
            assert(out.deep_view() =~~= v.deep_view().subrange(0, i as int + 1));
        }
        i += 1;
    }
    proof {
        assert(out.deep_view() =~~= v.deep_view());
    }
    out
}

// ---------------------------------------------------------------------
// Stage contracts, as named predicates: each stage's result satisfies its
// predicate, and the pipeline laws below are proved from the predicates.
// ---------------------------------------------------------------------

/// Branch preparation yields the two shown command lines in dry-run, and
/// the orphan branch to create otherwise.
pub open spec fn orphan_plan_matches(p: OrphanPlan, dry_run: bool, branch: Seq<char>) -> bool {
    if dry_run {
        &&& p matches OrphanPlan::Show { checkout_cmd, clean_cmd }
        &&& checkout_cmd.deep_view() == orphan_checkout_tokens(branch)
        &&& clean_cmd.deep_view() == orphan_clean_tokens()
    } else {
        p matches OrphanPlan::Perform { branch: b } && b@ == branch
    }
}

/// History population decides merge against pull: an explicit local input
/// branch is merged, otherwise the configured remote is pulled; without a
/// repository, or without a remote when one is needed, it is an error.
pub open spec fn populate_result_matches(
    res: Result<(Runner, PopulatePlan), RunError>,
    r: Runner,
) -> bool {
    if !r.has_repo {
        res matches Err(e) && e is MissingRepository
    } else {
        match r.input_branch {
            Some(b) => {
                if r.dry_run {
                    res matches Ok(t) && t.0 == r && (t.1 matches PopulatePlan::ShowMerge { cmd }
                        && cmd.deep_view() == merge_tokens(b@))
                } else {
                    res matches Ok(t) && t.0 == r && (t.1 matches PopulatePlan::Merge { branch }
                        && branch@ == b@)
                }
            },
            None => {
                match r.repo_file.remote_repo {
                    None => res matches Err(e) && e is MissingRemoteRepo,
                    Some(remote) => {
                        if r.dry_run {
                            res matches Ok(t) && t.0 == r && (t.1 matches PopulatePlan::ShowPull {
                                cmd,
                            } && cmd.deep_view() == pull_tokens(remote@))
                        } else {
                            res matches Ok(t) && t.0 == r && (t.1 matches PopulatePlan::Pull {
                                remote: rr,
                                remote_branch,
                            } && rr@ == remote@ && remote_branch == r.repo_file.remote_branch)
                        }
                    },
                }
            },
        }
    }
}

/// A filter pass is shown in dry-run and run otherwise, with the exact
/// argument vector either way.
pub open spec fn filter_plan_matches(
    p: CommandPlan,
    dry_run: bool,
    args: Seq<Seq<char>>,
    log: Seq<char>,
) -> bool {
    if dry_run {
        p matches CommandPlan::Show { cmd } && cmd.deep_view() == args
    } else {
        p matches CommandPlan::Run { args: a, log: l } && a.deep_view() == args && l@ == log
    }
}

/// Changing to the repository root is shown in dry-run, done otherwise.
pub open spec fn chdir_plan_matches(p: ChdirPlan, dry_run: bool, root: Seq<char>) -> bool {
    if dry_run {
        p matches ChdirPlan::Show { cmd } && cmd.deep_view() == cd_tokens(root)
    } else {
        p matches ChdirPlan::Change { dir } && dir@ == root
    }
}

/// The ref captured before the pipeline started, with the branch-ref
/// prefix stripped, is what the rebase targets.
pub open spec fn strip_refs_heads_spec(s: Seq<char>) -> Seq<char> {
    if "refs/heads/"@.is_prefix_of(s) {
        s.subrange("refs/heads/"@.len() as int, s.len() as int)
    } else {
        s
    }
}

/// Reconciliation is skipped without a captured ref; otherwise the rebase
/// onto the stripped ref is shown in dry-run and run for real otherwise.
pub open spec fn rebase_plan_matches(p: RebasePlan, r: Runner) -> bool {
    match r.repo_original_ref {
        None => p is SkipNoRef,
        Some(orig) => {
            let upstream = strip_refs_heads_spec(orig@);
            if r.dry_run {
                p matches RebasePlan::Show { cmd } && cmd.deep_view() == rebase_tokens(upstream)
            } else {
                p matches RebasePlan::Run { args } && args.deep_view() == rebase_tokens(upstream)
            }
        },
    }
}

/// The context with only its terminal status replaced.
pub open spec fn with_status(r: Runner, status: i32) -> Runner {
    Runner { status, ..r }
}

/// A failed rebase sets the terminal status to the unsafe exit status and
/// changes nothing else; a clean rebase changes nothing at all.  The
/// report carries the first line of the failure.
pub open spec fn rebase_outcome_matches(
    pre: Runner,
    post: Runner,
    report: Option<String>,
    ev: ExecEvent,
) -> bool {
    match ev {
        ExecEvent::Completed(o) => {
            if o.status == 0 {
                post == pre && report is None
            } else {
                post == with_status(pre, 1) && (report matches Some(m) && m@ == first_line_spec(
                    o.stderr@,
                ))
            }
        },
        ExecEvent::FailedToLaunch(e) => {
            post == with_status(pre, 1) && (report matches Some(m) && m@ == e@)
        },
    }
}

/// The safety check lets the pipeline proceed only on a clean listing of
/// modified files; a non-empty listing is the guarded stop, and a failed
/// listing is fatal.
pub open spec fn safety_outcome_matches(res: Result<SafetyCheck, RunError>, ev: ExecEvent) -> bool {
    match ev {
        ExecEvent::Completed(o) => {
            if o.status != 0 {
                res matches Err(e) && (e matches RunError::LsFilesFailed { detail } && detail@
                    == o.stderr@)
            } else if o.stdout@.len() == 0 {
                res matches Ok(c) && c is Proceed
            } else {
                res matches Ok(c) && c is StopUnsafe
            }
        },
        ExecEvent::FailedToLaunch(msg) => {
            res matches Err(e) && (e matches RunError::LsFilesFailed { detail } && detail@ == msg@)
        },
    }
}

impl Runner {
    /// A fresh context: flags copied from the command line, everything
    /// captured later still absent, terminal status success.
    pub fn new(opts: CliOptions) -> (r: Runner)
        ensures
            r == (Runner {
                repo_file_path: opts.repo_file_path,
                current_dir: None,
                dry_run: opts.dry_run,
                verbose: opts.verbose,
                should_rebase: opts.should_rebase,
                should_topbase: opts.should_topbase,
                repo_file: RepoFile {
                    remote_repo: None,
                    remote_branch: None,
                    inclusion: None,
                    inclusion_as: None,
                    exclude: None,
                },
                repo_root_dir: None,
                topbase_top_ref: None,
                repo_original_ref: None,
                has_repo: false,
                input_branch: None,
                output_branch: opts.output_branch,
                inclusion_arg_str: None,
                inclusion_as_arg_str: None,
                exclude_arg_str: None,
                status: 0,
            }),
    {
        Runner {
            repo_file_path: opts.repo_file_path,
            current_dir: None,
            dry_run: opts.dry_run,
            verbose: opts.verbose,
            should_rebase: opts.should_rebase,
            should_topbase: opts.should_topbase,
            repo_file: RepoFile::new(),
            repo_root_dir: None,
            topbase_top_ref: None,
            repo_original_ref: None,
            has_repo: false,
            input_branch: None,
            output_branch: opts.output_branch,
            inclusion_arg_str: None,
            inclusion_as_arg_str: None,
            exclude_arg_str: None,
            status: 0,
        }
    }

    /// The prefix every progress line carries, marking dry-run output as
    /// commentary.
    pub fn log_prefix(&self) -> (r: &'static str)
        ensures
            self.dry_run ==> r@ == "   # "@,
            !self.dry_run ==> r@ == ""@,
    {
        if self.dry_run {
            "   # "
        } else {
            ""
        }
    }

    /// Both tool probes must have succeeded; otherwise the missing one is
    /// the fatal error, the git binary checked first.
    pub fn verify_dependencies(self, git_ok: bool, filter_repo_ok: bool) -> (r: Result<
        Runner,
        RunError,
    >)
        ensures
            git_ok && filter_repo_ok ==> (r matches Ok(s) && s == self),
            !git_ok ==> (r matches Err(e) && e is MissingDependencyGit),
            git_ok && !filter_repo_ok ==> (r matches Err(e) && e is MissingDependencyFilterRepo),
    {
        if !git_ok {
            Err(RunError::MissingDependencyGit)
        } else if !filter_repo_ok {
            Err(RunError::MissingDependencyFilterRepo)
        } else {
            Ok(self)
        }
    }

    /// Records the invocation working directory; not finding one is fatal.
    pub fn save_current_dir(self, dir: Option<String>) -> (r: Result<Runner, RunError>)
        ensures
            match dir {
                Some(d) => r matches Ok(s) && s == (Runner { current_dir: Some(d), ..self }),
                None => r matches Err(e) && e is NoCurrentDirectory,
            },
    {
        match dir {
            Some(d) => Ok(Runner { current_dir: Some(d), ..self }),
            None => Err(RunError::NoCurrentDirectory),
        }
    }

    /// Binds the discovered repository and its root path; not finding one
    /// is fatal.
    pub fn get_repository_from_current_dir(self, discovered_root: Option<String>) -> (r: Result<
        Runner,
        RunError,
    >)
        ensures
            match discovered_root {
                Some(root) => r matches Ok(s) && s == (Runner {
                    has_repo: true,
                    repo_root_dir: Some(root),
                    ..self
                }),
                None => r matches Err(e) && e is RepositoryNotFound,
            },
    {
        match discovered_root {
            Some(root) => Ok(Runner { has_repo: true, repo_root_dir: Some(root), ..self }),
            None => Err(RunError::RepositoryNotFound),
        }
    }

    /// Plans the change to the repository root, which must be known.
    pub fn change_to_repo_root(self) -> (r: (Runner, ChdirPlan))
        requires
            self.repo_root_dir is Some,
        ensures
            r.0 == self,
            chdir_plan_matches(r.1, self.dry_run, self.repo_root_dir.unwrap()@),
    {
        let root: String = match &self.repo_root_dir {
            Some(d) => d.clone(),
            None => unreached(),
        };
        if self.dry_run {
            let mut cmd: Vec<String> = Vec::new();
            push_token(&mut cmd, "cd");
            push_token(&mut cmd, root.as_str());
            proof {
                assert(cmd.deep_view() =~~= cd_tokens(self.repo_root_dir.unwrap()@));
            }
            (self, ChdirPlan::Show { cmd })
        } else {
            (self, ChdirPlan::Change { dir: root })
        }
    }

    /// Folds the surrounding program's attempt to change directory back
    /// in; failing to reach the root is fatal.
    pub fn chdir_outcome(changed: bool) -> (r: Result<(), RunError>)
        ensures
            changed <==> r is Ok,
            !changed ==> (r matches Err(e) && e is FailedToChangeToRepoRoot),
    {
        if changed {
            Ok(())
        } else {
            Err(RunError::FailedToChangeToRepoRoot)
        }
    }

    /// Judges the listing of modified tracked files.
    pub fn safe_to_proceed(self, ls_files: ExecEvent) -> (r: (
        Runner,
        Result<SafetyCheck, RunError>,
    ))
        ensures
            r.0 == self,
            safety_outcome_matches(r.1, ls_files),
    {
        match ls_files {
            ExecEvent::Completed(o) => {
                if o.status != 0 {
                    (self, Err(RunError::LsFilesFailed { detail: o.stderr }))
                } else if o.stdout.as_str().is_empty() {
                    (self, Ok(SafetyCheck::Proceed))
                } else {
                    (self, Ok(SafetyCheck::StopUnsafe))
                }
            },
            ExecEvent::FailedToLaunch(msg) => (self, Err(RunError::LsFilesFailed { detail: msg })),
        }
    }

    /// The message shown on the guarded stop.
    pub fn unsafe_working_tree_message() -> (r: &'static str)
        ensures
            r@
                == "You have modified changes. Please stash or commit your changes before running this command"@,
    {
        "You have modified changes. Please stash or commit your changes before running this command"
    }

    /// Captures the ref the repository points to, for the later
    /// reconciliation; nothing is captured without a repository.
    pub fn save_current_ref(self, current_ref: Option<String>) -> (r: Runner)
        ensures
            r == (Runner {
                repo_original_ref: if self.has_repo {
                    current_ref
                } else {
                    None
                },
                ..self
            }),
    {
        if self.has_repo {
            Runner { repo_original_ref: current_ref, ..self }
        } else {
            Runner { repo_original_ref: None, ..self }
        }
    }

    /// Binds the parsed repo file into the context; the path must have
    /// been supplied, as the command line requires it.
    pub fn get_repo_file(self, repo_file: RepoFile) -> (r: Runner)
        requires
            self.repo_file_path is Some,
        ensures
            r == (Runner { repo_file, ..self }),
    {
        Runner { repo_file, ..self }
    }

    /// Plans branch preparation: in dry-run the two command lines to show;
    /// otherwise the orphan branch to create, which needs the repository.
    pub fn make_and_checkout_orphan_branch(self, orphan_branch: &str) -> (r: Result<
        (Runner, OrphanPlan),
        RunError,
    >)
        ensures
            self.dry_run || self.has_repo ==> (r matches Ok(t) && t.0 == self
                && orphan_plan_matches(t.1, self.dry_run, orphan_branch@)),
            !self.dry_run && !self.has_repo ==> (r matches Err(e) && e is MissingRepository),
    {
        if self.dry_run {
            let mut checkout_cmd: Vec<String> = Vec::new();
            push_token(&mut checkout_cmd, "git");
            push_token(&mut checkout_cmd, "checkout");
            push_token(&mut checkout_cmd, "--orphan");
            push_token(&mut checkout_cmd, orphan_branch);
            let mut clean_cmd: Vec<String> = Vec::new();
            push_token(&mut clean_cmd, "git");
            push_token(&mut clean_cmd, "rm");
            push_token(&mut clean_cmd, "-rf");
            push_token(&mut clean_cmd, ".");
            push_token(&mut clean_cmd, ">");
            push_token(&mut clean_cmd, "/dev/null");
            proof {
                assert(checkout_cmd.deep_view() =~~= orphan_checkout_tokens(orphan_branch@));
                assert(clean_cmd.deep_view() =~~= orphan_clean_tokens());
            }
            Ok((self, OrphanPlan::Show { checkout_cmd, clean_cmd }))
        } else if self.has_repo {
            Ok((self, OrphanPlan::Perform { branch: orphan_branch.to_owned() }))
        } else {
            Err(RunError::MissingRepository)
        }
    }

    /// Folds the surrounding program's orphan-branch work back in: a
    /// failed checkout, then a failed index cleanup, are fatal.
    pub fn orphan_outcome(checkout_ok: bool, clean_ok: bool) -> (r: Result<(), RunError>)
        ensures
            r is Ok <==> checkout_ok && clean_ok,
            !checkout_ok ==> (r matches Err(e) && e is OrphanCheckoutFailed),
            checkout_ok && !clean_ok ==> (r matches Err(e) && e is IndexCleanupFailed),
    {
        if !checkout_ok {
            Err(RunError::OrphanCheckoutFailed)
        } else if !clean_ok {
            Err(RunError::IndexCleanupFailed)
        } else {
            Ok(())
        }
    }

    /// Plans history population for split-in.
    pub fn populate_empty_branch_with_remote_commits(self) -> (r: Result<
        (Runner, PopulatePlan),
        RunError,
    >)
        ensures
            populate_result_matches(r, self),
    {
        if !self.has_repo {
            return Err(RunError::MissingRepository);
        }
        let input_branch: Option<String> = clone_opt_string(&self.input_branch);
        match input_branch {
            Some(branch) => {
                if self.dry_run {
                    let mut cmd: Vec<String> = Vec::new();
                    push_token(&mut cmd, "git");
                    push_token(&mut cmd, "merge");
                    push_token(&mut cmd, branch.as_str());
                    proof {
                        assert(cmd.deep_view() =~~= merge_tokens(self.input_branch.unwrap()@));
                    }
                    Ok((self, PopulatePlan::ShowMerge { cmd }))
                } else {
                    Ok((self, PopulatePlan::Merge { branch }))
                }
            },
            None => {
                let remote_repo: Option<String> = clone_opt_string(&self.repo_file.remote_repo);
                match remote_repo {
                    None => Err(RunError::MissingRemoteRepo),
                    Some(remote) => {
                        if self.dry_run {
                            let mut cmd: Vec<String> = Vec::new();
                            push_token(&mut cmd, "git");
                            push_token(&mut cmd, "pull");
                            push_token(&mut cmd, remote.as_str());
                            proof {
                                assert(cmd.deep_view() =~~= pull_tokens(
                                    self.repo_file.remote_repo.unwrap()@,
                                ));
                            }
                            Ok((self, PopulatePlan::ShowPull { cmd }))
                        } else {
                            let remote_branch: Option<String> = clone_opt_string(
                                &self.repo_file.remote_branch,
                            );
                            Ok((self, PopulatePlan::Pull { remote, remote_branch }))
                        }
                    },
                }
            },
        }
    }

    /// Plans one filter pass over the already-synthesized argument vector.
    pub fn run_filter(self, arg_vec: Vec<&str>, verbose_log: &str) -> (r: (Runner, CommandPlan))
        ensures
            r.0 == self,
            filter_plan_matches(r.1, self.dry_run, arg_vec.deep_view(), verbose_log@),
    {
        let owned: Vec<String> = own_tokens(&arg_vec);
        if self.dry_run {
            (self, CommandPlan::Show { cmd: owned })
        } else {
            (self, CommandPlan::Run { args: owned, log: verbose_log.to_owned() })
        }
    }

    /// Folds a filter pass's subprocess outcome back in; any failure is
    /// fatal.
    pub fn filter_completed(ev: ExecEvent) -> (r: Result<(), RunError>)
        ensures
            match ev {
                ExecEvent::Completed(o) => {
                    if o.status == 0 {
                        r is Ok
                    } else {
                        r matches Err(e) && (e matches RunError::FilterFailed { detail } && detail@
                            == o.stderr@)
                    }
                },
                ExecEvent::FailedToLaunch(msg) => r matches Err(e) && (
                e matches RunError::FilterFailed { detail } && detail@ == msg@),
            },
    {
        match ev {
            ExecEvent::Completed(o) => {
                if o.status == 0 {
                    Ok(())
                } else {
                    Err(RunError::FilterFailed { detail: o.stderr })
                }
            },
            ExecEvent::FailedToLaunch(msg) => Err(RunError::FilterFailed { detail: msg }),
        }
    }

    /// Plans the pass that keeps the configured paths; absent rules mean
    /// no pass.  The output branch must be resolved once rules are present.
    pub fn filter_inclusion(self) -> (r: (Runner, Option<CommandPlan>))
        requires
            self.inclusion_arg_str is Some ==> self.output_branch is Some,
        ensures
            r.0 == self,
            self.inclusion_arg_str is None ==> r.1 is None,
            self.inclusion_arg_str matches Some(a) ==> (r.1 matches Some(p) && filter_plan_matches(
                p,
                self.dry_run,
                filter_arg_vec_spec(a.deep_view(), self.output_branch.unwrap()@),
                "Filtering inclusion"@,
            )),
    {
        let args: Option<Vec<String>> = clone_opt_vec_string(&self.inclusion_arg_str);
        match args {
            None => (self, None),
            Some(a) => {
                let output_branch_name: String = match &self.output_branch {
                    Some(b) => b.clone(),
                    None => unreached(),
                };
                let arg_vec: Vec<&str> = generate_filter_arg_vec(&a, output_branch_name.as_str());
                let (s, plan) = self.run_filter(arg_vec, "Filtering inclusion");
                (s, Some(plan))
            },
        }
    }

    /// Plans the pass that renames the configured path pairs; absent rules
    /// mean no pass.
    pub fn filter_inclusion_as(self) -> (r: (Runner, Option<CommandPlan>))
        requires
            self.inclusion_as_arg_str is Some ==> self.output_branch is Some,
        ensures
            r.0 == self,
            self.inclusion_as_arg_str is None ==> r.1 is None,
            self.inclusion_as_arg_str matches Some(a) ==> (r.1 matches Some(p)
                && filter_plan_matches(
                p,
                self.dry_run,
                filter_arg_vec_spec(a.deep_view(), self.output_branch.unwrap()@),
                "Filtering inclusion_as"@,
            )),
    {
        let args: Option<Vec<String>> = clone_opt_vec_string(&self.inclusion_as_arg_str);
        match args {
            None => (self, None),
            Some(a) => {
                let output_branch_name: String = match &self.output_branch {
                    Some(b) => b.clone(),
                    None => unreached(),
                };
                let arg_vec: Vec<&str> = generate_filter_arg_vec(&a, output_branch_name.as_str());
                let (s, plan) = self.run_filter(arg_vec, "Filtering inclusion_as");
                (s, Some(plan))
            },
        }
    }

    /// Plans the pass that drops the configured paths; absent rules mean
    /// no pass.
    pub fn filter_exclude(self) -> (r: (Runner, Option<CommandPlan>))
        requires
            self.exclude_arg_str is Some ==> self.output_branch is Some,
        ensures
            r.0 == self,
            self.exclude_arg_str is None ==> r.1 is None,
            self.exclude_arg_str matches Some(a) ==> (r.1 matches Some(p) && filter_plan_matches(
                p,
                self.dry_run,
                filter_arg_vec_spec(a.deep_view(), self.output_branch.unwrap()@),
                "Filtering exclude"@,
            )),
    {
        let args: Option<Vec<String>> = clone_opt_vec_string(&self.exclude_arg_str);
        match args {
            None => (self, None),
            Some(a) => {
                let output_branch_name: String = match &self.output_branch {
                    Some(b) => b.clone(),
                    None => unreached(),
                };
                let arg_vec: Vec<&str> = generate_filter_arg_vec(&a, output_branch_name.as_str());
                let (s, plan) = self.run_filter(arg_vec, "Filtering exclude");
                (s, Some(plan))
            },
        }
    }

    /// Plans the reconciliation rebase onto the captured ref.
    pub fn rebase(self) -> (r: (Runner, RebasePlan))
        ensures
            r.0 == self,
            rebase_plan_matches(r.1, self),
    {
        let orig: Option<String> = clone_opt_string(&self.repo_original_ref);
        match orig {
            None => (self, RebasePlan::SkipNoRef),
            Some(branch) => {
                let upstream: String = strip_refs_heads(branch.as_str());
                if self.dry_run {
                    let mut cmd: Vec<String> = Vec::new();
                    push_token(&mut cmd, "git");
                    push_token(&mut cmd, "rebase");
                    push_token(&mut cmd, upstream.as_str());
                    proof {
                        assert(cmd.deep_view() =~~= rebase_tokens(
                            strip_refs_heads_spec(self.repo_original_ref.unwrap()@),
                        ));
                    }
                    (self, RebasePlan::Show { cmd })
                } else {
                    let mut args: Vec<String> = Vec::new();
                    push_token(&mut args, "git");
                    push_token(&mut args, "rebase");
                    push_token(&mut args, upstream.as_str());
                    proof {
                        assert(args.deep_view() =~~= rebase_tokens(
                            strip_refs_heads_spec(self.repo_original_ref.unwrap()@),
                        ));
                    }
                    (self, RebasePlan::Run { args })
                }
            },
        }
    }

    /// Folds the rebase subprocess outcome back in.  A failure is reported
    /// and recorded in the terminal status, and nothing else changes: the
    /// filtering already applied stands.
    pub fn rebase_completed(self, ev: ExecEvent) -> (r: (Runner, Option<String>))
        ensures
            rebase_outcome_matches(self, r.0, r.1, ev),
    {
        match ev {
            ExecEvent::Completed(o) => {
                if o.status == 0 {
                    (self, None)
                } else {
                    let report = first_line(o.stderr.as_str());
                    (Runner { status: 1, ..self }, Some(report))
                }
            },
            ExecEvent::FailedToLaunch(e) => (Runner { status: 1, ..self }, Some(e)),
        }
    }
}

/// Which sub-command runs.
#[derive(Clone, Copy, PartialEq, Eq, Structural, Debug)]
pub enum SplitMode {
    SplitIn,
    SplitOut,
}

/// The named stages, in their fixed order.
#[derive(Clone, Copy, PartialEq, Eq, Structural, Debug)]
pub enum Stage {
    VerifyDependencies,
    SaveCurrentDir,
    DiscoverRepository,
    ChangeToRepoRoot,
    SafeToProceed,
    SaveCurrentRef,
    GetRepoFile,
    BranchPreparation,
    HistoryPopulation,
    FilterInclusion,
    FilterInclusionAs,
    FilterExclude,
    Reconciliation,
}

/// The total, fixed order of the stages: later stages depend on state the
/// earlier ones captured, so no reordering is permitted.  History
/// population runs only for split-in.
pub open spec fn stage_order_spec(mode: SplitMode) -> Seq<Stage> {
    seq![
        Stage::VerifyDependencies,
        Stage::SaveCurrentDir,
        Stage::DiscoverRepository,
        Stage::ChangeToRepoRoot,
        Stage::SafeToProceed,
        Stage::SaveCurrentRef,
        Stage::GetRepoFile,
        Stage::BranchPreparation,
    ] + (if mode is SplitIn {
        seq![Stage::HistoryPopulation]
    } else {
        Seq::<Stage>::empty()
    }) + seq![
        Stage::FilterInclusion,
        Stage::FilterInclusionAs,
        Stage::FilterExclude,
        Stage::Reconciliation,
    ]
}

/// The stage order for one run, for the surrounding program to walk.
pub fn stage_sequence(mode: SplitMode) -> (r: Vec<Stage>)
    ensures
        r@ == stage_order_spec(mode),
{
    let mut v: Vec<Stage> = Vec::new();
    v.push(Stage::VerifyDependencies);
    v.push(Stage::SaveCurrentDir);
    v.push(Stage::DiscoverRepository);
    v.push(Stage::ChangeToRepoRoot);
    v.push(Stage::SafeToProceed);
    v.push(Stage::SaveCurrentRef);
    v.push(Stage::GetRepoFile);
    v.push(Stage::BranchPreparation);
    if mode == SplitMode::SplitIn {
        v.push(Stage::HistoryPopulation);
    }
    v.push(Stage::FilterInclusion);
    v.push(Stage::FilterInclusionAs);
    v.push(Stage::FilterExclude);
    v.push(Stage::Reconciliation);
    proof {
        assert(v@ =~= stage_order_spec(mode));
    }
    v
}

/// The stages that mutate repository state.  Changing the working
/// directory touches only the process, and the remaining stages only read.
pub open spec fn stage_mutates_repository(s: Stage) -> bool {
    ||| s is BranchPreparation
    ||| s is HistoryPopulation
    ||| s is FilterInclusion
    ||| s is FilterInclusionAs
    ||| s is FilterExclude
    ||| s is Reconciliation
}

/// The safety check stands strictly before every repository-mutating
/// stage, so its guarded stop keeps each of them from running.
pub proof fn lemma_safety_check_precedes_mutations(mode: SplitMode)
    ensures
        stage_order_spec(mode)[4] == Stage::SafeToProceed,
        forall|i: int|
            0 <= i < stage_order_spec(mode).len() && stage_mutates_repository(
                #[trigger] stage_order_spec(mode)[i],
            ) ==> i > 4,
{
    assert forall|i: int|
        0 <= i < stage_order_spec(mode).len() && stage_mutates_repository(
            #[trigger] stage_order_spec(mode)[i],
        ) implies i > 4 by {
        if i <= 4 {
            assert(!stage_mutates_repository(stage_order_spec(mode)[i]));
        }
    }
}

/// A completed listing with at least one modified tracked file is the
/// guarded stop, taken with the dedicated exit status.
pub proof fn lemma_dirty_tree_stops_run(res: Result<SafetyCheck, RunError>, ev: ExecEvent)
    requires
        ev matches ExecEvent::Completed(o) && o.status == 0 && o.stdout@.len() > 0,
        safety_outcome_matches(res, ev),
    ensures
        res matches Ok(c) && c is StopUnsafe,
        UNSAFE_EXIT_STATUS == 1,
{
}

/// Dry-run emits command lines only: under an active dry-run flag, every
/// plan a stage yields under its contract is a `Show` plan (or a skip),
/// never a mutation, and the context comes through unchanged.
pub proof fn lemma_dry_run_mutates_nothing(
    r: Runner,
    branch: Seq<char>,
    orphan_res: Result<(Runner, OrphanPlan), RunError>,
    populate_res: Result<(Runner, PopulatePlan), RunError>,
    chdir_plan: ChdirPlan,
    root: Seq<char>,
    filter_plan: CommandPlan,
    filter_args: Seq<Seq<char>>,
    filter_log: Seq<char>,
    rebase_plan: RebasePlan,
)
    requires
        r.dry_run,
        orphan_res matches Ok(t) ==> t.0 == r && orphan_plan_matches(t.1, r.dry_run, branch),
        populate_result_matches(populate_res, r),
        chdir_plan_matches(chdir_plan, r.dry_run, root),
        filter_plan_matches(filter_plan, r.dry_run, filter_args, filter_log),
        rebase_plan_matches(rebase_plan, r),
    ensures
        orphan_res matches Ok(t) ==> t.1 is Show && t.0 == r,
        populate_res matches Ok(t) ==> (t.1 is ShowMerge || t.1 is ShowPull) && t.0 == r,
        chdir_plan is Show,
        filter_plan is Show,
        rebase_plan is SkipNoRef || rebase_plan is Show,
{
}

/// A failed reconciliation rebase leaves the terminal status non-zero and
/// is reported, but nothing else in the context changes: the filtering
/// already applied in the same run stands.
pub proof fn lemma_failed_rebase_keeps_prior_work(
    pre: Runner,
    post: Runner,
    report: Option<String>,
    ev: ExecEvent,
)
    requires
        rebase_outcome_matches(pre, post, report, ev),
        !(ev matches ExecEvent::Completed(o) && o.status == 0),
    ensures
        post.status == 1,
        post == with_status(pre, 1),
        report is Some,
{
}

/// Strips the branch-ref prefix from a captured symbolic ref.
pub fn strip_refs_heads(s: &str) -> (r: String)
    ensures
        r@ == strip_refs_heads_spec(s@),
{
    if str_starts_with(s, "refs/heads/") {
        let n: usize = s.unicode_len();
        proof {
            reveal_strlit("refs/heads/");
        }
        s.substring_char(11, n).to_owned()
    } else {
        s.to_owned()
    }
}

} // verus!
