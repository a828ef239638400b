//! The two deployment workflows as data: each is a fixed, ordered plan of
//! remote commands and file uploads derived from the settings record, and a
//! fail-fast runner that issues the steps one at a time and makes every step
//! after the first failure unreachable. Performing a step (the network I/O)
//! is the caller's business; the runner only decides what comes next.

use vstd::prelude::*;
use crate::commands::{
    chown_cmd, chown_cmd_spec, chown_recursive_cmd, chown_recursive_cmd_spec, extract_entry_cmd,
    extract_entry_cmd_spec, mkdir_p_cmd, mkdir_p_cmd_spec, rm_rf_cmd, rm_rf_cmd_spec,
    rm_static_dir_cmd, rm_static_dir_cmd_spec, run_in_dir_cmd, run_in_dir_cmd_spec,
    service_status_cmd, start_service_cmd, stop_service_cmd, unzip_into_cmd, unzip_into_cmd_spec,
    zip_contains_cmd, zip_contains_cmd_spec,
};
use crate::config::Config;
use crate::errors::{ConfigProblem, DeployError};
use crate::text::{file_name, file_name_of, join_path, joined};

verus! {

/// One step of a deployment plan.
#[derive(Clone)]
pub enum Step {
    /// Run a shell command on the remote host, streaming its output and
    /// honouring cancellation.
    Run { command: String },
    /// Copy the local file `local` to the remote path `remote`.
    Upload { local: String, remote: String },
}

/// `s` runs exactly the command `cmd`.
pub open spec fn is_run(s: Step, cmd: Seq<char>) -> bool {
    match s {
        Step::Run { command } => command@ == cmd,
        _ => false,
    }
}

/// `s` uploads exactly the local file `local` to the remote path `remote`.
pub open spec fn is_upload(s: Step, local: Seq<char>, remote: Seq<char>) -> bool {
    match s {
        Step::Upload { local: l, remote: r } => l@ == local && r@ == remote,
        _ => false,
    }
}

/// The remote scratch path the archive is uploaded to: `/tmp/<file name>`.
pub open spec fn remote_zip_path_of(zip: Seq<char>) -> Seq<char>
    recommends
        file_name_of(zip) is Some,
{
    joined("/tmp"@, file_name_of(zip).unwrap())
}

/// Computes where in the remote scratch directory the archive lands: its own
/// file name under `/tmp`. Fails when the configured archive path has no
/// file name to call the remote copy by.
pub fn remote_zip_path(zip: &str) -> (r: Result<String, DeployError>)
    ensures
        match r {
            Ok(p) => file_name_of(zip@) is Some && p@ == remote_zip_path_of(zip@),
            Err(e) => file_name_of(zip@) is None && e matches DeployError::Config(
                ConfigProblem::NoZipFileName,
            ),
        },
{
    match file_name(zip) {
        Some(name) => Ok(join_path("/tmp", name.as_str())),
        None => Err(DeployError::Config(ConfigProblem::NoZipFileName)),
    }
}

/// The persistence directory inside the unpacked test tree:
/// `<test dir>/rss_r/persistence`.
pub open spec fn test_persistence_dir_of(test_dir: Seq<char>) -> Seq<char> {
    joined(joined(test_dir, "rss_r"@), "persistence"@)
}

/// The five steps of a test deployment, in order: upload the archive to the
/// scratch directory, clear the test directory, unpack the archive into it,
/// create the persistence directory, upload the test settings file into it
/// as `app_config.ron` — and nothing else.
pub open spec fn is_test_deploy_plan(v: Seq<Step>, c: Config) -> bool {
    let rzip = remote_zip_path_of(c.rss_r_zip@);
    let tdir = c.rss_r_target_test_dir@;
    let pdir = test_persistence_dir_of(tdir);
    &&& v.len() == 5
    &&& is_upload(v[0], c.rss_r_zip@, rzip)
    &&& is_run(v[1], rm_rf_cmd_spec(tdir))
    &&& is_run(v[2], unzip_into_cmd_spec(rzip, tdir))
    &&& is_run(v[3], mkdir_p_cmd_spec(pdir))
    &&& is_upload(v[4], c.rss_r_test_config_file@, joined(pdir, "app_config.ron"@))
}

/// Builds the test-deployment plan for `c`.
pub fn test_deploy_steps(c: &Config) -> (r: Result<Vec<Step>, DeployError>)
    ensures
        match r {
            Ok(v) => file_name_of(c.rss_r_zip@) is Some && is_test_deploy_plan(v@, *c),
            Err(e) => file_name_of(c.rss_r_zip@) is None && e matches DeployError::Config(
                ConfigProblem::NoZipFileName,
            ),
        },
{
    let rzip = match remote_zip_path(c.rss_r_zip.as_str()) {
        Ok(p) => p,
        Err(e) => {
            return Err(e);
        },
    };
    let mut v: Vec<Step> = Vec::new();
    v.push(Step::Upload { local: c.rss_r_zip.clone(), remote: rzip.clone() });
    v.push(Step::Run { command: rm_rf_cmd(c.rss_r_target_test_dir.as_str()) });
    v.push(
        Step::Run {
            command: unzip_into_cmd(rzip.as_str(), c.rss_r_target_test_dir.as_str()),
        },
    );
    let app_dir = join_path(c.rss_r_target_test_dir.as_str(), "rss_r");
    let pdir = join_path(app_dir.as_str(), "persistence");
    v.push(Step::Run { command: mkdir_p_cmd(pdir.as_str()) });
    v.push(
        Step::Upload {
            local: c.rss_r_test_config_file.clone(),
            remote: join_path(pdir.as_str(), "app_config.ron"),
        },
    );
    Ok(v)
}

/// The production executable's destination: `<production dir>/rss_r`.
pub open spec fn production_exe_of(prod: Seq<char>) -> Seq<char> {
    joined(prod, "rss_r"@)
}

/// The production static directory: `<production dir>/static`.
pub open spec fn production_static_dir_of(prod: Seq<char>) -> Seq<char> {
    joined(prod, "static"@)
}

/// Index of the archive check for the executable in the production plan.
pub const PROD_STEP_CHECK_EXEC: usize = 2;

/// Index of the static-directory removal in the production plan.
pub const PROD_STEP_RM_STATIC: usize = 4;

/// The eleven steps of a production deployment, in order: stop the service,
/// upload the archive, check the archive lists the executable, check it
/// lists the static directory, remove the old static directory, extract the
/// executable, extract the static subtree, set ownership of both, start the
/// service, surface its status — and nothing else. Both archive checks stand
/// strictly before the destructive static-directory removal.
pub open spec fn is_production_plan(v: Seq<Step>, c: Config) -> bool {
    let rzip = remote_zip_path_of(c.rss_r_zip@);
    let prod = c.rss_r_production_directory@;
    let sdir = production_static_dir_of(prod);
    let user = c.rss_r_production_user@;
    &&& v.len() == 11
    &&& is_run(v[0], "sudo systemctl stop rss_r"@)
    &&& is_upload(v[1], c.rss_r_zip@, rzip)
    &&& is_run(v[2], zip_contains_cmd_spec(rzip, "rss_r/rss_r"@))
    &&& is_run(v[3], zip_contains_cmd_spec(rzip, "rss_r/static/"@))
    &&& is_run(v[4], rm_static_dir_cmd_spec(sdir))
    &&& is_run(v[5], extract_entry_cmd_spec(rzip, "rss_r/rss_r"@, prod))
    &&& is_run(v[6], extract_entry_cmd_spec(rzip, "rss_r/static/*"@, sdir))
    &&& is_run(v[7], chown_cmd_spec(user, production_exe_of(prod)))
    &&& is_run(v[8], chown_recursive_cmd_spec(user, sdir))
    &&& is_run(v[9], "sudo systemctl start rss_r"@)
    &&& is_run(v[10], "systemctl status rss_r"@)
}

/// Builds the production-deployment plan for `c`.
pub fn production_steps(c: &Config) -> (r: Result<Vec<Step>, DeployError>)
    ensures
        match r {
            Ok(v) => file_name_of(c.rss_r_zip@) is Some && is_production_plan(v@, *c),
            Err(e) => file_name_of(c.rss_r_zip@) is None && e matches DeployError::Config(
                ConfigProblem::NoZipFileName,
            ),
        },
{
    let rzip = match remote_zip_path(c.rss_r_zip.as_str()) {
        Ok(p) => p,
        Err(e) => {
            return Err(e);
        },
    };
    let sdir = join_path(c.rss_r_production_directory.as_str(), "static");
    let exe = join_path(c.rss_r_production_directory.as_str(), "rss_r");
    let user = c.rss_r_production_user.as_str();
    let mut v: Vec<Step> = Vec::new();
    v.push(Step::Run { command: stop_service_cmd() });
    v.push(Step::Upload { local: c.rss_r_zip.clone(), remote: rzip.clone() });
    v.push(Step::Run { command: zip_contains_cmd(rzip.as_str(), "rss_r/rss_r") });
    v.push(Step::Run { command: zip_contains_cmd(rzip.as_str(), "rss_r/static/") });
    v.push(Step::Run { command: rm_static_dir_cmd(sdir.as_str()) });
    v.push(
        Step::Run {
            command: extract_entry_cmd(
                rzip.as_str(),
                "rss_r/rss_r",
                c.rss_r_production_directory.as_str(),
            ),
        },
    );
    v.push(
        Step::Run {
            command: extract_entry_cmd(rzip.as_str(), "rss_r/static/*", sdir.as_str()),
        },
    );
    v.push(Step::Run { command: chown_cmd(user, exe.as_str()) });
    v.push(Step::Run { command: chown_recursive_cmd(user, sdir.as_str()) });
    v.push(Step::Run { command: start_service_cmd() });
    v.push(Step::Run { command: service_status_cmd() });
    Ok(v)
}

/// The command a separate invocation uses to run the unpacked executable in
/// the test directory: working directory set to the unpacked application
/// root, so the program finds its persistence and config files.
pub open spec fn run_test_cmd_spec(test_dir: Seq<char>) -> Seq<char> {
    run_in_dir_cmd_spec(
        joined(test_dir, "rss_r"@),
        joined(joined(test_dir, "rss_r"@), "rss_r"@),
    )
}

/// Builds the command that runs the unpacked executable in the test tree.
pub fn run_test_command(c: &Config) -> (r: String)
    ensures
        r@ == run_test_cmd_spec(c.rss_r_target_test_dir@),
{
    let working_dir = join_path(c.rss_r_target_test_dir.as_str(), "rss_r");
    let exe = join_path(working_dir.as_str(), "rss_r");
    run_in_dir_cmd(working_dir.as_str(), exe.as_str())
}

/// Drives one plan, fail-fast: the caller asks for the current step,
/// performs it, and reports whether it succeeded; the first failure makes
/// every later step unreachable.
pub struct WorkflowRun {
    /// The steps of the plan, in order.
    pub plan: Vec<Step>,
    /// How many steps completed; also the index of the next step to issue.
    pub next: usize,
    /// Whether a step has failed.
    pub failed: bool,
}

impl WorkflowRun {
    /// A step may still be issued: nothing failed and steps remain.
    pub open spec fn in_progress(self) -> bool {
        !self.failed && self.next < self.plan@.len()
    }

    /// The step the run issues next, if any: after a failure, or past the
    /// end of the plan, there is none.
    pub open spec fn current_spec(self) -> Option<Step> {
        if self.in_progress() {
            Some(self.plan@[self.next as int])
        } else {
            None
        }
    }

    /// The whole plan ran: every step was issued and none failed.
    pub open spec fn succeeded(self) -> bool {
        !self.failed && self.next == self.plan@.len()
    }

    /// A fresh run of `plan`, at its first step.
    pub fn new(plan: Vec<Step>) -> (r: WorkflowRun)
        ensures
            r.plan == plan,
            r.next == 0,
            !r.failed,
    {
        WorkflowRun { plan, next: 0, failed: false }
    }

    /// The next step to perform, or `None` when the run is over — because
    /// the plan is exhausted or because a step failed.
    pub fn current(&self) -> (r: Option<&Step>)
        ensures
            match r {
                Some(s) => self.current_spec() == Some(*s),
                None => self.current_spec() is None,
            },
    {
        if !self.failed && self.next < self.plan.len() {
            Some(&self.plan[self.next])
        } else {
            None
        }
    }

    /// Records the outcome of the current step: success moves on to the
    /// next step, failure ends the run with every later step unissued.
    pub fn advance(&mut self, succeeded: bool)
        requires
            old(self).in_progress(),
        ensures
            final(self).plan == old(self).plan,
            succeeded ==> !final(self).failed && final(self).next == old(self).next + 1,
            !succeeded ==> final(self).failed && final(self).next == old(self).next,
    {
        if succeeded {
            let n = self.plan.len();
            proof {
                assert(self.next < n);
            }
            self.next = self.next + 1;
        } else {
            self.failed = true;
        }
    }

    /// Whether the run ended with every step done and none failed.
    pub fn finished_ok(&self) -> (r: bool)
        ensures
            r == self.succeeded(),
    {
        !self.failed && self.next == self.plan.len()
    }
}

/// Fail-fast: once any step of a run has failed, no step is current any
/// more, so every step after the failed one stays unissued. Together with
/// `WorkflowRun::advance`, which never moves `next` past a failure, this is
/// the "first error aborts all later stages" policy of both workflows.
pub proof fn lemma_fail_fast(w: WorkflowRun)
    requires
        w.failed,
    ensures
        w.current_spec() is None,
        !w.in_progress(),
{
}

/// In the production plan the archive check for the executable stands
/// strictly before the removal of the static-assets directory: a run that
/// fails on that check — or anywhere before it — never issues the removal,
/// nor anything after it. The destructive step is unreachable until both
/// archive checks have passed.
pub proof fn lemma_production_abort_before_static_removal(c: Config, w: WorkflowRun)
    requires
        is_production_plan(w.plan@, c),
        w.failed,
        w.next <= PROD_STEP_CHECK_EXEC,
    ensures
        w.current_spec() is None,
        w.next < PROD_STEP_RM_STATIC,
        is_run(
            w.plan@[PROD_STEP_CHECK_EXEC as int],
            zip_contains_cmd_spec(remote_zip_path_of(c.rss_r_zip@), "rss_r/rss_r"@),
        ),
        is_run(
            w.plan@[PROD_STEP_RM_STATIC as int],
            rm_static_dir_cmd_spec(production_static_dir_of(c.rss_r_production_directory@)),
        ),
{
}

} // verus!
