//! The error kinds a deployment run can end with. Every error is fatal: the
//! run that hits one aborts at once, nothing is retried or rolled back.

use vstd::prelude::*;
use crate::text::int_str;

verus! {

/// What configuration validation, or a local-file precondition checked
/// before any network activity, found wrong.
#[derive(Clone, Copy, PartialEq, Eq, Structural, Debug)]
pub enum ConfigProblem {
    /// The target host field is empty.
    EmptyHost,
    /// The username field is empty.
    EmptyUsername,
    /// Key-file authentication is selected but the key file does not exist.
    MissingKeyFile,
    /// The packaged application archive does not exist.
    MissingZip,
    /// The remote test directory field is empty.
    EmptyTestDir,
    /// The test-mode settings file does not exist.
    MissingTestConfig,
    /// The remote production directory field is empty.
    EmptyProductionDir,
    /// The production owner field is empty.
    EmptyProductionUser,
    /// The archive path ends without a file name to call the remote copy by.
    NoZipFileName,
    /// A local file handed to an upload could not be opened.
    MissingLocalFile,
}

/// An error of one deployment run.
pub enum DeployError {
    /// Missing or invalid local configuration or files; raised before any
    /// network call.
    Config(ConfigProblem),
    /// The transport to `host:port` could not be established.
    Connection,
    /// Protocol negotiation failed after the transport came up.
    Handshake,
    /// The credential was rejected.
    Auth,
    /// A remote command exited with a nonzero status. Carries the command
    /// text, the remote exit code, and the captured standard error when the
    /// command ran in buffered mode.
    Command { command: String, exit_code: i32, stderr: Option<Vec<u8>> },
    /// I/O failed while copying a file to the remote host.
    Transfer,
}

/// The fixed description of each configuration problem.
pub open spec fn config_problem_message(p: ConfigProblem) -> Seq<char> {
    match p {
        ConfigProblem::EmptyHost => "Please configure a target host."@,
        ConfigProblem::EmptyUsername => "Please configure a username."@,
        ConfigProblem::MissingKeyFile => "The configured key file does not exist."@,
        ConfigProblem::MissingZip => "rss_r package zip does not exist."@,
        ConfigProblem::EmptyTestDir => "Please configure a target directory for testing."@,
        ConfigProblem::MissingTestConfig => "The test config file does not exist."@,
        ConfigProblem::EmptyProductionDir => "Please configure a target directory for production."@,
        ConfigProblem::EmptyProductionUser => "Please configure a production user."@,
        ConfigProblem::NoZipFileName => "Cannot upload file, path does not have file name."@,
        ConfigProblem::MissingLocalFile => "Cannot open local file."@,
    }
}

/// The human-readable description of an error.
pub open spec fn message_of(e: DeployError) -> Seq<char> {
    match e {
        DeployError::Config(p) => config_problem_message(p),
        DeployError::Connection => "Could not connect to the target host."@,
        DeployError::Handshake => "Protocol handshake with the target host failed."@,
        DeployError::Auth => "Authentication was rejected by the target host."@,
        DeployError::Command { command, exit_code, stderr: _ } => "command `"@ + command@
            + "` failed with exit code `"@ + int_str(exit_code as int) + "`"@,
        DeployError::Transfer => "Uploading a file to the target host failed."@,
    }
}

impl ConfigProblem {
    /// The fixed description of the problem.
    pub fn message(&self) -> (r: String)
        ensures
            r@ == config_problem_message(*self),
    {
        match self {
            ConfigProblem::EmptyHost => String::from_str("Please configure a target host."),
            ConfigProblem::EmptyUsername => String::from_str("Please configure a username."),
            ConfigProblem::MissingKeyFile => String::from_str(
                "The configured key file does not exist.",
            ),
            ConfigProblem::MissingZip => String::from_str("rss_r package zip does not exist."),
            ConfigProblem::EmptyTestDir => String::from_str(
                "Please configure a target directory for testing.",
            ),
            ConfigProblem::MissingTestConfig => String::from_str(
                "The test config file does not exist.",
            ),
            ConfigProblem::EmptyProductionDir => String::from_str(
                "Please configure a target directory for production.",
            ),
            ConfigProblem::EmptyProductionUser => String::from_str(
                "Please configure a production user.",
            ),
            ConfigProblem::NoZipFileName => String::from_str(
                "Cannot upload file, path does not have file name.",
            ),
            ConfigProblem::MissingLocalFile => String::from_str("Cannot open local file."),
        }
    }
}

impl DeployError {
    /// The human-readable description printed at the top level before the
    /// process exits nonzero.
    pub fn message(&self) -> (r: String)
        ensures
            r@ == message_of(*self),
    {
        match self {
            DeployError::Config(p) => p.message(),
            DeployError::Connection => String::from_str("Could not connect to the target host."),
            DeployError::Handshake => String::from_str(
                "Protocol handshake with the target host failed.",
            ),
            DeployError::Auth => String::from_str("Authentication was rejected by the target host."),
            DeployError::Command { command, exit_code, stderr: _ } => {
                let mut r = String::from_str("command `");
                r.append(command.as_str());
                r.append("` failed with exit code `");
                let code = crate::text::i32_to_dec(*exit_code);
                r.append(code.as_str());
                r.append("`");
                proof {
                    assert(r@ =~= message_of(*self));
                }
                r
            },
            DeployError::Transfer => String::from_str("Uploading a file to the target host failed."),
        }
    }
}

} // verus!
