//! The validated settings record one deployment run works from, and its
//! validation. Reading the record from disk and writing it back are the
//! caller's business; validation here is pure and runs before any network
//! call, on the record plus what the caller probed on the local disk.

use vstd::prelude::*;
use crate::errors::ConfigProblem;
use crate::text::dec_str;

verus! {

/// How the run authenticates against the target host.
pub enum AuthMethod {
    /// Delegate to whatever identity a running local agent already holds.
    Agent,
    /// Read a private key from `path`; its passphrase is asked for at
    /// connect time.
    KeyFile { path: String },
}

/// The settings record for one deployment run. Field names match the keys of
/// the on-disk settings file.
pub struct Config {
    /// Host the packaged application is deployed to: a hostname or address.
    pub target_host: String,
    /// Port of the secure-shell service on the target, 22 by default. The
    /// field keeps the key name the settings file has always used.
    pub target_ip: u32,
    /// Username to log in as on the target.
    pub username: String,
    /// Credential source used when logging in.
    pub auth: AuthMethod,
    /// Local archive that holds the built `rss_r` executable and its
    /// `resources` directory.
    pub rss_r_zip: String,
    /// Remote directory a test deployment unpacks into; it is emptied first.
    pub rss_r_target_test_dir: String,
    /// Local file that becomes the application's `app_config.ron` when it is
    /// being tested on the target.
    pub rss_r_test_config_file: String,
    /// Remote directory of the production executable and `static` directory.
    pub rss_r_production_directory: String,
    /// Owner given to the production files, as in `chown name:name file`.
    pub rss_r_production_user: String,
}

impl Default for Config {
    /// An empty record with only the port filled in; the caller writes it to
    /// disk on first run for the administrator to complete.
    fn default() -> (c: Config)
        ensures
            c.target_host@ == Seq::<char>::empty(),
            c.target_ip == 22,
            c.username@ == Seq::<char>::empty(),
            c.auth is Agent,
            c.rss_r_zip@ == Seq::<char>::empty(),
            c.rss_r_target_test_dir@ == Seq::<char>::empty(),
            c.rss_r_test_config_file@ == Seq::<char>::empty(),
            c.rss_r_production_directory@ == Seq::<char>::empty(),
            c.rss_r_production_user@ == Seq::<char>::empty(),
    {
        Config {
            target_host: String::new(),
            target_ip: 22,
            username: String::new(),
            auth: AuthMethod::Agent,
            rss_r_zip: String::new(),
            rss_r_target_test_dir: String::new(),
            rss_r_test_config_file: String::new(),
            rss_r_production_directory: String::new(),
            rss_r_production_user: String::new(),
        }
    }
}

/// The `host:port` address the transport connects to.
pub open spec fn host_and_port_of(c: Config) -> Seq<char> {
    c.target_host@ + ":"@ + dec_str(c.target_ip as nat)
}

impl Config {
    /// The `host:port` string the transport connects to.
    pub fn host_and_port(&self) -> (r: String)
        ensures
            r@ == host_and_port_of(*self),
    {
        let mut r = String::from_str(self.target_host.as_str());
        r.append(":");
        let port = crate::text::u32_to_dec(self.target_ip);
        r.append(port.as_str());
        proof {
            assert(r@ =~= host_and_port_of(*self));
        }
        r
    }
}

/// What the caller probed on the local disk before validation.
#[derive(Clone, Copy, PartialEq, Eq, Structural, Debug)]
pub struct LocalProbe {
    /// Whether the configured application archive exists.
    pub zip_exists: bool,
    /// Whether the configured test-mode settings file exists.
    pub test_config_exists: bool,
    /// Whether the configured key file exists. Consulted only when the
    /// credential source is a key file.
    pub key_file_exists: bool,
}

/// The first problem of the record, checked in a fixed order: host, username,
/// key file (when key-file authentication is selected), archive, test
/// directory, test settings file, production directory, production owner.
pub open spec fn config_problem_of(c: Config, probe: LocalProbe) -> Option<ConfigProblem> {
    if c.target_host@.len() == 0 {
        Some(ConfigProblem::EmptyHost)
    } else if c.username@.len() == 0 {
        Some(ConfigProblem::EmptyUsername)
    } else if c.auth is KeyFile && !probe.key_file_exists {
        Some(ConfigProblem::MissingKeyFile)
    } else if !probe.zip_exists {
        Some(ConfigProblem::MissingZip)
    } else if c.rss_r_target_test_dir@.len() == 0 {
        Some(ConfigProblem::EmptyTestDir)
    } else if !probe.test_config_exists {
        Some(ConfigProblem::MissingTestConfig)
    } else if c.rss_r_production_directory@.len() == 0 {
        Some(ConfigProblem::EmptyProductionDir)
    } else if c.rss_r_production_user@.len() == 0 {
        Some(ConfigProblem::EmptyProductionUser)
    } else {
        None
    }
}

/// Validates the record against what the caller probed on disk, and reports
/// the first problem found. Runs before any network call; a run whose record
/// is rejected here never opens a connection.
pub fn verify_config(c: &Config, probe: LocalProbe) -> (r: Result<(), ConfigProblem>)
    ensures
        match r {
            Ok(()) => config_problem_of(*c, probe) is None,
            Err(p) => config_problem_of(*c, probe) == Some(p),
        },
{
    if c.target_host.as_str().is_empty() {
        return Err(ConfigProblem::EmptyHost);
    }
    if c.username.as_str().is_empty() {
        return Err(ConfigProblem::EmptyUsername);
    }
    let key_file_missing = match &c.auth {
        AuthMethod::KeyFile { path: _ } => !probe.key_file_exists,
        AuthMethod::Agent => false,
    };
    if key_file_missing {
        return Err(ConfigProblem::MissingKeyFile);
    }
    if !probe.zip_exists {
        return Err(ConfigProblem::MissingZip);
    }
    if c.rss_r_target_test_dir.as_str().is_empty() {
        return Err(ConfigProblem::EmptyTestDir);
    }
    if !probe.test_config_exists {
        return Err(ConfigProblem::MissingTestConfig);
    }
    if c.rss_r_production_directory.as_str().is_empty() {
        return Err(ConfigProblem::EmptyProductionDir);
    }
    if c.rss_r_production_user.as_str().is_empty() {
        return Err(ConfigProblem::EmptyProductionUser);
    }
    Ok(())
}

} // verus!
