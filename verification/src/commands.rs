//! Builders for the literal POSIX shell commands a deployment run issues on
//! the remote host. Every builder's contract gives the produced command
//! exactly, character for character; path and user arguments are embedded in
//! single quotes where the workflows quote them.

use vstd::prelude::*;
use crate::text::{quoted, sh_quote};

verus! {

/// `unzip -l '<zip>' | grep -q '<entry>'`: succeeds exactly when the listing
/// of the uploaded archive mentions `entry`.
pub open spec fn zip_contains_cmd_spec(zip: Seq<char>, entry: Seq<char>) -> Seq<char> {
    "unzip -l "@ + quoted(zip) + " | grep -q "@ + quoted(entry)
}

/// Builds the archive-content check command.
pub fn zip_contains_cmd(zip: &str, entry: &str) -> (r: String)
    ensures
        r@ == zip_contains_cmd_spec(zip@, entry@),
{
    let mut r = String::from_str("unzip -l ");
    let q_zip = sh_quote(zip);
    r.append(q_zip.as_str());
    r.append(" | grep -q ");
    let q_entry = sh_quote(entry);
    r.append(q_entry.as_str());
    proof {
        assert(r@ =~= zip_contains_cmd_spec(zip@, entry@));
    }
    r
}

/// `rm -rf '<dir>'`: clears a test directory, absent or not.
pub open spec fn rm_rf_cmd_spec(dir: Seq<char>) -> Seq<char> {
    "rm -rf "@ + quoted(dir)
}

/// Builds the recursive forced removal command.
pub fn rm_rf_cmd(dir: &str) -> (r: String)
    ensures
        r@ == rm_rf_cmd_spec(dir@),
{
    let mut r = String::from_str("rm -rf ");
    let q = sh_quote(dir);
    r.append(q.as_str());
    proof {
        assert(r@ =~= rm_rf_cmd_spec(dir@));
    }
    r
}

/// `sudo rm -r '<dir>'`: removes the old production static directory. It
/// fails when the directory is already absent; the workflow inherits that
/// behaviour deliberately rather than papering over it.
pub open spec fn rm_static_dir_cmd_spec(dir: Seq<char>) -> Seq<char> {
    "sudo rm -r "@ + quoted(dir)
}

/// Builds the static-directory removal command.
pub fn rm_static_dir_cmd(dir: &str) -> (r: String)
    ensures
        r@ == rm_static_dir_cmd_spec(dir@),
{
    let mut r = String::from_str("sudo rm -r ");
    let q = sh_quote(dir);
    r.append(q.as_str());
    proof {
        assert(r@ =~= rm_static_dir_cmd_spec(dir@));
    }
    r
}

/// `unzip '<zip>' -d '<dir>'`: unpacks the whole archive into `dir`.
pub open spec fn unzip_into_cmd_spec(zip: Seq<char>, dir: Seq<char>) -> Seq<char> {
    "unzip "@ + quoted(zip) + " -d "@ + quoted(dir)
}

/// Builds the full-unpack command.
pub fn unzip_into_cmd(zip: &str, dir: &str) -> (r: String)
    ensures
        r@ == unzip_into_cmd_spec(zip@, dir@),
{
    let mut r = String::from_str("unzip ");
    let q_zip = sh_quote(zip);
    r.append(q_zip.as_str());
    r.append(" -d ");
    let q_dir = sh_quote(dir);
    r.append(q_dir.as_str());
    proof {
        assert(r@ =~= unzip_into_cmd_spec(zip@, dir@));
    }
    r
}

/// `mkdir -p '<dir>'`: creates the persistence directory, parents included.
pub open spec fn mkdir_p_cmd_spec(dir: Seq<char>) -> Seq<char> {
    "mkdir -p "@ + quoted(dir)
}

/// Builds the directory-creation command.
pub fn mkdir_p_cmd(dir: &str) -> (r: String)
    ensures
        r@ == mkdir_p_cmd_spec(dir@),
{
    let mut r = String::from_str("mkdir -p ");
    let q = sh_quote(dir);
    r.append(q.as_str());
    proof {
        assert(r@ =~= mkdir_p_cmd_spec(dir@));
    }
    r
}

/// `sudo unzip -j -o '<zip>' '<entry>' -d <dest>`: extracts only the entries
/// matching `entry` flat into `dest`, overwriting without prompting. The
/// destination is passed to the shell unquoted.
pub open spec fn extract_entry_cmd_spec(zip: Seq<char>, entry: Seq<char>, dest: Seq<char>) -> Seq<
    char,
> {
    "sudo unzip -j -o "@ + quoted(zip) + " "@ + quoted(entry) + " -d "@ + dest
}

/// Builds the flat-extraction command.
pub fn extract_entry_cmd(zip: &str, entry: &str, dest: &str) -> (r: String)
    ensures
        r@ == extract_entry_cmd_spec(zip@, entry@, dest@),
{
    let mut r = String::from_str("sudo unzip -j -o ");
    let q_zip = sh_quote(zip);
    r.append(q_zip.as_str());
    r.append(" ");
    let q_entry = sh_quote(entry);
    r.append(q_entry.as_str());
    r.append(" -d ");
    r.append(dest);
    proof {
        assert(r@ =~= extract_entry_cmd_spec(zip@, entry@, dest@));
    }
    r
}

/// `sudo chown '<user>':'<user>' '<path>'`: hands one file to the
/// production owner.
pub open spec fn chown_cmd_spec(user: Seq<char>, path: Seq<char>) -> Seq<char> {
    "sudo chown "@ + quoted(user) + ":"@ + quoted(user) + " "@ + quoted(path)
}

/// Builds the single-file ownership command.
pub fn chown_cmd(user: &str, path: &str) -> (r: String)
    ensures
        r@ == chown_cmd_spec(user@, path@),
{
    let mut r = String::from_str("sudo chown ");
    let q_user = sh_quote(user);
    r.append(q_user.as_str());
    r.append(":");
    r.append(q_user.as_str());
    r.append(" ");
    let q_path = sh_quote(path);
    r.append(q_path.as_str());
    proof {
        assert(r@ =~= chown_cmd_spec(user@, path@));
    }
    r
}

/// `sudo chown -R '<user>':'<user>' '<path>'`: hands a directory tree to the
/// production owner.
pub open spec fn chown_recursive_cmd_spec(user: Seq<char>, path: Seq<char>) -> Seq<char> {
    "sudo chown -R "@ + quoted(user) + ":"@ + quoted(user) + " "@ + quoted(path)
}

/// Builds the recursive ownership command.
pub fn chown_recursive_cmd(user: &str, path: &str) -> (r: String)
    ensures
        r@ == chown_recursive_cmd_spec(user@, path@),
{
    let mut r = String::from_str("sudo chown -R ");
    let q_user = sh_quote(user);
    r.append(q_user.as_str());
    r.append(":");
    r.append(q_user.as_str());
    r.append(" ");
    let q_path = sh_quote(path);
    r.append(q_path.as_str());
    proof {
        assert(r@ =~= chown_recursive_cmd_spec(user@, path@));
    }
    r
}

/// `cd '<dir>'; '<exe>'`: runs `exe` with `dir` as its working directory.
pub open spec fn run_in_dir_cmd_spec(dir: Seq<char>, exe: Seq<char>) -> Seq<char> {
    "cd "@ + quoted(dir) + "; "@ + quoted(exe)
}

/// Builds the run-in-directory command.
pub fn run_in_dir_cmd(dir: &str, exe: &str) -> (r: String)
    ensures
        r@ == run_in_dir_cmd_spec(dir@, exe@),
{
    let mut r = String::from_str("cd ");
    let q_dir = sh_quote(dir);
    r.append(q_dir.as_str());
    r.append("; ");
    let q_exe = sh_quote(exe);
    r.append(q_exe.as_str());
    proof {
        assert(r@ =~= run_in_dir_cmd_spec(dir@, exe@));
    }
    r
}

/// `sudo systemctl stop rss_r`: stops the production service.
pub fn stop_service_cmd() -> (r: String)
    ensures
        r@ == "sudo systemctl stop rss_r"@,
{
    String::from_str("sudo systemctl stop rss_r")
}

/// `sudo systemctl start rss_r`: starts the production service.
pub fn start_service_cmd() -> (r: String)
    ensures
        r@ == "sudo systemctl start rss_r"@,
{
    String::from_str("sudo systemctl start rss_r")
}

/// `systemctl status rss_r`: surfaces the service status after a deploy.
pub fn service_status_cmd() -> (r: String)
    ensures
        r@ == "systemctl status rss_r"@,
{
    String::from_str("systemctl status rss_r")
}

} // verus!
