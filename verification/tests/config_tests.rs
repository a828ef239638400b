use rss_deploy::config::{verify_config, AuthMethod, Config, LocalProbe};
use rss_deploy::errors::ConfigProblem;

fn filled_config() -> Config {
    Config {
        target_host: String::from("testhost.example"),
        target_ip: 22,
        username: String::from("deploy"),
        auth: AuthMethod::Agent,
        rss_r_zip: String::from("build/rss_r.zip"),
        rss_r_target_test_dir: String::from("/home/deploy/rss_r_test"),
        rss_r_test_config_file: String::from("test_app_config.ron"),
        rss_r_production_directory: String::from("/opt/rss_r"),
        rss_r_production_user: String::from("rss"),
    }
}

fn all_files_present() -> LocalProbe {
    LocalProbe { zip_exists: true, test_config_exists: true, key_file_exists: true }
}

#[test]
fn default_config_is_empty_with_port_22() {
    let c = Config::default();
    assert_eq!(c.target_host, "");
    assert_eq!(c.target_ip, 22);
    assert_eq!(c.username, "");
    assert!(matches!(c.auth, AuthMethod::Agent));
    assert_eq!(c.rss_r_zip, "");
    assert_eq!(c.rss_r_target_test_dir, "");
    assert_eq!(c.rss_r_test_config_file, "");
    assert_eq!(c.rss_r_production_directory, "");
    assert_eq!(c.rss_r_production_user, "");
}

#[test]
fn host_and_port_formats_address() {
    let mut c = filled_config();
    assert_eq!(c.host_and_port(), "testhost.example:22");
    c.target_ip = 8022;
    assert_eq!(c.host_and_port(), "testhost.example:8022");
    c.target_ip = 0;
    assert_eq!(c.host_and_port(), "testhost.example:0");
}

#[test]
fn valid_config_passes_validation() {
    let c = filled_config();
    assert!(verify_config(&c, all_files_present()).is_ok());
}

#[test]
fn empty_host_is_rejected() {
    let mut c = filled_config();
    c.target_host = String::new();
    assert_eq!(verify_config(&c, all_files_present()), Err(ConfigProblem::EmptyHost));
}

#[test]
fn empty_username_is_rejected() {
    let mut c = filled_config();
    c.username = String::new();
    assert_eq!(verify_config(&c, all_files_present()), Err(ConfigProblem::EmptyUsername));
}

#[test]
fn missing_zip_is_rejected() {
    let c = filled_config();
    let probe = LocalProbe { zip_exists: false, ..all_files_present() };
    assert_eq!(verify_config(&c, probe), Err(ConfigProblem::MissingZip));
}

#[test]
fn empty_test_dir_is_rejected() {
    let mut c = filled_config();
    c.rss_r_target_test_dir = String::new();
    assert_eq!(verify_config(&c, all_files_present()), Err(ConfigProblem::EmptyTestDir));
}

#[test]
fn missing_test_config_is_rejected() {
    let c = filled_config();
    let probe = LocalProbe { test_config_exists: false, ..all_files_present() };
    assert_eq!(verify_config(&c, probe), Err(ConfigProblem::MissingTestConfig));
}

#[test]
fn empty_production_dir_is_rejected() {
    let mut c = filled_config();
    c.rss_r_production_directory = String::new();
    assert_eq!(verify_config(&c, all_files_present()), Err(ConfigProblem::EmptyProductionDir));
}

#[test]
fn empty_production_user_is_rejected() {
    let mut c = filled_config();
    c.rss_r_production_user = String::new();
    assert_eq!(verify_config(&c, all_files_present()), Err(ConfigProblem::EmptyProductionUser));
}

#[test]
fn missing_key_file_is_rejected_when_key_auth_selected() {
    let mut c = filled_config();
    c.auth = AuthMethod::KeyFile { path: String::from("/home/deploy/.ssh/id_ed25519") };
    let probe = LocalProbe { key_file_exists: false, ..all_files_present() };
    assert_eq!(verify_config(&c, probe), Err(ConfigProblem::MissingKeyFile));
}

#[test]
fn key_file_probe_is_ignored_for_agent_auth() {
    let c = filled_config();
    let probe = LocalProbe { key_file_exists: false, ..all_files_present() };
    assert!(verify_config(&c, probe).is_ok());
}

#[test]
fn first_problem_wins_in_fixed_order() {
    let mut c = filled_config();
    c.target_host = String::new();
    c.username = String::new();
    c.rss_r_production_user = String::new();
    assert_eq!(verify_config(&c, all_files_present()), Err(ConfigProblem::EmptyHost));
}
