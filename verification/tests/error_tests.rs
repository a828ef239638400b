use rss_deploy::errors::{ConfigProblem, DeployError};

#[test]
fn config_problem_messages_are_fixed() {
    assert_eq!(ConfigProblem::EmptyHost.message(), "Please configure a target host.");
    assert_eq!(ConfigProblem::EmptyUsername.message(), "Please configure a username.");
    assert_eq!(ConfigProblem::MissingKeyFile.message(), "The configured key file does not exist.");
    assert_eq!(ConfigProblem::MissingZip.message(), "rss_r package zip does not exist.");
    assert_eq!(
        ConfigProblem::EmptyTestDir.message(),
        "Please configure a target directory for testing."
    );
    assert_eq!(
        ConfigProblem::MissingTestConfig.message(),
        "The test config file does not exist."
    );
    assert_eq!(
        ConfigProblem::EmptyProductionDir.message(),
        "Please configure a target directory for production."
    );
    assert_eq!(
        ConfigProblem::EmptyProductionUser.message(),
        "Please configure a production user."
    );
    assert_eq!(
        ConfigProblem::NoZipFileName.message(),
        "Cannot upload file, path does not have file name."
    );
    assert_eq!(ConfigProblem::MissingLocalFile.message(), "Cannot open local file.");
}

#[test]
fn command_error_message_embeds_command_and_exit_code() {
    let e = DeployError::Command {
        command: String::from("exit 7"),
        exit_code: 7,
        stderr: None,
    };
    assert_eq!(e.message(), "command `exit 7` failed with exit code `7`");
}

#[test]
fn command_error_message_renders_negative_codes() {
    let e = DeployError::Command {
        command: String::from("run"),
        exit_code: -9,
        stderr: Some(b"killed".to_vec()),
    };
    assert_eq!(e.message(), "command `run` failed with exit code `-9`");
}

#[test]
fn session_error_messages_are_fixed() {
    assert_eq!(
        DeployError::Config(ConfigProblem::EmptyHost).message(),
        "Please configure a target host."
    );
    assert_eq!(DeployError::Connection.message(), "Could not connect to the target host.");
    assert_eq!(DeployError::Handshake.message(), "Protocol handshake with the target host failed.");
    assert_eq!(DeployError::Auth.message(), "Authentication was rejected by the target host.");
    assert_eq!(DeployError::Transfer.message(), "Uploading a file to the target host failed.");
}
