use rss_deploy::commands::{
    chown_cmd, chown_recursive_cmd, extract_entry_cmd, mkdir_p_cmd, rm_rf_cmd, rm_static_dir_cmd,
    run_in_dir_cmd, service_status_cmd, start_service_cmd, stop_service_cmd, unzip_into_cmd,
    zip_contains_cmd,
};

#[test]
fn archive_content_check_command() {
    assert_eq!(
        zip_contains_cmd("/tmp/rss_r.zip", "rss_r/rss_r"),
        "unzip -l '/tmp/rss_r.zip' | grep -q 'rss_r/rss_r'"
    );
}

#[test]
fn test_dir_removal_command() {
    assert_eq!(rm_rf_cmd("/home/deploy/rss_r_test"), "rm -rf '/home/deploy/rss_r_test'");
}

#[test]
fn static_dir_removal_command() {
    assert_eq!(rm_static_dir_cmd("/opt/rss_r/static"), "sudo rm -r '/opt/rss_r/static'");
}

#[test]
fn full_unpack_command() {
    assert_eq!(
        unzip_into_cmd("/tmp/rss_r.zip", "/home/deploy/rss_r_test"),
        "unzip '/tmp/rss_r.zip' -d '/home/deploy/rss_r_test'"
    );
}

#[test]
fn persistence_dir_creation_command() {
    assert_eq!(
        mkdir_p_cmd("/home/deploy/rss_r_test/rss_r/persistence"),
        "mkdir -p '/home/deploy/rss_r_test/rss_r/persistence'"
    );
}

#[test]
fn flat_extraction_command() {
    assert_eq!(
        extract_entry_cmd("/tmp/rss_r.zip", "rss_r/rss_r", "/opt/rss_r"),
        "sudo unzip -j -o '/tmp/rss_r.zip' 'rss_r/rss_r' -d /opt/rss_r"
    );
    assert_eq!(
        extract_entry_cmd("/tmp/rss_r.zip", "rss_r/static/*", "/opt/rss_r/static"),
        "sudo unzip -j -o '/tmp/rss_r.zip' 'rss_r/static/*' -d /opt/rss_r/static"
    );
}

#[test]
fn ownership_commands() {
    assert_eq!(chown_cmd("rss", "/opt/rss_r/rss_r"), "sudo chown 'rss':'rss' '/opt/rss_r/rss_r'");
    assert_eq!(
        chown_recursive_cmd("rss", "/opt/rss_r/static"),
        "sudo chown -R 'rss':'rss' '/opt/rss_r/static'"
    );
}

#[test]
fn run_in_dir_command() {
    assert_eq!(
        run_in_dir_cmd("/t/rss_r", "/t/rss_r/rss_r"),
        "cd '/t/rss_r'; '/t/rss_r/rss_r'"
    );
}

#[test]
fn service_commands() {
    assert_eq!(stop_service_cmd(), "sudo systemctl stop rss_r");
    assert_eq!(start_service_cmd(), "sudo systemctl start rss_r");
    assert_eq!(service_status_cmd(), "systemctl status rss_r");
}
