use rss_deploy::errors::{ConfigProblem, DeployError};
use rss_deploy::transfer::prepare_upload;

#[test]
fn unreadable_local_file_fails_before_any_network_activity() {
    match prepare_upload("/tmp/rss_r.zip", None) {
        Ok(_) => panic!("a missing local file must be rejected"),
        Err(e) => assert!(matches!(e, DeployError::Config(ConfigProblem::MissingLocalFile))),
    }
}

#[test]
fn empty_file_announces_length_zero() {
    let (descriptor, bytes) = match prepare_upload("/tmp/empty.zip", Some(Vec::new())) {
        Ok(pair) => pair,
        Err(_) => panic!("readable contents must be accepted"),
    };
    assert_eq!(descriptor.remote_path, "/tmp/empty.zip");
    assert_eq!(descriptor.byte_len, 0);
    assert_eq!(descriptor.mode, 0o644);
    assert!(bytes.is_empty());
}

#[test]
fn one_byte_file_announces_length_one() {
    let (descriptor, bytes) = match prepare_upload("/tmp/one.zip", Some(vec![0x50])) {
        Ok(pair) => pair,
        Err(_) => panic!("readable contents must be accepted"),
    };
    assert_eq!(descriptor.byte_len, 1);
    assert_eq!(bytes, vec![0x50]);
}

#[test]
fn large_artifact_announces_its_exact_length_and_bytes() {
    let contents: Vec<u8> = (0..3 * 1024 * 1024u32).map(|i| (i % 251) as u8).collect();
    let expected = contents.clone();
    let (descriptor, bytes) = match prepare_upload("/tmp/rss_r.zip", Some(contents)) {
        Ok(pair) => pair,
        Err(_) => panic!("readable contents must be accepted"),
    };
    assert_eq!(descriptor.byte_len, 3 * 1024 * 1024);
    assert_eq!(descriptor.mode, 0o644);
    assert_eq!(bytes, expected);
}
