use rss_deploy::text::{file_name, i32_to_dec, join_path, sh_quote, u32_to_dec};

#[test]
fn quoting_wraps_in_single_quotes() {
    assert_eq!(sh_quote("a b"), "'a b'");
    assert_eq!(sh_quote(""), "''");
    assert_eq!(sh_quote("/opt/rss_r"), "'/opt/rss_r'");
}

#[test]
fn join_inserts_one_separator() {
    assert_eq!(join_path("/tmp", "rss_r.zip"), "/tmp/rss_r.zip");
    assert_eq!(join_path("/opt/rss_r", "static"), "/opt/rss_r/static");
}

#[test]
fn file_name_takes_text_after_last_separator() {
    assert_eq!(file_name("build/rss_r.zip"), Some(String::from("rss_r.zip")));
    assert_eq!(file_name("rss_r.zip"), Some(String::from("rss_r.zip")));
    assert_eq!(file_name("/a/b/c"), Some(String::from("c")));
}

#[test]
fn file_name_is_none_without_a_final_component() {
    assert_eq!(file_name(""), None);
    assert_eq!(file_name("build/"), None);
    assert_eq!(file_name("/"), None);
}

#[test]
fn unsigned_decimal_rendering() {
    assert_eq!(u32_to_dec(0), "0");
    assert_eq!(u32_to_dec(7), "7");
    assert_eq!(u32_to_dec(22), "22");
    assert_eq!(u32_to_dec(4294967295), "4294967295");
}

#[test]
fn signed_decimal_rendering() {
    assert_eq!(i32_to_dec(0), "0");
    assert_eq!(i32_to_dec(130), "130");
    assert_eq!(i32_to_dec(-7), "-7");
    assert_eq!(i32_to_dec(-2147483648), "-2147483648");
}
