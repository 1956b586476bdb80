use mega_fuse::cli::parse;
use mega_fuse::config::Config;
use mega_fuse::config::ValidatedConfig;
use mega_fuse::num::parse_u64;
use mega_fuse::num::u64_to_dec;
use mega_fuse::paths::strip_remote_prefix;
use mega_fuse::request::base_tree_path;
use mega_fuse::request::file_content_path;
use mega_fuse::request::sub_tree_path;

#[test]
fn parse_u64_reads_digits() {
    assert_eq!(parse_u64("0"), Some(0));
    assert_eq!(parse_u64("1701057603"), Some(1_701_057_603));
    assert_eq!(parse_u64("18446744073709551615"), Some(u64::MAX));
}

#[test]
fn parse_u64_rejects_bad_input() {
    assert_eq!(parse_u64(""), None);
    assert_eq!(parse_u64("12a"), None);
    assert_eq!(parse_u64("-3"), None);
    assert_eq!(parse_u64(" 7"), None);
    // one past the largest value
    assert_eq!(parse_u64("18446744073709551616"), None);
    assert_eq!(parse_u64("99999999999999999999"), None);
}

#[test]
fn u64_to_dec_writes_digits() {
    assert_eq!(u64_to_dec(0), "0");
    assert_eq!(u64_to_dec(7), "7");
    assert_eq!(u64_to_dec(8000), "8000");
    assert_eq!(u64_to_dec(u64::MAX), "18446744073709551615");
}

#[test]
fn strip_remote_prefix_drops_two_segments() {
    assert_eq!(strip_remote_prefix("/projects/mega/a/b.txt"), "a/b.txt");
    assert_eq!(strip_remote_prefix("/projects/fuser/deny.toml"), "deny.toml");
    assert_eq!(strip_remote_prefix("/projects/fuser/.github"), ".github");
    assert_eq!(strip_remote_prefix("/projects/fuser"), "");
    assert_eq!(strip_remote_prefix(""), "");
}

#[test]
fn request_paths() {
    assert_eq!(
        base_tree_path("fuser"),
        "/api/v1/tree?repo_path=/projects/fuser"
    );
    assert_eq!(
        base_tree_path("mega"),
        "/api/v1/tree?repo_path=/projects/mega"
    );
    assert_eq!(
        sub_tree_path("fuser", "75db394838a7ef17741a7cc5247763b9dea095b9"),
        "/api/v1/tree?object_id=75db394838a7ef17741a7cc5247763b9dea095b9&repo_path=/projects/fuser"
    );
    assert_eq!(
        file_content_path("mega", "8452eaa54f8482f9b36a70326393d169df654c28"),
        "/api/v1/object?object_id=8452eaa54f8482f9b36a70326393d169df654c28&repo_path=/projects/mega"
    );
}

fn sample_config() -> Config {
    let args = parse(
        "fuse --mount-point /tmp/mp --cache-dir /tmp/cache --log-dir /tmp/log --mega-host mega.com --mega-port 8000 connect mega"
            .split_whitespace()
            .map(|w| w.to_string())
            .collect(),
    )
    .unwrap();
    Config::from(args)
}

#[test]
fn config_validates_directories() {
    let mut c = sample_config();
    assert_eq!(c.validate_mount_point(true), Ok("/tmp/mp".to_string()));
    // taken: a second validation no longer finds it
    assert_eq!(c.validate_mount_point(true), Err(()));
    assert_eq!(c.validate_cache_dir(false), Err(()));
    assert_eq!(c.validate_cache_dir(true), Ok("/tmp/cache".to_string()));
    assert_eq!(c.validate_log_dir(true), Ok("/tmp/log".to_string()));
}

#[test]
fn config_joins_server_url() {
    let mut c = sample_config();
    assert_eq!(c.validate_mega_url(), Ok("mega.com:8000".to_string()));
}

#[test]
fn validated_config_from_config() {
    let v = ValidatedConfig::from_config(sample_config(), true, true, true).unwrap();
    assert_eq!(v.mount_point, "/tmp/mp");
    assert_eq!(v.cache_dir, "/tmp/cache");
    assert_eq!(v.log_dir, "/tmp/log");
    assert_eq!(v.server_url, "mega.com:8000");
    assert!(ValidatedConfig::from_config(sample_config(), true, false, true).is_err());
    let mut missing = sample_config();
    missing.mega_host = None;
    assert!(ValidatedConfig::from_config(missing, true, true, true).is_err());
}
