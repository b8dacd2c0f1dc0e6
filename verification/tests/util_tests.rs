use vision_match::config::{config_from_env, AppConfig, ConfigStore};
use vision_match::file_util::{calculate_file_hash, split_filename, stored_file_name};
use vision_match::models::RecognitionStatus;
use vision_match::network::{
    fallback_identifier, get_all_mac_addresses, get_main_mac_address, resolve_host_identifier,
};
use vision_match::paths::{
    env_value_or, get_model_path, get_python_executable, get_script_path, is_absolute_path,
    to_absolute_path,
};

#[test]
fn split_filename_separates_stem_and_lowercase_extension() {
    assert_eq!(split_filename("photo.PNG"), ("photo".to_string(), "png".to_string()));
    assert_eq!(
        split_filename("dir/sub/archive.tar.gz"),
        ("archive.tar".to_string(), "gz".to_string())
    );
    assert_eq!(split_filename("C:\\pics\\y.JPG"), ("y".to_string(), "jpg".to_string()));
}

#[test]
fn split_filename_defaults_the_extension() {
    assert_eq!(split_filename("noext"), ("noext".to_string(), "bin".to_string()));
    assert_eq!(split_filename(".hidden"), (".hidden".to_string(), "bin".to_string()));
    assert_eq!(split_filename("dir/noext"), ("noext".to_string(), "bin".to_string()));
}

#[test]
fn sha256_of_known_inputs() {
    assert_eq!(
        calculate_file_hash(b""),
        "e3b0c44298fc1c149afbf4c8996fb92427ae41e4649b934ca495991b7852b855"
    );
    assert_eq!(
        calculate_file_hash(b"abc"),
        "ba7816bf8f01cfea414140de5dae2223b00361a396177a9cb410ff61f20015ad"
    );
}

#[test]
fn stored_file_names_use_the_hash_prefix() {
    let hash = calculate_file_hash(b"abc");
    assert_eq!(stored_file_name(&hash, "png"), "ba7816bf8f01cfea.png");
}

#[test]
fn absolute_paths_pass_through() {
    assert!(is_absolute_path("/usr/bin/python3"));
    assert!(!is_absolute_path("scripts/run.py"));
    assert_eq!(to_absolute_path("/a/b", Some("/cwd")), "/a/b");
    assert_eq!(to_absolute_path("a/b", Some("/cwd")), "/cwd/a/b");
    assert_eq!(to_absolute_path("a/b", None), "a/b");
}

#[test]
fn env_values_win_over_defaults_unless_blank() {
    assert_eq!(env_value_or(Some("x".to_string()), "d"), "x");
    assert_eq!(env_value_or(Some("  ".to_string()), "d"), "d");
    assert_eq!(env_value_or(None, "d"), "d");
}

#[test]
fn executable_script_and_model_paths_resolve() {
    assert_eq!(
        get_python_executable(Some("/opt/py/bin/python".to_string()), Some("/cwd")),
        "/opt/py/bin/python"
    );
    assert_eq!(
        get_python_executable(None, Some("/cwd")),
        "/cwd/D:/IDEA/anaconda3/envs/py310/python.exe"
    );
    assert_eq!(
        get_model_path(None, Some("/srv")),
        "/srv/resources/model/result_improved.pth"
    );
    assert_eq!(
        get_script_path(None, None),
        "resources/python/inference.py"
    );
}

#[test]
fn config_defaults_and_env_overrides() {
    let d = AppConfig::default();
    assert_eq!(d.upload_dir, "uploads");
    assert_eq!(d.python_executable, "python");
    assert_eq!(d.mongodb_uri, "localhost");
    assert_eq!(d.mongodb_database, "mongodb");

    let c = config_from_env(Some("/opt/python".to_string()), None, Some("vision".to_string()));
    assert_eq!(c.python_executable, "/opt/python");
    assert_eq!(c.mongodb_uri, "localhost");
    assert_eq!(c.mongodb_database, "vision");
}

#[test]
fn config_store_fills_once_and_keeps_the_first_value() {
    let mut store = ConfigStore::new();
    store.init_config(None);
    assert_eq!(store.get_config().python_executable, "python");
    let mut custom = AppConfig::default();
    custom.python_executable = "/opt/python".to_string();
    store.init_config(Some(custom));
    assert_eq!(store.get_config().python_executable, "python");

    let mut store2 = ConfigStore::new();
    let mut custom2 = AppConfig::default();
    custom2.python_executable = "/opt/python".to_string();
    store2.init_config(Some(custom2));
    assert_eq!(store2.get_config().python_executable, "/opt/python");
}

#[test]
fn recognition_status_parses_ignoring_case() {
    assert_eq!(RecognitionStatus::parse("pending"), Some(RecognitionStatus::Pending));
    assert_eq!(RecognitionStatus::parse("PROCESSING"), Some(RecognitionStatus::Processing));
    assert_eq!(RecognitionStatus::parse("Success"), Some(RecognitionStatus::Success));
    assert_eq!(RecognitionStatus::parse("failed"), Some(RecognitionStatus::Failed));
    assert_eq!(RecognitionStatus::parse("error"), Some(RecognitionStatus::Error));
    assert_eq!(RecognitionStatus::parse("bogus"), None);
    assert_eq!(RecognitionStatus::parse(""), None);
}

#[test]
fn recognition_status_names_round_trip() {
    for s in [
        RecognitionStatus::Pending,
        RecognitionStatus::Processing,
        RecognitionStatus::Success,
        RecognitionStatus::Failed,
        RecognitionStatus::Error,
    ] {
        assert_eq!(RecognitionStatus::parse(s.as_str()), Some(s));
    }
}

#[test]
fn recognition_status_implied_by_outcome() {
    assert_eq!(RecognitionStatus::implied_by(true, false), RecognitionStatus::Success);
    assert_eq!(RecognitionStatus::implied_by(true, true), RecognitionStatus::Success);
    assert_eq!(RecognitionStatus::implied_by(false, true), RecognitionStatus::Failed);
    assert_eq!(RecognitionStatus::implied_by(false, false), RecognitionStatus::Pending);
    assert_eq!(RecognitionStatus::default(), RecognitionStatus::Pending);
}

#[test]
fn fallback_identifier_keeps_alphanumerics_only() {
    assert_eq!(fallback_identifier(Some("my-host!2".to_string())), "host-myhost2");
    assert_eq!(fallback_identifier(Some("".to_string())), "host-");
    assert_eq!(fallback_identifier(None), "unknown-device");
}

#[test]
fn resolver_prefers_the_fetched_address() {
    assert_eq!(
        resolve_host_identifier(Some("00:1A:2B:3C:4D:5E".to_string()), Some("h".to_string())),
        "00:1A:2B:3C:4D:5E"
    );
    assert_eq!(
        resolve_host_identifier(None, Some("box7".to_string())),
        "host-box7"
    );
}

#[test]
fn device_identifier_is_never_empty() {
    let id = get_main_mac_address(Some("fallbackhost".to_string()));
    assert!(id.len() == 17 || id == "host-fallbackhost");
    let all = get_all_mac_addresses(Some("fallbackhost".to_string()));
    assert_eq!(all.len(), 1);
    assert!(!all[0].is_empty());
}
