use launcher_core::config::{
    config_from_parsed, config_read_error, derive_config_path, validate_config, validate_url, Config, Origin, PatchConfig,
    SecurityConfig,
};
use launcher_core::error::Error;

fn sample_config() -> Config {
    Config {
        config_version: 1,
        title: "BossPatcher Launcher".into(),
        launcher_url: "https://launcher.example.com/".into(),
        manifest_url: "https://patch.example.com/manifest.toml".into(),
        data_url: "https://patch.example.com/data/".into(),
        calls: [("game".into(), "Game.exe".into())].into_iter().collect(),
        patch: PatchConfig::default(),
        security: SecurityConfig::default(),
    }
}

#[test]
fn validate_config_accepts_valid() {
    let cfg = sample_config();
    validate_config(&cfg).unwrap();
}

#[test]
fn validate_config_rejects_http_launcher_url() {
    let mut cfg = sample_config();
    cfg.launcher_url = "http://launcher.example.com/".into();
    assert!(matches!(validate_config(&cfg).unwrap_err(), Error::LauncherUrlNotHttps(_)));
}

#[test]
fn validate_config_rejects_empty_calls() {
    let mut cfg = sample_config();
    cfg.calls.clear();
    assert!(matches!(validate_config(&cfg).unwrap_err(), Error::CallsMissing));
}

#[test]
fn allow_http_accepts_plain_http_urls() {
    let mut cfg = sample_config();
    cfg.launcher_url = "http://127.0.0.1:8080/".into();
    cfg.manifest_url = "http://127.0.0.1:8080/manifest.toml".into();
    cfg.data_url = "http://127.0.0.1:8080/data/".into();
    assert!(validate_config(&cfg).is_err());
    cfg.security = SecurityConfig { allow_http: true };
    validate_config(&cfg).unwrap();
}

#[test]
fn http_data_url_is_refused_without_allow_http() {
    let mut cfg = sample_config();
    cfg.data_url = "http://patch.example.com/data/".into();
    match validate_config(&cfg).unwrap_err() {
        Error::LauncherUrlNotHttps(v) => assert_eq!(v, "http://patch.example.com/data/"),
        other => panic!("unexpected {:?}", other),
    }
}

#[test]
fn wrong_version_is_reported_with_both_numbers() {
    let mut cfg = sample_config();
    cfg.config_version = -7;
    match validate_config(&cfg).unwrap_err() {
        Error::ConfigInvalidField { field, reason } => {
            assert_eq!(field, "config_version");
            assert_eq!(reason, "expected 1, got -7");
        }
        other => panic!("unexpected {:?}", other),
    }
}

#[test]
fn blank_title_is_missing() {
    let mut cfg = sample_config();
    cfg.title = " \t\u{3000}".into();
    match validate_config(&cfg).unwrap_err() {
        Error::ConfigMissingField { field } => assert_eq!(field, "title"),
        other => panic!("unexpected {:?}", other),
    }
}

#[test]
fn unparsable_manifest_url_names_its_field() {
    let mut cfg = sample_config();
    cfg.manifest_url = "not a url".into();
    assert!(matches!(validate_config(&cfg).unwrap_err(), Error::ManifestUrlInvalid(_)));
    assert!(matches!(validate_url("::", "other", false).unwrap_err(), Error::ConfigInvalidField { .. }));
}

#[test]
fn bad_alias_target_is_reported() {
    let mut cfg = sample_config();
    cfg.calls.push(("setup".into(), "..\\Setup.exe".into()));
    match validate_config(&cfg).unwrap_err() {
        Error::InvalidAliasTarget { alias, reason } => {
            assert_eq!(alias, "setup");
            assert_eq!(reason, "invalid manifest path `..\\Setup.exe`: path traversal");
        }
        other => panic!("unexpected {:?}", other),
    }
}

#[test]
fn hash_algorithm_must_be_md5() {
    let mut cfg = sample_config();
    cfg.patch.hash_algorithm = "MD5".into();
    validate_config(&cfg).unwrap();
    cfg.patch.hash_algorithm = "SHA256".into();
    match validate_config(&cfg).unwrap_err() {
        Error::ConfigInvalidField { field, reason } => {
            assert_eq!(field, "patch.hash_algorithm");
            assert_eq!(reason, "unsupported hash algorithm: sha256");
        }
        other => panic!("unexpected {:?}", other),
    }
}

#[test]
fn patch_config_defaults() {
    let p = PatchConfig::default();
    assert_eq!(p.max_concurrent_downloads, 3);
    assert!(p.verify_after_download);
    assert!(!p.resume_downloads);
    assert_eq!(p.hash_algorithm, "md5");
}

#[test]
fn derive_config_path_edges() {
    assert_eq!(derive_config_path("Launcher.exe").unwrap(), "Launcher.toml");
    assert_eq!(derive_config_path("C:\\Launcher.exe").unwrap(), "C:\\Launcher.toml");
    assert_eq!(derive_config_path("C:Launcher.exe").unwrap(), "C:Launcher.toml");
    assert_eq!(derive_config_path("C:\\Games\\.hidden").unwrap(), "C:\\Games\\.hidden.toml");
    assert!(derive_config_path("C:\\").is_err());
    assert!(derive_config_path("C:\\Games\\..").is_err());
}

#[test]
fn origin_from_url() {
    let o = Origin::from_url_str("https://launcher.example.com:8443/index.html").unwrap();
    assert_eq!(o.scheme, "https");
    assert_eq!(o.host, "launcher.example.com");
    assert_eq!(o.port, Some(8443));
    assert_eq!(o.to_text(), "https://launcher.example.com:8443");
    let same = Origin::from_url_str("https://launcher.example.com:8443/other").unwrap();
    assert!(o.matches(&same));
    let other = Origin::from_url_str("https://launcher.example.com/").unwrap();
    assert!(!o.matches(&other));
    assert_eq!(o.as_core_origin().unwrap().as_str(), "https://launcher.example.com:8443/");
    assert!(matches!(Origin::from_url_str("data:text/plain,hi").unwrap_err(), Error::LauncherUrlInvalid(_)));
    assert!(matches!(Origin::from_url_str("nope").unwrap_err(), Error::Url(_)));
}

#[test]
fn loading_reports_each_failure() {
    assert!(matches!(config_read_error("C:\\L\\a.toml", true, "x"), Error::ConfigNotFound { path } if path == "C:\\L\\a.toml"));
    assert!(matches!(config_read_error("C:\\L\\a.toml", false, "denied"), Error::LocalFileReadFailed { reason, .. } if reason == "denied"));
    assert!(matches!(
        config_from_parsed("C:\\L\\a.toml", Err("missing field `title`".into())),
        Err(Error::ConfigParseFailed(m)) if m == "C:\\L\\a.toml: missing field `title`"
    ));
    let mut c = sample_config();
    c.calls.clear();
    assert!(matches!(config_from_parsed("a.toml", Ok(c)), Err(Error::CallsMissing)));
    assert_eq!(config_from_parsed("a.toml", Ok(sample_config())).unwrap().title, "BossPatcher Launcher");
}
