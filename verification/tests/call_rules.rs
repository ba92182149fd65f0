use launcher_core::call::{check_launch_target, is_executable_extension, resolve_alias_target, LaunchResult};
use launcher_core::config::{Config, PatchConfig, SecurityConfig};
use launcher_core::error::Error;

const CWD: &str = "D:\\Work";

fn config(calls: Vec<(&str, &str)>) -> Config {
    Config {
        config_version: 1,
        title: "Launcher".into(),
        launcher_url: "https://launcher.example.com/".into(),
        manifest_url: "https://patch.example.com/manifest.toml".into(),
        data_url: "https://patch.example.com/data/".into(),
        calls: calls.into_iter().map(|(a, t)| (a.to_string(), t.to_string())).collect(),
        patch: PatchConfig::default(),
        security: SecurityConfig::default(),
    }
}

#[test]
fn only_configured_aliases_resolve() {
    let c = config(vec![("game", "bin/Game.exe"), ("setup", "Setup.exe")]);
    assert_eq!(resolve_alias_target("C:\\Games\\L", "game", &c, CWD).unwrap(), "C:\\Games\\L\\bin\\Game.exe");
    assert!(matches!(
        resolve_alias_target("C:\\Games\\L", "C:\\Windows\\cmd.exe", &c, CWD),
        Err(Error::UnknownAlias { alias }) if alias == "C:\\Windows\\cmd.exe"
    ));
    assert!(matches!(resolve_alias_target("C:\\Games\\L", "Game", &c, CWD), Err(Error::UnknownAlias { .. })));
}

#[test]
fn alias_targets_stay_inside_the_launcher_directory() {
    let c = config(vec![("bad", "../evil.exe"), ("abs", "C:/Windows/cmd.exe")]);
    assert!(resolve_alias_target("C:\\Games\\L", "bad", &c, CWD).is_err());
    assert!(resolve_alias_target("C:\\Games\\L", "abs", &c, CWD).is_err());
}

#[test]
fn launch_checks() {
    assert!(is_executable_extension("EXE"));
    assert!(is_executable_extension("cmd"));
    assert!(!is_executable_extension("txt"));
    assert!(!is_executable_extension(""));
    assert!(check_launch_target("C:\\L\\Game.exe", true, Ok(false)).is_ok());
    assert!(matches!(check_launch_target("C:\\L\\Game.exe", false, Ok(false)), Err(Error::TargetNotFound { .. })));
    assert!(matches!(check_launch_target("C:\\L\\Game.exe", true, Ok(true)), Err(Error::TargetNotExecutable { .. })));
    assert!(matches!(check_launch_target("C:\\L\\notes.txt", true, Ok(false)), Err(Error::TargetNotExecutable { .. })));
    assert!(matches!(check_launch_target("C:\\L\\Game", true, Ok(false)), Err(Error::TargetNotExecutable { .. })));
    assert!(matches!(
        check_launch_target("C:\\L\\Game.exe", true, Err("denied".into())),
        Err(Error::LocalFileReadFailed { reason, .. }) if reason == "denied"
    ));
    let r = LaunchResult::started("game", "C:\\L\\Game.exe", Some(42));
    assert!(r.started);
    assert_eq!(r.pid, Some(42));
    assert_eq!(r.alias, "game");
}
