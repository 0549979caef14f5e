use warp_helm::helm_launch::{
    env_only_local_target, launch_config_path, launch_target, non_blank, HelmLaunchConfig,
    LaunchConfigPath, LaunchTarget, DEFAULT_LAUNCH_CONFIG_REL,
};

fn config(url: &str, token: &str) -> HelmLaunchConfig {
    HelmLaunchConfig {
        helm_oz_url: Some(url.to_string()),
        agent_token: Some(token.to_string()),
        ..HelmLaunchConfig::default()
    }
}

#[test]
fn launch_config_path_uses_override_when_set() {
    assert_eq!(
        launch_config_path(Some("/tmp/helm-launch-override.json"), true),
        Some(LaunchConfigPath::Override("/tmp/helm-launch-override.json".to_string()))
    );
}

#[test]
fn launch_config_path_defaults_under_home() {
    assert_eq!(launch_config_path(None, true), Some(LaunchConfigPath::UnderHome));
    assert_eq!(DEFAULT_LAUNCH_CONFIG_REL, ".config/helm/launch.json");
}

#[test]
fn blank_override_counts_as_unset() {
    assert_eq!(launch_config_path(Some("  \t"), true), Some(LaunchConfigPath::UnderHome));
    assert_eq!(launch_config_path(Some(""), false), None);
    assert_eq!(launch_config_path(None, false), None);
    assert_eq!(
        launch_config_path(Some(" /x y "), false),
        Some(LaunchConfigPath::Override(" /x y ".to_string()))
    );
}

#[test]
fn launch_target_prefers_file_over_env() {
    let target = launch_target(
        Some(config("http://from-file", "file-bearer")),
        Some("http://from-env"),
        Some("env-bearer"),
    )
    .expect("file present");
    assert_eq!(target.helm_oz_url, "http://from-file");
    assert_eq!(target.agent_token.as_deref(), Some("file-bearer"));
}

#[test]
fn launch_target_falls_back_to_env_when_no_file() {
    let target = launch_target(None, Some("http://from-env"), Some("env-bearer"))
        .expect("env URL set");
    assert_eq!(target.helm_oz_url, "http://from-env");
    assert_eq!(target.agent_token.as_deref(), Some("env-bearer"));
}

#[test]
fn launch_target_none_when_unconfigured() {
    assert!(launch_target(None, None, None).is_none(), "no file, no env URL");
    assert!(launch_target(None, None, Some("env-bearer")).is_none());
    assert!(launch_target(Some(config(" ", "file-bearer")), Some("  "), None).is_none());
}

#[test]
fn launch_target_url_without_bearer_yields_local_mode_target() {
    let target = launch_target(None, Some("http://from-env"), None).expect("env URL set");
    assert_eq!(target.helm_oz_url, "http://from-env");
    assert!(target.agent_token.is_none(), "no bearer, local mode");
}

#[test]
fn env_only_local_target_ignores_launch_json() {
    let target = env_only_local_target(Some("http://from-env"), Some("env-bearer"))
        .expect("env URL set");
    assert_eq!(target.helm_oz_url, "http://from-env");
    assert_eq!(target.agent_token.as_deref(), Some("env-bearer"));
}

#[test]
fn env_only_local_target_returns_none_without_env() {
    assert!(env_only_local_target(None, None).is_none());
}

#[test]
fn file_with_url_never_borrows_the_bearer_of_the_environment() {
    let cfg = HelmLaunchConfig {
        helm_oz_url: Some("http://from-file".to_string()),
        agent_token: Some("   ".to_string()),
        ..HelmLaunchConfig::default()
    };
    let target = launch_target(Some(cfg), Some("http://from-env"), Some("env-bearer"));
    assert_eq!(
        target,
        Some(LaunchTarget { helm_oz_url: "http://from-file".to_string(), agent_token: None })
    );
}

#[test]
fn file_without_url_never_lends_its_token() {
    let cfg = HelmLaunchConfig {
        helm_oz_url: None,
        agent_token: Some("file-bearer".to_string()),
        ..HelmLaunchConfig::default()
    };
    let with_file = launch_target(Some(cfg), Some("http://from-env"), Some("env-bearer"));
    assert_eq!(with_file, env_only_local_target(Some("http://from-env"), Some("env-bearer")));
}

#[test]
fn non_blank_keeps_the_text_as_it_is() {
    assert_eq!(non_blank(Some(" a ")), Some(" a "));
    assert_eq!(non_blank(Some("\u{2003}\u{a0}")), None);
    assert_eq!(non_blank(Some("")), None);
    assert_eq!(non_blank(None), None);
}
