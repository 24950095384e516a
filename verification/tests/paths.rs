use projector::config::{get_config, get_pwd, Config, ConfigError, Operation, OperationKind};
use projector::numeral::decimal_string;
use projector::opts::{Opts, ProcessEnv};

#[test]
fn default_config_path_is_derived_from_xdg_config_home() {
    let path = get_config(None, Some(String::from("/home/u/.config"))).unwrap();
    assert_eq!(path, "/home/u/.config/projector/projector.json");
}

#[test]
fn base_directory_with_trailing_separator_gets_no_second_one() {
    let path = get_config(None, Some(String::from("/base/"))).unwrap();
    assert_eq!(path, "/base/projector/projector.json");
}

#[test]
fn empty_base_directory_yields_a_relative_path() {
    let path = get_config(None, Some(String::from(""))).unwrap();
    assert_eq!(path, "projector/projector.json");
}

#[test]
fn explicit_config_override_is_used_as_given() {
    let first = get_config(Some(String::from("/tmp/custom.json")), None).unwrap();
    let second = get_config(
        Some(String::from("/tmp/custom.json")),
        Some(String::from("/home/u/.config")),
    )
    .unwrap();

    assert_eq!(first, "/tmp/custom.json");
    assert_eq!(first, second);
}

#[test]
fn missing_environment_variable_is_a_hard_failure() {
    let err = get_config(None, None).unwrap_err();

    assert_eq!(err, ConfigError::EnvironmentLookupFailure);
    assert_eq!(err.message(), "unable to get XDG_CONFIG_HOME");
}

#[test]
fn explicit_pwd_override_is_used_as_given() {
    let first = get_pwd(Some(String::from("/work")), Some(String::from("/elsewhere"))).unwrap();
    let second = get_pwd(Some(String::from("/work")), None).unwrap();

    assert_eq!(first, "/work");
    assert_eq!(first, second);
}

#[test]
fn pwd_falls_back_to_the_current_directory() {
    let path = get_pwd(None, Some(String::from("/home/u/projects"))).unwrap();
    assert_eq!(path, "/home/u/projects");
}

#[test]
fn unavailable_working_directory_is_a_hard_failure() {
    let err = get_pwd(None, None).unwrap_err();

    assert_eq!(err, ConfigError::WorkingDirectoryUnavailable);
    assert_eq!(err.message(), "errored getting current dir");
}

#[test]
fn config_bundles_all_three_resolved_values() {
    let opts = Opts {
        args: vec![String::from("add"), String::from("k"), String::from("v")],
        pwd: Some(String::from("/work")),
        config: None,
    };
    let env = ProcessEnv {
        xdg_config_home: Some(String::from("/home/u/.config")),
        current_dir: Some(String::from("/home/u")),
    };
    let config = Config::try_from(opts, env).unwrap();

    assert_eq!(config.operation, Operation::Add(String::from("k"), String::from("v")));
    assert_eq!(config.pwd, "/work");
    assert_eq!(config.config, "/home/u/.config/projector/projector.json");
}

#[test]
fn argument_errors_take_precedence_over_path_errors() {
    let opts = Opts { args: vec![String::from("rm")], pwd: None, config: None };
    let env = ProcessEnv { xdg_config_home: None, current_dir: None };
    let err = Config::try_from(opts, env).unwrap_err();

    assert_eq!(err, ConfigError::InvalidArguments { kind: OperationKind::Remove, reported: 0 });
}

#[test]
fn config_path_errors_take_precedence_over_pwd_errors() {
    let opts = Opts { args: vec![], pwd: None, config: None };
    let env = ProcessEnv { xdg_config_home: None, current_dir: None };
    let err = Config::try_from(opts, env).unwrap_err();

    assert_eq!(err, ConfigError::EnvironmentLookupFailure);
}

#[test]
fn decimal_rendering_matches_usual_numerals() {
    assert_eq!(decimal_string(0), "0");
    assert_eq!(decimal_string(7), "7");
    assert_eq!(decimal_string(10), "10");
    assert_eq!(decimal_string(42), "42");
    assert_eq!(decimal_string(909), "909");
    assert_eq!(decimal_string(usize::MAX), usize::MAX.to_string());
}
