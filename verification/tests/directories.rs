use rmuxinator::commands::{
    build_pane_start_directory, build_session_start_directory, build_window_start_directory,
};
use rmuxinator::{Config, Window};

#[test]
fn it_uses_no_start_directory_when_none_present_for_session_start_directory() {
    let config = Config {
        name: String::from("foo"),
        windows: vec![Window {
            layout: None,
            name: Some(String::from("a window")),
            panes: Vec::new(),
            start_directory: None,
        }],
        ..Config::default()
    };

    let actual = build_session_start_directory(&config);
    assert!(actual.is_none());
}

#[test]
fn it_uses_configs_start_directory_when_no_window_start_directory_present_for_session_start_directory(
) {
    let config = Config {
        name: String::from("foo"),
        start_directory: Some(String::from("/foo/bar")),
        ..Config::default()
    };
    let expected = Some(String::from("/foo/bar"));
    let actual = build_session_start_directory(&config);
    assert_eq!(expected, actual);
}

#[test]
fn it_uses_windows_start_directory_over_configs_start_directory_for_session_start_directory() {
    let config = Config {
        name: String::from("foo"),
        start_directory: Some(String::from("/this/is/ignored")),
        windows: vec![Window {
            layout: None,
            name: Some(String::from("a window")),
            panes: Vec::new(),
            start_directory: Some(String::from("/bar/baz")),
        }],
        ..Config::default()
    };
    let expected = Some(String::from("/bar/baz"));
    let actual = build_session_start_directory(&config);
    assert_eq!(expected, actual);
}

#[test]
fn it_uses_no_start_directory_when_none_present_for_window_start_directory() {
    let config_start_directory = None;
    let window_start_directory = None;

    let actual = build_window_start_directory(&config_start_directory, &window_start_directory);
    assert!(actual.is_none());
}

#[test]
fn it_uses_windows_start_directory_over_configs_start_directory_for_window_start_directory() {
    let config_start_directory = Some(String::from("/this/is/ignored"));
    let window_start_directory = Some(String::from("/bar/baz"));

    let expected = window_start_directory.clone();
    let actual = build_window_start_directory(&config_start_directory, &window_start_directory);
    assert_eq!(expected, actual);
}

#[test]
fn it_uses_configs_start_directory_when_no_window_start_directory_present_for_window_start_directory(
) {
    let config_start_directory = Some(String::from("/foo/bar"));
    let window_start_directory = None;

    let expected = config_start_directory.clone();
    let actual = build_window_start_directory(&config_start_directory, &window_start_directory);
    assert_eq!(expected, actual);
}

#[test]
fn it_uses_pane_sd_when_window_sd_is_none_and_config_sd_is_none() {
    let config_start_directory = None;
    let window_start_directory = None;
    let pane_start_directory = Some(String::from("/foo/bar"));

    let expected = pane_start_directory.clone();
    let actual = build_pane_start_directory(
        &config_start_directory,
        &window_start_directory,
        &pane_start_directory,
    );
    assert_eq!(expected, actual);
}

#[test]
fn it_uses_pane_sd_when_window_sd_is_some_and_config_sd_is_none() {
    let config_start_directory = None;
    let window_start_directory = Some(String::from("/bar/baz"));
    let pane_start_directory = Some(String::from("/foo/bar"));

    let expected = pane_start_directory.clone();
    let actual = build_pane_start_directory(
        &config_start_directory,
        &window_start_directory,
        &pane_start_directory,
    );
    assert_eq!(expected, actual);
}

#[test]
fn it_uses_pane_sd_when_window_sd_is_none_and_config_sd_is_some() {
    let config_start_directory = Some(String::from("/bar/baz"));
    let window_start_directory = None;
    let pane_start_directory = Some(String::from("/foo/bar"));

    let expected = pane_start_directory.clone();
    let actual = build_pane_start_directory(
        &config_start_directory,
        &window_start_directory,
        &pane_start_directory,
    );
    assert_eq!(expected, actual);
}

#[test]
fn it_uses_pane_sd_when_window_sd_is_some_and_config_sd_is_some() {
    let config_start_directory = Some(String::from("/bar/baz"));
    let window_start_directory = Some(String::from("/bar/baz"));
    let pane_start_directory = Some(String::from("/foo/bar"));

    let expected = pane_start_directory.clone();
    let actual = build_pane_start_directory(
        &config_start_directory,
        &window_start_directory,
        &pane_start_directory,
    );
    assert_eq!(expected, actual);
}

#[test]
fn it_uses_window_sd_when_pane_sd_is_none_and_config_sd_is_none() {
    let config_start_directory = None;
    let window_start_directory = Some(String::from("/foo/bar"));
    let pane_start_directory = None;

    let expected = window_start_directory.clone();
    let actual = build_pane_start_directory(
        &config_start_directory,
        &window_start_directory,
        &pane_start_directory,
    );
    assert_eq!(expected, actual);
}

#[test]
fn it_uses_window_sd_when_pane_sd_is_none_and_config_sd_is_some() {
    let config_start_directory = Some(String::from("/bar/baz"));
    let window_start_directory = Some(String::from("/foo/bar"));
    let pane_start_directory = None;

    let expected = window_start_directory.clone();
    let actual = build_pane_start_directory(
        &config_start_directory,
        &window_start_directory,
        &pane_start_directory,
    );
    assert_eq!(expected, actual);
}

#[test]
fn it_uses_config_sd_when_pane_sd_is_none_and_config_sd_is_none() {
    let config_start_directory = Some(String::from("/foo/bar"));
    let window_start_directory = None;
    let pane_start_directory = None;

    let expected = config_start_directory.clone();
    let actual = build_pane_start_directory(
        &config_start_directory,
        &window_start_directory,
        &pane_start_directory,
    );
    assert_eq!(expected, actual);
}

#[test]
fn it_uses_no_pane_sd_when_none_are_set() {
    let config_start_directory = None;
    let window_start_directory = None;
    let pane_start_directory = None;

    let actual = build_pane_start_directory(
        &config_start_directory,
        &window_start_directory,
        &pane_start_directory,
    );
    assert!(actual.is_none());
}
