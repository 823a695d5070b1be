use rmuxinator::commands::{
    build_attach_command_args, build_create_window_args, build_hook_args,
    build_rename_pane_args, build_session_args, build_window_layout_args,
};
use rmuxinator::{Hook, HookName, Layout};

#[test]
fn it_builds_session_args_without_start_directory() {
    let session_name = "a session";
    let window_name = Some(String::from("a window"));
    let start_directory = None;
    let expected = vec![
        String::from("new-session"),
        String::from("-d"),
        String::from("-s"),
        String::from(session_name),
        String::from("-n"),
        window_name.clone().unwrap(),
    ];
    let actual = build_session_args(&session_name, window_name, &start_directory);
    assert_eq!(expected, actual);
}

#[test]
fn it_builds_session_args_with_window_name() {
    let session_name = String::from("a session");
    let window_name = Some(String::from("a window"));
    let start_directory = None;
    let expected = vec![
        String::from("new-session"),
        String::from("-d"),
        String::from("-s"),
        String::from(&session_name),
        String::from("-n"),
        window_name.clone().unwrap(),
    ];
    let actual = build_session_args(&session_name, window_name, &start_directory);
    assert_eq!(expected, actual);
}

#[test]
fn it_builds_session_args_without_window_name() {
    let session_name = String::from("a session");
    let window_name = None;
    let start_directory = None;
    let expected = vec![
        String::from("new-session"),
        String::from("-d"),
        String::from("-s"),
        String::from(&session_name),
    ];
    let actual = build_session_args(&session_name, window_name, &start_directory);
    assert_eq!(expected, actual);
}

#[test]
fn it_builds_session_args_with_start_directory() {
    let session_name = "a session";
    let window_name = Some(String::from("a window"));
    let start_directory_ = String::from("/foo/bar");
    let start_directory = Some(start_directory_.clone());
    let expected = vec![
        String::from("new-session"),
        String::from("-d"),
        String::from("-s"),
        String::from(session_name),
        String::from("-n"),
        window_name.clone().unwrap(),
        String::from("-c"),
        String::from(start_directory_),
    ];
    let actual = build_session_args(&session_name, window_name, &start_directory);
    assert_eq!(expected, actual);
}

#[test]
fn it_builds_window_layout_args_without_a_window_layout_or_a_config_layout() {
    let session_name = "foo";
    let window_index: u128 = 2;
    let config_layout = None;
    let window_layout = None;
    let actual =
        build_window_layout_args(&session_name, window_index, &config_layout, &window_layout);
    assert!(actual.is_none());
}

#[test]
fn it_builds_window_layout_args_with_a_config_layout_and_no_window_layout() {
    let session_name = "foo";
    let window_index: u128 = 2;
    let config_layout = Some(Layout::EvenHorizontal);
    let window_layout = None;
    let expected = vec![
        String::from("select-layout"),
        String::from("-t"),
        format!("{}:{}", &session_name, &window_index),
        config_layout.unwrap().to_string(),
    ];
    let actual =
        build_window_layout_args(&session_name, window_index, &config_layout, &window_layout);
    assert_eq!(expected, actual.unwrap());
}

#[test]
fn it_builds_window_layout_args_with_a_window_layout_and_no_config_layout() {
    let session_name = "foo";
    let window_index: u128 = 2;
    let config_layout = None;
    let window_layout = Some(Layout::Tiled);
    let expected = vec![
        String::from("select-layout"),
        String::from("-t"),
        format!("{}:{}", &session_name, &window_index),
        window_layout.unwrap().to_string(),
    ];
    let actual =
        build_window_layout_args(&session_name, window_index, &config_layout, &window_layout);
    assert_eq!(expected, actual.unwrap());
}

#[test]
fn it_builds_window_layout_args_with_a_window_layout_and_a_config_layout() {
    let session_name = "foo";
    let window_index: u128 = 2;
    let config_layout = Some(Layout::Tiled);
    let window_layout = Some(Layout::EvenHorizontal);
    let expected = vec![
        String::from("select-layout"),
        String::from("-t"),
        format!("{}:{}", &session_name, &window_index),
        window_layout.unwrap().to_string(),
    ];
    let actual =
        build_window_layout_args(&session_name, window_index, &config_layout, &window_layout);
    assert_eq!(expected, actual.unwrap());
}

#[test]
fn it_builds_window_args_without_a_start_directory() {
    let session_name = "a session";
    let window_name = Some(String::from("a window"));
    let window_index: u128 = 42;
    let start_directory = None;
    let expected = vec![
        String::from("new-window"),
        String::from("-t"),
        format!("{}:{}", &session_name, &window_index),
        String::from("-n"),
        window_name.clone().unwrap(),
    ];
    let actual =
        build_create_window_args(&session_name, window_index, &window_name, &start_directory);
    assert_eq!(expected, actual);
}

#[test]
fn it_builds_window_args_with_a_start_directory() {
    let session_name = "a session";
    let window_name = Some(String::from("a window"));
    let window_index: u128 = 42;
    let start_directory = Some(String::from("/tmp/neat"));

    let expected = vec![
        String::from("new-window"),
        String::from("-t"),
        format!("{}:{}", &session_name, &window_index),
        String::from("-n"),
        window_name.clone().unwrap(),
        String::from("-c"),
        String::from("/tmp/neat"),
    ];
    let actual =
        build_create_window_args(&session_name, window_index, &window_name, &start_directory);
    assert_eq!(expected, actual);
}

#[test]
fn it_builds_attach_args() {
    let session_name = "a session";
    let expected = vec![
        String::from("-u"),
        String::from("attach-session"),
        String::from("-t"),
        String::from(session_name),
    ];
    let actual = build_attach_command_args(&session_name);
    assert_eq!(expected, actual);
}

#[test]
fn it_converts_layout_to_string() {
    let layout = Layout::Tiled;
    let expected = String::from("tiled");
    let actual = layout.to_string();
    assert_eq!(expected, actual);
}

#[test]
fn it_builds_hook_arguments() {
    let hook = Hook {
        command: String::from("run \"echo hi\""),
        name: HookName::PaneFocusIn,
    };
    let expected = vec![
        String::from("set-hook"),
        String::from("-a"),
        String::from("pane-focus-in"),
        String::from("run \"echo hi\""),
    ];
    let actual = build_hook_args(&hook);
    assert_eq!(expected, actual);
}

#[test]
fn it_builds_rename_pane_args_when_pane_name_and_pane_name_user_option_present() {
    let session_name = "session-name";
    let window_index: u128 = 3;
    let pane_index: u128 = 4;
    let pane_name_user_option = Some(String::from("pane_name_user_option"));
    let pane_name = Some(String::from("pane-name"));
    let expected = vec![
        String::from("set-option"),
        String::from("-p"),
        String::from("-t"),
        format!("{}:{}.{}", session_name, window_index, pane_index),
        String::from("@pane_name_user_option"),
        String::from("pane-name"),
    ];
    let actual = build_rename_pane_args(
        &session_name,
        window_index,
        pane_index,
        &pane_name_user_option,
        &pane_name,
    );
    assert_eq!(expected, actual.unwrap());
}

#[test]
fn it_doesnt_build_rename_pane_args_when_no_pane_name_present() {
    let session_name = "session-name";
    let window_index: u128 = 3;
    let pane_index: u128 = 4;
    let pane_name_user_option = Some(String::from("pane_name_user_option"));
    let pane_name = None;
    let actual = build_rename_pane_args(
        &session_name,
        window_index,
        pane_index,
        &pane_name_user_option,
        &pane_name,
    );
    assert!(actual.is_none());
}

#[test]
fn it_doesnt_build_rename_pane_args_when_no_pane_name_user_option_present() {
    let session_name = "session-name";
    let window_index: u128 = 3;
    let pane_index: u128 = 4;
    let pane_name_user_option = None;
    let pane_name = Some(String::from("pane-name"));
    let actual = build_rename_pane_args(
        &session_name,
        window_index,
        pane_index,
        &pane_name_user_option,
        &pane_name,
    );
    assert!(actual.is_none());
}
