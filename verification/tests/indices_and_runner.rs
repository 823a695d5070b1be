use std::cell::RefCell;

use rmuxinator::{
    convert_pascal_case_to_kebab_case, get_tmux_base_indices, index_query_args,
    render_debug_line, run_start, CliCommand, Config, TmuxCommandRunner, Window,
};

struct RecordingRunner {
    calls: RefCell<Vec<(Vec<String>, bool)>>,
    stdout: String,
}

impl RecordingRunner {
    fn with_stdout(stdout: &str) -> RecordingRunner {
        RecordingRunner {
            calls: RefCell::new(Vec::new()),
            stdout: stdout.to_string(),
        }
    }
}

impl TmuxCommandRunner for RecordingRunner {
    fn run_tmux_command(&self, command: &Vec<String>, wait: bool) -> Result<String, String> {
        self.calls.borrow_mut().push((command.clone(), wait));
        Ok(self.stdout.clone())
    }
}

struct FailingRunner;

impl TmuxCommandRunner for FailingRunner {
    fn run_tmux_command(&self, _command: &Vec<String>, _wait: bool) -> Result<String, String> {
        Err(String::from("unable to reach tmux"))
    }
}

fn expected_query_args() -> Vec<String> {
    vec![
        "start-server".to_string(),
        ";".to_string(),
        "show-option".to_string(),
        "-g".to_string(),
        "base-index".to_string(),
        ";".to_string(),
        "show-window-option".to_string(),
        "-g".to_string(),
        "pane-base-index".to_string(),
    ]
}

#[test]
fn test_it_returns_default_base_index_when_no_value_found_in_tmux_session() {
    let tmux_command_runner = RecordingRunner::with_stdout("nope");
    let indices = get_tmux_base_indices(&tmux_command_runner).unwrap();
    let expected = 0;
    let actual = indices.base_index;
    assert_eq!(expected, actual);
    let calls = tmux_command_runner.calls.borrow();
    assert_eq!(1, calls.len());
    assert_eq!(false, calls[0].1);
}

#[test]
fn test_it_returns_default_pane_base_index_when_no_value_found_in_tmux_session() {
    let tmux_command_runner = RecordingRunner::with_stdout("nope");
    let indices = get_tmux_base_indices(&tmux_command_runner).unwrap();
    let expected = 0;
    let actual = indices.pane_base_index;
    assert_eq!(expected, actual);
    let calls = tmux_command_runner.calls.borrow();
    assert_eq!(1, calls.len());
    assert_eq!(false, calls[0].1);
}

#[test]
fn test_it_returns_default_base_index_when_good_value_found_in_tmux_session() {
    let tmux_command_runner = RecordingRunner::with_stdout("base-index 0");
    let indices = get_tmux_base_indices(&tmux_command_runner).unwrap();
    let expected = 0;
    let actual = indices.base_index;
    assert_eq!(expected, actual);
}

#[test]
fn test_it_returns_default_pane_base_index_when_good_value_found_in_tmux_session() {
    let tmux_command_runner = RecordingRunner::with_stdout("pane-base-index 0");
    let indices = get_tmux_base_indices(&tmux_command_runner).unwrap();
    let expected = 0;
    let actual = indices.base_index;
    assert_eq!(expected, actual);
}

#[test]
fn test_it_returns_custom_base_index_when_good_value_found_in_tmux_session() {
    let tmux_command_runner = RecordingRunner::with_stdout("base-index 99");
    let indices = get_tmux_base_indices(&tmux_command_runner).unwrap();
    let expected = 99;
    let actual = indices.base_index;
    assert_eq!(expected, actual);
}

#[test]
fn test_it_returns_custom_pane_base_index_when_good_value_found_in_tmux_session() {
    let tmux_command_runner = RecordingRunner::with_stdout("pane-base-index 99");
    let indices = get_tmux_base_indices(&tmux_command_runner).unwrap();
    let calls = tmux_command_runner.calls.borrow();
    assert_eq!(expected_query_args(), calls[0].0);
    let expected = 99;
    let actual = indices.pane_base_index;
    assert_eq!(expected, actual);
}

#[test]
fn test_it_passes_tmux_options_to_tmux_when_present() {
    let tmux_options = "-f another-one.conf".to_string();
    let config = Config {
        attached: false,
        name: "foo".to_string(),
        tmux_options: Some(tmux_options.clone()),
        windows: vec![Window {
            layout: None,
            name: Some(String::from("a window")),
            panes: Vec::new(),
            start_directory: None,
        }],
        ..Config::default()
    };

    let tmux_command_runner = RecordingRunner::with_stdout("");
    let result = run_start(config, &tmux_command_runner);
    assert!(result.is_ok());
    let calls = tmux_command_runner.calls.borrow();
    assert_eq!(2, calls.len());
    assert_eq!(expected_query_args(), calls[0].0);
    assert_eq!(
        vec![
            "-f".to_string(),
            "another-one.conf".to_string(),
            "new-session".to_string(),
            "-d".to_string(),
            "-s".to_string(),
            "foo".to_string(),
            "-n".to_string(),
            "a window".to_string(),
        ],
        calls[1].0
    );
    assert_eq!(false, calls[1].1);
}

#[test]
fn test_it_doesnt_pass_tmux_options_to_tmux_when_absent() {
    let config = Config {
        attached: false,
        name: "foo".to_string(),
        tmux_options: None,
        windows: vec![Window {
            layout: None,
            name: Some(String::from("a window")),
            panes: Vec::new(),
            start_directory: None,
        }],
        ..Config::default()
    };

    let tmux_command_runner = RecordingRunner::with_stdout("");
    let result = run_start(config, &tmux_command_runner);
    assert!(result.is_ok());
    let calls = tmux_command_runner.calls.borrow();
    assert_eq!(2, calls.len());
    assert_eq!(expected_query_args(), calls[0].0);
    assert_eq!(
        vec!["new-session", "-d", "-s", "foo", "-n", "a window"],
        calls[1].0
    );
}

#[test]
fn test_run_tmux_command_does_not_receive_an_attach_command_when_attached_false() {
    let config = Config {
        attached: false,
        name: "foo".to_string(),
        windows: vec![Window {
            layout: None,
            name: Some(String::from("a window")),
            panes: Vec::new(),
            start_directory: None,
        }],
        ..Config::default()
    };
    let tmux_command_runner = RecordingRunner::with_stdout("");
    let result = run_start(config, &tmux_command_runner);
    assert!(result.is_ok());
    let calls = tmux_command_runner.calls.borrow();
    assert_eq!(2, calls.len());
    assert_eq!(
        vec!["new-session", "-d", "-s", "foo", "-n", "a window"],
        calls[1].0
    );
}

#[test]
fn test_run_tmux_command_does_receive_an_attach_command_when_attached_true() {
    let config = Config {
        attached: true,
        name: "foo".to_string(),
        windows: vec![Window {
            layout: None,
            name: Some(String::from("a window")),
            panes: Vec::new(),
            start_directory: None,
        }],
        ..Config::default()
    };

    let tmux_command_runner = RecordingRunner::with_stdout("");
    let result = run_start(config, &tmux_command_runner);
    assert!(result.is_ok());
    let calls = tmux_command_runner.calls.borrow();
    assert_eq!(3, calls.len());
    assert_eq!(
        vec!["new-session", "-d", "-s", "foo", "-n", "a window"],
        calls[1].0
    );
    assert_eq!(false, calls[1].1);
    assert_eq!(vec!["-u", "attach-session", "-t", "foo"], calls[2].0);
    assert_eq!(true, calls[2].1);
}

#[test]
fn it_fails_the_run_when_the_index_query_cannot_be_issued() {
    let config = Config {
        name: "foo".to_string(),
        ..Config::default()
    };
    let result = run_start(config, &FailingRunner);
    assert_eq!(Err(String::from("unable to reach tmux")), result);
}

#[test]
fn it_builds_the_combined_option_query() {
    assert_eq!(expected_query_args(), index_query_args());
}

#[test]
fn it_renders_a_dry_run_line_for_a_command() {
    let command = vec![
        "new-session".to_string(),
        "-d".to_string(),
        "-s".to_string(),
        "demo".to_string(),
    ];
    assert_eq!("tmux new-session -d -s demo", render_debug_line(&command));
}

#[test]
fn it_converts_a_pascal_case_string_to_a_kebab_case_string() {
    let pascal = "KebabCase";
    let expected = "kebab-case";
    let actual = convert_pascal_case_to_kebab_case(&pascal);
    assert_eq!(expected, actual);
}

#[test]
fn it_no_ops_on_a_non_pascal_case_string() {
    let pascal = "foo";
    let expected = "foo";
    let actual = convert_pascal_case_to_kebab_case(&pascal);
    assert_eq!(expected, actual);
}

#[test]
fn it_accepts_valid_cli_command_arg() {
    let expected = CliCommand::Start;
    let actual = CliCommand::from_str("start").unwrap();
    assert_eq!(expected, actual);
}

#[test]
fn it_rejects_invalid_cli_command_arg() {
    let actual = CliCommand::from_str("xtart");
    assert!(actual.is_err());
}
