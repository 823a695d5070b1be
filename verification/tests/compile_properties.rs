use rmuxinator::{
    convert_config_to_tmux_commands, parse_base_indices, Config, Hook, HookName, Layout, Pane,
    TmuxBaseIndices, Window,
};

fn origins(base_index: usize, pane_base_index: usize) -> TmuxBaseIndices {
    TmuxBaseIndices {
        base_index,
        pane_base_index,
    }
}

fn plain_pane(command: &str) -> Pane {
    Pane {
        commands: vec![command.to_string()],
        name: None,
        start_directory: None,
    }
}

fn tokens(words: &[&str]) -> Vec<String> {
    words.iter().map(|w| w.to_string()).collect()
}

#[test]
fn it_computes_the_expected_commands() {
    let config = Config {
        name: String::from("most basic config"),
        ..Config::default()
    };

    let expected = vec![(
        vec![
            String::from("new-session"),
            String::from("-d"),
            String::from("-s"),
            String::from("most basic config"),
        ],
        false,
    )];
    let base_indices = origins(0, 0);
    let actual = convert_config_to_tmux_commands(&config, base_indices);
    assert_eq!(expected, actual);
}

#[test]
fn it_emits_only_the_session_command_for_a_config_with_no_windows() {
    let config = Config {
        name: String::from("bare"),
        ..Config::default()
    };
    let commands = convert_config_to_tmux_commands(&config, origins(0, 0));
    assert_eq!(1, commands.len());
    assert_eq!(tokens(&["new-session", "-d", "-s", "bare"]), commands[0].0);
}

#[test]
fn it_emits_session_then_attach_for_an_attached_config_with_no_windows() {
    let config = Config {
        attached: true,
        name: String::from("bare"),
        ..Config::default()
    };
    let commands = convert_config_to_tmux_commands(&config, origins(0, 0));
    assert_eq!(2, commands.len());
    assert_eq!(tokens(&["new-session", "-d", "-s", "bare"]), commands[0].0);
    assert_eq!(false, commands[0].1);
    assert_eq!(tokens(&["-u", "attach-session", "-t", "bare"]), commands[1].0);
    assert_eq!(true, commands[1].1);
}

#[test]
fn it_never_creates_the_first_window_explicitly() {
    let config = Config {
        name: String::from("s"),
        windows: vec![Window::default(), Window::default(), Window::default()],
        ..Config::default()
    };
    let commands = convert_config_to_tmux_commands(&config, origins(0, 0));
    for (command, _) in commands.iter() {
        assert!(!(command.len() >= 3 && command[0] == "new-window" && command[2] == "s:0"));
    }
    let created: Vec<&Vec<String>> = commands
        .iter()
        .map(|(command, _)| command)
        .filter(|command| command[0] == "new-window")
        .collect();
    assert_eq!(2, created.len());
    assert_eq!("s:1", created[0][2]);
    assert_eq!("s:2", created[1][2]);
}

#[test]
fn it_never_splits_the_first_pane_of_a_window() {
    let window = Window {
        layout: None,
        name: None,
        panes: vec![plain_pane("a"), plain_pane("b"), plain_pane("c")],
        start_directory: None,
    };
    let config = Config {
        name: String::from("s"),
        windows: vec![window],
        ..Config::default()
    };
    let commands = convert_config_to_tmux_commands(&config, origins(0, 0));
    let splits: Vec<&Vec<String>> = commands
        .iter()
        .map(|(command, _)| command)
        .filter(|command| command[0] == "split-window")
        .collect();
    assert_eq!(2, splits.len());
    for split in splits {
        assert_eq!(tokens(&["split-window", "-t", "s:0"]), *split);
    }
    assert_eq!(
        tokens(&["send-keys", "-t", "s:0.0", "a", "Enter"]),
        commands[1].0
    );
}

#[test]
fn it_computes_absolute_indices_from_the_discovered_origins() {
    let window = |first: &str, second: &str| Window {
        layout: None,
        name: None,
        panes: vec![plain_pane(first), plain_pane(second)],
        start_directory: None,
    };
    let config = Config {
        name: String::from("s"),
        windows: vec![window("a", "b"), window("c", "d")],
        ..Config::default()
    };
    let commands = convert_config_to_tmux_commands(&config, origins(1, 1));
    let expected = vec![
        (tokens(&["new-session", "-d", "-s", "s"]), false),
        (tokens(&["send-keys", "-t", "s:1.1", "a", "Enter"]), false),
        (tokens(&["split-window", "-t", "s:1"]), false),
        (tokens(&["send-keys", "-t", "s:1.2", "b", "Enter"]), false),
        (tokens(&["new-window", "-t", "s:2"]), false),
        (tokens(&["send-keys", "-t", "s:2.1", "c", "Enter"]), false),
        (tokens(&["split-window", "-t", "s:2"]), false),
        (tokens(&["send-keys", "-t", "s:2.2", "d", "Enter"]), false),
    ];
    assert_eq!(expected, commands);
}

#[test]
fn it_compiles_identically_on_repeated_calls() {
    let config = Config {
        attached: true,
        name: String::from("twice"),
        layout: Some(Layout::MainVertical),
        tmux_options: Some(String::from("-f custom.conf")),
        hooks: vec![Hook {
            command: String::from("run \"echo hi\""),
            name: HookName::SessionCreated,
        }],
        windows: vec![Window {
            layout: None,
            name: Some(String::from("w")),
            panes: vec![plain_pane("a"), plain_pane("b")],
            start_directory: Some(String::from("/w")),
        }],
        ..Config::default()
    };
    let first = convert_config_to_tmux_commands(&config, origins(1, 1));
    let second = convert_config_to_tmux_commands(&config, origins(1, 1));
    assert_eq!(first, second);
}

#[test]
fn it_prefixes_every_command_with_the_split_flag_tokens() {
    let without = Config {
        attached: true,
        name: String::from("p"),
        windows: vec![Window {
            layout: None,
            name: Some(String::from("w")),
            panes: vec![plain_pane("a"), plain_pane("b")],
            start_directory: None,
        }],
        ..Config::default()
    };
    let with = Config {
        tmux_options: Some(String::from("-f custom.conf")),
        attached: true,
        name: String::from("p"),
        windows: vec![Window {
            layout: None,
            name: Some(String::from("w")),
            panes: vec![plain_pane("a"), plain_pane("b")],
            start_directory: None,
        }],
        ..Config::default()
    };
    let plain = convert_config_to_tmux_commands(&without, origins(0, 0));
    let prefixed = convert_config_to_tmux_commands(&with, origins(0, 0));
    assert_eq!(plain.len(), prefixed.len());
    for (bare, wrapped) in plain.iter().zip(prefixed.iter()) {
        assert_eq!("-f", wrapped.0[0]);
        assert_eq!("custom.conf", wrapped.0[1]);
        assert_eq!(bare.0[..], wrapped.0[2..]);
        assert_eq!(bare.1, wrapped.1);
    }
}

#[test]
fn it_compiles_the_two_window_example() {
    let named_window = |name: &str| Window {
        layout: None,
        name: Some(name.to_string()),
        panes: Vec::new(),
        start_directory: None,
    };
    let config = Config {
        name: String::from("demo"),
        windows: vec![named_window("one"), named_window("two")],
        ..Config::default()
    };
    let commands = convert_config_to_tmux_commands(&config, origins(0, 0));
    let expected = vec![
        (
            tokens(&["new-session", "-d", "-s", "demo", "-n", "one"]),
            false,
        ),
        (tokens(&["new-window", "-t", "demo:1", "-n", "two"]), false),
    ];
    assert_eq!(expected, commands);
}

#[test]
fn it_sends_a_change_directory_line_for_a_pane_directory() {
    let config = Config {
        name: String::from("demo"),
        windows: vec![
            Window::default(),
            Window {
                layout: None,
                name: None,
                panes: vec![Pane {
                    commands: Vec::new(),
                    name: None,
                    start_directory: Some(String::from("/tmp/x")),
                }],
                start_directory: None,
            },
        ],
        ..Config::default()
    };
    let commands = convert_config_to_tmux_commands(&config, origins(0, 0));
    let expected = vec![
        (tokens(&["new-session", "-d", "-s", "demo"]), false),
        (tokens(&["new-window", "-t", "demo:1"]), false),
        (
            tokens(&["send-keys", "-t", "demo:1.0", "cd /tmp/x", "Enter"]),
            false,
        ),
    ];
    assert_eq!(expected, commands);
    let last_token = commands[2].0.last().unwrap();
    assert_eq!("Enter", last_token);
}

#[test]
fn it_binds_hooks_right_after_session_creation_in_declared_order() {
    let config = Config {
        name: String::from("h"),
        hooks: vec![
            Hook {
                command: String::from("first"),
                name: HookName::SessionCreated,
            },
            Hook {
                command: String::from("second"),
                name: HookName::ClientAttached,
            },
        ],
        windows: vec![Window::default()],
        ..Config::default()
    };
    let commands = convert_config_to_tmux_commands(&config, origins(0, 0));
    assert_eq!(
        tokens(&["set-hook", "-a", "session-created", "first"]),
        commands[1].0
    );
    assert_eq!(
        tokens(&["set-hook", "-a", "client-attached", "second"]),
        commands[2].0
    );
}

#[test]
fn it_labels_a_pane_only_when_label_and_user_option_are_both_set() {
    let labelled = Config {
        name: String::from("s"),
        pane_name_user_option: Some(String::from("title")),
        windows: vec![Window {
            layout: None,
            name: None,
            panes: vec![Pane {
                commands: Vec::new(),
                name: Some(String::from("p0")),
                start_directory: None,
            }],
            start_directory: None,
        }],
        ..Config::default()
    };
    let commands = convert_config_to_tmux_commands(&labelled, origins(0, 0));
    let expected = vec![
        (tokens(&["new-session", "-d", "-s", "s"]), false),
        (
            tokens(&["set-option", "-p", "-t", "s:0.0", "@title", "p0"]),
            false,
        ),
    ];
    assert_eq!(expected, commands);

    let unlabelled = Config {
        name: String::from("s"),
        pane_name_user_option: None,
        windows: vec![Window {
            layout: None,
            name: None,
            panes: vec![Pane {
                commands: Vec::new(),
                name: Some(String::from("p0")),
                start_directory: None,
            }],
            start_directory: None,
        }],
        ..Config::default()
    };
    let commands = convert_config_to_tmux_commands(&unlabelled, origins(0, 0));
    assert_eq!(1, commands.len());
}

#[test]
fn it_selects_the_window_layout_over_the_config_layout_after_the_panes() {
    let config = Config {
        name: String::from("s"),
        layout: Some(Layout::EvenVertical),
        windows: vec![Window {
            layout: Some(Layout::Tiled),
            name: None,
            panes: vec![plain_pane("a")],
            start_directory: None,
        }],
        ..Config::default()
    };
    let commands = convert_config_to_tmux_commands(&config, origins(0, 0));
    let expected = vec![
        (tokens(&["new-session", "-d", "-s", "s"]), false),
        (tokens(&["send-keys", "-t", "s:0.0", "a", "Enter"]), false),
        (tokens(&["select-layout", "-t", "s:0", "tiled"]), false),
    ];
    assert_eq!(expected, commands);
}

#[test]
fn it_ignores_the_config_directory_for_the_session_when_a_window_exists() {
    let config = Config {
        name: String::from("s"),
        start_directory: Some(String::from("/c")),
        windows: vec![Window::default()],
        ..Config::default()
    };
    let commands = convert_config_to_tmux_commands(&config, origins(0, 0));
    assert_eq!(1, commands.len());
    assert_eq!(tokens(&["new-session", "-d", "-s", "s"]), commands[0].0);

    let without_windows = Config {
        name: String::from("s"),
        start_directory: Some(String::from("/c")),
        ..Config::default()
    };
    let commands = convert_config_to_tmux_commands(&without_windows, origins(0, 0));
    assert_eq!(
        tokens(&["new-session", "-d", "-s", "s", "-c", "/c"]),
        commands[0].0
    );
}

#[test]
fn it_parses_both_origins_from_a_combined_query_output() {
    let indices = parse_base_indices("base-index 3\npane-base-index 5\n");
    assert_eq!(3, indices.base_index);
    assert_eq!(5, indices.pane_base_index);
}

#[test]
fn it_parses_the_origins_with_the_fields_in_either_order() {
    let indices = parse_base_indices("pane-base-index 5\nbase-index 3");
    assert_eq!(3, indices.base_index);
    assert_eq!(5, indices.pane_base_index);
}

#[test]
fn it_finds_an_origin_on_any_line_of_the_output() {
    let indices = parse_base_indices("some preamble\nbase-index 4\ntrailing text");
    assert_eq!(4, indices.base_index);
    assert_eq!(0, indices.pane_base_index);
}

#[test]
fn it_reads_a_field_only_at_a_line_start() {
    let indices = parse_base_indices("echo base-index 9");
    assert_eq!(0, indices.base_index);
    assert_eq!(0, indices.pane_base_index);
}

#[test]
fn it_tolerates_leading_zeros_in_an_origin() {
    let indices = parse_base_indices("base-index 0007");
    assert_eq!(7, indices.base_index);
    assert_eq!(0, indices.pane_base_index);
}

#[test]
fn it_defaults_an_origin_too_large_for_the_machine_to_zero() {
    let indices = parse_base_indices("base-index 999999999999999999999999999999999999999");
    assert_eq!(0, indices.base_index);
    assert_eq!(0, indices.pane_base_index);
}

#[test]
fn it_skips_the_change_directory_line_for_an_empty_directory() {
    let config = Config {
        name: String::from("s"),
        windows: vec![Window {
            layout: None,
            name: None,
            panes: vec![Pane {
                commands: Vec::new(),
                name: None,
                start_directory: Some(String::new()),
            }],
            start_directory: None,
        }],
        ..Config::default()
    };
    let commands = convert_config_to_tmux_commands(&config, origins(0, 0));
    assert_eq!(1, commands.len());
    assert_eq!(tokens(&["new-session", "-d", "-s", "s"]), commands[0].0);
}

#[test]
fn it_prefixes_with_one_empty_token_for_an_empty_flag_string() {
    let config = Config {
        name: String::from("s"),
        tmux_options: Some(String::new()),
        ..Config::default()
    };
    let commands = convert_config_to_tmux_commands(&config, origins(0, 0));
    assert_eq!(1, commands.len());
    assert_eq!(
        tokens(&["", "new-session", "-d", "-s", "s"]),
        commands[0].0
    );
}
