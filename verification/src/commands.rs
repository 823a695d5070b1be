//! One builder per command kind: each maps a few typed inputs to the
//! ordered token list of one external tmux invocation, and each is pinned
//! to a spec-level description of exactly those tokens.
use vstd::prelude::*;
use vstd::string::*;
use crate::config::{Config, Hook, HookName, Layout, StartDirectory};
use crate::config::{hook_name_token, layout_token};
use crate::text::{dec_str, push_char, tokens_view, opt_tokens_view, u128_to_string};

verus! {

/// The token "session:window" addressing one window.
pub open spec fn spec_target(name: Seq<char>, window_index: int) -> Seq<char> {
    name + seq![':'] + dec_str(window_index)
}

/// The token "session:window.pane" addressing one pane.
pub open spec fn spec_pane_target(name: Seq<char>, window_index: int, pane_index: int) -> Seq<
    char,
> {
    name + seq![':'] + dec_str(window_index) + seq!['.'] + dec_str(pane_index)
}

fn build_target(session_name: &str, window_index: u128) -> (r: String)
    ensures
        r@ == spec_target(session_name@, window_index as int),
{
    let mut t = String::from_str(session_name);
    push_char(&mut t, ':');
    let digits = u128_to_string(window_index);
    t.append(digits.as_str());
    proof {
        assert(t@ =~= spec_target(session_name@, window_index as int));
    }
    t
}

fn build_pane_target_token(session_name: &str, window_index: u128, pane_index: u128) -> (r:
    String)
    ensures
        r@ == spec_pane_target(session_name@, window_index as int, pane_index as int),
{
    let mut t = build_target(session_name, window_index);
    push_char(&mut t, '.');
    let digits = u128_to_string(pane_index);
    t.append(digits.as_str());
    proof {
        assert(t@ =~= spec_pane_target(session_name@, window_index as int, pane_index as int));
    }
    t
}

/// The split-pane command for one more pane in a window.
pub open spec fn spec_pane_args(name: Seq<char>, window_index: int) -> Seq<Seq<char>> {
    seq!["split-window"@, "-t"@, spec_target(name, window_index)]
}

/// Builds the command that splits one more pane off a window.
pub fn build_pane_args(session_name: &str, window_index: u128) -> (r: Vec<String>)
    ensures
        tokens_view(r@) == spec_pane_args(session_name@, window_index as int),
{
    let mut r: Vec<String> = Vec::new();
    r.push(String::from_str("split-window"));
    r.push(String::from_str("-t"));
    r.push(build_target(session_name, window_index));
    proof {
        assert(tokens_view(r@) =~= spec_pane_args(session_name@, window_index as int));
    }
    r
}

/// The layout a window ends up with: its own, else the config default,
/// else none.
pub open spec fn spec_effective_layout(config_layout: Option<Layout>, window_layout: Option<
    Layout,
>) -> Option<Layout> {
    if window_layout is Some {
        window_layout
    } else {
        config_layout
    }
}

/// The select-layout command for a window, absent when neither the window
/// nor the config names a layout.
pub open spec fn spec_window_layout_args(
    name: Seq<char>,
    window_index: int,
    config_layout: Option<Layout>,
    window_layout: Option<Layout>,
) -> Option<Seq<Seq<char>>> {
    match spec_effective_layout(config_layout, window_layout) {
        Some(l) => Some(
            seq!["select-layout"@, "-t"@, spec_target(name, window_index), layout_token(l)],
        ),
        None => None,
    }
}

/// Builds the command that selects a window's layout, if any is
/// configured.
pub fn build_window_layout_args(
    session_name: &str,
    window_index: u128,
    config_layout: &Option<Layout>,
    window_layout: &Option<Layout>,
) -> (r: Option<Vec<String>>)
    ensures
        opt_tokens_view(r) == spec_window_layout_args(
            session_name@,
            window_index as int,
            *config_layout,
            *window_layout,
        ),
{
    let maybe_layout = if window_layout.is_some() {
        window_layout
    } else {
        config_layout
    };
    match maybe_layout {
        Some(layout) => {
            let mut v: Vec<String> = Vec::new();
            v.push(String::from_str("select-layout"));
            v.push(String::from_str("-t"));
            v.push(build_target(session_name, window_index));
            v.push(layout.to_string());
            proof {
                assert(tokens_view(v@) =~= spec_window_layout_args(
                    session_name@,
                    window_index as int,
                    *config_layout,
                    *window_layout,
                ).unwrap());
            }
            Some(v)
        },
        None => None,
    }
}

/// The create-window command for a window past the first, with its name
/// and starting directory when present.
pub open spec fn spec_create_window_args(
    name: Seq<char>,
    window_index: int,
    window_name: Option<Seq<char>>,
    start_directory: Option<Seq<char>>,
) -> Seq<Seq<char>> {
    seq!["new-window"@, "-t"@, spec_target(name, window_index)] + (match window_name {
        Some(n) => seq!["-n"@, n],
        None => Seq::<Seq<char>>::empty(),
    }) + (match start_directory {
        Some(d) => seq!["-c"@, d],
        None => Seq::<Seq<char>>::empty(),
    })
}

/// Builds the command that creates one window past the first.
pub fn build_create_window_args(
    session_name: &str,
    window_index: u128,
    window_name: &Option<String>,
    start_directory: &Option<String>,
) -> (r: Vec<String>)
    ensures
        tokens_view(r@) == spec_create_window_args(
            session_name@,
            window_index as int,
            window_name.deep_view(),
            start_directory.deep_view(),
        ),
{
    let mut r: Vec<String> = Vec::new();
    r.push(String::from_str("new-window"));
    r.push(String::from_str("-t"));
    r.push(build_target(session_name, window_index));
    match window_name {
        Some(n) => {
            r.push(String::from_str("-n"));
            r.push(n.clone());
        },
        None => {},
    }
    match start_directory {
        Some(d) => {
            r.push(String::from_str("-c"));
            r.push(d.clone());
        },
        None => {},
    }
    proof {
        assert(tokens_view(r@) =~= spec_create_window_args(
            session_name@,
            window_index as int,
            window_name.deep_view(),
            start_directory.deep_view(),
        ));
    }
    r
}

/// The create-session command: detached, named, and — when a first window
/// exists — carrying that window's name, plus the session-level starting
/// directory when present.
pub open spec fn spec_session_args(
    name: Seq<char>,
    window_name: Option<Seq<char>>,
    start_directory: Option<Seq<char>>,
) -> Seq<Seq<char>> {
    seq!["new-session"@, "-d"@, "-s"@, name] + (match window_name {
        Some(n) => seq!["-n"@, n],
        None => Seq::<Seq<char>>::empty(),
    }) + (match start_directory {
        Some(d) => seq!["-c"@, d],
        None => Seq::<Seq<char>>::empty(),
    })
}

/// Builds the command that creates the detached session, which also
/// creates the first window and its first pane implicitly.
pub fn build_session_args(
    session_name: &str,
    window_name: Option<String>,
    start_directory: &StartDirectory,
) -> (r: Vec<String>)
    ensures
        tokens_view(r@) == spec_session_args(
            session_name@,
            window_name.deep_view(),
            start_directory.deep_view(),
        ),
{
    let mut r: Vec<String> = Vec::new();
    r.push(String::from_str("new-session"));
    r.push(String::from_str("-d"));
    r.push(String::from_str("-s"));
    r.push(String::from_str(session_name));
    match window_name {
        Some(n) => {
            r.push(String::from_str("-n"));
            r.push(n);
        },
        None => {},
    }
    match start_directory {
        Some(d) => {
            r.push(String::from_str("-c"));
            r.push(d.clone());
        },
        None => {},
    }
    proof {
        assert(tokens_view(r@) =~= spec_session_args(
            session_name@,
            window_name.deep_view(),
            start_directory.deep_view(),
        ));
    }
    r
}

/// The send-keys command that types one line into a pane and presses
/// Enter.
pub open spec fn spec_pane_command_args(
    name: Seq<char>,
    window_index: int,
    pane_index: int,
    command: Seq<char>,
) -> Seq<Seq<char>> {
    seq![
        "send-keys"@,
        "-t"@,
        spec_pane_target(name, window_index, pane_index),
        command,
        "Enter"@,
    ]
}

/// Builds the command that sends one shell command line to a pane.
pub fn build_pane_command_args(
    session_name: &str,
    window_index: u128,
    pane_index: u128,
    command: &str,
) -> (r: Vec<String>)
    ensures
        tokens_view(r@) == spec_pane_command_args(
            session_name@,
            window_index as int,
            pane_index as int,
            command@,
        ),
{
    let mut r: Vec<String> = Vec::new();
    r.push(String::from_str("send-keys"));
    r.push(String::from_str("-t"));
    r.push(build_pane_target_token(session_name, window_index, pane_index));
    r.push(String::from_str(command));
    r.push(String::from_str("Enter"));
    proof {
        assert(tokens_view(r@) =~= spec_pane_command_args(
            session_name@,
            window_index as int,
            pane_index as int,
            command@,
        ));
    }
    r
}

/// The attach-session command that hands the terminal to the new session.
pub open spec fn spec_attach_args(name: Seq<char>) -> Seq<Seq<char>> {
    seq!["-u"@, "attach-session"@, "-t"@, name]
}

/// Builds the command that attaches the caller's terminal to the session.
pub fn build_attach_command_args(session_name: &str) -> (r: Vec<String>)
    ensures
        tokens_view(r@) == spec_attach_args(session_name@),
{
    let mut r: Vec<String> = Vec::new();
    r.push(String::from_str("-u"));
    r.push(String::from_str("attach-session"));
    r.push(String::from_str("-t"));
    r.push(String::from_str(session_name));
    proof {
        assert(tokens_view(r@) =~= spec_attach_args(session_name@));
    }
    r
}

/// The set-hook command binding one event to one command.
pub open spec fn spec_hook_args(name: HookName, command: Seq<char>) -> Seq<Seq<char>> {
    seq!["set-hook"@, "-a"@, hook_name_token(name), command]
}

/// Builds the command that binds one hook.
pub fn build_hook_args(hook: &Hook) -> (r: Vec<String>)
    ensures
        tokens_view(r@) == spec_hook_args(hook.name, hook.command@),
{
    let mut r: Vec<String> = Vec::new();
    r.push(String::from_str("set-hook"));
    r.push(String::from_str("-a"));
    r.push(hook.name.to_string());
    r.push(hook.command.clone());
    proof {
        assert(tokens_view(r@) =~= spec_hook_args(hook.name, hook.command@));
    }
    r
}

/// The set-option command labelling one pane, present only when both the
/// pane label and the label user option key are configured.
pub open spec fn spec_rename_pane_args(
    name: Seq<char>,
    window_index: int,
    pane_index: int,
    pane_name_user_option: Option<Seq<char>>,
    pane_name: Option<Seq<char>>,
) -> Option<Seq<Seq<char>>> {
    match (pane_name_user_option, pane_name) {
        (Some(key), Some(label)) => Some(
            seq![
                "set-option"@,
                "-p"@,
                "-t"@,
                spec_pane_target(name, window_index, pane_index),
                "@"@ + key,
                label,
            ],
        ),
        _ => None,
    }
}

/// Builds the command that writes a pane's label into the configured user
/// option, when both are present.
pub fn build_rename_pane_args(
    session_name: &str,
    window_index: u128,
    pane_index: u128,
    pane_name_user_option: &Option<String>,
    pane_name: &Option<String>,
) -> (r: Option<Vec<String>>)
    ensures
        opt_tokens_view(r) == spec_rename_pane_args(
            session_name@,
            window_index as int,
            pane_index as int,
            pane_name_user_option.deep_view(),
            pane_name.deep_view(),
        ),
{
    match (pane_name_user_option, pane_name) {
        (Some(key), Some(label)) => {
            let mut v: Vec<String> = Vec::new();
            v.push(String::from_str("set-option"));
            v.push(String::from_str("-p"));
            v.push(String::from_str("-t"));
            v.push(build_pane_target_token(session_name, window_index, pane_index));
            let mut user_option = String::from_str("@");
            user_option.append(key.as_str());
            v.push(user_option);
            v.push(label.clone());
            proof {
                assert(tokens_view(v@) =~= spec_rename_pane_args(
                    session_name@,
                    window_index as int,
                    pane_index as int,
                    pane_name_user_option.deep_view(),
                    pane_name.deep_view(),
                ).unwrap());
            }
            Some(v)
        },
        _ => None,
    }
}

/// The directory the session itself starts in: the first window's
/// override when any window exists, else the config's own.
pub open spec fn spec_session_start_directory(
    windows: Seq<crate::config::WindowView>,
    config_dir: Option<Seq<char>>,
) -> Option<Seq<char>> {
    if windows.len() > 0 {
        windows[0].start_directory
    } else {
        config_dir
    }
}

pub(crate) fn clone_opt_string(o: &Option<String>) -> (r: Option<String>)
    ensures
        r.deep_view() == o.deep_view(),
{
    match o {
        Some(s) => Some(s.clone()),
        None => None,
    }
}

/// Resolves the starting directory for the session and its first window.
pub fn build_session_start_directory(config: &Config) -> (r: StartDirectory)
    ensures
        r.deep_view() == spec_session_start_directory(config@.windows, config@.start_directory),
{
    if config.windows.len() > 0 {
        clone_opt_string(&config.windows[0].start_directory)
    } else {
        clone_opt_string(&config.start_directory)
    }
}

/// The directory a window starts in: its own override, else the config's.
pub open spec fn spec_window_start_directory(
    config_dir: Option<Seq<char>>,
    window_dir: Option<Seq<char>>,
) -> Option<Seq<char>> {
    if window_dir is Some {
        window_dir
    } else {
        config_dir
    }
}

/// Resolves a window's starting directory.
pub fn build_window_start_directory(
    config_start_directory: &StartDirectory,
    window_start_directory: &StartDirectory,
) -> (r: StartDirectory)
    ensures
        r.deep_view() == spec_window_start_directory(
            config_start_directory.deep_view(),
            window_start_directory.deep_view(),
        ),
{
    if window_start_directory.is_some() {
        clone_opt_string(window_start_directory)
    } else {
        clone_opt_string(config_start_directory)
    }
}

/// The directory a pane starts in, most specific first: the pane's own
/// override, else the window's, else the config's, else none.
pub open spec fn spec_pane_start_directory(
    config_dir: Option<Seq<char>>,
    window_dir: Option<Seq<char>>,
    pane_dir: Option<Seq<char>>,
) -> Option<Seq<char>> {
    if pane_dir is Some {
        pane_dir
    } else if window_dir is Some {
        window_dir
    } else {
        config_dir
    }
}

/// Resolves a pane's starting directory.
pub fn build_pane_start_directory(
    config_start_directory: &StartDirectory,
    window_start_directory: &StartDirectory,
    pane_start_directory: &StartDirectory,
) -> (r: StartDirectory)
    ensures
        r.deep_view() == spec_pane_start_directory(
            config_start_directory.deep_view(),
            window_start_directory.deep_view(),
            pane_start_directory.deep_view(),
        ),
{
    if pane_start_directory.is_some() {
        clone_opt_string(pane_start_directory)
    } else if window_start_directory.is_some() {
        clone_opt_string(window_start_directory)
    } else {
        clone_opt_string(config_start_directory)
    }
}

} // verus!
