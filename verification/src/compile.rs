//! The config-to-command compiler: walks session, windows and panes in
//! declaration order, skips the creation commands the multiplexer performs
//! implicitly, resolves inherited directories and layouts, and emits the
//! exact ordered command sequence, optionally prefixed with the global
//! flag tokens.
use vstd::prelude::*;
use vstd::string::*;
use crate::commands::{
    build_attach_command_args, build_create_window_args, build_hook_args, build_pane_args,
    build_pane_command_args, build_pane_start_directory, build_rename_pane_args,
    build_session_args, build_session_start_directory, build_window_layout_args,
    build_window_start_directory, clone_opt_string, spec_attach_args, spec_create_window_args,
    spec_hook_args, spec_pane_args, spec_pane_command_args, spec_pane_start_directory,
    spec_rename_pane_args, spec_session_args, spec_session_start_directory,
    spec_window_layout_args, spec_window_start_directory,
};
use crate::config::{Config, ConfigView, HookView, Layout, TmuxBaseIndices, Window, WindowView};
use crate::text::{cmds_view, spec_split_spaces, split_spaces, tokens_view};

verus! {

broadcast use {
    vstd::seq_lib::group_seq_lib_default,
    crate::text::lemma_cmds_view_push,
};

/// One emitted command: its tokens and whether the caller must block on
/// it.
pub type CmdView = (Seq<Seq<char>>, bool);

proof fn lemma_add_one<T>(x: Seq<T>, e: T)
    ensures
        x + seq![e] == x.push(e),
{
    assert(x + seq![e] =~= x.push(e));
}

proof fn lemma_assoc<T>(x: Seq<T>, y: Seq<T>, z: Seq<T>)
    ensures
        (x + y) + z == x + (y + z),
{
    assert((x + y) + z =~= x + (y + z));
}

/// The name the create-session command carries for the first window: the
/// first window's, when any window exists.
pub open spec fn spec_first_window_name(windows: Seq<WindowView>) -> Option<Seq<char>> {
    if windows.len() > 0 {
        windows[0].name
    } else {
        None
    }
}

/// The create-session command of a configuration.
pub open spec fn spec_session_cmd(c: ConfigView) -> CmdView {
    (
        spec_session_args(
            c.name,
            spec_first_window_name(c.windows),
            spec_session_start_directory(c.windows, c.start_directory),
        ),
        false,
    )
}

/// The commands binding the first n hooks, in declared order.
pub open spec fn spec_hooks_cmds(hooks: Seq<HookView>, n: int) -> Seq<CmdView>
    decreases n,
{
    if n <= 0 {
        Seq::<CmdView>::empty()
    } else {
        spec_hooks_cmds(hooks, n - 1).push(
            (spec_hook_args(hooks[n - 1].name, hooks[n - 1].command), false),
        )
    }
}

/// The send-keys commands for the first k configured command lines of one
/// pane, in order.
pub open spec fn spec_shell_cmds(
    name: Seq<char>,
    window_index: int,
    pane_index: int,
    commands: Seq<Seq<char>>,
    k: int,
) -> Seq<CmdView>
    decreases k,
{
    if k <= 0 {
        Seq::<CmdView>::empty()
    } else {
        spec_shell_cmds(name, window_index, pane_index, commands, k - 1).push(
            (spec_pane_command_args(name, window_index, pane_index, commands[k - 1]), false),
        )
    }
}

/// The commands for the pane at ordinal position j in a window whose
/// absolute index is window_index: a split for every ordinal past 0, a
/// change-directory line when a non-empty directory resolves, the
/// configured command lines, and the label option when configured.
pub open spec fn spec_pane_cmds(
    name: Seq<char>,
    config_dir: Option<Seq<char>>,
    w: WindowView,
    user_opt: Option<Seq<char>>,
    window_index: int,
    pane_base: int,
    j: int,
) -> Seq<CmdView> {
    let p = w.panes[j];
    let pane_index = pane_base + j;
    (if j > 0 {
        seq![(spec_pane_args(name, window_index), false)]
    } else {
        Seq::<CmdView>::empty()
    }) + (match spec_pane_start_directory(config_dir, w.start_directory, p.start_directory) {
        Some(d) => if d.len() > 0 {
            seq![(spec_pane_command_args(name, window_index, pane_index, "cd "@ + d), false)]
        } else {
            Seq::<CmdView>::empty()
        },
        None => Seq::<CmdView>::empty(),
    }) + spec_shell_cmds(name, window_index, pane_index, p.commands, p.commands.len() as int) + (
    match spec_rename_pane_args(name, window_index, pane_index, user_opt, p.name) {
        Some(a) => seq![(a, false)],
        None => Seq::<CmdView>::empty(),
    })
}

/// The commands of the first m panes of one window, in ordinal order.
pub open spec fn spec_panes_cmds(
    name: Seq<char>,
    config_dir: Option<Seq<char>>,
    w: WindowView,
    user_opt: Option<Seq<char>>,
    window_index: int,
    pane_base: int,
    m: int,
) -> Seq<CmdView>
    decreases m,
{
    if m <= 0 {
        Seq::<CmdView>::empty()
    } else {
        spec_panes_cmds(name, config_dir, w, user_opt, window_index, pane_base, m - 1)
            + spec_pane_cmds(name, config_dir, w, user_opt, window_index, pane_base, m - 1)
    }
}

/// The commands for the window w at ordinal position i: a create-window
/// for every ordinal past 0, then its panes, then its layout selection
/// when one resolves.
pub open spec fn spec_window_cmds(
    name: Seq<char>,
    config_dir: Option<Seq<char>>,
    config_layout: Option<Layout>,
    user_opt: Option<Seq<char>>,
    w: WindowView,
    base: int,
    pane_base: int,
    i: int,
) -> Seq<CmdView> {
    let window_index = base + i;
    (if i > 0 {
        seq![
            (
                spec_create_window_args(
                    name,
                    window_index,
                    w.name,
                    spec_window_start_directory(config_dir, w.start_directory),
                ),
                false,
            ),
        ]
    } else {
        Seq::<CmdView>::empty()
    }) + spec_panes_cmds(name, config_dir, w, user_opt, window_index, pane_base, w.panes.len() as int)
        + (match spec_window_layout_args(name, window_index, config_layout, w.layout) {
        Some(a) => seq![(a, false)],
        None => Seq::<CmdView>::empty(),
    })
}

/// The commands of the first n windows, in ordinal order.
pub open spec fn spec_windows_cmds(
    name: Seq<char>,
    config_dir: Option<Seq<char>>,
    config_layout: Option<Layout>,
    user_opt: Option<Seq<char>>,
    windows: Seq<WindowView>,
    base: int,
    pane_base: int,
    n: int,
) -> Seq<CmdView>
    decreases n,
{
    if n <= 0 {
        Seq::<CmdView>::empty()
    } else {
        spec_windows_cmds(name, config_dir, config_layout, user_opt, windows, base, pane_base, n - 1)
            + spec_window_cmds(
            name,
            config_dir,
            config_layout,
            user_opt,
            windows[n - 1],
            base,
            pane_base,
            n - 1,
        )
    }
}

/// The whole command sequence before any global flag prefixing: the
/// create-session command, the hook bindings, the windows in order, and
/// the final attach when configured.
pub open spec fn spec_unprefixed_cmds(c: ConfigView, b: TmuxBaseIndices) -> Seq<CmdView> {
    seq![spec_session_cmd(c)] + spec_hooks_cmds(c.hooks, c.hooks.len() as int)
        + spec_windows_cmds(
        c.name,
        c.start_directory,
        c.layout,
        c.pane_name_user_option,
        c.windows,
        b.base_index as int,
        b.pane_base_index as int,
        c.windows.len() as int,
    ) + (if c.attached {
        seq![(spec_attach_args(c.name), true)]
    } else {
        Seq::<CmdView>::empty()
    })
}

/// The tokens prepended to every command: the global flag string split on
/// spaces, or nothing.
pub open spec fn spec_flag_prefix(c: ConfigView) -> Seq<Seq<char>> {
    match c.tmux_options {
        Some(o) => spec_split_spaces(o),
        None => Seq::<Seq<char>>::empty(),
    }
}

/// Every command with the prefix tokens prepended, order and blocking
/// flags unchanged.
pub open spec fn spec_apply_prefix(prefix: Seq<Seq<char>>, cmds: Seq<CmdView>) -> Seq<CmdView> {
    Seq::new(cmds.len(), |i: int| (prefix + cmds[i].0, cmds[i].1))
}

/// The full compilation of a configuration against the discovered
/// origins.
pub open spec fn spec_compile(c: ConfigView, b: TmuxBaseIndices) -> Seq<CmdView> {
    spec_apply_prefix(spec_flag_prefix(c), spec_unprefixed_cmds(c, b))
}

fn prefix_tokens(parts: &Vec<String>, tokens: &Vec<String>) -> (r: Vec<String>)
    ensures
        tokens_view(r@) == tokens_view(parts@) + tokens_view(tokens@),
{
    let mut r: Vec<String> = Vec::new();
    let mut a: usize = 0;
    while a < parts.len()
        invariant
            a <= parts@.len(),
            r@.len() == a,
            forall|x: int| 0 <= x < a ==> r@[x]@ == parts@[x]@,
        decreases parts@.len() - a,
    {
        r.push(parts[a].clone());
        a += 1;
    }
    let mut t: usize = 0;
    while t < tokens.len()
        invariant
            t <= tokens@.len(),
            r@.len() == parts@.len() + t,
            forall|x: int| 0 <= x < parts@.len() ==> r@[x]@ == parts@[x]@,
            forall|x: int| 0 <= x < t ==> r@[parts@.len() + x]@ == tokens@[x]@,
        decreases tokens@.len() - t,
    {
        r.push(tokens[t].clone());
        t += 1;
    }
    proof {
        assert(tokens_view(r@) =~= tokens_view(parts@) + tokens_view(tokens@));
    }
    r
}

/// Appends the commands of the pane at ordinal position j of one window.
#[verifier::loop_isolation(false)]
fn emit_pane_cmds(
    commands: &mut Vec<(Vec<String>, bool)>,
    config: &Config,
    window: &Window,
    j: usize,
    window_index: u128,
    pane_base: usize,
)
    requires
        j < window.panes@.len(),
    ensures
        cmds_view(final(commands)@) == cmds_view(old(commands)@) + spec_pane_cmds(
            config@.name,
            config@.start_directory,
            window@,
            config@.pane_name_user_option,
            window_index as int,
            pane_base as int,
            j as int,
        ),
{
    let ghost c = config@;
    let ghost w = window@;
    let ghost head = cmds_view(old(commands)@);
    let session_name: &str = config.name.as_str();
    let pane = &window.panes[j];
    let ghost p = w.panes[j as int];
    proof {
        assert(p == window.panes@[j as int]@);
    }
    let pane_index: u128 = pane_base as u128 + j as u128;
    let ghost pi = pane_base as int + j as int;
    let ghost split_part = if j > 0 {
        seq![(spec_pane_args(c.name, window_index as int), false)]
    } else {
        Seq::<CmdView>::empty()
    };
    if j > 0 {
        let pane_args = build_pane_args(session_name, window_index);
        commands.push((pane_args, false));
        proof {
            lemma_add_one(head, (spec_pane_args(c.name, window_index as int), false));
            assert(cmds_view(commands@) == head + split_part);
        }
    } else {
        proof {
            assert(cmds_view(commands@) == head + split_part);
        }
    }
    let ghost dir_part = match spec_pane_start_directory(
        c.start_directory,
        w.start_directory,
        p.start_directory,
    ) {
        Some(d) => if d.len() > 0 {
            seq![(spec_pane_command_args(c.name, window_index as int, pi, "cd "@ + d), false)]
        } else {
            Seq::<CmdView>::empty()
        },
        None => Seq::<CmdView>::empty(),
    };
    let pane_start_directory = build_pane_start_directory(
        &config.start_directory,
        &window.start_directory,
        &pane.start_directory,
    );
    match pane_start_directory {
        Some(psd) => {
            if psd.as_str().is_empty() {
                proof {
                    assert(cmds_view(commands@) == head + split_part + dir_part);
                }
            } else {
                let mut cd_command = String::from_str("cd ");
                cd_command.append(psd.as_str());
                let pane_command_args = build_pane_command_args(
                    session_name,
                    window_index,
                    pane_index,
                    cd_command.as_str(),
                );
                commands.push((pane_command_args, false));
                proof {
                    lemma_add_one(
                        head + split_part,
                        (
                            spec_pane_command_args(
                                c.name,
                                window_index as int,
                                pi,
                                "cd "@ + psd@,
                            ),
                            false,
                        ),
                    );
                    assert(cmds_view(commands@) == head + split_part + dir_part);
                }
            }
        },
        None => {
            proof {
                assert(cmds_view(commands@) == head + split_part + dir_part);
            }
        },
    }
    let mut k: usize = 0;
    while k < pane.commands.len()
        invariant
            k <= pane.commands@.len(),
            cmds_view(commands@) == head + split_part + dir_part + spec_shell_cmds(
                c.name,
                window_index as int,
                pi,
                p.commands,
                k as int,
            ),
        decreases pane.commands@.len() - k,
    {
        let ghost before = commands@;
        let pane_command_args = build_pane_command_args(
            session_name,
            window_index,
            pane_index,
            pane.commands[k].as_str(),
        );
        commands.push((pane_command_args, false));
        proof {
            assert(p.commands[k as int] == pane.commands@[k as int]@);
            let elem = (
                spec_pane_command_args(c.name, window_index as int, pi, p.commands[k as int]),
                false,
            );
            assert(cmds_view(commands@) == cmds_view(before).push(elem));
            assert(cmds_view(commands@) == head + split_part + dir_part + spec_shell_cmds(
                c.name,
                window_index as int,
                pi,
                p.commands,
                k + 1,
            ));
        }
        k += 1;
    }
    let ghost shell_part = spec_shell_cmds(
        c.name,
        window_index as int,
        pi,
        p.commands,
        p.commands.len() as int,
    );
    proof {
        assert(p.commands.len() == pane.commands@.len());
    }
    let ghost rename_part = match spec_rename_pane_args(
        c.name,
        window_index as int,
        pi,
        c.pane_name_user_option,
        p.name,
    ) {
        Some(a) => seq![(a, false)],
        None => Seq::<CmdView>::empty(),
    };
    let rename_pane_args = build_rename_pane_args(
        session_name,
        window_index,
        pane_index,
        &config.pane_name_user_option,
        &pane.name,
    );
    match rename_pane_args {
        Some(rename_pane_args_) => {
            let ghost rtoks = rename_pane_args_@;
            commands.push((rename_pane_args_, false));
            proof {
                lemma_add_one(
                    head + split_part + dir_part + shell_part,
                    (crate::text::tokens_view(rtoks), false),
                );
                assert(cmds_view(commands@) == head + split_part + dir_part + shell_part
                    + rename_part);
            }
        },
        None => {
            proof {
                assert(cmds_view(commands@) == head + split_part + dir_part + shell_part
                    + rename_part);
            }
        },
    }
    proof {
        lemma_assoc(head, split_part, dir_part);
        lemma_assoc(head, split_part + dir_part, shell_part);
        lemma_assoc(head, split_part + dir_part + shell_part, rename_part);
        assert(cmds_view(commands@) == head + (split_part + dir_part + shell_part + rename_part));
        assert(spec_pane_cmds(
            c.name,
            c.start_directory,
            w,
            c.pane_name_user_option,
            window_index as int,
            pane_base as int,
            j as int,
        ) == split_part + dir_part + shell_part + rename_part);
    }
}

/// Appends the commands of the window at ordinal position i.
#[verifier::loop_isolation(false)]
fn emit_window_cmds(
    commands: &mut Vec<(Vec<String>, bool)>,
    config: &Config,
    window: &Window,
    i: usize,
    base_indices: &TmuxBaseIndices,
)
    ensures
        cmds_view(final(commands)@) == cmds_view(old(commands)@) + spec_window_cmds(
            config@.name,
            config@.start_directory,
            config@.layout,
            config@.pane_name_user_option,
            window@,
            base_indices.base_index as int,
            base_indices.pane_base_index as int,
            i as int,
        ),
{
    let ghost c = config@;
    let ghost w = window@;
    let ghost head = cmds_view(old(commands)@);
    let session_name: &str = config.name.as_str();
    let window_index: u128 = base_indices.base_index as u128 + i as u128;
    let ghost wi = base_indices.base_index as int + i as int;
    let ghost create_part = if i > 0 {
        seq![
            (
                spec_create_window_args(
                    c.name,
                    wi,
                    w.name,
                    spec_window_start_directory(c.start_directory, w.start_directory),
                ),
                false,
            ),
        ]
    } else {
        Seq::<CmdView>::empty()
    };
    if i > 0 {
        let window_start_directory = build_window_start_directory(
            &config.start_directory,
            &window.start_directory,
        );
        let create_window_args = build_create_window_args(
            session_name,
            window_index,
            &window.name,
            &window_start_directory,
        );
        commands.push((create_window_args, false));
        proof {
            lemma_add_one(
                head,
                (
                    spec_create_window_args(
                        c.name,
                        wi,
                        w.name,
                        spec_window_start_directory(c.start_directory, w.start_directory),
                    ),
                    false,
                ),
            );
            assert(cmds_view(commands@) == head + create_part);
        }
    } else {
        proof {
            assert(cmds_view(commands@) == head + create_part);
        }
    }
    let mut j: usize = 0;
    while j < window.panes.len()
        invariant
            j <= window.panes@.len(),
            cmds_view(commands@) == head + create_part + spec_panes_cmds(
                c.name,
                c.start_directory,
                w,
                c.pane_name_user_option,
                wi,
                base_indices.pane_base_index as int,
                j as int,
            ),
        decreases window.panes@.len() - j,
    {
        emit_pane_cmds(commands, config, window, j, window_index, base_indices.pane_base_index);
        proof {
            lemma_assoc(
                head + create_part,
                spec_panes_cmds(
                    c.name,
                    c.start_directory,
                    w,
                    c.pane_name_user_option,
                    wi,
                    base_indices.pane_base_index as int,
                    j as int,
                ),
                spec_pane_cmds(
                    c.name,
                    c.start_directory,
                    w,
                    c.pane_name_user_option,
                    wi,
                    base_indices.pane_base_index as int,
                    j as int,
                ),
            );
            assert(cmds_view(commands@) == head + create_part + spec_panes_cmds(
                c.name,
                c.start_directory,
                w,
                c.pane_name_user_option,
                wi,
                base_indices.pane_base_index as int,
                j + 1,
            ));
        }
        j += 1;
    }
    let ghost panes_part = spec_panes_cmds(
        c.name,
        c.start_directory,
        w,
        c.pane_name_user_option,
        wi,
        base_indices.pane_base_index as int,
        w.panes.len() as int,
    );
    proof {
        assert(w.panes.len() == window.panes@.len());
    }
    let ghost layout_part = match spec_window_layout_args(c.name, wi, c.layout, w.layout) {
        Some(a) => seq![(a, false)],
        None => Seq::<CmdView>::empty(),
    };
    let window_layout_args = build_window_layout_args(
        session_name,
        window_index,
        &config.layout,
        &window.layout,
    );
    match window_layout_args {
        Some(window_layout_args_) => {
            let ghost ltoks = window_layout_args_@;
            commands.push((window_layout_args_, false));
            proof {
                lemma_add_one(
                    head + create_part + panes_part,
                    (crate::text::tokens_view(ltoks), false),
                );
                assert(cmds_view(commands@) == head + create_part + panes_part + layout_part);
            }
        },
        None => {
            proof {
                assert(cmds_view(commands@) == head + create_part + panes_part + layout_part);
            }
        },
    }
    proof {
        lemma_assoc(head, create_part, panes_part);
        lemma_assoc(head, create_part + panes_part, layout_part);
        assert(cmds_view(commands@) == head + (create_part + panes_part + layout_part));
        assert(spec_window_cmds(
            c.name,
            c.start_directory,
            c.layout,
            c.pane_name_user_option,
            w,
            base_indices.base_index as int,
            base_indices.pane_base_index as int,
            i as int,
        ) == create_part + panes_part + layout_part);
    }
}

/// Compiles a configuration into the ordered list of tmux invocations,
/// each with the flag saying whether the caller must block on it. The
/// result is exactly `spec_compile` of the inputs.
#[verifier::loop_isolation(false)]
pub fn convert_config_to_tmux_commands(config: &Config, base_indices: TmuxBaseIndices) -> (r:
    Vec<(Vec<String>, bool)>)
    ensures
        cmds_view(r@) == spec_compile(config@, base_indices),
{
    let ghost c = config@;
    let mut commands: Vec<(Vec<String>, bool)> = Vec::new();
    proof {
        assert(cmds_view(commands@) =~= Seq::<CmdView>::empty());
    }
    let session_name: &str = config.name.as_str();
    let session_start_directory = build_session_start_directory(config);
    let first_window: Option<String> = if config.windows.len() > 0 {
        clone_opt_string(&config.windows[0].name)
    } else {
        None
    };
    proof {
        if c.windows.len() > 0 {
            assert(c.windows[0] == config.windows@[0]@);
        }
        assert(first_window.deep_view() == spec_first_window_name(c.windows));
    }
    let create_session_args = build_session_args(
        session_name,
        first_window,
        &session_start_directory,
    );
    commands.push((create_session_args, false));
    let ghost head = seq![spec_session_cmd(c)];
    proof {
        assert(cmds_view(commands@) == head);
    }

    let mut h: usize = 0;
    while h < config.hooks.len()
        invariant
            h <= config.hooks@.len(),
            cmds_view(commands@) == head + spec_hooks_cmds(c.hooks, h as int),
        decreases config.hooks@.len() - h,
    {
        let ghost before = commands@;
        let hook_command = build_hook_args(&config.hooks[h]);
        commands.push((hook_command, false));
        proof {
            assert(c.hooks[h as int] == config.hooks@[h as int]@);
            let elem = (
                spec_hook_args(c.hooks[h as int].name, c.hooks[h as int].command),
                false,
            );
            assert(cmds_view(commands@) == cmds_view(before).push(elem));
            assert(cmds_view(commands@) == head + spec_hooks_cmds(c.hooks, h + 1));
        }
        h += 1;
    }
    let ghost head2 = head + spec_hooks_cmds(c.hooks, c.hooks.len() as int);
    proof {
        assert(c.hooks.len() == config.hooks@.len());
        assert(cmds_view(commands@) == head2);
    }

    let mut i: usize = 0;
    while i < config.windows.len()
        invariant
            i <= config.windows@.len(),
            cmds_view(commands@) == head2 + spec_windows_cmds(
                c.name,
                c.start_directory,
                c.layout,
                c.pane_name_user_option,
                c.windows,
                base_indices.base_index as int,
                base_indices.pane_base_index as int,
                i as int,
            ),
        decreases config.windows@.len() - i,
    {
        let window = &config.windows[i];
        proof {
            assert(c.windows[i as int] == config.windows@[i as int]@);
        }
        emit_window_cmds(&mut commands, config, window, i, &base_indices);
        proof {
            lemma_assoc(
                head2,
                spec_windows_cmds(
                    c.name,
                    c.start_directory,
                    c.layout,
                    c.pane_name_user_option,
                    c.windows,
                    base_indices.base_index as int,
                    base_indices.pane_base_index as int,
                    i as int,
                ),
                spec_window_cmds(
                    c.name,
                    c.start_directory,
                    c.layout,
                    c.pane_name_user_option,
                    c.windows[i as int],
                    base_indices.base_index as int,
                    base_indices.pane_base_index as int,
                    i as int,
                ),
            );
            assert(cmds_view(commands@) == head2 + spec_windows_cmds(
                c.name,
                c.start_directory,
                c.layout,
                c.pane_name_user_option,
                c.windows,
                base_indices.base_index as int,
                base_indices.pane_base_index as int,
                i + 1,
            ));
        }
        i += 1;
    }
    let ghost windows_part = spec_windows_cmds(
        c.name,
        c.start_directory,
        c.layout,
        c.pane_name_user_option,
        c.windows,
        base_indices.base_index as int,
        base_indices.pane_base_index as int,
        c.windows.len() as int,
    );
    proof {
        assert(c.windows.len() == config.windows@.len());
        assert(cmds_view(commands@) == head2 + windows_part);
    }

    let ghost attach_part = if c.attached {
        seq![(spec_attach_args(c.name), true)]
    } else {
        Seq::<CmdView>::empty()
    };
    if config.attached {
        let attach_args = build_attach_command_args(session_name);
        commands.push((attach_args, true));
        proof {
            lemma_add_one(head2 + windows_part, (spec_attach_args(c.name), true));
            assert(cmds_view(commands@) == head2 + windows_part + attach_part);
        }
    } else {
        proof {
            assert(cmds_view(commands@) == head2 + windows_part + attach_part);
        }
    }
    proof {
        assert(cmds_view(commands@) == spec_unprefixed_cmds(c, base_indices));
    }

    match &config.tmux_options {
        Some(tmux_options) => {
            let parts = split_spaces(tmux_options.as_str());
            let ghost prefix = spec_flag_prefix(c);
            let ghost unprefixed = cmds_view(commands@);
            proof {
                assert(tokens_view(parts@) == prefix);
            }
            let mut prefixed_commands: Vec<(Vec<String>, bool)> = Vec::new();
            proof {
                assert(cmds_view(prefixed_commands@) =~= Seq::<CmdView>::empty());
                assert(spec_apply_prefix(prefix, unprefixed).take(0) =~= Seq::<
                    CmdView,
                >::empty());
            }
            let mut m: usize = 0;
            while m < commands.len()
                invariant
                    m <= commands@.len(),
                    cmds_view(commands@) == unprefixed,
                    cmds_view(prefixed_commands@) == spec_apply_prefix(prefix, unprefixed).take(
                        m as int,
                    ),
                decreases commands@.len() - m,
            {
                let ghost before = prefixed_commands@;
                let pair = &commands[m];
                let prefixed = prefix_tokens(&parts, &pair.0);
                prefixed_commands.push((prefixed, pair.1));
                proof {
                    assert(*pair == commands@[m as int]);
                    assert(unprefixed[m as int] == (
                        tokens_view(commands@[m as int].0@),
                        commands@[m as int].1,
                    ));
                    assert(tokens_view(prefixed@) == prefix + unprefixed[m as int].0);
                    assert(spec_apply_prefix(prefix, unprefixed)[m as int] == (
                        prefix + unprefixed[m as int].0,
                        unprefixed[m as int].1,
                    ));
                    assert(cmds_view(prefixed_commands@) == cmds_view(before).push(
                        spec_apply_prefix(prefix, unprefixed)[m as int],
                    ));
                    assert(spec_apply_prefix(prefix, unprefixed).take(m + 1)
                        =~= spec_apply_prefix(prefix, unprefixed).take(m as int).push(
                        spec_apply_prefix(prefix, unprefixed)[m as int],
                    ));
                    assert(cmds_view(prefixed_commands@) == spec_apply_prefix(
                        prefix,
                        unprefixed,
                    ).take(m + 1));
                }
                m += 1;
            }
            proof {
                assert(spec_apply_prefix(prefix, unprefixed).take(commands@.len() as int)
                    =~= spec_apply_prefix(prefix, unprefixed));
                assert(cmds_view(prefixed_commands@) == spec_compile(c, base_indices));
            }
            prefixed_commands
        },
        None => {
            proof {
                assert forall|x: int|
                    0 <= x < cmds_view(commands@).len() implies spec_compile(c, base_indices)[x]
                    == cmds_view(commands@)[x] by {
                    assert(spec_flag_prefix(c) + cmds_view(commands@)[x].0 =~= cmds_view(
                        commands@,
                    )[x].0);
                }
                assert(cmds_view(commands@) =~= spec_compile(c, base_indices));
            }
            commands
        },
    }
}

} // verus!
