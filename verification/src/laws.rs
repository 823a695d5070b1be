//! Laws of the compiler, proved over `spec_compile`: what a configuration
//! with no windows compiles to, that the implicitly created first window
//! and first pane never get explicit creation commands, that compilation
//! is deterministic, and how the global flag prefix acts on every command.
use vstd::prelude::*;
use crate::commands::{
    spec_attach_args, spec_create_window_args, spec_hook_args, spec_pane_args,
    spec_pane_command_args, spec_pane_start_directory, spec_rename_pane_args, spec_session_args,
    spec_target, spec_window_layout_args, spec_window_start_directory,
};
use crate::compile::{
    CmdView, spec_compile, spec_first_window_name, spec_flag_prefix, spec_hooks_cmds,
    spec_pane_cmds, spec_panes_cmds, spec_session_cmd, spec_shell_cmds, spec_unprefixed_cmds,
    spec_window_cmds, spec_windows_cmds,
};
use crate::config::{ConfigView, HookView, Layout, TmuxBaseIndices, WindowView};
use crate::text::{dec_str, spec_split_spaces};

verus! {

/// A configuration with no windows and no hooks compiles to the
/// create-session command alone — carrying no window name, and the
/// config's own directory — followed by the attach command exactly when
/// attaching is configured.
pub proof fn lemma_compile_zero_windows(c: ConfigView, b: TmuxBaseIndices)
    requires
        c.windows.len() == 0,
        c.hooks.len() == 0,
    ensures
        spec_compile(c, b).len() == (if c.attached {
            2int
        } else {
            1int
        }),
        spec_compile(c, b)[0] == ((
            spec_flag_prefix(c) + spec_session_args(c.name, None, c.start_directory),
            false,
        )),
        c.attached ==> spec_compile(c, b)[1] == ((
            spec_flag_prefix(c) + spec_attach_args(c.name),
            true,
        )),
{
    let u = spec_unprefixed_cmds(c, b);
    assert(spec_hooks_cmds(c.hooks, 0) == Seq::<CmdView>::empty());
    assert(spec_windows_cmds(
        c.name,
        c.start_directory,
        c.layout,
        c.pane_name_user_option,
        c.windows,
        b.base_index as int,
        b.pane_base_index as int,
        0,
    ) == Seq::<CmdView>::empty());
    if c.attached {
        assert(u =~= seq![
            spec_session_cmd(c),
            (spec_attach_args(c.name), true),
        ]);
    } else {
        assert(u =~= seq![spec_session_cmd(c)]);
    }
    assert(spec_session_cmd(c) == ((spec_session_args(c.name, None, c.start_directory), false)));
}

/// Compilation is deterministic: any two command lists compiled from the
/// same configuration and the same origins are one and the same, so
/// compiling twice gives identical output.
pub proof fn lemma_compile_deterministic(
    c: ConfigView,
    b: TmuxBaseIndices,
    r1: Seq<CmdView>,
    r2: Seq<CmdView>,
)
    requires
        r1 == spec_compile(c, b),
        r2 == spec_compile(c, b),
    ensures
        r1 == r2,
{
}

/// With a global flag string configured, the compiled list has exactly as
/// many commands as the unprefixed sequence, and each command is the
/// space-split flag tokens followed by the unprefixed command's own
/// tokens, its blocking flag unchanged.
pub proof fn lemma_global_flag_prefixing(c: ConfigView, b: TmuxBaseIndices, o: Seq<char>)
    requires
        c.tmux_options == Some(o),
    ensures
        spec_compile(c, b).len() == spec_unprefixed_cmds(c, b).len(),
        forall|k: int|
            0 <= k < spec_compile(c, b).len() ==> spec_compile(c, b)[k].0 == spec_split_spaces(o)
                + spec_unprefixed_cmds(c, b)[k].0,
        forall|k: int|
            0 <= k < spec_compile(c, b).len() ==> spec_compile(c, b)[k].1
                == spec_unprefixed_cmds(c, b)[k].1,
{
}

/// The unprefixed sequence does not depend on the global flag string:
/// two configurations differing only there compile to command lists of
/// the same length whose commands differ only by the prefix tokens.
pub proof fn lemma_options_only_prefix(c: ConfigView, c2: ConfigView, b: TmuxBaseIndices)
    requires
        c2.attached == c.attached,
        c2.pane_name_user_option == c.pane_name_user_option,
        c2.hooks == c.hooks,
        c2.layout == c.layout,
        c2.name == c.name,
        c2.start_directory == c.start_directory,
        c2.windows == c.windows,
    ensures
        spec_unprefixed_cmds(c, b) == spec_unprefixed_cmds(c2, b),
{
    assert(spec_first_window_name(c.windows) == spec_first_window_name(c2.windows));
    assert(spec_session_cmd(c) == spec_session_cmd(c2));
}

proof fn lemma_dec_str_len(n: int)
    requires
        n >= 0,
    ensures
        dec_str(n).len() >= 1,
        n >= 10 ==> dec_str(n).len() >= 2,
    decreases n,
{
    if n >= 10 {
        lemma_dec_str_len(n / 10);
    }
}

proof fn lemma_dec_digit_code(d: int)
    requires
        0 <= d < 10,
    ensures
        crate::text::dec_digit(d) as int == 48 + d,
{
}

proof fn lemma_dec_str_injective(x: int, y: int)
    requires
        x >= 0,
        y >= 0,
        dec_str(x) == dec_str(y),
    ensures
        x == y,
    decreases x,
{
    if x < 10 && y < 10 {
        assert(dec_str(x) == seq![crate::text::dec_digit(x)]);
        assert(dec_str(y) == seq![crate::text::dec_digit(y)]);
        assert(dec_str(x)[0] == crate::text::dec_digit(x));
        assert(dec_str(y)[0] == crate::text::dec_digit(y));
        lemma_dec_digit_code(x);
        lemma_dec_digit_code(y);
        assert(x == y);
    } else if x < 10 {
        lemma_dec_str_len(y / 10);
        assert(dec_str(y).len() >= 2);
        assert(dec_str(x).len() == 1);
    } else if y < 10 {
        lemma_dec_str_len(x / 10);
        assert(dec_str(x).len() >= 2);
        assert(dec_str(y).len() == 1);
    } else {
        assert(dec_str(x).last() == dec_str(y).last());
        assert(dec_str(x).last() == crate::text::dec_digit(x % 10));
        assert(dec_str(y).last() == crate::text::dec_digit(y % 10));
        lemma_dec_digit_code(x % 10);
        lemma_dec_digit_code(y % 10);
        assert(x % 10 == y % 10);
        assert(dec_str(x).drop_last() =~= dec_str(x / 10));
        assert(dec_str(y).drop_last() =~= dec_str(y / 10));
        lemma_dec_str_injective(x / 10, y / 10);
        assert(x == 10 * (x / 10) + x % 10);
        assert(y == 10 * (y / 10) + y % 10);
        assert(x == y);
    }
}

/// Two window targets under the same session name are equal only when
/// they address the same absolute index.
pub proof fn lemma_target_injective(name: Seq<char>, x: int, y: int)
    requires
        x >= 0,
        y >= 0,
        spec_target(name, x) == spec_target(name, y),
    ensures
        x == y,
{
    assert(dec_str(x) =~= spec_target(name, x).skip(name.len() as int + 1));
    assert(dec_str(y) =~= spec_target(name, y).skip(name.len() as int + 1));
    lemma_dec_str_injective(x, y);
}

/// The fixed command words that may open an emitted command, shown
/// pairwise distinct where the laws need it.
proof fn lemma_command_words_distinct()
    ensures
        "new-session"@ != "new-window"@,
        "set-hook"@ != "new-window"@,
        "send-keys"@ != "new-window"@,
        "set-option"@ != "new-window"@,
        "select-layout"@ != "new-window"@,
        "split-window"@ != "new-window"@,
        "-u"@ != "new-window"@,
        "new-session"@ != "split-window"@,
        "set-hook"@ != "split-window"@,
        "send-keys"@ != "split-window"@,
        "set-option"@ != "split-window"@,
        "select-layout"@ != "split-window"@,
        "-u"@ != "split-window"@,
        "new-window"@ != "split-window"@,
        "new-session"@ != "send-keys"@,
        "set-hook"@ != "send-keys"@,
        "select-layout"@ != "send-keys"@,
        "-u"@ != "send-keys"@,
        "send-keys"@ != "set-option"@,
        "new-session"@ != "set-option"@,
        "set-hook"@ != "set-option"@,
        "select-layout"@ != "set-option"@,
        "-u"@ != "set-option"@,
{
    reveal_strlit("new-session");
    reveal_strlit("new-window");
    reveal_strlit("set-hook");
    reveal_strlit("send-keys");
    reveal_strlit("set-option");
    reveal_strlit("select-layout");
    reveal_strlit("split-window");
    reveal_strlit("-u");
    assert("new-session"@.len() == 11);
    assert("new-window"@.len() == 10);
    assert("set-hook"@.len() == 8);
    assert("send-keys"@.len() == 9);
    assert("set-option"@.len() == 10);
    assert("select-layout"@.len() == 13);
    assert("split-window"@.len() == 12);
    assert("-u"@.len() == 2);
    assert("new-session"@[4] != "new-window"@[4]);
    assert("set-option"@[0] != "new-window"@[0]);
}

/// What any one emitted command can be, before prefixing: it opens with
/// one of the fixed words that address no window creation, or it is the
/// create-window command of a window at an ordinal position past 0, or it
/// is the split command of a window holding at least two panes.
pub open spec fn unprefixed_cmd_ok(c: ConfigView, b: TmuxBaseIndices, cmd: CmdView) -> bool {
    (cmd.0.len() > 0 && (cmd.0[0] == "new-session"@ || cmd.0[0] == "set-hook"@ || cmd.0[0]
        == "-u"@ || cmd.0[0] == "send-keys"@ || cmd.0[0] == "set-option"@ || cmd.0[0]
        == "select-layout"@)) || (exists|i: int|
        1 <= i < c.windows.len() && cmd == ((
            spec_create_window_args(
                c.name,
                b.base_index as int + i,
                c.windows[i].name,
                spec_window_start_directory(c.start_directory, c.windows[i].start_directory),
            ),
            false,
        ))) || (exists|i: int|
        0 <= i < c.windows.len() && c.windows[i].panes.len() >= 2 && cmd == ((
            spec_pane_args(c.name, b.base_index as int + i),
            false,
        )))
}

proof fn lemma_hooks_cmds_ok(hooks: Seq<HookView>, n: int)
    ensures
        forall|x: int|
            0 <= x < spec_hooks_cmds(hooks, n).len() ==> (#[trigger] spec_hooks_cmds(hooks, n)[x]).0.len()
                > 0 && spec_hooks_cmds(hooks, n)[x].0[0] == "set-hook"@,
    decreases n,
{
    if n > 0 {
        lemma_hooks_cmds_ok(hooks, n - 1);
        let prev = spec_hooks_cmds(hooks, n - 1);
        let whole = spec_hooks_cmds(hooks, n);
        let last = (spec_hook_args(hooks[n - 1].name, hooks[n - 1].command), false);
        assert(whole == prev.push(last));
        assert forall|x: int| 0 <= x < whole.len() implies whole[x].0.len() > 0 && whole[x].0[0]
            == "set-hook"@ by {
            if x < prev.len() {
                assert(whole[x] == prev[x]);
            } else {
                assert(whole[x] == last);
                assert(last.0[0] == "set-hook"@);
            }
        }
    }
}

proof fn lemma_shell_cmds_ok(
    name: Seq<char>,
    window_index: int,
    pane_index: int,
    commands: Seq<Seq<char>>,
    k: int,
)
    ensures
        forall|x: int|
            0 <= x < spec_shell_cmds(name, window_index, pane_index, commands, k).len() ==> (
            #[trigger] spec_shell_cmds(name, window_index, pane_index, commands, k)[x]).0.len()
                > 0 && spec_shell_cmds(name, window_index, pane_index, commands, k)[x].0[0]
                == "send-keys"@,
    decreases k,
{
    if k > 0 {
        lemma_shell_cmds_ok(name, window_index, pane_index, commands, k - 1);
        let prev = spec_shell_cmds(name, window_index, pane_index, commands, k - 1);
        let whole = spec_shell_cmds(name, window_index, pane_index, commands, k);
        let last = (
            crate::commands::spec_pane_command_args(
                name,
                window_index,
                pane_index,
                commands[k - 1],
            ),
            false,
        );
        assert(whole == prev.push(last));
        assert forall|x: int| 0 <= x < whole.len() implies whole[x].0.len() > 0 && whole[x].0[0]
            == "send-keys"@ by {
            if x < prev.len() {
                assert(whole[x] == prev[x]);
            } else {
                assert(whole[x] == last);
                assert(last.0[0] == "send-keys"@);
            }
        }
    }
}

proof fn lemma_pane_cmds_ok(
    name: Seq<char>,
    config_dir: Option<Seq<char>>,
    w: WindowView,
    user_opt: Option<Seq<char>>,
    window_index: int,
    pane_base: int,
    j: int,
)
    ensures
        forall|x: int|
            0 <= x < spec_pane_cmds(name, config_dir, w, user_opt, window_index, pane_base, j).len()
                ==> {
                let cmd = #[trigger] spec_pane_cmds(
                    name,
                    config_dir,
                    w,
                    user_opt,
                    window_index,
                    pane_base,
                    j,
                )[x];
                (j > 0 && cmd == ((spec_pane_args(name, window_index), false))) || (cmd.0.len() > 0
                    && (cmd.0[0] == "send-keys"@ || cmd.0[0] == "set-option"@))
            },
{
    lemma_shell_cmds_ok(
        name,
        window_index,
        pane_base + j,
        w.panes[j].commands,
        w.panes[j].commands.len() as int,
    );
}

proof fn lemma_panes_cmds_ok(
    name: Seq<char>,
    config_dir: Option<Seq<char>>,
    w: WindowView,
    user_opt: Option<Seq<char>>,
    window_index: int,
    pane_base: int,
    m: int,
)
    requires
        m <= w.panes.len(),
    ensures
        forall|x: int|
            0 <= x < spec_panes_cmds(name, config_dir, w, user_opt, window_index, pane_base, m).len()
                ==> {
                let cmd = #[trigger] spec_panes_cmds(
                    name,
                    config_dir,
                    w,
                    user_opt,
                    window_index,
                    pane_base,
                    m,
                )[x];
                (w.panes.len() >= 2 && cmd == ((spec_pane_args(name, window_index), false))) || (
                cmd.0.len() > 0 && (cmd.0[0] == "send-keys"@ || cmd.0[0] == "set-option"@))
            },
    decreases m,
{
    if m > 0 {
        lemma_panes_cmds_ok(name, config_dir, w, user_opt, window_index, pane_base, m - 1);
        lemma_pane_cmds_ok(name, config_dir, w, user_opt, window_index, pane_base, m - 1);
        let prev = spec_panes_cmds(name, config_dir, w, user_opt, window_index, pane_base, m - 1);
        let pseg = spec_pane_cmds(name, config_dir, w, user_opt, window_index, pane_base, m - 1);
        let whole = spec_panes_cmds(name, config_dir, w, user_opt, window_index, pane_base, m);
        assert(whole == prev + pseg);
        assert forall|x: int|
            #![trigger whole[x]]
            0 <= x < whole.len() implies {
            let cmd = whole[x];
            (w.panes.len() >= 2 && cmd == ((spec_pane_args(name, window_index), false))) || (
            cmd.0.len() > 0 && (cmd.0[0] == "send-keys"@ || cmd.0[0] == "set-option"@))
        } by {
            if x < prev.len() {
                assert(whole[x] == prev[x]);
            } else {
                assert(whole[x] == pseg[x - prev.len()]);
            }
        }
    }
}

proof fn lemma_window_cmds_ok(
    name: Seq<char>,
    config_dir: Option<Seq<char>>,
    config_layout: Option<Layout>,
    user_opt: Option<Seq<char>>,
    w: WindowView,
    base: int,
    pane_base: int,
    i: int,
)
    ensures
        forall|x: int|
            0 <= x < spec_window_cmds(
                name,
                config_dir,
                config_layout,
                user_opt,
                w,
                base,
                pane_base,
                i,
            ).len() ==> {
                let cmd = #[trigger] spec_window_cmds(
                    name,
                    config_dir,
                    config_layout,
                    user_opt,
                    w,
                    base,
                    pane_base,
                    i,
                )[x];
                (i > 0 && cmd == ((
                    spec_create_window_args(
                        name,
                        base + i,
                        w.name,
                        spec_window_start_directory(config_dir, w.start_directory),
                    ),
                    false,
                ))) || (w.panes.len() >= 2 && cmd == ((spec_pane_args(name, base + i), false)))
                    || (cmd.0.len() > 0 && (cmd.0[0] == "send-keys"@ || cmd.0[0] == "set-option"@
                    || cmd.0[0] == "select-layout"@))
            },
{
    lemma_panes_cmds_ok(
        name,
        config_dir,
        w,
        user_opt,
        base + i,
        pane_base,
        w.panes.len() as int,
    );
}

proof fn lemma_windows_cmds_ok(
    c: ConfigView,
    b: TmuxBaseIndices,
    n: int,
)
    requires
        n <= c.windows.len(),
    ensures
        forall|x: int|
            0 <= x < spec_windows_cmds(
                c.name,
                c.start_directory,
                c.layout,
                c.pane_name_user_option,
                c.windows,
                b.base_index as int,
                b.pane_base_index as int,
                n,
            ).len() ==> unprefixed_cmd_ok(
                c,
                b,
                #[trigger] spec_windows_cmds(
                    c.name,
                    c.start_directory,
                    c.layout,
                    c.pane_name_user_option,
                    c.windows,
                    b.base_index as int,
                    b.pane_base_index as int,
                    n,
                )[x],
            ),
    decreases n,
{
    if n > 0 {
        lemma_windows_cmds_ok(c, b, n - 1);
        lemma_window_cmds_ok(
            c.name,
            c.start_directory,
            c.layout,
            c.pane_name_user_option,
            c.windows[n - 1],
            b.base_index as int,
            b.pane_base_index as int,
            n - 1,
        );
        let prev = spec_windows_cmds(
            c.name,
            c.start_directory,
            c.layout,
            c.pane_name_user_option,
            c.windows,
            b.base_index as int,
            b.pane_base_index as int,
            n - 1,
        );
        let wseg = spec_window_cmds(
            c.name,
            c.start_directory,
            c.layout,
            c.pane_name_user_option,
            c.windows[n - 1],
            b.base_index as int,
            b.pane_base_index as int,
            n - 1,
        );
        let whole = prev + wseg;
        assert forall|x: int| 0 <= x < whole.len() implies unprefixed_cmd_ok(c, b, whole[x]) by {
            if x < prev.len() {
                assert(whole[x] == prev[x]);
            } else {
                let cmd = wseg[x - prev.len()];
                assert(whole[x] == cmd);
                let w = c.windows[n - 1];
                let i = n - 1;
                if i > 0 && cmd == ((
                    spec_create_window_args(
                        c.name,
                        b.base_index as int + i,
                        w.name,
                        spec_window_start_directory(c.start_directory, w.start_directory),
                    ),
                    false,
                )) {
                    assert(unprefixed_cmd_ok(c, b, cmd));
                } else if w.panes.len() >= 2 && cmd == ((
                    spec_pane_args(c.name, b.base_index as int + i),
                    false,
                )) {
                    assert(unprefixed_cmd_ok(c, b, cmd));
                } else {
                    assert(cmd.0.len() > 0 && (cmd.0[0] == "send-keys"@ || cmd.0[0]
                        == "set-option"@ || cmd.0[0] == "select-layout"@));
                }
            }
        }
    }
}

/// Every command of the unprefixed sequence is of a permitted shape.
proof fn lemma_unprefixed_cmds_ok(c: ConfigView, b: TmuxBaseIndices)
    ensures
        forall|k: int|
            0 <= k < spec_unprefixed_cmds(c, b).len() ==> unprefixed_cmd_ok(
                c,
                b,
                #[trigger] spec_unprefixed_cmds(c, b)[k],
            ),
{
    let u = spec_unprefixed_cmds(c, b);
    let hseg = spec_hooks_cmds(c.hooks, c.hooks.len() as int);
    let wseg = spec_windows_cmds(
        c.name,
        c.start_directory,
        c.layout,
        c.pane_name_user_option,
        c.windows,
        b.base_index as int,
        b.pane_base_index as int,
        c.windows.len() as int,
    );
    lemma_hooks_cmds_ok(c.hooks, c.hooks.len() as int);
    lemma_windows_cmds_ok(c, b, c.windows.len() as int);
    assert forall|k: int| 0 <= k < u.len() implies unprefixed_cmd_ok(c, b, u[k]) by {
        if k == 0 {
            assert(u[0] == spec_session_cmd(c));
            assert(spec_session_cmd(c).0[0] == "new-session"@);
        } else if k < 1 + hseg.len() {
            assert(u[k] == hseg[k - 1]);
        } else if k < 1 + hseg.len() + wseg.len() {
            assert(u[k] == wseg[k - 1 - hseg.len()]);
        } else {
            assert(c.attached);
            assert(u[k] == ((spec_attach_args(c.name), true)));
            assert(u[k].0[0] == "-u"@);
        }
    }
}

/// The compiled list never holds a create-window command addressed to the
/// window at ordinal position 0 — the window the multiplexer creates
/// implicitly with the session. Reading past the flag prefix, no command
/// opens with the create-window word and addresses the target of absolute
/// index origin + 0.
pub proof fn lemma_no_create_window_for_first_window(c: ConfigView, b: TmuxBaseIndices)
    ensures
        forall|k: int|
            0 <= k < spec_compile(c, b).len() ==> !{
                let toks = (#[trigger] spec_compile(c, b)[k]).0;
                let p = spec_flag_prefix(c).len() as int;
                toks.len() > p + 2 && toks[p] == "new-window"@ && toks[p + 2] == spec_target(
                    c.name,
                    b.base_index as int,
                )
            },
{
    lemma_unprefixed_cmds_ok(c, b);
    lemma_command_words_distinct();
    let u = spec_unprefixed_cmds(c, b);
    let prefix = spec_flag_prefix(c);
    assert forall|k: int|
        #![trigger spec_compile(c, b)[k]]
        0 <= k < spec_compile(c, b).len() implies !{
        let toks = spec_compile(c, b)[k].0;
        let p = prefix.len() as int;
        toks.len() > p + 2 && toks[p] == "new-window"@ && toks[p + 2] == spec_target(
            c.name,
            b.base_index as int,
        )
    } by {
        let toks = spec_compile(c, b)[k].0;
        let p = prefix.len() as int;
        assert(toks == prefix + u[k].0);
        if toks.len() > p + 2 && toks[p] == "new-window"@ && toks[p + 2] == spec_target(
            c.name,
            b.base_index as int,
        ) {
            assert(u[k].0[0] == "new-window"@);
            assert(u[k].0[2] == spec_target(c.name, b.base_index as int));
            assert(unprefixed_cmd_ok(c, b, u[k]));
            if exists|i: int|
                1 <= i < c.windows.len() && u[k] == ((
                    spec_create_window_args(
                        c.name,
                        b.base_index as int + i,
                        c.windows[i].name,
                        spec_window_start_directory(
                            c.start_directory,
                            c.windows[i].start_directory,
                        ),
                    ),
                    false,
                )) {
                let i = choose|i: int|
                    1 <= i < c.windows.len() && u[k] == ((
                        spec_create_window_args(
                            c.name,
                            b.base_index as int + i,
                            c.windows[i].name,
                            spec_window_start_directory(
                                c.start_directory,
                                c.windows[i].start_directory,
                            ),
                        ),
                        false,
                    ));
                assert(u[k].0[2] == spec_target(c.name, b.base_index as int + i));
                lemma_target_injective(
                    c.name,
                    b.base_index as int + i,
                    b.base_index as int,
                );
                assert(false);
            } else if exists|i: int|
                0 <= i < c.windows.len() && c.windows[i].panes.len() >= 2 && u[k] == ((
                    spec_pane_args(c.name, b.base_index as int + i),
                    false,
                )) {
                assert(u[k].0[0] == "split-window"@);
                assert(false);
            } else {
                assert(false);
            }
        }
    }
}

/// The commands emitted for the pane at ordinal position 0 of any window
/// never include a split command: that pane is created implicitly with
/// its window.
pub proof fn lemma_first_pane_no_split(
    name: Seq<char>,
    config_dir: Option<Seq<char>>,
    w: WindowView,
    user_opt: Option<Seq<char>>,
    window_index: int,
    pane_base: int,
)
    ensures
        forall|x: int|
            0 <= x < spec_pane_cmds(name, config_dir, w, user_opt, window_index, pane_base, 0).len()
                ==> (#[trigger] spec_pane_cmds(
                name,
                config_dir,
                w,
                user_opt,
                window_index,
                pane_base,
                0,
            )[x]).0[0] != "split-window"@,
{
    lemma_pane_cmds_ok(name, config_dir, w, user_opt, window_index, pane_base, 0);
    lemma_command_words_distinct();
}

/// Every split command in the compiled list was emitted for a pane at an
/// ordinal position past 0: reading past the flag prefix, any command
/// opening with the split word is the split command of a window that
/// holds at least two declared panes, addressed to that window.
pub proof fn lemma_split_cmds_only_for_later_panes(c: ConfigView, b: TmuxBaseIndices)
    ensures
        forall|k: int|
            0 <= k < spec_compile(c, b).len() && {
                let toks = (#[trigger] spec_compile(c, b)[k]).0;
                let p = spec_flag_prefix(c).len() as int;
                toks.len() > p && toks[p] == "split-window"@
            } ==> exists|i: int|
                0 <= i < c.windows.len() && c.windows[i].panes.len() >= 2 && spec_compile(c, b)[k]
                    == ((
                    spec_flag_prefix(c) + spec_pane_args(c.name, b.base_index as int + i),
                    false,
                )),
{
    lemma_unprefixed_cmds_ok(c, b);
    lemma_command_words_distinct();
    let u = spec_unprefixed_cmds(c, b);
    let prefix = spec_flag_prefix(c);
    assert forall|k: int|
        #![trigger spec_compile(c, b)[k]]
        0 <= k < spec_compile(c, b).len() && {
            let toks = spec_compile(c, b)[k].0;
            let p = prefix.len() as int;
            toks.len() > p && toks[p] == "split-window"@
        } implies exists|i: int|
        0 <= i < c.windows.len() && c.windows[i].panes.len() >= 2 && spec_compile(c, b)[k] == ((
            prefix + spec_pane_args(c.name, b.base_index as int + i),
            false,
        )) by {
        let toks = spec_compile(c, b)[k].0;
        assert(toks == prefix + u[k].0);
        assert(spec_compile(c, b)[k].1 == u[k].1);
        assert(u[k].0[0] == "split-window"@);
        assert(unprefixed_cmd_ok(c, b, u[k]));
        if exists|i: int|
            1 <= i < c.windows.len() && u[k] == ((
                spec_create_window_args(
                    c.name,
                    b.base_index as int + i,
                    c.windows[i].name,
                    spec_window_start_directory(c.start_directory, c.windows[i].start_directory),
                ),
                false,
            )) {
            assert(u[k].0[0] == "new-window"@);
            assert(false);
        } else if exists|i: int|
            0 <= i < c.windows.len() && c.windows[i].panes.len() >= 2 && u[k] == ((
                spec_pane_args(c.name, b.base_index as int + i),
                false,
            )) {
            let i = choose|i: int|
                0 <= i < c.windows.len() && c.windows[i].panes.len() >= 2 && u[k] == ((
                    spec_pane_args(c.name, b.base_index as int + i),
                    false,
                ));
            assert(spec_compile(c, b)[k] == ((
                prefix + spec_pane_args(c.name, b.base_index as int + i),
                false,
            )));
        } else {
            assert(false);
        }
    }
}


/// True when the command's token at position p is the given word.
pub open spec fn opens_with_at(cmd: CmdView, word: Seq<char>, p: int) -> bool {
    cmd.0.len() > p && cmd.0[p] == word
}

/// How many commands of the list have the given word at position p.
pub open spec fn count_opening_with(cmds: Seq<CmdView>, word: Seq<char>, p: int) -> int
    decreases cmds.len(),
{
    if cmds.len() == 0 {
        0
    } else {
        count_opening_with(cmds.drop_last(), word, p) + (if opens_with_at(cmds.last(), word, p) {
            1int
        } else {
            0
        })
    }
}

/// The number of panes past ordinal position 0, summed over the first n
/// windows: how many splits standing up those windows takes.
pub open spec fn total_extra_panes(windows: Seq<WindowView>, n: int) -> int
    decreases n,
{
    if n <= 0 {
        0
    } else {
        total_extra_panes(windows, n - 1) + (if windows[n - 1].panes.len() >= 1 {
            windows[n - 1].panes.len() - 1
        } else {
            0int
        })
    }
}

proof fn lemma_count_add(a: Seq<CmdView>, b: Seq<CmdView>, word: Seq<char>, p: int)
    ensures
        count_opening_with(a + b, word, p) == count_opening_with(a, word, p)
            + count_opening_with(b, word, p),
    decreases b.len(),
{
    if b.len() == 0 {
        assert(a + b =~= a);
    } else {
        assert((a + b).drop_last() =~= a + b.drop_last());
        assert((a + b).last() == b.last());
        lemma_count_add(a, b.drop_last(), word, p);
    }
}

proof fn lemma_count_single(e: CmdView, word: Seq<char>, p: int)
    ensures
        count_opening_with(seq![e], word, p) == (if opens_with_at(e, word, p) {
            1int
        } else {
            0
        }),
{
    assert(count_opening_with(Seq::<CmdView>::empty(), word, p) == 0);
    assert(seq![e].drop_last() =~= Seq::<CmdView>::empty());
    assert(seq![e].last() == e);
}

proof fn lemma_count_zero(cmds: Seq<CmdView>, word: Seq<char>, p: int)
    requires
        forall|x: int| 0 <= x < cmds.len() ==> !opens_with_at(#[trigger] cmds[x], word, p),
    ensures
        count_opening_with(cmds, word, p) == 0,
    decreases cmds.len(),
{
    if cmds.len() > 0 {
        assert forall|x: int|
            0 <= x < cmds.drop_last().len() implies !opens_with_at(
            #[trigger] cmds.drop_last()[x],
            word,
            p,
        ) by {
            assert(cmds.drop_last()[x] == cmds[x]);
        }
        assert(!opens_with_at(cmds.last(), word, p));
        lemma_count_zero(cmds.drop_last(), word, p);
    }
}

proof fn lemma_shell_count_zero(
    name: Seq<char>,
    window_index: int,
    pane_index: int,
    commands: Seq<Seq<char>>,
    k: int,
    word: Seq<char>,
)
    requires
        word != "send-keys"@,
    ensures
        count_opening_with(
            spec_shell_cmds(name, window_index, pane_index, commands, k),
            word,
            0,
        ) == 0,
{
    lemma_shell_cmds_ok(name, window_index, pane_index, commands, k);
    lemma_count_zero(spec_shell_cmds(name, window_index, pane_index, commands, k), word, 0);
}

proof fn lemma_hooks_count_zero(hooks: Seq<HookView>, n: int, word: Seq<char>)
    requires
        word != "set-hook"@,
    ensures
        count_opening_with(spec_hooks_cmds(hooks, n), word, 0) == 0,
{
    lemma_hooks_cmds_ok(hooks, n);
    lemma_count_zero(spec_hooks_cmds(hooks, n), word, 0);
}

proof fn lemma_pane_counts(
    name: Seq<char>,
    config_dir: Option<Seq<char>>,
    w: WindowView,
    user_opt: Option<Seq<char>>,
    window_index: int,
    pane_base: int,
    j: int,
)
    ensures
        count_opening_with(
            spec_pane_cmds(name, config_dir, w, user_opt, window_index, pane_base, j),
            "split-window"@,
            0,
        ) == (if j > 0 {
            1int
        } else {
            0
        }),
        count_opening_with(
            spec_pane_cmds(name, config_dir, w, user_opt, window_index, pane_base, j),
            "new-window"@,
            0,
        ) == 0,
{
    lemma_command_words_distinct();
    let p = w.panes[j];
    let pane_index = pane_base + j;
    let split_part = if j > 0 {
        seq![(spec_pane_args(name, window_index), false)]
    } else {
        Seq::<CmdView>::empty()
    };
    let dir_part = match spec_pane_start_directory(config_dir, w.start_directory, p.start_directory) {
        Some(d) => if d.len() > 0 {
            seq![(spec_pane_command_args(name, window_index, pane_index, "cd "@ + d), false)]
        } else {
            Seq::<CmdView>::empty()
        },
        None => Seq::<CmdView>::empty(),
    };
    let shell_part = spec_shell_cmds(name, window_index, pane_index, p.commands, p.commands.len() as int);
    let rename_part = match spec_rename_pane_args(name, window_index, pane_index, user_opt, p.name) {
        Some(a) => seq![(a, false)],
        None => Seq::<CmdView>::empty(),
    };
    assert(spec_pane_cmds(name, config_dir, w, user_opt, window_index, pane_base, j) == split_part
        + dir_part + shell_part + rename_part);
    if j > 0 {
        lemma_count_single((spec_pane_args(name, window_index), false), "split-window"@, 0);
        lemma_count_single((spec_pane_args(name, window_index), false), "new-window"@, 0);
    }
    match spec_pane_start_directory(config_dir, w.start_directory, p.start_directory) {
        Some(d) => {
            if d.len() > 0 {
                let e = (spec_pane_command_args(name, window_index, pane_index, "cd "@ + d), false);
                lemma_count_single(e, "split-window"@, 0);
                lemma_count_single(e, "new-window"@, 0);
            }
        },
        None => {},
    }
    lemma_shell_count_zero(name, window_index, pane_index, p.commands, p.commands.len() as int, "split-window"@);
    lemma_shell_count_zero(name, window_index, pane_index, p.commands, p.commands.len() as int, "new-window"@);
    match spec_rename_pane_args(name, window_index, pane_index, user_opt, p.name) {
        Some(a) => {
            lemma_count_single((a, false), "split-window"@, 0);
            lemma_count_single((a, false), "new-window"@, 0);
        },
        None => {},
    }
    lemma_count_add(split_part, dir_part, "split-window"@, 0);
    lemma_count_add(split_part + dir_part, shell_part, "split-window"@, 0);
    lemma_count_add(split_part + dir_part + shell_part, rename_part, "split-window"@, 0);
    lemma_count_add(split_part, dir_part, "new-window"@, 0);
    lemma_count_add(split_part + dir_part, shell_part, "new-window"@, 0);
    lemma_count_add(split_part + dir_part + shell_part, rename_part, "new-window"@, 0);
}

proof fn lemma_panes_counts(
    name: Seq<char>,
    config_dir: Option<Seq<char>>,
    w: WindowView,
    user_opt: Option<Seq<char>>,
    window_index: int,
    pane_base: int,
    m: int,
)
    ensures
        count_opening_with(
            spec_panes_cmds(name, config_dir, w, user_opt, window_index, pane_base, m),
            "split-window"@,
            0,
        ) == (if m >= 1 {
            m - 1
        } else {
            0int
        }),
        count_opening_with(
            spec_panes_cmds(name, config_dir, w, user_opt, window_index, pane_base, m),
            "new-window"@,
            0,
        ) == 0,
    decreases m,
{
    if m > 0 {
        lemma_panes_counts(name, config_dir, w, user_opt, window_index, pane_base, m - 1);
        lemma_pane_counts(name, config_dir, w, user_opt, window_index, pane_base, m - 1);
        let prev = spec_panes_cmds(name, config_dir, w, user_opt, window_index, pane_base, m - 1);
        let pseg = spec_pane_cmds(name, config_dir, w, user_opt, window_index, pane_base, m - 1);
        lemma_count_add(prev, pseg, "split-window"@, 0);
        lemma_count_add(prev, pseg, "new-window"@, 0);
    }
}

proof fn lemma_window_counts(
    name: Seq<char>,
    config_dir: Option<Seq<char>>,
    config_layout: Option<Layout>,
    user_opt: Option<Seq<char>>,
    w: WindowView,
    base: int,
    pane_base: int,
    i: int,
)
    ensures
        count_opening_with(
            spec_window_cmds(name, config_dir, config_layout, user_opt, w, base, pane_base, i),
            "new-window"@,
            0,
        ) == (if i > 0 {
            1int
        } else {
            0
        }),
        count_opening_with(
            spec_window_cmds(name, config_dir, config_layout, user_opt, w, base, pane_base, i),
            "split-window"@,
            0,
        ) == (if w.panes.len() >= 1 {
            w.panes.len() - 1
        } else {
            0int
        }),
{
    lemma_command_words_distinct();
    let window_index = base + i;
    let create_part = if i > 0 {
        seq![
            (
                spec_create_window_args(
                    name,
                    window_index,
                    w.name,
                    spec_window_start_directory(config_dir, w.start_directory),
                ),
                false,
            ),
        ]
    } else {
        Seq::<CmdView>::empty()
    };
    let panes_part = spec_panes_cmds(
        name,
        config_dir,
        w,
        user_opt,
        window_index,
        pane_base,
        w.panes.len() as int,
    );
    let layout_part = match spec_window_layout_args(name, window_index, config_layout, w.layout) {
        Some(a) => seq![(a, false)],
        None => Seq::<CmdView>::empty(),
    };
    assert(spec_window_cmds(name, config_dir, config_layout, user_opt, w, base, pane_base, i)
        == create_part + panes_part + layout_part);
    if i > 0 {
        let e = (
            spec_create_window_args(
                name,
                window_index,
                w.name,
                spec_window_start_directory(config_dir, w.start_directory),
            ),
            false,
        );
        lemma_count_single(e, "new-window"@, 0);
        lemma_count_single(e, "split-window"@, 0);
    }
    lemma_panes_counts(name, config_dir, w, user_opt, window_index, pane_base, w.panes.len() as int);
    match spec_window_layout_args(name, window_index, config_layout, w.layout) {
        Some(a) => {
            lemma_count_single((a, false), "new-window"@, 0);
            lemma_count_single((a, false), "split-window"@, 0);
        },
        None => {},
    }
    lemma_count_add(create_part, panes_part, "new-window"@, 0);
    lemma_count_add(create_part + panes_part, layout_part, "new-window"@, 0);
    lemma_count_add(create_part, panes_part, "split-window"@, 0);
    lemma_count_add(create_part + panes_part, layout_part, "split-window"@, 0);
}

proof fn lemma_windows_counts(c: ConfigView, b: TmuxBaseIndices, n: int)
    requires
        n <= c.windows.len(),
    ensures
        count_opening_with(
            spec_windows_cmds(
                c.name,
                c.start_directory,
                c.layout,
                c.pane_name_user_option,
                c.windows,
                b.base_index as int,
                b.pane_base_index as int,
                n,
            ),
            "new-window"@,
            0,
        ) == (if n >= 1 {
            n - 1
        } else {
            0int
        }),
        count_opening_with(
            spec_windows_cmds(
                c.name,
                c.start_directory,
                c.layout,
                c.pane_name_user_option,
                c.windows,
                b.base_index as int,
                b.pane_base_index as int,
                n,
            ),
            "split-window"@,
            0,
        ) == total_extra_panes(c.windows, n),
    decreases n,
{
    if n > 0 {
        lemma_windows_counts(c, b, n - 1);
        lemma_window_counts(
            c.name,
            c.start_directory,
            c.layout,
            c.pane_name_user_option,
            c.windows[n - 1],
            b.base_index as int,
            b.pane_base_index as int,
            n - 1,
        );
        let prev = spec_windows_cmds(
            c.name,
            c.start_directory,
            c.layout,
            c.pane_name_user_option,
            c.windows,
            b.base_index as int,
            b.pane_base_index as int,
            n - 1,
        );
        let wseg = spec_window_cmds(
            c.name,
            c.start_directory,
            c.layout,
            c.pane_name_user_option,
            c.windows[n - 1],
            b.base_index as int,
            b.pane_base_index as int,
            n - 1,
        );
        lemma_count_add(prev, wseg, "new-window"@, 0);
        lemma_count_add(prev, wseg, "split-window"@, 0);
    }
}

proof fn lemma_unprefixed_counts(c: ConfigView, b: TmuxBaseIndices)
    ensures
        count_opening_with(spec_unprefixed_cmds(c, b), "new-window"@, 0) == (if c.windows.len()
            >= 1 {
            c.windows.len() - 1
        } else {
            0int
        }),
        count_opening_with(spec_unprefixed_cmds(c, b), "split-window"@, 0) == total_extra_panes(
            c.windows,
            c.windows.len() as int,
        ),
{
    lemma_command_words_distinct();
    let sess = seq![spec_session_cmd(c)];
    let hseg = spec_hooks_cmds(c.hooks, c.hooks.len() as int);
    let wseg = spec_windows_cmds(
        c.name,
        c.start_directory,
        c.layout,
        c.pane_name_user_option,
        c.windows,
        b.base_index as int,
        b.pane_base_index as int,
        c.windows.len() as int,
    );
    let aseg = if c.attached {
        seq![(spec_attach_args(c.name), true)]
    } else {
        Seq::<CmdView>::empty()
    };
    assert(spec_unprefixed_cmds(c, b) == sess + hseg + wseg + aseg);
    lemma_count_single(spec_session_cmd(c), "new-window"@, 0);
    lemma_count_single(spec_session_cmd(c), "split-window"@, 0);
    assert(spec_session_cmd(c).0[0] == "new-session"@);
    lemma_hooks_count_zero(c.hooks, c.hooks.len() as int, "new-window"@);
    lemma_hooks_count_zero(c.hooks, c.hooks.len() as int, "split-window"@);
    lemma_windows_counts(c, b, c.windows.len() as int);
    if c.attached {
        lemma_count_single((spec_attach_args(c.name), true), "new-window"@, 0);
        lemma_count_single((spec_attach_args(c.name), true), "split-window"@, 0);
        assert((spec_attach_args(c.name), true).0[0] == "-u"@);
    }
    lemma_count_add(sess, hseg, "new-window"@, 0);
    lemma_count_add(sess + hseg, wseg, "new-window"@, 0);
    lemma_count_add(sess + hseg + wseg, aseg, "new-window"@, 0);
    lemma_count_add(sess, hseg, "split-window"@, 0);
    lemma_count_add(sess + hseg, wseg, "split-window"@, 0);
    lemma_count_add(sess + hseg + wseg, aseg, "split-window"@, 0);
}

proof fn lemma_count_pointwise(s1: Seq<CmdView>, s2: Seq<CmdView>, word: Seq<char>, p1: int, p2: int)
    requires
        s1.len() == s2.len(),
        forall|k: int|
            0 <= k < s1.len() ==> opens_with_at(#[trigger] s1[k], word, p1) == opens_with_at(
                #[trigger] s2[k],
                word,
                p2,
            ),
    ensures
        count_opening_with(s1, word, p1) == count_opening_with(s2, word, p2),
    decreases s1.len(),
{
    if s1.len() > 0 {
        assert forall|k: int|
            0 <= k < s1.drop_last().len() implies opens_with_at(
            #[trigger] s1.drop_last()[k],
            word,
            p1,
        ) == opens_with_at(#[trigger] s2.drop_last()[k], word, p2) by {
            assert(s1.drop_last()[k] == s1[k]);
            assert(s2.drop_last()[k] == s2[k]);
        }
        assert(opens_with_at(s1.last(), word, p1) == opens_with_at(s2.last(), word, p2));
        lemma_count_pointwise(s1.drop_last(), s2.drop_last(), word, p1, p2);
    }
}

proof fn lemma_compile_count(c: ConfigView, b: TmuxBaseIndices, word: Seq<char>)
    ensures
        count_opening_with(spec_compile(c, b), word, spec_flag_prefix(c).len() as int)
            == count_opening_with(spec_unprefixed_cmds(c, b), word, 0),
{
    let u = spec_unprefixed_cmds(c, b);
    let prefix = spec_flag_prefix(c);
    let plen = prefix.len() as int;
    assert forall|k: int|
        0 <= k < spec_compile(c, b).len() implies opens_with_at(
        #[trigger] spec_compile(c, b)[k],
        word,
        plen,
    ) == opens_with_at(#[trigger] u[k], word, 0) by {
        assert(spec_compile(c, b)[k].0 == prefix + u[k].0);
        if u[k].0.len() > 0 {
            assert((prefix + u[k].0)[plen] == u[k].0[0]);
        }
    }
    lemma_count_pointwise(spec_compile(c, b), u, word, plen, 0);
}

/// The compiled list holds exactly one create-window command per window
/// past ordinal position 0 — `windows - 1` in all when any window is
/// declared, none otherwise. The word is read right past the flag
/// prefix.
pub proof fn lemma_create_window_count(c: ConfigView, b: TmuxBaseIndices)
    ensures
        count_opening_with(spec_compile(c, b), "new-window"@, spec_flag_prefix(c).len() as int)
            == (if c.windows.len() >= 1 {
            c.windows.len() - 1
        } else {
            0int
        }),
{
    lemma_unprefixed_counts(c, b);
    lemma_compile_count(c, b, "new-window"@);
}

/// The compiled list holds exactly one split command per pane past
/// ordinal position 0 of its window: their total is the sum over the
/// windows of panes - 1. The word is read right past the flag prefix.
pub proof fn lemma_split_count(c: ConfigView, b: TmuxBaseIndices)
    ensures
        count_opening_with(spec_compile(c, b), "split-window"@, spec_flag_prefix(c).len() as int)
            == total_extra_panes(c.windows, c.windows.len() as int),
{
    lemma_unprefixed_counts(c, b);
    lemma_compile_count(c, b, "split-window"@);
}

/// Every create-window command in the compiled list is the creation of
/// the window at some ordinal position i past 0, carrying that window's
/// name and resolved directory and addressed to absolute index
/// origin + i.
pub proof fn lemma_create_window_cmds_form(c: ConfigView, b: TmuxBaseIndices)
    ensures
        forall|k: int|
            0 <= k < spec_compile(c, b).len() && opens_with_at(
                #[trigger] spec_compile(c, b)[k],
                "new-window"@,
                spec_flag_prefix(c).len() as int,
            ) ==> exists|i: int|
                1 <= i < c.windows.len() && spec_compile(c, b)[k] == ((
                    spec_flag_prefix(c) + spec_create_window_args(
                        c.name,
                        b.base_index as int + i,
                        c.windows[i].name,
                        spec_window_start_directory(
                            c.start_directory,
                            c.windows[i].start_directory,
                        ),
                    ),
                    false,
                )),
{
    lemma_unprefixed_cmds_ok(c, b);
    lemma_command_words_distinct();
    let u = spec_unprefixed_cmds(c, b);
    let prefix = spec_flag_prefix(c);
    assert forall|k: int|
        0 <= k < spec_compile(c, b).len() && opens_with_at(
            #[trigger] spec_compile(c, b)[k],
            "new-window"@,
            prefix.len() as int,
        ) implies exists|i: int|
        1 <= i < c.windows.len() && spec_compile(c, b)[k] == ((
            prefix + spec_create_window_args(
                c.name,
                b.base_index as int + i,
                c.windows[i].name,
                spec_window_start_directory(c.start_directory, c.windows[i].start_directory),
            ),
            false,
        )) by {
        assert(spec_compile(c, b)[k].0 == prefix + u[k].0);
        assert(spec_compile(c, b)[k].1 == u[k].1);
        assert(u[k].0[0] == "new-window"@);
        assert(unprefixed_cmd_ok(c, b, u[k]));
        if exists|i: int|
            1 <= i < c.windows.len() && u[k] == ((
                spec_create_window_args(
                    c.name,
                    b.base_index as int + i,
                    c.windows[i].name,
                    spec_window_start_directory(c.start_directory, c.windows[i].start_directory),
                ),
                false,
            )) {
            let i = choose|i: int|
                1 <= i < c.windows.len() && u[k] == ((
                    spec_create_window_args(
                        c.name,
                        b.base_index as int + i,
                        c.windows[i].name,
                        spec_window_start_directory(
                            c.start_directory,
                            c.windows[i].start_directory,
                        ),
                    ),
                    false,
                ));
            assert(spec_compile(c, b)[k] == ((
                prefix + spec_create_window_args(
                    c.name,
                    b.base_index as int + i,
                    c.windows[i].name,
                    spec_window_start_directory(c.start_directory, c.windows[i].start_directory),
                ),
                false,
            )));
        } else if exists|i: int|
            0 <= i < c.windows.len() && c.windows[i].panes.len() >= 2 && u[k] == ((
                spec_pane_args(c.name, b.base_index as int + i),
                false,
            )) {
            assert(u[k].0[0] == "split-window"@);
            assert(false);
        } else {
            assert(false);
        }
    }
}



/// True when t is the window-and-pane target of one of the first m panes
/// of the window at absolute index window_index: the pane's absolute
/// index is the pane origin plus its ordinal position.
pub open spec fn pane_target_of_window(
    name: Seq<char>,
    window_index: int,
    pane_base: int,
    m: int,
    t: Seq<char>,
) -> bool {
    exists|j: int|
        0 <= j < m && t == (#[trigger] crate::commands::spec_pane_target(
            name,
            window_index,
            pane_base + j,
        ))
}

/// True when t is the target of a declared pane of one of the first n
/// windows: both absolute indices are origin plus ordinal position.
pub open spec fn pane_target_among(c: ConfigView, b: TmuxBaseIndices, n: int, t: Seq<char>) -> bool {
    exists|i: int, j: int|
        0 <= i < n && 0 <= j < c.windows[i].panes.len() && t == (
        #[trigger] crate::commands::spec_pane_target(
            c.name,
            b.base_index as int + i,
            b.pane_base_index as int + j,
        ))
}

/// True when t is the target of some declared pane of the configuration.
pub open spec fn targets_a_declared_pane(
    c: ConfigView,
    b: TmuxBaseIndices,
    t: Seq<char>,
) -> bool {
    pane_target_among(c, b, c.windows.len() as int, t)
}

proof fn lemma_pane_target_of_window_widen(
    name: Seq<char>,
    window_index: int,
    pane_base: int,
    m1: int,
    m2: int,
    t: Seq<char>,
)
    requires
        m1 <= m2,
        pane_target_of_window(name, window_index, pane_base, m1, t),
    ensures
        pane_target_of_window(name, window_index, pane_base, m2, t),
{
    let j = choose|j: int|
        0 <= j < m1 && t == (#[trigger] crate::commands::spec_pane_target(
            name,
            window_index,
            pane_base + j,
        ));
    assert(0 <= j < m2 && t == crate::commands::spec_pane_target(
        name,
        window_index,
        pane_base + j,
    ));
}

proof fn lemma_pane_target_among_widen(
    c: ConfigView,
    b: TmuxBaseIndices,
    n1: int,
    n2: int,
    t: Seq<char>,
)
    requires
        n1 <= n2,
        pane_target_among(c, b, n1, t),
    ensures
        pane_target_among(c, b, n2, t),
{
    let (i, j) = choose|i: int, j: int|
        0 <= i < n1 && 0 <= j < c.windows[i].panes.len() && t == (
        #[trigger] crate::commands::spec_pane_target(
            c.name,
            b.base_index as int + i,
            b.pane_base_index as int + j,
        ));
    assert(0 <= i < n2 && 0 <= j < c.windows[i].panes.len() && t
        == crate::commands::spec_pane_target(
        c.name,
        b.base_index as int + i,
        b.pane_base_index as int + j,
    ));
}

proof fn lemma_shell_cmds_targets(
    name: Seq<char>,
    window_index: int,
    pane_index: int,
    commands: Seq<Seq<char>>,
    k: int,
)
    ensures
        forall|x: int|
            0 <= x < spec_shell_cmds(name, window_index, pane_index, commands, k).len() ==> {
                let cmd = #[trigger] spec_shell_cmds(name, window_index, pane_index, commands, k)[x];
                cmd.0.len() == 5 && cmd.0[0] == "send-keys"@ && cmd.0[2]
                    == crate::commands::spec_pane_target(name, window_index, pane_index)
            },
    decreases k,
{
    if k > 0 {
        lemma_shell_cmds_targets(name, window_index, pane_index, commands, k - 1);
        let prev = spec_shell_cmds(name, window_index, pane_index, commands, k - 1);
        let whole = spec_shell_cmds(name, window_index, pane_index, commands, k);
        let last = (
            spec_pane_command_args(name, window_index, pane_index, commands[k - 1]),
            false,
        );
        assert(whole == prev.push(last));
        assert forall|x: int| 0 <= x < whole.len() implies {
            let cmd = #[trigger] whole[x];
            cmd.0.len() == 5 && cmd.0[0] == "send-keys"@ && cmd.0[2]
                == crate::commands::spec_pane_target(name, window_index, pane_index)
        } by {
            if x < prev.len() {
                assert(whole[x] == prev[x]);
            } else {
                assert(whole[x] == last);
            }
        }
    }
}

proof fn lemma_pane_cmds_targets(
    name: Seq<char>,
    config_dir: Option<Seq<char>>,
    w: WindowView,
    user_opt: Option<Seq<char>>,
    window_index: int,
    pane_base: int,
    j: int,
)
    ensures
        forall|x: int|
            0 <= x < spec_pane_cmds(name, config_dir, w, user_opt, window_index, pane_base, j).len()
                ==> {
                let cmd = #[trigger] spec_pane_cmds(
                    name,
                    config_dir,
                    w,
                    user_opt,
                    window_index,
                    pane_base,
                    j,
                )[x];
                (opens_with_at(cmd, "send-keys"@, 0) ==> cmd.0.len() > 2 && cmd.0[2]
                    == crate::commands::spec_pane_target(name, window_index, pane_base + j))
                    && (opens_with_at(cmd, "set-option"@, 0) ==> cmd.0.len() > 3 && cmd.0[3]
                    == crate::commands::spec_pane_target(name, window_index, pane_base + j))
            },
{
    lemma_command_words_distinct();
    let p = w.panes[j];
    let pane_index = pane_base + j;
    lemma_shell_cmds_targets(name, window_index, pane_index, p.commands, p.commands.len() as int);
    let split_part = if j > 0 {
        seq![(spec_pane_args(name, window_index), false)]
    } else {
        Seq::<CmdView>::empty()
    };
    let dir_part = match spec_pane_start_directory(config_dir, w.start_directory, p.start_directory) {
        Some(d) => if d.len() > 0 {
            seq![(spec_pane_command_args(name, window_index, pane_index, "cd "@ + d), false)]
        } else {
            Seq::<CmdView>::empty()
        },
        None => Seq::<CmdView>::empty(),
    };
    let shell_part = spec_shell_cmds(
        name,
        window_index,
        pane_index,
        p.commands,
        p.commands.len() as int,
    );
    let rename_part = match spec_rename_pane_args(name, window_index, pane_index, user_opt, p.name) {
        Some(a) => seq![(a, false)],
        None => Seq::<CmdView>::empty(),
    };
    let whole = spec_pane_cmds(name, config_dir, w, user_opt, window_index, pane_base, j);
    assert(whole == split_part + dir_part + shell_part + rename_part);
    assert forall|x: int| 0 <= x < whole.len() implies {
        let cmd = #[trigger] whole[x];
        (opens_with_at(cmd, "send-keys"@, 0) ==> cmd.0.len() > 2 && cmd.0[2]
            == crate::commands::spec_pane_target(name, window_index, pane_base + j))
            && (opens_with_at(cmd, "set-option"@, 0) ==> cmd.0.len() > 3 && cmd.0[3]
            == crate::commands::spec_pane_target(name, window_index, pane_base + j))
    } by {
        let s1 = split_part.len();
        let s2 = s1 + dir_part.len();
        let s3 = s2 + shell_part.len();
        if x < s1 {
            assert(whole[x] == (spec_pane_args(name, window_index), false));
        } else if x < s2 {
            assert(whole[x] == dir_part[x - s1]);
        } else if x < s3 {
            assert(whole[x] == shell_part[x - s2]);
        } else {
            assert(whole[x] == rename_part[x - s3]);
        }
    }
}

proof fn lemma_panes_cmds_targets(
    name: Seq<char>,
    config_dir: Option<Seq<char>>,
    w: WindowView,
    user_opt: Option<Seq<char>>,
    window_index: int,
    pane_base: int,
    m: int,
)
    ensures
        forall|x: int|
            0 <= x < spec_panes_cmds(name, config_dir, w, user_opt, window_index, pane_base, m).len()
                ==> {
                let cmd = #[trigger] spec_panes_cmds(
                    name,
                    config_dir,
                    w,
                    user_opt,
                    window_index,
                    pane_base,
                    m,
                )[x];
                (opens_with_at(cmd, "send-keys"@, 0) ==> cmd.0.len() > 2 && pane_target_of_window(
                    name,
                    window_index,
                    pane_base,
                    m,
                    cmd.0[2],
                )) && (opens_with_at(cmd, "set-option"@, 0) ==> cmd.0.len() > 3
                    && pane_target_of_window(name, window_index, pane_base, m, cmd.0[3]))
            },
    decreases m,
{
    if m > 0 {
        lemma_panes_cmds_targets(name, config_dir, w, user_opt, window_index, pane_base, m - 1);
        lemma_pane_cmds_targets(name, config_dir, w, user_opt, window_index, pane_base, m - 1);
        let prev = spec_panes_cmds(name, config_dir, w, user_opt, window_index, pane_base, m - 1);
        let pseg = spec_pane_cmds(name, config_dir, w, user_opt, window_index, pane_base, m - 1);
        let whole = spec_panes_cmds(name, config_dir, w, user_opt, window_index, pane_base, m);
        assert(whole == prev + pseg);
        assert forall|x: int| 0 <= x < whole.len() implies {
            let cmd = #[trigger] whole[x];
            (opens_with_at(cmd, "send-keys"@, 0) ==> cmd.0.len() > 2 && pane_target_of_window(
                name,
                window_index,
                pane_base,
                m,
                cmd.0[2],
            )) && (opens_with_at(cmd, "set-option"@, 0) ==> cmd.0.len() > 3
                && pane_target_of_window(name, window_index, pane_base, m, cmd.0[3]))
        } by {
            if x < prev.len() {
                let cmd = prev[x];
                assert(whole[x] == cmd);
                if opens_with_at(cmd, "send-keys"@, 0) {
                    lemma_pane_target_of_window_widen(
                        name,
                        window_index,
                        pane_base,
                        m - 1,
                        m,
                        cmd.0[2],
                    );
                }
                if opens_with_at(cmd, "set-option"@, 0) {
                    lemma_pane_target_of_window_widen(
                        name,
                        window_index,
                        pane_base,
                        m - 1,
                        m,
                        cmd.0[3],
                    );
                }
            } else {
                let cmd = pseg[x - prev.len()];
                assert(whole[x] == cmd);
                if opens_with_at(cmd, "send-keys"@, 0) {
                    assert(0 <= m - 1 < m && cmd.0[2] == crate::commands::spec_pane_target(
                        name,
                        window_index,
                        pane_base + (m - 1),
                    ));
                }
                if opens_with_at(cmd, "set-option"@, 0) {
                    assert(0 <= m - 1 < m && cmd.0[3] == crate::commands::spec_pane_target(
                        name,
                        window_index,
                        pane_base + (m - 1),
                    ));
                }
            }
        }
    }
}

proof fn lemma_windows_cmds_targets(c: ConfigView, b: TmuxBaseIndices, n: int)
    requires
        n <= c.windows.len(),
    ensures
        forall|x: int|
            0 <= x < spec_windows_cmds(
                c.name,
                c.start_directory,
                c.layout,
                c.pane_name_user_option,
                c.windows,
                b.base_index as int,
                b.pane_base_index as int,
                n,
            ).len() ==> {
                let cmd = #[trigger] spec_windows_cmds(
                    c.name,
                    c.start_directory,
                    c.layout,
                    c.pane_name_user_option,
                    c.windows,
                    b.base_index as int,
                    b.pane_base_index as int,
                    n,
                )[x];
                (opens_with_at(cmd, "send-keys"@, 0) ==> cmd.0.len() > 2 && pane_target_among(
                    c,
                    b,
                    n,
                    cmd.0[2],
                )) && (opens_with_at(cmd, "set-option"@, 0) ==> cmd.0.len() > 3
                    && pane_target_among(c, b, n, cmd.0[3]))
            },
    decreases n,
{
    lemma_command_words_distinct();
    if n > 0 {
        lemma_windows_cmds_targets(c, b, n - 1);
        let w = c.windows[n - 1];
        let wi = b.base_index as int + (n - 1);
        lemma_panes_cmds_targets(
            c.name,
            c.start_directory,
            w,
            c.pane_name_user_option,
            wi,
            b.pane_base_index as int,
            w.panes.len() as int,
        );
        let prev = spec_windows_cmds(
            c.name,
            c.start_directory,
            c.layout,
            c.pane_name_user_option,
            c.windows,
            b.base_index as int,
            b.pane_base_index as int,
            n - 1,
        );
        let wseg = spec_window_cmds(
            c.name,
            c.start_directory,
            c.layout,
            c.pane_name_user_option,
            w,
            b.base_index as int,
            b.pane_base_index as int,
            n - 1,
        );
        let create_part = if n - 1 > 0 {
            seq![
                (
                    spec_create_window_args(
                        c.name,
                        wi,
                        w.name,
                        spec_window_start_directory(c.start_directory, w.start_directory),
                    ),
                    false,
                ),
            ]
        } else {
            Seq::<CmdView>::empty()
        };
        let panes_part = spec_panes_cmds(
            c.name,
            c.start_directory,
            w,
            c.pane_name_user_option,
            wi,
            b.pane_base_index as int,
            w.panes.len() as int,
        );
        let layout_part = match spec_window_layout_args(c.name, wi, c.layout, w.layout) {
            Some(a) => seq![(a, false)],
            None => Seq::<CmdView>::empty(),
        };
        assert(wseg == create_part + panes_part + layout_part);
        let whole = spec_windows_cmds(
            c.name,
            c.start_directory,
            c.layout,
            c.pane_name_user_option,
            c.windows,
            b.base_index as int,
            b.pane_base_index as int,
            n,
        );
        assert(whole == prev + wseg);
        assert forall|x: int| 0 <= x < whole.len() implies {
            let cmd = #[trigger] whole[x];
            (opens_with_at(cmd, "send-keys"@, 0) ==> cmd.0.len() > 2 && pane_target_among(
                c,
                b,
                n,
                cmd.0[2],
            )) && (opens_with_at(cmd, "set-option"@, 0) ==> cmd.0.len() > 3 && pane_target_among(
                c,
                b,
                n,
                cmd.0[3],
            ))
        } by {
            if x < prev.len() {
                let cmd = prev[x];
                assert(whole[x] == cmd);
                if opens_with_at(cmd, "send-keys"@, 0) {
                    lemma_pane_target_among_widen(c, b, n - 1, n, cmd.0[2]);
                }
                if opens_with_at(cmd, "set-option"@, 0) {
                    lemma_pane_target_among_widen(c, b, n - 1, n, cmd.0[3]);
                }
            } else {
                let y = x - prev.len();
                let cmd = wseg[y];
                assert(whole[x] == cmd);
                let s1 = create_part.len();
                let s2 = s1 + panes_part.len();
                if y < s1 {
                    assert(cmd == create_part[y]);
                    assert(cmd.0[0] == "new-window"@);
                } else if y < s2 {
                    assert(cmd == panes_part[y - s1]);
                    if opens_with_at(cmd, "send-keys"@, 0) {
                        let j = choose|j: int|
                            0 <= j < w.panes.len() && cmd.0[2] == (
                            #[trigger] crate::commands::spec_pane_target(
                                c.name,
                                wi,
                                b.pane_base_index as int + j,
                            ));
                        assert(0 <= n - 1 < n && 0 <= j < c.windows[n - 1].panes.len() && cmd.0[2]
                            == crate::commands::spec_pane_target(
                            c.name,
                            b.base_index as int + (n - 1),
                            b.pane_base_index as int + j,
                        ));
                    }
                    if opens_with_at(cmd, "set-option"@, 0) {
                        let j = choose|j: int|
                            0 <= j < w.panes.len() && cmd.0[3] == (
                            #[trigger] crate::commands::spec_pane_target(
                                c.name,
                                wi,
                                b.pane_base_index as int + j,
                            ));
                        assert(0 <= n - 1 < n && 0 <= j < c.windows[n - 1].panes.len() && cmd.0[3]
                            == crate::commands::spec_pane_target(
                            c.name,
                            b.base_index as int + (n - 1),
                            b.pane_base_index as int + j,
                        ));
                    }
                } else {
                    assert(cmd == layout_part[y - s2]);
                    assert(cmd.0[0] == "select-layout"@);
                }
            }
        }
    }
}

/// Every pane-addressed command in the compiled list — a send-keys line,
/// whose target token stands two places past the flag prefix, or a pane
/// label option, whose target stands three places past it — addresses a
/// declared pane, at the absolute indices origin + window ordinal and
/// origin + pane ordinal.
pub proof fn lemma_pane_addressed_cmds_form(c: ConfigView, b: TmuxBaseIndices)
    ensures
        forall|k: int|
            0 <= k < spec_compile(c, b).len() && opens_with_at(
                #[trigger] spec_compile(c, b)[k],
                "send-keys"@,
                spec_flag_prefix(c).len() as int,
            ) ==> spec_compile(c, b)[k].0.len() > spec_flag_prefix(c).len() as int + 2
                && targets_a_declared_pane(
                c,
                b,
                spec_compile(c, b)[k].0[spec_flag_prefix(c).len() as int + 2],
            ),
        forall|k: int|
            0 <= k < spec_compile(c, b).len() && opens_with_at(
                #[trigger] spec_compile(c, b)[k],
                "set-option"@,
                spec_flag_prefix(c).len() as int,
            ) ==> spec_compile(c, b)[k].0.len() > spec_flag_prefix(c).len() as int + 3
                && targets_a_declared_pane(
                c,
                b,
                spec_compile(c, b)[k].0[spec_flag_prefix(c).len() as int + 3],
            ),
{
    lemma_command_words_distinct();
    lemma_hooks_cmds_ok(c.hooks, c.hooks.len() as int);
    lemma_windows_cmds_targets(c, b, c.windows.len() as int);
    let u = spec_unprefixed_cmds(c, b);
    let prefix = spec_flag_prefix(c);
    let plen = prefix.len() as int;
    let hseg = spec_hooks_cmds(c.hooks, c.hooks.len() as int);
    let wseg = spec_windows_cmds(
        c.name,
        c.start_directory,
        c.layout,
        c.pane_name_user_option,
        c.windows,
        b.base_index as int,
        b.pane_base_index as int,
        c.windows.len() as int,
    );
    assert forall|k: int| 0 <= k < u.len() implies {
        let cmd = #[trigger] u[k];
        (opens_with_at(cmd, "send-keys"@, 0) ==> cmd.0.len() > 2 && targets_a_declared_pane(
            c,
            b,
            cmd.0[2],
        )) && (opens_with_at(cmd, "set-option"@, 0) ==> cmd.0.len() > 3
            && targets_a_declared_pane(c, b, cmd.0[3]))
    } by {
        if k == 0 {
            assert(u[0] == spec_session_cmd(c));
            assert(spec_session_cmd(c).0[0] == "new-session"@);
        } else if k < 1 + hseg.len() {
            assert(u[k] == hseg[k - 1]);
        } else if k < 1 + hseg.len() + wseg.len() {
            assert(u[k] == wseg[k - 1 - hseg.len()]);
        } else {
            assert(c.attached);
            assert(u[k] == ((spec_attach_args(c.name), true)));
            assert(u[k].0[0] == "-u"@);
        }
    }
    assert forall|k: int|
        0 <= k < spec_compile(c, b).len() && opens_with_at(
            #[trigger] spec_compile(c, b)[k],
            "send-keys"@,
            plen,
        ) implies spec_compile(c, b)[k].0.len() > plen + 2 && targets_a_declared_pane(
        c,
        b,
        spec_compile(c, b)[k].0[plen + 2],
    ) by {
        assert(spec_compile(c, b)[k].0 == prefix + u[k].0);
        assert(u[k].0[0] == "send-keys"@);
        assert(opens_with_at(u[k], "send-keys"@, 0));
        assert(spec_compile(c, b)[k].0[plen + 2] == u[k].0[2]);
    }
    assert forall|k: int|
        0 <= k < spec_compile(c, b).len() && opens_with_at(
            #[trigger] spec_compile(c, b)[k],
            "set-option"@,
            plen,
        ) implies spec_compile(c, b)[k].0.len() > plen + 3 && targets_a_declared_pane(
        c,
        b,
        spec_compile(c, b)[k].0[plen + 3],
    ) by {
        assert(spec_compile(c, b)[k].0 == prefix + u[k].0);
        assert(u[k].0[0] == "set-option"@);
        assert(opens_with_at(u[k], "set-option"@, 0));
        assert(spec_compile(c, b)[k].0[plen + 3] == u[k].0[3]);
    }
}

} // verus!
