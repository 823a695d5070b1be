//! Running a compiled workspace against a live multiplexer. The one
//! outside capability — issuing a tmux invocation — is injected through a
//! trait, so the compilation itself stays pure; callers provide an
//! implementation that spawns the real process.
use vstd::prelude::*;
use vstd::string::*;
use std::io::Write;
use crate::compile::convert_config_to_tmux_commands;
use crate::config::{Config, TmuxBaseIndices};
use crate::indices::parse_base_indices;
use crate::text::{join_spaces, spec_join_spaces, tokens_view};

verus! {

/// The capability to run one tmux invocation. `command` holds the
/// arguments handed to the tmux binary; `wait` says whether the caller
/// must block until the process exits (the final interactive attach).
/// An implementation gives back what the process wrote to its standard
/// output, or a message when the invocation could not be made at all.
pub trait TmuxCommandRunner {
    fn run_tmux_command(&self, command: &Vec<String>, wait: bool) -> Result<String, String>;
}

/// The tokens of the one combined option query: start the server if it
/// is not running, then print the global window-index and pane-index
/// options.
pub open spec fn spec_index_query_args() -> Seq<Seq<char>> {
    seq![
        "start-server"@,
        ";"@,
        "show-option"@,
        "-g"@,
        "base-index"@,
        ";"@,
        "show-window-option"@,
        "-g"@,
        "pane-base-index"@,
    ]
}

/// Builds the combined option query handed to the runner, token for
/// token.
pub fn index_query_args() -> (r: Vec<String>)
    ensures
        tokens_view(r@) == spec_index_query_args(),
{
    let mut args: Vec<String> = Vec::new();
    args.push(String::from_str("start-server"));
    args.push(String::from_str(";"));
    args.push(String::from_str("show-option"));
    args.push(String::from_str("-g"));
    args.push(String::from_str("base-index"));
    args.push(String::from_str(";"));
    args.push(String::from_str("show-window-option"));
    args.push(String::from_str("-g"));
    args.push(String::from_str("pane-base-index"));
    proof {
        assert(tokens_view(args@) =~= spec_index_query_args());
    }
    args
}

/// Asks the running multiplexer for its window-index and pane-index
/// origins with the one combined query of `index_query_args`, and reads
/// the two numbers out of whatever text came back; unreadable output
/// counts as origin 0. Only a query that could not be issued at all is an
/// error.
pub fn get_tmux_base_indices<R: TmuxCommandRunner>(tmux_command_runner: &R) -> (r: Result<
    TmuxBaseIndices,
    String,
>) {
    let args = index_query_args();
    match tmux_command_runner.run_tmux_command(&args, false) {
        Ok(output) => Ok(parse_base_indices(output.as_str())),
        Err(message) => Err(message),
    }
}

/// Relies on std::io::stdout: writes the line, then a line break, to
/// standard output.
#[verifier::external_body]
fn print_line(line: &str) {
    let _ = writeln!(std::io::stdout(), "{}", line);
}

/// Discovers the index origins, compiles the configuration, and runs the
/// compiled commands in order through the given runner, blocking only on
/// the final attach. Fails only when the origins could not be discovered
/// at all; what each later invocation made of its command is the
/// multiplexer's business.
pub fn run_start<R: TmuxCommandRunner>(config: Config, tmux_command_runner: &R) -> (r: Result<
    (),
    String,
>) {
    let base_indices = match get_tmux_base_indices(tmux_command_runner) {
        Ok(base_indices) => base_indices,
        Err(message) => {
            return Err(message);
        },
    };
    let commands = convert_config_to_tmux_commands(&config, base_indices);
    let mut idx: usize = 0;
    while idx < commands.len()
        decreases commands@.len() - idx,
    {
        let command = &commands[idx];
        let _ = tmux_command_runner.run_tmux_command(&command.0, command.1);
        idx += 1;
    }
    Ok(())
}

/// The dry-run writing of one compiled command: the tmux program name,
/// then the command's tokens joined with single spaces.
pub fn render_debug_line(command: &Vec<String>) -> (r: String)
    ensures
        r@ == "tmux "@ + spec_join_spaces(tokens_view(command@)),
{
    let mut line = String::from_str("tmux ");
    let joined = join_spaces(command);
    line.append(joined.as_str());
    line
}

/// Discovers the index origins, compiles the configuration, and prints
/// each compiled command as one `render_debug_line` line instead of
/// running anything.
pub fn run_debug<R: TmuxCommandRunner>(config: Config, tmux_command_runner: &R) -> (r: Result<
    (),
    String,
>) {
    let base_indices = match get_tmux_base_indices(tmux_command_runner) {
        Ok(base_indices) => base_indices,
        Err(message) => {
            return Err(message);
        },
    };
    let commands = convert_config_to_tmux_commands(&config, base_indices);
    let mut idx: usize = 0;
    while idx < commands.len()
        decreases commands@.len() - idx,
    {
        let command = &commands[idx];
        let line = render_debug_line(&command.0);
        print_line(line.as_str());
        idx += 1;
    }
    Ok(())
}

} // verus!
