//! The action hooks as commands: what to run to switch the display input.
//!
//! The library says which program to run and with which arguments. Running
//! it, and looking at how it ended, is the caller's part; a hook that fails
//! is logged there and never stops the event loop.

use crate::config::{ResolvedConfig, ResolvedConfigView};
use crate::presence::Hook;
use crate::text::{decimal, push_decimal};
use vstd::prelude::*;
use vstd::string::*;

verus! {

/// A program to run and the arguments to run it with.
#[derive(Clone, Debug, PartialEq, Eq)]
pub struct InputCommand {
    pub program: String,
    pub args: Vec<String>,
}

/// The mathematical content of an [`InputCommand`].
pub struct InputCommandView {
    pub program: Seq<char>,
    pub args: Seq<Seq<char>>,
}

impl View for InputCommand {
    type V = InputCommandView;

    open spec fn view(&self) -> InputCommandView {
        InputCommandView { program: self.program@, args: self.args.deep_view() }
    }
}

/// How the run of a hook's command ended.
#[derive(Clone, Copy, Debug, PartialEq, Eq, Structural)]
pub enum HookOutcome {
    /// The program could not be started.
    SpawnFailed,
    /// The program was started and nobody waited for its end.
    Detached,
    /// The program ended with this exit code.
    Exited(i32),
    /// The program ended without an exit code.
    Killed,
}

/// Where the display tool was found.
#[derive(Clone, Copy, Debug, PartialEq, Eq, Structural)]
pub enum ToolLocation {
    /// At the path that the operator gave.
    Override,
    /// In the well-known install directory of this position.
    Installed(usize),
    /// On the command search path of the system.
    SearchPath,
}

/// Whether the tool is at the place where the search looks first.
pub open spec fn found_first(
    override_present: Option<bool>,
    installed: Seq<bool>,
    on_search_path: bool,
    location: ToolLocation,
) -> bool {
    match location {
        ToolLocation::Override => override_present == Some(true),
        ToolLocation::Installed(position) => {
            &&& override_present != Some(true)
            &&& position < installed.len()
            &&& installed[position as int]
            &&& forall|earlier: int| 0 <= earlier < position ==> !installed[earlier]
        },
        ToolLocation::SearchPath => {
            &&& override_present != Some(true)
            &&& forall|any: int| 0 <= any < installed.len() ==> !installed[any]
            &&& on_search_path
        },
    }
}

/// The command that selects an input: `betterdisplaycli set`, then
/// `--ddcAlt` if the alternative DDC mode is asked for, then the input code
/// in decimal as `--ddc=<code>`, then `--vcp=inputSelect`.
pub open spec fn input_command(input_code: u16, use_ddc_alt: bool) -> InputCommandView {
    let selection = seq!["--ddc="@ + decimal(input_code as nat), "--vcp=inputSelect"@];
    InputCommandView {
        program: "betterdisplaycli"@,
        args: if use_ddc_alt {
            seq!["set"@, "--ddcAlt"@] + selection
        } else {
            seq!["set"@] + selection
        },
    }
}

/// The command that a hook stands for under a configuration: the present
/// hook selects the first system's input, the absent hook the second's.
pub open spec fn hook_command(hook: Hook, config: ResolvedConfigView) -> InputCommandView {
    match hook {
        Hook::TargetPresent => input_command(config.system_one_input, config.ddc_alt),
        Hook::TargetAbsent => input_command(config.system_two_input, config.ddc_alt),
    }
}

/// Builds the command that selects an input.
pub fn set_input(input_code: u16, use_ddc_alt: bool) -> (command: InputCommand)
    ensures
        command@ == input_command(input_code, use_ddc_alt),
{
    let mut args: Vec<String> = Vec::new();
    args.push(String::from_str("set"));
    if use_ddc_alt {
        args.push(String::from_str("--ddcAlt"));
    }
    let mut selection = String::from_str("--ddc=");
    push_decimal(&mut selection, input_code as u32);
    args.push(selection);
    args.push(String::from_str("--vcp=inputSelect"));
    let command = InputCommand { program: String::from_str("betterdisplaycli"), args };
    assert(command@.args =~= input_command(input_code, use_ddc_alt).args);
    command
}

impl InputCommand {
    /// The same command with another program to run, for a tool that was
    /// found at a path of its own.
    pub fn with_program(self, program: String) -> (command: InputCommand)
        ensures
            command@ == (InputCommandView { program: program@, args: self@.args }),
    {
        InputCommand { program, args: self.args }
    }
}

impl HookOutcome {
    /// Whether the run counts as failed: the program could not be started,
    /// or it ended with anything but the exit code zero.
    pub open spec fn failed(self) -> bool {
        match self {
            HookOutcome::SpawnFailed => true,
            HookOutcome::Detached => false,
            HookOutcome::Exited(code) => code != 0,
            HookOutcome::Killed => true,
        }
    }

    /// Whether the run is to be logged as an error. A failed hook is logged
    /// and nothing more: the event loop goes on with the next event.
    pub fn is_failure(&self) -> (failed: bool)
        ensures
            failed == self.failed(),
    {
        match self {
            HookOutcome::SpawnFailed => true,
            HookOutcome::Detached => false,
            HookOutcome::Exited(code) => *code != 0,
            HookOutcome::Killed => true,
        }
    }
}

/// Picks the place of the display tool from what was found on disk. The
/// search goes in a fixed order: the path that the operator gave, if any;
/// then the well-known install directories in their order; then the command
/// search path. The result is the first place where the tool is, and `None`
/// when it is nowhere.
pub fn locate_tool(
    override_present: Option<bool>,
    installed: &Vec<bool>,
    on_search_path: bool,
) -> (location: Option<ToolLocation>)
    ensures
        match location {
            Some(place) => found_first(override_present, installed@, on_search_path, place),
            None => forall|place: ToolLocation|
                !found_first(override_present, installed@, on_search_path, place),
        },
{
    match override_present {
        Some(true) => {
            return Some(ToolLocation::Override);
        },
        _ => {},
    }
    let mut position: usize = 0;
    while position < installed.len()
        invariant
            position <= installed@.len(),
            override_present != Some(true),
            forall|earlier: int| 0 <= earlier < position ==> !installed@[earlier],
        decreases installed@.len() - position,
    {
        if installed[position] {
            return Some(ToolLocation::Installed(position));
        }
        position = position + 1;
    }
    if on_search_path {
        Some(ToolLocation::SearchPath)
    } else {
        assert forall|place: ToolLocation|
            !found_first(override_present, installed@, on_search_path, place) by {
            if let ToolLocation::Installed(at) = place {
                if at < installed@.len() {
                    assert(!installed@[at as int]);
                }
            }
        }
        None
    }
}

/// The command of the present hook: select the first system's input.
pub fn on_connect(cfg: &ResolvedConfig) -> (command: InputCommand)
    ensures
        command@ == hook_command(Hook::TargetPresent, cfg@),
{
    set_input(cfg.system_one_input, cfg.ddc_alt)
}

/// The command of the absent hook: select the second system's input.
pub fn on_disconnect(cfg: &ResolvedConfig) -> (command: InputCommand)
    ensures
        command@ == hook_command(Hook::TargetAbsent, cfg@),
{
    set_input(cfg.system_two_input, cfg.ddc_alt)
}

/// The command of a hook under a configuration.
pub fn command_for(hook: Hook, cfg: &ResolvedConfig) -> (command: InputCommand)
    ensures
        command@ == hook_command(hook, cfg@),
{
    match hook {
        Hook::TargetPresent => on_connect(cfg),
        Hook::TargetAbsent => on_disconnect(cfg),
    }
}

} // verus!
