//! What a run is asked to do, read from the process arguments.

use vstd::prelude::*;

verus! {

/// The three things a run can do.
#[derive(Debug, Clone, Copy, PartialEq, Eq, Structural)]
pub enum Command {
    /// Write the registry import that starts the program with the session.
    CreateAutostartHelperFiles,
    /// Write the task description and register the daily task.
    CreateTaskSchedulerEntries,
    /// Gather the readings, format the report and mail it.
    SendReport,
}

/// The texts of a run of strings.
pub open spec fn texts_of(strings: Seq<String>) -> Seq<Seq<char>> {
    strings.map_values(|s: String| s@)
}

/// The command that the arguments select. `args[0]` is the program's own
/// name. The argument after it selects one of the two helper commands where
/// it is that command's name, letter for letter; anything else, and no
/// argument at all, selects the report.
pub open spec fn selected_command(args: Seq<Seq<char>>) -> Command {
    if args.len() >= 2 && args[1] == "create_autostart_helper_files"@ {
        Command::CreateAutostartHelperFiles
    } else if args.len() >= 2 && args[1] == "create_task_scheduler_entries"@ {
        Command::CreateTaskSchedulerEntries
    } else {
        Command::SendReport
    }
}

/// Reads the command from the process arguments.
pub fn select_command(args: &[String]) -> (command: Command)
    ensures
        command == selected_command(texts_of(args@)),
{
    if args.len() >= 2 {
        let autostart = String::from_str("create_autostart_helper_files");
        let scheduler = String::from_str("create_task_scheduler_entries");
        if args[1] == autostart {
            return Command::CreateAutostartHelperFiles;
        }
        if args[1] == scheduler {
            return Command::CreateTaskSchedulerEntries;
        }
    }
    Command::SendReport
}

/// The two helper commands have different names, so no argument selects
/// both, and arguments after the first play no part.
pub proof fn lemma_command_reads_first_argument(args: Seq<Seq<char>>, other: Seq<Seq<char>>)
    requires
        args.len() >= 2,
        other.len() >= 2,
        args[1] == other[1],
    ensures
        selected_command(args) == selected_command(other),
        "create_autostart_helper_files"@ != "create_task_scheduler_entries"@,
{
    reveal_strlit("create_autostart_helper_files");
    reveal_strlit("create_task_scheduler_entries");
    assert("create_autostart_helper_files"@[7] != "create_task_scheduler_entries"@[7]);
}

} // verus!
