//! The two files that tie the program into the host: a registry import
//! that starts it with the user's session, and a task description that runs
//! it once a day. Both name the program by the path of its executable.

use vstd::prelude::*;

verus! {

/// What stands before the executable's path in the registry import.
pub const REGISTRY_HEAD: &'static str =
    "\n[HKEY_CURRENT_USER\\Software\\Microsoft\\Windows\\CurrentVersion\\Run]\n\"hddwarn\"=\"";

/// What stands after the executable's path in the registry import.
pub const REGISTRY_TAIL: &'static str = "\"\n";

/// What stands before the executable's path in the task description.
pub const TASK_HEAD: &'static str =
    "\n<?xml version=\"1.0\" encoding=\"UTF-8\"?>\n<Task version=\"1.3\" xmlns=\"http://schemas.microsoft.com/windows/2004/02/mit/task\">\n  <RegistrationInfo>\n    <Author>hddwarn</Author>\n    <Description>Runs hddwarn every 24 hours</Description>\n  </RegistrationInfo>\n  <Triggers>\n    <CalendarTrigger>\n      <StartBoundary>2025-02-28T12:00:00</StartBoundary>\n      <Repetition>\n        <Interval>P1D</Interval>\n        <Duration>P1D</Duration>\n      </Repetition>\n    </CalendarTrigger>\n  </Triggers>\n  <Actions>\n    <Exec>\n      <Command>";

/// What stands after the executable's path in the task description.
pub const TASK_TAIL: &'static str = "</Command>\n    </Exec>\n  </Actions>\n</Task>\n";

/// What stands before the task file's name in the command that registers
/// the task.
pub const REGISTER_HEAD: &'static str = "schtasks /create /tn \"hddwarn Task\" /xml \"";

/// What stands after the task file's name in the command that registers
/// the task.
pub const REGISTER_TAIL: &'static str = "\" /f";

/// The registry import that adds the executable at `exe_path` to the
/// programs started with the user's session.
pub open spec fn registry_text(exe_path: Seq<char>) -> Seq<char> {
    REGISTRY_HEAD@ + exe_path + REGISTRY_TAIL@
}

/// The description of a task that runs the executable at `exe_path` daily.
pub open spec fn task_text(exe_path: Seq<char>) -> Seq<char> {
    TASK_HEAD@ + exe_path + TASK_TAIL@
}

/// The command line that registers the task described in `task_file`.
pub open spec fn register_command_text(task_file: Seq<char>) -> Seq<char> {
    REGISTER_HEAD@ + task_file + REGISTER_TAIL@
}

/// The name of the registry import file.
pub fn autostart_file_name() -> (name: &'static str)
    ensures
        name@ == "autostart.reg"@,
{
    "autostart.reg"
}

/// The name of the task description file.
pub fn task_file_name() -> (name: &'static str)
    ensures
        name@ == "task_scheduler.xml"@,
{
    "task_scheduler.xml"
}

/// The text of the registry import for the executable at `exe_path`.
pub fn autostart_registry_content(exe_path: &str) -> (content: String)
    ensures
        content@ == registry_text(exe_path@),
{
    let mut content = String::from_str(REGISTRY_HEAD);
    content.append(exe_path);
    content.append(REGISTRY_TAIL);
    content
}

/// The text of the task description for the executable at `exe_path`.
pub fn task_scheduler_xml(exe_path: &str) -> (content: String)
    ensures
        content@ == task_text(exe_path@),
{
    let mut content = String::from_str(TASK_HEAD);
    content.append(exe_path);
    content.append(TASK_TAIL);
    content
}

/// The command line that registers the task described in `task_file`.
pub fn register_task_command(task_file: &str) -> (command: String)
    ensures
        command@ == register_command_text(task_file@),
{
    let mut command = String::from_str(REGISTER_HEAD);
    command.append(task_file);
    command.append(REGISTER_TAIL);
    command
}

} // verus!
