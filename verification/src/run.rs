//! One run of the program as a machine. The machine decides; its caller
//! acts. Each step names one thing for the caller to do, with the lines to
//! print before doing it, and the caller hands back what came of it as the
//! next event. A run starts in `Stage::Start` with `Event::Launched` and is
//! over when a step says `Action::Exit`.

use crate::artifacts::{
    autostart_file_name, autostart_registry_content, register_command_text, register_task_command,
    registry_text, task_file_name, task_scheduler_xml, task_text,
};
use crate::command::{select_command, selected_command, texts_of, Command};
use crate::config::{config_file_name, load_config, placeholder_config, Config, ConfigRead,
    ConfigReadView, ConfigView};
use crate::disk::{get_disk_info, readings_of, sample_views, SampleView, VolumeSample};
use crate::mail::{
    mailbox_parses, plan_mail, planned_mail, refusal_text, report_subject, subject_line,
    valid_mailbox, MailRequest, MailRequestView,
};
use crate::report::{format_mail_content, report_text};
use vstd::prelude::*;

verus! {

/// Where a line is printed.
#[derive(Debug, Clone, Copy, PartialEq, Eq, Structural)]
pub enum Stream {
    Stdout,
    Stderr,
}

/// A line for the console, without its line break.
#[derive(Debug, Clone, PartialEq, Eq)]
pub struct ConsoleLine {
    pub stream: Stream,
    pub text: String,
}

/// The mathematical value of a `ConsoleLine`.
pub struct ConsoleLineView {
    pub stream: Stream,
    pub text: Seq<char>,
}

impl View for ConsoleLine {
    type V = ConsoleLineView;

    open spec fn view(&self) -> ConsoleLineView {
        ConsoleLineView { stream: self.stream, text: self.text@ }
    }
}

/// How far a run has come: what was asked of the caller last.
#[derive(Debug, Clone, PartialEq, Eq)]
pub enum Stage {
    /// Nothing yet.
    Start,
    /// The executable's path, for the registry import.
    AutostartLocating,
    /// To write the registry import.
    AutostartWriting,
    /// The executable's path, for the task description.
    TaskLocating,
    /// To write the task description.
    TaskWriting,
    /// To register the task.
    TaskRegistering,
    /// To read the configuration file.
    ConfigLoading,
    /// To write the placeholder configuration.
    ConfigStoring,
    /// The host's name and volumes; the configuration waits here.
    HostQuerying(Config),
    /// To deliver the mail; the recipient waits here.
    MailSending(String),
    /// To exit: the run is over.
    Finished,
}

/// The mathematical value of a `Stage`.
pub enum StageView {
    Start,
    AutostartLocating,
    AutostartWriting,
    TaskLocating,
    TaskWriting,
    TaskRegistering,
    ConfigLoading,
    ConfigStoring,
    HostQuerying(ConfigView),
    MailSending(Seq<char>),
    Finished,
}

impl View for Stage {
    type V = StageView;

    open spec fn view(&self) -> StageView {
        match self {
            Stage::Start => StageView::Start,
            Stage::AutostartLocating => StageView::AutostartLocating,
            Stage::AutostartWriting => StageView::AutostartWriting,
            Stage::TaskLocating => StageView::TaskLocating,
            Stage::TaskWriting => StageView::TaskWriting,
            Stage::TaskRegistering => StageView::TaskRegistering,
            Stage::ConfigLoading => StageView::ConfigLoading,
            Stage::ConfigStoring => StageView::ConfigStoring,
            Stage::HostQuerying(config) => StageView::HostQuerying(config@),
            Stage::MailSending(recipient) => StageView::MailSending(recipient@),
            Stage::Finished => StageView::Finished,
        }
    }
}

/// What came of the action that the last step asked for.
#[derive(Debug, PartialEq, Eq)]
pub enum Event {
    /// The process was started with these arguments, its own name first.
    Launched(Vec<String>),
    /// The running executable lies at this path.
    ExecutableLocated(String),
    /// The file was written, or could not be, for the reason given.
    FileWritten(Result<(), String>),
    /// The command ran, and reported success or failure.
    CommandFinished(bool),
    /// Reading the configuration file gave this.
    ConfigWasRead(ConfigRead),
    /// The placeholder configuration was written, or could not be.
    ConfigStored(Result<(), String>),
    /// The host's name, where it has one to give, and its volumes in the
    /// order in which it lists them.
    HostQueried(Option<String>, Vec<VolumeSample>),
    /// The mail was delivered, or the transport failed for the reason given.
    MailDelivered(Result<(), String>),
}

/// The mathematical value of an `Event`.
pub enum EventView {
    Launched(Seq<Seq<char>>),
    ExecutableLocated(Seq<char>),
    FileWritten(Result<(), Seq<char>>),
    CommandFinished(bool),
    ConfigWasRead(ConfigReadView),
    ConfigStored(Result<(), Seq<char>>),
    HostQueried(Option<Seq<char>>, Seq<SampleView>),
    MailDelivered(Result<(), Seq<char>>),
}

/// The view of an outcome that carries a reason where it failed.
pub open spec fn outcome_view(outcome: Result<(), String>) -> Result<(), Seq<char>> {
    match outcome {
        Ok(_) => Ok(()),
        Err(reason) => Err(reason@),
    }
}

/// The view of an optional text.
pub open spec fn option_text(text: Option<String>) -> Option<Seq<char>> {
    match text {
        Some(t) => Some(t@),
        None => None,
    }
}

impl View for Event {
    type V = EventView;

    open spec fn view(&self) -> EventView {
        match self {
            Event::Launched(args) => EventView::Launched(texts_of(args@)),
            Event::ExecutableLocated(path) => EventView::ExecutableLocated(path@),
            Event::FileWritten(outcome) => EventView::FileWritten(outcome_view(*outcome)),
            Event::CommandFinished(success) => EventView::CommandFinished(*success),
            Event::ConfigWasRead(read) => EventView::ConfigWasRead(read@),
            Event::ConfigStored(outcome) => EventView::ConfigStored(outcome_view(*outcome)),
            Event::HostQueried(name, volumes) => EventView::HostQueried(
                option_text(*name),
                sample_views(volumes@),
            ),
            Event::MailDelivered(outcome) => EventView::MailDelivered(outcome_view(*outcome)),
        }
    }
}

/// What the caller is to do next.
#[derive(Debug, Clone, PartialEq, Eq)]
pub enum Action {
    /// Find the path of the running executable.
    LocateExecutable,
    /// Create or truncate the file at `path` and write `content` to it.
    WriteFile { path: String, content: String },
    /// Run `command_line` through the host's command interpreter.
    RunCommand { command_line: String },
    /// Read the configuration file at `path`.
    ReadConfig { path: String },
    /// Write `config` to the configuration file at `path`.
    StoreConfig { path: String, config: Config },
    /// Ask the host for its name and its mounted volumes.
    QueryHost,
    /// Deliver this mail.
    SendMail(MailRequest),
    /// End the process with this exit code.
    Exit(i32),
}

/// The mathematical value of an `Action`.
pub enum ActionView {
    LocateExecutable,
    WriteFile { path: Seq<char>, content: Seq<char> },
    RunCommand { command_line: Seq<char> },
    ReadConfig { path: Seq<char> },
    StoreConfig { path: Seq<char>, config: ConfigView },
    QueryHost,
    SendMail(MailRequestView),
    Exit(i32),
}

impl View for Action {
    type V = ActionView;

    open spec fn view(&self) -> ActionView {
        match self {
            Action::LocateExecutable => ActionView::LocateExecutable,
            Action::WriteFile { path, content } => ActionView::WriteFile {
                path: path@,
                content: content@,
            },
            Action::RunCommand { command_line } => ActionView::RunCommand {
                command_line: command_line@,
            },
            Action::ReadConfig { path } => ActionView::ReadConfig { path: path@ },
            Action::StoreConfig { path, config } => ActionView::StoreConfig {
                path: path@,
                config: config@,
            },
            Action::QueryHost => ActionView::QueryHost,
            Action::SendMail(request) => ActionView::SendMail(request@),
            Action::Exit(code) => ActionView::Exit(*code),
        }
    }
}

/// One step of a run: the stage it leads to, the lines to print, in order,
/// and then the action to take.
#[derive(Debug, Clone, PartialEq, Eq)]
pub struct Step {
    pub stage: Stage,
    pub lines: Vec<ConsoleLine>,
    pub action: Action,
}

/// The mathematical value of a `Step`.
pub struct StepView {
    pub stage: StageView,
    pub lines: Seq<ConsoleLineView>,
    pub action: ActionView,
}

/// The values of a run of console lines.
pub open spec fn line_views(lines: Seq<ConsoleLine>) -> Seq<ConsoleLineView> {
    lines.map_values(|l: ConsoleLine| l@)
}

impl View for Step {
    type V = StepView;

    open spec fn view(&self) -> StepView {
        StepView { stage: self.stage@, lines: line_views(self.lines@), action: self.action@ }
    }
}

/// The view of a step that may be refused.
pub open spec fn option_step_view(step: Option<Step>) -> Option<StepView> {
    match step {
        Some(s) => Some(s@),
        None => None,
    }
}

/// A line for standard output.
pub open spec fn out_line(text: Seq<char>) -> ConsoleLineView {
    ConsoleLineView { stream: Stream::Stdout, text: text }
}

/// A line for standard error.
pub open spec fn err_line(text: Seq<char>) -> ConsoleLineView {
    ConsoleLineView { stream: Stream::Stderr, text: text }
}

/// A step that prints nothing.
pub open spec fn quiet_step(stage: StageView, action: ActionView) -> StepView {
    StepView { stage: stage, lines: Seq::<ConsoleLineView>::empty(), action: action }
}

/// The step that ends a run: the last lines, then the exit code.
pub open spec fn final_step(lines: Seq<ConsoleLineView>, code: i32) -> StepView {
    StepView { stage: StageView::Finished, lines: lines, action: ActionView::Exit(code) }
}

/// The name to report for the host: its own, or "Unknown" where it has
/// none to give.
pub open spec fn host_name_or_unknown(name: Option<Seq<char>>) -> Seq<char> {
    match name {
        Some(n) => n,
        None => "Unknown"@,
    }
}

/// The first step of a run: the arguments select what it is to do.
pub open spec fn launch_step(args: Seq<Seq<char>>) -> StepView {
    match selected_command(args) {
        Command::CreateAutostartHelperFiles => quiet_step(
            StageView::AutostartLocating,
            ActionView::LocateExecutable,
        ),
        Command::CreateTaskSchedulerEntries => quiet_step(
            StageView::TaskLocating,
            ActionView::LocateExecutable,
        ),
        Command::SendReport => quiet_step(
            StageView::ConfigLoading,
            ActionView::ReadConfig { path: "config.json"@ },
        ),
    }
}

/// The step after the configuration file was read. With a configuration
/// the run goes on to question the host. Without one it writes the
/// placeholder configuration, and will send nothing.
pub open spec fn config_step(read: ConfigReadView) -> StepView {
    match read.loaded() {
        Some(config) => quiet_step(StageView::HostQuerying(config), ActionView::QueryHost),
        None => StepView {
            stage: StageView::ConfigStoring,
            lines: seq![err_line("Config file not found, creating default config..."@)],
            action: ActionView::StoreConfig { path: "config.json"@, config: placeholder_config() },
        },
    }
}

/// The step after the host was questioned, given what the mailbox parser
/// said of the two addresses. The report is formatted and printed. Then,
/// where a mail is planned, it goes to the transport with the report as its
/// body; where none is, the reason is printed and the run ends, with exit
/// code 0 as for any mail that fails. An address that does not parse is
/// the reason before an empty field is.
pub open spec fn report_step_view(
    config: ConfigView,
    host_name: Option<Seq<char>>,
    volumes: Seq<SampleView>,
    sender_ok: bool,
    recipient_ok: bool,
) -> StepView {
    let report = report_text(host_name_or_unknown(host_name), readings_of(volumes));
    let shown = out_line("\n--- Mail Content ---\n"@ + report);
    match planned_mail(config, report_subject(), report, sender_ok, recipient_ok) {
        Ok(request) => StepView {
            stage: StageView::MailSending(config.recipient),
            lines: seq![shown],
            action: ActionView::SendMail(request),
        },
        Err(e) => final_step(
            seq![shown, err_line("Failed to send email: "@ + refusal_text(e))],
            0,
        ),
    }
}

/// The step that `event` leads to from `stage`, or `None` where the event
/// is not the answer to what the stage asked for.
pub open spec fn transition(stage: StageView, event: EventView) -> Option<StepView> {
    match (stage, event) {
        (StageView::Start, EventView::Launched(args)) => Some(launch_step(args)),
        (StageView::AutostartLocating, EventView::ExecutableLocated(exe)) => Some(
            quiet_step(
                StageView::AutostartWriting,
                ActionView::WriteFile { path: "autostart.reg"@, content: registry_text(exe) },
            ),
        ),
        (StageView::AutostartWriting, EventView::FileWritten(Ok(_))) => Some(
            final_step(seq![out_line("Auto-start registry file created at autostart.reg"@)], 0),
        ),
        (StageView::AutostartWriting, EventView::FileWritten(Err(reason))) => Some(
            final_step(
                seq![err_line("Failed to create auto-start helper files: "@ + reason)],
                0,
            ),
        ),
        (StageView::TaskLocating, EventView::ExecutableLocated(exe)) => Some(
            quiet_step(
                StageView::TaskWriting,
                ActionView::WriteFile { path: "task_scheduler.xml"@, content: task_text(exe) },
            ),
        ),
        (StageView::TaskWriting, EventView::FileWritten(Ok(_))) => Some(
            StepView {
                stage: StageView::TaskRegistering,
                lines: seq![
                    out_line("Task Scheduler entry XML created at task_scheduler.xml"@),
                ],
                action: ActionView::RunCommand {
                    command_line: register_command_text("task_scheduler.xml"@),
                },
            },
        ),
        (StageView::TaskWriting, EventView::FileWritten(Err(reason))) => Some(
            final_step(
                seq![err_line("Failed to create task-start scheduler entries: "@ + reason)],
                0,
            ),
        ),
        (StageView::TaskRegistering, EventView::CommandFinished(success)) => Some(
            if success {
                final_step(seq![out_line("Task scheduler entry successfully created."@)], 0)
            } else {
                final_step(
                    seq![
                        err_line("Failed to register the task scheduler entry."@),
                        err_line(
                            "Failed to create task-start scheduler entries: Failed to register the task"@,
                        ),
                    ],
                    0,
                )
            },
        ),
        (StageView::ConfigLoading, EventView::ConfigWasRead(read)) => Some(config_step(read)),
        (StageView::ConfigStoring, EventView::ConfigStored(Ok(_))) => Some(
            final_step(seq![out_line("Default config created at config.json"@)], 1),
        ),
        (StageView::ConfigStoring, EventView::ConfigStored(Err(reason))) => Some(
            final_step(seq![err_line("Failed to create default config: "@ + reason)], 1),
        ),
        (StageView::HostQuerying(config), EventView::HostQueried(name, volumes)) => Some(
            report_step_view(
                config,
                name,
                volumes,
                mailbox_parses(config.sendmail),
                mailbox_parses(config.recipient),
            ),
        ),
        (StageView::MailSending(recipient), EventView::MailDelivered(Ok(_))) => Some(
            final_step(seq![out_line("Email sent successfully to "@ + recipient)], 0),
        ),
        (StageView::MailSending(_), EventView::MailDelivered(Err(reason))) => Some(
            final_step(seq![err_line("Failed to send email: "@ + reason)], 0),
        ),
        _ => None,
    }
}

fn console_line(stream: Stream, text: String) -> (line: ConsoleLine)
    ensures
        line@ == (ConsoleLineView { stream: stream, text: text@ }),
{
    ConsoleLine { stream: stream, text: text }
}

fn joined(head: &str, tail: &str) -> (text: String)
    ensures
        text@ == head@ + tail@,
{
    let mut text = String::from_str(head);
    text.append(tail);
    text
}

fn no_lines() -> (lines: Vec<ConsoleLine>)
    ensures
        line_views(lines@) == Seq::<ConsoleLineView>::empty(),
{
    let lines: Vec<ConsoleLine> = Vec::new();
    assert(line_views(lines@) =~= Seq::<ConsoleLineView>::empty());
    lines
}

fn one_line(first: ConsoleLine) -> (lines: Vec<ConsoleLine>)
    ensures
        line_views(lines@) == seq![first@],
{
    let mut lines: Vec<ConsoleLine> = Vec::new();
    lines.push(first);
    assert(line_views(lines@) =~= seq![first@]);
    lines
}

fn two_lines(first: ConsoleLine, second: ConsoleLine) -> (lines: Vec<ConsoleLine>)
    ensures
        line_views(lines@) == seq![first@, second@],
{
    let mut lines: Vec<ConsoleLine> = Vec::new();
    lines.push(first);
    lines.push(second);
    assert(line_views(lines@) =~= seq![first@, second@]);
    lines
}

fn quiet(stage: Stage, action: Action) -> (step: Step)
    ensures
        step@ == quiet_step(stage@, action@),
{
    Step { stage: stage, lines: no_lines(), action: action }
}

fn finish(lines: Vec<ConsoleLine>, code: i32) -> (step: Step)
    ensures
        step@ == final_step(line_views(lines@), code),
{
    Step { stage: Stage::Finished, lines: lines, action: Action::Exit(code) }
}

fn finish_told(text: &str, code: i32) -> (step: Step)
    ensures
        step@ == final_step(seq![out_line(text@)], code),
{
    finish(one_line(console_line(Stream::Stdout, String::from_str(text))), code)
}

fn finish_failed(what: &str, reason: &str, code: i32) -> (step: Step)
    ensures
        step@ == final_step(seq![err_line(what@ + reason@)], code),
{
    finish(one_line(console_line(Stream::Stderr, joined(what, reason))), code)
}

/// The name to report for the host: its own, or "Unknown" where it has
/// none to give.
pub fn host_name_or_default(name: Option<String>) -> (host: String)
    ensures
        host@ == host_name_or_unknown(option_text(name)),
{
    match name {
        Some(n) => n,
        None => String::from_str("Unknown"),
    }
}

/// The first step of a run.
pub fn launch(args: &[String]) -> (step: Step)
    ensures
        step@ == launch_step(texts_of(args@)),
{
    match select_command(args) {
        Command::CreateAutostartHelperFiles => quiet(
            Stage::AutostartLocating,
            Action::LocateExecutable,
        ),
        Command::CreateTaskSchedulerEntries => quiet(Stage::TaskLocating, Action::LocateExecutable),
        Command::SendReport => quiet(
            Stage::ConfigLoading,
            Action::ReadConfig { path: String::from_str(config_file_name()) },
        ),
    }
}

/// The step after the configuration file was read.
pub fn config_loaded(read: ConfigRead) -> (step: Step)
    ensures
        step@ == config_step(read@),
{
    match load_config(read) {
        Some(config) => quiet(Stage::HostQuerying(config), Action::QueryHost),
        None => Step {
            stage: Stage::ConfigStoring,
            lines: one_line(
                console_line(
                    Stream::Stderr,
                    String::from_str("Config file not found, creating default config..."),
                ),
            ),
            action: Action::StoreConfig {
                path: String::from_str(config_file_name()),
                config: Config::default(),
            },
        },
    }
}

/// The step after the host was questioned, given what the mailbox parser
/// said of the sender's and the recipient's address.
pub fn report_step(
    config: Config,
    host_name: Option<String>,
    volumes: Vec<VolumeSample>,
    sender_ok: bool,
    recipient_ok: bool,
) -> (step: Step)
    ensures
        step@ == report_step_view(
            config@,
            option_text(host_name),
            sample_views(volumes@),
            sender_ok,
            recipient_ok,
        ),
{
    let host = host_name_or_default(host_name);
    let disks = get_disk_info(volumes.as_slice());
    let report = format_mail_content(host.as_str(), disks.as_slice());
    let shown = console_line(Stream::Stdout, joined("\n--- Mail Content ---\n", report.as_str()));
    match plan_mail(&config, subject_line(), report.as_str(), sender_ok, recipient_ok) {
        Ok(request) => Step {
            stage: Stage::MailSending(config.recipient),
            lines: one_line(shown),
            action: Action::SendMail(request),
        },
        Err(e) => finish(
            two_lines(
                shown,
                console_line(Stream::Stderr, joined("Failed to send email: ", e.reason())),
            ),
            0,
        ),
    }
}

/// Takes a run one step further: from `stage`, with what came of the
/// action it asked for, to the next stage, the lines to print and the next
/// action. An event that does not answer the stage is refused with `None`.
pub fn advance(stage: Stage, event: Event) -> (step: Option<Step>)
    ensures
        option_step_view(step) == transition(stage@, event@),
{
    match stage {
        Stage::Start => match event {
            Event::Launched(args) => Some(launch(args.as_slice())),
            _ => None,
        },
        Stage::AutostartLocating => match event {
            Event::ExecutableLocated(exe) => Some(
                quiet(
                    Stage::AutostartWriting,
                    Action::WriteFile {
                        path: String::from_str(autostart_file_name()),
                        content: autostart_registry_content(exe.as_str()),
                    },
                ),
            ),
            _ => None,
        },
        Stage::AutostartWriting => match event {
            Event::FileWritten(Ok(_)) => Some(
                finish_told("Auto-start registry file created at autostart.reg", 0),
            ),
            Event::FileWritten(Err(reason)) => Some(
                finish_failed("Failed to create auto-start helper files: ", reason.as_str(), 0),
            ),
            _ => None,
        },
        Stage::TaskLocating => match event {
            Event::ExecutableLocated(exe) => Some(
                quiet(
                    Stage::TaskWriting,
                    Action::WriteFile {
                        path: String::from_str(task_file_name()),
                        content: task_scheduler_xml(exe.as_str()),
                    },
                ),
            ),
            _ => None,
        },
        Stage::TaskWriting => match event {
            Event::FileWritten(Ok(_)) => Some(
                Step {
                    stage: Stage::TaskRegistering,
                    lines: one_line(
                        console_line(
                            Stream::Stdout,
                            String::from_str(
                                "Task Scheduler entry XML created at task_scheduler.xml",
                            ),
                        ),
                    ),
                    action: Action::RunCommand {
                        command_line: register_task_command(task_file_name()),
                    },
                },
            ),
            Event::FileWritten(Err(reason)) => Some(
                finish_failed(
                    "Failed to create task-start scheduler entries: ",
                    reason.as_str(),
                    0,
                ),
            ),
            _ => None,
        },
        Stage::TaskRegistering => match event {
            Event::CommandFinished(success) => {
                if success {
                    Some(finish_told("Task scheduler entry successfully created.", 0))
                } else {
                    Some(
                        finish(
                            two_lines(
                                console_line(
                                    Stream::Stderr,
                                    String::from_str("Failed to register the task scheduler entry."),
                                ),
                                console_line(
                                    Stream::Stderr,
                                    String::from_str(
                                        "Failed to create task-start scheduler entries: Failed to register the task",
                                    ),
                                ),
                            ),
                            0,
                        ),
                    )
                }
            },
            _ => None,
        },
        Stage::ConfigLoading => match event {
            Event::ConfigWasRead(read) => Some(config_loaded(read)),
            _ => None,
        },
        Stage::ConfigStoring => match event {
            Event::ConfigStored(Ok(_)) => Some(
                finish_told("Default config created at config.json", 1),
            ),
            Event::ConfigStored(Err(reason)) => Some(
                finish_failed("Failed to create default config: ", reason.as_str(), 1),
            ),
            _ => None,
        },
        Stage::HostQuerying(config) => match event {
            Event::HostQueried(name, volumes) => {
                let sender_ok = valid_mailbox(config.sendmail.as_str());
                let recipient_ok = valid_mailbox(config.recipient.as_str());
                Some(report_step(config, name, volumes, sender_ok, recipient_ok))
            },
            _ => None,
        },
        Stage::MailSending(recipient) => match event {
            Event::MailDelivered(Ok(_)) => Some(
                finish(
                    one_line(
                        console_line(
                            Stream::Stdout,
                            joined("Email sent successfully to ", recipient.as_str()),
                        ),
                    ),
                    0,
                ),
            ),
            Event::MailDelivered(Err(reason)) => Some(
                finish_failed("Failed to send email: ", reason.as_str(), 0),
            ),
            _ => None,
        },
        Stage::Finished => None,
    }
}

/// The most steps that a run can still take from `stage`.
pub open spec fn steps_left(stage: StageView) -> nat {
    match stage {
        StageView::Start => 4,
        StageView::AutostartLocating => 2,
        StageView::AutostartWriting => 1,
        StageView::TaskLocating => 3,
        StageView::TaskWriting => 2,
        StageView::TaskRegistering => 1,
        StageView::ConfigLoading => 3,
        StageView::ConfigStoring => 1,
        StageView::HostQuerying(_) => 2,
        StageView::MailSending(_) => 1,
        StageView::Finished => 0,
    }
}

/// Every step brings a run closer to its end: nothing is tried twice, and
/// no run takes more than four steps.
pub proof fn lemma_run_makes_progress(stage: StageView, event: EventView)
    requires
        transition(stage, event) is Some,
    ensures
        steps_left(transition(stage, event)->0.stage) < steps_left(stage),
        steps_left(stage) <= 4,
{
}

/// A run is over exactly when a step says to exit, and nothing follows it.
pub proof fn lemma_exit_ends_run(stage: StageView, event: EventView)
    ensures
        transition(stage, event) matches Some(step) ==> (step.action is Exit
            <==> step.stage is Finished),
        transition(StageView::Finished, event) is None,
{
}

/// A run exits with 1 where it found no configuration and wrote the
/// placeholder, or tried to; any other run exits with 0. That a mail could
/// not be sent does not change the exit code.
pub proof fn lemma_exit_codes(stage: StageView, event: EventView, code: i32)
    requires
        transition(stage, event) matches Some(step) && step.action == ActionView::Exit(code),
    ensures
        code == 0 || code == 1,
        code == 1 <==> stage is ConfigStoring,
        stage is MailSending ==> code == 0,
{
}

/// No mail goes out without a configuration. A mail is handed to the
/// transport only by the step that follows the host's answer, only where
/// the configuration is complete and both of its addresses parse, and it
/// is then made of the configuration's fields, the fixed subject, and the
/// report on the host's answer as its body.
pub proof fn lemma_mail_needs_config(stage: StageView, event: EventView)
    requires
        transition(stage, event) matches Some(step) && step.action is SendMail,
    ensures
        stage is HostQuerying,
        event is HostQueried,
        ({
            let config = stage->HostQuerying_0;
            let request = transition(stage, event)->0.action->SendMail_0;
            &&& config.is_complete()
            &&& mailbox_parses(config.sendmail)
            &&& mailbox_parses(config.recipient)
            &&& request.server == config.mailserver
            &&& request.port == config.port
            &&& request.sender == config.sendmail
            &&& request.password == config.password
            &&& request.recipient == config.recipient
            &&& request.subject == report_subject()
            &&& request.body == report_text(
                host_name_or_unknown(event->HostQueried_0),
                readings_of(event->HostQueried_1),
            )
            &&& transition(stage, event)->0.stage == StageView::MailSending(config.recipient)
        }),
{
}

/// Where reading the configuration file gives no configuration, whether
/// the file is missing or malformed, the run writes the placeholder
/// configuration to the configuration file, exits with 1 whatever came of
/// the writing, and never asks for a mail to be sent.
pub proof fn lemma_missing_config_ends_run(read: ConfigReadView, stored: Result<(), Seq<char>>)
    requires
        read.loaded() is None,
    ensures
        read is Missing || read is Malformed,
        transition(StageView::ConfigLoading, EventView::ConfigWasRead(read)) matches Some(first)
            && first.stage == StageView::ConfigStoring && first.action == (ActionView::StoreConfig {
            path: "config.json"@,
            config: placeholder_config(),
        }),
        transition(StageView::ConfigStoring, EventView::ConfigStored(stored)) matches Some(last)
            && last.stage == StageView::Finished && last.action == ActionView::Exit(1),
{
}

/// Where the file holds a configuration, the run goes on with exactly that
/// configuration and writes nothing.
pub proof fn lemma_config_is_kept(config: ConfigView)
    ensures
        transition(
            StageView::ConfigLoading,
            EventView::ConfigWasRead(ConfigReadView::Parsed(config)),
        ) == Some(quiet_step(StageView::HostQuerying(config), ActionView::QueryHost)),
{
}

/// The report that is mailed is the report that is printed: the step that
/// follows the host's answer prints the report under its heading first,
/// whether or not a mail is planned.
pub proof fn lemma_report_is_printed(
    config: ConfigView,
    host_name: Option<Seq<char>>,
    volumes: Seq<SampleView>,
)
    ensures
        transition(
            StageView::HostQuerying(config),
            EventView::HostQueried(host_name, volumes),
        ) matches Some(step) && step.lines.len() >= 1 && step.lines[0] == out_line(
            "\n--- Mail Content ---\n"@ + report_text(
                host_name_or_unknown(host_name),
                readings_of(volumes),
            ),
        ) && (step.action is SendMail || step.action == ActionView::Exit(0)),
{
}

} // verus!
