//! The privileged run and the handshake around it.
//!
//! The unprivileged caller re-runs its own executable through a
//! privilege-escalation helper, with the chosen percentage and a persist
//! flag. The privileged run applies the threshold and, where asked, installs
//! and enables the unit; it prints one status line and exits. The caller
//! reads that line back.
//!
//! The run is a state machine: `PrivilegedRun::next_action` says what outside
//! work to do next, and `PrivilegedRun::advance` takes its result. The first
//! failure ends the run.
use vstd::prelude::*;
use vstd::string::StrSliceExecFns;
use vstd::string::StringExecFns;

use crate::battery_level::{level_of, BatteryLevel};
use crate::decimal::{decimal_chars, decimal_text, trimmed, trimmed_bounds};
use crate::failure::Failure;
use crate::service::{default_events, unit_file, BatteryLimiterService, ServiceView};
use crate::THRESHOLD_FILE;

verus! {

/// The arguments of the privileged run.
pub struct BatteryLimiterArgs {
    /// Persist the change as a systemd unit.
    pub persist: bool,
    /// The threshold percentage.
    pub percentage: u8,
}

/// The classification of a privileged run, as printed for the caller.
#[derive(Debug, Clone, Copy, PartialEq, Eq, Structural)]
pub enum Status {
    Applied,
    PermissionDenied,
    FileNotFound,
    Failed,
}

/// The status that a failure is reported as.
pub open spec fn status_of(f: Failure) -> Status {
    match f {
        Failure::PermissionDenied => Status::PermissionDenied,
        Failure::NotFound => Status::FileNotFound,
        Failure::DataCorruption => Status::Failed,
        Failure::Other => Status::Failed,
    }
}

/// The line printed for a status.
pub open spec fn status_text(s: Status) -> Seq<char> {
    match s {
        Status::Applied => "modification applied"@,
        Status::PermissionDenied => "permission denied"@,
        Status::FileNotFound => "file not found"@,
        Status::Failed => "modification failed"@,
    }
}

impl Status {
    /// The status that a failure is reported as.
    pub fn from_failure(f: Failure) -> (r: Status)
        ensures
            r == status_of(f),
    {
        match f {
            Failure::PermissionDenied => Status::PermissionDenied,
            Failure::NotFound => Status::FileNotFound,
            Failure::DataCorruption => Status::Failed,
            Failure::Other => Status::Failed,
        }
    }

    /// The line printed for this status.
    pub fn message(&self) -> (r: &'static str)
        ensures
            r@ == status_text(*self),
    {
        match self {
            Status::Applied => "modification applied",
            Status::PermissionDenied => "permission denied",
            Status::FileNotFound => "file not found",
            Status::Failed => "modification failed",
        }
    }
}

/// Where a privileged run stands.
#[derive(Debug, Clone, Copy, PartialEq, Eq, Structural)]
pub enum Stage {
    ApplyThreshold,
    WriteUnitFile,
    ReloadUnits,
    EnableUnit,
    Finished(Status),
}

/// The outside work that a privileged run asks for next.
#[derive(Debug)]
pub enum Action {
    /// Append this text to the sysfs threshold node and sync it.
    WriteThreshold(String),
    /// Create or truncate the unit file, write this text to it and sync it.
    WriteUnitFile(String),
    /// Have the service manager reload its unit definitions.
    ReloadUnits,
    /// Have the service manager enable the unit.
    EnableUnit,
    /// Print this status and exit successfully.
    Report(Status),
}

pub enum ActionView {
    WriteThreshold(Seq<char>),
    WriteUnitFile(Seq<char>),
    ReloadUnits,
    EnableUnit,
    Report(Status),
}

impl View for Action {
    type V = ActionView;

    open spec fn view(&self) -> ActionView {
        match self {
            Action::WriteThreshold(t) => ActionView::WriteThreshold(t@),
            Action::WriteUnitFile(t) => ActionView::WriteUnitFile(t@),
            Action::ReloadUnits => ActionView::ReloadUnits,
            Action::EnableUnit => ActionView::EnableUnit,
            Action::Report(s) => ActionView::Report(*s),
        }
    }
}

/// How a piece of outside work ended: a file written, or a service-manager
/// command that ran and exited successfully; or the failure.
#[derive(Debug, Clone, Copy, PartialEq, Eq, Structural)]
pub enum StepResult {
    Done,
    Failed(Failure),
}

pub struct RunView {
    pub level: BatteryLevel,
    pub persist: bool,
    pub stage: Stage,
}

/// The unit installed for a threshold percentage `p`.
pub open spec fn unit_file_for(p: nat) -> Seq<char> {
    unit_file(ServiceView { events: default_events(), threshold_path: THRESHOLD_FILE@, threshold: p as u8 })
}

/// The outside work that a run asks for in a state.
pub open spec fn action_of(v: RunView) -> ActionView {
    match v.stage {
        Stage::ApplyThreshold => ActionView::WriteThreshold(decimal_chars(v.level.percentage())),
        Stage::WriteUnitFile => ActionView::WriteUnitFile(unit_file_for(v.level.percentage())),
        Stage::ReloadUnits => ActionView::ReloadUnits,
        Stage::EnableUnit => ActionView::EnableUnit,
        Stage::Finished(s) => ActionView::Report(s),
    }
}

/// The stage after the work of `stage` ended with `result`: a failure ends
/// the run at once; the unit steps follow the threshold only where asked.
pub open spec fn next_stage(stage: Stage, persist: bool, result: StepResult) -> Stage {
    match stage {
        Stage::Finished(s) => Stage::Finished(s),
        _ => match result {
            StepResult::Failed(f) => Stage::Finished(status_of(f)),
            StepResult::Done => match stage {
                Stage::ApplyThreshold => if persist {
                    Stage::WriteUnitFile
                } else {
                    Stage::Finished(Status::Applied)
                },
                Stage::WriteUnitFile => Stage::ReloadUnits,
                Stage::ReloadUnits => Stage::EnableUnit,
                _ => Stage::Finished(Status::Applied),
            },
        },
    }
}

/// A privileged run: the level to apply, whether to persist it, and where
/// the run stands.
pub struct PrivilegedRun {
    level: BatteryLevel,
    persist: bool,
    stage: Stage,
}

impl View for PrivilegedRun {
    type V = RunView;

    closed spec fn view(&self) -> RunView {
        RunView { level: self.level, persist: self.persist, stage: self.stage }
    }
}

impl PrivilegedRun {
    /// A run that has yet to apply the level given by the arguments.
    pub fn new(args: &BatteryLimiterArgs) -> (r: PrivilegedRun)
        ensures
            r@ == (RunView {
                level: level_of(args.percentage),
                persist: args.persist,
                stage: Stage::ApplyThreshold,
            }),
    {
        PrivilegedRun {
            level: BatteryLevel::from_raw_percentage(args.percentage),
            persist: args.persist,
            stage: Stage::ApplyThreshold,
        }
    }

    /// The outside work to do next; `Report` once the run is over.
    pub fn next_action(&self) -> (r: Action)
        ensures
            r@ == action_of(self@),
    {
        match self.stage {
            Stage::ApplyThreshold => Action::WriteThreshold(self.level.threshold_text()),
            Stage::WriteUnitFile => {
                let service = BatteryLimiterService::new(self.level.get_percentage());
                Action::WriteUnitFile(service.render())
            },
            Stage::ReloadUnits => Action::ReloadUnits,
            Stage::EnableUnit => Action::EnableUnit,
            Stage::Finished(s) => Action::Report(s),
        }
    }

    /// Takes the result of the work that `next_action` asked for.
    pub fn advance(&mut self, result: StepResult)
        ensures
            final(self)@ == (RunView {
                stage: next_stage(old(self)@.stage, old(self)@.persist, result),
                ..old(self)@
            }),
    {
        let next = match self.stage {
            Stage::Finished(s) => Stage::Finished(s),
            _ => match result {
                StepResult::Failed(f) => Stage::Finished(Status::from_failure(f)),
                StepResult::Done => match self.stage {
                    Stage::ApplyThreshold => if self.persist {
                        Stage::WriteUnitFile
                    } else {
                        Stage::Finished(Status::Applied)
                    },
                    Stage::WriteUnitFile => Stage::ReloadUnits,
                    Stage::ReloadUnits => Stage::EnableUnit,
                    _ => Stage::Finished(Status::Applied),
                },
            },
        };
        self.stage = next;
    }

    /// Whether the run is over.
    pub fn is_finished(&self) -> (r: bool)
        ensures
            r == (self@.stage is Finished),
    {
        match self.stage {
            Stage::Finished(_) => true,
            _ => false,
        }
    }
}

/// The command line that the caller hands to the privilege-escalation
/// helper: its own executable, the persist flag and the percentage.
pub fn format_cli_args(exe_path: &str, percentage: u8) -> (r: Vec<String>)
    ensures
        r@.map_values(|a: String| a@) == seq![
            exe_path@,
            "--persist"@,
            "--percentage"@,
            decimal_chars(percentage as nat),
        ],
{
    let r = vec![
        String::from_str(exe_path),
        String::from_str("--persist"),
        String::from_str("--percentage"),
        decimal_text(percentage),
    ];
    assert(r@.map_values(|a: String| a@) =~= seq![
        exe_path@,
        "--persist"@,
        "--percentage"@,
        decimal_chars(percentage as nat),
    ]);
    r
}

/// What the caller makes of a finished escalation.
#[derive(Debug)]
pub enum Report {
    /// The helper failed or elevation was refused: the run never happened.
    EscalationDenied,
    /// The run printed one of the status lines.
    Completed(Status),
    /// The run printed something else, kept trimmed.
    Unrecognized(String),
}

pub enum ReportView {
    EscalationDenied,
    Completed(Status),
    Unrecognized(Seq<char>),
}

impl View for Report {
    type V = ReportView;

    open spec fn view(&self) -> ReportView {
        match self {
            Report::EscalationDenied => ReportView::EscalationDenied,
            Report::Completed(s) => ReportView::Completed(*s),
            Report::Unrecognized(t) => ReportView::Unrecognized(t@),
        }
    }
}

/// The caller's reading of an escalation that exited successfully or not,
/// having printed `stdout`: a failed exit is a denied escalation whatever was
/// printed; otherwise the trimmed output is a status line or is kept as it is.
pub open spec fn report_of(exit_success: bool, stdout: Seq<char>) -> ReportView {
    if !exit_success {
        ReportView::EscalationDenied
    } else if trimmed(stdout) == status_text(Status::Applied) {
        ReportView::Completed(Status::Applied)
    } else if trimmed(stdout) == status_text(Status::PermissionDenied) {
        ReportView::Completed(Status::PermissionDenied)
    } else if trimmed(stdout) == status_text(Status::FileNotFound) {
        ReportView::Completed(Status::FileNotFound)
    } else if trimmed(stdout) == status_text(Status::Failed) {
        ReportView::Completed(Status::Failed)
    } else {
        ReportView::Unrecognized(trimmed(stdout))
    }
}

/// The text shown to the user for a report.
pub open spec fn report_text(r: ReportView) -> Seq<char> {
    match r {
        ReportView::EscalationDenied => status_text(Status::Failed),
        ReportView::Completed(s) => status_text(s),
        ReportView::Unrecognized(t) => t,
    }
}

/// Whether `text` is the line printed for `s`.
fn is_status_line(text: &String, s: Status) -> (r: bool)
    ensures
        r == (text@ == status_text(s)),
{
    let line = String::from_str(s.message());
    *text == line
}

/// Reads back the outcome of an escalation.
pub fn interpret_escalation(exit_success: bool, stdout: &str) -> (r: Report)
    ensures
        r@ == report_of(exit_success, stdout@),
{
    if !exit_success {
        return Report::EscalationDenied;
    }
    let (start, end) = trimmed_bounds(stdout);
    let text = String::from_str(stdout.substring_char(start, end));
    if is_status_line(&text, Status::Applied) {
        Report::Completed(Status::Applied)
    } else if is_status_line(&text, Status::PermissionDenied) {
        Report::Completed(Status::PermissionDenied)
    } else if is_status_line(&text, Status::FileNotFound) {
        Report::Completed(Status::FileNotFound)
    } else if is_status_line(&text, Status::Failed) {
        Report::Completed(Status::Failed)
    } else {
        Report::Unrecognized(text)
    }
}

impl Report {
    /// The text shown to the user: a denied escalation shows as a failed
    /// modification.
    pub fn text(&self) -> (r: String)
        ensures
            r@ == report_text(self@),
    {
        match self {
            Report::EscalationDenied => String::from_str(Status::Failed.message()),
            Report::Completed(s) => String::from_str(s.message()),
            Report::Unrecognized(t) => t.clone(),
        }
    }
}

/// A run that persists and meets no failure writes the threshold, writes the
/// unit for that threshold, reloads, enables, and reports success.
pub proof fn lemma_persisting_run_succeeds(args: BatteryLimiterArgs)
    requires
        args.persist,
    ensures
        ({
            let v0 = RunView { level: level_of(args.percentage), persist: true, stage: Stage::ApplyThreshold };
            let v1 = RunView { stage: next_stage(v0.stage, true, StepResult::Done), ..v0 };
            let v2 = RunView { stage: next_stage(v1.stage, true, StepResult::Done), ..v0 };
            let v3 = RunView { stage: next_stage(v2.stage, true, StepResult::Done), ..v0 };
            let v4 = RunView { stage: next_stage(v3.stage, true, StepResult::Done), ..v0 };
            let p = level_of(args.percentage).percentage();
            &&& action_of(v0) == ActionView::WriteThreshold(decimal_chars(p))
            &&& action_of(v1) == ActionView::WriteUnitFile(unit_file_for(p))
            &&& action_of(v2) == ActionView::ReloadUnits
            &&& action_of(v3) == ActionView::EnableUnit
            &&& action_of(v4) == ActionView::Report(Status::Applied)
        }),
{
}

/// The first failure ends a run, whatever stage it came at, and is reported
/// by its kind.
pub proof fn lemma_failure_ends_run(v: RunView, f: Failure)
    requires
        !(v.stage is Finished),
    ensures
        action_of(RunView { stage: next_stage(v.stage, v.persist, StepResult::Failed(f)), ..v })
            == ActionView::Report(status_of(f)),
{
}

/// Persisting twice with the same percentage writes the same unit file text.
pub proof fn lemma_unit_file_same_for_same_percentage(a: RunView, b: RunView)
    requires
        a.stage == Stage::WriteUnitFile,
        b.stage == Stage::WriteUnitFile,
        a.level.percentage() == b.level.percentage(),
    ensures
        action_of(a) == action_of(b),
{
}

/// Once a run is over it stays over and reports the same status.
pub proof fn lemma_finished_run_stays(v: RunView, result: StepResult)
    requires
        v.stage is Finished,
    ensures
        next_stage(v.stage, v.persist, result) == v.stage,
{
}

} // verus!
