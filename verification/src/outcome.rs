//! The values that flow out of the framework: errors, run reports and
//! normalised outcomes.

use crate::module::ExecutionError;
use vstd::prelude::*;

verus! {

/// Everything that can go wrong in the framework.
#[derive(Debug, Clone, PartialEq, Eq)]
pub enum BahamutError {
    /// The requested module identifier is not in the registry.
    UnknownModule,
    /// No target was supplied, or the target was empty.
    MissingTarget,
    /// A module was registered under an identifier that is already taken.
    DuplicateModuleId { module_id: String },
    /// A module's `execute` failed, by returning an error or by an internal
    /// fault.
    ModuleExecutionError { message: String },
}

/// The mathematical value of a [`BahamutError`].
pub enum ErrorView {
    UnknownModule,
    MissingTarget,
    DuplicateModuleId { module_id: Seq<char> },
    ModuleExecutionError { message: Seq<char> },
}

impl View for BahamutError {
    type V = ErrorView;

    open spec fn view(&self) -> ErrorView {
        match self {
            BahamutError::UnknownModule => ErrorView::UnknownModule,
            BahamutError::MissingTarget => ErrorView::MissingTarget,
            BahamutError::DuplicateModuleId { module_id } => ErrorView::DuplicateModuleId {
                module_id: module_id@,
            },
            BahamutError::ModuleExecutionError { message } => ErrorView::ModuleExecutionError {
                message: message@,
            },
        }
    }
}

impl ErrorView {
    /// The text shown to the user for this error.
    pub open spec fn message(self) -> Seq<char> {
        match self {
            ErrorView::UnknownModule => "unknown module"@,
            ErrorView::MissingTarget => "target required"@,
            ErrorView::DuplicateModuleId { module_id } => "duplicate module id: "@ + module_id,
            ErrorView::ModuleExecutionError { message } => message,
        }
    }
}

impl BahamutError {
    /// The text shown to the user for this error.
    pub fn message(&self) -> (message: String)
        ensures
            message@ == self@.message(),
    {
        match self {
            BahamutError::UnknownModule => "unknown module".to_owned(),
            BahamutError::MissingTarget => "target required".to_owned(),
            BahamutError::DuplicateModuleId { module_id } => {
                let mut message = "duplicate module id: ".to_owned();
                message.append(module_id.as_str());
                message
            },
            BahamutError::ModuleExecutionError { message } => message.clone(),
        }
    }
}

} // verus!

verus! {

/// One request to run a module: which module, against which target.
#[derive(Debug, Clone, PartialEq, Eq)]
pub struct ExecutionRequest {
    pub module_id: String,
    pub target: String,
}

/// The mathematical value of an [`ExecutionRequest`].
pub struct RequestView {
    pub module_id: Seq<char>,
    pub target: Seq<char>,
}

impl View for ExecutionRequest {
    type V = RequestView;

    open spec fn view(&self) -> RequestView {
        RequestView { module_id: self.module_id@, target: self.target@ }
    }
}

impl ExecutionRequest {
    /// A request to run the module `module_id` against `target`.
    pub fn new(module_id: String, target: String) -> (request: ExecutionRequest)
        ensures
            request@ == (RequestView { module_id: module_id@, target: target@ }),
    {
        ExecutionRequest { module_id, target }
    }
}

/// What one call of a module's `execute` came to, as seen by whoever made the
/// call.
#[derive(Debug, Clone, PartialEq, Eq)]
pub enum RunReport {
    /// The call returned normally and reported success.
    Completed,
    /// The call returned normally and reported an error.
    Failed(ExecutionError),
    /// The call did not return normally: the module hit an internal fault,
    /// which the caller caught. `detail` describes the fault.
    Faulted { detail: String },
}

/// The mathematical value of a [`RunReport`].
pub enum RunReportView {
    Completed,
    Failed(Seq<char>),
    Faulted { detail: Seq<char> },
}

impl View for RunReport {
    type V = RunReportView;

    open spec fn view(&self) -> RunReportView {
        match self {
            RunReport::Completed => RunReportView::Completed,
            RunReport::Failed(error) => RunReportView::Failed(error@),
            RunReport::Faulted { detail } => RunReportView::Faulted { detail: detail@ },
        }
    }
}

impl RunReportView {
    /// The error a run amounts to, if it amounts to one. An error that the
    /// module returned and a fault that was caught are the same kind of
    /// error; they differ only in where the message comes from.
    pub open spec fn error(self) -> Option<ErrorView> {
        match self {
            RunReportView::Completed => None,
            RunReportView::Failed(message) => Some(ErrorView::ModuleExecutionError { message }),
            RunReportView::Faulted { detail } => Some(
                ErrorView::ModuleExecutionError { message: detail },
            ),
        }
    }
}

impl RunReport {
    /// The report for what a call of `execute` returned.
    pub fn from_result(result: Result<(), ExecutionError>) -> (report: RunReport)
        ensures
            report@ == match result {
                Ok(_) => RunReportView::Completed,
                Err(error) => RunReportView::Failed(error@),
            },
    {
        match result {
            Ok(_) => RunReport::Completed,
            Err(error) => RunReport::Failed(error),
        }
    }

    /// The error this run amounts to, if it amounts to one.
    pub fn into_error(self) -> (error: Option<BahamutError>)
        ensures
            match error {
                Some(e) => self@.error() == Some(e@),
                None => self@.error() is None,
            },
    {
        match self {
            RunReport::Completed => None,
            RunReport::Failed(error) => Some(
                BahamutError::ModuleExecutionError { message: error.message },
            ),
            RunReport::Faulted { detail } => Some(
                BahamutError::ModuleExecutionError { message: detail },
            ),
        }
    }
}

/// The normalised result of one dispatch. The dispatcher never looks into
/// what a successful module produced; it only tells success from failure.
#[derive(Debug, Clone, PartialEq, Eq)]
pub enum ExecutionOutcome {
    Success,
    Failure { module_id: String, message: String },
}

/// The mathematical value of an [`ExecutionOutcome`].
pub enum OutcomeView {
    Success,
    Failure { module_id: Seq<char>, message: Seq<char> },
}

impl View for ExecutionOutcome {
    type V = OutcomeView;

    open spec fn view(&self) -> OutcomeView {
        match self {
            ExecutionOutcome::Success => OutcomeView::Success,
            ExecutionOutcome::Failure { module_id, message } => OutcomeView::Failure {
                module_id: module_id@,
                message: message@,
            },
        }
    }
}

/// The exit status of a process that showed help or ran a module with
/// success.
pub const EXIT_SUCCESS: i32 = 0;

/// The exit status of a process that rejected its input or whose module
/// failed.
pub const EXIT_FAILURE: i32 = 1;

impl OutcomeView {
    /// The failure that reports `error` for the module `module_id`.
    pub open spec fn failure(module_id: Seq<char>, error: ErrorView) -> OutcomeView {
        OutcomeView::Failure { module_id, message: error.message() }
    }

    /// The outcome that a finished run of the module `module_id` amounts to.
    pub open spec fn of_run(module_id: Seq<char>, report: RunReportView) -> OutcomeView {
        match report.error() {
            None => OutcomeView::Success,
            Some(error) => OutcomeView::failure(module_id, error),
        }
    }

    /// The exit status a process ends with after this outcome.
    pub open spec fn exit_status(self) -> int {
        match self {
            OutcomeView::Success => EXIT_SUCCESS as int,
            OutcomeView::Failure { .. } => EXIT_FAILURE as int,
        }
    }
}

impl ExecutionOutcome {
    /// The failure that reports `error` for the module `module_id`.
    pub fn failure(module_id: &str, error: &BahamutError) -> (outcome: ExecutionOutcome)
        ensures
            outcome@ == OutcomeView::failure(module_id@, error@),
    {
        ExecutionOutcome::Failure { module_id: module_id.to_owned(), message: error.message() }
    }

    /// Whether the module ran and reported success.
    pub fn is_success(&self) -> (success: bool)
        ensures
            success == (self@ is Success),
    {
        match self {
            ExecutionOutcome::Success => true,
            ExecutionOutcome::Failure { .. } => false,
        }
    }

    /// Whether the dispatch failed, for whichever reason.
    pub fn is_failure(&self) -> (failure: bool)
        ensures
            failure == (self@ is Failure),
    {
        !self.is_success()
    }

    /// The exit status a process ends with after this outcome: zero after a
    /// success, non-zero after a failure.
    pub fn exit_status(&self) -> (status: i32)
        ensures
            status == self@.exit_status(),
            status == 0 <==> self@ is Success,
    {
        match self {
            ExecutionOutcome::Success => EXIT_SUCCESS,
            ExecutionOutcome::Failure { .. } => EXIT_FAILURE,
        }
    }
}

} // verus!
